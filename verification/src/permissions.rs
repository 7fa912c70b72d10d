//! Read, write and execute rights of the owner, the group and everyone else.

use crate::error::{Error, ErrorView};
use vstd::prelude::*;
use vstd::string::*;

verus! {

/// The rights of one class of users.
#[derive(Debug, PartialEq, Eq, Structural)]
pub struct Permission {
    execute: bool,
    write: bool,
    read: bool,
}

/// The rights that a three-bit mode grants: bit 0 to execute, bit 1 to
/// write, bit 2 to read. A mode above seven grants nothing.
pub open spec fn rights_of_mode(mode: nat) -> (bool, bool, bool) {
    if mode <= 7 {
        (mode % 2 == 1, (mode / 2) % 2 == 1, (mode / 4) % 2 == 1)
    } else {
        (false, false, false)
    }
}

impl Permission {
    /// The right to execute.
    pub closed spec fn execute(self) -> bool {
        self.execute
    }

    /// The right to write.
    pub closed spec fn write(self) -> bool {
        self.write
    }

    /// The right to read.
    pub closed spec fn read(self) -> bool {
        self.read
    }

    /// The three rights as (execute, write, read).
    pub open spec fn rights(self) -> (bool, bool, bool) {
        (self.execute(), self.write(), self.read())
    }

    pub fn new(execute: bool, write: bool, read: bool) -> (permission: Self)
        ensures
            permission.rights() == (execute, write, read),
    {
        Self { execute, write, read }
    }

    /// The rights that one octal digit of a file mode grants.
    pub fn from_mode(mode: u32) -> (permission: Self)
        ensures
            permission.rights() == rights_of_mode(mode as nat),
    {
        if mode == 1 {
            Self::new(true, false, false)
        } else if mode == 2 {
            Self::new(false, true, false)
        } else if mode == 3 {
            Self::new(true, true, false)
        } else if mode == 4 {
            Self::new(false, false, true)
        } else if mode == 5 {
            Self::new(true, false, true)
        } else if mode == 6 {
            Self::new(false, true, true)
        } else if mode == 7 {
            Self::new(true, true, true)
        } else {
            Self::new(false, false, false)
        }
    }

    pub fn has_execute(&self) -> (granted: bool)
        ensures
            granted == self.execute(),
    {
        self.execute
    }

    pub fn has_write(&self) -> (granted: bool)
        ensures
            granted == self.write(),
    {
        self.write
    }

    pub fn has_read(&self) -> (granted: bool)
        ensures
            granted == self.read(),
    {
        self.read
    }

    pub fn set_execute(&mut self, value: bool) -> (same: &mut Self)
        ensures
            same.rights() == (value, old(self).write(), old(self).read()),
            *final(self) == *final(same),
    {
        self.execute = value;
        self
    }

    pub fn set_write(&mut self, value: bool) -> (same: &mut Self)
        ensures
            same.rights() == (old(self).execute(), value, old(self).read()),
            *final(self) == *final(same),
    {
        self.write = value;
        self
    }

    pub fn set_read(&mut self, value: bool) -> (same: &mut Self)
        ensures
            same.rights() == (old(self).execute(), old(self).write(), value),
            *final(self) == *final(same),
    {
        self.read = value;
        self
    }
}

/// Permissions that grant the same rights are equal.
pub proof fn lemma_rights_determine(a: Permission, b: Permission)
    requires
        a.rights() == b.rights(),
    ensures
        a == b,
{
}

impl Clone for Permission {
    fn clone(&self) -> (copy: Self)
        ensures
            copy == *self,
    {
        Self { execute: self.execute, write: self.write, read: self.read }
    }
}

impl Default for Permission {
    fn default() -> (permission: Self)
        ensures
            permission.rights() == (false, false, false),
    {
        Self { execute: false, write: false, read: false }
    }
}

/// The rights of the owner, of the group and of everyone else.
#[derive(Debug, PartialEq, Eq, Structural)]
pub struct Permissions {
    user: Permission,
    group: Permission,
    others: Permission,
}

/// The mathematical content of [`Permissions`].
pub struct PermissionsView {
    pub user: Permission,
    pub group: Permission,
    pub others: Permission,
}

impl View for Permissions {
    type V = PermissionsView;

    closed spec fn view(&self) -> PermissionsView {
        PermissionsView { user: self.user, group: self.group, others: self.others }
    }
}

impl Permissions {
    pub fn new(user: Permission, group: Permission, others: Permission) -> (permissions: Self)
        ensures
            permissions@ == (PermissionsView { user, group, others }),
    {
        Self { user, group, others }
    }

    /// The rights that the permission bits of a file mode grant: the lowest
    /// octal digit to everyone else, the next to the group, the third to the
    /// owner. Higher bits, which tell the kind of file, are not looked at.
    pub fn from_mode(mode: u32) -> (permissions: Self)
        ensures
            permissions@.user.rights() == rights_of_mode((mode as nat / 64) % 8),
            permissions@.group.rights() == rights_of_mode((mode as nat / 8) % 8),
            permissions@.others.rights() == rights_of_mode(mode as nat % 8),
    {
        let user = Permission::from_mode((mode / 64) % 8);
        let group = Permission::from_mode((mode / 8) % 8);
        let others = Permission::from_mode(mode % 8);
        Self::new(user, group, others)
    }

    pub fn user(&self) -> (permission: &Permission)
        ensures
            *permission == self@.user,
    {
        &self.user
    }

    pub fn group(&self) -> (permission: &Permission)
        ensures
            *permission == self@.group,
    {
        &self.group
    }

    pub fn others(&self) -> (permission: &Permission)
        ensures
            *permission == self@.others,
    {
        &self.others
    }
}

impl Clone for Permissions {
    fn clone(&self) -> (copy: Self)
        ensures
            copy == *self,
    {
        Self { user: self.user.clone(), group: self.group.clone(), others: self.others.clone() }
    }
}

impl Default for Permissions {
    fn default() -> (permissions: Self)
        ensures
            permissions@.user.rights() == (false, false, false),
            permissions@.group.rights() == (false, false, false),
            permissions@.others.rights() == (false, false, false),
    {
        Self {
            user: Permission::default(),
            group: Permission::default(),
            others: Permission::default(),
        }
    }
}

/// The value of a decimal digit, as the number that its character writes.
pub open spec fn digit_value(c: char) -> Option<nat> {
    if '0' <= c <= '9' {
        Some((c as nat - '0' as nat) as nat)
    } else {
        None
    }
}

/// Reads one character as a decimal digit. Any other character is reported
/// as a failure that names no path.
pub fn char_to_u32(c: char) -> (value: Result<u32, Error>)
    ensures
        match value {
            Ok(d) => digit_value(c) == Some(d as nat),
            Err(e) => digit_value(c) is None && e@ == (ErrorView::FilesystemError {
                path: Seq::empty(),
                reason: "invalid digit found in string"@,
            }),
        },
{
    if '0' <= c && c <= '9' {
        Ok(c as u32 - '0' as u32)
    } else {
        Err(
            Error::FilesystemError {
                path: String::new(),
                reason: String::from_str("invalid digit found in string"),
            },
        )
    }
}

} // verus!
