//! The kinds of file that a path can lead to.

use crate::error::{Error, ErrorView};
use crate::system;
use vstd::prelude::*;
use vstd::string::*;

verus! {

#[derive(PartialEq, Eq, Structural, PartialOrd, Ord, Clone, Copy, Debug, Hash)]
pub enum FileTypes {
    File,
    Directory,
    Symlink,
}

impl FileTypes {
    /// The kind of a path, from three answers of the file system: whether
    /// the path itself is a symbolic link, whether it leads to anything, and
    /// whether it leads to a directory. A symbolic link counts as one even
    /// where its target is missing.
    pub open spec fn classified(is_symlink: bool, exists: bool, is_dir: bool) -> Option<
        FileTypes,
    > {
        if is_symlink {
            Some(FileTypes::Symlink)
        } else if !exists {
            None
        } else if is_dir {
            Some(FileTypes::Directory)
        } else {
            Some(FileTypes::File)
        }
    }

    /// The word for the kind.
    pub open spec fn name(self) -> Seq<char> {
        match self {
            FileTypes::File => "file"@,
            FileTypes::Directory => "directory"@,
            FileTypes::Symlink => "symlink"@,
        }
    }

    /// Tells the kind of a path from what the file system answered.
    pub fn classify(is_symlink: bool, exists: bool, is_dir: bool) -> (kind: Option<FileTypes>)
        ensures
            kind == Self::classified(is_symlink, exists, is_dir),
    {
        if is_symlink {
            Some(FileTypes::Symlink)
        } else if exists {
            if is_dir {
                Some(FileTypes::Directory)
            } else {
                Some(FileTypes::File)
            }
        } else {
            None
        }
    }

    /// Detects the kind of the file at `path`, or `None` where nothing is
    /// there. The answer is [`FileTypes::classified`] of what the file
    /// system says at the moment of the call.
    pub fn which(path: &str) -> (kind: Option<FileTypes>) {
        let is_symlink = system::is_symlink(path);
        let exists = is_symlink || system::path_exists(path);
        let is_dir = exists && !is_symlink && system::is_dir(path);
        Self::classify(is_symlink, exists, is_dir)
    }

    /// Insists that something is at `path`, whose kind was found to be
    /// `kind`: nothing there is a failure.
    pub fn found(kind: Option<FileTypes>, path: &str) -> (outcome: Result<FileTypes, Error>)
        ensures
            match outcome {
                Ok(known) => kind == Some(known),
                Err(e) => kind is None && e@ == (ErrorView::NotFound { path: path@ }),
            },
    {
        match kind {
            Some(known) => Ok(known),
            None => Err(Error::NotFound { path: String::from_str(path) }),
        }
    }

    /// The word for the kind, as an owned string.
    pub fn to_string(&self) -> (text: String)
        ensures
            text@ == self.name(),
    {
        match self {
            FileTypes::File => String::from_str("file"),
            FileTypes::Directory => String::from_str("directory"),
            FileTypes::Symlink => String::from_str("symlink"),
        }
    }
}

} // verus!
