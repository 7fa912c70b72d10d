use filey::permissions::char_to_u32;
use filey::{Error, Permission, Permissions};

#[test]
fn permission_from_each_mode() {
    assert_eq!(Permission::from_mode(0), Permission::new(false, false, false));
    assert_eq!(Permission::from_mode(1), Permission::new(true, false, false));
    assert_eq!(Permission::from_mode(2), Permission::new(false, true, false));
    assert_eq!(Permission::from_mode(3), Permission::new(true, true, false));
    assert_eq!(Permission::from_mode(4), Permission::new(false, false, true));
    assert_eq!(Permission::from_mode(5), Permission::new(true, false, true));
    assert_eq!(Permission::from_mode(6), Permission::new(false, true, true));
    assert_eq!(Permission::from_mode(7), Permission::new(true, true, true));
    assert_eq!(Permission::from_mode(8), Permission::new(false, false, false));
    assert_eq!(Permission::from_mode(u32::MAX), Permission::new(false, false, false));
}

#[test]
fn permission_getters_and_setters() {
    let mut p = Permission::new(true, false, true);
    assert!(p.has_execute());
    assert!(!p.has_write());
    assert!(p.has_read());
    p.set_execute(false).set_write(true).set_read(false);
    assert_eq!(p, Permission::new(false, true, false));
    assert_eq!(p.clone(), p);
    assert_eq!(Permission::default(), Permission::new(false, false, false));
}

#[test]
fn permissions_from_file_modes() {
    let file = Permissions::from_mode(0o100644);
    assert_eq!(file.user(), &Permission::new(false, true, true));
    assert_eq!(file.group(), &Permission::new(false, false, true));
    assert_eq!(file.others(), &Permission::new(false, false, true));
    let directory = Permissions::from_mode(0o40755);
    assert_eq!(directory.user(), &Permission::new(true, true, true));
    assert_eq!(directory.group(), &Permission::new(true, false, true));
    assert_eq!(directory.others(), &Permission::new(true, false, true));
    let odd = Permissions::from_mode(0o4123);
    assert_eq!(
        odd,
        Permissions::new(
            Permission::new(true, false, false),
            Permission::new(false, true, false),
            Permission::new(true, true, false),
        )
    );
    assert_eq!(Permissions::default(), Permissions::from_mode(0));
    assert_eq!(odd.clone(), odd);
}

#[test]
fn char_to_u32_reads_digits_only() {
    assert_eq!(char_to_u32('0'), Ok(0));
    assert_eq!(char_to_u32('7'), Ok(7));
    assert_eq!(char_to_u32('9'), Ok(9));
    for c in ['a', '/', ':', ' ', '+', '٣'] {
        assert_eq!(
            char_to_u32(c),
            Err(Error::FilesystemError {
                path: String::new(),
                reason: "invalid digit found in string".to_string(),
            })
        );
    }
}
