use filey::{Error, FileTypes, Filey, Request, Transfer};

const MISSING: &str = "/no_such_directory_here/no_such_file_or_directory";

#[test]
fn the_root_is_a_directory() {
    let root = Filey::new("/");
    assert!(root.is_present());
    assert!(root.is_dir());
    assert!(!root.is_file());
    assert!(!root.is_symlink());
    assert_eq!(root.file_type(), Ok(FileTypes::Directory));
    assert_eq!(FileTypes::which("/"), Some(FileTypes::Directory));
}

#[test]
fn a_missing_path_is_nothing() {
    let missing = Filey::new(MISSING);
    assert!(!missing.is_present());
    assert!(!missing.is_dir());
    assert!(!missing.is_file());
    assert!(!missing.is_symlink());
    assert_eq!(FileTypes::which(MISSING), None);
    assert_eq!(
        missing.file_type(),
        Err(Error::NotFound {
            path: MISSING.to_string()
        })
    );
}

#[test]
fn size_styled_goes_by_the_kind_on_disk() {
    assert_eq!(Filey::new("/").size_styled(3), Ok("3".to_string()));
    assert_eq!(Filey::new("/").size_styled(2048), Ok("2048".to_string()));
    assert_eq!(
        Filey::new(MISSING).size_styled(3),
        Err(Error::NotFound {
            path: MISSING.to_string()
        })
    );
}

#[test]
fn canonicalized_fails_where_a_segment_is_missing() {
    assert_eq!(
        Filey::new(MISSING).canonicalized(),
        Err(Error::NotFound {
            path: MISSING.to_string()
        })
    );
    let mut file = Filey::new(MISSING);
    assert!(file.canonicalize().is_err());
    assert_eq!(file, Filey::new(MISSING));
}

#[test]
fn canonicalized_resolves_dots_on_disk() {
    assert_eq!(Filey::new("/.").canonicalized(), Ok(Filey::new("/")));
    assert_eq!(Filey::new("/..//").canonicalized(), Ok(Filey::new("/")));
    let mut file = Filey::new("/./.");
    assert_eq!(file.canonicalize().unwrap().to_string(), "/");
}

#[test]
fn plans_ask_the_disk() {
    assert_eq!(
        Filey::new("/").remove(),
        Ok(Request::RemoveDirectoryTree {
            path: "/".to_string()
        })
    );
    assert_eq!(
        Filey::new("/").size(),
        Ok(Request::CountEntries {
            path: "/".to_string()
        })
    );
    assert_eq!(
        Filey::new("/").list(),
        Ok(Request::ReadEntries {
            path: "/".to_string()
        })
    );
    for plan in [
        Filey::new(MISSING).remove(),
        Filey::new(MISSING).size(),
        Filey::new(MISSING).list(),
    ] {
        assert_eq!(
            plan,
            Err(Error::NotFound {
                path: MISSING.to_string()
            })
        );
    }
}

#[test]
fn transfer_into_an_existing_directory() {
    let file = Filey::new("somewhere/no_such_file_or_directory");
    assert_eq!(
        file.transfer(Transfer::Move, "/"),
        Ok(Request::Rename {
            from: "somewhere/no_such_file_or_directory".to_string(),
            to: "//no_such_file_or_directory".to_string()
        })
    );
}

#[test]
fn each_way_of_transfer_has_its_plan() {
    let file = Filey::new("somewhere/file_a");
    let from = "somewhere/file_a".to_string();
    let to = MISSING.to_string();
    assert_eq!(
        file.move_to(MISSING),
        Ok(Request::Rename { from: from.clone(), to: to.clone() })
    );
    assert_eq!(
        file.copy(MISSING),
        Ok(Request::CopyContents { from: from.clone(), to: to.clone() })
    );
    assert_eq!(
        file.symlink(MISSING),
        Ok(Request::SymbolicLink { original: from.clone(), link: to.clone() })
    );
    assert_eq!(
        file.hard_link(MISSING),
        Ok(Request::HardLink { original: from.clone(), link: to.clone() })
    );
    assert_eq!(
        file.move_to("/").unwrap().arrives_at(),
        Some(&"//file_a".to_string())
    );
    assert_eq!(
        Filey::new("/").move_to("/"),
        Err(Error::AlreadyExists { path: "///".to_string() })
    );
}

#[test]
fn transfer_to_a_free_path() {
    let file = Filey::new("somewhere/file_a");
    assert_eq!(
        file.transfer(Transfer::Copy, MISSING),
        Ok(Request::CopyContents {
            from: "somewhere/file_a".to_string(),
            to: MISSING.to_string()
        })
    );
}

#[test]
fn transfer_of_a_path_without_a_name_carries_the_whole_path() {
    assert_eq!(
        Filey::new("..").transfer(Transfer::HardLink, "/"),
        Err(Error::AlreadyExists {
            path: "//..".to_string()
        })
    );
}
