use filey::{Error, Filey, PathNormalizer};

fn at_home() -> PathNormalizer {
    PathNormalizer::new(
        Some("/home/p14".to_string()),
        Some("/home/p14/code/filey".to_string()),
    )
}

#[test]
fn test_file_name() {
    assert_eq!(
        Filey::new("src/lib.rs").file_name(),
        Some("lib.rs".to_string())
    )
}

#[test]
fn test_file_stem() {
    assert_eq!(
        Filey::new("src/lib.rs").file_stem(),
        Some("lib".to_string())
    )
}

#[test]
fn test_parent_dir() {
    assert_eq!(
        Filey::new("src/lib.rs").parent_dir(),
        Some("src".to_string())
    )
}

#[test]
fn test_absolutized() {
    assert_eq!(
        Filey::new("test_dir/file_a")
            .absolutized(&at_home())
            .unwrap()
            .to_string(),
        "/home/p14/code/filey/test_dir/file_a".to_string()
    );
}

#[test]
fn test_close_user() {
    assert_eq!(
        Filey::new("test_dir/file_a")
            .absolutized(&at_home())
            .unwrap()
            .close_user(&at_home())
            .unwrap()
            .to_string(),
        "~/code/filey/test_dir/file_a"
    );
}

#[test]
fn test_expand_user() {
    let contracted = Filey::new("test_dir/file_a")
        .absolutized(&at_home())
        .unwrap()
        .close_user(&at_home())
        .unwrap();
    assert_eq!(
        Filey::new(&contracted)
            .expand_user(&at_home())
            .unwrap()
            .to_string(),
        "/home/p14/code/filey/test_dir/file_a"
    );
}

#[test]
fn names_of_paths_without_a_final_component() {
    assert_eq!(Filey::new("/").file_name(), None);
    assert_eq!(Filey::new("src/..").file_name(), None);
    assert_eq!(Filey::new("").file_name(), None);
    assert_eq!(Filey::new("/").file_stem(), None);
    assert_eq!(Filey::new("/").parent_dir(), None);
    assert_eq!(Filey::new("").parent_dir(), None);
}

#[test]
fn names_of_odd_paths() {
    assert_eq!(Filey::new("/usr/bin/").file_name(), Some("bin".to_string()));
    assert_eq!(Filey::new("foo.txt/.").file_name(), Some("foo.txt".to_string()));
    assert_eq!(Filey::new("archive.tar.gz").file_stem(), Some("archive.tar".to_string()));
    assert_eq!(Filey::new(".profile").file_stem(), Some(".profile".to_string()));
    assert_eq!(Filey::new("lib.rs").parent_dir(), Some("".to_string()));
    assert_eq!(Filey::new("/etc").parent_dir(), Some("/".to_string()));
}

#[test]
fn handle_keeps_the_path_as_given() {
    let file = Filey::new("./a//b/../c");
    assert_eq!(file.path(), "./a//b/../c");
    assert_eq!(file.to_string(), "./a//b/../c");
    assert_eq!(file.clone(), file);
    assert_eq!(file, Filey::new("./a//b/../c"));
    assert_ne!(file, Filey::new("a/c"));
    assert!(Filey::new("a") < Filey::new("b"));
}

#[test]
fn expand_user_replaces_only_a_leading_tilde() {
    let n = at_home();
    assert_eq!(n.expand_user("~/audio"), Ok("/home/p14/audio".to_string()));
    assert_eq!(n.expand_user("~"), Ok("/home/p14".to_string()));
    assert_eq!(n.expand_user("~~/x~"), Ok("/home/p14~/x~".to_string()));
    assert_eq!(n.expand_user("a/~/b"), Ok("a/~/b".to_string()));
    assert_eq!(n.expand_user(""), Ok("".to_string()));
    assert_eq!(n.expand_user("/etc"), Ok("/etc".to_string()));
}

#[test]
fn expand_user_needs_home_only_for_a_tilde() {
    let n = PathNormalizer::new(None, Some("/".to_string()));
    assert_eq!(n.expand_user("/etc"), Ok("/etc".to_string()));
    assert_eq!(
        n.expand_user("~/audio"),
        Err(Error::HomeDirUnavailable {
            path: "~/audio".to_string()
        })
    );
    assert_eq!(
        Filey::new("~").expand_user(&n),
        Err(Error::HomeDirUnavailable {
            path: "~".to_string()
        })
    );
}

#[test]
fn contract_user_replaces_only_a_leading_home() {
    let n = at_home();
    assert_eq!(n.contract_user("/home/p14/cats.png"), Ok("~/cats.png".to_string()));
    assert_eq!(n.contract_user("/home/p14"), Ok("~".to_string()));
    assert_eq!(n.contract_user("/home/p14x/y"), Ok("~x/y".to_string()));
    assert_eq!(n.contract_user("/home/p1"), Ok("/home/p1".to_string()));
    assert_eq!(n.contract_user("/srv/home/p14"), Ok("/srv/home/p14".to_string()));
    assert_eq!(n.contract_user(""), Ok("".to_string()));
    assert_eq!(
        n.contract_user("/home/p14/a/home/p14/b"),
        Ok("~/a/home/p14/b".to_string())
    );
}

#[test]
fn handle_contracts_as_the_normalizer_does() {
    let n = at_home();
    let file = Filey::new("/home/p14/cats.png");
    assert_eq!(file.contract_user(&n), Ok("~/cats.png".to_string()));
    assert_eq!(file.close_user(&n), file.contract_user(&n));
    assert_eq!(
        Filey::new("~/cats.png").expand_user(&n),
        Ok(Filey::new("/home/p14/cats.png"))
    );
}

#[test]
fn contract_user_always_needs_home() {
    let n = PathNormalizer::new(None, None);
    assert_eq!(
        n.contract_user("/etc"),
        Err(Error::HomeDirUnavailable {
            path: "/etc".to_string()
        })
    );
}

#[test]
fn contract_then_expand_gives_the_path_back() {
    let n = at_home();
    for path in ["/home/p14", "/home/p14/", "/home/p14/a/b.txt", "/home/p14x", "/home/p14/~"] {
        let short = n.contract_user(path).unwrap();
        assert_eq!(n.expand_user(&short), Ok(path.to_string()));
    }
    let unicode = PathNormalizer::new(Some("/home/zoë".to_string()), None);
    let short = unicode.contract_user("/home/zoë/été.txt").unwrap();
    assert_eq!(short, "~/été.txt");
    assert_eq!(unicode.expand_user(&short), Ok("/home/zoë/été.txt".to_string()));
}

#[test]
fn absolutize_resolves_dots_in_the_text() {
    let n = at_home();
    assert_eq!(n.absolutize("/path/to/123/456"), Ok("/path/to/123/456".to_string()));
    assert_eq!(n.absolutize("/path/to/./123/../456"), Ok("/path/to/456".to_string()));
    assert_eq!(n.absolutize("./x"), Ok("/home/p14/code/filey/x".to_string()));
    assert_eq!(n.absolutize("../x"), Ok("/home/p14/code/x".to_string()));
    assert_eq!(n.absolutize("a/../../b"), Ok("/home/p14/code/b".to_string()));
    assert_eq!(n.absolutize(""), Ok("/home/p14/code/filey".to_string()));
    assert_eq!(n.absolutize("/.."), Ok("/".to_string()));
    assert_eq!(n.absolutize("~/x/../y"), Ok("/home/p14/y".to_string()));
}

#[test]
fn absolutize_twice_is_absolutize_once() {
    let n = at_home();
    for path in ["", ".", "..", "a", "a/b/../c", "/", "/a/./b", "~", "~/../x", "/a//b/"] {
        let once = n.absolutize(path).unwrap();
        assert_eq!(n.absolutize(&once), Ok(once.clone()), "{}", path);
        let file = Filey::new(path).absolutized(&n).unwrap();
        assert_eq!(file.absolutized(&n).unwrap(), file);
    }
}

#[test]
fn absolutize_in_place() {
    let n = at_home();
    let mut file = Filey::new("src/../lib.rs");
    assert_eq!(
        file.absolutize(&n).unwrap().to_string(),
        "/home/p14/code/filey/lib.rs"
    );
    assert_eq!(file, Filey::new("/home/p14/code/filey/lib.rs"));
}

#[test]
fn absolutize_fails_without_home_or_working_directory() {
    let no_home = PathNormalizer::new(None, Some("/work".to_string()));
    assert_eq!(no_home.absolutize("x"), Ok("/work/x".to_string()));
    assert_eq!(
        no_home.absolutize("~/x"),
        Err(Error::HomeDirUnavailable {
            path: "~/x".to_string()
        })
    );
    let reason = "the working directory is not available as an absolute path".to_string();
    for n in [
        PathNormalizer::new(Some("/home/p14".to_string()), None),
        PathNormalizer::new(Some("/home/p14".to_string()), Some("".to_string())),
        PathNormalizer::new(Some("/home/p14".to_string()), Some("work".to_string())),
    ] {
        assert_eq!(
            n.absolutize("x"),
            Err(Error::FilesystemError {
                path: "x".to_string(),
                reason: reason.clone()
            })
        );
        let mut file = Filey::new("..");
        assert!(file.absolutize(&n).is_err());
        assert_eq!(file, Filey::new(".."));
    }
}

#[test]
fn normalizer_hands_out_what_it_was_given() {
    let n = at_home();
    assert_eq!(n.home(), Some(&"/home/p14".to_string()));
    assert_eq!(n.current_dir(), Some(&"/home/p14/code/filey".to_string()));
    let none = PathNormalizer::new(None, None);
    assert_eq!(none.home(), None);
    assert_eq!(none.current_dir(), None);
}
