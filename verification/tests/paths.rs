use dotme::path_utils::{
    absolute_from, base_dirs, base_dirs_from, parse_into_absolute, project_dirs, project_dirs_from,
    PathUtilsError,
};

#[test]
fn home_prefix_is_replaced() {
    assert_eq!(absolute_from("$HOME/.cfg", Some("/home/alice")), "/home/alice/.cfg");
    assert_eq!(absolute_from("$HOME/a/b", Some("/home/alice/")), "/home/alice/a/b");
    assert_eq!(absolute_from("$HOME", Some("/home/alice")), "/home/alice/");
}

#[test]
fn other_paths_stay() {
    assert_eq!(absolute_from("/srv/git", Some("/home/alice")), "/srv/git");
    assert_eq!(absolute_from("$HOMES/.cfg", Some("/home/alice")), "$HOMES/.cfg");
    assert_eq!(absolute_from("a/$HOME/.cfg", Some("/home/alice")), "a/$HOME/.cfg");
    assert_eq!(absolute_from("", Some("/home/alice")), "");
}

#[test]
fn nothing_is_replaced_without_a_home() {
    assert_eq!(absolute_from("$HOME/.cfg", None), "$HOME/.cfg");
    assert_eq!(absolute_from("/srv/git", None), "/srv/git");
}

#[test]
fn absolute_path_with_the_home_of_the_system() {
    assert_eq!(parse_into_absolute("/srv/git"), "/srv/git");
    let path = parse_into_absolute("$HOME/.cfg");
    match base_dirs() {
        Ok(dirs) => assert_eq!(std::path::Path::new(&path), dirs.home_dir().join(".cfg").as_path()),
        Err(e) => {
            assert_eq!(e, PathUtilsError::NoBaseDirs);
            assert_eq!(path, "$HOME/.cfg");
        }
    }
}

#[test]
fn project_directories_are_those_of_dotme() {
    match project_dirs() {
        Ok(dirs) => {
            let expected = directories::ProjectDirs::from("", "", "dotme").unwrap();
            assert_eq!(dirs.config_dir(), expected.config_dir());
            assert_eq!(dirs.project_path(), std::path::Path::new("dotme"));
        }
        Err(e) => assert_eq!(e, PathUtilsError::NoProjectDirs),
    }
}

#[test]
fn path_errors_in_words() {
    assert_eq!(PathUtilsError::NoProjectDirs.message(), "cant find root config for dotme");
    assert_eq!(PathUtilsError::NoBaseDirs.message(), "Cannot get base directories");
}

#[test]
fn no_answer_of_the_system_is_an_error() {
    assert!(matches!(base_dirs_from(None), Err(PathUtilsError::NoBaseDirs)));
    assert!(matches!(project_dirs_from(None), Err(PathUtilsError::NoProjectDirs)));
}

#[test]
fn an_answer_of_the_system_is_handed_on() {
    if let Some(found) = directories::BaseDirs::new() {
        let home = found.home_dir().to_path_buf();
        let dirs = base_dirs_from(Some(found)).expect("directories were found");
        assert_eq!(dirs.home_dir(), home.as_path());
    }
    let found = directories::ProjectDirs::from_path(std::path::PathBuf::from("elsewhere"));
    if let Some(found) = found {
        let config = found.config_dir().to_path_buf();
        let dirs = project_dirs_from(Some(found)).expect("directories were found");
        assert_eq!(dirs.config_dir(), config.as_path());
        assert_eq!(dirs.project_path(), std::path::Path::new("elsewhere"));
    }
}

#[test]
fn base_directories_are_those_of_the_system() {
    match (base_dirs(), directories::BaseDirs::new()) {
        (Ok(dirs), Some(expected)) => assert_eq!(dirs.home_dir(), expected.home_dir()),
        (Err(e), None) => assert_eq!(e, PathUtilsError::NoBaseDirs),
        (Ok(_), None) => panic!("directories without a home directory"),
        (Err(_), Some(_)) => panic!("no directories though the system names a home directory"),
    }
}
