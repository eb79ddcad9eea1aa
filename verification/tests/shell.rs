use dotme::shell::{
    get_shell_name_from_path, match_shell_to_config_file, try_parse_shell, ShellConfig, ShellError,
};

#[test]
fn it_should_load_bash_shell() {
    let shell = try_parse_shell("/bin/bash").expect("'/bin/bash' should parse");
    assert_eq!(&shell.shell, "bash");
    assert_eq!(&shell.file, ".bashrc");
    assert_eq!(&shell.path, "/bin/bash");
}

#[test]
fn it_should_load_zsh_shell() {
    let shell = try_parse_shell("/usr/bin/zsh").expect("'/usr/bin/zsh' should parse");
    assert_eq!(&shell.shell, "zsh");
    assert_eq!(&shell.file, ".zshrc");
    assert_eq!(&shell.path, "/usr/bin/zsh");
}

#[test]
fn it_shouldnt_load_unknown_shell() {
    let shell = try_parse_shell("/usr/bin/unknown");
    assert_eq!(shell, Err(ShellError::CannotFindShell));
}

#[test]
fn shell_name_is_the_last_segment() {
    assert_eq!(get_shell_name_from_path("bash"), Some(String::from("bash")));
    assert_eq!(get_shell_name_from_path("/bin/zsh"), Some(String::from("zsh")));
    assert_eq!(get_shell_name_from_path("zsh/bash"), Some(String::from("bash")));
    assert_eq!(get_shell_name_from_path("/opt/b\u{e4}r/bash"), Some(String::from("bash")));
}

#[test]
fn shell_name_of_other_programs_is_none() {
    assert_eq!(get_shell_name_from_path(""), None);
    assert_eq!(get_shell_name_from_path("/bin/bash/"), None);
    assert_eq!(get_shell_name_from_path("/bin/fish"), None);
    assert_eq!(get_shell_name_from_path("/bin/sh"), None);
    assert_eq!(get_shell_name_from_path("/bin/Bash"), None);
    assert_eq!(get_shell_name_from_path("/bin/bashx"), None);
    assert_eq!(get_shell_name_from_path("/bin/xbash"), None);
    assert_eq!(get_shell_name_from_path("bash/zs"), None);
}

#[test]
fn shell_files_of_the_known_shells() {
    assert_eq!(match_shell_to_config_file("bash"), Some(String::from(".bashrc")));
    assert_eq!(match_shell_to_config_file("zsh"), Some(String::from(".zshrc")));
    assert_eq!(match_shell_to_config_file("fish"), None);
    assert_eq!(match_shell_to_config_file(""), None);
    assert_eq!(match_shell_to_config_file("/bin/bash"), None);
}

#[test]
fn load_takes_the_shell_variable() {
    let shell = ShellConfig::load(Some("/usr/local/bin/zsh")).expect("zsh is known");
    assert_eq!(
        shell,
        ShellConfig {
            shell: String::from("zsh"),
            path: String::from("/usr/local/bin/zsh"),
            file: String::from(".zshrc"),
        }
    );
}

#[test]
fn load_fails_without_a_known_shell() {
    assert_eq!(ShellConfig::load(None), Err(ShellError::CannotFindShell));
    assert_eq!(ShellConfig::load(Some("/bin/tcsh")), Err(ShellError::CannotFindShell));
    assert_eq!(ShellConfig::load(Some("")), Err(ShellError::CannotFindShell));
}

#[test]
fn shell_error_in_words() {
    assert_eq!(
        ShellError::CannotFindShell.message(),
        "Can't find the users shell, might not be supported"
    );
}

#[test]
fn default_shell_config_is_empty() {
    let shell = ShellConfig::default();
    assert_eq!(shell.shell, "");
    assert_eq!(shell.path, "");
    assert_eq!(shell.file, "");
}
