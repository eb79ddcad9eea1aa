//! The user's shell: which shells are known, and the file in the home
//! directory that each of them reads at its start.

use vstd::prelude::*;
use crate::text::same_text;

verus! {

/// Why no shell could be told.
#[derive(Debug, Clone, Copy, PartialEq, Eq)]
pub enum ShellError {
    /// The variable `SHELL` is not set, or names a program that is no known
    /// shell.
    CannotFindShell,
}

impl ShellError {
    /// The error in words.
    pub fn message(&self) -> (r: &'static str)
        ensures
            r@ == "Can't find the users shell, might not be supported"@,
    {
        "Can't find the users shell, might not be supported"
    }
}

/// A shell: its name, the path of its program, and the file that it reads at
/// its start.
#[derive(Debug, PartialEq, Eq)]
pub struct ShellConfig {
    pub shell: String,
    pub path: String,
    pub file: String,
}

/// A shell, by the characters of its three texts.
pub struct ShellConfigView {
    pub shell: Seq<char>,
    pub path: Seq<char>,
    pub file: Seq<char>,
}

impl View for ShellConfig {
    type V = ShellConfigView;

    open spec fn view(&self) -> ShellConfigView {
        ShellConfigView { shell: self.shell@, path: self.path@, file: self.file@ }
    }
}

impl Default for ShellConfig {
    fn default() -> (r: ShellConfig)
        ensures
            r@ == (ShellConfigView {
                shell: Seq::<char>::empty(),
                path: Seq::<char>::empty(),
                file: Seq::<char>::empty(),
            }),
    {
        ShellConfig { shell: String::new(), path: String::new(), file: String::new() }
    }
}

/// What follows the last `/` of a path, or the whole path where it has none.
pub open spec fn last_segment(path: Seq<char>) -> Seq<char>
    decreases path.len(),
{
    if path.len() == 0 {
        path
    } else if path.last() == '/' {
        Seq::empty()
    } else {
        last_segment(path.drop_last()).push(path.last())
    }
}

/// The file that a shell reads at its start, for the shells that are known.
pub open spec fn config_file_of(shell: Seq<char>) -> Option<Seq<char>> {
    if shell == "bash"@ {
        Some(".bashrc"@)
    } else if shell == "zsh"@ {
        Some(".zshrc"@)
    } else {
        None
    }
}

/// The name of the shell whose program lies at a path, for the shells that
/// are known.
pub open spec fn shell_name_of(path: Seq<char>) -> Option<Seq<char>> {
    if last_segment(path) == "bash"@ {
        Some("bash"@)
    } else if last_segment(path) == "zsh"@ {
        Some("zsh"@)
    } else {
        None
    }
}

/// The shell whose program lies at a path, if it is a known one.
pub open spec fn shell_at(path: Seq<char>) -> Option<ShellConfigView> {
    match shell_name_of(path) {
        Some(shell) => match config_file_of(shell) {
            Some(file) => Some(ShellConfigView { shell, path, file }),
            None => None,
        },
        None => None,
    }
}

/// The last segment of a path is its end: it holds no `/`, and before it
/// stands nothing, or a `/`.
pub proof fn last_segment_is_the_tail(path: Seq<char>)
    ensures
        last_segment(path).len() <= path.len(),
        last_segment(path) == path.subrange(
            path.len() - last_segment(path).len(),
            path.len() as int,
        ),
        !last_segment(path).contains('/'),
        last_segment(path).len() < path.len() ==> path[path.len() - last_segment(path).len() - 1]
            == '/',
    decreases path.len(),
{
    if path.len() > 0 && path.last() != '/' {
        let front = path.drop_last();
        last_segment_is_the_tail(front);
        let tail = last_segment(front);
        let whole = tail.push(path.last());
        if whole.contains('/') {
            let i = choose|i: int| 0 <= i < whole.len() && whole[i] == '/';
            assert(tail[i] == '/');
            assert(tail.contains('/'));
        }
    }
}

/// The last segment of a path reaches from the character behind the last `/`
/// to the end.
proof fn last_segment_grows(path: Seq<char>, start: int, end: int)
    requires
        0 <= start <= end < path.len(),
        last_segment(path.take(end)) == path.subrange(start, end),
    ensures
        path[end] == '/' ==> last_segment(path.take(end + 1)) == path.subrange(end + 1, end + 1),
        path[end] != '/' ==> last_segment(path.take(end + 1)) == path.subrange(start, end + 1),
{
    assert(path.take(end + 1).drop_last() =~= path.take(end));
}

/// The name of the shell whose program lies at a path: `bash` or `zsh`, or
/// nothing for any other program.
pub fn get_shell_name_from_path(shell: &str) -> (r: Option<String>)
    ensures
        crate::text::opt_text(r) == shell_name_of(shell@),
{
    let n = shell.unicode_len();
    let mut start: usize = 0;
    let mut i: usize = 0;
    for c in it: shell.chars()
        invariant
            it.seq() == shell@,
            n == shell@.len(),
            i == it.index(),
            start <= i <= n,
            last_segment(shell@.take(i as int)) == shell@.subrange(start as int, i as int),
    {
        proof {
            last_segment_grows(shell@, start as int, i as int);
        }
        i += 1;
        if c == '/' {
            start = i;
        }
    }
    assert(shell@.take(n as int) =~= shell@);
    let shell_name = shell.substring_char(start, n);
    if same_text(shell_name, "bash") {
        Some(String::from_str("bash"))
    } else if same_text(shell_name, "zsh") {
        Some(String::from_str("zsh"))
    } else {
        None
    }
}

/// The file that a shell reads at its start: `.bashrc` for `bash`, `.zshrc`
/// for `zsh`, and nothing for any other name.
pub fn match_shell_to_config_file(shell: &str) -> (r: Option<String>)
    ensures
        crate::text::opt_text(r) == config_file_of(shell@),
{
    if same_text(shell, "bash") {
        Some(String::from_str(".bashrc"))
    } else if same_text(shell, "zsh") {
        Some(String::from_str(".zshrc"))
    } else {
        None
    }
}

/// The shell whose program lies at a path, or `CannotFindShell` where the
/// program is no known shell.
pub fn try_parse_shell(shell_path: &str) -> (r: Result<ShellConfig, ShellError>)
    ensures
        match r {
            Ok(shell) => shell_at(shell_path@) == Some(shell@),
            Err(e) => e == ShellError::CannotFindShell && shell_at(shell_path@) is None,
        },
{
    if let Some(shell_name) = get_shell_name_from_path(shell_path) {
        if let Some(shell_file) = match_shell_to_config_file(shell_name.as_str()) {
            return Ok(
                ShellConfig {
                    shell: shell_name,
                    path: String::from_str(shell_path),
                    file: shell_file,
                },
            );
        }
    }
    Err(ShellError::CannotFindShell)
}

impl ShellConfig {
    /// The user's shell, told from the value of the variable `SHELL`, or
    /// `CannotFindShell` where the variable is not set or names no known
    /// shell.
    pub fn load(shell: Option<&str>) -> (r: Result<ShellConfig, ShellError>)
        ensures
            match r {
                Ok(config) => shell is Some && shell_at(shell->0@) == Some(config@),
                Err(e) => e == ShellError::CannotFindShell && (shell is Some ==> shell_at(
                    shell->0@,
                ) is None),
            },
    {
        if let Some(shell_path) = shell {
            if let Ok(shell_config) = try_parse_shell(shell_path) {
                return Ok(shell_config);
            }
        }
        Err(ShellError::CannotFindShell)
    }
}

} // verus!
