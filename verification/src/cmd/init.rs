//! Setting up a repository: where it is put, and how the shell learns of it.

use vstd::prelude::*;
use crate::path_utils::{join, joined};
use crate::shell::ShellConfig;

verus! {

/// The place that is offered for a new repository.
pub fn default_location() -> (r: &'static str)
    ensures
        r@ == "$HOME/.cfg"@,
{
    "$HOME/.cfg"
}

/// A place for a new repository is taken only if no directory is there yet.
pub fn validate_location(is_dir: bool) -> (r: Result<(), &'static str>)
    ensures
        !is_dir ==> r is Ok,
        is_dir ==> r is Err && r->Err_0@ == "Directory already exists"@,
{
    if is_dir {
        Err("Directory already exists")
    } else {
        Ok(())
    }
}

/// The line that gives the shell the command `config`: git, with the
/// repository at the given path and the home directory as its work tree.
pub open spec fn alias_line(path: Seq<char>) -> Seq<char> {
    "alias config='/usr/bin/git --git-dir="@ + path + " --work-tree=$HOME'\n"@
}

/// Writes the line that gives the shell the command `config`.
pub fn config_alias(path: &str) -> (r: String)
    ensures
        r@ == alias_line(path@),
{
    let mut r = String::from_str("alias config='/usr/bin/git --git-dir=");
    r.append(path);
    r.append(" --work-tree=$HOME'\n");
    r
}

/// The file that the line goes to: the file of the shell, in the home
/// directory.
pub fn shell_file(home: &str, shell: &ShellConfig) -> (r: String)
    ensures
        r@ == joined(home@, shell.file@),
{
    join(home, shell.file.as_str())
}

} // verus!
