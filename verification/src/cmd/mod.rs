//! What the subcommands compute.

use vstd::prelude::*;

pub mod init;
pub mod status;

verus! {

/// Whether the program can go on, given whether `git` was found: it can
/// where it was, and else fails with words for the user.
pub fn git_exists(found: bool) -> (r: Result<bool, &'static str>)
    ensures
        found ==> r == Ok::<bool, &'static str>(true),
        !found ==> r is Err && r->Err_0@
            == "Cound not find 'git' on your PATH. Make sure it is installed."@,
{
    if !found {
        return Err("Cound not find 'git' on your PATH. Make sure it is installed.");
    }
    Ok(true)
}

} // verus!
