//! What is decided about the repository itself: whether it may be used,
//! which directory it tracks, and what its branch is called.

use vstd::prelude::*;
use crate::path_utils::{base_dirs, home_dir, PathUtilsError};

verus! {

/// Why the repository cannot be used as asked.
#[derive(Debug, PartialEq, Eq)]
pub enum RepoError {
    /// The repository has a work tree of its own.
    NotBare,
    /// HEAD points at no branch that exists.
    UnknownBranch,
    /// The name of the branch is no text.
    BranchNotUtf8,
    /// The system names no home directory.
    Paths(PathUtilsError),
    /// The repository itself failed, with these words.
    Git(String),
}

impl RepoError {
    /// The error in words.
    pub open spec fn text(self) -> Seq<char> {
        match self {
            RepoError::NotBare => "repo needs to be a bare repository"@,
            RepoError::UnknownBranch => "Unknown branch"@,
            RepoError::BranchNotUtf8 => "Branch not utf8"@,
            RepoError::Paths(e) => e.text(),
            RepoError::Git(words) => words@,
        }
    }

    /// The error in words.
    pub fn message(&self) -> (r: String)
        ensures
            r@ == self.text(),
    {
        match self {
            RepoError::NotBare => String::from_str("repo needs to be a bare repository"),
            RepoError::UnknownBranch => String::from_str("Unknown branch"),
            RepoError::BranchNotUtf8 => String::from_str("Branch not utf8"),
            RepoError::Paths(e) => String::from_str(e.message()),
            RepoError::Git(words) => String::from_str(words.as_str()),
        }
    }
}

/// What looking up HEAD gave.
#[derive(Debug, PartialEq, Eq)]
pub enum Head {
    /// A reference, with its short name where the name is text.
    Reference(Option<String>),
    /// A branch without a commit.
    UnbornBranch,
    /// Nothing: HEAD is missing.
    NotFound,
    /// A failure of another kind, with its words.
    Failed(String),
}

/// A repository may be used only if it is bare.
pub fn validate_config(is_bare: bool) -> (r: Result<(), RepoError>)
    ensures
        is_bare ==> r is Ok,
        !is_bare ==> r == Err::<(), RepoError>(RepoError::NotBare),
{
    if !is_bare {
        Err(RepoError::NotBare)
    } else {
        Ok(())
    }
}

/// The directory that the repository tracks: the one that is asked for, or
/// the given home directory where none is asked for. Fails where neither is
/// there.
pub fn worktree_from(input: Option<&str>, home: Option<&str>) -> (r: Result<String, RepoError>)
    ensures
        match (input, home) {
            (Some(path), _) => r is Ok && r->Ok_0@ == path@,
            (None, Some(dir)) => r is Ok && r->Ok_0@ == dir@,
            (None, None) => r == Err::<String, RepoError>(
                RepoError::Paths(PathUtilsError::NoBaseDirs),
            ),
        },
{
    match input {
        Some(path) => Ok(String::from_str(path)),
        None => match home {
            Some(dir) => Ok(String::from_str(dir)),
            None => Err(RepoError::Paths(PathUtilsError::NoBaseDirs)),
        },
    }
}

/// The directory that the repository tracks: the one that is asked for, or
/// the user's home directory, as the system names it, where none is asked
/// for.
pub fn worktree(input: Option<&str>) -> (r: Result<String, RepoError>)
    ensures
        input is Some ==> r is Ok && r->Ok_0@ == input->0@,
        r is Err ==> r->Err_0 == RepoError::Paths(PathUtilsError::NoBaseDirs),
{
    match input {
        Some(path) => Ok(String::from_str(path)),
        None => match base_dirs() {
            Ok(dirs) => Ok(home_dir(&dirs)),
            Err(e) => Err(RepoError::Paths(e)),
        },
    }
}

/// The name of the branch that HEAD points at.
pub fn get_branch_name(head: &Head) -> (r: Result<String, RepoError>)
    ensures
        match *head {
            Head::Reference(Some(name)) => r is Ok && r->Ok_0@ == name@,
            Head::Reference(None) => r == Err::<String, RepoError>(RepoError::BranchNotUtf8),
            Head::UnbornBranch => r == Err::<String, RepoError>(RepoError::UnknownBranch),
            Head::NotFound => r == Err::<String, RepoError>(RepoError::UnknownBranch),
            Head::Failed(words) => r is Err && r->Err_0 is Git && r->Err_0->Git_0@ == words@,
        },
{
    match head {
        Head::Reference(Some(name)) => Ok(String::from_str(name.as_str())),
        Head::Reference(None) => Err(RepoError::BranchNotUtf8),
        Head::UnbornBranch => Err(RepoError::UnknownBranch),
        Head::NotFound => Err(RepoError::UnknownBranch),
        Head::Failed(words) => Err(RepoError::Git(String::from_str(words.as_str()))),
    }
}

/// The branch as the listing names it: the short name of HEAD, or a remark
/// where HEAD points at no branch with a name.
pub open spec fn shown_branch(head: Head) -> Seq<char> {
    match head {
        Head::Reference(Some(name)) => name@,
        _ => "Not currently on any branch"@,
    }
}

/// The first line of the listing, which names the branch. Fails with the
/// words of the failure where HEAD could not be looked up.
pub fn show_branch(head: &Head) -> (r: Result<String, String>)
    ensures
        match *head {
            Head::Failed(words) => r is Err && r->Err_0@ == words@,
            _ => r is Ok && r->Ok_0@ == "# branch: "@ + shown_branch(*head),
        },
{
    let mut line = String::from_str("# branch: ");
    match head {
        Head::Reference(Some(name)) => {
            line.append(name.as_str());
        },
        Head::Failed(words) => {
            return Err(String::from_str(words.as_str()));
        },
        _ => {
            line.append("Not currently on any branch");
        },
    }
    Ok(line)
}

/// The setting that a new repository gets: files that are not tracked are
/// not shown.
pub fn default_config() -> (r: (&'static str, &'static str))
    ensures
        r.0@ == "status.showuntrackedfiles"@,
        r.1@ == "no"@,
{
    ("status.showuntrackedfiles", "no")
}

/// The private key that a clone over SSH offers: `id_rsa` in the directory
/// `.ssh` of the home directory.
pub fn ssh_key_path(home: &str) -> (r: String)
    ensures
        r@ == home@ + "/.ssh/id_rsa"@,
{
    let mut r = String::from_str(home);
    r.append("/.ssh/id_rsa");
    r
}

} // verus!
