//! Where things lie: the user's directories, and paths that begin with
//! `$HOME`. Paths are held as text.

use vstd::prelude::*;

verus! {

/// `directories::BaseDirs`, carried through as it is.
#[verifier::external_type_specification]
#[verifier::external_body]
pub struct ExBaseDirs(directories::BaseDirs);

/// `directories::ProjectDirs`, carried through as it is.
#[verifier::external_type_specification]
#[verifier::external_body]
pub struct ExProjectDirs(directories::ProjectDirs);

/// What `std::path::Path::join` makes of a path and a part to adjoin.
pub uninterp spec fn joined(base: Seq<char>, part: Seq<char>) -> Seq<char>;

/// What `std::path::Path::strip_prefix` leaves of a path behind a prefix, or
/// `None` where the path does not begin with the prefix.
pub uninterp spec fn stripped(path: Seq<char>, prefix: Seq<char>) -> Option<Seq<char>>;

/// Why a directory could not be told.
#[derive(Debug, Clone, Copy, PartialEq, Eq, Structural)]
pub enum PathUtilsError {
    /// The system names no directory for the program's files.
    NoProjectDirs,
    /// The system names no home directory.
    NoBaseDirs,
}

impl PathUtilsError {
    /// The error in words.
    pub open spec fn text(self) -> Seq<char> {
        match self {
            PathUtilsError::NoProjectDirs => "cant find root config for dotme"@,
            PathUtilsError::NoBaseDirs => "Cannot get base directories"@,
        }
    }

    /// The error in words.
    pub fn message(&self) -> (r: &'static str)
        ensures
            r@ == self.text(),
    {
        match self {
            PathUtilsError::NoProjectDirs => "cant find root config for dotme",
            PathUtilsError::NoBaseDirs => "Cannot get base directories",
        }
    }
}

/// Calls `directories::BaseDirs::new`, which asks the system for the user's
/// directories. Nothing is claimed of what it finds.
#[verifier::external_body]
fn find_base_dirs() -> (r: Option<directories::BaseDirs>) {
    directories::BaseDirs::new()
}

/// Calls `directories::ProjectDirs::from` with the qualifier, organization
/// and application that it is given. Nothing is claimed of what it finds.
#[verifier::external_body]
fn find_project_dirs(qualifier: &str, organization: &str, application: &str) -> (r: Option<directories::ProjectDirs>) {
    directories::ProjectDirs::from(qualifier, organization, application)
}

/// Calls `directories::BaseDirs::home_dir` and hands the path out as text,
/// with a mark in place of what is no text in it. Nothing is claimed of the
/// path.
#[verifier::external_body]
pub(crate) fn home_dir(dirs: &directories::BaseDirs) -> (r: String) {
    dirs.home_dir().to_string_lossy().into_owned()
}

/// Calls `directories::ProjectDirs::config_dir` and hands the path out as
/// text, with a mark in place of what is no text in it. Nothing is claimed of
/// the path.
#[verifier::external_body]
pub(crate) fn config_dir(dirs: &directories::ProjectDirs) -> (r: String) {
    dirs.config_dir().to_string_lossy().into_owned()
}

/// Calls `std::path::Path::join` on two paths given as text. The contract
/// names the result and says no more of it: the same two texts give the same
/// path.
#[verifier::external_body]
pub(crate) fn join(base: &str, part: &str) -> (r: String)
    ensures
        r@ == joined(base@, part@),
{
    std::path::Path::new(base).join(part).to_string_lossy().into_owned()
}

/// Calls `std::path::Path::strip_prefix` on a path and a prefix given as
/// text. The contract names the result and says no more of it: the same two
/// texts give the same answer.
#[verifier::external_body]
pub(crate) fn strip_prefix(path: &str, prefix: &str) -> (r: Option<String>)
    ensures
        crate::text::opt_text(r) == stripped(path@, prefix@),
{
    let rest = std::path::Path::new(path).strip_prefix(prefix).ok();
    rest.map(|rest| rest.to_string_lossy().into_owned())
}

/// The directories of the program's own files, or `NoProjectDirs` where the
/// system names none.
pub fn project_dirs() -> (r: Result<directories::ProjectDirs, PathUtilsError>)
    ensures
        r is Err ==> r->Err_0 == PathUtilsError::NoProjectDirs,
{
    let found = find_project_dirs("", "", "dotme");
    project_dirs_from(found)
}

/// The user's directories, or `NoBaseDirs` where the system names no home
/// directory. The system is asked anew at each call, so nothing is known of
/// its answer beforehand: what is made of the answer, `base_dirs_from` says,
/// and `project_dirs_from` says the same of `project_dirs`.
pub fn base_dirs() -> (r: Result<directories::BaseDirs, PathUtilsError>)
    ensures
        r is Err ==> r->Err_0 == PathUtilsError::NoBaseDirs,
{
    let found = find_base_dirs();
    base_dirs_from(found)
}

/// What is made of the system's answer to the question for the program's
/// directories: the directories where it found some, else `NoProjectDirs`.
pub fn project_dirs_from(found: Option<directories::ProjectDirs>) -> (r: Result<
    directories::ProjectDirs,
    PathUtilsError,
>)
    ensures
        r == (match found {
            Some(dirs) => Ok::<directories::ProjectDirs, PathUtilsError>(dirs),
            None => Err::<directories::ProjectDirs, PathUtilsError>(
                PathUtilsError::NoProjectDirs,
            ),
        }),
{
    match found {
        Some(dirs) => Ok(dirs),
        None => Err(PathUtilsError::NoProjectDirs),
    }
}

/// What is made of the system's answer to the question for the user's
/// directories: the directories where it found some, else `NoBaseDirs`.
pub fn base_dirs_from(found: Option<directories::BaseDirs>) -> (r: Result<
    directories::BaseDirs,
    PathUtilsError,
>)
    ensures
        r == (match found {
            Some(dirs) => Ok::<directories::BaseDirs, PathUtilsError>(dirs),
            None => Err::<directories::BaseDirs, PathUtilsError>(PathUtilsError::NoBaseDirs),
        }),
{
    match found {
        Some(dirs) => Ok(dirs),
        None => Err(PathUtilsError::NoBaseDirs),
    }
}

/// A path with a leading `$HOME` replaced by the home directory. A path that
/// does not begin with `$HOME` stays as it is, and so does every path where
/// no home directory is known.
pub open spec fn absolute(path: Seq<char>, home: Option<Seq<char>>) -> Seq<char> {
    match (stripped(path, "$HOME"@), home) {
        (Some(rest), Some(dir)) => joined(dir, rest),
        _ => path,
    }
}

/// Replaces a leading `$HOME` by the given home directory.
pub fn absolute_from(path: &str, home: Option<&str>) -> (r: String)
    ensures
        r@ == absolute(path@, crate::text::opt_str(home)),
{
    match strip_prefix(path, "$HOME") {
        Some(rest) => match home {
            Some(dir) => join(dir, rest.as_str()),
            None => String::from_str(path),
        },
        None => String::from_str(path),
    }
}

/// Replaces a leading `$HOME` by the user's home directory, as the system
/// names it.
pub fn parse_into_absolute(path: &str) -> (r: String)
    ensures
        r@ == absolute(path@, None) || exists|home: Seq<char>|
            r@ == #[trigger] absolute(path@, Some(home)),
{
    match strip_prefix(path, "$HOME") {
        Some(rest) => match base_dirs() {
            Ok(dirs) => {
                let home = home_dir(&dirs);
                let r = join(home.as_str(), rest.as_str());
                assert(r@ == absolute(path@, Some(home@)));
                r
            },
            Err(_) => String::from_str(path),
        },
        None => String::from_str(path),
    }
}

} // verus!
