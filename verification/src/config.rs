//! The configuration file: a TOML document that names the repository and
//! the directory it lies in.

use vstd::prelude::*;
use crate::path_utils::{base_dirs, config_dir, home_dir, join, joined, project_dirs};
use crate::text::lowers_to;

verus! {

/// `toml::map::Map`, the table of a TOML document, carried through as it is.
#[verifier::external_type_specification]
#[verifier::external_body]
#[verifier::reject_recursive_types(K)]
#[verifier::reject_recursive_types(V)]
pub struct ExTomlMap<K, V>(toml::map::Map<K, V>);

/// `toml::Value`, a value of a TOML document, carried through as it is.
#[verifier::external_type_specification]
#[verifier::external_body]
pub struct ExTomlValue(toml::Value);

/// What a value of a TOML document holds, as far as a configuration is read
/// from it.
pub enum Node {
    /// A string.
    Text(Seq<char>),
    /// An array, with its items in order.
    List(Seq<Node>),
    /// A table, with the item of each key.
    Table(Map<Seq<char>, Node>),
    /// A number, a boolean or a date.
    Other,
}

/// What a `toml::Value` holds.
pub uninterp spec fn node(value: toml::Value) -> Node;

/// What a `toml::Table` holds: the item of each of its keys.
pub uninterp spec fn table_nodes(table: toml::Table) -> Map<Seq<char>, Node>;

/// What `toml::from_str` makes of a text: the items of the document's root
/// table, or the words of the error where the text is no TOML document.
pub uninterp spec fn document(text: Seq<char>) -> Result<Map<Seq<char>, Node>, Seq<char>>;

/// Whether a table has this many keys.
pub open spec fn has_size(items: Map<Seq<char>, Node>, count: nat) -> bool {
    items.dom().finite() && items.dom().len() == count
}

/// What a list of `toml::Value` holds.
pub open spec fn nodes(values: Seq<toml::Value>) -> Seq<Node> {
    values.map_values(|v: toml::Value| node(v))
}

/// Calls `toml::from_str` for a `toml::Table`, and `to_string` on the error
/// where it fails. The contract names the result and says no more of it: a
/// text has one reading.
#[verifier::external_body]
fn parse_document(text: &str) -> (r: Result<toml::Table, String>)
    ensures
        match r {
            Ok(table) => document(text@) == Ok::<Map<Seq<char>, Node>, Seq<char>>(
                table_nodes(table),
            ),
            Err(words) => document(text@) == Err::<Map<Seq<char>, Node>, Seq<char>>(words@),
        },
{
    toml::from_str::<toml::Table>(text).map_err(|e| e.to_string())
}

/// Calls `toml::map::Map::get`: the value under a key, if the table has the
/// key.
#[verifier::external_body]
fn table_get<'a>(table: &'a toml::Table, key: &str) -> (r: Option<&'a toml::Value>)
    ensures
        match r {
            Some(value) => table_nodes(*table).dom().contains(key@) && table_nodes(*table)[key@]
                == node(*value),
            None => !table_nodes(*table).dom().contains(key@),
        },
{
    table.get(key)
}

/// Calls `toml::map::Map::len`: the number of keys of the table.
#[verifier::external_body]
fn table_len(table: &toml::Table) -> (r: usize)
    ensures
        has_size(table_nodes(*table), r as nat),
{
    table.len()
}

/// Calls `toml::Value::as_str`: the string, if the value is one.
#[verifier::external_body]
fn value_as_str<'a>(value: &'a toml::Value) -> (r: Option<&'a str>)
    ensures
        match r {
            Some(s) => node(*value) == Node::Text(s@),
            None => !(node(*value) is Text),
        },
{
    value.as_str()
}

/// Calls `toml::Value::as_table`: the table, if the value is one.
#[verifier::external_body]
fn value_as_table<'a>(value: &'a toml::Value) -> (r: Option<&'a toml::Table>)
    ensures
        match r {
            Some(table) => node(*value) == Node::Table(table_nodes(*table)),
            None => !(node(*value) is Table),
        },
{
    value.as_table()
}

/// Calls `toml::Value::as_array`: the items, if the value is an array.
#[verifier::external_body]
fn value_as_array<'a>(value: &'a toml::Value) -> (r: Option<&'a Vec<toml::Value>>)
    ensures
        match r {
            Some(items) => node(*value) == Node::List(nodes(items@)),
            None => !(node(*value) is List),
        },
{
    value.as_array()
}

/// Why a configuration could not be loaded.
#[derive(Debug, PartialEq, Eq)]
pub enum ConfigLoadError {
    /// The system names no directory to look in.
    DirectoryError(&'static str),
    /// The file could not be read.
    IoError(String),
    /// The text is no TOML document, or the document is no configuration.
    DeserializeError(String),
}

impl ConfigLoadError {
    /// The error in words.
    pub open spec fn text(self) -> Seq<char> {
        match self {
            ConfigLoadError::DirectoryError(e) => "Directory error: "@ + e@,
            ConfigLoadError::IoError(e) => "IO Error: "@ + e@,
            ConfigLoadError::DeserializeError(e) => "Deserialize Error: "@ + e@,
        }
    }

    /// The error in words.
    pub fn message(&self) -> (r: String)
        ensures
            r@ == self.text(),
    {
        match self {
            ConfigLoadError::DirectoryError(e) => {
                let mut r = String::from_str("Directory error: ");
                r.append(e);
                r
            },
            ConfigLoadError::IoError(e) => {
                let mut r = String::from_str("IO Error: ");
                r.append(e.as_str());
                r
            },
            ConfigLoadError::DeserializeError(e) => {
                let mut r = String::from_str("Deserialize Error: ");
                r.append(e.as_str());
                r
            },
        }
    }
}

/// The repository that a configuration names.
#[derive(Debug, PartialEq, Eq)]
pub struct DotmeRepo {
    pub name: String,
    pub location: String,
}

/// A named repository, by the characters of its name and location.
pub struct DotmeRepoView {
    pub name: Seq<char>,
    pub location: Seq<char>,
}

impl View for DotmeRepo {
    type V = DotmeRepoView;

    open spec fn view(&self) -> DotmeRepoView {
        DotmeRepoView { name: self.name@, location: self.location@ }
    }
}

/// The words for a field that is not there.
pub open spec fn missing(field: Seq<char>) -> Seq<char> {
    "missing field `"@ + field + "`"@
}

/// The words for a field that holds something else than it should.
pub open spec fn invalid(field: Seq<char>) -> Seq<char> {
    "invalid type for `"@ + field + "`"@
}

/// The words for a table that holds more than the given field.
pub open spec fn unknown(field: Seq<char>) -> Seq<char> {
    "unknown field beside `"@ + field + "`"@
}

/// The string under a key of a table.
pub open spec fn read_text(items: Map<Seq<char>, Node>, key: Seq<char>) -> Result<
    Seq<char>,
    Seq<char>,
> {
    if !items.dom().contains(key) {
        Err(missing(key))
    } else {
        match items[key] {
            Node::Text(s) => Ok(s),
            _ => Err(invalid(key)),
        }
    }
}

/// The repository that a section names. The section is a table with the
/// strings `name` and `location`, or an array that begins with the two in
/// that order. A strict reading takes no table with a third key.
pub open spec fn read_repo(section: Node, key: Seq<char>, strict: bool) -> Result<
    DotmeRepoView,
    Seq<char>,
> {
    match section {
        Node::Table(items) => match read_text(items, "name"@) {
            Err(e) => Err(e),
            Ok(name) => match read_text(items, "location"@) {
                Err(e) => Err(e),
                Ok(location) => if strict && !has_size(items, 2) {
                    Err(unknown("location"@))
                } else {
                    Ok(DotmeRepoView { name, location })
                },
            },
        },
        Node::List(items) => if items.len() < 2 {
            Err(missing(key))
        } else {
            match (items[0], items[1]) {
                (Node::Text(name), Node::Text(location)) => Ok(DotmeRepoView { name, location }),
                _ => Err(invalid(key)),
            }
        },
        _ => Err(invalid(key)),
    }
}

/// The repository that a document names in the section under the given key.
/// A strict reading takes no document with a second key.
pub open spec fn read_config(doc: Map<Seq<char>, Node>, key: Seq<char>, strict: bool) -> Result<
    DotmeRepoView,
    Seq<char>,
> {
    if !doc.dom().contains(key) {
        Err(missing(key))
    } else if strict && !has_size(doc, 1) {
        Err(unknown(key))
    } else {
        read_repo(doc[key], key, strict)
    }
}

/// The repository that a text names, read as a TOML document.
pub open spec fn loaded(text: Seq<char>, key: Seq<char>, strict: bool) -> Result<
    DotmeRepoView,
    Seq<char>,
> {
    match document(text) {
        Ok(doc) => read_config(doc, key, strict),
        Err(words) => Err(words),
    }
}

/// What a reading gave, by the views of its repository and of its words.
pub open spec fn reading(r: Result<DotmeRepo, String>) -> Result<DotmeRepoView, Seq<char>> {
    match r {
        Ok(repo) => Ok(repo@),
        Err(words) => Err(words@),
    }
}

/// The words of an error about a field: what stands before the field's
/// name, the name, and a closing quote.
fn words_about(before: &str, field: &str) -> (r: String)
    ensures
        r@ == before@ + field@ + "`"@,
{
    let mut r = String::from_str(before);
    r.append(field);
    r.append("`");
    r
}

/// Reads the string under a key of a table.
fn text_in(table: &toml::Table, key: &str) -> (r: Result<String, String>)
    ensures
        match r {
            Ok(s) => read_text(table_nodes(*table), key@) == Ok::<Seq<char>, Seq<char>>(s@),
            Err(e) => read_text(table_nodes(*table), key@) == Err::<Seq<char>, Seq<char>>(e@),
        },
{
    match table_get(table, key) {
        None => Err(words_about("missing field `", key)),
        Some(value) => match value_as_str(value) {
            Some(s) => Ok(String::from_str(s)),
            None => Err(words_about("invalid type for `", key)),
        },
    }
}

/// Reads the repository that a section names.
pub fn repo_in(section: &toml::Value, key: &str, strict: bool) -> (r: Result<DotmeRepo, String>)
    ensures
        reading(r) == read_repo(node(*section), key@, strict),
{
    if let Some(table) = value_as_table(section) {
        let name = match text_in(table, "name") {
            Ok(name) => name,
            Err(e) => {
                return Err(e);
            },
        };
        let location = match text_in(table, "location") {
            Ok(location) => location,
            Err(e) => {
                return Err(e);
            },
        };
        if strict && table_len(table) != 2 {
            return Err(words_about("unknown field beside `", "location"));
        }
        Ok(DotmeRepo { name, location })
    } else if let Some(items) = value_as_array(section) {
        if items.len() < 2 {
            return Err(words_about("missing field `", key));
        }
        match (value_as_str(&items[0]), value_as_str(&items[1])) {
            (Some(name), Some(location)) => Ok(
                DotmeRepo { name: String::from_str(name), location: String::from_str(location) },
            ),
            _ => Err(words_about("invalid type for `", key)),
        }
    } else {
        Err(words_about("invalid type for `", key))
    }
}

/// Reads the repository that a document names in the section under the
/// given key.
pub fn config_in(doc: &toml::Table, key: &str, strict: bool) -> (r: Result<DotmeRepo, String>)
    ensures
        reading(r) == read_config(table_nodes(*doc), key@, strict),
{
    match table_get(doc, key) {
        None => Err(words_about("missing field `", key)),
        Some(section) => {
            if strict && table_len(doc) != 1 {
                Err(words_about("unknown field beside `", key))
            } else {
                repo_in(section, key, strict)
            }
        },
    }
}

/// Reads the repository that a text names, taken as a TOML document.
pub fn load_repo(text: &str, key: &str, strict: bool) -> (r: Result<DotmeRepo, String>)
    ensures
        reading(r) == loaded(text@, key@, strict),
{
    match parse_document(text) {
        Ok(doc) => config_in(&doc, key, strict),
        Err(words) => Err(words),
    }
}

/// A configuration file as it is written: one section, `dotme-repo`, and
/// nothing beside it.
#[derive(Debug, PartialEq, Eq)]
pub struct RawConfig {
    pub dotme_repo: DotmeRepo,
}

impl RawConfig {
    /// Reads a configuration from the text of its file. The text must be a
    /// TOML document whose only key is `dotme-repo`, with the strings `name`
    /// and `location` and no others.
    pub fn load(config_string: &str) -> (r: Result<RawConfig, ConfigLoadError>)
        ensures
            match r {
                Ok(raw) => loaded(config_string@, "dotme-repo"@, true) == Ok::<
                    DotmeRepoView,
                    Seq<char>,
                >(raw.dotme_repo@),
                Err(e) => e is DeserializeError && loaded(config_string@, "dotme-repo"@, true)
                    == Err::<DotmeRepoView, Seq<char>>(e->DeserializeError_0@),
            },
    {
        match load_repo(config_string, "dotme-repo", true) {
            Ok(dotme_repo) => Ok(RawConfig { dotme_repo }),
            Err(words) => Err(ConfigLoadError::DeserializeError(words)),
        }
    }

    /// Reads a configuration from a document that is parsed already.
    pub fn from_table(doc: &toml::Table) -> (r: Result<RawConfig, ConfigLoadError>)
        ensures
            match r {
                Ok(raw) => read_config(table_nodes(*doc), "dotme-repo"@, true) == Ok::<
                    DotmeRepoView,
                    Seq<char>,
                >(raw.dotme_repo@),
                Err(e) => e is DeserializeError && read_config(
                    table_nodes(*doc),
                    "dotme-repo"@,
                    true,
                ) == Err::<DotmeRepoView, Seq<char>>(e->DeserializeError_0@),
            },
    {
        match config_in(doc, "dotme-repo", true) {
            Ok(dotme_repo) => Ok(RawConfig { dotme_repo }),
            Err(words) => Err(ConfigLoadError::DeserializeError(words)),
        }
    }
}

/// A configuration file in its first form: a section `dotmerepo`, with
/// whatever else beside it.
#[derive(Debug, PartialEq, Eq)]
pub struct ConfigToml {
    pub dotmerepo: DotmeRepo,
}

impl ConfigToml {
    /// Reads a configuration from the text of its file. The text must be a
    /// TOML document with a key `dotmerepo` that holds the strings `name` and
    /// `location`.
    pub fn load(config_string: &str) -> (r: Result<ConfigToml, ConfigLoadError>)
        ensures
            match r {
                Ok(raw) => loaded(config_string@, "dotmerepo"@, false) == Ok::<
                    DotmeRepoView,
                    Seq<char>,
                >(raw.dotmerepo@),
                Err(e) => e is DeserializeError && loaded(config_string@, "dotmerepo"@, false)
                    == Err::<DotmeRepoView, Seq<char>>(e->DeserializeError_0@),
            },
    {
        match load_repo(config_string, "dotmerepo", false) {
            Ok(dotmerepo) => Ok(ConfigToml { dotmerepo }),
            Err(words) => Err(ConfigLoadError::DeserializeError(words)),
        }
    }
}

/// Where the repository lies and which directory it tracks.
#[derive(Debug, PartialEq, Eq)]
pub struct Config {
    pub repo: String,
    pub work_tree: String,
}

/// A configuration, by the characters of its two paths.
pub struct ConfigView {
    pub repo: Seq<char>,
    pub work_tree: Seq<char>,
}

impl View for Config {
    type V = ConfigView;

    open spec fn view(&self) -> ConfigView {
        ConfigView { repo: self.repo@, work_tree: self.work_tree@ }
    }
}

/// Whether a location stands for the home directory: the word `home`, in
/// small or capital letters.
pub open spec fn is_home(location: Seq<char>) -> bool {
    crate::text::ascii_lower(location) == "home"@
}

/// The directory that a location stands for.
pub open spec fn directory(location: Seq<char>, home: Seq<char>) -> Seq<char> {
    if is_home(location) {
        home
    } else {
        location
    }
}

/// The configuration that a named repository gives with a home directory: the
/// repository lies under its name in the directory of its location, and
/// tracks the home directory.
pub open spec fn located(repo: DotmeRepoView, home: Seq<char>) -> ConfigView {
    ConfigView { repo: joined(directory(repo.location, home), repo.name), work_tree: home }
}

impl Config {
    /// A configuration with the given paths.
    pub fn new(repo: String, work_tree: String) -> (c: Config)
        ensures
            c.repo == repo,
            c.work_tree == work_tree,
    {
        Config { repo, work_tree }
    }

    /// The configuration of a named repository, given the home directory.
    pub fn locate(repo: &DotmeRepo, home: &str) -> (c: Config)
        ensures
            c@ == located(repo@, home@),
    {
        let path = if lowers_to(repo.location.as_str(), "home") {
            join(home, repo.name.as_str())
        } else {
            join(repo.location.as_str(), repo.name.as_str())
        };
        Config::new(path, String::from_str(home))
    }

    /// Loads a configuration from the text of its file, with the user's home
    /// directory as the system names it. Fails with `DeserializeError` where
    /// the text names no repository, and with `DirectoryError` where it does
    /// and the system names no home directory.
    pub fn load(config_string: &str) -> (r: Result<Config, ConfigLoadError>)
        ensures
            match loaded(config_string@, "dotme-repo"@, true) {
                Err(words) => r is Err && r->Err_0 is DeserializeError
                    && r->Err_0->DeserializeError_0@ == words,
                Ok(repo) => match r {
                    Ok(c) => c@ == located(repo, c@.work_tree),
                    Err(e) => e is DirectoryError && e->DirectoryError_0@
                        == "Cannot get base directories"@,
                },
            },
    {
        let raw_config = match RawConfig::load(config_string) {
            Ok(raw_config) => raw_config,
            Err(e) => {
                return Err(e);
            },
        };
        match base_dirs() {
            Ok(dirs) => {
                let home = home_dir(&dirs);
                Ok(Config::locate(&raw_config.dotme_repo, home.as_str()))
            },
            Err(_) => Err(ConfigLoadError::DirectoryError("Cannot get base directories")),
        }
    }
}

/// The path of the configuration file: `config.toml` in the directory that
/// the system names for the program's configuration. Fails with
/// `DirectoryError` where the system names none.
pub fn config_file() -> (r: Result<String, ConfigLoadError>)
    ensures
        match r {
            Ok(path) => exists|dir: Seq<char>| path@ == #[trigger] joined(dir, "config.toml"@),
            Err(e) => e is DirectoryError && e->DirectoryError_0@
                == "Cannot get project directories"@,
        },
{
    match project_dirs() {
        Ok(dirs) => {
            let dir = config_dir(&dirs);
            Ok(join(dir.as_str(), "config.toml"))
        },
        Err(_) => Err(ConfigLoadError::DirectoryError("Cannot get project directories")),
    }
}

/// Whatever a strict reading takes, the other reading takes as the same
/// repository.
pub proof fn strict_reading_is_a_reading(doc: Map<Seq<char>, Node>, key: Seq<char>)
    requires
        read_config(doc, key, true) is Ok,
    ensures
        read_config(doc, key, false) == read_config(doc, key, true),
{
}

/// A strict reading takes a document with a table under the key only if the
/// document holds that key alone, and the table the keys `name` and
/// `location` alone.
pub proof fn strict_reading_takes_no_other_key(doc: Map<Seq<char>, Node>, key: Seq<char>)
    requires
        read_config(doc, key, true) is Ok,
        doc[key] is Table,
    ensures
        doc.dom() =~= set![key],
        doc[key]->Table_0.dom() =~= set!["name"@, "location"@],
{
    reveal_strlit("name");
    reveal_strlit("location");
    assert("name"@.len() != "location"@.len());
    let items = doc[key]->Table_0;
    let rest = items.dom().remove("name"@).remove("location"@);
    assert(doc.dom().remove(key) =~= Set::empty());
    assert(rest =~= Set::empty());
    assert forall|k: Seq<char>| items.dom().contains(k) implies k == "name"@ || k
        == "location"@ by {
        assert(!rest.contains(k));
    }
}

} // verus!
