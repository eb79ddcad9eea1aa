//! The status listing: which entries of a repository's status are shown as
//! staged or unstaged changes, under which label, and how each line reads.

use vstd::prelude::*;
use crate::text::{opt_text, same_text, texts};

verus! {

/// No change at all.
pub const CURRENT: u32 = 0;

/// A file that is new in the index.
pub const INDEX_NEW: u32 = 1;

/// A file whose content in the index differs from HEAD.
pub const INDEX_MODIFIED: u32 = 2;

/// A file that the index no longer holds.
pub const INDEX_DELETED: u32 = 4;

/// A file that the index holds under another name.
pub const INDEX_RENAMED: u32 = 8;

/// A file whose type changed in the index.
pub const INDEX_TYPECHANGE: u32 = 16;

/// A file whose content in the work tree differs from the index.
pub const WT_MODIFIED: u32 = 256;

/// A file that the work tree no longer holds.
pub const WT_DELETED: u32 = 512;

/// A file whose type changed in the work tree.
pub const WT_TYPECHANGE: u32 = 1024;

/// A file that the work tree holds under another name.
pub const WT_RENAMED: u32 = 2048;

/// The two names of a file on the sides of one comparison.
#[derive(Debug, PartialEq, Eq)]
pub struct DiffDelta {
    pub old_file: Option<String>,
    pub new_file: Option<String>,
}

/// One entry of a repository's status: the flags of the file, and the
/// comparison of HEAD with the index and of the index with the work tree
/// where there is one.
#[derive(Debug, PartialEq, Eq)]
pub struct StatusEntry {
    pub status: u32,
    pub head_to_index: Option<DiffDelta>,
    pub index_to_workdir: Option<DiffDelta>,
}

/// A comparison, by the characters of its names.
pub struct DiffDeltaView {
    pub old_file: Option<Seq<char>>,
    pub new_file: Option<Seq<char>>,
}

/// An entry, by the characters of its names.
pub struct StatusEntryView {
    pub status: u32,
    pub head_to_index: Option<DiffDeltaView>,
    pub index_to_workdir: Option<DiffDeltaView>,
}

impl View for DiffDelta {
    type V = DiffDeltaView;

    open spec fn view(&self) -> DiffDeltaView {
        DiffDeltaView { old_file: opt_text(self.old_file), new_file: opt_text(self.new_file) }
    }
}

/// The view of an optional comparison.
pub open spec fn opt_delta(o: Option<DiffDelta>) -> Option<DiffDeltaView> {
    match o {
        Some(d) => Some(d@),
        None => None,
    }
}

impl View for StatusEntry {
    type V = StatusEntryView;

    open spec fn view(&self) -> StatusEntryView {
        StatusEntryView {
            status: self.status,
            head_to_index: opt_delta(self.head_to_index),
            index_to_workdir: opt_delta(self.index_to_workdir),
        }
    }
}

/// The views of a list of entries.
pub open spec fn entry_views(entries: Seq<StatusEntry>) -> Seq<StatusEntryView> {
    entries.map_values(|e: StatusEntry| e@)
}

/// Whether a status holds every bit of a flag.
pub open spec fn has_flag(status: u32, flag: u32) -> bool {
    status & flag == flag
}

/// The label of a staged change: the first of new, modified, deleted, renamed
/// and typechange that the status holds.
pub open spec fn index_label(status: u32) -> Option<Seq<char>> {
    if has_flag(status, INDEX_NEW) {
        Some("new file: "@)
    } else if has_flag(status, INDEX_MODIFIED) {
        Some("modified: "@)
    } else if has_flag(status, INDEX_DELETED) {
        Some("deleted: "@)
    } else if has_flag(status, INDEX_RENAMED) {
        Some("renamed: "@)
    } else if has_flag(status, INDEX_TYPECHANGE) {
        Some("typechange: "@)
    } else {
        None
    }
}

/// The label of an unstaged change: the first of modified, deleted, renamed
/// and typechange that the status holds.
pub open spec fn worktree_label(status: u32) -> Option<Seq<char>> {
    if has_flag(status, WT_MODIFIED) {
        Some("modified: "@)
    } else if has_flag(status, WT_DELETED) {
        Some("deleted: "@)
    } else if has_flag(status, WT_RENAMED) {
        Some("renamed: "@)
    } else if has_flag(status, WT_TYPECHANGE) {
        Some("typechange:"@)
    } else {
        None
    }
}

impl DiffDeltaView {
    /// Whether at least one side has a name.
    pub open spec fn named(self) -> bool {
        self.old_file is Some || self.new_file is Some
    }

    /// Whether both sides have a name and the two differ.
    pub open spec fn moved(self) -> bool {
        self.old_file is Some && self.new_file is Some && self.old_file->0 != self.new_file->0
    }

    /// The one name to show where the file did not move: the old one if there
    /// is one, else the new one.
    pub open spec fn name(self) -> Seq<char> {
        if self.old_file is Some {
            self.old_file->0
        } else {
            self.new_file->0
        }
    }
}

/// The line of one change: the label, then the file's name, or its old and
/// new name around an arrow where the two differ.
pub open spec fn change_line(label: Seq<char>, delta: DiffDeltaView) -> Seq<char> {
    if delta.moved() {
        "#\t"@ + label + "\t"@ + delta.old_file->0 + " -> "@ + delta.new_file->0
    } else {
        "#\t"@ + label + "\t"@ + delta.name()
    }
}

impl StatusEntryView {
    /// Whether the entry is listed among the staged changes.
    pub open spec fn is_staged(self) -> bool {
        index_label(self.status) is Some
    }

    /// Whether the entry is listed among the unstaged changes.
    pub open spec fn is_unstaged(self) -> bool {
        self.status != CURRENT && self.index_to_workdir is Some && worktree_label(self.status)
            is Some
    }

    /// An entry can be listed if each comparison that a listing shows is
    /// there and names the file.
    pub open spec fn listable(self) -> bool {
        &&& self.is_staged() ==> self.head_to_index is Some && self.head_to_index->0.named()
        &&& self.is_unstaged() ==> self.index_to_workdir->0.named()
    }

    /// The line of the entry among the staged changes.
    pub open spec fn staged_line(self) -> Seq<char> {
        change_line(index_label(self.status)->0, self.head_to_index->0)
    }

    /// The line of the entry among the unstaged changes.
    pub open spec fn unstaged_line(self) -> Seq<char> {
        change_line(worktree_label(self.status)->0, self.index_to_workdir->0)
    }
}

/// Whether every entry of a list can be listed.
pub open spec fn all_listable(entries: Seq<StatusEntryView>) -> bool {
    forall|i: int| 0 <= i < entries.len() ==> (#[trigger] entries[i]).listable()
}

/// The lines of the staged changes, in the order of the entries.
pub open spec fn staged_lines(entries: Seq<StatusEntryView>) -> Seq<Seq<char>>
    decreases entries.len(),
{
    if entries.len() == 0 {
        Seq::empty()
    } else if entries.last().is_staged() {
        staged_lines(entries.drop_last()).push(entries.last().staged_line())
    } else {
        staged_lines(entries.drop_last())
    }
}

/// The lines of the unstaged changes, in the order of the entries.
pub open spec fn unstaged_lines(entries: Seq<StatusEntryView>) -> Seq<Seq<char>>
    decreases entries.len(),
{
    if entries.len() == 0 {
        Seq::empty()
    } else if entries.last().is_unstaged() {
        unstaged_lines(entries.drop_last()).push(entries.last().unstaged_line())
    } else {
        unstaged_lines(entries.drop_last())
    }
}

/// A section of the listing: nothing where there are no lines, else three
/// lines of heading and then the lines.
pub open spec fn section(title: Seq<char>, lines: Seq<Seq<char>>) -> Seq<Seq<char>> {
    if lines.len() == 0 {
        lines
    } else {
        seq!["#"@, title, "#"@] + lines
    }
}

/// How `std::path::Path` shows a path for `{:?}`: in quotes, with what
/// cannot stand between quotes escaped.
pub uninterp spec fn shown_path(path: Seq<char>) -> Seq<char>;

/// Formats a path, given as text, as the `Debug` of `std::path::Path` does.
/// The contract names the result: a text is always shown the same.
#[verifier::external_body]
fn show_path(path: &str) -> (r: String)
    ensures
        r@ == shown_path(path@),
{
    format!("{:?}", std::path::Path::new(path))
}

/// The whole listing: the branch, the repository's path as it is shown, the
/// staged changes and the unstaged changes.
pub open spec fn listing(
    branch: Seq<char>,
    repo: Seq<char>,
    entries: Seq<StatusEntryView>,
) -> Seq<Seq<char>> {
    seq!["# branch: "@ + branch, "# repo: "@ + shown_path(repo)] + section(
        "# Changes to be commited:"@,
        staged_lines(entries),
    ) + section("# Changes not staged for commit:"@, unstaged_lines(entries))
}

impl DiffDelta {
    /// Whether at least one side has a name.
    pub fn is_named(&self) -> (r: bool)
        ensures
            r == self@.named(),
    {
        self.old_file.is_some() || self.new_file.is_some()
    }
}

impl StatusEntry {
    /// Whether the entry can be listed.
    pub fn is_listable(&self) -> (r: bool)
        ensures
            r == self@.listable(),
    {
        let staged_ok = match index_change(self.status) {
            Some(_) => match &self.head_to_index {
                Some(delta) => delta.is_named(),
                None => false,
            },
            None => true,
        };
        let unstaged_ok = match &self.index_to_workdir {
            Some(delta) => self.status == CURRENT || worktree_change(self.status).is_none()
                || delta.is_named(),
            None => true,
        };
        staged_ok && unstaged_ok
    }
}

/// Whether every entry of a list can be listed.
pub fn are_listable(entries: &Vec<StatusEntry>) -> (r: bool)
    ensures
        r == all_listable(entry_views(entries@)),
{
    let mut i: usize = 0;
    while i < entries.len()
        invariant
            i <= entries.len(),
            forall|k: int| 0 <= k < i ==> (#[trigger] entry_views(entries@)[k]).listable(),
        decreases entries.len() - i,
    {
        if !entries[i].is_listable() {
            assert(!entry_views(entries@)[i as int].listable());
            return false;
        }
        i += 1;
    }
    true
}

/// The label under which a status is listed among the staged changes, if it
/// is listed there.
pub fn index_change(status: u32) -> (r: Option<&'static str>)
    ensures
        match r {
            Some(label) => index_label(status) == Some(label@),
            None => index_label(status) is None,
        },
{
    if status & INDEX_NEW == INDEX_NEW {
        Some("new file: ")
    } else if status & INDEX_MODIFIED == INDEX_MODIFIED {
        Some("modified: ")
    } else if status & INDEX_DELETED == INDEX_DELETED {
        Some("deleted: ")
    } else if status & INDEX_RENAMED == INDEX_RENAMED {
        Some("renamed: ")
    } else if status & INDEX_TYPECHANGE == INDEX_TYPECHANGE {
        Some("typechange: ")
    } else {
        None
    }
}

/// The label under which a status is listed among the unstaged changes, if
/// its flags list it there.
pub fn worktree_change(status: u32) -> (r: Option<&'static str>)
    ensures
        match r {
            Some(label) => worktree_label(status) == Some(label@),
            None => worktree_label(status) is None,
        },
{
    if status & WT_MODIFIED == WT_MODIFIED {
        Some("modified: ")
    } else if status & WT_DELETED == WT_DELETED {
        Some("deleted: ")
    } else if status & WT_RENAMED == WT_RENAMED {
        Some("renamed: ")
    } else if status & WT_TYPECHANGE == WT_TYPECHANGE {
        Some("typechange:")
    } else {
        None
    }
}

/// Writes the line of one change.
pub fn format_change(label: &str, delta: &DiffDelta) -> (line: String)
    requires
        delta@.named(),
    ensures
        line@ == change_line(label@, delta@),
{
    let mut line = String::from_str("#\t");
    line.append(label);
    line.append("\t");
    match (&delta.old_file, &delta.new_file) {
        (Some(old), Some(new)) => {
            line.append(old.as_str());
            if !same_text(old.as_str(), new.as_str()) {
                line.append(" -> ");
                line.append(new.as_str());
            }
        },
        (Some(old), None) => {
            line.append(old.as_str());
        },
        (None, Some(new)) => {
            line.append(new.as_str());
        },
        (None, None) => {},
    }
    line
}

/// Puts the heading of a section before its lines, where there are any.
fn with_heading(title: &str, lines: Vec<String>) -> (out: Vec<String>)
    ensures
        texts(out@) == section(title@, texts(lines@)),
{
    if lines.len() == 0 {
        return lines;
    }
    let mut out: Vec<String> = Vec::new();
    out.push(String::from_str("#"));
    out.push(String::from_str(title));
    out.push(String::from_str("#"));
    let mut lines = lines;
    out.append(&mut lines);
    out
}

/// The staged changes of a status: nothing where there are none, else a
/// heading and one line for each of them, in the order of the entries.
pub fn staged_changes(entries: &Vec<StatusEntry>) -> (lines: Vec<String>)
    requires
        all_listable(entry_views(entries@)),
    ensures
        texts(lines@) == section(
            "# Changes to be commited:"@,
            staged_lines(entry_views(entries@)),
        ),
{
    let ghost views = entry_views(entries@);
    let mut rows: Vec<String> = Vec::new();
    let mut i: usize = 0;
    while i < entries.len()
        invariant
            i <= entries.len(),
            views == entry_views(entries@),
            all_listable(views),
            texts(rows@) == staged_lines(views.take(i as int)),
        decreases entries.len() - i,
    {
        let entry = &entries[i];
        proof {
            assert(views.take(i + 1).drop_last() =~= views.take(i as int));
            assert(views.take(i + 1).last() == views[i as int]);
        }
        if let Some(label) = index_change(entry.status) {
            match &entry.head_to_index {
                Some(delta) => {
                    let line = format_change(label, delta);
                    rows.push(line);
                },
                None => {},
            }
        }
        i += 1;
    }
    assert(views.take(i as int) =~= views);
    with_heading("# Changes to be commited:", rows)
}

/// The unstaged changes of a status: nothing where there are none, else a
/// heading and one line for each of them, in the order of the entries.
pub fn unstaged_changes(entries: &Vec<StatusEntry>) -> (lines: Vec<String>)
    requires
        all_listable(entry_views(entries@)),
    ensures
        texts(lines@) == section(
            "# Changes not staged for commit:"@,
            unstaged_lines(entry_views(entries@)),
        ),
{
    let ghost views = entry_views(entries@);
    let mut rows: Vec<String> = Vec::new();
    let mut i: usize = 0;
    while i < entries.len()
        invariant
            i <= entries.len(),
            views == entry_views(entries@),
            all_listable(views),
            texts(rows@) == unstaged_lines(views.take(i as int)),
        decreases entries.len() - i,
    {
        let entry = &entries[i];
        proof {
            assert(views.take(i + 1).drop_last() =~= views.take(i as int));
            assert(views.take(i + 1).last() == views[i as int]);
        }
        if entry.status != CURRENT {
            if let Some(delta) = &entry.index_to_workdir {
                if let Some(label) = worktree_change(entry.status) {
                    let line = format_change(label, delta);
                    rows.push(line);
                }
            }
        }
        i += 1;
    }
    assert(views.take(i as int) =~= views);
    with_heading("# Changes not staged for commit:", rows)
}

/// The whole listing of a status: the branch, the path of the repository,
/// the staged changes and the unstaged changes.
pub fn status_report(branch: &str, repo: &str, entries: &Vec<StatusEntry>) -> (lines: Vec<String>)
    requires
        all_listable(entry_views(entries@)),
    ensures
        texts(lines@) == listing(branch@, repo@, entry_views(entries@)),
{
    let mut lines: Vec<String> = Vec::new();
    let mut first = String::from_str("# branch: ");
    first.append(branch);
    let mut second = String::from_str("# repo: ");
    let shown = show_path(repo);
    second.append(shown.as_str());
    lines.push(first);
    lines.push(second);
    let mut staged = staged_changes(entries);
    let mut unstaged = unstaged_changes(entries);
    lines.append(&mut staged);
    lines.append(&mut unstaged);
    lines
}

/// A status is listed among the staged changes exactly if it holds one of
/// the five flags of the index, and among the unstaged changes only if it
/// holds one of the four flags of the work tree that are shown.
pub proof fn listed_by_flags(status: u32)
    ensures
        index_label(status) is Some <==> status & 31 != 0,
        worktree_label(status) is Some <==> status & 3840 != 0,
{
    assert((status & 31 != 0) <==> (status & 1 == 1 || status & 2 == 2 || status & 4 == 4
        || status & 8 == 8 || status & 16 == 16)) by (bit_vector);
    assert((status & 3840 != 0) <==> (status & 256 == 256 || status & 512 == 512 || status & 2048
        == 2048 || status & 1024 == 1024)) by (bit_vector);
}

/// The lines of two lists of entries, one after the other, are the lines of
/// the first and then the lines of the second.
pub proof fn lines_follow_the_entries(first: Seq<StatusEntryView>, second: Seq<StatusEntryView>)
    ensures
        staged_lines(first + second) == staged_lines(first) + staged_lines(second),
        unstaged_lines(first + second) == unstaged_lines(first) + unstaged_lines(second),
    decreases second.len(),
{
    if second.len() > 0 {
        lines_follow_the_entries(first, second.drop_last());
        assert((first + second).drop_last() =~= first + second.drop_last());
    }
}

} // verus!
