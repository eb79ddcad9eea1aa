use dotme::cmd::status::{
    are_listable, format_change, index_change, staged_changes, status_report, unstaged_changes,
    worktree_change, DiffDelta, StatusEntry, CURRENT, INDEX_DELETED, INDEX_MODIFIED, INDEX_NEW,
    INDEX_RENAMED, INDEX_TYPECHANGE, WT_DELETED, WT_MODIFIED, WT_RENAMED, WT_TYPECHANGE,
};

fn delta(old: Option<&str>, new: Option<&str>) -> DiffDelta {
    DiffDelta { old_file: old.map(String::from), new_file: new.map(String::from) }
}

fn same(name: &str) -> Option<DiffDelta> {
    Some(delta(Some(name), Some(name)))
}

fn entry(status: u32, staged: Option<DiffDelta>, unstaged: Option<DiffDelta>) -> StatusEntry {
    StatusEntry { status, head_to_index: staged, index_to_workdir: unstaged }
}

#[test]
fn flags_are_those_of_git() {
    assert_eq!(CURRENT, git2::Status::CURRENT.bits());
    assert_eq!(INDEX_NEW, git2::Status::INDEX_NEW.bits());
    assert_eq!(INDEX_MODIFIED, git2::Status::INDEX_MODIFIED.bits());
    assert_eq!(INDEX_DELETED, git2::Status::INDEX_DELETED.bits());
    assert_eq!(INDEX_RENAMED, git2::Status::INDEX_RENAMED.bits());
    assert_eq!(INDEX_TYPECHANGE, git2::Status::INDEX_TYPECHANGE.bits());
    assert_eq!(WT_MODIFIED, git2::Status::WT_MODIFIED.bits());
    assert_eq!(WT_DELETED, git2::Status::WT_DELETED.bits());
    assert_eq!(WT_RENAMED, git2::Status::WT_RENAMED.bits());
    assert_eq!(WT_TYPECHANGE, git2::Status::WT_TYPECHANGE.bits());
}

#[test]
fn labels_agree_with_git_on_every_status() {
    for bits in 0..(1u32 << 16) {
        let status = git2::Status::from_bits_truncate(bits);
        let staged = if status.contains(git2::Status::INDEX_NEW) {
            Some("new file: ")
        } else if status.contains(git2::Status::INDEX_MODIFIED) {
            Some("modified: ")
        } else if status.contains(git2::Status::INDEX_DELETED) {
            Some("deleted: ")
        } else if status.contains(git2::Status::INDEX_RENAMED) {
            Some("renamed: ")
        } else if status.contains(git2::Status::INDEX_TYPECHANGE) {
            Some("typechange: ")
        } else {
            None
        };
        let unstaged = if status.contains(git2::Status::WT_MODIFIED) {
            Some("modified: ")
        } else if status.contains(git2::Status::WT_DELETED) {
            Some("deleted: ")
        } else if status.contains(git2::Status::WT_RENAMED) {
            Some("renamed: ")
        } else if status.contains(git2::Status::WT_TYPECHANGE) {
            Some("typechange:")
        } else {
            None
        };
        assert_eq!(index_change(status.bits()), staged);
        assert_eq!(worktree_change(status.bits()), unstaged);
    }
}

#[test]
fn staged_label_is_the_first_flag_that_is_set() {
    assert_eq!(index_change(CURRENT), None);
    assert_eq!(index_change(INDEX_NEW), Some("new file: "));
    assert_eq!(index_change(INDEX_MODIFIED), Some("modified: "));
    assert_eq!(index_change(INDEX_DELETED), Some("deleted: "));
    assert_eq!(index_change(INDEX_RENAMED), Some("renamed: "));
    assert_eq!(index_change(INDEX_TYPECHANGE), Some("typechange: "));
    assert_eq!(index_change(INDEX_RENAMED | INDEX_MODIFIED), Some("modified: "));
    assert_eq!(index_change(INDEX_TYPECHANGE | INDEX_DELETED | WT_MODIFIED), Some("deleted: "));
    assert_eq!(index_change(WT_MODIFIED | WT_DELETED), None);
    assert_eq!(index_change(1 << 7), None);
}

#[test]
fn unstaged_label_is_the_first_flag_that_is_set() {
    assert_eq!(worktree_change(CURRENT), None);
    assert_eq!(worktree_change(WT_MODIFIED), Some("modified: "));
    assert_eq!(worktree_change(WT_DELETED), Some("deleted: "));
    assert_eq!(worktree_change(WT_RENAMED), Some("renamed: "));
    assert_eq!(worktree_change(WT_TYPECHANGE), Some("typechange:"));
    assert_eq!(worktree_change(WT_TYPECHANGE | WT_RENAMED), Some("renamed: "));
    assert_eq!(worktree_change(WT_RENAMED | WT_DELETED | INDEX_NEW), Some("deleted: "));
    assert_eq!(worktree_change(INDEX_NEW | INDEX_MODIFIED), None);
    assert_eq!(worktree_change(1 << 7), None);
}

#[test]
fn change_with_one_name() {
    assert_eq!(format_change("modified: ", &delta(Some("a.txt"), Some("a.txt"))), "#\tmodified: \ta.txt");
    assert_eq!(format_change("deleted: ", &delta(Some("a.txt"), None)), "#\tdeleted: \ta.txt");
    assert_eq!(format_change("new file: ", &delta(None, Some("b.txt"))), "#\tnew file: \tb.txt");
}

#[test]
fn change_with_two_names() {
    assert_eq!(
        format_change("renamed: ", &delta(Some("a.txt"), Some("dir/b.txt"))),
        "#\trenamed: \ta.txt -> dir/b.txt"
    );
    assert_eq!(format_change("typechange:", &delta(Some(""), Some("b"))), "#\ttypechange:\t -> b");
}

#[test]
fn no_changes_give_no_lines() {
    let entries = vec![entry(CURRENT, None, None), entry(1 << 14, None, None)];
    assert!(are_listable(&entries));
    assert!(staged_changes(&entries).is_empty());
    assert!(unstaged_changes(&entries).is_empty());
    assert!(staged_changes(&Vec::new()).is_empty());
    assert!(unstaged_changes(&Vec::new()).is_empty());
}

#[test]
fn staged_changes_under_their_heading() {
    let entries = vec![
        entry(INDEX_NEW, same("new.txt"), None),
        entry(WT_MODIFIED, None, same("work.txt")),
        entry(INDEX_RENAMED, Some(delta(Some("old.txt"), Some("moved.txt"))), None),
        entry(INDEX_DELETED | WT_DELETED, Some(delta(Some("gone.txt"), None)), same("gone.txt")),
    ];
    assert!(are_listable(&entries));
    assert_eq!(
        staged_changes(&entries),
        vec![
            "#",
            "# Changes to be commited:",
            "#",
            "#\tnew file: \tnew.txt",
            "#\trenamed: \told.txt -> moved.txt",
            "#\tdeleted: \tgone.txt",
        ]
    );
}

#[test]
fn unstaged_changes_under_their_heading() {
    let entries = vec![
        entry(INDEX_NEW, same("new.txt"), None),
        entry(WT_MODIFIED, None, same("work.txt")),
        entry(WT_TYPECHANGE, None, same("link")),
        entry(WT_RENAMED | INDEX_MODIFIED, same("a"), Some(delta(Some("a"), Some("b")))),
        entry(WT_DELETED, None, None),
    ];
    assert!(are_listable(&entries));
    assert_eq!(
        unstaged_changes(&entries),
        vec![
            "#",
            "# Changes not staged for commit:",
            "#",
            "#\tmodified: \twork.txt",
            "#\ttypechange:\tlink",
            "#\trenamed: \ta -> b",
        ]
    );
}

#[test]
fn report_of_a_clean_repository() {
    assert_eq!(
        status_report("main", "/home/alice/.cfg/", &Vec::new()),
        vec!["# branch: main", "# repo: \"/home/alice/.cfg/\""]
    );
}

#[test]
fn report_with_both_sections() {
    let entries = vec![
        entry(INDEX_MODIFIED | WT_MODIFIED, same(".bashrc"), same(".bashrc")),
        entry(INDEX_NEW, same(".vimrc"), None),
        entry(WT_DELETED, None, Some(delta(Some(".zshrc"), None))),
    ];
    assert!(are_listable(&entries));
    assert_eq!(
        status_report("main", "/home/alice/.cfg/", &entries),
        vec![
            "# branch: main",
            "# repo: \"/home/alice/.cfg/\"",
            "#",
            "# Changes to be commited:",
            "#",
            "#\tmodified: \t.bashrc",
            "#\tnew file: \t.vimrc",
            "#",
            "# Changes not staged for commit:",
            "#",
            "#\tmodified: \t.bashrc",
            "#\tdeleted: \t.zshrc",
        ]
    );
}

#[test]
fn entries_that_cannot_be_listed() {
    assert!(!entry(INDEX_NEW, None, None).is_listable());
    assert!(!entry(INDEX_NEW, Some(delta(None, None)), None).is_listable());
    assert!(!entry(WT_MODIFIED, None, Some(delta(None, None))).is_listable());
    assert!(entry(WT_MODIFIED, None, None).is_listable());
    assert!(entry(CURRENT, Some(delta(None, None)), Some(delta(None, None))).is_listable());
    assert!(entry(INDEX_NEW, same("a"), Some(delta(None, None))).is_listable());
    assert!(!are_listable(&vec![entry(INDEX_NEW, same("a"), None), entry(INDEX_NEW, None, None)]));
    assert!(delta(Some("a"), None).is_named());
    assert!(delta(None, Some("a")).is_named());
    assert!(!delta(None, None).is_named());
}

#[test]
fn report_shows_the_repository_in_quotes() {
    assert_eq!(
        status_report("", "/srv/my \"dot\" files\n/.cfg", &Vec::new()),
        vec!["# branch: ", "# repo: \"/srv/my \\\"dot\\\" files\\n/.cfg\""]
    );
    for path in ["", "/", "a b", "/home/\u{e4}/.cfg", "tab\there"] {
        let lines = status_report("main", path, &Vec::new());
        assert_eq!(lines[1], format!("# repo: {:?}", std::path::Path::new(path)));
    }
}
