use commitgen::report::{
    classify, handle_added, handle_deleted, handle_modified, handle_renamed, lookup_content,
    DiffLine,
};
use commitgen::status::{classify_flags, ChangeCategory, StatusEntry, StatusFlags};

fn no_flags() -> StatusFlags {
    StatusFlags {
        index_new: false,
        wt_new: false,
        index_modified: false,
        wt_modified: false,
        index_deleted: false,
        wt_deleted: false,
        index_renamed: false,
        wt_renamed: false,
    }
}

fn entry(path: Option<&str>, flags: StatusFlags) -> StatusEntry {
    StatusEntry { path: path.map(|p| p.to_string()), flags }
}

#[test]
fn new_file_with_readable_content() {
    let flags = StatusFlags { wt_new: true, ..no_flags() };
    let entries = vec![entry(Some("foo.txt"), flags)];
    let contents = vec![("foo.txt".to_string(), Some("hello".to_string()))];
    let report = classify(&entries, &contents, &None);
    assert_eq!(report, "\nNew file: foo.txt\nhello");
}

#[test]
fn deleted_file() {
    let flags = StatusFlags { wt_deleted: true, ..no_flags() };
    let entries = vec![entry(Some("bar.txt"), flags)];
    let report = classify(&entries, &vec![], &None);
    assert_eq!(report, "\nDeleted file: bar.txt");
}

#[test]
fn renamed_file() {
    let flags = StatusFlags { index_renamed: true, ..no_flags() };
    let entries = vec![entry(Some("baz.txt"), flags)];
    let report = classify(&entries, &vec![], &None);
    assert_eq!(report, "\nRenamed file: baz.txt");
}

#[test]
fn entry_without_path() {
    let entries = vec![entry(None, no_flags())];
    let report = classify(&entries, &vec![], &None);
    assert_eq!(report, "\nUnknown path");
}

#[test]
fn unreadable_new_file_falls_back() {
    let flags = StatusFlags { index_new: true, ..no_flags() };
    let entries = vec![entry(Some("secret.bin"), flags)];
    let contents = vec![("secret.bin".to_string(), None)];
    let report = classify(&entries, &contents, &None);
    assert_eq!(report, "\nNew file (binary or unreadable): secret.bin");
}

#[test]
fn never_read_new_file_falls_back() {
    let flags = StatusFlags { wt_new: true, ..no_flags() };
    let entries = vec![entry(Some("ghost.txt"), flags)];
    let report = classify(&entries, &vec![], &None);
    assert_eq!(report, "\nNew file (binary or unreadable): ghost.txt");
}

#[test]
fn new_flag_beats_modified_flag() {
    let flags = StatusFlags { index_new: true, index_modified: true, ..no_flags() };
    assert_eq!(classify_flags(&flags), ChangeCategory::Added);
    let entries = vec![entry(Some("both.txt"), flags)];
    let contents = vec![("both.txt".to_string(), Some("body".to_string()))];
    let diff = Some(vec![DiffLine {
        old_path: Some("both.txt".to_string()),
        content: "diff text".to_string(),
    }]);
    let report = classify(&entries, &contents, &diff);
    assert_eq!(report, "\nNew file: both.txt\nbody");
}

#[test]
fn category_priority_order() {
    let modified = StatusFlags { wt_modified: true, wt_deleted: true, wt_renamed: true, ..no_flags() };
    assert_eq!(classify_flags(&modified), ChangeCategory::Modified);
    let deleted = StatusFlags { index_deleted: true, wt_renamed: true, ..no_flags() };
    assert_eq!(classify_flags(&deleted), ChangeCategory::Deleted);
    let renamed = StatusFlags { wt_renamed: true, ..no_flags() };
    assert_eq!(classify_flags(&renamed), ChangeCategory::Renamed);
    assert_eq!(classify_flags(&no_flags()), ChangeCategory::Unknown);
}

#[test]
fn modified_file_keeps_only_its_own_lines() {
    let lines = vec![
        DiffLine { old_path: Some("a.txt".to_string()), content: "first\n".to_string() },
        DiffLine { old_path: Some("b.txt".to_string()), content: "foreign\n".to_string() },
        DiffLine { old_path: Some("a.txt".to_string()), content: "second\n".to_string() },
        DiffLine { old_path: None, content: "orphan\n".to_string() },
    ];
    let fragment = handle_modified(&"a.txt".to_string(), &lines);
    assert_eq!(fragment, "first\nsecond\n");

    let flags = StatusFlags { wt_modified: true, ..no_flags() };
    let entries = vec![entry(Some("a.txt"), flags)];
    let report = classify(&entries, &vec![], &Some(lines));
    assert_eq!(report, "first\nsecond\n");
}

#[test]
fn modified_file_without_diff_adds_nothing() {
    let flags = StatusFlags { index_modified: true, ..no_flags() };
    let entries = vec![entry(Some("a.txt"), flags)];
    let report = classify(&entries, &vec![], &None);
    assert_eq!(report, "");
}

#[test]
fn unmatched_flags_are_skipped() {
    let entries = vec![entry(Some("quiet.txt"), no_flags())];
    let report = classify(&entries, &vec![], &None);
    assert_eq!(report, "");
}

#[test]
fn one_fragment_per_entry_in_scan_order() {
    let entries = vec![
        entry(Some("a.txt"), StatusFlags { wt_deleted: true, ..no_flags() }),
        entry(Some("quiet.txt"), no_flags()),
        entry(None, no_flags()),
        entry(Some("b.txt"), StatusFlags { index_renamed: true, ..no_flags() }),
    ];
    let report = classify(&entries, &vec![], &None);
    assert_eq!(report, "\nDeleted file: a.txt\nUnknown path\nRenamed file: b.txt");
}

#[test]
fn classifying_twice_gives_identical_reports() {
    let entries = vec![
        entry(Some("foo.txt"), StatusFlags { wt_new: true, ..no_flags() }),
        entry(Some("a.txt"), StatusFlags { wt_modified: true, ..no_flags() }),
        entry(None, no_flags()),
    ];
    let contents = vec![("foo.txt".to_string(), Some("hello".to_string()))];
    let diff = Some(vec![DiffLine {
        old_path: Some("a.txt".to_string()),
        content: "+x\n".to_string(),
    }]);
    let first = classify(&entries, &contents, &diff);
    let second = classify(&entries, &contents, &diff);
    assert_eq!(first, second);
}

#[test]
fn handlers_render_exact_fragments() {
    let path = "dir/file.rs".to_string();
    let body = "fn main() {}\n".to_string();
    assert_eq!(handle_added(&path, Some(&body)), "\nNew file: dir/file.rs\nfn main() {}\n");
    assert_eq!(handle_added(&path, None), "\nNew file (binary or unreadable): dir/file.rs");
    assert_eq!(handle_deleted(&path), "\nDeleted file: dir/file.rs");
    assert_eq!(handle_renamed(&path), "\nRenamed file: dir/file.rs");
}

#[test]
fn lookup_takes_first_matching_pair() {
    let contents = vec![
        ("k".to_string(), Some("first".to_string())),
        ("k".to_string(), Some("second".to_string())),
        ("other".to_string(), Some("x".to_string())),
    ];
    assert_eq!(lookup_content(&contents, &"k".to_string()), Some("first".to_string()));
    assert_eq!(lookup_content(&contents, &"other".to_string()), Some("x".to_string()));
    assert_eq!(lookup_content(&contents, &"absent".to_string()), None);
}
