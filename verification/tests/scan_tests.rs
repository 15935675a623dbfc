use commitgen::cli::CliArgs;
use commitgen::gitscan::{collect_report, paths_needing_content, scan};
use commitgen::status::{ScanError, StatusEntry, StatusFlags};

fn no_flags() -> StatusFlags {
    StatusFlags {
        index_new: false,
        wt_new: false,
        index_modified: false,
        wt_modified: false,
        index_deleted: false,
        wt_deleted: false,
        index_renamed: false,
        wt_renamed: false,
    }
}

#[test]
fn scan_outside_a_repository_fails() {
    // The test process runs outside any version-controlled directory, so
    // discovery finds no repository and no report is produced.
    let result = scan();
    assert!(matches!(result, Err(ScanError::NotARepository)));
}

#[test]
fn added_entries_name_the_paths_to_read() {
    let entries = vec![
        StatusEntry {
            path: Some("new.txt".to_string()),
            flags: StatusFlags { wt_new: true, ..no_flags() },
        },
        StatusEntry {
            path: Some("gone.txt".to_string()),
            flags: StatusFlags { wt_deleted: true, ..no_flags() },
        },
        StatusEntry { path: None, flags: StatusFlags { wt_new: true, ..no_flags() } },
        StatusEntry {
            path: Some("staged.txt".to_string()),
            flags: StatusFlags { index_new: true, index_modified: true, ..no_flags() },
        },
    ];
    let paths = paths_needing_content(&entries);
    assert_eq!(paths, vec!["new.txt".to_string(), "staged.txt".to_string()]);
}

#[test]
fn collect_report_without_a_repository_still_reports() {
    // Diff lines cannot be computed here, so modified entries contribute
    // nothing, but every other fragment is still rendered.
    let entries = vec![
        StatusEntry {
            path: Some("gone.txt".to_string()),
            flags: StatusFlags { index_deleted: true, ..no_flags() },
        },
        StatusEntry {
            path: Some("edited.txt".to_string()),
            flags: StatusFlags { wt_modified: true, ..no_flags() },
        },
        StatusEntry {
            path: Some("fresh.txt".to_string()),
            flags: StatusFlags { wt_new: true, ..no_flags() },
        },
    ];
    let contents = vec![("fresh.txt".to_string(), Some("body".to_string()))];
    let report = collect_report(&entries, &contents);
    assert_eq!(report, "\nDeleted file: gone.txt\nNew file: fresh.txt\nbody");
}

#[test]
fn cli_args_carry_the_auto_commit_choice() {
    let args = CliArgs { auto_commit: true };
    assert!(args.auto_commit);
    assert_eq!(args, CliArgs { auto_commit: true });
}
