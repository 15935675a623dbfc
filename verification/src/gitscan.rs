//! The status scanner and the assembly of the change report for the
//! repository that contains the current working directory.
//!
//! Everything the version-control library is asked — repository
//! discovery, the status query, the index-to-workdir diff — sits behind
//! trusted wrappers that return plain values; what those values hold
//! depends on the state of the repository on disk, so nothing is assumed
//! of them, and the classification of the values is verified for every
//! possible outcome.

use vstd::prelude::*;
use crate::report::{classify, diff_view, report_of, DiffLine};
use crate::status::{category_of, classify_flags, ChangeCategory, ScanError, StatusEntry, StatusFlags};

verus! {

#[verifier::external_type_specification]
#[verifier::external_body]
pub struct ExRepository(git2::Repository);

#[verifier::external_type_specification]
#[verifier::external_body]
pub struct ExGitError(git2::Error);

/// Relies on git2::Repository::discover: walks the filesystem ancestry
/// of the current working directory looking for a repository. Whether
/// one is found depends on the disk, so nothing is assumed of the
/// outcome.
#[verifier::external_body]
fn discover_repo() -> (r: Result<git2::Repository, git2::Error>) {
    git2::Repository::discover(".")
}

/// Relies on git2::Repository::statuses with untracked files included,
/// on git2::StatusEntry::path (`None` for a path that is not valid
/// UTF-8), and on the git2::Status accessors is_index_new, is_wt_new,
/// is_index_modified, is_wt_modified, is_index_deleted, is_wt_deleted,
/// is_index_renamed and is_wt_renamed, each copied into one flag. What
/// the scan reports depends on the repository's state, so nothing is
/// assumed of the entries.
#[verifier::external_body]
fn raw_statuses(repo: &git2::Repository) -> (r: Result<Vec<StatusEntry>, git2::Error>) {
    let mut opts = git2::StatusOptions::new();
    opts.include_untracked(true);
    let statuses = match repo.statuses(Some(&mut opts)) { Ok(s) => s, Err(e) => return Err(e) };
    Ok(statuses.iter().map(|e| {
        let (s, path) = (e.status(), e.path().ok().map(|p| p.to_string()));
        let flags = StatusFlags {
            index_new: s.is_index_new(), wt_new: s.is_wt_new(),
            index_modified: s.is_index_modified(), wt_modified: s.is_wt_modified(),
            index_deleted: s.is_index_deleted(), wt_deleted: s.is_wt_deleted(),
            index_renamed: s.is_index_renamed(), wt_renamed: s.is_wt_renamed(),
        };
        StatusEntry { path, flags }
    }).collect())
}

/// Relies on git2::Repository::diff_index_to_workdir with untracked
/// content included, and on git2::Diff::print in patch format, whose
/// callback receives every printed line together with the delta it
/// belongs to; the delta's old-file path and the line's raw content are
/// copied out, content that is not valid UTF-8 becoming the empty string
/// (std::str::from_utf8). `None` when the diff could not be computed or
/// printed. What the lines hold depends on the repository's state, so
/// nothing is assumed of them.
#[verifier::external_body]
fn raw_diff_lines(repo: &git2::Repository) -> (r: Option<Vec<DiffLine>>) {
    let mut opts = git2::DiffOptions::new();
    opts.include_untracked(true);
    let diff = match repo.diff_index_to_workdir(None, Some(&mut opts)) { Ok(d) => d, Err(_) => return None };
    let mut lines: Vec<DiffLine> = Vec::new();
    let printed = diff.print(git2::DiffFormat::Patch, |delta, _hunk, line| {
        let old_path = delta.old_file().path().and_then(|p| p.to_str()).map(|p| p.to_string());
        let content = std::str::from_utf8(line.content()).unwrap_or_default().to_string();
        lines.push(DiffLine { old_path, content });
        true
    });
    if printed.is_ok() { Some(lines) } else { None }
}

/// Scans the repository that contains the current working directory and
/// returns one entry per reported path, untracked files included, in the
/// provider's order. Fails with `NotARepository` when no repository is
/// found in the filesystem ancestry, and with `ProviderFailure` when the
/// status query itself fails; a scan never alters the repository.
pub fn scan() -> (r: Result<Vec<StatusEntry>, ScanError>)
{
    match discover_repo() {
        Err(_) => Err(ScanError::NotARepository),
        Ok(repo) => match raw_statuses(&repo) {
            Ok(entries) => Ok(entries),
            Err(_) => Err(ScanError::ProviderFailure),
        },
    }
}

/// The paths, in scan order, of the entries that will be reported as
/// added files and whose working-tree content the report therefore
/// needs.
pub open spec fn added_paths(entries: Seq<StatusEntry>) -> Seq<Seq<char>>
    decreases entries.len(),
{
    if entries.len() == 0 {
        Seq::<Seq<char>>::empty()
    } else {
        added_paths(entries.drop_last()) + match entries.last().path {
            Some(p) => if category_of(entries.last().flags) == ChangeCategory::Added {
                seq![p@]
            } else {
                Seq::<Seq<char>>::empty()
            },
            None => Seq::<Seq<char>>::empty(),
        }
    }
}

/// Collects the paths whose content the caller must read from the
/// working tree and record for `collect_report`: those of the entries
/// classified as added files, in scan order.
pub fn paths_needing_content(entries: &Vec<StatusEntry>) -> (r: Vec<String>)
    ensures
        r.deep_view() == added_paths(entries@),
{
    let mut r: Vec<String> = Vec::new();
    let mut i: usize = 0;
    while i < entries.len()
        invariant
            i <= entries.len(),
            r.deep_view() == added_paths(entries@.take(i as int)),
        decreases entries.len() - i,
    {
        let e = &entries[i];
        match &e.path {
            Some(p) => {
                match classify_flags(&e.flags) {
                    ChangeCategory::Added => {
                        r.push(p.clone());
                    },
                    _ => {},
                }
            },
            None => {},
        }
        proof {
            assert(entries@.take(i as int + 1).drop_last() =~= entries@.take(i as int));
            assert(entries@.take(i as int + 1).last() == entries@[i as int]);
            assert(r.deep_view() =~= added_paths(entries@.take(i as int + 1)));
        }
        i = i + 1;
    }
    proof {
        assert(entries@.take(entries@.len() as int) =~= entries@);
    }
    r
}

/// Builds the change report for scanned entries, given the working-tree
/// content recorded for each added path. The index-to-workdir diff that
/// modified entries draw on is queried here; when it cannot be computed,
/// modified entries contribute nothing, and the report is still built:
/// classification never fails.
pub fn collect_report(entries: &Vec<StatusEntry>, contents: &Vec<(String, Option<String>)>) -> (r:
    String)
    ensures
        exists|d: Option<Seq<DiffLine>>| r@ == report_of(entries@, contents@, d),
{
    let diff: Option<Vec<DiffLine>> = match discover_repo() {
        Ok(repo) => raw_diff_lines(&repo),
        Err(_) => None,
    };
    let r = classify(entries, contents, &diff);
    proof {
        assert(r@ == report_of(entries@, contents@, diff_view(diff)));
    }
    r
}

} // verus!
