//! Rendering of scanned status entries into the textual change report.
//!
//! Every entry contributes at most one fragment: a fixed marker when the
//! entry has no resolvable path, a category-specific description
//! otherwise, and nothing at all when no known category matches. The
//! report is the concatenation of the fragments in scan order.

use vstd::prelude::*;
use vstd::string::StringExecFns;
use crate::status::{category_of, classify_flags, ChangeCategory, StatusEntry};

verus! {

/// One line of a textual diff: the old-file path the line is attributed
/// to (`None` when the provider reports no usable path) and the line's
/// content, already decoded.
#[derive(Debug)]
pub struct DiffLine {
    pub old_path: Option<String>,
    pub content: String,
}

/// What one diff line contributes to the fragment for `path`: its
/// content when its old-file path equals `path` exactly, nothing
/// otherwise.
pub open spec fn line_part(l: DiffLine, path: Seq<char>) -> Seq<char> {
    match l.old_path {
        Some(p) => if p@ == path {
            l.content@
        } else {
            Seq::<char>::empty()
        },
        None => Seq::<char>::empty(),
    }
}

/// The fragment for a modified file: the contents of exactly the diff
/// lines attributed to `path`, concatenated in order.
pub open spec fn modified_fragment(lines: Seq<DiffLine>, path: Seq<char>) -> Seq<char>
    decreases lines.len(),
{
    if lines.len() == 0 {
        Seq::<char>::empty()
    } else {
        modified_fragment(lines.drop_last(), path) + line_part(lines.last(), path)
    }
}

/// The fragment for an added file: its full content when the working
/// tree could be read, a fixed fallback line otherwise.
pub open spec fn added_fragment(path: Seq<char>, content: Option<Seq<char>>) -> Seq<char> {
    match content {
        Some(c) => "\nNew file: "@ + path + "\n"@ + c,
        None => "\nNew file (binary or unreadable): "@ + path,
    }
}

/// The fragment for a deleted file. No content is looked up: the file no
/// longer exists.
pub open spec fn deleted_fragment(path: Seq<char>) -> Seq<char> {
    "\nDeleted file: "@ + path
}

/// The fragment for a renamed file. Only the reported path appears; the
/// old/new pairing is not reconstructed.
pub open spec fn renamed_fragment(path: Seq<char>) -> Seq<char> {
    "\nRenamed file: "@ + path
}

/// The fixed marker fragment for an entry without a resolvable path.
pub open spec fn unknown_path_fragment() -> Seq<char> {
    "\nUnknown path"@
}

/// The working-tree content recorded for `path`: the value paired with
/// the first matching key, `None` when that value is `None` (the read
/// failed) or when no key matches (the path was never read).
pub open spec fn content_for(contents: Seq<(String, Option<String>)>, path: Seq<char>) -> Option<
    Seq<char>,
>
    decreases contents.len(),
{
    if contents.len() == 0 {
        None
    } else if contents[0].0@ == path {
        match contents[0].1 {
            Some(c) => Some(c@),
            None => None,
        }
    } else {
        content_for(contents.drop_first(), path)
    }
}

/// The single fragment an entry contributes to the report, given the
/// recorded working-tree contents and the diff lines (`None` when diff
/// computation failed: modified entries then contribute nothing).
pub open spec fn fragment_of(
    e: StatusEntry,
    contents: Seq<(String, Option<String>)>,
    diff: Option<Seq<DiffLine>>,
) -> Seq<char> {
    match e.path {
        None => unknown_path_fragment(),
        Some(p) => match category_of(e.flags) {
            ChangeCategory::Added => added_fragment(p@, content_for(contents, p@)),
            ChangeCategory::Modified => match diff {
                Some(lines) => modified_fragment(lines, p@),
                None => Seq::<char>::empty(),
            },
            ChangeCategory::Deleted => deleted_fragment(p@),
            ChangeCategory::Renamed => renamed_fragment(p@),
            ChangeCategory::Unknown => Seq::<char>::empty(),
        },
    }
}

/// The whole change report: the fragments of all entries, concatenated
/// in scan order.
pub open spec fn report_of(
    entries: Seq<StatusEntry>,
    contents: Seq<(String, Option<String>)>,
    diff: Option<Seq<DiffLine>>,
) -> Seq<char>
    decreases entries.len(),
{
    if entries.len() == 0 {
        Seq::<char>::empty()
    } else {
        report_of(entries.drop_last(), contents, diff) + fragment_of(
            entries.last(),
            contents,
            diff,
        )
    }
}

/// The diff lines handed to `classify`, as a ghost value: `None` when
/// diff computation failed.
pub open spec fn diff_view(diff: Option<Vec<DiffLine>>) -> Option<Seq<DiffLine>> {
    match diff {
        Some(lines) => Some(lines@),
        None => None,
    }
}

/// Renders the fragment for an added file.
pub fn handle_added(path: &String, content: Option<&String>) -> (r: String)
    ensures
        r@ == added_fragment(
            path@,
            match content {
                Some(c) => Some(c@),
                None => None,
            },
        ),
{
    match content {
        Some(c) => {
            let mut s = String::from_str("\nNew file: ");
            s.append(path.as_str());
            s.append("\n");
            s.append(c.as_str());
            s
        },
        None => {
            let mut s = String::from_str("\nNew file (binary or unreadable): ");
            s.append(path.as_str());
            s
        },
    }
}

/// Renders the fragment for a modified file from the diff lines,
/// keeping only the lines attributed to `path`.
pub fn handle_modified(path: &String, lines: &Vec<DiffLine>) -> (r: String)
    ensures
        r@ == modified_fragment(lines@, path@),
{
    let mut s = String::new();
    let mut i: usize = 0;
    while i < lines.len()
        invariant
            i <= lines.len(),
            s@ == modified_fragment(lines@.take(i as int), path@),
        decreases lines.len() - i,
    {
        let line = &lines[i];
        match &line.old_path {
            Some(p) => {
                if *p == *path {
                    s.append(line.content.as_str());
                }
            },
            None => {},
        }
        proof {
            assert(lines@.take(i as int + 1).drop_last() =~= lines@.take(i as int));
            assert(lines@.take(i as int + 1).last() == lines@[i as int]);
            Seq::<char>::add_empty_right(s@, Seq::<char>::empty());
        }
        i = i + 1;
    }
    proof {
        assert(lines@.take(lines@.len() as int) =~= lines@);
    }
    s
}

/// Renders the fragment for a deleted file.
pub fn handle_deleted(path: &String) -> (r: String)
    ensures
        r@ == deleted_fragment(path@),
{
    let mut s = String::from_str("\nDeleted file: ");
    s.append(path.as_str());
    s
}

/// Renders the fragment for a renamed file.
pub fn handle_renamed(path: &String) -> (r: String)
    ensures
        r@ == renamed_fragment(path@),
{
    let mut s = String::from_str("\nRenamed file: ");
    s.append(path.as_str());
    s
}

/// Looks up the recorded working-tree content for `path`: the value of
/// the first pair whose key equals `path`, flattened so that a missing
/// key and a failed read are both `None`.
pub fn lookup_content(contents: &Vec<(String, Option<String>)>, path: &String) -> (r: Option<
    String,
>)
    ensures
        match r {
            Some(c) => content_for(contents@, path@) == Some(c@),
            None => content_for(contents@, path@) is None,
        },
{
    let mut i: usize = 0;
    proof {
        assert(contents@.skip(0) =~= contents@);
    }
    while i < contents.len()
        invariant
            i <= contents.len(),
            content_for(contents@, path@) == content_for(contents@.skip(i as int), path@),
        decreases contents.len() - i,
    {
        let pair = &contents[i];
        proof {
            assert(contents@.skip(i as int)[0] == contents@[i as int]);
        }
        if pair.0 == *path {
            match &pair.1 {
                Some(c) => {
                    return Some(c.clone());
                },
                None => {
                    return None;
                },
            }
        }
        proof {
            assert(contents@.skip(i as int).drop_first() =~= contents@.skip(i as int + 1));
        }
        i = i + 1;
    }
    proof {
        assert(contents@.skip(contents@.len() as int).len() == 0);
    }
    None
}

/// Builds the change report for the given entries: one fragment per
/// entry in scan order, rendered from the recorded working-tree contents
/// and the diff lines. Classification never fails; every per-entry
/// problem has already been degraded into the inputs (`None` content,
/// `None` diff).
pub fn classify(
    entries: &Vec<StatusEntry>,
    contents: &Vec<(String, Option<String>)>,
    diff: &Option<Vec<DiffLine>>,
) -> (r: String)
    ensures
        r@ == report_of(entries@, contents@, diff_view(*diff)),
{
    let mut s = String::new();
    let mut i: usize = 0;
    while i < entries.len()
        invariant
            i <= entries.len(),
            s@ == report_of(entries@.take(i as int), contents@, diff_view(*diff)),
        decreases entries.len() - i,
    {
        let e = &entries[i];
        let frag: String = match &e.path {
            None => String::from_str("\nUnknown path"),
            Some(p) => {
                match classify_flags(&e.flags) {
                    ChangeCategory::Added => {
                        let c = lookup_content(contents, p);
                        match &c {
                            Some(content) => handle_added(p, Some(content)),
                            None => handle_added(p, None),
                        }
                    },
                    ChangeCategory::Modified => {
                        match diff {
                            Some(lines) => handle_modified(p, lines),
                            None => String::new(),
                        }
                    },
                    ChangeCategory::Deleted => handle_deleted(p),
                    ChangeCategory::Renamed => handle_renamed(p),
                    ChangeCategory::Unknown => String::new(),
                }
            },
        };
        proof {
            assert(frag@ == fragment_of(entries@[i as int], contents@, diff_view(*diff)));
        }
        s.append(frag.as_str());
        proof {
            assert(entries@.take(i as int + 1).drop_last() =~= entries@.take(i as int));
            assert(entries@.take(i as int + 1).last() == entries@[i as int]);
        }
        i = i + 1;
    }
    proof {
        assert(entries@.take(entries@.len() as int) =~= entries@);
    }
    s
}

/// Whether a diff line is attributed to `path`.
pub open spec fn line_matches(l: DiffLine, path: Seq<char>) -> bool {
    match l.old_path {
        Some(p) => p@ == path,
        None => false,
    }
}

/// The report holds exactly one fragment per entry, in scan order: it is
/// the concatenation of the per-entry fragment list, whose length is the
/// number of entries. An entry without a resolvable path contributes the
/// fixed marker, an entry matching no known category contributes the
/// empty fragment, and no entry is dropped.
pub proof fn lemma_one_fragment_per_entry(
    entries: Seq<StatusEntry>,
    contents: Seq<(String, Option<String>)>,
    diff: Option<Seq<DiffLine>>,
)
    ensures
        report_of(entries, contents, diff) == entries.map_values(
            |e: StatusEntry| fragment_of(e, contents, diff),
        ).flatten(),
        entries.map_values(|e: StatusEntry| fragment_of(e, contents, diff)).len()
            == entries.len(),
        forall|i: int|
            0 <= i < entries.len() && entries[i].path is None ==> #[trigger] fragment_of(
                entries[i],
                contents,
                diff,
            ) == unknown_path_fragment(),
        forall|i: int|
            0 <= i < entries.len() && entries[i].path is Some && category_of(entries[i].flags)
                == ChangeCategory::Unknown ==> #[trigger] fragment_of(entries[i], contents, diff)
                == Seq::<char>::empty(),
    decreases entries.len(),
{
    let f = |e: StatusEntry| fragment_of(e, contents, diff);
    if entries.len() == 0 {
        assert(entries.map_values(f).len() == 0);
        assert(entries.map_values(f).flatten() =~= Seq::<char>::empty());
    } else {
        let butlast = entries.drop_last();
        let last = entries.last();
        lemma_one_fragment_per_entry(butlast, contents, diff);
        assert(entries =~= butlast.push(last));
        butlast.lemma_push_map_commute(f, last);
        butlast.map_values(f).lemma_flatten_push(f(last));
        assert(entries.map_values(f).flatten() == butlast.map_values(f).flatten() + f(last));
    }
}

/// Classification is deterministic: two reports built from the same
/// entry sequence, the same recorded contents and the same diff lines
/// are identical.
pub proof fn lemma_report_deterministic(
    r1: Seq<char>,
    r2: Seq<char>,
    entries: Seq<StatusEntry>,
    contents: Seq<(String, Option<String>)>,
    diff: Option<Seq<DiffLine>>,
)
    requires
        r1 == report_of(entries, contents, diff),
        r2 == report_of(entries, contents, diff),
    ensures
        r1 == r2,
{
}

/// Only matching lines reach a modified-file fragment: it is the
/// concatenation, in order, of the contents of exactly those diff lines
/// whose old-file path equals `path`.
pub proof fn lemma_modified_keeps_only_matching_lines(lines: Seq<DiffLine>, path: Seq<char>)
    ensures
        modified_fragment(lines, path) == lines.filter(|l: DiffLine| line_matches(l, path))
            .map_values(|l: DiffLine| l.content@).flatten(),
    decreases lines.len(),
{
    reveal(Seq::filter);
    let pred = |l: DiffLine| line_matches(l, path);
    let f = |l: DiffLine| l.content@;
    if lines.len() == 0 {
        assert(lines.filter(pred).map_values(f).flatten() =~= Seq::<char>::empty());
    } else {
        let butlast = lines.drop_last();
        let last = lines.last();
        lemma_modified_keeps_only_matching_lines(butlast, path);
        if pred(last) {
            assert(line_part(last, path) == last.content@);
            butlast.filter(pred).lemma_push_map_commute(f, last);
            butlast.filter(pred).map_values(f).lemma_flatten_push(f(last));
        } else {
            assert(line_part(last, path) == Seq::<char>::empty());
            Seq::<char>::add_empty_right(modified_fragment(butlast, path), Seq::<char>::empty());
        }
    }
}

} // verus!
