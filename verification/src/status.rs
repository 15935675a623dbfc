//! Status flags reported for a path and their classification into a
//! single change category.

use vstd::prelude::*;

verus! {

/// The status bits a repository scan reports for one path: whether the
/// path is new, modified, deleted or renamed, in the index or in the
/// working tree.
#[derive(Clone, Copy, Debug, PartialEq, Eq, Structural)]
pub struct StatusFlags {
    pub index_new: bool,
    pub wt_new: bool,
    pub index_modified: bool,
    pub wt_modified: bool,
    pub index_deleted: bool,
    pub wt_deleted: bool,
    pub index_renamed: bool,
    pub wt_renamed: bool,
}

/// The kind of change recorded for one path. Exactly one category is
/// assigned per entry, even when several status bits are set.
#[derive(Clone, Copy, Debug, PartialEq, Eq, Structural)]
pub enum ChangeCategory {
    Added,
    Modified,
    Deleted,
    Renamed,
    Unknown,
}

/// One scanned path with its status bits. The path is `None` when the
/// provider could not resolve a path for the entry.
#[derive(Debug)]
pub struct StatusEntry {
    pub path: Option<String>,
    pub flags: StatusFlags,
}

/// Why a scan of the repository failed. Scan failures are the only hard
/// failures of the library: classification itself never fails.
#[derive(Clone, Copy, Debug, PartialEq, Eq, Structural)]
pub enum ScanError {
    /// No version-controlled directory was found in the filesystem
    /// ancestry of the working directory.
    NotARepository,
    /// The status query itself failed.
    ProviderFailure,
}

/// The category of a set of status flags, by priority: new bits win over
/// modified bits, which win over deleted bits, which win over renamed
/// bits; flags with none of the four kinds set are `Unknown`.
pub open spec fn category_of(f: StatusFlags) -> ChangeCategory {
    if f.index_new || f.wt_new {
        ChangeCategory::Added
    } else if f.index_modified || f.wt_modified {
        ChangeCategory::Modified
    } else if f.index_deleted || f.wt_deleted {
        ChangeCategory::Deleted
    } else if f.index_renamed || f.wt_renamed {
        ChangeCategory::Renamed
    } else {
        ChangeCategory::Unknown
    }
}

/// Classifies status flags into their single change category.
pub fn classify_flags(f: &StatusFlags) -> (c: ChangeCategory)
    ensures
        c == category_of(*f),
{
    if f.index_new || f.wt_new {
        ChangeCategory::Added
    } else if f.index_modified || f.wt_modified {
        ChangeCategory::Modified
    } else if f.index_deleted || f.wt_deleted {
        ChangeCategory::Deleted
    } else if f.index_renamed || f.wt_renamed {
        ChangeCategory::Renamed
    } else {
        ChangeCategory::Unknown
    }
}

/// Priority tie-break: an entry whose flags include a new bit is
/// classified `Added`, whatever other bits are set — in particular it is
/// never classified `Modified`.
pub proof fn lemma_new_flag_wins(f: StatusFlags)
    requires
        f.index_new || f.wt_new,
    ensures
        category_of(f) == ChangeCategory::Added,
{
}

} // verus!
