//! Options the surrounding command-line program collects and hands to
//! the library's callers.

use vstd::prelude::*;

verus! {

/// Parsed command-line options: whether a commit should be created
/// automatically once a message has been generated.
#[derive(Clone, Copy, Debug, PartialEq, Eq, Structural)]
pub struct CliArgs {
    pub auto_commit: bool,
}

} // verus!
