//! Change classification for a version-controlled working tree.
//!
//! The library scans a repository for pending changes, classifies each
//! changed path by kind (added, modified, deleted, renamed), and renders a
//! per-file textual change report that a downstream commit-message
//! generator consumes.

pub mod cli;
pub mod gitscan;
pub mod openai;
pub mod report;
pub mod status;
