//! Verified core of a local directory-tree synchronization tool.
//!
//! Given a source path and a destination path, the tool copies files from
//! source to destination, optionally recursing into subdirectories, under
//! three policies: an overwrite gate (`force` / `update` flags), a staleness
//! check (modification-time equality), and name-based exclusion (anchored
//! regex patterns). This crate holds the decision logic — which entries are
//! copied, skipped, excluded or descended into — together with its proofs.
//! The filesystem walking itself is left to the callers.

pub mod config;
pub mod entry;
pub mod error;
pub mod exclude;
pub mod laws;
pub mod plan;

pub use crate::config::{split_patterns, Args};
pub use crate::entry::{DirEntry, FileType};
pub use crate::error::SyncError;
pub use crate::exclude::name_excluded;
pub use crate::plan::{decide_entry, decide_single_file, lookup_dest, plan_level, Decision};

