//! One-directional comparison of two directory trees by content.
//!
//! Every regular file found under the first tree is classified as new,
//! changed or unchanged relative to the file at the same relative path under
//! the second tree. Files are compared by a fast fingerprint of their whole
//! content, never by timestamps. Paths that match an exclusion pattern, and
//! symbolic links, are left out.
//!
//! The library decides; its caller touches the disk. A [`Comparison`] is told
//! of each walked entry, answers where to look in the second tree, and records
//! what was found there. [`FolderCompare::new`] does the same for a walk that
//! was recorded beforehand.

pub mod compare;
pub mod error;
pub mod exclusion;
pub mod fingerprint;
pub mod paths;
pub mod theorems;

pub use compare::{
    Action, Comparison, FileEntry, Finding, FolderCompare, Observed, Probe, Tally, Verdict,
    Walked,
};
pub use error::{CompareError, Fault};
pub use exclusion::ExclusionFilter;
