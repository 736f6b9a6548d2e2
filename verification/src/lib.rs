//! Status classification for a tree of git checkouts.
//!
//! The crate decides, for one repository, which single status category is the
//! most urgent one, and gathers the verdicts of many repositories into a
//! report. The decisions are made by verified code, each on what an outside
//! call returned; the calls into `git2` and the few filesystem queries stand
//! behind small trusted wrappers.

pub mod flags;
pub mod classify;
pub mod divergence;
pub mod git;
pub mod paths;
pub mod report;
pub mod scan;
pub mod verdict;
