//! Batch file triage: traverse a directory tree, match files against a
//! keyword list under one of three policies, and plan a bulk action
//! (copy, move, delete) over the matched set with progress reporting.

pub mod executor;
pub mod files;
pub mod matcher;
pub mod paths;
pub mod progress;
pub mod session;
pub mod strtext;
