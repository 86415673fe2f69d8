//! Verified core of a batch image optimizer.
//!
//! A run converts each input image into a matrix of resized, re-encoded
//! variants (every combination of a configured scale percentage and output
//! format). This crate holds the verified orchestration core: the task
//! matrix, the deterministic output naming, the per-file worker state
//! machine with its abort-on-first-failure policy, and the aggregation of
//! per-file outcomes into a final report. Decoding, resampling, encoding,
//! filesystem access and terminal rendering are external collaborators that
//! the surrounding application performs; the core hands it plain
//! instructions and receives plain events back.

pub mod config;
pub mod errors;
pub mod formats;
pub mod geometry;
pub mod naming;
pub mod report;
pub mod tasks;
pub mod worker;
