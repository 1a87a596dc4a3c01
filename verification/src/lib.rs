//! Verification pipeline for exam submission checking.
//!
//! The library locates the single contestant directory under a configured
//! root, matches per-problem source files by regex, validates modification
//! timestamps against the exam window, computes content checksums, and
//! cross-checks them against an externally supplied ledger.  All decision
//! logic lives here with proved contracts; file and directory I/O and the
//! presentation of the report are left to the surrounding program.

pub mod checksum;
pub mod config;
pub mod errors;
pub mod laws;
pub mod ledger;
pub mod patterns;
pub mod pipeline;
pub mod report;
pub mod scanner;
pub mod timefmt;
