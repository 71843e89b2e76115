//! Verified core of a scheduled bot that posts subscriber counts.
//!
//! The crate holds the decisions of one run: which text is posted, when a
//! token has to be refreshed, what a granted token becomes on disk, and what
//! is written to the log. Reading files, talking to the network and asking the
//! operator are left to the caller, which hands the outcomes in as plain
//! values.

pub mod clock;
pub mod error;
pub mod log;
pub mod regloss;
pub mod token;
pub mod tweet;
