//! Argument validation for a duplicate-file finder.
//!
//! The finder is started as `<program> <root-directory-path>`. This crate turns
//! that invocation into a [`Runner`], the configuration a scan starts from, or
//! into the precise reason why it cannot: a [`FromArgsError`].
//!
//! The crate never touches the filesystem. The caller makes the one metadata
//! query that the decision needs and hands its result in as a [`PathStatus`];
//! [`Runner::candidate_path`] says which path to query, and whether to query at
//! all. Every function here is total and verified against its contract.

pub mod error;
pub mod lookup;
pub mod runner;

pub use crate::error::FromArgsError;
pub use crate::lookup::PathStatus;
pub use crate::runner::Runner;
