//! The reasons for which an argument list is rejected.

use vstd::prelude::*;

verus! {

/// Why an argument list could not be turned into a runner.
///
/// The four kinds exclude one another, and every rejection is exactly one of
/// them, so that a caller can tell a forgotten argument from a path that does
/// not exist, and that from a path that names a file.
#[derive(Debug, Clone, Copy, PartialEq, Eq, Structural)]
pub enum FromArgsError {
    /// The root directory is missing: the list holds fewer than two elements.
    InsufficientArguments,
    /// More than one positional argument: the list holds more than two elements.
    TooManyArguments,
    /// No metadata could be retrieved for the candidate path.
    InvalidFilePath,
    /// The candidate path exists, but is not a directory.
    NotADirectory,
}

} // verus!
