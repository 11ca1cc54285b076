//! What the filesystem said about a path.

use vstd::prelude::*;

verus! {

/// The result of one metadata query on a path, as far as validation reads it.
///
/// The value is a fact about one moment: nothing keeps the entry from being
/// removed or replaced after the query.
#[derive(Debug, Clone, Copy, PartialEq, Eq, Structural)]
pub enum PathStatus {
    /// No metadata could be retrieved: the path does not exist, or it is
    /// inaccessible for any other reason.
    Unavailable,
    /// Metadata was retrieved, and the entry is not a directory: a regular
    /// file, a special file, or anything else.
    NotDirectory,
    /// Metadata was retrieved, and the entry is a directory.
    Directory,
}

} // verus!
