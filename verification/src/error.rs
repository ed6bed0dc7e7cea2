//! The ways in which checking for, fetching or installing a version can fail.

use vstd::prelude::*;

verus! {

/// Why an operation on a profile failed.
///
/// The library never recovers from one of these and never retries: each is
/// handed to the caller as it was handed in.
#[derive(Debug, Clone, Copy, PartialEq, Eq, Structural)]
pub enum Error {
    /// The connection or the HTTP exchange failed.
    NetworkError,
    /// A response body was not valid text.
    DecodeError,
    /// The archive was missing, could not be unpacked, or a permission could
    /// not be changed.
    IOError,
    /// Rewriting the metadata of a binary failed.
    PatchError,
}

} // verus!
