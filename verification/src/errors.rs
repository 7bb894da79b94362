//! The ways in which building a client or delivering a batch can fail.

use vstd::prelude::*;

verus! {

/// Why a delivery attempt failed.
#[derive(Debug, Clone, Copy, PartialEq, Eq, Structural)]
pub enum LogScaleError {
    /// The request could not be sent, or no response was obtained.
    ConnectionError,
    /// A response was obtained, and its status code was not 200.
    ErrorWithStatusCode(u16),
}

/// Why a client could not be built.
#[derive(Debug, Clone, Copy, PartialEq, Eq, Structural)]
pub enum ConstructionError {
    /// The base URL does not parse as an absolute URL.
    MalformedUrl,
}

} // verus!
