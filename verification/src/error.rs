//! Error taxonomy of the pipeline core.

use vstd::prelude::*;

verus! {

/// A failure surfaced synchronously by the pipeline core.
///
/// Queries for things that merely do not exist return `Option::None`
/// instead of an error.
#[derive(Debug, PartialEq, Eq)]
pub enum MaaError {
    /// A pipeline or override JSON value does not match any known
    /// recognition or action kind, or a next-list entry is malformed.
    /// The payload, when present, is the position of the offending
    /// next-list entry.
    InvalidConfig(Option<usize>),
    /// An operation was invoked on a context whose task is no longer
    /// running.
    InvalidHandle,
    /// The underlying engine call failed for a reason opaque to this
    /// core; the payload is the status code the native layer supplied.
    NativeCallFailed(i64),
}

impl MaaError {
    /// A short description of the error.
    pub fn message(&self) -> (r: &'static str)
        ensures
            r@.len() > 0,
    {
        let r: &'static str = match self {
            MaaError::InvalidConfig(_) => "invalid pipeline configuration",
            MaaError::InvalidHandle => "invalid handle",
            MaaError::NativeCallFailed(_) => "native call failed",
        };
        proof {
            reveal_strlit("invalid pipeline configuration");
            reveal_strlit("invalid handle");
            reveal_strlit("native call failed");
        }
        r
    }
}

/// Outcome of a fallible pipeline operation.
pub type MaaResult<T> = Result<T, MaaError>;

} // verus!
