//! Raw handles, completion records and the actions asked of the transport.
use vstd::prelude::*;

verus! {

/// An opaque token that the transport hands out for one in-flight non-blocking operation.
pub type RawHandle = u64;

/// The distinguished handle that stands for "no operation" or "already completed".
pub const REQUEST_NULL: RawHandle = 0;

/// Whether `request` is the null handle.
pub fn is_null(request: RawHandle) -> (r: bool)
    ensures
        r == (request == REQUEST_NULL),
{
    request == REQUEST_NULL
}

/// How an operation completed, as the transport reported it.
#[derive(Clone, Copy, Debug, PartialEq, Eq, Structural)]
pub struct Status {
    /// The rank of the peer that the data came from.
    pub source: i32,
    /// The tag that the message carried.
    pub tag: i32,
    /// The transport's error code for the operation.
    pub error: i32,
}

/// What a completing call of the transport (a blocking wait, or a poll that found the
/// operation done) hands back: the handle as the call left it, and the status.
#[derive(Clone, Copy, Debug, PartialEq, Eq, Structural)]
pub struct Completion {
    /// The handle after the call; the transport sets a completed handle to null.
    pub request: RawHandle,
    /// How the operation completed.
    pub status: Status,
}

/// A call that the transport has to make on a handle.
#[derive(Clone, Copy, Debug, PartialEq, Eq, Structural)]
pub enum Action {
    /// Ask the transport, on a best-effort basis, to abandon the operation.
    Cancel(RawHandle),
    /// Block until the operation has finished.
    Wait(RawHandle),
}

} // verus!
