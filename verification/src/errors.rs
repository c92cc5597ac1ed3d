//! Errors shared by the lifecycles, and the gRPC status codes they map to.
use vstd::prelude::*;

verus! {

/// A failure reported by the operating system or a system library, kept as
/// its message.
#[derive(Debug, Clone)]
pub struct SystemError {
    pub message: String,
}

/// The gRPC status codes that the services answer with.
#[derive(Debug, Clone, Copy, PartialEq, Eq)]
pub enum StatusCode {
    Internal,
    NotFound,
    AlreadyExists,
    InvalidArgument,
    FailedPrecondition,
    Aborted,
    Unimplemented,
}

} // verus!
