//! Completion statuses and the completion record handed to the framework.
use vstd::prelude::*;

verus! {

/// Completion status of a request.
#[derive(Clone, Copy, Debug, PartialEq, Eq, Structural)]
pub enum Status {
    /// The request succeeded.
    Success,
    /// The request was cancelled.
    Cancelled,
    /// A write asked for more than the queue accepts.
    BufferOverflow,
    /// A buffer for the written bytes could not be allocated.
    InsufficientResources,
    /// The queue holds no request (the slot's status before any admission).
    InvalidDeviceRequest,
    /// A failure code reported by the surrounding framework.
    Failed(i32),
}

/// The finalisation of one request: handed to the framework's completion
/// operation by whichever context owns completion.
#[derive(Clone, Copy, Debug, PartialEq, Eq, Structural)]
pub struct Completion {
    pub request: u64,
    pub status: Status,
    pub information: usize,
}

} // verus!
