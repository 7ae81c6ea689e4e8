//! A single-in-flight-request coordinator for an echo device queue.
//!
//! Three independent contexts touch the one outstanding request: admission of
//! new work, a periodic completion timer, and an asynchronous cancellation
//! callback. The request must be completed exactly once. A slot guarded by the
//! queue's lock holds the bookkeeping; who completes the request is decided by
//! a separate ownership counter attached to the request.
use vstd::prelude::*;

pub mod status;
pub mod ownership;
pub mod queue;
pub mod protocol;
pub mod pattern;
pub mod async_io;
