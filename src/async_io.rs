//! The bookkeeping of the test application's overlapped reader and writer:
//! how many requests to keep in flight, and what to do as each completes.
use vstd::prelude::*;

verus! {

/// Thread parameter of the worker that reads.
pub const READER_TYPE: u32 = 1;

/// Thread parameter of the worker that writes.
pub const WRITER_TYPE: u32 = 2;

/// The most requests a worker keeps in flight.
pub const NUM_ASYNCH_IO: usize = 100;

/// The size of each request's buffer, in bytes.
pub const BUFFER_SIZE: usize = 40 * 1024;

#[derive(Clone, Copy, Debug, PartialEq, Eq, Structural)]
pub enum IoKind {
    Read,
    Write,
}

/// What a worker does after one of its requests completes.
#[derive(Clone, Copy, Debug, PartialEq, Eq, Structural)]
pub enum AsyncIoAction {
    /// Every expected completion has arrived: the worker is done.
    Stop,
    /// Nothing more to send: wait for the next completion.
    Wait,
    /// Send the completed request's slot again.
    Resubmit,
}

/// The state of one worker. Without a limit it resubmits forever.
#[derive(Clone, Copy, Debug, PartialEq, Eq, Structural)]
pub struct AsyncIoSession {
    pub kind: IoKind,
    pub limited_loops: bool,
    pub max_pending_requests: usize,
    pub remaining_requests_to_receive: usize,
    pub remaining_requests_to_send: usize,
}

pub open spec fn session_spec(
    thread_parameter: u32,
    limited_loops: bool,
    async_io_loops_num: usize,
) -> AsyncIoSession {
    let kind = if thread_parameter == READER_TYPE { IoKind::Read } else { IoKind::Write };
    if !limited_loops {
        AsyncIoSession {
            kind,
            limited_loops,
            max_pending_requests: NUM_ASYNCH_IO,
            remaining_requests_to_receive: 0,
            remaining_requests_to_send: 0,
        }
    } else if async_io_loops_num > NUM_ASYNCH_IO {
        AsyncIoSession {
            kind,
            limited_loops,
            max_pending_requests: NUM_ASYNCH_IO,
            remaining_requests_to_receive: async_io_loops_num,
            remaining_requests_to_send: (async_io_loops_num - NUM_ASYNCH_IO) as usize,
        }
    } else {
        AsyncIoSession {
            kind,
            limited_loops,
            max_pending_requests: async_io_loops_num,
            remaining_requests_to_receive: async_io_loops_num,
            remaining_requests_to_send: 0,
        }
    }
}

/// The worker's response to one completion. With a limit, each completion
/// counts against the expected total; once none is left the worker stops,
/// and otherwise it resubmits while requests remain to be sent.
pub open spec fn completion_spec(s: AsyncIoSession) -> (AsyncIoSession, AsyncIoAction) {
    if !s.limited_loops {
        (s, AsyncIoAction::Resubmit)
    } else if s.remaining_requests_to_receive <= 1 {
        (AsyncIoSession { remaining_requests_to_receive: 0, ..s }, AsyncIoAction::Stop)
    } else if s.remaining_requests_to_send == 0 {
        (
            AsyncIoSession {
                remaining_requests_to_receive: (s.remaining_requests_to_receive - 1) as usize,
                ..s
            },
            AsyncIoAction::Wait,
        )
    } else {
        (
            AsyncIoSession {
                remaining_requests_to_receive: (s.remaining_requests_to_receive - 1) as usize,
                remaining_requests_to_send: (s.remaining_requests_to_send - 1) as usize,
                ..s
            },
            AsyncIoAction::Resubmit,
        )
    }
}

/// Starts the bookkeeping of one overlapped worker thread, whose I/O loop
/// then follows the returned session: the worker reads when
/// `thread_parameter` is `READER_TYPE` and writes otherwise. With `limited_loops` it handles
/// `async_io_loops_num` requests in all, at most `NUM_ASYNCH_IO` at a time;
/// without, it keeps `NUM_ASYNCH_IO` in flight for ever.
pub fn async_io(thread_parameter: u32, limited_loops: bool, async_io_loops_num: usize) -> (r:
    AsyncIoSession)
    ensures
        r == session_spec(thread_parameter, limited_loops, async_io_loops_num),
{
    let kind = if thread_parameter == READER_TYPE { IoKind::Read } else { IoKind::Write };
    let mut remaining_requests_to_receive: usize = 0;
    let mut max_pending_requests: usize = NUM_ASYNCH_IO;
    let mut remaining_requests_to_send: usize = 0;
    if limited_loops {
        remaining_requests_to_receive = async_io_loops_num;
        if async_io_loops_num > NUM_ASYNCH_IO {
            max_pending_requests = NUM_ASYNCH_IO;
            remaining_requests_to_send = async_io_loops_num - NUM_ASYNCH_IO;
        } else {
            max_pending_requests = async_io_loops_num;
            remaining_requests_to_send = 0;
        }
    }
    AsyncIoSession {
        kind,
        limited_loops,
        max_pending_requests,
        remaining_requests_to_receive,
        remaining_requests_to_send,
    }
}

impl AsyncIoSession {
    /// Accounts for one completed request and says what to do next.
    pub fn on_completion(&mut self) -> (r: AsyncIoAction)
        ensures
            (*final(self), r) == completion_spec(*old(self)),
    {
        if !self.limited_loops {
            return AsyncIoAction::Resubmit;
        }
        if self.remaining_requests_to_receive <= 1 {
            self.remaining_requests_to_receive = 0;
            return AsyncIoAction::Stop;
        }
        self.remaining_requests_to_receive = self.remaining_requests_to_receive - 1;
        if self.remaining_requests_to_send == 0 {
            return AsyncIoAction::Wait;
        }
        self.remaining_requests_to_send = self.remaining_requests_to_send - 1;
        AsyncIoAction::Resubmit
    }
}

} // verus!
