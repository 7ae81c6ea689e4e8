//! The queue's shared slot and the steps of admission, cancellation and the
//! timer, each stated as a spec function over the slot's model.
use vstd::prelude::*;

use crate::ownership::{
    RequestContext, claim_spec, echo_decrement_request_cancel_ownership_count,
    echo_increment_request_cancel_ownership_count, release_spec,
};
use crate::status::{Completion, Status};

verus! {

/// The largest write the queue accepts, in bytes.
pub const MAX_WRITE_LENGTH: usize = 1024 * 40;

/// Why the bytes of a write request could not be fetched.
#[derive(Clone, Copy, Debug, PartialEq, Eq, Structural)]
pub enum FetchError {
    /// The request's input memory could not be retrieved.
    Retrieve(Status),
    /// No buffer could be allocated for the bytes.
    Allocation,
    /// Copying the bytes out of the request failed.
    Copy(Status),
}

/// What a read does first.
#[derive(Debug)]
pub enum ReadStart {
    /// Complete the request at once.
    Complete(Completion),
    /// Copy these bytes into the request's output memory, then report the
    /// outcome with `finish_read`.
    Transfer(Vec<u8>),
}

/// The lock-protected slot of the queue: the request awaiting completion, the
/// status it is to be completed with, and the bytes last written.
pub struct EchoQueue {
    current_request: Option<u64>,
    current_status: Status,
    buffer: Option<Vec<u8>>,
}

/// Mathematical model of the slot.
pub struct QueueView {
    pub current_request: Option<u64>,
    pub current_status: Status,
    /// `None` until the first write is stored.
    pub content: Option<Seq<u8>>,
}

impl View for EchoQueue {
    type V = QueueView;

    closed spec fn view(&self) -> QueueView {
        QueueView {
            current_request: self.current_request,
            current_status: self.current_status,
            content: match self.buffer {
                Some(b) => Some(b@),
                None => None,
            },
        }
    }
}

/// The slot as the queue is created: nothing pending, nothing written.
pub open spec fn initial_queue() -> QueueView {
    QueueView { current_request: None, current_status: Status::InvalidDeviceRequest, content: None }
}

pub open spec fn completion(request: u64, status: Status, information: nat) -> Completion {
    Completion { request, status, information: information as usize }
}

/// Publishing a request: it becomes current with success as its pending
/// status, its counter starts at one and its byte count is recorded.
pub open spec fn publish_spec(q: QueueView, c: RequestContext, request: u64, information: usize) -> (
    QueueView,
    RequestContext,
    Option<Completion>,
) {
    (
        QueueView { current_request: Some(request), current_status: Status::Success, ..q },
        RequestContext { cancel_completion_ownership_count: 1, information },
        None,
    )
}

/// The outcome of arming cancellation on a just-published request. On failure
/// the slot is emptied and the request completed with the failure status.
pub open spec fn arm_spec(q: QueueView, request: u64, armed: Result<(), Status>) -> (
    QueueView,
    Option<Completion>,
) {
    match armed {
        Ok(()) => (q, None),
        Err(status) => (
            QueueView { current_request: None, ..q },
            Some(completion(request, status, 0)),
        ),
    }
}

/// The first step of a read.
pub open spec fn read_start_spec(q: QueueView, request: u64, length: nat) -> Result<
    Seq<u8>,
    Completion,
> {
    match q.content {
        None => Err(completion(request, Status::Success, 0)),
        Some(content) => Ok(
            content.take(if length < content.len() { length as int } else { content.len() as int }),
        ),
    }
}

/// The length check of a write: a write longer than the maximum is refused.
pub open spec fn write_check_spec(request: u64, length: nat) -> Option<Completion> {
    if length > MAX_WRITE_LENGTH {
        Some(completion(request, Status::BufferOverflow, 0))
    } else {
        None
    }
}

pub open spec fn fetch_view(input: Result<Vec<u8>, FetchError>) -> Result<Seq<u8>, FetchError> {
    match input {
        Ok(v) => Ok(v@),
        Err(e) => Err(e),
    }
}

/// Storing fetched write bytes. A failure to retrieve the request's memory or
/// to allocate a buffer completes the request and leaves the stored bytes as
/// they were. A failed copy completes it too, but the previous bytes are gone
/// by then, so the queue is left holding nothing, as before any write.
/// Success replaces the stored bytes and publishes the request with the
/// written length as its byte count.
pub open spec fn store_write_spec(
    q: QueueView,
    c: RequestContext,
    request: u64,
    input: Result<Seq<u8>, FetchError>,
) -> (QueueView, RequestContext, Option<Completion>) {
    match input {
        Err(FetchError::Retrieve(status)) => (q, c, Some(completion(request, status, 0))),
        Err(FetchError::Allocation) => (
            q,
            c,
            Some(completion(request, Status::InsufficientResources, 0)),
        ),
        Err(FetchError::Copy(status)) => (
            QueueView { content: None, ..q },
            c,
            Some(completion(request, status, 0)),
        ),
        Ok(bytes) => if bytes.len() > MAX_WRITE_LENGTH {
            (q, c, Some(completion(request, Status::BufferOverflow, 0)))
        } else {
            publish_spec(
                QueueView { content: Some(bytes), ..q },
                c,
                request,
                bytes.len() as usize,
            )
        },
    }
}

/// The end of a read: a failed copy completes the request with that status;
/// a successful one publishes it with the copied length as its byte count.
pub open spec fn finish_read_spec(
    q: QueueView,
    c: RequestContext,
    request: u64,
    copied: Result<usize, Status>,
) -> (QueueView, RequestContext, Option<Completion>) {
    match copied {
        Err(status) => (q, c, Some(completion(request, status, 0))),
        Ok(n) => publish_spec(q, c, request, n),
    }
}

/// The cancellation callback: release the counter; the owner empties the slot
/// and completes with the cancellation status and no bytes, anyone else only
/// records the cancellation status for the eventual owner.
pub open spec fn cancel_spec(q: QueueView, c: RequestContext, request: u64) -> (
    QueueView,
    RequestContext,
    Option<Completion>,
) {
    let (count, owner) = release_spec(c.cancel_completion_ownership_count as int);
    let c2 = RequestContext { cancel_completion_ownership_count: count as i32, ..c };
    if owner {
        (
            QueueView { current_request: None, ..q },
            c2,
            Some(completion(request, Status::Cancelled, 0)),
        )
    } else {
        (QueueView { current_status: Status::Cancelled, ..q }, c2, None)
    }
}

/// The timer's completion: empty the slot and complete with the pending
/// status and the request's recorded byte count.
pub open spec fn timer_complete_spec(q: QueueView, c: RequestContext, request: u64) -> (
    QueueView,
    Completion,
) {
    (
        QueueView { current_request: None, ..q },
        completion(request, q.current_status, c.information as nat),
    )
}

/// The timer's decision once cancellability was revoked. A clean disarm
/// leaves no contender, so both stakes are dropped at once and the timer owns
/// completion; a disarm that reports a cancellation in flight releases the
/// timer's stake like any other party.
pub open spec fn settle_spec(c: RequestContext, disarm: Status) -> (RequestContext, bool) {
    if disarm != Status::Cancelled {
        (
            RequestContext {
                cancel_completion_ownership_count: (c.cancel_completion_ownership_count - 2) as i32,
                ..c
            },
            true,
        )
    } else {
        let (count, owner) = release_spec(c.cancel_completion_ownership_count as int);
        (RequestContext { cancel_completion_ownership_count: count as i32, ..c }, owner)
    }
}

/// The timer's step after revoking cancellability, given the framework's
/// answer: returns whether the timer now owns completion.
pub fn release_after_disarm(request_context: &mut RequestContext, disarm: Status) -> (r: bool)
    requires
        old(request_context).cancel_completion_ownership_count >= i32::MIN + 2,
    ensures
        (*final(request_context), r) == settle_spec(*old(request_context), disarm),
{
    if disarm != Status::Cancelled {
        request_context.cancel_completion_ownership_count =
            request_context.cancel_completion_ownership_count - 2;
        true
    } else {
        echo_decrement_request_cancel_ownership_count(request_context)
    }
}

/// The first step of a tick: read the slot and, if it holds a request,
/// claim it through that request's context. Returns the request when the claim
/// succeeded; the caller then revokes its cancellability.
pub open spec fn timer_claim_spec(q: QueueView, c: RequestContext) -> (RequestContext, Option<u64>) {
    match q.current_request {
        None => (c, None),
        Some(request) => {
            let (count, claimed) = claim_spec(c.cancel_completion_ownership_count as int);
            (
                RequestContext { cancel_completion_ownership_count: count as i32, ..c },
                if claimed { Some(request) } else { None },
            )
        },
    }
}

/// The last step of a tick, given the framework's answer to revoking
/// cancellability: settle the counter and, if the timer now owns completion,
/// empty the slot and complete with the pending status and the recorded byte
/// count.
pub open spec fn timer_settle_spec(q: QueueView, c: RequestContext, request: u64, disarm: Status) -> (
    QueueView,
    RequestContext,
    Option<Completion>,
) {
    let (c2, owner) = settle_spec(c, disarm);
    if owner {
        let (q2, done) = timer_complete_spec(q, c2, request);
        (q2, c2, Some(done))
    } else {
        (q, c2, None)
    }
}

/// Reading before any write completes at once with success and no bytes.
/// Writing bytes no longer than `MAX_WRITE_LENGTH` passes the length check,
/// stores them and publishes the write; a later read asking for at least as
/// many bytes gets back exactly those bytes.
pub proof fn lemma_echo_round_trip(
    q: QueueView,
    c: RequestContext,
    write_request: u64,
    bytes: Seq<u8>,
    read_request: u64,
    length: nat,
)
    requires
        bytes.len() <= MAX_WRITE_LENGTH,
        length >= bytes.len(),
    ensures
        read_start_spec(initial_queue(), read_request, length) == Err::<Seq<u8>, Completion>(
            completion(read_request, Status::Success, 0),
        ),
        write_check_spec(write_request, bytes.len()) is None,
        ({
            let (q2, c2, done) = store_write_spec(q, c, write_request, Ok(bytes));
            &&& done is None
            &&& q2.content == Some(bytes)
            &&& c2.information == bytes.len()
            &&& read_start_spec(q2, read_request, length) == Ok::<Seq<u8>, Completion>(bytes)
        }),
{
    let (q2, c2, done) = store_write_spec(q, c, write_request, Ok(bytes));
    assert(bytes.take(bytes.len() as int) =~= bytes);
}

/// A write longer than `MAX_WRITE_LENGTH` is completed at once with
/// `BufferOverflow` and no bytes, and the stored bytes stay as they were; so
/// are over-long bytes handed to the store step.
pub proof fn lemma_oversize_rejected(
    q: QueueView,
    c: RequestContext,
    request: u64,
    length: nat,
    bytes: Seq<u8>,
)
    requires
        length > MAX_WRITE_LENGTH,
        bytes.len() > MAX_WRITE_LENGTH,
    ensures
        write_check_spec(request, length) == Some(completion(request, Status::BufferOverflow, 0)),
        store_write_spec(q, c, request, Ok(bytes)) == (
            q,
            c,
            Some(completion(request, Status::BufferOverflow, 0)),
        ),
{
}

impl EchoQueue {
    #[verifier::type_invariant]
    spec fn wf(self) -> bool {
        match self.buffer {
            Some(b) => b@.len() <= MAX_WRITE_LENGTH,
            None => true,
        }
    }

    /// An empty queue slot.
    pub fn new() -> (r: EchoQueue)
        ensures
            r@ == initial_queue(),
    {
        EchoQueue { current_request: None, current_status: Status::InvalidDeviceRequest, buffer: None }
    }

    /// The request awaiting completion, if any.
    pub fn current_request(&self) -> (r: Option<u64>)
        ensures
            r == self@.current_request,
    {
        self.current_request
    }

    /// The status the current request is to be completed with.
    pub fn current_status(&self) -> (r: Status)
        ensures
            r == self@.current_status,
    {
        self.current_status
    }

    /// The number of bytes stored by the last write; zero before any.
    pub fn content_length(&self) -> (r: usize)
        ensures
            r == match self@.content {
                Some(s) => s.len(),
                None => 0,
            },
            r <= MAX_WRITE_LENGTH,
    {
        proof {
            use_type_invariant(self);
        }
        match &self.buffer {
            Some(b) => b.len(),
            None => 0,
        }
    }

    /// Publishes a request as the current one. Arming its cancellation comes
    /// next, and its outcome is reported with `arm_result`.
    pub fn echo_set_current_request(
        &mut self,
        request_context: &mut RequestContext,
        request: u64,
        information: usize,
    )
        ensures
            (final(self)@, *final(request_context), None::<Completion>) == publish_spec(
                old(self)@,
                *old(request_context),
                request,
                information,
            ),
    {
        proof {
            use_type_invariant(&*self);
        }
        request_context.cancel_completion_ownership_count = 1;
        request_context.information = information;
        self.current_request = Some(request);
        self.current_status = Status::Success;
    }

    /// Takes the outcome of arming cancellation on the request just published.
    /// On failure the request leaves the slot and is to be completed at once.
    pub fn arm_result(&mut self, request: u64, armed: Result<(), Status>) -> (r: Option<Completion>)
        ensures
            (final(self)@, r) == arm_spec(old(self)@, request, armed),
    {
        proof {
            use_type_invariant(&*self);
        }
        match armed {
            Ok(()) => None,
            Err(status) => {
                self.current_request = None;
                Some(Completion { request, status, information: 0 })
            },
        }
    }

    /// The start of a write of `length` bytes: a write longer than
    /// `MAX_WRITE_LENGTH` is to be completed at once with `BufferOverflow` and
    /// no bytes, and nothing changes. Otherwise the caller fetches the bytes
    /// and hands them to `store_write`.
    pub fn echo_evt_io_write(&self, request: u64, length: usize) -> (r: Option<Completion>)
        ensures
            r == write_check_spec(request, length as nat),
    {
        if length > MAX_WRITE_LENGTH {
            Some(Completion { request, status: Status::BufferOverflow, information: 0 })
        } else {
            None
        }
    }

    /// Stores the fetched bytes of a write and publishes the request, or
    /// reports the request to be completed at once (see `store_write_spec`).
    pub fn store_write(
        &mut self,
        request_context: &mut RequestContext,
        request: u64,
        input: Result<Vec<u8>, FetchError>,
    ) -> (r: Option<Completion>)
        ensures
            (final(self)@, *final(request_context), r) == store_write_spec(
                old(self)@,
                *old(request_context),
                request,
                fetch_view(input),
            ),
    {
        proof {
            use_type_invariant(&*self);
        }
        match input {
            Err(FetchError::Retrieve(status)) => Some(Completion { request, status, information: 0 }),
            Err(FetchError::Allocation) => Some(
                Completion { request, status: Status::InsufficientResources, information: 0 },
            ),
            Err(FetchError::Copy(status)) => {
                self.buffer = None;
                Some(Completion { request, status, information: 0 })
            },
            Ok(bytes) => {
                if bytes.len() > MAX_WRITE_LENGTH {
                    Some(Completion { request, status: Status::BufferOverflow, information: 0 })
                } else {
                    let length = bytes.len();
                    self.buffer = Some(bytes);
                    self.echo_set_current_request(request_context, request, length);
                    None
                }
            },
        }
    }

    /// The start of a read of `length` bytes. Before any write the request is
    /// to be completed at once with success and no bytes; otherwise the bytes
    /// to copy out are the stored ones, cut to `length`.
    pub fn echo_evt_io_read(&self, request: u64, length: usize) -> (r: ReadStart)
        ensures
            match r {
                ReadStart::Complete(c) => read_start_spec(self@, request, length as nat) == Err::<
                    Seq<u8>,
                    Completion,
                >(c),
                ReadStart::Transfer(bytes) => read_start_spec(self@, request, length as nat) == Ok::<
                    Seq<u8>,
                    Completion,
                >(bytes@),
            },
    {
        match &self.buffer {
            None => ReadStart::Complete(Completion { request, status: Status::Success, information: 0 }),
            Some(content) => {
                let n = if length < content.len() { length } else { content.len() };
                let mut bytes: Vec<u8> = Vec::with_capacity(n);
                let mut i: usize = 0;
                while i < n
                    invariant
                        n <= content@.len(),
                        i <= n,
                        bytes@ == content@.take(i as int),
                    decreases n - i,
                {
                    bytes.push(content[i]);
                    i = i + 1;
                    assert(bytes@ =~= content@.take(i as int));
                }
                ReadStart::Transfer(bytes)
            },
        }
    }

    /// The end of a read, given the outcome of copying the bytes out: the
    /// number copied, or the failure status.
    pub fn finish_read(
        &mut self,
        request_context: &mut RequestContext,
        request: u64,
        copied: Result<usize, Status>,
    ) -> (r: Option<Completion>)
        ensures
            (final(self)@, *final(request_context), r) == finish_read_spec(
                old(self)@,
                *old(request_context),
                request,
                copied,
            ),
    {
        match copied {
            Err(status) => Some(Completion { request, status, information: 0 }),
            Ok(n) => {
                self.echo_set_current_request(request_context, request, n);
                None
            },
        }
    }

    /// The cancellation callback for `request`. Returns the completion to
    /// perform, outside the lock, when this context won ownership.
    pub fn echo_evt_request_cancel(&mut self, request_context: &mut RequestContext, request: u64) -> (r:
        Option<Completion>)
        requires
            old(request_context).cancel_completion_ownership_count > i32::MIN,
        ensures
            (final(self)@, *final(request_context), r) == cancel_spec(
                old(self)@,
                *old(request_context),
                request,
            ),
    {
        proof {
            use_type_invariant(&*self);
        }
        let complete_request = echo_decrement_request_cancel_ownership_count(request_context);
        if complete_request {
            self.current_request = None;
            Some(Completion { request, status: Status::Cancelled, information: 0 })
        } else {
            self.current_status = Status::Cancelled;
            None
        }
    }

    /// The timer's last step, once it owns completion of `request`: empties
    /// the slot and returns the completion to perform outside the lock.
    pub fn timer_complete(&mut self, request_context: &RequestContext, request: u64) -> (r:
        Completion)
        ensures
            (final(self)@, r) == timer_complete_spec(old(self)@, *request_context, request),
    {
        proof {
            use_type_invariant(&*self);
        }
        self.current_request = None;
        Completion { request, status: self.current_status, information: request_context.information }
    }

    /// Releases the stored bytes when the queue is torn down.
    pub fn echo_evt_io_queue_context_destroy(&mut self)
        ensures
            final(self)@ == (QueueView { content: None, ..old(self)@ }),
    {
        self.buffer = None;
    }

    /// The first step of a tick (see `timer_claim_spec`). `request_context`
    /// is the context of the request the slot holds.
    pub fn timer_claim(&self, request_context: &mut RequestContext) -> (r: Option<u64>)
        ensures
            (*final(request_context), r) == timer_claim_spec(self@, *old(request_context)),
    {
        match self.current_request {
            None => None,
            Some(request) => {
                if echo_increment_request_cancel_ownership_count(request_context) {
                    Some(request)
                } else {
                    None
                }
            },
        }
    }

    /// The last step of a tick on the claimed `request` (see
    /// `timer_settle_spec`). Returns the completion to perform, outside the
    /// lock, when the timer won ownership.
    pub fn timer_settle(
        &mut self,
        request_context: &mut RequestContext,
        request: u64,
        disarm: Status,
    ) -> (r: Option<Completion>)
        requires
            old(request_context).cancel_completion_ownership_count >= i32::MIN + 2,
        ensures
            (final(self)@, *final(request_context), r) == timer_settle_spec(
                old(self)@,
                *old(request_context),
                request,
                disarm,
            ),
    {
        if release_after_disarm(request_context, disarm) {
            Some(self.timer_complete(request_context, request))
        } else {
            None
        }
    }
}

} // verus!
