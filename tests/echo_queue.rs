use echo_sync::ownership::{
    echo_decrement_request_cancel_ownership_count, echo_increment_request_cancel_ownership_count,
    echo_interlocked_increment_floor, echo_interlocked_increment_gtzero, RequestContext,
};
use echo_sync::pattern::create_pattern_buffer;
use echo_sync::queue::{release_after_disarm, EchoQueue, FetchError, ReadStart, MAX_WRITE_LENGTH};
use echo_sync::status::{Completion, Status};

/// The framework's side of one request's cancellation hook.
#[derive(Clone, Copy, PartialEq, Debug)]
enum Hook {
    Unarmed,
    Armed,
    Fired,
    Disarmed,
}

/// A queue with one request context and a record of every completion.
struct Harness {
    queue: EchoQueue,
    context: RequestContext,
    hook: Hook,
    completions: Vec<Completion>,
}

impl Harness {
    fn new() -> Harness {
        Harness {
            queue: EchoQueue::new(),
            context: RequestContext::new(),
            hook: Hook::Unarmed,
            completions: Vec::new(),
        }
    }

    fn complete(&mut self, c: Option<Completion>) {
        if let Some(c) = c {
            self.completions.push(c);
        }
    }

    fn arm(&mut self, request: u64, armed: Result<(), Status>) {
        if armed.is_ok() {
            self.hook = Hook::Armed;
        }
        let c = self.queue.arm_result(request, armed);
        self.complete(c);
    }

    fn write(&mut self, request: u64, bytes: Vec<u8>) {
        if let Some(c) = self.queue.echo_evt_io_write(request, bytes.len()) {
            self.completions.push(c);
            return;
        }
        let c = self.queue.store_write(&mut self.context, request, Ok(bytes));
        match c {
            Some(c) => self.completions.push(c),
            None => self.arm(request, Ok(())),
        }
    }

    fn read(&mut self, request: u64, length: usize) -> Vec<u8> {
        match self.queue.echo_evt_io_read(request, length) {
            ReadStart::Complete(c) => {
                self.completions.push(c);
                Vec::new()
            }
            ReadStart::Transfer(bytes) => {
                let c = self.queue.finish_read(&mut self.context, request, Ok(bytes.len()));
                match c {
                    Some(c) => self.completions.push(c),
                    None => self.arm(request, Ok(())),
                }
                bytes
            }
        }
    }

    fn fire_cancel(&mut self) {
        assert_eq!(self.hook, Hook::Armed);
        self.hook = Hook::Fired;
    }

    fn run_cancel(&mut self, request: u64) {
        let c = self.queue.echo_evt_request_cancel(&mut self.context, request);
        self.complete(c);
    }

    fn disarm(&mut self) -> Status {
        match self.hook {
            Hook::Fired => Status::Cancelled,
            _ => {
                self.hook = Hook::Disarmed;
                Status::Success
            }
        }
    }

    /// Read and claim; returns the claimed request.
    fn tick_claim(&mut self) -> Option<u64> {
        self.queue.timer_claim(&mut self.context)
    }

    fn tick_finish(&mut self, request: u64, answer: Status) {
        let c = self.queue.timer_settle(&mut self.context, request, answer);
        self.complete(c);
    }

    fn tick(&mut self) {
        if let Some(r) = self.tick_claim() {
            let answer = self.disarm();
            self.tick_finish(r, answer);
        }
    }
}

#[test]
fn cancel_before_tick_completes_once_cancelled() {
    let mut h = Harness::new();
    h.write(1, create_pattern_buffer(100));
    assert!(h.completions.is_empty());
    assert_eq!(h.queue.current_request(), Some(1));
    h.fire_cancel();
    h.run_cancel(1);
    h.tick();
    h.tick();
    assert_eq!(
        h.completions,
        vec![Completion { request: 1, status: Status::Cancelled, information: 0 }]
    );
    assert_eq!(h.queue.current_request(), None);
}

#[test]
fn two_ticks_complete_write_once_then_read_echoes() {
    let mut h = Harness::new();
    let pattern = create_pattern_buffer(50);
    h.write(2, pattern.clone());
    h.tick();
    h.tick();
    assert_eq!(
        h.completions,
        vec![Completion { request: 2, status: Status::Success, information: 50 }]
    );
    let mut r = Harness { context: RequestContext::new(), hook: Hook::Unarmed, ..h };
    let got = r.read(3, 50);
    assert_eq!(got, pattern);
    r.tick();
    assert_eq!(
        r.completions[1],
        Completion { request: 3, status: Status::Success, information: 50 }
    );
}

#[test]
fn cancel_racing_claimed_timer_leaves_completion_to_timer() {
    // The timer claims, the hook fires and the callback runs before the disarm.
    let mut h = Harness::new();
    h.write(7, create_pattern_buffer(10));
    let r = h.tick_claim().unwrap();
    assert_eq!(h.context.cancel_completion_ownership_count, 2);
    h.fire_cancel();
    h.run_cancel(7);
    assert!(h.completions.is_empty());
    assert_eq!(h.queue.current_status(), Status::Cancelled);
    let answer = h.disarm();
    assert_eq!(answer, Status::Cancelled);
    h.tick_finish(r, answer);
    assert_eq!(
        h.completions,
        vec![Completion { request: 7, status: Status::Cancelled, information: 10 }]
    );
}

#[test]
fn cancel_callback_after_timer_release_completes_cancelled() {
    // The hook fires after the claim; the disarm reports it; the timer releases
    // first and the callback, running last, owns completion.
    let mut h = Harness::new();
    h.write(8, create_pattern_buffer(10));
    let r = h.tick_claim().unwrap();
    h.fire_cancel();
    let answer = h.disarm();
    h.tick_finish(r, answer);
    assert!(h.completions.is_empty());
    h.run_cancel(8);
    assert_eq!(
        h.completions,
        vec![Completion { request: 8, status: Status::Cancelled, information: 0 }]
    );
    h.tick();
    assert_eq!(h.completions.len(), 1);
}

#[test]
fn stale_timer_read_loses_to_cancel() {
    let mut h = Harness::new();
    h.write(9, create_pattern_buffer(5));
    let seen = h.queue.current_request();
    assert_eq!(seen, Some(9));
    h.fire_cancel();
    h.run_cancel(9);
    assert!(!echo_increment_request_cancel_ownership_count(&mut h.context));
    assert_eq!(h.completions.len(), 1);
    assert_eq!(h.completions[0].status, Status::Cancelled);
}

#[test]
fn timer_tick_with_empty_slot_does_nothing() {
    let mut h = Harness::new();
    h.tick();
    assert!(h.completions.is_empty());
    assert_eq!(h.queue.current_status(), Status::InvalidDeviceRequest);
}

#[test]
fn arming_failure_completes_at_once_and_empties_slot() {
    let mut h = Harness::new();
    assert_eq!(h.queue.echo_evt_io_write(4, 3), None);
    assert_eq!(h.queue.store_write(&mut h.context, 4, Ok(vec![1, 2, 3])), None);
    h.arm(4, Err(Status::Cancelled));
    assert_eq!(
        h.completions,
        vec![Completion { request: 4, status: Status::Cancelled, information: 0 }]
    );
    assert_eq!(h.queue.current_request(), None);
    h.tick();
    assert_eq!(h.completions.len(), 1);
}

#[test]
fn read_before_any_write_returns_nothing() {
    let q = EchoQueue::new();
    match q.echo_evt_io_read(5, 10) {
        ReadStart::Complete(c) => {
            assert_eq!(c, Completion { request: 5, status: Status::Success, information: 0 })
        }
        ReadStart::Transfer(_) => panic!("nothing was written"),
    }
}

#[test]
fn read_shorter_than_stored_is_cut() {
    let mut h = Harness::new();
    h.write(1, create_pattern_buffer(100));
    h.tick();
    match h.queue.echo_evt_io_read(2, 10) {
        ReadStart::Transfer(bytes) => assert_eq!(bytes, create_pattern_buffer(10)),
        ReadStart::Complete(_) => panic!("bytes were written"),
    }
}

#[test]
fn read_longer_than_stored_returns_stored() {
    let mut h = Harness::new();
    h.write(1, vec![9, 8, 7]);
    h.tick();
    match h.queue.echo_evt_io_read(2, 1000) {
        ReadStart::Transfer(bytes) => assert_eq!(bytes, vec![9, 8, 7]),
        ReadStart::Complete(_) => panic!("bytes were written"),
    }
}

#[test]
fn oversize_write_rejected_and_buffer_kept() {
    let mut h = Harness::new();
    h.write(1, vec![1, 2, 3]);
    h.tick();
    let c = h.queue.echo_evt_io_write(2, MAX_WRITE_LENGTH + 1);
    assert_eq!(c, Some(Completion { request: 2, status: Status::BufferOverflow, information: 0 }));
    let mut ctx = RequestContext::new();
    let c = h.queue.store_write(&mut ctx, 2, Ok(vec![0; MAX_WRITE_LENGTH + 1]));
    assert_eq!(c, Some(Completion { request: 2, status: Status::BufferOverflow, information: 0 }));
    assert_eq!(h.queue.content_length(), 3);
    assert_eq!(h.read(3, 3), vec![1, 2, 3]);
}

#[test]
fn largest_write_accepted() {
    let mut h = Harness::new();
    assert_eq!(h.queue.echo_evt_io_write(1, MAX_WRITE_LENGTH), None);
    h.write(1, vec![0xAB; MAX_WRITE_LENGTH]);
    assert!(h.completions.is_empty());
    assert_eq!(h.queue.content_length(), MAX_WRITE_LENGTH);
}

#[test]
fn fetch_failures_complete_and_keep_buffer() {
    let mut h = Harness::new();
    h.write(1, vec![4, 5]);
    h.tick();
    let mut ctx = RequestContext::new();
    let c = h.queue.store_write(&mut ctx, 2, Err(FetchError::Allocation));
    assert_eq!(
        c,
        Some(Completion { request: 2, status: Status::InsufficientResources, information: 0 })
    );
    let c = h.queue.store_write(&mut ctx, 3, Err(FetchError::Retrieve(Status::Failed(-5))));
    assert_eq!(c, Some(Completion { request: 3, status: Status::Failed(-5), information: 0 }));
    assert_eq!(h.queue.content_length(), 2);
    assert_eq!(h.queue.current_request(), None);
}

#[test]
fn failed_write_copy_leaves_nothing_stored() {
    let mut h = Harness::new();
    h.write(1, vec![4, 5]);
    h.tick();
    let mut ctx = RequestContext::new();
    let c = h.queue.store_write(&mut ctx, 4, Err(FetchError::Copy(Status::Failed(-6))));
    assert_eq!(c, Some(Completion { request: 4, status: Status::Failed(-6), information: 0 }));
    assert_eq!(h.queue.content_length(), 0);
    assert_eq!(h.read(5, 2), Vec::<u8>::new());
    assert_eq!(
        h.completions.last(),
        Some(&Completion { request: 5, status: Status::Success, information: 0 })
    );
}

#[test]
fn failed_read_copy_completes_with_its_status() {
    let mut h = Harness::new();
    h.write(1, vec![4, 5]);
    h.tick();
    let c = h.queue.finish_read(&mut h.context, 2, Err(Status::Failed(-9)));
    assert_eq!(c, Some(Completion { request: 2, status: Status::Failed(-9), information: 0 }));
    assert_eq!(h.queue.current_request(), None);
}

#[test]
fn second_write_replaces_content() {
    let mut h = Harness::new();
    h.write(1, vec![1, 1, 1, 1]);
    h.tick();
    h.write(2, vec![2, 2]);
    h.tick();
    assert_eq!(h.queue.content_length(), 2);
    assert_eq!(h.read(3, 10), vec![2, 2]);
}

#[test]
fn queue_destroy_releases_content() {
    let mut h = Harness::new();
    h.write(1, vec![1, 2]);
    h.tick();
    h.queue.echo_evt_io_queue_context_destroy();
    assert_eq!(h.queue.content_length(), 0);
    match h.queue.echo_evt_io_read(2, 2) {
        ReadStart::Complete(c) => assert_eq!(c.status, Status::Success),
        ReadStart::Transfer(_) => panic!("content was released"),
    }
}

#[test]
fn admission_sets_counter_status_and_byte_count() {
    let mut q = EchoQueue::new();
    let mut ctx = RequestContext::new();
    q.echo_set_current_request(&mut ctx, 11, 42);
    assert_eq!(ctx.cancel_completion_ownership_count, 1);
    assert_eq!(ctx.information, 42);
    assert_eq!(q.current_request(), Some(11));
    assert_eq!(q.current_status(), Status::Success);
}

#[test]
fn increment_floor_results() {
    let mut v: i32 = 1;
    assert_eq!(echo_interlocked_increment_floor(&mut v, 0), 2);
    assert_eq!(v, 2);
    let mut v: i32 = 0;
    assert_eq!(echo_interlocked_increment_floor(&mut v, 0), 0);
    assert_eq!(v, 0);
    let mut v: i32 = -3;
    assert_eq!(echo_interlocked_increment_floor(&mut v, 0), -3);
    assert_eq!(v, -3);
    let mut v: i32 = 5;
    assert_eq!(echo_interlocked_increment_floor(&mut v, 5), 5);
    let mut v: i32 = i32::MAX;
    assert_eq!(echo_interlocked_increment_floor(&mut v, 0), 1);
    assert_eq!(v, i32::MAX);
}

#[test]
fn increment_gtzero_results() {
    let mut v: i32 = 1;
    assert_eq!(echo_interlocked_increment_gtzero(&mut v), 2);
    let mut v: i32 = 0;
    assert_eq!(echo_interlocked_increment_gtzero(&mut v), 0);
    assert_eq!(v, 0);
    let mut v: i32 = -4;
    assert_eq!(echo_interlocked_increment_gtzero(&mut v), -4);
    assert_eq!(v, -4);
    let mut v: i32 = i32::MAX;
    assert_eq!(echo_interlocked_increment_gtzero(&mut v), 1);
    assert_eq!(v, i32::MAX);
}

#[test]
fn timer_claim_on_empty_slot_leaves_counter() {
    let q = EchoQueue::new();
    let mut ctx = RequestContext::new();
    ctx.cancel_completion_ownership_count = 1;
    assert_eq!(q.timer_claim(&mut ctx), None);
    assert_eq!(ctx.cancel_completion_ownership_count, 1);
}

#[test]
fn timer_claim_fails_once_counter_is_spent() {
    let mut q = EchoQueue::new();
    let mut ctx = RequestContext::new();
    q.echo_set_current_request(&mut ctx, 3, 9);
    ctx.cancel_completion_ownership_count = 0;
    assert_eq!(q.timer_claim(&mut ctx), None);
    assert_eq!(ctx.cancel_completion_ownership_count, 0);
}

#[test]
fn timer_settle_clean_completes_with_pending_status() {
    let mut q = EchoQueue::new();
    let mut ctx = RequestContext::new();
    q.echo_set_current_request(&mut ctx, 3, 9);
    assert_eq!(q.timer_claim(&mut ctx), Some(3));
    let c = q.timer_settle(&mut ctx, 3, Status::Success);
    assert_eq!(c, Some(Completion { request: 3, status: Status::Success, information: 9 }));
    assert_eq!(ctx.cancel_completion_ownership_count, 0);
    assert_eq!(q.current_request(), None);
}

#[test]
fn timer_settle_raced_leaves_completion_to_callback() {
    let mut q = EchoQueue::new();
    let mut ctx = RequestContext::new();
    q.echo_set_current_request(&mut ctx, 3, 9);
    assert_eq!(q.timer_claim(&mut ctx), Some(3));
    assert_eq!(q.timer_settle(&mut ctx, 3, Status::Cancelled), None);
    assert_eq!(q.current_request(), Some(3));
    assert_eq!(
        q.echo_evt_request_cancel(&mut ctx, 3),
        Some(Completion { request: 3, status: Status::Cancelled, information: 0 })
    );
}

#[test]
fn release_and_claim_ownership() {
    let mut ctx = RequestContext::new();
    ctx.cancel_completion_ownership_count = 1;
    assert!(echo_increment_request_cancel_ownership_count(&mut ctx));
    assert_eq!(ctx.cancel_completion_ownership_count, 2);
    assert!(!echo_decrement_request_cancel_ownership_count(&mut ctx));
    assert!(echo_decrement_request_cancel_ownership_count(&mut ctx));
    assert_eq!(ctx.cancel_completion_ownership_count, 0);
    assert!(!echo_increment_request_cancel_ownership_count(&mut ctx));
    assert_eq!(ctx.cancel_completion_ownership_count, 0);
}

#[test]
fn clean_disarm_drops_both_stakes() {
    let mut ctx = RequestContext::new();
    ctx.cancel_completion_ownership_count = 2;
    assert!(release_after_disarm(&mut ctx, Status::Success));
    assert_eq!(ctx.cancel_completion_ownership_count, 0);
    ctx.cancel_completion_ownership_count = 2;
    assert!(!release_after_disarm(&mut ctx, Status::Cancelled));
    assert_eq!(ctx.cancel_completion_ownership_count, 1);
}
