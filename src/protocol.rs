//! The lifecycle of one request as a transition system.
//!
//! Each step is one indivisible action of one context: admission, the
//! framework firing or revoking the cancellation hook, the cancellation
//! callback, or one phase of a timer tick. Every effect on the slot and the
//! counter is the spec function that the corresponding executable step is
//! proved against, so the laws below hold of any schedule of those steps.
use vstd::prelude::*;

use crate::ownership::{RequestContext, claim_spec};
use crate::queue::{
    QueueView, arm_spec, cancel_spec, completion, publish_spec, settle_spec, timer_claim_spec,
    timer_complete_spec, timer_settle_spec,
};
use crate::status::{Completion, Status};

verus! {

/// The framework's side of the request's cancellation hook.
pub enum Hook {
    /// Not armed (yet, or ever, when arming failed).
    Unarmed,
    /// Armed: the framework may fire it at any time.
    Armed,
    /// Fired: the cancellation callback is pending or has run.
    Fired,
    /// Revoked by the timer before it fired.
    Disarmed,
}

/// Where the timer context stands in its current tick.
pub enum TimerPhase {
    /// Between ticks.
    Idle,
    /// Read the request from the slot; not yet claimed.
    Holding,
    /// Holds a claim on the request; about to revoke cancellability.
    Claimed,
    /// Revoked cancellability; the framework answered with this status.
    Disarmed(Status),
    /// Owns completion.
    Owner,
}

/// Where the cancellation context stands.
pub enum CancelPhase {
    /// The hook has not fired.
    Waiting,
    /// The hook fired; the callback has not run yet.
    Pending,
    /// The callback has run.
    Done,
}

/// The whole state around one request.
pub struct Lifecycle {
    pub request: u64,
    pub queue: QueueView,
    pub context: RequestContext,
    pub admitted: bool,
    pub hook: Hook,
    pub timer: TimerPhase,
    pub cancel: CancelPhase,
    /// Every completion of the request, in order.
    pub completions: Seq<Completion>,
}

/// One indivisible action.
pub enum LifecycleStep {
    /// Admission with the given byte count, and the outcome of arming.
    Admit(usize, Result<(), Status>),
    TimerRead,
    TimerClaim,
    TimerDisarm,
    TimerSettle,
    TimerComplete,
    CancelFire,
    CancelRun,
}

pub open spec fn push_opt(s: Seq<Completion>, c: Option<Completion>) -> Seq<Completion> {
    match c {
        Some(c) => s.push(c),
        None => s,
    }
}

/// The state before admission: the slot is empty and nothing has happened.
pub open spec fn initial(s: Lifecycle) -> bool {
    &&& s.queue.current_request is None
    &&& !s.admitted
    &&& s.hook is Unarmed
    &&& s.timer is Idle
    &&& s.cancel is Waiting
    &&& s.completions.len() == 0
}

/// The effect of one step. A step that is not enabled changes nothing.
pub open spec fn apply(s: Lifecycle, step: LifecycleStep) -> Lifecycle {
    match step {
        LifecycleStep::Admit(information, armed) => if !s.admitted {
            let (q1, c1, none) = publish_spec(s.queue, s.context, s.request, information);
            let (q2, done) = arm_spec(q1, s.request, armed);
            Lifecycle {
                queue: q2,
                context: c1,
                admitted: true,
                hook: if armed is Ok { Hook::Armed } else { s.hook },
                completions: push_opt(s.completions, done),
                ..s
            }
        } else {
            s
        },
        LifecycleStep::TimerRead => if s.timer is Idle && s.queue.current_request == Some(
            s.request,
        ) {
            Lifecycle { timer: TimerPhase::Holding, ..s }
        } else {
            s
        },
        LifecycleStep::TimerClaim => if s.timer is Holding {
            let (count, claimed) = claim_spec(s.context.cancel_completion_ownership_count as int);
            Lifecycle {
                context: RequestContext { cancel_completion_ownership_count: count as i32, ..s.context },
                timer: if claimed { TimerPhase::Claimed } else { TimerPhase::Idle },
                ..s
            }
        } else {
            s
        },
        LifecycleStep::TimerDisarm => if s.timer is Claimed {
            if s.hook is Fired {
                Lifecycle { timer: TimerPhase::Disarmed(Status::Cancelled), ..s }
            } else {
                Lifecycle {
                    timer: TimerPhase::Disarmed(Status::Success),
                    hook: if s.hook is Armed { Hook::Disarmed } else { s.hook },
                    ..s
                }
            }
        } else {
            s
        },
        LifecycleStep::TimerSettle => match s.timer {
            TimerPhase::Disarmed(answer) => {
                let (c2, owner) = settle_spec(s.context, answer);
                Lifecycle {
                    context: c2,
                    timer: if owner { TimerPhase::Owner } else { TimerPhase::Idle },
                    ..s
                }
            },
            _ => s,
        },
        LifecycleStep::TimerComplete => if s.timer is Owner {
            let (q2, done) = timer_complete_spec(s.queue, s.context, s.request);
            Lifecycle {
                queue: q2,
                timer: TimerPhase::Idle,
                completions: s.completions.push(done),
                ..s
            }
        } else {
            s
        },
        LifecycleStep::CancelFire => if s.hook is Armed && s.cancel is Waiting {
            Lifecycle { hook: Hook::Fired, cancel: CancelPhase::Pending, ..s }
        } else {
            s
        },
        LifecycleStep::CancelRun => if s.cancel is Pending {
            let (q2, c2, done) = cancel_spec(s.queue, s.context, s.request);
            Lifecycle {
                queue: q2,
                context: c2,
                cancel: CancelPhase::Done,
                completions: push_opt(s.completions, done),
                ..s
            }
        } else {
            s
        },
    }
}

/// The state after running `steps` in order from `s`.
pub open spec fn run(s: Lifecycle, steps: Seq<LifecycleStep>) -> Lifecycle
    decreases steps.len(),
{
    if steps.len() == 0 {
        s
    } else {
        apply(run(s, steps.drop_last()), steps.last())
    }
}

/// One full timer tick.
pub open spec fn tick() -> Seq<LifecycleStep> {
    seq![
        LifecycleStep::TimerRead,
        LifecycleStep::TimerClaim,
        LifecycleStep::TimerDisarm,
        LifecycleStep::TimerSettle,
        LifecycleStep::TimerComplete,
    ]
}

/// The rest of a tick that has read the slot.
pub open spec fn finish_tick() -> Seq<LifecycleStep> {
    seq![
        LifecycleStep::TimerClaim,
        LifecycleStep::TimerDisarm,
        LifecycleStep::TimerSettle,
        LifecycleStep::TimerComplete,
    ]
}

/// The pending work run out: the cancellation callback if it is pending,
/// the rest of a tick in progress, then one full tick.
pub open spec fn drain() -> Seq<LifecycleStep> {
    seq![LifecycleStep::CancelRun] + finish_tick() + tick()
}

spec fn count(s: Lifecycle) -> int {
    s.context.cancel_completion_ownership_count as int
}

/// Admitted, armed, not completed yet.
spec fn in_flight(s: Lifecycle) -> bool {
    &&& s.admitted
    &&& s.queue.current_request == Some(s.request)
    &&& s.completions.len() == 0
    &&& match s.timer {
        TimerPhase::Idle | TimerPhase::Holding => {
            &&& count(s) == 1
            &&& s.queue.current_status == Status::Success
            &&& (s.cancel is Waiting && s.hook is Armed) || (s.cancel is Pending && s.hook is Fired)
        },
        TimerPhase::Claimed => {
            ||| count(s) == 2 && s.queue.current_status == Status::Success && s.cancel is Waiting
                && s.hook is Armed
            ||| count(s) == 2 && s.queue.current_status == Status::Success && s.cancel is Pending
                && s.hook is Fired
            ||| count(s) == 1 && s.queue.current_status == Status::Cancelled && s.cancel is Done
                && s.hook is Fired
        },
        TimerPhase::Disarmed(answer) => {
            ||| answer == Status::Success && count(s) == 2 && s.queue.current_status
                == Status::Success && s.cancel is Waiting && s.hook is Disarmed
            ||| answer == Status::Cancelled && count(s) == 2 && s.queue.current_status
                == Status::Success && s.cancel is Pending && s.hook is Fired
            ||| answer == Status::Cancelled && count(s) == 1 && s.queue.current_status
                == Status::Cancelled && s.cancel is Done && s.hook is Fired
        },
        TimerPhase::Owner => {
            &&& count(s) == 0
            &&& {
                ||| s.queue.current_status == Status::Success && s.cancel is Waiting
                    && s.hook is Disarmed
                ||| s.queue.current_status == Status::Cancelled && s.cancel is Done
                    && s.hook is Fired
            }
        },
    }
}

/// Completed once, by one of the three paths.
spec fn completed(s: Lifecycle) -> bool {
    let info = s.context.information as nat;
    &&& s.admitted
    &&& s.queue.current_request is None
    &&& s.completions.len() == 1
    &&& (s.timer is Idle || s.timer is Holding)
    &&& {
        ||| s.hook is Unarmed && s.cancel is Waiting && s.timer is Idle
            && s.completions[0].request == s.request && s.completions[0].information == 0
        ||| count(s) == 0 && s.hook is Fired && s.cancel is Done && s.completions[0]
            == completion(s.request, Status::Cancelled, 0)
        ||| count(s) == 0 && s.hook is Disarmed && s.cancel is Waiting && s.completions[0]
            == completion(s.request, Status::Success, info)
        ||| count(s) == 0 && s.hook is Fired && s.cancel is Done && s.completions[0]
            == completion(s.request, Status::Cancelled, info)
    }
}

spec fn inv(s: Lifecycle) -> bool {
    ||| initial(s)
    ||| in_flight(s)
    ||| completed(s)
}

proof fn lemma_step_keeps_inv(s: Lifecycle, step: LifecycleStep)
    requires
        inv(s),
    ensures
        inv(apply(s, step)),
{
    let t = apply(s, step);
    match step {
        LifecycleStep::Admit(information, armed) => {
            if initial(s) {
                match armed {
                    Ok(()) => assert(in_flight(t)),
                    Err(e) => assert(completed(t)),
                }
            }
        },
        LifecycleStep::TimerClaim => {
            if completed(s) {
                assert(completed(t));
            }
        },
        _ => {},
    }
}

proof fn lemma_run_keeps_inv(s0: Lifecycle, steps: Seq<LifecycleStep>)
    requires
        initial(s0),
    ensures
        inv(run(s0, steps)),
    decreases steps.len(),
{
    if steps.len() > 0 {
        lemma_run_keeps_inv(s0, steps.drop_last());
        lemma_step_keeps_inv(run(s0, steps.drop_last()), steps.last());
    }
}

proof fn lemma_run_append(s: Lifecycle, a: Seq<LifecycleStep>, b: Seq<LifecycleStep>)
    ensures
        run(s, a + b) == run(run(s, a), b),
    decreases b.len(),
{
    if b.len() > 0 {
        assert((a + b).drop_last() =~= a + b.drop_last());
        lemma_run_append(s, a, b.drop_last());
    } else {
        assert(a + b =~= a);
    }
}

proof fn lemma_run_push(s: Lifecycle, p: Seq<LifecycleStep>, x: LifecycleStep)
    ensures
        run(s, p.push(x)) == apply(run(s, p), x),
{
    assert(p.push(x).drop_last() =~= p);
}

proof fn lemma_completed_stays(s: Lifecycle, step: LifecycleStep)
    requires
        completed(s),
    ensures
        completed(apply(s, step)),
{
    lemma_step_keeps_inv(s, step);
}

proof fn lemma_completed_run(s: Lifecycle, steps: Seq<LifecycleStep>)
    requires
        completed(s),
    ensures
        completed(run(s, steps)),
    decreases steps.len(),
{
    if steps.len() > 0 {
        lemma_completed_run(s, steps.drop_last());
        lemma_completed_stays(run(s, steps.drop_last()), steps.last());
    }
}

/// A full tick on a request nobody has cancelled completes it with success
/// and the recorded byte count.
proof fn lemma_tick_completes(s: Lifecycle)
    requires
        in_flight(s),
        s.timer is Idle,
        s.cancel is Waiting,
    ensures
        completed(run(s, tick())),
        run(s, tick()).completions == seq![
            completion(s.request, Status::Success, s.context.information as nat),
        ],
{
    let d0 = Seq::<LifecycleStep>::empty();
    let d1 = d0.push(LifecycleStep::TimerRead);
    let d2 = d1.push(LifecycleStep::TimerClaim);
    let d3 = d2.push(LifecycleStep::TimerDisarm);
    let d4 = d3.push(LifecycleStep::TimerSettle);
    let d5 = d4.push(LifecycleStep::TimerComplete);
    assert(tick() =~= d5);
    lemma_run_push(s, d0, LifecycleStep::TimerRead);
    lemma_run_push(s, d1, LifecycleStep::TimerClaim);
    lemma_run_push(s, d2, LifecycleStep::TimerDisarm);
    lemma_run_push(s, d3, LifecycleStep::TimerSettle);
    lemma_run_push(s, d4, LifecycleStep::TimerComplete);
    assert(run(s, tick()).completions =~= seq![
        completion(s.request, Status::Success, s.context.information as nat),
    ]);
}

/// With no cancellation callback pending, the rest of a tick either
/// completes the request or, when no tick was in progress, leaves it waiting.
proof fn lemma_finish_tick(s: Lifecycle)
    requires
        in_flight(s),
        !(s.cancel is Pending),
    ensures
        ({
            let t = run(s, finish_tick());
            completed(t) || (in_flight(t) && t.timer is Idle && t.cancel is Waiting)
        }),
{
    let d0 = Seq::<LifecycleStep>::empty();
    let d1 = d0.push(LifecycleStep::TimerClaim);
    let d2 = d1.push(LifecycleStep::TimerDisarm);
    let d3 = d2.push(LifecycleStep::TimerSettle);
    let d4 = d3.push(LifecycleStep::TimerComplete);
    assert(finish_tick() =~= d4);
    lemma_run_push(s, d0, LifecycleStep::TimerClaim);
    lemma_run_push(s, d1, LifecycleStep::TimerDisarm);
    lemma_run_push(s, d2, LifecycleStep::TimerSettle);
    lemma_run_push(s, d3, LifecycleStep::TimerComplete);
    lemma_step_keeps_inv(s, LifecycleStep::TimerClaim);
    lemma_step_keeps_inv(run(s, d1), LifecycleStep::TimerDisarm);
    lemma_step_keeps_inv(run(s, d2), LifecycleStep::TimerSettle);
    lemma_step_keeps_inv(run(s, d3), LifecycleStep::TimerComplete);
}

proof fn lemma_drain_completes(s: Lifecycle)
    requires
        inv(s),
        s.admitted,
    ensures
        completed(run(s, drain())),
{
    let one = seq![LifecycleStep::CancelRun];
    assert(one =~= Seq::<LifecycleStep>::empty().push(LifecycleStep::CancelRun));
    lemma_run_push(s, Seq::<LifecycleStep>::empty(), LifecycleStep::CancelRun);
    lemma_run_append(s, one + finish_tick(), tick());
    lemma_run_append(s, one, finish_tick());
    let s1 = run(s, one);
    let s5 = run(s1, finish_tick());
    lemma_step_keeps_inv(s, LifecycleStep::CancelRun);
    if completed(s1) {
        lemma_completed_run(s1, finish_tick());
        lemma_completed_run(s5, tick());
    } else {
        lemma_finish_tick(s1);
        if completed(s5) {
            lemma_completed_run(s5, tick());
        } else {
            lemma_tick_completes(s5);
        }
    }
}

/// For every interleaving of admission, timer ticks and cancellation, the
/// request is completed at most once; and whatever has happened so far, once
/// a pending cancellation callback has run and the timer has gone through a
/// full tick, it has been completed exactly once.
pub proof fn lemma_completion_exactly_once(s0: Lifecycle, steps: Seq<LifecycleStep>)
    requires
        initial(s0),
    ensures
        run(s0, steps).completions.len() <= 1,
        run(s0, steps).admitted ==> run(s0, steps + drain()).completions.len() == 1,
{
    lemma_run_keeps_inv(s0, steps);
    let s = run(s0, steps);
    if s.admitted {
        lemma_run_append(s0, steps, drain());
        lemma_drain_completes(s);
    }
}


/// A cancellation that fires and whose callback runs to completion before the
/// timer's next tick completes the request with the cancellation status and no
/// bytes. And in every interleaving, once the hook has fired, no completion
/// carries the success status.
pub proof fn lemma_no_lost_cancellation(s0: Lifecycle, steps: Seq<LifecycleStep>)
    requires
        initial(s0),
    ensures
        ({
            let s = run(s0, steps);
            &&& !(s.cancel is Waiting) ==> forall|i: int|
                0 <= i < s.completions.len() ==> (#[trigger] s.completions[i]).status
                    == Status::Cancelled
            &&& (s.hook is Armed && (s.timer is Idle || s.timer is Holding)) ==> run(
                s0,
                steps + seq![LifecycleStep::CancelFire, LifecycleStep::CancelRun],
            ).completions == seq![completion(s.request, Status::Cancelled, 0)]
        }),
{
    lemma_run_keeps_inv(s0, steps);
    let s = run(s0, steps);
    let fire_run = seq![LifecycleStep::CancelFire, LifecycleStep::CancelRun];
    lemma_run_append(s0, steps, fire_run);
    let d0 = Seq::<LifecycleStep>::empty();
    let d1 = d0.push(LifecycleStep::CancelFire);
    assert(fire_run =~= d1.push(LifecycleStep::CancelRun));
    lemma_run_push(s, d0, LifecycleStep::CancelFire);
    lemma_run_push(s, d1, LifecycleStep::CancelRun);
    if s.hook is Armed && (s.timer is Idle || s.timer is Holding) {
        assert(in_flight(s));
        assert(run(s, fire_run).completions =~= seq![completion(s.request, Status::Cancelled, 0)]);
    }
}

/// Where the hook was armed and has not fired, every completion is the
/// timer's, with the success status recorded at admission and the recorded
/// byte count; and one full tick with no cancellation completes the request so.
pub proof fn lemma_no_lost_timer_completion(s0: Lifecycle, steps: Seq<LifecycleStep>)
    requires
        initial(s0),
    ensures
        ({
            let s = run(s0, steps);
            let done = completion(s.request, Status::Success, s.context.information as nat);
            &&& ((s.hook is Armed || s.hook is Disarmed) && s.cancel is Waiting) ==> forall|i: int|
                0 <= i < s.completions.len() ==> #[trigger] s.completions[i] == done
            &&& (s.hook is Armed && s.timer is Idle) ==> run(s0, steps + tick()).completions
                == seq![done]
        }),
{
    lemma_run_keeps_inv(s0, steps);
    let s = run(s0, steps);
    lemma_run_append(s0, steps, tick());
    if s.hook is Armed && s.timer is Idle {
        assert(in_flight(s));
        lemma_tick_completes(s);
    }
}

/// A tick's first executable step, `EchoQueue::timer_claim`, does what the
/// model's read and claim steps do in a row: on the request the slot holds,
/// or on an empty slot, it changes the counter alike, and it hands back the
/// request exactly when the model's timer ends up holding a claim.
pub proof fn lemma_timer_claim_is_read_then_claim(s: Lifecycle)
    requires
        s.timer is Idle,
        s.queue.current_request is None || s.queue.current_request == Some(s.request),
    ensures
        ({
            let t = apply(apply(s, LifecycleStep::TimerRead), LifecycleStep::TimerClaim);
            let (c2, claimed) = timer_claim_spec(s.queue, s.context);
            &&& t.context == c2
            &&& t.queue == s.queue
            &&& claimed is Some ==> claimed == Some(s.request) && t.timer is Claimed
            &&& claimed is None ==> t.timer is Idle
        }),
{
}

/// A tick's last executable step, `EchoQueue::timer_settle`, does what the
/// model's settle and complete steps do in a row after the framework answered
/// the disarm with `answer`.
pub proof fn lemma_timer_settle_is_settle_then_complete(s: Lifecycle, answer: Status)
    requires
        s.timer == TimerPhase::Disarmed(answer),
    ensures
        ({
            let t = apply(apply(s, LifecycleStep::TimerSettle), LifecycleStep::TimerComplete);
            let (q2, c2, done) = timer_settle_spec(s.queue, s.context, s.request, answer);
            &&& t.queue == q2
            &&& t.context == c2
            &&& t.completions == push_opt(s.completions, done)
            &&& t.timer is Idle
        }),
{
}

/// No step of the lifecycle touches the stored bytes: what a write stored is
/// still there after its request is completed, whichever way.
pub proof fn lemma_lifecycle_keeps_content(s: Lifecycle, steps: Seq<LifecycleStep>)
    ensures
        run(s, steps).queue.content == s.queue.content,
    decreases steps.len(),
{
    if steps.len() > 0 {
        lemma_lifecycle_keeps_content(s, steps.drop_last());
    }
}

} // verus!
