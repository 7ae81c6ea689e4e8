//! The per-request ownership counter and its two operations: release-if-owner
//! and claim-if-active.
use vstd::prelude::*;

verus! {

/// Per-request context: the ownership counter that decides which context may
/// complete the request, and the byte count recorded for a normal completion.
///
/// The counter is the number of parties not yet disqualified from completing
/// the request. Admission sets it to one.
pub struct RequestContext {
    pub cancel_completion_ownership_count: i32,
    pub information: usize,
}

impl RequestContext {
    /// A context for a request that has not been admitted yet.
    pub fn new() -> (r: RequestContext)
        ensures
            r.cancel_completion_ownership_count == 0,
            r.information == 0,
    {
        RequestContext { cancel_completion_ownership_count: 0, information: 0 }
    }
}

/// Whether a counter value admits one more claim above `floor`.
pub open spec fn can_increment(value: int, floor: int) -> bool {
    floor < value < i32::MAX
}

/// Raises `*target` by one if it is above `floor`, as one indivisible step.
///
/// Returns the new value on success. On failure the counter is left as it was
/// and the result is at most `floor + 1`, so a caller detects failure by
/// `r <= floor + 1`: a successful increment starts above `floor` and so ends
/// above `floor + 1`. A counter already at `i32::MAX` cannot be raised; the
/// claim then fails with `floor + 1`.
pub fn echo_interlocked_increment_floor(target: &mut i32, floor: i32) -> (r: i32)
    ensures
        can_increment(*old(target) as int, floor as int) ==> {
            &&& *final(target) == *old(target) + 1
            &&& r == *old(target) + 1
        },
        !can_increment(*old(target) as int, floor as int) ==> {
            &&& *final(target) == *old(target)
            &&& r == if *old(target) <= floor { *old(target) as int } else { floor + 1 }
        },
        r > floor + 1 <==> can_increment(*old(target) as int, floor as int),
{
    let current_value = *target;
    if current_value <= floor {
        current_value
    } else if current_value == i32::MAX {
        floor + 1
    } else {
        *target = current_value + 1;
        current_value + 1
    }
}

/// Raises `*target` by one if it is strictly positive. Success is a result
/// above one. A failed claim returns the counter's value when that is not
/// positive, and one when the counter is stuck at `i32::MAX`.
pub fn echo_interlocked_increment_gtzero(target: &mut i32) -> (r: i32)
    ensures
        can_increment(*old(target) as int, 0) ==> *final(target) == *old(target) + 1 && r == *final(target),
        !can_increment(*old(target) as int, 0) ==> {
            &&& *final(target) == *old(target)
            &&& r == if *old(target) <= 0 { *old(target) as int } else { 1 }
        },
        r > 1 <==> can_increment(*old(target) as int, 0),
{
    echo_interlocked_increment_floor(target, 0)
}

/// The counter after a release, and whether the releasing party now owns
/// completion (the decrement landed exactly on zero).
pub open spec fn release_spec(count: int) -> (int, bool) {
    (count - 1, count - 1 == 0)
}

/// The counter after a claim, and whether the claim succeeded.
pub open spec fn claim_spec(count: int) -> (int, bool) {
    if can_increment(count, 0) {
        (count + 1, true)
    } else {
        (count, false)
    }
}

/// Release-if-owner: lowers the counter by one; the caller owns completion
/// if and only if the counter reached exactly zero.
pub fn echo_decrement_request_cancel_ownership_count(request_context: &mut RequestContext) -> (r:
    bool)
    requires
        old(request_context).cancel_completion_ownership_count > i32::MIN,
    ensures
        (final(request_context).cancel_completion_ownership_count as int, r) == release_spec(
            old(request_context).cancel_completion_ownership_count as int,
        ),
        final(request_context).information == old(request_context).information,
{
    let result = request_context.cancel_completion_ownership_count;
    request_context.cancel_completion_ownership_count = result - 1;
    result - 1 == 0
}

/// Claim-if-active: raises the counter only if it is strictly positive. The
/// claim succeeds if and only if the counter was raised, which leaves it above
/// one.
pub fn echo_increment_request_cancel_ownership_count(request_context: &mut RequestContext) -> (r:
    bool)
    ensures
        (final(request_context).cancel_completion_ownership_count as int, r) == claim_spec(
            old(request_context).cancel_completion_ownership_count as int,
        ),
        final(request_context).information == old(request_context).information,
{
    echo_interlocked_increment_gtzero(&mut request_context.cancel_completion_ownership_count) > 1
}

} // verus!
