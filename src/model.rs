//! How the POSIX unnamed semaphore answers each call, as a function of its
//! count, and the laws that hold of the handle's decisions on those answers.
use vstd::prelude::*;

use crate::error::{NoToken, Overflow};
use crate::lifecycle::{on_init, InitStep};
use crate::outcome::{
    on_post, on_timedwait, on_trywait, on_value, on_wait, ErrorCodes, Failure, Step,
};

verus! {

/// A count the primitive can hold, under a largest value that fits a C `int`.
pub open spec fn in_range(count: int, max: int) -> bool {
    0 <= count <= max <= i32::MAX
}

/// `sem_init` with the starting count `n`: `0`, or `-1` (`EINVAL`) where `n`
/// exceeds the largest value.
pub open spec fn init_call(n: int, max: int) -> i32 {
    if 0 <= n <= max {
        0i32
    } else {
        -1i32
    }
}

/// `sem_wait` on `count`, with no signal: it takes a token, or, on a zero
/// count, does not return (`None`).
pub open spec fn wait_call(count: int) -> Option<(i32, i32)> {
    if count > 0 {
        Some((0i32, 0i32))
    } else {
        None
    }
}

/// `sem_trywait` on `count`, with no signal.
pub open spec fn trywait_call(count: int, codes: ErrorCodes) -> (i32, i32) {
    if count > 0 {
        (0i32, 0i32)
    } else {
        (-1i32, codes.would_block)
    }
}

/// `sem_timedwait` on `count`, with no signal, where `expired` tells whether
/// the deadline has passed; `None` while it still blocks.
pub open spec fn timedwait_call(count: int, expired: bool, codes: ErrorCodes) -> Option<(i32, i32)> {
    if count > 0 {
        Some((0i32, 0i32))
    } else if expired {
        Some((-1i32, codes.timed_out))
    } else {
        None
    }
}

/// `sem_post` on `count`, under the largest value `max`.
pub open spec fn post_call(count: int, max: int, codes: ErrorCodes) -> (i32, i32) {
    if count < max {
        (0i32, 0i32)
    } else {
        (-1i32, codes.overflow)
    }
}

/// `sem_getvalue` on `count`: the return code and the value stored.
pub open spec fn value_call(count: int) -> (i32, i32) {
    (0i32, count as i32)
}

/// The count after an acquire returned `rc`.
pub open spec fn after_acquire(count: int, rc: i32) -> int {
    if rc == 0 {
        count - 1
    } else {
        count
    }
}

/// The count after a release returned `rc`.
pub open spec fn after_release(count: int, rc: i32) -> int {
    if rc == 0 {
        count + 1
    } else {
        count
    }
}

/// The handle's decision on a call that returned `call`.
pub open spec fn reply(codes: ErrorCodes, call: (i32, i32)) -> Result<(), Failure> {
    codes.reply_of(call.0, call.1)
}

/// Construction: a starting count in range always gives a live handle, and
/// reading its count then gives that starting count.
pub proof fn construct_reports_count(n: int, max: int)
    requires
        in_range(n, max),
    ensures
        on_init(init_call(n, max)) == InitStep::Ready,
        on_value(value_call(n).0, value_call(n).1) == Some(n as i32),
        n as i32 == n,
{
}

/// A signal never reaches the caller: every acquire makes its call again.
pub proof fn interruption_is_retried(codes: ErrorCodes)
    requires
        codes.wf(),
    ensures
        on_wait(reply(codes, (-1i32, codes.interrupted))) == Step::<()>::Retry,
        on_trywait(reply(codes, (-1i32, codes.interrupted))) == Step::<Result<(), NoToken>>::Retry,
        on_timedwait(reply(codes, (-1i32, codes.interrupted))) == Step::<Result<(), NoToken>>::Retry,
{
}

/// A blocking acquire on a positive count returns at once and leaves one
/// token fewer; a release then restores the count.
pub proof fn wait_then_release_restores(codes: ErrorCodes, n: int, max: int)
    requires
        codes.wf(),
        in_range(n, max),
        n > 0,
    ensures
        wait_call(n) is Some,
        on_wait(reply(codes, wait_call(n).unwrap())) == Step::Done(()),
        after_acquire(n, wait_call(n).unwrap().0) == n - 1,
        on_value(value_call(n - 1).0, value_call(n - 1).1) == Some((n - 1) as i32),
        on_post(reply(codes, post_call(n - 1, max, codes))) == Step::Done(
            Ok::<(), Overflow>(()),
        ),
        after_release(n - 1, post_call(n - 1, max, codes).0) == n,
        on_value(value_call(n).0, value_call(n).1) == Some(n as i32),
{
}

/// On a zero count a non-blocking acquire gives `NoToken`; after one release
/// it succeeds and the count is zero again.
pub proof fn trywait_after_release(codes: ErrorCodes, max: int)
    requires
        codes.wf(),
        in_range(1, max),
    ensures
        on_trywait(reply(codes, trywait_call(0, codes))) == Step::Done(
            Err::<(), NoToken>(NoToken),
        ),
        after_acquire(0, trywait_call(0, codes).0) == 0,
        on_post(reply(codes, post_call(0, max, codes))) == Step::Done(Ok::<(), Overflow>(())),
        after_release(0, post_call(0, max, codes).0) == 1,
        on_trywait(reply(codes, trywait_call(1, codes))) == Step::Done(Ok::<(), NoToken>(())),
        after_acquire(1, trywait_call(1, codes).0) == 0,
        on_value(value_call(0).0, value_call(0).1) == Some(0i32),
{
}

/// On a zero count, an acquire bounded by a deadline does not return while
/// the deadline lies ahead (a signal only makes it wait again), and gives
/// `NoToken`, with the count unchanged, once it has passed.
pub proof fn deadline_bounds_wait(codes: ErrorCodes)
    requires
        codes.wf(),
    ensures
        timedwait_call(0, false, codes) is None,
        on_timedwait(reply(codes, (-1i32, codes.interrupted))) == Step::<Result<(), NoToken>>::Retry,
        timedwait_call(0, true, codes) is Some,
        on_timedwait(reply(codes, timedwait_call(0, true, codes).unwrap())) == Step::Done(
            Err::<(), NoToken>(NoToken),
        ),
        after_acquire(0, timedwait_call(0, true, codes).unwrap().0) == 0,
{
}

/// A release on a full count gives `Overflow` and leaves the count unchanged.
pub proof fn release_at_max_overflows(codes: ErrorCodes, max: int)
    requires
        codes.wf(),
        in_range(max, max),
    ensures
        on_post(reply(codes, post_call(max, max, codes))) == Step::Done(
            Err::<(), Overflow>(Overflow),
        ),
        after_release(max, post_call(max, max, codes).0) == max,
{
}

/// Two threads share a handle: `s.0` tokens are stored, one thread has `s.1`
/// releases left to make, the other `s.2` blocking acquires left to finish.
/// There are never more acquires left than tokens to come, and the releases
/// never push the count past `max`.
pub open spec fn handoff_ok(s: (int, int, int), max: int) -> bool {
    &&& 0 <= s.0
    &&& 0 <= s.1
    &&& 0 <= s.2
    &&& s.2 <= s.0 + s.1
    &&& s.0 + s.1 <= max <= i32::MAX
}

/// One attempt by the releasing thread (`poster`) or by the acquiring one,
/// which, on a zero count, stays blocked and changes nothing.
pub open spec fn handoff_move(s: (int, int, int), max: int, codes: ErrorCodes, poster: bool) -> (
    int,
    int,
    int,
) {
    if poster {
        if s.1 > 0 {
            (after_release(s.0, post_call(s.0, max, codes).0), s.1 - 1, s.2)
        } else {
            s
        }
    } else {
        if s.2 > 0 && wait_call(s.0) is Some {
            (after_acquire(s.0, wait_call(s.0).unwrap().0), s.1, s.2 - 1)
        } else {
            s
        }
    }
}

/// The state after the two threads' attempts interleave as `order` says.
pub open spec fn handoff_run(s: (int, int, int), max: int, codes: ErrorCodes, order: Seq<bool>) -> (
    int,
    int,
    int,
)
    decreases order.len(),
{
    if order.len() == 0 {
        s
    } else {
        handoff_run(handoff_move(s, max, codes, order[0]), max, codes, order.drop_first())
    }
}

/// In one state of a handoff: each release succeeds, each acquire that
/// returns is handed success, and while work is left one of the two threads
/// can move, which leaves one call fewer to make.
pub proof fn handoff_step(codes: ErrorCodes, s: (int, int, int), max: int)
    requires
        codes.wf(),
        handoff_ok(s, max),
    ensures
        s.1 > 0 || s.2 > 0 ==> s.1 > 0 || wait_call(s.0) is Some,
        s.1 > 0 ==> on_post(reply(codes, post_call(s.0, max, codes))) == Step::Done(
            Ok::<(), Overflow>(()),
        ),
        s.2 > 0 && wait_call(s.0) is Some ==> on_wait(
            reply(codes, wait_call(s.0).unwrap()),
        ) == Step::Done(()),
        forall|poster: bool| #[trigger]
            handoff_ok(handoff_move(s, max, codes, poster), max),
        s.1 > 0 ==> handoff_move(s, max, codes, true).1 + handoff_move(s, max, codes, true).2 == s.1
            + s.2 - 1,
        s.2 > 0 && wait_call(s.0) is Some ==> handoff_move(s, max, codes, false).1
            + handoff_move(s, max, codes, false).2 == s.1 + s.2 - 1,
{
}

/// Cross-thread handoff: from any state that `handoff_ok` admits (among
/// them a zero count with as many releases as acquires), however the two
/// threads interleave, no state is reached in which work is left and neither
/// thread can move. With `handoff_step`, each release made there succeeds and
/// each move leaves one call fewer, so both threads finish.
pub proof fn handoff_never_stuck(
    codes: ErrorCodes,
    s: (int, int, int),
    max: int,
    order: Seq<bool>,
)
    requires
        codes.wf(),
        handoff_ok(s, max),
    ensures
        handoff_ok(handoff_run(s, max, codes, order), max),
        ({
            let t = handoff_run(s, max, codes, order);
            t.1 > 0 || t.2 > 0 ==> t.1 > 0 || wait_call(t.0) is Some
        }),
    decreases order.len(),
{
    handoff_step(codes, s, max);
    if order.len() > 0 {
        let next = handoff_move(s, max, codes, order[0]);
        assert(handoff_ok(next, max));
        handoff_never_stuck(codes, next, max, order.drop_first());
    }
}

/// How many of the attempts in `order` changed the state: a release made,
/// or an acquire that returned.
pub open spec fn handoff_moves(s: (int, int, int), max: int, codes: ErrorCodes, order: Seq<bool>) -> int
    decreases order.len(),
{
    if order.len() == 0 {
        0
    } else {
        let next = handoff_move(s, max, codes, order[0]);
        (if next != s {
            1int
        } else {
            0int
        }) + handoff_moves(next, max, codes, order.drop_first())
    }
}

/// Each attempt that changes the state leaves exactly one call fewer to
/// make, and no other attempt changes it.
pub proof fn handoff_accounting(codes: ErrorCodes, s: (int, int, int), max: int, order: Seq<bool>)
    requires
        codes.wf(),
        handoff_ok(s, max),
    ensures
        handoff_run(s, max, codes, order).1 + handoff_run(s, max, codes, order).2 + handoff_moves(
            s,
            max,
            codes,
            order,
        ) == s.1 + s.2,
    decreases order.len(),
{
    handoff_step(codes, s, max);
    if order.len() > 0 {
        let next = handoff_move(s, max, codes, order[0]);
        assert(handoff_ok(next, max));
        handoff_accounting(codes, next, max, order.drop_first());
    }
}

/// Cross-thread handoff on a handle at count zero: one thread releases twice,
/// the other acquires twice. However the attempts of the two interleave
/// (`order`), both releases succeed, the acquiring thread is blocked only
/// while a release is still to come, and each attempt that changes the state
/// leaves one of the four calls fewer. So at most four moves are made, no
/// state before them is stuck, and after them both acquires have returned.
/// The count must be able to hold the two tokens.
pub proof fn two_releases_two_waits(codes: ErrorCodes, max: int, order: Seq<bool>)
    requires
        codes.wf(),
        2 <= max <= i32::MAX,
    ensures
        ({
            let t = handoff_run((0, 2, 2), max, codes, order);
            &&& handoff_ok(t, max)
            &&& t.1 > 0 ==> on_post(reply(codes, post_call(t.0, max, codes))) == Step::Done(
                Ok::<(), Overflow>(()),
            )
            &&& t.2 > 0 && t.0 > 0 ==> on_wait(reply(codes, wait_call(t.0).unwrap()))
                == Step::Done(())
            &&& t.2 > 0 ==> t.1 > 0 || wait_call(t.0) is Some
            &&& t.1 + t.2 + handoff_moves((0, 2, 2), max, codes, order) == 4
            &&& handoff_moves((0, 2, 2), max, codes, order) == 4 ==> t.1 == 0 && t.2 == 0
        }),
{
    let s = (0int, 2int, 2int);
    assert(handoff_ok(s, max));
    handoff_never_stuck(codes, s, max, order);
    handoff_accounting(codes, s, max, order);
    handoff_step(codes, handoff_run(s, max, codes, order), max);
}

} // verus!
