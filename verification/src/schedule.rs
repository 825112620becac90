//! Wake-target scheduling: the value a component reports to say when it next
//! needs attention, the "more urgent wins" combination of many such reports
//! into one OS sleep target, and the normalization of near-future deadlines.

use vstd::prelude::*;

verus! {

/// Minimum distance (in microseconds) a timed wake target must lie in the
/// future; anything nearer is treated as "wake immediately" so that a
/// degenerate near-future deadline cannot cause a busy loop of zero sleeps.
pub const WAKE_THRESHOLD_MICROS: u64 = 100;

/// A reporter's declaration of when it next needs attention.
///
/// `Poll` means "wake as soon as possible", `WaitUntil(t)` means "wake no
/// later than time `t`" (microseconds on a monotonic clock), and `Wait` means
/// "no action needed". `Poll` dominates any timestamp; among timestamps the
/// earliest dominates; `Wait` is dominated by everything.
#[derive(Clone, Copy, Debug, PartialEq, Eq, Structural)]
pub enum WakeRequest {
    Poll,
    WaitUntil(u64),
    Wait,
}

/// The "more urgent wins" combination of the current wake target with one
/// newly reported request.
pub open spec fn combine(current: WakeRequest, new: WakeRequest) -> WakeRequest {
    match new {
        WakeRequest::Poll => WakeRequest::Poll,
        WakeRequest::WaitUntil(t) => match current {
            WakeRequest::Poll => WakeRequest::Poll,
            WakeRequest::WaitUntil(t0) => if t < t0 {
                WakeRequest::WaitUntil(t)
            } else {
                WakeRequest::WaitUntil(t0)
            },
            WakeRequest::Wait => WakeRequest::WaitUntil(t),
        },
        WakeRequest::Wait => current,
    }
}

/// Whether absorbing `new` into `current` replaces the stored target:
/// a `Poll` always does, a timestamp does when the current target is
/// indefinite or strictly later.
pub open spec fn replaces(current: WakeRequest, new: WakeRequest) -> bool {
    match new {
        WakeRequest::Poll => true,
        WakeRequest::WaitUntil(t) => match current {
            WakeRequest::Poll => false,
            WakeRequest::WaitUntil(t0) => t < t0,
            WakeRequest::Wait => true,
        },
        WakeRequest::Wait => false,
    }
}

/// `a` is at least as urgent as `b`.
pub open spec fn at_least_as_urgent(a: WakeRequest, b: WakeRequest) -> bool {
    match (a, b) {
        (WakeRequest::Poll, _) => true,
        (WakeRequest::WaitUntil(ta), WakeRequest::WaitUntil(tb)) => ta <= tb,
        (WakeRequest::WaitUntil(_), WakeRequest::Wait) => true,
        (WakeRequest::Wait, WakeRequest::Wait) => true,
        _ => false,
    }
}

/// The wake target after one aggregation pass that starts from `current` and
/// absorbs the reports in `reqs`, in order.
pub open spec fn fold_wake(current: WakeRequest, reqs: Seq<WakeRequest>) -> WakeRequest
    decreases reqs.len(),
{
    if reqs.len() == 0 {
        current
    } else {
        combine(fold_wake(current, reqs.drop_last()), reqs.last())
    }
}

/// A timed target nearer than [`WAKE_THRESHOLD_MICROS`] to `now` is clamped
/// to "wake immediately"; everything else passes through.
pub open spec fn normalized(target: WakeRequest, now_micros: u64) -> WakeRequest {
    match target {
        WakeRequest::WaitUntil(t) => if t < now_micros + WAKE_THRESHOLD_MICROS {
            WakeRequest::Poll
        } else {
            WakeRequest::WaitUntil(t)
        },
        _ => target,
    }
}

/// Absorbs one newly reported wake request into the current target.
///
/// Returns the combined target and whether the stored target was replaced by
/// the new request.
pub fn aggregate_control_flow(current: WakeRequest, new: WakeRequest) -> (r: (WakeRequest, bool))
    ensures
        r.0 == combine(current, new),
        r.1 == replaces(current, new),
{
    match new {
        WakeRequest::Poll => (WakeRequest::Poll, true),
        WakeRequest::WaitUntil(new_time) => match current {
            WakeRequest::Poll => (current, false),
            WakeRequest::WaitUntil(orig_time) => if new_time < orig_time {
                (new, true)
            } else {
                (current, false)
            },
            WakeRequest::Wait => (new, true),
        },
        WakeRequest::Wait => (current, false),
    }
}

/// Aggregates a whole pass of reports into the current target, most urgent
/// request winning.
pub fn fold_wake_requests(current: WakeRequest, reqs: &Vec<WakeRequest>) -> (r: WakeRequest)
    ensures
        r == fold_wake(current, reqs@),
{
    let mut target = current;
    let mut i: usize = 0;
    while i < reqs.len()
        invariant
            0 <= i <= reqs@.len(),
            target == fold_wake(current, reqs@.take(i as int)),
        decreases reqs@.len() - i,
    {
        let (next, _) = aggregate_control_flow(target, reqs[i]);
        target = next;
        proof {
            assert(reqs@.take(i + 1 as int).drop_last() =~= reqs@.take(i as int));
            assert(reqs@.take(i + 1 as int).last() == reqs@[i as int]);
        }
        i = i + 1;
    }
    proof {
        assert(reqs@.take(reqs@.len() as int) =~= reqs@);
    }
    target
}

/// Clamps a timed target that lies less than [`WAKE_THRESHOLD_MICROS`]
/// microseconds past `now_micros` up to "wake immediately", so the OS sleep
/// primitive is never handed an effectively-zero sleep.
pub fn normalize_control_flow(target: WakeRequest, now_micros: u64) -> (r: WakeRequest)
    ensures
        r == normalized(target, now_micros),
{
    match target {
        WakeRequest::WaitUntil(t) => {
            if t <= now_micros || t - now_micros < WAKE_THRESHOLD_MICROS {
                WakeRequest::Poll
            } else {
                WakeRequest::WaitUntil(t)
            }
        },
        _ => target,
    }
}

/// Law: the "more urgent wins" combine is a commutative, associative
/// operation with "no action needed" as its identity, so one aggregation
/// pass is a well-defined reduction rather than scattered comparisons.
pub proof fn lemma_combine_monoid(a: WakeRequest, b: WakeRequest, c: WakeRequest)
    ensures
        combine(a, WakeRequest::Wait) == a,
        combine(WakeRequest::Wait, a) == a,
        combine(a, b) == combine(b, a),
        combine(combine(a, b), c) == combine(a, combine(b, c)),
{
}

/// Law: one aggregation pass is a fold of the "more urgent wins" combine, so
/// if any submitted request is "as soon as possible", the aggregate is "as
/// soon as possible", regardless of where in the pass it was submitted.
pub proof fn lemma_fold_wake_poll(current: WakeRequest, reqs: Seq<WakeRequest>)
    requires
        exists|i: int| 0 <= i < reqs.len() && reqs[i] == WakeRequest::Poll,
    ensures
        fold_wake(current, reqs) == WakeRequest::Poll,
    decreases reqs.len(),
{
    let i = choose|i: int| 0 <= i < reqs.len() && reqs[i] == WakeRequest::Poll;
    if i == reqs.len() - 1 {
        assert(reqs.last() == WakeRequest::Poll);
    } else {
        assert(reqs.drop_last()[i] == WakeRequest::Poll);
        lemma_fold_wake_poll(current, reqs.drop_last());
    }
}

/// Law: the aggregate of one pass is at least as urgent as the starting
/// target and as every submitted request, and it is one of them: the most
/// urgent request ever seen in the pass wins, and later, less urgent requests
/// never weaken an already-more-urgent target.
pub proof fn lemma_fold_wake_most_urgent(current: WakeRequest, reqs: Seq<WakeRequest>)
    ensures
        at_least_as_urgent(fold_wake(current, reqs), current),
        forall|i: int| 0 <= i < reqs.len() ==> at_least_as_urgent(
            fold_wake(current, reqs),
            #[trigger] reqs[i],
        ),
        fold_wake(current, reqs) == current || exists|i: int|
            0 <= i < reqs.len() && fold_wake(current, reqs) == reqs[i],
    decreases reqs.len(),
{
    if reqs.len() > 0 {
        lemma_fold_wake_most_urgent(current, reqs.drop_last());
        assert(forall|i: int| 0 <= i < reqs.len() - 1 ==> reqs.drop_last()[i] == reqs[i]);
        let folded = fold_wake(current, reqs);
        if folded != fold_wake(current, reqs.drop_last()) {
            assert(folded == reqs[reqs.len() - 1]);
        }
    }
}

} // verus!
