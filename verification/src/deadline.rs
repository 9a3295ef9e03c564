//! Waiting for the next event under an optional deadline.
//!
//! Instants are readings of a monotonic clock in nanoseconds, counted from an
//! origin of the caller's choosing. A deadline is fixed once, when the
//! selection is claimed, and never recomputed. Without one the caller blocks
//! until an event arrives. With one, the caller first looks for a buffered
//! event without blocking; if there is none it either gives up, when the
//! deadline has passed, or sleeps on the connection for the whole
//! milliseconds that remain and then looks again.

use vstd::prelude::*;

verus! {

/// Nanoseconds in one millisecond.
pub const NANOS_PER_MILLI: u64 = 1_000_000;

/// The instant `timeout_millis` after `now`, in nanoseconds.
pub open spec fn deadline_after(now: u64, timeout_millis: u64) -> int {
    now + timeout_millis * NANOS_PER_MILLI
}

/// The whole milliseconds left at `now` until `deadline`, capped at
/// `i32::MAX`; nothing once the deadline has passed. At the deadline itself
/// zero milliseconds are left.
pub open spec fn remaining_of(deadline: int, now: int) -> Option<i32> {
    if now > deadline {
        None
    } else {
        let millis = (deadline - now) / (NANOS_PER_MILLI as int);
        if millis > i32::MAX {
            Some(i32::MAX)
        } else {
            Some(millis as i32)
        }
    }
}

/// An absolute instant after which the owner gives up.
#[derive(Clone, Copy, Debug, PartialEq, Eq)]
pub struct Deadline {
    nanos: u128,
}

impl View for Deadline {
    type V = int;

    closed spec fn view(&self) -> int {
        self.nanos as int
    }
}

impl Deadline {
    /// The deadline `timeout_millis` after `now`.
    pub fn after(now: u64, timeout_millis: u64) -> (deadline: Deadline)
        ensures
            deadline@ == deadline_after(now, timeout_millis),
    {
        assert(timeout_millis * NANOS_PER_MILLI <= u64::MAX * 1_000_000) by (nonlinear_arith)
            requires
                timeout_millis <= u64::MAX,
                NANOS_PER_MILLI == 1_000_000,
        ;
        let span: u128 = (timeout_millis as u128) * (NANOS_PER_MILLI as u128);
        Deadline { nanos: now as u128 + span }
    }

    /// The whole milliseconds left until the deadline.
    pub fn remaining_millis(&self, now: u64) -> (left: Option<i32>)
        ensures
            left == remaining_of(self@, now as int),
    {
        let now: u128 = now as u128;
        if now > self.nanos {
            None
        } else {
            let millis: u128 = (self.nanos - now) / (NANOS_PER_MILLI as u128);
            if millis > i32::MAX as u128 {
                Some(i32::MAX)
            } else {
                Some(millis as i32)
            }
        }
    }
}

/// How the caller waits for the next event.
#[derive(Clone, Copy, Debug, PartialEq, Eq)]
pub enum WaitPlan {
    /// Block until an event arrives; this wait cannot time out.
    Block,
    /// Look for a buffered event without blocking, then ask `after_poll`.
    Poll(Deadline),
}

/// `WaitPlan` as a mathematical value.
pub enum WaitPlanView {
    Block,
    Poll(int),
}

impl View for WaitPlan {
    type V = WaitPlanView;

    open spec fn view(&self) -> WaitPlanView {
        match self {
            WaitPlan::Block => WaitPlanView::Block,
            WaitPlan::Poll(deadline) => WaitPlanView::Poll(deadline@),
        }
    }
}

/// What follows a look at the event buffer.
#[derive(Clone, Copy, Debug, PartialEq, Eq)]
pub enum PollStep<E> {
    /// An event was there: hand it on at once.
    Ready(E),
    /// Nothing was there and the deadline has passed.
    TimedOut,
    /// Nothing was there: sleep on the connection for at most `millis`
    /// milliseconds, then look again.
    Sleep { millis: i32 },
}

/// The step that follows a look at the event buffer at instant `now`.
pub open spec fn poll_step_of<E>(deadline: int, polled: Option<E>, now: u64) -> PollStep<E> {
    match polled {
        Some(event) => PollStep::Ready(event),
        None => match remaining_of(deadline, now as int) {
            Some(millis) => PollStep::Sleep { millis },
            None => PollStep::TimedOut,
        },
    }
}

/// Chooses between blocking and polling.
pub fn plan_wait(deadline: &Option<Deadline>) -> (plan: WaitPlan)
    ensures
        plan@ == match *deadline {
            Some(deadline) => WaitPlanView::Poll(deadline@),
            None => WaitPlanView::Block,
        },
{
    match deadline {
        Some(deadline) => WaitPlan::Poll(*deadline),
        None => WaitPlan::Block,
    }
}

/// Decides what follows a look at the event buffer: `polled` is what the
/// look found, `now` the clock's reading after it.
pub fn after_poll<E>(deadline: &Deadline, polled: Option<E>, now: u64) -> (step: PollStep<E>)
    ensures
        step == poll_step_of(deadline@, polled, now),
{
    match polled {
        Some(event) => PollStep::Ready(event),
        None => match deadline.remaining_millis(now) {
            Some(millis) => PollStep::Sleep { millis },
            None => PollStep::TimedOut,
        },
    }
}

/// A sleep is never negative and never lasts beyond the deadline; unless it
/// was capped, it ends less than a millisecond before it.
pub proof fn sleep_stays_within_deadline(deadline: int, now: int)
    requires
        0 <= now <= deadline,
    ensures
        remaining_of(deadline, now) matches Some(millis) && 0 <= millis && now + millis
            * NANOS_PER_MILLI <= deadline && (millis < i32::MAX ==> deadline < now + (millis + 1)
            * NANOS_PER_MILLI),
{
    let span = deadline - now;
    let millis = span / (NANOS_PER_MILLI as int);
    assert(0 <= millis && millis * 1_000_000 <= span < (millis + 1) * 1_000_000) by {
        assert(span == 1_000_000 * (span / 1_000_000) + span % 1_000_000);
        assert(0 <= span % 1_000_000 < 1_000_000);
    }
}

} // verus!
