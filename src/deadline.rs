use vstd::prelude::*;
use crate::cancel::{CancelFn, with_cancel};
use crate::context::{Context, Node};
use crate::error::{Async, ContextError};
use crate::model::Shape;
use crate::span::Span;
use std::time::{Duration, Instant};
use tokio_timer::{Sleep, Timer};

verus! {

#[verifier::external_type_specification]
#[verifier::external_body]
pub struct ExInstant(Instant);

#[verifier::external_type_specification]
#[verifier::external_body]
pub struct ExTimer(Timer);

#[verifier::external_type_specification]
#[verifier::external_body]
pub struct ExSleep(Sleep);

/// Relies on `Instant::now`: the current time.
pub assume_specification[ Instant::now ]() -> Instant;

/// Relies on `Instant::checked_add`: `None` when the sum is not representable.
pub assume_specification[ Instant::checked_add ](i: &Instant, d: Duration) -> Option<Instant>;

/// Relies on `Instant::saturating_duration_since`: zero when `earlier` is later.
pub assume_specification[ Instant::saturating_duration_since ](i: &Instant, earlier: Instant) -> Duration;

/// Relies on `Duration::as_secs`: the whole seconds of the duration.
pub assume_specification[ Duration::as_secs ](d: &Duration) -> u64;

/// Relies on `Duration::subsec_nanos`: the fractional part, always under one
/// billion nanoseconds.
pub assume_specification[ Duration::subsec_nanos ](d: &Duration) -> (r: u32)
    ensures
        r < 1_000_000_000,
;

/// Relies on tokio-timer's `Sleep::is_expired`: whether the requested time has come.
pub assume_specification[ Sleep::is_expired ](s: &Sleep) -> bool;

/// Relies on tokio-timer's `Timer::default`: a timer service with its own worker.
#[verifier::external_body]
fn new_timer() -> Timer {
    Timer::default()
}

/// Relies on `Duration::new`: it panics only when the carry from `nanos`
/// overflows the seconds, which a fraction below one second never does.
pub assume_specification[ Duration::new ](secs: u64, nanos: u32) -> Duration
    requires
        nanos < 1_000_000_000,
;

/// The range, in milliseconds, of tokio-timer's default wheel (4096 slots of
/// 100 ms). A deadline node schedules a wait only when it is shorter; a longer
/// one is refused with `DeadlineTooLong`.
pub const MAX_TIMER_MILLIS: u64 = 409_600;

/// Whether a wait of `secs` seconds and `nanos` nanoseconds fits the timer.
pub open spec fn fits_timer(secs: u64, nanos: u32) -> bool {
    secs * 1000 + nanos / 1_000_000 < MAX_TIMER_MILLIS
}

/// Relies on tokio-timer's `Timer::sleep`: a one-shot entry that fires after
/// the wait. `sleep` adds the wait to a fresh reading of the monotonic clock;
/// a wait within the wheel's range of a few minutes keeps that sum
/// representable.
#[verifier::external_body]
fn start_sleep(t: &Timer, secs: u64, nanos: u32) -> Sleep
    requires
        fits_timer(secs, nanos),
        nanos < 1_000_000_000,
{
    t.sleep(Duration::new(secs, nanos))
}

/// What a poll of a deadline node's timer found.
#[derive(Debug, Clone, Copy, PartialEq, Eq, Structural)]
pub enum TimerState {
    /// The entry has not fired yet.
    Running,
    /// The entry fired.
    Fired,
    /// The timer service could not hold the entry.
    Refused,
}

/// Relies on tokio-timer's `Sleep` future: its poll registers the current task
/// and tells whether the entry fired or was refused. It only polls inside a
/// task (checked with futures' `task::is_in_task`, as the poll needs the
/// current task) and gives `None` outside one.
#[verifier::external_body]
fn poll_sleep(s: &mut Sleep) -> Option<TimerState> {
    if !futures::task::is_in_task() {
        return None;
    }
    match futures::Future::poll(s) {
        Ok(futures::Async::Ready(())) => Some(TimerState::Fired),
        Ok(futures::Async::NotReady) => Some(TimerState::Running),
        Err(_) => Some(TimerState::Refused),
    }
}

/// A node that completes at its deadline. Its parent is the cancel node that
/// serves its trigger.
pub struct WithDeadline {
    pub parent: Context,
    /// `None` when the requested deadline could not be represented.
    pub when: Option<Instant>,
    /// The timer entry; `None` when the deadline could not be scheduled.
    pub sleep: Option<Sleep>,
}

impl WithDeadline {
    /// This node's own deadline.
    pub fn own_deadline(&self) -> (r: Option<Instant>)
        ensures
            r == self.when,
    {
        self.when
    }
}

/// Checks the node's timer. Inside a task the timer is polled, which also
/// registers the task for wake-up; outside one it is only looked at.
pub fn observe_timer(sleep: &mut Option<Sleep>) -> (r: TimerState)
    ensures
        final(sleep).is_some() == old(sleep).is_some(),
        old(sleep).is_none() ==> r == TimerState::Refused,
{
    match sleep {
        None => TimerState::Refused,
        Some(s) => match poll_sleep(s) {
            Some(t) => t,
            None => if s.is_expired() {
                TimerState::Fired
            } else {
                TimerState::Running
            },
        },
    }
}

/// The outcome of a deadline node whose timer was found in state `t`, or
/// `None` when the decision passes to its parent.
pub fn resolve_deadline(t: TimerState) -> (r: Option<Result<Async, ContextError>>)
    ensures
        r == (match t {
            TimerState::Fired => Some(Err(ContextError::DeadlineExceeded)),
            TimerState::Refused => Some(Err(ContextError::DeadlineTooLong)),
            TimerState::Running => None::<Result<Async, ContextError>>,
        }),
{
    match t {
        TimerState::Fired => Some(Err(ContextError::DeadlineExceeded)),
        TimerState::Refused => Some(Err(ContextError::DeadlineTooLong)),
        TimerState::Running => None,
    }
}

/// Whether a wait of `secs` seconds and `nanos` nanoseconds fits the timer.
pub fn wait_fits_timer(secs: u64, nanos: u32) -> (r: bool)
    ensures
        r == fits_timer(secs, nanos),
{
    if secs >= MAX_TIMER_MILLIS / 1000 + 1 {
        proof {
            assert(secs * 1000 >= 410_000) by (nonlinear_arith)
                requires
                    secs >= 410,
            ;
        }
        false
    } else {
        secs * 1000 + ((nanos / 1_000_000) as u64) < MAX_TIMER_MILLIS
    }
}

/// Builds a deadline node over a fresh cancel node of `parent`. A timer entry
/// that fires after the wait is scheduled when there is an instant and the
/// wait fits the timer; otherwise the node reports `DeadlineTooLong`.
fn deadline_node(parent: Context, at: Option<Instant>, secs: u64, nanos: u32) -> (r: (Context, CancelFn))
    requires
        nanos < 1_000_000_000,
    ensures
        r.0@ == Shape::Deadline(
            at,
            at is Some && fits_timer(secs, nanos),
            Box::new(Shape::Cancel(Box::new(parent@))),
        ),
        r.0.settled is None,
{
    let (inner, cancel) = with_cancel(parent);
    let sleep = match at {
        Some(_) => if wait_fits_timer(secs, nanos) {
            let timer = new_timer();
            Some(start_sleep(&timer, secs, nanos))
        } else {
            None
        },
        None => None,
    };
    let node = WithDeadline { parent: inner, when: at, sleep };
    (Context::new(Node::Deadline(node)), cancel)
}

/// Returns a child of `parent` that completes at `deadline`, when the
/// returned trigger is called, or when `parent` completes, whichever happens
/// first. A deadline already in the past completes on the first poll; one
/// further away than the timer's range completes with `DeadlineTooLong`.
pub fn with_deadline(parent: Context, deadline: Instant) -> (r: (Context, CancelFn))
    ensures
        r.0@ is Deadline,
        r.0@->Deadline_0 == Some(deadline),
        *r.0@->Deadline_2 == Shape::Cancel(Box::new(parent@)),
        r.0@.deadline() == Some(deadline),
        r.0.settled is None,
{
    let now = Instant::now();
    let wait = deadline.saturating_duration_since(now);
    deadline_node(parent, Some(deadline), wait.as_secs(), wait.subsec_nanos())
}

/// Returns `with_deadline(parent, now + timeout)`. Where `now + timeout`
/// cannot be represented, the child carries no deadline of its own; there, and
/// where the timeout is beyond the timer's range, it completes with
/// `DeadlineTooLong` on its first poll.
pub fn with_timeout(parent: Context, timeout: Span) -> (r: (Context, CancelFn))
    requires
        timeout.wf(),
    ensures
        r.0@ is Deadline,
        r.0@->Deadline_1 == (r.0@->Deadline_0 is Some && timeout.millis() < MAX_TIMER_MILLIS),
        *r.0@->Deadline_2 == Shape::Cancel(Box::new(parent@)),
        r.0.settled is None,
{
    let now = Instant::now();
    let at = now.checked_add(Duration::new(timeout.secs, timeout.nanos));
    deadline_node(parent, at, timeout.secs, timeout.nanos)
}

} // verus!
