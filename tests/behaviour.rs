use ctx::{background, resolve_cancel, resolve_deadline, with_cancel, with_deadline};
use ctx::{with_keyed_value, with_timeout, with_value};
use ctx::{Async, Context, Span, ContextError, TimerState, Value, ValueKind};
use futures::Future;
use std::time::{Duration, Instant};

fn wait_on(ctx: &mut Context) -> Result<(), ContextError> {
    futures::future::poll_fn(|| match ctx.poll() {
        Ok(Async::Ready) => Ok(futures::Async::Ready(())),
        Ok(Async::NotReady) => Ok(futures::Async::NotReady),
        Err(e) => Err(e),
    })
    .wait()
}

fn spin(ms: u64) {
    let until = Instant::now() + Duration::from_millis(ms);
    while Instant::now() < until {
        std::hint::spin_loop();
    }
}

#[test]
fn background_stays_pending() {
    let mut ctx = background();
    for _ in 0..100 {
        assert_eq!(ctx.poll(), Ok(Async::NotReady));
    }
    assert_eq!(ctx.deadline(), None);
    assert_eq!(ctx.value(ValueKind::I32), None);
}

#[test]
fn cancel_then_poll_is_canceled() {
    let (mut ctx, cancel) = with_cancel(background());
    assert_eq!(ctx.poll(), Ok(Async::NotReady));
    cancel.cancel();
    assert_eq!(ctx.poll(), Err(ContextError::Canceled));
    assert_eq!(ctx.poll(), Err(ContextError::Canceled));
}

#[test]
fn cancel_reaches_grandchild() {
    let (p, cancel_p) = with_cancel(background());
    let (c, _cancel_c) = with_cancel(p);
    let mut v = with_value(c, Value::Bool(true));
    assert_eq!(v.poll(), Ok(Async::NotReady));
    cancel_p.cancel();
    assert_eq!(v.poll(), Err(ContextError::Canceled));
}

#[test]
fn sibling_cancel_leaves_other_pending() {
    let (mut p, _cancel_p) = with_cancel(background());
    let (mut c, cancel_c) = with_cancel(Context::new(ctx::Node::Background(ctx::Background {})));
    cancel_c.cancel();
    assert_eq!(c.poll(), Err(ContextError::Canceled));
    assert_eq!(p.poll(), Ok(Async::NotReady));
}

#[test]
fn canceled_stays_canceled_after_deadline() {
    let (p, cancel) = with_cancel(background());
    let (mut ctx, _) = with_timeout(p, Span::from_millis(300));
    cancel.cancel();
    assert_eq!(ctx.poll(), Err(ContextError::Canceled));
    spin(450);
    assert_eq!(ctx.poll(), Err(ContextError::Canceled));
    assert_eq!(wait_on(&mut ctx).unwrap_err(), ContextError::Canceled);
}

#[test]
fn far_deadline_is_too_long_on_every_poll() {
    let at = Instant::now() + Duration::from_secs(410);
    let (mut ctx, _) = with_deadline(background(), at);
    assert_eq!(ctx.deadline(), Some(at));
    assert_eq!(ctx.poll(), Err(ContextError::DeadlineTooLong));
    assert_eq!(ctx.poll(), Err(ContextError::DeadlineTooLong));
    assert_eq!(wait_on(&mut ctx).unwrap_err(), ContextError::DeadlineTooLong);
}

#[test]
fn longest_scheduled_wait_is_pending() {
    let (mut ctx, _) = with_timeout(background(), Span::from_secs(409));
    assert_eq!(ctx.poll(), Ok(Async::NotReady));
    assert_eq!(ctx.settled, None);
}

#[test]
fn trigger_many_times_same_as_once() {
    let (mut once, cancel_once) = with_cancel(background());
    let (mut many, cancel_many) = with_cancel(background());
    cancel_once.cancel();
    for _ in 0..5 {
        cancel_many.cancel();
    }
    assert_eq!(once.poll(), many.poll());
    assert_eq!(many.poll(), Err(ContextError::Canceled));
}

#[test]
fn trigger_outlives_context() {
    let (ctx, cancel) = with_cancel(background());
    drop(ctx);
    cancel.cancel();
    cancel.cancel();
}

#[test]
fn timeout_pending_then_exceeded() {
    let start = Instant::now();
    let (mut ctx, _) = with_timeout(background(), Span::from_millis(50));
    let d = ctx.deadline().unwrap();
    assert!(d >= start + Duration::from_millis(50));
    assert!(d - (start + Duration::from_millis(50)) < Duration::from_millis(10));
    spin(60);
    assert_eq!(wait_on(&mut ctx).unwrap_err(), ContextError::DeadlineExceeded);
}

#[test]
fn long_timeout_is_pending() {
    let (mut ctx, _) = with_timeout(background(), Span::from_secs(2));
    assert_eq!(ctx.poll(), Ok(Async::NotReady));
}

#[test]
fn earlier_ancestor_deadline_wins() {
    let (parent, _) = with_timeout(background(), Span::from_millis(50));
    let (mut ctx, _) = with_timeout(parent, Span::from_secs(10));
    spin(150);
    assert_eq!(ctx.poll(), Err(ContextError::DeadlineExceeded));
}

#[test]
fn cancel_beats_later_deadline() {
    let (mut ctx, cancel) = with_timeout(background(), Span::from_secs(2));
    spin(100);
    cancel.cancel();
    assert_eq!(wait_on(&mut ctx).unwrap_err(), ContextError::Canceled);
}

#[test]
fn past_deadline_expires_on_first_poll() {
    let at = Instant::now();
    spin(5);
    let (mut ctx, _) = with_deadline(background(), at);
    assert_eq!(ctx.deadline(), Some(at));
    assert_eq!(ctx.poll(), Err(ContextError::DeadlineExceeded));
}

#[test]
fn unrepresentable_timeout_is_too_long() {
    let (mut ctx, _) = with_timeout(background(), Span::new(u64::MAX, 999_999_999));
    assert_eq!(ctx.deadline(), None);
    assert_eq!(ctx.poll(), Err(ContextError::DeadlineTooLong));
}

#[test]
fn timeout_beyond_timer_range_is_too_long() {
    let (mut ctx, _) = with_timeout(background(), Span::from_secs(3600));
    assert!(ctx.deadline().is_some());
    assert_eq!(ctx.poll(), Err(ContextError::DeadlineTooLong));
    assert_eq!(ctx.settled, Some(ContextError::DeadlineTooLong));
    assert_eq!(wait_on(&mut ctx).unwrap_err(), ContextError::DeadlineTooLong);
}

#[test]
fn deadline_passes_through_value_and_cancel() {
    let at = Instant::now() + Duration::from_secs(5);
    let (d, _) = with_deadline(background(), at);
    let (c, _) = with_cancel(d);
    let v = with_value(c, Value::U64(7));
    assert_eq!(v.deadline(), Some(at));
}

#[test]
fn nearest_deadline_is_reported() {
    let outer = Instant::now() + Duration::from_secs(5);
    let inner = Instant::now() + Duration::from_secs(9);
    let (d, _) = with_deadline(background(), outer);
    let (e, _) = with_deadline(d, inner);
    assert_eq!(e.deadline(), Some(inner));
}

#[test]
fn keyed_value_shadowing() {
    let a = with_keyed_value(background(), "A", Value::I64(1));
    let b = with_keyed_value(a, "A", Value::I64(2));
    assert_eq!(b.keyed_value("A", ValueKind::I64), Some(Value::I64(2)));
    assert_eq!(b.keyed_value("B", ValueKind::I64), None);
}

#[test]
fn value_kind_mismatch_is_none() {
    let a = with_value(background(), Value::Text("id-7".to_string()));
    assert_eq!(a.value(ValueKind::Text), Some(Value::Text("id-7".to_string())));
    assert_eq!(a.value(ValueKind::U64), None);
    assert_eq!(a.keyed_value("id", ValueKind::Text), None);
}

#[test]
fn value_found_through_cancel_and_deadline() {
    let a = with_value(background(), Value::U64(9));
    let (c, _) = with_cancel(a);
    let (d, _) = with_timeout(c, Span::from_secs(5));
    assert_eq!(d.value(ValueKind::U64), Some(Value::U64(9)));
}

#[test]
fn value_kind_of_each_variant() {
    assert_eq!(Value::I32(1).kind(), ValueKind::I32);
    assert_eq!(Value::Bool(false).kind(), ValueKind::Bool);
    assert_eq!(Value::Text("x".to_string()).duplicate(), Value::Text("x".to_string()));
}

#[test]
fn resolve_cancel_decisions() {
    assert_eq!(resolve_cancel(true, Ok(Async::NotReady)), Err(ContextError::Canceled));
    assert_eq!(
        resolve_cancel(true, Err(ContextError::DeadlineExceeded)),
        Err(ContextError::Canceled)
    );
    assert_eq!(resolve_cancel(false, Ok(Async::NotReady)), Ok(Async::NotReady));
    assert_eq!(
        resolve_cancel(false, Err(ContextError::DeadlineTooLong)),
        Err(ContextError::DeadlineTooLong)
    );
}

#[test]
fn resolve_deadline_decisions() {
    assert_eq!(resolve_deadline(TimerState::Fired), Some(Err(ContextError::DeadlineExceeded)));
    assert_eq!(resolve_deadline(TimerState::Refused), Some(Err(ContextError::DeadlineTooLong)));
    assert_eq!(resolve_deadline(TimerState::Running), None);
}

#[test]
fn span_from_millis_splits_seconds() {
    assert_eq!(Span::from_millis(1_250), Span::new(1, 250_000_000));
    assert_eq!(Span::from_secs(3), Span::new(3, 0));
}

#[test]
fn longest_fitting_timeout_is_scheduled() {
    let (mut ctx, _) = with_timeout(background(), Span::new(409, 599_999_999));
    assert_eq!(ctx.poll(), Ok(Async::NotReady));
    let (mut over, _) = with_timeout(background(), Span::from_millis(409_600));
    assert_eq!(over.poll(), Err(ContextError::DeadlineTooLong));
}

#[test]
fn error_messages() {
    assert_eq!(ContextError::Canceled.message(), "ContextError: context has been canceled");
    assert_eq!(ContextError::DeadlineTooLong.message(), "ContextError: requested deadline too long");
}

#[test]
fn error_descriptions() {
    assert_eq!(ContextError::Canceled.description(), "context has been canceled");
    assert_eq!(ContextError::DeadlineExceeded.description(), "deadline has been exceeded");
    assert_eq!(ContextError::DeadlineTooLong.description(), "requested deadline too long");
}
