use vstd::prelude::*;
use crate::context::{Context, poll_step};
use crate::error::{Async, ContextError};
use crate::model::{Shape, Snapshot};
use crate::value::{ValueKind, ValueModel, kind_of};
use std::time::Instant;

verus! {

/// The parent of a node; the root is its own parent.
pub open spec fn parent_of(shape: Shape) -> Shape {
    match shape {
        Shape::Root => Shape::Root,
        Shape::Cancel(p) => *p,
        Shape::Deadline(_, _, p) => *p,
        Shape::Value(_, _, p) => *p,
    }
}

/// The node at depth `k` of a chain (the handle's own node when `k` is not
/// below it).
pub open spec fn at_depth(shape: Shape, k: nat) -> Shape
    decreases shape.depth(),
{
    if k >= shape.depth() {
        shape
    } else {
        at_depth(parent_of(shape), k)
    }
}

/// What the top node of `shape` decides by itself under `s`, before it would
/// ask its parent.
pub open spec fn own_outcome(shape: Shape, s: Snapshot) -> Option<ContextError> {
    match shape {
        Shape::Cancel(_) => if s.canceled.contains(shape.depth()) {
            Some(ContextError::Canceled)
        } else {
            None
        },
        Shape::Deadline(_, scheduled, _) => if !scheduled {
            Some(ContextError::DeadlineTooLong)
        } else if s.expired.contains(shape.depth()) {
            Some(ContextError::DeadlineExceeded)
        } else if s.refused.contains(shape.depth()) {
            Some(ContextError::DeadlineTooLong)
        } else {
            None
        },
        _ => None,
    }
}

/// Applies a trigger to its cancel node at depth `k`.
pub open spec fn trigger(s: Snapshot, k: nat) -> Snapshot {
    Snapshot { canceled: s.canceled.insert(k), ..s }
}

/// The snapshot after the trigger of the node at depth `k` was called `n` times.
pub open spec fn trigger_times(s: Snapshot, k: nat, n: nat) -> Snapshot
    decreases n,
{
    if n == 0 {
        s
    } else {
        trigger(trigger_times(s, k, (n - 1) as nat), k)
    }
}

proof fn lemma_parent_depth(shape: Shape)
    requires
        shape.depth() > 0,
    ensures
        parent_of(shape).depth() + 1 == shape.depth(),
{
}

proof fn lemma_at_parent(shape: Shape, k: nat)
    requires
        k < shape.depth(),
    ensures
        at_depth(shape, k) == at_depth(parent_of(shape), k),
{
}

proof fn lemma_resolve_step(shape: Shape, s: Snapshot)
    ensures
        own_outcome(shape, s) is Some ==> shape.resolve(s) == Err::<Async, ContextError>(own_outcome(shape, s)->Some_0),
        own_outcome(shape, s) is None && shape.depth() > 0 ==> shape.resolve(s) == parent_of(shape).resolve(s),
        shape.depth() == 0 ==> shape.resolve(s) == Ok::<Async, ContextError>(Async::NotReady),
{
}

/// The root never completes: whatever a poll observed, it is pending.
pub proof fn lemma_background_never_completes(r: Result<Async, ContextError>)
    requires
        Shape::Root.may_yield(r),
    ensures
        r == Ok::<Async, ContextError>(Async::NotReady),
{
}

/// Completion is one-way and final: once a poll of a handle returned an
/// error, the next poll returns the same error, and so on for every later one.
pub proof fn lemma_completion_is_final(
    first: Context,
    second: Context,
    third: Context,
    e: ContextError,
    r: Result<Async, ContextError>,
)
    requires
        poll_step(first, second, Err(e)),
        poll_step(second, third, r),
    ensures
        r == Err::<Async, ContextError>(e),
        third.settled == Some(e),
{
}

/// A fresh root handle is pending on its first poll and stays unsettled, so
/// it is pending on every later poll too.
pub proof fn lemma_fresh_background_pending(
    before: Context,
    after: Context,
    r: Result<Async, ContextError>,
)
    requires
        before@ == Shape::Root,
        before.settled is None,
        poll_step(before, after, r),
    ensures
        r == Ok::<Async, ContextError>(Async::NotReady),
        after@ == Shape::Root,
        after.settled is None,
{
}

/// A value node passes its parent's outcome through unchanged.
pub proof fn lemma_value_passes_through(
    key: Option<Seq<char>>,
    val: ValueModel,
    parent: Shape,
    s: Snapshot,
)
    ensures
        Shape::Value(key, val, Box::new(parent)).resolve(s) == parent.resolve(s),
{
}

/// A cancel node whose trigger has fired reports `Canceled`, whatever state
/// its parent is in: the flag is read before the parent is consulted.
pub proof fn lemma_canceled_node_reports_canceled(parent: Shape, s: Snapshot)
    requires
        s.canceled.contains(parent.depth() + 1),
    ensures
        Shape::Cancel(Box::new(parent)).resolve(s) == Err::<Async, ContextError>(ContextError::Canceled),
{
}

/// Once any ancestor has completed on its own, the chain is never pending
/// again: cancellation and expiry reach every descendant.
pub proof fn lemma_completion_reaches_descendants(shape: Shape, s: Snapshot, k: nat)
    requires
        k <= shape.depth(),
        own_outcome(at_depth(shape, k), s) is Some,
    ensures
        shape.resolve(s) is Err,
    decreases shape.depth(),
{
    lemma_resolve_step(shape, s);
    if own_outcome(shape, s) is None {
        if k == shape.depth() {
            assert(at_depth(shape, k) == shape);
        } else {
            lemma_parent_depth(shape);
            lemma_at_parent(shape, k);
            lemma_completion_reaches_descendants(parent_of(shape), s, k);
        }
    }
}

/// The chain reports exactly the error of its nearest ancestor that completed
/// on its own: the earliest terminal event along the chain wins.
pub proof fn lemma_nearest_completion_wins(shape: Shape, s: Snapshot, k: nat, e: ContextError)
    requires
        k <= shape.depth(),
        own_outcome(at_depth(shape, k), s) == Some(e),
        forall|j: nat| k < j <= shape.depth() ==> own_outcome(#[trigger] at_depth(shape, j), s) is None,
    ensures
        shape.resolve(s) == Err::<Async, ContextError>(e),
    decreases shape.depth(),
{
    lemma_resolve_step(shape, s);
    if k == shape.depth() {
        assert(at_depth(shape, k) == shape);
    } else {
        assert(at_depth(shape, shape.depth()) == shape);
        lemma_parent_depth(shape);
        lemma_at_parent(shape, k);
        assert forall|j: nat| k < j <= parent_of(shape).depth() implies own_outcome(
            #[trigger] at_depth(parent_of(shape), j),
            s,
        ) is None by {
            lemma_at_parent(shape, j);
        }
        lemma_nearest_completion_wins(parent_of(shape), s, k, e);
    }
}

/// A deadline node that has not fired yet leaves the decision to its own
/// cancel node: a trigger called before the deadline yields `Canceled`.
pub proof fn lemma_cancel_before_deadline(parent: Shape, when: Instant, s: Snapshot)
    requires
        s.canceled.contains(parent.depth() + 1),
        !s.expired.contains(parent.depth() + 2),
        !s.refused.contains(parent.depth() + 2),
    ensures
        Shape::Deadline(Some(when), true, Box::new(Shape::Cancel(Box::new(parent)))).resolve(s)
            == Err::<Async, ContextError>(ContextError::Canceled),
{
    let inner = Shape::Cancel(Box::new(parent));
    assert(inner.depth() == parent.depth() + 1);
    assert(inner.resolve(s) == Err::<Async, ContextError>(ContextError::Canceled));
    let outer = Shape::Deadline(Some(when), true, Box::new(inner));
    assert(outer.depth() == parent.depth() + 2);
    assert(outer.resolve(s) == inner.resolve(s));
}

/// A deadline node that no timer entry could be scheduled for reports
/// `DeadlineTooLong` whatever a poll observes, so on every poll.
pub proof fn lemma_unscheduled_deadline_too_long(parent: Shape, when: Option<Instant>, s: Snapshot)
    ensures
        Shape::Deadline(when, false, Box::new(parent)).resolve(s)
            == Err::<Async, ContextError>(ContextError::DeadlineTooLong),
{
}

/// A deadline node whose timer fired reports `DeadlineExceeded`.
pub proof fn lemma_expired_deadline(parent: Shape, when: Instant, s: Snapshot)
    requires
        s.expired.contains(parent.depth() + 1),
    ensures
        Shape::Deadline(Some(when), true, Box::new(parent)).resolve(s)
            == Err::<Async, ContextError>(ContextError::DeadlineExceeded),
{
}

/// Calling a trigger `n >= 1` times leaves the same observable state as
/// calling it once.
pub proof fn lemma_trigger_idempotent(shape: Shape, s: Snapshot, k: nat, n: nat)
    requires
        n >= 1,
    ensures
        trigger_times(s, k, n) == trigger(s, k),
        shape.resolve(trigger_times(s, k, n)) == shape.resolve(trigger(s, k)),
    decreases n,
{
    if n == 1 {
        assert(trigger_times(s, k, 0) == s);
    } else {
        lemma_trigger_idempotent(shape, s, k, (n - 1) as nat);
        assert(trigger(s, k).canceled.insert(k) =~= trigger(s, k).canceled);
        assert(trigger(trigger(s, k), k) == trigger(s, k));
    }
}

/// A value stored nearer to the handle shadows one stored further up under
/// the same key and kind; a lookup under another key passes both by.
pub proof fn lemma_nearest_value_wins(
    parent: Shape,
    key: Option<Seq<char>>,
    first: ValueModel,
    second: ValueModel,
    other: Option<Seq<char>>,
    kind: ValueKind,
)
    requires
        kind_of(first) == kind_of(second),
        other != key,
    ensures
        Shape::Value(key, second, Box::new(Shape::Value(key, first, Box::new(parent)))).lookup(key, kind_of(second))
            == Some(second),
        Shape::Value(key, second, Box::new(Shape::Value(key, first, Box::new(parent)))).lookup(other, kind)
            == parent.lookup(other, kind),
{
    let lower = Shape::Value(key, first, Box::new(parent));
    assert(lower.lookup(other, kind) == parent.lookup(other, kind));
}

} // verus!
