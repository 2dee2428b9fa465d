use vstd::prelude::*;
use crate::cancel::WithCancel;
use crate::deadline::{TimerState, WithDeadline, observe_timer, resolve_deadline};
use crate::cancel::resolve_cancel;
use crate::error::{Async, ContextError};
use crate::model::{Shape, Snapshot, agree_below, lemma_resolve_frame};
use crate::value::{Value, ValueKind, WithValue, key_view, value_view};
use std::time::Instant;

verus! {

/// The root of every chain: no parent, no deadline, no value, never completes.
pub struct Background {}

/// One node of a chain of contexts.
pub enum Node {
    Background(Background),
    Cancel(WithCancel),
    Deadline(WithDeadline),
    Value(WithValue),
}

/// A handle to a node; the node's ancestors are reached through it.
pub struct Context {
    pub node: Box<Node>,
    /// The error this handle completed with, once a poll has seen one.
    pub settled: Option<ContextError>,
}

impl Context {
    /// The shape of the chain from this handle up to its root.
    pub open spec fn shape(self) -> Shape
        decreases self,
    {
        match *self.node {
            Node::Background(_) => Shape::Root,
            Node::Cancel(c) => Shape::Cancel(Box::new(c.parent.shape())),
            Node::Deadline(d) => Shape::Deadline(d.when, d.sleep.is_some(), Box::new(d.parent.shape())),
            Node::Value(v) => Shape::Value(key_view(v.key), v.val@, Box::new(v.parent.shape())),
        }
    }
}

/// What one poll does to a handle: a handle that has completed reports the
/// same error again; otherwise the result is an outcome of its chain, and an
/// error is kept for every later poll.
pub open spec fn poll_step(before: Context, after: Context, r: Result<Async, ContextError>) -> bool {
    &&& after@ == before@
    &&& match before.settled {
        Some(e) => r == Err::<Async, ContextError>(e) && after.settled == before.settled,
        None => before@.may_yield(r) && after.settled == match r {
            Err(e) => Some(e),
            Ok(_) => None::<ContextError>,
        },
    }
}

impl View for Context {
    type V = Shape;

    open spec fn view(&self) -> Shape {
        self.shape()
    }
}

impl Context {
    /// A handle to the given node.
    pub fn new(node: Node) -> (r: Context)
        ensures
            *r.node == node,
            r.settled is None,
    {
        Context { node: Box::new(node), settled: None }
    }

    /// The effective deadline: this node's own if it has one, else the
    /// nearest ancestor's.
    pub fn deadline(&self) -> (r: Option<Instant>)
        ensures
            r == self@.deadline(),
        decreases self@.depth(),
    {
        match &*self.node {
            Node::Background(_) => None,
            Node::Cancel(c) => c.parent.deadline(),
            Node::Deadline(d) => match d.own_deadline() {
                Some(w) => Some(w),
                None => d.parent.deadline(),
            },
            Node::Value(v) => v.parent.deadline(),
        }
    }

    /// The nearest value of `kind` stored without a key.
    pub fn value(&self, kind: ValueKind) -> (r: Option<Value>)
        ensures
            value_view(r) == self@.lookup(None, kind),
    {
        self.lookup(&None, kind)
    }

    /// The nearest value of `kind` stored under `key`.
    pub fn keyed_value(&self, key: &str, kind: ValueKind) -> (r: Option<Value>)
        ensures
            value_view(r) == self@.lookup(Some(key@), kind),
    {
        let k = Some(key.to_owned());
        self.lookup(&k, kind)
    }

    /// The nearest value of `kind` whose key is `key`.
    pub fn lookup(&self, key: &Option<String>, kind: ValueKind) -> (r: Option<Value>)
        ensures
            value_view(r) == self@.lookup(key_view(*key), kind),
        decreases self@.depth(),
    {
        match &*self.node {
            Node::Background(_) => None,
            Node::Cancel(c) => c.parent.lookup(key, kind),
            Node::Deadline(d) => d.parent.lookup(key, kind),
            Node::Value(v) => if v.matches(key, kind) {
                Some(v.val.duplicate())
            } else {
                v.parent.lookup(key, kind)
            },
        }
    }

    /// Polls the handle without blocking. Once it has completed it keeps
    /// reporting the same error: completion is one-way and final.
    pub fn poll(&mut self) -> (r: Result<Async, ContextError>)
        ensures
            poll_step(*old(self), *final(self), r),
        decreases old(self)@.depth(), 2nat,
    {
        match self.settled {
            Some(e) => Err(e),
            None => {
                let r = self.poll_chain();
                if let Err(e) = r {
                    self.settled = Some(e);
                }
                r
            },
        }
    }

    /// Polls the chain. A cancel node's trigger is checked before its parent
    /// is polled and once more after the current task has been registered for
    /// wake-up, so a trigger that races with the poll is never lost.
    fn poll_chain(&mut self) -> (r: Result<Async, ContextError>)
        ensures
            final(self)@ == old(self)@,
            final(self).settled == old(self).settled,
            old(self)@.may_yield(r),
        decreases old(self)@.depth(), 1nat,
    {
        match &mut *self.node {
            Node::Background(_root) => {
                let r = Ok(Async::NotReady);
                proof {
                    let s = Snapshot { canceled: Set::empty(), expired: Set::empty(), refused: Set::empty() };
                    assert(old(self)@.resolve(s) == r);
                }
                r
            },
            Node::Cancel(c) => poll_cancel(c),
            Node::Deadline(dl) => poll_deadline(dl),
            Node::Value(v) => {
                let r = v.parent.poll_chain();
                proof {
                    let p = *old(self)@->Value_2;
                    let s0 = choose|s: Snapshot| p.resolve(s) == r;
                    assert(old(self)@.resolve(s0) == r);
                }
                r
            },
        }
    }
}

fn poll_cancel(c: &mut WithCancel) -> (r: Result<Async, ContextError>)
    ensures
        final(c).parent@ == old(c).parent@,
        Shape::Cancel(Box::new(old(c).parent@)).may_yield(r),
    decreases old(c).parent@.depth() + 1, 0nat,
{
    let ghost p = c.parent@;
    let ghost whole = Shape::Cancel(Box::new(p));
    let ghost d = whole.depth();
    if c.is_canceled() {
        let r = Err(ContextError::Canceled);
        proof {
            let s = Snapshot { canceled: set![d], expired: Set::empty(), refused: Set::empty() };
            assert(whole.resolve(s) == r);
        }
        r
    } else {
        let pr = c.parent.poll_chain();
        let mut now_canceled = false;
        if let Ok(Async::NotReady) = pr {
            c.register();
            now_canceled = c.is_canceled();
        }
        let r = resolve_cancel(now_canceled, pr);
        proof {
            let s0 = choose|s: Snapshot| p.resolve(s) == pr;
            let s = Snapshot {
                canceled: if now_canceled { s0.canceled.insert(d) } else { s0.canceled.remove(d) },
                ..s0
            };
            assert(agree_below(s0, s, p.depth()));
            lemma_resolve_frame(p, s0, s);
            assert(whole.resolve(s) == r);
        }
        r
    }
}

fn poll_deadline(dl: &mut WithDeadline) -> (r: Result<Async, ContextError>)
    ensures
        final(dl).parent@ == old(dl).parent@,
        final(dl).when == old(dl).when,
        final(dl).sleep.is_some() == old(dl).sleep.is_some(),
        Shape::Deadline(old(dl).when, old(dl).sleep.is_some(), Box::new(old(dl).parent@)).may_yield(r),
    decreases old(dl).parent@.depth() + 1, 0nat,
{
    let ghost p = dl.parent@;
    let ghost whole = Shape::Deadline(dl.when, dl.sleep.is_some(), Box::new(p));
    let ghost d = whole.depth();
    let timer = observe_timer(&mut dl.sleep);
    match resolve_deadline(timer) {
        Some(r) => {
            proof {
                let s = Snapshot {
                    canceled: Set::empty(),
                    expired: if timer == TimerState::Fired { set![d] } else { Set::empty() },
                    refused: if timer == TimerState::Refused { set![d] } else { Set::empty() },
                };
                assert(whole.resolve(s) == r);
            }
            r
        },
        None => {
            let r = dl.parent.poll_chain();
            proof {
                let s0 = choose|s: Snapshot| p.resolve(s) == r;
                let s = Snapshot { expired: s0.expired.remove(d), refused: s0.refused.remove(d), ..s0 };
                assert(agree_below(s0, s, p.depth()));
                lemma_resolve_frame(p, s0, s);
                assert(whole.resolve(s) == r);
            }
            r
        },
    }
}

/// Returns the root context: it is never canceled and has neither a value
/// nor a deadline.
pub fn background() -> (r: Context)
    ensures
        r@ == Shape::Root,
        r.settled is None,
{
    Context::new(Node::Background(Background {}))
}

} // verus!
