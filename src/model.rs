use vstd::prelude::*;
use crate::error::{Async, ContextError};
use crate::value::{ValueKind, ValueModel, kind_of};
use std::time::Instant;

verus! {

/// The shape of a chain of contexts, from a handle up to its root.
pub enum Shape {
    Root,
    Cancel(Box<Shape>),
    /// A deadline node: its instant (`None` when it was not representable),
    /// and whether a timer entry was scheduled for it.
    Deadline(Option<Instant>, bool, Box<Shape>),
    Value(Option<Seq<char>>, ValueModel, Box<Shape>),
}

/// What one poll observed at each node of a chain, nodes being named by
/// their distance from the root (the root is at 0).
pub struct Snapshot {
    /// Cancel nodes whose trigger had fired.
    pub canceled: Set<nat>,
    /// Deadline nodes whose timer had fired.
    pub expired: Set<nat>,
    /// Deadline nodes whose timer entry the timer service refused.
    pub refused: Set<nat>,
}

impl Shape {
    pub open spec fn depth(self) -> nat
        decreases self,
    {
        match self {
            Shape::Root => 0,
            Shape::Cancel(p) => p.depth() + 1,
            Shape::Deadline(_, _, p) => p.depth() + 1,
            Shape::Value(_, _, p) => p.depth() + 1,
        }
    }

    /// The effective deadline: the node's own, else the nearest ancestor's.
    pub open spec fn deadline(self) -> Option<Instant>
        decreases self,
    {
        match self {
            Shape::Root => None,
            Shape::Cancel(p) => p.deadline(),
            Shape::Deadline(w, _, p) => match w {
                Some(i) => Some(i),
                None => p.deadline(),
            },
            Shape::Value(_, _, p) => p.deadline(),
        }
    }

    /// Nearest-wins lookup of a value of `kind` stored under `key`.
    pub open spec fn lookup(self, key: Option<Seq<char>>, kind: ValueKind) -> Option<ValueModel>
        decreases self,
    {
        match self {
            Shape::Root => None,
            Shape::Cancel(p) => p.lookup(key, kind),
            Shape::Deadline(_, _, p) => p.lookup(key, kind),
            Shape::Value(k, v, p) => if k == key && kind_of(v) == kind {
                Some(v)
            } else {
                p.lookup(key, kind)
            },
        }
    }

    /// The outcome of a poll of this chain that observed `s`.
    pub open spec fn resolve(self, s: Snapshot) -> Result<Async, ContextError>
        decreases self,
    {
        match self {
            Shape::Root => Ok(Async::NotReady),
            Shape::Cancel(p) => if s.canceled.contains(self.depth()) {
                Err(ContextError::Canceled)
            } else {
                p.resolve(s)
            },
            Shape::Deadline(_, scheduled, p) => if !scheduled {
                Err(ContextError::DeadlineTooLong)
            } else if s.expired.contains(self.depth()) {
                Err(ContextError::DeadlineExceeded)
            } else if s.refused.contains(self.depth()) {
                Err(ContextError::DeadlineTooLong)
            } else {
                p.resolve(s)
            },
            Shape::Value(_, _, p) => p.resolve(s),
        }
    }

    /// Some snapshot explains `r` as an outcome of polling this chain.
    pub open spec fn may_yield(self, r: Result<Async, ContextError>) -> bool {
        exists|s: Snapshot| self.resolve(s) == r
    }
}

/// Two snapshots that agree on the nodes at depth `n` and below.
pub open spec fn agree_below(s1: Snapshot, s2: Snapshot, n: nat) -> bool {
    forall|k: nat| k <= n ==> {
        &&& (s1.canceled.contains(k) <==> s2.canceled.contains(k))
        &&& (s1.expired.contains(k) <==> s2.expired.contains(k))
        &&& (s1.refused.contains(k) <==> s2.refused.contains(k))
    }
}

/// A chain's outcome depends only on what was observed at its own nodes.
pub proof fn lemma_resolve_frame(shape: Shape, s1: Snapshot, s2: Snapshot)
    requires
        agree_below(s1, s2, shape.depth()),
    ensures
        shape.resolve(s1) == shape.resolve(s2),
    decreases shape,
{
    match shape {
        Shape::Root => {},
        Shape::Cancel(p) => { lemma_resolve_frame(*p, s1, s2); },
        Shape::Deadline(_, _, p) => { lemma_resolve_frame(*p, s1, s2); },
        Shape::Value(_, _, p) => { lemma_resolve_frame(*p, s1, s2); },
    }
}

} // verus!
