use vstd::prelude::*;
use crate::context::{Context, Node};
use crate::error::{Async, ContextError};
use crate::model::Shape;
use futures::task::{AtomicTask, Task};
use std::sync::Arc;
use std::sync::atomic::{AtomicBool, Ordering};

verus! {

#[verifier::external_type_specification]
#[verifier::external_body]
pub struct ExAtomicTask(AtomicTask);

/// Relies on futures' `AtomicTask::new`: an empty waiter slot.
pub assume_specification[ AtomicTask::new ]() -> AtomicTask;

#[verifier::external_type_specification]
#[verifier::external_body]
pub struct ExTask(Task);

/// Relies on futures' `AtomicTask::register_task`: `task` replaces any earlier
/// one and is notified by a later `notify`.
pub assume_specification[ AtomicTask::register_task ](slot: &AtomicTask, task: Task);

/// Relies on futures' `AtomicTask::notify`: wakes the registered task, if any.
pub assume_specification[ AtomicTask::notify ](slot: &AtomicTask);

/// Relies on futures' `task::current`, which panics outside a task: the
/// handle of the running task, or `None` where `task::is_in_task` says that
/// no task runs.
#[verifier::external_body]
fn current_task() -> Option<Task> {
    if futures::task::is_in_task() {
        Some(futures::task::current())
    } else {
        None
    }
}

/// The state that a cancel node shares with its trigger.
pub struct CancelState {
    canceled: AtomicBool,
    waiter: AtomicTask,
}

/// Relies on `Arc::clone`: another handle to the same shared state.
#[verifier::external_body]
fn share(state: &Arc<CancelState>) -> Arc<CancelState> {
    Arc::clone(state)
}

/// A node that can be canceled by its trigger.
pub struct WithCancel {
    pub parent: Context,
    pub state: Arc<CancelState>,
}

impl WithCancel {
    /// Whether the trigger has fired.
    pub fn is_canceled(&self) -> bool {
        self.state.canceled.load(Ordering::SeqCst)
    }

    /// Registers the current task, if there is one, to be woken by the trigger.
    pub fn register(&self) {
        if let Some(task) = current_task() {
            self.state.waiter.register_task(task);
        }
    }
}

/// The trigger of a cancel node. It may be called any number of times, from
/// any thread, and may outlive every handle to its node.
pub struct CancelFn {
    pub state: Arc<CancelState>,
}

impl CancelFn {
    /// Marks the node canceled, then wakes the task waiting on it, if any.
    pub fn cancel(&self) {
        self.state.canceled.store(true, Ordering::SeqCst);
        self.state.waiter.notify();
    }
}

/// The outcome of a cancel node whose flag read `canceled` and whose parent
/// yielded `parent`.
pub fn resolve_cancel(canceled: bool, parent: Result<Async, ContextError>) -> (r: Result<Async, ContextError>)
    ensures
        r == (if canceled { Err(ContextError::Canceled) } else { parent }),
{
    if canceled {
        Err(ContextError::Canceled)
    } else {
        parent
    }
}

/// Returns a child of `parent` that completes when the returned trigger is
/// called or when `parent` completes, whichever happens first.
pub fn with_cancel(parent: Context) -> (r: (Context, CancelFn))
    ensures
        r.0@ == Shape::Cancel(Box::new(parent@)),
        r.0.settled is None,
{
    let state = Arc::new(CancelState { canceled: AtomicBool::new(false), waiter: AtomicTask::new() });
    let trigger = CancelFn { state: share(&state) };
    let node = WithCancel { parent, state };
    (Context::new(Node::Cancel(node)), trigger)
}

} // verus!
