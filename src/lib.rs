//! Request-scoped contexts: a tree of handles that carry cancellation, an
//! optional deadline and immutable values down a chain of calls.

mod cancel;
mod context;
mod deadline;
mod error;
pub mod laws;
mod model;
mod span;
mod value;

pub use cancel::{CancelFn, CancelState, WithCancel, resolve_cancel, with_cancel};
pub use context::{Background, Context, Node, background};
pub use deadline::{MAX_TIMER_MILLIS, TimerState, WithDeadline, resolve_deadline, with_deadline, with_timeout};
pub use error::{Async, ContextError};
pub use model::{Shape, Snapshot};
pub use span::Span;
pub use value::{Value, ValueKind, ValueModel, WithValue, with_keyed_value, with_value};
