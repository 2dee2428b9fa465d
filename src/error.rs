use vstd::prelude::*;
use vstd::string::StringExecFns;

verus! {

/// The three ways in which a context completes.
#[derive(Debug, Clone, Copy, PartialEq, Eq, Structural)]
pub enum ContextError {
    /// A cancel trigger fired on the context or on one of its ancestors.
    Canceled,
    /// A deadline of the context or of one of its ancestors was reached.
    DeadlineExceeded,
    /// The timer service could not honour the requested deadline.
    DeadlineTooLong,
}

/// Progress of a context that has not failed.
#[derive(Debug, Clone, Copy, PartialEq, Eq, Structural)]
pub enum Async {
    Ready,
    NotReady,
}

pub open spec fn description_of(e: ContextError) -> Seq<char> {
    match e {
        ContextError::Canceled => "context has been canceled"@,
        ContextError::DeadlineExceeded => "deadline has been exceeded"@,
        ContextError::DeadlineTooLong => "requested deadline too long"@,
    }
}

pub open spec fn message_of(e: ContextError) -> Seq<char> {
    "ContextError: "@ + description_of(e)
}

impl ContextError {
    /// The error as a line of text: `ContextError: ` and its description.
    pub fn message(&self) -> (r: String)
        ensures
            r@ == message_of(*self),
    {
        proof { reveal_strlit("ContextError: "); }
        "ContextError: ".to_owned().concat(self.description())
    }

    /// A short human readable description of the error.
    pub fn description(&self) -> (r: &'static str)
        ensures
            r@ == description_of(*self),
    {
        match self {
            ContextError::Canceled => {
                proof { reveal_strlit("context has been canceled"); }
                "context has been canceled"
            },
            ContextError::DeadlineExceeded => {
                proof { reveal_strlit("deadline has been exceeded"); }
                "deadline has been exceeded"
            },
            ContextError::DeadlineTooLong => {
                proof { reveal_strlit("requested deadline too long"); }
                "requested deadline too long"
            },
        }
    }
}

} // verus!
