use vstd::prelude::*;

verus! {

/// A length of time: whole seconds and a fraction of a second in nanoseconds.
#[derive(Debug, Clone, Copy, PartialEq, Eq, Structural)]
pub struct Span {
    pub secs: u64,
    pub nanos: u32,
}

impl Span {
    /// The fraction stays below one second.
    pub open spec fn wf(self) -> bool {
        self.nanos < 1_000_000_000
    }

    /// The length in whole milliseconds.
    pub open spec fn millis(self) -> int {
        self.secs * 1000 + self.nanos / 1_000_000
    }

    /// `secs` seconds and `nanos` nanoseconds.
    pub fn new(secs: u64, nanos: u32) -> (r: Span)
        requires
            nanos < 1_000_000_000,
        ensures
            r.secs == secs,
            r.nanos == nanos,
            r.wf(),
    {
        Span { secs, nanos }
    }

    /// `secs` whole seconds.
    pub fn from_secs(secs: u64) -> (r: Span)
        ensures
            r.secs == secs,
            r.nanos == 0,
            r.wf(),
    {
        Span { secs, nanos: 0 }
    }

    /// `ms` milliseconds.
    pub fn from_millis(ms: u64) -> (r: Span)
        ensures
            r.wf(),
            r.millis() == ms,
    {
        let secs = ms / 1000;
        let rest = ms % 1000;
        let nanos = (rest * 1_000_000) as u32;
        proof {
            assert(nanos / 1_000_000 == rest) by (nonlinear_arith)
                requires
                    nanos == rest * 1_000_000,
                    rest < 1000,
            ;
            assert(secs * 1000 + rest == ms) by (nonlinear_arith)
                requires
                    secs == ms / 1000,
                    rest == ms % 1000,
            ;
        }
        Span { secs, nanos }
    }
}

} // verus!
