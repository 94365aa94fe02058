use vstd::prelude::*;

verus! {

/// Number of nanoseconds in one second.
pub const NANOS_PER_SEC: u32 = 1_000_000_000;

/// A span of time with nanosecond precision, measured as whole seconds plus
/// the nanoseconds below one second.
#[derive(Clone, Copy, Debug, PartialEq, Eq, Structural)]
pub struct Duration {
    secs: u64,
    nanos: u32,
}

impl View for Duration {
    /// The total length in nanoseconds.
    type V = nat;

    closed spec fn view(&self) -> nat {
        (self.secs * 1_000_000_000 + self.nanos) as nat
    }
}

impl Duration {
    #[verifier::type_invariant]
    closed spec fn inv(self) -> bool {
        self.nanos < NANOS_PER_SEC
    }

    /// Whole seconds of the span.
    pub closed spec fn spec_secs(self) -> nat {
        self.secs as nat
    }

    /// Nanoseconds below one second.
    pub closed spec fn spec_subsec_nanos(self) -> nat {
        self.nanos as nat
    }

    /// Creates a span from seconds and nanoseconds; nanoseconds of one
    /// second or more carry into the seconds.
    pub fn new(secs: u64, nanos: u32) -> (d: Duration)
        requires
            secs + nanos / 1_000_000_000 <= u64::MAX,
        ensures
            d@ == secs * 1_000_000_000 + nanos,
    {
        let extra = nanos / NANOS_PER_SEC;
        Duration { secs: secs + extra as u64, nanos: nanos % NANOS_PER_SEC }
    }

    /// Creates a span of whole seconds.
    pub fn from_secs(secs: u64) -> (d: Duration)
        ensures
            d@ == secs * 1_000_000_000,
            d.spec_secs() == secs,
            d.spec_subsec_nanos() == 0,
    {
        Duration { secs, nanos: 0 }
    }

    /// Creates a span of whole milliseconds.
    pub fn from_millis(millis: u64) -> (d: Duration)
        ensures
            d@ == millis * 1_000_000,
    {
        let secs = millis / 1000;
        let rem = (millis % 1000) as u32;
        Duration { secs, nanos: rem * 1_000_000 }
    }

    /// Whole seconds of the span.
    pub fn as_secs(&self) -> (s: u64)
        ensures
            s == self.spec_secs(),
    {
        self.secs
    }

    /// Nanoseconds below one second.
    pub fn subsec_nanos(&self) -> (n: u32)
        ensures
            n == self.spec_subsec_nanos(),
            n < 1_000_000_000,
    {
        proof { use_type_invariant(self); }
        self.nanos
    }

    /// The span left after taking `rhs` away, zero when `rhs` is longer,
    /// like `Duration::saturating_sub`.
    pub fn saturating_sub(self, rhs: Duration) -> (d: Duration)
        ensures
            d@ == if self@ >= rhs@ { self@ - rhs@ } else { 0 },
    {
        proof {
            use_type_invariant(self);
            use_type_invariant(rhs);
        }
        if self.secs > rhs.secs || (self.secs == rhs.secs && self.nanos >= rhs.nanos) {
            if self.nanos >= rhs.nanos {
                Duration { secs: self.secs - rhs.secs, nanos: self.nanos - rhs.nanos }
            } else {
                Duration { secs: self.secs - rhs.secs - 1, nanos: self.nanos + (NANOS_PER_SEC - rhs.nanos) }
            }
        } else {
            Duration { secs: 0, nanos: 0 }
        }
    }

    /// Whether the span is at least as long as `rhs`.
    pub fn is_at_least(&self, rhs: &Duration) -> (b: bool)
        ensures
            b == (self@ >= rhs@),
    {
        proof {
            use_type_invariant(self);
            use_type_invariant(rhs);
        }
        self.secs > rhs.secs || (self.secs == rhs.secs && self.nanos >= rhs.nanos)
    }

    /// Whole milliseconds of the span, or `u64::MAX` when that number does
    /// not fit in a `u64`.
    pub open spec fn spec_millis_saturating(self) -> u64 {
        if self@ / 1_000_000 <= u64::MAX {
            (self@ / 1_000_000) as u64
        } else {
            u64::MAX
        }
    }

    /// Whole milliseconds of the span, or `u64::MAX` when that number does
    /// not fit in a `u64`.
    pub fn as_millis_saturating(&self) -> (ms: u64)
        ensures
            ms == self.spec_millis_saturating(),
    {
        proof { use_type_invariant(self); }
        let sub = (self.nanos / 1_000_000) as u64;
        if self.secs > (u64::MAX - sub) / 1000 {
            assert(self@ / 1_000_000 > u64::MAX) by (nonlinear_arith)
                requires
                    self.secs > (u64::MAX - sub) / 1000,
                    sub == self.nanos / 1_000_000,
                    self.nanos < 1_000_000_000,
                    self@ == self.secs * 1_000_000_000 + self.nanos,
            ;
            u64::MAX
        } else {
            let ms = self.secs * 1000 + sub;
            assert(self@ / 1_000_000 == self.secs * 1000 + sub) by (nonlinear_arith)
                requires
                    sub == self.nanos / 1_000_000,
                    self.nanos < 1_000_000_000,
                    self@ == self.secs * 1_000_000_000 + self.nanos,
            ;
            ms
        }
    }
}


/// A span made from whole milliseconds reads back as those milliseconds.
pub proof fn lemma_millis_round_trip(d: Duration, millis: u64)
    requires
        d@ == millis * 1_000_000,
    ensures
        d.spec_millis_saturating() == millis,
{
    assert((millis * 1_000_000) / 1_000_000 == millis) by (nonlinear_arith);
}

/// A span of whole seconds reads back as a thousand milliseconds per
/// second, up to `u64::MAX`.
pub proof fn lemma_secs_as_millis(d: Duration, secs: u64)
    requires
        d@ == secs * 1_000_000_000,
    ensures
        d.spec_millis_saturating() == if secs * 1000 <= u64::MAX { (secs * 1000) as u64 } else { u64::MAX },
{
    assert((secs * 1_000_000_000) / 1_000_000 == secs * 1000) by (nonlinear_arith);
}

} // verus!
