//! Points in time and the spans between them, in whole nanoseconds.

use vstd::prelude::*;

use crate::word::Word256;

verus! {

/// The nanoseconds in a second.
pub const NANOS_PER_SEC: u32 = 1_000_000_000;

/// A point in time: seconds since the epoch, and nanoseconds into the second.
#[derive(Clone, Copy, Debug, PartialEq, Eq, Hash, Structural)]
pub struct Instant {
    secs: i64,
    nanos: u32,
}

/// A length of time that is not negative.
#[derive(Clone, Copy, Debug, PartialEq, Eq, Hash, Structural)]
pub struct Span {
    secs: u64,
    nanos: u32,
}

impl View for Instant {
    type V = int;

    /// Nanoseconds since the epoch.
    closed spec fn view(&self) -> int {
        self.secs * 1_000_000_000 + self.nanos
    }
}

impl View for Span {
    type V = nat;

    /// The length in nanoseconds.
    closed spec fn view(&self) -> nat {
        (self.secs * 1_000_000_000 + self.nanos) as nat
    }
}

/// What is left until a deadline, in nanoseconds; nothing once it has passed.
pub open spec fn remaining_nanos(deadline: int, now: int) -> nat {
    if deadline > now {
        (deadline - now) as nat
    } else {
        0
    }
}

impl Instant {
    /// The nanoseconds into the second are below a second.
    #[verifier::type_invariant]
    closed spec fn wf(self) -> bool {
        self.nanos < NANOS_PER_SEC
    }

    /// The nanoseconds into the second.
    pub closed spec fn nanos_spec(self) -> u32 {
        self.nanos
    }

    /// Two instants at the same nanosecond, each with less than a second of
    /// nanoseconds, are the same instant.
    pub proof fn lemma_same(a: Instant, b: Instant)
        requires
            a@ == b@,
            a.nanos_spec() < NANOS_PER_SEC,
            b.nanos_spec() < NANOS_PER_SEC,
        ensures
            a == b,
    {
    }

    /// The instant `nanos` nanoseconds after the second `secs`. Whole seconds
    /// among the nanoseconds count as seconds. There is none if that takes
    /// the seconds out of range.
    pub fn new(secs: i64, nanos: u32) -> (r: Option<Instant>)
        ensures
            r is Some <==> secs + nanos / NANOS_PER_SEC <= i64::MAX,
            r matches Some(t) ==> t@ == secs * 1_000_000_000 + nanos && t.nanos_spec()
                < NANOS_PER_SEC,
    {
        let carry: i64 = (nanos / NANOS_PER_SEC) as i64;
        if secs > i64::MAX - carry {
            None
        } else {
            Some(Instant { secs: secs + carry, nanos: nanos % NANOS_PER_SEC })
        }
    }

    /// The start of the second that a ledger timestamp names, if the
    /// timestamp is in range.
    pub fn from_timestamp(seconds: &Word256) -> (r: Option<Instant>)
        ensures
            r is Some <==> seconds@ <= i64::MAX,
            r matches Some(t) ==> t@ == seconds@ * 1_000_000_000 && t.nanos_spec() == 0,
    {
        match seconds.to_u64() {
            Some(s) => if s <= i64::MAX as u64 {
                Some(Instant { secs: s as i64, nanos: 0 })
            } else {
                None
            },
            None => None,
        }
    }

    /// The whole seconds since the epoch.
    pub fn secs(&self) -> (s: i64)
        ensures
            s * 1_000_000_000 <= self@ < (s + 1) * 1_000_000_000,
    {
        proof {
            use_type_invariant(self);
        }
        self.secs
    }

    /// Whether this instant is before the other.
    pub fn is_before(&self, other: &Instant) -> (r: bool)
        ensures
            r == (self@ < other@),
    {
        proof {
            use_type_invariant(self);
            use_type_invariant(other);
        }
        self.secs < other.secs || (self.secs == other.secs && self.nanos < other.nanos)
    }

    /// What is left from `now` until this instant: nothing if it has passed.
    pub fn remaining(&self, now: &Instant) -> (span: Span)
        ensures
            span@ == remaining_nanos(self@, now@),
            span == Span::of(remaining_nanos(self@, now@)),
    {
        proof {
            use_type_invariant(self);
            use_type_invariant(now);
        }
        if !now.is_before(self) {
            return Span { secs: 0, nanos: 0 };
        }
        let billion: i128 = 1_000_000_000;
        let total: i128 = (self.secs as i128 - now.secs as i128) * billion + (self.nanos as i128
            - now.nanos as i128);
        assert(total == self@ - now@);
        let secs: i128 = total / billion;
        let nanos: i128 = total % billion;
        assert(secs <= self.secs - now.secs);
        Span { secs: secs as u64, nanos: nanos as u32 }
    }
}

impl Span {
    /// The nanoseconds beyond the whole seconds are below a second.
    #[verifier::type_invariant]
    closed spec fn wf(self) -> bool {
        self.nanos < NANOS_PER_SEC
    }

    /// The span of the given length; meaningful below `2^64` seconds.
    pub closed spec fn of(nanos: nat) -> Span {
        Span { secs: (nanos / 1_000_000_000) as u64, nanos: (nanos % 1_000_000_000) as u32 }
    }

    /// No time at all.
    pub fn zero() -> (span: Span)
        ensures
            span@ == 0,
            span == Span::of(0),
    {
        Span { secs: 0, nanos: 0 }
    }

    /// Whether the span is empty.
    pub fn is_zero(&self) -> (r: bool)
        ensures
            r == (self@ == 0),
    {
        self.secs == 0 && self.nanos == 0
    }

    /// The whole seconds of the span.
    pub fn secs(&self) -> (s: u64)
        ensures
            s == self@ / 1_000_000_000,
    {
        proof {
            use_type_invariant(self);
        }
        self.secs
    }

    /// The nanoseconds beyond the whole seconds.
    pub fn subsec_nanos(&self) -> (n: u32)
        ensures
            n == self@ % 1_000_000_000,
            n < NANOS_PER_SEC,
    {
        proof {
            use_type_invariant(self);
        }
        self.nanos
    }
}

} // verus!
