//! A span of time held as whole seconds and a nanosecond remainder.
use vstd::prelude::*;

verus! {

/// Nanoseconds in one second.
pub const NANOS_PER_SEC: u64 = 1_000_000_000;

/// Largest number of nanoseconds that a `Duration` can hold.
pub open spec fn max_nanos() -> nat {
    ((u64::MAX as nat + 1) * (NANOS_PER_SEC as nat) - 1) as nat
}

/// A non-negative span of time with nanosecond precision.
///
/// Its view is the whole span in nanoseconds.
#[derive(Clone, Copy, Debug, PartialEq, Eq, Structural)]
pub struct Duration {
    secs: u64,
    nanos: u32,
}

impl View for Duration {
    type V = nat;

    closed spec fn view(&self) -> nat {
        self.secs as nat * (NANOS_PER_SEC as nat) + self.nanos as nat
    }
}

impl Duration {
    #[verifier::type_invariant]
    spec fn subsecond(self) -> bool {
        self.nanos < NANOS_PER_SEC
    }

    /// The span of `secs` seconds and `nanos` nanoseconds; nanoseconds beyond
    /// a second carry into the seconds.
    pub fn new(secs: u64, nanos: u32) -> (r: Duration)
        requires
            secs as nat * (NANOS_PER_SEC as nat) + nanos as nat <= max_nanos(),
        ensures
            r@ == secs as nat * (NANOS_PER_SEC as nat) + nanos as nat,
    {
        let carry = nanos / (NANOS_PER_SEC as u32);
        let rest = nanos % (NANOS_PER_SEC as u32);
        assert(secs as nat * (NANOS_PER_SEC as nat) + nanos as nat
            == (secs as nat + carry as nat) * (NANOS_PER_SEC as nat) + rest as nat)
            by (nonlinear_arith)
            requires
                carry == nanos / 1_000_000_000u32,
                rest == nanos % 1_000_000_000u32,
        ;
        assert((secs as nat + carry as nat) <= u64::MAX) by (nonlinear_arith)
            requires
                (secs as nat + carry as nat) * 1_000_000_000nat + rest as nat
                    <= (u64::MAX as nat + 1) * 1_000_000_000nat - 1,
        ;
        Duration { secs: secs + carry as u64, nanos: rest }
    }

    /// The span of `secs` whole seconds.
    pub fn from_secs(secs: u64) -> (r: Duration)
        ensures
            r@ == secs as nat * (NANOS_PER_SEC as nat),
    {
        Duration { secs, nanos: 0 }
    }

    /// Whole seconds of the span.
    pub fn as_secs(&self) -> (r: u64)
        ensures
            r as nat == self@ / (NANOS_PER_SEC as nat),
    {
        proof {
            use_type_invariant(self);
            lemma_split(self.secs as nat, self.nanos as nat);
        }
        self.secs
    }

    /// Nanoseconds beyond the whole seconds of the span.
    pub fn subsec_nanos(&self) -> (r: u32)
        ensures
            r as nat == self@ % (NANOS_PER_SEC as nat),
    {
        proof {
            use_type_invariant(self);
            lemma_split(self.secs as nat, self.nanos as nat);
        }
        self.nanos
    }

    /// The whole span in nanoseconds.
    pub fn as_nanos(&self) -> (r: u128)
        ensures
            r as nat == self@,
    {
        proof {
            use_type_invariant(self);
            assert(self.secs as nat * 1_000_000_000nat <= u64::MAX as nat * 1_000_000_000nat)
                by (nonlinear_arith)
                requires
                    self.secs <= u64::MAX,
            ;
        }
        self.secs as u128 * (NANOS_PER_SEC as u128) + self.nanos as u128
    }

    /// The sum of two spans, or `None` where it does not fit.
    pub fn checked_add(self, rhs: Duration) -> (r: Option<Duration>)
        ensures
            self@ + rhs@ <= max_nanos() ==> r.is_some() && r.unwrap()@ == self@ + rhs@,
            self@ + rhs@ > max_nanos() ==> r.is_none(),
    {
        proof {
            use_type_invariant(self);
            use_type_invariant(rhs);
        }
        let mut secs = self.secs as u128 + rhs.secs as u128;
        let mut nanos = self.nanos + rhs.nanos;
        if nanos >= NANOS_PER_SEC as u32 {
            nanos = nanos - NANOS_PER_SEC as u32;
            secs = secs + 1;
        }
        if secs > u64::MAX as u128 {
            None
        } else {
            Some(Duration { secs: secs as u64, nanos })
        }
    }
}

/// Whole seconds and remainder of a span given as seconds and subsecond
/// nanoseconds.
proof fn lemma_split(secs: nat, nanos: nat)
    requires
        nanos < NANOS_PER_SEC,
    ensures
        (secs * (NANOS_PER_SEC as nat) + nanos) / (NANOS_PER_SEC as nat) == secs,
        (secs * (NANOS_PER_SEC as nat) + nanos) % (NANOS_PER_SEC as nat) == nanos,
{
    vstd::arithmetic::div_mod::lemma_fundamental_div_mod_converse(
        (secs * (NANOS_PER_SEC as nat) + nanos) as int,
        NANOS_PER_SEC as int,
        secs as int,
        nanos as int,
    );
}

} // verus!
