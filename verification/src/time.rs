//! Spans of time.
//!
//! [`Duration`] holds whole seconds and the nanoseconds below a second, as
//! `std::time::Duration` does, and offers the operations the services
//! compute with: construction from seconds or milliseconds, conversion to
//! milliseconds, saturating multiplication and the smaller of two spans.
//! Its view is the span in nanoseconds.

use vstd::prelude::*;

verus! {

/// Nanoseconds in one second.
pub const NANOS_PER_SEC: u32 = 1_000_000_000;

/// Nanoseconds in one millisecond.
pub const NANOS_PER_MILLI: u32 = 1_000_000;

/// The longest span a [`Duration`] can hold, in nanoseconds.
pub open spec fn max_nanos() -> nat {
    (u64::MAX as nat) * 1_000_000_000 + 999_999_999
}

/// A span of time: whole seconds plus the nanoseconds below a second.
#[derive(Clone, Copy, Debug, PartialEq, Eq, Structural)]
pub struct Duration {
    secs: u64,
    nanos: u32,
}

impl View for Duration {
    type V = nat;

    /// The span in nanoseconds.
    closed spec fn view(&self) -> nat {
        (self.secs as nat) * 1_000_000_000 + self.nanos as nat
    }
}

impl Duration {
    /// The nanosecond part is below one second, as for every span this
    /// module hands out.
    pub closed spec fn is_normal(self) -> bool {
        self.nanos < NANOS_PER_SEC
    }

    #[verifier::type_invariant]
    spec fn well_formed(self) -> bool {
        self.is_normal()
    }

    /// `secs` seconds plus `nanos` nanoseconds; nanoseconds beyond a second
    /// carry into the seconds.
    pub fn new(secs: u64, nanos: u32) -> (d: Duration)
        requires
            secs + nanos / 1_000_000_000 <= u64::MAX,
        ensures
            d@ == secs * 1_000_000_000 + nanos,
            d.is_normal(),
    {
        let extra = (nanos / NANOS_PER_SEC) as u64;
        let rest = nanos % NANOS_PER_SEC;
        assert(nanos == extra * 1_000_000_000 + rest);
        let d = Duration { secs: secs + extra, nanos: rest };
        assert(d@ == secs * 1_000_000_000 + nanos) by (nonlinear_arith)
            requires
                d@ == (secs + extra) * 1_000_000_000 + rest,
                nanos == extra * 1_000_000_000 + rest,
        ;
        d
    }

    /// A span of `secs` whole seconds.
    pub fn from_secs(secs: u64) -> (d: Duration)
        ensures
            d@ == secs * 1_000_000_000,
            d.is_normal(),
    {
        Duration { secs, nanos: 0 }
    }

    /// A span of `millis` milliseconds.
    pub fn from_millis(millis: u64) -> (d: Duration)
        ensures
            d@ == millis * 1_000_000,
            d.is_normal(),
    {
        let secs = millis / 1000;
        let rest = (millis % 1000) as u32;
        let nanos = rest * NANOS_PER_MILLI;
        let d = Duration { secs, nanos };
        assert(d@ == millis * 1_000_000) by (nonlinear_arith)
            requires
                d@ == secs * 1_000_000_000 + nanos,
                nanos == rest * 1_000_000,
                millis == secs * 1000 + rest,
        ;
        d
    }

    /// Whole seconds of the span.
    pub fn as_secs(&self) -> (r: u64)
        ensures
            r == self@ / 1_000_000_000,
    {
        proof {
            use_type_invariant(self);
            lemma_split(self.secs as int, self.nanos as int);
        }
        self.secs
    }

    /// Nanoseconds of the span below the whole seconds.
    pub fn subsec_nanos(&self) -> (r: u32)
        ensures
            r == self@ % 1_000_000_000,
    {
        proof {
            use_type_invariant(self);
            lemma_split(self.secs as int, self.nanos as int);
        }
        self.nanos
    }

    /// The span in whole milliseconds, rounded down.
    pub fn as_millis(&self) -> (r: u128)
        ensures
            r == self@ / 1_000_000,
    {
        proof {
            use_type_invariant(self);
        }
        let r = (self.secs as u128) * 1000 + ((self.nanos / NANOS_PER_MILLI) as u128);
        let ghost s = self.secs as int;
        let ghost n = self.nanos as int;
        assert(r == (s * 1_000_000_000 + n) / 1_000_000) by {
            assert(n / 1_000_000 < 1000);
            assert((s * 1_000_000_000 + n) / 1_000_000 == s * 1000 + n / 1_000_000) by {
                vstd::arithmetic::div_mod::lemma_fundamental_div_mod(n, 1_000_000);
                vstd::arithmetic::div_mod::lemma_fundamental_div_mod_converse(
                    s * 1_000_000_000 + n,
                    1_000_000,
                    s * 1000 + n / 1_000_000,
                    n % 1_000_000,
                );
            }
        }
        r
    }

    /// The span multiplied by `rhs`, or the longest span when the product
    /// does not fit.
    pub fn saturating_mul(self, rhs: u32) -> (d: Duration)
        ensures
            d@ == if self@ * (rhs as nat) <= max_nanos() {
                self@ * (rhs as nat)
            } else {
                max_nanos()
            },
            d.is_normal(),
    {
        proof {
            use_type_invariant(self);
            assert((self.nanos as u64) * (rhs as u64) <= 1_000_000_000 * 0x1_0000_0000) by (nonlinear_arith)
                requires
                    self.nanos < 1_000_000_000,
                    rhs <= u32::MAX,
            ;
        }
        let total_nanos = (self.nanos as u64) * (rhs as u64);
        let extra_secs = total_nanos / (NANOS_PER_SEC as u64);
        let nanos = (total_nanos % (NANOS_PER_SEC as u64)) as u32;
        let ghost s = self.secs as int;
        let ghost n = self.nanos as int;
        let ghost r = rhs as int;
        proof {
            lemma_mul_split(s, n, r);
        }
        match self.secs.checked_mul(rhs as u64) {
            Some(scaled) => match scaled.checked_add(extra_secs) {
                Some(secs) => {
                    let d = Duration { secs, nanos };
                    proof {
                        lemma_split(secs as int, nanos as int);
                    }
                    assert(d@ == self@ * (rhs as nat));
                    d
                },
                None => {
                    proof {
                        lemma_past_max(s * r + n * r / 1_000_000_000, n * r % 1_000_000_000);
                    }
                    Duration::max()
                },
            },
            None => {
                proof {
                    assert(n * r / 1_000_000_000 >= 0) by {
                        vstd::arithmetic::div_mod::lemma_div_pos_is_pos(n * r, 1_000_000_000);
                    }
                    lemma_past_max(s * r + n * r / 1_000_000_000, n * r % 1_000_000_000);
                }
                Duration::max()
            },
        }
    }

    /// The longest span.
    pub fn max() -> (d: Duration)
        ensures
            d@ == max_nanos(),
            d.is_normal(),
    {
        Duration { secs: u64::MAX, nanos: NANOS_PER_SEC - 1 }
    }

    /// The shorter of `self` and `other`; `self` when they are equal.
    pub fn min(self, other: Duration) -> (d: Duration)
        ensures
            d@ == if self@ <= other@ {
                self@
            } else {
                other@
            },
            d == self || d == other,
            d.is_normal(),
    {
        proof {
            use_type_invariant(self);
            use_type_invariant(other);
            lemma_lex_order(self.secs as int, self.nanos as int, other.secs as int, other.nanos as int);
        }
        if self.secs < other.secs || (self.secs == other.secs && self.nanos <= other.nanos) {
            self
        } else {
            other
        }
    }
}

/// A span built from milliseconds gives back the same milliseconds, and one
/// built from seconds gives back the same seconds.
pub proof fn lemma_round_trips(ms: nat, secs: nat)
    ensures
        (ms * 1_000_000) / 1_000_000 == ms,
        (secs * 1_000_000_000) / 1_000_000_000 == secs,
        (secs * 1_000_000_000) % 1_000_000_000 == 0,
{
    vstd::arithmetic::div_mod::lemma_fundamental_div_mod_converse(
        (ms * 1_000_000) as int,
        1_000_000int,
        ms as int,
        0int,
    );
    vstd::arithmetic::div_mod::lemma_fundamental_div_mod_converse(
        (secs * 1_000_000_000) as int,
        1_000_000_000int,
        secs as int,
        0int,
    );
}

/// A span splits uniquely into whole seconds and the nanoseconds below a
/// second, and is no longer than the longest span.
proof fn lemma_split(s: int, n: int)
    requires
        0 <= s <= u64::MAX,
        0 <= n < 1_000_000_000,
    ensures
        (s * 1_000_000_000 + n) / 1_000_000_000 == s,
        (s * 1_000_000_000 + n) % 1_000_000_000 == n,
        s * 1_000_000_000 + n <= max_nanos(),
{
    assert(s * 1_000_000_000 <= (u64::MAX as int) * 1_000_000_000) by (nonlinear_arith)
        requires
            s <= u64::MAX,
    ;
    vstd::arithmetic::div_mod::lemma_fundamental_div_mod_converse(
        s * 1_000_000_000 + n,
        1_000_000_000int,
        s,
        n,
    );
}

/// Two normal spans of the same length are the same value.
pub proof fn lemma_equal_views(a: Duration, b: Duration)
    requires
        a.is_normal(),
        b.is_normal(),
        a@ == b@,
    ensures
        a == b,
{
    lemma_split(a.secs as int, a.nanos as int);
    lemma_split(b.secs as int, b.nanos as int);
}

/// Scaling a span splits into scaled seconds plus the carry out of the
/// scaled nanoseconds.
proof fn lemma_mul_split(s: int, n: int, r: int)
    requires
        0 <= s,
        0 <= n < 1_000_000_000,
        0 <= r,
    ensures
        (s * 1_000_000_000 + n) * r == (s * r + (n * r) / 1_000_000_000) * 1_000_000_000 + (n * r)
            % 1_000_000_000,
        0 <= (n * r) % 1_000_000_000 < 1_000_000_000,
        0 <= (n * r) / 1_000_000_000,
{
    assert(n * r >= 0) by (nonlinear_arith)
        requires
            0 <= n,
            0 <= r,
    ;
    vstd::arithmetic::div_mod::lemma_fundamental_div_mod(n * r, 1_000_000_000);
    vstd::arithmetic::div_mod::lemma_mod_bound(n * r, 1_000_000_000);
    vstd::arithmetic::div_mod::lemma_div_pos_is_pos(n * r, 1_000_000_000);
    assert((s * 1_000_000_000 + n) * r == s * r * 1_000_000_000 + n * r) by (nonlinear_arith);
    assert((s * r + (n * r) / 1_000_000_000) * 1_000_000_000 == s * r * 1_000_000_000 + ((n * r)
        / 1_000_000_000) * 1_000_000_000) by (nonlinear_arith);
}

/// A span whose whole seconds exceed `u64::MAX` is past the longest span.
proof fn lemma_past_max(secs: int, nanos: int)
    requires
        secs > u64::MAX,
        0 <= nanos,
    ensures
        secs * 1_000_000_000 + nanos > max_nanos(),
{
    assert(secs * 1_000_000_000 >= (u64::MAX as int + 1) * 1_000_000_000) by (nonlinear_arith)
        requires
            secs >= u64::MAX as int + 1,
    ;
}

/// Spans compare as their (seconds, nanoseconds) pairs compare.
proof fn lemma_lex_order(s1: int, n1: int, s2: int, n2: int)
    requires
        0 <= n1 < 1_000_000_000,
        0 <= n2 < 1_000_000_000,
    ensures
        (s1 * 1_000_000_000 + n1 <= s2 * 1_000_000_000 + n2) == (s1 < s2 || (s1 == s2 && n1
            <= n2)),
{
    if s1 < s2 {
        assert(s1 * 1_000_000_000 + 1_000_000_000 <= s2 * 1_000_000_000) by (nonlinear_arith)
            requires
                s1 < s2,
        ;
    } else if s1 > s2 {
        assert(s2 * 1_000_000_000 + 1_000_000_000 <= s1 * 1_000_000_000) by (nonlinear_arith)
            requires
                s2 < s1,
        ;
    }
}

} // verus!
