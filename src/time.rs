use vstd::prelude::*;
use vstd::arithmetic::div_mod::lemma_div_denominator;
use vstd::arithmetic::power2::{pow2, lemma_pow2_pos, lemma_pow2_unfold, lemma_pow2_strictly_increases, lemma2_to64_rest, lemma2_to64};

verus! {

pub const NANOS_PER_SEC: i128 = 1_000_000_000;

/// The largest base-2 logarithm of an interval (in seconds) that a [`Duration`] can hold.
pub const MAX_LOG_INTERVAL: i8 = 63;

/// Nanoseconds in an interval of `2^log` seconds, rounded down.
pub open spec fn log_interval_nanos(log: int) -> int {
    if log >= 0 {
        (NANOS_PER_SEC as int) * pow2(log as nat)
    } else {
        (NANOS_PER_SEC as int) / (pow2((-log) as nat) as int)
    }
}

pub proof fn lemma_log_interval_bounds(log: int)
    requires
        log <= MAX_LOG_INTERVAL,
    ensures
        0 <= log_interval_nanos(log) <= 0x8000_0000_0000_0000 * 1_000_000_000,
{
    lemma2_to64_rest();
    if log >= 0 {
        if log < 63 {
            lemma_pow2_strictly_increases(log as nat, 63);
        }
    } else {
        lemma_pow2_pos((-log) as nat);
        assert((NANOS_PER_SEC as int) / (pow2((-log) as nat) as int) <= NANOS_PER_SEC as int)
            by (nonlinear_arith)
            requires
                pow2((-log) as nat) > 0,
        ;
        assert((NANOS_PER_SEC as int) / (pow2((-log) as nat) as int) >= 0) by (nonlinear_arith)
            requires
                pow2((-log) as nat) > 0,
        ;
    }
}

/// A signed span of time, in whole nanoseconds.
#[derive(Clone, Copy, Debug, PartialEq, Eq, Structural)]
pub struct Duration {
    pub nanos: i128,
}

impl Duration {
    pub fn zero() -> (r: Duration)
        ensures
            r.nanos == 0,
    {
        Duration { nanos: 0 }
    }

    pub fn from_nanos(nanos: i128) -> (r: Duration)
        ensures
            r.nanos == nanos,
    {
        Duration { nanos }
    }

    /// The interval of `2^log` seconds that PTP messages encode as a log interval.
    pub fn from_log_interval(log: i8) -> (r: Duration)
        requires
            log <= MAX_LOG_INTERVAL,
        ensures
            r.nanos == log_interval_nanos(log as int),
    {
        if log >= 0 {
            let mut n: i128 = NANOS_PER_SEC;
            let mut i: i8 = 0;
            proof {
                if log < 63 {
                    lemma_pow2_strictly_increases(log as nat, 63);
                }
                lemma2_to64_rest();
                lemma2_to64();
            }
            while i < log
                invariant
                    0 <= i <= log <= 63,
                    n == (NANOS_PER_SEC as int) * pow2(i as nat),
                    pow2(log as nat) <= 0x8000_0000_0000_0000,
                decreases log - i,
            {
                proof {
                    if i + 1 < log {
                        lemma_pow2_strictly_increases((i + 1) as nat, log as nat);
                    }
                    lemma_pow2_unfold((i + 1) as nat);
                }
                n = n * 2;
                i = i + 1;
            }
            Duration { nanos: n }
        } else {
            let k: i16 = -(log as i16);
            proof {
                lemma2_to64();
                assert((NANOS_PER_SEC as int) / 1 == NANOS_PER_SEC as int);
            }
            let mut n: i128 = NANOS_PER_SEC;
            let mut i: i16 = 0;
            while i < k
                invariant
                    0 <= i <= k <= 128,
                    n == (NANOS_PER_SEC as int) / (pow2(i as nat) as int),
                    n >= 0,
                decreases k - i,
            {
                proof {
                    lemma_pow2_pos(i as nat);
                    lemma_div_denominator(NANOS_PER_SEC as int, pow2(i as nat) as int, 2);
                    assert(NANOS_PER_SEC as int / pow2(i as nat) as int >= 0) by (nonlinear_arith) requires pow2(i as nat) > 0;
                    lemma_pow2_unfold((i + 1) as nat);
                }
                n = n / 2;
                i = i + 1;
            }
            Duration { nanos: n }
        }
    }
}

} // verus!
