//! Real-time pacing: converting wall-clock time into a number of
//! generations to advance.
//!
//! The controller accumulates elapsed time in nanoseconds.  Each tick, as
//! long as the accumulator exceeds one generation period (one second divided
//! by the target generations per second), it emits one generation and
//! subtracts the period — a catch-up scheduler, so a stalled frame advances
//! several generations at once.  While paused nothing is emitted and the
//! elapsed time of the tick is discarded, so unpausing causes no burst.

use vstd::prelude::*;

verus! {

/// One generation period in nanoseconds for a target rate, rounded down.
pub open spec fn period_ns(generations_per_second: u8) -> int
    recommends
        generations_per_second >= 1,
{
    1_000_000_000int / (generations_per_second as int)
}

/// How many whole periods the catch-up loop emits from an accumulator of
/// `acc` nanoseconds: one per subtraction of `p` while the accumulator
/// still exceeds `p`.
pub open spec fn advance_count(acc: int, p: int) -> nat
    recommends
        p >= 1,
    decreases acc,
{
    if p <= 0 || acc <= p {
        0
    } else {
        1 + advance_count(acc - p, p)
    }
}

/// What the catch-up loop leaves in the accumulator: `acc` less one
/// period per emitted generation.
pub open spec fn advance_rem(acc: int, p: int) -> int
    recommends
        p >= 1,
    decreases acc,
{
    if p <= 0 || acc <= p {
        acc
    } else {
        advance_rem(acc - p, p)
    }
}

/// Accumulated elapsed time that has not yet been converted into
/// generations, in nanoseconds.
pub struct PacingController {
    pub accumulated_ns: u64,
}

impl PacingController {
    /// A fresh controller with an empty accumulator.
    pub fn new() -> (c: PacingController)
        ensures
            c.accumulated_ns == 0,
    {
        PacingController { accumulated_ns: 0 }
    }

    /// One frame tick: add the elapsed time to the accumulator (saturating
    /// at the representable maximum) and emit one generation per whole
    /// period the accumulator exceeds.  While paused the tick emits
    /// nothing and discards the elapsed time, leaving the accumulator as
    /// it was.
    pub fn tick(&mut self, elapsed_ns: u64, generations_per_second: u8, paused: bool) -> (n: u64)
        requires
            generations_per_second >= 1,
        ensures
            paused ==> n == 0 && final(self).accumulated_ns == old(self).accumulated_ns,
            !paused ==> {
                let total = old(self).accumulated_ns.saturating_add(elapsed_ns);
                let p = period_ns(generations_per_second);
                &&& n == advance_count(total as int, p)
                &&& final(self).accumulated_ns == advance_rem(total as int, p)
            },
    {
        if paused {
            return 0;
        }
        let total = self.accumulated_ns.saturating_add(elapsed_ns);
        let p: u64 = 1_000_000_000 / (generations_per_second as u64);
        proof {
            vstd::arithmetic::div_mod::lemma_div_non_zero(
                1_000_000_000int,
                generations_per_second as int,
            );
        }
        let mut acc = total;
        let mut n: u64 = 0;
        while acc > p
            invariant
                p == period_ns(generations_per_second),
                p >= 1,
                n <= total - acc,
                advance_count(total as int, p as int) == n + advance_count(acc as int, p as int),
                advance_rem(total as int, p as int) == advance_rem(acc as int, p as int),
            decreases acc,
        {
            acc = acc - p;
            n = n + 1;
        }
        self.accumulated_ns = acc;
        n
    }
}

} // verus!
