//! Exponential backoff between retries.

use crate::external::time::{from_nanos, nanos, total_nanos};
use std::time::Duration;
use vstd::arithmetic::power2::{
    lemma_pow2_adds, lemma_pow2_pos, lemma_pow2_unfold, pow2,
};
use vstd::prelude::*;

verus! {

/// Delays that double with each attempt, up to a maximum.
#[derive(Debug, Clone, Copy)]
pub struct ExponentialBackoff {
    pub base_delay: Duration,
    pub max_delay: Duration,
}

/// The delay after so many attempts, in nanoseconds: the base delay doubled once
/// per attempt, and never more than the maximum.
pub open spec fn delay_after(base: nat, max: nat, attempt: nat) -> nat {
    if base * pow2(attempt) < max {
        base * pow2(attempt)
    } else {
        max
    }
}

impl ExponentialBackoff {
    /// The delay before the retry that follows `attempt` earlier ones.
    pub fn next_delay(&self, attempt: u32) -> (delay: Duration)
        ensures
            nanos(delay) == delay_after(
                nanos(self.base_delay),
                nanos(self.max_delay),
                attempt as nat,
            ),
    {
        let base: u128 = total_nanos(self.base_delay);
        let max: u128 = total_nanos(self.max_delay);
        if base == 0 {
            assert(base * pow2(attempt as nat) == 0) by (nonlinear_arith)
                requires
                    base == 0,
            ;
            return if max == 0 {
                self.max_delay
            } else {
                self.base_delay
            };
        }
        let mut delay: u128 = base;
        let mut doubled: u32 = 0;
        proof {
            vstd::arithmetic::power2::lemma2_to64();
        }
        while doubled < attempt && delay < max
            invariant
                doubled <= attempt,
                base == nanos(self.base_delay),
                max == nanos(self.max_delay),
                max < 18446744073709551616 * 1_000_000_000,
                delay == base * pow2(doubled as nat),
            decreases attempt - doubled,
        {
            proof {
                lemma_pow2_unfold((doubled + 1) as nat);
                assert(base * (2 * pow2(doubled as nat)) == 2 * (base * pow2(doubled as nat)))
                    by (nonlinear_arith);
            }
            delay = delay * 2;
            doubled = doubled + 1;
        }
        proof {
            lemma_delay_grows(base as nat, doubled as nat, attempt as nat);
        }
        if delay < max {
            from_nanos(delay)
        } else {
            self.max_delay
        }
    }
}

/// Doubling never makes a delay shorter.
proof fn lemma_delay_grows(base: nat, few: nat, many: nat)
    requires
        few <= many,
    ensures
        base * pow2(few) <= base * pow2(many),
{
    lemma_pow2_pos((many - few) as nat);
    lemma_pow2_adds(few, (many - few) as nat);
    assert(pow2(few) <= pow2(few) * pow2((many - few) as nat)) by (nonlinear_arith)
        requires
            pow2((many - few) as nat) > 0,
    ;
    assert(base * pow2(few) <= base * pow2(many)) by (nonlinear_arith)
        requires
            pow2(few) <= pow2(many),
    ;
}

/// The backoff that retries follow: one second at first, ten at most.
pub fn retry_backoff() -> (backoff: ExponentialBackoff)
    ensures
        nanos(backoff.base_delay) == 1_000_000_000,
        nanos(backoff.max_delay) == 10_000_000_000,
{
    ExponentialBackoff { base_delay: Duration::new(1, 0), max_delay: Duration::new(10, 0) }
}

/// Whatever the attempt, the delay is at most the maximum.
pub proof fn law_delay_is_bounded(base: nat, max: nat, attempt: nat)
    ensures
        delay_after(base, max, attempt) <= max,
{
}

/// The first delay is the base delay, and each further one is twice the one
/// before it, both cut off at the maximum.
pub proof fn law_delay_doubles(base: nat, max: nat, attempt: nat)
    ensures
        delay_after(base, max, 0) == if base < max { base } else { max },
        delay_after(base, max, attempt + 1) == if 2 * delay_after(base, max, attempt) < max {
            2 * delay_after(base, max, attempt)
        } else {
            max
        },
{
    vstd::arithmetic::power2::lemma2_to64();
    assert(base * 1 == base) by (nonlinear_arith);
    lemma_pow2_unfold(attempt + 1);
    assert(base * (2 * pow2(attempt)) == 2 * (base * pow2(attempt))) by (nonlinear_arith);
}

/// Retries wait one second, two, four and eight, and ten from the fifth on.
pub proof fn law_retry_delays(attempt: nat)
    ensures
        delay_after(1_000_000_000, 10_000_000_000, attempt) == if attempt < 4 {
            1_000_000_000 * pow2(attempt)
        } else {
            10_000_000_000
        },
        pow2(0) == 1,
        pow2(1) == 2,
        pow2(2) == 4,
        pow2(3) == 8,
{
    vstd::arithmetic::power2::lemma2_to64();
    if attempt >= 4 {
        lemma_delay_grows(1_000_000_000, 4, attempt);
    }
}

/// A later attempt never waits less than an earlier one.
pub proof fn law_delay_never_shrinks(base: nat, max: nat, earlier: nat, later: nat)
    requires
        earlier <= later,
    ensures
        delay_after(base, max, earlier) <= delay_after(base, max, later),
{
    lemma_delay_grows(base, earlier, later);
}

} // verus!
