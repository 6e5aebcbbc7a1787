//! Reconnect policy: exponential backoff from a base delay, doubling per
//! consecutive failure up to a cap, reset after a sustained session.
use vstd::arithmetic::power2::{lemma_pow2_pos, pow2};
use vstd::prelude::*;

verus! {

/// Base delay, and the most doublings a delay may get.
#[derive(Clone, Copy, Debug, PartialEq, Eq, Structural)]
pub struct BackoffPolicy {
    pub base_delay_ms: u64,
    pub max_doublings: u32,
}

pub open spec fn min_nat(a: nat, b: nat) -> nat {
    if a <= b {
        a
    } else {
        b
    }
}

/// The delay before retrying after `failures` consecutive failures (at least
/// one): the base delay doubled once per failure after the first, at most
/// `max_doublings` times, and saturated at `u64::MAX`.
pub open spec fn backoff_delay(p: BackoffPolicy, failures: nat) -> nat {
    min_nat(p.base_delay_ms as nat * pow2(min_nat((failures - 1) as nat, p.max_doublings as nat)), u64::MAX as nat)
}

proof fn lemma_double(base: nat, i: nat, d: nat)
    requires
        d == min_nat(base * pow2(i), u64::MAX as nat),
    ensures
        min_nat(d * 2, u64::MAX as nat) == min_nat(base * pow2(i + 1), u64::MAX as nat),
{
    vstd::arithmetic::power2::lemma_pow2_unfold(i + 1);
    lemma_pow2_pos(i);
    assert(base * pow2(i + 1) == (base * pow2(i)) * 2) by (nonlinear_arith)
        requires
            pow2(i + 1) == 2 * pow2(i),
    ;
}

proof fn lemma_saturated(base: nat, i: nat, j: nat)
    requires
        i <= j,
        base * pow2(i) >= u64::MAX as nat,
    ensures
        base * pow2(j) >= u64::MAX as nat,
    decreases j - i,
{
    if i < j {
        lemma_saturated(base, i, (j - 1) as nat);
        vstd::arithmetic::power2::lemma_pow2_unfold(j);
        assert(base * pow2(j) == (base * pow2((j - 1) as nat)) * 2) by (nonlinear_arith)
            requires
                pow2(j) == 2 * pow2((j - 1) as nat),
        ;
    }
}

impl BackoffPolicy {
    /// The delay after `failures` consecutive failures, as `backoff_delay`.
    pub fn delay_ms(&self, failures: u32) -> (r: u64)
        requires
            failures >= 1,
        ensures
            r == backoff_delay(*self, failures as nat),
    {
        let doublings: u32 = if failures - 1 < self.max_doublings {
            failures - 1
        } else {
            self.max_doublings
        };
        let mut d: u64 = self.base_delay_ms;
        let mut i: u32 = 0;
        proof {
            assert(pow2(0) == 1) by {
                vstd::arithmetic::power2::lemma2_to64();
            }
        }
        while i < doublings
            invariant
                i <= doublings,
                failures >= 1,
                doublings as nat == min_nat((failures - 1) as nat, self.max_doublings as nat),
                d == min_nat(self.base_delay_ms as nat * pow2(i as nat), u64::MAX as nat),
            decreases doublings - i,
        {
            if d == u64::MAX {
                proof {
                    lemma_saturated(self.base_delay_ms as nat, i as nat, doublings as nat);
                }
                return u64::MAX;
            }
            proof {
                lemma_double(self.base_delay_ms as nat, i as nat, d as nat);
            }
            d = if d > u64::MAX / 2 {
                u64::MAX
            } else {
                d * 2
            };
            i = i + 1;
        }
        d
    }
}

} // verus!
