use vstd::arithmetic::power2::lemma2_to64;
use vstd::arithmetic::power2::lemma_pow2_strictly_increases;
use vstd::arithmetic::power2::lemma_pow2_unfold;
use vstd::arithmetic::power2::pow2;
use vstd::prelude::*;

verus! {

/// The floor of the base-two logarithm of `num`: the largest `pow` with
/// `2^pow <= num`. Callers use it for parallel-depth calculations; `num == 0`
/// has no such exponent and is excluded.
pub fn log2_floor(num: usize) -> (pow: u32)
    requires
        num >= 1,
    ensures
        pow2(pow as nat) <= num as nat,
        (num as nat) < pow2((pow + 1) as nat),
{
    let mut pow: u32 = 0;
    let mut p: usize = 1;
    proof {
        assert(pow2(0) == 1) by {
            lemma2_to64();
        }
    }
    while p <= num / 2
        invariant
            1 <= num,
            1 <= p,
            p as nat == pow2(pow as nat),
            p <= num,
        decreases num - p,
    {
        proof {
            assert(p * 2 <= num);
            assert(pow < 64) by {
                if pow >= 64 {
                    if pow > 64 {
                        lemma_pow2_strictly_increases(64, pow as nat);
                    }
                    assert(pow2(64) <= pow2(pow as nat));
                    assert(pow2(64) > usize::MAX as nat) by {
                        lemma2_to64();
                    }
                }
            }
            lemma_pow2_unfold((pow + 1) as nat);
        }
        p = p * 2;
        pow = pow + 1;
    }
    proof {
        lemma_pow2_unfold((pow + 1) as nat);
    }
    pow
}

/// Law: the contract of `log2_floor` admits one answer only — any exponent
/// whose power of two reaches `n` while the next power exceeds it is the
/// floor of the base-two logarithm of `n`.
pub proof fn lemma_log2_floor_unique(n: nat, p1: nat, p2: nat)
    requires
        pow2(p1) <= n < pow2(p1 + 1),
        pow2(p2) <= n < pow2(p2 + 1),
    ensures
        p1 == p2,
{
    if p1 + 1 < p2 {
        lemma_pow2_strictly_increases(p1 + 1, p2);
    }
    if p2 + 1 < p1 {
        lemma_pow2_strictly_increases(p2 + 1, p1);
    }
}

} // verus!
