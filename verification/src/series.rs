//! The arithmetic of the counter: what it holds after a number of steps.

use vstd::prelude::*;

verus! {

/// What step number `index` adds to the counter. Steps are numbered from zero.
pub open spec fn contribution(index: nat) -> int {
    index as int
}

/// The counter after `steps` steps from `seed`: the seed plus the
/// contributions of steps `0 .. steps`.
pub open spec fn prefix_sum(seed: int, steps: nat) -> int
    decreases steps,
{
    if steps == 0 {
        seed
    } else {
        prefix_sum(seed, (steps - 1) as nat) + contribution((steps - 1) as nat)
    }
}

/// The closed form of `prefix_sum`: `seed + steps * (steps - 1) / 2`, stated
/// without the division.
pub proof fn lemma_prefix_sum_closed_form(seed: int, steps: nat)
    ensures
        2 * (prefix_sum(seed, steps) - seed) == steps * (steps - 1),
    decreases steps,
{
    if steps == 0 {
        assert(steps * (steps - 1) == 0) by (nonlinear_arith)
            requires
                steps == 0,
        ;
    } else {
        let k = (steps - 1) as nat;
        lemma_prefix_sum_closed_form(seed, k);
        assert(k * (k - 1) + 2 * k == steps * (steps - 1)) by (nonlinear_arith)
            requires
                steps == k + 1,
        ;
    }
}

/// One more step adds that step's contribution.
pub proof fn lemma_prefix_sum_step(seed: int, steps: nat)
    ensures
        prefix_sum(seed, steps + 1) == prefix_sum(seed, steps) + contribution(steps),
{
    assert((steps + 1 - 1) as nat == steps);
}

/// The counter never decreases: stopping earlier never leaves more.
pub proof fn lemma_prefix_sum_monotonic(seed: int, earlier: nat, later: nat)
    requires
        earlier <= later,
    ensures
        seed <= prefix_sum(seed, earlier) <= prefix_sum(seed, later),
    decreases later,
{
    if later == 0 {
    } else if earlier == later {
        lemma_prefix_sum_monotonic(seed, (earlier - 1) as nat, (later - 1) as nat);
    } else {
        lemma_prefix_sum_monotonic(seed, earlier, (later - 1) as nat);
    }
}

/// A counter that still fits in 64 signed bits has taken fewer than 2^33
/// steps, whatever its seed was.
pub proof fn lemma_steps_bounded(seed: int, steps: nat)
    requires
        i64::MIN <= seed,
        prefix_sum(seed, steps) <= i64::MAX,
    ensures
        steps < 0x2_0000_0000,
{
    lemma_prefix_sum_closed_form(seed, steps);
    if steps >= 0x2_0000_0000 {
        assert(steps * (steps - 1) >= 0x2_0000_0000 * 0x1_ffff_ffff) by (nonlinear_arith)
            requires
                steps >= 0x2_0000_0000,
        ;
    }
}

} // verus!
