use vstd::prelude::*;
use vstd::arithmetic::div_mod::lemma_add_mod_noop;

verus! {

/// State that the generator starts from.
pub const RANDOM_SEED: u64 = 0x123456789abcdef0;

/// Multiplier of the linear congruential step.
pub const RANDOM_MULTIPLIER: u64 = 2862933555777941757;

/// Increment of the linear congruential step.
pub const RANDOM_INCREMENT: u64 = 3037000493;

/// One step of the generator: `s · a + c` modulo 2⁶⁴.
pub open spec fn next_state(s: u64) -> u64 {
    ((s as int * RANDOM_MULTIPLIER as int + RANDOM_INCREMENT as int) % 0x1_0000_0000_0000_0000) as u64
}

/// Advances the generator held in `state` by one step and returns the new state.
pub fn random(state: &mut u64) -> (r: u64)
    ensures
        *final(state) == next_state(*old(state)),
        r == *final(state),
{
    let product = state.wrapping_mul(RANDOM_MULTIPLIER);
    let next = product.wrapping_add(RANDOM_INCREMENT);
    proof {
        let m = 0x1_0000_0000_0000_0000int;
        let full = *old(state) as int * RANDOM_MULTIPLIER as int;
        lemma_add_mod_noop(full, RANDOM_INCREMENT as int, m);
        lemma_add_mod_noop(product as int, RANDOM_INCREMENT as int, m);
    }
    *state = next;
    next
}

} // verus!
