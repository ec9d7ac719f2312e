use vstd::prelude::*;
use vstd::arithmetic::div_mod::{
    lemma_add_mod_noop, lemma_small_mod, lemma_mod_bound, lemma_mul_mod_noop_left, lemma_mod_multiples_vanish,
    lemma_sub_mod_noop,
};

verus! {

/// Multiplier of the linear congruential generator.
pub const LCG_MULTIPLIER: u64 = 6364136223846793005;

/// Increment of the linear congruential generator.
pub const LCG_INCREMENT: u64 = 1442695040888963407;

/// One step of the generator: `state * multiplier + increment` modulo 2^64.
pub open spec fn lcg_next(state: u64) -> u64 {
    ((state as int * LCG_MULTIPLIER as int + LCG_INCREMENT as int) % 0x1_0000_0000_0000_0000int) as u64
}

/// The state a generator seeded with `seed` starts from: the seed with its lowest bit set.
pub open spec fn seeded_state(seed: u64) -> u64 {
    seed | 1
}

/// A 64-bit linear congruential pseudo-random generator.
pub struct LcgRng(u64);

impl View for LcgRng {
    type V = u64;

    /// The generator's current state.
    closed spec fn view(&self) -> u64 {
        self.0
    }
}

impl LcgRng {
    /// A generator seeded with `seed`: it starts from the seed with its lowest bit set.
    pub fn new(seed: u64) -> (r: Self)
        ensures
            r@ == seeded_state(seed),
    {
        LcgRng(seed | 1)
    }

    /// Advances the generator one step and returns the new state.
    pub fn next_u64(&mut self) -> (r: u64)
        ensures
            r == lcg_next(old(self)@),
            final(self)@ == r,
    {
        let product = self.0.wrapping_mul(LCG_MULTIPLIER);
        let next = product.wrapping_add(LCG_INCREMENT);
        proof {
            let m = 0x1_0000_0000_0000_0000int;
            let s = old(self)@ as int;
            let a = LCG_MULTIPLIER as int;
            let c = LCG_INCREMENT as int;
            assert(product as int == (s * a) % m);
            lemma_small_mod(c as nat, m as nat);
            lemma_add_mod_noop(s * a, c, m);
            if product as int + c > u64::MAX as int {
                assert(next as int == product as int + c - m);
                lemma_small_mod((product as int + c - m) as nat, m as nat);
                assert(((product as int + c - m) + m) % m == (product as int + c - m)) by {
                    vstd::arithmetic::div_mod::lemma_mod_add_multiples_vanish(product as int + c - m, m);
                }
            } else {
                lemma_small_mod((product as int + c) as nat, m as nat);
            }
        }
        self.0 = next;
        next
    }

    /// Advances the generator and returns the top 53 bits of the new state, the
    /// numerator of a uniform fraction in `[0, 1)` with denominator 2^53.
    pub fn next_fraction_bits(&mut self) -> (r: u64)
        ensures
            r == lcg_next(old(self)@) >> 11u64,
            r < 0x20_0000_0000_0000u64,
            final(self)@ == lcg_next(old(self)@),
    {
        let v = self.next_u64();
        assert(v >> 11u64 < 0x20_0000_0000_0000u64) by (bit_vector);
        v >> 11
    }
}

/// Seeds that differ only in their lowest bit give the same generator, so they
/// produce the same stream of numbers.
pub proof fn lemma_lowest_seed_bit_ignored(seed: u64)
    ensures
        seeded_state(seed) == seeded_state(seed ^ 1u64),
{
    assert((seed | 1u64) == ((seed ^ 1u64) | 1u64)) by (bit_vector);
}

/// Multiplying by the multiplier and then by its inverse modulo 2^64 gives back the
/// number: the multiplier is odd, so it has an inverse.
proof fn lemma_multiplier_undone(a: u64)
    ensures
        ((a as int * LCG_MULTIPLIER as int) % 0x1_0000_0000_0000_0000int * 13877824140714322085int)
            % 0x1_0000_0000_0000_0000int == a as int,
{
    let m = 0x1_0000_0000_0000_0000int;
    let x = a as int * LCG_MULTIPLIER as int;
    lemma_mul_mod_noop_left(x, 13877824140714322085int, m);
    assert(x * 13877824140714322085int == m * (a as int * 4787856489426250814int) + a as int) by (nonlinear_arith)
        requires
            x == a as int * 6364136223846793005int,
            m == 0x1_0000_0000_0000_0000int;
    lemma_mod_multiples_vanish(a as int * 4787856489426250814int, a as int, m);
    lemma_small_mod(a as nat, m as nat);
}

/// One step of the generator is a permutation of the 64-bit states: distinct states
/// always step to distinct states (the multiplier is odd), so two generators give
/// the same next number exactly when they are in the same state.
pub proof fn lemma_lcg_step_injective(a: u64, b: u64)
    ensures
        a != b ==> lcg_next(a) != lcg_next(b),
        a == b ==> lcg_next(a) == lcg_next(b),
{
    let m = 0x1_0000_0000_0000_0000int;
    let c = LCG_INCREMENT as int;
    let xa = a as int * LCG_MULTIPLIER as int;
    let xb = b as int * LCG_MULTIPLIER as int;
    lemma_mod_bound(xa + c, m);
    lemma_mod_bound(xb + c, m);
    lemma_small_mod(c as nat, m as nat);
    lemma_sub_mod_noop(xa + c, c, m);
    lemma_sub_mod_noop(xb + c, c, m);
    lemma_multiplier_undone(a);
    lemma_multiplier_undone(b);
    if lcg_next(a) == lcg_next(b) {
        assert((xa + c) % m == (xb + c) % m);
        assert(xa % m == xb % m);
    }
}

/// Every generator starts from an odd state.
pub proof fn lemma_seeded_state_odd(seed: u64)
    ensures
        seeded_state(seed) % 2 == 1,
{
    assert((seed | 1u64) % 2 == 1) by (bit_vector);
}

} // verus!
