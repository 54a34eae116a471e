//! A 32-bit linear congruential generator.
use vstd::prelude::*;

verus! {

/// Multiplier of the generator (Knuth / Numerical Recipes).
pub const LCG_MULTIPLIER: u32 = 1664525;

/// Increment of the generator.
pub const LCG_INCREMENT: u32 = 1013904223;

/// One step of the generator: `(s * 1664525 + 1013904223) mod 2^32`.
pub open spec fn lcg_step(s: u32) -> u32 {
    ((s as int * 1664525 + 1013904223) % 0x1_0000_0000) as u32
}

/// The state after `k` steps from `seed`.
pub open spec fn lcg_state(seed: u32, k: nat) -> u32
    decreases k,
{
    if k == 0 {
        seed
    } else {
        lcg_step(lcg_state(seed, (k - 1) as nat))
    }
}

/// The step computed with wrapping 32-bit operations is the step taken modulo 2^32.
proof fn lemma_step_wrapping(s: u32)
    ensures
        s.wrapping_mul(1664525).wrapping_add(1013904223) == lcg_step(s),
{
    let p = s as int * 1664525;
    assert((p % 0x1_0000_0000 + 1013904223) % 0x1_0000_0000 == (p + 1013904223)
        % 0x1_0000_0000) by (nonlinear_arith);
}

/// The top eight bits of a state word.
pub open spec fn top_byte(w: u32) -> u8 {
    (w as int / 0x100_0000) as u8
}

/// The `k`-th byte (counting from 0) that a generator seeded with `seed` draws.
pub open spec fn lcg_byte(seed: u32, k: nat) -> u8 {
    top_byte(lcg_state(seed, k + 1))
}

/// A seeded pseudorandom generator whose whole state is one 32-bit word.
pub struct Lcg {
    state: u32,
}

impl Lcg {
    /// The current state word.
    pub closed spec fn state(&self) -> u32 {
        self.state
    }

    /// A generator whose state is `seed`; every 32-bit seed is accepted.
    pub fn new(seed: u32) -> (r: Lcg)
        ensures
            r.state() == seed,
    {
        Lcg { state: seed }
    }

    /// Advances the state by one step and returns the new state.
    pub fn next(&mut self) -> (r: u32)
        ensures
            r == lcg_step(old(self).state()),
            final(self).state() == r,
    {
        let r = self.state.wrapping_mul(LCG_MULTIPLIER).wrapping_add(LCG_INCREMENT);
        proof {
            lemma_step_wrapping(self.state);
        }
        self.state = r;
        r
    }

    /// Advances the state by one step and returns the top eight bits of the new state.
    pub fn next_u8(&mut self) -> (r: u8)
        ensures
            final(self).state() == lcg_step(old(self).state()),
            r == top_byte(final(self).state()),
    {
        let w = self.next();
        assert(w >> 24u32 == w / 0x100_0000u32) by (bit_vector);
        (w >> 24) as u8
    }
}


/// One step of the generator is injective: distinct states stay distinct.
pub proof fn lemma_step_injective(a: u32, b: u32)
    requires
        a != b,
    ensures
        lcg_step(a) != lcg_step(b),
{
    let x = a.wrapping_mul(1664525).wrapping_add(1013904223);
    let y = b.wrapping_mul(1664525).wrapping_add(1013904223);
    assert(x != y) by (bit_vector)
        requires
            a != b,
            x == a.wrapping_mul(1664525).wrapping_add(1013904223),
            y == b.wrapping_mul(1664525).wrapping_add(1013904223),
    ;
    lemma_step_wrapping(a);
    lemma_step_wrapping(b);
}

/// Generators started from distinct seeds are in distinct states after any
/// number of steps.
pub proof fn lemma_distinct_seeds_distinct_states(s1: u32, s2: u32, k: nat)
    requires
        s1 != s2,
    ensures
        lcg_state(s1, k) != lcg_state(s2, k),
    decreases k,
{
    if k > 0 {
        lemma_distinct_seeds_distinct_states(s1, s2, (k - 1) as nat);
        lemma_step_injective(lcg_state(s1, (k - 1) as nat), lcg_state(s2, (k - 1) as nat));
    }
}

} // verus!
