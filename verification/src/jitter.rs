//! The seeded generator behind blade jitter.
//!
//! The same seed always yields the same draws, so a batch can be rebuilt bit
//! for bit. A caller that wants variation between runs picks a fresh seed.

use vstd::prelude::*;

verus! {

/// Increment of the generator's state between draws.
pub const STATE_INCREMENT: u64 = 0x9E37_79B9_7F4A_7C15;

/// Multiplier of the first stir of [`mix`].
pub const MIX_FIRST: u64 = 0xBF58_476D_1CE4_E5B9;

/// Multiplier of the second stir of [`mix`].
pub const MIX_SECOND: u64 = 0x94D0_49BB_1331_11EB;

/// Width of the fraction that [`scaled`] takes from a draw.
pub const FRACTION_RANGE: u64 = 0x1_0000_0000;

/// The state that follows `state`.
pub open spec fn advance(state: u64) -> u64 {
    state.wrapping_add(STATE_INCREMENT)
}

/// The state reached from `state` after `draws` draws.
pub open spec fn state_after(state: u64, draws: nat) -> u64
    decreases draws,
{
    if draws == 0 {
        state
    } else {
        advance(state_after(state, (draws - 1) as nat))
    }
}

/// The value drawn on reaching `state`: its bits stirred twice.
pub open spec fn mix(state: u64) -> u64 {
    let a = (state ^ (state >> 30)).wrapping_mul(MIX_FIRST);
    let b = (a ^ (a >> 27)).wrapping_mul(MIX_SECOND);
    b ^ (b >> 31)
}

/// The `k`-th value (counting from 0) drawn from a generator in `state`.
pub open spec fn draw(state: u64, k: nat) -> u64 {
    mix(state_after(state, k + 1))
}

/// A draw mapped evenly onto `0 .. bound`: its upper half, read as a fraction
/// of [`FRACTION_RANGE`], times `bound`, rounded down.
pub open spec fn scaled(value: u64, bound: u64) -> int {
    ((value as int / FRACTION_RANGE as int) * bound) / (FRACTION_RANGE as int)
}

/// A scaled draw stays below its bound; a bound of 0 leaves only 0.
pub proof fn lemma_scaled_below_bound(value: u64, bound: u64)
    ensures
        0 <= scaled(value, bound),
        bound > 0 ==> scaled(value, bound) < bound,
        bound == 0 ==> scaled(value, bound) == 0,
{
    let hi = value as int / FRACTION_RANGE as int;
    let range = FRACTION_RANGE as int;
    assert(0 <= (hi * bound) / range && (bound > 0 ==> (hi * bound) / range < bound) && (bound
        == 0 ==> (hi * bound) / range == 0)) by (nonlinear_arith)
        requires
            0 <= hi < range,
            range > 0,
            bound >= 0,
    ;
}

/// Drawing `a` times and then `b` times is drawing `a + b` times.
pub proof fn lemma_state_after_add(state: u64, a: nat, b: nat)
    ensures
        state_after(state_after(state, a), b) == state_after(state, a + b),
    decreases b,
{
    if b > 0 {
        lemma_state_after_add(state, a, (b - 1) as nat);
    }
}

/// The jitter source: a 64-bit state that each draw advances.
#[derive(Clone, Copy, Debug, PartialEq, Eq, Structural)]
pub struct Jitter {
    pub state: u64,
}

impl Jitter {
    /// A generator that starts from `seed`.
    pub fn from_seed(seed: u64) -> (rng: Jitter)
        ensures
            rng.state == seed,
    {
        Jitter { state: seed }
    }

    /// Advances the state and returns the value drawn there.
    pub fn next_u64(&mut self) -> (value: u64)
        ensures
            final(self).state == advance(old(self).state),
            value == mix(final(self).state),
            value == draw(old(self).state, 0),
    {
        self.state = self.state.wrapping_add(STATE_INCREMENT);
        let z: u64 = self.state;
        let a: u64 = (z ^ (z >> 30)).wrapping_mul(MIX_FIRST);
        let b: u64 = (a ^ (a >> 27)).wrapping_mul(MIX_SECOND);
        assert(state_after(old(self).state, 1) == advance(state_after(old(self).state, 0)));
        b ^ (b >> 31)
    }

    /// Draws a value spread evenly over `0 .. bound` (0 when `bound` is 0).
    pub fn next_below(&mut self, bound: u64) -> (value: u64)
        ensures
            final(self).state == advance(old(self).state),
            value == scaled(mix(final(self).state), bound),
            bound > 0 ==> value < bound,
            bound == 0 ==> value == 0,
    {
        let raw: u64 = self.next_u64();
        let hi: u128 = (raw / FRACTION_RANGE) as u128;
        proof {
            lemma_scaled_below_bound(raw, bound);
            assert(hi * bound <= 0xFFFF_FFFF * 0xFFFF_FFFF_FFFF_FFFF) by (nonlinear_arith)
                requires
                    0 <= hi <= 0xFFFF_FFFF,
                    0 <= bound <= 0xFFFF_FFFF_FFFF_FFFF,
            ;
        }
        let spread: u128 = (hi * (bound as u128)) / (FRACTION_RANGE as u128);
        spread as u64
    }
}

} // verus!
