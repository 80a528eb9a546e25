//! The amplitude envelope of a note.
//!
//! The envelope has no clock of its own. It is a function of the time that
//! has passed since the note was triggered: it starts at one, falls along a
//! quarter circle and is silent from half a second on.

use vstd::prelude::*;
use crate::fixed::{floor_sqrt, floor_sqrt_u128, lemma_floor_sqrt_monotonic,
    lemma_floor_sqrt_of_square, HALF, ONE};

verus! {

/// The linear decay `clamp(1 - 2 * elapsed, 0, 1)` in fixed point.
pub open spec fn decay_level(elapsed: int) -> int {
    if elapsed <= 0 {
        ONE as int
    } else if elapsed >= HALF {
        0
    } else {
        ONE - 2 * elapsed
    }
}

/// The quarter-circle easing `sqrt((2 - u) * u)` in fixed point, rounded down.
pub open spec fn downarc(u: int) -> int {
    floor_sqrt(((2 * ONE - u) * u) as nat) as int
}

/// The gain of the envelope when `elapsed` has passed since the trigger.
pub open spec fn gain(elapsed: int) -> int {
    downarc(decay_level(elapsed))
}

/// The gain is one at the trigger and at any time before it.
pub proof fn lemma_gain_at_trigger(elapsed: int)
    requires
        elapsed <= 0,
    ensures
        gain(elapsed) == ONE,
{
    assert((2 * ONE - ONE) * ONE == (ONE as nat) * (ONE as nat)) by (nonlinear_arith);
    lemma_floor_sqrt_of_square(ONE as nat);
}

/// The gain is zero from half a second after the trigger on.
pub proof fn lemma_gain_silent(elapsed: int)
    requires
        elapsed >= HALF,
    ensures
        gain(elapsed) == 0,
{
    assert((2 * ONE - 0) * 0 == 0nat * 0nat) by (nonlinear_arith);
    lemma_floor_sqrt_of_square(0);
}

/// The gain never increases as time passes.
pub proof fn lemma_gain_monotonic(earlier: int, later: int)
    requires
        earlier <= later,
    ensures
        gain(later) <= gain(earlier),
{
    let a = decay_level(later);
    let b = decay_level(earlier);
    assert(0 <= (2 * ONE - a) * a <= (2 * ONE - b) * b) by (nonlinear_arith)
        requires
            0 <= a <= b <= ONE,
    ;
    lemma_floor_sqrt_monotonic(((2 * ONE - a) * a) as nat, ((2 * ONE - b) * b) as nat);
}

/// The gain always lies between zero and one.
pub proof fn lemma_gain_bounds(elapsed: int)
    ensures
        0 <= gain(elapsed) <= ONE,
{
    lemma_gain_at_trigger(0);
    if elapsed > 0 {
        lemma_gain_monotonic(0, elapsed);
    } else {
        lemma_gain_at_trigger(elapsed);
    }
}

/// The gain of the envelope at time `t` for a note triggered at `offset`,
/// both in seconds.
pub fn envelope_gain(t: i64, offset: i64) -> (g: i64)
    ensures
        g == gain(t - offset),
        0 <= g <= ONE,
{
    let elapsed: i128 = t as i128 - offset as i128;
    proof {
        lemma_gain_bounds(elapsed as int);
    }
    if elapsed <= 0 {
        proof {
            lemma_gain_at_trigger(elapsed as int);
        }
        return ONE;
    }
    if elapsed >= HALF as i128 {
        proof {
            lemma_gain_silent(elapsed as int);
        }
        return 0;
    }
    let level: u128 = (ONE as i128 - 2 * elapsed) as u128;
    let rest: u128 = 2 * (ONE as u128) - level;
    assert(rest * level <= 0x2_0000_0000 * 0x1_0000_0000) by (nonlinear_arith)
        requires
            0 <= rest <= 0x2_0000_0000,
            0 <= level <= 0x1_0000_0000,
    ;
    let root: u64 = floor_sqrt_u128(rest * level);
    root as i64
}

} // verus!
