//! IEEE-754 encodings, read as integers.
//!
//! Samples cross the engine as binary32 bit patterns, and a note's frequency
//! arrives as a binary64 bit pattern. Nothing here computes in floating
//! point: the fields of an encoding are taken apart with shifts and masks.

use vstd::prelude::*;
use vstd::arithmetic::power2::{pow2, lemma2_to64, lemma2_to64_rest,
    lemma_pow2_strictly_increases};
use vstd::arithmetic::div_mod::lemma_basic_div;
use vstd::bits::{lemma_u64_shl_is_mul, lemma_u64_shr_is_div};

verus! {

/// The binary32 encoding of zero: a silent sample.
pub const SILENCE: u32 = 0;

/// Exponent of the first binary64 number that is at least `2^-32`.
pub const UNIT_EXPONENT: u64 = 1043;

/// Whether a binary32 encoding stands for a finite number, that is neither
/// an infinity nor a NaN.
pub open spec fn is_finite_sample(bits: u32) -> bool {
    (bits >> 23) & 0xff != 0xff
}

/// A sample as the engine writes it: itself where it is finite, silence
/// where it is not.
pub open spec fn sanitized(bits: u32) -> u32 {
    if is_finite_sample(bits) {
        bits
    } else {
        SILENCE
    }
}

/// Silence is a finite sample.
pub proof fn lemma_silence_is_finite()
    ensures
        is_finite_sample(SILENCE),
{
    assert((0u32 >> 23) & 0xff != 0xff) by (bit_vector);
}

/// Tells whether a binary32 encoding stands for a finite number.
pub fn sample_is_finite(bits: u32) -> (finite: bool)
    ensures
        finite == is_finite_sample(bits),
{
    (bits >> 23) & 0xff != 0xff
}

/// Replaces an infinity or a NaN by silence and keeps every finite sample.
pub fn sanitize(bits: u32) -> (sample: u32)
    ensures
        sample == sanitized(bits),
        is_finite_sample(sample),
{
    proof {
        lemma_silence_is_finite();
    }
    if sample_is_finite(bits) {
        bits
    } else {
        SILENCE
    }
}

/// The biased exponent of a binary64 encoding.
pub open spec fn exponent_field(bits: u64) -> u64 {
    (bits >> 52) & 0x7ff
}

/// The fraction bits of a binary64 encoding.
pub open spec fn fraction_field(bits: u64) -> u64 {
    bits & 0xf_ffff_ffff_ffff
}

/// Whether the sign bit of a binary64 encoding is set.
pub open spec fn is_negative(bits: u64) -> bool {
    bits >> 63 == 1
}

/// Whether a binary64 encoding is a NaN.
pub open spec fn is_nan(bits: u64) -> bool {
    exponent_field(bits) == 0x7ff && fraction_field(bits) != 0
}

/// The magnitude of the encoded number times `2^32`, rounded down. Zero and
/// the subnormal numbers are below `2^-32` and give zero; an infinity gives a
/// number beyond every 64-bit bound.
pub open spec fn scaled_magnitude(bits: u64) -> nat {
    let exponent = exponent_field(bits);
    let significand = (0x10_0000_0000_0000 + fraction_field(bits)) as nat;
    if exponent == 0 {
        0
    } else if exponent >= UNIT_EXPONENT {
        significand * pow2((exponent - UNIT_EXPONENT) as nat)
    } else {
        significand / pow2((UNIT_EXPONENT - exponent) as nat)
    }
}

/// The 32.32 fixed-point number nearest to the encoded one in the direction
/// of zero. A NaN gives zero, and a number beyond the range of `i64` gives
/// the bound on its side.
pub open spec fn fixed_of_binary64(bits: u64) -> int {
    if is_nan(bits) {
        0
    } else if is_negative(bits) {
        if scaled_magnitude(bits) >= 0x8000_0000_0000_0000 {
            i64::MIN as int
        } else {
            -(scaled_magnitude(bits) as int)
        }
    } else {
        if scaled_magnitude(bits) > i64::MAX {
            i64::MAX as int
        } else {
            scaled_magnitude(bits) as int
        }
    }
}

/// Converts a binary64 encoding to 32.32 fixed point.
pub fn fixed_from_binary64(bits: u64) -> (value: i64)
    ensures
        value == fixed_of_binary64(bits),
{
    let exponent: u64 = (bits >> 52) & 0x7ff;
    let fraction: u64 = bits & 0xf_ffff_ffff_ffff;
    let negative: bool = bits >> 63 == 1;
    assert(fraction < 0x10_0000_0000_0000) by (bit_vector)
        requires
            fraction == bits & 0xf_ffff_ffff_ffff,
    ;
    assert(exponent <= 0x7ff) by (bit_vector)
        requires
            exponent == (bits >> 52) & 0x7ff,
    ;
    if exponent == 0x7ff && fraction != 0 {
        return 0;
    }
    if exponent == 0 {
        return 0;
    }
    let significand: u64 = 0x10_0000_0000_0000 + fraction;
    proof {
        lemma2_to64();
        lemma2_to64_rest();
    }
    if exponent >= UNIT_EXPONENT {
        let shift: u64 = exponent - UNIT_EXPONENT;
        if shift >= 11 {
            proof {
                if shift > 11 {
                    lemma_pow2_strictly_increases(11, shift as nat);
                }
                assert(significand * pow2(shift as nat) >= 0x8000_0000_0000_0000)
                    by (nonlinear_arith)
                    requires
                        significand >= 0x10_0000_0000_0000,
                        pow2(shift as nat) >= 2048,
                ;
            }
            return if negative {
                i64::MIN
            } else {
                i64::MAX
            };
        }
        proof {
            if shift < 10 {
                lemma_pow2_strictly_increases(shift as nat, 10);
            }
            assert(significand * pow2(shift as nat) < 0x8000_0000_0000_0000)
                by (nonlinear_arith)
                requires
                    significand < 0x20_0000_0000_0000,
                    0 <= pow2(shift as nat) <= 1024,
            ;
            lemma_u64_shl_is_mul(significand, shift);
        }
        let magnitude: u64 = significand << shift;
        if negative {
            -(magnitude as i64)
        } else {
            magnitude as i64
        }
    } else {
        let shift: u64 = UNIT_EXPONENT - exponent;
        if shift >= 53 {
            proof {
                if shift > 53 {
                    lemma_pow2_strictly_increases(53, shift as nat);
                }
                lemma_basic_div(significand as int, pow2(shift as nat) as int);
            }
            return 0;
        }
        proof {
            lemma_u64_shr_is_div(significand, shift);
        }
        let magnitude: u64 = significand >> shift;
        assert(magnitude <= significand) by (bit_vector)
            requires
                magnitude == significand >> shift,
        ;
        if negative {
            -(magnitude as i64)
        } else {
            magnitude as i64
        }
    }
}

} // verus!
