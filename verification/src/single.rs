//! Single-precision numbers as bit patterns.
//!
//! Sizes, depths and colours reach the GPU as IEEE 754 single-precision
//! numbers. This crate never does arithmetic on them: it stores them, hands
//! them on, and converts a size to whole pixels. A `Single` is therefore the
//! 32-bit pattern of such a number, and everything stated about it is stated
//! over integers.

use vstd::arithmetic::power2::{lemma2_to64, lemma_pow2_pos, lemma_pow2_strictly_increases, pow2};
use vstd::bits::{lemma_u32_shl_is_mul, lemma_u32_shr_is_div};
use vstd::prelude::*;

verus! {

/// A single-precision IEEE 754 number, carried by its bit pattern.
///
/// Two values are equal when their bit patterns are: `-0.0` differs from
/// `0.0`, and a NaN equals itself.
#[derive(Clone, Copy, Debug, PartialEq, Eq, Hash, Structural)]
pub struct Single {
    pub bits: u32,
}

/// Bit pattern of `0.0`.
pub const ZERO_BITS: u32 = 0x0000_0000;

/// Bit pattern of `1.0`.
pub const ONE_BITS: u32 = 0x3f80_0000;

impl Single {
    /// Whether the sign bit is set.
    pub open spec fn negative(self) -> bool {
        self.bits >= 0x8000_0000u32
    }

    /// The biased exponent, in `0..256`.
    pub open spec fn exponent(self) -> nat {
        ((self.bits as nat) / 0x80_0000) % 256
    }

    /// The 23 stored bits of the significand.
    pub open spec fn fraction(self) -> nat {
        (self.bits as nat) % 0x80_0000
    }

    /// Whether the pattern is a NaN.
    pub open spec fn is_nan(self) -> bool {
        self.exponent() == 255 && self.fraction() != 0
    }

    /// The magnitude rounded toward zero to a whole number.
    ///
    /// A normal number is `(2^23 + fraction) * 2^(exponent - 150)`. Below
    /// exponent 127 the magnitude is less than one. For an infinity the result
    /// is merely larger than any 32-bit integer.
    pub open spec fn whole_magnitude(self) -> nat {
        let significand = 0x80_0000 + self.fraction();
        let e = self.exponent();
        if e < 127 {
            0
        } else if e < 150 {
            significand / pow2((150 - e) as nat)
        } else {
            significand * pow2((e - 150) as nat)
        }
    }

    /// The number rounded toward zero and clamped to the range of `i32`;
    /// 0 for a NaN.
    pub open spec fn truncated(self) -> int {
        let whole = self.whole_magnitude() as int;
        let signed = if self.negative() { -whole } else { whole };
        if self.is_nan() {
            0
        } else if signed < i32::MIN {
            i32::MIN as int
        } else if signed > i32::MAX {
            i32::MAX as int
        } else {
            signed
        }
    }

    /// Wraps a bit pattern.
    pub fn from_bits(bits: u32) -> (s: Self)
        ensures
            s.bits == bits,
    {
        Single { bits }
    }

    /// The bit pattern.
    pub fn to_bits(self) -> (bits: u32)
        ensures
            bits == self.bits,
    {
        self.bits
    }

    /// `0.0`.
    pub fn zero() -> (s: Self)
        ensures
            s.bits == ZERO_BITS,
    {
        Single { bits: ZERO_BITS }
    }

    /// `1.0`.
    pub fn one() -> (s: Self)
        ensures
            s.bits == ONE_BITS,
    {
        Single { bits: ONE_BITS }
    }

    /// Converts to whole pixels: rounds toward zero, clamps to the range of
    /// `i32`, and maps a NaN to 0.
    pub fn to_i32(self) -> (r: i32)
        ensures
            r == self.truncated(),
    {
        let bits: u32 = self.bits;
        let exponent: u32 = (bits >> 23) & 0xff;
        let fraction: u32 = bits & 0x7f_ffff;
        let negative: bool = bits >= 0x8000_0000;
        proof {
            assert(((bits >> 23) & 0xff) == (bits / 0x80_0000) % 256) by (bit_vector);
            assert((bits & 0x7f_ffff) == bits % 0x80_0000) by (bit_vector);
            assert(exponent == self.exponent());
            assert(fraction == self.fraction());
            lemma2_to64();
        }
        if exponent == 255 && fraction != 0 {
            return 0;
        }
        if exponent < 127 {
            return 0;
        }
        let significand: u32 = fraction + 0x80_0000;
        if exponent >= 158 {
            proof {
                let shift = (exponent - 150) as nat;
                if shift > 8 {
                    lemma_pow2_strictly_increases(8, shift);
                }
                assert(pow2(shift) >= 256);
                assert(significand * pow2(shift) >= 0x80_0000 * 256) by (nonlinear_arith)
                    requires
                        significand >= 0x80_0000,
                        pow2(shift) >= 256,
                ;
            }
            return if negative {
                i32::MIN
            } else {
                i32::MAX
            };
        }
        let magnitude: u32 = if exponent < 150 {
            let shift: u32 = 150 - exponent;
            proof {
                lemma_u32_shr_is_div(significand, shift);
            }
            significand >> shift
        } else {
            let shift: u32 = exponent - 150;
            proof {
                if shift < 7 {
                    lemma_pow2_strictly_increases(shift as nat, 7);
                }
                assert(significand * pow2(shift as nat) < 0x100_0000 * 128) by (nonlinear_arith)
                    requires
                        significand < 0x100_0000,
                        pow2(shift as nat) <= 128,
                ;
                lemma_u32_shl_is_mul(significand, shift);
            }
            significand << shift
        };
        proof {
            assert(magnitude == self.whole_magnitude());
            if exponent < 150 {
                lemma_pow2_pos((150 - exponent) as nat);
                assert(significand as nat / pow2((150 - exponent) as nat) <= significand as nat)
                    by (nonlinear_arith)
                    requires
                        pow2((150 - exponent) as nat) > 0,
                ;
            }
            assert(magnitude < 0x8000_0000);
        }
        if negative {
            0 - (magnitude as i32)
        } else {
            magnitude as i32
        }
    }
}

} // verus!
