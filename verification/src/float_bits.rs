//! `f32` values carried as their IEEE-754 bit patterns.
use vstd::prelude::*;
use vstd::arithmetic::power2::{pow2, lemma2_to64, lemma_pow2_strictly_increases};
use vstd::bits::{lemma_u32_shl_is_mul, lemma_u32_shr_is_div};

verus! {

/// An `f32` carried as its IEEE-754 bit pattern (`f32::to_bits` / `f32::from_bits`).
#[derive(Clone, Copy, Debug, PartialEq, Eq, Structural)]
pub struct FloatBits {
    pub bits: u32,
}

/// The sign bit of an `f32` bit pattern.
pub open spec fn sign_of(bits: u32) -> int {
    bits as int / 0x8000_0000
}

/// The biased exponent field of an `f32` bit pattern.
pub open spec fn exponent_of(bits: u32) -> int {
    (bits as int / 0x80_0000) % 0x100
}

/// The fraction (mantissa without the hidden bit) of an `f32` bit pattern.
pub open spec fn fraction_of(bits: u32) -> int {
    bits as int % 0x80_0000
}

/// The value that Rust's `x as u32` gives for the `f32` with bit pattern `bits`:
/// NaN gives 0, the value is rounded toward zero, and what lies outside
/// `0..=u32::MAX` saturates at the nearer bound.
///
/// A finite value with exponent field `e` and fraction `f` is `(2^23 + f) * 2^(e - 150)`
/// (normal numbers); every value with `e < 127` lies in `[0, 1)`, and every value with
/// `e >= 159` is at least `2^32`.
pub open spec fn f32_bits_as_u32(bits: u32) -> u32 {
    let e = exponent_of(bits);
    let f = fraction_of(bits);
    let m = 0x80_0000 + f;
    if e == 0xff && f != 0 {
        0
    } else if sign_of(bits) == 1 {
        0
    } else if e < 127 {
        0
    } else if e >= 159 {
        u32::MAX
    } else if e >= 150 {
        (m * pow2((e - 150) as nat)) as u32
    } else {
        (m / pow2((150 - e) as nat) as int) as u32
    }
}

/// The `f32` with bit pattern `bits` is exactly `1 / n`: it is a positive normal number
/// `(2^23 + f) * 2^(e - 150)` with `e < 150`, and `(2^23 + f) * n == 2^(150 - e)`.
pub open spec fn is_reciprocal_of(bits: u32, n: nat) -> bool {
    let e = exponent_of(bits);
    let m = 0x80_0000 + fraction_of(bits);
    &&& sign_of(bits) == 0
    &&& 0 < e < 150
    &&& m * n == pow2((150 - e) as nat)
}

impl FloatBits {
    /// The float with the given bit pattern.
    pub fn from_bits(bits: u32) -> (r: FloatBits)
        ensures
            r.bits == bits,
    {
        FloatBits { bits }
    }

    /// The bit pattern of this float.
    pub fn to_bits(self) -> (r: u32)
        ensures
            r == self.bits,
    {
        self.bits
    }

    /// `self as u32`: rounds toward zero, maps NaN to 0 and saturates at `0` and `u32::MAX`.
    pub fn as_u32(self) -> (r: u32)
        ensures
            r == f32_bits_as_u32(self.bits),
    {
        let bits = self.bits;
        let sign = bits >> 31u32;
        let e = (bits >> 23u32) & 0xffu32;
        let f = bits & 0x7f_ffffu32;
        proof {
            assert(sign == bits / 0x8000_0000) by (bit_vector)
                requires sign == bits >> 31u32;
            assert(e == (bits / 0x80_0000) % 0x100) by (bit_vector)
                requires e == (bits >> 23u32) & 0xffu32;
            assert(f == bits % 0x80_0000) by (bit_vector)
                requires f == bits & 0x7f_ffffu32;
        }
        if e == 0xff && f != 0 {
            0
        } else if sign == 1 {
            0
        } else if e < 127 {
            0
        } else if e >= 159 {
            u32::MAX
        } else {
            let m = f | 0x80_0000u32;
            proof {
                assert(m == f + 0x80_0000) by (bit_vector)
                    requires m == f | 0x80_0000u32, f < 0x80_0000u32;
                lemma2_to64();
            }
            if e >= 150 {
                let k = e - 150;
                proof {
                    if k < 8 {
                        lemma_pow2_strictly_increases(k as nat, 8);
                    }
                    let p = pow2(k as nat);
                    assert(m * p <= u32::MAX) by (nonlinear_arith)
                        requires m < 0x100_0000, p <= 256;
                    lemma_u32_shl_is_mul(m, k);
                }
                m << k
            } else {
                let k = 150 - e;
                proof {
                    lemma_u32_shr_is_div(m, k);
                }
                m >> k
            }
        }
    }
}

} // verus!
