//! IEEE 754 binary32 numbers, carried as their 32-bit encodings.
//!
//! Rounded arithmetic is delegated to `rustc_apfloat`, which computes in
//! software and so gives the same bits on every machine. What it returns is
//! named here by uninterpreted functions; everything else (classifying an
//! encoding, negating it, truncating it to an integer) is proved.

use rustc_apfloat::ieee::Single;
use rustc_apfloat::Float;
use rustc_apfloat::Round::NearestTiesToEven;
use vstd::arithmetic::div_mod::lemma_basic_div;
use vstd::arithmetic::mul::lemma_mul_inequality;
use vstd::arithmetic::power2::{lemma2_to64, lemma_pow2_pos, lemma_pow2_strictly_increases, pow2};
use vstd::bits::{lemma_u32_shl_is_mul, lemma_u32_shr_is_div};
use vstd::prelude::*;

verus! {

/// The encoding of `+0.0`.
pub const ZERO: u32 = 0;

/// The encoding of `0.5`.
pub const HALF: u32 = 0x3F00_0000;

/// The encoding of `1.0`.
pub const ONE: u32 = 0x3F80_0000;

/// The encoding of `3.0`.
pub const THREE: u32 = 0x4040_0000;

/// The encoding of `-0.0`: the sign bit alone.
pub const SIGN_BIT: u32 = 0x8000_0000;

/// The biased exponent: bits 23 to 30 of the encoding.
pub open spec fn exponent_field(bits: u32) -> int {
    (bits as int / 0x80_0000) % 0x100
}

/// The trailing significand: bits 0 to 22 of the encoding.
pub open spec fn fraction_field(bits: u32) -> int {
    bits as int % 0x80_0000
}

/// Whether the sign bit is set.
pub open spec fn is_negative(bits: u32) -> bool {
    bits >= SIGN_BIT
}

/// Whether the encoding is that of `+0.0` or `-0.0`.
pub open spec fn spec_is_zero(bits: u32) -> bool {
    bits == ZERO || bits == SIGN_BIT
}

/// Whether the encoding is that of a NaN.
pub open spec fn is_nan(bits: u32) -> bool {
    exponent_field(bits) == 0xFF && fraction_field(bits) != 0
}

/// Whether the encoding is that of a zero, a subnormal or a normal number.
pub open spec fn is_finite(bits: u32) -> bool {
    exponent_field(bits) < 0xFF
}

/// The zero with the given sign.
pub open spec fn signed_zero(negative: bool) -> u32 {
    if negative {
        SIGN_BIT
    } else {
        ZERO
    }
}

/// The number with the opposite sign: the encoding with its sign bit flipped.
pub open spec fn negated(bits: u32) -> u32 {
    if bits >= SIGN_BIT {
        (bits - SIGN_BIT) as u32
    } else {
        (bits + SIGN_BIT) as u32
    }
}

/// The integer part of the absolute value of a number that is not a NaN.
///
/// A number with biased exponent `e > 0` and trailing significand `f` has the
/// absolute value `(2^23 + f) * 2^(e - 150)`; with `e == 0` it lies below one.
/// An infinity, read in the same way, comes out as `2^128`.
pub open spec fn integer_part(bits: u32) -> nat {
    let e = exponent_field(bits);
    let m = 0x80_0000 + fraction_field(bits);
    if e == 0 {
        0
    } else if e >= 150 {
        (m * pow2((e - 150) as nat)) as nat
    } else {
        (m / pow2((150 - e) as nat) as int) as nat
    }
}

/// A number truncated toward zero to a 32-bit signed integer: what lies
/// beyond the integer's range becomes the nearest bound, and a NaN becomes 0.
pub open spec fn truncated(bits: u32) -> int {
    if is_nan(bits) {
        0
    } else if is_negative(bits) {
        if integer_part(bits) >= 0x8000_0000 {
            i32::MIN as int
        } else {
            -(integer_part(bits) as int)
        }
    } else {
        if integer_part(bits) >= 0x7FFF_FFFF {
            i32::MAX as int
        } else {
            integer_part(bits) as int
        }
    }
}

/// The encoding of `a + b`, rounded to nearest with ties to even.
pub uninterp spec fn rounded_sum(a: u32, b: u32) -> u32;

/// The encoding of `a - b`, rounded to nearest with ties to even.
pub uninterp spec fn rounded_difference(a: u32, b: u32) -> u32;

/// The encoding of `a * b`, rounded to nearest with ties to even.
pub uninterp spec fn rounded_product(a: u32, b: u32) -> u32;

/// The encoding of `a / b`, rounded to nearest with ties to even.
pub uninterp spec fn rounded_quotient(a: u32, b: u32) -> u32;

/// Adds two numbers with `Float::add_r` of `rustc_apfloat`, on
/// `ieee::Single` and rounding to nearest with ties to even.
///
/// Trusted: the result is a function of the two encodings alone. Of that
/// function only the treatment of zeros is stated: two zeros of one sign give
/// that zero, two zeros of opposite signs give `+0.0`, and a zero plus a
/// number that is neither a zero nor a NaN gives that number.
#[verifier::external_body]
pub(crate) fn sum(a: u32, b: u32) -> (r: u32)
    ensures
        r == rounded_sum(a, b),
        spec_is_zero(a) && spec_is_zero(b) ==> r == (if a == b {
            a
        } else {
            ZERO
        }),
        spec_is_zero(a) && !spec_is_zero(b) && !is_nan(b) ==> r == b,
{
    let s = Single::from_bits(a as u128).add_r(Single::from_bits(b as u128), NearestTiesToEven);
    s.value.to_bits() as u32
}

/// Subtracts `b` from `a` with `Float::sub_r` of `rustc_apfloat`, on
/// `ieee::Single` and rounding to nearest with ties to even.
///
/// Trusted: the result is a function of the two encodings alone.
#[verifier::external_body]
pub(crate) fn difference(a: u32, b: u32) -> (r: u32)
    ensures
        r == rounded_difference(a, b),
{
    let d = Single::from_bits(a as u128).sub_r(Single::from_bits(b as u128), NearestTiesToEven);
    d.value.to_bits() as u32
}

/// Multiplies two numbers with `Float::mul_r` of `rustc_apfloat`, on
/// `ieee::Single` and rounding to nearest with ties to even.
///
/// Trusted: the result is a function of the two encodings alone. Of that
/// function only this is stated: where both factors are finite and one of them
/// is a zero, the product is the zero whose sign is negative exactly if the
/// factors' signs differ.
#[verifier::external_body]
pub(crate) fn product(a: u32, b: u32) -> (r: u32)
    ensures
        r == rounded_product(a, b),
        is_finite(a) && is_finite(b) && (spec_is_zero(a) || spec_is_zero(b)) ==> r == signed_zero(
            is_negative(a) != is_negative(b),
        ),
{
    let p = Single::from_bits(a as u128).mul_r(Single::from_bits(b as u128), NearestTiesToEven);
    p.value.to_bits() as u32
}

/// Divides `a` by `b` with `Float::div_r` of `rustc_apfloat`, on
/// `ieee::Single` and rounding to nearest with ties to even.
///
/// Trusted: the result is a function of the two encodings alone. Of that
/// function only this is stated: a zero divided by a number that is neither a
/// zero nor a NaN is the zero whose sign is negative exactly if the operands'
/// signs differ.
#[verifier::external_body]
pub(crate) fn quotient(a: u32, b: u32) -> (r: u32)
    ensures
        r == rounded_quotient(a, b),
        spec_is_zero(a) && !spec_is_zero(b) && !is_nan(b) ==> r == signed_zero(
            is_negative(a) != is_negative(b),
        ),
{
    let q = Single::from_bits(a as u128).div_r(Single::from_bits(b as u128), NearestTiesToEven);
    q.value.to_bits() as u32
}

/// Whether a number compares equal to zero, as `x == 0.0` does.
#[verifier::when_used_as_spec(spec_is_zero)]
pub fn is_zero(bits: u32) -> (r: bool)
    ensures
        r == spec_is_zero(bits),
{
    bits == ZERO || bits == SIGN_BIT
}

/// Flips the sign of a number, as unary `-` does.
pub fn negate(bits: u32) -> (r: u32)
    ensures
        r == negated(bits),
{
    if bits >= SIGN_BIT {
        bits - SIGN_BIT
    } else {
        bits + SIGN_BIT
    }
}

/// Truncates a number toward zero to an `i32`, saturating at the bounds and
/// sending a NaN to 0.
pub fn truncate(bits: u32) -> (r: i32)
    ensures
        r == truncated(bits),
{
    let e: u32 = (bits >> 23) & 0xFF;
    let f: u32 = bits & 0x7F_FFFF;
    let negative = bits >= SIGN_BIT;
    assert(e == (bits / 0x80_0000) % 0x100 && f == bits % 0x80_0000 && e <= 0xFF && f < 0x80_0000)
        by (bit_vector)
        requires
            e == (bits >> 23) & 0xFF,
            f == bits & 0x7F_FFFF,
    ;
    assert(e == exponent_field(bits) && f == fraction_field(bits));
    let m: u32 = 0x80_0000 + f;
    proof {
        lemma2_to64();
    }
    if e == 0xFF && f != 0 {
        0
    } else if e < 127 {
        proof {
            if e > 0 {
                let k = (150 - e) as nat;
                if k > 24 {
                    lemma_pow2_strictly_increases(24, k);
                }
                lemma_basic_div(m as int, pow2(k) as int);
            }
        }
        0
    } else if e >= 158 {
        proof {
            let k = (e - 150) as nat;
            if k > 8 {
                lemma_pow2_strictly_increases(8, k);
            }
            lemma_pow2_pos(k);
            lemma_mul_inequality(0x80_0000, m as int, pow2(k) as int);
            lemma_mul_inequality(0x100, pow2(k) as int, 0x80_0000);
            assert(0x80_0000 * pow2(k) == pow2(k) * 0x80_0000) by (nonlinear_arith);
        }
        if negative {
            i32::MIN
        } else {
            i32::MAX
        }
    } else {
        let whole: u32 = if e >= 150 {
            let k: u32 = e - 150;
            proof {
                lemma_mul_inequality(pow2(k as nat) as int, 0x80, m as int);
                assert(m * pow2(k as nat) == pow2(k as nat) * m) by (nonlinear_arith);
                lemma_u32_shl_is_mul(m, k);
            }
            m << k
        } else {
            let k: u32 = 150 - e;
            proof {
                lemma_u32_shr_is_div(m, k);
            }
            m >> k
        };
        assert(whole == integer_part(bits));
        assert(whole < 0x8000_0000);
        if negative {
            -(whole as i32)
        } else {
            whole as i32
        }
    }
}

} // verus!
