//! One audio sample in its two representations: a signed 16-bit integer on
//! the wire, and an IEEE-754 binary32 number on the device.
//!
//! The device side is handled as the 32 bits of its encoding. A finite
//! binary32 number has the magnitude `significand * 2^scale`, so every
//! statement about its value is a statement about integers.

use vstd::arithmetic::div_mod::lemma_fundamental_div_mod_converse;
use vstd::arithmetic::power2::{
    lemma2_to64, lemma2_to64_rest, lemma_pow2_adds, lemma_pow2_pos, lemma_pow2_strictly_increases,
    pow2,
};
use vstd::bits::lemma_u64_shl_is_mul;
use vstd::prelude::*;

verus! {

/// The integer that stands for the float 1.0 on the wire.
pub const FULL_SCALE: u64 = 32767;

/// Whether the sign bit of a binary32 encoding is set.
pub open spec fn f32_negative(bits: int) -> bool {
    bits >= 0x8000_0000
}

/// The biased exponent field of a binary32 encoding.
pub open spec fn f32_exponent(bits: int) -> int {
    (bits / 0x80_0000) % 0x100
}

/// The fraction field of a binary32 encoding.
pub open spec fn f32_fraction(bits: int) -> int {
    bits % 0x80_0000
}

/// Whether the encoding is a NaN.
pub open spec fn f32_is_nan(bits: int) -> bool {
    f32_exponent(bits) == 0xff && f32_fraction(bits) != 0
}

/// Whether the encoding is an infinity.
pub open spec fn f32_is_infinite(bits: int) -> bool {
    f32_exponent(bits) == 0xff && f32_fraction(bits) == 0
}

/// The integer significand of a finite binary32 number: the fraction field,
/// with the implicit leading bit unless the number is subnormal.
pub open spec fn f32_significand(bits: int) -> int {
    if f32_exponent(bits) == 0 {
        f32_fraction(bits)
    } else {
        0x80_0000 + f32_fraction(bits)
    }
}

/// The power of two by which the significand of a finite binary32 number is
/// scaled: its magnitude is `f32_significand(bits) * 2^f32_scale(bits)`.
pub open spec fn f32_scale(bits: int) -> int {
    if f32_exponent(bits) == 0 {
        -149
    } else {
        f32_exponent(bits) - 150
    }
}

/// The integer nearest to `n * 2^e`, for `n >= 0`; a value halfway between
/// two integers goes to the larger one.
pub open spec fn round_scaled(n: int, e: int) -> int {
    if e >= 0 {
        n * pow2(e as nat)
    } else {
        (2 * n + pow2((-e) as nat)) / (2 * pow2((-e) as nat) as int)
    }
}

/// `v` limited to the range of a signed 16-bit integer.
pub open spec fn clamp_i16(v: int) -> int {
    if v < -0x8000 {
        -0x8000
    } else if v > 0x7fff {
        0x7fff
    } else {
        v
    }
}

/// The 16-bit sample for a binary32 sample: the value times 32767, rounded
/// to the nearest integer with ties away from zero, limited to the 16-bit
/// range. An infinity goes to the end of the range on its side, and a NaN
/// to 0.
pub open spec fn pcm16_of_float32(bits: int) -> int {
    if f32_is_nan(bits) {
        0
    } else if f32_is_infinite(bits) {
        if f32_negative(bits) {
            -0x8000
        } else {
            0x7fff
        }
    } else {
        let magnitude = round_scaled(f32_significand(bits) * 32767, f32_scale(bits));
        clamp_i16(
            if f32_negative(bits) {
                -magnitude
            } else {
                magnitude
            },
        )
    }
}

/// How often a magnitude `a >= 1` must be doubled to reach 32767 or more.
/// It is the number of binades that `a / 32767` lies below 1.
pub open spec fn binade(a: int) -> nat
    decreases 65534 - a,
{
    if a < 1 || a >= 32767 {
        0
    } else {
        1 + binade(2 * a)
    }
}

/// The magnitude `a >= 1` doubled until it is 32767 or more.
pub open spec fn normalized(a: int) -> int
    decreases 65534 - a,
{
    if a < 1 || a >= 32767 {
        a
    } else {
        normalized(2 * a)
    }
}

/// The binary32 sample for a 16-bit sample `v`: the encoding of the binary32
/// number nearest to `v / 32767`. Zero goes to positive zero. Otherwise the
/// quotient lies in the binade `2^-binade .. 2^(1 - binade)`, and its
/// 24-bit significand is `normalized * 2^23 / 32767` rounded to the nearest
/// integer.
pub open spec fn float32_of_pcm16(v: int) -> int {
    if v == 0 {
        0
    } else {
        let a = if v < 0 {
            -v
        } else {
            v
        };
        let significand = (2 * normalized(a) * 0x80_0000 + 32767) / 65534;
        let sign = if v < 0 {
            0x8000_0000int
        } else {
            0int
        };
        sign + (127 - binade(a)) * 0x80_0000 + (significand - 0x80_0000)
    }
}

/// A magnitude of a 16-bit sample is at most fifteen doublings below 32767,
/// doubling it that often multiplies it by the matching power of two, and the
/// result is below 65534.
pub proof fn lemma_normalized(a: int)
    requires
        1 <= a <= 0x8000,
    ensures
        binade(a) <= 15,
        normalized(a) == a * pow2(binade(a)),
        32767 <= normalized(a) <= 65533,
{
    lemma2_to64();
    lemma_doublings(a, 15);
}

proof fn lemma_doublings(a: int, budget: nat)
    requires
        1 <= a <= 65533,
        budget <= 15,
        a * pow2(budget) >= 0x8000,
    ensures
        binade(a) <= budget,
        normalized(a) == a * pow2(binade(a)),
        32767 <= normalized(a) <= 65533,
    decreases 65534 - a,
{
    lemma2_to64();
    if a >= 32767 {
        assert(a * pow2(0) == a) by (nonlinear_arith)
            requires
                pow2(0) == 1,
        ;
    } else {
        assert(budget > 0) by {
            if budget == 0 {
                assert(a * pow2(0) == a) by (nonlinear_arith)
                    requires
                        pow2(0) == 1,
                ;
            }
        }
        let rest: nat = (budget - 1) as nat;
        assert(pow2(budget) == 2 * pow2(rest)) by {
            lemma_pow2_adds(1, rest);
        }
        assert((2 * a) * pow2(rest) == a * pow2(budget)) by (nonlinear_arith)
            requires
                pow2(budget) == 2 * pow2(rest),
        ;
        lemma_doublings(2 * a, rest);
        let k: nat = binade(2 * a);
        assert(pow2(k + 1) == 2 * pow2(k)) by {
            lemma_pow2_adds(1, k);
        }
        assert((2 * a) * pow2(k) == a * pow2(k + 1)) by (nonlinear_arith)
            requires
                pow2(k + 1) == 2 * pow2(k),
        ;
    }
}

/// The binary32 sample for a 16-bit sample.
pub fn sample_to_float32(v: i16) -> (bits: u32)
    ensures
        bits as int == float32_of_pcm16(v as int),
{
    if v == 0 {
        return 0;
    }
    let negative: bool = v < 0;
    let magnitude: u64 = if negative {
        (-(v as i32)) as u64
    } else {
        v as u64
    };
    proof {
        lemma_normalized(magnitude as int);
    }
    let mut scaled: u64 = magnitude;
    let mut doublings: u32 = 0;
    while scaled < FULL_SCALE
        invariant
            1 <= scaled <= 65533,
            doublings + binade(scaled as int) == binade(magnitude as int),
            normalized(scaled as int) == normalized(magnitude as int),
            binade(magnitude as int) <= 15,
        decreases 65534 - scaled,
    {
        scaled = scaled * 2;
        doublings = doublings + 1;
    }
    let significand: u64 = (2 * scaled * 0x80_0000 + FULL_SCALE) / (2 * FULL_SCALE);
    let sign: u32 = if negative {
        0x8000_0000
    } else {
        0
    };
    sign + (127 - doublings) * 0x80_0000 + (significand - 0x80_0000) as u32
}

/// The 16-bit sample for a binary32 sample.
pub fn sample_to_pcm16(bits: u32) -> (v: i16)
    ensures
        v as int == pcm16_of_float32(bits as int),
{
    let negative: bool = bits >= 0x8000_0000;
    let exponent: u32 = (bits / 0x80_0000) % 0x100;
    let fraction: u32 = bits % 0x80_0000;
    if exponent == 0xff {
        return if fraction != 0 {
            0
        } else if negative {
            i16::MIN
        } else {
            i16::MAX
        };
    }
    proof {
        lemma_round_scaled_bounds(f32_significand(bits as int) * 32767, f32_scale(bits as int));
    }
    if exponent >= 128 {
        return if negative {
            i16::MIN
        } else {
            i16::MAX
        };
    }
    if exponent <= 110 {
        return 0;
    }
    let shift: u32 = 150 - exponent;
    let product: u64 = (0x80_0000 + fraction as u64) * FULL_SCALE;
    let unit: u64 = 1u64 << shift;
    proof {
        lemma2_to64();
        lemma2_to64_rest();
        lemma_pow2_strictly_increases(shift as nat, 40);
        lemma_pow2_pos(shift as nat);
        lemma_u64_shl_is_mul(1, shift as u64);
    }
    let magnitude: u64 = (2 * product + unit) / (2 * unit);
    if negative {
        if magnitude >= 0x8000 {
            i16::MIN
        } else {
            -(magnitude as i16)
        }
    } else {
        if magnitude > 0x7fff {
            i16::MAX
        } else {
            magnitude as i16
        }
    }
}

/// Where rounding a scaled product leaves the 16-bit range or vanishes: a
/// product of at least `2^23 * 32767` scaled by `2^-22` or more rounds to
/// 32768 or more, and one below `2^24 * 32767` scaled by `2^-40` or less
/// rounds to 0. The result is never negative.
pub proof fn lemma_round_scaled_bounds(n: int, e: int)
    requires
        0 <= n,
    ensures
        0 <= round_scaled(n, e),
        n >= 0x80_0000 * 32767 && e >= -22 ==> round_scaled(n, e) >= 0x8000,
        n < 0x100_0000 * 32767 && e <= -40 ==> round_scaled(n, e) == 0,
{
    lemma2_to64();
    lemma2_to64_rest();
    if e >= 0 {
        let p: int = pow2(e as nat) as int;
        lemma_pow2_pos(e as nat);
        assert(n * p >= n) by (nonlinear_arith)
            requires
                n >= 0,
                p >= 1,
        ;
    } else {
        let s: nat = (-e) as nat;
        let p: int = pow2(s) as int;
        lemma_pow2_pos(s);
        assert((2 * n + p) / (2 * p) >= 0) by (nonlinear_arith)
            requires
                n >= 0,
                p >= 1,
        ;
        if n >= 0x80_0000 * 32767 && e >= -22 {
            if s < 22 {
                lemma_pow2_strictly_increases(s, 22);
            }
            assert((2 * n + p) / (2 * p) >= 0x8000) by (nonlinear_arith)
                requires
                    n >= 0x80_0000 * 32767,
                    1 <= p <= 0x40_0000,
            ;
        }
        if n < 0x100_0000 * 32767 && e <= -40 {
            if s > 40 {
                lemma_pow2_strictly_increases(40, s);
            }
            assert((2 * n + p) / (2 * p) == 0) by (nonlinear_arith)
                requires
                    0 <= n < 0x100_0000 * 32767,
                    p >= 0x100_0000_0000,
            ;
        }
    }
}

/// The fields of the binary32 sample for a non-zero 16-bit sample: a normal
/// number in one of the sixteen binades below 2.0, whose significand times
/// 32767 differs from the scaled magnitude by less than half of 32767. So
/// the number is within half a unit in the last place of `v / 32767`: it
/// is the nearest binary32 number.
pub proof fn lemma_float32_of_pcm16_nearest(v: int)
    requires
        -0x8000 <= v <= 0x7fff,
        v != 0,
    ensures
        0 <= float32_of_pcm16(v) < 0x1_0000_0000,
        f32_negative(float32_of_pcm16(v)) == (v < 0),
        112 <= f32_exponent(float32_of_pcm16(v)) <= 127,
        f32_scale(float32_of_pcm16(v)) == -(23 + binade(vstd::math::abs(v) as int)),
        ({
            let m = f32_significand(float32_of_pcm16(v));
            let scaled = vstd::math::abs(v) * pow2((-f32_scale(float32_of_pcm16(v))) as nat);
            &&& 0x80_0000 <= m < 0x100_0000
            &&& -32767 < 2 * (m * 32767 - scaled) <= 32767
        }),
{
    let a: int = vstd::math::abs(v) as int;
    lemma_normalized(a);
    let k: nat = binade(a);
    let n: int = normalized(a);
    let m: int = (2 * n * 0x80_0000 + 32767) / 65534;
    let bits: int = float32_of_pcm16(v);
    assert(0x80_0000 <= m < 0x100_0000);
    assert(-32767 < 2 * (m * 32767 - n * 0x80_0000) <= 32767);
    let sign: int = if v < 0 {
        0x8000_0000
    } else {
        0
    };
    assert(bits == sign + (127 - k) * 0x80_0000 + (m - 0x80_0000));
    assert(bits % 0x80_0000 == m - 0x80_0000);
    assert((bits / 0x80_0000) % 0x100 == 127 - k);
    lemma2_to64();
    lemma_pow2_adds(23, k);
    assert(a * pow2(23 + k) == n * 0x80_0000) by (nonlinear_arith)
        requires
            n == a * pow2(k),
            pow2(23 + k) == 0x80_0000 * pow2(k),
    ;
}

/// Converting a 16-bit sample to binary32 and back gives the same sample,
/// for every 16-bit sample.
pub proof fn lemma_sample_round_trip(v: int)
    requires
        -0x8000 <= v <= 0x7fff,
    ensures
        pcm16_of_float32(float32_of_pcm16(v)) == v,
{
    lemma2_to64();
    lemma2_to64_rest();
    if v == 0 {
        lemma_round_scaled_bounds(0, -149);
    } else {
        lemma_float32_of_pcm16_nearest(v);
        let bits: int = float32_of_pcm16(v);
        let a: int = vstd::math::abs(v) as int;
        let k: nat = binade(a);
        lemma_normalized(a);
        let m: int = f32_significand(bits);
        let unit: int = pow2(23 + k) as int;
        assert(unit >= 0x80_0000) by {
            if k > 0 {
                lemma_pow2_strictly_increases(23, 23 + k);
            }
        }
        let rest: int = 2 * (m * 32767 - a * unit) + unit;
        assert(2 * (m * 32767) + unit == a * (2 * unit) + rest) by (nonlinear_arith)
            requires
                rest == 2 * (m * 32767 - a * unit) + unit,
        ;
        lemma_fundamental_div_mod_converse(2 * (m * 32767) + unit, 2 * unit, a, rest);
        assert(round_scaled(m * 32767, -(23 + k)) == a);
    }
}

/// A sample at or beyond full scale is limited, not wrapped. Every result
/// lies in the 16-bit range. A binary32 value of 1.0 or more, positive
/// infinity included, goes to 32767; one of -1.0 or less goes to -32767 or
/// -32768; and one of -2.0 or less, negative infinity included, goes to
/// -32768.
pub proof fn lemma_out_of_range_is_clamped(bits: int)
    requires
        0 <= bits < 0x1_0000_0000,
    ensures
        -0x8000 <= pcm16_of_float32(bits) <= 0x7fff,
        !f32_is_nan(bits) && f32_exponent(bits) >= 127 && !f32_negative(bits)
            ==> pcm16_of_float32(bits) == 0x7fff,
        !f32_is_nan(bits) && f32_exponent(bits) >= 127 && f32_negative(bits)
            ==> pcm16_of_float32(bits) <= -0x7fff,
        !f32_is_nan(bits) && f32_exponent(bits) >= 128 && f32_negative(bits)
            ==> pcm16_of_float32(bits) == -0x8000,
{
    if !f32_is_nan(bits) && !f32_is_infinite(bits) {
        let n: int = f32_significand(bits) * 32767;
        lemma_round_scaled_bounds(n, f32_scale(bits));
        if f32_exponent(bits) == 127 {
            lemma2_to64();
            let unit: int = pow2(23) as int;
            assert((2 * n + unit) / (2 * unit) >= 0x7fff) by (nonlinear_arith)
                requires
                    n >= 0x80_0000 * 32767,
                    unit == 0x80_0000,
            ;
        }
    }
}

} // verus!
