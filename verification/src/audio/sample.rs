//! Fixed-point sample arithmetic.
//!
//! A normalized amplitude is an integer count of `1 / FULL_SCALE`, so that
//! `FULL_SCALE` stands for `1.0` and `-FULL_SCALE` for `-1.0`. The scale is
//! the product of the two integer full-scale values, which makes the
//! normalization of signed and of unsigned 16-bit samples exact. Devices that
//! deliver floating-point samples are normalized by the caller, by rounding
//! `x * FULL_SCALE` to the nearest integer.
//!
//! Scaling back to 16 bits rounds to the nearest integer. No normalized
//! amplitude lies exactly between two 16-bit values, so the rounding never has
//! a tie to break.

use vstd::prelude::*;

verus! {

/// Largest magnitude of a signed 16-bit sample that maps into `[-1, 1]`.
pub const PCM_MAX: i64 = 32767;

/// Largest unsigned 16-bit sample.
pub const U16_SPAN: i64 = 65535;

/// The normalized amplitude `1.0`: `PCM_MAX * U16_SPAN`.
pub const FULL_SCALE: i64 = 2_147_385_345;

/// Division of `a` by a positive `b`, rounded toward zero.
pub open spec fn trunc_div(a: int, b: int) -> int
    recommends
        b > 0,
{
    if a >= 0 {
        a / b
    } else {
        -((-a) / b)
    }
}

/// `v` held to the closed interval `[lo, hi]`.
pub open spec fn clamp_spec(v: int, lo: int, hi: int) -> int
    recommends
        lo <= hi,
{
    if v < lo {
        lo
    } else if v > hi {
        hi
    } else {
        v
    }
}

/// A signed 16-bit sample `s` as a normalized amplitude: `s / 32767`, exactly.
pub open spec fn normalize_i16_spec(s: int) -> int {
    s * 65535
}

/// An unsigned 16-bit sample `u` as a normalized amplitude:
/// `(u / 65535) * 2 - 1`, exactly.
pub open spec fn normalize_u16_spec(u: int) -> int {
    (2 * u - 65535) * 32767
}

/// The 16-bit value nearest to `v * 32767 / FULL_SCALE`, after `v` has been
/// held to `[-FULL_SCALE, FULL_SCALE]`.
pub open spec fn quantize_spec(v: int) -> int {
    let c = clamp_spec(v, -(FULL_SCALE as int), FULL_SCALE as int);
    if c >= 0 {
        (c + 32767) / 65535
    } else {
        -((-c + 32767) / 65535)
    }
}

/// Normalizes a signed 16-bit device sample.
pub fn normalize_i16(s: i16) -> (v: i64)
    ensures
        v == normalize_i16_spec(s as int),
        -2_147_450_880 <= v <= FULL_SCALE,
{
    let wide: i64 = s as i64;
    wide * U16_SPAN
}

/// Normalizes an unsigned 16-bit device sample.
pub fn normalize_u16(u: u16) -> (v: i64)
    ensures
        v == normalize_u16_spec(u as int),
        -FULL_SCALE <= v <= FULL_SCALE,
{
    let wide: i64 = u as i64;
    (2 * wide - U16_SPAN) * PCM_MAX
}

/// Scales a normalized amplitude to the signed 16-bit range.
pub fn quantize(v: i64) -> (q: i16)
    ensures
        q == quantize_spec(v as int),
        -32767 <= q <= 32767,
{
    let c: i64 = if v < -FULL_SCALE {
        -FULL_SCALE
    } else if v > FULL_SCALE {
        FULL_SCALE
    } else {
        v
    };
    if c >= 0 {
        let q: i64 = (c + PCM_MAX) / U16_SPAN;
        q as i16
    } else {
        let q: i64 = (-c + PCM_MAX) / U16_SPAN;
        (-q) as i16
    }
}

/// The quantized value is the nearest 16-bit step: it differs from the exact
/// quotient `c / 65535` by less than one half, where `c` is `v` held to
/// `[-FULL_SCALE, FULL_SCALE]`.
pub proof fn lemma_quantize_is_nearest(v: int)
    ensures
        ({
            let c = clamp_spec(v, -(FULL_SCALE as int), FULL_SCALE as int);
            let q = quantize_spec(v);
            &&& -32767 <= q <= 32767
            &&& 2 * (q * 65535 - c) < 65535
            &&& 2 * (c - q * 65535) < 65535
        }),
{
    let c = clamp_spec(v, -(FULL_SCALE as int), FULL_SCALE as int);
    let m = if c >= 0 { c } else { -c };
    let a = m + 32767;
    assert(a == 65535 * (a / 65535) + a % 65535 && 0 <= a % 65535 < 65535) by {
        vstd::arithmetic::div_mod::lemma_fundamental_div_mod(a, 65535);
    }
}

/// Quantizing the normalization of a signed 16-bit sample gives the sample
/// back; only `-32768`, which lies below `-1.0`, comes back as `-32767`.
pub proof fn lemma_quantize_normalize_i16(s: int)
    requires
        -32768 <= s <= 32767,
    ensures
        quantize_spec(normalize_i16_spec(s)) == clamp_spec(s, -32767, 32767),
{
    let c = clamp_spec(normalize_i16_spec(s), -(FULL_SCALE as int), FULL_SCALE as int);
    let k = clamp_spec(s, -32767, 32767);
    let m = if k >= 0 { k } else { -k };
    assert(c == k * 65535);
    assert((m * 65535 + 32767) / 65535 == m) by {
        vstd::arithmetic::div_mod::lemma_fundamental_div_mod_converse(
            m * 65535 + 32767,
            65535,
            m,
            32767,
        );
    }
}

/// Quantizing the normalization of an unsigned 16-bit sample `u` gives the
/// 16-bit value nearest to `(2u - 65535) * 32767 / 65535`: `u - 32768` in the
/// upper half of the range, `u - 32767` in the lower.
pub proof fn lemma_quantize_normalize_u16(u: int)
    requires
        0 <= u <= 65535,
    ensures
        quantize_spec(normalize_u16_spec(u)) == if u >= 32768 {
            u - 32768
        } else {
            u - 32767
        },
{
    let n = normalize_u16_spec(u);
    if u >= 32768 {
        let h = u - 32768;
        assert(n + 32767 == 65535 * h + (65534 - h)) by (nonlinear_arith)
            requires
                n == (2 * u - 65535) * 32767,
                h == u - 32768,
        {
        }
        vstd::arithmetic::div_mod::lemma_fundamental_div_mod_converse(
            n + 32767,
            65535,
            h,
            65534 - h,
        );
    } else {
        let h = 32767 - u;
        assert(-n + 32767 == 65535 * h + (65534 - h)) by (nonlinear_arith)
            requires
                n == (2 * u - 65535) * 32767,
                h == 32767 - u,
        {
        }
        vstd::arithmetic::div_mod::lemma_fundamental_div_mod_converse(
            -n + 32767,
            65535,
            h,
            65534 - h,
        );
    }
}

} // verus!
