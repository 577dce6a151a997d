//! Fixed-point scalar arithmetic.
//!
//! Every scalar of the renderer is an `i64` carrying 16 fractional bits, so
//! `FX_ONE` stands for the real number one.  All operations are total: where a
//! mathematical result would leave the `i64` range it saturates, and division
//! by zero yields a saturated value of the dividend's sign.  Each executable
//! operation is pinned to a specification function, so every pipeline stage
//! built from these operations is a function of its inputs alone.

use vstd::prelude::*;
use vstd::arithmetic::div_mod::{
    lemma_fundamental_div_mod, lemma_fundamental_div_mod_converse, lemma_mod_add_multiples_vanish,
};

verus! {

/// The fixed-point representation of one: 2^16.
pub const FX_ONE: i64 = 65536;
/// The fixed-point representation of one half.
pub const FX_HALF: i64 = 32768;
/// The fixed-point representation of one quarter.
pub const FX_QUARTER: i64 = 16384;

pub open spec fn abs_s(x: int) -> int {
    if x >= 0 {
        x
    } else {
        -x
    }
}

/// Saturate a mathematical integer into the `i64` range.
pub open spec fn sat_s(x: int) -> int {
    if x > i64::MAX {
        i64::MAX as int
    } else if x < i64::MIN {
        i64::MIN as int
    } else {
        x
    }
}

/// Division truncating toward zero (the machine semantics for `/`).
pub open spec fn tdiv_s(p: int, q: int) -> int
    recommends
        q != 0,
{
    if (p >= 0) == (q >= 0) {
        abs_s(p) / abs_s(q)
    } else {
        -(abs_s(p) / abs_s(q))
    }
}

pub open spec fn fx_add_s(a: int, b: int) -> int {
    sat_s(a + b)
}

pub open spec fn fx_sub_s(a: int, b: int) -> int {
    sat_s(a - b)
}

pub open spec fn fx_mul_s(a: int, b: int) -> int {
    sat_s(tdiv_s(a * b, FX_ONE as int))
}

/// Fixed-point division; a zero divisor saturates by the dividend's sign.
pub open spec fn fx_div_s(a: int, b: int) -> int {
    if b == 0 {
        if a > 0 {
            i64::MAX as int
        } else if a < 0 {
            i64::MIN as int
        } else {
            0
        }
    } else {
        sat_s(tdiv_s(a * FX_ONE, b))
    }
}

pub open spec fn fx_abs_s(x: int) -> int {
    sat_s(abs_s(x))
}

pub open spec fn clamp_s(x: int, lo: int, hi: int) -> int {
    if x < lo {
        lo
    } else if x > hi {
        hi
    } else {
        x
    }
}

/// Clamp into the unit interval [0, FX_ONE].
pub open spec fn fx_clamp01_s(x: int) -> int {
    clamp_s(x, 0, FX_ONE as int)
}

pub proof fn lemma_mul_i64_range(a: int, b: int)
    requires
        i64::MIN <= a <= i64::MAX,
        i64::MIN <= b <= i64::MAX,
    ensures
        -0x40000000000000000000000000000000 <= a * b
            <= 0x40000000000000000000000000000000,
{
    assert(-0x40000000000000000000000000000000 <= a * b
        <= 0x40000000000000000000000000000000) by (nonlinear_arith)
        requires
            -0x8000000000000000 <= a <= 0x7fffffffffffffff,
            -0x8000000000000000 <= b <= 0x7fffffffffffffff,
    ;
}

pub fn sat_from_i128(x: i128) -> (r: i64)
    ensures
        r == sat_s(x as int),
{
    if x > i64::MAX as i128 {
        i64::MAX
    } else if x < i64::MIN as i128 {
        i64::MIN
    } else {
        x as i64
    }
}

pub fn tdiv_i128(p: i128, q: i128) -> (r: i128)
    requires
        q != 0,
        p > i128::MIN,
        q > i128::MIN,
    ensures
        r == tdiv_s(p as int, q as int),
        abs_s(r as int) <= abs_s(p as int),
{
    let pa: i128 = if p < 0 {
        -p
    } else {
        p
    };
    let qa: i128 = if q < 0 {
        -q
    } else {
        q
    };
    let d: i128 = pa / qa;
    proof {
        lemma_fundamental_div_mod(pa as int, qa as int);
        assert(d <= pa) by {
            assert(pa as int / qa as int <= pa) by (nonlinear_arith)
                requires
                    pa >= 0,
                    qa >= 1,
            ;
        }
    }
    if (p < 0) != (q < 0) {
        -d
    } else {
        d
    }
}

/// Saturating fixed-point addition.
pub fn fx_add(a: i64, b: i64) -> (r: i64)
    ensures
        r == fx_add_s(a as int, b as int),
{
    sat_from_i128(a as i128 + b as i128)
}

/// Saturating fixed-point subtraction.
pub fn fx_sub(a: i64, b: i64) -> (r: i64)
    ensures
        r == fx_sub_s(a as int, b as int),
{
    sat_from_i128(a as i128 - b as i128)
}

/// Saturating fixed-point multiplication: (a * b) / FX_ONE.
pub fn fx_mul(a: i64, b: i64) -> (r: i64)
    ensures
        r == fx_mul_s(a as int, b as int),
{
    proof {
        lemma_mul_i64_range(a as int, b as int);
    }
    let p: i128 = (a as i128) * (b as i128);
    let d: i128 = tdiv_i128(p, FX_ONE as i128);
    sat_from_i128(d)
}

/// Saturating fixed-point division: (a * FX_ONE) / b; total in b.
pub fn fx_div(a: i64, b: i64) -> (r: i64)
    ensures
        r == fx_div_s(a as int, b as int),
{
    if b == 0 {
        if a > 0 {
            i64::MAX
        } else if a < 0 {
            i64::MIN
        } else {
            0
        }
    } else {
        proof {
            lemma_mul_i64_range(a as int, FX_ONE as int);
        }
        let p: i128 = (a as i128) * (FX_ONE as i128);
        let d: i128 = tdiv_i128(p, b as i128);
        sat_from_i128(d)
    }
}

/// Saturating absolute value.
pub fn fx_abs(x: i64) -> (r: i64)
    ensures
        r == fx_abs_s(x as int),
{
    if x == i64::MIN {
        i64::MAX
    } else if x < 0 {
        -x
    } else {
        x
    }
}

/// Clamp `x` into [lo, hi].
pub fn fx_clamp(x: i64, lo: i64, hi: i64) -> (r: i64)
    requires
        lo <= hi,
    ensures
        r == clamp_s(x as int, lo as int, hi as int),
{
    if x < lo {
        lo
    } else if x > hi {
        hi
    } else {
        x
    }
}

/// Clamp `x` into the unit interval [0, FX_ONE].
pub fn fx_clamp01(x: i64) -> (r: i64)
    ensures
        r == fx_clamp01_s(x as int),
{
    fx_clamp(x, 0, FX_ONE)
}

/// Euclidean division and remainder of `x` by FX_ONE: the integer and
/// fractional parts of a fixed-point value.
pub fn fx_floor_parts(x: i64) -> (qr: (i64, i64))
    ensures
        qr.0 == (x as int) / (FX_ONE as int),
        qr.1 == (x as int) % (FX_ONE as int),
        x as int == qr.0 * (FX_ONE as int) + qr.1,
        0 <= qr.1 < FX_ONE,
        -0x1000000000000 <= qr.0 <= 0x1000000000000,
{
    let q0: i64 = x / FX_ONE;
    let r0: i64 = x % FX_ONE;
    if r0 < 0 {
        proof {
            lemma_fundamental_div_mod(-(x as int), FX_ONE as int);
            assert(x as int == (q0 - 1) * (FX_ONE as int) + (r0 + FX_ONE));
            lemma_fundamental_div_mod_converse(
                x as int,
                FX_ONE as int,
                q0 as int - 1,
                r0 as int + FX_ONE as int,
            );
        }
        (q0 - 1, r0 + FX_ONE)
    } else {
        proof {
            if x >= 0 {
                lemma_fundamental_div_mod_converse(x as int, FX_ONE as int, q0 as int, r0 as int);
            } else {
                lemma_fundamental_div_mod(-(x as int), FX_ONE as int);
                assert(x as int == q0 * (FX_ONE as int) + r0);
                lemma_fundamental_div_mod_converse(x as int, FX_ONE as int, q0 as int, r0 as int);
            }
        }
        (q0, r0)
    }
}

/// The rising half-arch of the wave: 4u(FX_ONE - u) / FX_ONE for u in [0, FX_ONE).
pub open spec fn para_s(u: int) -> int
    recommends
        0 <= u < FX_ONE,
{
    (4 * u * (FX_ONE - u)) / (FX_ONE as int)
}

/// A sine-like periodic wave over fixed-point turns: period FX_ONE,
/// range [-FX_ONE, FX_ONE], one smooth positive arch then its mirror.
pub open spec fn wave_s(x: int) -> int {
    let r = x % (FX_ONE as int);
    if r < FX_HALF {
        para_s(2 * r)
    } else {
        -para_s(2 * r - FX_ONE)
    }
}

fn para(u: i64) -> (r: i64)
    requires
        0 <= u < FX_ONE,
    ensures
        r == para_s(u as int),
        0 <= r <= FX_ONE,
{
    proof {
        assert(0 <= 4 * (u as int) * (FX_ONE - u as int)
            <= 4 * (FX_HALF as int) * (FX_HALF as int)) by (nonlinear_arith)
            requires
                0 <= u < 65536,
                FX_ONE == 65536,
                FX_HALF == 32768,
        ;
    }
    let t: i64 = 4 * u * (FX_ONE - u);
    let r: i64 = t / FX_ONE;
    proof {
        assert(r == para_s(u as int));
        assert(t as int / (FX_ONE as int) <= FX_ONE) by (nonlinear_arith)
            requires
                0 <= t <= 4 * 32768 * 32768,
                FX_ONE == 65536,
        ;
    }
    r
}

/// The periodic wave, the renderer's stand-in for the sine of a phase
/// measured in turns.
pub fn fx_wave(x: i64) -> (r: i64)
    ensures
        r == wave_s(x as int),
        -FX_ONE <= r <= FX_ONE,
{
    let qr = fx_floor_parts(x);
    let rem: i64 = qr.1;
    if rem < FX_HALF {
        para(2 * rem)
    } else {
        let p: i64 = para(2 * rem - FX_ONE);
        -p
    }
}

/// The cosine companion of the wave: the wave a quarter turn ahead.
pub open spec fn cowave_s(x: int) -> int {
    wave_s(x % (FX_ONE as int) + FX_QUARTER)
}

/// The periodic wave shifted a quarter turn: the renderer's cosine.
pub fn fx_cowave(x: i64) -> (r: i64)
    ensures
        r == cowave_s(x as int),
        -FX_ONE <= r <= FX_ONE,
{
    let qr = fx_floor_parts(x);
    fx_wave(qr.1 + FX_QUARTER)
}

/// The wave repeats with period FX_ONE.
pub proof fn lemma_wave_periodic(x: int)
    ensures
        wave_s(x + FX_ONE) == wave_s(x),
{
    lemma_mod_add_multiples_vanish(x, FX_ONE as int);
}

} // verus!
