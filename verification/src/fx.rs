//! Fixed-point scalar arithmetic for the simulation.
//!
//! Every physical quantity (position, velocity, mass, radius, elapsed time)
//! is a real number represented in two's-complement binary fixed point: a
//! value `v` is carried as the `i64` nearest `v * 2^24`. All operations are
//! total: they saturate at `FX_MAX_RAW` in magnitude instead of overflowing,
//! division by zero yields zero, and the square root of a non-positive value
//! is zero. Each operation's result is pinned down exactly, as an integer
//! function of the operands' raw representations.

use vstd::prelude::*;

verus! {

/// Raw representation of 1.0: the fixed-point scale, `2^24`.
pub const FX_ONE_RAW: i64 = 16777216;

/// Largest raw magnitude a scalar may carry; operations saturate here.
pub const FX_MAX_RAW: i64 = 0x7fff_ffff_ffff_ffff;

/// Raw representation of pi.
pub const FX_PI_RAW: i64 = 52707179;

/// Raw representation of one turn, `2 * pi`.
pub const FX_TAU_RAW: i64 = 105414357;

/// Raw representation of a quarter turn, `pi / 2`.
pub const FX_HALF_PI_RAW: i64 = 26353589;

/// Raw representation of `5 * pi * pi`, the constant of the sine
/// approximation's denominator.
pub const FIVE_PI_SQ_RAW: i64 = 827922424;

/// Raw representation of 16, the constant of the sine approximation's
/// numerator.
pub const SIXTEEN_RAW: i64 = 268435456;

/// A fixed-point scalar: the real value `raw / 2^24`.
#[derive(Clone, Copy, PartialEq, Eq, Structural, Debug)]
pub struct Fx {
    pub raw: i64,
}

/// Magnitude of an integer.
pub open spec fn mag(v: int) -> int {
    if v < 0 {
        -v
    } else {
        v
    }
}

/// Clamp an integer into the representable raw range.
pub open spec fn sat64(v: int) -> int {
    if v > FX_MAX_RAW {
        FX_MAX_RAW as int
    } else if v < -(FX_MAX_RAW as int) {
        -(FX_MAX_RAW as int)
    } else {
        v
    }
}

/// Reapply a sign to a non-negative magnitude.
pub open spec fn signed(neg: bool, m: int) -> int {
    if neg {
        -m
    } else {
        m
    }
}

/// Raw result of saturating fixed-point addition.
pub open spec fn fx_add_raw(a: int, b: int) -> int {
    sat64(a + b)
}

/// Raw result of saturating fixed-point subtraction.
pub open spec fn fx_sub_raw(a: int, b: int) -> int {
    sat64(a - b)
}

/// Raw result of fixed-point negation.
pub open spec fn fx_neg_raw(a: int) -> int {
    sat64(-a)
}

/// Raw result of fixed-point multiplication: the product of the magnitudes
/// is rescaled by `2^24` rounding toward zero, saturated, and signed.
pub open spec fn fx_mul_raw(a: int, b: int) -> int {
    signed((a < 0) != (b < 0), sat64(mag(a) * mag(b) / (FX_ONE_RAW as int)))
}

/// Raw result of fixed-point division: zero for a zero divisor, otherwise
/// the quotient of the magnitudes scaled by `2^24`, rounded toward zero,
/// saturated, and signed.
pub open spec fn fx_div_raw(a: int, b: int) -> int {
    if b == 0 {
        0
    } else {
        signed((a < 0) != (b < 0), sat64(mag(a) * (FX_ONE_RAW as int) / mag(b)))
    }
}

/// The integer square root: the greatest `r` with `r * r <= n` (zero for
/// `n <= 0`).
pub open spec fn spec_isqrt(n: int) -> int
    decreases n,
{
    if n <= 0 {
        0
    } else {
        let p = spec_isqrt(n - 1);
        if (p + 1) * (p + 1) <= n {
            p + 1
        } else {
            p
        }
    }
}

/// Raw result of the fixed-point square root: zero for non-positive input,
/// otherwise the integer square root of the raw value rescaled by `2^24`.
pub open spec fn fx_sqrt_raw(a: int) -> int {
    if a <= 0 {
        0
    } else {
        spec_isqrt(a * (FX_ONE_RAW as int))
    }
}

/// `spec_isqrt(n)` is the unique bracket root: its square is at most `n`
/// and the next square is beyond `n`.
pub proof fn lemma_isqrt_bracket(n: int)
    requires
        n >= 0,
    ensures
        spec_isqrt(n) >= 0,
        spec_isqrt(n) * spec_isqrt(n) <= n,
        n < (spec_isqrt(n) + 1) * (spec_isqrt(n) + 1),
    decreases n,
{
    if n > 0 {
        lemma_isqrt_bracket(n - 1);
        let p = spec_isqrt(n - 1);
        if (p + 1) * (p + 1) <= n {
            assert(n < (p + 2) * (p + 2)) by (nonlinear_arith)
                requires
                    n - 1 < (p + 1) * (p + 1),
                    p >= 0,
            ;
        }
    }
}

/// Any bracket root equals `spec_isqrt`.
pub proof fn lemma_isqrt_unique(n: int, r: int)
    requires
        n >= 0,
        r >= 0,
        r * r <= n,
        n < (r + 1) * (r + 1),
    ensures
        r == spec_isqrt(n),
{
    lemma_isqrt_bracket(n);
    let s = spec_isqrt(n);
    assert(r == s) by (nonlinear_arith)
        requires
            r >= 0,
            s >= 0,
            r * r <= n,
            n < (r + 1) * (r + 1),
            s * s <= n,
            n < (s + 1) * (s + 1),
    ;
}

/// `2^63` as a `u128`.
pub const P63_U128: u128 = 0x8000_0000_0000_0000;

/// `2^126` as a `u128`.
pub const P126_U128: u128 = 0x4000_0000_0000_0000_0000_0000_0000_0000;

/// Magnitude of an `i64`, exact even at `i64::MIN`.
fn mag_u128(a: i64) -> (m: u128)
    ensures
        m == mag(a as int),
{
    let w: i128 = a as i128;
    if w < 0 {
        (-w) as u128
    } else {
        w as u128
    }
}

/// Clamp a non-negative magnitude to the representable range and sign it.
fn clamp_signed(neg: bool, m: u128) -> (r: i64)
    ensures
        r as int == signed(neg, sat64(m as int)),
{
    let c: i64 = if m > FX_MAX_RAW as u128 {
        FX_MAX_RAW
    } else {
        m as i64
    };
    if neg {
        -c
    } else {
        c
    }
}

impl Fx {
    /// The scalar with the given raw representation.
    pub fn from_raw(raw: i64) -> (r: Fx)
        ensures
            r.raw == raw,
    {
        Fx { raw }
    }

    /// The scalar representing the integer `v` exactly.
    pub fn from_int(v: i32) -> (r: Fx)
        ensures
            r.raw == v * FX_ONE_RAW,
    {
        Fx { raw: (v as i64) * FX_ONE_RAW }
    }
}

/// Saturating fixed-point addition.
pub fn fx_add(a: Fx, b: Fx) -> (r: Fx)
    ensures
        r.raw == fx_add_raw(a.raw as int, b.raw as int),
{
    let s: i128 = a.raw as i128 + b.raw as i128;
    if s > FX_MAX_RAW as i128 {
        Fx { raw: FX_MAX_RAW }
    } else if s < -(FX_MAX_RAW as i128) {
        Fx { raw: -FX_MAX_RAW }
    } else {
        Fx { raw: s as i64 }
    }
}

/// Saturating fixed-point subtraction.
pub fn fx_sub(a: Fx, b: Fx) -> (r: Fx)
    ensures
        r.raw == fx_sub_raw(a.raw as int, b.raw as int),
{
    let s: i128 = a.raw as i128 - b.raw as i128;
    if s > FX_MAX_RAW as i128 {
        Fx { raw: FX_MAX_RAW }
    } else if s < -(FX_MAX_RAW as i128) {
        Fx { raw: -FX_MAX_RAW }
    } else {
        Fx { raw: s as i64 }
    }
}

/// Fixed-point negation.
pub fn fx_neg(a: Fx) -> (r: Fx)
    ensures
        r.raw == fx_neg_raw(a.raw as int),
{
    let s: i128 = -(a.raw as i128);
    if s > FX_MAX_RAW as i128 {
        Fx { raw: FX_MAX_RAW }
    } else {
        Fx { raw: s as i64 }
    }
}

/// Saturating fixed-point multiplication.
pub fn fx_mul(a: Fx, b: Fx) -> (r: Fx)
    ensures
        r.raw == fx_mul_raw(a.raw as int, b.raw as int),
{
    let neg: bool = (a.raw < 0) != (b.raw < 0);
    let am: u128 = mag_u128(a.raw);
    let bm: u128 = mag_u128(b.raw);
    assert(am * bm <= 0x8000_0000_0000_0000u128 * 0x8000_0000_0000_0000u128) by (nonlinear_arith)
        requires
            am <= 0x8000_0000_0000_0000u128,
            bm <= 0x8000_0000_0000_0000u128,
    ;
    let q: u128 = (am * bm) / (FX_ONE_RAW as u128);
    Fx { raw: clamp_signed(neg, q) }
}

/// Saturating fixed-point division; a zero divisor yields zero.
pub fn fx_div(a: Fx, b: Fx) -> (r: Fx)
    ensures
        r.raw == fx_div_raw(a.raw as int, b.raw as int),
{
    if b.raw == 0 {
        return Fx { raw: 0 };
    }
    let neg: bool = (a.raw < 0) != (b.raw < 0);
    let am: u128 = mag_u128(a.raw);
    let bm: u128 = mag_u128(b.raw);
    assert(am * (FX_ONE_RAW as u128) <= P63_U128 * 0x100_0000u128) by (nonlinear_arith)
        requires
            am <= P63_U128,
    ;
    let q: u128 = (am * (FX_ONE_RAW as u128)) / bm;
    Fx { raw: clamp_signed(neg, q) }
}

/// The integer square root of `n`, by bisection.
fn isqrt_u128(n: u128) -> (r: u128)
    requires
        n < P126_U128,
    ensures
        r * r <= n,
        n < (r + 1) * (r + 1),
{
    let mut lo: u128 = 0;
    let mut hi: u128 = P63_U128;
    assert(P63_U128 * P63_U128 == P126_U128);
    assert((P63_U128 + 1) * (P63_U128 + 1) > P126_U128) by (nonlinear_arith)
        requires
            P63_U128 * P63_U128 == P126_U128,
    ;
    while lo < hi
        invariant
            lo <= hi,
            hi <= P63_U128,
            lo * lo <= n,
            n < (hi + 1) * (hi + 1),
            n < P126_U128,
        decreases hi - lo,
    {
        let mid: u128 = lo + (hi - lo + 1) / 2;
        assert(mid * mid <= P63_U128 * P63_U128) by (nonlinear_arith)
            requires
                mid <= P63_U128,
        ;
        assert(P63_U128 * P63_U128 == P126_U128);
        if mid * mid <= n {
            lo = mid;
        } else {
            hi = mid - 1;
        }
    }
    lo
}

/// Fixed-point square root: zero for non-positive input.
pub fn fx_sqrt(a: Fx) -> (r: Fx)
    ensures
        r.raw == fx_sqrt_raw(a.raw as int),
{
    if a.raw <= 0 {
        return Fx { raw: 0 };
    }
    let n: u128 = (a.raw as u128) * (FX_ONE_RAW as u128);
    assert(n < P126_U128) by (nonlinear_arith)
        requires
            n == (a.raw as u128) * (FX_ONE_RAW as u128),
            a.raw as u128 <= 0x8000_0000_0000_0000u128,
    ;
    let s = isqrt_u128(n);
    proof {
        lemma_isqrt_unique(n as int, s as int);
        assert(s < 0x1_0000_0000_0000u128) by (nonlinear_arith)
            requires
                s * s <= n,
                n < P126_U128,
                n == (a.raw as u128) * (FX_ONE_RAW as u128),
                a.raw as u128 <= 0x8000_0000_0000_0000u128,
        ;
    }
    Fx { raw: s as i64 }
}

/// Raw result of the rational sine approximation on a half turn:
/// `16 x (pi - x) / (5 pi^2 - 4 x (pi - x))`, close to `sin(x)` for
/// `x` in `[0, pi]`.
pub open spec fn half_turn_sine_raw(x: int) -> int {
    let p = fx_mul_raw(x, fx_sub_raw(FX_PI_RAW as int, x));
    fx_div_raw(
        fx_mul_raw(SIXTEEN_RAW as int, p),
        fx_sub_raw(FIVE_PI_SQ_RAW as int, fx_mul_raw(67108864, p)),
    )
}

/// Raw result of the fixed-point sine on one turn: the half-turn
/// approximation, negated on the second half. Intended for `x` in
/// `[0, tau)`; defined by the same formula everywhere.
pub open spec fn fx_sin_raw(x: int) -> int {
    if x <= FX_PI_RAW {
        half_turn_sine_raw(x)
    } else {
        fx_neg_raw(half_turn_sine_raw(fx_sub_raw(x, FX_PI_RAW as int)))
    }
}

/// Raw result of the fixed-point cosine: the sine a quarter turn ahead,
/// wrapped back into one turn.
pub open spec fn fx_cos_raw(x: int) -> int {
    let y = fx_add_raw(x, FX_HALF_PI_RAW as int);
    if y >= FX_TAU_RAW {
        fx_sin_raw(fx_sub_raw(y, FX_TAU_RAW as int))
    } else {
        fx_sin_raw(y)
    }
}

/// Fixed-point sine, intended for arguments in `[0, tau)`.
pub fn fx_sin(x: Fx) -> (r: Fx)
    ensures
        r.raw == fx_sin_raw(x.raw as int),
{
    if x.raw <= FX_PI_RAW {
        half_turn_sine(x)
    } else {
        fx_neg(half_turn_sine(fx_sub(x, Fx { raw: FX_PI_RAW })))
    }
}

/// Fixed-point cosine, intended for arguments in `[0, tau)`.
pub fn fx_cos(x: Fx) -> (r: Fx)
    ensures
        r.raw == fx_cos_raw(x.raw as int),
{
    let y = fx_add(x, Fx { raw: FX_HALF_PI_RAW });
    if y.raw >= FX_TAU_RAW {
        fx_sin(fx_sub(y, Fx { raw: FX_TAU_RAW }))
    } else {
        fx_sin(y)
    }
}

/// The rational sine approximation on a half turn.
fn half_turn_sine(x: Fx) -> (r: Fx)
    ensures
        r.raw == half_turn_sine_raw(x.raw as int),
{
    let p = fx_mul(x, fx_sub(Fx { raw: FX_PI_RAW }, x));
    fx_div(
        fx_mul(Fx { raw: SIXTEEN_RAW }, p),
        fx_sub(Fx { raw: FIVE_PI_SQ_RAW }, fx_mul(Fx { raw: 67108864 }, p)),
    )
}

} // verus!
