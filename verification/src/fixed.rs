use vstd::arithmetic::div_mod::{lemma_basic_div, lemma_div_is_ordered, lemma_div_pos_is_pos};
use vstd::arithmetic::mul::{lemma_mul_inequality, lemma_mul_upper_bound};
use vstd::prelude::*;

verus! {

/// Fractional steps per whole unit: coordinates and scale factors are
/// fixed-point numbers with this denominator.
pub const FX_ONE: i64 = 65536;

/// Denominator of the product of a coordinate and a scale factor
/// (`FX_ONE * FX_ONE`).
pub const PX_UNIT: u64 = 0x1_0000_0000;

/// A signed UI-space coordinate, measured in steps of `1 / FX_ONE` of a
/// logical point.
#[derive(Clone, Copy, PartialEq, Eq, Structural, Debug)]
pub struct Fx {
    pub raw: i64,
}

/// A non-negative scale factor (physical pixels per logical point), measured
/// in steps of `1 / FX_ONE`.
#[derive(Clone, Copy, PartialEq, Eq, Structural, Debug)]
pub struct Scale {
    pub raw: u32,
}

/// Rounds the quotient `num / den` to the nearest integer, with halves
/// rounded away from zero.
pub open spec fn round_div(num: int, den: int) -> int {
    if num >= 0 {
        (num + den / 2) / den
    } else {
        -((-num + den / 2) / den)
    }
}

/// The physical-pixel position of coordinate `c` under scale `s`.
pub open spec fn px_of(c: Fx, s: Scale) -> int {
    round_div(c.raw * s.raw, PX_UNIT as int)
}

/// Multiplies a coordinate by a scale factor and rounds the product to the
/// nearest whole pixel, halves away from zero.
pub fn round_px(c: Fx, s: Scale) -> (r: i64)
    requires
        c.raw > i64::MIN,
    ensures
        r == px_of(c, s),
{
    let neg: bool = c.raw < 0;
    let abs: u128 = if neg {
        (-c.raw) as u128
    } else {
        c.raw as u128
    };
    proof {
        assert(abs <= 0x7fff_ffff_ffff_ffffu128);
        lemma_mul_upper_bound(abs as int, 0x7fff_ffff_ffff_ffff, s.raw as int, 0xffff_ffff);
    }
    let mag: u128 = abs * (s.raw as u128);
    let q: u128 = (mag + 0x8000_0000u128) / 0x1_0000_0000u128;
    proof {
        assert(q < 0x8000_0000_0000_0000u128) by {
            lemma_div_is_ordered(
                mag as int + 0x8000_0000,
                0x7fff_ffff_ffff_ffffint * 0xffff_ffffint + 0x8000_0000int,
                0x1_0000_0000,
            );
        }
        assert(mag == abs * s.raw);
        if neg {
            assert(abs == -(c.raw as int));
            assert((-(c.raw as int)) * (s.raw as int) == -((c.raw as int) * (s.raw as int)))
                by (nonlinear_arith);
            assert(mag == -(c.raw * s.raw));
        } else {
            assert(mag == c.raw * s.raw);
        }
    }
    if neg {
        proof {
            let num = c.raw * s.raw;
            if num >= 0 {
                // A negative coordinate with a zero scale: the product is zero.
                assert(num == 0 && mag == 0);
                lemma_basic_div(0x8000_0000, 0x1_0000_0000);
            }
        }
        -(q as i64)
    } else {
        q as i64
    }
}

/// Scaling to pixels preserves the order of coordinates.
pub proof fn lemma_px_monotonic(a: Fx, b: Fx, s: Scale)
    requires
        a.raw <= b.raw,
    ensures
        px_of(a, s) <= px_of(b, s),
{
    lemma_mul_inequality(a.raw as int, b.raw as int, s.raw as int);
    lemma_round_div_monotonic(a.raw * s.raw, b.raw * s.raw, PX_UNIT as int);
}

/// Rounding to the nearest integer preserves order, for a fixed positive
/// denominator.
pub proof fn lemma_round_div_monotonic(n1: int, n2: int, den: int)
    requires
        n1 <= n2,
        den > 0,
    ensures
        round_div(n1, den) <= round_div(n2, den),
{
    let h = den / 2;
    if n1 >= 0 {
        lemma_div_is_ordered(n1 + h, n2 + h, den);
    } else if n2 < 0 {
        lemma_div_is_ordered(-n2 + h, -n1 + h, den);
    } else {
        lemma_div_pos_is_pos(n2 + h, den);
        lemma_div_pos_is_pos(-n1 + h, den);
    }
}

/// Clamps `v` into the inclusive range `[lo, hi]`.
pub open spec fn clamp_spec(v: int, lo: int, hi: int) -> int {
    if v < lo {
        lo
    } else if v > hi {
        hi
    } else {
        v
    }
}

/// Clamps `v` into the inclusive range `[lo, hi]`.
pub fn clamp_i64(v: i64, lo: i64, hi: i64) -> (r: i64)
    requires
        lo <= hi,
    ensures
        r == clamp_spec(v as int, lo as int, hi as int),
{
    if v < lo {
        lo
    } else if v > hi {
        hi
    } else {
        v
    }
}

} // verus!
