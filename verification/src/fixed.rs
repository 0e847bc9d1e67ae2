//! Signed Q31.32 fixed-point scalars.
//!
//! A world-space quantity `v` is stored as the integer `raw == v * 2^32`,
//! giving a range of roughly +/- 2^31 world units with 2^-32 resolution.
//! All operations truncate toward zero, matching hardware integer division
//! on the magnitude.

use vstd::prelude::*;
use vstd::arithmetic::div_mod::{lemma_fundamental_div_mod, lemma_div_nonincreasing};

verus! {

/// The fixed-point representation of 1.0: one whole unit, `2^32`.
pub const FX_ONE: i64 = 0x1_0000_0000;

/// Quotient of `a / b` rounded toward zero (the rounding of machine integer
/// division), defined for `b > 0` via the Euclidean `/` on the magnitude.
pub open spec fn div_trunc(a: int, b: int) -> int {
    if a >= 0 {
        a / b
    } else {
        -((-a) / b)
    }
}

/// The real value `a * b` of two fixed-point raw values, rescaled back into
/// raw form and truncated toward zero.
pub open spec fn fx_mul(a: int, b: int) -> int {
    div_trunc(a * b, FX_ONE as int)
}

/// The real value `a / b` of two fixed-point raw values in raw form,
/// truncated toward zero.
pub open spec fn fx_div(a: int, b: int) -> int {
    if b >= 0 {
        div_trunc(a * (FX_ONE as int), b)
    } else {
        div_trunc(-(a * (FX_ONE as int)), -b)
    }
}

/// A signed Q31.32 fixed-point number.
#[derive(Clone, Copy, PartialEq, Eq, Structural, Debug, Hash)]
pub struct Fx {
    pub raw: i64,
}

/// Truncating division `a / b` for `b > 0`, computed on magnitudes so the
/// result matches `div_trunc` exactly.
pub fn div_trunc_i64(a: i64, b: i64) -> (q: i64)
    requires
        b >= 1,
        a > i64::MIN,
    ensures
        q == div_trunc(a as int, b as int),
{
    if a >= 0 {
        let m: u64 = a as u64;
        let qm: u64 = m / (b as u64);
        proof {
            lemma_div_nonincreasing(m as int, b as int);
        }
        qm as i64
    } else {
        let m: u64 = (-a) as u64;
        let qm: u64 = m / (b as u64);
        proof {
            lemma_div_nonincreasing(m as int, b as int);
        }
        -(qm as i64)
    }
}

/// Truncating division `a / b` for `b > 0` on 128-bit intermediates.
pub fn div_trunc_i128(a: i128, b: i128) -> (q: i128)
    requires
        b >= 1,
        a > i128::MIN,
    ensures
        q == div_trunc(a as int, b as int),
{
    if a >= 0 {
        let m: u128 = a as u128;
        let qm: u128 = m / (b as u128);
        proof {
            lemma_div_nonincreasing(m as int, b as int);
        }
        qm as i128
    } else {
        let m: u128 = (-a) as u128;
        let qm: u128 = m / (b as u128);
        proof {
            lemma_div_nonincreasing(m as int, b as int);
        }
        -(qm as i128)
    }
}

impl Fx {
    /// The raw integer value as a mathematical integer.
    pub open spec fn spec_raw(self) -> int {
        self.raw as int
    }

    /// The fixed-point number 0.
    pub fn zero() -> (r: Fx)
        ensures
            r.raw == 0,
    {
        Fx { raw: 0 }
    }

    /// The fixed-point number 1.
    pub fn one() -> (r: Fx)
        ensures
            r.raw == FX_ONE,
    {
        Fx { raw: FX_ONE }
    }

    /// Embeds a whole number of world units.
    pub fn from_int(v: i64) -> (r: Fx)
        requires
            -0x8000_0000 < v < 0x8000_0000,
        ensures
            r.raw == v * (FX_ONE as int),
    {
        Fx { raw: v * FX_ONE }
    }

    /// The whole-unit part, truncated toward zero.
    pub fn trunc(self) -> (r: i64)
        requires
            self.raw > i64::MIN,
        ensures
            r == div_trunc(self.raw as int, FX_ONE as int),
    {
        div_trunc_i64(self.raw, FX_ONE)
    }

    /// Fixed-point addition.
    pub fn add(self, o: Fx) -> (r: Fx)
        requires
            i64::MIN <= self.raw + o.raw <= i64::MAX,
        ensures
            r.raw == self.raw + o.raw,
    {
        Fx { raw: self.raw + o.raw }
    }

    /// Fixed-point subtraction.
    pub fn sub(self, o: Fx) -> (r: Fx)
        requires
            i64::MIN <= self.raw - o.raw <= i64::MAX,
        ensures
            r.raw == self.raw - o.raw,
    {
        Fx { raw: self.raw - o.raw }
    }

    /// Fixed-point negation.
    pub fn neg(self) -> (r: Fx)
        requires
            self.raw > i64::MIN,
        ensures
            r.raw == -self.raw,
    {
        Fx { raw: -self.raw }
    }

    /// Fixed-point multiplication, truncated toward zero.
    pub fn mul(self, o: Fx) -> (r: Fx)
        requires
            i64::MIN < fx_mul(self.raw as int, o.raw as int) <= i64::MAX,
        ensures
            r.raw == fx_mul(self.raw as int, o.raw as int),
    {
        let p: i128 = (self.raw as i128) * (o.raw as i128);
        proof {
            lemma_i64_product_fits(self.raw as int, o.raw as int);
        }
        let q: i128 = div_trunc_i128(p, FX_ONE as i128);
        Fx { raw: q as i64 }
    }

    /// Fixed-point division, truncated toward zero.
    pub fn div(self, o: Fx) -> (r: Fx)
        requires
            o.raw != 0,
            o.raw > i64::MIN,
            self.raw > i64::MIN,
            i64::MIN < fx_div(self.raw as int, o.raw as int) <= i64::MAX,
        ensures
            r.raw == fx_div(self.raw as int, o.raw as int),
    {
        proof {
            lemma_i64_product_fits(self.raw as int, FX_ONE as int);
        }
        let p: i128 = (self.raw as i128) * (FX_ONE as i128);
        let q: i128 = if o.raw >= 1 {
            div_trunc_i128(p, o.raw as i128)
        } else {
            div_trunc_i128(-p, (-o.raw) as i128)
        };
        Fx { raw: q as i64 }
    }

    /// Fixed-point division that reports instead of overflowing: `None`
    /// exactly when the true quotient does not fit the raw range.
    pub fn checked_div(self, o: Fx) -> (r: Option<Fx>)
        requires
            o.raw != 0,
            o.raw > i64::MIN,
            self.raw > i64::MIN,
        ensures
            r is Some <==> i64::MIN <= fx_div(self.raw as int, o.raw as int) <= i64::MAX,
            r is Some ==> r->0.raw == fx_div(self.raw as int, o.raw as int),
    {
        proof {
            lemma_i64_product_fits(self.raw as int, FX_ONE as int);
        }
        let p: i128 = (self.raw as i128) * (FX_ONE as i128);
        let q: i128 = if o.raw >= 1 {
            div_trunc_i128(p, o.raw as i128)
        } else {
            div_trunc_i128(-p, (-o.raw) as i128)
        };
        if (i64::MIN as i128) <= q && q <= (i64::MAX as i128) {
            Some(Fx { raw: q as i64 })
        } else {
            None
        }
    }

    /// Halves the value, truncating toward zero; used for edge midpoints.
    pub fn half(self) -> (r: Fx)
        requires
            self.raw > i64::MIN,
        ensures
            r.raw == div_trunc(self.raw as int, 2),
    {
        let q: i64 = div_trunc_i64(self.raw, 2);
        Fx { raw: q }
    }
}

/// The product of two `i64` values fits comfortably inside `i128`.
proof fn lemma_i64_product_fits(a: int, b: int)
    requires
        i64::MIN <= a <= i64::MAX,
        i64::MIN <= b <= i64::MAX,
    ensures
        -0x4000_0000_0000_0000_0000_0000_0000_0000 <= a * b
            <= 0x4000_0000_0000_0000_0000_0000_0000_0000,
{
    assert(-0x4000_0000_0000_0000_0000_0000_0000_0000 <= a * b
        <= 0x4000_0000_0000_0000_0000_0000_0000_0000) by (nonlinear_arith)
        requires
            -0x8000_0000_0000_0000 <= a <= 0x7FFF_FFFF_FFFF_FFFF,
            -0x8000_0000_0000_0000 <= b <= 0x7FFF_FFFF_FFFF_FFFF,
    ;
}

} // verus!
