//! Normalization of fixed-point vectors onto the unit sphere: each
//! component is divided by the floor square root of the squared norm, so
//! the result is pinned exactly as a function of the input.

use vstd::prelude::*;
use vstd::arithmetic::div_mod::lemma_div_pos_is_pos;
use crate::fixed::{Fx, FX_ONE, div_trunc, div_trunc_i128};
use crate::vec3::{
    Vec3Fx, VEC_BOUND, norm2, comps_within, sqrt_floor, isqrt_u128, abs_int, lemma_div_le,
    lemma_square_nonneg, lemma_square_bound,
};

verus! {

/// The value `normalize` returns: each component divided by the floor
/// square root of the squared norm, truncated toward zero; the zero vector
/// maps to itself.
pub open spec fn normalize_spec(v: Vec3Fx) -> Vec3Fx {
    if norm2(v) == 0 {
        v
    } else {
        let len = sqrt_floor(norm2(v) as nat) as int;
        Vec3Fx {
            x: Fx { raw: div_trunc(v.x.raw * (FX_ONE as int), len) as i64 },
            y: Fx { raw: div_trunc(v.y.raw * (FX_ONE as int), len) as i64 },
            z: Fx { raw: div_trunc(v.z.raw * (FX_ONE as int), len) as i64 },
        }
    }
}

impl Vec3Fx {
    /// Scales the vector to (approximately) unit length: each component
    /// becomes `c * 2^32 / sqrt_floor(norm2)`, truncated toward zero. The
    /// zero vector is returned unchanged; any other result has all
    /// components within one unit.
    pub fn normalize(self) -> (r: Vec3Fx)
        requires
            comps_within(self, VEC_BOUND as int),
        ensures
            norm2(self) == 0 ==> r == self,
            norm2(self) != 0 ==> {
                let len = sqrt_floor(norm2(self) as nat) as int;
                &&& r.x.raw == div_trunc(self.x.raw * (FX_ONE as int), len)
                &&& r.y.raw == div_trunc(self.y.raw * (FX_ONE as int), len)
                &&& r.z.raw == div_trunc(self.z.raw * (FX_ONE as int), len)
            },
            norm2(self) != 0 ==> comps_within(r, FX_ONE as int),
            r == normalize_spec(self),
{
        let s: i128 = self.norm2_i128();
        if s == 0 {
            return self;
        }
        let len: u128 = isqrt_u128(s as u128);
        proof {
            lemma_len_range(self, len as int, s as int);
        }
        let leni: i128 = len as i128;
        let rx: i64 = normalize_comp(self.x, leni);
        let ry: i64 = normalize_comp(self.y, leni);
        let rz: i64 = normalize_comp(self.z, leni);
        let r = Vec3Fx { x: Fx { raw: rx }, y: Fx { raw: ry }, z: Fx { raw: rz } };
        r
    }
}

/// A point of the unit sphere in the fixed-point model: components within
/// one unit and squared norm within a tight band around `1.0 * 1.0`
/// (eight raw units, about 2e-9 relative).
pub open spec fn on_unit_sphere(v: Vec3Fx) -> bool {
    &&& comps_within(v, FX_ONE as int)
    &&& (FX_ONE as int) * (FX_ONE as int) - 8 * (FX_ONE as int) <= norm2(v) <= (FX_ONE as int) * (
    FX_ONE as int) + 8 * (FX_ONE as int)
}

/// The fallback unit point used when a normalization leaves the band: the
/// positive x axis.
pub open spec fn x_unit() -> Vec3Fx {
    Vec3Fx { x: Fx { raw: FX_ONE }, y: Fx { raw: 0 }, z: Fx { raw: 0 } }
}

/// The value `onto_unit_sphere` returns: the normalization when it lands
/// inside the unit band, the x-axis unit point otherwise.
pub open spec fn onto_unit_sphere_spec(v: Vec3Fx) -> Vec3Fx {
    let u = normalize_spec(v);
    if on_unit_sphere(u) {
        u
    } else {
        x_unit()
    }
}

/// Normalizes and then checks the result against the unit band, so the
/// returned point provably lies on the unit sphere whatever the input was.
/// A vector whose length is not vanishingly small always passes the check;
/// a degenerate one falls back to the x-axis unit point.
pub fn onto_unit_sphere(v: Vec3Fx) -> (r: Vec3Fx)
    requires
        comps_within(v, VEC_BOUND as int),
    ensures
        r == onto_unit_sphere_spec(v),
        on_unit_sphere(r),
{
    let u = v.normalize();
    let n2: i128 = u.norm2_i128();
    proof {
        assert((FX_ONE as int) * (FX_ONE as int) == 0x1_0000_0000_0000_0000) by (nonlinear_arith);
    }
    let one2: i128 = (FX_ONE as i128) * (FX_ONE as i128);
    let slack: i128 = 8 * (FX_ONE as i128);
    if one2 - slack <= n2 && n2 <= one2 + slack {
        u
    } else {
        proof {
            lemma_x_unit_on_sphere();
        }
        Vec3Fx { x: Fx { raw: FX_ONE }, y: Fx { raw: 0 }, z: Fx { raw: 0 } }
    }
}

/// The x-axis unit point lies exactly on the unit sphere.
proof fn lemma_x_unit_on_sphere()
    ensures
        on_unit_sphere(x_unit()),
        norm2(x_unit()) == (FX_ONE as int) * (FX_ONE as int),
{
    assert(norm2(x_unit()) == (FX_ONE as int) * (FX_ONE as int)) by (nonlinear_arith);
}

/// Divides one component by the vector length; the quotient of a component
/// bounded by the length stays within one unit.
fn normalize_comp(c: Fx, leni: i128) -> (r: i64)
    requires
        -VEC_BOUND <= c.raw <= VEC_BOUND,
        1 <= leni <= 0x8_0000_0000_0000,
        c.raw * c.raw <= (leni + 1) * (leni + 1) - 1,
    ensures
        r == div_trunc(c.raw * (FX_ONE as int), leni as int),
        -FX_ONE <= r <= FX_ONE,
{
    proof {
        lemma_comp_le_len(c.raw as int, leni as int);
    }
    let p: i128 = (c.raw as i128) * (FX_ONE as i128);
    let q: i128 = div_trunc_i128(p, leni);
    proof {
        let a = abs_int(c.raw as int) * (FX_ONE as int);
        lemma_div_pos_is_pos(a, leni as int);
        lemma_div_le(a, leni as int, FX_ONE as int);
        assert(a <= (FX_ONE as int) * (leni as int)) by (nonlinear_arith)
            requires
                abs_int(c.raw as int) <= leni as int,
                a == abs_int(c.raw as int) * (FX_ONE as int),
                leni >= 1,
        ;
    }
    q as i64
}

/// A component whose square is below `(len + 1)^2` is at most `len` in
/// magnitude.
proof fn lemma_comp_le_len(c: int, len: int)
    requires
        len >= 1,
        c * c <= (len + 1) * (len + 1) - 1,
    ensures
        abs_int(c) <= len,
{
    assert(abs_int(c) <= len) by (nonlinear_arith)
        requires
            len >= 1,
            c * c <= (len + 1) * (len + 1) - 1,
            abs_int(c) == if c >= 0 { c } else { -c },
    ;
}

/// Range facts for the computed length: positive and below `2^43`, with
/// every component's square under the next perfect square.
proof fn lemma_len_range(v: Vec3Fx, len: int, s: int)
    requires
        comps_within(v, VEC_BOUND as int),
        s == norm2(v),
        s >= 1,
        len * len <= s,
        (len + 1) * (len + 1) > s,
        len >= 0,
    ensures
        1 <= len <= 0x8_0000_0000_0000,
        v.x.raw * v.x.raw <= (len + 1) * (len + 1) - 1,
        v.y.raw * v.y.raw <= (len + 1) * (len + 1) - 1,
        v.z.raw * v.z.raw <= (len + 1) * (len + 1) - 1,
        s <= len * len + 2 * len,
{
    lemma_square_nonneg(v.x.raw as int);
    lemma_square_nonneg(v.y.raw as int);
    lemma_square_nonneg(v.z.raw as int);
    lemma_square_bound(v.x.raw as int, VEC_BOUND as int);
    lemma_square_bound(v.y.raw as int, VEC_BOUND as int);
    lemma_square_bound(v.z.raw as int, VEC_BOUND as int);
    assert(len >= 1) by (nonlinear_arith)
        requires
            len >= 0,
            (len + 1) * (len + 1) > s,
            s >= 1,
    ;
    assert(len <= 0x8_0000_0000_0000) by (nonlinear_arith)
        requires
            len * len <= s,
            s <= 3 * ((VEC_BOUND as int) * (VEC_BOUND as int)),
            len >= 0,
            VEC_BOUND == 0x2000_0000_0000,
    ;
    assert(s <= len * len + 2 * len) by (nonlinear_arith)
        requires
            (len + 1) * (len + 1) > s,
    ;
    assert(v.x.raw * v.x.raw <= (len + 1) * (len + 1) - 1) by (nonlinear_arith)
        requires
            v.x.raw * v.x.raw + v.y.raw * v.y.raw + v.z.raw * v.z.raw == s,
            (len + 1) * (len + 1) > s,
            v.y.raw * v.y.raw >= 0,
            v.z.raw * v.z.raw >= 0,
    ;
    assert(v.y.raw * v.y.raw <= (len + 1) * (len + 1) - 1) by (nonlinear_arith)
        requires
            v.x.raw * v.x.raw + v.y.raw * v.y.raw + v.z.raw * v.z.raw == s,
            (len + 1) * (len + 1) > s,
            v.x.raw * v.x.raw >= 0,
            v.z.raw * v.z.raw >= 0,
    ;
    assert(v.z.raw * v.z.raw <= (len + 1) * (len + 1) - 1) by (nonlinear_arith)
        requires
            v.x.raw * v.x.raw + v.y.raw * v.y.raw + v.z.raw * v.z.raw == s,
            (len + 1) * (len + 1) > s,
            v.x.raw * v.x.raw >= 0,
            v.y.raw * v.y.raw >= 0,
    ;
}

} // verus!
