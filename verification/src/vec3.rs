//! Fixed-point 3-vectors: arithmetic, dot/cross products, and normalization
//! onto the unit sphere with a proved bound on the resulting length.

use vstd::prelude::*;
use vstd::arithmetic::div_mod::{
    lemma_fundamental_div_mod, lemma_div_pos_is_pos, lemma_div_multiples_vanish,
    lemma_div_is_ordered,
};
use crate::fixed::{Fx, FX_ONE, div_trunc, fx_mul, div_trunc_i128};

verus! {

/// Largest component magnitude accepted by the vector operations; leaves
/// ample headroom (2^45 raw, about 8000 world units) for every product and
/// three-term sum to fit in the machine types.
pub const VEC_BOUND: i64 = 0x2000_0000_0000;

/// A 3-vector of Q31.32 fixed-point components.
#[derive(Clone, Copy, PartialEq, Eq, Structural, Debug)]
pub struct Vec3Fx {
    pub x: Fx,
    pub y: Fx,
    pub z: Fx,
}

/// Squared Euclidean norm of the raw representation: the raw norm of `v`
/// scaled by `2^64`.
pub open spec fn norm2(v: Vec3Fx) -> int {
    v.x.raw * v.x.raw + v.y.raw * v.y.raw + v.z.raw * v.z.raw
}

/// All three components within `b` in magnitude.
pub open spec fn comps_within(v: Vec3Fx, b: int) -> bool {
    -b <= v.x.raw <= b && -b <= v.y.raw <= b && -b <= v.z.raw <= b
}

/// The value `add` returns.
pub open spec fn add_spec(u: Vec3Fx, v: Vec3Fx) -> Vec3Fx {
    Vec3Fx {
        x: Fx { raw: (u.x.raw + v.x.raw) as i64 },
        y: Fx { raw: (u.y.raw + v.y.raw) as i64 },
        z: Fx { raw: (u.z.raw + v.z.raw) as i64 },
    }
}

/// The value `scale` returns.
pub open spec fn scale_spec(v: Vec3Fx, k: int) -> Vec3Fx {
    Vec3Fx {
        x: Fx { raw: fx_mul(v.x.raw as int, k) as i64 },
        y: Fx { raw: fx_mul(v.y.raw as int, k) as i64 },
        z: Fx { raw: fx_mul(v.z.raw as int, k) as i64 },
    }
}

/// The value `dot` returns.
pub open spec fn dot_spec(u: Vec3Fx, v: Vec3Fx) -> int {
    fx_mul(u.x.raw as int, v.x.raw as int) + fx_mul(u.y.raw as int, v.y.raw as int) + fx_mul(
        u.z.raw as int,
        v.z.raw as int,
    )
}

/// The value `cross` returns.
pub open spec fn cross_spec(u: Vec3Fx, v: Vec3Fx) -> Vec3Fx {
    Vec3Fx {
        x: Fx {
            raw: (fx_mul(u.y.raw as int, v.z.raw as int) - fx_mul(
                u.z.raw as int,
                v.y.raw as int,
            )) as i64,
        },
        y: Fx {
            raw: (fx_mul(u.z.raw as int, v.x.raw as int) - fx_mul(
                u.x.raw as int,
                v.z.raw as int,
            )) as i64,
        },
        z: Fx {
            raw: (fx_mul(u.x.raw as int, v.y.raw as int) - fx_mul(
                u.y.raw as int,
                v.x.raw as int,
            )) as i64,
        },
    }
}

/// Floor of the nonnegative square root, by digit-by-digit recursion.
pub open spec fn sqrt_floor(n: nat) -> nat
    decreases n,
{
    if n == 0 {
        0
    } else {
        let r = 2 * sqrt_floor(n / 4);
        if (r + 1) * (r + 1) <= n {
            r + 1
        } else {
            r
        }
    }
}

/// `sqrt_floor` really is the floor of the square root.
pub proof fn lemma_sqrt_floor_bounds(n: nat)
    ensures
        sqrt_floor(n) * sqrt_floor(n) <= n,
        (sqrt_floor(n) + 1) * (sqrt_floor(n) + 1) > n,
    decreases n,
{
    if n == 0 {
        assert(sqrt_floor(0) == 0);
        assert((sqrt_floor(n) + 1) * (sqrt_floor(n) + 1) > n) by (nonlinear_arith)
            requires
                n == 0,
                sqrt_floor(n) == 0,
        ;
    } else {
        let m = n / 4;
        lemma_sqrt_floor_bounds(m);
        let r0 = sqrt_floor(m);
        let r = 2 * r0;
        let s = sqrt_floor(n);
        assert(s == if (r + 1) * (r + 1) <= n {
            r + 1
        } else {
            r
        });
        lemma_fundamental_div_mod(n as int, 4);
        assert(4 * m <= n <= 4 * m + 3);
        assert(r * r <= 4 * m) by (nonlinear_arith)
            requires
                r == 2 * r0,
                r0 * r0 <= m,
        ;
        assert((r + 2) * (r + 2) >= 4 * m + 4) by (nonlinear_arith)
            requires
                r == 2 * r0,
                (r0 + 1) * (r0 + 1) > m,
        ;
        if (r + 1) * (r + 1) <= n {
            assert(s == r + 1);
            assert(s * s <= n) by (nonlinear_arith)
                requires
                    s == r + 1,
                    (r + 1) * (r + 1) <= n,
            ;
            assert((s + 1) * (s + 1) > n) by (nonlinear_arith)
                requires
                    s == r + 1,
                    (r + 2) * (r + 2) >= 4 * m + 4,
                    n <= 4 * m + 3,
            ;
        } else {
            assert(s == r);
            assert(s * s <= n) by (nonlinear_arith)
                requires
                    s == r,
                    r * r <= 4 * m,
                    4 * m <= n,
            ;
            assert((s + 1) * (s + 1) > n) by (nonlinear_arith)
                requires
                    s == r,
                    (r + 1) * (r + 1) > n,
            ;
        }
    }
}

/// Any integer bracketing the square root this way is `sqrt_floor`.
pub proof fn lemma_sqrt_unique(n: nat, r: nat)
    requires
        r * r <= n,
        (r + 1) * (r + 1) > n,
    ensures
        r == sqrt_floor(n),
{
    lemma_sqrt_floor_bounds(n);
    let s = sqrt_floor(n);
    assert(r == s) by (nonlinear_arith)
        requires
            r * r <= n,
            (r + 1) * (r + 1) > n,
            s * s <= n,
            (s + 1) * (s + 1) > n,
            r >= 0,
            s >= 0,
    ;
}

/// Floor square root of a `u128`, by binary search.
pub fn isqrt_u128(n: u128) -> (r: u128)
    ensures
        r == sqrt_floor(n as nat),
        r * r <= n,
        (r + 1) * (r + 1) > n,
{
    let mut lo: u128 = 0;
    let mut hi: u128 = 0x1_0000_0000_0000_0000;
    proof {
        assert(hi * hi > n) by (nonlinear_arith)
            requires
                hi == 0x1_0000_0000_0000_0000u128,
                n <= u128::MAX,
        ;
    }
    while lo + 1 < hi
        invariant
            lo < hi <= 0x1_0000_0000_0000_0000,
            lo * lo <= n,
            hi * hi > n,
        decreases hi - lo,
    {
        let mid: u128 = lo + (hi - lo) / 2;
        proof {
            assert(mid * mid <= 0xFFFF_FFFF_FFFF_FFFF * 0xFFFF_FFFF_FFFF_FFFFu128)
                by (nonlinear_arith)
                requires
                    0 <= mid <= 0xFFFF_FFFF_FFFF_FFFFu128,
            ;
        }
        if mid * mid <= n {
            lo = mid;
        } else {
            hi = mid;
        }
    }
    proof {
        lemma_sqrt_unique(n as nat, lo as nat);
    }
    lo
}

/// The truncated quotient of `a / d` is at most `c` whenever `a <= c * d`.
pub(crate) proof fn lemma_div_le(a: int, d: int, c: int)
    requires
        a >= 0,
        d >= 1,
        a <= c * d,
    ensures
        a / d <= c,
{
    assert(d * c == c * d) by (nonlinear_arith);
    lemma_div_multiples_vanish(c, d);
    lemma_div_is_ordered(a, c * d, d);
}

impl Vec3Fx {
    /// Builds a vector from three fixed-point components.
    pub fn new(x: Fx, y: Fx, z: Fx) -> (r: Vec3Fx)
        ensures
            r == (Vec3Fx { x, y, z }),
    {
        Vec3Fx { x, y, z }
    }

    /// The zero vector.
    pub fn zero() -> (r: Vec3Fx)
        ensures
            r.x.raw == 0 && r.y.raw == 0 && r.z.raw == 0,
    {
        Vec3Fx { x: Fx { raw: 0 }, y: Fx { raw: 0 }, z: Fx { raw: 0 } }
    }

    /// Componentwise sum.
    pub fn add(self, o: Vec3Fx) -> (r: Vec3Fx)
        requires
            comps_within(self, VEC_BOUND as int),
            comps_within(o, VEC_BOUND as int),
        ensures
            r.x.raw == self.x.raw + o.x.raw,
            r.y.raw == self.y.raw + o.y.raw,
            r.z.raw == self.z.raw + o.z.raw,
            r == add_spec(self, o),
    {
        Vec3Fx { x: self.x.add(o.x), y: self.y.add(o.y), z: self.z.add(o.z) }
    }

    /// Componentwise difference.
    pub fn sub(self, o: Vec3Fx) -> (r: Vec3Fx)
        requires
            comps_within(self, VEC_BOUND as int),
            comps_within(o, VEC_BOUND as int),
        ensures
            r.x.raw == self.x.raw - o.x.raw,
            r.y.raw == self.y.raw - o.y.raw,
            r.z.raw == self.z.raw - o.z.raw,
    {
        Vec3Fx { x: self.x.sub(o.x), y: self.y.sub(o.y), z: self.z.sub(o.z) }
    }

    /// Componentwise scaling by a fixed-point factor.
    pub fn scale(self, k: Fx) -> (r: Vec3Fx)
        requires
            comps_within(self, VEC_BOUND as int),
            -VEC_BOUND <= k.raw <= VEC_BOUND,
        ensures
            r.x.raw == fx_mul(self.x.raw as int, k.raw as int),
            r.y.raw == fx_mul(self.y.raw as int, k.raw as int),
            r.z.raw == fx_mul(self.z.raw as int, k.raw as int),
            r == scale_spec(self, k.raw as int),
    {
        proof {
            lemma_scale_fits(self.x.raw as int, k.raw as int);
            lemma_scale_fits(self.y.raw as int, k.raw as int);
            lemma_scale_fits(self.z.raw as int, k.raw as int);
        }
        Vec3Fx { x: self.x.mul(k), y: self.y.mul(k), z: self.z.mul(k) }
    }

    /// Dot product in fixed point, each product truncated toward zero.
    pub fn dot(self, o: Vec3Fx) -> (r: Fx)
        requires
            comps_within(self, VEC_BOUND as int),
            comps_within(o, VEC_BOUND as int),
        ensures
            r.raw == fx_mul(self.x.raw as int, o.x.raw as int) + fx_mul(
                self.y.raw as int,
                o.y.raw as int,
            ) + fx_mul(self.z.raw as int, o.z.raw as int),
            r.raw == dot_spec(self, o),
    {
        proof {
            lemma_scale_fits(self.x.raw as int, o.x.raw as int);
            lemma_scale_fits(self.y.raw as int, o.y.raw as int);
            lemma_scale_fits(self.z.raw as int, o.z.raw as int);
        }
        self.x.mul(o.x).add(self.y.mul(o.y)).add(self.z.mul(o.z))
    }

    /// Cross product in fixed point, each product truncated toward zero.
    pub fn cross(self, o: Vec3Fx) -> (r: Vec3Fx)
        requires
            comps_within(self, VEC_BOUND as int),
            comps_within(o, VEC_BOUND as int),
        ensures
            r.x.raw == fx_mul(self.y.raw as int, o.z.raw as int) - fx_mul(
                self.z.raw as int,
                o.y.raw as int,
            ),
            r.y.raw == fx_mul(self.z.raw as int, o.x.raw as int) - fx_mul(
                self.x.raw as int,
                o.z.raw as int,
            ),
            r.z.raw == fx_mul(self.x.raw as int, o.y.raw as int) - fx_mul(
                self.y.raw as int,
                o.x.raw as int,
            ),
            r == cross_spec(self, o),
    {
        proof {
            lemma_scale_fits(self.y.raw as int, o.z.raw as int);
            lemma_scale_fits(self.z.raw as int, o.y.raw as int);
            lemma_scale_fits(self.z.raw as int, o.x.raw as int);
            lemma_scale_fits(self.x.raw as int, o.z.raw as int);
            lemma_scale_fits(self.x.raw as int, o.y.raw as int);
            lemma_scale_fits(self.y.raw as int, o.x.raw as int);
        }
        Vec3Fx {
            x: self.y.mul(o.z).sub(self.z.mul(o.y)),
            y: self.z.mul(o.x).sub(self.x.mul(o.z)),
            z: self.x.mul(o.y).sub(self.y.mul(o.x)),
        }
    }

    /// Squared norm on 128-bit intermediates.
    pub fn norm2_i128(self) -> (s: i128)
        requires
            comps_within(self, VEC_BOUND as int),
        ensures
            s == norm2(self),
            s >= 0,
    {
        proof {
            lemma_square_nonneg(self.x.raw as int);
            lemma_square_nonneg(self.y.raw as int);
            lemma_square_nonneg(self.z.raw as int);
            lemma_square_bound(self.x.raw as int, VEC_BOUND as int);
            lemma_square_bound(self.y.raw as int, VEC_BOUND as int);
            lemma_square_bound(self.z.raw as int, VEC_BOUND as int);
        }
        (self.x.raw as i128) * (self.x.raw as i128) + (self.y.raw as i128) * (self.y.raw as i128)
            + (self.z.raw as i128) * (self.z.raw as i128)
    }

}

/// Magnitude of an integer.
pub open spec fn abs_int(a: int) -> int {
    if a >= 0 {
        a
    } else {
        -a
    }
}

/// Squares are nonnegative.
pub(crate) proof fn lemma_square_nonneg(a: int)
    ensures
        a * a >= 0,
{
    assert(a * a >= 0) by (nonlinear_arith);
}

/// A bounded value has a bounded square.
pub(crate) proof fn lemma_square_bound(a: int, b: int)
    requires
        -b <= a <= b,
        b >= 0,
    ensures
        a * a <= b * b,
{
    assert(a * a <= b * b) by (nonlinear_arith)
        requires
            -b <= a <= b,
            b >= 0,
    ;
}

/// The product of two values within `VEC_BOUND` keeps `fx_mul` within `i64`.
proof fn lemma_scale_fits(a: int, b: int)
    requires
        -VEC_BOUND <= a <= VEC_BOUND,
        -VEC_BOUND <= b <= VEC_BOUND,
    ensures
        -0x400_0000_0000_0000 <= fx_mul(a, b) <= 0x400_0000_0000_0000,
{
    let one = FX_ONE as int;
    assert(-(0x400_0000_0000_0000 * one) <= a * b <= 0x400_0000_0000_0000 * one)
        by (nonlinear_arith)
        requires
            -0x2000_0000_0000 <= a <= 0x2000_0000_0000,
            -0x2000_0000_0000 <= b <= 0x2000_0000_0000,
            one == 0x1_0000_0000,
    ;
    lemma_div_trunc_bound(a * b, one, 0x400_0000_0000_0000);
}

/// Truncating division shrinks magnitude: `|a| <= c * d` gives
/// `|a / d| <= c`.
pub(crate) proof fn lemma_div_trunc_bound(a: int, d: int, c: int)
    requires
        d >= 1,
        c >= 0,
        -(c * d) <= a <= c * d,
    ensures
        -c <= div_trunc(a, d) <= c,
{
    if a >= 0 {
        lemma_div_pos_is_pos(a, d);
        lemma_div_le(a, d, c);
    } else {
        lemma_div_pos_is_pos(-a, d);
        lemma_div_le(-a, d, c);
    }
}

} // verus!
