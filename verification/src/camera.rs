//! Stateful first-person camera: a position plus an orthonormal-in-intent
//! look/right/up basis, advanced and strafed along its own axes and rotated
//! incrementally. Rotations compose onto the previous basis, exactly as a
//! live camera accumulates them; the basis is never re-orthonormalized, so
//! small rounding drift accumulates over many frames — a deliberate,
//! documented limitation of the incremental scheme.
//!
//! Angles arrive in fixed-point degrees; the sine/cosine behind the
//! rotations fold in the degree-to-radian constant 3.1415/180.

use vstd::prelude::*;
use crate::fixed::{Fx, FX_ONE, fx_mul, fx_div, div_trunc};
use crate::vec3::{
    Vec3Fx, VEC_BOUND, comps_within, add_spec, scale_spec, dot_spec, cross_spec,
    lemma_div_trunc_bound,
};
use crate::unit::normalize_spec;
use crate::trig::{sin_fx, cos_fx, spec_sin_fx, spec_cos_fx};

verus! {

/// Largest basis-vector component the camera operations accept: far above
/// the unit-length vectors a camera actually carries, so realistic drift
/// never reaches it.
pub const CAM_BOUND: i64 = 0x100_0000_0000;

/// Largest position component the camera operations accept (about 4000
/// world units of roaming).
pub const CAM_POS_BOUND: i64 = 0x1000_0000_0000;

/// Largest per-call movement distance (about 16 world units per frame).
pub const CAM_DIST_BOUND: i64 = 0x10_0000_0000;

/// Perspective-projection parameters: aspect ratio, vertical field of view
/// in degrees, and the near and far clip distances.
#[derive(Clone, Copy, PartialEq, Eq, Structural, Debug)]
pub struct Projection {
    pub aspect: Fx,
    pub fov_degrees: Fx,
    pub near: Fx,
    pub far: Fx,
}

/// A free-flying first-person camera.
#[derive(Clone, Copy, PartialEq, Eq, Structural, Debug)]
pub struct FreeCamera {
    pub pos: Vec3Fx,
    pub projection: Projection,
    pub look: Vec3Fx,
    pub right: Vec3Fx,
    pub up: Vec3Fx,
}

/// Rotation about the world y axis with the given cosine and sine:
/// `x' = c x + s z`, `y' = y`, `z' = c z - s x`.
pub open spec fn rot_y_spec(c: int, s: int, v: Vec3Fx) -> Vec3Fx {
    Vec3Fx {
        x: Fx { raw: (fx_mul(v.x.raw as int, c) + fx_mul(v.z.raw as int, s)) as i64 },
        y: v.y,
        z: Fx { raw: (fx_mul(v.z.raw as int, c) - fx_mul(v.x.raw as int, s)) as i64 },
    }
}

/// Rodrigues rotation of `v` about the unit axis `k` with the given cosine
/// and sine: `c v + s (k x v) + (1 - c)(k . v) k`, in fixed point.
pub open spec fn rot_axis_spec(k: Vec3Fx, c: int, s: int, v: Vec3Fx) -> Vec3Fx {
    let t1 = scale_spec(v, c);
    let t2 = scale_spec(cross_spec(k, v), s);
    let t3 = scale_spec(k, fx_mul(dot_spec(k, v), (FX_ONE as int) - c));
    add_spec(add_spec(t1, t2), t3)
}

/// The camera state the mutating operations accept: basis and position
/// components within the machine-limit bounds.
pub open spec fn cam_within_limits(c: FreeCamera) -> bool {
    &&& comps_within(c.look, CAM_BOUND as int)
    &&& comps_within(c.right, CAM_BOUND as int)
    &&& comps_within(c.up, CAM_BOUND as int)
    &&& comps_within(c.pos, CAM_POS_BOUND as int)
    &&& crate::vec3::norm2(c.right) != 0
}

/// `fx_mul` of values within the given caps stays within `cap` whenever
/// `a_cap * b_cap <= cap * 2^32`.
pub(crate) proof fn lemma_fx_mul_le(a: int, b: int, a_cap: int, b_cap: int, cap: int)
    requires
        -a_cap <= a <= a_cap,
        -b_cap <= b <= b_cap,
        a_cap >= 0,
        b_cap >= 0,
        cap >= 0,
        a_cap * b_cap <= cap * (FX_ONE as int),
    ensures
        -cap <= fx_mul(a, b) <= cap,
{
    assert(-(cap * (FX_ONE as int)) <= a * b <= cap * (FX_ONE as int)) by (nonlinear_arith)
        requires
            -a_cap <= a <= a_cap,
            -b_cap <= b <= b_cap,
            a_cap >= 0,
            b_cap >= 0,
            a_cap * b_cap <= cap * (FX_ONE as int),
    ;
    lemma_div_trunc_bound(a * b, FX_ONE as int, cap);
}

/// Rotates `v` about the unit-length axis `k` by the angle whose cosine
/// and sine are given, exactly as `rot_axis_spec` states.
fn rotate_about(k: Vec3Fx, c: Fx, s: Fx, v: Vec3Fx) -> (r: Vec3Fx)
    requires
        comps_within(k, FX_ONE as int),
        comps_within(v, CAM_BOUND as int),
        -FX_ONE <= c.raw <= FX_ONE,
        -FX_ONE <= s.raw <= FX_ONE,
    ensures
        r == rot_axis_spec(k, c.raw as int, s.raw as int, v),
        comps_within(r, 0x1000_0000_0000),
{
    proof {
        let one = FX_ONE as int;
        let cb = CAM_BOUND as int;
        lemma_fx_mul_le(v.x.raw as int, c.raw as int, cb, one, cb);
        lemma_fx_mul_le(v.y.raw as int, c.raw as int, cb, one, cb);
        lemma_fx_mul_le(v.z.raw as int, c.raw as int, cb, one, cb);
        lemma_fx_mul_le(k.y.raw as int, v.z.raw as int, one, cb, cb);
        lemma_fx_mul_le(k.z.raw as int, v.y.raw as int, one, cb, cb);
        lemma_fx_mul_le(k.z.raw as int, v.x.raw as int, one, cb, cb);
        lemma_fx_mul_le(k.x.raw as int, v.z.raw as int, one, cb, cb);
        lemma_fx_mul_le(k.x.raw as int, v.y.raw as int, one, cb, cb);
        lemma_fx_mul_le(k.y.raw as int, v.x.raw as int, one, cb, cb);
        lemma_fx_mul_le(k.x.raw as int, v.x.raw as int, one, cb, cb);
        lemma_fx_mul_le(k.y.raw as int, v.y.raw as int, one, cb, cb);
        lemma_fx_mul_le(k.z.raw as int, v.z.raw as int, one, cb, cb);
    }
    let t1 = v.scale(c);
    let kxv = k.cross(v);
    let t2 = kxv.scale(s);
    let kv: Fx = k.dot(v);
    let omc = Fx { raw: FX_ONE - c.raw };
    proof {
        let one = FX_ONE as int;
        let cb = CAM_BOUND as int;
        lemma_fx_mul_le(kv.raw as int, omc.raw as int, 3 * cb, 2 * one, 6 * cb);
    }
    let fac = kv.mul(omc);
    let t3 = k.scale(fac);
    proof {
        let one = FX_ONE as int;
        let cb = CAM_BOUND as int;
        lemma_fx_mul_le(kxv.x.raw as int, s.raw as int, 2 * cb, one, 2 * cb);
        lemma_fx_mul_le(kxv.y.raw as int, s.raw as int, 2 * cb, one, 2 * cb);
        lemma_fx_mul_le(kxv.z.raw as int, s.raw as int, 2 * cb, one, 2 * cb);
        lemma_fx_mul_le(k.x.raw as int, fac.raw as int, one, 6 * cb, 6 * cb);
        lemma_fx_mul_le(k.y.raw as int, fac.raw as int, one, 6 * cb, 6 * cb);
        lemma_fx_mul_le(k.z.raw as int, fac.raw as int, one, 6 * cb, 6 * cb);
    }
    t1.add(t2).add(t3)
}

/// Rotates `v` about the world y axis, exactly as `rot_y_spec` states.
fn rotate_y(c: Fx, s: Fx, v: Vec3Fx) -> (r: Vec3Fx)
    requires
        comps_within(v, CAM_BOUND as int),
        -FX_ONE <= c.raw <= FX_ONE,
        -FX_ONE <= s.raw <= FX_ONE,
    ensures
        r == rot_y_spec(c.raw as int, s.raw as int, v),
        comps_within(r, 2 * CAM_BOUND as int),
{
    proof {
        let one = FX_ONE as int;
        let cb = CAM_BOUND as int;
        lemma_fx_mul_le(v.x.raw as int, c.raw as int, cb, one, cb);
        lemma_fx_mul_le(v.z.raw as int, s.raw as int, cb, one, cb);
        lemma_fx_mul_le(v.z.raw as int, c.raw as int, cb, one, cb);
        lemma_fx_mul_le(v.x.raw as int, s.raw as int, cb, one, cb);
    }
    Vec3Fx {
        x: v.x.mul(c).add(v.z.mul(s)),
        y: v.y,
        z: v.z.mul(c).sub(v.x.mul(s)),
    }
}

/// The world-to-camera rigid transform: three row axes and a translation.
#[derive(Clone, Copy, PartialEq, Eq, Structural, Debug)]
pub struct ViewTransform {
    pub x_axis: Vec3Fx,
    pub y_axis: Vec3Fx,
    pub z_axis: Vec3Fx,
    pub translation: Vec3Fx,
}

/// The transform `get_view_transform` returns: a look-at basis rebuilt
/// from the camera's look and up (the look direction renormalized as the
/// z axis, the x axis from `up x z` renormalized, the y axis completing
/// it), inverted into world-to-camera form, so the translation is the
/// negated projection of the position onto each axis.
pub open spec fn view_transform_spec(c: FreeCamera) -> ViewTransform {
    let z = normalize_spec(c.look);
    let x = normalize_spec(cross_spec(c.up, z));
    let y = cross_spec(z, x);
    ViewTransform {
        x_axis: x,
        y_axis: y,
        z_axis: z,
        translation: Vec3Fx {
            x: Fx { raw: (-dot_spec(x, c.pos)) as i64 },
            y: Fx { raw: (-dot_spec(y, c.pos)) as i64 },
            z: Fx { raw: (-dot_spec(z, c.pos)) as i64 },
        },
    }
}

/// A 4x4 fixed-point matrix, row-major, named `m<row><column>`.
#[derive(Clone, Copy, PartialEq, Eq, Structural, Debug)]
pub struct Mat4Fx {
    pub m00: Fx, pub m01: Fx, pub m02: Fx, pub m03: Fx,
    pub m10: Fx, pub m11: Fx, pub m12: Fx, pub m13: Fx,
    pub m20: Fx, pub m21: Fx, pub m22: Fx, pub m23: Fx,
    pub m30: Fx, pub m31: Fx, pub m32: Fx, pub m33: Fx,
}

/// The homogeneous 4x4 form of a rigid transform: axis rows, the
/// translation in the last column, and `(0 0 0 1)` below.
pub open spec fn mat4_of_view(vt: ViewTransform) -> Mat4Fx {
    Mat4Fx {
        m00: vt.x_axis.x, m01: vt.x_axis.y, m02: vt.x_axis.z, m03: vt.translation.x,
        m10: vt.y_axis.x, m11: vt.y_axis.y, m12: vt.y_axis.z, m13: vt.translation.y,
        m20: vt.z_axis.x, m21: vt.z_axis.y, m22: vt.z_axis.z, m23: vt.translation.z,
        m30: Fx { raw: 0 }, m31: Fx { raw: 0 }, m32: Fx { raw: 0 }, m33: Fx { raw: FX_ONE },
    }
}

/// Smallest half-angle sine the projection accepts: roughly a millionth,
/// so the cotangent stays representable.
pub const PROJ_MIN_SIN: i64 = 0x1000;

/// Whether `fx_div` of the raw pair stays inside `i64`.
pub open spec fn fx_div_fits(a: int, b: int) -> bool {
    i64::MIN <= fx_div(a, b) <= i64::MAX
}

/// The sine of half the field of view, under the same table the rotations
/// use.
pub open spec fn half_fov_sin(p: Projection) -> int {
    spec_sin_fx(div_trunc(p.fov_degrees.raw as int, 2))
}

/// The cotangent of half the field of view: the focal scale of the
/// perspective projection.
pub open spec fn focal_spec(p: Projection) -> int {
    fx_div(spec_cos_fx(div_trunc(p.fov_degrees.raw as int, 2)), half_fov_sin(p))
}

/// When the perspective matrix exists: a usable half-angle sine, a nonzero
/// aspect ratio, distinct clip planes, and every quotient representable.
pub open spec fn proj_ok(p: Projection) -> bool {
    let span = p.near.raw - p.far.raw;
    &&& half_fov_sin(p) >= PROJ_MIN_SIN
    &&& p.aspect.raw != 0
    &&& p.near.raw != p.far.raw
    &&& fx_div_fits(focal_spec(p), p.aspect.raw as int)
    &&& fx_div_fits(p.far.raw + p.near.raw, span)
    &&& fx_div_fits(2 * fx_mul(p.far.raw as int, p.near.raw as int), span)
}

/// The standard perspective matrix: `f/aspect` and `f` on the diagonal
/// with `f` the half-angle cotangent, the depth mapping
/// `(far+near)/(near-far)` and `2 far near/(near-far)` in the third row,
/// and `-1` projecting `z` into `w`.
pub open spec fn proj_matrix_spec(p: Projection) -> Mat4Fx {
    let f = focal_spec(p);
    let span = p.near.raw - p.far.raw;
    Mat4Fx {
        m00: Fx { raw: fx_div(f, p.aspect.raw as int) as i64 },
        m01: Fx { raw: 0 }, m02: Fx { raw: 0 }, m03: Fx { raw: 0 },
        m10: Fx { raw: 0 },
        m11: Fx { raw: f as i64 },
        m12: Fx { raw: 0 }, m13: Fx { raw: 0 },
        m20: Fx { raw: 0 }, m21: Fx { raw: 0 },
        m22: Fx { raw: fx_div(p.far.raw + p.near.raw, span) as i64 },
        m23: Fx { raw: fx_div(2 * fx_mul(p.far.raw as int, p.near.raw as int), span) as i64 },
        m30: Fx { raw: 0 }, m31: Fx { raw: 0 },
        m32: Fx { raw: (-FX_ONE) as i64 },
        m33: Fx { raw: 0 },
    }
}

impl Projection {
    /// Builds the perspective matrix, or `None` when the parameters are
    /// degenerate (a vanishing half-angle sine, a zero aspect ratio, equal
    /// clip planes, or an unrepresentable quotient).
    pub fn to_matrix(&self) -> (r: Option<Mat4Fx>)
        requires
            self.fov_degrees.raw > i64::MIN,
            -0x2000_0000_0000 <= self.aspect.raw <= 0x2000_0000_0000,
            -0x2000_0000_0000 <= self.near.raw <= 0x2000_0000_0000,
            -0x2000_0000_0000 <= self.far.raw <= 0x2000_0000_0000,
        ensures
            r is Some <==> proj_ok(*self),
            r is Some ==> r->0 == proj_matrix_spec(*self),
    {
        let half = self.fov_degrees.half();
        let s = sin_fx(half);
        let c = cos_fx(half);
        if s.raw < PROJ_MIN_SIN {
            return None;
        }
        if self.aspect.raw == 0 {
            return None;
        }
        if self.near.raw == self.far.raw {
            return None;
        }
        proof {
            lemma_focal_fits(c.raw as int, s.raw as int);
        }
        let f = c.div(s);
        let m00 = match f.checked_div(self.aspect) {
            Some(v) => v,
            None => {
                return None;
            },
        };
        let span = self.near.sub(self.far);
        let m22 = match self.far.add(self.near).checked_div(span) {
            Some(v) => v,
            None => {
                return None;
            },
        };
        proof {
            lemma_fx_mul_le(
                self.far.raw as int,
                self.near.raw as int,
                0x2000_0000_0000,
                0x2000_0000_0000,
                0x400_0000_0000_0000,
            );
        }
        let prod = self.far.mul(self.near);
        let num = Fx { raw: 2 * prod.raw };
        let m23 = match num.checked_div(span) {
            Some(v) => v,
            None => {
                return None;
            },
        };
        Some(
            Mat4Fx {
                m00,
                m01: Fx { raw: 0 }, m02: Fx { raw: 0 }, m03: Fx { raw: 0 },
                m10: Fx { raw: 0 },
                m11: f,
                m12: Fx { raw: 0 }, m13: Fx { raw: 0 },
                m20: Fx { raw: 0 }, m21: Fx { raw: 0 },
                m22,
                m23,
                m30: Fx { raw: 0 }, m31: Fx { raw: 0 },
                m32: Fx { raw: -FX_ONE },
                m33: Fx { raw: 0 },
            },
        )
    }
}

/// With the half-angle sine at least `PROJ_MIN_SIN`, the cotangent stays
/// well inside the raw range.
proof fn lemma_focal_fits(c: int, s: int)
    requires
        -FX_ONE <= c <= FX_ONE,
        PROJ_MIN_SIN <= s <= FX_ONE,
    ensures
        -0x10_0000_0000_0000 <= fx_div(c, s) <= 0x10_0000_0000_0000,
{
    let cap: int = 0x10_0000_0000_0000;
    assert(-(cap * s) <= c * (FX_ONE as int) <= cap * s) by (nonlinear_arith)
        requires
            -FX_ONE <= c <= FX_ONE,
            PROJ_MIN_SIN <= s,
            FX_ONE == 0x1_0000_0000i64,
            PROJ_MIN_SIN == 0x1000i64,
            cap == 0x10_0000_0000_0000,
    ;
    lemma_div_trunc_bound(c * (FX_ONE as int), s, cap);
}

impl FreeCamera {
    /// A camera at the origin looking down the negative z axis, with the
    /// canonical right and up axes and the given projection parameters.
    pub fn new(aspect: Fx, fov_degrees: Fx, near_clip: Fx, far_clip: Fx) -> (c: FreeCamera)
        ensures
            c == (FreeCamera {
                pos: Vec3Fx { x: Fx { raw: 0 }, y: Fx { raw: 0 }, z: Fx { raw: 0 } },
                projection: Projection { aspect, fov_degrees, near: near_clip, far: far_clip },
                look: Vec3Fx { x: Fx { raw: 0 }, y: Fx { raw: 0 }, z: Fx { raw: (-FX_ONE) as i64 } },
                right: Vec3Fx { x: Fx { raw: FX_ONE }, y: Fx { raw: 0 }, z: Fx { raw: 0 } },
                up: Vec3Fx { x: Fx { raw: 0 }, y: Fx { raw: FX_ONE }, z: Fx { raw: 0 } },
            }),
            cam_within_limits(c),
    {
        FreeCamera {
            pos: Vec3Fx { x: Fx { raw: 0 }, y: Fx { raw: 0 }, z: Fx { raw: 0 } },
            projection: Projection { aspect, fov_degrees, near: near_clip, far: far_clip },
            look: Vec3Fx { x: Fx { raw: 0 }, y: Fx { raw: 0 }, z: Fx { raw: -FX_ONE } },
            right: Vec3Fx { x: Fx { raw: FX_ONE }, y: Fx { raw: 0 }, z: Fx { raw: 0 } },
            up: Vec3Fx { x: Fx { raw: 0 }, y: Fx { raw: FX_ONE }, z: Fx { raw: 0 } },
        }
    }

    /// Whether the mutating operations accept this state; a caller outside
    /// verified code checks this before each frame.
    pub fn within_limits(&self) -> (b: bool)
        ensures
            b == cam_within_limits(*self),
    {
        comps_check(self.look, CAM_BOUND) && comps_check(self.right, CAM_BOUND) && comps_check(
            self.up,
            CAM_BOUND,
        ) && comps_check(self.pos, CAM_POS_BOUND) && self.right.norm2_i128() != 0
    }

    /// Moves the position along the look vector, scaled by `dist`; nothing
    /// else changes and no bounds are imposed on where the camera ends up.
    pub fn advance(&mut self, dist: Fx)
        requires
            cam_within_limits(*old(self)),
            -CAM_DIST_BOUND <= dist.raw <= CAM_DIST_BOUND,
        ensures
            final(self).pos == add_spec(old(self).pos, scale_spec(old(self).look, dist.raw as int)),
            final(self).look == old(self).look,
            final(self).right == old(self).right,
            final(self).up == old(self).up,
            final(self).projection == old(self).projection,
    {
        proof {
            lemma_step_fits(old(self).look, dist.raw as int);
        }
        self.pos = self.pos.add(self.look.scale(dist));
    }

    /// Moves the position along the right vector, scaled by `dist`.
    pub fn strafe(&mut self, dist: Fx)
        requires
            cam_within_limits(*old(self)),
            -CAM_DIST_BOUND <= dist.raw <= CAM_DIST_BOUND,
        ensures
            final(self).pos == add_spec(
                old(self).pos,
                scale_spec(old(self).right, dist.raw as int),
            ),
            final(self).look == old(self).look,
            final(self).right == old(self).right,
            final(self).up == old(self).up,
            final(self).projection == old(self).projection,
    {
        proof {
            lemma_step_fits(old(self).right, dist.raw as int);
        }
        self.pos = self.pos.add(self.right.scale(dist));
    }

    /// Pitch: rotates look and up about the current right axis
    /// (renormalized as the rotation axis) by the angle in degrees.
    pub fn rotate_up(&mut self, angle_in_degrees: Fx)
        requires
            cam_within_limits(*old(self)),
            angle_in_degrees.raw > i64::MIN,
        ensures
            ({
                let k = normalize_spec(old(self).right);
                let c = spec_cos_fx(angle_in_degrees.raw as int);
                let s = spec_sin_fx(angle_in_degrees.raw as int);
                &&& final(self).look == rot_axis_spec(k, c, s, old(self).look)
                &&& final(self).up == rot_axis_spec(k, c, s, old(self).up)
            }),
            final(self).right == old(self).right,
            final(self).pos == old(self).pos,
            final(self).projection == old(self).projection,
    {
        let k = self.right.normalize();
        let c = cos_fx(angle_in_degrees);
        let s = sin_fx(angle_in_degrees);
        self.look = rotate_about(k, c, s, self.look);
        self.up = rotate_about(k, c, s, self.up);
    }

    /// Yaw: rotates look, right and up about the world y axis by the angle
    /// in degrees.
    pub fn rotate_left(&mut self, angle_in_degrees: Fx)
        requires
            cam_within_limits(*old(self)),
            angle_in_degrees.raw > i64::MIN,
        ensures
            ({
                let c = spec_cos_fx(angle_in_degrees.raw as int);
                let s = spec_sin_fx(angle_in_degrees.raw as int);
                &&& final(self).look == rot_y_spec(c, s, old(self).look)
                &&& final(self).right == rot_y_spec(c, s, old(self).right)
                &&& final(self).up == rot_y_spec(c, s, old(self).up)
            }),
            final(self).pos == old(self).pos,
            final(self).projection == old(self).projection,
    {
        let c = cos_fx(angle_in_degrees);
        let s = sin_fx(angle_in_degrees);
        self.look = rotate_y(c, s, self.look);
        self.right = rotate_y(c, s, self.right);
        self.up = rotate_y(c, s, self.up);
    }

    /// The world-to-camera rigid transform from the current pose; it maps
    /// the camera position itself exactly to the origin.
    pub fn get_view_transform(&self) -> (vt: ViewTransform)
        requires
            cam_within_limits(*self),
        ensures
            vt == view_transform_spec(*self),
            dot_spec(vt.x_axis, self.pos) + vt.translation.x.raw == 0,
            dot_spec(vt.y_axis, self.pos) + vt.translation.y.raw == 0,
            dot_spec(vt.z_axis, self.pos) + vt.translation.z.raw == 0,
    {
        let z = self.look.normalize();
        proof {
            if crate::vec3::norm2(self.look) == 0 {
                lemma_zero_norm_is_zero(self.look);
            }
        }
        let uxz = self.up.cross(z);
        proof {
            lemma_cross_bound(self.up, z);
        }
        let x = uxz.normalize();
        proof {
            if crate::vec3::norm2(uxz) == 0 {
                lemma_zero_norm_is_zero(uxz);
            }
        }
        let y = z.cross(x);
        proof {
            lemma_cross_bound(z, x);
            lemma_dot_fits(x, *self);
            lemma_dot_fits(y, *self);
            lemma_dot_fits(z, *self);
        }
        let tx = x.dot(self.pos).neg();
        let ty = y.dot(self.pos).neg();
        let tz = z.dot(self.pos).neg();
        ViewTransform { x_axis: x, y_axis: y, z_axis: z, translation: Vec3Fx { x: tx, y: ty, z: tz } }
    }

    /// The view transform as a homogeneous 4x4 matrix.
    pub fn get_view_matrix(&self) -> (m: Mat4Fx)
        requires
            cam_within_limits(*self),
        ensures
            m == mat4_of_view(view_transform_spec(*self)),
    {
        let vt = self.get_view_transform();
        Mat4Fx {
            m00: vt.x_axis.x, m01: vt.x_axis.y, m02: vt.x_axis.z, m03: vt.translation.x,
            m10: vt.y_axis.x, m11: vt.y_axis.y, m12: vt.y_axis.z, m13: vt.translation.y,
            m20: vt.z_axis.x, m21: vt.z_axis.y, m22: vt.z_axis.z, m23: vt.translation.z,
            m30: Fx { raw: 0 }, m31: Fx { raw: 0 }, m32: Fx { raw: 0 }, m33: Fx { raw: FX_ONE },
        }
    }
}

/// Componentwise magnitude check against a bound.
fn comps_check(v: Vec3Fx, b: i64) -> (r: bool)
    requires
        b >= 0,
    ensures
        r == comps_within(v, b as int),
{
    -b <= v.x.raw && v.x.raw <= b && -b <= v.y.raw && v.y.raw <= b && -b <= v.z.raw && v.z.raw
        <= b
}

/// One movement step scaled from a bounded basis vector stays small enough
/// to add onto the position.
proof fn lemma_step_fits(v: Vec3Fx, dist: int)
    requires
        comps_within(v, CAM_BOUND as int),
        -CAM_DIST_BOUND <= dist <= CAM_DIST_BOUND,
    ensures
        comps_within(scale_spec(v, dist), VEC_BOUND as int),
        -0x1000_0000_0000 <= fx_mul(v.x.raw as int, dist) <= 0x1000_0000_0000,
        -0x1000_0000_0000 <= fx_mul(v.y.raw as int, dist) <= 0x1000_0000_0000,
        -0x1000_0000_0000 <= fx_mul(v.z.raw as int, dist) <= 0x1000_0000_0000,
{
    lemma_fx_mul_le(v.x.raw as int, dist, CAM_BOUND as int, CAM_DIST_BOUND as int, 0x1000_0000_0000);
    lemma_fx_mul_le(v.y.raw as int, dist, CAM_BOUND as int, CAM_DIST_BOUND as int, 0x1000_0000_0000);
    lemma_fx_mul_le(v.z.raw as int, dist, CAM_BOUND as int, CAM_DIST_BOUND as int, 0x1000_0000_0000);
}

/// A vector of squared norm zero is the zero vector.
proof fn lemma_zero_norm_is_zero(v: Vec3Fx)
    requires
        crate::vec3::norm2(v) == 0,
    ensures
        v.x.raw == 0 && v.y.raw == 0 && v.z.raw == 0,
{
    assert(v.x.raw == 0 && v.y.raw == 0 && v.z.raw == 0) by (nonlinear_arith)
        requires
            v.x.raw * v.x.raw + v.y.raw * v.y.raw + v.z.raw * v.z.raw == 0,
    ;
}

/// Cross products of vectors within the camera bounds stay within twice
/// the bound of the larger operand.
proof fn lemma_cross_bound(u: Vec3Fx, v: Vec3Fx)
    requires
        comps_within(u, 2 * CAM_BOUND as int),
        comps_within(v, FX_ONE as int),
    ensures
        comps_within(cross_spec(u, v), 4 * CAM_BOUND as int),
{
    let one = FX_ONE as int;
    let cb2 = 2 * CAM_BOUND as int;
    lemma_fx_mul_le(u.y.raw as int, v.z.raw as int, cb2, one, cb2);
    lemma_fx_mul_le(u.z.raw as int, v.y.raw as int, cb2, one, cb2);
    lemma_fx_mul_le(u.z.raw as int, v.x.raw as int, cb2, one, cb2);
    lemma_fx_mul_le(u.x.raw as int, v.z.raw as int, cb2, one, cb2);
    lemma_fx_mul_le(u.x.raw as int, v.y.raw as int, cb2, one, cb2);
    lemma_fx_mul_le(u.y.raw as int, v.x.raw as int, cb2, one, cb2);
}

/// Dot products of a near-unit axis with a bounded position fit well
/// inside `i64`.
proof fn lemma_dot_fits(axis: Vec3Fx, c: FreeCamera)
    requires
        comps_within(axis, 2 * VEC_BOUND as int),
        comps_within(c.pos, CAM_POS_BOUND as int),
    ensures
        -0x6000_0000_0000_0000 <= dot_spec(axis, c.pos) <= 0x6000_0000_0000_0000,
{
    let cap = 0x2000_0000_0000_0000;
    lemma_fx_mul_le(
        axis.x.raw as int,
        c.pos.x.raw as int,
        2 * VEC_BOUND as int,
        CAM_POS_BOUND as int,
        cap,
    );
    lemma_fx_mul_le(
        axis.y.raw as int,
        c.pos.y.raw as int,
        2 * VEC_BOUND as int,
        CAM_POS_BOUND as int,
        cap,
    );
    lemma_fx_mul_le(
        axis.z.raw as int,
        c.pos.z.raw as int,
        2 * VEC_BOUND as int,
        CAM_POS_BOUND as int,
        cap,
    );
}

} // verus!
