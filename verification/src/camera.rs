//! The camera: position, orientation and perspective parameters, and
//! the view and projection matrices they determine.
//!
//! All state is exact fractions, so both matrices are pure functions
//! of the state: calling `view` or `projection` twice on an unchanged
//! camera returns identical matrices. The field of view enters as
//! `focal`, the cotangent of half the field of view — the one
//! trigonometric quantity the projection formula needs — so that the
//! matrix math stays exact; the caller computes it once when choosing
//! the field of view.

use vstd::prelude::*;

use crate::matrix::{det2, det3, Matrix4x4, MatrixSpec, lemma_view_injective};
use crate::rational::{
    lemma_mul_neg_neg, lemma_mul_pos, lemma_mul_pos_neg, lemma_mul_zero, lemma_norm_sq_pos,
    lemma_pos_factor, mul_bounded, Quat, Rat, Vec3, COORD_BOUND,
};

verus! {

/// Entry (0,0) of the rotation named by `q`, scaled by `q.norm_sq()`.
pub open spec fn rot00(q: Quat) -> int {
    q.norm_sq() - 2 * (q.y * q.y + q.z * q.z)
}

/// Entry (0,1) of the scaled rotation.
pub open spec fn rot01(q: Quat) -> int {
    2 * (q.x * q.y - q.w * q.z)
}

/// Entry (0,2) of the scaled rotation.
pub open spec fn rot02(q: Quat) -> int {
    2 * (q.x * q.z + q.w * q.y)
}

/// Entry (1,0) of the scaled rotation.
pub open spec fn rot10(q: Quat) -> int {
    2 * (q.x * q.y + q.w * q.z)
}

/// Entry (1,1) of the scaled rotation.
pub open spec fn rot11(q: Quat) -> int {
    q.norm_sq() - 2 * (q.x * q.x + q.z * q.z)
}

/// Entry (1,2) of the scaled rotation.
pub open spec fn rot12(q: Quat) -> int {
    2 * (q.y * q.z - q.w * q.x)
}

/// Entry (2,0) of the scaled rotation.
pub open spec fn rot20(q: Quat) -> int {
    2 * (q.x * q.z - q.w * q.y)
}

/// Entry (2,1) of the scaled rotation.
pub open spec fn rot21(q: Quat) -> int {
    2 * (q.y * q.z + q.w * q.x)
}

/// Entry (2,2) of the scaled rotation.
pub open spec fn rot22(q: Quat) -> int {
    q.norm_sq() - 2 * (q.x * q.x + q.y * q.y)
}

/// Bound on every part of a view matrix of a well-formed camera.
pub open spec fn view_bound() -> int {
    24 * (COORD_BOUND as int) * (COORD_BOUND as int) * (COORD_BOUND as int)
}

/// Bound on every part of a projection matrix of a well-formed camera.
pub open spec fn projection_bound() -> int {
    2 * (COORD_BOUND as int) * (COORD_BOUND as int) * (COORD_BOUND as int) * (COORD_BOUND as int)
}

/// Camera state. Immutable during a render pass; changed only through
/// the explicit setters.
#[derive(Clone, Copy, Debug, PartialEq, Eq, Structural)]
pub struct Camera {
    pub position: Vec3,
    pub orientation: Quat,
    /// Cotangent of half the field of view.
    pub focal: Rat,
    pub aspect: Rat,
    pub near: Rat,
    pub far: Rat,
}

impl Camera {
    /// Every component well-formed: positive denominators, parts
    /// within the coordinate bound, a nonzero orientation.
    pub open spec fn wf(self) -> bool {
        &&& self.position.wf()
        &&& self.orientation.wf()
        &&& self.focal.wf()
        &&& self.aspect.wf()
        &&& self.near.wf()
        &&& self.far.wf()
    }

    /// The perspective parameters describe a real frustum: positive
    /// focal scale and aspect ratio, and clip planes with
    /// `0 < near < far` (compared as fractions).
    pub open spec fn valid_perspective(self) -> bool {
        &&& self.focal.num > 0
        &&& self.aspect.num > 0
        &&& self.near.num > 0
        &&& self.near.num * self.far.den < self.far.num * self.near.den
    }

    /// The default camera: at the origin with the identity
    /// orientation, a 45 degree field of view, unit aspect ratio and
    /// clip planes at 1/10 and 100. The focal scale for 45 degrees is
    /// cot(22.5 degrees) = 1 + sqrt(2), here as the nearest fraction
    /// whose parts stay within the coordinate bound.
    pub open spec fn default_spec() -> Camera {
        Camera {
            position: Vec3 { x: 0, y: 0, z: 0, den: 1 },
            orientation: Quat { x: 0, y: 0, z: 0, w: 1, den: 1 },
            focal: Rat { num: 33461, den: 13860 },
            aspect: Rat { num: 1, den: 1 },
            near: Rat { num: 1, den: 10 },
            far: Rat { num: 100, den: 1 },
        }
    }

    pub fn new() -> (c: Camera)
        ensures
            c == Camera::default_spec(),
            c.wf(),
            c.valid_perspective(),
    {
        Camera {
            position: Vec3 { x: 0, y: 0, z: 0, den: 1 },
            orientation: Quat { x: 0, y: 0, z: 0, w: 1, den: 1 },
            focal: Rat { num: 33461, den: 13860 },
            aspect: Rat { num: 1, den: 1 },
            near: Rat { num: 1, den: 10 },
            far: Rat { num: 100, den: 1 },
        }
    }

    pub fn set_position(&mut self, position: Vec3)
        requires
            position.wf(),
        ensures
            *final(self) == (Camera { position, ..*old(self) }),
    {
        self.position = position;
    }

    pub fn set_orientation(&mut self, orientation: Quat)
        requires
            orientation.wf(),
        ensures
            *final(self) == (Camera { orientation, ..*old(self) }),
    {
        self.orientation = orientation;
    }

    pub fn set_perspective(&mut self, focal: Rat, aspect: Rat, near: Rat, far: Rat)
        requires
            focal.wf(),
            aspect.wf(),
            near.wf(),
            far.wf(),
        ensures
            *final(self) == (Camera { focal, aspect, near, far, ..*old(self) }),
    {
        self.focal = focal;
        self.aspect = aspect;
        self.near = near;
        self.far = far;
    }

    /// The view matrix: the inverse of the camera's world placement,
    /// i.e. the transpose of its rotation composed with translation by
    /// the negated position, over the denominator
    /// `norm_sq(orientation) * position.den`.
    pub open spec fn view_spec(self) -> MatrixSpec {
        let q = self.orientation;
        let p = self.position;
        MatrixSpec {
            m00: rot00(q) * p.den,
            m01: rot10(q) * p.den,
            m02: rot20(q) * p.den,
            m03: -(rot00(q) * p.x + rot10(q) * p.y + rot20(q) * p.z),
            m10: rot01(q) * p.den,
            m11: rot11(q) * p.den,
            m12: rot21(q) * p.den,
            m13: -(rot01(q) * p.x + rot11(q) * p.y + rot21(q) * p.z),
            m20: rot02(q) * p.den,
            m21: rot12(q) * p.den,
            m22: rot22(q) * p.den,
            m23: -(rot02(q) * p.x + rot12(q) * p.y + rot22(q) * p.z),
            m30: 0,
            m31: 0,
            m32: 0,
            m33: q.norm_sq() * p.den,
            den: q.norm_sq() * p.den,
        }
    }

    /// The perspective projection matrix determined by `focal`,
    /// `aspect`, `near` and `far`. For parameters that describe no
    /// real frustum — an aspect ratio or focal scale that is not
    /// positive, or clip planes without `0 < near < far` — it is the
    /// identity: the degenerate choice this camera documents.
    pub open spec fn projection_spec(self) -> MatrixSpec {
        if self.valid_perspective() {
            let g = self.far.num * self.near.den - self.near.num * self.far.den;
            let fa = self.focal.den * self.aspect.num;
            MatrixSpec {
                m00: (self.focal.num * self.aspect.den) * g,
                m01: 0,
                m02: 0,
                m03: 0,
                m10: 0,
                m11: (self.focal.num * self.aspect.num) * g,
                m12: 0,
                m13: 0,
                m20: 0,
                m21: 0,
                m22: -((self.near.num * self.far.den + self.far.num * self.near.den) * fa),
                m23: -(2 * ((self.far.num * self.near.num) * fa)),
                m30: 0,
                m31: 0,
                m32: -(fa * g),
                m33: 0,
                den: fa * g,
            }
        } else {
            MatrixSpec::identity()
        }
    }

    /// Computes the view matrix. A pure function of the camera state:
    /// the result is `view_spec` exactly.
    pub fn view(&self) -> (m: Matrix4x4)
        requires
            self.wf(),
        ensures
            m@ == self.view_spec(),
            m@.bounded(view_bound()),
    {
        let q = self.orientation;
        let p = self.position;
        let ghost cb: int = COORD_BOUND as int;
        let xx: i128 = mul_bounded(q.x, q.x, Ghost(cb), Ghost(cb));
        let yy: i128 = mul_bounded(q.y, q.y, Ghost(cb), Ghost(cb));
        let zz: i128 = mul_bounded(q.z, q.z, Ghost(cb), Ghost(cb));
        let ww: i128 = mul_bounded(q.w, q.w, Ghost(cb), Ghost(cb));
        let xy: i128 = mul_bounded(q.x, q.y, Ghost(cb), Ghost(cb));
        let xz: i128 = mul_bounded(q.x, q.z, Ghost(cb), Ghost(cb));
        let yz: i128 = mul_bounded(q.y, q.z, Ghost(cb), Ghost(cb));
        let wx: i128 = mul_bounded(q.w, q.x, Ghost(cb), Ghost(cb));
        let wy: i128 = mul_bounded(q.w, q.y, Ghost(cb), Ghost(cb));
        let wz: i128 = mul_bounded(q.w, q.z, Ghost(cb), Ghost(cb));
        let s: i128 = xx + yy + zz + ww;
        let r00: i128 = s - 2 * (yy + zz);
        let r01: i128 = 2 * (xy - wz);
        let r02: i128 = 2 * (xz + wy);
        let r10: i128 = 2 * (xy + wz);
        let r11: i128 = s - 2 * (xx + zz);
        let r12: i128 = 2 * (yz - wx);
        let r20: i128 = 2 * (xz - wy);
        let r21: i128 = 2 * (yz + wx);
        let r22: i128 = s - 2 * (xx + yy);
        proof {
            lemma_norm_sq_pos(q);
            lemma_mul_pos(s as int, p.den as int);
        }
        let ghost rb: int = 8 * cb * cb;
        let den: i128 = mul_bounded(s, p.den, Ghost(4 * cb * cb), Ghost(cb));
        let t0: i128 = -(mul_bounded(r00, p.x, Ghost(rb), Ghost(cb)) + mul_bounded(
            r10,
            p.y,
            Ghost(rb),
            Ghost(cb),
        ) + mul_bounded(r20, p.z, Ghost(rb), Ghost(cb)));
        let t1: i128 = -(mul_bounded(r01, p.x, Ghost(rb), Ghost(cb)) + mul_bounded(
            r11,
            p.y,
            Ghost(rb),
            Ghost(cb),
        ) + mul_bounded(r21, p.z, Ghost(rb), Ghost(cb)));
        let t2: i128 = -(mul_bounded(r02, p.x, Ghost(rb), Ghost(cb)) + mul_bounded(
            r12,
            p.y,
            Ghost(rb),
            Ghost(cb),
        ) + mul_bounded(r22, p.z, Ghost(rb), Ghost(cb)));
        Matrix4x4 {
            m00: mul_bounded(r00, p.den, Ghost(rb), Ghost(cb)),
            m01: mul_bounded(r10, p.den, Ghost(rb), Ghost(cb)),
            m02: mul_bounded(r20, p.den, Ghost(rb), Ghost(cb)),
            m03: t0,
            m10: mul_bounded(r01, p.den, Ghost(rb), Ghost(cb)),
            m11: mul_bounded(r11, p.den, Ghost(rb), Ghost(cb)),
            m12: mul_bounded(r21, p.den, Ghost(rb), Ghost(cb)),
            m13: t1,
            m20: mul_bounded(r02, p.den, Ghost(rb), Ghost(cb)),
            m21: mul_bounded(r12, p.den, Ghost(rb), Ghost(cb)),
            m22: mul_bounded(r22, p.den, Ghost(rb), Ghost(cb)),
            m23: t2,
            m30: 0,
            m31: 0,
            m32: 0,
            m33: den,
            den,
        }
    }

    /// Computes the projection matrix; the identity when the
    /// parameters describe no real frustum. A pure function of the
    /// camera state: the result is `projection_spec` exactly.
    pub fn projection(&self) -> (m: Matrix4x4)
        requires
            self.wf(),
        ensures
            m@ == self.projection_spec(),
            m@.bounded(projection_bound()),
    {
        let ghost cb: int = COORD_BOUND as int;
        let nf: i128 = self.focal.num;
        let df: i128 = self.focal.den;
        let na: i128 = self.aspect.num;
        let da: i128 = self.aspect.den;
        let nn: i128 = self.near.num;
        let dn: i128 = self.near.den;
        let nr: i128 = self.far.num;
        let dr: i128 = self.far.den;
        let cross_near: i128 = mul_bounded(nn, dr, Ghost(cb), Ghost(cb));
        let cross_far: i128 = mul_bounded(nr, dn, Ghost(cb), Ghost(cb));
        if nf > 0 && na > 0 && nn > 0 && cross_near < cross_far {
            let g: i128 = cross_far - cross_near;
            let fa: i128 = mul_bounded(df, na, Ghost(cb), Ghost(cb));
            let m00: i128 = mul_bounded(
                mul_bounded(nf, da, Ghost(cb), Ghost(cb)),
                g,
                Ghost(cb * cb),
                Ghost(2 * cb * cb),
            );
            let m11: i128 = mul_bounded(
                mul_bounded(nf, na, Ghost(cb), Ghost(cb)),
                g,
                Ghost(cb * cb),
                Ghost(2 * cb * cb),
            );
            let m22: i128 = -mul_bounded(
                cross_near + cross_far,
                fa,
                Ghost(2 * cb * cb),
                Ghost(cb * cb),
            );
            let m23: i128 = -(2 * mul_bounded(
                mul_bounded(nr, nn, Ghost(cb), Ghost(cb)),
                fa,
                Ghost(cb * cb),
                Ghost(cb * cb),
            ));
            let den: i128 = mul_bounded(fa, g, Ghost(cb * cb), Ghost(2 * cb * cb));
            proof {
                lemma_mul_pos(df as int, na as int);
                lemma_mul_pos(fa as int, g as int);
            }
            Matrix4x4 {
                m00,
                m01: 0,
                m02: 0,
                m03: 0,
                m10: 0,
                m11,
                m12: 0,
                m13: 0,
                m20: 0,
                m21: 0,
                m22,
                m23,
                m30: 0,
                m31: 0,
                m32: -den,
                m33: 0,
                den,
            }
        } else {
            Matrix4x4::identity()
        }
    }

    /// The combined model-view-projection transform: the projection
    /// applied after the view. The model transform of the single quad
    /// is the identity, so the view matrix doubles as the model-view
    /// matrix.
    pub fn model_view_projection(&self) -> (m: Matrix4x4)
        requires
            self.wf(),
        ensures
            m@ == self.projection_spec().times(self.view_spec()),
    {
        let p = self.projection();
        let v = self.view();
        proof {
            assert(4 * (projection_bound() * view_bound()) <= i128::MAX as int)
                by (nonlinear_arith)
                requires
                    projection_bound() == 36893488147419103232,
                    view_bound() == 6755399441055744,
            ;
        }
        p.multiply(&v, Ghost(projection_bound()), Ghost(view_bound()))
    }
}

/// A camera at the origin with the identity orientation sees the world
/// untransformed: its view matrix is the identity.
pub proof fn lemma_view_identity(c: Camera)
    requires
        c.wf(),
        c.orientation.is_identity_rotation(),
        c.position.is_origin(),
    ensures
        c.view_spec().is_identity(),
{
    let q = c.orientation;
    let p = c.position;
    lemma_mul_zero(q.x as int, q.x as int);
    lemma_mul_zero(q.y as int, q.y as int);
    lemma_mul_zero(q.z as int, q.z as int);
    lemma_mul_zero(q.x as int, q.y as int);
    lemma_mul_zero(q.x as int, q.z as int);
    lemma_mul_zero(q.y as int, q.z as int);
    lemma_mul_zero(q.w as int, q.x as int);
    lemma_mul_zero(q.w as int, q.y as int);
    lemma_mul_zero(q.w as int, q.z as int);
    lemma_mul_zero(rot00(q), p.x as int);
    lemma_mul_zero(rot10(q), p.y as int);
    lemma_mul_zero(rot20(q), p.z as int);
    lemma_mul_zero(rot01(q), p.x as int);
    lemma_mul_zero(rot11(q), p.y as int);
    lemma_mul_zero(rot21(q), p.z as int);
    lemma_mul_zero(rot02(q), p.x as int);
    lemma_mul_zero(rot12(q), p.y as int);
    lemma_mul_zero(rot22(q), p.z as int);
    lemma_mul_zero(rot01(q), p.den as int);
    lemma_mul_zero(rot02(q), p.den as int);
    lemma_mul_zero(rot10(q), p.den as int);
    lemma_mul_zero(rot12(q), p.den as int);
    lemma_mul_zero(rot20(q), p.den as int);
    lemma_mul_zero(rot21(q), p.den as int);
}

/// For any valid perspective parameters the projection matrix is
/// non-singular: the determinant of its numerator matrix is nonzero
/// (and the shared denominator is positive).
pub proof fn lemma_projection_nonsingular(c: Camera)
    requires
        c.wf(),
        c.valid_perspective(),
    ensures
        c.projection_spec().det() != 0,
        c.projection_spec().den > 0,
{
    let m = c.projection_spec();
    let nf = c.focal.num as int;
    let df = c.focal.den as int;
    let na = c.aspect.num as int;
    let da = c.aspect.den as int;
    let nn = c.near.num as int;
    let dn = c.near.den as int;
    let nr = c.far.num as int;
    let dr = c.far.den as int;
    let g = nr * dn - nn * dr;
    let fa = df * na;
    // the four live entries have known signs
    lemma_mul_pos(nn, dr);
    lemma_pos_factor(nr, dn);
    lemma_mul_pos(nf, da);
    lemma_mul_pos(nf * da, g);
    lemma_mul_pos(nf, na);
    lemma_mul_pos(nf * na, g);
    lemma_mul_pos(df, na);
    lemma_mul_pos(fa, g);
    lemma_mul_pos(nr, nn);
    lemma_mul_pos(nr * nn, fa);
    assert(m.m00 > 0);
    assert(m.m11 > 0);
    assert(m.m23 < 0);
    assert(m.m32 < 0);
    // the determinant collapses to the product of those entries
    lemma_mul_zero(m.m01, det3(m.m10, m.m12, m.m13, m.m20, m.m22, m.m23, m.m30, m.m32, m.m33));
    lemma_mul_zero(m.m02, det3(m.m10, m.m11, m.m13, m.m20, m.m21, m.m23, m.m30, m.m31, m.m33));
    lemma_mul_zero(m.m03, det3(m.m10, m.m11, m.m12, m.m20, m.m21, m.m22, m.m30, m.m31, m.m32));
    lemma_mul_zero(m.m12, det2(m.m21, m.m23, m.m31, m.m33));
    lemma_mul_zero(m.m13, det2(m.m21, m.m22, m.m31, m.m32));
    lemma_mul_zero(m.m22, m.m33);
    lemma_mul_neg_neg(m.m23, m.m32);
    lemma_mul_pos_neg(m.m11, det2(m.m22, m.m23, m.m32, m.m33));
    lemma_mul_pos_neg(
        m.m00,
        det3(m.m11, m.m12, m.m13, m.m21, m.m22, m.m23, m.m31, m.m32, m.m33),
    );
    assert(m.det() < 0);
}

/// Two projection matrices computed from one unchanged camera state
/// are identical, bit for bit: the projection is a pure function of
/// the state.
pub proof fn lemma_projection_deterministic(c: Camera, first: Matrix4x4, second: Matrix4x4)
    requires
        first@ == c.projection_spec(),
        second@ == c.projection_spec(),
    ensures
        first == second,
{
    lemma_view_injective(first, second);
}

} // verus!
