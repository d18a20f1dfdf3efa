//! Exact scalar arithmetic for the transform math.
//!
//! Every scalar the camera works with is a fraction of machine
//! integers. The bound `COORD_BOUND` on the parts of every input
//! fraction keeps each intermediate product of the matrix formulas
//! comfortably inside an `i128`, which is proved at every
//! multiplication site.

use vstd::prelude::*;

verus! {

/// Largest magnitude allowed for the numerator or denominator of any
/// camera parameter. Small enough that every product the matrix
/// formulas form fits in an `i128`.
pub const COORD_BOUND: i128 = 65536;

/// An exact fraction with the value `num / den`.
#[derive(Clone, Copy, Debug, PartialEq, Eq, Structural)]
pub struct Rat {
    pub num: i128,
    pub den: i128,
}

impl Rat {
    /// Positive denominator, both parts within the coordinate bound.
    pub open spec fn wf(self) -> bool {
        &&& 0 < self.den <= COORD_BOUND
        &&& -COORD_BOUND <= self.num <= COORD_BOUND
    }

    pub fn new(num: i128, den: i128) -> (r: Rat)
        requires
            0 < den <= COORD_BOUND,
            -COORD_BOUND <= num <= COORD_BOUND,
        ensures
            r == (Rat { num, den }),
    {
        Rat { num, den }
    }

    pub fn zero() -> (r: Rat)
        ensures
            r == (Rat { num: 0, den: 1 }),
    {
        Rat { num: 0, den: 1 }
    }

    pub fn one() -> (r: Rat)
        ensures
            r == (Rat { num: 1, den: 1 }),
    {
        Rat { num: 1, den: 1 }
    }
}

/// A point in space with one shared denominator: the value is
/// `(x, y, z) / den`.
#[derive(Clone, Copy, Debug, PartialEq, Eq, Structural)]
pub struct Vec3 {
    pub x: i128,
    pub y: i128,
    pub z: i128,
    pub den: i128,
}

impl Vec3 {
    pub open spec fn wf(self) -> bool {
        &&& 0 < self.den <= COORD_BOUND
        &&& -COORD_BOUND <= self.x <= COORD_BOUND
        &&& -COORD_BOUND <= self.y <= COORD_BOUND
        &&& -COORD_BOUND <= self.z <= COORD_BOUND
    }

    pub open spec fn is_origin(self) -> bool {
        self.x == 0 && self.y == 0 && self.z == 0
    }

    pub fn origin() -> (v: Vec3)
        ensures
            v == (Vec3 { x: 0, y: 0, z: 0, den: 1 }),
    {
        Vec3 { x: 0, y: 0, z: 0, den: 1 }
    }

    pub fn new(x: i128, y: i128, z: i128, den: i128) -> (v: Vec3)
        requires
            0 < den <= COORD_BOUND,
            -COORD_BOUND <= x <= COORD_BOUND,
            -COORD_BOUND <= y <= COORD_BOUND,
            -COORD_BOUND <= z <= COORD_BOUND,
        ensures
            v == (Vec3 { x, y, z, den }),
    {
        Vec3 { x, y, z, den }
    }
}

/// An orientation as a quaternion `(x, y, z, w) / den`. Any nonzero
/// quaternion names a rotation, and a quaternion and any positive
/// multiple of it name the same one, so there is no need to
/// normalise; the rotation formulas divide by the squared norm.
#[derive(Clone, Copy, Debug, PartialEq, Eq, Structural)]
pub struct Quat {
    pub x: i128,
    pub y: i128,
    pub z: i128,
    pub w: i128,
    pub den: i128,
}

impl Quat {
    pub open spec fn wf(self) -> bool {
        &&& 0 < self.den <= COORD_BOUND
        &&& -COORD_BOUND <= self.x <= COORD_BOUND
        &&& -COORD_BOUND <= self.y <= COORD_BOUND
        &&& -COORD_BOUND <= self.z <= COORD_BOUND
        &&& -COORD_BOUND <= self.w <= COORD_BOUND
        &&& !(self.x == 0 && self.y == 0 && self.z == 0 && self.w == 0)
    }

    /// The squared norm of the numerator vector; positive for any
    /// well-formed quaternion.
    pub open spec fn norm_sq(self) -> int {
        self.x * self.x + self.y * self.y + self.z * self.z + self.w * self.w
    }

    /// An orientation that does not rotate at all: no imaginary part.
    pub open spec fn is_identity_rotation(self) -> bool {
        self.x == 0 && self.y == 0 && self.z == 0
    }

    pub fn identity() -> (q: Quat)
        ensures
            q == (Quat { x: 0, y: 0, z: 0, w: 1, den: 1 }),
    {
        Quat { x: 0, y: 0, z: 0, w: 1, den: 1 }
    }

    pub fn new(x: i128, y: i128, z: i128, w: i128, den: i128) -> (q: Quat)
        requires
            0 < den <= COORD_BOUND,
            -COORD_BOUND <= x <= COORD_BOUND,
            -COORD_BOUND <= y <= COORD_BOUND,
            -COORD_BOUND <= z <= COORD_BOUND,
            -COORD_BOUND <= w <= COORD_BOUND,
            !(x == 0 && y == 0 && z == 0 && w == 0),
        ensures
            q == (Quat { x, y, z, w, den }),
    {
        Quat { x, y, z, w, den }
    }
}

/// Bounds on the factors bound the product.
pub proof fn lemma_mul_bound(a: int, b: int, ba: int, bb: int)
    by (nonlinear_arith)
    requires
        -ba <= a <= ba,
        -bb <= b <= bb,
    ensures
        -(ba * bb) <= a * b <= ba * bb,
{
}

/// A product of positive factors is positive.
pub proof fn lemma_mul_pos(a: int, b: int)
    by (nonlinear_arith)
    requires
        0 < a,
        0 < b,
    ensures
        0 < a * b,
{
}

/// A product of negative factors is positive.
pub proof fn lemma_mul_neg_neg(a: int, b: int)
    by (nonlinear_arith)
    requires
        a < 0,
        b < 0,
    ensures
        0 < a * b,
{
}

/// A positive factor times a negative factor is negative.
pub proof fn lemma_mul_pos_neg(a: int, b: int)
    by (nonlinear_arith)
    requires
        0 < a,
        b < 0,
    ensures
        a * b < 0,
{
}

/// A factor of a positive product is positive when the other factor is.
pub proof fn lemma_pos_factor(a: int, b: int)
    by (nonlinear_arith)
    requires
        0 < a * b,
        0 < b,
    ensures
        0 < a,
{
}

/// A product with a zero factor is zero.
pub proof fn lemma_mul_zero(a: int, b: int)
    by (nonlinear_arith)
    requires
        a == 0 || b == 0,
    ensures
        a * b == 0,
{
}

/// A nonzero quaternion has a positive squared norm.
pub proof fn lemma_norm_sq_pos(q: Quat)
    by (nonlinear_arith)
    requires
        !(q.x == 0 && q.y == 0 && q.z == 0 && q.w == 0),
    ensures
        q.norm_sq() > 0,
{
}

/// Multiplies two bounded values. The ghost bounds turn the absence
/// of overflow into a local fact at every call site.
pub fn mul_bounded(a: i128, b: i128, Ghost(ba): Ghost<int>, Ghost(bb): Ghost<int>) -> (r: i128)
    requires
        -ba <= a <= ba,
        -bb <= b <= bb,
        ba * bb <= i128::MAX as int,
    ensures
        r == a * b,
        -(ba * bb) <= r <= ba * bb,
{
    proof {
        lemma_mul_bound(a as int, b as int, ba, bb);
    }
    a * b
}

} // verus!
