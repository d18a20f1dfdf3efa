//! 4x4 matrices of exact fractions.
//!
//! A matrix holds sixteen integer numerators and one shared positive
//! denominator: entry (r, c) has the value `m{r}{c} / den`. The
//! mathematical model of a matrix is `MatrixSpec`, the same entries as
//! unbounded integers; a matrix is recovered exactly from its model.

use vstd::prelude::*;

use crate::rational::{lemma_mul_pos, mul_bounded};

verus! {

/// The mathematical value of a `Matrix4x4`: the integer numerators,
/// row by row, and the shared denominator.
pub ghost struct MatrixSpec {
    pub m00: int, pub m01: int, pub m02: int, pub m03: int,
    pub m10: int, pub m11: int, pub m12: int, pub m13: int,
    pub m20: int, pub m21: int, pub m22: int, pub m23: int,
    pub m30: int, pub m31: int, pub m32: int, pub m33: int,
    pub den: int,
}

/// Determinant of a 2x2 block.
pub open spec fn det2(a: int, b: int, c: int, d: int) -> int {
    a * d - b * c
}

/// Determinant of a 3x3 block, by cofactors along the first row.
pub open spec fn det3(
    a: int, b: int, c: int,
    d: int, e: int, f: int,
    g: int, h: int, i: int,
) -> int {
    a * det2(e, f, h, i) - b * det2(d, f, g, i) + c * det2(d, e, g, h)
}

impl MatrixSpec {
    /// The matrix with the value of the identity: diagonal entries
    /// equal to the denominator, the rest zero.
    pub open spec fn is_identity(self) -> bool {
        &&& self.m00 == self.den && self.m11 == self.den
        &&& self.m22 == self.den && self.m33 == self.den
        &&& self.m01 == 0 && self.m02 == 0 && self.m03 == 0
        &&& self.m10 == 0 && self.m12 == 0 && self.m13 == 0
        &&& self.m20 == 0 && self.m21 == 0 && self.m23 == 0
        &&& self.m30 == 0 && self.m31 == 0 && self.m32 == 0
    }

    /// The identity with denominator one.
    pub open spec fn identity() -> MatrixSpec {
        MatrixSpec {
            m00: 1, m01: 0, m02: 0, m03: 0,
            m10: 0, m11: 1, m12: 0, m13: 0,
            m20: 0, m21: 0, m22: 1, m23: 0,
            m30: 0, m31: 0, m32: 0, m33: 1,
            den: 1,
        }
    }

    /// Positive denominator, every part within `b`.
    pub open spec fn bounded(self, b: int) -> bool {
        &&& 0 < self.den <= b
        &&& -b <= self.m00 <= b && -b <= self.m01 <= b && -b <= self.m02 <= b && -b <= self.m03 <= b
        &&& -b <= self.m10 <= b && -b <= self.m11 <= b && -b <= self.m12 <= b && -b <= self.m13 <= b
        &&& -b <= self.m20 <= b && -b <= self.m21 <= b && -b <= self.m22 <= b && -b <= self.m23 <= b
        &&& -b <= self.m30 <= b && -b <= self.m31 <= b && -b <= self.m32 <= b && -b <= self.m33 <= b
    }

    /// Determinant of the numerator matrix, by cofactors along the
    /// first row. Since the shared denominator is positive, the
    /// fraction matrix is singular exactly when this is zero.
    pub open spec fn det(self) -> int {
        self.m00 * det3(
            self.m11, self.m12, self.m13,
            self.m21, self.m22, self.m23,
            self.m31, self.m32, self.m33,
        ) - self.m01 * det3(
            self.m10, self.m12, self.m13,
            self.m20, self.m22, self.m23,
            self.m30, self.m32, self.m33,
        ) + self.m02 * det3(
            self.m10, self.m11, self.m13,
            self.m20, self.m21, self.m23,
            self.m30, self.m31, self.m33,
        ) - self.m03 * det3(
            self.m10, self.m11, self.m12,
            self.m20, self.m21, self.m22,
            self.m30, self.m31, self.m32,
        )
    }

    /// The matrix product. With one shared denominator per matrix the
    /// product of the fraction matrices is exactly the product of the
    /// numerator matrices over the product of the denominators.
    pub open spec fn times(self, o: MatrixSpec) -> MatrixSpec {
        MatrixSpec {
            m00: self.m00 * o.m00 + self.m01 * o.m10 + self.m02 * o.m20 + self.m03 * o.m30,
            m01: self.m00 * o.m01 + self.m01 * o.m11 + self.m02 * o.m21 + self.m03 * o.m31,
            m02: self.m00 * o.m02 + self.m01 * o.m12 + self.m02 * o.m22 + self.m03 * o.m32,
            m03: self.m00 * o.m03 + self.m01 * o.m13 + self.m02 * o.m23 + self.m03 * o.m33,
            m10: self.m10 * o.m00 + self.m11 * o.m10 + self.m12 * o.m20 + self.m13 * o.m30,
            m11: self.m10 * o.m01 + self.m11 * o.m11 + self.m12 * o.m21 + self.m13 * o.m31,
            m12: self.m10 * o.m02 + self.m11 * o.m12 + self.m12 * o.m22 + self.m13 * o.m32,
            m13: self.m10 * o.m03 + self.m11 * o.m13 + self.m12 * o.m23 + self.m13 * o.m33,
            m20: self.m20 * o.m00 + self.m21 * o.m10 + self.m22 * o.m20 + self.m23 * o.m30,
            m21: self.m20 * o.m01 + self.m21 * o.m11 + self.m22 * o.m21 + self.m23 * o.m31,
            m22: self.m20 * o.m02 + self.m21 * o.m12 + self.m22 * o.m22 + self.m23 * o.m32,
            m23: self.m20 * o.m03 + self.m21 * o.m13 + self.m22 * o.m23 + self.m23 * o.m33,
            m30: self.m30 * o.m00 + self.m31 * o.m10 + self.m32 * o.m20 + self.m33 * o.m30,
            m31: self.m30 * o.m01 + self.m31 * o.m11 + self.m32 * o.m21 + self.m33 * o.m31,
            m32: self.m30 * o.m02 + self.m31 * o.m12 + self.m32 * o.m22 + self.m33 * o.m32,
            m33: self.m30 * o.m03 + self.m31 * o.m13 + self.m32 * o.m23 + self.m33 * o.m33,
            den: self.den * o.den,
        }
    }
}

/// A 4x4 matrix: sixteen numerators and one shared positive
/// denominator. A fresh value is produced on every call that returns
/// one; matrices are never cached.
#[derive(Clone, Copy, Debug, PartialEq, Eq, Structural)]
pub struct Matrix4x4 {
    pub m00: i128, pub m01: i128, pub m02: i128, pub m03: i128,
    pub m10: i128, pub m11: i128, pub m12: i128, pub m13: i128,
    pub m20: i128, pub m21: i128, pub m22: i128, pub m23: i128,
    pub m30: i128, pub m31: i128, pub m32: i128, pub m33: i128,
    pub den: i128,
}

impl View for Matrix4x4 {
    type V = MatrixSpec;

    open spec fn view(&self) -> MatrixSpec {
        MatrixSpec {
            m00: self.m00 as int, m01: self.m01 as int, m02: self.m02 as int, m03: self.m03 as int,
            m10: self.m10 as int, m11: self.m11 as int, m12: self.m12 as int, m13: self.m13 as int,
            m20: self.m20 as int, m21: self.m21 as int, m22: self.m22 as int, m23: self.m23 as int,
            m30: self.m30 as int, m31: self.m31 as int, m32: self.m32 as int, m33: self.m33 as int,
            den: self.den as int,
        }
    }
}

/// The unique matrix whose model is `s`, for any `s` whose parts fit
/// in an `i128`.
pub open spec fn matrix_of(s: MatrixSpec) -> Matrix4x4 {
    Matrix4x4 {
        m00: s.m00 as i128, m01: s.m01 as i128, m02: s.m02 as i128, m03: s.m03 as i128,
        m10: s.m10 as i128, m11: s.m11 as i128, m12: s.m12 as i128, m13: s.m13 as i128,
        m20: s.m20 as i128, m21: s.m21 as i128, m22: s.m22 as i128, m23: s.m23 as i128,
        m30: s.m30 as i128, m31: s.m31 as i128, m32: s.m32 as i128, m33: s.m33 as i128,
        den: s.den as i128,
    }
}

/// A matrix is recovered exactly from its model.
pub proof fn lemma_view_injective(a: Matrix4x4, b: Matrix4x4)
    requires
        a@ == b@,
    ensures
        a == b,
{
}

/// The model determines the matrix: `m@ == s` pins `m` down.
pub proof fn lemma_matrix_of_view(m: Matrix4x4, s: MatrixSpec)
    requires
        m@ == s,
    ensures
        m == matrix_of(s),
{
}

impl Matrix4x4 {
    pub fn identity() -> (m: Matrix4x4)
        ensures
            m@ == MatrixSpec::identity(),
    {
        Matrix4x4 {
            m00: 1, m01: 0, m02: 0, m03: 0,
            m10: 0, m11: 1, m12: 0, m13: 0,
            m20: 0, m21: 0, m22: 1, m23: 0,
            m30: 0, m31: 0, m32: 0, m33: 1,
            den: 1,
        }
    }

    /// The sixteen numerators flattened in column-major order, the
    /// layout the graphics backend expects of a matrix upload.
    pub fn column_major_numerators(&self) -> (v: Vec<i128>)
        ensures
            v@ =~= seq![
                self.m00, self.m10, self.m20, self.m30,
                self.m01, self.m11, self.m21, self.m31,
                self.m02, self.m12, self.m22, self.m32,
                self.m03, self.m13, self.m23, self.m33,
            ],
    {
        let mut v: Vec<i128> = Vec::new();
        v.push(self.m00); v.push(self.m10); v.push(self.m20); v.push(self.m30);
        v.push(self.m01); v.push(self.m11); v.push(self.m21); v.push(self.m31);
        v.push(self.m02); v.push(self.m12); v.push(self.m22); v.push(self.m32);
        v.push(self.m03); v.push(self.m13); v.push(self.m23); v.push(self.m33);
        v
    }

    /// The matrix product over the shared-denominator representation.
    /// The ghost bounds on the factors discharge overflow: each entry
    /// of the product is a sum of four products of entries.
    pub fn multiply(&self, o: &Matrix4x4, Ghost(bs): Ghost<int>, Ghost(bo): Ghost<int>) -> (r: Matrix4x4)
        requires
            self@.bounded(bs),
            o@.bounded(bo),
            4 * (bs * bo) <= i128::MAX as int,
        ensures
            r@ == self@.times(o@),
            r@.bounded(4 * (bs * bo)),
    {
        proof {
            lemma_mul_pos(bs, bo);
        }
        let r = Matrix4x4 {
            m00: mul_bounded(self.m00, o.m00, Ghost(bs), Ghost(bo)) + mul_bounded(self.m01, o.m10, Ghost(bs), Ghost(bo))
                + mul_bounded(self.m02, o.m20, Ghost(bs), Ghost(bo)) + mul_bounded(self.m03, o.m30, Ghost(bs), Ghost(bo)),
            m01: mul_bounded(self.m00, o.m01, Ghost(bs), Ghost(bo)) + mul_bounded(self.m01, o.m11, Ghost(bs), Ghost(bo))
                + mul_bounded(self.m02, o.m21, Ghost(bs), Ghost(bo)) + mul_bounded(self.m03, o.m31, Ghost(bs), Ghost(bo)),
            m02: mul_bounded(self.m00, o.m02, Ghost(bs), Ghost(bo)) + mul_bounded(self.m01, o.m12, Ghost(bs), Ghost(bo))
                + mul_bounded(self.m02, o.m22, Ghost(bs), Ghost(bo)) + mul_bounded(self.m03, o.m32, Ghost(bs), Ghost(bo)),
            m03: mul_bounded(self.m00, o.m03, Ghost(bs), Ghost(bo)) + mul_bounded(self.m01, o.m13, Ghost(bs), Ghost(bo))
                + mul_bounded(self.m02, o.m23, Ghost(bs), Ghost(bo)) + mul_bounded(self.m03, o.m33, Ghost(bs), Ghost(bo)),
            m10: mul_bounded(self.m10, o.m00, Ghost(bs), Ghost(bo)) + mul_bounded(self.m11, o.m10, Ghost(bs), Ghost(bo))
                + mul_bounded(self.m12, o.m20, Ghost(bs), Ghost(bo)) + mul_bounded(self.m13, o.m30, Ghost(bs), Ghost(bo)),
            m11: mul_bounded(self.m10, o.m01, Ghost(bs), Ghost(bo)) + mul_bounded(self.m11, o.m11, Ghost(bs), Ghost(bo))
                + mul_bounded(self.m12, o.m21, Ghost(bs), Ghost(bo)) + mul_bounded(self.m13, o.m31, Ghost(bs), Ghost(bo)),
            m12: mul_bounded(self.m10, o.m02, Ghost(bs), Ghost(bo)) + mul_bounded(self.m11, o.m12, Ghost(bs), Ghost(bo))
                + mul_bounded(self.m12, o.m22, Ghost(bs), Ghost(bo)) + mul_bounded(self.m13, o.m32, Ghost(bs), Ghost(bo)),
            m13: mul_bounded(self.m10, o.m03, Ghost(bs), Ghost(bo)) + mul_bounded(self.m11, o.m13, Ghost(bs), Ghost(bo))
                + mul_bounded(self.m12, o.m23, Ghost(bs), Ghost(bo)) + mul_bounded(self.m13, o.m33, Ghost(bs), Ghost(bo)),
            m20: mul_bounded(self.m20, o.m00, Ghost(bs), Ghost(bo)) + mul_bounded(self.m21, o.m10, Ghost(bs), Ghost(bo))
                + mul_bounded(self.m22, o.m20, Ghost(bs), Ghost(bo)) + mul_bounded(self.m23, o.m30, Ghost(bs), Ghost(bo)),
            m21: mul_bounded(self.m20, o.m01, Ghost(bs), Ghost(bo)) + mul_bounded(self.m21, o.m11, Ghost(bs), Ghost(bo))
                + mul_bounded(self.m22, o.m21, Ghost(bs), Ghost(bo)) + mul_bounded(self.m23, o.m31, Ghost(bs), Ghost(bo)),
            m22: mul_bounded(self.m20, o.m02, Ghost(bs), Ghost(bo)) + mul_bounded(self.m21, o.m12, Ghost(bs), Ghost(bo))
                + mul_bounded(self.m22, o.m22, Ghost(bs), Ghost(bo)) + mul_bounded(self.m23, o.m32, Ghost(bs), Ghost(bo)),
            m23: mul_bounded(self.m20, o.m03, Ghost(bs), Ghost(bo)) + mul_bounded(self.m21, o.m13, Ghost(bs), Ghost(bo))
                + mul_bounded(self.m22, o.m23, Ghost(bs), Ghost(bo)) + mul_bounded(self.m23, o.m33, Ghost(bs), Ghost(bo)),
            m30: mul_bounded(self.m30, o.m00, Ghost(bs), Ghost(bo)) + mul_bounded(self.m31, o.m10, Ghost(bs), Ghost(bo))
                + mul_bounded(self.m32, o.m20, Ghost(bs), Ghost(bo)) + mul_bounded(self.m33, o.m30, Ghost(bs), Ghost(bo)),
            m31: mul_bounded(self.m30, o.m01, Ghost(bs), Ghost(bo)) + mul_bounded(self.m31, o.m11, Ghost(bs), Ghost(bo))
                + mul_bounded(self.m32, o.m21, Ghost(bs), Ghost(bo)) + mul_bounded(self.m33, o.m31, Ghost(bs), Ghost(bo)),
            m32: mul_bounded(self.m30, o.m02, Ghost(bs), Ghost(bo)) + mul_bounded(self.m31, o.m12, Ghost(bs), Ghost(bo))
                + mul_bounded(self.m32, o.m22, Ghost(bs), Ghost(bo)) + mul_bounded(self.m33, o.m32, Ghost(bs), Ghost(bo)),
            m33: mul_bounded(self.m30, o.m03, Ghost(bs), Ghost(bo)) + mul_bounded(self.m31, o.m13, Ghost(bs), Ghost(bo))
                + mul_bounded(self.m32, o.m23, Ghost(bs), Ghost(bo)) + mul_bounded(self.m33, o.m33, Ghost(bs), Ghost(bo)),
            den: mul_bounded(self.den, o.den, Ghost(bs), Ghost(bo)),
        };
        proof {
            lemma_mul_pos(self.den as int, o.den as int);
        }
        r
    }
}

} // verus!
