use vstd::prelude::*;
use vstd::string::StringExecFns;

use crate::matrix4d::{Matrix4d, m4_at, m4_col};
use crate::utils::{Major, flipped, fits_i64, div_ok, trunc_div, div_i64};
use crate::vector2d::Vector2d;
use crate::vector3d::Vector3d;
use crate::vector_errors::{VectorError, VectorErrorType};

verus! {

/// A 4-component vector: four scalar components and a row/column tag.
/// The tag records how the vector is meant to enter a product; it never
/// affects how the components are stored.
#[derive(Debug, Clone, Copy, PartialEq, Eq, Structural)]
pub struct Vector4d {
    pub x: i64,
    pub y: i64,
    pub z: i64,
    pub w: i64,
    pub major: Major,
}

/// The inner product of two 4-component vectors, independent of either tag.
pub open spec fn spec_dot4(a: Vector4d, b: Vector4d) -> int {
    a.x * b.x + a.y * b.y + a.z * b.z + a.w * b.w
}

/// The machine can form the inner product: each product and each partial sum
/// stays representable.
pub open spec fn dot4_fits(a: Vector4d, b: Vector4d) -> bool {
    &&& fits_i64(a.x * b.x)
    &&& fits_i64(a.y * b.y)
    &&& fits_i64(a.z * b.z)
    &&& fits_i64(a.w * b.w)
    &&& fits_i64(a.x * b.x + a.y * b.y)
    &&& fits_i64(a.x * b.x + a.y * b.y + a.z * b.z)
    &&& fits_i64(spec_dot4(a, b))
}

/// The componentwise sum stays representable.
pub open spec fn add4_fits(a: Vector4d, b: Vector4d) -> bool {
    fits_i64(a.x + b.x) && fits_i64(a.y + b.y) && fits_i64(a.z + b.z) && fits_i64(a.w + b.w)
}

/// The componentwise difference stays representable.
pub open spec fn sub4_fits(a: Vector4d, b: Vector4d) -> bool {
    fits_i64(a.x - b.x) && fits_i64(a.y - b.y) && fits_i64(a.z - b.z) && fits_i64(a.w - b.w)
}

/// The componentwise product stays representable.
pub open spec fn mul4_fits(a: Vector4d, b: Vector4d) -> bool {
    fits_i64(a.x * b.x) && fits_i64(a.y * b.y) && fits_i64(a.z * b.z) && fits_i64(a.w * b.w)
}

/// The componentwise quotient exists and stays representable.
pub open spec fn div4_ok(a: Vector4d, b: Vector4d) -> bool {
    div_ok(a.x, b.x) && div_ok(a.y, b.y) && div_ok(a.z, b.z) && div_ok(a.w, b.w)
}

/// The inner product is symmetric: `dot(a, b) == dot(b, a)`.
pub proof fn lemma_dot4_symmetric(a: Vector4d, b: Vector4d)
    ensures
        spec_dot4(a, b) == spec_dot4(b, a),
{
    assert(a.x * b.x == b.x * a.x) by (nonlinear_arith);
    assert(a.y * b.y == b.y * a.y) by (nonlinear_arith);
    assert(a.z * b.z == b.z * a.z) by (nonlinear_arith);
    assert(a.w * b.w == b.w * a.w) by (nonlinear_arith);
}

/// The inner product is additive in its left argument: when `s` holds the
/// componentwise sum of `a` and `b`, `dot(s, c) == dot(a, c) + dot(b, c)`.
/// With symmetry this gives additivity on the right as well.
pub proof fn lemma_dot4_additive(a: Vector4d, b: Vector4d, s: Vector4d, c: Vector4d)
    requires
        s.x == a.x + b.x,
        s.y == a.y + b.y,
        s.z == a.z + b.z,
        s.w == a.w + b.w,
    ensures
        spec_dot4(s, c) == spec_dot4(a, c) + spec_dot4(b, c),
{
    assert((a.x + b.x) * c.x == a.x * c.x + b.x * c.x) by (nonlinear_arith);
    assert((a.y + b.y) * c.y == a.y * c.y + b.y * c.y) by (nonlinear_arith);
    assert((a.z + b.z) * c.z == a.z * c.z + b.z * c.z) by (nonlinear_arith);
    assert((a.w + b.w) * c.w == a.w * c.w + b.w * c.w) by (nonlinear_arith);
}

/// The inner product is homogeneous in its left argument: when `t` holds `a`
/// scaled componentwise by `k`, `dot(t, c) == k * dot(a, c)`. With symmetry
/// this gives homogeneity on the right as well; together with additivity the
/// inner product is bilinear.
pub proof fn lemma_dot4_homogeneous(k: i64, a: Vector4d, t: Vector4d, c: Vector4d)
    requires
        t.x == k * a.x,
        t.y == k * a.y,
        t.z == k * a.z,
        t.w == k * a.w,
    ensures
        spec_dot4(t, c) == k * spec_dot4(a, c),
{
    assert((k * a.x) * c.x == k * (a.x * c.x)) by (nonlinear_arith);
    assert((k * a.y) * c.y == k * (a.y * c.y)) by (nonlinear_arith);
    assert((k * a.z) * c.z == k * (a.z * c.z)) by (nonlinear_arith);
    assert((k * a.w) * c.w == k * (a.w * c.w)) by (nonlinear_arith);
    assert(k * (a.x * c.x + a.y * c.y + a.z * c.z + a.w * c.w) == k * (a.x * c.x) + k * (a.y * c.y)
        + k * (a.z * c.z) + k * (a.w * c.w)) by (nonlinear_arith);
}

impl Vector4d {
    /// A fresh vector carries the row tag.
    pub fn new(x: i64, y: i64, z: i64, w: i64) -> (r: Vector4d)
        ensures
            r.x == x,
            r.y == y,
            r.z == z,
            r.w == w,
            r.major == Major::Row,
    {
        Vector4d { x, y, z, w, major: Major::Row }
    }

    /// Builds a vector from a sequence; exactly 4 items are accepted.
    pub fn from_vector(v: Vec<i64>) -> (r: Result<Vector4d, VectorError>)
        ensures
            r is Ok <==> v@.len() == 4,
            r matches Ok(u) ==> u.x == v@[0] && u.y == v@[1] && u.z == v@[2] && u.w == v@[3]
                && u.major == Major::Row,
            r matches Err(e) ==> e.err_type == VectorErrorType::InvalidInitSizeError
                && e.err_msg@ == "The dimension of the vector must be 4 dimensions"@,
    {
        if v.len() != 4 {
            return Err(
                VectorError {
                    err_msg: String::from_str("The dimension of the vector must be 4 dimensions"),
                    err_type: VectorErrorType::InvalidInitSizeError,
                },
            );
        }
        Ok(Vector4d { x: v[0], y: v[1], z: v[2], w: v[3], major: Major::Row })
    }

    /// Replicates one scalar into every component, with the row tag.
    pub fn fill(type_item: i64) -> (r: Vector4d)
        ensures
            r.x == type_item,
            r.y == type_item,
            r.z == type_item,
            r.w == type_item,
            r.major == Major::Row,
    {
        Vector4d { x: type_item, y: type_item, z: type_item, w: type_item, major: Major::Row }
    }

    /// The zero vector, derived from any scalar as `v - v`.
    pub fn zero(type_item: i64) -> (r: Vector4d)
        ensures
            r.x == 0,
            r.y == 0,
            r.z == 0,
            r.w == 0,
            r.major == Major::Row,
    {
        Self::fill(type_item - type_item)
    }

    /// Flips the row/column tag in place; the components do not move.
    pub fn transpose(&mut self)
        ensures
            final(self).x == old(self).x,
            final(self).y == old(self).y,
            final(self).z == old(self).z,
            final(self).w == old(self).w,
            final(self).major == flipped(old(self).major),
    {
        match self.major {
            Major::Col => self.major = Major::Row,
            Major::Row => self.major = Major::Col,
        }
    }

    /// A copy of `v` carrying the opposite tag.
    pub fn from_transpose(v: Vector4d) -> (r: Vector4d)
        ensures
            r.x == v.x,
            r.y == v.y,
            r.z == v.z,
            r.w == v.w,
            r.major == flipped(v.major),
    {
        let major = match v.major {
            Major::Col => Major::Row,
            Major::Row => Major::Col,
        };
        Vector4d { x: v.x, y: v.y, z: v.z, w: v.w, major }
    }

    /// Componentwise sum; the result keeps the left operand's tag.
    pub fn add(&self, w: Vector4d) -> (r: Vector4d)
        requires
            add4_fits(*self, w),
        ensures
            r.x == self.x + w.x,
            r.y == self.y + w.y,
            r.z == self.z + w.z,
            r.w == self.w + w.w,
            r.major == self.major,
    {
        Vector4d {
            x: self.x + w.x,
            y: self.y + w.y,
            z: self.z + w.z,
            w: self.w + w.w,
            major: self.major,
        }
    }

    /// Componentwise product — not the inner product.
    pub fn mul(&self, w: Vector4d) -> (r: Vector4d)
        requires
            mul4_fits(*self, w),
        ensures
            r.x == self.x * w.x,
            r.y == self.y * w.y,
            r.z == self.z * w.z,
            r.w == self.w * w.w,
            r.major == self.major,
    {
        Vector4d {
            x: self.x * w.x,
            y: self.y * w.y,
            z: self.z * w.z,
            w: self.w * w.w,
            major: self.major,
        }
    }

    /// Componentwise difference; the result keeps the left operand's tag.
    pub fn sub(&self, w: Vector4d) -> (r: Vector4d)
        requires
            sub4_fits(*self, w),
        ensures
            r.x == self.x - w.x,
            r.y == self.y - w.y,
            r.z == self.z - w.z,
            r.w == self.w - w.w,
            r.major == self.major,
    {
        Vector4d {
            x: self.x - w.x,
            y: self.y - w.y,
            z: self.z - w.z,
            w: self.w - w.w,
            major: self.major,
        }
    }

    /// Componentwise quotient, truncating toward zero.
    pub fn div(&self, w: Vector4d) -> (r: Vector4d)
        requires
            div4_ok(*self, w),
        ensures
            r.x == trunc_div(self.x, w.x),
            r.y == trunc_div(self.y, w.y),
            r.z == trunc_div(self.z, w.z),
            r.w == trunc_div(self.w, w.w),
            r.major == self.major,
    {
        Vector4d {
            x: div_i64(self.x, w.x),
            y: div_i64(self.y, w.y),
            z: div_i64(self.z, w.z),
            w: div_i64(self.w, w.w),
            major: self.major,
        }
    }

    /// The inner product, whatever the tags say.
    pub fn dot(&self, w: Vector4d) -> (r: i64)
        requires
            dot4_fits(*self, w),
        ensures
            r == spec_dot4(*self, w),
    {
        self.x * w.x + self.y * w.y + self.z * w.z + self.w * w.w
    }

    /// Adds one scalar to every component.
    pub fn add_item(v: Vector4d, item: i64) -> (r: Vector4d)
        requires
            fits_i64(v.x + item),
            fits_i64(v.y + item),
            fits_i64(v.z + item),
            fits_i64(v.w + item),
        ensures
            r.x == v.x + item,
            r.y == v.y + item,
            r.z == v.z + item,
            r.w == v.w + item,
            r.major == v.major,
    {
        Vector4d { x: v.x + item, y: v.y + item, z: v.z + item, w: v.w + item, major: v.major }
    }

    /// Subtracts one scalar from every component.
    pub fn sub_item(v: Vector4d, item: i64) -> (r: Vector4d)
        requires
            fits_i64(v.x - item),
            fits_i64(v.y - item),
            fits_i64(v.z - item),
            fits_i64(v.w - item),
        ensures
            r.x == v.x - item,
            r.y == v.y - item,
            r.z == v.z - item,
            r.w == v.w - item,
            r.major == v.major,
    {
        Vector4d { x: v.x - item, y: v.y - item, z: v.z - item, w: v.w - item, major: v.major }
    }

    /// Multiplies every component by one scalar.
    pub fn mul_item(v: Vector4d, item: i64) -> (r: Vector4d)
        requires
            fits_i64(v.x * item),
            fits_i64(v.y * item),
            fits_i64(v.z * item),
            fits_i64(v.w * item),
        ensures
            r.x == v.x * item,
            r.y == v.y * item,
            r.z == v.z * item,
            r.w == v.w * item,
            r.major == v.major,
    {
        Vector4d { x: v.x * item, y: v.y * item, z: v.z * item, w: v.w * item, major: v.major }
    }

    /// Divides every component by one scalar, truncating toward zero.
    pub fn div_item(v: Vector4d, item: i64) -> (r: Vector4d)
        requires
            div_ok(v.x, item),
            div_ok(v.y, item),
            div_ok(v.z, item),
            div_ok(v.w, item),
        ensures
            r.x == trunc_div(v.x, item),
            r.y == trunc_div(v.y, item),
            r.z == trunc_div(v.z, item),
            r.w == trunc_div(v.w, item),
            r.major == v.major,
    {
        Vector4d {
            x: div_i64(v.x, item),
            y: div_i64(v.y, item),
            z: div_i64(v.z, item),
            w: div_i64(v.w, item),
            major: v.major,
        }
    }

    /// The squared length: the inner product of the vector with itself.
    pub fn norm(&self) -> (r: i64)
        requires
            dot4_fits(*self, *self),
        ensures
            r == spec_dot4(*self, *self),
    {
        self.x * self.x + self.y * self.y + self.z * self.z + self.w * self.w
    }

    /// Divides every component by the squared length — by `norm`, not by its
    /// square root.
    pub fn normalized(&mut self)
        requires
            dot4_fits(*old(self), *old(self)),
            spec_dot4(*old(self), *old(self)) != 0,
        ensures
            final(self).x == trunc_div(old(self).x, spec_dot4(*old(self), *old(self)) as i64),
            final(self).y == trunc_div(old(self).y, spec_dot4(*old(self), *old(self)) as i64),
            final(self).z == trunc_div(old(self).z, spec_dot4(*old(self), *old(self)) as i64),
            final(self).w == trunc_div(old(self).w, spec_dot4(*old(self), *old(self)) as i64),
            final(self).major == old(self).major,
    {
        proof {
            assert(self.x * self.x >= 0 && self.y * self.y >= 0 && self.z * self.z >= 0
                && self.w * self.w >= 0) by (nonlinear_arith);
        }
        let n = self.norm();
        self.x = div_i64(self.x, n);
        self.y = div_i64(self.y, n);
        self.z = div_i64(self.z, n);
        self.w = div_i64(self.w, n);
    }

    /// Multiplies the vector on the left of a 4x4 matrix: component `i` of the
    /// result is the inner product of the vector with column `i`.
    pub fn product_with_matrix4d(&self, m: Matrix4d) -> (r: Vector4d)
        requires
            dot4_fits(*self, m4_col(m, 0)),
            dot4_fits(*self, m4_col(m, 1)),
            dot4_fits(*self, m4_col(m, 2)),
            dot4_fits(*self, m4_col(m, 3)),
        ensures
            r.x == spec_dot4(*self, m4_col(m, 0)),
            r.y == spec_dot4(*self, m4_col(m, 1)),
            r.z == spec_dot4(*self, m4_col(m, 2)),
            r.w == spec_dot4(*self, m4_col(m, 3)),
            r.major == Major::Row,
    {
        let mut mat2 = m.clone();
        mat2.transpose();
        proof {
            assert(m4_at(mat2, 0, 0) == m4_at(m, 0, 0));
            assert(m4_at(mat2, 0, 1) == m4_at(m, 1, 0));
            assert(m4_at(mat2, 0, 2) == m4_at(m, 2, 0));
            assert(m4_at(mat2, 0, 3) == m4_at(m, 3, 0));
            assert(m4_at(mat2, 1, 0) == m4_at(m, 0, 1));
            assert(m4_at(mat2, 1, 1) == m4_at(m, 1, 1));
            assert(m4_at(mat2, 1, 2) == m4_at(m, 2, 1));
            assert(m4_at(mat2, 1, 3) == m4_at(m, 3, 1));
            assert(m4_at(mat2, 2, 0) == m4_at(m, 0, 2));
            assert(m4_at(mat2, 2, 1) == m4_at(m, 1, 2));
            assert(m4_at(mat2, 2, 2) == m4_at(m, 2, 2));
            assert(m4_at(mat2, 2, 3) == m4_at(m, 3, 2));
            assert(m4_at(mat2, 3, 0) == m4_at(m, 0, 3));
            assert(m4_at(mat2, 3, 1) == m4_at(m, 1, 3));
            assert(m4_at(mat2, 3, 2) == m4_at(m, 2, 3));
            assert(m4_at(mat2, 3, 3) == m4_at(m, 3, 3));
        }
        Vector4d::new(
            self.dot(mat2.items[0]),
            self.dot(mat2.items[1]),
            self.dot(mat2.items[2]),
            self.dot(mat2.items[3]),
        )
    }

    /// The first two components, as a fresh row-tagged vector.
    pub fn head2(&self) -> (r: Vector2d)
        ensures
            r.x == self.x,
            r.y == self.y,
            r.major == Major::Row,
    {
        Vector2d::new(self.x, self.y)
    }

    /// The first three components, as a fresh row-tagged vector.
    pub fn head3(&self) -> (r: Vector3d)
        ensures
            r.x == self.x,
            r.y == self.y,
            r.z == self.z,
            r.major == Major::Row,
    {
        Vector3d::new(self.x, self.y, self.z)
    }
}

} // verus!
