use vstd::prelude::*;
use vstd::string::StringExecFns;

use crate::matrix2d::Matrix2d;
use crate::matrix2d::{m2_at, m2_col};
use crate::utils::{Major, flipped, fits_i64, div_ok, trunc_div, div_i64};
use crate::vector3d::Vector3d;
use crate::vector4d::Vector4d;
use crate::vector_errors::{VectorError, VectorErrorType};

verus! {

/// A 2-component vector: two scalar components and a row/column tag.
/// The tag records how the vector is meant to enter a product; it never
/// affects how the components are stored.
#[derive(Debug, Clone, Copy, PartialEq, Eq, Structural)]
pub struct Vector2d {
    pub x: i64,
    pub y: i64,
    pub major: Major,
}

/// The inner product of two 2-component vectors, independent of either tag.
pub open spec fn spec_dot2(a: Vector2d, b: Vector2d) -> int {
    a.x * b.x + a.y * b.y
}

/// The machine can form the inner product: each product and each partial sum
/// stays representable.
pub open spec fn dot2_fits(a: Vector2d, b: Vector2d) -> bool {
    &&& fits_i64(a.x * b.x)
    &&& fits_i64(a.y * b.y)
    &&& fits_i64(spec_dot2(a, b))
}

/// The componentwise sum stays representable.
pub open spec fn add2_fits(a: Vector2d, b: Vector2d) -> bool {
    fits_i64(a.x + b.x) && fits_i64(a.y + b.y)
}

/// The componentwise difference stays representable.
pub open spec fn sub2_fits(a: Vector2d, b: Vector2d) -> bool {
    fits_i64(a.x - b.x) && fits_i64(a.y - b.y)
}

/// The componentwise product stays representable.
pub open spec fn mul2_fits(a: Vector2d, b: Vector2d) -> bool {
    fits_i64(a.x * b.x) && fits_i64(a.y * b.y)
}

/// The componentwise quotient exists and stays representable.
pub open spec fn div2_ok(a: Vector2d, b: Vector2d) -> bool {
    div_ok(a.x, b.x) && div_ok(a.y, b.y)
}

/// The inner product is symmetric: `dot(a, b) == dot(b, a)`.
pub proof fn lemma_dot2_symmetric(a: Vector2d, b: Vector2d)
    ensures
        spec_dot2(a, b) == spec_dot2(b, a),
{
    assert(a.x * b.x == b.x * a.x) by (nonlinear_arith);
    assert(a.y * b.y == b.y * a.y) by (nonlinear_arith);
}

/// The inner product is additive in its left argument: when `s` holds the
/// componentwise sum of `a` and `b`, `dot(s, c) == dot(a, c) + dot(b, c)`.
/// With symmetry this gives additivity on the right as well.
pub proof fn lemma_dot2_additive(a: Vector2d, b: Vector2d, s: Vector2d, c: Vector2d)
    requires
        s.x == a.x + b.x,
        s.y == a.y + b.y,
    ensures
        spec_dot2(s, c) == spec_dot2(a, c) + spec_dot2(b, c),
{
    assert((a.x + b.x) * c.x == a.x * c.x + b.x * c.x) by (nonlinear_arith);
    assert((a.y + b.y) * c.y == a.y * c.y + b.y * c.y) by (nonlinear_arith);
}

/// The inner product is homogeneous in its left argument: when `t` holds `a`
/// scaled componentwise by `k`, `dot(t, c) == k * dot(a, c)`. With symmetry
/// this gives homogeneity on the right as well; together with additivity the
/// inner product is bilinear.
pub proof fn lemma_dot2_homogeneous(k: i64, a: Vector2d, t: Vector2d, c: Vector2d)
    requires
        t.x == k * a.x,
        t.y == k * a.y,
    ensures
        spec_dot2(t, c) == k * spec_dot2(a, c),
{
    assert((k * a.x) * c.x == k * (a.x * c.x)) by (nonlinear_arith);
    assert((k * a.y) * c.y == k * (a.y * c.y)) by (nonlinear_arith);
    assert(k * (a.x * c.x + a.y * c.y) == k * (a.x * c.x) + k * (a.y * c.y)) by (nonlinear_arith);
}

impl Vector2d {
    /// A fresh vector carries the row tag.
    pub fn new(x: i64, y: i64) -> (r: Vector2d)
        ensures
            r.x == x,
            r.y == y,
            r.major == Major::Row,
    {
        Vector2d { x, y, major: Major::Row }
    }

    /// Builds a vector from a sequence; exactly 2 items are accepted.
    pub fn from_vector(v: Vec<i64>) -> (r: Result<Vector2d, VectorError>)
        ensures
            r is Ok <==> v@.len() == 2,
            r matches Ok(u) ==> u.x == v@[0] && u.y == v@[1] && u.major == Major::Row,
            r matches Err(e) ==> e.err_type == VectorErrorType::InvalidInitSizeError
                && e.err_msg@ == "The dimension of the vector must be 2 dimensions"@,
    {
        if v.len() != 2 {
            return Err(
                VectorError {
                    err_msg: String::from_str("The dimension of the vector must be 2 dimensions"),
                    err_type: VectorErrorType::InvalidInitSizeError,
                },
            );
        }
        Ok(Vector2d { x: v[0], y: v[1], major: Major::Row })
    }

    /// Replicates one scalar into every component, with the row tag.
    pub fn fill(type_item: i64) -> (r: Vector2d)
        ensures
            r.x == type_item,
            r.y == type_item,
            r.major == Major::Row,
    {
        Vector2d { x: type_item, y: type_item, major: Major::Row }
    }

    /// The zero vector, derived from any scalar as `v - v`.
    pub fn zero(type_item: i64) -> (r: Vector2d)
        ensures
            r.x == 0,
            r.y == 0,
            r.major == Major::Row,
    {
        Self::fill(type_item - type_item)
    }

    /// Flips the row/column tag in place; the components do not move.
    pub fn transpose(&mut self)
        ensures
            final(self).x == old(self).x,
            final(self).y == old(self).y,
            final(self).major == flipped(old(self).major),
    {
        match self.major {
            Major::Col => self.major = Major::Row,
            Major::Row => self.major = Major::Col,
        }
    }

    /// A copy of `v` carrying the opposite tag.
    pub fn from_transpose(v: Vector2d) -> (r: Vector2d)
        ensures
            r.x == v.x,
            r.y == v.y,
            r.major == flipped(v.major),
    {
        let major = match v.major {
            Major::Col => Major::Row,
            Major::Row => Major::Col,
        };
        Vector2d { x: v.x, y: v.y, major }
    }

    /// Componentwise sum; the result keeps the left operand's tag.
    pub fn add(&self, w: Vector2d) -> (r: Vector2d)
        requires
            add2_fits(*self, w),
        ensures
            r.x == self.x + w.x,
            r.y == self.y + w.y,
            r.major == self.major,
    {
        Vector2d { x: self.x + w.x, y: self.y + w.y, major: self.major }
    }

    /// Componentwise product — not the inner product.
    pub fn mul(&self, w: Vector2d) -> (r: Vector2d)
        requires
            mul2_fits(*self, w),
        ensures
            r.x == self.x * w.x,
            r.y == self.y * w.y,
            r.major == self.major,
    {
        Vector2d { x: self.x * w.x, y: self.y * w.y, major: self.major }
    }

    /// Componentwise quotient, truncating toward zero.
    pub fn div(&self, w: Vector2d) -> (r: Vector2d)
        requires
            div2_ok(*self, w),
        ensures
            r.x == trunc_div(self.x, w.x),
            r.y == trunc_div(self.y, w.y),
            r.major == self.major,
    {
        Vector2d { x: div_i64(self.x, w.x), y: div_i64(self.y, w.y), major: self.major }
    }

    /// Componentwise difference; the result keeps the left operand's tag.
    pub fn sub(&self, w: Vector2d) -> (r: Vector2d)
        requires
            sub2_fits(*self, w),
        ensures
            r.x == self.x - w.x,
            r.y == self.y - w.y,
            r.major == self.major,
    {
        Vector2d { x: self.x - w.x, y: self.y - w.y, major: self.major }
    }

    /// The inner product, whatever the tags say.
    pub fn dot(&self, w: Vector2d) -> (r: i64)
        requires
            dot2_fits(*self, w),
        ensures
            r == spec_dot2(*self, w),
    {
        self.x * w.x + self.y * w.y
    }

    /// The squared length: the inner product of the vector with itself.
    pub fn norm(&self) -> (r: i64)
        requires
            dot2_fits(*self, *self),
        ensures
            r == spec_dot2(*self, *self),
    {
        self.x * self.x + self.y * self.y
    }

    /// Adds one scalar to every component.
    pub fn add_item(v: Vector2d, item: i64) -> (r: Vector2d)
        requires
            fits_i64(v.x + item),
            fits_i64(v.y + item),
        ensures
            r.x == v.x + item,
            r.y == v.y + item,
            r.major == v.major,
    {
        Vector2d { x: v.x + item, y: v.y + item, major: v.major }
    }

    /// Subtracts one scalar from every component.
    pub fn sub_item(v: Vector2d, item: i64) -> (r: Vector2d)
        requires
            fits_i64(v.x - item),
            fits_i64(v.y - item),
        ensures
            r.x == v.x - item,
            r.y == v.y - item,
            r.major == v.major,
    {
        Vector2d { x: v.x - item, y: v.y - item, major: v.major }
    }

    /// Multiplies every component by one scalar.
    pub fn mul_item(v: Vector2d, item: i64) -> (r: Vector2d)
        requires
            fits_i64(v.x * item),
            fits_i64(v.y * item),
        ensures
            r.x == v.x * item,
            r.y == v.y * item,
            r.major == v.major,
    {
        Vector2d { x: v.x * item, y: v.y * item, major: v.major }
    }

    /// Divides every component by one scalar, truncating toward zero.
    pub fn div_item(v: Vector2d, item: i64) -> (r: Vector2d)
        requires
            div_ok(v.x, item),
            div_ok(v.y, item),
        ensures
            r.x == trunc_div(v.x, item),
            r.y == trunc_div(v.y, item),
            r.major == v.major,
    {
        Vector2d { x: div_i64(v.x, item), y: div_i64(v.y, item), major: v.major }
    }

    /// Divides every component by the squared length — by `norm`, not by its
    /// square root.
    pub fn normalized(&mut self)
        requires
            dot2_fits(*old(self), *old(self)),
            spec_dot2(*old(self), *old(self)) != 0,
        ensures
            final(self).x == trunc_div(old(self).x, spec_dot2(*old(self), *old(self)) as i64),
            final(self).y == trunc_div(old(self).y, spec_dot2(*old(self), *old(self)) as i64),
            final(self).major == old(self).major,
    {
        proof {
            assert(self.x * self.x >= 0 && self.y * self.y >= 0) by (nonlinear_arith);
        }
        let n = self.norm();
        self.x = div_i64(self.x, n);
        self.y = div_i64(self.y, n);
    }

    /// Multiplies the vector on the left of a 2x2 matrix: component `i` of the
    /// result is the inner product of the vector with column `i`.
    pub fn product_with_matrix2d(&self, m: Matrix2d) -> (r: Vector2d)
        requires
            dot2_fits(*self, m2_col(m, 0)),
            dot2_fits(*self, m2_col(m, 1)),
        ensures
            r.x == spec_dot2(*self, m2_col(m, 0)),
            r.y == spec_dot2(*self, m2_col(m, 1)),
            r.major == Major::Row,
    {
        let mut mat2 = m.clone();
        mat2.transpose();
        proof {
            assert(m2_at(mat2, 0, 0) == m2_at(m, 0, 0));
            assert(m2_at(mat2, 0, 1) == m2_at(m, 1, 0));
            assert(m2_at(mat2, 1, 0) == m2_at(m, 0, 1));
            assert(m2_at(mat2, 1, 1) == m2_at(m, 1, 1));
        }
        Vector2d::new(self.dot(mat2.items[0]), self.dot(mat2.items[1]))
    }

    /// Extends the vector with one extra component.
    pub fn to_vector3d(&self, add_item: i64) -> (r: Vector3d)
        ensures
            r.x == self.x,
            r.y == self.y,
            r.z == add_item,
            r.major == Major::Row,
    {
        Vector3d::new(self.x, self.y, add_item)
    }

    /// Extends the vector with two extra components.
    pub fn to_vector4d(&self, add_item1: i64, add_item2: i64) -> (r: Vector4d)
        ensures
            r.x == self.x,
            r.y == self.y,
            r.z == add_item1,
            r.w == add_item2,
            r.major == Major::Row,
    {
        Vector4d::new(self.x, self.y, add_item1, add_item2)
    }
}

} // verus!
