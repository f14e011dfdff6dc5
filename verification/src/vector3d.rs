use vstd::prelude::*;
use vstd::string::StringExecFns;

use crate::matrix3d::{Matrix3d, m3_at, m3_col};
use crate::utils::{Major, flipped, fits_i64, div_ok, trunc_div, div_i64};
use crate::vector2d::Vector2d;
use crate::vector4d::Vector4d;
use crate::vector_errors::{VectorError, VectorErrorType};

verus! {

/// A 3-component vector: three scalar components and a row/column tag.
/// The tag records how the vector is meant to enter a product; it never
/// affects how the components are stored.
#[derive(Debug, Clone, Copy, PartialEq, Eq, Structural)]
pub struct Vector3d {
    pub x: i64,
    pub y: i64,
    pub z: i64,
    pub major: Major,
}

/// The inner product of two 3-component vectors, independent of either tag.
pub open spec fn spec_dot3(a: Vector3d, b: Vector3d) -> int {
    a.x * b.x + a.y * b.y + a.z * b.z
}

/// The machine can form the inner product: each product and each partial sum
/// stays representable.
pub open spec fn dot3_fits(a: Vector3d, b: Vector3d) -> bool {
    &&& fits_i64(a.x * b.x)
    &&& fits_i64(a.y * b.y)
    &&& fits_i64(a.z * b.z)
    &&& fits_i64(a.x * b.x + a.y * b.y)
    &&& fits_i64(spec_dot3(a, b))
}

/// `r` is the cross product of `a` and `b`.
pub open spec fn is_cross3(r: Vector3d, a: Vector3d, b: Vector3d) -> bool {
    &&& r.x == a.y * b.z - b.y * a.z
    &&& r.y == a.z * b.x - b.z * a.x
    &&& r.z == a.x * b.y - b.x * a.y
}

/// The machine can form the cross product: each product and each difference
/// stays representable.
pub open spec fn cross3_fits(a: Vector3d, b: Vector3d) -> bool {
    &&& fits_i64(a.y * b.z)
    &&& fits_i64(b.y * a.z)
    &&& fits_i64(a.y * b.z - b.y * a.z)
    &&& fits_i64(a.z * b.x)
    &&& fits_i64(b.z * a.x)
    &&& fits_i64(a.z * b.x - b.z * a.x)
    &&& fits_i64(a.x * b.y)
    &&& fits_i64(b.x * a.y)
    &&& fits_i64(a.x * b.y - b.x * a.y)
}

/// The componentwise sum stays representable.
pub open spec fn add3_fits(a: Vector3d, b: Vector3d) -> bool {
    fits_i64(a.x + b.x) && fits_i64(a.y + b.y) && fits_i64(a.z + b.z)
}

/// The componentwise difference stays representable.
pub open spec fn sub3_fits(a: Vector3d, b: Vector3d) -> bool {
    fits_i64(a.x - b.x) && fits_i64(a.y - b.y) && fits_i64(a.z - b.z)
}

/// The componentwise product stays representable.
pub open spec fn mul3_fits(a: Vector3d, b: Vector3d) -> bool {
    fits_i64(a.x * b.x) && fits_i64(a.y * b.y) && fits_i64(a.z * b.z)
}

/// The componentwise quotient exists and stays representable.
pub open spec fn div3_ok(a: Vector3d, b: Vector3d) -> bool {
    div_ok(a.x, b.x) && div_ok(a.y, b.y) && div_ok(a.z, b.z)
}

/// The inner product is symmetric: `dot(a, b) == dot(b, a)`.
pub proof fn lemma_dot3_symmetric(a: Vector3d, b: Vector3d)
    ensures
        spec_dot3(a, b) == spec_dot3(b, a),
{
    assert(a.x * b.x == b.x * a.x) by (nonlinear_arith);
    assert(a.y * b.y == b.y * a.y) by (nonlinear_arith);
    assert(a.z * b.z == b.z * a.z) by (nonlinear_arith);
}

/// The inner product is additive in its left argument: when `s` holds the
/// componentwise sum of `a` and `b`, `dot(s, c) == dot(a, c) + dot(b, c)`.
/// With symmetry this gives additivity on the right as well.
pub proof fn lemma_dot3_additive(a: Vector3d, b: Vector3d, s: Vector3d, c: Vector3d)
    requires
        s.x == a.x + b.x,
        s.y == a.y + b.y,
        s.z == a.z + b.z,
    ensures
        spec_dot3(s, c) == spec_dot3(a, c) + spec_dot3(b, c),
{
    assert((a.x + b.x) * c.x == a.x * c.x + b.x * c.x) by (nonlinear_arith);
    assert((a.y + b.y) * c.y == a.y * c.y + b.y * c.y) by (nonlinear_arith);
    assert((a.z + b.z) * c.z == a.z * c.z + b.z * c.z) by (nonlinear_arith);
}

/// The inner product is homogeneous in its left argument: when `t` holds `a`
/// scaled componentwise by `k`, `dot(t, c) == k * dot(a, c)`. With symmetry
/// this gives homogeneity on the right as well; together with additivity the
/// inner product is bilinear.
pub proof fn lemma_dot3_homogeneous(k: i64, a: Vector3d, t: Vector3d, c: Vector3d)
    requires
        t.x == k * a.x,
        t.y == k * a.y,
        t.z == k * a.z,
    ensures
        spec_dot3(t, c) == k * spec_dot3(a, c),
{
    assert((k * a.x) * c.x == k * (a.x * c.x)) by (nonlinear_arith);
    assert((k * a.y) * c.y == k * (a.y * c.y)) by (nonlinear_arith);
    assert((k * a.z) * c.z == k * (a.z * c.z)) by (nonlinear_arith);
    assert(k * (a.x * c.x + a.y * c.y + a.z * c.z) == k * (a.x * c.x) + k * (a.y * c.y) + k * (a.z
        * c.z)) by (nonlinear_arith);
}

impl Vector3d {
    /// A fresh vector carries the row tag.
    pub fn new(x: i64, y: i64, z: i64) -> (r: Vector3d)
        ensures
            r.x == x,
            r.y == y,
            r.z == z,
            r.major == Major::Row,
    {
        Vector3d { x, y, z, major: Major::Row }
    }

    /// Builds a vector from a sequence; exactly 3 items are accepted.
    pub fn from_vector(v: Vec<i64>) -> (r: Result<Vector3d, VectorError>)
        ensures
            r is Ok <==> v@.len() == 3,
            r matches Ok(u) ==> u.x == v@[0] && u.y == v@[1] && u.z == v@[2] && u.major
                == Major::Row,
            r matches Err(e) ==> e.err_type == VectorErrorType::InvalidInitSizeError
                && e.err_msg@ == "The dimension of the vector must be 3 dimensions"@,
    {
        if v.len() != 3 {
            return Err(
                VectorError {
                    err_msg: String::from_str("The dimension of the vector must be 3 dimensions"),
                    err_type: VectorErrorType::InvalidInitSizeError,
                },
            );
        }
        Ok(Vector3d { x: v[0], y: v[1], z: v[2], major: Major::Row })
    }

    /// Replicates one scalar into every component, with the row tag.
    pub fn fill(type_item: i64) -> (r: Vector3d)
        ensures
            r.x == type_item,
            r.y == type_item,
            r.z == type_item,
            r.major == Major::Row,
    {
        Vector3d { x: type_item, y: type_item, z: type_item, major: Major::Row }
    }

    /// The zero vector, derived from any scalar as `v - v`.
    pub fn zero(type_item: i64) -> (r: Vector3d)
        ensures
            r.x == 0,
            r.y == 0,
            r.z == 0,
            r.major == Major::Row,
    {
        Self::fill(type_item - type_item)
    }

    /// Flips the row/column tag in place; the components do not move.
    pub fn transpose(&mut self)
        ensures
            final(self).x == old(self).x,
            final(self).y == old(self).y,
            final(self).z == old(self).z,
            final(self).major == flipped(old(self).major),
    {
        match self.major {
            Major::Col => self.major = Major::Row,
            Major::Row => self.major = Major::Col,
        }
    }

    /// A copy of `v` carrying the opposite tag.
    pub fn from_transpose(v: Vector3d) -> (r: Vector3d)
        ensures
            r.x == v.x,
            r.y == v.y,
            r.z == v.z,
            r.major == flipped(v.major),
    {
        let major = match v.major {
            Major::Col => Major::Row,
            Major::Row => Major::Col,
        };
        Vector3d { x: v.x, y: v.y, z: v.z, major }
    }

    /// Componentwise sum; the result keeps the left operand's tag.
    pub fn add(&self, w: Vector3d) -> (r: Vector3d)
        requires
            add3_fits(*self, w),
        ensures
            r.x == self.x + w.x,
            r.y == self.y + w.y,
            r.z == self.z + w.z,
            r.major == self.major,
    {
        Vector3d { x: self.x + w.x, y: self.y + w.y, z: self.z + w.z, major: self.major }
    }

    /// Componentwise product — not the inner product.
    pub fn mul(&self, w: Vector3d) -> (r: Vector3d)
        requires
            mul3_fits(*self, w),
        ensures
            r.x == self.x * w.x,
            r.y == self.y * w.y,
            r.z == self.z * w.z,
            r.major == self.major,
    {
        Vector3d { x: self.x * w.x, y: self.y * w.y, z: self.z * w.z, major: self.major }
    }

    /// Componentwise quotient, truncating toward zero.
    pub fn div(&self, w: Vector3d) -> (r: Vector3d)
        requires
            div3_ok(*self, w),
        ensures
            r.x == trunc_div(self.x, w.x),
            r.y == trunc_div(self.y, w.y),
            r.z == trunc_div(self.z, w.z),
            r.major == self.major,
    {
        Vector3d {
            x: div_i64(self.x, w.x),
            y: div_i64(self.y, w.y),
            z: div_i64(self.z, w.z),
            major: self.major,
        }
    }

    /// Componentwise difference; the result keeps the left operand's tag.
    pub fn sub(&self, w: Vector3d) -> (r: Vector3d)
        requires
            sub3_fits(*self, w),
        ensures
            r.x == self.x - w.x,
            r.y == self.y - w.y,
            r.z == self.z - w.z,
            r.major == self.major,
    {
        Vector3d { x: self.x - w.x, y: self.y - w.y, z: self.z - w.z, major: self.major }
    }

    /// The inner product, whatever the tags say.
    pub fn dot(&self, w: Vector3d) -> (r: i64)
        requires
            dot3_fits(*self, w),
        ensures
            r == spec_dot3(*self, w),
    {
        self.x * w.x + self.y * w.y + self.z * w.z
    }

    /// The cross product; the result keeps the left operand's tag.
    pub fn cross(&self, w: Vector3d) -> (r: Vector3d)
        requires
            cross3_fits(*self, w),
        ensures
            is_cross3(r, *self, w),
            r.major == self.major,
    {
        Vector3d {
            x: self.y * w.z - w.y * self.z,
            y: self.z * w.x - w.z * self.x,
            z: self.x * w.y - w.x * self.y,
            major: self.major,
        }
    }

    /// Adds one scalar to every component.
    pub fn add_item(v: Vector3d, item: i64) -> (r: Vector3d)
        requires
            fits_i64(v.x + item),
            fits_i64(v.y + item),
            fits_i64(v.z + item),
        ensures
            r.x == v.x + item,
            r.y == v.y + item,
            r.z == v.z + item,
            r.major == v.major,
    {
        Vector3d { x: v.x + item, y: v.y + item, z: v.z + item, major: v.major }
    }

    /// Subtracts one scalar from every component.
    pub fn sub_item(v: Vector3d, item: i64) -> (r: Vector3d)
        requires
            fits_i64(v.x - item),
            fits_i64(v.y - item),
            fits_i64(v.z - item),
        ensures
            r.x == v.x - item,
            r.y == v.y - item,
            r.z == v.z - item,
            r.major == v.major,
    {
        Vector3d { x: v.x - item, y: v.y - item, z: v.z - item, major: v.major }
    }

    /// Multiplies every component by one scalar.
    pub fn mul_item(v: Vector3d, item: i64) -> (r: Vector3d)
        requires
            fits_i64(v.x * item),
            fits_i64(v.y * item),
            fits_i64(v.z * item),
        ensures
            r.x == v.x * item,
            r.y == v.y * item,
            r.z == v.z * item,
            r.major == v.major,
    {
        Vector3d { x: v.x * item, y: v.y * item, z: v.z * item, major: v.major }
    }

    /// Divides every component by one scalar, truncating toward zero.
    pub fn div_item(v: Vector3d, item: i64) -> (r: Vector3d)
        requires
            div_ok(v.x, item),
            div_ok(v.y, item),
            div_ok(v.z, item),
        ensures
            r.x == trunc_div(v.x, item),
            r.y == trunc_div(v.y, item),
            r.z == trunc_div(v.z, item),
            r.major == v.major,
    {
        Vector3d {
            x: div_i64(v.x, item),
            y: div_i64(v.y, item),
            z: div_i64(v.z, item),
            major: v.major,
        }
    }

    /// The squared length: the inner product of the vector with itself.
    pub fn norm(&self) -> (r: i64)
        requires
            dot3_fits(*self, *self),
        ensures
            r == spec_dot3(*self, *self),
    {
        self.x * self.x + self.y * self.y + self.z * self.z
    }

    /// Divides every component by the squared length — by `norm`, not by its
    /// square root.
    pub fn normalized(&mut self)
        requires
            dot3_fits(*old(self), *old(self)),
            spec_dot3(*old(self), *old(self)) != 0,
        ensures
            final(self).x == trunc_div(old(self).x, spec_dot3(*old(self), *old(self)) as i64),
            final(self).y == trunc_div(old(self).y, spec_dot3(*old(self), *old(self)) as i64),
            final(self).z == trunc_div(old(self).z, spec_dot3(*old(self), *old(self)) as i64),
            final(self).major == old(self).major,
    {
        proof {
            assert(self.x * self.x >= 0 && self.y * self.y >= 0 && self.z * self.z >= 0)
                by (nonlinear_arith);
        }
        let n = self.norm();
        self.x = div_i64(self.x, n);
        self.y = div_i64(self.y, n);
        self.z = div_i64(self.z, n);
    }

    /// Multiplies the vector on the left of a 3x3 matrix: component `i` of the
    /// result is the inner product of the vector with column `i`.
    pub fn product_with_matrix3d(&self, m: Matrix3d) -> (r: Vector3d)
        requires
            dot3_fits(*self, m3_col(m, 0)),
            dot3_fits(*self, m3_col(m, 1)),
            dot3_fits(*self, m3_col(m, 2)),
        ensures
            r.x == spec_dot3(*self, m3_col(m, 0)),
            r.y == spec_dot3(*self, m3_col(m, 1)),
            r.z == spec_dot3(*self, m3_col(m, 2)),
            r.major == Major::Row,
    {
        let mut mat2 = m.clone();
        mat2.transpose();
        proof {
            assert(m3_at(mat2, 0, 0) == m3_at(m, 0, 0));
            assert(m3_at(mat2, 0, 1) == m3_at(m, 1, 0));
            assert(m3_at(mat2, 0, 2) == m3_at(m, 2, 0));
            assert(m3_at(mat2, 1, 0) == m3_at(m, 0, 1));
            assert(m3_at(mat2, 1, 1) == m3_at(m, 1, 1));
            assert(m3_at(mat2, 1, 2) == m3_at(m, 2, 1));
            assert(m3_at(mat2, 2, 0) == m3_at(m, 0, 2));
            assert(m3_at(mat2, 2, 1) == m3_at(m, 1, 2));
            assert(m3_at(mat2, 2, 2) == m3_at(m, 2, 2));
        }
        Vector3d::new(self.dot(mat2.items[0]), self.dot(mat2.items[1]), self.dot(mat2.items[2]))
    }

    /// Extends the vector with one extra component.
    pub fn to_vector4d(&self, add_item: i64) -> (r: Vector4d)
        ensures
            r.x == self.x,
            r.y == self.y,
            r.z == self.z,
            r.w == add_item,
            r.major == Major::Row,
    {
        Vector4d::new(self.x, self.y, self.z, add_item)
    }

    /// The first two components, as a fresh row-tagged vector.
    pub fn head2(&self) -> (r: Vector2d)
        ensures
            r.x == self.x,
            r.y == self.y,
            r.major == Major::Row,
    {
        Vector2d::new(self.x, self.y)
    }
}

} // verus!
