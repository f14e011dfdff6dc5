use vstd::prelude::*;
use vstd::string::StringExecFns;

use crate::matrix_errors::{MatrixError, MatrixErrorType};
use crate::utils::{Major, fits_i64, div_ok, trunc_div, div_i64};
use crate::vector4d::{Vector4d, spec_dot4, dot4_fits, add4_fits, sub4_fits, mul4_fits, div4_ok};

verus! {

/// A 4x4 matrix: four row vectors.
#[derive(Debug, Clone, Copy, PartialEq)]
pub struct Matrix4d {
    pub items: [Vector4d; 4],
    pub rows: usize,
    pub cols: usize,
}

/// The scalar in row `i`, column `j`.
pub open spec fn m4_at(m: Matrix4d, i: int, j: int) -> i64 {
    let row = m.items[i];
    if j == 0 {
        row.x
    } else if j == 1 {
        row.y
    } else if j == 2 {
        row.z
    } else {
        row.w
    }
}

/// Column `j`, read as a row-tagged vector.
pub open spec fn m4_col(m: Matrix4d, j: int) -> Vector4d {
    Vector4d {
        x: m4_at(m, 0, j),
        y: m4_at(m, 1, j),
        z: m4_at(m, 2, j),
        w: m4_at(m, 3, j),
        major: Major::Row,
    }
}

/// `t` holds the entries of `m` mirrored across the diagonal, with every
/// row tag and the row/column counts untouched.
pub open spec fn is_transpose4(t: Matrix4d, m: Matrix4d) -> bool {
    &&& forall|i: int, j: int|
        0 <= i < 4 && 0 <= j < 4 ==> #[trigger] m4_at(t, i, j) == m4_at(m, j, i)
    &&& forall|i: int| 0 <= i < 4 ==> (#[trigger] t.items[i]).major == m.items[i].major
    &&& t.rows == m.rows
    &&& t.cols == m.cols
}

/// Entry `(i, j)` of `p` is the inner product of row `i` of `a` with
/// column `j` of `b`: `p` is the matrix product `a * b`.
pub open spec fn is_product4(p: Matrix4d, a: Matrix4d, b: Matrix4d) -> bool {
    forall|i: int, j: int|
        0 <= i < 4 && 0 <= j < 4 ==> #[trigger] m4_at(p, i, j) == spec_dot4(
            a.items[i],
            m4_col(b, j),
        )
}

/// Every inner product taken by the matrix product stays representable.
pub open spec fn product4_fits(a: Matrix4d, b: Matrix4d) -> bool {
    &&& dot4_fits(a.items[0], m4_col(b, 0))
    &&& dot4_fits(a.items[0], m4_col(b, 1))
    &&& dot4_fits(a.items[0], m4_col(b, 2))
    &&& dot4_fits(a.items[0], m4_col(b, 3))
    &&& dot4_fits(a.items[1], m4_col(b, 0))
    &&& dot4_fits(a.items[1], m4_col(b, 1))
    &&& dot4_fits(a.items[1], m4_col(b, 2))
    &&& dot4_fits(a.items[1], m4_col(b, 3))
    &&& dot4_fits(a.items[2], m4_col(b, 0))
    &&& dot4_fits(a.items[2], m4_col(b, 1))
    &&& dot4_fits(a.items[2], m4_col(b, 2))
    &&& dot4_fits(a.items[2], m4_col(b, 3))
    &&& dot4_fits(a.items[3], m4_col(b, 0))
    &&& dot4_fits(a.items[3], m4_col(b, 1))
    &&& dot4_fits(a.items[3], m4_col(b, 2))
    &&& dot4_fits(a.items[3], m4_col(b, 3))
}

/// Component `i` of `r` is the inner product of row `i` of `m` with `v`:
/// `r` is `m` applied to `v` as a column vector.
pub open spec fn is_mat_vec4(r: Vector4d, m: Matrix4d, v: Vector4d) -> bool {
    &&& r.x == spec_dot4(m.items[0], v)
    &&& r.y == spec_dot4(m.items[1], v)
    &&& r.z == spec_dot4(m.items[2], v)
    &&& r.w == spec_dot4(m.items[3], v)
    &&& r.major == Major::Row
}

/// Transposing twice restores the matrix: when `b` is the transpose of `a`
/// and `c` is the transpose of `b`, then `c == a`.
pub proof fn lemma_transpose4_involutive(a: Matrix4d, b: Matrix4d, c: Matrix4d)
    requires
        is_transpose4(b, a),
        is_transpose4(c, b),
    ensures
        c == a,
{
    broadcast use vstd::array::group_array_axioms;

    assert forall|i: int, j: int| 0 <= i < 4 && 0 <= j < 4 implies #[trigger] m4_at(c, i, j)
        == m4_at(a, i, j) by {
        assert(m4_at(c, i, j) == m4_at(b, j, i));
        assert(m4_at(b, j, i) == m4_at(a, i, j));
    }
    assert forall|i: int| 0 <= i < 4 implies #[trigger] c.items[i] == a.items[i] by {
        assert(c.items[i].major == b.items[i].major);
        assert(b.items[i].major == a.items[i].major);
        assert(m4_at(c, i, 0) == m4_at(a, i, 0));
        assert(m4_at(c, i, 1) == m4_at(a, i, 1));
        assert(m4_at(c, i, 2) == m4_at(a, i, 2));
        assert(m4_at(c, i, 3) == m4_at(a, i, 3));
    }
    assert(c.items =~= a.items);
}

/// One row of the product-then-apply argument, as a fact about scalars:
/// dotting `v` against the products of row `(a0, a1, a2, a3)` with the
/// columns of `b` agrees with dotting `(a0, a1, a2, a3)` against `b` applied
/// to `v`.
proof fn lemma_row_mix4(
    a0: int, a1: int, a2: int, a3: int,
    b00: int, b01: int, b02: int, b03: int,
    b10: int, b11: int, b12: int, b13: int,
    b20: int, b21: int, b22: int, b23: int,
    b30: int, b31: int, b32: int, b33: int,
    v0: int, v1: int, v2: int, v3: int,
)
    ensures
        (a0 * b00 + a1 * b10 + a2 * b20 + a3 * b30) * v0 + (a0 * b01 + a1 * b11 + a2 * b21 + a3
            * b31) * v1 + (a0 * b02 + a1 * b12 + a2 * b22 + a3 * b32) * v2 + (a0 * b03 + a1 * b13
            + a2 * b23 + a3 * b33) * v3 == a0 * (b00 * v0 + b01 * v1 + b02 * v2 + b03 * v3) + a1 * (
        b10 * v0 + b11 * v1 + b12 * v2 + b13 * v3) + a2 * (b20 * v0 + b21 * v1 + b22 * v2 + b23
            * v3) + a3 * (b30 * v0 + b31 * v1 + b32 * v2 + b33 * v3),
{
    broadcast use vstd::arithmetic::mul::group_mul_is_commutative_and_distributive;
    broadcast use vstd::arithmetic::mul::lemma_mul_is_associative;

}

/// Taking the matrix product and then applying it to a vector agrees with
/// applying the factors one after the other: when `p == a * b`, `u == b v`,
/// `w == a u` and `r == p v`, then `r == w`.
pub proof fn lemma_product4_with_vector(
    a: Matrix4d,
    b: Matrix4d,
    p: Matrix4d,
    v: Vector4d,
    u: Vector4d,
    w: Vector4d,
    r: Vector4d,
)
    requires
        is_product4(p, a, b),
        is_mat_vec4(u, b, v),
        is_mat_vec4(w, a, u),
        is_mat_vec4(r, p, v),
    ensures
        r == w,
{
    assert(m4_at(p, 0, 0) == spec_dot4(a.items[0], m4_col(b, 0)));
    assert(m4_at(p, 0, 1) == spec_dot4(a.items[0], m4_col(b, 1)));
    assert(m4_at(p, 0, 2) == spec_dot4(a.items[0], m4_col(b, 2)));
    assert(m4_at(p, 0, 3) == spec_dot4(a.items[0], m4_col(b, 3)));
    assert(m4_at(p, 1, 0) == spec_dot4(a.items[1], m4_col(b, 0)));
    assert(m4_at(p, 1, 1) == spec_dot4(a.items[1], m4_col(b, 1)));
    assert(m4_at(p, 1, 2) == spec_dot4(a.items[1], m4_col(b, 2)));
    assert(m4_at(p, 1, 3) == spec_dot4(a.items[1], m4_col(b, 3)));
    assert(m4_at(p, 2, 0) == spec_dot4(a.items[2], m4_col(b, 0)));
    assert(m4_at(p, 2, 1) == spec_dot4(a.items[2], m4_col(b, 1)));
    assert(m4_at(p, 2, 2) == spec_dot4(a.items[2], m4_col(b, 2)));
    assert(m4_at(p, 2, 3) == spec_dot4(a.items[2], m4_col(b, 3)));
    assert(m4_at(p, 3, 0) == spec_dot4(a.items[3], m4_col(b, 0)));
    assert(m4_at(p, 3, 1) == spec_dot4(a.items[3], m4_col(b, 1)));
    assert(m4_at(p, 3, 2) == spec_dot4(a.items[3], m4_col(b, 2)));
    assert(m4_at(p, 3, 3) == spec_dot4(a.items[3], m4_col(b, 3)));
    let b00 = b.items[0].x as int;
    let b01 = b.items[0].y as int;
    let b02 = b.items[0].z as int;
    let b03 = b.items[0].w as int;
    let b10 = b.items[1].x as int;
    let b11 = b.items[1].y as int;
    let b12 = b.items[1].z as int;
    let b13 = b.items[1].w as int;
    let b20 = b.items[2].x as int;
    let b21 = b.items[2].y as int;
    let b22 = b.items[2].z as int;
    let b23 = b.items[2].w as int;
    let b30 = b.items[3].x as int;
    let b31 = b.items[3].y as int;
    let b32 = b.items[3].z as int;
    let b33 = b.items[3].w as int;
    let v0 = v.x as int;
    let v1 = v.y as int;
    let v2 = v.z as int;
    let v3 = v.w as int;
    lemma_row_mix4(
        a.items[0].x as int, a.items[0].y as int, a.items[0].z as int, a.items[0].w as int,
        b00, b01, b02, b03, b10, b11, b12, b13, b20, b21, b22, b23, b30, b31, b32, b33,
        v0, v1, v2, v3,
    );
    lemma_row_mix4(
        a.items[1].x as int, a.items[1].y as int, a.items[1].z as int, a.items[1].w as int,
        b00, b01, b02, b03, b10, b11, b12, b13, b20, b21, b22, b23, b30, b31, b32, b33,
        v0, v1, v2, v3,
    );
    lemma_row_mix4(
        a.items[2].x as int, a.items[2].y as int, a.items[2].z as int, a.items[2].w as int,
        b00, b01, b02, b03, b10, b11, b12, b13, b20, b21, b22, b23, b30, b31, b32, b33,
        v0, v1, v2, v3,
    );
    lemma_row_mix4(
        a.items[3].x as int, a.items[3].y as int, a.items[3].z as int, a.items[3].w as int,
        b00, b01, b02, b03, b10, b11, b12, b13, b20, b21, b22, b23, b30, b31, b32, b33,
        v0, v1, v2, v3,
    );
}

impl Matrix4d {
    /// Stores the four rows verbatim, tags included.
    pub fn new(v1: Vector4d, v2: Vector4d, v3: Vector4d, v4: Vector4d) -> (r: Matrix4d)
        ensures
            r.items[0] == v1,
            r.items[1] == v2,
            r.items[2] == v3,
            r.items[3] == v4,
            r.rows == 4,
            r.cols == 4,
    {
        Matrix4d { items: [v1, v2, v3, v4], rows: 4, cols: 4 }
    }

    /// Builds a matrix from a flat row-major sequence; exactly 16 items are
    /// accepted.
    pub fn from_vector(v: Vec<i64>) -> (r: Result<Matrix4d, MatrixError>)
        ensures
            r is Ok <==> v@.len() == 16,
            r matches Ok(m) ==> forall|i: int, j: int|
                0 <= i < 4 && 0 <= j < 4 ==> #[trigger] m4_at(m, i, j) == v@[4 * i + j],
            r matches Ok(m) ==> forall|i: int|
                0 <= i < 4 ==> (#[trigger] m.items[i]).major == Major::Row,
            r matches Ok(m) ==> m.rows == 4 && m.cols == 4,
            r matches Err(e) ==> e.err_type == MatrixErrorType::InvalidInitSizeError
                && e.err_msg@
                == "The length of matrix4d is illegal. The legal length is: 'n' == 16"@,
    {
        if v.len() != 16 {
            return Err(
                MatrixError {
                    err_msg: String::from_str(
                        "The length of matrix4d is illegal. The legal length is: 'n' == 16",
                    ),
                    err_type: MatrixErrorType::InvalidInitSizeError,
                },
            );
        }
        Ok(
            Matrix4d::new(
                Vector4d::new(v[0], v[1], v[2], v[3]),
                Vector4d::new(v[4], v[5], v[6], v[7]),
                Vector4d::new(v[8], v[9], v[10], v[11]),
                Vector4d::new(v[12], v[13], v[14], v[15]),
            ),
        )
    }

    /// Replicates one scalar into every entry; a uniform fill, not the
    /// multiplicative identity.
    pub fn identity(item_type: i64) -> (r: Matrix4d)
        ensures
            forall|i: int, j: int| 0 <= i < 4 && 0 <= j < 4 ==> #[trigger] m4_at(r, i, j) == item_type,
            forall|i: int| 0 <= i < 4 ==> (#[trigger] r.items[i]).major == Major::Row,
            r.rows == 4,
            r.cols == 4,
    {
        let items = [Vector4d::new(item_type, item_type, item_type, item_type); 4];
        Matrix4d { items, rows: 4, cols: 4 }
    }

    /// Mirrors the entries across the diagonal in place.
    pub fn transpose(&mut self)
        ensures
            is_transpose4(*final(self), *old(self)),
    {
        let a = self.items[0];
        let b = self.items[1];
        let c = self.items[2];
        let d = self.items[3];
        self.items = [
            Vector4d { x: a.x, y: b.x, z: c.x, w: d.x, major: a.major },
            Vector4d { x: a.y, y: b.y, z: c.y, w: d.y, major: b.major },
            Vector4d { x: a.z, y: b.z, z: c.z, w: d.z, major: c.major },
            Vector4d { x: a.w, y: b.w, z: c.w, w: d.w, major: d.major },
        ];
    }

    /// The matrix product `self * mat`, formed by transposing a copy of `mat`
    /// and dotting rows against rows.
    pub fn product(&self, mat: Matrix4d) -> (res: Matrix4d)
        requires
            product4_fits(*self, mat),
        ensures
            is_product4(res, *self, mat),
            forall|i: int| 0 <= i < 4 ==> (#[trigger] res.items[i]).major == Major::Row,
            res.rows == 4,
            res.cols == 4,
    {
        let mut mat2 = mat.clone();
        mat2.transpose();
        proof {
            assert(m4_at(mat2, 0, 0) == m4_at(mat, 0, 0));
            assert(m4_at(mat2, 0, 1) == m4_at(mat, 1, 0));
            assert(m4_at(mat2, 0, 2) == m4_at(mat, 2, 0));
            assert(m4_at(mat2, 0, 3) == m4_at(mat, 3, 0));
            assert(m4_at(mat2, 1, 0) == m4_at(mat, 0, 1));
            assert(m4_at(mat2, 1, 1) == m4_at(mat, 1, 1));
            assert(m4_at(mat2, 1, 2) == m4_at(mat, 2, 1));
            assert(m4_at(mat2, 1, 3) == m4_at(mat, 3, 1));
            assert(m4_at(mat2, 2, 0) == m4_at(mat, 0, 2));
            assert(m4_at(mat2, 2, 1) == m4_at(mat, 1, 2));
            assert(m4_at(mat2, 2, 2) == m4_at(mat, 2, 2));
            assert(m4_at(mat2, 2, 3) == m4_at(mat, 3, 2));
            assert(m4_at(mat2, 3, 0) == m4_at(mat, 0, 3));
            assert(m4_at(mat2, 3, 1) == m4_at(mat, 1, 3));
            assert(m4_at(mat2, 3, 2) == m4_at(mat, 2, 3));
            assert(m4_at(mat2, 3, 3) == m4_at(mat, 3, 3));
        }
        let r0 = Vector4d::new(
            self.items[0].dot(mat2.items[0]),
            self.items[0].dot(mat2.items[1]),
            self.items[0].dot(mat2.items[2]),
            self.items[0].dot(mat2.items[3]),
        );
        let r1 = Vector4d::new(
            self.items[1].dot(mat2.items[0]),
            self.items[1].dot(mat2.items[1]),
            self.items[1].dot(mat2.items[2]),
            self.items[1].dot(mat2.items[3]),
        );
        let r2 = Vector4d::new(
            self.items[2].dot(mat2.items[0]),
            self.items[2].dot(mat2.items[1]),
            self.items[2].dot(mat2.items[2]),
            self.items[2].dot(mat2.items[3]),
        );
        let r3 = Vector4d::new(
            self.items[3].dot(mat2.items[0]),
            self.items[3].dot(mat2.items[1]),
            self.items[3].dot(mat2.items[2]),
            self.items[3].dot(mat2.items[3]),
        );
        let res = Matrix4d::new(r0, r1, r2, r3);
        proof {
            assert forall|i: int, j: int| 0 <= i < 4 && 0 <= j < 4 implies #[trigger] m4_at(
                res,
                i,
                j,
            ) == spec_dot4(self.items[i], m4_col(mat, j)) by {}
        }
        res
    }

    /// Applies the matrix to `v` as a column vector.
    pub fn product_with_vector4d(&self, v: Vector4d) -> (r: Vector4d)
        requires
            dot4_fits(self.items[0], v),
            dot4_fits(self.items[1], v),
            dot4_fits(self.items[2], v),
            dot4_fits(self.items[3], v),
        ensures
            is_mat_vec4(r, *self, v),
    {
        Vector4d::new(
            self.items[0].dot(v),
            self.items[1].dot(v),
            self.items[2].dot(v),
            self.items[3].dot(v),
        )
    }

    /// Entrywise sum; each row keeps its own tag.
    pub fn add(&self, mat: Matrix4d) -> (r: Matrix4d)
        requires
            add4_fits(self.items[0], mat.items[0]),
            add4_fits(self.items[1], mat.items[1]),
            add4_fits(self.items[2], mat.items[2]),
            add4_fits(self.items[3], mat.items[3]),
        ensures
            forall|i: int, j: int|
                0 <= i < 4 && 0 <= j < 4 ==> #[trigger] m4_at(r, i, j) == m4_at(*self, i, j)
                    + m4_at(mat, i, j),
            forall|i: int| 0 <= i < 4 ==> (#[trigger] r.items[i]).major == self.items[i].major,
            r.rows == 4,
            r.cols == 4,
    {
        Matrix4d {
            items: [
                self.items[0].add(mat.items[0]),
                self.items[1].add(mat.items[1]),
                self.items[2].add(mat.items[2]),
                self.items[3].add(mat.items[3]),
            ],
            rows: 4,
            cols: 4,
        }
    }

    /// Entrywise product — not the matrix product.
    pub fn hadamard(&self, mat: Matrix4d) -> (r: Matrix4d)
        requires
            mul4_fits(self.items[0], mat.items[0]),
            mul4_fits(self.items[1], mat.items[1]),
            mul4_fits(self.items[2], mat.items[2]),
            mul4_fits(self.items[3], mat.items[3]),
        ensures
            forall|i: int, j: int|
                0 <= i < 4 && 0 <= j < 4 ==> #[trigger] m4_at(r, i, j) == m4_at(*self, i, j)
                    * m4_at(mat, i, j),
            forall|i: int| 0 <= i < 4 ==> (#[trigger] r.items[i]).major == self.items[i].major,
            r.rows == 4,
            r.cols == 4,
    {
        Matrix4d {
            items: [
                self.items[0].mul(mat.items[0]),
                self.items[1].mul(mat.items[1]),
                self.items[2].mul(mat.items[2]),
                self.items[3].mul(mat.items[3]),
            ],
            rows: 4,
            cols: 4,
        }
    }

    /// Entrywise difference; each row keeps its own tag.
    pub fn sub(&self, mat: Matrix4d) -> (r: Matrix4d)
        requires
            sub4_fits(self.items[0], mat.items[0]),
            sub4_fits(self.items[1], mat.items[1]),
            sub4_fits(self.items[2], mat.items[2]),
            sub4_fits(self.items[3], mat.items[3]),
        ensures
            forall|i: int, j: int|
                0 <= i < 4 && 0 <= j < 4 ==> #[trigger] m4_at(r, i, j) == m4_at(*self, i, j)
                    - m4_at(mat, i, j),
            forall|i: int| 0 <= i < 4 ==> (#[trigger] r.items[i]).major == self.items[i].major,
            r.rows == 4,
            r.cols == 4,
    {
        Matrix4d {
            items: [
                self.items[0].sub(mat.items[0]),
                self.items[1].sub(mat.items[1]),
                self.items[2].sub(mat.items[2]),
                self.items[3].sub(mat.items[3]),
            ],
            rows: 4,
            cols: 4,
        }
    }

    /// Entrywise quotient, truncating toward zero; each row keeps its own tag.
    pub fn div(&self, mat: Matrix4d) -> (r: Matrix4d)
        requires
            div4_ok(self.items[0], mat.items[0]),
            div4_ok(self.items[1], mat.items[1]),
            div4_ok(self.items[2], mat.items[2]),
            div4_ok(self.items[3], mat.items[3]),
        ensures
            forall|i: int, j: int|
                0 <= i < 4 && 0 <= j < 4 ==> #[trigger] m4_at(r, i, j) == trunc_div(
                    m4_at(*self, i, j),
                    m4_at(mat, i, j),
                ),
            forall|i: int| 0 <= i < 4 ==> (#[trigger] r.items[i]).major == self.items[i].major,
            r.rows == 4,
            r.cols == 4,
    {
        Matrix4d {
            items: [
                self.items[0].div(mat.items[0]),
                self.items[1].div(mat.items[1]),
                self.items[2].div(mat.items[2]),
                self.items[3].div(mat.items[3]),
            ],
            rows: 4,
            cols: 4,
        }
    }

    /// Adds one scalar to every entry; the result carries fresh row tags.
    pub fn add_item(&self, item: i64) -> (r: Matrix4d)
        requires
            fits_i64(m4_at(*self, 0, 0) + item),
            fits_i64(m4_at(*self, 0, 1) + item),
            fits_i64(m4_at(*self, 0, 2) + item),
            fits_i64(m4_at(*self, 0, 3) + item),
            fits_i64(m4_at(*self, 1, 0) + item),
            fits_i64(m4_at(*self, 1, 1) + item),
            fits_i64(m4_at(*self, 1, 2) + item),
            fits_i64(m4_at(*self, 1, 3) + item),
            fits_i64(m4_at(*self, 2, 0) + item),
            fits_i64(m4_at(*self, 2, 1) + item),
            fits_i64(m4_at(*self, 2, 2) + item),
            fits_i64(m4_at(*self, 2, 3) + item),
            fits_i64(m4_at(*self, 3, 0) + item),
            fits_i64(m4_at(*self, 3, 1) + item),
            fits_i64(m4_at(*self, 3, 2) + item),
            fits_i64(m4_at(*self, 3, 3) + item),
        ensures
            forall|i: int, j: int|
                0 <= i < 4 && 0 <= j < 4 ==> #[trigger] m4_at(r, i, j) == m4_at(*self, i, j) + item,
            forall|i: int| 0 <= i < 4 ==> (#[trigger] r.items[i]).major == Major::Row,
            r.rows == 4,
            r.cols == 4,
    {
        Matrix4d {
            items: [
                Vector4d::new(
                    self.items[0].x + item,
                    self.items[0].y + item,
                    self.items[0].z + item,
                    self.items[0].w + item,
                ),
                Vector4d::new(
                    self.items[1].x + item,
                    self.items[1].y + item,
                    self.items[1].z + item,
                    self.items[1].w + item,
                ),
                Vector4d::new(
                    self.items[2].x + item,
                    self.items[2].y + item,
                    self.items[2].z + item,
                    self.items[2].w + item,
                ),
                Vector4d::new(
                    self.items[3].x + item,
                    self.items[3].y + item,
                    self.items[3].z + item,
                    self.items[3].w + item,
                ),
            ],
            rows: 4,
            cols: 4,
        }
    }

    /// Subtracts one scalar from every entry; the result carries fresh row tags.
    pub fn sub_item(&self, item: i64) -> (r: Matrix4d)
        requires
            fits_i64(m4_at(*self, 0, 0) - item),
            fits_i64(m4_at(*self, 0, 1) - item),
            fits_i64(m4_at(*self, 0, 2) - item),
            fits_i64(m4_at(*self, 0, 3) - item),
            fits_i64(m4_at(*self, 1, 0) - item),
            fits_i64(m4_at(*self, 1, 1) - item),
            fits_i64(m4_at(*self, 1, 2) - item),
            fits_i64(m4_at(*self, 1, 3) - item),
            fits_i64(m4_at(*self, 2, 0) - item),
            fits_i64(m4_at(*self, 2, 1) - item),
            fits_i64(m4_at(*self, 2, 2) - item),
            fits_i64(m4_at(*self, 2, 3) - item),
            fits_i64(m4_at(*self, 3, 0) - item),
            fits_i64(m4_at(*self, 3, 1) - item),
            fits_i64(m4_at(*self, 3, 2) - item),
            fits_i64(m4_at(*self, 3, 3) - item),
        ensures
            forall|i: int, j: int|
                0 <= i < 4 && 0 <= j < 4 ==> #[trigger] m4_at(r, i, j) == m4_at(*self, i, j) - item,
            forall|i: int| 0 <= i < 4 ==> (#[trigger] r.items[i]).major == Major::Row,
            r.rows == 4,
            r.cols == 4,
    {
        Matrix4d {
            items: [
                Vector4d::new(
                    self.items[0].x - item,
                    self.items[0].y - item,
                    self.items[0].z - item,
                    self.items[0].w - item,
                ),
                Vector4d::new(
                    self.items[1].x - item,
                    self.items[1].y - item,
                    self.items[1].z - item,
                    self.items[1].w - item,
                ),
                Vector4d::new(
                    self.items[2].x - item,
                    self.items[2].y - item,
                    self.items[2].z - item,
                    self.items[2].w - item,
                ),
                Vector4d::new(
                    self.items[3].x - item,
                    self.items[3].y - item,
                    self.items[3].z - item,
                    self.items[3].w - item,
                ),
            ],
            rows: 4,
            cols: 4,
        }
    }

    /// Multiplies every entry by one scalar; the result carries fresh row tags.
    pub fn mul_item(&self, item: i64) -> (r: Matrix4d)
        requires
            fits_i64(m4_at(*self, 0, 0) * item),
            fits_i64(m4_at(*self, 0, 1) * item),
            fits_i64(m4_at(*self, 0, 2) * item),
            fits_i64(m4_at(*self, 0, 3) * item),
            fits_i64(m4_at(*self, 1, 0) * item),
            fits_i64(m4_at(*self, 1, 1) * item),
            fits_i64(m4_at(*self, 1, 2) * item),
            fits_i64(m4_at(*self, 1, 3) * item),
            fits_i64(m4_at(*self, 2, 0) * item),
            fits_i64(m4_at(*self, 2, 1) * item),
            fits_i64(m4_at(*self, 2, 2) * item),
            fits_i64(m4_at(*self, 2, 3) * item),
            fits_i64(m4_at(*self, 3, 0) * item),
            fits_i64(m4_at(*self, 3, 1) * item),
            fits_i64(m4_at(*self, 3, 2) * item),
            fits_i64(m4_at(*self, 3, 3) * item),
        ensures
            forall|i: int, j: int|
                0 <= i < 4 && 0 <= j < 4 ==> #[trigger] m4_at(r, i, j) == m4_at(*self, i, j) * item,
            forall|i: int| 0 <= i < 4 ==> (#[trigger] r.items[i]).major == Major::Row,
            r.rows == 4,
            r.cols == 4,
    {
        Matrix4d {
            items: [
                Vector4d::new(
                    self.items[0].x * item,
                    self.items[0].y * item,
                    self.items[0].z * item,
                    self.items[0].w * item,
                ),
                Vector4d::new(
                    self.items[1].x * item,
                    self.items[1].y * item,
                    self.items[1].z * item,
                    self.items[1].w * item,
                ),
                Vector4d::new(
                    self.items[2].x * item,
                    self.items[2].y * item,
                    self.items[2].z * item,
                    self.items[2].w * item,
                ),
                Vector4d::new(
                    self.items[3].x * item,
                    self.items[3].y * item,
                    self.items[3].z * item,
                    self.items[3].w * item,
                ),
            ],
            rows: 4,
            cols: 4,
        }
    }

    /// Divides every entry by one scalar, truncating toward zero; the result
    /// carries fresh row tags.
    pub fn div_item(&self, item: i64) -> (r: Matrix4d)
        requires
            div_ok(m4_at(*self, 0, 0), item),
            div_ok(m4_at(*self, 0, 1), item),
            div_ok(m4_at(*self, 0, 2), item),
            div_ok(m4_at(*self, 0, 3), item),
            div_ok(m4_at(*self, 1, 0), item),
            div_ok(m4_at(*self, 1, 1), item),
            div_ok(m4_at(*self, 1, 2), item),
            div_ok(m4_at(*self, 1, 3), item),
            div_ok(m4_at(*self, 2, 0), item),
            div_ok(m4_at(*self, 2, 1), item),
            div_ok(m4_at(*self, 2, 2), item),
            div_ok(m4_at(*self, 2, 3), item),
            div_ok(m4_at(*self, 3, 0), item),
            div_ok(m4_at(*self, 3, 1), item),
            div_ok(m4_at(*self, 3, 2), item),
            div_ok(m4_at(*self, 3, 3), item),
        ensures
            forall|i: int, j: int|
                0 <= i < 4 && 0 <= j < 4 ==> #[trigger] m4_at(r, i, j) == trunc_div(
                    m4_at(*self, i, j),
                    item,
                ),
            forall|i: int| 0 <= i < 4 ==> (#[trigger] r.items[i]).major == Major::Row,
            r.rows == 4,
            r.cols == 4,
    {
        Matrix4d {
            items: [
                Vector4d::new(
                    div_i64(self.items[0].x, item),
                    div_i64(self.items[0].y, item),
                    div_i64(self.items[0].z, item),
                    div_i64(self.items[0].w, item),
                ),
                Vector4d::new(
                    div_i64(self.items[1].x, item),
                    div_i64(self.items[1].y, item),
                    div_i64(self.items[1].z, item),
                    div_i64(self.items[1].w, item),
                ),
                Vector4d::new(
                    div_i64(self.items[2].x, item),
                    div_i64(self.items[2].y, item),
                    div_i64(self.items[2].z, item),
                    div_i64(self.items[2].w, item),
                ),
                Vector4d::new(
                    div_i64(self.items[3].x, item),
                    div_i64(self.items[3].y, item),
                    div_i64(self.items[3].z, item),
                    div_i64(self.items[3].w, item),
                ),
            ],
            rows: 4,
            cols: 4,
        }
    }
}

} // verus!
