use vstd::prelude::*;
use vstd::string::StringExecFns;

use crate::matrix_errors::{MatrixError, MatrixErrorType};
use crate::utils::{Major, fits_i64, div_ok, trunc_div, div_i64};
use crate::vector3d::{
    Vector3d, spec_dot3, dot3_fits, is_cross3, cross3_fits, add3_fits, sub3_fits, mul3_fits,
    div3_ok,
};

verus! {

/// A 3x3 matrix: three row vectors.
#[derive(Debug, Clone, Copy, PartialEq)]
pub struct Matrix3d {
    pub items: [Vector3d; 3],
    pub rows: usize,
    pub cols: usize,
}

/// The scalar in row `i`, column `j`.
pub open spec fn m3_at(m: Matrix3d, i: int, j: int) -> i64 {
    let row = m.items[i];
    if j == 0 {
        row.x
    } else if j == 1 {
        row.y
    } else {
        row.z
    }
}

/// Column `j`, read as a row-tagged vector.
pub open spec fn m3_col(m: Matrix3d, j: int) -> Vector3d {
    Vector3d { x: m3_at(m, 0, j), y: m3_at(m, 1, j), z: m3_at(m, 2, j), major: Major::Row }
}

/// `t` holds the entries of `m` mirrored across the diagonal, with every
/// row tag and the row/column counts untouched.
pub open spec fn is_transpose3(t: Matrix3d, m: Matrix3d) -> bool {
    &&& forall|i: int, j: int|
        0 <= i < 3 && 0 <= j < 3 ==> #[trigger] m3_at(t, i, j) == m3_at(m, j, i)
    &&& forall|i: int| 0 <= i < 3 ==> (#[trigger] t.items[i]).major == m.items[i].major
    &&& t.rows == m.rows
    &&& t.cols == m.cols
}

/// Entry `(i, j)` of `p` is the inner product of row `i` of `a` with
/// column `j` of `b`: `p` is the matrix product `a * b`.
pub open spec fn is_product3(p: Matrix3d, a: Matrix3d, b: Matrix3d) -> bool {
    forall|i: int, j: int|
        0 <= i < 3 && 0 <= j < 3 ==> #[trigger] m3_at(p, i, j) == spec_dot3(
            a.items[i],
            m3_col(b, j),
        )
}

/// Every inner product taken by the matrix product stays representable.
pub open spec fn product3_fits(a: Matrix3d, b: Matrix3d) -> bool {
    &&& dot3_fits(a.items[0], m3_col(b, 0))
    &&& dot3_fits(a.items[0], m3_col(b, 1))
    &&& dot3_fits(a.items[0], m3_col(b, 2))
    &&& dot3_fits(a.items[1], m3_col(b, 0))
    &&& dot3_fits(a.items[1], m3_col(b, 1))
    &&& dot3_fits(a.items[1], m3_col(b, 2))
    &&& dot3_fits(a.items[2], m3_col(b, 0))
    &&& dot3_fits(a.items[2], m3_col(b, 1))
    &&& dot3_fits(a.items[2], m3_col(b, 2))
}

/// Component `i` of `r` is the inner product of row `i` of `m` with `v`:
/// `r` is `m` applied to `v` as a column vector.
pub open spec fn is_mat_vec3(r: Vector3d, m: Matrix3d, v: Vector3d) -> bool {
    &&& r.x == spec_dot3(m.items[0], v)
    &&& r.y == spec_dot3(m.items[1], v)
    &&& r.z == spec_dot3(m.items[2], v)
    &&& r.major == Major::Row
}

/// Transposing twice restores the matrix: when `b` is the transpose of `a`
/// and `c` is the transpose of `b`, then `c == a`.
pub proof fn lemma_transpose3_involutive(a: Matrix3d, b: Matrix3d, c: Matrix3d)
    requires
        is_transpose3(b, a),
        is_transpose3(c, b),
    ensures
        c == a,
{
    broadcast use vstd::array::group_array_axioms;

    assert forall|i: int, j: int| 0 <= i < 3 && 0 <= j < 3 implies #[trigger] m3_at(c, i, j)
        == m3_at(a, i, j) by {
        assert(m3_at(c, i, j) == m3_at(b, j, i));
        assert(m3_at(b, j, i) == m3_at(a, i, j));
    }
    assert forall|i: int| 0 <= i < 3 implies #[trigger] c.items[i] == a.items[i] by {
        assert(c.items[i].major == b.items[i].major);
        assert(b.items[i].major == a.items[i].major);
        assert(m3_at(c, i, 0) == m3_at(a, i, 0));
        assert(m3_at(c, i, 1) == m3_at(a, i, 1));
        assert(m3_at(c, i, 2) == m3_at(a, i, 2));
    }
    assert(c.items =~= a.items);
}

/// One row of the product-then-apply argument, as a fact about scalars:
/// dotting `v` against the products of row `(a0, a1, a2)` with the columns of
/// `b` agrees with dotting `(a0, a1, a2)` against `b` applied to `v`.
proof fn lemma_row_mix3(
    a0: int, a1: int, a2: int,
    b00: int, b01: int, b02: int,
    b10: int, b11: int, b12: int,
    b20: int, b21: int, b22: int,
    v0: int, v1: int, v2: int,
)
    ensures
        (a0 * b00 + a1 * b10 + a2 * b20) * v0 + (a0 * b01 + a1 * b11 + a2 * b21) * v1 + (a0 * b02
            + a1 * b12 + a2 * b22) * v2 == a0 * (b00 * v0 + b01 * v1 + b02 * v2) + a1 * (b10 * v0
            + b11 * v1 + b12 * v2) + a2 * (b20 * v0 + b21 * v1 + b22 * v2),
{
    broadcast use vstd::arithmetic::mul::group_mul_is_commutative_and_distributive;
    broadcast use vstd::arithmetic::mul::lemma_mul_is_associative;

}

/// Taking the matrix product and then applying it to a vector agrees with
/// applying the factors one after the other: when `p == a * b`, `u == b v`,
/// `w == a u` and `r == p v`, then `r == w`.
pub proof fn lemma_product3_with_vector(
    a: Matrix3d,
    b: Matrix3d,
    p: Matrix3d,
    v: Vector3d,
    u: Vector3d,
    w: Vector3d,
    r: Vector3d,
)
    requires
        is_product3(p, a, b),
        is_mat_vec3(u, b, v),
        is_mat_vec3(w, a, u),
        is_mat_vec3(r, p, v),
    ensures
        r == w,
{
    assert(m3_at(p, 0, 0) == spec_dot3(a.items[0], m3_col(b, 0)) && m3_at(p, 0, 1) == spec_dot3(
        a.items[0],
        m3_col(b, 1),
    ) && m3_at(p, 0, 2) == spec_dot3(a.items[0], m3_col(b, 2)));
    assert(m3_at(p, 1, 0) == spec_dot3(a.items[1], m3_col(b, 0)) && m3_at(p, 1, 1) == spec_dot3(
        a.items[1],
        m3_col(b, 1),
    ) && m3_at(p, 1, 2) == spec_dot3(a.items[1], m3_col(b, 2)));
    assert(m3_at(p, 2, 0) == spec_dot3(a.items[2], m3_col(b, 0)) && m3_at(p, 2, 1) == spec_dot3(
        a.items[2],
        m3_col(b, 1),
    ) && m3_at(p, 2, 2) == spec_dot3(a.items[2], m3_col(b, 2)));
    let b00 = b.items[0].x as int;
    let b01 = b.items[0].y as int;
    let b02 = b.items[0].z as int;
    let b10 = b.items[1].x as int;
    let b11 = b.items[1].y as int;
    let b12 = b.items[1].z as int;
    let b20 = b.items[2].x as int;
    let b21 = b.items[2].y as int;
    let b22 = b.items[2].z as int;
    let v0 = v.x as int;
    let v1 = v.y as int;
    let v2 = v.z as int;
    lemma_row_mix3(
        a.items[0].x as int, a.items[0].y as int, a.items[0].z as int,
        b00, b01, b02, b10, b11, b12, b20, b21, b22,
        v0, v1, v2,
    );
    lemma_row_mix3(
        a.items[1].x as int, a.items[1].y as int, a.items[1].z as int,
        b00, b01, b02, b10, b11, b12, b20, b21, b22,
        v0, v1, v2,
    );
    lemma_row_mix3(
        a.items[2].x as int, a.items[2].y as int, a.items[2].z as int,
        b00, b01, b02, b10, b11, b12, b20, b21, b22,
        v0, v1, v2,
    );
}

impl Matrix3d {
    /// Stores the three rows verbatim, tags included.
    pub fn new(v1: Vector3d, v2: Vector3d, v3: Vector3d) -> (r: Matrix3d)
        ensures
            r.items[0] == v1,
            r.items[1] == v2,
            r.items[2] == v3,
            r.rows == 3,
            r.cols == 3,
    {
        Matrix3d { items: [v1, v2, v3], rows: 3, cols: 3 }
    }

    /// Builds a matrix from a flat row-major sequence; exactly 9 items are
    /// accepted.
    pub fn from_vector(v: Vec<i64>) -> (r: Result<Matrix3d, MatrixError>)
        ensures
            r is Ok <==> v@.len() == 9,
            r matches Ok(m) ==> forall|i: int, j: int|
                0 <= i < 3 && 0 <= j < 3 ==> #[trigger] m3_at(m, i, j) == v@[3 * i + j],
            r matches Ok(m) ==> forall|i: int|
                0 <= i < 3 ==> (#[trigger] m.items[i]).major == Major::Row,
            r matches Ok(m) ==> m.rows == 3 && m.cols == 3,
            r matches Err(e) ==> e.err_type == MatrixErrorType::InvalidInitSizeError
                && e.err_msg@ == "The length of matrix3d is illegal. The legal length is: 'n' == 9"@,
    {
        if v.len() != 9 {
            return Err(
                MatrixError {
                    err_msg: String::from_str(
                        "The length of matrix3d is illegal. The legal length is: 'n' == 9",
                    ),
                    err_type: MatrixErrorType::InvalidInitSizeError,
                },
            );
        }
        Ok(
            Matrix3d::new(
                Vector3d::new(v[0], v[1], v[2]),
                Vector3d::new(v[3], v[4], v[5]),
                Vector3d::new(v[6], v[7], v[8]),
            ),
        )
    }

    /// Replicates one scalar into every entry; a uniform fill, not the
    /// multiplicative identity.
    pub fn identity(item_type: i64) -> (r: Matrix3d)
        ensures
            forall|i: int, j: int| 0 <= i < 3 && 0 <= j < 3 ==> #[trigger] m3_at(r, i, j) == item_type,
            forall|i: int| 0 <= i < 3 ==> (#[trigger] r.items[i]).major == Major::Row,
            r.rows == 3,
            r.cols == 3,
    {
        let items = [Vector3d::new(item_type, item_type, item_type); 3];
        Matrix3d { items, rows: 3, cols: 3 }
    }

    /// Mirrors the entries across the diagonal in place.
    pub fn transpose(&mut self)
        ensures
            is_transpose3(*final(self), *old(self)),
    {
        let a = self.items[0];
        let b = self.items[1];
        let c = self.items[2];
        self.items = [
            Vector3d { x: a.x, y: b.x, z: c.x, major: a.major },
            Vector3d { x: a.y, y: b.y, z: c.y, major: b.major },
            Vector3d { x: a.z, y: b.z, z: c.z, major: c.major },
        ];
    }

    /// The matrix product `self * mat`, formed by transposing a copy of `mat`
    /// and dotting rows against rows.
    pub fn product(&self, mat: Matrix3d) -> (res: Matrix3d)
        requires
            product3_fits(*self, mat),
        ensures
            is_product3(res, *self, mat),
            forall|i: int| 0 <= i < 3 ==> (#[trigger] res.items[i]).major == Major::Row,
            res.rows == 3,
            res.cols == 3,
    {
        let mut mat2 = mat.clone();
        mat2.transpose();
        proof {
            assert(m3_at(mat2, 0, 0) == m3_at(mat, 0, 0));
            assert(m3_at(mat2, 0, 1) == m3_at(mat, 1, 0));
            assert(m3_at(mat2, 0, 2) == m3_at(mat, 2, 0));
            assert(m3_at(mat2, 1, 0) == m3_at(mat, 0, 1));
            assert(m3_at(mat2, 1, 1) == m3_at(mat, 1, 1));
            assert(m3_at(mat2, 1, 2) == m3_at(mat, 2, 1));
            assert(m3_at(mat2, 2, 0) == m3_at(mat, 0, 2));
            assert(m3_at(mat2, 2, 1) == m3_at(mat, 1, 2));
            assert(m3_at(mat2, 2, 2) == m3_at(mat, 2, 2));
        }
        let r0 = Vector3d::new(
            self.items[0].dot(mat2.items[0]),
            self.items[0].dot(mat2.items[1]),
            self.items[0].dot(mat2.items[2]),
        );
        let r1 = Vector3d::new(
            self.items[1].dot(mat2.items[0]),
            self.items[1].dot(mat2.items[1]),
            self.items[1].dot(mat2.items[2]),
        );
        let r2 = Vector3d::new(
            self.items[2].dot(mat2.items[0]),
            self.items[2].dot(mat2.items[1]),
            self.items[2].dot(mat2.items[2]),
        );
        let res = Matrix3d::new(r0, r1, r2);
        proof {
            assert forall|i: int, j: int| 0 <= i < 3 && 0 <= j < 3 implies #[trigger] m3_at(
                res,
                i,
                j,
            ) == spec_dot3(self.items[i], m3_col(mat, j)) by {}
        }
        res
    }

    /// Applies the matrix to `v` as a column vector.
    pub fn product_with_vector3d(&self, v: Vector3d) -> (r: Vector3d)
        requires
            dot3_fits(self.items[0], v),
            dot3_fits(self.items[1], v),
            dot3_fits(self.items[2], v),
        ensures
            is_mat_vec3(r, *self, v),
    {
        Vector3d::new(self.items[0].dot(v), self.items[1].dot(v), self.items[2].dot(v))
    }

    /// Entrywise sum; each row keeps its own tag.
    pub fn add(&self, mat: Matrix3d) -> (r: Matrix3d)
        requires
            add3_fits(self.items[0], mat.items[0]),
            add3_fits(self.items[1], mat.items[1]),
            add3_fits(self.items[2], mat.items[2]),
        ensures
            forall|i: int, j: int|
                0 <= i < 3 && 0 <= j < 3 ==> #[trigger] m3_at(r, i, j) == m3_at(*self, i, j)
                    + m3_at(mat, i, j),
            forall|i: int| 0 <= i < 3 ==> (#[trigger] r.items[i]).major == self.items[i].major,
            r.rows == 3,
            r.cols == 3,
    {
        Matrix3d {
            items: [
                self.items[0].add(mat.items[0]),
                self.items[1].add(mat.items[1]),
                self.items[2].add(mat.items[2]),
            ],
            rows: 3,
            cols: 3,
        }
    }

    /// Entrywise product — not the matrix product.
    pub fn hadamard(&self, mat: Matrix3d) -> (r: Matrix3d)
        requires
            mul3_fits(self.items[0], mat.items[0]),
            mul3_fits(self.items[1], mat.items[1]),
            mul3_fits(self.items[2], mat.items[2]),
        ensures
            forall|i: int, j: int|
                0 <= i < 3 && 0 <= j < 3 ==> #[trigger] m3_at(r, i, j) == m3_at(*self, i, j)
                    * m3_at(mat, i, j),
            forall|i: int| 0 <= i < 3 ==> (#[trigger] r.items[i]).major == self.items[i].major,
            r.rows == 3,
            r.cols == 3,
    {
        Matrix3d {
            items: [
                self.items[0].mul(mat.items[0]),
                self.items[1].mul(mat.items[1]),
                self.items[2].mul(mat.items[2]),
            ],
            rows: 3,
            cols: 3,
        }
    }

    /// Entrywise difference; each row keeps its own tag.
    pub fn sub(&self, mat: Matrix3d) -> (r: Matrix3d)
        requires
            sub3_fits(self.items[0], mat.items[0]),
            sub3_fits(self.items[1], mat.items[1]),
            sub3_fits(self.items[2], mat.items[2]),
        ensures
            forall|i: int, j: int|
                0 <= i < 3 && 0 <= j < 3 ==> #[trigger] m3_at(r, i, j) == m3_at(*self, i, j)
                    - m3_at(mat, i, j),
            forall|i: int| 0 <= i < 3 ==> (#[trigger] r.items[i]).major == self.items[i].major,
            r.rows == 3,
            r.cols == 3,
    {
        Matrix3d {
            items: [
                self.items[0].sub(mat.items[0]),
                self.items[1].sub(mat.items[1]),
                self.items[2].sub(mat.items[2]),
            ],
            rows: 3,
            cols: 3,
        }
    }

    /// Entrywise quotient, truncating toward zero; each row keeps its own tag.
    pub fn div(&self, mat: Matrix3d) -> (r: Matrix3d)
        requires
            div3_ok(self.items[0], mat.items[0]),
            div3_ok(self.items[1], mat.items[1]),
            div3_ok(self.items[2], mat.items[2]),
        ensures
            forall|i: int, j: int|
                0 <= i < 3 && 0 <= j < 3 ==> #[trigger] m3_at(r, i, j) == trunc_div(
                    m3_at(*self, i, j),
                    m3_at(mat, i, j),
                ),
            forall|i: int| 0 <= i < 3 ==> (#[trigger] r.items[i]).major == self.items[i].major,
            r.rows == 3,
            r.cols == 3,
    {
        Matrix3d {
            items: [
                self.items[0].div(mat.items[0]),
                self.items[1].div(mat.items[1]),
                self.items[2].div(mat.items[2]),
            ],
            rows: 3,
            cols: 3,
        }
    }

    /// Adds one scalar to every entry; the result carries fresh row tags.
    pub fn add_item(&self, item: i64) -> (r: Matrix3d)
        requires
            fits_i64(m3_at(*self, 0, 0) + item),
            fits_i64(m3_at(*self, 0, 1) + item),
            fits_i64(m3_at(*self, 0, 2) + item),
            fits_i64(m3_at(*self, 1, 0) + item),
            fits_i64(m3_at(*self, 1, 1) + item),
            fits_i64(m3_at(*self, 1, 2) + item),
            fits_i64(m3_at(*self, 2, 0) + item),
            fits_i64(m3_at(*self, 2, 1) + item),
            fits_i64(m3_at(*self, 2, 2) + item),
        ensures
            forall|i: int, j: int|
                0 <= i < 3 && 0 <= j < 3 ==> #[trigger] m3_at(r, i, j) == m3_at(*self, i, j) + item,
            forall|i: int| 0 <= i < 3 ==> (#[trigger] r.items[i]).major == Major::Row,
            r.rows == 3,
            r.cols == 3,
    {
        Matrix3d {
            items: [
                Vector3d::new(self.items[0].x + item, self.items[0].y + item, self.items[0].z + item),
                Vector3d::new(self.items[1].x + item, self.items[1].y + item, self.items[1].z + item),
                Vector3d::new(self.items[2].x + item, self.items[2].y + item, self.items[2].z + item),
            ],
            rows: 3,
            cols: 3,
        }
    }

    /// Subtracts one scalar from every entry; the result carries fresh row tags.
    pub fn sub_item(&self, item: i64) -> (r: Matrix3d)
        requires
            fits_i64(m3_at(*self, 0, 0) - item),
            fits_i64(m3_at(*self, 0, 1) - item),
            fits_i64(m3_at(*self, 0, 2) - item),
            fits_i64(m3_at(*self, 1, 0) - item),
            fits_i64(m3_at(*self, 1, 1) - item),
            fits_i64(m3_at(*self, 1, 2) - item),
            fits_i64(m3_at(*self, 2, 0) - item),
            fits_i64(m3_at(*self, 2, 1) - item),
            fits_i64(m3_at(*self, 2, 2) - item),
        ensures
            forall|i: int, j: int|
                0 <= i < 3 && 0 <= j < 3 ==> #[trigger] m3_at(r, i, j) == m3_at(*self, i, j) - item,
            forall|i: int| 0 <= i < 3 ==> (#[trigger] r.items[i]).major == Major::Row,
            r.rows == 3,
            r.cols == 3,
    {
        Matrix3d {
            items: [
                Vector3d::new(self.items[0].x - item, self.items[0].y - item, self.items[0].z - item),
                Vector3d::new(self.items[1].x - item, self.items[1].y - item, self.items[1].z - item),
                Vector3d::new(self.items[2].x - item, self.items[2].y - item, self.items[2].z - item),
            ],
            rows: 3,
            cols: 3,
        }
    }

    /// Multiplies every entry by one scalar; the result carries fresh row tags.
    pub fn mul_item(&self, item: i64) -> (r: Matrix3d)
        requires
            fits_i64(m3_at(*self, 0, 0) * item),
            fits_i64(m3_at(*self, 0, 1) * item),
            fits_i64(m3_at(*self, 0, 2) * item),
            fits_i64(m3_at(*self, 1, 0) * item),
            fits_i64(m3_at(*self, 1, 1) * item),
            fits_i64(m3_at(*self, 1, 2) * item),
            fits_i64(m3_at(*self, 2, 0) * item),
            fits_i64(m3_at(*self, 2, 1) * item),
            fits_i64(m3_at(*self, 2, 2) * item),
        ensures
            forall|i: int, j: int|
                0 <= i < 3 && 0 <= j < 3 ==> #[trigger] m3_at(r, i, j) == m3_at(*self, i, j) * item,
            forall|i: int| 0 <= i < 3 ==> (#[trigger] r.items[i]).major == Major::Row,
            r.rows == 3,
            r.cols == 3,
    {
        Matrix3d {
            items: [
                Vector3d::new(self.items[0].x * item, self.items[0].y * item, self.items[0].z * item),
                Vector3d::new(self.items[1].x * item, self.items[1].y * item, self.items[1].z * item),
                Vector3d::new(self.items[2].x * item, self.items[2].y * item, self.items[2].z * item),
            ],
            rows: 3,
            cols: 3,
        }
    }

    /// Divides every entry by one scalar, truncating toward zero; the result
    /// carries fresh row tags.
    pub fn div_item(&self, item: i64) -> (r: Matrix3d)
        requires
            div_ok(m3_at(*self, 0, 0), item),
            div_ok(m3_at(*self, 0, 1), item),
            div_ok(m3_at(*self, 0, 2), item),
            div_ok(m3_at(*self, 1, 0), item),
            div_ok(m3_at(*self, 1, 1), item),
            div_ok(m3_at(*self, 1, 2), item),
            div_ok(m3_at(*self, 2, 0), item),
            div_ok(m3_at(*self, 2, 1), item),
            div_ok(m3_at(*self, 2, 2), item),
        ensures
            forall|i: int, j: int|
                0 <= i < 3 && 0 <= j < 3 ==> #[trigger] m3_at(r, i, j) == trunc_div(
                    m3_at(*self, i, j),
                    item,
                ),
            forall|i: int| 0 <= i < 3 ==> (#[trigger] r.items[i]).major == Major::Row,
            r.rows == 3,
            r.cols == 3,
    {
        Matrix3d {
            items: [
                Vector3d::new(
                    div_i64(self.items[0].x, item),
                    div_i64(self.items[0].y, item),
                    div_i64(self.items[0].z, item),
                ),
                Vector3d::new(
                    div_i64(self.items[1].x, item),
                    div_i64(self.items[1].y, item),
                    div_i64(self.items[1].z, item),
                ),
                Vector3d::new(
                    div_i64(self.items[2].x, item),
                    div_i64(self.items[2].y, item),
                    div_i64(self.items[2].z, item),
                ),
            ],
            rows: 3,
            cols: 3,
        }
    }

    /// Crosses every row with `v`, giving a new matrix; each row keeps its own
    /// tag.
    pub fn cross(&self, v: Vector3d) -> (r: Matrix3d)
        requires
            cross3_fits(self.items[0], v),
            cross3_fits(self.items[1], v),
            cross3_fits(self.items[2], v),
        ensures
            is_cross3(r.items[0], self.items[0], v),
            is_cross3(r.items[1], self.items[1], v),
            is_cross3(r.items[2], self.items[2], v),
            forall|i: int| 0 <= i < 3 ==> (#[trigger] r.items[i]).major == self.items[i].major,
            r.rows == 3,
            r.cols == 3,
    {
        Matrix3d {
            items: [self.items[0].cross(v), self.items[1].cross(v), self.items[2].cross(v)],
            rows: 3,
            cols: 3,
        }
    }
}

} // verus!
