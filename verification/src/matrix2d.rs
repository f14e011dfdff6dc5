use vstd::prelude::*;
use vstd::string::StringExecFns;

use crate::matrix_errors::{MatrixError, MatrixErrorType};
use crate::utils::{Major, fits_i64, div_ok, trunc_div, div_i64};
use crate::vector2d::{Vector2d, spec_dot2, dot2_fits, add2_fits, sub2_fits, mul2_fits, div2_ok};

verus! {

/// A 2x2 matrix: two row vectors.
#[derive(Debug, Clone, Copy, PartialEq)]
pub struct Matrix2d {
    pub items: [Vector2d; 2],
    pub rows: usize,
    pub cols: usize,
}

/// The scalar in row `i`, column `j`.
pub open spec fn m2_at(m: Matrix2d, i: int, j: int) -> i64 {
    let row = m.items[i];
    if j == 0 {
        row.x
    } else {
        row.y
    }
}

/// Column `j`, read as a row-tagged vector.
pub open spec fn m2_col(m: Matrix2d, j: int) -> Vector2d {
    Vector2d { x: m2_at(m, 0, j), y: m2_at(m, 1, j), major: Major::Row }
}

/// `t` holds the entries of `m` mirrored across the diagonal, with every
/// row tag and the row/column counts untouched.
pub open spec fn is_transpose2(t: Matrix2d, m: Matrix2d) -> bool {
    &&& forall|i: int, j: int|
        0 <= i < 2 && 0 <= j < 2 ==> #[trigger] m2_at(t, i, j) == m2_at(m, j, i)
    &&& forall|i: int| 0 <= i < 2 ==> (#[trigger] t.items[i]).major == m.items[i].major
    &&& t.rows == m.rows
    &&& t.cols == m.cols
}

/// Entry `(i, j)` of `p` is the inner product of row `i` of `a` with
/// column `j` of `b`: `p` is the matrix product `a * b`.
pub open spec fn is_product2(p: Matrix2d, a: Matrix2d, b: Matrix2d) -> bool {
    forall|i: int, j: int|
        0 <= i < 2 && 0 <= j < 2 ==> #[trigger] m2_at(p, i, j) == spec_dot2(
            a.items[i],
            m2_col(b, j),
        )
}

/// Every inner product taken by the matrix product stays representable.
pub open spec fn product2_fits(a: Matrix2d, b: Matrix2d) -> bool {
    &&& dot2_fits(a.items[0], m2_col(b, 0))
    &&& dot2_fits(a.items[0], m2_col(b, 1))
    &&& dot2_fits(a.items[1], m2_col(b, 0))
    &&& dot2_fits(a.items[1], m2_col(b, 1))
}

/// Component `i` of `r` is the inner product of row `i` of `m` with `v`:
/// `r` is `m` applied to `v` as a column vector.
pub open spec fn is_mat_vec2(r: Vector2d, m: Matrix2d, v: Vector2d) -> bool {
    &&& r.x == spec_dot2(m.items[0], v)
    &&& r.y == spec_dot2(m.items[1], v)
    &&& r.major == Major::Row
}

/// Transposing twice restores the matrix: when `b` is the transpose of `a`
/// and `c` is the transpose of `b`, then `c == a`.
pub proof fn lemma_transpose2_involutive(a: Matrix2d, b: Matrix2d, c: Matrix2d)
    requires
        is_transpose2(b, a),
        is_transpose2(c, b),
    ensures
        c == a,
{
    broadcast use vstd::array::group_array_axioms;

    assert(m2_at(c, 0, 0) == m2_at(b, 0, 0) && m2_at(c, 0, 1) == m2_at(b, 1, 0) && m2_at(c, 1, 0)
        == m2_at(b, 0, 1) && m2_at(c, 1, 1) == m2_at(b, 1, 1));
    assert(c.items[0].major == b.items[0].major && c.items[1].major == b.items[1].major);
    assert(b.items[0].major == a.items[0].major && b.items[1].major == a.items[1].major);
    assert(c.items[0] == a.items[0]);
    assert(c.items[1] == a.items[1]);
    assert(c.items =~= a.items);
}

/// One row of the product-then-apply argument, as a fact about scalars:
/// dotting `v` against the products of row `(a0, a1)` with the columns of `b`
/// agrees with dotting `(a0, a1)` against `b` applied to `v`.
proof fn lemma_row_mix2(a0: int, a1: int, b00: int, b01: int, b10: int, b11: int, v0: int, v1: int)
    ensures
        (a0 * b00 + a1 * b10) * v0 + (a0 * b01 + a1 * b11) * v1 == a0 * (b00 * v0 + b01 * v1) + a1
            * (b10 * v0 + b11 * v1),
{
    broadcast use vstd::arithmetic::mul::group_mul_is_commutative_and_distributive;
    broadcast use vstd::arithmetic::mul::lemma_mul_is_associative;

}

/// Taking the matrix product and then applying it to a vector agrees with
/// applying the factors one after the other: when `p == a * b`, `u == b v`,
/// `w == a u` and `r == p v`, then `r == w`.
pub proof fn lemma_product2_with_vector(
    a: Matrix2d,
    b: Matrix2d,
    p: Matrix2d,
    v: Vector2d,
    u: Vector2d,
    w: Vector2d,
    r: Vector2d,
)
    requires
        is_product2(p, a, b),
        is_mat_vec2(u, b, v),
        is_mat_vec2(w, a, u),
        is_mat_vec2(r, p, v),
    ensures
        r == w,
{
    assert(m2_at(p, 0, 0) == spec_dot2(a.items[0], m2_col(b, 0)) && m2_at(p, 0, 1) == spec_dot2(
        a.items[0],
        m2_col(b, 1),
    ) && m2_at(p, 1, 0) == spec_dot2(a.items[1], m2_col(b, 0)) && m2_at(p, 1, 1) == spec_dot2(
        a.items[1],
        m2_col(b, 1),
    ));
    let b00 = b.items[0].x as int;
    let b01 = b.items[0].y as int;
    let b10 = b.items[1].x as int;
    let b11 = b.items[1].y as int;
    let v0 = v.x as int;
    let v1 = v.y as int;
    lemma_row_mix2(a.items[0].x as int, a.items[0].y as int, b00, b01, b10, b11, v0, v1);
    lemma_row_mix2(a.items[1].x as int, a.items[1].y as int, b00, b01, b10, b11, v0, v1);
}

impl Matrix2d {
    /// Stores the two rows verbatim, tags included.
    pub fn new(v1: Vector2d, v2: Vector2d) -> (r: Matrix2d)
        ensures
            r.items[0] == v1,
            r.items[1] == v2,
            r.rows == 2,
            r.cols == 2,
    {
        Matrix2d { items: [v1, v2], rows: 2, cols: 2 }
    }

    /// Builds a matrix from a flat row-major sequence; exactly 4 items are
    /// accepted.
    pub fn from_vector(v: Vec<i64>) -> (r: Result<Matrix2d, MatrixError>)
        ensures
            r is Ok <==> v@.len() == 4,
            r matches Ok(m) ==> forall|i: int, j: int|
                0 <= i < 2 && 0 <= j < 2 ==> #[trigger] m2_at(m, i, j) == v@[2 * i + j],
            r matches Ok(m) ==> forall|i: int|
                0 <= i < 2 ==> (#[trigger] m.items[i]).major == Major::Row,
            r matches Ok(m) ==> m.rows == 2 && m.cols == 2,
            r matches Err(e) ==> e.err_type == MatrixErrorType::InvalidInitSizeError
                && e.err_msg@ == "The length of matrix2d is illegal. The legal length is: 'n' == 4"@,
    {
        if v.len() != 4 {
            return Err(
                MatrixError {
                    err_msg: String::from_str(
                        "The length of matrix2d is illegal. The legal length is: 'n' == 4",
                    ),
                    err_type: MatrixErrorType::InvalidInitSizeError,
                },
            );
        }
        Ok(Matrix2d::new(Vector2d::new(v[0], v[1]), Vector2d::new(v[2], v[3])))
    }

    /// Replicates one scalar into every entry; a uniform fill, not the
    /// multiplicative identity.
    pub fn identity(item_type: i64) -> (r: Matrix2d)
        ensures
            forall|i: int, j: int| 0 <= i < 2 && 0 <= j < 2 ==> #[trigger] m2_at(r, i, j) == item_type,
            forall|i: int| 0 <= i < 2 ==> (#[trigger] r.items[i]).major == Major::Row,
            r.rows == 2,
            r.cols == 2,
    {
        let items = [Vector2d::new(item_type, item_type); 2];
        Matrix2d { items, rows: 2, cols: 2 }
    }

    /// Mirrors the entries across the diagonal in place.
    pub fn transpose(&mut self)
        ensures
            is_transpose2(*final(self), *old(self)),
    {
        let a = self.items[0];
        let b = self.items[1];
        self.items = [
            Vector2d { x: a.x, y: b.x, major: a.major },
            Vector2d { x: a.y, y: b.y, major: b.major },
        ];
    }

    /// The matrix product `self * mat`, formed by transposing a copy of `mat`
    /// and dotting rows against rows.
    pub fn product(&self, mat: Matrix2d) -> (res: Matrix2d)
        requires
            product2_fits(*self, mat),
        ensures
            is_product2(res, *self, mat),
            forall|i: int| 0 <= i < 2 ==> (#[trigger] res.items[i]).major == Major::Row,
            res.rows == 2,
            res.cols == 2,
    {
        let mut mat2 = mat.clone();
        mat2.transpose();
        proof {
            assert(m2_at(mat2, 0, 0) == m2_at(mat, 0, 0));
            assert(m2_at(mat2, 0, 1) == m2_at(mat, 1, 0));
            assert(m2_at(mat2, 1, 0) == m2_at(mat, 0, 1));
            assert(m2_at(mat2, 1, 1) == m2_at(mat, 1, 1));
        }
        let r0 = Vector2d::new(self.items[0].dot(mat2.items[0]), self.items[0].dot(mat2.items[1]));
        let r1 = Vector2d::new(self.items[1].dot(mat2.items[0]), self.items[1].dot(mat2.items[1]));
        let res = Matrix2d::new(r0, r1);
        proof {
            assert forall|i: int, j: int| 0 <= i < 2 && 0 <= j < 2 implies #[trigger] m2_at(
                res,
                i,
                j,
            ) == spec_dot2(self.items[i], m2_col(mat, j)) by {}
        }
        res
    }

    /// Applies the matrix to `v` as a column vector.
    pub fn product_with_vector2d(&self, v: Vector2d) -> (r: Vector2d)
        requires
            dot2_fits(self.items[0], v),
            dot2_fits(self.items[1], v),
        ensures
            is_mat_vec2(r, *self, v),
    {
        Vector2d::new(self.items[0].dot(v), self.items[1].dot(v))
    }

    /// Entrywise sum; each row keeps its own tag.
    pub fn add(&self, mat: Matrix2d) -> (r: Matrix2d)
        requires
            add2_fits(self.items[0], mat.items[0]),
            add2_fits(self.items[1], mat.items[1]),
        ensures
            forall|i: int, j: int|
                0 <= i < 2 && 0 <= j < 2 ==> #[trigger] m2_at(r, i, j) == m2_at(*self, i, j)
                    + m2_at(mat, i, j),
            forall|i: int| 0 <= i < 2 ==> (#[trigger] r.items[i]).major == self.items[i].major,
            r.rows == 2,
            r.cols == 2,
    {
        Matrix2d {
            items: [self.items[0].add(mat.items[0]), self.items[1].add(mat.items[1])],
            rows: 2,
            cols: 2,
        }
    }

    /// Entrywise product — not the matrix product.
    pub fn hadamard(&self, mat: Matrix2d) -> (r: Matrix2d)
        requires
            mul2_fits(self.items[0], mat.items[0]),
            mul2_fits(self.items[1], mat.items[1]),
        ensures
            forall|i: int, j: int|
                0 <= i < 2 && 0 <= j < 2 ==> #[trigger] m2_at(r, i, j) == m2_at(*self, i, j)
                    * m2_at(mat, i, j),
            forall|i: int| 0 <= i < 2 ==> (#[trigger] r.items[i]).major == self.items[i].major,
            r.rows == 2,
            r.cols == 2,
    {
        Matrix2d {
            items: [self.items[0].mul(mat.items[0]), self.items[1].mul(mat.items[1])],
            rows: 2,
            cols: 2,
        }
    }

    /// Entrywise difference; each row keeps its own tag.
    pub fn sub(&self, mat: Matrix2d) -> (r: Matrix2d)
        requires
            sub2_fits(self.items[0], mat.items[0]),
            sub2_fits(self.items[1], mat.items[1]),
        ensures
            forall|i: int, j: int|
                0 <= i < 2 && 0 <= j < 2 ==> #[trigger] m2_at(r, i, j) == m2_at(*self, i, j)
                    - m2_at(mat, i, j),
            forall|i: int| 0 <= i < 2 ==> (#[trigger] r.items[i]).major == self.items[i].major,
            r.rows == 2,
            r.cols == 2,
    {
        Matrix2d {
            items: [self.items[0].sub(mat.items[0]), self.items[1].sub(mat.items[1])],
            rows: 2,
            cols: 2,
        }
    }

    /// Entrywise quotient, truncating toward zero; each row keeps its own tag.
    pub fn div(&self, mat: Matrix2d) -> (r: Matrix2d)
        requires
            div2_ok(self.items[0], mat.items[0]),
            div2_ok(self.items[1], mat.items[1]),
        ensures
            forall|i: int, j: int|
                0 <= i < 2 && 0 <= j < 2 ==> #[trigger] m2_at(r, i, j) == trunc_div(
                    m2_at(*self, i, j),
                    m2_at(mat, i, j),
                ),
            forall|i: int| 0 <= i < 2 ==> (#[trigger] r.items[i]).major == self.items[i].major,
            r.rows == 2,
            r.cols == 2,
    {
        Matrix2d {
            items: [self.items[0].div(mat.items[0]), self.items[1].div(mat.items[1])],
            rows: 2,
            cols: 2,
        }
    }

    /// Adds one scalar to every entry; the result carries fresh row tags.
    pub fn add_item(&self, item: i64) -> (r: Matrix2d)
        requires
            fits_i64(m2_at(*self, 0, 0) + item),
            fits_i64(m2_at(*self, 0, 1) + item),
            fits_i64(m2_at(*self, 1, 0) + item),
            fits_i64(m2_at(*self, 1, 1) + item),
        ensures
            forall|i: int, j: int|
                0 <= i < 2 && 0 <= j < 2 ==> #[trigger] m2_at(r, i, j) == m2_at(*self, i, j) + item,
            forall|i: int| 0 <= i < 2 ==> (#[trigger] r.items[i]).major == Major::Row,
            r.rows == 2,
            r.cols == 2,
    {
        Matrix2d {
            items: [
                Vector2d::new(self.items[0].x + item, self.items[0].y + item),
                Vector2d::new(self.items[1].x + item, self.items[1].y + item),
            ],
            rows: 2,
            cols: 2,
        }
    }

    /// Subtracts one scalar from every entry; the result carries fresh row tags.
    pub fn sub_item(&self, item: i64) -> (r: Matrix2d)
        requires
            fits_i64(m2_at(*self, 0, 0) - item),
            fits_i64(m2_at(*self, 0, 1) - item),
            fits_i64(m2_at(*self, 1, 0) - item),
            fits_i64(m2_at(*self, 1, 1) - item),
        ensures
            forall|i: int, j: int|
                0 <= i < 2 && 0 <= j < 2 ==> #[trigger] m2_at(r, i, j) == m2_at(*self, i, j) - item,
            forall|i: int| 0 <= i < 2 ==> (#[trigger] r.items[i]).major == Major::Row,
            r.rows == 2,
            r.cols == 2,
    {
        Matrix2d {
            items: [
                Vector2d::new(self.items[0].x - item, self.items[0].y - item),
                Vector2d::new(self.items[1].x - item, self.items[1].y - item),
            ],
            rows: 2,
            cols: 2,
        }
    }

    /// Multiplies every entry by one scalar; the result carries fresh row tags.
    pub fn mul_item(&self, item: i64) -> (r: Matrix2d)
        requires
            fits_i64(m2_at(*self, 0, 0) * item),
            fits_i64(m2_at(*self, 0, 1) * item),
            fits_i64(m2_at(*self, 1, 0) * item),
            fits_i64(m2_at(*self, 1, 1) * item),
        ensures
            forall|i: int, j: int|
                0 <= i < 2 && 0 <= j < 2 ==> #[trigger] m2_at(r, i, j) == m2_at(*self, i, j) * item,
            forall|i: int| 0 <= i < 2 ==> (#[trigger] r.items[i]).major == Major::Row,
            r.rows == 2,
            r.cols == 2,
    {
        Matrix2d {
            items: [
                Vector2d::new(self.items[0].x * item, self.items[0].y * item),
                Vector2d::new(self.items[1].x * item, self.items[1].y * item),
            ],
            rows: 2,
            cols: 2,
        }
    }

    /// Divides every entry by one scalar, truncating toward zero; the result
    /// carries fresh row tags.
    pub fn div_item(&self, item: i64) -> (r: Matrix2d)
        requires
            div_ok(m2_at(*self, 0, 0), item),
            div_ok(m2_at(*self, 0, 1), item),
            div_ok(m2_at(*self, 1, 0), item),
            div_ok(m2_at(*self, 1, 1), item),
        ensures
            forall|i: int, j: int|
                0 <= i < 2 && 0 <= j < 2 ==> #[trigger] m2_at(r, i, j) == trunc_div(
                    m2_at(*self, i, j),
                    item,
                ),
            forall|i: int| 0 <= i < 2 ==> (#[trigger] r.items[i]).major == Major::Row,
            r.rows == 2,
            r.cols == 2,
    {
        Matrix2d {
            items: [
                Vector2d::new(div_i64(self.items[0].x, item), div_i64(self.items[0].y, item)),
                Vector2d::new(div_i64(self.items[1].x, item), div_i64(self.items[1].y, item)),
            ],
            rows: 2,
            cols: 2,
        }
    }
}

} // verus!
