use vstd::prelude::*;

verus! {

/// Marks whether a vector currently stands for a row or for a column.
/// The tag is purely semantic: it never reorders the stored components.
#[derive(Debug, Clone, Copy, PartialEq, Eq, Structural)]
pub enum Major {
    Row,
    Col,
}

/// The tag a transposed vector carries.
pub open spec fn flipped(m: Major) -> Major {
    match m {
        Major::Row => Major::Col,
        Major::Col => Major::Row,
    }
}

/// A mathematical value representable as a scalar component.
pub open spec fn fits_i64(v: int) -> bool {
    i64::MIN <= v <= i64::MAX
}

/// The divisions the scalar type can perform: the divisor is not zero and the
/// quotient stays representable.
pub open spec fn div_ok(a: i64, b: i64) -> bool {
    b != 0 && !(a == i64::MIN && b == -1)
}

/// Division truncating toward zero, the behaviour of `/` on the scalar type.
pub open spec fn trunc_div(a: i64, b: i64) -> int {
    let x = a as int;
    let d = b as int;
    if x == 0 {
        0
    } else if x > 0 && d > 0 {
        x / d
    } else if x < 0 && d < 0 {
        (x * -1) / (d * -1)
    } else if x < 0 {
        ((x * -1) / d) * -1
    } else {
        (x / (d * -1)) * -1
    }
}

/// Scalar division; every componentwise division in the crate goes through it.
pub fn div_i64(a: i64, b: i64) -> (r: i64)
    requires
        div_ok(a, b),
    ensures
        r == trunc_div(a, b),
{
    let q = a.checked_div(b);
    proof {
        lemma_trunc_div_fits(a, b);
    }
    q.unwrap()
}

/// The truncating quotient of representable operands is itself representable.
proof fn lemma_trunc_div_fits(a: i64, b: i64)
    requires
        div_ok(a, b),
    ensures
        fits_i64(trunc_div(a, b)),
{
    let x = a as int;
    let d = b as int;
    if x > 0 && d > 0 {
        vstd::arithmetic::div_mod::lemma_div_pos_is_pos(x, d);
        vstd::arithmetic::div_mod::lemma_div_nonincreasing(x, d);
    } else if x < 0 && d < 0 {
        vstd::arithmetic::div_mod::lemma_div_pos_is_pos(x * -1, d * -1);
        if a == i64::MIN {
            vstd::arithmetic::div_mod::lemma_div_decreases(x * -1, d * -1);
        } else {
            vstd::arithmetic::div_mod::lemma_div_nonincreasing(x * -1, d * -1);
        }
    } else if x < 0 {
        vstd::arithmetic::div_mod::lemma_div_pos_is_pos(x * -1, d);
        vstd::arithmetic::div_mod::lemma_div_nonincreasing(x * -1, d);
    } else if x > 0 {
        vstd::arithmetic::div_mod::lemma_div_pos_is_pos(x, d * -1);
        vstd::arithmetic::div_mod::lemma_div_nonincreasing(x, d * -1);
    }
}

} // verus!
