use vstd::prelude::*;
use vstd::string::StringExecFns;

use crate::geometry_errors::TriangleError;

verus! {

/// What a drawn primitive stands for; carried by a triangle as metadata.
#[derive(Debug, Clone, Copy, PartialEq, Eq, Structural)]
pub enum Primitive {
    Line,
    Triangle,
}

/// The decimal digit character for `d`.
pub open spec fn digit_char(d: int) -> char {
    if d == 0 {
        '0'
    } else if d == 1 {
        '1'
    } else if d == 2 {
        '2'
    } else if d == 3 {
        '3'
    } else if d == 4 {
        '4'
    } else if d == 5 {
        '5'
    } else if d == 6 {
        '6'
    } else if d == 7 {
        '7'
    } else if d == 8 {
        '8'
    } else {
        '9'
    }
}

/// The decimal rendering of a natural number, most significant digit first.
pub open spec fn dec_rep(n: nat) -> Seq<char>
    decreases n,
{
    if n < 10 {
        seq![digit_char(n as int)]
    } else {
        dec_rep(n / 10) + seq![digit_char((n % 10) as int)]
    }
}

/// The decimal rendering of an integer: a leading minus sign for a negative
/// value, then the digits of its magnitude.
pub open spec fn int_rep(v: int) -> Seq<char> {
    if v < 0 {
        seq!['-'] + dec_rep((-v) as nat)
    } else {
        dec_rep(v as nat)
    }
}

/// The text the pipeline reports for an index that misses the position
/// buffer.
pub open spec fn out_of_range_text(index: int, length: int) -> Seq<char> {
    "index: "@ + int_rep(index) + ", length: "@ + int_rep(length)
}

/// Appends the character for one decimal digit.
fn append_digit(s: &mut String, d: u64)
    requires
        d < 10,
    ensures
        final(s)@ == old(s)@ + seq![digit_char(d as int)],
{
    let t: &str = if d == 0 {
        "0"
    } else if d == 1 {
        "1"
    } else if d == 2 {
        "2"
    } else if d == 3 {
        "3"
    } else if d == 4 {
        "4"
    } else if d == 5 {
        "5"
    } else if d == 6 {
        "6"
    } else if d == 7 {
        "7"
    } else if d == 8 {
        "8"
    } else {
        "9"
    };
    proof {
        reveal_strlit("0");
        reveal_strlit("1");
        reveal_strlit("2");
        reveal_strlit("3");
        reveal_strlit("4");
        reveal_strlit("5");
        reveal_strlit("6");
        reveal_strlit("7");
        reveal_strlit("8");
        reveal_strlit("9");
        assert(t@ =~= seq![digit_char(d as int)]);
    }
    s.append(t);
}

/// Appends the decimal digits of `n`, most significant first.
fn append_u64_decimal(s: &mut String, n: u64)
    ensures
        final(s)@ == old(s)@ + dec_rep(n as nat),
    decreases n,
{
    if n < 10 {
        append_digit(s, n);
    } else {
        append_u64_decimal(s, n / 10);
        append_digit(s, n % 10);
        proof {
            assert(final(s)@ =~= old(s)@ + dec_rep(n as nat));
        }
    }
}

/// Appends the decimal rendering of `v`, with a minus sign when negative.
fn append_i32_decimal(s: &mut String, v: i32)
    ensures
        final(s)@ == old(s)@ + int_rep(v as int),
{
    if v < 0 {
        let ghost before = s@;
        s.append("-");
        let mag = (-(v as i64)) as u64;
        append_u64_decimal(s, mag);
        proof {
            reveal_strlit("-");
            assert("-"@ =~= seq!['-']);
            assert(final(s)@ =~= before + int_rep(v as int));
        }
    } else {
        append_u64_decimal(s, v as u64);
    }
}

/// Builds the text the pipeline reports for an index that misses the
/// position buffer.
fn index_message(index: i32, length: usize) -> (r: String)
    ensures
        r@ == out_of_range_text(index as int, length as int),
{
    let mut s = String::from_str("index: ");
    append_i32_decimal(&mut s, index);
    s.append(", length: ");
    append_u64_decimal(&mut s, length as u64);
    proof {
        assert(s@ =~= out_of_range_text(index as int, length as int));
    }
    s
}

/// The flat frame-buffer slot of the pixel at `(x, y)`: the stored rows run
/// top to bottom while the caller's origin sits at the bottom left, so the
/// row index is flipped vertically.
pub fn get_index(width: usize, height: usize, x: usize, y: usize) -> (r: usize)
    requires
        y <= height,
        (height - y) * width + x <= usize::MAX,
    ensures
        r == (height - y) * width + x,
{
    (height - y) * width + x
}

/// Resolves one vertex index against a position buffer of `length` entries,
/// as the triangle pipeline does: the slot number when it is in range, and
/// otherwise the out-of-range error the pipeline reports, which names the
/// index and the buffer length.
pub fn resolve_index(index: i32, length: usize) -> (r: Result<usize, TriangleError>)
    ensures
        r is Ok <==> 0 <= index < length,
        r matches Ok(u) ==> u == index,
        r matches Err(e) ==> e.err_code == 3001 && e.message@ == out_of_range_text(
            index as int,
            length as int,
        ),
{
    if index >= 0 && (index as usize) < length {
        Ok(index as usize)
    } else {
        Err(TriangleError { err_code: 3001, message: index_message(index, length) })
    }
}

} // verus!
