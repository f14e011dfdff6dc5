use vstd::prelude::*;

verus! {

/// A failed triangle or pipeline operation: a numeric error code and a
/// message for the caller.
#[derive(Debug)]
pub struct TriangleError {
    pub err_code: usize,
    pub message: String,
}

} // verus!
