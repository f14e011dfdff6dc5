use vstd::prelude::*;

verus! {

/// How a matrix operation can fail.
#[derive(Debug, Clone)]
pub enum MatrixErrorType {
    InvalidInitSizeError,
    InvalidCalcError,
}

/// A failed matrix operation: a message for the caller and the failure kind.
#[derive(Debug, Clone)]
pub struct MatrixError {
    pub err_msg: String,
    pub err_type: MatrixErrorType,
}

} // verus!
