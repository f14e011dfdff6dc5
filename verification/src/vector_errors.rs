use vstd::prelude::*;

verus! {

/// How a vector operation can fail.
#[derive(Debug, Clone)]
pub enum VectorErrorType {
    InvalidInitSizeError,
    InvalidCalcError,
}

/// A failed vector operation: a message for the caller and the failure kind.
#[derive(Debug, Clone)]
pub struct VectorError {
    pub err_msg: String,
    pub err_type: VectorErrorType,
}

} // verus!
