//! Errors of code generation.

use vstd::prelude::*;
use vstd::string::StringExecFns;
use crate::kinds::BinOpKind;
use crate::kinds::ScalarKind;

verus! {

/// Why a routine could not be generated.
#[derive(Clone, Copy, Debug, PartialEq, Eq, Structural)]
pub enum WeldError {
    /// The operator has no identity element at the kind, so no accumulator
    /// can be seeded for it.
    NoIdentity(BinOpKind, ScalarKind),
    /// The operator cannot combine two values of the kind.
    UnsupportedOperator(BinOpKind, ScalarKind),
    /// The type is neither a scalar nor a SIMD type.
    NotNumeric,
}

impl WeldError {
    /// A sentence that names the error.
    pub fn message(&self) -> (s: String)
        ensures
            s@ == match *self {
                WeldError::NoIdentity(_, _) => "operator has no identity at this kind"@,
                WeldError::UnsupportedOperator(_, _) => "operator is not supported at this kind"@,
                WeldError::NotNumeric => "type is not numeric"@,
            },
    {
        match self {
            WeldError::NoIdentity(_, _) => String::from_str(
                "operator has no identity at this kind",
            ),
            WeldError::UnsupportedOperator(_, _) => String::from_str(
                "operator is not supported at this kind",
            ),
            WeldError::NotNumeric => String::from_str("type is not numeric"),
        }
    }
}

} // verus!
