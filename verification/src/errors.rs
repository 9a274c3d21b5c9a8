//! Structured errors for the dispatch kernels, and their mathematical model.

use vstd::prelude::*;

verus! {

/// Mathematical model of a [`KernelError`], phrased over sequences of
/// characters so that contracts can speak about error contents exactly.
pub enum ErrView {
    UnsupportedType { function: Seq<char>, index: int, actual: Seq<char> },
    ArgumentCount { function: Seq<char>, received: int, required: int },
    ParseFailure { text: Seq<char>, format: Option<Seq<char>>, cause: Seq<char> },
    RangeFailure { message: Seq<char> },
    InternalInvariantViolation { message: Seq<char> },
}

/// Structured error carried out of every kernel call.
///
/// - `UnsupportedType`: an operand at `index` is not one of the three text
///   encodings; carries the offending operand's description and the function
///   name.
/// - `ArgumentCount`: fewer operands than the minimum required.
/// - `ParseFailure`: a row-level parser could not interpret its input;
///   carries the original text, the format pattern (if any) and the
///   underlying cause.
/// - `RangeFailure`: a successfully parsed instant falls outside the
///   representable numeric range for the requested precision.
/// - `InternalInvariantViolation`: a precondition the kernel trusts its
///   caller to have established was violated.
#[derive(Debug, PartialEq)]
pub enum KernelError {
    UnsupportedType { function: String, index: usize, actual: String },
    ArgumentCount { function: String, received: usize, required: usize },
    ParseFailure { text: String, format: Option<String>, cause: String },
    RangeFailure { message: String },
    InternalInvariantViolation { message: String },
}

impl View for KernelError {
    type V = ErrView;

    open spec fn view(&self) -> ErrView {
        match self {
            KernelError::UnsupportedType { function, index, actual } => {
                ErrView::UnsupportedType {
                    function: function@,
                    index: *index as int,
                    actual: actual@,
                }
            },
            KernelError::ArgumentCount { function, received, required } => {
                ErrView::ArgumentCount {
                    function: function@,
                    received: *received as int,
                    required: *required as int,
                }
            },
            KernelError::ParseFailure { text, format, cause } => {
                ErrView::ParseFailure {
                    text: text@,
                    format: match format {
                        Some(f) => Some(f@),
                        None => None,
                    },
                    cause: cause@,
                }
            },
            KernelError::RangeFailure { message } => {
                ErrView::RangeFailure { message: message@ }
            },
            KernelError::InternalInvariantViolation { message } => {
                ErrView::InternalInvariantViolation { message: message@ }
            },
        }
    }
}

} // verus!
