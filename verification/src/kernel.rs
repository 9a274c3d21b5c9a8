//! Shared kernel plumbing: outputs, per-row outcomes, and the eager
//! operand type validation.

use vstd::prelude::*;

use crate::errors::{ErrView, KernelError};
use crate::operand::{ColumnarOperand, OperandView};

verus! {

/// Output of a kernel call: a full result column (values and null
/// markers, one entry per input row) or a single optional scalar value,
/// matching the shape of the dominant operand.
#[derive(Debug, PartialEq)]
pub enum ColumnarOutput {
    Array(Vec<Option<i64>>),
    Scalar(Option<i64>),
}

/// Outcome of one row of a kernel: a null output row, an accepted
/// value, or a failure that aborts the whole call.
pub enum RowOutcome {
    Null,
    Val(i64),
    Fail(ErrView),
}

/// Executable mirror of [`RowOutcome`], used while a column is built.
pub enum RowResult {
    Null,
    Val(i64),
    Fail(KernelError),
}

impl View for RowResult {
    type V = RowOutcome;

    open spec fn view(&self) -> RowOutcome {
        match self {
            RowResult::Null => RowOutcome::Null,
            RowResult::Val(v) => RowOutcome::Val(*v),
            RowResult::Fail(e) => RowOutcome::Fail(e@),
        }
    }
}

/// A non-failing row outcome pins the output cell: a null outcome is a
/// null cell, an accepted value fills the cell, and a failure never
/// reaches a cell.
pub open spec fn cell_matches(outcome: RowOutcome, cell: Option<i64>) -> bool {
    match outcome {
        RowOutcome::Null => cell is None,
        RowOutcome::Val(v) => cell == Some(v),
        RowOutcome::Fail(_) => false,
    }
}

/// The models of a sequence of operands.
pub open spec fn operand_views(args: Seq<ColumnarOperand>) -> Seq<OperandView> {
    Seq::new(args.len(), |i: int| args[i]@)
}

/// Every operand is one of the three text encodings.
pub open spec fn all_text(avs: Seq<OperandView>) -> bool {
    forall|j: int| 0 <= j < avs.len() ==> (#[trigger] avs[j]).is_text()
}

/// `j` is the first position holding a non-text operand.
pub open spec fn first_non_text_at(avs: Seq<OperandView>, j: int) -> bool {
    &&& 0 <= j < avs.len()
    &&& !avs[j].is_text()
    &&& forall|k: int| 0 <= k < j ==> (#[trigger] avs[k]).is_text()
}

/// `j` is the first position from 1 on holding a non-text operand.
pub open spec fn first_non_text_aux_at(avs: Seq<OperandView>, j: int) -> bool {
    &&& 1 <= j < avs.len()
    &&& !avs[j].is_text()
    &&& forall|k: int| 1 <= k < j ==> (#[trigger] avs[k]).is_text()
}

/// Check that all the arguments from the second on are of one of the
/// three text encodings; the first violation is reported with its
/// 0-based argument position, the operand's actual type, and the
/// function name.
pub fn validate_data_types(args: &Vec<ColumnarOperand>, name: &str) -> (r: Result<
    (),
    KernelError,
>)
    ensures
        ({
            let avs = operand_views(args@);
            match r {
                Ok(_) => forall|j: int| 1 <= j < avs.len() ==> (#[trigger] avs[j]).is_text(),
                Err(e) => exists|j: int|
                    #[trigger] first_non_text_aux_at(avs, j) && e@ == (ErrView::UnsupportedType {
                        function: name@,
                        index: j,
                        actual: avs[j].type_desc(),
                    }),
            }
        }),
{
    let ghost avs = operand_views(args@);
    let mut j: usize = 1;
    while j < args.len()
        invariant
            1 <= j,
            avs == operand_views(args@),
            forall|k: int| 1 <= k < j ==> (#[trigger] avs[k]).is_text(),
        decreases args@.len() - j,
    {
        if !args[j].is_text() {
            proof {
                assert(avs[j as int] == args@[j as int]@);
                assert(first_non_text_aux_at(avs, j as int));
            }
            return Err(
                KernelError::UnsupportedType {
                    function: String::from_str(name),
                    index: j,
                    actual: args[j].type_description(),
                },
            );
        }
        j += 1;
    }
    Ok(())
}

} // verus!
