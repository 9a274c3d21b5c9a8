//! The unary mapping kernel: a single-argument row parser applied to one
//! columnar operand, with no fallback.

use vstd::prelude::*;

use crate::errors::{ErrView, KernelError};
use crate::kernel::{cell_matches, operand_views, ColumnarOutput, RowOutcome};
use crate::operand::{ColumnarOperand, OperandView};
use crate::parsers::RowParser;

verus! {

/// Outcome of one row of the unary kernel: a null input row is a null
/// output row with no parser call; otherwise the parser decides.
pub open spec fn unary_outcome<P: RowParser>(p: P, cell: Option<Seq<char>>) -> RowOutcome {
    match cell {
        None => RowOutcome::Null,
        Some(x) => match p.spec_parse(x) {
            Ok(v) => RowOutcome::Val(v),
            Err(e) => RowOutcome::Fail(e),
        },
    }
}

/// A null input row yields a null output row, with no parser call: its
/// outcome is fixed before the parser could be involved.
pub proof fn lemma_null_row_is_null_output<P: RowParser>(p: P)
    ensures
        unary_outcome(p, Option::<Seq<char>>::None) == RowOutcome::Null,
{
}

/// The rows of an array operand's model.
pub open spec fn array_rows(a: OperandView) -> Seq<Option<Seq<char>>> {
    match a {
        OperandView::Array { rows, .. } => rows,
        _ => Seq::empty(),
    }
}

/// `i` is the first row on which the unary kernel fails, with `e` the
/// failure.
pub open spec fn unary_first_fail_at<P: RowParser>(
    p: P,
    rows: Seq<Option<Seq<char>>>,
    i: int,
    e: ErrView,
) -> bool {
    &&& 0 <= i < rows.len()
    &&& unary_outcome(p, rows[i]) == RowOutcome::Fail(e)
    &&& forall|k: int| 0 <= k < i ==> !(unary_outcome(p, #[trigger] rows[k]) matches RowOutcome::Fail(_))
}

/// Apply the row parser to every row of a text array operand: a null
/// input row becomes a null output row without calling the parser, and
/// the first row-level failure aborts the whole call and becomes the
/// call's error — no partial column is ever returned.
pub fn unary_string_to_primitive_function<P: RowParser>(operand: &ColumnarOperand, op: &P) -> (r:
    Result<Vec<Option<i64>>, KernelError>)
    requires
        operand@ matches OperandView::Array { .. },
    ensures
        ({
            let rows = array_rows(operand@);
            match r {
                Ok(out) => out@.len() == rows.len() && forall|i: int|
                    0 <= i < rows.len() ==> cell_matches(
                        unary_outcome(*op, #[trigger] rows[i]),
                        out@[i],
                    ),
                Err(e) => exists|i: int| unary_first_fail_at(*op, rows, i, e@),
            }
        }),
{
    let ghost rows = array_rows(operand@);
    let n = operand.length(0);
    let mut out: Vec<Option<i64>> = Vec::new();
    let mut i: usize = 0;
    while i < n
        invariant
            i <= n,
            out@.len() == i,
            n == rows.len(),
            rows == array_rows(operand@),
            operand@ matches OperandView::Array { .. },
            forall|k: int| 0 <= k < i ==> cell_matches(unary_outcome(*op, #[trigger] rows[k]), out@[k]),
        decreases n - i,
    {
        match operand.value_at(i) {
            None => {
                out.push(None);
            },
            Some(x) => {
                match op.parse(x.as_str()) {
                    Ok(v) => {
                        out.push(Some(v));
                    },
                    Err(e) => {
                        proof {
                            assert(unary_first_fail_at(*op, rows, i as int, e@));
                        }
                        return Err(e);
                    },
                }
            },
        }
        i += 1;
    }
    Ok(out)
}

/// The unary mapping kernel over `args[0]`: an array operand maps row
/// by row (first failure aborts the call); a scalar operand maps its
/// single optional value (a null scalar is a null scalar result); any
/// other operand type is rejected, naming the function.
pub fn handle<P: RowParser>(args: &Vec<ColumnarOperand>, op: &P, name: &str) -> (r: Result<
    ColumnarOutput,
    KernelError,
>)
    requires
        args@.len() >= 1,
    ensures
        ({
            let a0 = operand_views(args@)[0];
            match a0 {
                OperandView::Array { rows, .. } => match r {
                    Ok(out) => out matches ColumnarOutput::Array(o) && o@.len() == rows.len()
                        && forall|i: int|
                        0 <= i < rows.len() ==> cell_matches(
                            unary_outcome(*op, #[trigger] rows[i]),
                            o@[i],
                        ),
                    Err(e) => exists|i: int| unary_first_fail_at(*op, rows, i, e@),
                },
                OperandView::Scalar { value, .. } => match value {
                    None => r matches Ok(out) && out == ColumnarOutput::Scalar(None),
                    Some(x) => match (*op).spec_parse(x) {
                        Ok(v) => r matches Ok(out) && out == ColumnarOutput::Scalar(Some(v)),
                        Err(e) => r matches Err(err) && err@ == e,
                    },
                },
                OperandView::Other { description } => r matches Err(e) && e@
                    == (ErrView::UnsupportedType { function: name@, index: 0, actual: description }),
            }
        }),
{
    proof {
        assert(operand_views(args@)[0] == args@[0]@);
    }
    match &args[0] {
        ColumnarOperand::Array { .. } => {
            match unary_string_to_primitive_function(&args[0], op) {
                Ok(out) => Ok(ColumnarOutput::Array(out)),
                Err(e) => Err(e),
            }
        },
        ColumnarOperand::Scalar { value, .. } => {
            match value {
                None => Ok(ColumnarOutput::Scalar(None)),
                Some(x) => {
                    match op.parse(x.as_str()) {
                        Ok(v) => Ok(ColumnarOutput::Scalar(Some(v))),
                        Err(e) => Err(e),
                    }
                },
            }
        },
        ColumnarOperand::Other { .. } => {
            Err(
                KernelError::UnsupportedType {
                    function: String::from_str(name),
                    index: 0,
                    actual: args[0].type_description(),
                },
            )
        },
    }
}

} // verus!
