//! The row-major fallback executor and the multi-argument fallback
//! kernel: an ordered chain of candidate parse attempts per row, first
//! success wins, the last failure escalates, and column construction is
//! all-or-nothing.

use vstd::prelude::*;

use crate::errors::{ErrView, KernelError};
use crate::kernel::{
    all_text, cell_matches, first_non_text_at, operand_views, ColumnarOutput, RowOutcome,
    RowResult,
};
use crate::operand::{ColumnarOperand, OperandView};
use crate::parsers::FallbackParser;
use crate::unary::array_rows;

verus! {

/// What one auxiliary operand contributes at one row: nothing (a null,
/// skipped), a candidate text, or a type error carrying the operand's
/// argument position and actual type.
pub enum AuxCell {
    Null,
    Text(Seq<char>),
    BadType { index: int, actual: Seq<char> },
}

/// The cell auxiliary operand `a`, at argument position `index`,
/// contributes at row `i` of the array path: array-row nulls and null
/// scalars are skipped alike; a non-text operand is a type error.
pub open spec fn aux_cell_at(a: OperandView, index: int, i: int) -> AuxCell {
    if !a.is_text() {
        AuxCell::BadType { index, actual: a.type_desc() }
    } else {
        match a.cell(i) {
            None => AuxCell::Null,
            Some(t) => AuxCell::Text(t),
        }
    }
}

/// The cells the auxiliaries `args[1..]` contribute at row `i`.
pub open spec fn row_cells(avs: Seq<OperandView>, i: int) -> Seq<AuxCell> {
    Seq::new((avs.len() - 1) as nat, |j: int| aux_cell_at(avs[j + 1], j + 1, i))
}

/// The cell auxiliary operand `a` contributes on the scalar-only path:
/// only scalars are usable there, and an array is a type error.
pub open spec fn scalar_cell(a: OperandView, index: int) -> AuxCell {
    match a {
        OperandView::Scalar { value, .. } => match value {
            None => AuxCell::Null,
            Some(t) => AuxCell::Text(t),
        },
        _ => AuxCell::BadType { index, actual: a.type_desc() },
    }
}

/// The cells the auxiliaries `args[1..]` contribute on the scalar path.
pub open spec fn scalar_cells(avs: Seq<OperandView>) -> Seq<AuxCell> {
    Seq::new((avs.len() - 1) as nat, |j: int| scalar_cell(avs[j + 1], j + 1))
}

/// The deterministic left-to-right fallback over one row's candidate
/// cells: a null cell is skipped with no attempt; a type error aborts at
/// once; the first successful attempt wins and is transformed, with no
/// further candidate tried; a failed attempt is remembered and the chain
/// continues. Exhaustion yields the last remembered failure, or a null
/// row when no candidate was usable and nothing failed.
pub open spec fn chain<P: FallbackParser>(
    p: P,
    x: Seq<char>,
    cells: Seq<AuxCell>,
    func: Seq<char>,
    last: Option<ErrView>,
) -> RowOutcome
    decreases cells.len(),
{
    if cells.len() == 0 {
        match last {
            None => RowOutcome::Null,
            Some(e) => RowOutcome::Fail(e),
        }
    } else {
        match cells[0] {
            AuxCell::Null => chain(p, x, cells.drop_first(), func, last),
            AuxCell::BadType { index, actual } => RowOutcome::Fail(
                ErrView::UnsupportedType { function: func, index, actual },
            ),
            AuxCell::Text(t) => match p.spec_parse2(x, t) {
                Ok(v) => RowOutcome::Val(p.spec_transform(v)),
                Err(e) => chain(p, x, cells.drop_first(), func, Some(e)),
            },
        }
    }
}

/// Outcome of row `i` of the array path: a null primary row is a null
/// output row, with no auxiliary consulted; otherwise the fallback chain
/// runs over the row's cells.
pub open spec fn fallback_row_outcome<P: FallbackParser>(
    p: P,
    avs: Seq<OperandView>,
    func: Seq<char>,
    i: int,
) -> RowOutcome {
    match array_rows(avs[0])[i] {
        None => RowOutcome::Null,
        Some(x) => chain(p, x, row_cells(avs, i), func, None),
    }
}

/// `i` is the first row of the array path whose outcome is a failure,
/// and `e` is that failure.
pub open spec fn fallback_first_fail_at<P: FallbackParser>(
    p: P,
    avs: Seq<OperandView>,
    func: Seq<char>,
    i: int,
    e: ErrView,
) -> bool {
    &&& 0 <= i < array_rows(avs[0]).len()
    &&& fallback_row_outcome(p, avs, func, i) == RowOutcome::Fail(e)
    &&& forall|k: int|
        0 <= k < i ==> !(#[trigger] fallback_row_outcome(p, avs, func, k) matches RowOutcome::Fail(
            _,
        ))
}

/// Every array among the auxiliaries shares the primary's row count.
pub open spec fn aux_rows_match(avs: Seq<OperandView>) -> bool {
    forall|j: int|
        1 <= j < avs.len() ==> ((#[trigger] avs[j]) matches OperandView::Array { rows, .. }
            ==> rows.len() == array_rows(avs[0]).len())
}

/// Every array among the auxiliaries has a row `i`.
pub open spec fn aux_row_in_bounds(avs: Seq<OperandView>, i: int) -> bool {
    forall|j: int|
        1 <= j < avs.len() ==> ((#[trigger] avs[j]) matches OperandView::Array { rows, .. }
            ==> i < rows.len())
}

pub open spec fn opt_err_view(o: Option<KernelError>) -> Option<ErrView> {
    match o {
        None => None,
        Some(e) => Some(e@),
    }
}

/// One row of the fallback executor: iterate the auxiliaries
/// `args[1..]` in declared order against the primary text `x`.
fn fallback_row<P: FallbackParser>(
    args: &Vec<ColumnarOperand>,
    i: usize,
    x: &String,
    op: &P,
    name: &str,
) -> (r: RowResult)
    requires
        args@.len() >= 1,
        aux_row_in_bounds(operand_views(args@), i as int),
    ensures
        r@ == chain(*op, x@, row_cells(operand_views(args@), i as int), name@, None),
{
    let ghost avs = operand_views(args@);
    let ghost cells = row_cells(avs, i as int);
    let mut j: usize = 1;
    let mut last_err: Option<KernelError> = None;
    proof {
        assert(cells.skip(0) =~= cells);
    }
    while j < args.len()
        invariant
            1 <= j <= args@.len(),
            avs == operand_views(args@),
            cells == row_cells(avs, i as int),
            cells.len() == args@.len() - 1,
            aux_row_in_bounds(avs, i as int),
            chain(*op, x@, cells.skip(j as int - 1), name@, opt_err_view(last_err)) == chain(
                *op,
                x@,
                cells,
                name@,
                None,
            ),
        decreases args@.len() - j,
    {
        proof {
            assert(avs[j as int] == args@[j as int]@);
            assert(cells[j as int - 1] == aux_cell_at(avs[j as int], j as int, i as int));
            assert(cells.skip(j as int - 1)[0] == cells[j as int - 1]);
            assert(cells.skip(j as int - 1).drop_first() =~= cells.skip(j as int));
        }
        if !args[j].is_text() {
            return RowResult::Fail(
                KernelError::UnsupportedType {
                    function: String::from_str(name),
                    index: j,
                    actual: args[j].type_description(),
                },
            );
        }
        match args[j].value_at(i) {
            None => {},
            Some(t) => {
                match op.parse2(x.as_str(), t.as_str()) {
                    Ok(v) => {
                        let tv = op.transform(v);
                        return RowResult::Val(tv);
                    },
                    Err(e) => {
                        last_err = Some(e);
                    },
                }
            },
        }
        j += 1;
    }
    proof {
        assert(cells.skip(j as int - 1) =~= Seq::<AuxCell>::empty());
    }
    match last_err {
        None => RowResult::Null,
        Some(e) => RowResult::Fail(e),
    }
}

/// The row-major fallback executor: `args[0]` is a text array defining
/// the row count and null mask; `args[1..]` are the candidates. Rows are
/// processed in order; within a row, candidates are tried left to right,
/// first success wins, and a row whose usable candidates all fail aborts
/// the whole call with the last failure — only nullity is row-local,
/// never error.
pub fn handle_array_op<P: FallbackParser>(args: &Vec<ColumnarOperand>, op: &P, name: &str) -> (r:
    Result<Vec<Option<i64>>, KernelError>)
    requires
        args@.len() >= 1,
        operand_views(args@)[0] matches OperandView::Array { .. },
        aux_rows_match(operand_views(args@)),
    ensures
        ({
            let avs = operand_views(args@);
            let prows = array_rows(avs[0]);
            match r {
                Ok(out) => out@.len() == prows.len() && forall|i: int|
                    0 <= i < prows.len() ==> cell_matches(
                        #[trigger] fallback_row_outcome(*op, avs, name@, i),
                        out@[i],
                    ),
                Err(e) => exists|i: int| fallback_first_fail_at(*op, avs, name@, i, e@),
            }
        }),
{
    let ghost avs = operand_views(args@);
    let ghost prows = array_rows(avs[0]);
    proof {
        assert(avs[0] == args@[0]@);
    }
    let n = args[0].length(0);
    let mut out: Vec<Option<i64>> = Vec::new();
    let mut i: usize = 0;
    while i < n
        invariant
            i <= n,
            out@.len() == i,
            n == prows.len(),
            args@.len() >= 1,
            avs == operand_views(args@),
            prows == array_rows(avs[0]),
            avs[0] == args@[0]@,
            avs[0] matches OperandView::Array { .. },
            aux_rows_match(avs),
            forall|k: int|
                0 <= k < i ==> cell_matches(
                    #[trigger] fallback_row_outcome(*op, avs, name@, k),
                    out@[k],
                ),
        decreases n - i,
    {
        proof {
            let ghost ii = i as int;
            assert forall|j: int|
                1 <= j < avs.len() implies ((#[trigger] avs[j]) matches OperandView::Array {
                rows, .. } ==> ii < rows.len()) by {
                assert(aux_rows_match(avs));
            }
            assert(aux_row_in_bounds(avs, i as int));
        }
        match args[0].value_at(i) {
            None => {
                out.push(None);
            },
            Some(x) => {
                match fallback_row(args, i, x, op, name) {
                    RowResult::Null => {
                        out.push(None);
                    },
                    RowResult::Val(v) => {
                        out.push(Some(v));
                    },
                    RowResult::Fail(e) => {
                        proof {
                            assert(fallback_first_fail_at(*op, avs, name@, i as int, e@));
                        }
                        return Err(e);
                    },
                }
            },
        }
        i += 1;
    }
    Ok(out)
}

/// Given a parser that maps a primary and a candidate text to the first
/// successful result, build the result column for `args[0]` (which must
/// be a text array) against the candidates `args[1..]`. Errors exactly
/// when fewer than 2 operands are supplied, when `args[0]` is not a text
/// array, or when some row's usable candidates all fail.
pub fn strings_to_primitive_function<P: FallbackParser>(
    args: &Vec<ColumnarOperand>,
    op: &P,
    name: &str,
) -> (r: Result<Vec<Option<i64>>, KernelError>)
    requires
        operand_views(args@)[0] matches OperandView::Array { .. } ==> aux_rows_match(
            operand_views(args@),
        ),
    ensures
        ({
            let avs = operand_views(args@);
            if args@.len() < 2 {
                r matches Err(e) && e@ == (ErrView::ArgumentCount {
                    function: name@,
                    received: args@.len() as int,
                    required: 2,
                })
            } else if !(avs[0] matches OperandView::Array { .. }) {
                r matches Err(e) && e@ == (ErrView::UnsupportedType {
                    function: name@,
                    index: 0,
                    actual: avs[0].type_desc(),
                })
            } else {
                match r {
                    Ok(out) => out@.len() == array_rows(avs[0]).len() && forall|i: int|
                        0 <= i < out@.len() ==> cell_matches(
                            #[trigger] fallback_row_outcome(*op, avs, name@, i),
                            out@[i],
                        ),
                    Err(e) => exists|i: int| fallback_first_fail_at(*op, avs, name@, i, e@),
                }
            }
        }),
{
    if args.len() < 2 {
        return Err(
            KernelError::ArgumentCount {
                function: String::from_str(name),
                received: args.len(),
                required: 2,
            },
        );
    }
    proof {
        assert(operand_views(args@)[0] == args@[0]@);
    }
    if args[0].is_array() {
        handle_array_op(args, op, name)
    } else {
        Err(
            KernelError::UnsupportedType {
                function: String::from_str(name),
                index: 0,
                actual: args[0].type_description(),
            },
        )
    }
}

pub open spec fn null_subject_message() -> Seq<char> {
    "the scalar fallback subject must not be null"@
}

pub open spec fn no_candidate_message() -> Seq<char> {
    "no usable candidate was supplied to the scalar fallback"@
}

/// The scalar-only fast path: iterate the scalar candidates `args[1..]`
/// in order against the non-null subject text.
fn scalar_fallback<P: FallbackParser>(
    args: &Vec<ColumnarOperand>,
    subject: &String,
    op: &P,
    name: &str,
) -> (r: Result<ColumnarOutput, KernelError>)
    requires
        args@.len() >= 1,
    ensures
        ({
            let avs = operand_views(args@);
            match chain(*op, subject@, scalar_cells(avs), name@, None) {
                RowOutcome::Null => r matches Err(e) && e@ == (ErrView::InternalInvariantViolation {
                    message: no_candidate_message(),
                }),
                RowOutcome::Val(v) => r matches Ok(out) && out == ColumnarOutput::Scalar(Some(v)),
                RowOutcome::Fail(f) => r matches Err(e) && e@ == f,
            }
        }),
{
    let ghost avs = operand_views(args@);
    let ghost cells = scalar_cells(avs);
    let mut j: usize = 1;
    let mut last_err: Option<KernelError> = None;
    proof {
        assert(cells.skip(0) =~= cells);
    }
    while j < args.len()
        invariant
            1 <= j <= args@.len(),
            avs == operand_views(args@),
            cells == scalar_cells(avs),
            cells.len() == args@.len() - 1,
            chain(*op, subject@, cells.skip(j as int - 1), name@, opt_err_view(last_err)) == chain(
                *op,
                subject@,
                cells,
                name@,
                None,
            ),
        decreases args@.len() - j,
    {
        proof {
            assert(avs[j as int] == args@[j as int]@);
            assert(cells[j as int - 1] == scalar_cell(avs[j as int], j as int));
            assert(cells.skip(j as int - 1)[0] == cells[j as int - 1]);
            assert(cells.skip(j as int - 1).drop_first() =~= cells.skip(j as int));
        }
        match &args[j] {
            ColumnarOperand::Scalar { value, .. } => {
                match value {
                    None => {},
                    Some(t) => {
                        match op.parse2(subject.as_str(), t.as_str()) {
                            Ok(v) => {
                                let tv = op.transform(v);
                                return Ok(ColumnarOutput::Scalar(Some(tv)));
                            },
                            Err(e) => {
                                last_err = Some(e);
                            },
                        }
                    },
                }
            },
            _ => {
                return Err(
                    KernelError::UnsupportedType {
                        function: String::from_str(name),
                        index: j,
                        actual: args[j].type_description(),
                    },
                );
            },
        }
        j += 1;
    }
    proof {
        assert(cells.skip(j as int - 1) =~= Seq::<AuxCell>::empty());
    }
    match last_err {
        None => Err(
            KernelError::InternalInvariantViolation {
                message: String::from_str("no usable candidate was supplied to the scalar fallback"),
            },
        ),
        Some(e) => Err(e),
    }
}

/// The multi-argument fallback kernel, the public entry point: at least
/// 2 operands are required; every operand, positions 0 to N, is
/// validated to be one of the three text encodings before any row work,
/// the first violation aborting at once; an array subject then routes to
/// the row-major executor, a scalar subject to the scalar-only path,
/// where a null subject (or a chain with no usable candidate) is an
/// internal invariant violation.
pub fn handle_multiple<P: FallbackParser>(args: &Vec<ColumnarOperand>, op: &P, name: &str) -> (r:
    Result<ColumnarOutput, KernelError>)
    requires
        operand_views(args@)[0] matches OperandView::Array { .. } ==> aux_rows_match(
            operand_views(args@),
        ),
    ensures
        ({
            let avs = operand_views(args@);
            if args@.len() < 2 {
                r matches Err(e) && e@ == (ErrView::ArgumentCount {
                    function: name@,
                    received: args@.len() as int,
                    required: 2,
                })
            } else if !all_text(avs) {
                r matches Err(e) && exists|j: int|
                    #[trigger] first_non_text_at(avs, j) && e@ == (ErrView::UnsupportedType {
                        function: name@,
                        index: j,
                        actual: avs[j].type_desc(),
                    })
            } else {
                match avs[0] {
                    OperandView::Array { .. } => match r {
                        Ok(out) => out matches ColumnarOutput::Array(o) && o@.len() == array_rows(
                            avs[0],
                        ).len() && forall|i: int|
                            0 <= i < o@.len() ==> cell_matches(
                                #[trigger] fallback_row_outcome(*op, avs, name@, i),
                                o@[i],
                            ),
                        Err(e) => exists|i: int| fallback_first_fail_at(*op, avs, name@, i, e@),
                    },
                    OperandView::Scalar { value, .. } => match value {
                        None => r matches Err(e) && e@ == (ErrView::InternalInvariantViolation {
                            message: null_subject_message(),
                        }),
                        Some(x) => match chain(*op, x, scalar_cells(avs), name@, None) {
                            RowOutcome::Null => r matches Err(e) && e@
                                == (ErrView::InternalInvariantViolation {
                                message: no_candidate_message(),
                            }),
                            RowOutcome::Val(v) => r matches Ok(out) && out
                                == ColumnarOutput::Scalar(Some(v)),
                            RowOutcome::Fail(f) => r matches Err(e) && e@ == f,
                        },
                    },
                    OperandView::Other { .. } => false,
                }
            }
        }),
{
    if args.len() < 2 {
        return Err(
            KernelError::ArgumentCount {
                function: String::from_str(name),
                received: args.len(),
                required: 2,
            },
        );
    }
    let ghost avs = operand_views(args@);
    let mut j: usize = 0;
    while j < args.len()
        invariant
            j <= args@.len(),
            args@.len() >= 2,
            avs == operand_views(args@),
            forall|k: int| 0 <= k < j ==> (#[trigger] avs[k]).is_text(),
        decreases args@.len() - j,
    {
        if !args[j].is_text() {
            proof {
                assert(avs[j as int] == args@[j as int]@);
                assert(first_non_text_at(avs, j as int));
            }
            return Err(
                KernelError::UnsupportedType {
                    function: String::from_str(name),
                    index: j,
                    actual: args[j].type_description(),
                },
            );
        }
        j += 1;
    }
    proof {
        assert(all_text(avs));
        assert(avs[0] == args@[0]@);
    }
    match &args[0] {
        ColumnarOperand::Array { .. } => {
            match strings_to_primitive_function(args, op, name) {
                Ok(out) => Ok(ColumnarOutput::Array(out)),
                Err(e) => Err(e),
            }
        },
        ColumnarOperand::Scalar { value, .. } => {
            match value {
                None => Err(
                    KernelError::InternalInvariantViolation {
                        message: String::from_str("the scalar fallback subject must not be null"),
                    },
                ),
                Some(subject) => scalar_fallback(args, subject, op, name),
            }
        },
        ColumnarOperand::Other { .. } => {
            // Unreachable: the eager validation above accepted every operand.
            proof {
                assert(false);
            }
            Err(
                KernelError::InternalInvariantViolation {
                    message: String::from_str("the scalar fallback subject must not be null"),
                },
            )
        },
    }
}

/// A null primary row yields a null output row and consults no
/// candidate: its outcome is fixed before any parser or auxiliary could
/// be involved, on every kernel built over the fallback executor.
pub proof fn lemma_null_primary_row_is_null<P: FallbackParser>(
    p: P,
    avs: Seq<OperandView>,
    func: Seq<char>,
    i: int,
)
    requires
        array_rows(avs[0])[i] is None,
    ensures
        fallback_row_outcome(p, avs, func, i) == RowOutcome::Null,
{
}

/// A chain over cells that are all null keeps the incoming state: a
/// remembered failure escalates, and nothing remembered is a null row.
pub proof fn lemma_chain_all_null<P: FallbackParser>(
    p: P,
    x: Seq<char>,
    cells: Seq<AuxCell>,
    func: Seq<char>,
    last: Option<ErrView>,
)
    requires
        forall|k: int| 0 <= k < cells.len() ==> #[trigger] cells[k] is Null,
    ensures
        chain(p, x, cells, func, last) == (match last {
            None => RowOutcome::Null,
            Some(e) => RowOutcome::Fail(e),
        }),
    decreases cells.len(),
{
    if cells.len() > 0 {
        assert(cells[0] is Null);
        lemma_chain_all_null(p, x, cells.drop_first(), func, last);
    }
}

/// Once a failure is remembered, a chain can no longer end null: it
/// either succeeds later or escalates some failure.
pub proof fn lemma_chain_remembered_failure_never_null<P: FallbackParser>(
    p: P,
    x: Seq<char>,
    cells: Seq<AuxCell>,
    func: Seq<char>,
    e: ErrView,
)
    ensures
        chain(p, x, cells, func, Some(e)) != RowOutcome::Null,
    decreases cells.len(),
{
    if cells.len() > 0 {
        match cells[0] {
            AuxCell::Null => lemma_chain_remembered_failure_never_null(
                p,
                x,
                cells.drop_first(),
                func,
                e,
            ),
            AuxCell::Text(t) => {
                if let Err(e2) = p.spec_parse2(x, t) {
                    lemma_chain_remembered_failure_never_null(p, x, cells.drop_first(), func, e2);
                }
            },
            AuxCell::BadType { .. } => {},
        }
    }
}

/// Nullity is decided by the nulls alone: a non-null primary row comes
/// out null exactly when every candidate cell is null — an attempt,
/// successful or not, and a type error all end otherwise.
pub proof fn lemma_chain_null_means_no_usable_candidate<P: FallbackParser>(
    p: P,
    x: Seq<char>,
    cells: Seq<AuxCell>,
    func: Seq<char>,
)
    requires
        chain(p, x, cells, func, None) == RowOutcome::Null,
    ensures
        forall|k: int| 0 <= k < cells.len() ==> #[trigger] cells[k] is Null,
    decreases cells.len(),
{
    if cells.len() > 0 {
        match cells[0] {
            AuxCell::Null => {
                lemma_chain_null_means_no_usable_candidate(p, x, cells.drop_first(), func);
                assert forall|k: int| 0 <= k < cells.len() implies #[trigger] cells[k] is Null by {
                    if k > 0 {
                        assert(cells.drop_first()[k - 1] == cells[k]);
                        assert(cells.drop_first()[k - 1] is Null);
                    }
                }
            },
            AuxCell::Text(t) => {
                match p.spec_parse2(x, t) {
                    Ok(_) => {
                        assert(false);
                    },
                    Err(e) => {
                        lemma_chain_remembered_failure_never_null(
                            p,
                            x,
                            cells.drop_first(),
                            func,
                            e,
                        );
                        assert(false);
                    },
                }
            },
            AuxCell::BadType { .. } => {
                assert(false);
            },
        }
    }
}

/// First-success-wins: if cell `j` holds the first candidate whose
/// attempt succeeds, every earlier cell being a null or a failing
/// candidate, then the row's outcome is candidate `j`'s transformed
/// result — whatever stands after `j` is never consulted.
pub proof fn lemma_chain_first_success<P: FallbackParser>(
    p: P,
    x: Seq<char>,
    cells: Seq<AuxCell>,
    func: Seq<char>,
    last: Option<ErrView>,
    j: int,
)
    requires
        0 <= j < cells.len(),
        cells[j] matches AuxCell::Text(t) && p.spec_parse2(x, t) is Ok,
        forall|k: int|
            0 <= k < j ==> match #[trigger] cells[k] {
                AuxCell::Null => true,
                AuxCell::Text(t2) => p.spec_parse2(x, t2) is Err,
                AuxCell::BadType { .. } => false,
            },
    ensures
        cells[j] matches AuxCell::Text(t) && p.spec_parse2(x, t) matches Ok(v) ==> chain(
            p,
            x,
            cells,
            func,
            last,
        ) == RowOutcome::Val(p.spec_transform(v)),
    decreases j,
{
    if j > 0 {
        assert(cells.drop_first()[j - 1] == cells[j]);
        assert forall|k: int|
            0 <= k < j - 1 implies match #[trigger] cells.drop_first()[k] {
            AuxCell::Null => true,
            AuxCell::Text(t2) => p.spec_parse2(x, t2) is Err,
            AuxCell::BadType { .. } => false,
        } by {
            assert(cells.drop_first()[k] == cells[k + 1]);
        }
        match cells[0] {
            AuxCell::Null => {
                lemma_chain_first_success(p, x, cells.drop_first(), func, last, j - 1);
            },
            AuxCell::Text(t0) => {
                match p.spec_parse2(x, t0) {
                    Err(e0) => {
                        lemma_chain_first_success(
                            p,
                            x,
                            cells.drop_first(),
                            func,
                            Some(e0),
                            j - 1,
                        );
                    },
                    Ok(_) => {
                        assert(false);
                    },
                }
            },
            AuxCell::BadType { .. } => {
                assert(false);
            },
        }
    }
}

/// All-candidates-fail with the last failure: if every candidate cell's
/// attempt fails, no cell is a type error, and cell `j` holds the last
/// candidate (only nulls after it), the row's outcome is candidate `j`'s
/// failure — the last attempted one, not the first.
pub proof fn lemma_chain_all_fail<P: FallbackParser>(
    p: P,
    x: Seq<char>,
    cells: Seq<AuxCell>,
    func: Seq<char>,
    last: Option<ErrView>,
    j: int,
)
    requires
        0 <= j < cells.len(),
        cells[j] matches AuxCell::Text(_),
        forall|k: int|
            0 <= k < cells.len() ==> match #[trigger] cells[k] {
                AuxCell::Null => true,
                AuxCell::Text(t2) => p.spec_parse2(x, t2) is Err,
                AuxCell::BadType { .. } => false,
            },
        forall|k: int| j < k < cells.len() ==> #[trigger] cells[k] is Null,
    ensures
        cells[j] matches AuxCell::Text(t) && p.spec_parse2(x, t) matches Err(e) ==> chain(
            p,
            x,
            cells,
            func,
            last,
        ) == RowOutcome::Fail(e),
    decreases j,
{
    assert forall|k: int|
        0 <= k < cells.drop_first().len() implies match #[trigger] cells.drop_first()[k] {
        AuxCell::Null => true,
        AuxCell::Text(t2) => p.spec_parse2(x, t2) is Err,
        AuxCell::BadType { .. } => false,
    } by {
        assert(cells.drop_first()[k] == cells[k + 1]);
    }
    if j == 0 {
        match cells[0] {
            AuxCell::Text(t) => {
                match p.spec_parse2(x, t) {
                    Err(e) => {
                        assert forall|k: int|
                            0 <= k < cells.drop_first().len() implies #[trigger] cells.drop_first()[k] is Null by {
                            assert(cells.drop_first()[k] == cells[k + 1]);
                        }
                        lemma_chain_all_null(p, x, cells.drop_first(), func, Some(e));
                    },
                    Ok(_) => {
                        assert(false);
                    },
                }
            },
            _ => {
                assert(false);
            },
        }
    } else {
        assert(cells.drop_first()[j - 1] == cells[j]);
        assert forall|k: int|
            j - 1 < k < cells.drop_first().len() implies #[trigger] cells.drop_first()[k] is Null by {
            assert(cells.drop_first()[k] == cells[k + 1]);
        }
        match cells[0] {
            AuxCell::Null => {
                lemma_chain_all_fail(p, x, cells.drop_first(), func, last, j - 1);
            },
            AuxCell::Text(t0) => {
                match p.spec_parse2(x, t0) {
                    Err(e0) => {
                        lemma_chain_all_fail(p, x, cells.drop_first(), func, Some(e0), j - 1);
                    },
                    Ok(_) => {
                        assert(false);
                    },
                }
            },
            AuxCell::BadType { .. } => {
                assert(false);
            },
        }
    }
}

/// Idempotence of the array path, successful case: the row-wise
/// characterization the kernels ensure pins the output column
/// completely, so two calls on identical operands produce bit-identical
/// columns (same values, same null positions).
pub proof fn lemma_fallback_output_unique<P: FallbackParser>(
    p: P,
    avs: Seq<OperandView>,
    func: Seq<char>,
    out1: Seq<Option<i64>>,
    out2: Seq<Option<i64>>,
)
    requires
        out1.len() == array_rows(avs[0]).len(),
        out2.len() == array_rows(avs[0]).len(),
        forall|i: int|
            0 <= i < out1.len() ==> cell_matches(
                #[trigger] fallback_row_outcome(p, avs, func, i),
                out1[i],
            ),
        forall|i: int|
            0 <= i < out2.len() ==> cell_matches(
                #[trigger] fallback_row_outcome(p, avs, func, i),
                out2[i],
            ),
    ensures
        out1 == out2,
{
    assert forall|i: int| 0 <= i < out1.len() implies out1[i] == out2[i] by {
        assert(cell_matches(fallback_row_outcome(p, avs, func, i), out1[i]));
        assert(cell_matches(fallback_row_outcome(p, avs, func, i), out2[i]));
    }
    assert(out1 =~= out2);
}

/// Idempotence of the array path, failing case: the first failing row is
/// unique, so two calls on identical operands report the same error.
pub proof fn lemma_fallback_error_unique<P: FallbackParser>(
    p: P,
    avs: Seq<OperandView>,
    func: Seq<char>,
    e1: ErrView,
    e2: ErrView,
)
    requires
        exists|i: int| fallback_first_fail_at(p, avs, func, i, e1),
        exists|i: int| fallback_first_fail_at(p, avs, func, i, e2),
    ensures
        e1 == e2,
{
    let i1 = choose|i: int| fallback_first_fail_at(p, avs, func, i, e1);
    let i2 = choose|i: int| fallback_first_fail_at(p, avs, func, i, e2);
    if i1 < i2 {
        assert(!(fallback_row_outcome(p, avs, func, i1) matches RowOutcome::Fail(_)));
        assert(false);
    }
    if i2 < i1 {
        assert(!(fallback_row_outcome(p, avs, func, i2) matches RowOutcome::Fail(_)));
        assert(false);
    }
}

} // verus!
