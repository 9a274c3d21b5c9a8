//! Columnar text operands and the uniform row accessor over them.

use vstd::prelude::*;

verus! {

/// The three interchangeable physical text encodings. Callers must treat
/// them as behaviorally identical row sources: no accessor below depends
/// on which one an operand carries.
#[derive(Clone, Copy, Debug, PartialEq, Eq, Structural)]
pub enum TextEncoding {
    Utf8,
    LargeUtf8,
    Utf8View,
}

/// A columnar operand: a full column of per-row optional text values, a
/// single broadcast scalar optional text value, or an operand of some
/// other, unsupported type (kept only as a description, for diagnostics).
#[derive(Debug)]
pub enum ColumnarOperand {
    Array { encoding: TextEncoding, rows: Vec<Option<String>> },
    Scalar { encoding: TextEncoding, value: Option<String> },
    Other { description: String },
}

/// Mathematical model of a [`ColumnarOperand`].
pub enum OperandView {
    Array { encoding: TextEncoding, rows: Seq<Option<Seq<char>>> },
    Scalar { encoding: TextEncoding, value: Option<Seq<char>> },
    Other { description: Seq<char> },
}

impl OperandView {
    /// The operand is one of the three recognized text encodings.
    pub open spec fn is_text(self) -> bool {
        !(self matches OperandView::Other { .. })
    }

    pub open spec fn is_array(self) -> bool {
        self matches OperandView::Array { .. }
    }

    /// Number of logical rows; a scalar is broadcast to the caller-supplied
    /// row count of the operation.
    pub open spec fn spec_length(self, row_count: int) -> int {
        match self {
            OperandView::Array { rows, .. } => rows.len() as int,
            _ => row_count,
        }
    }

    /// The optional text of row `i`: a scalar yields the same value for
    /// every row.
    pub open spec fn cell(self, i: int) -> Option<Seq<char>> {
        match self {
            OperandView::Array { rows, .. } => rows[i],
            OperandView::Scalar { value, .. } => value,
            OperandView::Other { .. } => None,
        }
    }

    /// Description of the operand's type, as reported in errors.
    pub open spec fn type_desc(self) -> Seq<char> {
        match self {
            OperandView::Array { encoding, .. } => encoding_name_spec(encoding),
            OperandView::Scalar { encoding, .. } => encoding_name_spec(encoding),
            OperandView::Other { description } => description,
        }
    }
}

pub open spec fn encoding_name_spec(e: TextEncoding) -> Seq<char> {
    match e {
        TextEncoding::Utf8 => "Utf8"@,
        TextEncoding::LargeUtf8 => "LargeUtf8"@,
        TextEncoding::Utf8View => "Utf8View"@,
    }
}

impl View for ColumnarOperand {
    type V = OperandView;

    open spec fn view(&self) -> OperandView {
        match self {
            ColumnarOperand::Array { encoding, rows } => {
                OperandView::Array { encoding: *encoding, rows: rows.deep_view() }
            },
            ColumnarOperand::Scalar { encoding, value } => {
                OperandView::Scalar { encoding: *encoding, value: value.deep_view() }
            },
            ColumnarOperand::Other { description } => {
                OperandView::Other { description: description@ }
            },
        }
    }
}

pub fn encoding_name(e: TextEncoding) -> (r: String)
    ensures
        r@ == encoding_name_spec(e),
{
    match e {
        TextEncoding::Utf8 => String::from_str("Utf8"),
        TextEncoding::LargeUtf8 => String::from_str("LargeUtf8"),
        TextEncoding::Utf8View => String::from_str("Utf8View"),
    }
}

impl ColumnarOperand {
    pub fn is_array(&self) -> (r: bool)
        ensures
            r == self@.is_array(),
    {
        matches!(self, ColumnarOperand::Array { .. })
    }

    /// Whether the operand is one of the three recognized text encodings.
    pub fn is_text(&self) -> (r: bool)
        ensures
            r == self@.is_text(),
    {
        !matches!(self, ColumnarOperand::Other { .. })
    }

    /// Logical row count of the operand within an operation of
    /// `row_count` rows; a scalar is broadcast, so its length is the
    /// operation's row count, not 1.
    pub fn length(&self, row_count: usize) -> (r: usize)
        ensures
            r == self@.spec_length(row_count as int),
    {
        match self {
            ColumnarOperand::Array { rows, .. } => rows.len(),
            _ => row_count,
        }
    }

    /// Uniform read access to the optional text of row `i`. A missing row
    /// is represented as `None`, never as a placeholder string; a scalar
    /// returns its value for every `i`.
    pub fn value_at(&self, i: usize) -> (r: Option<&String>)
        requires
            self@.is_text(),
            self@ matches OperandView::Array { rows, .. } ==> i < rows.len(),
        ensures
            match r {
                Some(s) => self@.cell(i as int) == Some(s@),
                None => self@.cell(i as int) is None,
            },
    {
        match self {
            ColumnarOperand::Array { rows, .. } => {
                match &rows[i] {
                    Some(s) => Some(s),
                    None => None,
                }
            },
            ColumnarOperand::Scalar { value, .. } => {
                match value {
                    Some(s) => Some(s),
                    None => None,
                }
            },
            ColumnarOperand::Other { .. } => None,
        }
    }

    /// Description of the operand's type, as reported in errors.
    pub fn type_description(&self) -> (r: String)
        ensures
            r@ == self@.type_desc(),
    {
        match self {
            ColumnarOperand::Array { encoding, .. } => encoding_name(*encoding),
            ColumnarOperand::Scalar { encoding, .. } => encoding_name(*encoding),
            ColumnarOperand::Other { description } => description.clone(),
        }
    }
}

} // verus!
