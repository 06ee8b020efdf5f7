//! Cells of a sheet and their display text.

use crate::decimal::{
    decimal_text, i64_to_string, int_text, integer_value, is_digit, is_integer_numeral,
    is_integer_text, lemma_digits_of_text, lemma_text_of_integer,
};
use vstd::prelude::*;
use vstd::string::*;

verus! {

/// The error a cell can hold in place of a value.
#[derive(Clone, Copy, Debug, PartialEq, Eq)]
pub enum ErrorCode {
    /// Division by zero.
    Div0,
    /// Value not available.
    NA,
    /// Invalid name.
    Name,
    /// Null value.
    Null,
    /// Number error.
    Num,
    /// Invalid cell reference.
    Ref,
    /// Value error.
    Value,
    /// The data is still being fetched.
    GettingData,
}

impl ErrorCode {
    /// The name under which the code is shown.
    pub open spec fn name(self) -> Seq<char> {
        match self {
            ErrorCode::Div0 => "Div0"@,
            ErrorCode::NA => "NA"@,
            ErrorCode::Name => "Name"@,
            ErrorCode::Null => "Null"@,
            ErrorCode::Num => "Num"@,
            ErrorCode::Ref => "Ref"@,
            ErrorCode::Value => "Value"@,
            ErrorCode::GettingData => "GettingData"@,
        }
    }
}

/// A floating-point number as far as its display goes.
#[verifier::ext_equal]
pub enum FloatView {
    /// A number whose fractional part is exactly zero: the number itself, of
    /// whatever size.
    Whole(int),
    /// Any other number, an infinity or a NaN: the shortest decimal text
    /// that reads back as the same number.
    Fractional(Seq<char>),
}

/// How a floating-point number is held.
#[derive(Debug, PartialEq, Eq)]
enum FloatForm {
    /// The fraction is zero, and the number fits.
    Whole(i64),
    /// The fraction is zero: the decimal numeral of the number.
    Numeral(String),
    /// Any other number: its shortest decimal text.
    Fractional(String),
}

/// What the display of a floating-point cell depends on.
#[derive(Debug, PartialEq, Eq)]
pub struct FloatParts {
    form: FloatForm,
}

impl View for FloatParts {
    type V = FloatView;

    closed spec fn view(&self) -> FloatView {
        match self.form {
            FloatForm::Whole(i) => FloatView::Whole(i as int),
            FloatForm::Numeral(s) => FloatView::Whole(integer_value(s@)),
            FloatForm::Fractional(s) => FloatView::Fractional(s@),
        }
    }
}

impl FloatParts {
    #[verifier::type_invariant]
    spec fn well_formed(&self) -> bool {
        self.form matches FloatForm::Numeral(s) ==> is_integer_text(s@)
    }

    /// The parts of a number without fraction that an `i64` holds.
    pub fn whole(number: i64) -> (parts: FloatParts)
        ensures
            parts@ == FloatView::Whole(number as int),
    {
        FloatParts { form: FloatForm::Whole(number) }
    }

    /// The parts of a number without fraction, of whatever size, from its
    /// decimal numeral: a `-` for a negative number, then its digits
    /// without a leading zero. Any other text gives `None`.
    pub fn from_numeral(numeral: String) -> (parts: Option<FloatParts>)
        ensures
            parts is Some <==> is_integer_text(numeral@),
            parts matches Some(p) ==> p@ == FloatView::Whole(integer_value(numeral@)),
    {
        if is_integer_numeral(numeral.as_str()) {
            Some(FloatParts { form: FloatForm::Numeral(numeral) })
        } else {
            None
        }
    }

    /// The parts of any other number, from its shortest decimal text.
    pub fn fractional(shortest: String) -> (parts: FloatParts)
        ensures
            parts@ == FloatView::Fractional(shortest@),
    {
        FloatParts { form: FloatForm::Fractional(shortest) }
    }

    /// The display text of the number: the decimal numeral of a number
    /// without fraction, else the shortest text.
    pub open spec fn text(&self) -> Seq<char> {
        match self@ {
            FloatView::Whole(number) => int_text(number),
            FloatView::Fractional(shortest) => shortest,
        }
    }

    /// The display text of the number.
    pub fn to_text(&self) -> (s: String)
        ensures
            s@ == self.text(),
    {
        proof {
            use_type_invariant(self);
        }
        match &self.form {
            FloatForm::Whole(i) => i64_to_string(*i),
            FloatForm::Numeral(s) => {
                proof {
                    lemma_text_of_integer(s@);
                }
                s.clone()
            },
            FloatForm::Fractional(s) => s.clone(),
        }
    }
}

/// One cell of a sheet.
#[derive(Debug, PartialEq, Eq)]
pub enum Cell {
    /// No value.
    Empty,
    /// Text.
    Text(String),
    /// A floating-point number.
    Float(FloatParts),
    /// A signed integer.
    Int(i64),
    /// A boolean.
    Bool(bool),
    /// An error code.
    Error(ErrorCode),
    /// A structured date or time, held as its display text.
    DateTime(String),
    /// A date or time as an ISO 8601 string.
    DateTimeIso(String),
    /// A duration as an ISO 8601 string.
    DurationIso(String),
}

impl Cell {
    /// The display text of the cell.
    pub open spec fn text(&self) -> Seq<char> {
        match self {
            Cell::Empty => Seq::empty(),
            Cell::Text(s) => s@,
            Cell::Float(f) => f.text(),
            Cell::Int(i) => int_text(*i as int),
            Cell::Bool(b) => if *b {
                "true"@
            } else {
                "false"@
            },
            Cell::Error(e) => "ERROR: "@ + e.name(),
            Cell::DateTime(s) => s@,
            Cell::DateTimeIso(s) => s@,
            Cell::DurationIso(s) => s@,
        }
    }
}

/// Asks `calamine::CellErrorType` for its `Debug` text. That impl is derived
/// for an enum without fields, so the text is the variant's name.
#[verifier::external_body]
fn error_code_debug(code: ErrorCode) -> (s: String)
    ensures
        s@ == code.name(),
{
    let outside = match code {
        ErrorCode::Div0 => calamine::CellErrorType::Div0,
        ErrorCode::NA => calamine::CellErrorType::NA,
        ErrorCode::Name => calamine::CellErrorType::Name,
        ErrorCode::Null => calamine::CellErrorType::Null,
        ErrorCode::Num => calamine::CellErrorType::Num,
        ErrorCode::Ref => calamine::CellErrorType::Ref,
        ErrorCode::Value => calamine::CellErrorType::Value,
        ErrorCode::GettingData => calamine::CellErrorType::GettingData,
    };
    format!("{:?}", outside)
}

/// The display text of a cell.
pub fn format_cell(cell: &Cell) -> (s: String)
    ensures
        s@ == cell.text(),
{
    match cell {
        Cell::Empty => String::new(),
        Cell::Text(s) => s.clone(),
        Cell::Float(f) => f.to_text(),
        Cell::Int(i) => i64_to_string(*i),
        Cell::Bool(b) => {
            if *b {
                String::from_str("true")
            } else {
                String::from_str("false")
            }
        },
        Cell::Error(e) => {
            let mut s = String::from_str("ERROR: ");
            let name = error_code_debug(*e);
            s.append(name.as_str());
            s
        },
        Cell::DateTime(s) => s.clone(),
        Cell::DateTimeIso(s) => s.clone(),
        Cell::DurationIso(s) => s.clone(),
    }
}

/// The decimal text of an integer holds no decimal point.
pub proof fn lemma_int_text_has_no_point(i: int)
    ensures
        !int_text(i).contains('.'),
{
    let magnitude: nat = if i < 0 {
        (-i) as nat
    } else {
        i as nat
    };
    lemma_digits_of_text(magnitude);
    let digits = decimal_text(magnitude);
    let text = int_text(i);
    assert forall|k: int| 0 <= k < text.len() implies text[k] != '.' by {
        if i < 0 && k > 0 {
            assert(is_digit(digits[k - 1]));
        } else if i >= 0 {
            assert(is_digit(digits[k]));
        }
    }
}

/// The text of a floating-point cell whose number has no fractional part
/// is the decimal numeral of that number, whatever its size, and holds no
/// decimal point.
pub proof fn law_integral_float_has_no_point(cell: Cell, number: int)
    requires
        cell matches Cell::Float(f) && f@ == FloatView::Whole(number),
    ensures
        cell.text() == int_text(number),
        !cell.text().contains('.'),
{
    lemma_int_text_has_no_point(number);
}

/// The text of any other floating-point cell is the shortest text of its
/// number, unchanged.
pub proof fn law_fractional_float_keeps_its_text(cell: Cell, shortest: Seq<char>)
    requires
        cell matches Cell::Float(f) && f@ == FloatView::Fractional(shortest),
    ensures
        cell.text() == shortest,
{
}

} // verus!
