//! Resolving a sheet identifier: a zero-based index, or else a sheet's name.

use crate::decimal::{
    decimal_text, is_numeral, lemma_numeral_of_text, numeral_value, parse_numeral, u64_to_string,
};
use crate::text::{debug_list, debug_list_text};
use crate::workbook::Workbook;
use vstd::prelude::*;
use vstd::string::*;

verus! {

/// Why an identifier names no sheet.
#[derive(Clone, Debug, PartialEq, Eq)]
pub enum SheetError {
    /// The identifier is a numeral, and the workbook has no sheet at that
    /// index.
    IndexOutOfRange {
        /// The index, in decimal.
        index: String,
        /// The number of sheets in the workbook.
        count: usize,
    },
    /// The identifier is no numeral, and no sheet has it as its name.
    NotFound {
        /// The identifier as given.
        identifier: String,
        /// The names of the sheets, in file order.
        available: Vec<String>,
    },
}

/// A `SheetError` as mathematical data.
pub enum SheetErrorView {
    /// No sheet at this index.
    IndexOutOfRange { index: Seq<char>, count: nat },
    /// No sheet of this name.
    NotFound { identifier: Seq<char>, available: Seq<Seq<char>> },
}

impl View for SheetError {
    type V = SheetErrorView;

    open spec fn view(&self) -> SheetErrorView {
        match self {
            SheetError::IndexOutOfRange { index, count } => SheetErrorView::IndexOutOfRange {
                index: index@,
                count: *count as nat,
            },
            SheetError::NotFound { identifier, available } => SheetErrorView::NotFound {
                identifier: identifier@,
                available: available.deep_view(),
            },
        }
    }
}

/// The message for an index outside the workbook: it names the index and the
/// range of valid ones.
pub open spec fn out_of_range_text(index: Seq<char>, count: nat) -> Seq<char> {
    if count == 0 {
        "Sheet index "@ + index + " out of range. No sheets available"@
    } else {
        "Sheet index "@ + index + " out of range. Available sheets: 0-"@ + decimal_text(
            (count - 1) as nat,
        )
    }
}

/// The message for a name that no sheet has, given the list of the names
/// that there are.
pub open spec fn not_found_text(identifier: Seq<char>, listed: Seq<char>) -> Seq<char> {
    "Sheet '"@ + identifier + "' not found. Available sheets: "@ + listed
}

impl SheetErrorView {
    /// The message that reports the error.
    pub open spec fn message(self) -> Seq<char> {
        match self {
            SheetErrorView::IndexOutOfRange { index, count } => out_of_range_text(index, count),
            SheetErrorView::NotFound { identifier, available } => not_found_text(
                identifier,
                debug_list_text(available),
            ),
        }
    }
}

/// What an identifier resolves to among the sheet names `names`.
///
/// A numeral is an index and nothing else: it resolves to the name at that
/// position, or fails. Any other text resolves to itself if a sheet has it
/// as its name.
pub open spec fn resolve_sheet(names: Seq<Seq<char>>, identifier: Seq<char>) -> Result<
    Seq<char>,
    SheetErrorView,
> {
    if is_numeral(identifier) {
        let index = numeral_value(identifier);
        if index < names.len() {
            Ok(names[index as int])
        } else {
            Err(
                SheetErrorView::IndexOutOfRange {
                    index: decimal_text(index),
                    count: names.len(),
                },
            )
        }
    } else if names.contains(identifier) {
        Ok(identifier)
    } else {
        Err(SheetErrorView::NotFound { identifier, available: names })
    }
}

/// The message for an index outside a workbook of `count` sheets.
pub fn out_of_range_message(index: &str, count: usize) -> (s: String)
    ensures
        s@ == out_of_range_text(index@, count as nat),
{
    let mut s = String::from_str("Sheet index ");
    s.append(index);
    if count == 0 {
        s.append(" out of range. No sheets available");
    } else {
        s.append(" out of range. Available sheets: 0-");
        let last = u64_to_string((count - 1) as u64);
        s.append(last.as_str());
    }
    s
}

/// The message for a name that no sheet has; `listed` is the list of the
/// names that there are.
pub fn not_found_message(identifier: &str, listed: &str) -> (s: String)
    ensures
        s@ == not_found_text(identifier@, listed@),
{
    let mut s = String::from_str("Sheet '");
    s.append(identifier);
    s.append("' not found. Available sheets: ");
    s.append(listed);
    s
}

impl SheetError {
    /// The message that reports the error.
    pub fn message(&self) -> (s: String)
        ensures
            s@ == self@.message(),
    {
        match self {
            SheetError::IndexOutOfRange { index, count } => out_of_range_message(
                index.as_str(),
                *count,
            ),
            SheetError::NotFound { identifier, available } => {
                let listed = debug_list(available);
                not_found_message(identifier.as_str(), listed.as_str())
            },
        }
    }
}

fn has_name(names: &Vec<String>, wanted: &String) -> (found: bool)
    ensures
        found == names.deep_view().contains(wanted@),
{
    let mut i: usize = 0;
    while i < names.len()
        invariant
            i <= names.len(),
            forall|k: int| 0 <= k < i ==> names.deep_view()[k] != wanted@,
        decreases names.len() - i,
    {
        if names[i] == *wanted {
            assert(names.deep_view()[i as int] == wanted@);
            return true;
        }
        i += 1;
    }
    false
}

/// Resolves `identifier` to the name of a sheet of `workbook`.
///
/// A numeral is taken as a zero-based index, never as a name; any other
/// text is taken as a name, compared exactly.
pub fn get_sheet_name(workbook: &Workbook, identifier: &str) -> (r: Result<String, SheetError>)
    ensures
        match r {
            Ok(name) => resolve_sheet(workbook.names(), identifier@) == Ok::<
                Seq<char>,
                SheetErrorView,
            >(name@),
            Err(e) => resolve_sheet(workbook.names(), identifier@) == Err::<
                Seq<char>,
                SheetErrorView,
            >(e@),
        },
{
    let names = workbook.sheet_names();
    match parse_numeral(identifier) {
        Some(numeral) => {
            match numeral.value {
                Some(index) => {
                    if index < names.len() {
                        return Ok(names[index].clone());
                    }
                },
                None => {},
            }
            Err(SheetError::IndexOutOfRange { index: numeral.digits, count: names.len() })
        },
        None => {
            let wanted = String::from_str(identifier);
            if has_name(&names, &wanted) {
                Ok(wanted)
            } else {
                Err(SheetError::NotFound { identifier: wanted, available: names })
            }
        },
    }
}

/// The decimal text of a valid index resolves to the name at that index.
pub proof fn law_index_resolves(names: Seq<Seq<char>>, index: nat)
    requires
        index < names.len(),
    ensures
        resolve_sheet(names, decimal_text(index)) == Ok::<Seq<char>, SheetErrorView>(
            names[index as int],
        ),
{
    lemma_numeral_of_text(index);
}

/// A numeral is never taken as a name: whether it resolves, and to what,
/// depends on the number alone.
pub proof fn law_numeral_is_index(names: Seq<Seq<char>>, identifier: Seq<char>)
    requires
        is_numeral(identifier),
    ensures
        resolve_sheet(names, identifier) is Ok <==> numeral_value(identifier) < names.len(),
        resolve_sheet(names, identifier) is Ok ==> resolve_sheet(names, identifier)
            == Ok::<Seq<char>, SheetErrorView>(names[numeral_value(identifier) as int]),
{
}

/// A numeral at or beyond the number of sheets fails as an index out of
/// range, whatever the sheets are called.
pub proof fn law_index_out_of_range(names: Seq<Seq<char>>, identifier: Seq<char>)
    requires
        is_numeral(identifier),
        numeral_value(identifier) >= names.len(),
    ensures
        resolve_sheet(names, identifier) == Err::<Seq<char>, SheetErrorView>(
            SheetErrorView::IndexOutOfRange {
                index: decimal_text(numeral_value(identifier)),
                count: names.len(),
            },
        ),
{
}

/// The name of a sheet resolves to itself, unless the name is a numeral:
/// then it does so only where it stands at the index it spells.
pub proof fn law_name_resolves(names: Seq<Seq<char>>, name: Seq<char>)
    requires
        names.contains(name),
        is_numeral(name) ==> numeral_value(name) < names.len() && names[numeral_value(
            name,
        ) as int] == name,
    ensures
        resolve_sheet(names, name) == Ok::<Seq<char>, SheetErrorView>(name),
{
}

/// A text that is neither a numeral nor the name of a sheet fails as not
/// found, and the error lists the names that there are.
pub proof fn law_unknown_name(names: Seq<Seq<char>>, identifier: Seq<char>)
    requires
        !is_numeral(identifier),
        !names.contains(identifier),
    ensures
        resolve_sheet(names, identifier) == Err::<Seq<char>, SheetErrorView>(
            SheetErrorView::NotFound { identifier, available: names },
        ),
{
}

} // verus!
