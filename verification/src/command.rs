//! The commands of the tool and what each of them reports.

use crate::resolve::{SheetError, SheetErrorView};
use crate::search::{search_in_sheet, search_result};
use crate::show::{list_sheets, sheet_list, show_result, show_sheet};
use crate::workbook::Workbook;
use vstd::prelude::*;
use vstd::string::*;

verus! {

/// The number of rows that are shown where nothing else is asked for.
pub const DEFAULT_ROWS: usize = 10;

/// One query on an open workbook.
#[derive(Clone, Debug, PartialEq, Eq)]
pub enum Command {
    /// List the sheets.
    Sheets,
    /// Show the first rows of a sheet.
    Show {
        /// The sheet: its zero-based index, or its name.
        sheet: String,
        /// The number of rows to show; zero for all.
        rows: usize,
    },
    /// Search a sheet and show the rows that match.
    Search {
        /// The text to search for.
        value: String,
        /// The sheet: its zero-based index, or its name.
        sheet: String,
        /// Whether upper and lower case differ.
        case_sensitive: bool,
    },
}

/// The outcome of a command: the error of resolving its sheet, or the lines
/// to print. No command at all shows the first ten rows of the first sheet.
pub open spec fn run_result(workbook: Workbook, command: Option<Command>) -> Result<
    Seq<Seq<char>>,
    SheetErrorView,
> {
    match command {
        None => show_result(workbook, "0"@, DEFAULT_ROWS as nat),
        Some(Command::Sheets) => Ok(sheet_list(workbook.names())),
        Some(Command::Show { sheet, rows }) => show_result(workbook, sheet@, rows as nat),
        Some(Command::Search { value, sheet, case_sensitive }) => search_result(
            workbook,
            sheet@,
            value@,
            case_sensitive,
        ),
    }
}

/// Runs `command` on `workbook`; without a command, shows the first ten rows
/// of the first sheet.
pub fn run(workbook: &Workbook, command: &Option<Command>) -> (r: Result<Vec<String>, SheetError>)
    ensures
        match r {
            Ok(lines) => run_result(*workbook, *command) == Ok::<Seq<Seq<char>>, SheetErrorView>(
                lines.deep_view(),
            ),
            Err(e) => run_result(*workbook, *command) == Err::<Seq<Seq<char>>, SheetErrorView>(e@),
        },
{
    match command {
        None => show_sheet(workbook, "0", DEFAULT_ROWS),
        Some(Command::Sheets) => Ok(list_sheets(workbook)),
        Some(Command::Show { sheet, rows }) => show_sheet(workbook, sheet.as_str(), *rows),
        Some(Command::Search { value, sheet, case_sensitive }) => search_in_sheet(
            workbook,
            sheet.as_str(),
            value.as_str(),
            *case_sensitive,
        ),
    }
}

} // verus!
