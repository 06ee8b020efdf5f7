//! Listing the sheets of a workbook and showing the first rows of a sheet.

use crate::decimal::{decimal_text, u64_to_string};
use crate::resolve::{get_sheet_name, resolve_sheet, SheetError, SheetErrorView};
use crate::text::{join, joined, push_text};
use crate::workbook::{Grid, Workbook};
use vstd::prelude::*;
use vstd::string::*;

verus! {

/// The line that lists the sheet at `index`.
pub open spec fn sheet_entry(index: nat, name: Seq<char>) -> Seq<char> {
    "  "@ + decimal_text(index) + ": "@ + name
}

/// The listing of the sheets: a heading, then one line per sheet with its
/// zero-based index and its name, in file order.
pub open spec fn sheet_list(names: Seq<Seq<char>>) -> Seq<Seq<char>> {
    seq!["Available sheets:"@] + Seq::new(names.len(), |i: int| sheet_entry(i as nat, names[i]))
}

/// How many rows are shown of `height`, with `max_rows` as the limit and
/// zero for no limit.
pub open spec fn shown_rows(height: nat, max_rows: nat) -> nat {
    if max_rows == 0 || max_rows > height {
        height
    } else {
        max_rows
    }
}

/// The line of one row: its number, counted from one, and its cells.
pub open spec fn row_line(number: nat, cells: Seq<Seq<char>>) -> Seq<char> {
    "Row "@ + decimal_text(number) + ": "@ + joined(cells, " | "@)
}

/// The lines of the first `count` rows.
pub open spec fn row_lines(texts: Seq<Seq<Seq<char>>>, count: nat) -> Seq<Seq<char>> {
    Seq::new(count, |r: int| row_line((r + 1) as nat, texts[r]))
}

/// The lines before the rows: the sheet's name, its dimensions, a blank line.
pub open spec fn sheet_heading(name: Seq<char>, height: nat, width: nat) -> Seq<Seq<char>> {
    seq![
        "Sheet: "@ + name,
        "Dimensions: "@ + decimal_text(height) + " rows x "@ + decimal_text(width) + " columns"@,
        Seq::empty(),
    ]
}

/// The lines after the rows: nothing where every row was shown, else a blank
/// line and the number of rows left out.
pub open spec fn omitted_note(omitted: nat) -> Seq<Seq<char>> {
    if omitted == 0 {
        Seq::empty()
    } else {
        seq![Seq::empty(), "... and "@ + decimal_text(omitted) + " more rows"@]
    }
}

/// What is shown of a sheet whose cells have the texts `texts`.
pub open spec fn sheet_lines(
    name: Seq<char>,
    texts: Seq<Seq<Seq<char>>>,
    width: nat,
    max_rows: nat,
) -> Seq<Seq<char>> {
    let shown = shown_rows(texts.len(), max_rows);
    sheet_heading(name, texts.len(), width) + row_lines(texts, shown) + omitted_note(
        (texts.len() - shown) as nat,
    )
}

/// What is reported of a sheet whose cells could not be read.
pub open spec fn unreadable_lines(name: Seq<char>) -> Seq<Seq<char>> {
    seq!["Could not read sheet: "@ + name]
}

/// What is reported of the sheet called `name`, whether or not its cells
/// could be read.
pub open spec fn shown_of(workbook: Workbook, name: Seq<char>, max_rows: nat) -> Seq<Seq<char>> {
    match workbook.grid_named(name) {
        Some(grid) => sheet_lines(name, grid.texts(), grid.spec_width(), max_rows),
        None => unreadable_lines(name),
    }
}

/// The outcome of showing the sheet that `identifier` names: the error of
/// the resolution, or the lines to print.
pub open spec fn show_result(workbook: Workbook, identifier: Seq<char>, max_rows: nat) -> Result<
    Seq<Seq<char>>,
    SheetErrorView,
> {
    match resolve_sheet(workbook.names(), identifier) {
        Ok(name) => Ok(shown_of(workbook, name, max_rows)),
        Err(e) => Err(e),
    }
}

/// The listing of the sheets of `workbook`, line by line.
pub fn list_sheets(workbook: &Workbook) -> (lines: Vec<String>)
    ensures
        lines.deep_view() == sheet_list(workbook.names()),
{
    let names = workbook.sheet_names();
    let mut lines: Vec<String> = Vec::new();
    push_text(&mut lines, String::from_str("Available sheets:"));
    let mut i: usize = 0;
    while i < names.len()
        invariant
            i <= names.len(),
            names.deep_view() == workbook.names(),
            lines.deep_view() == sheet_list(workbook.names()).take(i + 1),
        decreases names.len() - i,
    {
        let mut line = String::from_str("  ");
        line.append(u64_to_string(i as u64).as_str());
        line.append(": ");
        line.append(names[i].as_str());
        push_text(&mut lines, line);
        i += 1;
    }
    lines
}

/// The one line that reports a sheet whose cells could not be read.
pub fn unreadable_sheet(name: &str) -> (lines: Vec<String>)
    ensures
        lines.deep_view() == unreadable_lines(name@),
{
    let mut lines: Vec<String> = Vec::new();
    let mut line = String::from_str("Could not read sheet: ");
    line.append(name);
    push_text(&mut lines, line);
    lines
}

/// Shows the first rows of `grid`, the grid of the sheet called `name`: at
/// most `max_rows` of them, or all where `max_rows` is zero.
pub fn show_grid(name: &str, grid: &Grid, max_rows: usize) -> (lines: Vec<String>)
    ensures
        lines.deep_view() == sheet_lines(
            name@,
            grid.texts(),
            grid.spec_width(),
            max_rows as nat,
        ),
{
    let texts = grid.format_rows();
    let height = texts.len();
    let width = grid.width();
    let shown = if max_rows == 0 || max_rows > height {
        height
    } else {
        max_rows
    };
    let ghost heading = sheet_heading(name@, height as nat, width as nat);
    let mut lines: Vec<String> = Vec::new();
    let mut title = String::from_str("Sheet: ");
    title.append(name);
    push_text(&mut lines, title);
    let mut dimensions = String::from_str("Dimensions: ");
    dimensions.append(u64_to_string(height as u64).as_str());
    dimensions.append(" rows x ");
    dimensions.append(u64_to_string(width as u64).as_str());
    dimensions.append(" columns");
    push_text(&mut lines, dimensions);
    push_text(&mut lines, String::new());
    let mut r: usize = 0;
    while r < shown
        invariant
            r <= shown <= height,
            height == texts.len(),
            texts.deep_view() == grid.texts(),
            lines.deep_view() == heading + row_lines(grid.texts(), r as nat),
        decreases shown - r,
    {
        let mut line = String::from_str("Row ");
        line.append(u64_to_string((r + 1) as u64).as_str());
        line.append(": ");
        line.append(join(&texts[r], " | ").as_str());
        push_text(&mut lines, line);
        r += 1;
    }
    if shown < height {
        push_text(&mut lines, String::new());
        let mut note = String::from_str("... and ");
        note.append(u64_to_string((height - shown) as u64).as_str());
        note.append(" more rows");
        push_text(&mut lines, note);
    }
    lines
}

/// Shows the sheet that `identifier` names.
///
/// An identifier that names no sheet is an error. A sheet whose cells could
/// not be read is none: the lines then say so.
pub fn show_sheet(workbook: &Workbook, sheet_identifier: &str, max_rows: usize) -> (r: Result<
    Vec<String>,
    SheetError,
>)
    ensures
        match r {
            Ok(lines) => show_result(*workbook, sheet_identifier@, max_rows as nat) == Ok::<
                Seq<Seq<char>>,
                SheetErrorView,
            >(lines.deep_view()),
            Err(e) => show_result(*workbook, sheet_identifier@, max_rows as nat) == Err::<
                Seq<Seq<char>>,
                SheetErrorView,
            >(e@),
        },
{
    match get_sheet_name(workbook, sheet_identifier) {
        Err(e) => Err(e),
        Ok(name) => {
            match workbook.worksheet_range(name.as_str()) {
                Some(grid) => Ok(show_grid(name.as_str(), grid, max_rows)),
                None => Ok(unreadable_sheet(name.as_str())),
            }
        },
    }
}

/// Showing a sheet fails only where the sheet does not resolve. A sheet
/// that resolves and whose cells could not be read is reported in one line,
/// not as an error.
pub proof fn law_show_fails_only_in_resolution(
    workbook: Workbook,
    identifier: Seq<char>,
    max_rows: nat,
)
    ensures
        show_result(workbook, identifier, max_rows) is Ok <==> resolve_sheet(
            workbook.names(),
            identifier,
        ) is Ok,
        resolve_sheet(workbook.names(), identifier) matches Ok(name) ==> (workbook.grid_named(
            name,
        ) is None ==> show_result(workbook, identifier, max_rows) == Ok::<Seq<Seq<char>>, SheetErrorView>(
            unreadable_lines(name),
        )),
{
}

/// Without a limit every row is shown, and nothing is said of rows left
/// out: after the heading come the lines of all the rows and no more.
pub proof fn law_no_limit_shows_all(name: Seq<char>, texts: Seq<Seq<Seq<char>>>, width: nat)
    ensures
        sheet_lines(name, texts, width, 0) == sheet_heading(name, texts.len(), width) + row_lines(
            texts,
            texts.len(),
        ),
        sheet_lines(name, texts, width, 0).len() == 3 + texts.len(),
{
    let rows = sheet_heading(name, texts.len(), width) + row_lines(texts, texts.len());
}

/// With a limit below the number of rows exactly that many rows are shown,
/// and the last line says how many were left out.
pub proof fn law_limit_cuts_rows(
    name: Seq<char>,
    texts: Seq<Seq<Seq<char>>>,
    width: nat,
    max_rows: nat,
)
    requires
        0 < max_rows < texts.len(),
    ensures
        sheet_lines(name, texts, width, max_rows) == sheet_heading(name, texts.len(), width)
            + row_lines(texts, max_rows) + seq![
            Seq::empty(),
            "... and "@ + decimal_text((texts.len() - max_rows) as nat) + " more rows"@,
        ],
        sheet_lines(name, texts, width, max_rows).len() == 3 + max_rows + 2,
{
}

/// With a limit at or above the number of rows every row is shown, as
/// without a limit.
pub proof fn law_limit_beyond_rows(
    name: Seq<char>,
    texts: Seq<Seq<Seq<char>>>,
    width: nat,
    max_rows: nat,
)
    requires
        max_rows >= texts.len(),
    ensures
        sheet_lines(name, texts, width, max_rows) == sheet_lines(name, texts, width, 0),
{
}

} // verus!
