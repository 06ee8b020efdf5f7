//! Searching the cells of a sheet for a text.

use crate::decimal::{decimal_text, u64_to_string};
use crate::resolve::{get_sheet_name, resolve_sheet, SheetError, SheetErrorView};
use crate::show::{unreadable_lines, unreadable_sheet};
use crate::text::{
    chars_of, contains_chars, contains_text, join, joined, lowercase_text, push_text, to_lowercase,
};
use crate::workbook::{Grid, Workbook};
use vstd::prelude::*;
use vstd::string::*;

verus! {

/// A text as it is compared: unchanged where case counts, else in lowercase.
pub open spec fn folded(text: Seq<char>, case_sensitive: bool) -> Seq<char> {
    if case_sensitive {
        text
    } else {
        lowercase_text(text)
    }
}

/// The cell text `text` contains `needle`, the query as it is compared.
pub open spec fn cell_matches(text: Seq<char>, needle: Seq<char>, case_sensitive: bool) -> bool {
    contains_text(folded(text, case_sensitive), needle)
}

/// Some cell of the row matches.
pub open spec fn row_matches(cells: Seq<Seq<char>>, needle: Seq<char>, case_sensitive: bool) -> bool {
    exists|c: int| 0 <= c < cells.len() && cell_matches(#[trigger] cells[c], needle, case_sensitive)
}

/// The number of matching rows among the first `upto`.
pub open spec fn matches_before(
    texts: Seq<Seq<Seq<char>>>,
    needle: Seq<char>,
    case_sensitive: bool,
    upto: nat,
) -> nat
    decreases upto,
{
    if upto == 0 {
        0
    } else if row_matches(texts[upto - 1], needle, case_sensitive) {
        matches_before(texts, needle, case_sensitive, (upto - 1) as nat) + 1
    } else {
        matches_before(texts, needle, case_sensitive, (upto - 1) as nat)
    }
}

/// The indices of the rows that match.
pub open spec fn matching_rows(
    texts: Seq<Seq<Seq<char>>>,
    needle: Seq<char>,
    case_sensitive: bool,
) -> Set<int> {
    Set::new(|r: int| 0 <= r < texts.len() && row_matches(texts[r], needle, case_sensitive))
}

/// A cell as it is printed in a matching row: between highlight markers
/// where the cell itself matches, plain where it does not.
pub open spec fn marked(text: Seq<char>, needle: Seq<char>, case_sensitive: bool) -> Seq<char> {
    if cell_matches(text, needle, case_sensitive) {
        "***"@ + text + "***"@
    } else {
        text
    }
}

/// The cells of a matching row as they are printed.
pub open spec fn marked_cells(
    cells: Seq<Seq<char>>,
    needle: Seq<char>,
    case_sensitive: bool,
) -> Seq<Seq<char>> {
    Seq::new(cells.len(), |c: int| marked(cells[c], needle, case_sensitive))
}

/// The three lines of one match: its ordinal and row number, both counted
/// from one; the cells of the row; a blank line.
pub open spec fn match_block(
    ordinal: nat,
    row_number: nat,
    cells: Seq<Seq<char>>,
    needle: Seq<char>,
    case_sensitive: bool,
) -> Seq<Seq<char>> {
    seq![
        "Match "@ + decimal_text(ordinal) + " - Row "@ + decimal_text(row_number) + ": "@,
        joined(marked_cells(cells, needle, case_sensitive), " | "@),
        Seq::empty(),
    ]
}

/// The blocks of the matches among the first `upto` rows, in row order.
pub open spec fn match_blocks(
    texts: Seq<Seq<Seq<char>>>,
    needle: Seq<char>,
    case_sensitive: bool,
    upto: nat,
) -> Seq<Seq<char>>
    decreases upto,
{
    if upto == 0 {
        Seq::empty()
    } else {
        let before = match_blocks(texts, needle, case_sensitive, (upto - 1) as nat);
        if row_matches(texts[upto - 1], needle, case_sensitive) {
            before + match_block(
                matches_before(texts, needle, case_sensitive, upto),
                upto,
                texts[upto - 1],
                needle,
                case_sensitive,
            )
        } else {
            before
        }
    }
}

/// The lines before the matches: what is searched for and where, a blank
/// line.
pub open spec fn search_heading(name: Seq<char>, query: Seq<char>) -> Seq<Seq<char>> {
    seq!["Searching for '"@ + query + "' in sheet: "@ + name, Seq::empty()]
}

/// The last line: the number of matching rows, or that there are none.
pub open spec fn search_summary(query: Seq<char>, count: nat) -> Seq<char> {
    if count == 0 {
        "No matches found for '"@ + query + "'"@
    } else {
        "Found "@ + decimal_text(count) + " matching row(s)"@
    }
}

/// What a search reports of a sheet whose cells have the texts `texts`.
pub open spec fn search_lines(
    name: Seq<char>,
    query: Seq<char>,
    texts: Seq<Seq<Seq<char>>>,
    case_sensitive: bool,
) -> Seq<Seq<char>> {
    let needle = folded(query, case_sensitive);
    search_heading(name, query) + match_blocks(texts, needle, case_sensitive, texts.len()).push(
        search_summary(query, matches_before(texts, needle, case_sensitive, texts.len())),
    )
}

/// What a search reports of the sheet called `name`, whether or not its
/// cells could be read.
pub open spec fn searched_of(
    workbook: Workbook,
    name: Seq<char>,
    query: Seq<char>,
    case_sensitive: bool,
) -> Seq<Seq<char>> {
    match workbook.grid_named(name) {
        Some(grid) => search_lines(name, query, grid.texts(), case_sensitive),
        None => unreadable_lines(name),
    }
}

/// The outcome of searching the sheet that `identifier` names: the error of
/// the resolution, or the lines to print.
pub open spec fn search_result(
    workbook: Workbook,
    identifier: Seq<char>,
    query: Seq<char>,
    case_sensitive: bool,
) -> Result<Seq<Seq<char>>, SheetErrorView> {
    match resolve_sheet(workbook.names(), identifier) {
        Ok(name) => Ok(searched_of(workbook, name, query, case_sensitive)),
        Err(e) => Err(e),
    }
}

/// The text as it is compared: unchanged where case counts, else in
/// lowercase.
pub fn fold(text: &str, case_sensitive: bool) -> (s: String)
    ensures
        s@ == folded(text@, case_sensitive),
{
    if case_sensitive {
        String::from_str(text)
    } else {
        to_lowercase(text)
    }
}

/// Looks through one row: whether any cell matches, and the cells as they
/// are printed if one does.
fn scan_row(cells: &Vec<String>, needle: &Vec<char>, case_sensitive: bool) -> (r: (
    bool,
    Vec<String>,
))
    ensures
        r.0 == row_matches(cells.deep_view(), needle@, case_sensitive),
        r.1.deep_view() == marked_cells(cells.deep_view(), needle@, case_sensitive),
{
    let ghost texts = cells.deep_view();
    let mut any = false;
    let mut shown: Vec<String> = Vec::new();
    let mut c: usize = 0;
    while c < cells.len()
        invariant
            c <= cells.len(),
            texts == cells.deep_view(),
            any == row_matches(texts.take(c as int), needle@, case_sensitive),
            shown.deep_view() == marked_cells(texts, needle@, case_sensitive).take(c as int),
        decreases cells.len() - c,
    {
        let text = &cells[c];
        let compared = chars_of(fold(text.as_str(), case_sensitive).as_str());
        let hit = contains_chars(&compared, needle);
        let cell = if hit {
            let mut s = String::from_str("***");
            s.append(text.as_str());
            s.append("***");
            s
        } else {
            text.clone()
        };
        push_text(&mut shown, cell);
        proof {
            let before = texts.take(c as int);
            let after = texts.take(c + 1);
            assert(after[c as int] == texts[c as int]);
            if row_matches(before, needle@, case_sensitive) {
                let k = choose|k: int|
                    0 <= k < before.len() && cell_matches(
                        #[trigger] before[k],
                        needle@,
                        case_sensitive,
                    );
                assert(after[k] == before[k]);
            }
            if row_matches(after, needle@, case_sensitive) && !hit {
                let k = choose|k: int|
                    0 <= k < after.len() && cell_matches(
                        #[trigger] after[k],
                        needle@,
                        case_sensitive,
                    );
                assert(before[k] == after[k]);
            }
        }
        any = any || hit;
        c += 1;
    }
    assert(texts.take(c as int) =~= texts);
    assert(marked_cells(texts, needle@, case_sensitive).take(c as int) =~= marked_cells(
        texts,
        needle@,
        case_sensitive,
    ));
    (any, shown)
}

/// Searches `grid`, the grid of the sheet called `name`, for `query`.
///
/// A row matches where the text of one of its cells contains the query;
/// without `case_sensitive` both are compared in lowercase.
pub fn search_grid(name: &str, grid: &Grid, query: &str, case_sensitive: bool) -> (lines: Vec<
    String,
>)
    ensures
        lines.deep_view() == search_lines(name@, query@, grid.texts(), case_sensitive),
{
    let texts = grid.format_rows();
    let needle = chars_of(fold(query, case_sensitive).as_str());
    let ghost heading = search_heading(name@, query@);
    let mut lines: Vec<String> = Vec::new();
    let mut title = String::from_str("Searching for '");
    title.append(query);
    title.append("' in sheet: ");
    title.append(name);
    push_text(&mut lines, title);
    push_text(&mut lines, String::new());
    let mut found: usize = 0;
    let mut r: usize = 0;
    while r < texts.len()
        invariant
            r <= texts.len(),
            found <= r,
            texts.deep_view() == grid.texts(),
            needle@ == folded(query@, case_sensitive),
            found == matches_before(grid.texts(), needle@, case_sensitive, r as nat),
            lines.deep_view() == heading + match_blocks(
                grid.texts(),
                needle@,
                case_sensitive,
                r as nat,
            ),
        decreases texts.len() - r,
    {
        let (any, shown) = scan_row(&texts[r], &needle, case_sensitive);
        if any {
            found += 1;
            let ghost before = lines.deep_view();
            let mut line = String::from_str("Match ");
            line.append(u64_to_string(found as u64).as_str());
            line.append(" - Row ");
            line.append(u64_to_string((r + 1) as u64).as_str());
            line.append(": ");
            push_text(&mut lines, line);
            push_text(&mut lines, join(&shown, " | "));
            push_text(&mut lines, String::new());
            assert(lines.deep_view() =~= before + match_block(
                found as nat,
                (r + 1) as nat,
                grid.texts()[r as int],
                needle@,
                case_sensitive,
            ));
        }
        r += 1;
    }
    let mut summary: String;
    if found == 0 {
        summary = String::from_str("No matches found for '");
        summary.append(query);
        summary.append("'");
    } else {
        summary = String::from_str("Found ");
        summary.append(u64_to_string(found as u64).as_str());
        summary.append(" matching row(s)");
    }
    push_text(&mut lines, summary);
    lines
}

/// Searches the sheet that `identifier` names for `search_value`.
///
/// An identifier that names no sheet is an error. A sheet whose cells could
/// not be read is none: the lines then say so. A search without matches is
/// no error either.
pub fn search_in_sheet(
    workbook: &Workbook,
    sheet_identifier: &str,
    search_value: &str,
    case_sensitive: bool,
) -> (r: Result<Vec<String>, SheetError>)
    ensures
        match r {
            Ok(lines) => search_result(*workbook, sheet_identifier@, search_value@, case_sensitive)
                == Ok::<Seq<Seq<char>>, SheetErrorView>(lines.deep_view()),
            Err(e) => search_result(*workbook, sheet_identifier@, search_value@, case_sensitive)
                == Err::<Seq<Seq<char>>, SheetErrorView>(e@),
        },
{
    match get_sheet_name(workbook, sheet_identifier) {
        Err(e) => Err(e),
        Ok(name) => {
            match workbook.worksheet_range(name.as_str()) {
                Some(grid) => Ok(search_grid(name.as_str(), grid, search_value, case_sensitive)),
                None => Ok(unreadable_sheet(name.as_str())),
            }
        },
    }
}

/// The rows among the first `upto` that match, as a set of indices.
spec fn matching_before(
    texts: Seq<Seq<Seq<char>>>,
    needle: Seq<char>,
    case_sensitive: bool,
    upto: nat,
) -> Set<int> {
    Set::new(|r: int| 0 <= r < upto && row_matches(texts[r], needle, case_sensitive))
}

proof fn lemma_count_before(
    texts: Seq<Seq<Seq<char>>>,
    needle: Seq<char>,
    case_sensitive: bool,
    upto: nat,
)
    ensures
        matching_before(texts, needle, case_sensitive, upto).finite(),
        matching_before(texts, needle, case_sensitive, upto).len() == matches_before(
            texts,
            needle,
            case_sensitive,
            upto,
        ),
        matches_before(texts, needle, case_sensitive, upto) <= upto,
        match_blocks(texts, needle, case_sensitive, upto).len() == 3 * matches_before(
            texts,
            needle,
            case_sensitive,
            upto,
        ),
    decreases upto,
{
    let now = matching_before(texts, needle, case_sensitive, upto);
    if upto == 0 {
        assert(now =~= Set::empty());
    } else {
        let earlier = matching_before(texts, needle, case_sensitive, (upto - 1) as nat);
        lemma_count_before(texts, needle, case_sensitive, (upto - 1) as nat);
        if row_matches(texts[upto - 1], needle, case_sensitive) {
            assert(now =~= earlier.insert(upto - 1));
        } else {
            assert(now =~= earlier);
        }
    }
}

/// The count in the last line is the number of rows of which some cell
/// contains the query, under the case policy of the search. With no such
/// row the report is the heading and the line that says so.
pub proof fn law_search_counts_matching_rows(
    name: Seq<char>,
    query: Seq<char>,
    texts: Seq<Seq<Seq<char>>>,
    case_sensitive: bool,
)
    ensures
        ({
            let rows = matching_rows(texts, folded(query, case_sensitive), case_sensitive);
            let lines = search_lines(name, query, texts, case_sensitive);
            &&& rows.finite()
            &&& lines.len() == 2 + 3 * rows.len() + 1
            &&& lines.last() == search_summary(query, rows.len())
            &&& rows.len() == 0 ==> lines == search_heading(name, query).push(
                "No matches found for '"@ + query + "'"@,
            )
        }),
{
    let needle = folded(query, case_sensitive);
    lemma_count_before(texts, needle, case_sensitive, texts.len());
    assert(matching_rows(texts, needle, case_sensitive) =~= matching_before(
        texts,
        needle,
        case_sensitive,
        texts.len(),
    ));
    if matches_before(texts, needle, case_sensitive, texts.len()) == 0 {
        assert(search_lines(name, query, texts, case_sensitive) =~= search_heading(name, query).push(
            "No matches found for '"@ + query + "'"@,
        ));
    }
}

/// A search fails only where its sheet does not resolve. Once it resolves,
/// a sheet without matches and a sheet whose cells could not be read are
/// both reported in the lines, not as an error.
pub proof fn law_search_fails_only_in_resolution(
    workbook: Workbook,
    identifier: Seq<char>,
    query: Seq<char>,
    case_sensitive: bool,
)
    ensures
        search_result(workbook, identifier, query, case_sensitive) is Ok <==> resolve_sheet(
            workbook.names(),
            identifier,
        ) is Ok,
        resolve_sheet(workbook.names(), identifier) matches Ok(name) ==> (workbook.grid_named(
            name,
        ) is None ==> search_result(workbook, identifier, query, case_sensitive) == Ok::<
            Seq<Seq<char>>,
            SheetErrorView,
        >(unreadable_lines(name))),
{
}

/// A search where case counts compares the texts as they are: a row matches
/// exactly where one of its cells contains the query itself.
pub proof fn law_case_sensitive_is_verbatim(cells: Seq<Seq<char>>, query: Seq<char>)
    ensures
        row_matches(cells, folded(query, true), true) <==> exists|c: int|
            0 <= c < cells.len() && contains_text(#[trigger] cells[c], query),
{
    if row_matches(cells, query, true) {
        let c = choose|c: int| 0 <= c < cells.len() && cell_matches(#[trigger] cells[c], query, true);
        assert(contains_text(cells[c], query));
    }
    if exists|c: int| 0 <= c < cells.len() && contains_text(#[trigger] cells[c], query) {
        let c = choose|c: int| 0 <= c < cells.len() && contains_text(#[trigger] cells[c], query);
        assert(cell_matches(cells[c], query, true));
    }
}

} // verus!
