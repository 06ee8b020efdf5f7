//! The decoded workbook: sheets in file order, each with its grid of cells.

use crate::cell::{format_cell, Cell};
use crate::text::push_text;
use vstd::prelude::*;
use vstd::string::*;

verus! {

/// Every row has as many cells as the first one.
pub open spec fn rectangular(rows: Seq<Seq<Cell>>) -> bool {
    forall|r: int| 0 <= r < rows.len() ==> (#[trigger] rows[r]).len() == rows[0].len()
}

/// The rows of `rows` as sequences.
pub open spec fn rows_view(rows: Seq<Vec<Cell>>) -> Seq<Seq<Cell>> {
    Seq::new(rows.len(), |r: int| rows[r]@)
}

/// The display text of every cell of a row.
pub open spec fn row_texts(cells: Seq<Cell>) -> Seq<Seq<char>> {
    Seq::new(cells.len(), |c: int| cells[c].text())
}

/// The display text of every cell, row by row.
pub open spec fn texts_of(rows: Seq<Seq<Cell>>) -> Seq<Seq<Seq<char>>> {
    Seq::new(rows.len(), |r: int| row_texts(rows[r]))
}

/// The display text of every cell of a row.
pub fn format_row(cells: &Vec<Cell>) -> (texts: Vec<String>)
    ensures
        texts.deep_view() == row_texts(cells@),
{
    let mut texts: Vec<String> = Vec::new();
    let mut c: usize = 0;
    while c < cells.len()
        invariant
            c <= cells.len(),
            texts.deep_view() == row_texts(cells@).take(c as int),
        decreases cells.len() - c,
    {
        push_text(&mut texts, format_cell(&cells[c]));
        c += 1;
    }
    texts
}

/// A rectangular grid of cells: rows in order, each with the same number of
/// cells.
#[derive(Debug, PartialEq, Eq)]
pub struct Grid {
    rows: Vec<Vec<Cell>>,
}

impl View for Grid {
    type V = Seq<Seq<Cell>>;

    closed spec fn view(&self) -> Seq<Seq<Cell>> {
        rows_view(self.rows@)
    }
}

impl Grid {
    #[verifier::type_invariant]
    spec fn well_formed(&self) -> bool {
        rectangular(rows_view(self.rows@))
    }

    /// The number of rows.
    pub open spec fn spec_height(&self) -> nat {
        self@.len()
    }

    /// The number of cells in each row; zero for a grid without rows.
    pub open spec fn spec_width(&self) -> nat {
        if self@.len() == 0 {
            0
        } else {
            self@[0].len()
        }
    }

    /// The display text of every cell, row by row.
    pub open spec fn texts(&self) -> Seq<Seq<Seq<char>>> {
        texts_of(self@)
    }

    /// Makes a grid of the given rows, if they all have the same length.
    pub fn new(rows: Vec<Vec<Cell>>) -> (grid: Option<Grid>)
        ensures
            grid is Some <==> rectangular(rows_view(rows@)),
            grid matches Some(g) ==> g@ == rows_view(rows@),
    {
        let mut r: usize = 0;
        while r < rows.len()
            invariant
                r <= rows.len(),
                forall|k: int| 0 <= k < r ==> (#[trigger] rows_view(rows@)[k]).len() == rows_view(
                    rows@,
                )[0].len(),
            decreases rows.len() - r,
        {
            if rows[r].len() != rows[0].len() {
                assert(rows_view(rows@)[r as int].len() != rows_view(rows@)[0].len());
                return None;
            }
            r += 1;
        }
        Some(Grid { rows })
    }

    /// The number of rows.
    pub fn height(&self) -> (h: usize)
        ensures
            h == self.spec_height(),
    {
        self.rows.len()
    }

    /// The number of cells in each row; zero for a grid without rows.
    pub fn width(&self) -> (w: usize)
        ensures
            w == self.spec_width(),
            forall|r: int| 0 <= r < self@.len() ==> (#[trigger] self@[r]).len() == w,
    {
        proof {
            use_type_invariant(self);
        }
        if self.rows.len() == 0 {
            0
        } else {
            self.rows[0].len()
        }
    }

    /// The cell at `(row, column)`, counted from zero, if the grid has one
    /// there.
    pub fn get(&self, position: (usize, usize)) -> (cell: Option<&Cell>)
        ensures
            cell is Some <==> position.0 < self.spec_height() && position.1 < self.spec_width(),
            cell matches Some(c) ==> *c == self@[position.0 as int][position.1 as int],
    {
        proof {
            use_type_invariant(self);
        }
        let (row, column) = position;
        if row < self.rows.len() {
            if column < self.rows[row].len() {
                return Some(&self.rows[row][column]);
            }
        }
        None
    }

    /// The display text of every cell, row by row.
    pub fn format_rows(&self) -> (texts: Vec<Vec<String>>)
        ensures
            texts.deep_view() == self.texts(),
    {
        let mut texts: Vec<Vec<String>> = Vec::new();
        let mut r: usize = 0;
        while r < self.rows.len()
            invariant
                r <= self.rows.len(),
                texts.deep_view() == self.texts().take(r as int),
            decreases self.rows.len() - r,
        {
            let line = format_row(&self.rows[r]);
            let ghost before = texts.deep_view();
            texts.push(line);
            assert(texts.deep_view() =~= before.push(line.deep_view()));
            r += 1;
        }
        texts
    }
}

/// One sheet of a workbook.
#[derive(Debug, PartialEq, Eq)]
pub struct Sheet {
    /// The name of the sheet.
    pub name: String,
    /// The cells of the sheet, or `None` where they could not be read.
    pub grid: Option<Grid>,
}

/// A decoded workbook: its sheets in file order.
#[derive(Debug, PartialEq, Eq)]
pub struct Workbook {
    /// The sheets, in file order.
    pub sheets: Vec<Sheet>,
}

impl Workbook {
    /// The names of the sheets, in file order.
    pub open spec fn names(&self) -> Seq<Seq<char>> {
        Seq::new(self.sheets@.len(), |i: int| self.sheets@[i].name@)
    }

    /// The grid of the first sheet called `name`: `None` where no sheet has
    /// that name, or where the cells of that sheet could not be read.
    pub open spec fn grid_named(&self, name: Seq<char>) -> Option<Grid> {
        match self.names().index_of_first(name) {
            Some(i) => self.sheets@[i].grid,
            None => None,
        }
    }

    /// The names of the sheets, in file order.
    pub fn sheet_names(&self) -> (names: Vec<String>)
        ensures
            names.deep_view() == self.names(),
    {
        let mut names: Vec<String> = Vec::new();
        let mut i: usize = 0;
        while i < self.sheets.len()
            invariant
                i <= self.sheets.len(),
                names.deep_view() == self.names().take(i as int),
            decreases self.sheets.len() - i,
        {
            push_text(&mut names, self.sheets[i].name.clone());
            i += 1;
        }
        names
    }

    /// The grid of the first sheet called `name`: `None` where no sheet has
    /// that name, or where the cells of that sheet could not be read.
    pub fn worksheet_range(&self, name: &str) -> (grid: Option<&Grid>)
        ensures
            grid is Some <==> self.grid_named(name@) is Some,
            grid matches Some(g) ==> self.grid_named(name@) == Some(*g),
    {
        let wanted = String::from_str(name);
        let mut i: usize = 0;
        while i < self.sheets.len()
            invariant
                i <= self.sheets.len(),
                wanted@ == name@,
                forall|k: int| 0 <= k < i ==> self.names()[k] != name@,
            decreases self.sheets.len() - i,
        {
            if self.sheets[i].name == wanted {
                proof {
                    assert(self.names()[i as int] == name@);
                    self.names().index_of_first_ensures(name@);
                }
                return match &self.sheets[i].grid {
                    Some(g) => Some(g),
                    None => None,
                };
            }
            i += 1;
        }
        proof {
            self.names().index_of_first_ensures(name@);
        }
        None
    }
}

/// Where no two sheets have the same name, the grid found under the name of
/// a sheet is the grid of that sheet.
pub proof fn law_unique_name_finds_its_sheet(workbook: Workbook, index: int)
    requires
        0 <= index < workbook.sheets@.len(),
        workbook.names().no_duplicates(),
    ensures
        workbook.grid_named(workbook.names()[index]) == workbook.sheets@[index].grid,
{
    workbook.names().index_of_first_ensures(workbook.names()[index]);
}

} // verus!
