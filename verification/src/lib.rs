//! Read-only queries over a decoded spreadsheet workbook: listing its sheets,
//! showing a bounded window of rows, and searching cell text.
//!
//! Every operation is a function from plain values to the lines of text it
//! reports; reading the file and printing the lines is left to the caller.

pub mod cell;
pub mod command;
pub mod decimal;
pub mod resolve;
pub mod search;
pub mod show;
pub mod text;
pub mod workbook;

pub use cell::{format_cell, Cell, ErrorCode, FloatParts, FloatView};
pub use command::{run, Command};
pub use resolve::{get_sheet_name, SheetError};
pub use search::{search_grid, search_in_sheet};
pub use show::{list_sheets, show_grid, show_sheet};
pub use workbook::{Grid, Sheet, Workbook};
