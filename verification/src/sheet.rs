//! The destination: one worksheet, and what each write does to it.

use crate::calendar::{date_days, datetime_millis, datetime_plain};
use crate::cell::{Cell, CellValue, MILLIS_PER_DAY};
use vstd::prelude::*;

verus! {

#[verifier::external_type_specification]
#[verifier::external_body]
pub struct ExWorksheet(rust_xlsxwriter::Worksheet);

#[verifier::external_type_specification]
#[verifier::external_body]
pub struct ExXlsxError(rust_xlsxwriter::XlsxError);

/// The cells that a worksheet holds, by row and column.
pub uninterp spec fn sheet_cells(sheet: rust_xlsxwriter::Worksheet) -> Map<(int, int), Cell>;

/// The integer that a 64-bit integer becomes when the sheet widens it to
/// binary64: the nearest number of that format.
pub uninterp spec fn widened(v: int) -> int;

/// The instant, in milliseconds from 1970-01-01T00:00:00, that the sheet
/// keeps of a date-time outside a leap second: it stores a serial number of
/// days in binary64, which for far dates is coarser than a millisecond.
pub uninterp spec fn stored_instant(millis: int) -> int;

/// Widening keeps an integer of at most 53 bits as it is.
pub open spec fn exact(v: int) -> bool {
    -9_007_199_254_740_992 <= v <= 9_007_199_254_740_992 ==> widened(v) == v
}

/// Rows that a worksheet can hold.
pub const ROW_LIMIT: u32 = 1_048_576;

/// Columns that a worksheet can hold.
pub const COL_LIMIT: u16 = 16_384;

/// Characters that a text cell can hold.
pub const TEXT_LIMIT: usize = 32_767;

/// The column at which the sheet is asked for a cell of the column `col`: the
/// column itself, or the last one that a column index can name, which is off
/// the grid as every column beyond it is.
pub fn sheet_column(col: usize) -> (at: u16)
    ensures
        at == (if col <= 65_535 {
            col as int
        } else {
            65_535
        }),
{
    if col <= 65_535 {
        col as u16
    } else {
        65_535
    }
}

/// The position lies on the worksheet.
pub open spec fn in_grid(row: int, col: int) -> bool {
    row < ROW_LIMIT && col < COL_LIMIT
}

/// Calls `Worksheet::write_string`. An empty text is accepted anywhere and
/// changes nothing. Any other text is refused off the grid or over
/// `TEXT_LIMIT` characters, and else replaces the cell at the position.
#[verifier::external_body]
pub(crate) fn put_text(sheet: &mut rust_xlsxwriter::Worksheet, row: u32, col: u16, text: &str) -> (out:
    Result<(), rust_xlsxwriter::XlsxError>)
    ensures
        out.is_ok() <==> (text@.len() == 0 || (in_grid(row as int, col as int) && text@.len()
            <= TEXT_LIMIT)),
        out.is_ok() && text@.len() > 0 ==> sheet_cells(*final(sheet)) == sheet_cells(
            *old(sheet),
        ).insert((row as int, col as int), Cell::Text(text@)),
        out.is_err() || text@.len() == 0 ==> sheet_cells(*final(sheet)) == sheet_cells(*old(sheet)),
{
    match sheet.write_string(row, col, text) {
        Ok(_) => Ok(()),
        Err(e) => Err(e),
    }
}

/// Calls `Worksheet::write` with an `i64`, which stores `value as f64`: the
/// nearest binary64 number, which is the integer itself up to a magnitude of
/// 2^53. Refused off the grid; else replaces the cell at the position.
#[verifier::external_body]
pub(crate) fn put_integer(sheet: &mut rust_xlsxwriter::Worksheet, row: u32, col: u16, value: i64) -> (out:
    Result<(), rust_xlsxwriter::XlsxError>)
    ensures
        out.is_ok() <==> in_grid(row as int, col as int),
        out.is_ok() ==> sheet_cells(*final(sheet)) == sheet_cells(*old(sheet)).insert(
            (row as int, col as int),
            Cell::Number(widened(value as int)),
        ),
        out.is_ok() ==> exact(value as int),
        out.is_err() ==> sheet_cells(*final(sheet)) == sheet_cells(*old(sheet)),
{
    match sheet.write(row, col, value) {
        Ok(_) => Ok(()),
        Err(e) => Err(e),
    }
}

/// Calls `Worksheet::write` with a `u64`, which stores `value as f64`: the
/// nearest binary64 number, which is the integer itself up to 2^53. Refused
/// off the grid; else replaces the cell at the position.
#[verifier::external_body]
pub(crate) fn put_unsigned(sheet: &mut rust_xlsxwriter::Worksheet, row: u32, col: u16, value: u64) -> (out:
    Result<(), rust_xlsxwriter::XlsxError>)
    ensures
        out.is_ok() <==> in_grid(row as int, col as int),
        out.is_ok() ==> sheet_cells(*final(sheet)) == sheet_cells(*old(sheet)).insert(
            (row as int, col as int),
            Cell::Number(widened(value as int)),
        ),
        out.is_ok() ==> exact(value as int),
        out.is_err() ==> sheet_cells(*final(sheet)) == sheet_cells(*old(sheet)),
{
    match sheet.write(row, col, value) {
        Ok(_) => Ok(()),
        Err(e) => Err(e),
    }
}

/// Calls `Worksheet::write_boolean`. Refused off the grid; else replaces the
/// cell at the position.
#[verifier::external_body]
pub(crate) fn put_boolean(sheet: &mut rust_xlsxwriter::Worksheet, row: u32, col: u16, value: bool) -> (out:
    Result<(), rust_xlsxwriter::XlsxError>)
    ensures
        out.is_ok() <==> in_grid(row as int, col as int),
        out.is_ok() ==> sheet_cells(*final(sheet)) == sheet_cells(*old(sheet)).insert(
            (row as int, col as int),
            Cell::Boolean(value),
        ),
        out.is_err() ==> sheet_cells(*final(sheet)) == sheet_cells(*old(sheet)),
{
    match sheet.write_boolean(row, col, value) {
        Ok(_) => Ok(()),
        Err(e) => Err(e),
    }
}

/// Calls `Worksheet::write_datetime` with a calendar date, which stores the
/// serial number of that day: a whole number, the same that the midnight of
/// the day gets. Refused off the grid; else replaces the cell at the position.
#[verifier::external_body]
pub(crate) fn put_date(sheet: &mut rust_xlsxwriter::Worksheet, row: u32, col: u16, date: chrono::NaiveDate) -> (out:
    Result<(), rust_xlsxwriter::XlsxError>)
    ensures
        out.is_ok() <==> in_grid(row as int, col as int),
        out.is_ok() ==> sheet_cells(*final(sheet)) == sheet_cells(*old(sheet)).insert(
            (row as int, col as int),
            Cell::DateTime(date_days(date) * MILLIS_PER_DAY),
        ),
        out.is_err() ==> sheet_cells(*final(sheet)) == sheet_cells(*old(sheet)),
{
    match sheet.write_datetime(row, col, date) {
        Ok(_) => Ok(()),
        Err(e) => Err(e),
    }
}

/// Calls `Worksheet::write_datetime` with a calendar date-time, which stores
/// the serial number of the day plus the fraction of the day, both in
/// binary64. Refused off the grid; else replaces the cell at the position by a
/// date-time cell: outside a leap second by the one of the moment's instant.
#[verifier::external_body]
pub(crate) fn put_datetime(
    sheet: &mut rust_xlsxwriter::Worksheet,
    row: u32,
    col: u16,
    moment: chrono::NaiveDateTime,
) -> (out: Result<(), rust_xlsxwriter::XlsxError>)
    ensures
        out.is_ok() <==> in_grid(row as int, col as int),
        out.is_ok() && datetime_plain(moment) ==> sheet_cells(*final(sheet)) == sheet_cells(
            *old(sheet),
        ).insert((row as int, col as int), Cell::DateTime(stored_instant(datetime_millis(moment)))),
        out.is_ok() ==> some_moment_at(
            sheet_cells(*old(sheet)),
            row as int,
            col as int,
            sheet_cells(*final(sheet)),
        ),
        out.is_err() ==> sheet_cells(*final(sheet)) == sheet_cells(*old(sheet)),
{
    match sheet.write_datetime(row, col, moment) {
        Ok(_) => Ok(()),
        Err(e) => Err(e),
    }
}

/// The second sheet is the first with some date-time cell at the position.
pub open spec fn some_moment_at(
    before: Map<(int, int), Cell>,
    row: int,
    col: int,
    after: Map<(int, int), Cell>,
) -> bool {
    exists|instant: int| after == before.insert((row, col), Cell::DateTime(instant))
}

/// The cell is one that `write_cell` puts on the sheet: all but an empty text
/// and a deferred number.
pub open spec fn stored(cell: Cell) -> bool {
    match cell {
        Cell::Text(s) => s.len() > 0,
        Cell::Number(_) => true,
        Cell::Boolean(_) => true,
        Cell::DateTime(_) => true,
        Cell::Deferred(_) => false,
    }
}

/// The sheet refuses the cell at the position: a stored cell or a deferred
/// number off the grid, or a text that is too long.
pub open spec fn rejected(row: int, col: int, cell: Cell) -> bool {
    ||| (stored(cell) || cell is Deferred) && !in_grid(row, col)
    ||| (cell matches Cell::Text(s) && s.len() > TEXT_LIMIT)
}

/// The sheet after an attempt to write the cell at the position.
pub open spec fn with_cell(cells: Map<(int, int), Cell>, row: int, col: int, cell: Cell) -> Map<
    (int, int),
    Cell,
> {
    if stored(cell) && !rejected(row, col, cell) {
        cells.insert((row, col), cell)
    } else {
        cells
    }
}

/// Where the value is an integer, widening keeps it if it has at most 53 bits.
pub open spec fn exact_cell(cell: CellValue) -> bool {
    match cell {
        CellValue::Integer(v) => exact(v as int),
        CellValue::Unsigned(v) => exact(v as int),
        _ => true,
    }
}

/// The value is one that `render` makes: a date-time outside a leap second,
/// or anything else.
pub open spec fn plain(cell: CellValue) -> bool {
    cell matches CellValue::DateTime(moment) ==> datetime_plain(moment)
}

/// Writes one cell. An empty text leaves the sheet as it is and succeeds; so
/// does a deferred number on the grid, which the caller writes. Off the grid a
/// deferred number is refused as any number is: the sheet is asked, and its
/// error handed on. Any other cell is put at the position, or refused with the
/// sheet's error where the position is off the grid or a text is too long; a
/// refused cell leaves the sheet as it is. Of a date-time in a leap second
/// some date-time cell is put.
pub fn write_cell(sheet: &mut rust_xlsxwriter::Worksheet, row: u32, col: u16, cell: &CellValue) -> (out:
    Result<(), rust_xlsxwriter::XlsxError>)
    ensures
        out.is_err() <==> rejected(row as int, col as int, cell@),
        plain(*cell) || out.is_err() ==> sheet_cells(*final(sheet)) == with_cell(
            sheet_cells(*old(sheet)),
            row as int,
            col as int,
            cell@,
        ),
        out.is_ok() && !plain(*cell) ==> some_moment_at(
            sheet_cells(*old(sheet)),
            row as int,
            col as int,
            sheet_cells(*final(sheet)),
        ),
        out.is_ok() ==> exact_cell(*cell),
{
    match cell {
        CellValue::Text(s) => put_text(sheet, row, col, s.as_str()),
        CellValue::Integer(v) => put_integer(sheet, row, col, *v),
        CellValue::Unsigned(v) => put_unsigned(sheet, row, col, *v),
        CellValue::Boolean(b) => put_boolean(sheet, row, col, *b),
        CellValue::Date(date) => put_date(sheet, row, col, *date),
        CellValue::DateTime(moment) => put_datetime(sheet, row, col, *moment),
        CellValue::Deferred(_) => {
            if row >= ROW_LIMIT || col >= COL_LIMIT {
                put_integer(sheet, row, col, 0)
            } else {
                Ok(())
            }
        },
    }
}

} // verus!
