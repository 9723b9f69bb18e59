//! The engine: header row, batch rows, and a whole stream.

use crate::cell::{render, render_spec, Cell, CellValue, NumberSource};
use crate::error::Error;
use crate::model::{is_integer_type, Batch, Value};
use crate::sheet::{exact, put_text, rejected, sheet_cells, sheet_column, stored, write_cell};
use vstd::prelude::*;

verus! {

/// A numeric cell that the caller has to compute and write.
#[derive(Clone, Copy, Debug, PartialEq, Eq)]
pub struct PendingNumber {
    pub row: u32,
    pub col: u16,
    pub source: NumberSource,
}

/// The cell that a position of the batch becomes, or `None` where the sheet
/// stays untouched.
pub open spec fn cell_at(batch: Batch, row: int, col: int) -> Option<Cell> {
    render_spec(batch.cols()[col].data_type, batch.value_at(row, col))
}

/// The position lies in the batch.
pub open spec fn in_batch(batch: Batch, row: int, col: int) -> bool {
    0 <= row < batch.rows() && 0 <= col < batch.cols().len()
}

/// Row-major order: the first position is visited before the second.
pub open spec fn before(row: int, col: int, upto_row: int, upto_col: int) -> bool {
    row < upto_row || (row == upto_row && col < upto_col)
}

/// With the batch's first row at sheet row `start`, the sheet refuses the cell
/// of this position.
pub open spec fn fails_at(batch: Batch, start: int, row: int, col: int) -> bool {
    cell_at(batch, row, col) matches Some(cell) && rejected(start + row, col, cell)
}

/// No position before the given one is refused.
pub open spec fn clean_before(batch: Batch, start: int, upto_row: int, upto_col: int) -> bool {
    forall|r: int, c: int|
        in_batch(batch, r, c) && before(r, c, upto_row, upto_col) ==> !#[trigger] fails_at(
            batch,
            start,
            r,
            c,
        )
}

/// Widening keeps the integer at the position, if it has at most 53 bits.
pub open spec fn exact_at(batch: Batch, row: int, col: int) -> bool {
    is_integer_type(batch.cols()[col].data_type) ==> match batch.value_at(row, col) {
        Some(Value::Int(v)) => exact(v as int),
        Some(Value::UInt(v)) => exact(v as int),
        _ => true,
    }
}

/// Widening keeps every integer of at most 53 bits before the given position.
pub open spec fn exact_before(batch: Batch, upto_row: int, upto_col: int) -> bool {
    forall|r: int, c: int|
        in_batch(batch, r, c) && before(r, c, upto_row, upto_col) ==> #[trigger] exact_at(batch, r, c)
}

/// The position is the first in row-major order that the sheet refuses.
pub open spec fn first_failure(batch: Batch, start: int, row: int, col: int) -> bool {
    in_batch(batch, row, col) && fails_at(batch, start, row, col) && clean_before(
        batch,
        start,
        row,
        col,
    )
}

/// The sheet position takes a cell from a batch position before the given one.
pub open spec fn lands(batch: Batch, start: int, upto_row: int, upto_col: int, p: (int, int)) -> bool {
    in_batch(batch, p.0 - start, p.1) && before(p.0 - start, p.1, upto_row, upto_col) && (cell_at(
        batch,
        p.0 - start,
        p.1,
    ) matches Some(cell) && stored(cell))
}

/// The sheet once every batch position before the given one is written: row
/// `r` of the batch goes to sheet row `start + r`, column by column, and a
/// position without a stored cell keeps what the sheet held.
pub open spec fn sheet_after(
    cells: Map<(int, int), Cell>,
    batch: Batch,
    start: int,
    upto_row: int,
    upto_col: int,
) -> Map<(int, int), Cell> {
    Map::new(
        |p: (int, int)| cells.dom().contains(p) || lands(batch, start, upto_row, upto_col, p),
        |p: (int, int)|
            if lands(batch, start, upto_row, upto_col, p) {
                cell_at(batch, p.0 - start, p.1).unwrap()
            } else {
                cells[p]
            },
    )
}

/// The deferred number of one position, if it has one.
pub open spec fn pending_at(batch: Batch, start: int, row: int, col: int) -> Seq<PendingNumber> {
    match cell_at(batch, row, col) {
        Some(Cell::Deferred(source)) => seq![
            PendingNumber { row: (start + row) as u32, col: col as u16, source },
        ],
        _ => Seq::empty(),
    }
}

/// The deferred numbers of one row, left of a column.
pub open spec fn pending_in_row(batch: Batch, start: int, row: int, upto_col: int) -> Seq<
    PendingNumber,
>
    decreases upto_col,
{
    if upto_col <= 0 {
        Seq::empty()
    } else {
        pending_in_row(batch, start, row, upto_col - 1) + pending_at(batch, start, row, upto_col - 1)
    }
}

/// The deferred numbers of the rows above a row.
pub open spec fn pending_rows(batch: Batch, start: int, upto_row: int) -> Seq<PendingNumber>
    decreases upto_row,
{
    if upto_row <= 0 {
        Seq::empty()
    } else {
        pending_rows(batch, start, upto_row - 1) + pending_in_row(
            batch,
            start,
            upto_row - 1,
            batch.cols().len() as int,
        )
    }
}

/// The deferred numbers of every position before the given one, in row-major
/// order.
pub open spec fn pending_before(batch: Batch, start: int, upto_row: int, upto_col: int) -> Seq<
    PendingNumber,
> {
    pending_rows(batch, start, upto_row) + pending_in_row(batch, start, upto_row, upto_col)
}

/// A batch ended at its first refused cell: the cursor is the sheet row of that
/// cell, and the sheet and the deferred numbers are those of the positions
/// before it, where every integer of at most 53 bits stands as it is.
pub open spec fn batch_stopped(
    cells0: Map<(int, int), Cell>,
    pending0: Seq<PendingNumber>,
    batch: Batch,
    start: int,
    cells1: Map<(int, int), Cell>,
    cursor1: int,
    pending1: Seq<PendingNumber>,
) -> bool {
    exists|r: int, c: int| #[trigger]
        first_failure(batch, start, r, c) && cursor1 == start + r && cells1 == sheet_after(
            cells0,
            batch,
            start,
            r,
            c,
        ) && pending1 == pending0 + pending_before(batch, start, r, c) && exact_before(batch, r, c)
}

/// Writes the rows of a batch below one another, the first at sheet row
/// `*row_offset`, and moves `*row_offset` past them. Deferred numbers are
/// appended to `pending` in row-major order. An integer of at most 53 bits
/// stands in its numeric cell as it is. The first cell that the sheet
/// refuses ends the call with the sheet's error: what was written before it
/// stays, and `*row_offset` is the sheet row of that cell.
pub fn write_batch(
    sheet: &mut rust_xlsxwriter::Worksheet,
    batch: &Batch,
    row_offset: &mut u32,
    pending: &mut Vec<PendingNumber>,
) -> (out: Result<(), rust_xlsxwriter::XlsxError>)
    requires
        batch.wf(),
        *old(row_offset) + batch.rows() <= u32::MAX,
    ensures
        out.is_ok() <==> clean_before(*batch, *old(row_offset) as int, batch.rows(), 0),
        out.is_ok() ==> *final(row_offset) == *old(row_offset) + batch.rows(),
        out.is_ok() ==> sheet_cells(*final(sheet)) == sheet_after(
            sheet_cells(*old(sheet)),
            *batch,
            *old(row_offset) as int,
            batch.rows(),
            0,
        ),
        out.is_ok() ==> final(pending)@ == old(pending)@ + pending_before(
            *batch,
            *old(row_offset) as int,
            batch.rows(),
            0,
        ),
        out.is_ok() ==> exact_before(*batch, batch.rows(), 0),
        out.is_err() ==> batch_stopped(
            sheet_cells(*old(sheet)),
            old(pending)@,
            *batch,
            *old(row_offset) as int,
            sheet_cells(*final(sheet)),
            *final(row_offset) as int,
            final(pending)@,
        ),
{
    let ghost start = *row_offset as int;
    let ghost cells0 = sheet_cells(*sheet);
    let ghost pending0 = pending@;
    let nrows = batch.num_rows();
    let ncols = batch.num_columns();
    let mut row: usize = 0;
    while row < nrows
        invariant
            batch.wf(),
            nrows == batch.rows(),
            ncols == batch.cols().len(),
            row <= nrows,
            *row_offset == start + row,
            start + nrows <= u32::MAX,
            start == *old(row_offset),
            cells0 == sheet_cells(*old(sheet)),
            pending0 == old(pending)@,
            clean_before(*batch, start, row as int, 0),
            exact_before(*batch, row as int, 0),
            sheet_cells(*sheet) == sheet_after(cells0, *batch, start, row as int, 0),
            pending@ == pending0 + pending_before(*batch, start, row as int, 0),
        decreases nrows - row,
    {
        let mut col: usize = 0;
        while col < ncols
            invariant
                batch.wf(),
                nrows == batch.rows(),
                ncols == batch.cols().len(),
                row < nrows,
                col <= ncols,
                *row_offset == start + row,
                start + nrows <= u32::MAX,
                start == *old(row_offset),
                cells0 == sheet_cells(*old(sheet)),
                pending0 == old(pending)@,
                clean_before(*batch, start, row as int, col as int),
                exact_before(*batch, row as int, col as int),
                sheet_cells(*sheet) == sheet_after(cells0, *batch, start, row as int, col as int),
                pending@ == pending0 + pending_before(*batch, start, row as int, col as int),
            decreases ncols - col,
        {
            let column = batch.column(col);
            let rendered = render(&column.data_type, &column.values[row]);
            match rendered {
                None => {},
                Some(cell) => {
                    match write_cell(sheet, *row_offset, sheet_column(col), &cell) {
                        Err(e) => {
                            proof {
                                assert(first_failure(*batch, start, row as int, col as int));
                            }
                            return Err(e);
                        },
                        Ok(()) => {},
                    }
                    if let CellValue::Deferred(source) = cell {
                        pending.push(PendingNumber { row: *row_offset, col: col as u16, source });
                    }
                },
            }
            col += 1;
        }
        *row_offset += 1;
        row += 1;
    }
    Ok(())
}

/// The header cell of a column: its name.
pub open spec fn header_cell(batch: Batch, col: int) -> Cell {
    Cell::Text(batch.cols()[col].name@)
}

/// The sheet refuses the header cell of the column in the given row.
pub open spec fn header_fails(batch: Batch, row: int, col: int) -> bool {
    rejected(row, col, header_cell(batch, col))
}

/// No header cell left of the column is refused.
pub open spec fn header_clean(batch: Batch, row: int, upto_col: int) -> bool {
    forall|c: int| 0 <= c < upto_col ==> !#[trigger] header_fails(batch, row, c)
}

/// The sheet position takes the header cell of a column left of the given one.
pub open spec fn header_lands(batch: Batch, row: int, upto_col: int, p: (int, int)) -> bool {
    p.0 == row && 0 <= p.1 < upto_col && stored(header_cell(batch, p.1))
}

/// The sheet once the names of the columns left of the given one stand in the
/// row. A column without a name leaves its cell as it was.
pub open spec fn header_after(cells: Map<(int, int), Cell>, batch: Batch, row: int, upto_col: int) -> Map<
    (int, int),
    Cell,
> {
    Map::new(
        |p: (int, int)| cells.dom().contains(p) || header_lands(batch, row, upto_col, p),
        |p: (int, int)|
            if header_lands(batch, row, upto_col, p) {
                header_cell(batch, p.1)
            } else {
                cells[p]
            },
    )
}

/// The header ended at its first refused cell.
pub open spec fn header_stopped(
    cells0: Map<(int, int), Cell>,
    batch: Batch,
    row: int,
    cells1: Map<(int, int), Cell>,
) -> bool {
    exists|c: int|
        0 <= c < batch.cols().len() && #[trigger] header_fails(batch, row, c) && header_clean(
            batch,
            row,
            c,
        ) && cells1 == header_after(cells0, batch, row, c)
}

/// Writes the column names of a batch into sheet row `*row_offset`, from left
/// to right, and moves `*row_offset` to the next row. The first name that the
/// sheet refuses ends the call with the sheet's error: the names before it
/// stay, and `*row_offset` does not move.
pub fn write_header(sheet: &mut rust_xlsxwriter::Worksheet, batch: &Batch, row_offset: &mut u32) -> (out:
    Result<(), rust_xlsxwriter::XlsxError>)
    requires
        batch.wf(),
        *old(row_offset) < u32::MAX,
    ensures
        out.is_ok() <==> header_clean(*batch, *old(row_offset) as int, batch.cols().len() as int),
        out.is_ok() ==> *final(row_offset) == *old(row_offset) + 1,
        out.is_ok() ==> sheet_cells(*final(sheet)) == header_after(
            sheet_cells(*old(sheet)),
            *batch,
            *old(row_offset) as int,
            batch.cols().len() as int,
        ),
        out.is_err() ==> *final(row_offset) == *old(row_offset),
        out.is_err() ==> header_stopped(
            sheet_cells(*old(sheet)),
            *batch,
            *old(row_offset) as int,
            sheet_cells(*final(sheet)),
        ),
{
    let ghost start = *row_offset as int;
    let ghost cells0 = sheet_cells(*sheet);
    let ncols = batch.num_columns();
    let mut col: usize = 0;
    while col < ncols
        invariant
            batch.wf(),
            ncols == batch.cols().len(),
            col <= ncols,
            *row_offset == start,
            start == *old(row_offset),
            cells0 == sheet_cells(*old(sheet)),
            header_clean(*batch, start, col as int),
            sheet_cells(*sheet) == header_after(cells0, *batch, start, col as int),
        decreases ncols - col,
    {
        let column = batch.column(col);
        match put_text(sheet, *row_offset, sheet_column(col), column.name.as_str()) {
            Err(e) => {
                proof {
                    assert(header_fails(*batch, start, col as int));
                }
                return Err(e);
            },
            Ok(()) => {},
        }
        col += 1;
    }
    *row_offset += 1;
    Ok(())
}

/// The sheet row of the first row of a batch that arrives at the cursor: a
/// stream starts with the cursor at 0, where the header takes one row.
pub open spec fn first_row(cursor: int) -> int {
    if cursor == 0 {
        1
    } else {
        cursor
    }
}

/// The sheet takes all of the batch that arrives at the cursor, and its header
/// where it is the first.
pub open spec fn item_clean(batch: Batch, cursor: int) -> bool {
    (cursor == 0 ==> header_clean(batch, 0, batch.cols().len() as int)) && clean_before(
        batch,
        first_row(cursor),
        batch.rows(),
        0,
    )
}

/// The sheet with the header of the batch, where the batch is the first.
pub open spec fn with_header(cells: Map<(int, int), Cell>, batch: Batch, cursor: int) -> Map<
    (int, int),
    Cell,
> {
    if cursor == 0 {
        header_after(cells, batch, 0, batch.cols().len() as int)
    } else {
        cells
    }
}

/// The sheet with all of the batch that arrives at the cursor.
pub open spec fn with_batch(cells: Map<(int, int), Cell>, batch: Batch, cursor: int) -> Map<
    (int, int),
    Cell,
> {
    sheet_after(with_header(cells, batch, cursor), batch, first_row(cursor), batch.rows(), 0)
}

/// The batch that arrived at the cursor ended at its first refused cell, in
/// the header or below it.
pub open spec fn item_stopped(
    cells0: Map<(int, int), Cell>,
    pending0: Seq<PendingNumber>,
    batch: Batch,
    cursor: int,
    cells1: Map<(int, int), Cell>,
    cursor1: int,
    pending1: Seq<PendingNumber>,
) -> bool {
    if cursor == 0 && !header_clean(batch, 0, batch.cols().len() as int) {
        cursor1 == 0 && pending1 == pending0 && header_stopped(cells0, batch, 0, cells1)
    } else {
        batch_stopped(
            with_header(cells0, batch, cursor),
            pending0,
            batch,
            first_row(cursor),
            cells1,
            cursor1,
            pending1,
        )
    }
}

/// Takes the next item of a stream. A decode failure is handed back and
/// changes nothing. A batch that arrives with the cursor at 0 is the first: its
/// header goes to row 0. Then its rows are written from the cursor on.
pub fn accept(
    sheet: &mut rust_xlsxwriter::Worksheet,
    row_offset: &mut u32,
    pending: &mut Vec<PendingNumber>,
    item: Result<Batch, arrow::error::ArrowError>,
) -> (out: Result<(), Error>)
    requires
        item matches Ok(batch) ==> batch.wf() && first_row(*old(row_offset) as int) + batch.rows()
            <= u32::MAX,
    ensures
        item matches Err(e) ==> out == Err::<(), Error>(Error::Arrow(e)) && *final(row_offset)
            == *old(row_offset) && sheet_cells(*final(sheet)) == sheet_cells(*old(sheet))
            && final(pending)@ == old(pending)@,
        item matches Ok(batch) ==> (out.is_ok() <==> item_clean(batch, *old(row_offset) as int)),
        item matches Ok(batch) ==> (out.is_ok() ==> *final(row_offset) == first_row(
            *old(row_offset) as int,
        ) + batch.rows() && sheet_cells(*final(sheet)) == with_batch(
            sheet_cells(*old(sheet)),
            batch,
            *old(row_offset) as int,
        ) && final(pending)@ == old(pending)@ + pending_before(
            batch,
            first_row(*old(row_offset) as int),
            batch.rows(),
            0,
        )),
        item matches Ok(batch) ==> (out.is_ok() ==> exact_before(batch, batch.rows(), 0)),
        item matches Ok(batch) ==> (out.is_err() ==> (out matches Err(Error::Xlsx(_)))
            && item_stopped(
            sheet_cells(*old(sheet)),
            old(pending)@,
            batch,
            *old(row_offset) as int,
            sheet_cells(*final(sheet)),
            *final(row_offset) as int,
            final(pending)@,
        )),
{
    match item {
        Err(e) => Err(Error::Arrow(e)),
        Ok(batch) => {
            if *row_offset == 0 {
                match write_header(sheet, &batch, row_offset) {
                    Err(e) => {
                        return Err(Error::Xlsx(e));
                    },
                    Ok(()) => {},
                }
            }
            match write_batch(sheet, &batch, row_offset, pending) {
                Err(e) => Err(Error::Xlsx(e)),
                Ok(()) => Ok(()),
            }
        },
    }
}

/// The cursor after the first `k` items of a stream that all were taken: a
/// decode failure does not move it.
pub open spec fn cursor_after(items: Seq<Result<Batch, arrow::error::ArrowError>>, k: int) -> int
    decreases k,
{
    if k <= 0 {
        0
    } else {
        match items[k - 1] {
            Ok(batch) => first_row(cursor_after(items, k - 1)) + batch.rows(),
            Err(_) => cursor_after(items, k - 1),
        }
    }
}

/// The sheet after the first `k` items of a stream that all were taken.
pub open spec fn cells_after(
    cells: Map<(int, int), Cell>,
    items: Seq<Result<Batch, arrow::error::ArrowError>>,
    k: int,
) -> Map<(int, int), Cell>
    decreases k,
{
    if k <= 0 {
        cells
    } else {
        match items[k - 1] {
            Ok(batch) => with_batch(cells_after(cells, items, k - 1), batch, cursor_after(items, k - 1)),
            Err(_) => cells_after(cells, items, k - 1),
        }
    }
}

/// The deferred numbers of the first `k` items of a stream that all were
/// taken, in the order of the stream.
pub open spec fn pending_after(items: Seq<Result<Batch, arrow::error::ArrowError>>, k: int) -> Seq<
    PendingNumber,
>
    decreases k,
{
    if k <= 0 {
        Seq::empty()
    } else {
        match items[k - 1] {
            Ok(batch) => pending_after(items, k - 1) + pending_before(
                batch,
                first_row(cursor_after(items, k - 1)),
                batch.rows(),
                0,
            ),
            Err(_) => pending_after(items, k - 1),
        }
    }
}

/// Item `i` of the stream is a batch, and the sheet takes all of it.
pub open spec fn item_passes(items: Seq<Result<Batch, arrow::error::ArrowError>>, i: int) -> bool {
    items[i] matches Ok(batch) && item_clean(batch, cursor_after(items, i))
}

/// The first `k` items of the stream pass.
pub open spec fn stream_clean(items: Seq<Result<Batch, arrow::error::ArrowError>>, k: int) -> bool {
    forall|i: int| 0 <= i < k ==> #[trigger] item_passes(items, i)
}

/// Widening keeps every integer of at most 53 bits in item `i` of the stream.
pub open spec fn item_exact(items: Seq<Result<Batch, arrow::error::ArrowError>>, i: int) -> bool {
    items[i] matches Ok(batch) ==> exact_before(batch, batch.rows(), 0)
}

/// Widening keeps every integer of at most 53 bits in the first `k` items.
pub open spec fn stream_exact(items: Seq<Result<Batch, arrow::error::ArrowError>>, k: int) -> bool {
    forall|i: int| 0 <= i < k ==> #[trigger] item_exact(items, i)
}

/// Every batch of the stream is well formed.
pub open spec fn stream_wf(items: Seq<Result<Batch, arrow::error::ArrowError>>) -> bool {
    forall|i: int|
        0 <= i < items.len() ==> (#[trigger] items[i] matches Ok(batch) ==> batch.wf())
}

/// The cursor fits a `u32` over the whole stream.
pub open spec fn stream_fits(items: Seq<Result<Batch, arrow::error::ArrowError>>) -> bool {
    forall|k: int| 0 <= k <= items.len() ==> #[trigger] cursor_after(items, k) <= u32::MAX
}

/// The stream ended at item `k`: with that item's decode failure and the sheet
/// of the items before it, or with the sheet's error at the first cell of that
/// item that the sheet refused.
pub open spec fn stream_stopped(
    cells0: Map<(int, int), Cell>,
    pending0: Seq<PendingNumber>,
    items: Seq<Result<Batch, arrow::error::ArrowError>>,
    k: int,
    out: Result<(), Error>,
    cells1: Map<(int, int), Cell>,
    pending1: Seq<PendingNumber>,
) -> bool {
    match items[k] {
        Err(e) => out == Err::<(), Error>(Error::Arrow(e)) && cells1 == cells_after(cells0, items, k)
            && pending1 == pending0 + pending_after(items, k),
        Ok(batch) => (out matches Err(Error::Xlsx(_))) && exists|cursor1: int| #[trigger]
            item_stopped(
                cells_after(cells0, items, k),
                pending0 + pending_after(items, k),
                batch,
                cursor_after(items, k),
                cells1,
                cursor1,
                pending1,
            ),
    }
}

/// Transcodes a stream onto a sheet: the header of the first batch in row 0,
/// then the rows of every batch, one sheet row each. An integer of at most 53
/// bits stands in its numeric cell as it is. Succeeds where every item
/// is a batch that the sheet takes, an empty stream included. The first item
/// that is a decode failure, or that holds a cell that the sheet refuses, ends
/// the call with that error; what was written before stays.
pub fn batch_iter2x(
    batches: Vec<Result<Batch, arrow::error::ArrowError>>,
    sheet: &mut rust_xlsxwriter::Worksheet,
    pending: &mut Vec<PendingNumber>,
) -> (out: Result<(), Error>)
    requires
        stream_wf(batches@),
        stream_fits(batches@),
    ensures
        out.is_ok() <==> stream_clean(batches@, batches@.len() as int),
        out.is_ok() ==> sheet_cells(*final(sheet)) == cells_after(
            sheet_cells(*old(sheet)),
            batches@,
            batches@.len() as int,
        ),
        out.is_ok() ==> final(pending)@ == old(pending)@ + pending_after(
            batches@,
            batches@.len() as int,
        ),
        out.is_ok() ==> stream_exact(batches@, batches@.len() as int),
        out.is_err() ==> exists|k: int|
            0 <= k < batches@.len() && stream_clean(batches@, k) && stream_exact(batches@, k)
                && !#[trigger] item_passes(batches@, k) && stream_stopped(
                sheet_cells(*old(sheet)),
                old(pending)@,
                batches@,
                k,
                out,
                sheet_cells(*final(sheet)),
                final(pending)@,
            ),
{
    let ghost items = batches@;
    let ghost cells0 = sheet_cells(*sheet);
    let ghost pending0 = pending@;
    let ghost mut k: int = 0;
    let mut rest = batches;
    let mut cursor: u32 = 0;
    while rest.len() > 0
        invariant
            items == batches@,
            stream_wf(items),
            stream_fits(items),
            0 <= k <= items.len(),
            rest@ == items.subrange(k, items.len() as int),
            cells0 == sheet_cells(*old(sheet)),
            pending0 == old(pending)@,
            stream_clean(items, k),
            stream_exact(items, k),
            cursor == cursor_after(items, k),
            sheet_cells(*sheet) == cells_after(cells0, items, k),
            pending@ == pending0 + pending_after(items, k),
        decreases rest.len(),
    {
        let item = rest.remove(0);
        proof {
            assert(cursor_after(items, k + 1) <= u32::MAX);
        }
        match accept(sheet, &mut cursor, pending, item) {
            Err(e) => {
                proof {
                    assert(!item_passes(items, k));
                }
                return Err(e);
            },
            Ok(()) => {},
        }
        proof {
            k = k + 1;
        }
    }
    Ok(())
}

} // verus!
