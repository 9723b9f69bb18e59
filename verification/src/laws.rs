//! What holds of every batch and every stream.

use crate::cell::{Cell, NumberSource};
use crate::model::{is_float_type, is_integer_type, Batch, Value};
use crate::sheet::widened;
use crate::sheet::stored;
use crate::transcode::{
    cell_at, cells_after, cursor_after, exact_at, in_batch, pending_at, sheet_after, stream_wf, with_batch,
    with_header, PendingNumber,
};
use vstd::prelude::*;

verus! {

/// The rows of the batches among the first `k` items of a stream.
pub open spec fn rows_total(items: Seq<Result<Batch, arrow::error::ArrowError>>, k: int) -> int
    decreases k,
{
    if k <= 0 {
        0
    } else {
        rows_total(items, k - 1) + match items[k - 1] {
            Ok(batch) => batch.rows(),
            Err(_) => 0,
        }
    }
}

/// On a sheet whose row 0 is empty, the first batch of a stream fills row 0
/// with the names of its columns, in their order, and with nothing else:
/// as many cells as the batch has columns. Stated for a batch whose columns
/// all have a name.
pub proof fn lemma_header_row_holds_names(cells: Map<(int, int), Cell>, batch: Batch)
    requires
        batch.wf(),
        forall|c: int| 0 <= c < batch.cols().len() ==> (#[trigger] batch.cols()[c]).name@.len() > 0,
        forall|c: int| !cells.dom().contains((0, c)),
    ensures
        forall|c: int| #[trigger]
            with_batch(cells, batch, 0).dom().contains((0, c)) <==> 0 <= c < batch.cols().len(),
        forall|c: int|
            0 <= c < batch.cols().len() ==> #[trigger] with_batch(cells, batch, 0)[(0, c)]
                == Cell::Text(batch.cols()[c].name@),
{
}

/// The header row stays what the first batch made it: after any number of
/// batches, row 0 of a sheet whose row 0 was empty holds the names of the
/// first batch's columns, in their order, and nothing else. Stated for a first
/// batch whose columns all have a name.
pub proof fn lemma_header_row_stays(
    cells: Map<(int, int), Cell>,
    items: Seq<Result<Batch, arrow::error::ArrowError>>,
    first: Batch,
    k: int,
)
    requires
        stream_wf(items),
        1 <= k <= items.len(),
        forall|i: int| 0 <= i < k ==> (#[trigger] items[i]).is_ok(),
        items[0] == Ok::<Batch, arrow::error::ArrowError>(first),
        forall|c: int| 0 <= c < first.cols().len() ==> (#[trigger] first.cols()[c]).name@.len() > 0,
        forall|c: int| !cells.dom().contains((0, c)),
    ensures
        forall|c: int| #[trigger]
            cells_after(cells, items, k).dom().contains((0, c)) <==> 0 <= c < first.cols().len(),
        forall|c: int|
            0 <= c < first.cols().len() ==> #[trigger] cells_after(cells, items, k)[(0, c)]
                == Cell::Text(first.cols()[c].name@),
    decreases k,
{
    if k == 1 {
        assert(cells_after(cells, items, 0) == cells);
        lemma_header_row_holds_names(cells, first);
    } else {
        lemma_header_row_stays(cells, items, first, k - 1);
        lemma_cursor_counts_rows(items, k - 1);
        lemma_rows_total_nonnegative(items, k - 1);
    }
}

/// After `k` batches the cursor is 1, for the header, plus the rows of those
/// batches.
pub proof fn lemma_cursor_counts_rows(items: Seq<Result<Batch, arrow::error::ArrowError>>, k: int)
    requires
        stream_wf(items),
        1 <= k <= items.len(),
        forall|i: int| 0 <= i < k ==> (#[trigger] items[i]).is_ok(),
    ensures
        cursor_after(items, k) == 1 + rows_total(items, k),
    decreases k,
{
    if k > 1 {
        lemma_cursor_counts_rows(items, k - 1);
        lemma_rows_total_nonnegative(items, k - 1);
    }
    assert(cursor_after(items, 0) == 0);
    assert(rows_total(items, 0) == 0);
}

/// The two sheets agree at the position: both hold nothing there, or the
/// same cell.
pub open spec fn same_at(a: Map<(int, int), Cell>, b: Map<(int, int), Cell>, p: (int, int)) -> bool {
    a.dom().contains(p) == b.dom().contains(p) && (a.dom().contains(p) ==> a[p] == b[p])
}

/// The rows of more items are not fewer.
pub proof fn lemma_rows_total_grows(
    items: Seq<Result<Batch, arrow::error::ArrowError>>,
    a: int,
    b: int,
)
    requires
        stream_wf(items),
        0 <= a <= b <= items.len(),
    ensures
        rows_total(items, a) <= rows_total(items, b),
    decreases b - a,
{
    if a < b {
        lemma_rows_total_grows(items, a, b - 1);
    }
}

/// Nothing lies below the last row: after `k` batches the sheet is as it was
/// at every row from 1 plus the rows of those batches on.
pub proof fn lemma_nothing_below(
    cells: Map<(int, int), Cell>,
    items: Seq<Result<Batch, arrow::error::ArrowError>>,
    k: int,
    p: (int, int),
)
    requires
        stream_wf(items),
        0 <= k <= items.len(),
        forall|i: int| 0 <= i < k ==> (#[trigger] items[i]).is_ok(),
        p.0 >= 1 + rows_total(items, k),
    ensures
        same_at(cells_after(cells, items, k), cells, p),
    decreases k,
{
    if k > 0 {
        lemma_rows_total_nonnegative(items, k - 1);
        lemma_rows_total_grows(items, k - 1, k);
        lemma_nothing_below(cells, items, k - 1, p);
        if k > 1 {
            lemma_cursor_counts_rows(items, k - 1);
        }
    }
}

/// Every row of every batch has one sheet row, and no two share one: in a
/// stream of batches, row `i` of batch `j` goes to the sheet row 1 plus the
/// rows of the batches before it plus `i`. After `m` batches the sheet holds
/// there, in the value's column, the cell of the value where it has one that
/// is stored, and what it held at the start where not.
pub proof fn lemma_stream_rows(
    cells: Map<(int, int), Cell>,
    items: Seq<Result<Batch, arrow::error::ArrowError>>,
    m: int,
    j: int,
    batch: Batch,
    i: int,
    c: int,
)
    requires
        stream_wf(items),
        0 <= j < m <= items.len(),
        forall|n: int| 0 <= n < m ==> (#[trigger] items[n]).is_ok(),
        items[j] == Ok::<Batch, arrow::error::ArrowError>(batch),
        in_batch(batch, i, c),
    ensures
        ({
            let after = cells_after(cells, items, m);
            let p = (1 + rows_total(items, j) + i, c);
            if cell_at(batch, i, c) matches Some(cell) && stored(cell) {
                after.dom().contains(p) && after[p] == cell_at(batch, i, c).unwrap()
            } else {
                same_at(after, cells, p)
            }
        }),
    decreases m,
{
    let p = (1 + rows_total(items, j) + i, c);
    lemma_rows_total_nonnegative(items, j);
    if m == j + 1 {
        if j >= 1 {
            lemma_cursor_counts_rows(items, j);
        }
        lemma_nothing_below(cells, items, j, p);
        lemma_each_position_once(
            with_header(cells_after(cells, items, j), batch, cursor_after(items, j)),
            batch,
            1 + rows_total(items, j),
            i,
            c,
        );
    } else {
        lemma_stream_rows(cells, items, m - 1, j, batch, i, c);
        lemma_cursor_counts_rows(items, m - 1);
        lemma_rows_total_grows(items, j + 1, m - 1);
    }
}

/// A row count is never negative.
pub proof fn lemma_rows_total_nonnegative(items: Seq<Result<Batch, arrow::error::ArrowError>>, k: int)
    requires
        stream_wf(items),
        0 <= k <= items.len(),
    ensures
        rows_total(items, k) >= 0,
    decreases k,
{
    if k > 0 {
        lemma_rows_total_nonnegative(items, k - 1);
    }
}

/// Row `r` of a batch goes to sheet row `start + r` and to no other: after the
/// batch, the sheet holds at that row and the value's column the cell of the
/// value where it has one that is stored, and what it held before where not.
pub proof fn lemma_each_position_once(
    cells: Map<(int, int), Cell>,
    batch: Batch,
    start: int,
    r: int,
    c: int,
)
    requires
        in_batch(batch, r, c),
    ensures
        ({
            let after = sheet_after(cells, batch, start, batch.rows(), 0);
            let p = (start + r, c);
            if cell_at(batch, r, c) matches Some(cell) && crate::sheet::stored(cell) {
                after.dom().contains(p) && after[p] == cell_at(batch, r, c).unwrap()
            } else {
                after.dom().contains(p) == cells.dom().contains(p) && (cells.dom().contains(p)
                    ==> after[p] == cells[p])
            }
        }),
{
}

/// A null leaves its cell as it was: unset where it was unset. It defers no
/// number either.
pub proof fn lemma_null_leaves_cell(
    cells: Map<(int, int), Cell>,
    batch: Batch,
    start: int,
    r: int,
    c: int,
)
    requires
        in_batch(batch, r, c),
        batch.value_at(r, c) is None,
    ensures
        cell_at(batch, r, c) is None,
        pending_at(batch, start, r, c) == Seq::<PendingNumber>::empty(),
        sheet_after(cells, batch, start, batch.rows(), 0).dom().contains((start + r, c))
            == cells.dom().contains((start + r, c)),
{
}

/// A non-null value of an integer column becomes the numeric cell of that
/// integer widened: of the integer itself where it has at most 53 bits and
/// widening keeps it, which `write_batch` ensures of every integer that it
/// has written.
pub proof fn lemma_integer_round_trip(
    cells: Map<(int, int), Cell>,
    batch: Batch,
    start: int,
    r: int,
    c: int,
    v: int,
)
    requires
        in_batch(batch, r, c),
        is_integer_type(batch.cols()[c].data_type),
        batch.wf(),
        match batch.value_at(r, c) {
            Some(Value::Int(x)) => x == v,
            Some(Value::UInt(x)) => x == v,
            _ => false,
        },
    ensures
        cell_at(batch, r, c) == Some(Cell::Number(widened(v))),
        sheet_after(cells, batch, start, batch.rows(), 0)[(start + r, c)] == Cell::Number(widened(v)),
        exact_at(batch, r, c) && -9_007_199_254_740_992 <= v <= 9_007_199_254_740_992 ==> sheet_after(
            cells,
            batch,
            start,
            batch.rows(),
            0,
        )[(start + r, c)] == Cell::Number(v),
{
}

/// A non-null value of a floating-point column is deferred with its bits
/// unchanged, at its own position.
pub proof fn lemma_float_is_deferred(batch: Batch, start: int, r: int, c: int, bits: u64)
    requires
        in_batch(batch, r, c),
        is_float_type(batch.cols()[c].data_type),
        batch.value_at(r, c) == Some(Value::Float(bits)),
    ensures
        cell_at(batch, r, c) == Some(Cell::Deferred(NumberSource::Bits(bits))),
        pending_at(batch, start, r, c) == seq![
            PendingNumber { row: (start + r) as u32, col: c as u16, source: NumberSource::Bits(bits) },
        ],
{
}

/// A non-null value of a boolean column becomes the boolean cell of the same
/// truth value.
pub proof fn lemma_boolean_round_trip(
    cells: Map<(int, int), Cell>,
    batch: Batch,
    start: int,
    r: int,
    c: int,
    b: bool,
)
    requires
        in_batch(batch, r, c),
        batch.cols()[c].data_type is Boolean,
        batch.value_at(r, c) == Some(Value::Bool(b)),
    ensures
        cell_at(batch, r, c) == Some(Cell::Boolean(b)),
        sheet_after(cells, batch, start, batch.rows(), 0)[(start + r, c)] == Cell::Boolean(b),
{
}

} // verus!
