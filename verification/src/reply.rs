//! What the caller reports back after running a statement.

use crate::score::{Double, Level};
use crate::statement::{Column, Fetch, Holds, Shape};
use vstd::prelude::*;

verus! {

/// The content of one column of one row.
#[derive(Clone, Copy, Debug, PartialEq, Eq)]
pub enum Cell {
    Number(u32),
    Null,
    Score(Double),
}

/// A cell in contracts.
pub enum CellView {
    Number(u32),
    Null,
    Score(Level),
}

impl View for Cell {
    type V = CellView;

    open spec fn view(&self) -> CellView {
        match *self {
            Cell::Number(n) => CellView::Number(n),
            Cell::Null => CellView::Null,
            Cell::Score(d) => CellView::Score(d@),
        }
    }
}

/// A row in contracts.
pub open spec fn row_view(row: Seq<Cell>) -> Seq<CellView> {
    row.map_values(|c: Cell| c@)
}

/// The rows of a result in contracts.
pub open spec fn rows_view(rows: Seq<Vec<Cell>>) -> Seq<Seq<CellView>> {
    rows.map_values(|r: Vec<Cell>| row_view(r@))
}

/// What came back from the last statement of a script.
#[derive(Clone, Debug, PartialEq, Eq)]
pub enum Reply {
    /// The statement ran; nothing was read from it.
    Done,
    /// The first row, if there was one.
    First(Option<Vec<Cell>>),
    /// Every row, in result order.
    All(Vec<Vec<Cell>>),
    /// The number of rows.
    Count(u64),
    /// The id that the store gave to the inserted row, if it gave one.
    InsertId(Option<u64>),
}

/// A reply in contracts.
pub enum ReplyView {
    Done,
    First(Option<Seq<CellView>>),
    All(Seq<Seq<CellView>>),
    Count(u64),
    InsertId(Option<u64>),
}

impl View for Reply {
    type V = ReplyView;

    open spec fn view(&self) -> ReplyView {
        match *self {
            Reply::Done => ReplyView::Done,
            Reply::First(row) => ReplyView::First(
                match row {
                    Some(r) => Some(row_view(r@)),
                    None => None,
                },
            ),
            Reply::All(rows) => ReplyView::All(rows_view(rows@)),
            Reply::Count(n) => ReplyView::Count(n),
            Reply::InsertId(id) => ReplyView::InsertId(id),
        }
    }
}

/// The cell is what such a column holds.
pub open spec fn holds(kind: Holds, cell: CellView) -> bool {
    match kind {
        Holds::Number => cell is Number,
        Holds::MaybeNumber => cell is Number || cell is Null,
        Holds::Score => cell is Score,
    }
}

/// The row has one cell for each column of `shape`, each of the column's kind.
pub open spec fn fits(shape: Shape, row: Seq<CellView>) -> bool {
    &&& row.len() == shape.spec_columns().len()
    &&& forall|j: int|
        0 <= j < row.len() ==> holds(#[trigger] shape.spec_columns()[j].spec_holds(), row[j])
}

/// Every row fits `shape`.
pub open spec fn all_fit(shape: Shape, rows: Seq<Seq<CellView>>) -> bool {
    forall|i: int| 0 <= i < rows.len() ==> fits(shape, #[trigger] rows[i])
}

/// The number in a cell; zero where it holds none.
pub open spec fn number_in(cell: CellView) -> u32 {
    match cell {
        CellView::Number(n) => n,
        _ => 0,
    }
}

/// The number in a cell, if it holds one.
pub open spec fn maybe_number_in(cell: CellView) -> Option<u32> {
    match cell {
        CellView::Number(n) => Some(n),
        _ => None,
    }
}

/// The score in a cell; a reading of zero where it holds none.
pub open spec fn score_in(cell: CellView) -> Level {
    match cell {
        CellView::Score(level) => level,
        _ => Level { origin: Double { bits: 0 }, net: 0 },
    }
}

/// Column `j` of every row, in row order.
pub open spec fn column(rows: Seq<Seq<CellView>>, j: int) -> Seq<u32> {
    Seq::new(rows.len(), |i: int| number_in(rows[i][j]))
}

fn cell_holds(kind: Holds, cell: &Cell) -> (ok: bool)
    ensures
        ok == holds(kind, cell@),
{
    match kind {
        Holds::Number => match cell {
            Cell::Number(_) => true,
            _ => false,
        },
        Holds::MaybeNumber => match cell {
            Cell::Number(_) => true,
            Cell::Null => true,
            _ => false,
        },
        Holds::Score => match cell {
            Cell::Score(_) => true,
            _ => false,
        },
    }
}

/// Whether the row fits `shape`.
pub fn row_fits(shape: Shape, row: &Vec<Cell>) -> (ok: bool)
    ensures
        ok == fits(shape, row_view(row@)),
{
    let cols = shape.columns();
    if row.len() != cols.len() {
        return false;
    }
    let mut j: usize = 0;
    while j < row.len()
        invariant
            j <= row.len(),
            row.len() == cols.len(),
            cols@ == shape.spec_columns(),
            forall|k: int|
                0 <= k < j ==> holds(
                    #[trigger] shape.spec_columns()[k].spec_holds(),
                    row_view(row@)[k],
                ),
        decreases row.len() - j,
    {
        let kind = cols[j].holds();
        if !cell_holds(kind, &row[j]) {
            assert(!holds(shape.spec_columns()[j as int].spec_holds(), row_view(row@)[j as int]));
            return false;
        }
        j += 1;
    }
    true
}

/// Whether every row fits `shape`.
pub fn rows_fit(shape: Shape, rows: &Vec<Vec<Cell>>) -> (ok: bool)
    ensures
        ok == all_fit(shape, rows_view(rows@)),
{
    let mut i: usize = 0;
    while i < rows.len()
        invariant
            i <= rows.len(),
            forall|k: int| 0 <= k < i ==> fits(shape, #[trigger] rows_view(rows@)[k]),
        decreases rows.len() - i,
    {
        if !row_fits(shape, &rows[i]) {
            assert(!fits(shape, rows_view(rows@)[i as int]));
            return false;
        }
        i += 1;
    }
    true
}

/// The number in cell `j` of the row.
pub fn number_at(row: &Vec<Cell>, j: usize) -> (n: u32)
    requires
        j < row.len(),
    ensures
        n == number_in(row_view(row@)[j as int]),
{
    match row[j] {
        Cell::Number(n) => n,
        _ => 0,
    }
}

/// The number in cell `j` of the row, if it holds one.
pub fn maybe_number_at(row: &Vec<Cell>, j: usize) -> (n: Option<u32>)
    requires
        j < row.len(),
    ensures
        n == maybe_number_in(row_view(row@)[j as int]),
{
    match row[j] {
        Cell::Number(n) => Some(n),
        _ => None,
    }
}

/// The score in cell `j` of the row.
pub fn score_at(row: &Vec<Cell>, j: usize) -> (d: Double)
    requires
        j < row.len(),
    ensures
        d@ == score_in(row_view(row@)[j as int]),
{
    match row[j] {
        Cell::Score(d) => d,
        _ => Double { bits: 0 },
    }
}

/// Column `j` of every row, in row order.
pub fn column_of(rows: &Vec<Vec<Cell>>, j: usize, shape: Shape) -> (out: Vec<u32>)
    requires
        all_fit(shape, rows_view(rows@)),
        j < shape.spec_columns().len(),
    ensures
        out@ == column(rows_view(rows@), j as int),
{
    let mut out: Vec<u32> = Vec::new();
    let mut i: usize = 0;
    while i < rows.len()
        invariant
            i <= rows.len(),
            all_fit(shape, rows_view(rows@)),
            j < shape.spec_columns().len(),
            out@.len() == i,
            forall|k: int| 0 <= k < i ==> out@[k] == number_in(rows_view(rows@)[k][j as int]),
        decreases rows.len() - i,
    {
        assert(fits(shape, rows_view(rows@)[i as int]));
        assert(rows_view(rows@)[i as int] == row_view(rows@[i as int]@));
        out.push(number_at(&rows[i], j));
        i += 1;
    }
    assert(out@ =~= column(rows_view(rows@), j as int));
    out
}

/// The reply is what the caller reports for a statement read in this way.
pub open spec fn answers(fetch: Fetch, reply: ReplyView) -> bool {
    match fetch {
        Fetch::Nothing => reply is Done,
        Fetch::First(shape) => reply matches ReplyView::First(row) && (row matches Some(r) ==> fits(
            shape,
            r,
        )),
        Fetch::All(shape) => reply matches ReplyView::All(rows) && all_fit(shape, rows),
        Fetch::Count => reply is Count,
        Fetch::InsertId => reply is InsertId,
    }
}

/// The first row that the reply reports; `None` where it reports none.
pub open spec fn first_in(reply: ReplyView) -> Option<Seq<CellView>> {
    match reply {
        ReplyView::First(row) => row,
        _ => None,
    }
}

/// The rows that the reply reports; none where it reports no list of rows.
pub open spec fn rows_in(reply: ReplyView) -> Seq<Seq<CellView>> {
    match reply {
        ReplyView::All(rows) => rows,
        _ => Seq::empty(),
    }
}

/// The number of rows that the reply reports; zero where it reports no count.
pub open spec fn count_in(reply: ReplyView) -> u64 {
    match reply {
        ReplyView::Count(n) => n,
        _ => 0,
    }
}

/// The id of the inserted row that the reply reports, if it reports one.
pub open spec fn insert_id_in(reply: ReplyView) -> Option<u64> {
    match reply {
        ReplyView::InsertId(id) => id,
        _ => None,
    }
}

impl Reply {
    /// The first row, where the reply answers a statement whose first row was
    /// to be read in `shape`; `Err` where it does not.
    pub fn into_first(self, shape: Shape) -> (r: Result<Option<Vec<Cell>>, ()>)
        ensures
            r is Ok <==> answers(Fetch::First(shape), self@),
            r matches Ok(Some(row)) ==> first_in(self@) == Some(row_view(row@)) && row.len()
                == shape.spec_columns().len(),
            r matches Ok(None) ==> first_in(self@) is None,
    {
        match self {
            Reply::First(Some(row)) => {
                if row_fits(shape, &row) {
                    Ok(Some(row))
                } else {
                    Err(())
                }
            },
            Reply::First(None) => Ok(None),
            _ => Err(()),
        }
    }

    /// The rows, where the reply answers a statement whose rows were to be
    /// read in `shape`; `Err` where it does not.
    pub fn into_rows(self, shape: Shape) -> (r: Result<Vec<Vec<Cell>>, ()>)
        ensures
            r is Ok <==> answers(Fetch::All(shape), self@),
            r matches Ok(rows) ==> rows_in(self@) == rows_view(rows@) && all_fit(
                shape,
                rows_view(rows@),
            ),
    {
        match self {
            Reply::All(rows) => {
                if rows_fit(shape, &rows) {
                    Ok(rows)
                } else {
                    Err(())
                }
            },
            _ => Err(()),
        }
    }

    /// Whether the reply answers a statement whose result was dropped.
    pub fn is_done(&self) -> (done: bool)
        ensures
            done == answers(Fetch::Nothing, self@),
    {
        match self {
            Reply::Done => true,
            _ => false,
        }
    }

    /// The count, where the reply answers a statement whose rows were to be
    /// counted.
    pub fn into_count(self) -> (r: Option<u64>)
        ensures
            r is Some <==> answers(Fetch::Count, self@),
            r matches Some(n) ==> n == count_in(self@),
    {
        match self {
            Reply::Count(n) => Some(n),
            _ => None,
        }
    }

    /// The id of the inserted row, where the reply answers an insertion.
    pub fn into_insert_id(self) -> (r: Result<Option<u64>, ()>)
        ensures
            r is Ok <==> answers(Fetch::InsertId, self@),
            r matches Ok(id) ==> id == insert_id_in(self@),
    {
        match self {
            Reply::InsertId(id) => Ok(id),
            _ => Err(()),
        }
    }
}

} // verus!
