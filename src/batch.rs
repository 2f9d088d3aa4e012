use vstd::prelude::*;

verus! {

/// One fetched batch of rows, every cell as text (an absent value is empty).
pub struct RowBatch {
    num_cols: usize,
    rows: Vec<Vec<String>>,
}

/// A `RowBatch` as text.
pub struct BatchView {
    pub num_cols: nat,
    pub rows: Seq<Seq<Seq<char>>>,
}

pub open spec fn row_view(r: Vec<String>) -> Seq<Seq<char>> {
    r@.map_values(|s: String| s@)
}

/// The cell of `row` in column `c`; empty when the row has no such column.
pub open spec fn cell_of(row: Seq<Seq<char>>, c: int) -> Seq<char> {
    if 0 <= c < row.len() {
        row[c]
    } else {
        Seq::empty()
    }
}

impl View for RowBatch {
    type V = BatchView;

    closed spec fn view(&self) -> BatchView {
        BatchView {
            num_cols: self.num_cols as nat,
            rows: self.rows@.map_values(|r: Vec<String>| row_view(r)),
        }
    }
}

impl RowBatch {
    /// A batch of `rows` from a result with `num_cols` columns.
    pub fn new(num_cols: usize, rows: Vec<Vec<String>>) -> (r: RowBatch)
        ensures
            r@.num_cols == num_cols,
            r@.rows == rows@.map_values(|x: Vec<String>| row_view(x)),
    {
        RowBatch { num_cols, rows }
    }

    pub fn num_rows(&self) -> (r: usize)
        ensures
            r == self@.rows.len(),
    {
        self.rows.len()
    }

    pub fn num_cols(&self) -> (r: usize)
        ensures
            r == self@.num_cols,
    {
        self.num_cols
    }

    /// The text of the cell in column `col` of row `row`; empty where the
    /// batch holds no such cell.
    pub fn at(&self, col: usize, row: usize) -> (r: String)
        ensures
            r@ == (if row < self@.rows.len() {
                cell_of(self@.rows[row as int], col as int)
            } else {
                Seq::empty()
            }),
    {
        if row < self.rows.len() && col < self.rows[row].len() {
            self.rows[row][col].clone()
        } else {
            String::new()
        }
    }
}

} // verus!
