use vstd::prelude::*;

use crate::batch::{cell_of, RowBatch};
use crate::text::{chars_of, contains, find_exec, text_eq};

verus! {

pub open spec fn is_decimal_digit(c: char) -> bool {
    '0' <= c && c <= '9'
}

/// The shape of value that identifies a column.
#[derive(Debug, Clone, Copy, PartialEq, Eq, Structural)]
pub enum CellShape {
    /// At least five characters, the first five digits.
    PostalCode,
    /// Two or three digits.
    CountyCode,
    /// At most three digits.
    ShortCode,
}

pub open spec fn fits_shape(v: Seq<char>, shape: CellShape) -> bool {
    match shape {
        CellShape::PostalCode => v.len() >= 5 && forall|i: int| 0 <= i < 5 ==> is_decimal_digit(#[trigger] v[i]),
        CellShape::CountyCode => (v.len() == 2 || v.len() == 3) && forall|i: int|
            0 <= i < v.len() ==> is_decimal_digit(#[trigger] v[i]),
        CellShape::ShortCode => v.len() <= 3 && forall|i: int| 0 <= i < v.len() ==> is_decimal_digit(#[trigger] v[i]),
    }
}

/// The first column at or after `i`, below `num_cols`, whose cell in `row`
/// has the shape.
pub open spec fn first_column_with_shape(row: Seq<Seq<char>>, num_cols: nat, shape: CellShape, i: int) -> Option<int>
    decreases num_cols - i,
{
    if i < 0 || i >= num_cols {
        None
    } else if fits_shape(cell_of(row, i), shape) {
        Some(i)
    } else {
        first_column_with_shape(row, num_cols, shape, i + 1)
    }
}

fn fits_shape_exec(v: &str, shape: CellShape) -> (r: bool)
    ensures
        r == fits_shape(v@, shape),
{
    let cs = chars_of(v);
    let n: usize = match shape {
        CellShape::PostalCode => {
            if cs.len() < 5 {
                return false;
            }
            5
        },
        CellShape::CountyCode => {
            if cs.len() != 2 && cs.len() != 3 {
                return false;
            }
            cs.len()
        },
        CellShape::ShortCode => {
            if cs.len() > 3 {
                return false;
            }
            cs.len()
        },
    };
    let mut i: usize = 0;
    while i < n
        invariant
            cs@ == v@,
            n <= cs@.len(),
            i <= n,
            shape == CellShape::PostalCode ==> n == 5,
            shape == CellShape::CountyCode ==> n == cs@.len() && (n == 2 || n == 3),
            shape == CellShape::ShortCode ==> n == cs@.len() && n <= 3,
            forall|j: int| 0 <= j < i ==> is_decimal_digit(#[trigger] cs@[j]),
        decreases n - i,
    {
        if !('0' <= cs[i] && cs[i] <= '9') {
            assert(!is_decimal_digit(cs@[i as int]));
            return false;
        }
        i = i + 1;
    }
    true
}

proof fn lemma_first_column_bounds(row: Seq<Seq<char>>, num_cols: nat, shape: CellShape, i: int)
    ensures
        first_column_with_shape(row, num_cols, shape, i) matches Some(c) ==> i <= c < num_cols,
    decreases num_cols - i,
{
    if 0 <= i < num_cols && !fits_shape(cell_of(row, i), shape) {
        lemma_first_column_bounds(row, num_cols, shape, i + 1);
    }
}

fn first_column_exec(batch: &RowBatch, shape: CellShape) -> (r: Option<usize>)
    requires
        batch@.rows.len() > 0,
    ensures
        match first_column_with_shape(batch@.rows[0], batch@.num_cols, shape, 0) {
            Some(c) => 0 <= c < batch@.num_cols && r == Some(c as usize),
            None => r is None,
        },
{
    let mut i: usize = 0;
    proof {
        lemma_first_column_bounds(batch@.rows[0], batch@.num_cols, shape, 0);
    }
    while i < batch.num_cols()
        invariant
            batch@.rows.len() > 0,
            i <= batch@.num_cols,
            first_column_with_shape(batch@.rows[0], batch@.num_cols, shape, 0)
                == first_column_with_shape(batch@.rows[0], batch@.num_cols, shape, i as int),
        decreases batch@.num_cols - i,
    {
        if fits_shape_exec(batch.at(i, 0).as_str(), shape) {
            return Some(i);
        }
        i = i + 1;
    }
    None
}

/// `default_position` when the batch has that column, else the first column.
pub fn find_column_index_by_position(batch: &RowBatch, default_position: usize) -> (r: usize)
    ensures
        r == if default_position < batch@.num_cols { default_position } else { 0 },
{
    if default_position < batch.num_cols() {
        default_position
    } else {
        0
    }
}

/// The column that a field's values seem to fill, judged by the first row:
/// for a field named like `zip`, the first column holding a postal code;
/// else for one named like `county`, the first holding a two- or three-digit
/// code; else the default position, or the first column when the batch has
/// no such column.
pub open spec fn pattern_column(batch: crate::batch::BatchView, field: Seq<char>, default_position: nat) -> nat {
    let fallback = if default_position < batch.num_cols { default_position } else { 0 };
    let zip = if contains(field, "zip"@) && batch.rows.len() > 0 {
        first_column_with_shape(batch.rows[0], batch.num_cols, CellShape::PostalCode, 0)
    } else {
        None
    };
    let county = if contains(field, "county"@) && batch.rows.len() > 0 {
        first_column_with_shape(batch.rows[0], batch.num_cols, CellShape::CountyCode, 0)
    } else {
        None
    };
    match zip {
        Some(c) => c as nat,
        None => match county {
            Some(c) => c as nat,
            None => fallback,
        },
    }
}

/// The column that a field's values seem to fill, judged by the first row.
pub fn find_column_index_by_pattern(batch: &RowBatch, field_name: &str, default_position: usize) -> (r: usize)
    ensures
        r == pattern_column(batch@, field_name@, default_position as nat),
{
    let fallback = if default_position < batch.num_cols() { default_position } else { 0 };
    let field = chars_of(field_name);
    if find_exec(&field, &chars_of("zip")).is_some() && batch.num_rows() > 0 {
        match first_column_exec(batch, CellShape::PostalCode) {
            Some(c) => { return c; },
            None => {},
        }
    }
    if find_exec(&field, &chars_of("county")).is_some() && batch.num_rows() > 0 {
        match first_column_exec(batch, CellShape::CountyCode) {
            Some(c) => { return c; },
            None => {},
        }
    }
    fallback
}

/// The column of a well-known field, judged by the first row: `zip` or
/// `zip_code` is the first column holding a postal code, `county` or
/// `county_code` the first holding at most three digits, `key_field` the
/// first column; none for another name or when no column fits.
pub open spec fn known_column(batch: crate::batch::BatchView, name: Seq<char>) -> Option<int> {
    if name == "zip"@ || name == "zip_code"@ {
        if batch.rows.len() > 0 {
            first_column_with_shape(batch.rows[0], batch.num_cols, CellShape::PostalCode, 0)
        } else {
            None
        }
    } else if name == "county"@ || name == "county_code"@ {
        if batch.rows.len() > 0 {
            first_column_with_shape(batch.rows[0], batch.num_cols, CellShape::ShortCode, 0)
        } else {
            None
        }
    } else if name == "key_field"@ {
        Some(0)
    } else {
        None
    }
}

/// The column of a well-known field, judged by the first row.
pub fn find_column_index(batch: &RowBatch, column_name: &str) -> (r: Option<usize>)
    ensures
        match known_column(batch@, column_name@) {
            Some(c) => r == Some(c as usize),
            None => r is None,
        },
{
    if text_eq(column_name, "zip") || text_eq(column_name, "zip_code") {
        if batch.num_rows() > 0 {
            first_column_exec(batch, CellShape::PostalCode)
        } else {
            None
        }
    } else if text_eq(column_name, "county") || text_eq(column_name, "county_code") {
        if batch.num_rows() > 0 {
            first_column_exec(batch, CellShape::ShortCode)
        } else {
            None
        }
    } else if text_eq(column_name, "key_field") {
        Some(0)
    } else {
        None
    }
}

} // verus!
