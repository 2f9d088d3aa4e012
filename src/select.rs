use vstd::prelude::*;

use crate::text::{chars_of, concat_chars, ends_with, find, find_exec, lower_of, occurs_at_exec,
    slice_chars, split_chars, split_on, string_of, to_lower, to_upper, trim_chars, trimmed,
    upper_of};

verus! {

/// Why the column list of a selection statement could not give a field's
/// position. Each is a configuration error, to be fixed before a run.
#[derive(Debug, Clone, Copy, PartialEq, Eq, Structural)]
pub enum ColumnLookupError {
    /// The statement holds no `SELECT `.
    MissingSelect,
    /// No ` FROM ` follows the `SELECT ` keyword.
    MissingFrom,
    /// No column of the list is the field.
    FieldNotFound,
}

/// The text between `SELECT ` and ` FROM ` of an upper-cased statement.
pub open spec fn column_list(u: Seq<char>) -> Option<Seq<char>> {
    match (find(u, "SELECT "@), find(u, " FROM "@)) {
        (Some(s), Some(f)) => if s + "SELECT "@.len() <= f {
            Some(u.subrange(s + "SELECT "@.len(), f))
        } else {
            None
        },
        _ => None,
    }
}

/// A column entry names the field: its trimmed, lower-cased text is the
/// lower-cased field name, or ends with `.` and that name.
pub open spec fn column_matches(col: Seq<char>, field: Seq<char>) -> bool {
    let lc = lower_of(trimmed(col));
    let lf = lower_of(field);
    lc == lf || ends_with(lc, seq!['.'] + lf)
}

fn column_matches_exec(col: &Vec<char>, field_lower: &Vec<char>, dotted: &Vec<char>) -> (r: bool)
    requires
        dotted@ == seq!['.'] + field_lower@,
    ensures
        r == (lower_of(trimmed(col@)) == field_lower@ || ends_with(lower_of(trimmed(col@)), dotted@)),
{
    let t = string_of(&trim_chars(col));
    let lc = chars_of(to_lower(t.as_str()).as_str());
    if lc.len() == field_lower.len() && occurs_at_exec(&lc, field_lower, 0) {
        assert(lc@.subrange(0, lc@.len() as int) =~= lc@);
        return true;
    }
    assert(lc@.subrange(0, lc@.len() as int) =~= lc@);
    if dotted.len() > lc.len() {
        return false;
    }
    occurs_at_exec(&lc, dotted, lc.len() - dotted.len())
}

/// `r` is what looking `field` up in the column list of `query` gives: the
/// first entry that names it, or why there is none.
pub open spec fn column_lookup(query: Seq<char>, field: Seq<char>, r: Result<usize, ColumnLookupError>) -> bool {
    let u = upper_of(query);
    match r {
        Ok(i) => column_list(u) matches Some(l) && i < split_on(l, ',').len()
            && column_matches(split_on(l, ',')[i as int], field)
            && forall|j: int| 0 <= j < i ==> !column_matches(#[trigger] split_on(l, ',')[j], field),
        Err(ColumnLookupError::MissingSelect) => find(u, "SELECT "@) is None,
        Err(ColumnLookupError::MissingFrom) => find(u, "SELECT "@) is Some && column_list(u) is None,
        Err(ColumnLookupError::FieldNotFound) => column_list(u) matches Some(l)
            && forall|j: int| 0 <= j < split_on(l, ',').len() ==> !column_matches(#[trigger] split_on(l, ',')[j], field),
    }
}

/// Position of `field_name` in the column list of a selection statement:
/// the list between `SELECT ` and ` FROM ` (found case-insensitively) is
/// split on commas, and the first entry that names the field, as itself or
/// as a trailing `.name` qualifier, in any case, gives the position.
pub fn find_column_index_by_name(query: &str, field_name: &str) -> (r: Result<usize, ColumnLookupError>)
    ensures
        column_lookup(query@, field_name@, r),
{
    let u = chars_of(to_upper(query).as_str());
    let select_kw = chars_of("SELECT ");
    let from_kw = chars_of(" FROM ");
    let select_pos = match find_exec(&u, &select_kw) {
        Some(p) => p,
        None => { return Err(ColumnLookupError::MissingSelect); },
    };
    let from_pos = match find_exec(&u, &from_kw) {
        Some(p) => p,
        None => { return Err(ColumnLookupError::MissingFrom); },
    };
    proof {
        crate::text::lemma_find_from_bounds(u@, select_kw@, 0);
        crate::text::lemma_find_from_bounds(u@, from_kw@, 0);
    }
    if select_pos > from_pos || from_pos - select_pos < select_kw.len() {
        return Err(ColumnLookupError::MissingFrom);
    }
    let list = slice_chars(&u, select_pos + select_kw.len(), from_pos);
    let columns = split_chars(&list, ',');
    let field_lower = chars_of(to_lower(field_name).as_str());
    let mut dot: Vec<char> = Vec::new();
    dot.push('.');
    let dotted = concat_chars(&dot, &field_lower);
    assert(dot@ =~= seq!['.']);
    assert(column_list(u@) == Some(list@));
    let mut i: usize = 0;
    while i < columns.len()
        invariant
            i <= columns@.len(),
            columns@.len() == split_on(list@, ',').len(),
            forall|j: int| 0 <= j < columns@.len() ==> #[trigger] columns@[j]@ == split_on(list@, ',')[j],
            field_lower@ == lower_of(field_name@),
            u@ == upper_of(query@),
            column_list(u@) == Some(list@),
            dotted@ == seq!['.'] + field_lower@,
            forall|j: int| 0 <= j < i ==> !column_matches(#[trigger] split_on(list@, ',')[j], field_name@),
        decreases columns@.len() - i,
    {
        if column_matches_exec(&columns[i], &field_lower, &dotted) {
            assert(columns@[i as int]@ == split_on(list@, ',')[i as int]);
            return Ok(i);
        }
        i = i + 1;
    }
    assert(column_list(u@) == Some(list@));
    Err(ColumnLookupError::FieldNotFound)
}

/// The table a selection statement reads, as the text between ` FROM ` and
/// the next ` WHERE ` (or else ` LIMIT `, or else the end) of the trimmed,
/// upper-cased statement, trimmed; `table_name` when there is no ` FROM `.
pub open spec fn table_name_of(q: Seq<char>) -> Seq<char> {
    let u = upper_of(trimmed(q));
    match find(u, " FROM "@) {
        Some(f) => {
            let after = u.skip(f + " FROM "@.len());
            match find(after, " WHERE "@) {
                Some(w) => trimmed(after.take(w)),
                None => match find(after, " LIMIT "@) {
                    Some(l) => trimmed(after.take(l)),
                    None => trimmed(after),
                },
            }
        },
        None => "table_name"@,
    }
}

/// The table that a selection statement reads, or `table_name` when it
/// cannot be found.
pub fn extract_table_name(query: &str) -> (r: String)
    ensures
        r@ == table_name_of(query@),
{
    let t = string_of(&trim_chars(&chars_of(query)));
    let u = chars_of(to_upper(t.as_str()).as_str());
    let from_kw = chars_of(" FROM ");
    match find_exec(&u, &from_kw) {
        Some(f) => {
            proof {
                crate::text::lemma_find_from_bounds(u@, from_kw@, 0);
                assert(crate::text::occurs_at(u@, from_kw@, f as int));
            }
            assert(f + from_kw.len() <= u.len());
            let after = slice_chars(&u, f + from_kw.len(), u.len());
            assert(after@ =~= u@.skip(f + from_kw@.len()));
            let cut = match find_exec(&after, &chars_of(" WHERE ")) {
                Some(w) => w,
                None => match find_exec(&after, &chars_of(" LIMIT ")) {
                    Some(l) => l,
                    None => after.len(),
                },
            };
            proof {
                crate::text::lemma_find_from_bounds(after@, " WHERE "@, 0);
                crate::text::lemma_find_from_bounds(after@, " LIMIT "@, 0);
            }
            let head = slice_chars(&after, 0, cut);
            assert(after@.take(after@.len() as int) =~= after@);
            assert(head@ =~= after@.take(cut as int));
            string_of(&trim_chars(&head))
        },
        None => "table_name".to_string(),
    }
}

} // verus!
