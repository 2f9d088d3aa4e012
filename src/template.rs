use vstd::prelude::*;

use crate::batch::{cell_of, BatchView, RowBatch};
use crate::job::{pending_job, JobView, QueryRecord};
use crate::text::{chars_of, concat_chars, occurs_at, occurs_at_exec, string_of};

verus! {

pub open spec fn digit_char(d: nat) -> char {
    if d == 0 { '0' } else if d == 1 { '1' } else if d == 2 { '2' } else if d == 3 { '3' }
    else if d == 4 { '4' } else if d == 5 { '5' } else if d == 6 { '6' } else if d == 7 { '7' }
    else if d == 8 { '8' } else { '9' }
}

/// The decimal digits of `n`.
pub open spec fn decimal(n: nat) -> Seq<char>
    decreases n,
{
    if n < 10 {
        seq![digit_char(n)]
    } else {
        decimal(n / 10).push(digit_char(n % 10))
    }
}

fn digit_exec(d: usize) -> (r: char)
    requires
        d < 10,
    ensures
        r == digit_char(d as nat),
{
    if d == 0 { '0' } else if d == 1 { '1' } else if d == 2 { '2' } else if d == 3 { '3' }
    else if d == 4 { '4' } else if d == 5 { '5' } else if d == 6 { '6' } else if d == 7 { '7' }
    else if d == 8 { '8' } else { '9' }
}

pub(crate) fn decimal_exec(n: usize) -> (r: Vec<char>)
    ensures
        r@ == decimal(n as nat),
    decreases n,
{
    if n < 10 {
        let mut v: Vec<char> = Vec::new();
        v.push(digit_exec(n));
        assert(v@ =~= seq![digit_char(n as nat)]);
        v
    } else {
        let mut v = decimal_exec(n / 10);
        v.push(digit_exec(n % 10));
        v
    }
}

/// The placeholder text `{{name}}`.
pub open spec fn placeholder(name: Seq<char>) -> Seq<char> {
    seq!['{', '{'] + name + seq!['}', '}']
}

/// The placeholder name bound to column `i`: `key` for the first column,
/// `field<i>` for the others.
pub open spec fn binding_name(i: nat) -> Seq<char> {
    if i == 0 {
        "key"@
    } else {
        "field"@ + decimal(i)
    }
}

/// The bindings of a row: `key` to its first cell, then `field1`, `field2`,
/// ... to the next cells in column order.
pub open spec fn row_bindings(num_cols: nat, row: Seq<Seq<char>>) -> Seq<(Seq<char>, Seq<char>)> {
    Seq::new(
        if num_cols == 0 { 1 } else { num_cols },
        |i: int| (binding_name(i as nat), cell_of(row, i)),
    )
}

/// The first binding, from the `k`-th on, whose placeholder occurs in `t`
/// at index `i`.
pub open spec fn binding_at(t: Seq<char>, bindings: Seq<(Seq<char>, Seq<char>)>, i: int, k: int) -> Option<int>
    decreases bindings.len() - k,
{
    if k < 0 || k >= bindings.len() {
        None
    } else if occurs_at(t, placeholder(bindings[k].0), i) {
        Some(k)
    } else {
        binding_at(t, bindings, i, k + 1)
    }
}

/// `t[i..]` rendered in one left-to-right pass: where the placeholder of a
/// binding starts, its value, then the text after the placeholder; else the
/// character, then the text after it. Inserted values are not scanned again.
pub open spec fn render_from(t: Seq<char>, bindings: Seq<(Seq<char>, Seq<char>)>, i: int) -> Seq<char>
    decreases t.len() - i,
{
    if i < 0 || i >= t.len() {
        Seq::empty()
    } else {
        match binding_at(t, bindings, i, 0) {
            Some(k) => if occurs_at(t, placeholder(bindings[k].0), i) {
                bindings[k].1 + render_from(t, bindings, i + placeholder(bindings[k].0).len())
            } else {
                seq![t[i]] + render_from(t, bindings, i + 1)
            },
            None => seq![t[i]] + render_from(t, bindings, i + 1),
        }
    }
}

/// The template with every placeholder of a binding replaced by its value,
/// literally, in one pass; other text, unbound placeholders included, is
/// kept.
pub open spec fn render(template: Seq<char>, bindings: Seq<(Seq<char>, Seq<char>)>) -> Seq<char> {
    render_from(template, bindings, 0)
}

proof fn lemma_binding_at_bounds(t: Seq<char>, bindings: Seq<(Seq<char>, Seq<char>)>, i: int, k: int)
    ensures
        binding_at(t, bindings, i, k) matches Some(j) ==> k <= j < bindings.len()
            && occurs_at(t, placeholder(bindings[j].0), i),
    decreases bindings.len() - k,
{
    if 0 <= k < bindings.len() && !occurs_at(t, placeholder(bindings[k].0), i) {
        lemma_binding_at_bounds(t, bindings, i, k + 1);
    }
}

/// Renders `template` in one left-to-right pass: each `{{name}}` of a bound
/// name is replaced by its value, literally (no quoting or escaping), and the
/// inserted value is not scanned again. Placeholders that no binding names
/// stay as they are.
pub fn render_template(template: &str, bindings: &Vec<(String, String)>) -> (r: String)
    ensures
        r@ == render(template@, bindings@.map_values(|b: (String, String)| (b.0@, b.1@))),
{
    let ghost bs = bindings@.map_values(|b: (String, String)| (b.0@, b.1@));
    let t = chars_of(template);
    let mut pats: Vec<Vec<char>> = Vec::new();
    let mut vals: Vec<Vec<char>> = Vec::new();
    let mut open: Vec<char> = Vec::new();
    open.push('{');
    open.push('{');
    let mut close: Vec<char> = Vec::new();
    close.push('}');
    close.push('}');
    assert(open@ =~= seq!['{', '{']);
    assert(close@ =~= seq!['}', '}']);
    let mut k: usize = 0;
    while k < bindings.len()
        invariant
            k <= bindings@.len(),
            bs == bindings@.map_values(|b: (String, String)| (b.0@, b.1@)),
            open@ == seq!['{', '{'],
            close@ == seq!['}', '}'],
            pats@.len() == k,
            vals@.len() == k,
            forall|j: int| 0 <= j < k ==> #[trigger] pats@[j]@ == placeholder(bs[j].0),
            forall|j: int| 0 <= j < k ==> #[trigger] vals@[j]@ == bs[j].1,
        decreases bindings@.len() - k,
    {
        let name = chars_of(bindings[k].0.as_str());
        pats.push(concat_chars(&concat_chars(&open, &name), &close));
        vals.push(chars_of(bindings[k].1.as_str()));
        k = k + 1;
    }
    let mut out: Vec<char> = Vec::new();
    let mut i: usize = 0;
    while i < t.len()
        invariant
            i <= t@.len(),
            t@ == template@,
            pats@.len() == bs.len(),
            vals@.len() == bs.len(),
            forall|j: int| 0 <= j < bs.len() ==> #[trigger] pats@[j]@ == placeholder(bs[j].0),
            forall|j: int| 0 <= j < bs.len() ==> #[trigger] vals@[j]@ == bs[j].1,
            out@ + render_from(t@, bs, i as int) == render(t@, bs),
        decreases t@.len() - i,
    {
        let mut j: usize = 0;
        let mut found = false;
        while j < pats.len() && !found
            invariant
                j <= pats@.len(),
                pats@.len() == bs.len(),
                forall|m: int| 0 <= m < bs.len() ==> #[trigger] pats@[m]@ == placeholder(bs[m].0),
                !found ==> binding_at(t@, bs, i as int, 0) == binding_at(t@, bs, i as int, j as int),
                found ==> j < bs.len() && binding_at(t@, bs, i as int, 0) == Some(j as int),
            decreases pats@.len() - j + if found { 0int } else { 1int },
        {
            if occurs_at_exec(&t, &pats[j], i) {
                assert(pats@[j as int]@ == placeholder(bs[j as int].0));
                assert(binding_at(t@, bs, i as int, j as int) == Some(j as int));
                found = true;
            } else {
                j = j + 1;
            }
        }
        proof {
            lemma_binding_at_bounds(t@, bs, i as int, 0);
        }
        let ghost before = out@;
        if found {
            out = concat_chars(&out, &vals[j]);
            assert(render_from(t@, bs, i as int) == bs[j as int].1 + render_from(t@, bs, i + pats@[j as int]@.len()));
            assert(out@ + render_from(t@, bs, i + pats@[j as int]@.len()) =~= before + render_from(t@, bs, i as int));
            i = i + pats[j].len();
        } else {
            assert(binding_at(t@, bs, i as int, pats@.len() as int) is None);
            assert(render_from(t@, bs, i as int) == seq![t@[i as int]] + render_from(t@, bs, i + 1));
            out.push(t[i]);
            assert(out@ + render_from(t@, bs, i + 1) =~= before + render_from(t@, bs, i as int));
            i = i + 1;
        }
    }
    string_of(&out)
}

/// The bindings of row `row` of `batch`.
pub fn bindings_for_row(batch: &RowBatch, row: usize) -> (r: Vec<(String, String)>)
    requires
        row < batch@.rows.len(),
    ensures
        r@.map_values(|b: (String, String)| (b.0@, b.1@)) == row_bindings(batch@.num_cols, batch@.rows[row as int]),
{
    let n: usize = if batch.num_cols() == 0 { 1 } else { batch.num_cols() };
    let ghost target = row_bindings(batch@.num_cols, batch@.rows[row as int]);
    let mut r: Vec<(String, String)> = Vec::new();
    let mut i: usize = 0;
    while i < n
        invariant
            i <= n,
            n == target.len(),
            row < batch@.rows.len(),
            target == row_bindings(batch@.num_cols, batch@.rows[row as int]),
            r@.map_values(|b: (String, String)| (b.0@, b.1@)) == target.take(i as int),
        decreases n - i,
    {
        let name = if i == 0 {
            "key".to_string()
        } else {
            string_of(&concat_chars(&chars_of("field"), &decimal_exec(i)))
        };
        let value = batch.at(i, row);
        assert(name@ == binding_name(i as nat));
        assert(value@ == cell_of(batch@.rows[row as int], i as int));
        let ghost before = r@.map_values(|b: (String, String)| (b.0@, b.1@));
        r.push((name, value));
        assert(r@.map_values(|b: (String, String)| (b.0@, b.1@)) =~= before.push(target[i as int]));
        assert(r@.map_values(|b: (String, String)| (b.0@, b.1@)) =~= target.take(i + 1));
        i = i + 1;
    }
    assert(target.take(n as int) =~= target);
    r
}

/// The job of the template strategy for a row: keyed by the row's first
/// cell, applying the template rendered with the row's bindings.
pub open spec fn template_job(template: Seq<char>, batch: BatchView, row: int) -> JobView {
    pending_job(cell_of(batch.rows[row], 0), render(template, row_bindings(batch.num_cols, batch.rows[row])))
}

/// One pending job per row of the batch, by the template strategy.
pub fn generate_template_jobs(template: &str, batch: &RowBatch) -> (r: Vec<QueryRecord>)
    ensures
        r@.len() == batch@.rows.len(),
        forall|i: int| 0 <= i < r@.len() ==> #[trigger] r@[i]@ == template_job(template@, batch@, i),
{
    let mut jobs: Vec<QueryRecord> = Vec::new();
    let mut row: usize = 0;
    while row < batch.num_rows()
        invariant
            row <= batch@.rows.len(),
            jobs@.len() == row,
            forall|i: int| 0 <= i < row ==> #[trigger] jobs@[i]@ == template_job(template@, batch@, i),
        decreases batch@.rows.len() - row,
    {
        let key = batch.at(0, row);
        let bindings = bindings_for_row(batch, row);
        let query = render_template(template, &bindings);
        jobs.push(QueryRecord::pending(key, query));
        row = row + 1;
    }
    jobs
}

} // verus!
