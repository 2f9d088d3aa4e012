use vstd::prelude::*;

use crate::text::{chars_of, find_exec, occurs_at_exec, starts_with, contains, string_of,
    trim_chars, trimmed, to_upper, upper_of};

verus! {

/// Whether a single quote, and a double quote, is open after the first `n`
/// characters of `s`. A quote toggles its own kind only outside the other kind.
pub open spec fn quote_state(s: Seq<char>, n: int) -> (bool, bool)
    decreases n,
{
    if n <= 0 || n > s.len() {
        (false, false)
    } else {
        let prev = quote_state(s, n - 1);
        let c = s[n - 1];
        if c == '\'' && !prev.1 {
            (!prev.0, prev.1)
        } else if c == '"' && !prev.0 {
            (prev.0, !prev.1)
        } else {
            prev
        }
    }
}

/// No quote of either kind is left open at the end of `s`.
pub open spec fn quotes_closed(s: Seq<char>) -> bool {
    let st = quote_state(s, s.len() as int);
    !st.0 && !st.1
}

/// Opening minus closing parentheses among the first `n` characters of `s`.
pub open spec fn paren_depth(s: Seq<char>, n: int) -> int
    decreases n,
{
    if n <= 0 || n > s.len() {
        0
    } else {
        paren_depth(s, n - 1) + if s[n - 1] == '(' {
            1int
        } else if s[n - 1] == ')' {
            -1int
        } else {
            0int
        }
    }
}

/// The running parenthesis count never goes negative and ends at zero.
pub open spec fn parens_balanced(s: Seq<char>) -> bool {
    &&& forall|n: int| 0 < n <= s.len() ==> #[trigger] paren_depth(s, n) >= 0
    &&& paren_depth(s, s.len() as int) == 0
}

/// The lint on an upper-cased statement: a verb this pipeline applies, the
/// clauses that verb needs, closed quotes and balanced parentheses.
pub open spec fn statement_ok(u: Seq<char>) -> bool {
    let upd = starts_with(u, "UPDATE"@);
    let ins = starts_with(u, "INSERT"@);
    let del = starts_with(u, "DELETE"@);
    &&& u.len() > 0
    &&& upd || ins || del
    &&& upd ==> contains(u, " SET "@) && contains(u, " WHERE "@)
    &&& ins ==> contains(u, " VALUES "@) || contains(u, " SELECT "@)
    &&& del ==> contains(u, " FROM "@)
    &&& quotes_closed(u)
    &&& parens_balanced(u)
}

/// What the validator decides of a statement's text: it is trimmed, then
/// upper-cased, then linted.
pub open spec fn statement_valid(q: Seq<char>) -> bool {
    statement_ok(upper_of(trimmed(q)))
}

fn has_prefix(s: &Vec<char>, p: &str) -> (r: bool)
    ensures
        r == starts_with(s@, p@),
{
    occurs_at_exec(s, &chars_of(p), 0)
}

fn has_part(s: &Vec<char>, p: &str) -> (r: bool)
    ensures
        r == contains(s@, p@),
{
    find_exec(s, &chars_of(p)).is_some()
}

fn quotes_closed_exec(u: &Vec<char>) -> (r: bool)
    ensures
        r == quotes_closed(u@),
{
    let mut in_single = false;
    let mut in_double = false;
    let mut i: usize = 0;
    while i < u.len()
        invariant
            i <= u@.len(),
            quote_state(u@, i as int) == (in_single, in_double),
        decreases u@.len() - i,
    {
        let c = u[i];
        if c == '\'' {
            if !in_double {
                in_single = !in_single;
            }
        } else if c == '"' {
            if !in_single {
                in_double = !in_double;
            }
        }
        i = i + 1;
    }
    !in_single && !in_double
}

fn parens_balanced_exec(u: &Vec<char>) -> (r: bool)
    ensures
        r == parens_balanced(u@),
{
    let mut depth: usize = 0;
    let mut i: usize = 0;
    while i < u.len()
        invariant
            i <= u@.len(),
            depth <= i,
            depth as int == paren_depth(u@, i as int),
            forall|n: int| 0 < n <= i ==> #[trigger] paren_depth(u@, n) >= 0,
        decreases u@.len() - i,
    {
        let c = u[i];
        if c == '(' {
            depth = depth + 1;
        } else if c == ')' {
            if depth == 0 {
                assert(paren_depth(u@, i + 1) < 0);
                return false;
            }
            depth = depth - 1;
        }
        i = i + 1;
    }
    depth == 0
}

/// Lints a statement that is already trimmed and upper-cased.
pub fn check_normalized_statement(statement: &str) -> (r: bool)
    ensures
        r == statement_ok(statement@),
{
    let u = chars_of(statement);
    if u.len() == 0 {
        return false;
    }
    let upd = has_prefix(&u, "UPDATE");
    let ins = has_prefix(&u, "INSERT");
    let del = has_prefix(&u, "DELETE");
    if !upd && !ins && !del {
        return false;
    }
    if upd && (!has_part(&u, " SET ") || !has_part(&u, " WHERE ")) {
        return false;
    }
    if ins && !has_part(&u, " VALUES ") && !has_part(&u, " SELECT ") {
        return false;
    }
    if del && !has_part(&u, " FROM ") {
        return false;
    }
    if !quotes_closed_exec(&u) {
        return false;
    }
    parens_balanced_exec(&u)
}

/// Offline syntactic lint of a stored statement: it must start with
/// `UPDATE`, `INSERT` or `DELETE` (in any case, after trimming), carry the
/// clauses that verb needs, close every quote and balance its parentheses.
pub fn basic_sql_validation(query: &str) -> (r: bool)
    ensures
        r == statement_valid(query@),
{
    let t = string_of(&trim_chars(&chars_of(query)));
    let u = to_upper(t.as_str());
    check_normalized_statement(u.as_str())
}

} // verus!
