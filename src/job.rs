use vstd::prelude::*;

use crate::text::{chars_of, char_index_from, ends_with, occurs_at_exec, text_eq};

verus! {

/// Where a job stands. `Pending` at creation; `Completed` or `Failed` only
/// after an execute pass.
#[derive(Debug, Clone, Copy, PartialEq, Eq, Structural)]
pub enum QueryStatus {
    Pending,
    Completed,
    Failed,
}

/// One persisted unit of work: a corrective statement tied to the key of the
/// source row it repairs.
#[derive(Debug)]
pub struct QueryRecord {
    pub key: String,
    pub query: String,
    pub status: QueryStatus,
    pub result: Option<String>,
    pub timestamp: Option<String>,
}

/// A `QueryRecord` as text.
pub struct JobView {
    pub key: Seq<char>,
    pub query: Seq<char>,
    pub status: QueryStatus,
    pub result: Option<Seq<char>>,
    pub timestamp: Option<Seq<char>>,
}

pub open spec fn opt_view(o: Option<String>) -> Option<Seq<char>> {
    match o {
        Some(s) => Some(s@),
        None => None,
    }
}

impl View for QueryRecord {
    type V = JobView;

    open spec fn view(&self) -> JobView {
        JobView {
            key: self.key@,
            query: self.query@,
            status: self.status,
            result: opt_view(self.result),
            timestamp: opt_view(self.timestamp),
        }
    }
}

/// A new job: pending, with no result and no timestamp yet.
pub open spec fn pending_job(key: Seq<char>, query: Seq<char>) -> JobView {
    JobView { key, query, status: QueryStatus::Pending, result: None, timestamp: None }
}

impl QueryRecord {
    /// A new pending job for `key` that applies `query`.
    pub fn pending(key: String, query: String) -> (r: QueryRecord)
        ensures
            r@ == pending_job(key@, query@),
    {
        QueryRecord { key, query, status: QueryStatus::Pending, result: None, timestamp: None }
    }
}

/// One execution failure, as the shared error log keeps it.
#[derive(Debug)]
pub struct ErrorRecord {
    pub key: String,
    /// Name of the job file.
    pub file: String,
    pub error: String,
    pub timestamp: String,
}

/// An `ErrorRecord` as text.
pub struct ErrorView {
    pub key: Seq<char>,
    pub file: Seq<char>,
    pub error: Seq<char>,
    pub timestamp: Seq<char>,
}

impl View for ErrorRecord {
    type V = ErrorView;

    open spec fn view(&self) -> ErrorView {
        ErrorView { key: self.key@, file: self.file@, error: self.error@, timestamp: self.timestamp@ }
    }
}

/// A key that can name a job file on its own: not empty, not `.` or `..`,
/// no path separator, and not the name of the error log.
pub open spec fn key_is_safe(key: Seq<char>) -> bool {
    &&& key.len() > 0
    &&& key != "."@
    &&& key != ".."@
    &&& key != "errors"@
    &&& char_index_from(key, '/', 0) == key.len()
    &&& char_index_from(key, '\\', 0) == key.len()
}

fn lacks_char(s: &Vec<char>, c: char) -> (r: bool)
    ensures
        r == (char_index_from(s@, c, 0) == s@.len()),
{
    let mut i: usize = 0;
    while i < s.len()
        invariant
            i <= s@.len(),
            char_index_from(s@, c, 0) == char_index_from(s@, c, i as int),
        decreases s@.len() - i,
    {
        if s[i] == c {
            return false;
        }
        i = i + 1;
    }
    true
}

/// Whether `key` can name a job file in the working directory.
pub fn is_safe_key(key: &str) -> (r: bool)
    ensures
        r == key_is_safe(key@),
{
    let cs = chars_of(key);
    cs.len() > 0 && !text_eq(key, ".") && !text_eq(key, "..") && !text_eq(key, "errors")
        && lacks_char(&cs, '/') && lacks_char(&cs, '\\')
}

/// The path of the job file of `key` in `results_dir`; none for a key that
/// cannot name a file.
pub fn job_file_path(results_dir: &str, key: &str) -> (r: Option<String>)
    ensures
        key_is_safe(key@) ==> (r matches Some(p) && p@ == results_dir@ + "/"@ + key@ + ".json"@),
        !key_is_safe(key@) ==> r is None,
{
    if !is_safe_key(key) {
        return None;
    }
    let mut p = results_dir.to_string();
    p.append("/");
    p.append(key);
    p.append(".json");
    Some(p)
}

/// The path of the shared error log in `results_dir`.
pub fn error_log_path(results_dir: &str) -> (r: String)
    ensures
        r@ == results_dir@ + "/errors.json"@,
{
    let mut p = results_dir.to_string();
    p.append("/errors.json");
    p
}

/// A file name that holds a job: it ends with `.json`, has a stem before
/// that, and is not the error log.
pub open spec fn is_job_file_name_spec(name: Seq<char>) -> bool {
    name.len() > ".json"@.len() && ends_with(name, ".json"@) && name != "errors.json"@
}

/// Whether a file of the working directory holds a job.
pub fn is_job_file_name(name: &str) -> (r: bool)
    ensures
        r == is_job_file_name_spec(name@),
{
    let cs = chars_of(name);
    let ext = chars_of(".json");
    if cs.len() <= ext.len() {
        return false;
    }
    occurs_at_exec(&cs, &ext, cs.len() - ext.len()) && !text_eq(name, "errors.json")
}

} // verus!
