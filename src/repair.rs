use vstd::prelude::*;

use crate::batch::{cell_of, RowBatch};
use crate::job::{pending_job, JobView, QueryRecord};
use crate::lookup::{normalize_zip, zip5_of, ZipCountyMap, ZipInfoView};
use crate::select::{column_lookup, extract_table_name, find_column_index_by_name, ColumnLookupError};

verus! {

/// Which code of a table entry a row's current code must equal.
#[derive(Debug, Clone, Copy, PartialEq, Eq, Structural)]
pub enum CanonicalCode {
    /// The two-digit region code.
    RegionCode,
    /// The three-digit canonical code.
    FipsCode,
}

pub open spec fn canonical_code(e: ZipInfoView, target: CanonicalCode) -> Seq<char> {
    match target {
        CanonicalCode::RegionCode => e.county_code,
        CanonicalCode::FipsCode => e.fips_code,
    }
}

/// How the lookup-repair strategy reads a row and phrases its repair.
pub struct RepairPlan {
    /// The table that the repair updates.
    pub table: String,
    /// The column that holds the region code.
    pub region_field: String,
    /// The column that holds the key.
    pub key_field: String,
    /// Position of the key in a fetched row.
    pub key_col: usize,
    /// Position of the postal code in a fetched row.
    pub zip_col: usize,
    /// Position of the current region code in a fetched row.
    pub region_col: usize,
    pub target: CanonicalCode,
    /// Rows without a postal code count as checked too.
    pub counts_rows_without_zip: bool,
}

/// A `RepairPlan` as text.
pub struct PlanView {
    pub table: Seq<char>,
    pub region_field: Seq<char>,
    pub key_field: Seq<char>,
    pub key_col: nat,
    pub zip_col: nat,
    pub region_col: nat,
    pub target: CanonicalCode,
    pub counts_rows_without_zip: bool,
}

impl View for RepairPlan {
    type V = PlanView;

    open spec fn view(&self) -> PlanView {
        PlanView {
            table: self.table@,
            region_field: self.region_field@,
            key_field: self.key_field@,
            key_col: self.key_col as nat,
            zip_col: self.zip_col as nat,
            region_col: self.region_col as nat,
            target: self.target,
            counts_rows_without_zip: self.counts_rows_without_zip,
        }
    }
}

/// The statement that sets a row's region code to the canonical one.
pub open spec fn repair_statement(plan: PlanView, code: Seq<char>, key: Seq<char>) -> Seq<char> {
    "UPDATE "@ + plan.table + " SET "@ + plan.region_field + " = '"@ + code + "' WHERE "@
        + plan.key_field + " = '"@ + key + "'"@
}

/// The row's postal code is in the table, by its five-character form.
pub open spec fn row_is_mapped(plan: PlanView, m: Map<Seq<char>, ZipInfoView>, row: Seq<Seq<char>>) -> bool {
    let zip = cell_of(row, plan.zip_col as int);
    zip.len() > 0 && m.contains_key(zip5_of(zip))
}

/// The canonical code of a mapped row.
pub open spec fn row_canonical(plan: PlanView, m: Map<Seq<char>, ZipInfoView>, row: Seq<Seq<char>>) -> Seq<char> {
    canonical_code(m[zip5_of(cell_of(row, plan.zip_col as int))], plan.target)
}

/// The job of the lookup-repair strategy for a row: none for a row with no
/// postal code, one that the table lacks, or one whose current code already
/// is the canonical one; else a pending job that sets the canonical code.
pub open spec fn repair_job(plan: PlanView, m: Map<Seq<char>, ZipInfoView>, row: Seq<Seq<char>>) -> Option<JobView> {
    let key = cell_of(row, plan.key_col as int);
    if !row_is_mapped(plan, m, row) {
        None
    } else if cell_of(row, plan.region_col as int) == row_canonical(plan, m, row) {
        None
    } else {
        Some(pending_job(key, repair_statement(plan, row_canonical(plan, m, row), key)))
    }
}

/// The jobs of the lookup-repair strategy for rows, in row order.
pub open spec fn repair_jobs(plan: PlanView, m: Map<Seq<char>, ZipInfoView>, rows: Seq<Seq<Seq<char>>>) -> Seq<JobView>
    decreases rows.len(),
{
    if rows.len() == 0 {
        Seq::empty()
    } else {
        let prev = repair_jobs(plan, m, rows.drop_last());
        match repair_job(plan, m, rows.last()) {
            Some(j) => prev.push(j),
            None => prev,
        }
    }
}

/// How many of the rows have a postal code.
pub open spec fn rows_with_zip(plan: PlanView, rows: Seq<Seq<Seq<char>>>) -> nat
    decreases rows.len(),
{
    if rows.len() == 0 {
        0
    } else {
        rows_with_zip(plan, rows.drop_last()) + if cell_of(rows.last(), plan.zip_col as int).len() > 0 {
            1nat
        } else {
            0nat
        }
    }
}

/// The selection statement whose columns `RepairPlan::for_canonical_codes`
/// reads: key, postal code and current code, in that order.
pub const CANONICAL_REPAIR_SELECTION: &'static str =
    "SELECT key_field, zip_code, county FROM table_name WHERE zip_code IS NOT NULL";

impl RepairPlan {
    /// The plan that repairs the `county` column of `table_name` to the
    /// three-digit canonical code, reading key, postal code and current code
    /// from the first three columns.
    pub fn for_canonical_codes() -> (r: RepairPlan)
        ensures
            r@.table == "table_name"@,
            r@.region_field == "county"@,
            r@.key_field == "key_field"@,
            r@.key_col == 0 && r@.zip_col == 1 && r@.region_col == 2,
            r@.target == CanonicalCode::FipsCode,
            r@.counts_rows_without_zip,
    {
        RepairPlan {
            table: "table_name".to_string(),
            region_field: "county".to_string(),
            key_field: "key_field".to_string(),
            key_col: 0,
            zip_col: 1,
            region_col: 2,
            target: CanonicalCode::FipsCode,
            counts_rows_without_zip: true,
        }
    }

    /// The plan that repairs the region-code column named by the
    /// configuration, in the table that the selection statement reads,
    /// locating key, postal code and region code by name in its column list.
    /// Fails with the error of a field (key, region, postal code, looked up
    /// in that order) that cannot be located.
    pub fn for_region_codes(selection_query: &str, key_field_name: &str, zip_field_name: &str, county_field_name: &str) -> (r: Result<RepairPlan, ColumnLookupError>)
        ensures
            match r {
                Ok(p) => {
                    &&& column_lookup(selection_query@, key_field_name@, Ok(p.key_col))
                    &&& column_lookup(selection_query@, county_field_name@, Ok(p.region_col))
                    &&& column_lookup(selection_query@, zip_field_name@, Ok(p.zip_col))
                    &&& p@.table == crate::select::table_name_of(selection_query@)
                    &&& p@.region_field == county_field_name@
                    &&& p@.key_field == key_field_name@
                    &&& p@.target == CanonicalCode::RegionCode
                    &&& !p@.counts_rows_without_zip
                },
                Err(e) => column_lookup(selection_query@, key_field_name@, Err(e))
                    || column_lookup(selection_query@, county_field_name@, Err(e))
                    || column_lookup(selection_query@, zip_field_name@, Err(e)),
            },
    {
        let key_col = match find_column_index_by_name(selection_query, key_field_name) {
            Ok(c) => c,
            Err(e) => { return Err(e); },
        };
        let region_col = match find_column_index_by_name(selection_query, county_field_name) {
            Ok(c) => c,
            Err(e) => { return Err(e); },
        };
        let zip_col = match find_column_index_by_name(selection_query, zip_field_name) {
            Ok(c) => c,
            Err(e) => { return Err(e); },
        };
        Ok(RepairPlan {
            table: extract_table_name(selection_query),
            region_field: county_field_name.to_string(),
            key_field: key_field_name.to_string(),
            key_col,
            zip_col,
            region_col,
            target: CanonicalCode::RegionCode,
            counts_rows_without_zip: false,
        })
    }
}

fn canonical_code_exec(info: &crate::lookup::ZipCountyInfo, target: CanonicalCode) -> (r: String)
    ensures
        r@ == canonical_code(info@, target),
{
    match target {
        CanonicalCode::RegionCode => info.county_code.clone(),
        CanonicalCode::FipsCode => info.fips_code.clone(),
    }
}

/// The repair statement for one key.
pub fn build_repair_statement(plan: &RepairPlan, code: &str, key: &str) -> (r: String)
    ensures
        r@ == repair_statement(plan@, code@, key@),
{
    let mut q = "UPDATE ".to_string();
    q.append(plan.table.as_str());
    q.append(" SET ");
    q.append(plan.region_field.as_str());
    q.append(" = '");
    q.append(code);
    q.append("' WHERE ");
    q.append(plan.key_field.as_str());
    q.append(" = '");
    q.append(key);
    q.append("'");
    q
}

/// The job of the lookup-repair strategy for row `row` of `batch`.
pub fn repair_job_for_row(plan: &RepairPlan, map: &ZipCountyMap, batch: &RowBatch, row: usize) -> (r: Option<QueryRecord>)
    requires
        row < batch@.rows.len(),
    ensures
        match repair_job(plan@, map@, batch@.rows[row as int]) {
            Some(j) => r matches Some(x) && x@ == j,
            None => r is None,
        },
{
    let key = batch.at(plan.key_col, row);
    let zip = batch.at(plan.zip_col, row);
    let current = batch.at(plan.region_col, row);
    if zip.as_str().is_empty() {
        return None;
    }
    let zip5 = normalize_zip(zip.as_str());
    match map.get(zip5.as_str()) {
        None => None,
        Some(info) => {
            let code = canonical_code_exec(info, plan.target);
            if current == code {
                None
            } else {
                let query = build_repair_statement(plan, code.as_str(), key.as_str());
                Some(QueryRecord::pending(key, query))
            }
        },
    }
}

/// What the lookup-repair strategy made of a batch.
pub struct RepairOutcome {
    /// Rows checked: all rows, or those with a postal code, as the plan says.
    pub checked: usize,
    /// The jobs, in row order.
    pub jobs: Vec<QueryRecord>,
}

/// Runs the lookup-repair strategy over a batch: one job per row whose
/// postal code is in the table and whose current code differs from the
/// canonical one.
pub fn generate_repair_jobs(plan: &RepairPlan, map: &ZipCountyMap, batch: &RowBatch) -> (r: RepairOutcome)
    ensures
        plan@.counts_rows_without_zip ==> r.checked == batch@.rows.len(),
        !plan@.counts_rows_without_zip ==> r.checked == rows_with_zip(plan@, batch@.rows),
        r.jobs@.len() == repair_jobs(plan@, map@, batch@.rows).len(),
        forall|i: int| 0 <= i < r.jobs@.len() ==> #[trigger] r.jobs@[i]@ == repair_jobs(plan@, map@, batch@.rows)[i],
{
    let ghost rows = batch@.rows;
    let mut jobs: Vec<QueryRecord> = Vec::new();
    let mut checked: usize = 0;
    let mut row: usize = 0;
    while row < batch.num_rows()
        invariant
            rows == batch@.rows,
            row <= rows.len(),
            plan@.counts_rows_without_zip ==> checked == row,
            !plan@.counts_rows_without_zip ==> checked == rows_with_zip(plan@, rows.take(row as int)),
            checked <= row,
            jobs@.len() == repair_jobs(plan@, map@, rows.take(row as int)).len(),
            forall|i: int| 0 <= i < jobs@.len() ==> #[trigger] jobs@[i]@ == repair_jobs(plan@, map@, rows.take(row as int))[i],
        decreases rows.len() - row,
    {
        assert(rows.take(row + 1).drop_last() =~= rows.take(row as int));
        assert(rows.take(row + 1).last() == rows[row as int]);
        if plan.counts_rows_without_zip || !batch.at(plan.zip_col, row).as_str().is_empty() {
            checked = checked + 1;
        }
        match repair_job_for_row(plan, map, batch, row) {
            Some(job) => { jobs.push(job); },
            None => {},
        }
        row = row + 1;
    }
    assert(rows.take(rows.len() as int) =~= rows);
    RepairOutcome { checked, jobs }
}

/// A row whose postal code the table lacks gives no job.
pub proof fn lemma_unmapped_row_gives_no_job(plan: PlanView, m: Map<Seq<char>, ZipInfoView>, row: Seq<Seq<char>>)
    requires
        !m.contains_key(zip5_of(cell_of(row, plan.zip_col as int))),
    ensures
        repair_job(plan, m, row) is None,
{
}

/// A row whose current code already is the canonical code of its postal
/// code gives no job.
pub proof fn lemma_correct_row_gives_no_job(plan: PlanView, m: Map<Seq<char>, ZipInfoView>, row: Seq<Seq<char>>)
    requires
        m.contains_key(zip5_of(cell_of(row, plan.zip_col as int))),
        cell_of(row, plan.region_col as int) == canonical_code(m[zip5_of(cell_of(row, plan.zip_col as int))], plan.target),
    ensures
        repair_job(plan, m, row) is None,
{
}

/// A row of `rows` that is mapped, not yet correct, and repaired by `job`.
pub open spec fn job_repairs_row(plan: PlanView, m: Map<Seq<char>, ZipInfoView>, rows: Seq<Seq<Seq<char>>>, i: int, job: JobView) -> bool {
    &&& 0 <= i < rows.len()
    &&& row_is_mapped(plan, m, rows[i])
    &&& cell_of(rows[i], plan.region_col as int) != row_canonical(plan, m, rows[i])
    &&& repair_job(plan, m, rows[i]) == Some(job)
}

/// The row that job `j` of the lookup-repair strategy over `rows` came from.
pub open spec fn source_row(plan: PlanView, m: Map<Seq<char>, ZipInfoView>, rows: Seq<Seq<Seq<char>>>, j: int) -> int
    decreases rows.len(),
{
    if rows.len() == 0 {
        0
    } else if j < repair_jobs(plan, m, rows.drop_last()).len() {
        source_row(plan, m, rows.drop_last(), j)
    } else {
        rows.len() - 1
    }
}

/// Every job of a batch repairs one of its rows whose postal code is in the
/// table and whose current code differs from the canonical one: rows that
/// the table lacks, and rows already correct, give none.
pub proof fn lemma_jobs_come_from_mismatched_rows(plan: PlanView, m: Map<Seq<char>, ZipInfoView>, rows: Seq<Seq<Seq<char>>>)
    ensures
        forall|j: int| 0 <= j < repair_jobs(plan, m, rows).len() ==> job_repairs_row(
            plan,
            m,
            rows,
            source_row(plan, m, rows, j),
            #[trigger] repair_jobs(plan, m, rows)[j],
        ),
    decreases rows.len(),
{
    if rows.len() > 0 {
        let prev = rows.drop_last();
        lemma_jobs_come_from_mismatched_rows(plan, m, prev);
        assert forall|j: int| 0 <= j < repair_jobs(plan, m, rows).len() implies job_repairs_row(
            plan,
            m,
            rows,
            source_row(plan, m, rows, j),
            #[trigger] repair_jobs(plan, m, rows)[j],
        ) by {
            if j < repair_jobs(plan, m, prev).len() {
                let i = source_row(plan, m, prev, j);
                assert(repair_jobs(plan, m, rows)[j] == repair_jobs(plan, m, prev)[j]);
                assert(prev[i] == rows[i]);
            } else {
                assert(rows[rows.len() - 1] == rows.last());
            }
        }
    }
}

} // verus!
