use batch_processor::job::QueryStatus;
use batch_processor::lookup::{ZipCountyInfo, ZipCountyMap};
use batch_processor::batch::RowBatch;
use batch_processor::repair::{
    build_repair_statement, generate_repair_jobs, repair_job_for_row, RepairPlan, CANONICAL_REPAIR_SELECTION,
};
use batch_processor::template::{bindings_for_row, generate_template_jobs, render_template};

fn row(cells: &[&str]) -> Vec<String> {
    cells.iter().map(|c| c.to_string()).collect()
}

fn info(region: &str, canonical: &str) -> ZipCountyInfo {
    ZipCountyInfo {
        county_code: region.to_string(),
        division: "A".to_string(),
        fips_code: canonical.to_string(),
        county_name: "King County".to_string(),
    }
}

fn two_entry_map() -> ZipCountyMap {
    let mut map = ZipCountyMap::new();
    map.insert("98115".to_string(), info("17", "033"));
    map.insert("98040".to_string(), info("17", "033"));
    map
}

const SELECTION: &str = "SELECT key_field, zip_code, county FROM table_name WHERE zip_code IS NOT NULL";

#[test]
fn end_to_end_repairs_only_the_mismatched_mapped_row() {
    let map = two_entry_map();
    let plan = RepairPlan::for_region_codes(SELECTION, "key_field", "zip_code", "county").unwrap();
    let batch = RowBatch::new(
        3,
        vec![row(&["k1", "98115", "99"]), row(&["k2", "00000", "05"]), row(&["k3", "98040", "17"])],
    );
    let outcome = generate_repair_jobs(&plan, &map, &batch);
    assert_eq!(outcome.checked, 3);
    assert_eq!(outcome.jobs.len(), 1);
    let job = &outcome.jobs[0];
    assert_eq!(job.key, "k1");
    assert_eq!(job.query, "UPDATE TABLE_NAME SET county = '17' WHERE key_field = 'k1'");
    assert_eq!(job.status, QueryStatus::Pending);
    assert_eq!(job.result, None);
    assert_eq!(job.timestamp, None);
}

#[test]
fn unmapped_postal_code_gives_no_job() {
    let map = two_entry_map();
    let plan = RepairPlan::for_canonical_codes();
    let batch = RowBatch::new(3, vec![row(&["k2", "00000-1111", "99"])]);
    assert!(repair_job_for_row(&plan, &map, &batch, 0).is_none());
}

#[test]
fn already_correct_code_gives_no_job() {
    let map = two_entry_map();
    let plan = RepairPlan::for_canonical_codes();
    let batch = RowBatch::new(3, vec![row(&["k3", "98040-2222", "033"])]);
    assert!(repair_job_for_row(&plan, &map, &batch, 0).is_none());
}

#[test]
fn canonical_plan_columns_follow_its_selection() {
    let plan = RepairPlan::for_canonical_codes();
    let named = RepairPlan::for_region_codes(CANONICAL_REPAIR_SELECTION, "key_field", "zip_code", "county").unwrap();
    assert_eq!((plan.key_col, plan.zip_col, plan.region_col), (named.key_col, named.zip_col, named.region_col));
}

#[test]
fn canonical_code_plan_repairs_to_the_three_digit_code() {
    let map = two_entry_map();
    let plan = RepairPlan::for_canonical_codes();
    let batch = RowBatch::new(3, vec![row(&["k1", "98115-1234", "17"])]);
    let job = repair_job_for_row(&plan, &map, &batch, 0).unwrap();
    assert_eq!(job.query, "UPDATE table_name SET county = '033' WHERE key_field = 'k1'");
}

#[test]
fn canonical_plan_counts_rows_without_postal_code() {
    let map = two_entry_map();
    let plan = RepairPlan::for_canonical_codes();
    let batch = RowBatch::new(3, vec![row(&["k1", "", "99"]), row(&["k2", "98115", "99"])]);
    let outcome = generate_repair_jobs(&plan, &map, &batch);
    assert_eq!(outcome.checked, 2);
    assert_eq!(outcome.jobs.len(), 1);
    assert_eq!(outcome.jobs[0].key, "k2");
}

#[test]
fn region_plan_skips_rows_without_postal_code() {
    let map = two_entry_map();
    let plan = RepairPlan::for_region_codes(SELECTION, "key_field", "zip_code", "county").unwrap();
    let batch = RowBatch::new(3, vec![row(&["k1", "", "99"]), row(&["k2", "98115", "99"])]);
    let outcome = generate_repair_jobs(&plan, &map, &batch);
    assert_eq!(outcome.checked, 1);
    assert_eq!(outcome.jobs.len(), 1);
    assert_eq!(outcome.jobs[0].key, "k2");
}

#[test]
fn inserted_values_are_not_scanned_again() {
    let bindings = vec![("key".to_string(), "{{field1}}".to_string()), ("field1".to_string(), "v".to_string())];
    assert_eq!(render_template("{{key}}", &bindings), "{{field1}}");
}

#[test]
fn only_placeholders_of_the_template_are_replaced() {
    let bindings = vec![("key".to_string(), "field1".to_string()), ("field1".to_string(), "v".to_string())];
    assert_eq!(render_template("{{{{key}}}}", &bindings), "{{field1}}");
    assert_eq!(render_template("{{{{key}}", &bindings), "{{field1");
}

#[test]
fn region_plan_resolves_columns_by_name() {
    let plan = RepairPlan::for_region_codes(
        "SELECT county, id, zip FROM people WHERE 1=1",
        "id",
        "zip",
        "county",
    )
    .unwrap();
    assert_eq!(plan.key_col, 1);
    assert_eq!(plan.zip_col, 2);
    assert_eq!(plan.region_col, 0);
    assert_eq!(plan.table, "PEOPLE");
}

#[test]
fn region_plan_fails_on_a_missing_field() {
    let r = RepairPlan::for_region_codes(SELECTION, "id", "zip_code", "county");
    assert!(r.is_err());
}

#[test]
fn repair_statement_text() {
    let plan = RepairPlan::for_canonical_codes();
    assert_eq!(
        build_repair_statement(&plan, "033", "A-1"),
        "UPDATE table_name SET county = '033' WHERE key_field = 'A-1'"
    );
}

#[test]
fn bindings_name_key_then_fields() {
    let batch = RowBatch::new(3, vec![row(&["7", "x", "y"])]);
    let b = bindings_for_row(&batch, 0);
    assert_eq!(
        b,
        vec![
            ("key".to_string(), "7".to_string()),
            ("field1".to_string(), "x".to_string()),
            ("field2".to_string(), "y".to_string()),
        ]
    );
}

#[test]
fn bindings_count_past_nine_columns() {
    let cells: Vec<String> = (0..12).map(|i| format!("v{}", i)).collect();
    let batch = RowBatch::new(12, vec![cells]);
    let b = bindings_for_row(&batch, 0);
    assert_eq!(b[11], ("field11".to_string(), "v11".to_string()));
}

#[test]
fn template_replaces_every_occurrence_and_keeps_unknown_placeholders() {
    let bindings = vec![("key".to_string(), "42".to_string()), ("field1".to_string(), "x".to_string())];
    let out = render_template("UPDATE t SET a='{{field1}}', b='{{field1}}' WHERE k='{{key}}' -- {{other}}", &bindings);
    assert_eq!(out, "UPDATE t SET a='x', b='x' WHERE k='42' -- {{other}}");
}

#[test]
fn template_jobs_one_per_row() {
    let batch = RowBatch::new(2, vec![row(&["a", "1"]), row(&["b", "2"])]);
    let jobs = generate_template_jobs("UPDATE t SET v='{{field1}}' WHERE key_field = '{{key}}'", &batch);
    assert_eq!(jobs.len(), 2);
    assert_eq!(jobs[0].key, "a");
    assert_eq!(jobs[0].query, "UPDATE t SET v='1' WHERE key_field = 'a'");
    assert_eq!(jobs[1].query, "UPDATE t SET v='2' WHERE key_field = 'b'");
    assert_eq!(jobs[1].status, QueryStatus::Pending);
}

#[test]
fn missing_cells_read_as_empty() {
    let batch = RowBatch::new(3, vec![row(&["a"])]);
    assert_eq!(batch.at(2, 0), "");
    assert_eq!(batch.at(0, 5), "");
    assert_eq!(batch.num_rows(), 1);
    assert_eq!(batch.num_cols(), 3);
}
