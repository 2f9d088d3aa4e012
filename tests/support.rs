use batch_processor::seed::{build_test_insert, TestRowDraw};
use batch_processor::columns::{find_column_index, find_column_index_by_pattern, find_column_index_by_position};
use batch_processor::config::{default_batch_size, default_check_again_after, default_update_query_template, resolve_setting, AppConfig};
use batch_processor::job::{error_log_path, is_job_file_name, is_safe_key, job_file_path};
use batch_processor::processed::ProcessedRecords;
use batch_processor::schedule::WaitClock;
use batch_processor::batch::RowBatch;

fn batch(cells: &[&str]) -> RowBatch {
    RowBatch::new(cells.len(), vec![cells.iter().map(|c| c.to_string()).collect()])
}

#[test]
fn job_files_are_named_by_key() {
    assert_eq!(job_file_path("results_1", "k1"), Some("results_1/k1.json".to_string()));
    assert_eq!(error_log_path("results_1"), "results_1/errors.json");
}

#[test]
fn keys_that_cannot_name_a_file_are_rejected() {
    assert_eq!(job_file_path("r", "../x"), None);
    assert_eq!(job_file_path("r", "a\\b"), None);
    assert_eq!(job_file_path("r", ""), None);
    assert!(!is_safe_key(".."));
    assert!(!is_safe_key("errors"));
    assert!(is_safe_key("testkey_1"));
}

#[test]
fn only_job_files_are_enumerated() {
    assert!(is_job_file_name("k1.json"));
    assert!(!is_job_file_name("errors.json"));
    assert!(!is_job_file_name("batch_process.log"));
    assert!(!is_job_file_name(".json"));
}

#[test]
fn processed_records_keep_no_duplicates() {
    let mut p = ProcessedRecords::new();
    p.add("k1".to_string(), "T".to_string(), "updated".to_string());
    p.add("k1".to_string(), "T".to_string(), "updated".to_string());
    p.add("k1".to_string(), "T2".to_string(), "skipped".to_string());
    assert_eq!(p.processed.len(), 2);
    assert!(p.is_processed("k1"));
    assert!(!p.is_processed("k2"));
    assert_eq!(p.get_action("k1"), Some("updated".to_string()));
    assert_eq!(p.get_action("k2"), None);
}

#[test]
fn wait_clock_counts_polls_and_stops_on_trigger() {
    let mut c = WaitClock::new(1);
    assert_eq!(c.limit_ms, 1000);
    assert!(!c.is_over());
    assert!(!c.on_poll(None));
    assert!(!c.on_poll(Some('x')));
    assert_eq!(c.waited_ms, 200);
    assert!(c.on_poll(Some('R')));
    assert!(c.on_poll(Some('r')));
    assert_eq!(c.waited_ms, 200);
    for _ in 0..8 {
        c.on_poll(None);
    }
    assert!(c.is_over());
}

#[test]
fn wait_clock_saturates() {
    assert_eq!(WaitClock::new(u64::MAX).limit_ms, u64::MAX);
    assert!(WaitClock::new(0).is_over());
}

#[test]
fn configured_setting_wins_over_environment() {
    assert_eq!(resolve_setting("dsn1", Some("env".to_string())), Some("dsn1".to_string()));
    assert_eq!(resolve_setting("", Some("env".to_string())), Some("env".to_string()));
    assert_eq!(resolve_setting("", None), None);
}

#[test]
fn configuration_defaults() {
    let c = AppConfig::default();
    assert_eq!(c.batch_size, 100);
    assert_eq!(c.check_again_after, 1800);
    assert_eq!(c.key_field_name, "key_field");
    assert_eq!(c.zip_field_name, "zip_code");
    assert_eq!(c.county_field_name, "county");
    assert_eq!(c.odbc_dsn, "");
    assert_eq!(default_batch_size(), 100);
    assert_eq!(default_check_again_after(), 1800);
    assert_eq!(default_update_query_template(), "UPDATE table_name SET field1 = 'new_value' WHERE key_field = '{{key}}'");
}

#[test]
fn column_by_position_falls_back_to_first() {
    let b = batch(&["a", "b"]);
    assert_eq!(find_column_index_by_position(&b, 1), 1);
    assert_eq!(find_column_index_by_position(&b, 5), 0);
}

#[test]
fn column_by_pattern_finds_zip_and_county_values() {
    let b = batch(&["key", "033", "98115-1234"]);
    assert_eq!(find_column_index_by_pattern(&b, "zip_code", 0), 2);
    assert_eq!(find_column_index_by_pattern(&b, "county", 0), 1);
    assert_eq!(find_column_index_by_pattern(&b, "other", 1), 1);
    assert_eq!(find_column_index_by_pattern(&b, "other", 9), 0);
}

#[test]
fn known_columns_by_name() {
    let b = batch(&["key", "98115", "17"]);
    assert_eq!(find_column_index(&b, "zip"), Some(1));
    assert_eq!(find_column_index(&b, "county_code"), Some(2));
    assert_eq!(find_column_index(&b, "key_field"), Some(0));
    assert_eq!(find_column_index(&b, "name"), None);
    let empty = RowBatch::new(3, vec![]);
    assert_eq!(find_column_index(&empty, "zip"), None);
}

#[test]
fn test_row_statement_pads_the_extension() {
    let draw = TestRowDraw {
        number: 12,
        zip_code: "98602".to_string(),
        fips_code: "039".to_string(),
        field1: 1234,
        field2: 567,
        selected: true,
        extension: 42,
    };
    assert_eq!(
        build_test_insert(&draw),
        "INSERT INTO table_name (key_field, field1, field2, condition, county, zip_code) VALUES ('testkey_12', 'value_1234', 'data_567', 't', '039', '98602-0042')"
    );
}
