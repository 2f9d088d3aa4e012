use batch_processor::select::{extract_table_name, find_column_index_by_name, ColumnLookupError};

const SELECTION: &str = "SELECT key_field, zip_code, county FROM table_name WHERE zip_code IS NOT NULL";

#[test]
fn column_positions_follow_the_select_list() {
    assert_eq!(find_column_index_by_name(SELECTION, "key_field"), Ok(0));
    assert_eq!(find_column_index_by_name(SELECTION, "zip_code"), Ok(1));
    assert_eq!(find_column_index_by_name(SELECTION, "county"), Ok(2));
}

#[test]
fn column_match_ignores_case_and_qualifiers() {
    let q = "select t.KEY_FIELD, t.Zip FROM t";
    assert_eq!(find_column_index_by_name(q, "key_field"), Ok(0));
    assert_eq!(find_column_index_by_name(q, "zip"), Ok(1));
}

#[test]
fn missing_field_is_an_error() {
    assert_eq!(find_column_index_by_name(SELECTION, "region"), Err(ColumnLookupError::FieldNotFound));
}

#[test]
fn statement_without_from_is_an_error() {
    assert_eq!(find_column_index_by_name("SELECT a, b", "a"), Err(ColumnLookupError::MissingFrom));
    assert_eq!(find_column_index_by_name(" FROM t SELECT a", "a"), Err(ColumnLookupError::MissingFrom));
}

#[test]
fn statement_without_select_is_an_error() {
    assert_eq!(find_column_index_by_name("UPDATE t SET a = 1", "a"), Err(ColumnLookupError::MissingSelect));
}

#[test]
fn table_name_stops_at_where() {
    assert_eq!(extract_table_name(SELECTION), "TABLE_NAME");
}

#[test]
fn table_name_stops_at_limit() {
    assert_eq!(extract_table_name("select a from people limit 10"), "PEOPLE");
}

#[test]
fn table_name_runs_to_the_end() {
    assert_eq!(extract_table_name("  SELECT a FROM  people  "), "PEOPLE");
}

#[test]
fn table_name_falls_back_without_from() {
    assert_eq!(extract_table_name("SELECT 1"), "table_name");
}
