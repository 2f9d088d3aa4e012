use batch_processor::executor::ValidationTally;
use batch_processor::validate::{basic_sql_validation, check_normalized_statement};

#[test]
fn update_with_set_and_where_is_valid() {
    assert!(basic_sql_validation("UPDATE t SET a='1' WHERE id='2'"));
}

#[test]
fn update_without_where_is_invalid() {
    assert!(!basic_sql_validation("UPDATE t SET a='1'"));
}

#[test]
fn select_is_not_an_allowed_verb() {
    assert!(!basic_sql_validation("SELECT 1"));
}

#[test]
fn insert_with_unbalanced_parentheses_is_invalid() {
    assert!(!basic_sql_validation("INSERT INTO t (a) VALUES ('x'"));
}

#[test]
fn insert_with_values_is_valid() {
    assert!(basic_sql_validation("INSERT INTO t (a) VALUES ('x')"));
}

#[test]
fn insert_from_select_is_valid() {
    assert!(basic_sql_validation("INSERT INTO t SELECT a FROM s"));
}

#[test]
fn insert_without_values_or_select_is_invalid() {
    assert!(!basic_sql_validation("INSERT INTO t (a)"));
}

#[test]
fn delete_needs_from() {
    assert!(basic_sql_validation("DELETE FROM t WHERE id = 1"));
    assert!(!basic_sql_validation("DELETE t WHERE id = 1"));
}

#[test]
fn empty_and_blank_statements_are_invalid() {
    assert!(!basic_sql_validation(""));
    assert!(!basic_sql_validation("   \t\n"));
}

#[test]
fn lower_case_and_padded_statements_are_normalized() {
    assert!(basic_sql_validation("  update t set a = '1' where id = '2'  "));
    assert!(!check_normalized_statement("update t set a = '1' where id = '2'"));
}

#[test]
fn open_quotes_are_invalid() {
    assert!(!basic_sql_validation("UPDATE t SET a='1 WHERE id='2'"));
    assert!(!basic_sql_validation("UPDATE t SET a=\"1 WHERE id=2"));
}

#[test]
fn a_quote_inside_the_other_kind_does_not_count() {
    assert!(basic_sql_validation("UPDATE t SET a=\"it's\" WHERE id=2"));
    assert!(basic_sql_validation("UPDATE t SET a='say \"hi' WHERE id=2"));
}

#[test]
fn closing_parenthesis_first_is_invalid() {
    assert!(!basic_sql_validation("UPDATE t SET a=1 WHERE id IN )1,2("));
}

#[test]
fn validation_tally_counts_each_kind() {
    let mut tally = ValidationTally::new();
    assert!(tally.check("UPDATE t SET a='1' WHERE id='2'"));
    assert!(!tally.check("SELECT 1"));
    tally.job_unreadable();
    assert_eq!(tally.valid, 1);
    assert_eq!(tally.invalid, 2);
}
