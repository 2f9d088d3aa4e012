use batch_processor::executor::{ExecOutcome, ExecutionPass, JobAction, NoRowsPolicy};
use batch_processor::job::{QueryRecord, QueryStatus};

fn job(key: &str) -> QueryRecord {
    QueryRecord::pending(key.to_string(), format!("UPDATE t SET a='1' WHERE id='{}'", key))
}

#[test]
fn new_job_has_no_result_or_timestamp() {
    let j = job("k1");
    assert_eq!(j.key, "k1");
    assert_eq!(j.query, "UPDATE t SET a='1' WHERE id='k1'");
    assert_eq!(j.status, QueryStatus::Pending);
    assert!(j.result.is_none());
    assert!(j.timestamp.is_none());
}

#[test]
fn completed_job_is_skipped_on_the_second_pass() {
    let mut first = ExecutionPass::new(NoRowsPolicy::Succeed);
    let j = job("k1");
    assert_eq!(first.next_action(&j), JobAction::Submit);
    let settled = first.settle(j, ExecOutcome::RowsReturned, "2024-01-01T00:00:00Z".to_string(), "k1.json".to_string());
    assert_eq!(settled.job.status, QueryStatus::Completed);
    assert!(settled.error.is_none());
    let mut second = ExecutionPass::new(NoRowsPolicy::Succeed);
    assert_eq!(second.next_action(&settled.job), JobAction::Skip);
    assert_eq!(second.skipped, 1);
    assert_eq!(second.succeeded + second.failed, 0);
}

#[test]
fn success_with_cursor_records_result_and_time() {
    let mut pass = ExecutionPass::new(NoRowsPolicy::Succeed);
    let s = pass.settle(job("k1"), ExecOutcome::RowsReturned, "T1".to_string(), "k1.json".to_string());
    assert_eq!(s.job.result.as_deref(), Some("success - operation completed"));
    assert_eq!(s.job.timestamp.as_deref(), Some("T1"));
    assert_eq!(s.job.key, "k1");
    assert_eq!(pass.succeeded, 1);
}

#[test]
fn no_cursor_counts_as_success_under_the_permissive_policy() {
    let mut pass = ExecutionPass::new(NoRowsPolicy::Succeed);
    let s = pass.settle(job("k1"), ExecOutcome::NoRows, "T1".to_string(), "k1.json".to_string());
    assert_eq!(s.job.status, QueryStatus::Completed);
    assert_eq!(s.job.result.as_deref(), Some("success"));
    assert!(s.error.is_none());
    assert_eq!((pass.succeeded, pass.failed), (1, 0));
}

#[test]
fn no_cursor_fails_under_the_strict_policy() {
    let mut pass = ExecutionPass::new(NoRowsPolicy::Fail);
    let s = pass.settle(job("k1"), ExecOutcome::NoRows, "T1".to_string(), "k1.json".to_string());
    assert_eq!(s.job.status, QueryStatus::Failed);
    assert_eq!(s.job.result.as_deref(), Some("error: No rows updated"));
    let e = s.error.unwrap();
    assert_eq!(e.error, "Expected 1 row to be updated, but 0 rows were affected");
    assert_eq!(e.file, "k1.json");
    assert_eq!((pass.succeeded, pass.failed), (0, 1));
}

#[test]
fn driver_error_fails_and_is_logged() {
    let mut pass = ExecutionPass::new(NoRowsPolicy::Succeed);
    let s = pass.settle(job("k9"), ExecOutcome::DriverError("syntax".to_string()), "T2".to_string(), "k9.json".to_string());
    assert_eq!(s.job.status, QueryStatus::Failed);
    assert_eq!(s.job.result.as_deref(), Some("error: syntax"));
    let e = s.error.unwrap();
    assert_eq!(e.key, "k9");
    assert_eq!(e.error, "syntax");
    assert_eq!(e.timestamp, "T2");
    assert_eq!(pass.failed, 1);
}

#[test]
fn failed_job_is_submitted_again() {
    let mut pass = ExecutionPass::new(NoRowsPolicy::Succeed);
    let s = pass.settle(job("k9"), ExecOutcome::DriverError("x".to_string()), "T".to_string(), "k9.json".to_string());
    let mut again = ExecutionPass::new(NoRowsPolicy::Succeed);
    assert_eq!(again.next_action(&s.job), JobAction::Submit);
}

#[test]
fn unreadable_job_counts_as_failure() {
    let mut pass = ExecutionPass::new(NoRowsPolicy::Succeed);
    pass.job_unreadable();
    assert_eq!(pass.failed, 1);
}
