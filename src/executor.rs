use vstd::prelude::*;

use crate::job::{pending_job, ErrorRecord, ErrorView, JobView, QueryRecord, QueryStatus};
use crate::validate::{basic_sql_validation, statement_valid};

verus! {

/// What the data source answered to one submitted statement.
#[derive(Debug)]
pub enum ExecOutcome {
    /// The call succeeded and returned a result cursor.
    RowsReturned,
    /// The call succeeded and returned no cursor.
    NoRows,
    /// The driver reported an error, described by the text.
    DriverError(String),
}

/// How a call that succeeds without a cursor counts.
#[derive(Debug, Clone, Copy, PartialEq, Eq, Structural)]
pub enum NoRowsPolicy {
    Succeed,
    Fail,
}

/// What an execute pass does with a job it has read.
#[derive(Debug, Clone, Copy, PartialEq, Eq, Structural)]
pub enum JobAction {
    /// Leave it as it is, without a call to the data source.
    Skip,
    /// Submit its statement to the data source.
    Submit,
}

/// A completed job is never submitted again; any other is.
pub open spec fn action_for(job: JobView) -> JobAction {
    if job.status == QueryStatus::Completed {
        JobAction::Skip
    } else {
        JobAction::Submit
    }
}

/// The outcome makes the job `Completed`.
pub open spec fn succeeded(outcome: ExecOutcome, policy: NoRowsPolicy) -> bool {
    match outcome {
        ExecOutcome::RowsReturned => true,
        ExecOutcome::NoRows => policy == NoRowsPolicy::Succeed,
        ExecOutcome::DriverError(_) => false,
    }
}

/// The result text that a job records for an outcome.
pub open spec fn result_text(outcome: ExecOutcome, policy: NoRowsPolicy) -> Seq<char> {
    match outcome {
        ExecOutcome::RowsReturned => "success - operation completed"@,
        ExecOutcome::NoRows => if policy == NoRowsPolicy::Succeed {
            "success"@
        } else {
            "error: No rows updated"@
        },
        ExecOutcome::DriverError(e) => "error: "@ + e@,
    }
}

/// The message that the error log records for an outcome, if it is a failure.
pub open spec fn logged_error(outcome: ExecOutcome, policy: NoRowsPolicy) -> Option<Seq<char>> {
    match outcome {
        ExecOutcome::RowsReturned => None,
        ExecOutcome::NoRows => if policy == NoRowsPolicy::Succeed {
            None
        } else {
            Some("Expected 1 row to be updated, but 0 rows were affected"@)
        },
        ExecOutcome::DriverError(e) => Some(e@),
    }
}

/// A submitted job after its outcome: key and statement kept, status
/// terminal, result and timestamp set.
pub open spec fn settled_job(job: JobView, outcome: ExecOutcome, policy: NoRowsPolicy, timestamp: Seq<char>) -> JobView {
    JobView {
        key: job.key,
        query: job.query,
        status: if succeeded(outcome, policy) { QueryStatus::Completed } else { QueryStatus::Failed },
        result: Some(result_text(outcome, policy)),
        timestamp: Some(timestamp),
    }
}

/// A job after one execute pass.
pub open spec fn passed_job(job: JobView, outcome: ExecOutcome, policy: NoRowsPolicy, timestamp: Seq<char>) -> JobView {
    if action_for(job) == JobAction::Skip {
        job
    } else {
        settled_job(job, outcome, policy, timestamp)
    }
}

/// A job whose status is updated, and the error log entry it adds.
pub struct SettledJob {
    pub job: QueryRecord,
    pub error: Option<ErrorRecord>,
}

/// What an execute pass decides for each job, and its running counts.
pub struct ExecutionPass {
    pub policy: NoRowsPolicy,
    pub succeeded: usize,
    pub failed: usize,
    pub skipped: usize,
}

impl ExecutionPass {
    pub open spec fn handled(&self) -> int {
        self.succeeded + self.failed + self.skipped
    }

    pub fn new(policy: NoRowsPolicy) -> (r: ExecutionPass)
        ensures
            r.policy == policy,
            r.succeeded == 0 && r.failed == 0 && r.skipped == 0,
    {
        ExecutionPass { policy, succeeded: 0, failed: 0, skipped: 0 }
    }

    /// Decides whether a job is submitted; a skipped one is counted.
    pub fn next_action(&mut self, job: &QueryRecord) -> (r: JobAction)
        requires
            old(self).handled() < usize::MAX,
        ensures
            r == action_for(job@),
            final(self).policy == old(self).policy,
            final(self).succeeded == old(self).succeeded,
            final(self).failed == old(self).failed,
            final(self).skipped == old(self).skipped + if r == JobAction::Skip { 1int } else { 0int },
    {
        if job.status == QueryStatus::Completed {
            self.skipped = self.skipped + 1;
            JobAction::Skip
        } else {
            JobAction::Submit
        }
    }

    /// Counts a job file that could not be read or parsed as a failure; the
    /// file itself is left as it is.
    pub fn job_unreadable(&mut self)
        requires
            old(self).handled() < usize::MAX,
        ensures
            final(self).policy == old(self).policy,
            final(self).succeeded == old(self).succeeded,
            final(self).failed == old(self).failed + 1,
            final(self).skipped == old(self).skipped,
    {
        self.failed = self.failed + 1;
    }

    /// Records the outcome of a submitted job: its new status, result and
    /// timestamp, the error log entry of a failure (naming `file_name`), and
    /// the count it adds to.
    pub fn settle(&mut self, job: QueryRecord, outcome: ExecOutcome, timestamp: String, file_name: String) -> (r: SettledJob)
        requires
            old(self).handled() < usize::MAX,
        ensures
            r.job@ == settled_job(job@, outcome, old(self).policy, timestamp@),
            match logged_error(outcome, old(self).policy) {
                Some(e) => r.error matches Some(x) && x@ == (ErrorView {
                    key: job.key@,
                    file: file_name@,
                    error: e,
                    timestamp: timestamp@,
                }),
                None => r.error is None,
            },
            final(self).policy == old(self).policy,
            final(self).skipped == old(self).skipped,
            succeeded(outcome, old(self).policy) ==> final(self).succeeded == old(self).succeeded + 1
                && final(self).failed == old(self).failed,
            !succeeded(outcome, old(self).policy) ==> final(self).failed == old(self).failed + 1
                && final(self).succeeded == old(self).succeeded,
    {
        let key = job.key;
        let query = job.query;
        let (status, result, error) = match outcome {
            ExecOutcome::RowsReturned => (QueryStatus::Completed, "success - operation completed".to_string(), None),
            ExecOutcome::NoRows => match self.policy {
                NoRowsPolicy::Succeed => (QueryStatus::Completed, "success".to_string(), None),
                NoRowsPolicy::Fail => (
                    QueryStatus::Failed,
                    "error: No rows updated".to_string(),
                    Some("Expected 1 row to be updated, but 0 rows were affected".to_string()),
                ),
            },
            ExecOutcome::DriverError(e) => {
                let mut result = "error: ".to_string();
                result.append(e.as_str());
                (QueryStatus::Failed, result, Some(e))
            },
        };
        if status == QueryStatus::Completed {
            self.succeeded = self.succeeded + 1;
        } else {
            self.failed = self.failed + 1;
        }
        let error_record = match error {
            Some(message) => Some(ErrorRecord {
                key: key.clone(),
                file: file_name,
                error: message,
                timestamp: timestamp.clone(),
            }),
            None => None,
        };
        SettledJob {
            job: QueryRecord { key, query, status, result: Some(result), timestamp: Some(timestamp) },
            error: error_record,
        }
    }
}

/// An execute pass leaves a completed job as it is, without a call to the
/// data source; a job that it settles keeps its key and statement, and is
/// `Completed` exactly when its call succeeded.
pub proof fn lemma_pass_keeps_completed(job: JobView, outcome: ExecOutcome, policy: NoRowsPolicy, timestamp: Seq<char>)
    ensures
        job.status == QueryStatus::Completed ==> action_for(job) == JobAction::Skip
            && passed_job(job, outcome, policy, timestamp) == job,
        passed_job(job, outcome, policy, timestamp).key == job.key,
        passed_job(job, outcome, policy, timestamp).query == job.query,
        action_for(job) == JobAction::Submit ==> (passed_job(job, outcome, policy, timestamp).status
            == QueryStatus::Completed <==> succeeded(outcome, policy)),
{
}

/// A new job keeps its key and statement and carries neither a result nor a
/// timestamp; only an execute pass that submits it sets both, keeping key and
/// statement.
pub proof fn lemma_outcome_set_only_when_settled(
    key: Seq<char>,
    query: Seq<char>,
    outcome: ExecOutcome,
    policy: NoRowsPolicy,
    timestamp: Seq<char>,
)
    ensures
        pending_job(key, query).key == key && pending_job(key, query).query == query,
        pending_job(key, query).status == QueryStatus::Pending,
        pending_job(key, query).result is None && pending_job(key, query).timestamp is None,
        action_for(pending_job(key, query)) == JobAction::Submit,
        passed_job(pending_job(key, query), outcome, policy, timestamp).key == key,
        passed_job(pending_job(key, query), outcome, policy, timestamp).query == query,
        passed_job(pending_job(key, query), outcome, policy, timestamp).result == Some(result_text(outcome, policy)),
        passed_job(pending_job(key, query), outcome, policy, timestamp).timestamp == Some(timestamp),
{
}

/// Running the executor twice over the same jobs: the second pass calls the
/// data source for no job that was `Completed` before the first pass or that
/// the first pass completed; it submits only jobs whose first submission
/// failed.
pub proof fn lemma_rerun_submits_only_failures(
    jobs: Seq<JobView>,
    outcomes: Seq<ExecOutcome>,
    stamps: Seq<Seq<char>>,
    policy: NoRowsPolicy,
)
    requires
        outcomes.len() == jobs.len(),
        stamps.len() == jobs.len(),
    ensures
        forall|i: int| 0 <= i < jobs.len() && #[trigger] jobs[i].status == QueryStatus::Completed
            ==> action_for(passed_job(jobs[i], outcomes[i], policy, stamps[i])) == JobAction::Skip,
        forall|i: int| 0 <= i < jobs.len() && action_for(#[trigger] passed_job(jobs[i], outcomes[i], policy, stamps[i]))
            == JobAction::Submit ==> action_for(jobs[i]) == JobAction::Submit && !succeeded(outcomes[i], policy),
{
}

/// Counts of an offline validation pass.
pub struct ValidationTally {
    pub valid: usize,
    pub invalid: usize,
}

impl ValidationTally {
    pub fn new() -> (r: ValidationTally)
        ensures
            r.valid == 0 && r.invalid == 0,
    {
        ValidationTally { valid: 0, invalid: 0 }
    }

    /// Lints a stored statement and counts it as valid or invalid.
    pub fn check(&mut self, statement: &str) -> (r: bool)
        requires
            old(self).valid + old(self).invalid < usize::MAX,
        ensures
            r == statement_valid(statement@),
            r ==> final(self).valid == old(self).valid + 1 && final(self).invalid == old(self).invalid,
            !r ==> final(self).invalid == old(self).invalid + 1 && final(self).valid == old(self).valid,
    {
        let r = basic_sql_validation(statement);
        if r {
            self.valid = self.valid + 1;
        } else {
            self.invalid = self.invalid + 1;
        }
        r
    }

    /// Counts a job file that could not be read or parsed as invalid.
    pub fn job_unreadable(&mut self)
        requires
            old(self).valid + old(self).invalid < usize::MAX,
        ensures
            final(self).valid == old(self).valid,
            final(self).invalid == old(self).invalid + 1,
    {
        self.invalid = self.invalid + 1;
    }
}

} // verus!
