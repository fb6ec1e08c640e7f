//! The bounded polling protocol for long-running remote jobs.
//!
//! A submitted job is awaited by sleeping one interval, polling once, and
//! classifying what came back, until a terminal state or the attempt
//! budget ends the wait. Classification is the poller's own duty: provider
//! status spellings are normalized into the closed four-state model before
//! any branching, so nothing else in the pipeline reads a provider string.
//! A failed poll request is transient: it consumes one attempt and the
//! wait goes on. A terminal failure aborts at once; terminal success with
//! no result locator is its own failure, not success.

use vstd::prelude::*;
use vstd::string::*;
use crate::errors::TaskFailure;

verus! {

/// Normalized task status: the closed model every provider status string
/// is mapped into.
#[derive(Debug, Clone, Copy, PartialEq, Eq, Structural)]
pub enum TaskStatus {
    Queued,
    Running,
    Succeeded,
    Failed,
}

/// What one poll attempt observed.
#[derive(Debug)]
pub enum PollOutcome {
    /// The poll request itself failed (a transport error). Transient:
    /// retried within the attempt budget, never fatal by itself.
    Transient,
    /// The service answered with a status; on success it may carry the
    /// locator of the produced asset.
    Observed { status: TaskStatus, locator: Option<String> },
}

impl Clone for PollOutcome {
    fn clone(&self) -> (r: Self)
        ensures
            r == *self,
    {
        match self {
            PollOutcome::Transient => PollOutcome::Transient,
            PollOutcome::Observed { status, locator } => PollOutcome::Observed {
                status: *status,
                locator: match locator {
                    Some(u) => Some(u.clone()),
                    None => None,
                },
            },
        }
    }
}

/// Waiting policy: the interval slept before every poll attempt including
/// the first, and the attempt budget. Configuration, not a constant.
#[derive(Debug, Clone, Copy, PartialEq, Eq, Structural)]
pub struct PollPolicy {
    pub interval_ms: u64,
    pub max_attempts: u64,
}

impl PollPolicy {
    /// At least one poll must be allowed, or no job could ever be awaited.
    pub open spec fn wf(self) -> bool {
        self.max_attempts >= 1
    }
}

/// The poller's decision after one classified poll attempt.
#[derive(Debug)]
pub enum TaskVerdict {
    /// Non-terminal and budget remains: sleep one interval and poll again.
    Continue,
    /// Terminal success with a usable result locator.
    Success { locator: String },
    /// The wait is over without a result: the job failed, the success
    /// response was empty, or the budget ran out.
    Fail { failure: TaskFailure },
}

/// Maps a provider status spelling to the closed status model. Exactly
/// "SUCCEEDED" is terminal success and exactly "FAILED" is terminal
/// failure; "PENDING" is queued; every other spelling counts as still
/// running.
pub open spec fn normalize_spec(s: Seq<char>) -> TaskStatus {
    if s == "SUCCEEDED"@ {
        TaskStatus::Succeeded
    } else if s == "FAILED"@ {
        TaskStatus::Failed
    } else if s == "PENDING"@ {
        TaskStatus::Queued
    } else {
        TaskStatus::Running
    }
}

/// Character-wise string comparison.
fn str_eq(a: &str, b: &str) -> (r: bool)
    ensures
        r == (a@ == b@),
{
    let n = a.unicode_len();
    let m = b.unicode_len();
    if n != m {
        proof {
            if a@ == b@ {
                assert(a@.len() == b@.len());
            }
        }
        return false;
    }
    let mut i: usize = 0;
    while i < n
        invariant
            n == a@.len(),
            n == b@.len(),
            i <= n,
            forall|j: int| 0 <= j < i ==> a@[j] == b@[j],
        decreases n - i,
    {
        if a.get_char(i) != b.get_char(i) {
            return false;
        }
        i = i + 1;
    }
    proof {
        assert(a@ =~= b@);
    }
    true
}

/// Normalizes one provider status string into the closed status model.
pub fn normalize_status(s: &str) -> (st: TaskStatus)
    ensures
        st == normalize_spec(s@),
{
    if str_eq(s, "SUCCEEDED") {
        TaskStatus::Succeeded
    } else if str_eq(s, "FAILED") {
        TaskStatus::Failed
    } else if str_eq(s, "PENDING") {
        TaskStatus::Queued
    } else {
        TaskStatus::Running
    }
}

/// The classification rule for the poll attempt made after
/// `attempts_before` earlier attempts: terminal failure aborts at once,
/// terminal success yields its locator or an empty-result failure, and a
/// non-terminal observation either continues or, when it consumed the last
/// budgeted attempt, times out.
pub open spec fn classify_spec(
    outcome: PollOutcome,
    attempts_before: u64,
    policy: PollPolicy,
) -> TaskVerdict {
    match outcome {
        PollOutcome::Observed { status: TaskStatus::Failed, locator: _ } => TaskVerdict::Fail {
            failure: TaskFailure::RemoteTaskFailed,
        },
        PollOutcome::Observed { status: TaskStatus::Succeeded, locator: Some(url) } => TaskVerdict::Success {
            locator: url,
        },
        PollOutcome::Observed { status: TaskStatus::Succeeded, locator: None } => TaskVerdict::Fail {
            failure: TaskFailure::EmptyResult,
        },
        _ => if attempts_before + 1 < policy.max_attempts {
            TaskVerdict::Continue
        } else {
            TaskVerdict::Fail { failure: TaskFailure::Timeout }
        },
    }
}

/// Classifies one poll attempt's outcome.
pub fn classify(outcome: PollOutcome, attempts_before: u64, policy: PollPolicy) -> (v: TaskVerdict)
    requires
        attempts_before < policy.max_attempts,
    ensures
        v == classify_spec(outcome, attempts_before, policy),
{
    match outcome {
        PollOutcome::Observed { status: TaskStatus::Failed, locator: _ } => TaskVerdict::Fail {
            failure: TaskFailure::RemoteTaskFailed,
        },
        PollOutcome::Observed { status: TaskStatus::Succeeded, locator: Some(url) } => TaskVerdict::Success {
            locator: url,
        },
        PollOutcome::Observed { status: TaskStatus::Succeeded, locator: None } => TaskVerdict::Fail {
            failure: TaskFailure::EmptyResult,
        },
        PollOutcome::Observed { status: TaskStatus::Queued, locator: _ }
        | PollOutcome::Observed { status: TaskStatus::Running, locator: _ }
        | PollOutcome::Transient => {
            if attempts_before + 1 < policy.max_attempts {
                TaskVerdict::Continue
            } else {
                TaskVerdict::Fail { failure: TaskFailure::Timeout }
            }
        },
    }
}

/// The outcome the wait observes on its `k`-th poll (counted from zero)
/// under a recorded outcome script: past the script's end every poll is a
/// transient failure.
pub open spec fn outcome_at(outcomes: Seq<PollOutcome>, k: int) -> PollOutcome {
    if 0 <= k < outcomes.len() {
        outcomes[k]
    } else {
        PollOutcome::Transient
    }
}

/// A terminal observation: the service reported success or failure.
pub open spec fn is_terminal(outcome: PollOutcome) -> bool {
    match outcome {
        PollOutcome::Observed { status, locator: _ } => status == TaskStatus::Succeeded
            || status == TaskStatus::Failed,
        PollOutcome::Transient => false,
    }
}

/// What a terminal observation decides: the locator on success, the
/// matching failure otherwise.
pub open spec fn terminal_result(outcome: PollOutcome) -> Result<String, TaskFailure>
    recommends
        is_terminal(outcome),
{
    match outcome {
        PollOutcome::Observed { status: TaskStatus::Failed, locator: _ } => Err(
            TaskFailure::RemoteTaskFailed,
        ),
        PollOutcome::Observed { status: TaskStatus::Succeeded, locator: Some(url) } => Ok(url),
        PollOutcome::Observed { status: TaskStatus::Succeeded, locator: None } => Err(
            TaskFailure::EmptyResult,
        ),
        _ => Err(TaskFailure::RemoteTaskFailed),
    }
}

/// The whole wait under a recorded outcome script, starting after
/// `attempts_before` attempts: the final result and the total number of
/// polls made.
pub open spec fn wait_spec(
    outcomes: Seq<PollOutcome>,
    policy: PollPolicy,
    attempts_before: u64,
) -> (Result<String, TaskFailure>, int)
    decreases policy.max_attempts - attempts_before,
{
    let oc = outcome_at(outcomes, attempts_before as int);
    match classify_spec(oc, attempts_before, policy) {
        TaskVerdict::Continue => wait_spec(outcomes, policy, (attempts_before + 1) as u64),
        TaskVerdict::Success { locator } => (Ok(locator), attempts_before + 1),
        TaskVerdict::Fail { failure } => (Err(failure), attempts_before + 1),
    }
}

/// Awaits completion over a recorded outcome script: sleeping is the
/// embedding program's part, so the script stands for what each poll would
/// have observed. Returns the wait's result and how many polls were made.
pub fn await_outcomes(outcomes: &Vec<PollOutcome>, policy: PollPolicy) -> (r: (
    Result<String, TaskFailure>,
    u64,
))
    requires
        policy.wf(),
    ensures
        (r.0, r.1 as int) == wait_spec(outcomes@, policy, 0),
{
    let mut att: u64 = 0;
    loop
        invariant
            policy.wf(),
            att < policy.max_attempts,
            wait_spec(outcomes@, policy, att) == wait_spec(outcomes@, policy, 0),
        decreases policy.max_attempts - att,
    {
        let oc = if att < outcomes.len() as u64 {
            outcomes[att as usize].clone()
        } else {
            PollOutcome::Transient
        };
        proof {
            assert(oc == outcome_at(outcomes@, att as int));
        }
        match classify(oc, att, policy) {
            TaskVerdict::Continue => {
                att = att + 1;
            },
            TaskVerdict::Success { locator } => {
                return (Ok(locator), att + 1);
            },
            TaskVerdict::Fail { failure } => {
                return (Err(failure), att + 1);
            },
        }
    }
}

/// The wait finds the first terminal observation: if polls before `k` are
/// all non-terminal and poll `k` (within budget) is terminal, the wait
/// ends with that observation's result after exactly `k + 1` polls — a
/// terminal failure or success is acted on at once, with no further
/// polling.
pub proof fn lemma_wait_first_terminal(
    outcomes: Seq<PollOutcome>,
    policy: PollPolicy,
    att: u64,
    k: u64,
)
    requires
        att <= k < policy.max_attempts,
        is_terminal(outcome_at(outcomes, k as int)),
        forall|j: int| att <= j < k ==> !is_terminal(outcome_at(outcomes, j)),
    ensures
        wait_spec(outcomes, policy, att) == (terminal_result(outcome_at(outcomes, k as int)), k + 1 as int),
    decreases k - att,
{
    if att == k {
    } else {
        assert(!is_terminal(outcome_at(outcomes, att as int)));
        lemma_wait_first_terminal(outcomes, policy, (att + 1) as u64, k);
    }
}

/// Budget exhaustion: when no poll within the attempt budget observes a
/// terminal state, the wait times out after exactly the budgeted number of
/// polls.
pub proof fn lemma_wait_timeout(outcomes: Seq<PollOutcome>, policy: PollPolicy, att: u64)
    requires
        policy.wf(),
        att < policy.max_attempts,
        forall|j: int| att <= j < policy.max_attempts ==> !is_terminal(outcome_at(outcomes, j)),
    ensures
        wait_spec(outcomes, policy, att) == (
            Result::<String, TaskFailure>::Err(TaskFailure::Timeout),
            policy.max_attempts as int,
        ),
    decreases policy.max_attempts - att,
{
    assert(!is_terminal(outcome_at(outcomes, att as int)));
    if att + 1 < policy.max_attempts {
        lemma_wait_timeout(outcomes, policy, (att + 1) as u64);
    }
}

} // verus!
