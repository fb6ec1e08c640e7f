use auto_video::errors::TaskFailure;
use auto_video::poll::{await_outcomes, normalize_status, PollOutcome, PollPolicy, TaskStatus};

fn observed(status: TaskStatus, locator: Option<&str>) -> PollOutcome {
    PollOutcome::Observed { status, locator: locator.map(|s| s.to_owned()) }
}

fn policy(max_attempts: u64) -> PollPolicy {
    PollPolicy { interval_ms: 5000, max_attempts }
}

#[test]
fn success_on_third_poll_yields_url_after_exactly_three_polls() {
    let outcomes = vec![
        observed(TaskStatus::Running, None),
        observed(TaskStatus::Running, None),
        observed(TaskStatus::Succeeded, Some("https://assets.example/image.png")),
    ];
    let (result, polls) = await_outcomes(&outcomes, policy(60));
    assert_eq!(result.unwrap(), "https://assets.example/image.png");
    assert_eq!(polls, 3);
}

#[test]
fn no_terminal_state_within_budget_times_out() {
    let outcomes = vec![
        observed(TaskStatus::Queued, None),
        observed(TaskStatus::Running, None),
    ];
    let (result, polls) = await_outcomes(&outcomes, policy(4));
    assert!(matches!(result, Err(TaskFailure::Timeout)));
    assert_eq!(polls, 4);
}

#[test]
fn failed_result_aborts_without_further_polling() {
    let outcomes = vec![
        observed(TaskStatus::Running, None),
        observed(TaskStatus::Failed, None),
        observed(TaskStatus::Succeeded, Some("https://assets.example/late.png")),
    ];
    let (result, polls) = await_outcomes(&outcomes, policy(60));
    assert!(matches!(result, Err(TaskFailure::RemoteTaskFailed)));
    assert_eq!(polls, 2);
}

#[test]
fn terminal_success_with_no_locator_is_empty_result_not_success() {
    let outcomes = vec![observed(TaskStatus::Succeeded, None)];
    let (result, polls) = await_outcomes(&outcomes, policy(60));
    assert!(matches!(result, Err(TaskFailure::EmptyResult)));
    assert_eq!(polls, 1);
}

#[test]
fn transient_poll_errors_are_retried_within_budget() {
    let outcomes = vec![
        PollOutcome::Transient,
        PollOutcome::Transient,
        observed(TaskStatus::Succeeded, Some("https://assets.example/a.png")),
    ];
    let (result, polls) = await_outcomes(&outcomes, policy(10));
    assert_eq!(result.unwrap(), "https://assets.example/a.png");
    assert_eq!(polls, 3);
}

#[test]
fn transient_errors_consume_the_attempt_budget() {
    let outcomes: Vec<PollOutcome> = Vec::new();
    let (result, polls) = await_outcomes(&outcomes, policy(3));
    assert!(matches!(result, Err(TaskFailure::Timeout)));
    assert_eq!(polls, 3);
}

#[test]
fn provider_spellings_normalize_to_the_closed_model() {
    assert_eq!(normalize_status("SUCCEEDED"), TaskStatus::Succeeded);
    assert_eq!(normalize_status("FAILED"), TaskStatus::Failed);
    assert_eq!(normalize_status("PENDING"), TaskStatus::Queued);
    assert_eq!(normalize_status("RUNNING"), TaskStatus::Running);
    assert_eq!(normalize_status("UNKNOWN"), TaskStatus::Running);
    assert_eq!(normalize_status(""), TaskStatus::Running);
    assert_eq!(normalize_status("succeeded"), TaskStatus::Running);
}
