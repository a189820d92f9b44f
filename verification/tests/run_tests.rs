//! The run orchestrator's lifecycle, driven event by event: the zero-exit
//! and nonzero-exit scenarios, the missing wait outcome, and the error
//! paths.

use container_core::run_init;
use container_core::run_step;
use container_core::EngineError;
use container_core::RunAction;
use container_core::RunConfig;
use container_core::RunEvent;
use container_core::RunState;

fn config(cmd: &[&str], has_sink: bool) -> RunConfig {
    RunConfig {
        image: "alpine:3.15".to_string(),
        cmd: cmd.iter().map(|s| s.to_string()).collect(),
        has_sink,
    }
}

/// Drives a whole invocation and returns every action issued, in order.
fn drive(cfg: &RunConfig, events: Vec<RunEvent>) -> Vec<RunAction> {
    let (mut state, first) = run_init();
    let mut actions = vec![first];
    for ev in events {
        let (next, action) = run_step(cfg, state, ev);
        state = next;
        actions.push(action);
    }
    actions
}

fn removes(actions: &[RunAction]) -> usize {
    actions
        .iter()
        .filter(|a| matches!(a, RunAction::Remove(_)))
        .count()
}

fn fetches(actions: &[RunAction]) -> usize {
    actions
        .iter()
        .filter(|a| matches!(a, RunAction::FetchLogs(_)))
        .count()
}

#[test]
fn zero_exit_skips_log_capture_and_removes_once() {
    let cfg = config(&["echo", "in container"], true);
    let actions = drive(
        &cfg,
        vec![
            RunEvent::PullFinished(Ok(())),
            RunEvent::CreateFinished(Ok("c1".to_string())),
            RunEvent::StartFinished(Ok(())),
            RunEvent::WaitFinished(Some(0)),
            RunEvent::RemoveFinished(Ok(())),
        ],
    );
    assert_eq!(
        actions,
        vec![
            RunAction::Pull,
            RunAction::Create,
            RunAction::Start("c1".to_string()),
            RunAction::Wait("c1".to_string()),
            RunAction::Remove("c1".to_string()),
            RunAction::Succeed,
        ]
    );
    assert_eq!(fetches(&actions), 0);
    assert_eq!(removes(&actions), 1);
}

#[test]
fn nonzero_exit_with_sink_fetches_logs_once_and_forwards_in_order() {
    let cfg = config(&["false"], true);
    let actions = drive(
        &cfg,
        vec![
            RunEvent::PullFinished(Ok(())),
            RunEvent::CreateFinished(Ok("c2".to_string())),
            RunEvent::StartFinished(Ok(())),
            RunEvent::WaitFinished(Some(1)),
            RunEvent::LogLine("line one".to_string()),
            RunEvent::SendFinished(true),
            RunEvent::LogLine("line two".to_string()),
            RunEvent::SendFinished(true),
            RunEvent::LogEnd,
            RunEvent::RemoveFinished(Ok(())),
        ],
    );
    assert_eq!(fetches(&actions), 1);
    assert_eq!(removes(&actions), 1);
    let forwarded: Vec<&RunAction> = actions
        .iter()
        .filter(|a| matches!(a, RunAction::Forward(_)))
        .collect();
    assert_eq!(
        forwarded,
        vec![
            &RunAction::Forward("line one".to_string()),
            &RunAction::Forward("line two".to_string()),
        ]
    );
    assert_eq!(actions.last(), Some(&RunAction::Succeed));
}

#[test]
fn nonzero_exit_without_sink_skips_log_capture() {
    let cfg = config(&["false"], false);
    let actions = drive(
        &cfg,
        vec![
            RunEvent::PullFinished(Ok(())),
            RunEvent::CreateFinished(Ok("c3".to_string())),
            RunEvent::StartFinished(Ok(())),
            RunEvent::WaitFinished(Some(1)),
            RunEvent::RemoveFinished(Ok(())),
        ],
    );
    assert_eq!(fetches(&actions), 0);
    assert_eq!(removes(&actions), 1);
    assert_eq!(actions.last(), Some(&RunAction::Succeed));
}

#[test]
fn missing_wait_outcome_is_not_an_error_and_still_removes() {
    let cfg = config(&["true"], true);
    let actions = drive(
        &cfg,
        vec![
            RunEvent::PullFinished(Ok(())),
            RunEvent::CreateFinished(Ok("c4".to_string())),
            RunEvent::StartFinished(Ok(())),
            RunEvent::WaitFinished(None),
            RunEvent::RemoveFinished(Ok(())),
        ],
    );
    assert_eq!(fetches(&actions), 0);
    assert_eq!(removes(&actions), 1);
    assert_eq!(actions.last(), Some(&RunAction::Succeed));
}

#[test]
fn pull_failure_aborts_with_no_cleanup_needed() {
    let cfg = config(&["echo"], true);
    let err = EngineError::Rejection("no such image".to_string());
    let actions = drive(&cfg, vec![RunEvent::PullFinished(Err(err.clone()))]);
    assert_eq!(actions, vec![RunAction::Pull, RunAction::Fail(err)]);
}

#[test]
fn start_failure_aborts_without_removing() {
    let cfg = config(&["echo"], true);
    let err = EngineError::Rejection("cannot start".to_string());
    let actions = drive(
        &cfg,
        vec![
            RunEvent::PullFinished(Ok(())),
            RunEvent::CreateFinished(Ok("c5".to_string())),
            RunEvent::StartFinished(Err(err.clone())),
        ],
    );
    assert_eq!(removes(&actions), 0);
    assert_eq!(actions.last(), Some(&RunAction::Fail(err)));
}

#[test]
fn rejected_forward_fails_with_the_sink_error() {
    let cfg = config(&["false"], true);
    let actions = drive(
        &cfg,
        vec![
            RunEvent::PullFinished(Ok(())),
            RunEvent::CreateFinished(Ok("c6".to_string())),
            RunEvent::StartFinished(Ok(())),
            RunEvent::WaitFinished(Some(2)),
            RunEvent::LogLine("only line".to_string()),
            RunEvent::SendFinished(false),
        ],
    );
    assert_eq!(actions.last(), Some(&RunAction::Fail(EngineError::SinkClosed)));
    assert_eq!(removes(&actions), 0);
}

#[test]
fn log_stream_failure_propagates_and_skips_cleanup() {
    let cfg = config(&["false"], true);
    let err = EngineError::Transport("connection dropped".to_string());
    let actions = drive(
        &cfg,
        vec![
            RunEvent::PullFinished(Ok(())),
            RunEvent::CreateFinished(Ok("c7".to_string())),
            RunEvent::StartFinished(Ok(())),
            RunEvent::WaitFinished(Some(3)),
            RunEvent::LogFailed(err.clone()),
        ],
    );
    assert_eq!(actions.last(), Some(&RunAction::Fail(err)));
    assert_eq!(removes(&actions), 0);
}

#[test]
fn removal_failure_is_reported_after_the_single_remove_request() {
    let cfg = config(&["echo"], false);
    let err = EngineError::Rejection("already gone".to_string());
    let actions = drive(
        &cfg,
        vec![
            RunEvent::PullFinished(Ok(())),
            RunEvent::CreateFinished(Ok("c8".to_string())),
            RunEvent::StartFinished(Ok(())),
            RunEvent::WaitFinished(Some(0)),
            RunEvent::RemoveFinished(Err(err.clone())),
        ],
    );
    assert_eq!(removes(&actions), 1);
    assert_eq!(actions.last(), Some(&RunAction::Fail(err)));
}

#[test]
fn final_states_report_the_invocations_end() {
    let cfg = config(&["echo"], false);
    let (state, _) = run_init();
    let (state, _) = run_step(&cfg, state, RunEvent::PullFinished(Ok(())));
    let (state, _) = run_step(&cfg, state, RunEvent::CreateFinished(Ok("c9".to_string())));
    let (state, _) = run_step(&cfg, state, RunEvent::StartFinished(Ok(())));
    let (state, _) = run_step(&cfg, state, RunEvent::WaitFinished(Some(0)));
    assert_eq!(state, RunState::Removing("c9".to_string()));
    let (state, _) = run_step(&cfg, state, RunEvent::RemoveFinished(Ok(())));
    assert_eq!(state, RunState::Done);
}
