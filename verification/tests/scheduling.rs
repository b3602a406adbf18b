//! The phase scheduler's state machine, its completion barrier, and outcome
//! classification.

use ananke::errors::{TaskFailure, TaskOutcome, outcome_of_status};
use ananke::scheduler::{CompletionRecord, Scheduler, SchedulerState};

#[test]
fn scheduler_runs_one_group_to_done() {
    let mut s = Scheduler::new();
    assert_eq!(s.state, SchedulerState::Idle);
    s.begin_group(2);
    assert_eq!(s.state, SchedulerState::RunningGroup);
    s.group_dispatched();
    assert_eq!(s.state, SchedulerState::Barrier);
    assert!(!s.barrier_complete());
    s.record_completion(CompletionRecord { task_index: 1, outcome: TaskOutcome::Succeeded });
    assert!(!s.barrier_complete());
    s.record_completion(CompletionRecord { task_index: 0, outcome: TaskOutcome::Succeeded });
    assert!(s.barrier_complete());
    s.finish_group();
    assert_eq!(s.state, SchedulerState::Done);
    assert_eq!(s.records.len(), 2);
    assert!(s.should_advance());
}

#[test]
fn scheduler_collects_failures_without_dropping_siblings() {
    let mut s = Scheduler::new();
    s.begin_group(3);
    s.group_dispatched();
    s.record_completion(CompletionRecord { task_index: 0, outcome: TaskOutcome::Succeeded });
    s.record_completion(CompletionRecord {
        task_index: 1,
        outcome: TaskOutcome::Failed(TaskFailure::ProcessExit(2)),
    });
    s.record_completion(CompletionRecord { task_index: 2, outcome: TaskOutcome::Succeeded });
    assert!(s.barrier_complete());
    s.finish_group();
    assert!(s.any_failure());
    assert!(!s.should_advance());
    assert_eq!(s.records.len(), 3);
    assert_eq!(s.records[2].outcome, TaskOutcome::Succeeded);
}

#[test]
fn scheduler_empty_group() {
    let mut s = Scheduler::new();
    s.begin_group(0);
    s.group_dispatched();
    assert!(s.barrier_complete());
    s.finish_group();
    assert_eq!(s.state, SchedulerState::Done);
    assert!(s.should_advance());
}

#[test]
fn scheduler_chains_groups() {
    let mut s = Scheduler::new();
    s.begin_group(1);
    s.group_dispatched();
    s.record_completion(CompletionRecord { task_index: 0, outcome: TaskOutcome::Succeeded });
    s.finish_group();
    assert!(s.should_advance());
    s.begin_group(1);
    assert_eq!(s.state, SchedulerState::RunningGroup);
    assert_eq!(s.records.len(), 0);
}

#[test]
fn exit_status_classification() {
    assert_eq!(outcome_of_status(0), TaskOutcome::Succeeded);
    assert_eq!(outcome_of_status(2), TaskOutcome::Failed(TaskFailure::ProcessExit(2)));
    assert_eq!(outcome_of_status(-1), TaskOutcome::Failed(TaskFailure::ProcessExit(-1)));
}
