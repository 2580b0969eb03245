use capture_uploader::ledger::Statistics;
use capture_uploader::supervisor::{
    action, failure_line, step, SupervisorAction, SupervisorEvent, SupervisorState, BACKOFF_MILLIS,
    ERROR_THRESHOLD,
};

fn fail(at: i64) -> SupervisorEvent {
    SupervisorEvent::IterationFailed { at, message: "boom".to_string() }
}

#[test]
fn failure_backs_off_then_runs_again() {
    let mut s = Statistics::new(0);
    let st = step(SupervisorState::Running, &mut s, fail(1700000000));
    assert_eq!(st, SupervisorState::BackoffSleep);
    assert_eq!(s.error_count, 1);
    assert_eq!(s.last_error.as_deref(), Some("[20231114T221320Z]: boom"));
    assert_eq!(action(st), SupervisorAction::Sleep { millis: 2000 });
    let st = step(st, &mut s, SupervisorEvent::BackoffElapsed);
    assert_eq!(st, SupervisorState::Running);
    assert_eq!(action(st), SupervisorAction::RunIteration);
}

#[test]
fn restart_on_hundredth_failure_not_before() {
    let mut s = Statistics::new(0);
    let mut st = SupervisorState::Running;
    for i in 0..99 {
        s.record_success(i, "n".to_string(), vec![]);
        st = step(st, &mut s, fail(i));
        assert_eq!(st, SupervisorState::BackoffSleep);
        st = step(st, &mut s, SupervisorEvent::BackoffElapsed);
    }
    assert_eq!(s.error_count, 99);
    st = step(st, &mut s, fail(100));
    assert_eq!(st, SupervisorState::Restarting);
    assert_eq!(s.error_count, ERROR_THRESHOLD);
    assert_eq!(action(st), SupervisorAction::Restart);
}

#[test]
fn restarting_is_terminal() {
    let mut s = Statistics::new(0);
    let st = step(SupervisorState::Restarting, &mut s, fail(1));
    assert_eq!(st, SupervisorState::Restarting);
    assert_eq!(s.error_count, 0);
    let st = step(st, &mut s, SupervisorEvent::BackoffElapsed);
    assert_eq!(st, SupervisorState::Restarting);
}

#[test]
fn success_keeps_running() {
    let mut s = Statistics::new(0);
    let st = step(SupervisorState::Running, &mut s, SupervisorEvent::IterationSucceeded);
    assert_eq!(st, SupervisorState::Running);
    assert_eq!(s.error_count, 0);
}

#[test]
fn mismatched_event_changes_nothing() {
    let mut s = Statistics::new(0);
    let st = step(SupervisorState::BackoffSleep, &mut s, fail(1));
    assert_eq!(st, SupervisorState::BackoffSleep);
    assert_eq!(s.error_count, 0);
    assert_eq!(BACKOFF_MILLIS, 2000);
}

#[test]
fn failure_line_with_invalid_date() {
    assert_eq!(failure_line(i64::MAX, "oops"), "[<invalid date>]: oops");
}
