//! The resilience supervisor: after each failed cycle it records the failure and
//! either backs off and retries or, once failures have piled up, restarts the device.

use crate::ledger::{failure_update, failures, initial, replay, LedgerEvent, Statistics};
use crate::timefmt::{fields_of, format_fields, timestamp_text, CalendarFields, calendar_fields};
use vstd::prelude::*;
use vstd::string::*;

verus! {

/// Failures since boot at which the device restarts instead of retrying.
pub const ERROR_THRESHOLD: u32 = 100;

/// How long the supervisor waits after a failure before the next cycle.
pub const BACKOFF_MILLIS: u64 = 2000;

/// The supervisor's states; `Restarting` is terminal.
#[derive(Clone, Copy, Debug, PartialEq, Eq, Structural)]
pub enum SupervisorState {
    Running,
    BackoffSleep,
    Restarting,
}

/// What the driver of the supervisor reports back.
pub enum SupervisorEvent {
    IterationSucceeded,
    IterationFailed { at: i64, message: String },
    BackoffElapsed,
}

/// What the driver of the supervisor has to do next.
#[derive(Clone, Copy, Debug, PartialEq, Eq, Structural)]
pub enum SupervisorAction {
    RunIteration,
    Sleep { millis: u64 },
    Restart,
}

/// The state entered after a failure that brought the count to `error_count`.
pub open spec fn state_after_failure(error_count: u32) -> SupervisorState {
    if error_count >= ERROR_THRESHOLD {
        SupervisorState::Restarting
    } else {
        SupervisorState::BackoffSleep
    }
}

/// The action that a state asks of the driver.
pub open spec fn action_for(state: SupervisorState) -> SupervisorAction {
    match state {
        SupervisorState::Running => SupervisorAction::RunIteration,
        SupervisorState::BackoffSleep => SupervisorAction::Sleep { millis: BACKOFF_MILLIS },
        SupervisorState::Restarting => SupervisorAction::Restart,
    }
}

/// `[{time}]: {message}`, the line kept as the last error.
pub open spec fn failure_line_text(fields: Option<CalendarFields>, message: Seq<char>) -> Seq<char> {
    "["@ + timestamp_text(fields) + "]: "@ + message
}

/// The last-error line for a failure at the given calendar fields.
pub fn failure_line_for_fields(fields: Option<CalendarFields>, message: &str) -> (r: String)
    ensures
        r@ == failure_line_text(fields, message@),
{
    let mut s = String::from_str("[");
    let t = format_fields(fields);
    s.append(t.as_str());
    s.append("]: ");
    s.append(message);
    s
}

/// The last-error line for a failure at Unix time `at`.
pub fn failure_line(at: i64, message: &str) -> (r: String)
    ensures
        r@ == failure_line_text(fields_of(at as int), message@),
{
    failure_line_for_fields(calendar_fields(at), message)
}

/// The action that goes with a state.
pub fn action(state: SupervisorState) -> (r: SupervisorAction)
    ensures
        r == action_for(state),
{
    match state {
        SupervisorState::Running => SupervisorAction::RunIteration,
        SupervisorState::BackoffSleep => SupervisorAction::Sleep { millis: BACKOFF_MILLIS },
        SupervisorState::Restarting => SupervisorAction::Restart,
    }
}

/// One transition. A failure while running is recorded in the ledger and leads to
/// `Restarting` once `error_count` has reached the threshold, else to
/// `BackoffSleep`; the end of a back-off returns to `Running`; `Restarting` is
/// terminal. An event that does not belong to the state changes nothing.
pub fn step(state: SupervisorState, stats: &mut Statistics, event: SupervisorEvent) -> (r:
    SupervisorState)
    ensures
        state == SupervisorState::Running && event is IterationFailed ==> {
            &&& final(stats).last_error matches Some(t) && t@ == failure_line_text(
                fields_of(event->at as int),
                event->message@,
            )
            &&& *final(stats) == failure_update(*old(stats), final(stats).last_error.unwrap())
            &&& r == state_after_failure(final(stats).error_count)
        },
        !(state == SupervisorState::Running && event is IterationFailed) ==> *final(stats) == *old(
            stats,
        ),
        state == SupervisorState::Running && event is IterationSucceeded ==> r
            == SupervisorState::Running,
        state == SupervisorState::BackoffSleep && event is BackoffElapsed ==> r
            == SupervisorState::Running,
        state == SupervisorState::Restarting ==> r == SupervisorState::Restarting,
        !(state == SupervisorState::Running && event is IterationFailed) && !(state
            == SupervisorState::BackoffSleep && event is BackoffElapsed) ==> r == state,
{
    match state {
        SupervisorState::Running => match event {
            SupervisorEvent::IterationFailed { at, message } => {
                let text = failure_line(at, message.as_str());
                stats.record_failure(text);
                if stats.error_count >= ERROR_THRESHOLD {
                    SupervisorState::Restarting
                } else {
                    SupervisorState::BackoffSleep
                }
            },
            _ => SupervisorState::Running,
        },
        SupervisorState::BackoffSleep => match event {
            SupervisorEvent::BackoffElapsed => SupervisorState::Running,
            _ => SupervisorState::BackoffSleep,
        },
        SupervisorState::Restarting => SupervisorState::Restarting,
    }
}

/// Replayed from startup, with successes in any places, a failure leads to a
/// restart exactly when it is at least the threshold-th failure: every earlier
/// failure backs off.
pub proof fn lemma_restart_exactly_at_threshold(startup_at: i64, events: Seq<LedgerEvent>)
    requires
        events.len() < u32::MAX,
        events.len() > 0,
        events.last() is Failure,
    ensures
        state_after_failure(replay(initial(startup_at), events).error_count) == (if failures(events)
            >= ERROR_THRESHOLD {
            SupervisorState::Restarting
        } else {
            SupervisorState::BackoffSleep
        }),
{
    crate::ledger::lemma_counts_match_events(startup_at, events);
}

} // verus!
