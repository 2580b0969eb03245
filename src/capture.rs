//! The capture cycle: the throttle that keeps captures at least a second apart,
//! and the bookkeeping once a captured image has been uploaded or refused.

use crate::ledger::{success_update, Statistics};
use crate::timefmt::{fields_of, resource_name, resource_name_text};
use crate::upload::{reason_text, UploadOutcome};
use vstd::prelude::*;

verus! {

/// Shortest time between two captures, in seconds.
pub const MIN_CAPTURE_INTERVAL_SECS: i64 = 1;

/// How long to sleep between two looks at the clock while a capture is not yet due.
pub const THROTTLE_POLL_MILLIS: u64 = 100;

/// Remembers when the last capture was taken.
pub struct CaptureThrottle {
    pub last_capture_at: i64,
}

/// A capture is due once the minimum interval has passed since the last one.
pub open spec fn capture_due(last: i64, now: i64) -> bool {
    now as int - last as int >= MIN_CAPTURE_INTERVAL_SECS as int
}

impl CaptureThrottle {
    /// A throttle whose interval starts at `now`.
    pub fn new(now: i64) -> (r: CaptureThrottle)
        ensures
            r.last_capture_at == now,
    {
        CaptureThrottle { last_capture_at: now }
    }

    /// Whether a capture at `now` keeps the minimum interval.
    pub fn is_due(&self, now: i64) -> (r: bool)
        ensures
            r == capture_due(self.last_capture_at, now),
    {
        (now as i128) - (self.last_capture_at as i128) >= MIN_CAPTURE_INTERVAL_SECS as i128
    }

    /// Starts a capture at `now` when one is due, and returns its resource name;
    /// otherwise returns `None` and the caller sleeps `THROTTLE_POLL_MILLIS` and
    /// asks again.
    pub fn poll(&mut self, now: i64) -> (r: Option<String>)
        ensures
            capture_due(old(self).last_capture_at, now) ==> {
                &&& final(self).last_capture_at == now
                &&& r matches Some(name) && name@ == resource_name_text(fields_of(now as int))
            },
            !capture_due(old(self).last_capture_at, now) ==> r is None && *final(self) == *old(
                self,
            ),
    {
        if self.is_due(now) {
            self.last_capture_at = now;
            Some(resource_name(now))
        } else {
            None
        }
    }
}

/// Closes one cycle: an uploaded image is recorded in the ledger; a refused upload
/// leaves the ledger alone and comes back as the error text for the supervisor.
pub fn finish_cycle(
    stats: &mut Statistics,
    at: i64,
    name: String,
    image: Vec<u8>,
    outcome: UploadOutcome,
) -> (r: Result<(), String>)
    ensures
        outcome is Success ==> r is Ok && *final(stats) == success_update(
            *old(stats),
            at,
            name,
            image,
        ),
        match outcome {
            UploadOutcome::Success => true,
            UploadOutcome::Failure(reason) => r matches Err(t) && t@ == reason_text(reason)
                && *final(stats) == *old(stats),
        },
{
    match outcome {
        UploadOutcome::Success => {
            stats.record_success(at, name, image);
            Ok(())
        },
        UploadOutcome::Failure(reason) => Err(reason.describe()),
    }
}

/// The clock readings at which a throttle that last captured at `last` starts a
/// capture, when it is polled at each reading of `polls` in turn.
pub open spec fn accepted_times(last: i64, polls: Seq<i64>) -> Seq<i64>
    decreases polls.len(),
{
    if polls.len() == 0 {
        Seq::empty()
    } else {
        let earlier = accepted_times(last, polls.drop_last());
        let since = if earlier.len() == 0 { last } else { earlier.last() };
        if capture_due(since, polls.last()) {
            earlier.push(polls.last())
        } else {
            earlier
        }
    }
}

/// Whatever the clock readings, consecutive captures started by the throttle are
/// at least the minimum interval apart, and the first is that far from the start.
pub proof fn lemma_captures_spaced(last: i64, polls: Seq<i64>)
    ensures
        forall|i: int|
            0 <= i < accepted_times(last, polls).len() - 1 ==> accepted_times(last, polls)[i + 1]
                - #[trigger] accepted_times(last, polls)[i] >= MIN_CAPTURE_INTERVAL_SECS,
        accepted_times(last, polls).len() > 0 ==> accepted_times(last, polls)[0] - last
            >= MIN_CAPTURE_INTERVAL_SECS,
    decreases polls.len(),
{
    if polls.len() > 0 {
        lemma_captures_spaced(last, polls.drop_last());
        let earlier = accepted_times(last, polls.drop_last());
        let all = accepted_times(last, polls);
        assert forall|i: int| 0 <= i < all.len() - 1 implies all[i + 1] - #[trigger] all[i]
            >= MIN_CAPTURE_INTERVAL_SECS by {
            if i + 1 < earlier.len() {
                assert(all[i] == earlier[i] && all[i + 1] == earlier[i + 1]);
            }
        }
    }
}

} // verus!
