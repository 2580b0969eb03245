//! The statistics ledger: operational counters and the most recent capture,
//! written by the capture loop and the supervisor and read by status queries.

use vstd::prelude::*;

verus! {

/// The device's shared record of counters and the latest capture.
pub struct Statistics {
    pub startup_at: i64,
    pub last_capture_at: Option<i64>,
    pub last_capture_name: Option<String>,
    pub last_capture: Option<Vec<u8>>,
    pub capture_count: u32,
    pub capture_count_since_last_error: u32,
    pub last_error: Option<String>,
    pub error_count: u32,
}

/// One update of the ledger.
pub enum LedgerEvent {
    /// A capture that was uploaded, with its time, resource name and image.
    Success { at: i64, name: String, image: Vec<u8> },
    /// A failed cycle, with the line that describes it.
    Failure { text: String },
}

/// `n + 1`, held at the largest `u32`.
pub open spec fn bumped(n: u32) -> u32 {
    if n < u32::MAX { (n + 1) as u32 } else { n }
}

/// The bytes of an image, if there is one.
pub open spec fn image_view(image: Option<Vec<u8>>) -> Option<Seq<u8>> {
    match image {
        Some(v) => Some(v@),
        None => None,
    }
}

/// The ledger as it stands at startup.
pub open spec fn initial(startup_at: i64) -> Statistics {
    Statistics {
        startup_at,
        last_capture_at: None,
        last_capture_name: None,
        last_capture: None,
        capture_count: 0,
        capture_count_since_last_error: 0,
        last_error: None,
        error_count: 0,
    }
}

/// The ledger after a successful capture and upload.
pub open spec fn success_update(s: Statistics, at: i64, name: String, image: Vec<u8>) -> Statistics {
    Statistics {
        last_capture_at: Some(at),
        last_capture_name: Some(name),
        last_capture: Some(image),
        capture_count: bumped(s.capture_count),
        capture_count_since_last_error: bumped(s.capture_count_since_last_error),
        ..s
    }
}

/// The ledger after a failed cycle described by `text`.
pub open spec fn failure_update(s: Statistics, text: String) -> Statistics {
    Statistics {
        capture_count_since_last_error: 0,
        last_error: Some(text),
        error_count: bumped(s.error_count),
        ..s
    }
}

/// The ledger after one event.
pub open spec fn event_update(s: Statistics, e: LedgerEvent) -> Statistics {
    match e {
        LedgerEvent::Success { at, name, image } => success_update(s, at, name, image),
        LedgerEvent::Failure { text } => failure_update(s, text),
    }
}

/// The ledger after applying `events` in order to `s`.
pub open spec fn replay(s: Statistics, events: Seq<LedgerEvent>) -> Statistics
    decreases events.len(),
{
    if events.len() == 0 {
        s
    } else {
        event_update(replay(s, events.drop_last()), events.last())
    }
}

/// How many failures the sequence holds.
pub open spec fn failures(events: Seq<LedgerEvent>) -> nat
    decreases events.len(),
{
    if events.len() == 0 {
        0
    } else {
        failures(events.drop_last()) + if events.last() is Failure { 1nat } else { 0nat }
    }
}

/// How many successes the sequence holds.
pub open spec fn successes(events: Seq<LedgerEvent>) -> nat
    decreases events.len(),
{
    if events.len() == 0 {
        0
    } else {
        successes(events.drop_last()) + if events.last() is Success { 1nat } else { 0nat }
    }
}

/// How many successes close the sequence, after its last failure.
pub open spec fn trailing_successes(events: Seq<LedgerEvent>) -> nat
    decreases events.len(),
{
    if events.len() == 0 {
        0
    } else if events.last() is Failure {
        0
    } else {
        trailing_successes(events.drop_last()) + 1
    }
}

impl Statistics {
    /// A capture's time and name are present together or not at all.
    pub open spec fn wf(&self) -> bool {
        self.last_capture_at.is_some() == self.last_capture_name.is_some()
    }

    /// `other` holds the same record as `self`, the image compared by its bytes.
    pub open spec fn same_record(&self, other: Statistics) -> bool {
        &&& other.startup_at == self.startup_at
        &&& other.last_capture_at == self.last_capture_at
        &&& other.last_capture_name == self.last_capture_name
        &&& image_view(other.last_capture) == image_view(self.last_capture)
        &&& other.capture_count == self.capture_count
        &&& other.capture_count_since_last_error == self.capture_count_since_last_error
        &&& other.last_error == self.last_error
        &&& other.error_count == self.error_count
    }

    /// A fresh ledger for a process that started at `startup_at`.
    pub fn new(startup_at: i64) -> (r: Statistics)
        ensures
            r == initial(startup_at),
            r.wf(),
    {
        Statistics {
            startup_at,
            last_capture_at: None,
            last_capture_name: None,
            last_capture: None,
            capture_count: 0,
            capture_count_since_last_error: 0,
            last_error: None,
            error_count: 0,
        }
    }

    /// Records a capture taken at `at`, uploaded under `name`.
    pub fn record_success(&mut self, at: i64, name: String, image: Vec<u8>)
        ensures
            *final(self) == success_update(*old(self), at, name, image),
            final(self).wf(),
    {
        self.last_capture = Some(image);
        self.capture_count = self.capture_count.saturating_add(1);
        self.capture_count_since_last_error = self.capture_count_since_last_error.saturating_add(1);
        self.last_capture_at = Some(at);
        self.last_capture_name = Some(name);
    }

    /// Records a failed cycle described by `text`: one more error, and the run of
    /// successes starts again from zero.
    pub fn record_failure(&mut self, text: String)
        ensures
            *final(self) == failure_update(*old(self), text),
            final(self).capture_count_since_last_error == 0,
            old(self).wf() ==> final(self).wf(),
    {
        self.error_count = self.error_count.saturating_add(1);
        self.capture_count_since_last_error = 0;
        self.last_error = Some(text);
    }

    /// Applies one event.
    pub fn apply(&mut self, event: LedgerEvent)
        ensures
            *final(self) == event_update(*old(self), event),
            old(self).wf() ==> final(self).wf(),
    {
        match event {
            LedgerEvent::Success { at, name, image } => self.record_success(at, name, image),
            LedgerEvent::Failure { text } => self.record_failure(text),
        }
    }

    /// A copy of the record; the image is copied only when `with_image` holds.
    pub fn snapshot(&self, with_image: bool) -> (r: Statistics)
        ensures
            with_image ==> self.same_record(r),
            !with_image ==> (Statistics { last_capture: None, ..*self }).same_record(r),
            self.wf() ==> r.wf(),
    {
        let last_capture_name = match &self.last_capture_name {
            Some(n) => Some(n.clone()),
            None => None,
        };
        let last_error = match &self.last_error {
            Some(e) => Some(e.clone()),
            None => None,
        };
        let last_capture = if with_image {
            match &self.last_capture {
                Some(v) => Some(v.clone()),
                None => None,
            }
        } else {
            None
        };
        Statistics {
            startup_at: self.startup_at,
            last_capture_at: self.last_capture_at,
            last_capture_name,
            last_capture,
            capture_count: self.capture_count,
            capture_count_since_last_error: self.capture_count_since_last_error,
            last_error,
            error_count: self.error_count,
        }
    }
}

/// Replayed from startup, the ledger counts every failure in `error_count`, every
/// success in `capture_count`, and the successes since the last failure in
/// `capture_count_since_last_error`, for as long as no counter can saturate.
pub proof fn lemma_counts_match_events(startup_at: i64, events: Seq<LedgerEvent>)
    requires
        events.len() < u32::MAX,
    ensures
        replay(initial(startup_at), events).error_count == failures(events),
        replay(initial(startup_at), events).capture_count == successes(events),
        replay(initial(startup_at), events).capture_count_since_last_error == trailing_successes(
            events,
        ),
        failures(events) + successes(events) == events.len(),
        trailing_successes(events) <= successes(events),
    decreases events.len(),
{
    if events.len() > 0 {
        lemma_counts_match_events(startup_at, events.drop_last());
    }
}

/// Whatever sequence of updates is applied, a ledger whose capture time and
/// capture name are present together keeps them together.
pub proof fn lemma_replay_keeps_capture_pair(s: Statistics, events: Seq<LedgerEvent>)
    requires
        s.wf(),
    ensures
        replay(s, events).wf(),
    decreases events.len(),
{
    if events.len() > 0 {
        lemma_replay_keeps_capture_pair(s, events.drop_last());
    }
}

/// After any failure the run of successes is back at zero.
pub proof fn lemma_failure_resets_streak(s: Statistics, events: Seq<LedgerEvent>)
    requires
        events.len() > 0,
        events.last() is Failure,
    ensures
        replay(s, events).capture_count_since_last_error == 0,
{
}

} // verus!
