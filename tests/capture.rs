use capture_uploader::capture::{finish_cycle, CaptureThrottle, THROTTLE_POLL_MILLIS};
use capture_uploader::ledger::Statistics;
use capture_uploader::upload::{FailureReason, UploadOutcome};

#[test]
fn throttle_waits_a_second() {
    let mut t = CaptureThrottle::new(1700000000);
    assert!(!t.is_due(1700000000));
    assert_eq!(t.poll(1700000000), None);
    assert_eq!(t.last_capture_at, 1700000000);
    assert_eq!(t.poll(1700000001).as_deref(), Some("test_20231114T221321Z.jpg"));
    assert_eq!(t.last_capture_at, 1700000001);
    assert_eq!(t.poll(1700000001), None);
    assert_eq!(THROTTLE_POLL_MILLIS, 100);
}

#[test]
fn throttle_handles_extreme_clock() {
    let t = CaptureThrottle::new(i64::MIN);
    assert!(t.is_due(i64::MAX));
    let t = CaptureThrottle::new(i64::MAX);
    assert!(!t.is_due(i64::MIN));
}

#[test]
fn finish_cycle_records_success() {
    let mut s = Statistics::new(0);
    let r = finish_cycle(&mut s, 7, "n".to_string(), vec![1, 2], UploadOutcome::Success);
    assert!(r.is_ok());
    assert_eq!(s.capture_count, 1);
    assert_eq!(s.last_capture_at, Some(7));
    assert_eq!(s.last_capture, Some(vec![1, 2]));
}

#[test]
fn finish_cycle_failure_leaves_ledger() {
    let mut s = Statistics::new(0);
    let r = finish_cycle(
        &mut s,
        7,
        "n".to_string(),
        vec![1],
        UploadOutcome::Failure(FailureReason::Status(500)),
    );
    assert_eq!(r, Err("Unexpected response code: 500".to_string()));
    assert_eq!(s.capture_count, 0);
    assert!(s.last_capture_at.is_none());
}
