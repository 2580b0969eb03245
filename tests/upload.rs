use capture_uploader::upload::{
    classify_status, classify_transfer, drain_step, upload_headers, upload_url, DrainStep,
    FailureReason, TransferError, UploadOutcome,
};

#[test]
fn status_200_is_success() {
    assert!(matches!(classify_status(200), UploadOutcome::Success));
    assert!(matches!(classify_status(204), UploadOutcome::Success));
    assert!(matches!(classify_status(299), UploadOutcome::Success));
}

#[test]
fn status_404_and_500_fail() {
    assert!(matches!(classify_status(404), UploadOutcome::Failure(FailureReason::Status(404))));
    assert!(matches!(classify_status(500), UploadOutcome::Failure(FailureReason::Status(500))));
    assert!(matches!(classify_status(199), UploadOutcome::Failure(FailureReason::Status(199))));
    assert!(matches!(classify_status(300), UploadOutcome::Failure(FailureReason::Status(300))));
}

#[test]
fn dropped_connection_mid_write_is_io_failure() {
    let r = classify_transfer(Err(TransferError::Io("connection reset".to_string())));
    match r {
        UploadOutcome::Failure(FailureReason::Io(m)) => assert_eq!(m, "connection reset"),
        _ => panic!("expected an I/O failure"),
    }
}

#[test]
fn connection_failure_kept() {
    let r = classify_transfer(Err(TransferError::Connection("refused".to_string())));
    match r {
        UploadOutcome::Failure(FailureReason::Connection(m)) => assert_eq!(m, "refused"),
        _ => panic!("expected a connection failure"),
    }
}

#[test]
fn transfer_status_classified() {
    assert!(matches!(classify_transfer(Ok(201)), UploadOutcome::Success));
    assert!(matches!(classify_transfer(Ok(404)), UploadOutcome::Failure(FailureReason::Status(404))));
}

#[test]
fn reasons_describe_themselves() {
    assert_eq!(FailureReason::Status(404).describe(), "Unexpected response code: 404");
    assert_eq!(FailureReason::Io("eof".to_string()).describe(), "eof");
    assert_eq!(FailureReason::Connection("dns".to_string()).describe(), "dns");
}

#[test]
fn drain_until_empty_read() {
    assert!(matches!(drain_step(Ok(256)), DrainStep::Continue));
    assert!(matches!(drain_step(Ok(0)), DrainStep::Finished));
    match drain_step(Err("timeout".to_string())) {
        DrainStep::Failed(m) => assert_eq!(m, "timeout"),
        _ => panic!("expected a failed read"),
    }
}

#[test]
fn url_and_headers() {
    assert_eq!(upload_url("https://host/up/", "test_x.jpg"), "https://host/up/test_x.jpg");
    let h = upload_headers(12345);
    assert_eq!(h.len(), 2);
    assert_eq!((h[0].0.as_str(), h[0].1.as_str()), ("content-type", "image/jpeg"));
    assert_eq!((h[1].0.as_str(), h[1].1.as_str()), ("content-length", "12345"));
    assert_eq!(upload_headers(0)[1].1, "0");
}
