use capture_uploader::ledger::Statistics;
use capture_uploader::status::{image_reply, info_headers, ReplyBody};

#[test]
fn image_reply_without_capture() {
    let s = Statistics::new(0);
    let r = image_reply(&s);
    assert_eq!(r.headers.len(), 2);
    assert_eq!((r.headers[0].0.as_str(), r.headers[0].1.as_str()), ("content-type", "text/plain"));
    assert_eq!((r.headers[1].0.as_str(), r.headers[1].1.as_str()), ("connection", "close"));
    match r.body {
        ReplyBody::Text(t) => assert_eq!(t, "No image has been captured yet"),
        _ => panic!("expected text"),
    }
}

#[test]
fn image_reply_with_capture() {
    let mut s = Statistics::new(0);
    s.record_success(1, "n".to_string(), vec![0xff, 0xd8, 0xff]);
    let r = image_reply(&s);
    assert_eq!(r.headers.len(), 3);
    assert_eq!((r.headers[0].0.as_str(), r.headers[0].1.as_str()), ("content-type", "image/jpeg"));
    assert_eq!((r.headers[1].0.as_str(), r.headers[1].1.as_str()), ("connection", "close"));
    assert_eq!((r.headers[2].0.as_str(), r.headers[2].1.as_str()), ("content-length", "3"));
    match r.body {
        ReplyBody::Image(b) => assert_eq!(b, vec![0xff, 0xd8, 0xff]),
        _ => panic!("expected an image"),
    }
}

#[test]
fn info_reply_headers() {
    let h = info_headers();
    assert_eq!(h.len(), 2);
    assert_eq!((h[0].0.as_str(), h[0].1.as_str()), ("content-type", "application/json"));
    assert_eq!((h[1].0.as_str(), h[1].1.as_str()), ("connection", "close"));
}
