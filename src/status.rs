//! The replies of the local status interface, built from a ledger snapshot.

use crate::ledger::Statistics;
use crate::timefmt::{decimal, push_decimal};
use vstd::prelude::*;
use vstd::string::*;

verus! {

/// The body of a status reply.
pub enum ReplyBody {
    Image(Vec<u8>),
    Text(String),
}

/// Headers and body of one status reply.
pub struct Reply {
    pub headers: Vec<(String, String)>,
    pub body: ReplyBody,
}

/// A header with the given name and value.
pub open spec fn header_is(h: (String, String), name: Seq<char>, value: Seq<char>) -> bool {
    h.0@ == name && h.1@ == value
}

fn header(name: &str, value: &str) -> (r: (String, String))
    ensures
        header_is(r, name@, value@),
{
    (String::from_str(name), String::from_str(value))
}

/// The headers of the `/info` reply: JSON, and the connection closed after it.
pub fn info_headers() -> (r: Vec<(String, String)>)
    ensures
        r@.len() == 2,
        header_is(r@[0], "content-type"@, "application/json"@),
        header_is(r@[1], "connection"@, "close"@),
{
    let mut r: Vec<(String, String)> = Vec::new();
    r.push(header("content-type", "application/json"));
    r.push(header("connection", "close"));
    r
}

/// The `/image` reply: the last captured image as JPEG with its exact length, or a
/// plain-text note while there is none.
pub fn image_reply(stats: &Statistics) -> (r: Reply)
    ensures
        stats.last_capture matches Some(image) ==> {
            &&& r.body matches ReplyBody::Image(b) && b@ == image@
            &&& r.headers@.len() == 3
            &&& header_is(r.headers@[0], "content-type"@, "image/jpeg"@)
            &&& header_is(r.headers@[1], "connection"@, "close"@)
            &&& header_is(r.headers@[2], "content-length"@, decimal(image@.len()))
        },
        stats.last_capture is None ==> {
            &&& r.body matches ReplyBody::Text(t) && t@ == "No image has been captured yet"@
            &&& r.headers@.len() == 2
            &&& header_is(r.headers@[0], "content-type"@, "text/plain"@)
            &&& header_is(r.headers@[1], "connection"@, "close"@)
        },
{
    match &stats.last_capture {
        Some(image) => {
            let body = image.clone();
            let mut length = String::new();
            push_decimal(&mut length, image.len() as u64);
            let mut headers: Vec<(String, String)> = Vec::new();
            headers.push(header("content-type", "image/jpeg"));
            headers.push(header("connection", "close"));
            headers.push((String::from_str("content-length"), length));
            Reply { headers, body: ReplyBody::Image(body) }
        },
        None => {
            let mut headers: Vec<(String, String)> = Vec::new();
            headers.push(header("content-type", "text/plain"));
            headers.push(header("connection", "close"));
            Reply {
                headers,
                body: ReplyBody::Text(String::from_str("No image has been captured yet")),
            }
        },
    }
}

} // verus!
