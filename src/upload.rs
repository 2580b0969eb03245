//! The upload policy: the request that carries one image, the draining of the
//! response, and the classification of what came back.

use crate::timefmt::{decimal, push_decimal};
use vstd::prelude::*;
use vstd::string::*;

verus! {

/// Why an upload did not succeed.
pub enum FailureReason {
    /// No connection could be opened to the server.
    Connection(String),
    /// The server answered with a status outside 200..=299.
    Status(u16),
    /// Writing the request or reading the response failed.
    Io(String),
}

/// The result of one upload attempt.
pub enum UploadOutcome {
    Success,
    Failure(FailureReason),
}

/// How an exchange with the server ended before its status could be judged.
pub enum TransferError {
    Connection(String),
    Io(String),
}

/// What to do after one read of the response body.
pub enum DrainStep {
    /// More body may follow: read again.
    Continue,
    /// The body has been read to its end.
    Finished,
    /// The read failed.
    Failed(String),
}

/// A 2xx status.
pub open spec fn is_success_status(code: u16) -> bool {
    200 <= code <= 299
}

/// The text kept for a failure.
pub open spec fn reason_text(reason: FailureReason) -> Seq<char> {
    match reason {
        FailureReason::Connection(m) => m@,
        FailureReason::Status(code) => "Unexpected response code: "@ + decimal(code as nat),
        FailureReason::Io(m) => m@,
    }
}

/// The outcome of a response with status `code`: success exactly for 2xx.
pub fn classify_status(code: u16) -> (r: UploadOutcome)
    ensures
        is_success_status(code) ==> r is Success,
        !is_success_status(code) ==> (r matches UploadOutcome::Failure(
            FailureReason::Status(c),
        ) && c == code),
{
    if 200 <= code && code <= 299 {
        UploadOutcome::Success
    } else {
        UploadOutcome::Failure(FailureReason::Status(code))
    }
}

/// The outcome of a whole exchange: the status when the response was read to its
/// end, else the connection or I/O failure, with its text kept.
pub fn classify_transfer(result: Result<u16, TransferError>) -> (r: UploadOutcome)
    ensures
        match result {
            Ok(code) => if is_success_status(code) {
                r is Success
            } else {
                r matches UploadOutcome::Failure(FailureReason::Status(c)) && c == code
            },
            Err(TransferError::Connection(m)) => r matches UploadOutcome::Failure(
                FailureReason::Connection(n),
            ) && n@ == m@,
            Err(TransferError::Io(m)) => r matches UploadOutcome::Failure(FailureReason::Io(n))
                && n@ == m@,
        },
{
    match result {
        Ok(code) => classify_status(code),
        Err(TransferError::Connection(m)) => UploadOutcome::Failure(FailureReason::Connection(m)),
        Err(TransferError::Io(m)) => UploadOutcome::Failure(FailureReason::Io(m)),
    }
}

/// The decision after one read of the response body: an empty read ends it.
pub fn drain_step(read: Result<usize, String>) -> (r: DrainStep)
    ensures
        match read {
            Ok(n) => if n == 0 {
                r is Finished
            } else {
                r is Continue
            },
            Err(m) => r matches DrainStep::Failed(n) && n@ == m@,
        },
{
    match read {
        Ok(n) => if n == 0 {
            DrainStep::Finished
        } else {
            DrainStep::Continue
        },
        Err(m) => DrainStep::Failed(m),
    }
}

impl FailureReason {
    /// The text kept in the ledger for this failure.
    pub fn describe(&self) -> (r: String)
        ensures
            r@ == reason_text(*self),
    {
        match self {
            FailureReason::Connection(m) => m.clone(),
            FailureReason::Status(code) => {
                let mut s = String::from_str("Unexpected response code: ");
                push_decimal(&mut s, *code as u64);
                s
            },
            FailureReason::Io(m) => m.clone(),
        }
    }
}

/// The target of an upload: the base URL followed by the resource name.
pub fn upload_url(base_url: &str, name: &str) -> (r: String)
    ensures
        r@ == base_url@ + name@,
{
    let mut s = String::from_str(base_url);
    s.append(name);
    s
}

/// The headers of an upload of `len` bytes: the JPEG content type and the exact
/// content length.
pub fn upload_headers(len: usize) -> (r: Vec<(String, String)>)
    ensures
        r@.len() == 2,
        r@[0].0@ == "content-type"@,
        r@[0].1@ == "image/jpeg"@,
        r@[1].0@ == "content-length"@,
        r@[1].1@ == decimal(len as nat),
{
    let mut length = String::new();
    push_decimal(&mut length, len as u64);
    let mut r: Vec<(String, String)> = Vec::new();
    r.push((String::from_str("content-type"), String::from_str("image/jpeg")));
    r.push((String::from_str("content-length"), length));
    r
}

} // verus!
