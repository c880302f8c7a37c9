//! The plain-value picture of an HTTP exchange with the CI engine, and the
//! driver's response-interpretation policy: a client- or server-error status
//! turns the raw body into a `RemoteError`; anything else hands the body on
//! for decoding.

use vstd::prelude::*;
use crate::errors::ErrorKind;

verus! {

#[derive(Debug, Clone, PartialEq, Eq)]
pub enum Method {
    Get,
    Post,
    Put,
}

/// A request the driver asks the surrounding process to send.
#[derive(Debug, Clone)]
pub struct HttpRequest {
    pub method: Method,
    pub url: String,
    pub headers: Vec<(String, String)>,
    pub body: String,
}

/// A response handed back by the surrounding process: the status code and
/// the body, already read as UTF-8 text bounded by the declared length.
#[derive(Debug, Clone)]
pub struct HttpResponse {
    pub status: u16,
    pub body: String,
}

/// The 4xx and 5xx classes.
pub open spec fn is_error_status(status: u16) -> bool {
    400 <= status < 600
}

/// The response-decoding policy, applied before any JSON decode: an error
/// status wraps the exact body as `RemoteError`; otherwise the body is
/// passed on unchanged.
pub fn response_to_result(resp: HttpResponse) -> (r: Result<String, ErrorKind>)
    ensures
        is_error_status(resp.status) ==> r == Err::<String, ErrorKind>(
            ErrorKind::RemoteError(resp.body),
        ),
        !is_error_status(resp.status) ==> r == Ok::<String, ErrorKind>(resp.body),
{
    if 400 <= resp.status && resp.status < 600 {
        Err(ErrorKind::RemoteError(resp.body))
    } else {
        Ok(resp.body)
    }
}

/// The first `limit` bytes of a response body, or all of it when it is
/// shorter: the error-body read is bounded by the declared content length.
pub fn bounded_prefix(bytes: &Vec<u8>, limit: usize) -> (r: Vec<u8>)
    ensures
        r@ == bytes@.take(if limit <= bytes@.len() {
            limit as int
        } else {
            bytes@.len() as int
        }),
{
    let end = if limit <= bytes.len() {
        limit
    } else {
        bytes.len()
    };
    let mut out: Vec<u8> = Vec::new();
    let mut i: usize = 0;
    while i < end
        invariant
            end <= bytes@.len(),
            i <= end,
            out@ == bytes@.take(i as int),
        decreases end - i,
    {
        out.push(bytes[i]);
        proof {
            assert(out@ =~= bytes@.take(i + 1));
        }
        i += 1;
    }
    proof {
        assert(out@ =~= bytes@.take(end as int));
    }
    out
}

} // verus!
