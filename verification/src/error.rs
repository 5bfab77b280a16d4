//! The error taxonomy: transport failure before a response was obtained,
//! a response with a non-success status, and a success response whose body
//! could not be decoded.

use vstd::prelude::*;

use crate::json::{dec_digits, push_dec_u128};
use vstd::string::StringExecFns;

verus! {

/// Why an operation against the service failed. Every failure is returned as
/// a value; nothing is retried, logged or suppressed.
#[derive(Debug)]
pub enum Error {
    /// The transport failed before a response was obtained (connection, TLS,
    /// timeout); carries the transport's own description of the cause.
    Transport(String),
    /// A response was obtained but its status was not a success; carries the
    /// numeric status and the raw body bytes, uninterpreted.
    RequestFailed { status: u16, body: Vec<u8> },
    /// The response status was a success but its body was not the expected
    /// shape; carries the undecodable body bytes.
    Decode { body: Vec<u8> },
}

/// True for the HTTP success range.
pub open spec fn is_success_status(status: u16) -> bool {
    200 <= status < 300
}

/// The one-line description of an error.
pub open spec fn error_text(e: Error) -> Seq<char> {
    match e {
        Error::Transport(cause) => "transport error: "@ + cause@,
        Error::RequestFailed { status, body: _ } => "request failed with status "@ + dec_digits(
            status as nat,
        ),
        Error::Decode { body: _ } => "failed to decode response body"@,
    }
}

impl Error {
    /// A one-line description of the failure.
    pub fn describe(&self) -> (r: String)
        ensures
            r@ == error_text(*self),
    {
        let mut out = String::new();
        match self {
            Error::Transport(cause) => {
                out.append("transport error: ");
                out.append(cause.as_str());
            },
            Error::RequestFailed { status, body: _ } => {
                out.append("request failed with status ");
                push_dec_u128(&mut out, *status as u128);
            },
            Error::Decode { body: _ } => {
                out.append("failed to decode response body");
            },
        }
        out
    }
}

} // verus!
