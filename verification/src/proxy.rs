//! Why a request through the proxy to the Discord API failed.
//!
//! The causes come from the HTTP stack and the rate limiter; each is kept by
//! the message it prints.

use vstd::prelude::*;
use vstd::string::StringExecFns;

verus! {

/// Why a request through the proxy failed.
#[derive(Debug, Clone, PartialEq, Eq)]
pub enum RequestError {
    /// The ticket of the rate limiter could not be acquired.
    AcquiringTicket { source: String },
    /// The method of the request is not one that the API takes.
    InvalidMethod { method: String },
    /// The path of the request is not one of the API's routes.
    InvalidPath { source: String },
    /// The URI made for the API is invalid.
    InvalidURI { source: String },
    /// Sending the request failed.
    RequestIssue { source: String },
}

/// The message that describes a request error.
pub open spec fn request_error_message(e: RequestError) -> Seq<char> {
    match e {
        RequestError::AcquiringTicket { source } => "error when acquiring ratelimiting ticket: "@
            + source@,
        RequestError::InvalidMethod { method } => "invalid method: "@ + method@,
        RequestError::InvalidPath { source } => "invalid path: "@ + source@,
        RequestError::InvalidURI { source } => "generated uri for discord api is invalid: "@
            + source@,
        RequestError::RequestIssue { source } => "error execuring request: "@ + source@,
    }
}

impl RequestError {
    /// The message that describes the error.
    pub fn to_string(&self) -> (r: String)
        ensures
            r@ == request_error_message(*self),
    {
        let mut s = String::new();
        match self {
            RequestError::AcquiringTicket { source } => {
                s.append("error when acquiring ratelimiting ticket: ");
                s.append(source.as_str());
            },
            RequestError::InvalidMethod { method } => {
                s.append("invalid method: ");
                s.append(method.as_str());
            },
            RequestError::InvalidPath { source } => {
                s.append("invalid path: ");
                s.append(source.as_str());
            },
            RequestError::InvalidURI { source } => {
                s.append("generated uri for discord api is invalid: ");
                s.append(source.as_str());
            },
            RequestError::RequestIssue { source } => {
                s.append("error execuring request: ");
                s.append(source.as_str());
            },
        }
        assert(s@ =~= request_error_message(*self));
        s
    }
}

} // verus!
