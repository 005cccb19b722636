//! The closed set of failures that the client reports.
use vstd::prelude::*;
use vstd::string::*;
use crate::text::{decimal, push_decimal};

verus! {

/// The four classes that every failure falls into.
#[derive(Clone, Copy, Debug, PartialEq, Eq, Structural)]
pub enum ErrorKind {
    /// Raised before any network call: no key, or an unsupported attachment.
    Configuration,
    /// The service did not answer in time, or the connection failed.
    Transport,
    /// The service answered with a status outside 2xx.
    HttpStatus,
    /// The service answered, but the body could not be read.
    Decode,
}

/// A classified failure, with the detail that was observed.
#[derive(Clone, Debug)]
pub enum LlmError {
    /// No secret was available when the call was prepared.
    MissingApiKey,
    /// The attachment's file format is not one of the accepted image formats.
    UnsupportedFormat(String),
    /// An attempt ran past its time limit.
    Timeout,
    /// An attempt failed at the network level.
    Network(String),
    /// A non-2xx status, with the body that came with it.
    HttpStatus(u16, String),
    /// The body could not be parsed into the expected shape.
    Decode(String),
}

/// Whether a status code is a server error (5xx).
pub open spec fn is_server_error(status: u16) -> bool {
    500 <= status && status <= 599
}

impl LlmError {
    pub open spec fn spec_kind(&self) -> ErrorKind {
        match self {
            LlmError::MissingApiKey => ErrorKind::Configuration,
            LlmError::UnsupportedFormat(_) => ErrorKind::Configuration,
            LlmError::Timeout => ErrorKind::Transport,
            LlmError::Network(_) => ErrorKind::Transport,
            LlmError::HttpStatus(_, _) => ErrorKind::HttpStatus,
            LlmError::Decode(_) => ErrorKind::Decode,
        }
    }

    /// Transient failures: network, timeout and 5xx.
    pub open spec fn spec_is_transient(&self) -> bool {
        match self {
            LlmError::Timeout => true,
            LlmError::Network(_) => true,
            LlmError::HttpStatus(s, _) => is_server_error(*s),
            _ => false,
        }
    }

    /// The human-readable message of the failure.
    pub open spec fn spec_description(&self) -> Seq<char> {
        match self {
            LlmError::MissingApiKey => "Configuration error: API key is not available"@,
            LlmError::UnsupportedFormat(f) => "Unsupported image format: "@ + f@,
            LlmError::Timeout => "Transport error: the request timed out"@,
            LlmError::Network(d) => "Transport error: "@ + d@,
            LlmError::HttpStatus(s, b) => "HTTP status error "@ + decimal(*s as nat) + ": "@ + b@,
            LlmError::Decode(d) => "Failed to parse response: "@ + d@,
        }
    }

    pub fn kind(&self) -> (k: ErrorKind)
        ensures
            k == self.spec_kind(),
    {
        match self {
            LlmError::MissingApiKey => ErrorKind::Configuration,
            LlmError::UnsupportedFormat(_) => ErrorKind::Configuration,
            LlmError::Timeout => ErrorKind::Transport,
            LlmError::Network(_) => ErrorKind::Transport,
            LlmError::HttpStatus(_, _) => ErrorKind::HttpStatus,
            LlmError::Decode(_) => ErrorKind::Decode,
        }
    }

    /// Whether another attempt may change the outcome.
    pub fn is_transient(&self) -> (r: bool)
        ensures
            r == self.spec_is_transient(),
    {
        match self {
            LlmError::Timeout => true,
            LlmError::Network(_) => true,
            LlmError::HttpStatus(s, _) => 500 <= *s && *s <= 599,
            _ => false,
        }
    }

    /// The message under which the failure is logged or shown.
    pub fn description(&self) -> (r: String)
        ensures
            r@ == self.spec_description(),
    {
        match self {
            LlmError::MissingApiKey => String::from_str(
                "Configuration error: API key is not available",
            ),
            LlmError::UnsupportedFormat(f) => {
                let mut r = String::from_str("Unsupported image format: ");
                r.append(f.as_str());
                r
            },
            LlmError::Timeout => String::from_str("Transport error: the request timed out"),
            LlmError::Network(d) => {
                let mut r = String::from_str("Transport error: ");
                r.append(d.as_str());
                r
            },
            LlmError::HttpStatus(s, b) => {
                let mut r = String::from_str("HTTP status error ");
                push_decimal(&mut r, *s as u64);
                r.append(": ");
                r.append(b.as_str());
                r
            },
            LlmError::Decode(d) => {
                let mut r = String::from_str("Failed to parse response: ");
                r.append(d.as_str());
                r
            },
        }
    }
}

} // verus!
