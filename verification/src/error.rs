//! The error type of the pipeline's request handling: what went wrong, and the HTTP status that
//! a caller answers with.
use vstd::prelude::*;
use vstd::std_specs::convert::FromSpecImpl;
use crate::text::{decimal_text, push_decimal_i64};

verus! {

#[verifier::external_type_specification]
#[verifier::external_body]
pub struct ExJsonError(serde_json::Error);

/// Why a request failed.
#[derive(Debug)]
pub enum FlowError {
    /// Invalid JSON in request.
    InvalidJson(serde_json::Error),
    /// Invalid pipeline configuration.
    InvalidPipeline(String),
    /// I/O object not found.
    IoNotFound(i32),
    /// Codec error (decode/encode failure).
    Codec(String),
    /// Layout computation failed.
    Layout(String),
    /// Resize operation failed.
    Resize(String),
    /// Color management error.
    ColorManagement(String),
    /// Security limit exceeded.
    LimitExceeded(String),
    /// Operation cancelled.
    Cancelled,
    /// Generic internal error.
    Internal(String),
}

/// The HTTP status that answers an error: 400 for a bad request, 404 for a missing I/O object,
/// 413 for an exceeded limit, 503 for a cancellation, 500 for anything else.
pub open spec fn spec_http_status(e: &FlowError) -> u32 {
    match e {
        FlowError::InvalidJson(_) | FlowError::InvalidPipeline(_) => 400,
        FlowError::IoNotFound(_) => 404,
        FlowError::LimitExceeded(_) => 413,
        FlowError::Cancelled => 503,
        _ => 500,
    }
}

/// The text of an error that carries no JSON error: a prefix naming what failed, then the detail.
pub open spec fn display_text(e: &FlowError) -> Seq<char> {
    match e {
        FlowError::InvalidJson(_) => Seq::empty(),
        FlowError::InvalidPipeline(msg) => "invalid pipeline: "@ + msg@,
        FlowError::IoNotFound(id) => "I/O object not found: "@ + decimal_text(*id as int),
        FlowError::Codec(msg) => "codec error: "@ + msg@,
        FlowError::Layout(msg) => "layout error: "@ + msg@,
        FlowError::Resize(msg) => "resize error: "@ + msg@,
        FlowError::ColorManagement(msg) => "color management error: "@ + msg@,
        FlowError::LimitExceeded(msg) => "limit exceeded: "@ + msg@,
        FlowError::Cancelled => "operation cancelled"@,
        FlowError::Internal(msg) => "internal error: "@ + msg@,
    }
}

/// Formats a JSON error as text; calls its `Display` implementation. Nothing is stated of the text.
#[verifier::external_body]
pub(crate) fn json_error_text(e: &serde_json::Error) -> String {
    e.to_string()
}

impl FlowError {
    /// The HTTP status that answers this error.
    pub fn http_status(&self) -> (r: u32)
        ensures
            r == spec_http_status(self),
    {
        match self {
            FlowError::InvalidJson(_) | FlowError::InvalidPipeline(_) => 400,
            FlowError::IoNotFound(_) => 404,
            FlowError::LimitExceeded(_) => 413,
            FlowError::Cancelled => 503,
            _ => 500,
        }
    }

    /// The text of this error. The text of a JSON error is `"invalid JSON: "` followed by the
    /// JSON error's own text, which is not stated.
    pub fn to_display_string(&self) -> (r: String)
        ensures
            !(self is InvalidJson) ==> r@ == display_text(self),
            self is InvalidJson ==> exists|t: Seq<char>| r@ == #[trigger] ("invalid JSON: "@ + t),
    {
        let mut s = String::new();
        match self {
            FlowError::InvalidJson(e) => {
                s.append("invalid JSON: ");
                let t = json_error_text(e);
                s.append(t.as_str());
                proof {
                    assert(s@ == "invalid JSON: "@ + t@);
                }
            },
            FlowError::InvalidPipeline(msg) => {
                s.append("invalid pipeline: ");
                s.append(msg.as_str());
            },
            FlowError::IoNotFound(id) => {
                s.append("I/O object not found: ");
                push_decimal_i64(&mut s, *id as i64);
            },
            FlowError::Codec(msg) => {
                s.append("codec error: ");
                s.append(msg.as_str());
            },
            FlowError::Layout(msg) => {
                s.append("layout error: ");
                s.append(msg.as_str());
            },
            FlowError::Resize(msg) => {
                s.append("resize error: ");
                s.append(msg.as_str());
            },
            FlowError::ColorManagement(msg) => {
                s.append("color management error: ");
                s.append(msg.as_str());
            },
            FlowError::LimitExceeded(msg) => {
                s.append("limit exceeded: ");
                s.append(msg.as_str());
            },
            FlowError::Cancelled => {
                s.append("operation cancelled");
            },
            FlowError::Internal(msg) => {
                s.append("internal error: ");
                s.append(msg.as_str());
            },
        }
        s
    }
}

impl From<serde_json::Error> for FlowError {
    fn from(e: serde_json::Error) -> (r: FlowError) {
        FlowError::InvalidJson(e)
    }
}

impl FromSpecImpl<serde_json::Error> for FlowError {
    open spec fn obeys_from_spec() -> bool {
        true
    }

    open spec fn from_spec(e: serde_json::Error) -> FlowError {
        FlowError::InvalidJson(e)
    }
}

} // verus!
