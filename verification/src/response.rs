//! The HTTP responses that rejections convert to: a plain response value
//! (status code, body kind, body), and the configuration that selects the
//! status code and body shape used for validation failures.

use vstd::prelude::*;
use crate::report::json_of;
use crate::report::text_of;
use crate::report::Report;
use crate::ValidationRejection;

verus! {

/// HTTP status for a successful request.
pub const STATUS_OK: u16 = 200;

/// HTTP status for a request rejected as malformed.
pub const STATUS_BAD_REQUEST: u16 = 400;

/// HTTP status for a forbidden request.
pub const STATUS_FORBIDDEN: u16 = 403;

/// HTTP status for a conflicting request.
pub const STATUS_CONFLICT: u16 = 409;

/// HTTP status used purely as a marker for composed rejections.
pub const STATUS_IM_A_TEAPOT: u16 = 418;

/// HTTP status for a well-formed request whose content fails its rules.
pub const STATUS_UNPROCESSABLE_ENTITY: u16 = 422;

/// HTTP status for a server-side failure.
pub const STATUS_INTERNAL_SERVER_ERROR: u16 = 500;

/// The kind of a response body.
#[derive(Debug, Clone, Copy, PartialEq, Eq, Structural)]
pub enum BodyKind {
    /// A plain-text body.
    Text,
    /// A JSON body, sent with `Content-Type: application/json`.
    Json,
}

/// A plain HTTP response value: what this crate decides about a response.
/// Turning it into the surrounding framework's response type is the caller's
/// business.
#[derive(Debug, Clone, PartialEq, Eq)]
pub struct Response {
    /// The HTTP status code.
    pub status: u16,
    /// The kind of the body.
    pub kind: BodyKind,
    /// The response body.
    pub body: String,
}

impl Response {
    /// A plain-text response with the given status.
    pub fn text(status: u16, body: String) -> (r: Response)
        ensures
            r.status == status,
            r.kind == BodyKind::Text,
            r.body == body,
    {
        Response { status, kind: BodyKind::Text, body }
    }
}

/// Which status code a validation failure maps to.
#[derive(Debug, Clone, Copy, PartialEq, Eq, Structural)]
pub enum ErrorStatus {
    /// Report validation failures as `400 Bad Request`.
    BadRequest,
    /// Report validation failures as `422 Unprocessable Entity`.
    UnprocessableEntity,
}

impl ErrorStatus {
    /// The numeric status code of this choice.
    pub open spec fn spec_code(&self) -> u16 {
        match self {
            ErrorStatus::BadRequest => STATUS_BAD_REQUEST,
            ErrorStatus::UnprocessableEntity => STATUS_UNPROCESSABLE_ENTITY,
        }
    }

    /// The numeric status code of this choice.
    pub fn code(&self) -> (r: u16)
        ensures
            r == self.spec_code(),
    {
        match self {
            ErrorStatus::BadRequest => STATUS_BAD_REQUEST,
            ErrorStatus::UnprocessableEntity => STATUS_UNPROCESSABLE_ENTITY,
        }
    }
}

/// How validation failures are rendered: which status code, and whether the
/// report is serialized as JSON or as plain text.
#[derive(Debug, Clone, Copy, PartialEq, Eq, Structural)]
pub struct RejectionConfig {
    /// The status code used for validation failures.
    pub status: ErrorStatus,
    /// Whether the report body is serialized as JSON.
    pub into_json: bool,
}

impl Default for RejectionConfig {
    /// By default a validation failure maps to `400 Bad Request` with a
    /// plain-text body.
    fn default() -> (r: RejectionConfig)
        ensures
            r.status == ErrorStatus::BadRequest,
            !r.into_json,
    {
        RejectionConfig { status: ErrorStatus::BadRequest, into_json: false }
    }
}

/// The body of a validation-failure response under `config`.
pub open spec fn spec_failure_body(entries: Seq<(Seq<char>, Seq<char>)>, config: RejectionConfig) -> Seq<char> {
    if config.into_json {
        json_of(entries)
    } else {
        text_of(entries)
    }
}

/// The body kind of a validation-failure response under `config`.
pub open spec fn spec_failure_kind(config: RejectionConfig) -> BodyKind {
    if config.into_json {
        BodyKind::Json
    } else {
        BodyKind::Text
    }
}

impl ValidationRejection<Report, Response> {
    /// Renders this rejection as a response.
    ///
    /// An inner-extractor failure passes through unchanged: same status code,
    /// same body. A validation failure gets the configured status code and a
    /// body that lists every violation of the report.
    pub fn into_response(self, config: &RejectionConfig) -> (r: Response)
        ensures
            self matches ValidationRejection::Inner(e) ==> r == e,
            self matches ValidationRejection::Valid(rep) ==> {
                &&& r.status == config.status.spec_code()
                &&& r.kind == spec_failure_kind(*config)
                &&& r.body@ == spec_failure_body(rep@, *config)
            },
    {
        match self {
            ValidationRejection::Inner(e) => e,
            ValidationRejection::Valid(rep) => {
                let body = if config.into_json {
                    rep.to_json()
                } else {
                    rep.render()
                };
                let kind = if config.into_json {
                    BodyKind::Json
                } else {
                    BodyKind::Text
                };
                Response { status: config.status.code(), kind, body }
            },
        }
    }
}

} // verus!
