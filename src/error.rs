//! The closed set of failures a request can end in.

use vstd::prelude::*;
use crate::numeral::{decimal, decimal_string};

verus! {

/// The error std returns when text does not read as an integer.
#[verifier::external_type_specification]
#[verifier::external_body]
pub struct ExParseIntError(std::num::ParseIntError);

/// The error the HTTP client returns when a request cannot be made or its
/// body cannot be read.
#[verifier::external_type_specification]
#[verifier::external_body]
pub struct ExReqwestError(reqwest::Error);

/// A status and message reported by the moderation service.
#[derive(Debug)]
pub struct ApiLayerError {
    pub status: u16,
    pub message: String,
}

/// `r` is `prefix`, then some text, then `suffix`.
pub open spec fn framed(r: Seq<char>, prefix: Seq<char>, suffix: Seq<char>) -> bool {
    exists|t: Seq<char>| r == prefix + t + suffix
}

/// The text of a status and message reported by the moderation service.
pub open spec fn layer_text(e: ApiLayerError) -> Seq<char> {
    "Status: "@ + decimal(e.status as nat) + ", Message: "@ + e.message@
}

/// Relies on `<ParseIntError as Display>::fmt`, through `to_string`, for a
/// description of why the text did not read as an integer.
#[verifier::external_body]
fn describe_parse_error(e: &std::num::ParseIntError) -> String {
    e.to_string()
}

/// Relies on `<reqwest::Error as Display>::fmt`, through `to_string`, for a
/// description of the transport failure.
#[verifier::external_body]
fn describe_transport_error(e: &reqwest::Error) -> String {
    e.to_string()
}

impl Clone for ApiLayerError {
    fn clone(&self) -> (r: Self)
        ensures
            r.status == self.status,
            r.message@ == self.message@,
    {
        ApiLayerError { status: self.status, message: self.message.clone() }
    }
}

impl ApiLayerError {
    /// `Status: <status>, Message: <message>`.
    pub fn to_string(&self) -> (r: String)
        ensures
            r@ == layer_text(*self),
    {
        let mut r = String::new();
        r.append("Status: ");
        let status = decimal_string(self.status as u64);
        r.append(status.as_str());
        r.append(", Message: ");
        r.append(self.message.as_str());
        r
    }
}

/// Every failure a request handler can report.
#[derive(Debug)]
pub enum ApiError {
    /// A query parameter did not read as a non-negative integer.
    ParseError(std::num::ParseIntError),
    /// Only one of a pair of parameters that go together was given.
    MissingParamError,
    /// No question has the requested id.
    QuestionNotFound,
    /// The store failed; the cause is not told apart.
    DatabaseQueryError,
    /// The moderation service could not be reached, or its answer not read.
    ExternalApiError(reqwest::Error),
    /// The moderation service rejected the request with a 4xx status.
    ClientError(ApiLayerError),
    /// The moderation service failed with any other non-success status.
    ServerError(ApiLayerError),
}

impl ApiError {
    /// A one-line description of the failure.
    pub fn to_string(&self) -> (r: String)
        ensures
            match *self {
                ApiError::ParseError(_) => framed(r@, "could not parse parameter: "@, "\n"@),
                ApiError::MissingParamError => r@ == "missing parameter\n"@,
                ApiError::QuestionNotFound => r@ == "question not found"@,
                ApiError::DatabaseQueryError => r@ == "cannot update, invalid data."@,
                ApiError::ExternalApiError(_) => framed(r@, "cannot execute: "@, ""@),
                ApiError::ClientError(e) => r@ == "external client error: "@ + layer_text(e),
                ApiError::ServerError(e) => r@ == "external server error: "@ + layer_text(e),
            },
    {
        let mut r = String::new();
        match self {
            ApiError::ParseError(e) => {
                let cause = describe_parse_error(e);
                r.append("could not parse parameter: ");
                r.append(cause.as_str());
                r.append("\n");
                assert(r@ == "could not parse parameter: "@ + cause@ + "\n"@);
            },
            ApiError::MissingParamError => {
                r.append("missing parameter\n");
            },
            ApiError::QuestionNotFound => {
                r.append("question not found");
            },
            ApiError::DatabaseQueryError => {
                r.append("cannot update, invalid data.");
            },
            ApiError::ExternalApiError(e) => {
                let cause = describe_transport_error(e);
                r.append("cannot execute: ");
                r.append(cause.as_str());
                proof {
                    reveal_strlit("");
                }
                assert(r@ =~= "cannot execute: "@ + cause@ + ""@);
            },
            ApiError::ClientError(e) => {
                r.append("external client error: ");
                let text = e.to_string();
                r.append(text.as_str());
            },
            ApiError::ServerError(e) => {
                r.append("external server error: ");
                let text = e.to_string();
                r.append(text.as_str());
            },
        }
        r
    }
}

/// Why a request was turned down: a failure of a handler, or one that the
/// transport found before any handler ran.
#[derive(Debug)]
pub enum Rejection {
    /// A handler failed.
    Api(ApiError),
    /// A cross-origin request that the policy does not allow, with the
    /// transport's description of it.
    CorsForbidden(String),
    /// A request body that could not be read, with the transport's
    /// description of it.
    MalformedBody(String),
    /// No route matched.
    NotFound,
}

/// The status and body that a rejected request is answered with.
#[derive(Debug)]
pub struct ErrorReply {
    pub status: u16,
    pub body: String,
}

/// The status that answers rejection `r`.
pub open spec fn status_for(r: Rejection) -> u16 {
    match r {
        Rejection::Api(ApiError::DatabaseQueryError) => 422,
        Rejection::CorsForbidden(_) => 403,
        Rejection::Api(ApiError::ParseError(_)) => 416,
        Rejection::Api(ApiError::MissingParamError) => 416,
        Rejection::Api(ApiError::QuestionNotFound) => 416,
        Rejection::MalformedBody(_) => 422,
        Rejection::Api(ApiError::ExternalApiError(_)) => 500,
        Rejection::Api(ApiError::ClientError(e)) => e.status,
        Rejection::Api(ApiError::ServerError(e)) => e.status,
        Rejection::NotFound => 404,
    }
}

/// Answers a rejected request.
///
/// A store failure is 422; a forbidden cross-origin request 403; a bad or
/// missing parameter or an unknown question 416, with the failure's
/// description; an unreadable body 422; an unreachable moderation service
/// 500, with a body that tells nothing of the cause; a status reported by
/// the moderation service is passed on with its message; anything else is
/// 404.
pub fn handle_errors(r: &Rejection) -> (reply: ErrorReply)
    ensures
        reply.status == status_for(*r),
        match *r {
            Rejection::Api(ApiError::DatabaseQueryError) => reply.body@
                == "cannot update, invalid data."@,
            Rejection::CorsForbidden(text) => reply.body@ == text@,
            Rejection::Api(ApiError::ParseError(_)) => framed(
                reply.body@,
                "could not parse parameter: "@,
                "\n"@,
            ),
            Rejection::Api(ApiError::MissingParamError) => reply.body@ == "missing parameter\n"@,
            Rejection::Api(ApiError::QuestionNotFound) => reply.body@ == "question not found"@,
            Rejection::MalformedBody(text) => reply.body@ == text@,
            Rejection::Api(ApiError::ExternalApiError(_)) => reply.body@ == "Internal server error"@,
            Rejection::Api(ApiError::ClientError(e)) => reply.body@ == e.message@,
            Rejection::Api(ApiError::ServerError(e)) => reply.body@ == e.message@,
            Rejection::NotFound => reply.body@ == "Route not found"@,
        },
{
    match r {
        Rejection::Api(ApiError::DatabaseQueryError) => {
            ErrorReply { status: 422, body: ApiError::DatabaseQueryError.to_string() }
        },
        Rejection::CorsForbidden(text) => ErrorReply { status: 403, body: text.clone() },
        Rejection::Api(ApiError::ExternalApiError(_)) => {
            let mut body = String::new();
            body.append("Internal server error");
            ErrorReply { status: 500, body }
        },
        Rejection::Api(ApiError::ClientError(e)) => ErrorReply {
            status: e.status,
            body: e.message.clone(),
        },
        Rejection::Api(ApiError::ServerError(e)) => ErrorReply {
            status: e.status,
            body: e.message.clone(),
        },
        Rejection::Api(e) => ErrorReply { status: 416, body: e.to_string() },
        Rejection::MalformedBody(text) => ErrorReply { status: 422, body: text.clone() },
        Rejection::NotFound => {
            let mut body = String::new();
            body.append("Route not found");
            ErrorReply { status: 404, body }
        },
    }
}

} // verus!
