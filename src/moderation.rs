//! The moderation service that censors question content before it is stored.
//!
//! The caller sends the content and, once the service has answered, reads
//! the body as `is_success` of the status says: the censored text on success,
//! the service's own message otherwise. What came back is then classified
//! here.

use vstd::prelude::*;
use crate::error::{ApiError, ApiLayerError};

verus! {

/// A 2xx status.
pub open spec fn is_success_status(status: u16) -> bool {
    200 <= status < 300
}

/// A 4xx status.
pub open spec fn is_client_error_status(status: u16) -> bool {
    400 <= status < 500
}

/// Whether `status` reports success (2xx).
pub fn is_success(status: u16) -> (r: bool)
    ensures
        r == is_success_status(status),
{
    200 <= status && status < 300
}

/// Whether `status` reports a client error (4xx).
pub fn is_client_error(status: u16) -> (r: bool)
    ensures
        r == is_client_error_status(status),
{
    400 <= status && status < 500
}

/// The answer of the moderation service: its status, and its body read as
/// the censored text (on success) or as the service's message (otherwise),
/// or the failure to read it.
#[derive(Debug)]
pub struct GatewayResponse {
    pub status: u16,
    pub body: Result<String, reqwest::Error>,
}

/// The censored text, when the service answered with success and its body
/// was read.
pub open spec fn censored_text(sent: Result<GatewayResponse, reqwest::Error>) -> Option<String> {
    match sent {
        Ok(response) => match response.body {
            Ok(text) => if is_success_status(response.status) {
                Some(text)
            } else {
                None
            },
            Err(_) => None,
        },
        Err(_) => None,
    }
}

/// `r` is what a moderation request comes to.
///
/// A request that never got an answer, or a success whose body could not be
/// read, is an `ExternalApiError`; a success gives the censored text. Any
/// other status is classified by the status alone: a 4xx is a `ClientError`
/// and anything else a `ServerError`, each with the status and the service's
/// message, which is empty when the body could not be read.
pub open spec fn classified(sent: Result<GatewayResponse, reqwest::Error>, r: Result<String, ApiError>) -> bool {
    match sent {
        Err(e) => r == Err::<String, ApiError>(ApiError::ExternalApiError(e)),
        Ok(response) => {
            let message = match response.body {
                Ok(text) => text@,
                Err(_) => Seq::<char>::empty(),
            };
            if is_success_status(response.status) {
                match response.body {
                    Ok(text) => r == Ok::<String, ApiError>(text),
                    Err(e) => r == Err::<String, ApiError>(ApiError::ExternalApiError(e)),
                }
            } else if is_client_error_status(response.status) {
                r matches Err(ApiError::ClientError(l)) && l.status == response.status
                    && l.message@ == message
            } else {
                r matches Err(ApiError::ServerError(l)) && l.status == response.status
                    && l.message@ == message
            }
        },
    }
}

/// Classifies what the moderation service answered.
pub fn censor_result(sent: Result<GatewayResponse, reqwest::Error>) -> (r: Result<String, ApiError>)
    ensures
        classified(sent, r),
        r is Ok <==> censored_text(sent) is Some,
{
    match sent {
        Err(e) => Err(ApiError::ExternalApiError(e)),
        Ok(response) => {
            let status = response.status;
            if is_success(status) {
                match response.body {
                    Ok(text) => Ok(text),
                    Err(e) => Err(ApiError::ExternalApiError(e)),
                }
            } else {
                let message = match response.body {
                    Ok(text) => text,
                    Err(_) => String::new(),
                };
                if is_client_error(status) {
                    Err(ApiError::ClientError(ApiLayerError { status, message }))
                } else {
                    Err(ApiError::ServerError(ApiLayerError { status, message }))
                }
            }
        },
    }
}

} // verus!
