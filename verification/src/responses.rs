//! Request and reply schema of the two HTTP endpoints, and the error
//! replies the handlers can produce.

use vstd::prelude::*;

verus! {

/// Status code of a reply rejected by the authentication gate.
pub const CODE_UNAUTHORIZED: u16 = 401;

/// Status code of a reply rejected by request validation.
pub const CODE_BAD_REQUEST: u16 = 400;

/// Status code of a reply reporting a driver failure.
pub const CODE_INTERNAL_SERVER_ERROR: u16 = 500;

/// Body of every non-2xx reply.
#[derive(Debug)]
pub struct ErrorResponse {
    pub error: String,
}

/// A non-2xx reply: HTTP status code together with its error body.
#[derive(Debug)]
pub struct ApiError {
    pub code: u16,
    pub body: ErrorResponse,
}

/// Reply of the status endpoint.
#[derive(Debug)]
pub struct StatusResponse {
    pub status: String,
    pub message: String,
    pub server_mode: String,
    pub controlled_pin: u8,
}

/// Body of the actuation endpoint's request: a single action field,
/// of which exactly one value is recognized.
#[derive(Debug)]
pub struct WaterRequest {
    pub action: String,
}

/// Successful reply of the actuation endpoint.
#[derive(Debug)]
pub struct WaterResponse {
    pub status: String,
    pub message: String,
    pub gpio_result: String,
}

/// The reply that the authentication gate produces for a missing or
/// mismatched credential.
pub open spec fn is_unauthorized(e: ApiError) -> bool {
    &&& e.code == CODE_UNAUTHORIZED
    &&& e.body.error@ == "Unauthorized: Invalid API Key"@
}

/// The reply that request validation produces for an unrecognized action.
pub open spec fn is_invalid_request(e: ApiError) -> bool {
    &&& e.code == CODE_BAD_REQUEST
    &&& e.body.error@ == "Invalid request body. Expected {'action': 'start'}"@
}

/// The reply that surfaces a driver-reported failure with its detail.
pub open spec fn is_driver_failure(e: ApiError, detail: Seq<char>) -> bool {
    &&& e.code == CODE_INTERNAL_SERVER_ERROR
    &&& e.body.error@ == "GPIO操作エラー: "@ + detail
}

/// Builds the unauthorized reply.
pub fn unauthorized_error() -> (e: ApiError)
    ensures
        is_unauthorized(e),
{
    ApiError {
        code: CODE_UNAUTHORIZED,
        body: ErrorResponse { error: String::from_str("Unauthorized: Invalid API Key") },
    }
}

/// Builds the invalid-request reply.
pub fn invalid_request_error() -> (e: ApiError)
    ensures
        is_invalid_request(e),
{
    ApiError {
        code: CODE_BAD_REQUEST,
        body: ErrorResponse {
            error: String::from_str("Invalid request body. Expected {'action': 'start'}"),
        },
    }
}

/// Builds the internal-error reply around a driver-reported detail.
pub fn driver_failure_error(detail: &String) -> (e: ApiError)
    ensures
        is_driver_failure(e, detail@),
{
    ApiError {
        code: CODE_INTERNAL_SERVER_ERROR,
        body: ErrorResponse {
            error: String::from_str("GPIO操作エラー: ").concat(detail.as_str()),
        },
    }
}

} // verus!
