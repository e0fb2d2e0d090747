//! Error taxonomies: configuration loading, IP probing, and the closed set
//! of DNS API outcomes, together with their diagnostic texts.

use vstd::prelude::*;
use crate::text::{dec_digits, u64_to_dec};

verus! {

/// Failure to load the configuration. The underlying cause is deliberately
/// discarded.
#[derive(Debug, Clone, Copy, PartialEq, Eq, Structural)]
pub enum ConfigError {
    IoError,
    ParseError,
}

/// Failure of one external IP probe: either the transport failed, or the
/// response body was not an IP literal.
#[derive(Debug, Clone, Copy, PartialEq, Eq, Structural)]
pub enum IpError {
    RequestError,
    InvalidIp,
}

/// Outcome of a DNS API call that did not succeed: transport failure, one
/// of the enumerated HTTP statuses, or any other status with its raw body
/// kept for diagnostics.
#[derive(Debug, Clone)]
pub enum ApiError {
    RequestError,
    Unauthorized,
    Forbidden,
    NotFound,
    Conflict,
    UnprocessableEntity,
    UnknownStatus(u16, String),
}

/// Mathematical model of an `ApiError`: the body of an unknown status is a
/// character sequence.
pub enum ApiErrorV {
    RequestError,
    Unauthorized,
    Forbidden,
    NotFound,
    Conflict,
    UnprocessableEntity,
    UnknownStatus(u16, Seq<char>),
}

impl View for ApiError {
    type V = ApiErrorV;

    open spec fn view(&self) -> ApiErrorV {
        match self {
            ApiError::RequestError => ApiErrorV::RequestError,
            ApiError::Unauthorized => ApiErrorV::Unauthorized,
            ApiError::Forbidden => ApiErrorV::Forbidden,
            ApiError::NotFound => ApiErrorV::NotFound,
            ApiError::Conflict => ApiErrorV::Conflict,
            ApiError::UnprocessableEntity => ApiErrorV::UnprocessableEntity,
            ApiError::UnknownStatus(code, body) => ApiErrorV::UnknownStatus(*code, body@),
        }
    }
}

/// The diagnostic line for each API outcome.
pub open spec fn api_error_text(e: ApiErrorV) -> Seq<char> {
    match e {
        ApiErrorV::RequestError => "Request error"@,
        ApiErrorV::Unauthorized => "Unauthorized: Invalid API token"@,
        ApiErrorV::Forbidden => "Forbidden: Access denied"@,
        ApiErrorV::NotFound => "Not Found: Record or zone not found"@,
        ApiErrorV::Conflict => "Conflict: Record conflict"@,
        ApiErrorV::UnprocessableEntity => "Unprocessable Entity: Invalid data"@,
        ApiErrorV::UnknownStatus(code, body) => "Unknown status "@ + dec_digits(
            code as nat,
        ) + ": "@ + body,
    }
}

impl ApiError {
    /// Renders the outcome as its diagnostic line.
    pub fn describe(&self) -> (r: String)
        ensures
            r@ == api_error_text(self@),
    {
        match self {
            ApiError::RequestError => "Request error".to_owned(),
            ApiError::Unauthorized => "Unauthorized: Invalid API token".to_owned(),
            ApiError::Forbidden => "Forbidden: Access denied".to_owned(),
            ApiError::NotFound => "Not Found: Record or zone not found".to_owned(),
            ApiError::Conflict => "Conflict: Record conflict".to_owned(),
            ApiError::UnprocessableEntity => "Unprocessable Entity: Invalid data".to_owned(),
            ApiError::UnknownStatus(code, body) => {
                let mut r = "Unknown status ".to_owned();
                let digits = u64_to_dec(*code as u64);
                r.append(digits.as_str());
                r.append(": ");
                r.append(body.as_str());
                proof {
                    assert(r@ =~= api_error_text(self@));
                }
                r
            },
        }
    }
}

} // verus!
