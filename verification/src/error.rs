//! Errors for the social-media API calls, and the mapping from an HTTP
//! status code to the error shown to the user.

use vstd::prelude::*;

verus! {

/// An error from one of the social-media APIs, carrying the message
/// shown to the user. The status codes are standard across the APIs,
/// so one mapping serves every platform.
#[derive(Debug)]
pub enum APIError {
    BadRequest(String),
    Unauthorized(String),
    Forbidden(String),
    TooManyRequests(String),
    ServerError(String),
    Unknown,
}

impl APIError {
    /// The message that this error displays.
    pub open spec fn message_spec(&self) -> Seq<char> {
        match self {
            APIError::BadRequest(v) => v@,
            APIError::Unauthorized(v) => v@,
            APIError::Forbidden(v) => v@,
            APIError::TooManyRequests(v) => v@,
            APIError::ServerError(v) => v@,
            APIError::Unknown => "Unknown error"@,
        }
    }

    /// The text this error prints.
    pub fn message(&self) -> (r: String)
        ensures
            r@ == self.message_spec(),
    {
        match self {
            APIError::BadRequest(v) => v.clone(),
            APIError::Unauthorized(v) => v.clone(),
            APIError::Forbidden(v) => v.clone(),
            APIError::TooManyRequests(v) => v.clone(),
            APIError::ServerError(v) => v.clone(),
            APIError::Unknown => String::from_str("Unknown error"),
        }
    }
}

/// The message that `check_status` pairs with a status code.
pub open spec fn status_message_spec(code: u16) -> Seq<char> {
    if code == 400 {
        "Bad request: did you provide API credentials as env values?"@
    } else if code == 401 {
        "Unauthorized: check your credentials are correct"@
    } else if code == 403 {
        "Access forbidden: have you been banned?"@
    } else if code == 423 {
        "Too many requests error"@
    } else if 500 <= code <= 599 {
        "Server error: it's not you, it's them"@
    } else {
        "Unknown error"@
    }
}

/// Map an HTTP status code to a helpful error. Every code maps to an
/// error: a `200` never reaches this function, so the `Ok` arm of the
/// result is never used.
pub fn check_status(code: u16) -> (r: Result<bool, APIError>)
    requires
        100 <= code <= 999,
    ensures
        r is Err,
        r matches Err(e) ==> e.message_spec() == status_message_spec(code),
        r matches Err(e) ==> match e {
            APIError::BadRequest(_) => code == 400,
            APIError::Unauthorized(_) => code == 401,
            APIError::Forbidden(_) => code == 403,
            APIError::TooManyRequests(_) => code == 423,
            APIError::ServerError(_) => 500 <= code <= 599,
            APIError::Unknown => !(code == 400 || code == 401 || code == 403 || code == 423
                || 500 <= code <= 599),
        },
{
    if code == 400 {
        Err(APIError::BadRequest(String::from_str(
            "Bad request: did you provide API credentials as env values?",
        )))
    } else if code == 401 {
        Err(APIError::Unauthorized(String::from_str(
            "Unauthorized: check your credentials are correct",
        )))
    } else if code == 403 {
        Err(APIError::Forbidden(String::from_str("Access forbidden: have you been banned?")))
    } else if code == 423 {
        Err(APIError::TooManyRequests(String::from_str("Too many requests error")))
    } else if 500 <= code && code <= 599 {
        Err(APIError::ServerError(String::from_str("Server error: it's not you, it's them")))
    } else {
        Err(APIError::Unknown)
    }
}

} // verus!
