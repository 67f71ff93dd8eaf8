//! The errors of the library, each with the message that reports it.

use vstd::prelude::*;

verus! {

/// Errors that can occur when interacting with the Alarm.com API.
#[derive(Debug, Clone)]
pub enum AlarmError {
    /// Login credentials were rejected or the session is invalid.
    AuthenticationFailed(String),
    /// Two-factor authentication is required but no trusted device cookie was provided.
    TwoFactorRequired,
    /// The session has expired and a re-login is needed.
    SessionExpired,
    /// The Alarm.com service returned a server error or was unreachable.
    ServiceUnavailable(String),
    /// The account does not have permission for the requested operation.
    NotAuthorized(String),
    /// The API returned a response that could not be parsed.
    UnexpectedResponse(String),
    /// The requested device was not found.
    UnknownDevice(String),
    /// The requested operation is not supported for this device.
    UnsupportedOperation(String),
    /// A network-level error occurred; the payload is the transport's report.
    Network(String),
    /// An error occurred while parsing HTML.
    HtmlParse(String),
    /// An error occurred while parsing JSON; the payload is the parser's report.
    Json(String),
    /// The account is locked out.
    AccountLockedOut,
}

/// The result of the library's fallible operations.
pub type Result<T> = std::result::Result<T, AlarmError>;

impl AlarmError {
    /// The message that reports the error.
    pub open spec fn message(self) -> Seq<char> {
        match self {
            AlarmError::AuthenticationFailed(s) => "authentication failed: "@ + s@,
            AlarmError::TwoFactorRequired => "two-factor authentication required (set ALARM_MFA_COOKIE to bypass)"@,
            AlarmError::SessionExpired => "session expired"@,
            AlarmError::ServiceUnavailable(s) => "service unavailable: "@ + s@,
            AlarmError::NotAuthorized(s) => "not authorized: "@ + s@,
            AlarmError::UnexpectedResponse(s) => "unexpected response: "@ + s@,
            AlarmError::UnknownDevice(s) => "unknown device: "@ + s@,
            AlarmError::UnsupportedOperation(s) => "unsupported operation: "@ + s@,
            AlarmError::Network(s) => "network error: "@ + s@,
            AlarmError::HtmlParse(s) => "html parse error: "@ + s@,
            AlarmError::Json(s) => "json error: "@ + s@,
            AlarmError::AccountLockedOut => "account locked out"@,
        }
    }

    /// The message that reports the error.
    #[allow(clippy::inherent_to_string)]
    pub fn to_string(&self) -> (r: String)
        ensures
            r@ == self.message(),
    {
        match self {
            AlarmError::AuthenticationFailed(s) => String::from_str("authentication failed: ").concat(
                s.as_str(),
            ),
            AlarmError::TwoFactorRequired => String::from_str(
                "two-factor authentication required (set ALARM_MFA_COOKIE to bypass)",
            ),
            AlarmError::SessionExpired => String::from_str("session expired"),
            AlarmError::ServiceUnavailable(s) => String::from_str("service unavailable: ").concat(
                s.as_str(),
            ),
            AlarmError::NotAuthorized(s) => String::from_str("not authorized: ").concat(s.as_str()),
            AlarmError::UnexpectedResponse(s) => String::from_str("unexpected response: ").concat(
                s.as_str(),
            ),
            AlarmError::UnknownDevice(s) => String::from_str("unknown device: ").concat(s.as_str()),
            AlarmError::UnsupportedOperation(s) => String::from_str(
                "unsupported operation: ",
            ).concat(s.as_str()),
            AlarmError::Network(s) => String::from_str("network error: ").concat(s.as_str()),
            AlarmError::HtmlParse(s) => String::from_str("html parse error: ").concat(s.as_str()),
            AlarmError::Json(s) => String::from_str("json error: ").concat(s.as_str()),
            AlarmError::AccountLockedOut => String::from_str("account locked out"),
        }
    }
}

} // verus!
