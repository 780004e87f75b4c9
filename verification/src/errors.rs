//! The error taxonomy of the client.

use vstd::prelude::*;

verus! {

/// Everything the client can report to its caller.
///
/// `NetworkError` is a transport-level failure; `SessionExpired` means the
/// session was never authenticated or was detected as expired mid-flight;
/// `CaptchaRequired` means no captcha image could be located when one was
/// expected; `InvalidCredentials` and `AuthenticationFailed` are terminal
/// login outcomes; `VtopServerError` is a non-success HTTP status outside the
/// login form exchange; `ParseError` means a required HTML field was missing;
/// `RegistrationParsingError` means login succeeded but the registration
/// identifier could not be recovered.
#[derive(Debug, Clone, PartialEq, Eq)]
pub enum VtopError {
    NetworkError,
    SessionExpired,
    CaptchaRequired,
    InvalidCredentials,
    AuthenticationFailed(String),
    VtopServerError,
    ParseError(String),
    RegistrationParsingError,
}

pub type VtopResult<T> = Result<T, VtopError>;

} // verus!
