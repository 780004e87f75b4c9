//! The keyword-based outcome classifier.
//!
//! The portal signals login success and its distinct failure modes only
//! through fragments of page text, so outcomes are classified by substring
//! search over the response URL and body: a brittle but faithful strategy.
//! Ambiguous error pages (neither a captcha nor a credential marker) stay the
//! generic unknown outcome.

use vstd::prelude::*;

use crate::text::contains_seq;
use crate::text::contains_substr;

verus! {

/// How a login form submission was answered.
#[derive(Debug, Clone, Copy, PartialEq, Eq, Structural)]
pub enum LoginOutcome {
    /// No error indicator: the portal accepted the submission.
    Success,
    /// The captcha answer was rejected; retrying consumes one attempt.
    CaptchaRetry,
    /// A credential-mismatch marker: terminal, never retried.
    BadCredentials,
    /// An error page with no recognizable marker: terminal.
    Unknown,
}

/// The response shows an error: its URL names an error page or its body
/// carries an alert fragment.
pub open spec fn error_indicator(url: Seq<char>, body: Seq<char>) -> bool {
    contains_seq(url, "error"@) || contains_seq(body, "alert"@)
}

/// The body carries the portal's rejected-captcha marker.
pub open spec fn invalid_captcha_marker(body: Seq<char>) -> bool {
    contains_seq(body, "Invalid Captcha"@)
}

/// The body carries one of the portal's credential-mismatch phrasings.
pub open spec fn credential_marker(body: Seq<char>) -> bool {
    ||| contains_seq(body, "Invalid LoginId/Password"@)
    ||| contains_seq(body, "Invalid  Username/Password"@)
    ||| contains_seq(body, "User does not exist"@)
    ||| contains_seq(body, "Invalid credentials"@)
}

/// The classification of a login response: the captcha marker is tested
/// before the credential markers, and an unrecognized error page stays
/// `Unknown`.
pub open spec fn classify_spec(url: Seq<char>, body: Seq<char>) -> LoginOutcome {
    if error_indicator(url, body) {
        if invalid_captcha_marker(body) {
            LoginOutcome::CaptchaRetry
        } else if credential_marker(body) {
            LoginOutcome::BadCredentials
        } else {
            LoginOutcome::Unknown
        }
    } else {
        LoginOutcome::Success
    }
}

/// Classifies a login response from its final URL and body text.
pub fn classify_login_response(final_url: &str, body: &str) -> (r: LoginOutcome)
    ensures
        r == classify_spec(final_url@, body@),
{
    if !(contains_substr(final_url, "error") || contains_substr(body, "alert")) {
        return LoginOutcome::Success;
    }
    if contains_substr(body, "Invalid Captcha") {
        return LoginOutcome::CaptchaRetry;
    }
    if contains_substr(body, "Invalid LoginId/Password") || contains_substr(
        body,
        "Invalid  Username/Password",
    ) || contains_substr(body, "User does not exist") || contains_substr(
        body,
        "Invalid credentials",
    ) {
        return LoginOutcome::BadCredentials;
    }
    LoginOutcome::Unknown
}

/// Law: a body carrying the "Invalid Captcha" marker is never classified as a
/// credential mismatch, and whenever an error indicator is present it is
/// classified as the retryable captcha failure.
pub proof fn lemma_invalid_captcha_always_retryable(url: Seq<char>, body: Seq<char>)
    requires
        invalid_captcha_marker(body),
    ensures
        classify_spec(url, body) != LoginOutcome::BadCredentials,
        error_indicator(url, body) ==> classify_spec(url, body) == LoginOutcome::CaptchaRetry,
{
}

/// Law: an error response carrying a credential-mismatch marker is classified
/// as a credential failure. Bodies that also carry the "Invalid Captcha"
/// marker are classified as captcha failures instead and are excluded here,
/// as are responses with no error indicator, which the portal presents as
/// success pages.
pub proof fn lemma_credential_mismatch_terminal(url: Seq<char>, body: Seq<char>)
    requires
        credential_marker(body),
        error_indicator(url, body),
        !invalid_captcha_marker(body),
    ensures
        classify_spec(url, body) == LoginOutcome::BadCredentials,
{
}

} // verus!
