use vtop::classify::classify_login_response;
use vtop::classify::LoginOutcome;
use vtop::text::contains_substr;

#[test]
fn substring_found() {
    assert!(contains_substr("hello world", "lo wo"));
    assert!(contains_substr("hello", "hello"));
    assert!(contains_substr("hello", ""));
    assert!(contains_substr("aaab", "aab"));
}

#[test]
fn substring_absent() {
    assert!(!contains_substr("hello", "world"));
    assert!(!contains_substr("", "a"));
    assert!(!contains_substr("ab", "abc"));
    assert!(!contains_substr("Invalid captcha", "Invalid Captcha"));
}

#[test]
fn classify_success_without_indicator() {
    let r = classify_login_response(
        "https://portal.example/vtop/content",
        "<html>welcome back</html>",
    );
    assert_eq!(r, LoginOutcome::Success);
}

#[test]
fn classify_invalid_captcha_is_retryable() {
    let r = classify_login_response(
        "https://portal.example/vtop/login",
        "<div class=\"alert\">Invalid Captcha</div>",
    );
    assert_eq!(r, LoginOutcome::CaptchaRetry);
}

#[test]
fn classify_invalid_captcha_never_credentials() {
    // both markers present: the captcha marker wins
    let r = classify_login_response(
        "https://portal.example/vtop/error",
        "alert: Invalid Captcha and Invalid LoginId/Password",
    );
    assert_eq!(r, LoginOutcome::CaptchaRetry);
}

#[test]
fn classify_credential_markers_terminal() {
    let bodies = [
        "alert Invalid LoginId/Password",
        "alert Invalid  Username/Password",
        "alert User does not exist",
        "alert Invalid credentials",
    ];
    for body in bodies {
        let r = classify_login_response("https://portal.example/vtop/login", body);
        assert_eq!(r, LoginOutcome::BadCredentials);
    }
}

#[test]
fn classify_unknown_error_page() {
    let r = classify_login_response(
        "https://portal.example/vtop/error",
        "<html>something odd</html>",
    );
    assert_eq!(r, LoginOutcome::Unknown);
}

#[test]
fn classify_url_error_indicator_counts() {
    let r = classify_login_response(
        "https://portal.example/vtop/error",
        "Invalid Captcha without any other fragment",
    );
    assert_eq!(r, LoginOutcome::CaptchaRetry);
}
