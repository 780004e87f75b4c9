use vtop::captcha::captcha_request_image;
use vtop::errors::VtopError;
use vtop::html::extract_captcha;
use vtop::html::extract_csrf_token;
use vtop::html::extract_regno;

const LOGIN_PAGE: &str = "<html><body><form>\
<input type=\"hidden\" name=\"_csrf\" value=\"tok-123\">\
<img class=\"form-control img-fluid bg-light border-0\" src=\"data:image/png;base64,AAAA\">\
</form></body></html>";

#[test]
fn csrf_token_extracted() {
    let t = extract_csrf_token(LOGIN_PAGE).unwrap();
    assert_eq!(t, "tok-123");
}

#[test]
fn csrf_token_missing() {
    let e = extract_csrf_token("<html><input name=\"other\" value=\"x\"></html>").unwrap_err();
    assert_eq!(e, VtopError::ParseError("CSRF token not found".to_string()));
}

#[test]
fn captcha_extracted() {
    let img = extract_captcha(LOGIN_PAGE).unwrap();
    assert_eq!(img, "data:image/png;base64,AAAA");
}

#[test]
fn captcha_missing_element() {
    let e = extract_captcha("<html><img class=\"other\" src=\"x\"></html>").unwrap_err();
    assert_eq!(e, VtopError::CaptchaRequired);
}

#[test]
fn captcha_source_without_inline_data() {
    let page = "<html><img class=\"form-control img-fluid bg-light border-0\" \
                src=\"/static/captcha.png\"></html>";
    let e = extract_captcha(page).unwrap_err();
    assert_eq!(e, VtopError::CaptchaRequired);
}

#[test]
fn regno_extracted() {
    let page = "<html><input type=\"hidden\" name=\"authorizedIDX\" value=\"22BCE1234\"></html>";
    assert_eq!(extract_regno(page).unwrap(), "22BCE1234");
}

#[test]
fn regno_missing() {
    let e = extract_regno("<html><input type=\"text\" name=\"authorizedIDX\"></html>").unwrap_err();
    assert_eq!(e, VtopError::RegistrationParsingError);
}

#[test]
fn captcha_payload_is_url_safe_base64() {
    let r = captcha_request_image("data:image/png;base64,AAAA");
    assert_eq!(r, "ZGF0YTppbWFnZS9wbmc7YmFzZTY0LEFBQUE=");
    assert_eq!(captcha_request_image(""), "");
    assert_eq!(captcha_request_image("abc"), "YWJj");
}

#[test]
fn malformed_html_is_tolerated() {
    // the parser recovers from arbitrary input; extraction reports a missing
    // field instead of failing
    let garbage = "<<<p><input name='_csrf' <img src=\"x\" ><>>";
    assert!(extract_captcha(garbage).is_err());
    assert!(extract_regno(garbage).is_err());
    let _ = extract_csrf_token(garbage);
    let empty = "";
    assert!(extract_csrf_token(empty).is_err());
    assert!(extract_captcha(empty).is_err());
    assert!(extract_regno(empty).is_err());
}
