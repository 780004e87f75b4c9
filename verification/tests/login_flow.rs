use vtop::engine::HttpResponse;
use vtop::engine::LoginAction;
use vtop::engine::LoginEvent;
use vtop::engine::VtopClient;
use vtop::engine::VtopConfig;
use vtop::errors::VtopError;
use vtop::session::SessionManager;

const BASE: &str = "https://portal.example";

fn client() -> VtopClient {
    VtopClient::with_config(
        VtopConfig { base_url: BASE.to_string() },
        SessionManager::new(),
        "22BCE1234".to_string(),
        "hunter2".to_string(),
    )
}

fn page_with_csrf(token: &str) -> String {
    format!(
        "<html><form><input type=\"hidden\" name=\"_csrf\" value=\"{}\"></form></html>",
        token
    )
}

fn captcha_page(token: &str) -> String {
    format!(
        "<html><form><input type=\"hidden\" name=\"_csrf\" value=\"{}\">\
         <img class=\"form-control img-fluid bg-light border-0\" \
         src=\"data:image/png;base64,AAAA\"></form></html>",
        token
    )
}

fn success_page(token: &str, regno: &str) -> String {
    format!(
        "<html><input type=\"hidden\" name=\"_csrf\" value=\"{}\">\
         <input type=\"hidden\" name=\"authorizedIDX\" value=\"{}\"></html>",
        token, regno
    )
}

fn ok_response(url: &str, body: String) -> LoginEvent {
    LoginEvent::HttpOk(HttpResponse {
        status_success: true,
        final_url: url.to_string(),
        body,
    })
}

fn bad_status(url: &str) -> LoginEvent {
    LoginEvent::HttpOk(HttpResponse {
        status_success: false,
        final_url: url.to_string(),
        body: String::new(),
    })
}

#[test]
fn successful_login_uses_freshest_token() {
    let mut c = client();
    let act = c.login();
    match act {
        LoginAction::FetchPage { url } => {
            assert_eq!(url, format!("{}/vtop/open/page", BASE));
        }
        _ => panic!("expected the initial page fetch"),
    }

    // initial page carries token one; the prelogin POST must carry it
    let act = c.login_event(ok_response(
        &format!("{}/vtop/open/page", BASE),
        page_with_csrf("token-one"),
    ));
    match act {
        LoginAction::PostPrelogin { url, body } => {
            assert_eq!(url, format!("{}/vtop/prelogin/setup", BASE));
            assert_eq!(body, "_csrf=token-one&flag=VTOP");
        }
        _ => panic!("expected the prelogin POST"),
    }

    // the captcha page carries token two; the submission must carry it,
    // never token one
    let act = c.login_event(ok_response(
        &format!("{}/vtop/prelogin/setup", BASE),
        captcha_page("token-two"),
    ));
    match act {
        LoginAction::SolveCaptcha { image } => {
            assert_eq!(image, "data:image/png;base64,AAAA");
        }
        _ => panic!("expected the captcha to go to the solver"),
    }

    let act = c.login_event(LoginEvent::CaptchaSolved("XY12Z".to_string()));
    match act {
        LoginAction::SubmitLogin { url, form } => {
            assert_eq!(url, format!("{}/vtop/login", BASE));
            assert_eq!(form.csrf, "token-two");
            assert_eq!(form.username, "22BCE1234");
            assert_eq!(form.password, "hunter2");
            assert_eq!(form.captcha, "XY12Z");
            let fields = form.fields();
            assert_eq!(fields[0], ("_csrf".to_string(), "token-two".to_string()));
            assert_eq!(fields[1].0, "username");
            assert_eq!(fields[2].0, "password");
            assert_eq!(fields[3].0, "captchaStr");
        }
        _ => panic!("expected the login submission"),
    }

    let act = c.login_event(ok_response(
        &format!("{}/vtop/content", BASE),
        success_page("token-three", "22BCE1234X"),
    ));
    match act {
        LoginAction::Complete(r) => assert!(r.is_ok()),
        _ => panic!("expected completion"),
    }
    assert!(c.is_authenticated());
    // the recovered identifier is recorded beside the untouched credential
    assert_eq!(c.username, "22BCE1234");
    assert_eq!(c.registration_id, Some("22BCE1234X".to_string()));
}

#[test]
fn username_is_normalized_to_uppercase() {
    let mut c = VtopClient::with_config(
        VtopConfig { base_url: BASE.to_string() },
        SessionManager::new(),
        "22bce1234".to_string(),
        "hunter2".to_string(),
    );
    assert_eq!(c.username, "22BCE1234");
    let _ = c.login();
    let _ = c.login_event(ok_response(
        &format!("{}/vtop/open/page", BASE),
        page_with_csrf("token-one"),
    ));
    let _ = c.login_event(ok_response(
        &format!("{}/vtop/prelogin/setup", BASE),
        captcha_page("token-two"),
    ));
    let act = c.login_event(LoginEvent::CaptchaSolved("XY12Z".to_string()));
    match act {
        LoginAction::SubmitLogin { form, .. } => assert_eq!(form.username, "22BCE1234"),
        _ => panic!("expected the login submission"),
    }
}

#[test]
fn probe_page_without_token_falls_through() {
    // a good status is not enough: the probe must also yield a fresh token
    let mut c = client();
    c.set_cookie("JSESSIONID=maybe".to_string());
    let _ = c.login();
    let act = c.login_event(ok_response(
        &format!("{}/vtop/open/page", BASE),
        "<html>a page with no form</html>".to_string(),
    ));
    match act {
        LoginAction::FetchPage { url } => {
            assert_eq!(url, format!("{}/vtop/open/page", BASE));
        }
        _ => panic!("a token-less probe page must fall through"),
    }
    assert!(!c.is_authenticated());
}

#[test]
fn initial_server_error_is_fatal_before_any_captcha() {
    let mut c = client();
    let _ = c.login();
    let act = c.login_event(bad_status(&format!("{}/vtop/open/page", BASE)));
    match act {
        LoginAction::Complete(r) => {
            assert_eq!(r.unwrap_err(), VtopError::VtopServerError);
        }
        _ => panic!("a failed initial load must end the exchange"),
    }
    assert!(!c.is_authenticated());
}

#[test]
fn reload_loop_exhaustion_fails_with_captcha_required() {
    let mut c = client();
    let _ = c.login();
    let _ = c.login_event(ok_response(
        &format!("{}/vtop/open/page", BASE),
        page_with_csrf("token-one"),
    ));
    // eight prelogin responses, none presenting a captcha
    for round in 0..8 {
        let act = c.login_event(ok_response(
            &format!("{}/vtop/prelogin/setup", BASE),
            "<html>still warming up</html>".to_string(),
        ));
        if round < 7 {
            match act {
                LoginAction::PostPrelogin { body, .. } => {
                    assert_eq!(body, "_csrf=token-one&flag=VTOP");
                }
                _ => panic!("expected another reload"),
            }
        } else {
            // the engine proceeds with the stored initial page, which has no
            // captcha element
            match act {
                LoginAction::Complete(r) => {
                    assert_eq!(r.unwrap_err(), VtopError::CaptchaRequired);
                }
                _ => panic!("exhaustion must surface the missing captcha"),
            }
        }
    }
}

#[test]
fn four_rejected_captchas_exhaust_the_budget() {
    let mut c = client();
    let mut act = c.login();
    act = c.login_event(ok_response(
        &format!("{}/vtop/open/page", BASE),
        page_with_csrf("token-one"),
    ));
    for attempt in 0..4 {
        match act {
            LoginAction::PostPrelogin { .. } => {}
            _ => panic!("expected a prelogin POST at attempt {}", attempt),
        }
        act = c.login_event(ok_response(
            &format!("{}/vtop/prelogin/setup", BASE),
            captcha_page(&format!("token-{}", attempt)),
        ));
        match act {
            LoginAction::SolveCaptcha { .. } => {}
            _ => panic!("expected a solver call at attempt {}", attempt),
        }
        act = c.login_event(LoginEvent::CaptchaSolved("WRONG".to_string()));
        match &act {
            LoginAction::SubmitLogin { form, .. } => {
                assert_eq!(form.csrf, format!("token-{}", attempt));
            }
            _ => panic!("expected a submission at attempt {}", attempt),
        }
        act = c.login_event(ok_response(
            &format!("{}/vtop/login", BASE),
            "<div class=\"alert\">Invalid Captcha</div>".to_string(),
        ));
    }
    match act {
        LoginAction::Complete(r) => {
            assert_eq!(
                r.unwrap_err(),
                VtopError::AuthenticationFailed("Max login attempts exceeded".to_string())
            );
        }
        _ => panic!("the budget must be exhausted after four submissions"),
    }
    assert!(!c.is_authenticated());
}

#[test]
fn credential_mismatch_ends_without_retry() {
    let mut c = client();
    let _ = c.login();
    let _ = c.login_event(ok_response(
        &format!("{}/vtop/open/page", BASE),
        page_with_csrf("token-one"),
    ));
    let _ = c.login_event(ok_response(
        &format!("{}/vtop/prelogin/setup", BASE),
        captcha_page("token-two"),
    ));
    let _ = c.login_event(LoginEvent::CaptchaSolved("XY12Z".to_string()));
    let act = c.login_event(ok_response(
        &format!("{}/vtop/login", BASE),
        "alert Invalid LoginId/Password".to_string(),
    ));
    match act {
        LoginAction::Complete(r) => {
            assert_eq!(r.unwrap_err(), VtopError::InvalidCredentials);
        }
        _ => panic!("a credential mismatch must be terminal"),
    }
    assert!(!c.is_authenticated());
}

#[test]
fn solver_failure_is_fatal_for_the_call() {
    let mut c = client();
    let _ = c.login();
    let _ = c.login_event(ok_response(
        &format!("{}/vtop/open/page", BASE),
        page_with_csrf("token-one"),
    ));
    let _ = c.login_event(ok_response(
        &format!("{}/vtop/prelogin/setup", BASE),
        captcha_page("token-two"),
    ));
    let act = c.login_event(LoginEvent::SolverFailed);
    match act {
        LoginAction::Complete(r) => {
            assert_eq!(r.unwrap_err(), VtopError::NetworkError);
        }
        _ => panic!("an unreachable solver must end the exchange"),
    }
}

#[test]
fn cookie_round_trip_skips_the_captcha_flow() {
    // authenticate one client the long way, with a cookie installed
    let mut first = client();
    first.set_cookie("JSESSIONID=abc123".to_string());
    // an external cookie makes login probe first
    let act = first.login();
    match act {
        LoginAction::FetchPage { url } => {
            assert_eq!(url, format!("{}/vtop/open/page", BASE));
        }
        _ => panic!("expected the probe fetch"),
    }
    let act = first.login_event(ok_response(
        &format!("{}/vtop/open/page", BASE),
        page_with_csrf("token-probe"),
    ));
    match act {
        LoginAction::Complete(r) => assert!(r.is_ok()),
        _ => panic!("a good probe must finish the login"),
    }
    assert!(first.is_authenticated());

    // export, import into a fresh client, and log in again: still no captcha
    let blob = first.get_cookie(true).unwrap();
    assert_eq!(blob, b"JSESSIONID=abc123".to_vec());
    let mut second = client();
    second.set_cookie(String::from_utf8(blob).unwrap());
    let act = second.login();
    match act {
        LoginAction::FetchPage { .. } => {}
        _ => panic!("expected the probe fetch"),
    }
    let act = second.login_event(ok_response(
        &format!("{}/vtop/open/page", BASE),
        page_with_csrf("token-probe-2"),
    ));
    match act {
        LoginAction::Complete(r) => assert!(r.is_ok()),
        _ => panic!("the imported cookie must pass the probe"),
    }
    assert!(second.is_authenticated());
}

#[test]
fn failed_probe_falls_through_to_normal_flow_once() {
    let mut c = client();
    c.set_cookie("JSESSIONID=stale".to_string());
    let _ = c.login();
    // the probe lands on the login page: fall through to the normal flow
    let act = c.login_event(ok_response(
        &format!("{}/vtop/login", BASE),
        "<html>please log in</html>".to_string(),
    ));
    match act {
        LoginAction::FetchPage { url } => {
            assert_eq!(url, format!("{}/vtop/open/page", BASE));
        }
        _ => panic!("a failed probe must fall through"),
    }
    assert!(!c.is_authenticated());
}

#[test]
fn get_cookie_refuses_unauthenticated_export() {
    let c = client();
    assert_eq!(c.get_cookie(true).unwrap_err(), VtopError::SessionExpired);
    assert_eq!(c.get_cookie(false).unwrap(), Vec::<u8>::new());
}

#[test]
fn transport_failure_mid_flow_is_fatal() {
    let mut c = client();
    let _ = c.login();
    let act = c.login_event(LoginEvent::HttpFailed);
    match act {
        LoginAction::Complete(r) => {
            assert_eq!(r.unwrap_err(), VtopError::NetworkError);
        }
        _ => panic!("a transport failure must end the exchange"),
    }
}

#[test]
fn initial_page_without_token_is_a_parse_error() {
    let mut c = client();
    let _ = c.login();
    let act = c.login_event(ok_response(
        &format!("{}/vtop/open/page", BASE),
        "<html>no form here</html>".to_string(),
    ));
    match act {
        LoginAction::Complete(r) => {
            assert_eq!(
                r.unwrap_err(),
                VtopError::ParseError("CSRF token not found".to_string())
            );
        }
        _ => panic!("a token-less page cannot start the captcha cycle"),
    }
}

#[test]
fn unknown_error_page_carries_the_url() {
    let mut c = client();
    let _ = c.login();
    let _ = c.login_event(ok_response(
        &format!("{}/vtop/open/page", BASE),
        page_with_csrf("token-one"),
    ));
    let _ = c.login_event(ok_response(
        &format!("{}/vtop/prelogin/setup", BASE),
        captcha_page("token-two"),
    ));
    let _ = c.login_event(LoginEvent::CaptchaSolved("XY12Z".to_string()));
    let act = c.login_event(ok_response(
        &format!("{}/vtop/error", BASE),
        "<html>unhelpful page</html>".to_string(),
    ));
    match act {
        LoginAction::Complete(r) => {
            assert_eq!(
                r.unwrap_err(),
                VtopError::AuthenticationFailed(format!(
                    "Unknown error content. URL: {}/vtop/error",
                    BASE
                ))
            );
        }
        _ => panic!("an unrecognized error page must be terminal"),
    }
}

#[test]
fn success_page_without_identity_is_fatal() {
    let mut c = client();
    let _ = c.login();
    let _ = c.login_event(ok_response(
        &format!("{}/vtop/open/page", BASE),
        page_with_csrf("token-one"),
    ));
    let _ = c.login_event(ok_response(
        &format!("{}/vtop/prelogin/setup", BASE),
        captcha_page("token-two"),
    ));
    let _ = c.login_event(LoginEvent::CaptchaSolved("XY12Z".to_string()));
    let act = c.login_event(ok_response(
        &format!("{}/vtop/content", BASE),
        page_with_csrf("token-three"),
    ));
    match act {
        LoginAction::Complete(r) => {
            assert_eq!(r.unwrap_err(), VtopError::RegistrationParsingError);
        }
        _ => panic!("a success page without the identity field must be fatal"),
    }
    assert!(!c.is_authenticated());
}

#[test]
fn prelogin_bad_status_is_a_server_error() {
    let mut c = client();
    let _ = c.login();
    let _ = c.login_event(ok_response(
        &format!("{}/vtop/open/page", BASE),
        page_with_csrf("token-one"),
    ));
    let act = c.login_event(bad_status(&format!("{}/vtop/prelogin/setup", BASE)));
    match act {
        LoginAction::Complete(r) => {
            assert_eq!(r.unwrap_err(), VtopError::VtopServerError);
        }
        _ => panic!("a failed prelogin POST must end the exchange"),
    }
}

#[test]
fn reload_exhaustion_reuses_a_stale_captcha_page() {
    // the initial page itself happens to carry a captcha; when eight reloads
    // never present one, the engine proceeds with the page state it has
    let mut c = client();
    let _ = c.login();
    let _ = c.login_event(ok_response(
        &format!("{}/vtop/open/page", BASE),
        captcha_page("token-one"),
    ));
    let mut last = None;
    for _ in 0..8 {
        last = Some(c.login_event(ok_response(
            &format!("{}/vtop/prelogin/setup", BASE),
            "<html>still warming up</html>".to_string(),
        )));
    }
    match last.unwrap() {
        LoginAction::SolveCaptcha { image } => {
            assert_eq!(image, "data:image/png;base64,AAAA");
        }
        _ => panic!("exhaustion must fall back to the stored page's captcha"),
    }
}
