//! The authentication engine.
//!
//! `VtopClient` drives the portal's multi-step challenge/response protocol as
//! an explicit state machine. The client never performs I/O itself: `login`
//! and `login_event` return the next [`LoginAction`] for the caller to
//! perform, and the caller hands the observed [`LoginEvent`] back. Every
//! decision — which request to build, how to classify a response, when a
//! retry is allowed — is made here and stated in the contracts.
//!
//! The laws the machine obeys:
//! - every POST it emits carries exactly the CSRF token extracted from the
//!   most recently consumed page, never an older one (the `pending_csrf`
//!   clauses of `login_event`);
//! - a single `login` run never exceeds `MAX_CAP_TRY` captcha cycles (the
//!   `attempts` clauses of `login_event`, and over whole runs the budget law
//!   in the laws module);
//! - the session becomes authenticated only when a login completes
//!   successfully (the final clause of `login_event`).

use vstd::prelude::*;
use vstd::string::StringExecFns;

use crate::classify::classify_login_response;
use crate::classify::classify_spec;
use crate::classify::LoginOutcome;
use crate::errors::VtopError;
use crate::errors::VtopResult;
use crate::html::extract_captcha;
use crate::html::extract_csrf_token;
use crate::html::extract_regno;
use crate::html::page_captcha;
use crate::html::page_csrf;
use crate::html::page_regno;
use crate::session::SessionManager;
use crate::text::contains_seq;
use crate::text::contains_substr;
use crate::MAX_CAP_TRY;
use crate::MAX_RELOAD_ATTEMPTS;

verus! {

/// Where the portal lives.
pub struct VtopConfig {
    pub base_url: String,
}

/// The stations of the login state machine. `Idle` means no login exchange is
/// in flight; every other phase names the call whose outcome the engine is
/// waiting for.
#[derive(Debug, Clone, Copy, PartialEq, Eq, Structural)]
pub enum LoginPhase {
    Idle,
    /// The lightweight authenticated probe of an externally supplied cookie.
    Probing,
    /// The GET of the portal's open landing page.
    LoadingInitial,
    /// The prelogin POST that should present a captcha.
    AwaitingCaptchaPage,
    /// The captcha image is at the solving service.
    Solving,
    /// The login form has been submitted.
    Submitting,
}

/// What the caller observed for an HTTP call that returned at all.
pub struct HttpResponse {
    pub status_success: bool,
    pub final_url: String,
    pub body: String,
}

/// What the caller hands back after performing an action.
pub enum LoginEvent {
    /// The HTTP call returned; the response may still be an error page.
    HttpOk(HttpResponse),
    /// The HTTP call failed at the transport level.
    HttpFailed,
    /// The solving service answered.
    CaptchaSolved(String),
    /// The solving service was unreachable or refused.
    SolverFailed,
}

/// The login form exactly as the portal expects it.
pub struct LoginForm {
    pub csrf: String,
    pub username: String,
    pub password: String,
    pub captcha: String,
}

impl LoginForm {
    /// The form fields under their wire names, in submission order.
    pub fn fields(&self) -> (r: Vec<(String, String)>)
        ensures
            r@.len() == 4,
            r@[0].0@ == "_csrf"@ && r@[0].1@ == self.csrf@,
            r@[1].0@ == "username"@ && r@[1].1@ == self.username@,
            r@[2].0@ == "password"@ && r@[2].1@ == self.password@,
            r@[3].0@ == "captchaStr"@ && r@[3].1@ == self.captcha@,
    {
        let mut v: Vec<(String, String)> = Vec::new();
        v.push((String::from_str("_csrf"), self.csrf.clone()));
        v.push((String::from_str("username"), self.username.clone()));
        v.push((String::from_str("password"), self.password.clone()));
        v.push((String::from_str("captchaStr"), self.captcha.clone()));
        v
    }
}

/// What the caller must do next.
pub enum LoginAction {
    /// GET the page at `url`.
    FetchPage { url: String },
    /// POST `body` form-encoded to `url`.
    PostPrelogin { url: String, body: String },
    /// Send the captcha image to the solving service.
    SolveCaptcha { image: String },
    /// POST the login form to `url`.
    SubmitLogin { url: String, form: LoginForm },
    /// The login exchange is over with this result.
    Complete(Result<(), VtopError>),
}

/// One client instance: one credential, one session, one in-flight exchange.
pub struct VtopClient {
    pub config: VtopConfig,
    pub session: SessionManager,
    pub current_page: Option<String>,
    pub username: String,
    pub password: String,
    /// The portal-internal registration identifier recovered at login; the
    /// username credential itself is never changed.
    pub registration_id: Option<String>,
    pub captcha_data: Option<String>,
    pub phase: LoginPhase,
    /// Login form submissions made during the current `login` run.
    pub attempts: u8,
    /// Captcha-less prelogin responses seen during the current cycle.
    pub reloads: u8,
    /// The CSRF token as extracted from the most recently consumed page.
    pub pending_csrf: Ghost<Option<Seq<char>>>,
}

pub open spec fn opt_view(o: Option<String>) -> Option<Seq<char>> {
    match o {
        Some(s) => Some(s@),
        None => None,
    }
}

pub open spec fn open_page_url_of(base: Seq<char>) -> Seq<char> {
    base + "/vtop/open/page"@
}

pub open spec fn prelogin_url_of(base: Seq<char>) -> Seq<char> {
    base + "/vtop/prelogin/setup"@
}

pub open spec fn login_url_of(base: Seq<char>) -> Seq<char> {
    base + "/vtop/login"@
}

/// The prelogin POST body carrying `token`.
pub open spec fn prelogin_body_of(token: Seq<char>) -> Seq<char> {
    "_csrf="@ + token + "&flag=VTOP"@
}

impl VtopClient {
    /// The machine is inside the captcha cycle: a token extracted from a
    /// consumed page governs the next POST.
    pub open spec fn in_captcha_cycle(self) -> bool {
        ||| self.phase is AwaitingCaptchaPage
        ||| self.phase is Solving
        ||| self.phase is Submitting
    }

    /// The machine's invariant, preserved by `login` and `login_event`.
    pub open spec fn wf(self) -> bool {
        &&& self.attempts <= MAX_CAP_TRY
        &&& (self.phase is AwaitingCaptchaPage ==> self.reloads < MAX_RELOAD_ATTEMPTS)
        &&& ((self.phase is AwaitingCaptchaPage || self.phase is Solving) ==> self.attempts
            < MAX_CAP_TRY)
        &&& ((self.phase is Probing || self.phase is LoadingInitial) ==> self.attempts == 0)
        &&& (self.in_captcha_cycle() ==> (self.session.csrf_token matches Some(t)
            && self.pending_csrf@ == Some(t@)))
    }

    /// The identity that data-fetch requests go out under: the registration
    /// identifier recovered at login, or the username credential before then.
    pub open spec fn identity(self) -> Seq<char> {
        match self.registration_id {
            Some(r) => r@,
            None => self.username@,
        }
    }

    /// The events a phase can be answered with.
    pub open spec fn event_fits(self, ev: LoginEvent) -> bool {
        match self.phase {
            LoginPhase::Idle => false,
            LoginPhase::Solving => ev is CaptchaSolved || ev is SolverFailed,
            _ => ev is HttpOk || ev is HttpFailed,
        }
    }
}

/// The session carries a caller-supplied cookie worth probing.
pub open spec fn probe_entry(pre: VtopClient) -> bool {
    pre.session.external_cookie && pre.session.cookie@.len() > 0
}

/// The probe response shows an authenticated session: a success status, a
/// final URL that is not the login page, and a fresh CSRF token on the page.
pub open spec fn probe_success(ev: LoginEvent) -> bool {
    ev matches LoginEvent::HttpOk(r) && r.status_success && !contains_seq(
        r.final_url@,
        "login"@,
    ) && page_csrf(r.body@) is Some
}

pub open spec fn keeps_config(pre: VtopClient, post: VtopClient) -> bool {
    post.config.base_url@ == pre.config.base_url@
}

pub open spec fn keeps_credentials(pre: VtopClient, post: VtopClient) -> bool {
    post.username@ == pre.username@ && post.password@ == pre.password@ && opt_view(
        post.registration_id,
    ) == opt_view(pre.registration_id)
}

pub open spec fn keeps_cookie(pre: VtopClient, post: VtopClient) -> bool {
    post.session.cookie@ == pre.session.cookie@
}

/// The exchange ends, reporting `r`.
pub open spec fn completes(post: VtopClient, act: LoginAction, r: Result<(), VtopError>) -> bool {
    act == LoginAction::Complete(r) && post.phase is Idle
}

/// The exchange ends with the missing-field parse error.
pub open spec fn completes_parse_error(post: VtopClient, act: LoginAction) -> bool {
    &&& post.phase is Idle
    &&& (act matches LoginAction::Complete(r) && (r matches Err(e) && (
    e matches VtopError::ParseError(m) && m@ == "CSRF token not found"@)))
}

/// What `login` does: reset the run, then enter either the external-cookie
/// probe path or the normal flow, and in both cases fetch the open page.
pub open spec fn login_begin_rel(pre: VtopClient, post: VtopClient, act: LoginAction) -> bool {
    &&& keeps_config(pre, post)
    &&& keeps_credentials(pre, post)
    &&& keeps_cookie(pre, post)
    &&& post.attempts == 0
    &&& post.reloads == 0
    &&& post.current_page is None
    &&& post.captcha_data is None
    &&& opt_view(post.session.csrf_token) == opt_view(pre.session.csrf_token)
    &&& post.session.authenticated == pre.session.authenticated
    &&& (act matches LoginAction::FetchPage { url } && url@ == open_page_url_of(
        pre.config.base_url@,
    ))
    &&& if probe_entry(pre) {
        post.phase is Probing && post.session.external_cookie
    } else {
        post.phase is LoadingInitial && !post.session.external_cookie
    }
}

/// What answering the external-cookie probe does: a good response — success
/// status, no login redirect, and a fresh CSRF token on the page —
/// authenticates at once and ends the exchange; anything else, a missing
/// token included, clears the external-cookie flag and falls through to the
/// normal flow, never retried.
pub open spec fn step_probing_rel(
    pre: VtopClient,
    ev: LoginEvent,
    post: VtopClient,
    act: LoginAction,
) -> bool {
    &&& keeps_config(pre, post)
    &&& keeps_credentials(pre, post)
    &&& keeps_cookie(pre, post)
    &&& !post.session.external_cookie
    &&& post.attempts == pre.attempts
    &&& if probe_success(ev) {
        &&& act == LoginAction::Complete(Ok::<(), VtopError>(()))
        &&& post.phase is Idle
        &&& post.session.authenticated
        &&& match ev {
            LoginEvent::HttpOk(r) => opt_view(post.session.csrf_token) == page_csrf(r.body@)
                && post.pending_csrf@ == page_csrf(r.body@),
            _ => true,
        }
    } else {
        &&& (act matches LoginAction::FetchPage { url } && url@ == open_page_url_of(
            pre.config.base_url@,
        ))
        &&& post.phase is LoadingInitial
        &&& !post.session.authenticated
        &&& opt_view(post.session.csrf_token) == opt_view(pre.session.csrf_token)
    }
}

/// What answering the initial page load does: a non-success status is the
/// fatal server error, before any captcha cycle; otherwise the page is
/// consumed, its token extracted, and the first prelogin POST goes out.
pub open spec fn step_initial_rel(
    pre: VtopClient,
    ev: LoginEvent,
    post: VtopClient,
    act: LoginAction,
) -> bool {
    &&& keeps_config(pre, post)
    &&& keeps_credentials(pre, post)
    &&& keeps_cookie(pre, post)
    &&& post.session.external_cookie == pre.session.external_cookie
    &&& post.session.authenticated == pre.session.authenticated
    &&& post.attempts == pre.attempts
    &&& match ev {
        LoginEvent::HttpFailed => opt_view(post.current_page) == opt_view(pre.current_page)
            && completes(post, act, Err(VtopError::NetworkError)),
        LoginEvent::HttpOk(r) => {
            if !r.status_success {
                opt_view(post.current_page) == opt_view(pre.current_page) && completes(
                    post,
                    act,
                    Err(VtopError::VtopServerError),
                )
            } else {
                match page_csrf(r.body@) {
                    None => opt_view(post.current_page) == opt_view(pre.current_page)
                        && completes_parse_error(post, act),
                    Some(t) => {
                        &&& post.phase is AwaitingCaptchaPage
                        &&& post.reloads == 0
                        &&& opt_view(post.session.csrf_token) == Some(t)
                        &&& post.pending_csrf@ == Some(t)
                        &&& opt_view(post.current_page) == Some(r.body@)
                        &&& (act matches LoginAction::PostPrelogin { url, body } && url@
                            == prelogin_url_of(pre.config.base_url@) && body@ == prelogin_body_of(
                            t,
                        ))
                    },
                }
            }
        },
        _ => true,
    }
}

/// What answering a prelogin POST does: a captcha page is consumed (image and
/// fresh token re-extracted, never the old token); a captcha-less page is a
/// transient condition, retried up to `MAX_RELOAD_ATTEMPTS` times; exhausting
/// the retries proceeds with whatever page state exists.
pub open spec fn step_awaiting_rel(
    pre: VtopClient,
    ev: LoginEvent,
    post: VtopClient,
    act: LoginAction,
) -> bool {
    &&& keeps_config(pre, post)
    &&& keeps_credentials(pre, post)
    &&& keeps_cookie(pre, post)
    &&& post.session.external_cookie == pre.session.external_cookie
    &&& post.session.authenticated == pre.session.authenticated
    &&& post.attempts == pre.attempts
    &&& match ev {
        LoginEvent::HttpFailed => completes(post, act, Err(VtopError::NetworkError)),
        LoginEvent::HttpOk(r) => {
            if !r.status_success {
                completes(post, act, Err(VtopError::VtopServerError))
            } else if contains_seq(r.body@, "base64,"@) {
                match page_captcha(r.body@) {
                    None => completes(post, act, Err(VtopError::CaptchaRequired)),
                    Some(img) => match page_csrf(r.body@) {
                        None => completes_parse_error(post, act),
                        Some(t) => {
                            &&& post.phase is Solving
                            &&& opt_view(post.captcha_data) == Some(img)
                            &&& opt_view(post.session.csrf_token) == Some(t)
                            &&& post.pending_csrf@ == Some(t)
                            &&& opt_view(post.current_page) == Some(r.body@)
                            &&& (act matches LoginAction::SolveCaptcha { image } && image@ == img)
                        },
                    },
                }
            } else if pre.reloads + 1 < MAX_RELOAD_ATTEMPTS {
                match opt_view(pre.session.csrf_token) {
                    None => completes(post, act, Err(VtopError::SessionExpired)),
                    Some(t) => {
                        &&& post.phase is AwaitingCaptchaPage
                        &&& post.reloads == pre.reloads + 1
                        &&& opt_view(post.session.csrf_token) == Some(t)
                        &&& opt_view(post.current_page) == opt_view(pre.current_page)
                        &&& (act matches LoginAction::PostPrelogin { url, body } && url@
                            == prelogin_url_of(pre.config.base_url@) && body@ == prelogin_body_of(
                            t,
                        ))
                    },
                }
            } else {
                match opt_view(pre.current_page) {
                    None => completes(post, act, Err(VtopError::CaptchaRequired)),
                    Some(p) => match page_captcha(p) {
                        None => completes(post, act, Err(VtopError::CaptchaRequired)),
                        Some(img) => {
                            &&& post.phase is Solving
                            &&& opt_view(post.captcha_data) == Some(img)
                            &&& opt_view(post.session.csrf_token) == opt_view(
                                pre.session.csrf_token,
                            )
                            &&& (act matches LoginAction::SolveCaptcha { image } && image@ == img)
                        },
                    },
                }
            }
        },
        _ => true,
    }
}

/// What a solver answer does: the login form goes out carrying the current
/// token and the answer, consuming one attempt; solver failure is fatal to
/// the whole exchange.
pub open spec fn step_solving_rel(
    pre: VtopClient,
    ev: LoginEvent,
    post: VtopClient,
    act: LoginAction,
) -> bool {
    &&& keeps_config(pre, post)
    &&& keeps_credentials(pre, post)
    &&& keeps_cookie(pre, post)
    &&& post.session.external_cookie == pre.session.external_cookie
    &&& post.session.authenticated == pre.session.authenticated
    &&& match ev {
        LoginEvent::SolverFailed => post.attempts == pre.attempts && completes(
            post,
            act,
            Err(VtopError::NetworkError),
        ),
        LoginEvent::CaptchaSolved(answer) => match opt_view(pre.session.csrf_token) {
            None => post.attempts == pre.attempts && completes(
                post,
                act,
                Err(VtopError::SessionExpired),
            ),
            Some(t) => {
                &&& post.phase is Submitting
                &&& post.attempts == pre.attempts + 1
                &&& opt_view(post.session.csrf_token) == Some(t)
                &&& (act matches LoginAction::SubmitLogin { url, form } && url@ == login_url_of(
                    pre.config.base_url@,
                ) && form.csrf@ == t && form.username@ == pre.username@ && form.password@
                    == pre.password@ && form.captcha@ == answer@)
            },
        },
        _ => true,
    }
}

/// What a login response does, by its keyword classification: success
/// consumes the response page — fresh token, the registration identifier
/// recorded beside the untouched credentials, the authenticated flag raised;
/// a rejected captcha discards the page and challenge
/// and either starts a new cycle or, once `MAX_CAP_TRY` submissions are
/// spent, ends the exchange; a credential mismatch is terminal whatever the
/// remaining budget; anything else is the generic terminal failure.
pub open spec fn step_submitting_rel(
    pre: VtopClient,
    ev: LoginEvent,
    post: VtopClient,
    act: LoginAction,
) -> bool {
    &&& keeps_config(pre, post)
    &&& post.username@ == pre.username@
    &&& post.password@ == pre.password@
    &&& keeps_cookie(pre, post)
    &&& post.session.external_cookie == pre.session.external_cookie
    &&& post.attempts == pre.attempts
    &&& match ev {
        LoginEvent::HttpFailed => {
            &&& opt_view(post.registration_id) == opt_view(pre.registration_id)
            &&& post.session.authenticated == pre.session.authenticated
            &&& opt_view(post.session.csrf_token) == opt_view(pre.session.csrf_token)
            &&& opt_view(post.current_page) == opt_view(pre.current_page)
            &&& completes(post, act, Err(VtopError::NetworkError))
        },
        LoginEvent::HttpOk(r) => match classify_spec(r.final_url@, r.body@) {
            LoginOutcome::Success => match page_csrf(r.body@) {
                None => {
                    &&& opt_view(post.registration_id) == opt_view(pre.registration_id)
                    &&& post.session.authenticated == pre.session.authenticated
                    &&& opt_view(post.session.csrf_token) == opt_view(pre.session.csrf_token)
                    &&& completes_parse_error(post, act)
                },
                Some(t) => match page_regno(r.body@) {
                    None => {
                        &&& opt_view(post.registration_id) == opt_view(pre.registration_id)
                        &&& post.session.authenticated == pre.session.authenticated
                        &&& opt_view(post.session.csrf_token) == Some(t)
                        &&& completes(post, act, Err(VtopError::RegistrationParsingError))
                    },
                    Some(reg) => {
                        &&& act == LoginAction::Complete(Ok::<(), VtopError>(()))
                        &&& post.phase is Idle
                        &&& post.session.authenticated
                        &&& opt_view(post.session.csrf_token) == Some(t)
                        &&& post.pending_csrf@ == Some(t)
                        &&& opt_view(post.registration_id) == Some(reg)
                        &&& post.current_page is None
                        &&& post.captcha_data is None
                    },
                },
            },
            LoginOutcome::CaptchaRetry => {
                &&& opt_view(post.registration_id) == opt_view(pre.registration_id)
                &&& post.session.authenticated == pre.session.authenticated
                &&& opt_view(post.session.csrf_token) == opt_view(pre.session.csrf_token)
                &&& post.current_page is None
                &&& post.captcha_data is None
                &&& if pre.attempts < MAX_CAP_TRY {
                    match opt_view(pre.session.csrf_token) {
                        None => completes(post, act, Err(VtopError::SessionExpired)),
                        Some(t) => {
                            &&& post.phase is AwaitingCaptchaPage
                            &&& post.reloads == 0
                            &&& (act matches LoginAction::PostPrelogin { url, body } && url@
                                == prelogin_url_of(pre.config.base_url@) && body@
                                == prelogin_body_of(t))
                        },
                    }
                } else {
                    &&& post.phase is Idle
                    &&& (act matches LoginAction::Complete(r2) && (r2 matches Err(e) && (
                    e matches VtopError::AuthenticationFailed(m) && m@
                        == "Max login attempts exceeded"@)))
                }
            },
            LoginOutcome::BadCredentials => {
                &&& opt_view(post.registration_id) == opt_view(pre.registration_id)
                &&& post.session.authenticated == pre.session.authenticated
                &&& opt_view(post.session.csrf_token) == opt_view(pre.session.csrf_token)
                &&& completes(post, act, Err(VtopError::InvalidCredentials))
            },
            LoginOutcome::Unknown => {
                &&& opt_view(post.registration_id) == opt_view(pre.registration_id)
                &&& post.session.authenticated == pre.session.authenticated
                &&& opt_view(post.session.csrf_token) == opt_view(pre.session.csrf_token)
                &&& post.phase is Idle
                &&& (act matches LoginAction::Complete(r2) && (r2 matches Err(e) && (
                e matches VtopError::AuthenticationFailed(m) && m@
                    == "Unknown error content. URL: "@ + r.final_url@)))
            },
        },
        _ => true,
    }
}

/// One transition of the machine, whatever the phase: what `login_event`
/// does to the state and which action it returns.
pub open spec fn step_rel(
    pre: VtopClient,
    ev: LoginEvent,
    post: VtopClient,
    act: LoginAction,
) -> bool {
    match pre.phase {
        LoginPhase::Idle => false,
        LoginPhase::Probing => step_probing_rel(pre, ev, post, act),
        LoginPhase::LoadingInitial => step_initial_rel(pre, ev, post, act),
        LoginPhase::AwaitingCaptchaPage => step_awaiting_rel(pre, ev, post, act),
        LoginPhase::Solving => step_solving_rel(pre, ev, post, act),
        LoginPhase::Submitting => step_submitting_rel(pre, ev, post, act),
    }
}

/// The Unicode uppercasing of `s`.
pub uninterp spec fn upper_of(s: Seq<char>) -> Seq<char>;

/// Relies on std's `str::to_uppercase`: the result depends on the characters
/// alone.
#[verifier::external_body]
fn uppercase(s: &str) -> (r: String)
    ensures
        r@ == upper_of(s@),
{
    s.to_uppercase()
}

fn join_url(base: &str, path: &str) -> (r: String)
    ensures
        r@ == base@ + path@,
{
    let mut s = String::from_str(base);
    s.append(path);
    s
}

fn prelogin_body(token: &str) -> (r: String)
    ensures
        r@ == prelogin_body_of(token@),
{
    let mut s = String::from_str("_csrf=");
    s.append(token);
    s.append("&flag=VTOP");
    s
}

impl VtopClient {
    /// A client over `config` for one credential, the username normalized to
    /// uppercase. The session is usually fresh, but may carry an externally
    /// supplied cookie.
    pub fn with_config(
        config: VtopConfig,
        session: SessionManager,
        username: String,
        password: String,
    ) -> (c: VtopClient)
        ensures
            c.config.base_url@ == config.base_url@,
            c.session == session,
            c.username@ == upper_of(username@),
            c.password@ == password@,
            c.registration_id is None,
            c.current_page is None,
            c.captcha_data is None,
            c.phase is Idle,
            c.attempts == 0,
            c.wf(),
    {
        VtopClient {
            config,
            session,
            current_page: None,
            username: uppercase(username.as_str()),
            password,
            registration_id: None,
            captcha_data: None,
            phase: LoginPhase::Idle,
            attempts: 0,
            reloads: 0,
            pending_csrf: Ghost(None),
        }
    }

    pub fn is_authenticated(&mut self) -> (r: bool)
        ensures
            r == old(self).session.authenticated,
            *final(self) == *old(self),
    {
        self.session.is_authenticated()
    }

    /// The session cookie as an opaque blob; with `check`, only an
    /// authenticated session may be exported.
    pub fn get_cookie(&self, check: bool) -> (r: VtopResult<Vec<u8>>)
        ensures
            match r {
                Ok(b) => b@ == self.session.cookie@ && (self.session.authenticated || !check),
                Err(e) => e == VtopError::SessionExpired && !self.session.authenticated && check,
            },
    {
        if !self.session.is_authenticated() && check {
            return Err(VtopError::SessionExpired);
        }
        Ok(vstd::slice::slice_to_vec(self.session.cookie.as_slice()))
    }

    /// Installs a cookie supplied by the caller; the next `login` will probe
    /// it instead of running the captcha flow.
    pub fn set_cookie(&mut self, cookie: String)
        ensures
            final(self).session.cookie@ == vstd::utf8::encode_utf8(cookie@),
            final(self).session.external_cookie,
            final(self).session.authenticated == old(self).session.authenticated,
            final(self).session.csrf_token == old(self).session.csrf_token,
            final(self).config == old(self).config,
            final(self).username == old(self).username,
            final(self).password == old(self).password,
            final(self).registration_id == old(self).registration_id,
            final(self).phase == old(self).phase,
            final(self).attempts == old(self).attempts,
            final(self).reloads == old(self).reloads,
            final(self).current_page == old(self).current_page,
            final(self).captcha_data == old(self).captcha_data,
            final(self).pending_csrf == old(self).pending_csrf,
    {
        self.session.set_cookie_from_external(cookie.as_str());
    }

    /// Records the cookie the transport negotiated during login, so that the
    /// session can be exported; unlike `set_cookie`, the cookie is not marked
    /// external and the next `login` will not probe it.
    pub fn set_negotiated_cookie(&mut self, cookie: String)
        ensures
            final(self).session.cookie@ == vstd::utf8::encode_utf8(cookie@),
            !final(self).session.external_cookie,
            final(self).session.authenticated == old(self).session.authenticated,
            final(self).session.csrf_token == old(self).session.csrf_token,
            final(self).config == old(self).config,
            final(self).username == old(self).username,
            final(self).password == old(self).password,
            final(self).registration_id == old(self).registration_id,
            final(self).phase == old(self).phase,
            final(self).attempts == old(self).attempts,
            final(self).reloads == old(self).reloads,
            final(self).current_page == old(self).current_page,
            final(self).captcha_data == old(self).captcha_data,
            final(self).pending_csrf == old(self).pending_csrf,
    {
        self.session.set_cookie_from_external(cookie.as_str());
        self.session.set_cookie_external(false);
    }

    /// Begins a login exchange and returns the first action to perform.
    pub fn login(&mut self) -> (act: LoginAction)
        ensures
            final(self).wf(),
            login_begin_rel(*old(self), *final(self), act),
    {
        self.attempts = 0;
        self.reloads = 0;
        self.current_page = None;
        self.captcha_data = None;
        let url = join_url(self.config.base_url.as_str(), "/vtop/open/page");
        if self.session.is_cookie_external() && self.session.cookie.len() > 0 {
            self.phase = LoginPhase::Probing;
            LoginAction::FetchPage { url }
        } else {
            self.session.set_cookie_external(false);
            self.phase = LoginPhase::LoadingInitial;
            LoginAction::FetchPage { url }
        }
    }

    /// Feeds the outcome of the last action back into the machine and
    /// returns the next action.
    pub fn login_event(&mut self, ev: LoginEvent) -> (act: LoginAction)
        requires
            old(self).wf(),
            old(self).event_fits(ev),
        ensures
            final(self).wf(),
            step_rel(*old(self), ev, *final(self), act),
            final(self).attempts >= old(self).attempts,
            (act matches LoginAction::SubmitLogin { url, form } ==> final(self).attempts == old(
                self,
            ).attempts + 1 && final(self).attempts <= MAX_CAP_TRY),
            (act matches LoginAction::SubmitLogin { url, form } ==> final(self).pending_csrf@
                == Some(form.csrf@)),
            (act matches LoginAction::PostPrelogin { url, body } ==> (final(self).pending_csrf@
                matches Some(t) && body@ == prelogin_body_of(t))),
            (final(self).session.authenticated && !old(self).session.authenticated ==> (
            act matches LoginAction::Complete(r) && r is Ok)),
    {
        match self.phase {
            LoginPhase::Idle => {
                proof {
                    assert(false);
                }
                LoginAction::Complete(Err(VtopError::SessionExpired))
            },
            LoginPhase::Probing => self.step_probing(ev),
            LoginPhase::LoadingInitial => self.step_initial(ev),
            LoginPhase::AwaitingCaptchaPage => self.step_awaiting(ev),
            LoginPhase::Solving => self.step_solving(ev),
            LoginPhase::Submitting => self.step_submitting(ev),
        }
    }

    /// The fall-through from a failed probe into the normal flow.
    fn probe_fallthrough(&mut self) -> (act: LoginAction)
        ensures
            *final(self) == (VtopClient {
                session: SessionManager {
                    authenticated: false,
                    external_cookie: false,
                    ..old(self).session
                },
                phase: LoginPhase::LoadingInitial,
                ..*old(self)
            }),
            (act matches LoginAction::FetchPage { url } && url@ == open_page_url_of(
                old(self).config.base_url@,
            )),
    {
        self.session.set_authenticated(false);
        self.session.set_cookie_external(false);
        self.phase = LoginPhase::LoadingInitial;
        let url = join_url(self.config.base_url.as_str(), "/vtop/open/page");
        LoginAction::FetchPage { url }
    }

    fn step_probing(&mut self, ev: LoginEvent) -> (act: LoginAction)
        requires
            old(self).phase is Probing,
            old(self).wf(),
            old(self).event_fits(ev),
        ensures
            final(self).wf(),
            step_probing_rel(*old(self), ev, *final(self), act),
            final(self).attempts == old(self).attempts,
    {
        match ev {
            LoginEvent::HttpOk(resp) => {
                if resp.status_success && !contains_substr(resp.final_url.as_str(), "login") {
                    match extract_csrf_token(resp.body.as_str()) {
                        Ok(token) => {
                            self.pending_csrf = Ghost(Some(token@));
                            self.session.set_csrf_token(token);
                            self.session.set_authenticated(true);
                            self.session.set_cookie_external(false);
                            self.phase = LoginPhase::Idle;
                            LoginAction::Complete(Ok(()))
                        },
                        Err(_) => {
                            // a page without a fresh token does not prove the
                            // cookie valid: fall through like any other failure
                            self.probe_fallthrough()
                        },
                    }
                } else {
                    self.probe_fallthrough()
                }
            },
            _ => self.probe_fallthrough(),
        }
    }

    fn step_initial(&mut self, ev: LoginEvent) -> (act: LoginAction)
        requires
            old(self).phase is LoadingInitial,
            old(self).wf(),
            old(self).event_fits(ev),
        ensures
            final(self).wf(),
            step_initial_rel(*old(self), ev, *final(self), act),
            final(self).attempts == old(self).attempts,
            final(self).session.authenticated == old(self).session.authenticated,
            (act matches LoginAction::PostPrelogin { url, body } ==> (final(self).pending_csrf@
                matches Some(t) && body@ == prelogin_body_of(t))),
    {
        match ev {
            LoginEvent::HttpFailed => {
                self.phase = LoginPhase::Idle;
                LoginAction::Complete(Err(VtopError::NetworkError))
            },
            LoginEvent::HttpOk(resp) => {
                if !resp.status_success {
                    self.phase = LoginPhase::Idle;
                    LoginAction::Complete(Err(VtopError::VtopServerError))
                } else {
                    match extract_csrf_token(resp.body.as_str()) {
                        Err(e) => {
                            self.phase = LoginPhase::Idle;
                            LoginAction::Complete(Err(e))
                        },
                        Ok(token) => {
                            let url = join_url(
                                self.config.base_url.as_str(),
                                "/vtop/prelogin/setup",
                            );
                            let body = prelogin_body(token.as_str());
                            self.pending_csrf = Ghost(Some(token@));
                            self.session.set_csrf_token(token);
                            self.current_page = Some(resp.body);
                            self.reloads = 0;
                            self.phase = LoginPhase::AwaitingCaptchaPage;
                            LoginAction::PostPrelogin { url, body }
                        },
                    }
                }
            },
            _ => {
                proof {
                    assert(false);
                }
                LoginAction::Complete(Err(VtopError::SessionExpired))
            },
        }
    }

    /// The prelogin POST rebuilt from the current session token.
    fn prelogin_again(&self) -> (act: LoginAction)
        requires
            self.session.csrf_token is Some,
        ensures
            (act matches LoginAction::PostPrelogin { url, body } && url@ == prelogin_url_of(
                self.config.base_url@,
            ) && body@ == prelogin_body_of(self.session.csrf_token->Some_0@)),
    {
        let url = join_url(self.config.base_url.as_str(), "/vtop/prelogin/setup");
        match self.session.get_csrf_token() {
            Some(token) => {
                let body = prelogin_body(token.as_str());
                LoginAction::PostPrelogin { url, body }
            },
            None => {
                proof {
                    assert(false);
                }
                LoginAction::Complete(Err(VtopError::SessionExpired))
            },
        }
    }

    fn step_awaiting(&mut self, ev: LoginEvent) -> (act: LoginAction)
        requires
            old(self).phase is AwaitingCaptchaPage,
            old(self).wf(),
            old(self).event_fits(ev),
        ensures
            final(self).wf(),
            step_awaiting_rel(*old(self), ev, *final(self), act),
            final(self).attempts == old(self).attempts,
            final(self).pending_csrf@ == Some(
                final(self).session.csrf_token->Some_0@,
            ) || !final(self).in_captcha_cycle(),
            (act matches LoginAction::PostPrelogin { url, body } ==> (final(self).pending_csrf@
                matches Some(t) && body@ == prelogin_body_of(t))),
    {
        match ev {
            LoginEvent::HttpFailed => {
                self.phase = LoginPhase::Idle;
                LoginAction::Complete(Err(VtopError::NetworkError))
            },
            LoginEvent::HttpOk(resp) => {
                if !resp.status_success {
                    self.phase = LoginPhase::Idle;
                    LoginAction::Complete(Err(VtopError::VtopServerError))
                } else if contains_substr(resp.body.as_str(), "base64,") {
                    match extract_captcha(resp.body.as_str()) {
                        Err(e) => {
                            self.phase = LoginPhase::Idle;
                            LoginAction::Complete(Err(e))
                        },
                        Ok(img) => {
                            match extract_csrf_token(resp.body.as_str()) {
                                Err(e) => {
                                    self.phase = LoginPhase::Idle;
                                    LoginAction::Complete(Err(e))
                                },
                                Ok(token) => {
                                    self.pending_csrf = Ghost(Some(token@));
                                    self.session.set_csrf_token(token);
                                    self.captcha_data = Some(img.clone());
                                    self.current_page = Some(resp.body);
                                    self.phase = LoginPhase::Solving;
                                    LoginAction::SolveCaptcha { image: img }
                                },
                            }
                        },
                    }
                } else if self.reloads + 1 < MAX_RELOAD_ATTEMPTS {
                    self.reloads = self.reloads + 1;
                    if self.session.get_csrf_token().is_none() {
                        self.phase = LoginPhase::Idle;
                        LoginAction::Complete(Err(VtopError::SessionExpired))
                    } else {
                        self.prelogin_again()
                    }
                } else {
                    // reloads exhausted: proceed with whatever page exists
                    let extracted = match &self.current_page {
                        None => None,
                        Some(page) => Some(extract_captcha(page.as_str())),
                    };
                    match extracted {
                        None => {
                            self.phase = LoginPhase::Idle;
                            LoginAction::Complete(Err(VtopError::CaptchaRequired))
                        },
                        Some(Err(e)) => {
                            self.phase = LoginPhase::Idle;
                            LoginAction::Complete(Err(e))
                        },
                        Some(Ok(img)) => {
                            self.captcha_data = Some(img.clone());
                            self.phase = LoginPhase::Solving;
                            LoginAction::SolveCaptcha { image: img }
                        },
                    }
                }
            },
            _ => {
                proof {
                    assert(false);
                }
                LoginAction::Complete(Err(VtopError::SessionExpired))
            },
        }
    }

    fn step_solving(&mut self, ev: LoginEvent) -> (act: LoginAction)
        requires
            old(self).phase is Solving,
            old(self).wf(),
            old(self).event_fits(ev),
        ensures
            final(self).wf(),
            step_solving_rel(*old(self), ev, *final(self), act),
            final(self).attempts >= old(self).attempts,
            (act matches LoginAction::SubmitLogin { url, form } ==> final(self).attempts == old(
                self,
            ).attempts + 1 && final(self).attempts <= MAX_CAP_TRY),
            (act matches LoginAction::SubmitLogin { url, form } ==> final(self).pending_csrf@
                == Some(form.csrf@)),
    {
        match ev {
            LoginEvent::SolverFailed => {
                self.phase = LoginPhase::Idle;
                LoginAction::Complete(Err(VtopError::NetworkError))
            },
            LoginEvent::CaptchaSolved(answer) => {
                match self.session.get_csrf_token() {
                    None => {
                        self.phase = LoginPhase::Idle;
                        LoginAction::Complete(Err(VtopError::SessionExpired))
                    },
                    Some(token) => {
                        self.attempts = self.attempts + 1;
                        self.phase = LoginPhase::Submitting;
                        let url = join_url(self.config.base_url.as_str(), "/vtop/login");
                        LoginAction::SubmitLogin {
                            url,
                            form: LoginForm {
                                csrf: token,
                                username: self.username.clone(),
                                password: self.password.clone(),
                                captcha: answer,
                            },
                        }
                    },
                }
            },
            _ => {
                proof {
                    assert(false);
                }
                LoginAction::Complete(Err(VtopError::SessionExpired))
            },
        }
    }

    fn step_submitting(&mut self, ev: LoginEvent) -> (act: LoginAction)
        requires
            old(self).phase is Submitting,
            old(self).wf(),
            old(self).event_fits(ev),
        ensures
            final(self).wf(),
            step_submitting_rel(*old(self), ev, *final(self), act),
            final(self).attempts == old(self).attempts,
            (final(self).session.authenticated && !old(self).session.authenticated ==> (
            act matches LoginAction::Complete(r) && r is Ok)),
            (act matches LoginAction::PostPrelogin { url, body } ==> (final(self).pending_csrf@
                matches Some(t) && body@ == prelogin_body_of(t))),
    {
        match ev {
            LoginEvent::HttpFailed => {
                self.phase = LoginPhase::Idle;
                LoginAction::Complete(Err(VtopError::NetworkError))
            },
            LoginEvent::HttpOk(resp) => {
                let outcome = classify_login_response(resp.final_url.as_str(), resp.body.as_str());
                match outcome {
                    LoginOutcome::Success => {
                        match extract_csrf_token(resp.body.as_str()) {
                            Err(e) => {
                                self.phase = LoginPhase::Idle;
                                LoginAction::Complete(Err(e))
                            },
                            Ok(token) => {
                                self.pending_csrf = Ghost(Some(token@));
                                self.session.set_csrf_token(token);
                                match extract_regno(resp.body.as_str()) {
                                    Err(e) => {
                                        self.phase = LoginPhase::Idle;
                                        LoginAction::Complete(Err(e))
                                    },
                                    Ok(reg) => {
                                        self.registration_id = Some(reg);
                                        self.current_page = None;
                                        self.captcha_data = None;
                                        self.session.set_authenticated(true);
                                        self.phase = LoginPhase::Idle;
                                        LoginAction::Complete(Ok(()))
                                    },
                                }
                            },
                        }
                    },
                    LoginOutcome::CaptchaRetry => {
                        self.current_page = None;
                        self.captcha_data = None;
                        if self.attempts < MAX_CAP_TRY {
                            if self.session.get_csrf_token().is_none() {
                                self.phase = LoginPhase::Idle;
                                LoginAction::Complete(Err(VtopError::SessionExpired))
                            } else {
                                self.reloads = 0;
                                self.phase = LoginPhase::AwaitingCaptchaPage;
                                self.prelogin_again()
                            }
                        } else {
                            self.phase = LoginPhase::Idle;
                            LoginAction::Complete(
                                Err(
                                    VtopError::AuthenticationFailed(
                                        String::from_str("Max login attempts exceeded"),
                                    ),
                                ),
                            )
                        }
                    },
                    LoginOutcome::BadCredentials => {
                        self.phase = LoginPhase::Idle;
                        LoginAction::Complete(Err(VtopError::InvalidCredentials))
                    },
                    LoginOutcome::Unknown => {
                        let mut msg = String::from_str("Unknown error content. URL: ");
                        msg.append(resp.final_url.as_str());
                        self.phase = LoginPhase::Idle;
                        LoginAction::Complete(Err(VtopError::AuthenticationFailed(msg)))
                    },
                }
            },
            _ => {
                proof {
                    assert(false);
                }
                LoginAction::Complete(Err(VtopError::SessionExpired))
            },
        }
    }
}

} // verus!
