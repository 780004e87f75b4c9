//! Session state.
//!
//! One `SessionManager` per client instance is the single source of truth for
//! "can I make an authenticated call right now": the current CSRF token, the
//! authenticated flag, the opaque cookie blob negotiated by the transport, and
//! whether that cookie was injected by the caller rather than negotiated.

use vstd::prelude::*;
use vstd::slice::slice_to_vec;

verus! {

pub struct SessionManager {
    pub csrf_token: Option<String>,
    pub authenticated: bool,
    pub cookie: Vec<u8>,
    pub external_cookie: bool,
}

impl SessionManager {
    /// A fresh, unauthenticated session with no token and no cookie.
    pub fn new() -> (s: SessionManager)
        ensures
            s.csrf_token is None,
            !s.authenticated,
            s.cookie@.len() == 0,
            !s.external_cookie,
    {
        SessionManager {
            csrf_token: None,
            authenticated: false,
            cookie: Vec::new(),
            external_cookie: false,
        }
    }

    pub fn is_authenticated(&self) -> (r: bool)
        ensures
            r == self.authenticated,
    {
        self.authenticated
    }

    pub fn set_authenticated(&mut self, value: bool)
        ensures
            *final(self) == (SessionManager { authenticated: value, ..*old(self) }),
    {
        self.authenticated = value;
    }

    /// The current CSRF token, if one has been extracted.
    pub fn get_csrf_token(&self) -> (r: Option<String>)
        ensures
            match r {
                Some(t) => self.csrf_token matches Some(c) && c@ == t@,
                None => self.csrf_token is None,
            },
    {
        match &self.csrf_token {
            Some(t) => Some(t.clone()),
            None => None,
        }
    }

    pub fn set_csrf_token(&mut self, token: String)
        ensures
            *final(self) == (SessionManager { csrf_token: Some(token), ..*old(self) }),
    {
        self.csrf_token = Some(token);
    }

    pub fn is_cookie_external(&self) -> (r: bool)
        ensures
            r == self.external_cookie,
    {
        self.external_cookie
    }

    pub fn set_cookie_external(&mut self, value: bool)
        ensures
            *final(self) == (SessionManager { external_cookie: value, ..*old(self) }),
    {
        self.external_cookie = value;
    }

    /// Installs a cookie supplied by the caller from outside the login flow;
    /// the session then remembers that the cookie is external.
    pub fn set_cookie_from_external(&mut self, cookie: &str)
        ensures
            final(self).cookie@ == vstd::utf8::encode_utf8(cookie@),
            final(self).external_cookie,
            final(self).csrf_token == old(self).csrf_token,
            final(self).authenticated == old(self).authenticated,
    {
        self.cookie = slice_to_vec(cookie.as_bytes());
        self.external_cookie = true;
    }
}

} // verus!
