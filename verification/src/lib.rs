//! Verified core of a client for the VTOP academic portal.
//!
//! The library models the authentication and session-lifecycle engine as a
//! sans-IO state machine: callers perform the HTTP calls and captcha solving,
//! the library makes every decision and states it in contracts.

pub mod captcha;
pub mod classify;
pub mod engine;
pub mod errors;
pub mod faculty;
pub mod guard;
pub mod html;
pub mod laws;
pub mod session;
pub mod text;

pub use errors::VtopError;
pub use errors::VtopResult;

use vstd::prelude::*;

verus! {

/// The bound on full captcha cycles a single login call may consume.
pub const MAX_CAP_TRY: u8 = 4;

/// The bound on prelogin reloads while waiting for a captcha to appear.
pub const MAX_RELOAD_ATTEMPTS: u8 = 8;

} // verus!
