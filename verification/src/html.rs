//! HTML field extraction.
//!
//! The portal embeds everything the client needs — CSRF tokens, the captcha
//! image, the registration identifier — as attributes of elements matched by
//! fixed CSS selectors. The selection itself is delegated to an HTML parser;
//! its result is given a name, and every extraction function is specified
//! exactly in terms of that name.

use vstd::prelude::*;

use crate::errors::VtopError;
use crate::text::contains_seq;
use crate::text::contains_substr;

verus! {

/// The attribute value of the first element of `doc` matched by `selector`,
/// as the HTML parser determines it.
pub uninterp spec fn sel_attr(doc: Seq<char>, selector: Seq<char>, attr: Seq<char>) -> Option<
    Seq<char>,
>;

/// Relies on scraper's `Html::parse_document`, `Selector::parse`,
/// `Html::select` and `ElementRef::attr`: the `attr` attribute of the first
/// element of `doc` matched by `selector`, a function of the three texts
/// alone. An unparsable selector matches nothing.
#[verifier::external_body]
fn select_first_attr(doc: &str, selector: &str, attr: &str) -> (r: Option<String>)
    ensures
        match r {
            Some(v) => sel_attr(doc@, selector@, attr@) == Some(v@),
            None => sel_attr(doc@, selector@, attr@) is None,
        },
{
    let document = scraper::Html::parse_document(doc);
    let sel = match scraper::Selector::parse(selector) {
        Ok(sel) => sel,
        Err(_) => return None,
    };
    let found = document.select(&sel).next()?;
    found.attr(attr).map(|v| v.to_string())
}

/// The CSRF token a page carries, if any.
pub open spec fn page_csrf(page: Seq<char>) -> Option<Seq<char>> {
    sel_attr(page, "input[name='_csrf']"@, "value"@)
}

/// The captcha image source a page carries, if any.
pub open spec fn page_captcha_src(page: Seq<char>) -> Option<Seq<char>> {
    sel_attr(page, "img.form-control.img-fluid.bg-light.border-0"@, "src"@)
}

/// The hidden registration identifier a page carries, if any.
pub open spec fn page_regno(page: Seq<char>) -> Option<Seq<char>> {
    sel_attr(page, "input[type=hidden][name=authorizedIDX]"@, "value"@)
}

/// Extracts the CSRF token of `page`; fails exactly when the page has none.
pub fn extract_csrf_token(page: &str) -> (r: Result<String, VtopError>)
    ensures
        match r {
            Ok(t) => page_csrf(page@) == Some(t@),
            Err(e) => page_csrf(page@) is None && (e matches VtopError::ParseError(m) && m@
                == "CSRF token not found"@),
        },
{
    match select_first_attr(page, "input[name='_csrf']", "value") {
        Some(t) => Ok(t),
        None => Err(VtopError::ParseError(String::from_str("CSRF token not found"))),
    }
}

/// The usable captcha image of a page: the source of the captcha element,
/// accepted only when it holds inline base64 data.
pub open spec fn page_captcha(page: Seq<char>) -> Option<Seq<char>> {
    match page_captcha_src(page) {
        Some(s) => if contains_seq(s, "base64,"@) {
            Some(s)
        } else {
            None
        },
        None => None,
    }
}

/// Extracts the captcha image of `page`; fails exactly when the page carries
/// no usable captcha.
pub fn extract_captcha(page: &str) -> (r: Result<String, VtopError>)
    ensures
        match r {
            Ok(s) => page_captcha(page@) == Some(s@),
            Err(e) => page_captcha(page@) is None && e == VtopError::CaptchaRequired,
        },
{
    match select_first_attr(page, "img.form-control.img-fluid.bg-light.border-0", "src") {
        Some(src) => {
            if contains_substr(src.as_str(), "base64,") {
                Ok(src)
            } else {
                Err(VtopError::CaptchaRequired)
            }
        },
        None => Err(VtopError::CaptchaRequired),
    }
}

/// Extracts the registration identifier of `page`; fails exactly when the
/// hidden field is absent.
pub fn extract_regno(page: &str) -> (r: Result<String, VtopError>)
    ensures
        match r {
            Ok(v) => page_regno(page@) == Some(v@),
            Err(e) => page_regno(page@) is None && e == VtopError::RegistrationParsingError,
        },
{
    match select_first_attr(page, "input[type=hidden][name=authorizedIDX]", "value") {
        Some(v) => Ok(v),
        None => Err(VtopError::RegistrationParsingError),
    }
}

} // verus!
