//! Preparing a captcha image for the solving service.
//!
//! The solving service takes the captcha image text URL-safe base64 encoded.
//! The encoding is delegated to an encoder whose result is given a name, so
//! that the payload sent over the wire is pinned to the image it was made
//! from.

use base64::Engine;
use vstd::prelude::*;
use vstd::slice::slice_to_vec;

verus! {

/// The URL-safe base64 encoding of `bytes`.
pub uninterp spec fn b64_url_of(bytes: Seq<u8>) -> Seq<char>;

/// Relies on base64's `URL_SAFE` engine (`Engine::encode`): the encoding is a
/// function of the input bytes alone.
#[verifier::external_body]
fn b64_url_encode(data: &[u8]) -> (r: String)
    ensures
        r@ == b64_url_of(data@),
{
    base64::engine::general_purpose::URL_SAFE.encode(data)
}

/// The payload sent to the captcha solving service for an image: its UTF-8
/// bytes, URL-safe base64 encoded.
pub open spec fn captcha_payload_of(image: Seq<char>) -> Seq<char> {
    b64_url_of(vstd::utf8::encode_utf8(image))
}

/// Encodes a captcha image for the solving service.
pub fn captcha_request_image(image: &str) -> (r: String)
    ensures
        r@ == captcha_payload_of(image@),
{
    let bytes = slice_to_vec(image.as_bytes());
    b64_url_encode(bytes.as_slice())
}

} // verus!
