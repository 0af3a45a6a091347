//! The inline chip image: base64 text, possibly behind a data-URI marker.

use vstd::prelude::*;
use crate::text::{spec_strip_prefix, strip_prefix};

verus! {

/// `base64::DecodeError`, of which nothing is read here: it is what a failed
/// decoding returns.
#[verifier::external_type_specification]
#[verifier::external_body]
pub struct ExDecodeError(base64::DecodeError);

/// The bytes that the standard base64 alphabet with mandatory padding decodes
/// `text` to, or `None` where `text` is no such encoding.
pub uninterp spec fn base64_standard_decoding(text: Seq<char>) -> Option<Seq<u8>>;

/// The marker that may precede the base64 text of an inline image.
pub open spec fn spec_data_uri_marker() -> Seq<char> {
    "data:image/jpeg;base64,"@
}

/// The base64 text of an inline image: the payload without a leading marker.
pub open spec fn spec_payload_text(payload: Seq<char>) -> Seq<char> {
    spec_strip_prefix(payload, spec_data_uri_marker())
}

/// The bytes of an inline image, or `None` where the payload does not decode.
pub open spec fn spec_inline_image(payload: Seq<char>) -> Option<Seq<u8>> {
    base64_standard_decoding(spec_payload_text(payload))
}

/// Calls `Engine::decode` of the `base64` crate on its `STANDARD` engine. The
/// result is a function of the text alone; the claim here is only that it is
/// the decoding named above, with `Err` standing for `None`.
#[verifier::external_body]
fn decode_standard(text: &str) -> (r: Result<Vec<u8>, base64::DecodeError>)
    ensures
        match r {
            Ok(bytes) => base64_standard_decoding(text@) == Some(bytes@),
            Err(_) => base64_standard_decoding(text@) is None,
        },
{
    base64::Engine::decode(&base64::engine::general_purpose::STANDARD, text)
}

/// The payload without a leading data-URI marker.
pub fn payload_text(payload: &str) -> (r: String)
    ensures
        r@ == spec_payload_text(payload@),
{
    strip_prefix(payload, "data:image/jpeg;base64,")
}

/// Decodes an inline image: strips a leading data-URI marker, then decodes
/// the rest as standard base64.
pub fn decode_inline_image(payload: &str) -> (r: Option<Vec<u8>>)
    ensures
        match r {
            Some(bytes) => spec_inline_image(payload@) == Some(bytes@),
            None => spec_inline_image(payload@) is None,
        },
{
    let text = payload_text(payload);
    match decode_standard(text.as_str()) {
        Ok(bytes) => Some(bytes),
        Err(_) => None,
    }
}

} // verus!
