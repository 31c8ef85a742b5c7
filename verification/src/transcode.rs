//! Trusted boundary to outside text transforms: Base64 encoding and decoding
//! from the `base64` crate, UTF-8 decoding and Unicode case folding from the
//! standard library.
//!
//! Each wrapper names or states what the outside call returns; everything
//! built on top of these contracts is verified.

use vstd::prelude::*;
use vstd::string::StringSliceAdditionalSpecFns;
use vstd::utf8::{decode_utf8, valid_utf8};
use crate::text::spec_is_base64_char;

verus! {

/// The text that the `base64` crate's `STANDARD` engine produces for the
/// given bytes.  The engine is deterministic, so the result is a function of
/// the bytes alone.
pub uninterp spec fn b64_of(bytes: Seq<u8>) -> Seq<char>;

/// The bytes that the `base64` crate's `STANDARD` engine decodes the given
/// text to, or `None` where it rejects the text.  Deterministic in the text.
pub uninterp spec fn b64_decode_of(text: Seq<char>) -> Option<Seq<u8>>;

/// The text that `str::to_lowercase` returns.  Rust's case folding depends on
/// the characters alone (no locale), so the result is a function of the input.
pub uninterp spec fn lower_of(text: Seq<char>) -> Seq<char>;

/// Relies on the `base64` crate's `STANDARD` engine (standard alphabet, with
/// padding): it emits only alphabet characters and `'='`, it returns a
/// non-empty encoding for non-empty input, and its own `decode` inverts it.
#[verifier::external_body]
pub fn base64_encode(s: &str) -> (r: String)
    ensures
        r@ == b64_of(s.spec_bytes()),
        forall|i: int| 0 <= i < r@.len() ==> spec_is_base64_char(#[trigger] r@[i]),
        b64_decode_of(r@) == Some(s.spec_bytes()),
        s@.len() > 0 ==> r@.len() > 0,
{
    base64::Engine::encode(&base64::engine::general_purpose::STANDARD, s)
}

/// Relies on the `base64` crate's `STANDARD` engine `decode`: deterministic,
/// returning the decoded bytes or an error for text it rejects.
#[verifier::external_body]
pub fn base64_decode(s: &str) -> (r: Option<Vec<u8>>)
    ensures
        r is Some <==> b64_decode_of(s@) is Some,
        r matches Some(v) ==> b64_decode_of(s@) == Some(v@),
{
    base64::Engine::decode(&base64::engine::general_purpose::STANDARD, s).ok()
}

/// Relies on `String::from_utf8`: succeeds exactly on valid UTF-8 and returns
/// the decoded characters, as `vstd`'s UTF-8 model states them.
#[verifier::external_body]
pub fn bytes_to_string(v: Vec<u8>) -> (r: Option<String>)
    ensures
        r is Some <==> valid_utf8(v@),
        r matches Some(s) ==> s@ == decode_utf8(v@),
{
    String::from_utf8(v).ok()
}

/// Relies on `str::to_lowercase`: the result depends on the characters alone.
#[verifier::external_body]
pub fn lowercase(s: &str) -> (r: String)
    ensures
        r@ == lower_of(s@),
{
    s.to_lowercase()
}

} // verus!
