//! Byte encodings the elevated helper uses to carry its request on a command
//! line: standard Base64 (through the `base64` crate) and UTF-8.
use base64::engine::general_purpose::STANDARD;
use base64::Engine as _;
use vstd::prelude::*;
use vstd::utf8::{decode_utf8, valid_utf8};

verus! {

/// The `base64` crate's decoding error.
#[verifier::external_type_specification]
#[verifier::external_body]
pub struct ExDecodeError(base64::DecodeError);

/// What `STANDARD.encode` gives for `bytes`: their padded standard Base64 text.
pub uninterp spec fn spec_base64_encode(bytes: Seq<u8>) -> Seq<char>;

/// What `STANDARD.decode` gives for `text`: the bytes it encodes, or `None`
/// when it is no canonical padded standard Base64 text.
pub uninterp spec fn spec_base64_decode(text: Seq<char>) -> Option<Seq<u8>>;

/// Calls `base64::engine::general_purpose::STANDARD.encode`. The claim is that
/// the result is a function of `bytes` alone, named `spec_base64_encode`, of
/// four characters per started group of three bytes. The length bound keeps
/// the crate's output-size computation from overflowing (it panics then);
/// every allocation in Rust lies below it.
#[verifier::external_body]
pub(crate) fn base64_encode(bytes: &[u8]) -> (r: String)
    requires
        bytes@.len() <= usize::MAX / 2,
    ensures
        r@ == spec_base64_encode(bytes@),
        r@.len() == 4 * ((bytes@.len() + 2) / 3),
{
    STANDARD.encode(bytes)
}

/// Calls `base64::engine::general_purpose::STANDARD.decode` on the bytes of
/// `text`. The claim is that the outcome is a function of `text` alone, named
/// `spec_base64_decode`, and that decoding the encoding of some bytes gives
/// those bytes back (the crate's round trip).
#[verifier::external_body]
pub(crate) fn base64_decode(text: &str) -> (r: Result<Vec<u8>, base64::DecodeError>)
    ensures
        r is Ok <==> spec_base64_decode(text@) is Some,
        r matches Ok(v) ==> spec_base64_decode(text@) == Some(v@),
        r is Ok <== exists|b: Seq<u8>| #[trigger] spec_base64_encode(b) == text@,
        r matches Ok(v) ==> forall|b: Seq<u8>| #[trigger] spec_base64_encode(b) == text@ ==> v@ == b,
{
    STANDARD.decode(text)
}

/// Calls `String::from_utf8`; the claim is that it succeeds exactly on valid
/// UTF-8 and then holds the decoded characters.
#[verifier::external_body]
pub(crate) fn utf8_string(bytes: Vec<u8>) -> (r: Option<String>)
    ensures
        r is Some <==> valid_utf8(bytes@),
        r matches Some(s) ==> s@ == decode_utf8(bytes@),
{
    String::from_utf8(bytes).ok()
}

} // verus!
