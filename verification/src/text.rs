//! Text that the GL driver hands back as raw bytes (version string, shader
//! info logs), decoded as UTF-8.
use vstd::prelude::*;
use vstd::utf8::{decode_utf8, decode_utf8_encode_utf8, encode_utf8, valid_utf8};

verus! {

/// Calls `std::string::String::from_utf8` and keeps the decoded string.
/// Trusted: `from_utf8` succeeds exactly when the bytes are well-formed
/// UTF-8, and the string it returns holds the characters those bytes encode.
#[verifier::external_body]
fn string_from_utf8(bytes: Vec<u8>) -> (text: Option<String>)
    ensures
        text is Some <==> valid_utf8(bytes@),
        text matches Some(s) ==> s@ == decode_utf8(bytes@),
{
    String::from_utf8(bytes).ok()
}

/// Decodes bytes that are known to be UTF-8 into a `String`. Nothing of the
/// input is lost: encoded back to UTF-8 the text is the input, byte for
/// byte.
pub fn decode_text(bytes: Vec<u8>) -> (text: String)
    requires
        valid_utf8(bytes@),
    ensures
        text@ == decode_utf8(bytes@),
        encode_utf8(text@) == bytes@,
{
    proof {
        decode_utf8_encode_utf8(bytes@);
    }
    match string_from_utf8(bytes) {
        Some(text) => text,
        None => String::new(),
    }
}

/// Decodes bytes as UTF-8, or gives `None` when they are not well-formed.
/// A decoded text loses nothing of the input: encoded back to UTF-8 it is
/// the input, byte for byte.
pub fn try_decode_text(bytes: Vec<u8>) -> (text: Option<String>)
    ensures
        text is Some <==> valid_utf8(bytes@),
        text matches Some(s) ==> s@ == decode_utf8(bytes@),
        text matches Some(s) ==> encode_utf8(s@) == bytes@,
{
    proof {
        if valid_utf8(bytes@) {
            decode_utf8_encode_utf8(bytes@);
        }
    }
    string_from_utf8(bytes)
}

} // verus!
