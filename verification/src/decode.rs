//! Turning the bytes that the host tool wrote into text.

use vstd::prelude::*;
use vstd::utf8::{decode_utf8, valid_utf8};

verus! {

/// The text that lossy decoding makes of `bytes`: the text that `bytes`
/// encodes in UTF-8, with the replacement character U+FFFD in place of each
/// sequence of bytes that encodes nothing.
pub uninterp spec fn lossy_text(bytes: Seq<u8>) -> Seq<char>;

/// Decodes `bytes` with `String::from_utf8_lossy` of the standard library.
///
/// Taken on trust: that the result depends on the bytes alone, and that
/// bytes which are valid UTF-8 come back as the text they encode. How
/// invalid bytes are replaced is left to the standard library.
#[verifier::external_body]
pub(crate) fn decode_lossy(bytes: &[u8]) -> (text: String)
    ensures
        text@ == lossy_text(bytes@),
        valid_utf8(bytes@) ==> text@ == decode_utf8(bytes@),
{
    String::from_utf8_lossy(bytes).into_owned()
}

} // verus!
