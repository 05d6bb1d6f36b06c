//! Text that arrives from the system as bytes.

use vstd::prelude::*;
use vstd::utf8::{decode_utf8, valid_utf8};

verus! {

/// `std::str::from_utf8`, with the borrowed text copied into a `String`.
///
/// Trusted: the standard library accepts exactly the byte strings that are
/// valid UTF-8, and the text it returns holds the characters that those bytes
/// encode.
#[verifier::external_body]
fn text_of_utf8(bytes: &[u8]) -> (text: Option<String>)
    ensures
        text is Some <==> valid_utf8(bytes@),
        text matches Some(decoded) ==> decoded@ == decode_utf8(bytes@),
{
    match std::str::from_utf8(bytes) {
        Ok(decoded) => Some(decoded.to_string()),
        Err(_) => None,
    }
}

/// The text of an Objective-C string, given as the bytes of its UTF-8
/// encoding, or as `None` for `nil`, which reads as the empty text.
pub fn string_from_objc(utf8: Option<&[u8]>) -> (text: String)
    requires
        utf8 matches Some(bytes) ==> valid_utf8(bytes@),
    ensures
        match utf8 {
            Some(bytes) => text@ == decode_utf8(bytes@),
            None => text@ == Seq::<char>::empty(),
        },
{
    match utf8 {
        Some(bytes) => match text_of_utf8(bytes) {
            Some(decoded) => decoded,
            None => String::new(),
        },
        None => String::new(),
    }
}

} // verus!
