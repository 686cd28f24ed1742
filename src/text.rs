use vstd::prelude::*;
use vstd::utf8::*;

verus! {

/// The text that a property value's bytes stand for, or `None` when they
/// are not valid UTF-8.
pub open spec fn decoded(bytes: Seq<u8>) -> Option<Seq<char>> {
    if valid_utf8(bytes) {
        Some(decode_utf8(bytes))
    } else {
        None
    }
}

/// The characters of an optional string.
pub open spec fn text_of(s: Option<String>) -> Option<Seq<char>> {
    match s {
        Some(t) => Some(t@),
        None => None,
    }
}

/// Relies on std's `String::from_utf8`: it accepts exactly the byte strings
/// that are valid UTF-8, and the string it returns holds those bytes.
#[verifier::external_body]
fn utf8_to_string(bytes: Vec<u8>) -> (r: Option<String>)
    ensures
        r is Some <==> valid_utf8(bytes@),
        r matches Some(s) ==> s@ == decode_utf8(bytes@),
{
    String::from_utf8(bytes).ok()
}

/// Turns the bytes of a property value, as the native layer handed them
/// over, into text; bytes that are not valid UTF-8 give `None`.
pub fn decode_value(bytes: Vec<u8>) -> (r: Option<String>)
    ensures
        text_of(r) == decoded(bytes@),
{
    let ghost b = bytes@;
    let r = utf8_to_string(bytes);
    assert(text_of(r) == decoded(b));
    r
}

} // verus!
