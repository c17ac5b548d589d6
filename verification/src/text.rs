//! Bytes of the guest and of the storage, read as UTF-8 text.

use vstd::prelude::*;
use vstd::utf8::{decode_utf8, valid_utf8};

verus! {

/// The error of `String::from_utf8`, which the library only drops.
#[verifier::external_type_specification]
#[verifier::external_body]
pub struct ExFromUtf8Error(std::string::FromUtf8Error);

/// `String::from_utf8`: it succeeds on exactly the bytes that are UTF-8, with the text that they
/// encode.
pub assume_specification[ std::string::String::from_utf8 ](vec: Vec<u8>) -> (res: Result<
    String,
    std::string::FromUtf8Error,
>)
    ensures
        res is Ok <==> valid_utf8(vec@),
        res matches Ok(text) ==> text@ == decode_utf8(vec@),
;

/// The text that bytes encode, if they are UTF-8.
pub open spec fn text_of(bytes: Seq<u8>) -> Option<Seq<char>> {
    if valid_utf8(bytes) {
        Some(decode_utf8(bytes))
    } else {
        None
    }
}

/// The text that the guest points at. The bytes are `None` where it points outside its memory.
pub open spec fn guest_text(bytes: Option<Vec<u8>>) -> Option<Seq<char>> {
    match bytes {
        Some(bytes) => text_of(bytes@),
        None => None,
    }
}

/// Reads bytes as text.
pub fn read_text(bytes: Vec<u8>) -> (text: Option<String>)
    ensures
        text is Some <==> text_of(bytes@) is Some,
        text matches Some(text) ==> text_of(bytes@) == Some(text@),
{
    match String::from_utf8(bytes) {
        Ok(text) => Some(text),
        Err(_) => None,
    }
}

/// Reads what the guest points at as text.
pub fn read_guest_text(bytes: Option<Vec<u8>>) -> (text: Option<String>)
    ensures
        text is Some <==> guest_text(bytes) is Some,
        text matches Some(text) ==> guest_text(bytes) == Some(text@),
{
    match bytes {
        Some(bytes) => read_text(bytes),
        None => None,
    }
}

} // verus!
