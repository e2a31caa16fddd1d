//! Turning request bytes into text.
use std::string::FromUtf8Error;
use vstd::prelude::*;
use vstd::string::StringExecFns;
use vstd::utf8::{decode_utf8, valid_utf8};

verus! {

/// The error `String::from_utf8` reports for bytes that are not UTF-8.
#[verifier::external_type_specification]
#[verifier::external_body]
pub struct ExFromUtf8Error(std::string::FromUtf8Error);

/// `String::from_utf8`: succeeds exactly when the bytes are valid UTF-8, and then
/// holds the characters they encode.
#[verifier::external_body]
fn string_from_utf8(bytes: Vec<u8>) -> (r: Result<String, FromUtf8Error>)
    ensures
        r is Ok <==> valid_utf8(bytes@),
        r matches Ok(s) ==> s@ == decode_utf8(bytes@),
{
    String::from_utf8(bytes)
}

/// Why bytes could not be read as text.
#[derive(Debug, Clone, Copy, PartialEq, Eq, Structural)]
pub enum TextError {
    /// The bytes are not valid UTF-8.
    NotUtf8,
}

/// The text that `bytes` encode in UTF-8, or `NotUtf8`.
pub fn text_from_bytes(bytes: Vec<u8>) -> (r: Result<String, TextError>)
    ensures
        r is Ok <==> valid_utf8(bytes@),
        r matches Ok(s) ==> s@ == decode_utf8(bytes@),
        r matches Err(e) ==> e == TextError::NotUtf8,
{
    match string_from_utf8(bytes) {
        Ok(s) => Ok(s),
        Err(_) => Err(TextError::NotUtf8),
    }
}

/// Whether two strings hold the same characters.
pub fn same_text(a: &str, b: &str) -> (r: bool)
    ensures
        r == (a@ == b@),
{
    let x = String::from_str(a);
    let y = String::from_str(b);
    x == y
}

} // verus!
