//! Stored passwords: text in, standard base64 out, and back.

use vstd::prelude::*;
use vstd::string::*;
use vstd::utf8::*;
use base64::Engine;
use crate::model::text_of;

verus! {

/// The standard base64 text, with padding, of `bytes`.
pub uninterp spec fn base64_text(bytes: Seq<u8>) -> Seq<char>;

/// The bytes that `text` is the standard base64 form of, or `None` where it
/// is the form of none.
pub uninterp spec fn base64_bytes(text: Seq<char>) -> Option<Seq<u8>>;

/// The bytes of an optional buffer.
pub open spec fn bytes_of(value: Option<Vec<u8>>) -> Option<Seq<u8>> {
    match value {
        Some(b) => Some(b@),
        None => None,
    }
}

/// Calls `encode` of base64's `STANDARD` engine. The contract only names the
/// result: the same bytes always give the same text.
#[verifier::external_body]
pub(crate) fn base64_encode(bytes: &[u8]) -> (r: String)
    ensures
        r@ == base64_text(bytes@),
{
    base64::engine::general_purpose::STANDARD.encode(bytes)
}

/// Calls `decode` of base64's `STANDARD` engine on the bytes of `text` and
/// drops the reason of a failure. The contract only names the result: the
/// same text always gives the same bytes, or always none.
#[verifier::external_body]
pub(crate) fn base64_decode(text: &str) -> (r: Option<Vec<u8>>)
    ensures
        bytes_of(r) == base64_bytes(text@),
{
    base64::engine::general_purpose::STANDARD.decode(text).ok()
}

/// Calls `String::from_utf8` and drops the reason of a failure: the string
/// is returned exactly for well-formed UTF-8, and holds the characters that
/// the bytes encode.
#[verifier::external_body]
pub(crate) fn text_from_utf8(bytes: Vec<u8>) -> (r: Option<String>)
    ensures
        r is Some <==> valid_utf8(bytes@),
        r matches Some(s) ==> s@ == decode_utf8(bytes@),
{
    String::from_utf8(bytes).ok()
}

/// Why a stored password could not be read back.
#[derive(Debug, Clone, Copy, PartialEq, Eq, Structural)]
pub enum DecodeError {
    /// There is nothing to decode.
    Empty,
    /// The text is not standard base64.
    Malformed,
    /// The decoded bytes are not UTF-8.
    NotText,
}

/// The text shown for each decoding error.
pub open spec fn decode_error_text(e: DecodeError) -> Seq<char> {
    match e {
        DecodeError::Empty => "string is empty"@,
        DecodeError::Malformed => "string decode failed"@,
        DecodeError::NotText => "string is not valid UTF-8"@,
    }
}

impl DecodeError {
    /// The message reported for the error.
    pub fn message(&self) -> (r: String)
        ensures
            r@ == decode_error_text(*self),
    {
        match self {
            DecodeError::Empty => "string is empty".to_owned(),
            DecodeError::Malformed => "string decode failed".to_owned(),
            DecodeError::NotText => "string is not valid UTF-8".to_owned(),
        }
    }
}

/// The stored form of a password: none for the empty password, otherwise the
/// base64 text of its UTF-8 bytes.
pub open spec fn encoded(s: Seq<char>) -> Option<Seq<char>> {
    if s.len() == 0 {
        None
    } else {
        Some(base64_text(encode_utf8(s)))
    }
}

/// The text that decoded bytes stand for, given what base64 made of the
/// stored form.
pub open spec fn decoded_text(bytes: Option<Seq<u8>>) -> Result<Seq<char>, DecodeError> {
    match bytes {
        None => Err(DecodeError::Malformed),
        Some(b) => if valid_utf8(b) {
            Ok(decode_utf8(b))
        } else {
            Err(DecodeError::NotText)
        },
    }
}

/// The password that a stored form stands for.
pub open spec fn decoded(s: Seq<char>) -> Result<Seq<char>, DecodeError> {
    if s.len() == 0 {
        Err(DecodeError::Empty)
    } else {
        decoded_text(base64_bytes(s))
    }
}

/// The text of a decoding result.
pub open spec fn result_text(r: Result<String, DecodeError>) -> Result<Seq<char>, DecodeError> {
    match r {
        Ok(s) => Ok(s@),
        Err(e) => Err(e),
    }
}

/// Encodes a password for storing. The empty password is not stored.
pub fn encode_string(s: String) -> (r: Option<String>)
    ensures
        text_of(r) == encoded(s@),
{
    if s.as_str().is_empty() {
        None
    } else {
        Some(base64_encode(s.as_str().as_bytes()))
    }
}

/// Turns what base64 made of a stored form into the password.
pub fn text_of_decoded(bytes: Option<Vec<u8>>) -> (r: Result<String, DecodeError>)
    ensures
        result_text(r) == decoded_text(bytes_of(bytes)),
{
    match bytes {
        None => Err(DecodeError::Malformed),
        Some(b) => match text_from_utf8(b) {
            Some(s) => Ok(s),
            None => Err(DecodeError::NotText),
        },
    }
}

/// Decodes a stored password.
pub fn decode_string(s: &String) -> (r: Result<String, DecodeError>)
    ensures
        result_text(r) == decoded(s@),
{
    if s.as_str().is_empty() {
        Err(DecodeError::Empty)
    } else {
        text_of_decoded(base64_decode(s.as_str()))
    }
}

} // verus!
