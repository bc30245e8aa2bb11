//! Strings handed over by C callers: a missing pointer, or bytes that must be UTF-8.

use vstd::prelude::*;
use vstd::utf8::{decode_utf8, valid_utf8};

verus! {

/// The text that `std`'s `Utf8Error` displays for bytes that are not UTF-8.
pub uninterp spec fn utf8_error_text(bytes: Seq<u8>) -> Seq<char>;

/// Why a C string argument could not be read.
#[derive(Debug, Clone, PartialEq, Eq)]
pub enum CStrError {
    /// The caller passed a null pointer.
    NullPointer,
    /// The bytes are not UTF-8; the payload is what the decoder said about them.
    NotUtf8(String),
}

/// The message of a `CStrError`.
pub open spec fn cstr_error_text(err: CStrError) -> Seq<char> {
    match err {
        CStrError::NullPointer => "null string pointer"@,
        CStrError::NotUtf8(detail) => "string pointer is not valid UTF-8: "@ + detail@,
    }
}

/// Decodes bytes as UTF-8 (`std::str::from_utf8`). The documentation of `from_utf8`
/// promises success exactly on valid UTF-8, with the characters that the bytes encode;
/// on failure this returns the text that the `Utf8Error` displays.
#[verifier::external_body]
fn decode_utf8_bytes(bytes: &[u8]) -> (res: Result<&str, String>)
    ensures
        res is Ok <==> valid_utf8(bytes@),
        res matches Ok(s) ==> s@ == decode_utf8(bytes@),
        res matches Err(t) ==> t@ == utf8_error_text(bytes@),
{
    match std::str::from_utf8(bytes) {
        Ok(s) => Ok(s),
        Err(e) => Err(e.to_string()),
    }
}

/// Reads a C string argument that must be there.
/// `None` stands for a null pointer, `Some` for the bytes before the terminating NUL.
pub fn required_c_str(bytes: Option<&[u8]>) -> (res: Result<String, CStrError>)
    ensures
        match bytes {
            None => res == Err::<String, CStrError>(CStrError::NullPointer),
            Some(b) => if valid_utf8(b@) {
                res matches Ok(r) && r@ == decode_utf8(b@)
            } else {
                res matches Err(CStrError::NotUtf8(t)) && t@ == utf8_error_text(b@)
            },
        },
{
    match bytes {
        None => Err(CStrError::NullPointer),
        Some(b) => match decode_utf8_bytes(b) {
            Ok(s) => Ok(s.to_owned()),
            Err(detail) => Err(CStrError::NotUtf8(detail)),
        },
    }
}

/// Reads a C string argument that may be left out: a null pointer gives `None`.
pub fn optional_c_str(bytes: Option<&[u8]>) -> (res: Result<Option<String>, CStrError>)
    ensures
        match bytes {
            None => res matches Ok(None),
            Some(b) => if valid_utf8(b@) {
                res matches Ok(Some(r)) && r@ == decode_utf8(b@)
            } else {
                res matches Err(CStrError::NotUtf8(t)) && t@ == utf8_error_text(b@)
            },
        },
{
    match bytes {
        None => Ok(None),
        Some(b) => match required_c_str(Some(b)) {
            Ok(s) => Ok(Some(s)),
            Err(e) => Err(e),
        },
    }
}

/// The message of a `CStrError`, as text.
pub fn cstr_error_message(err: &CStrError) -> (res: String)
    ensures
        res@ == cstr_error_text(*err),
{
    match err {
        CStrError::NullPointer => "null string pointer".to_owned(),
        CStrError::NotUtf8(detail) => crate::text::joined("string pointer is not valid UTF-8: ", detail.as_str()),
    }
}

} // verus!
