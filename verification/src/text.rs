//! The text operations of the standard library that the crate relies on.
//!
//! Nothing in this module is proved: each function here makes one call into
//! `std` and carries the contract that the rest of the crate builds on.
use vstd::prelude::*;
use vstd::utf8::{encode_utf8, valid_utf8};

verus! {

/// The quoted, escaped form that `std` gives a string when it is formatted
/// with `{:?}`: what `<str as Debug>::fmt` writes for `text`.
///
/// The escaping rules belong to `std`, so the rendering is only named here.
pub uninterp spec fn debug_rendering(text: Seq<char>) -> Seq<char>;

/// Formats `text` with `{:?}`, that is through `<str as Debug>::fmt`.
///
/// Trusted: the result is the rendering that `std` defines for these
/// characters, and depends on nothing else.
#[verifier::external_body]
pub(crate) fn debug_quoted(text: &str) -> (rendered: String)
    ensures
        rendered@ == debug_rendering(text@),
{
    format!("{:?}", text)
}

/// Whether `len` is the length of the longest prefix of `bytes` that is valid
/// UTF-8.
pub open spec fn longest_valid_prefix(bytes: Seq<u8>, len: int) -> bool {
    &&& 0 <= len <= bytes.len()
    &&& valid_utf8(bytes.subrange(0, len))
    &&& forall|longer: int|
        len < longer <= bytes.len() ==> !valid_utf8(#[trigger] bytes.subrange(0, longer))
}

/// Converts `bytes` with `String::from_utf8`.
///
/// Trusted: the conversion succeeds exactly on valid UTF-8, and the string
/// then consists of the very bytes given. When it fails, the error hands the
/// bytes back unchanged (`FromUtf8Error::into_bytes`) together with the
/// greatest length up to which they are valid UTF-8
/// (`Utf8Error::valid_up_to`).
#[verifier::external_body]
pub(crate) fn string_from_utf8(bytes: Vec<u8>) -> (converted: Result<String, (Vec<u8>, usize)>)
    ensures
        converted is Ok <==> valid_utf8(bytes@),
        converted matches Ok(text) ==> encode_utf8(text@) == bytes@,
        converted matches Err((rejected, valid_len)) ==> rejected@ == bytes@
            && longest_valid_prefix(bytes@, valid_len as int),
{
    match String::from_utf8(bytes) {
        Ok(text) => Ok(text),
        Err(error) => {
            let valid_len = error.utf8_error().valid_up_to();
            Err((error.into_bytes(), valid_len))
        },
    }
}

} // verus!
