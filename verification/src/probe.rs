//! The version probe: which tool it runs, and how the captured output of that
//! tool becomes text.
//!
//! Running the tool is the caller's business. What is fixed here is the
//! command, the notice that announces it, and the decoding of the bytes that
//! the tool wrote to its standard output.
use vstd::prelude::*;
use vstd::utf8::{decode_utf8, encode_utf8, valid_utf8};
use vstd::utf8::{decode_utf8_encode_utf8, encode_utf8_decode_utf8, encode_utf8_valid_utf8};
use crate::text::{longest_valid_prefix, string_from_utf8};

verus! {

/// The executable that the version probe runs.
pub const PROBE_PROGRAM: &'static str = "rebar3.cmd";

/// The single argument that the probe passes to the executable.
pub const PROBE_ARGUMENT: &'static str = "version";

/// Output that could not be decoded as text.
#[derive(Debug, Clone, PartialEq, Eq)]
pub struct DecodeError {
    /// The bytes that were captured, unchanged.
    pub bytes: Vec<u8>,
    /// The length of the longest prefix of `bytes` that is valid UTF-8.
    pub valid_up_to: usize,
}

impl DecodeError {
    /// What holds of every error that decoding returns: the bytes are not
    /// valid UTF-8, and `valid_up_to` is how far they are.
    pub open spec fn wf(self) -> bool {
        &&& !valid_utf8(self.bytes@)
        &&& longest_valid_prefix(self.bytes@, self.valid_up_to as int)
    }
}

/// The text that `bytes` decode to, where they are valid UTF-8.
pub open spec fn decoded_text(bytes: Seq<u8>) -> Option<Seq<char>> {
    if valid_utf8(bytes) {
        Some(decode_utf8(bytes))
    } else {
        None
    }
}

/// The text of the notice that announces a run of `program`.
pub open spec fn notice_text(program: Seq<char>) -> Seq<char> {
    "going for "@ + program
}

/// Builds the notice that announces a run of `program`.
pub fn probe_notice(program: &str) -> (notice: String)
    ensures
        notice@ == notice_text(program@),
{
    let mut notice = String::from_str("going for ");
    notice.append(program);
    notice
}

/// Decodes the captured standard output of the probed tool as text.
///
/// Valid UTF-8 is returned as the string with exactly these bytes. Anything
/// else is an error that carries the bytes and says how far they are valid.
pub fn version_from_output(stdout: Vec<u8>) -> (decoded: Result<String, DecodeError>)
    ensures
        match decoded {
            Ok(text) => decoded_text(stdout@) == Some(text@) && encode_utf8(text@) == stdout@,
            Err(error) => decoded_text(stdout@) is None && error.bytes@ == stdout@ && error.wf()
                && error.valid_up_to < stdout@.len(),
        },
{
    match string_from_utf8(stdout) {
        Ok(text) => {
            proof {
                encode_utf8_decode_utf8(text@);
            }
            Ok(text)
        },
        Err((bytes, valid_up_to)) => {
            proof {
                lemma_invalid_prefix_is_proper(stdout@, valid_up_to as int);
            }
            Err(DecodeError { bytes, valid_up_to })
        },
    }
}

/// The valid part of bytes that are not valid UTF-8 stops short of their end.
pub proof fn lemma_invalid_prefix_is_proper(bytes: Seq<u8>, len: int)
    requires
        !valid_utf8(bytes),
        longest_valid_prefix(bytes, len),
    ensures
        len < bytes.len(),
{
    if len == bytes.len() {
        assert(bytes.subrange(0, len) =~= bytes);
    }
}

/// Bytes have one longest valid prefix: two lengths that both qualify are
/// the same.
pub proof fn lemma_longest_valid_prefix_unique(bytes: Seq<u8>, first: int, second: int)
    requires
        longest_valid_prefix(bytes, first),
        longest_valid_prefix(bytes, second),
    ensures
        first == second,
{
}

/// Decoding succeeds on the UTF-8 encoding of any text and gives that text
/// back: it fails on nothing that is valid text.
pub proof fn lemma_encoded_text_decodes(text: Seq<char>)
    ensures
        decoded_text(encode_utf8(text)) == Some(text),
{
    encode_utf8_valid_utf8(text);
    encode_utf8_decode_utf8(text);
}

/// Text that was decoded consists of the very bytes it was decoded from, so
/// no two outputs decode to the same text.
pub proof fn lemma_decoded_text_keeps_bytes(bytes: Seq<u8>, other: Seq<u8>)
    requires
        decoded_text(bytes) is Some,
    ensures
        encode_utf8(decoded_text(bytes)->Some_0) == bytes,
        decoded_text(other) == decoded_text(bytes) ==> other == bytes,
{
    decode_utf8_encode_utf8(bytes);
    if decoded_text(other) == decoded_text(bytes) {
        decode_utf8_encode_utf8(other);
    }
}

} // verus!
