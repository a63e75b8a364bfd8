//! Decoding of captured command output: raw stdout bytes become text, a
//! failed launch becomes a reported error.

use vstd::prelude::*;
use vstd::utf8::{decode_utf8, encode_utf8, valid_utf8};
use vstd::utf8::{encode_utf8_decode_utf8, encode_utf8_valid_utf8, is_ascii_chars,
    is_ascii_chars_encode_utf8};

use crate::error::{same_result, MachineIdError};

verus! {

/// True when `pos` is the length of the longest prefix of `bytes` that is
/// valid UTF-8, and `bytes` as a whole is not.
pub open spec fn is_valid_up_to(bytes: Seq<u8>, pos: int) -> bool {
    &&& 0 <= pos <= bytes.len()
    &&& valid_utf8(bytes.take(pos))
    &&& forall|j: int| pos < j <= bytes.len() ==> !valid_utf8(bytes.take(j))
}

/// At most one position is the longest valid prefix length.
pub proof fn lemma_valid_up_to_unique(bytes: Seq<u8>, p1: int, p2: int)
    requires
        is_valid_up_to(bytes, p1),
        is_valid_up_to(bytes, p2),
    ensures
        p1 == p2,
{
    if p1 < p2 {
        assert(!valid_utf8(bytes.take(p2)));
    }
    if p2 < p1 {
        assert(!valid_utf8(bytes.take(p1)));
    }
}

/// Relies on `alloc::string::String::from_utf8`: it returns the decoded
/// string exactly when the bytes are valid UTF-8; on failure,
/// `FromUtf8Error::utf8_error` and `Utf8Error::valid_up_to` give the
/// maximal index up to which the bytes are valid UTF-8.
#[verifier::external_body]
fn bytes_to_string(bytes: Vec<u8>) -> (r: Result<String, usize>)
    ensures
        r is Ok <==> valid_utf8(bytes@),
        r matches Ok(s) ==> s@ == decode_utf8(bytes@),
        r matches Err(pos) ==> is_valid_up_to(bytes@, pos as int),
{
    String::from_utf8(bytes).map_err(|e| e.utf8_error().valid_up_to())
}

/// The view of a command outcome: captured stdout bytes, or the message of
/// the launch error.
pub open spec fn outcome_view(outcome: Result<Vec<u8>, String>) -> Result<Seq<u8>, Seq<char>> {
    match outcome {
        Ok(bytes) => Ok(bytes@),
        Err(msg) => Err(msg@),
    }
}

/// What decoding a command outcome returns: the decoded stdout text
/// verbatim when the launch succeeded and its bytes are valid UTF-8, and
/// the matching error otherwise.
pub open spec fn decode_post(
    outcome: Result<Seq<u8>, Seq<char>>,
    r: Result<String, MachineIdError>,
) -> bool {
    match outcome {
        Ok(bytes) => {
            if valid_utf8(bytes) {
                r matches Ok(s) && s@ == decode_utf8(bytes)
            } else {
                r matches Err(e) && e matches MachineIdError::DecodeError(pos)
                    && is_valid_up_to(bytes, pos as int)
            }
        },
        Err(msg) => r matches Err(e) && e matches MachineIdError::ProcessLaunchError(m) && m@
            == msg,
    }
}

/// Turns the outcome of running a command into the decoded text of its
/// standard output, or the error that stands for what went wrong.
pub fn decode_output(outcome: Result<Vec<u8>, String>) -> (r: Result<String, MachineIdError>)
    ensures
        decode_post(outcome_view(outcome), r),
{
    match outcome {
        Ok(bytes) => match bytes_to_string(bytes) {
            Ok(s) => Ok(s),
            Err(pos) => Err(MachineIdError::DecodeError(pos)),
        },
        Err(msg) => Err(MachineIdError::ProcessLaunchError(msg)),
    }
}

/// Decoding is a function of the outcome alone: two decodings of one
/// outcome agree.
pub proof fn lemma_decode_deterministic(
    o: Result<Seq<u8>, Seq<char>>,
    r1: Result<String, MachineIdError>,
    r2: Result<String, MachineIdError>,
)
    requires
        decode_post(o, r1),
        decode_post(o, r2),
    ensures
        same_result(r1, r2),
{
    match o {
        Ok(bytes) => {
            if !valid_utf8(bytes) {
                let p1 = r1->Err_0->DecodeError_0;
                let p2 = r2->Err_0->DecodeError_0;
                lemma_valid_up_to_unique(bytes, p1 as int, p2 as int);
            }
        },
        Err(_) => {},
    }
}

/// A sequence of bytes below 0x80 is valid UTF-8 and decodes to the
/// characters with those very code points.
pub proof fn lemma_decode_ascii_bytes(bytes: Seq<u8>)
    requires
        forall|i: int| 0 <= i < bytes.len() ==> bytes[i] < 0x80,
    ensures
        valid_utf8(bytes),
        decode_utf8(bytes) == bytes.map(|i: int, b: u8| b as char),
{
    let chars = bytes.map(|i: int, b: u8| b as char);
    assert forall|i: int| 0 <= i < chars.len() implies '\0' <= #[trigger] chars[i] <= '\u{7f}' by {
        assert(chars[i] == bytes[i] as char);
    }
    assert(is_ascii_chars(chars));
    is_ascii_chars_encode_utf8(chars);
    assert forall|i: int| 0 <= i < chars.len() implies #[trigger] encode_utf8(chars)[i]
        == bytes[i] by {
        assert(chars[i] as u8 == encode_utf8(chars)[i]);
        assert(chars[i] == bytes[i] as char);
    }
    assert(encode_utf8(chars) =~= bytes);
    encode_utf8_valid_utf8(chars);
    encode_utf8_decode_utf8(chars);
}

} // verus!
