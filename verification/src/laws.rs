//! The library-wide laws, each a proof function: what the Windows
//! transform extracts, what a Linux machine-id file decodes to, and that
//! retrieval is a function of the command outcome alone.

use vstd::prelude::*;
use vstd::utf8::valid_utf8;

use crate::decode::{
    decode_post, lemma_decode_ascii_bytes, lemma_decode_deterministic, lemma_valid_up_to_unique,
};
use crate::error::{same_result, MachineIdError};
use crate::machineid::{get_post, spec_windows_transform, Platform};
use crate::text::{
    lemma_first_space_at, lemma_trim_subrange, spec_has_space, spec_is_whitespace, spec_trim,
};

verus! {

/// A byte that spells a lowercase hexadecimal digit in ASCII.
pub open spec fn is_lower_hex_byte(b: u8) -> bool {
    (0x30 <= b && b <= 0x39) || (0x61 <= b && b <= 0x66)
}

/// A lowercase hexadecimal digit.
pub open spec fn is_lower_hex_char(c: char) -> bool {
    ('0' <= c && c <= '9') || ('a' <= c && c <= 'f')
}

/// Law: on every two-token input — a header without spaces, whitespace
/// padding that starts with a space, a whitespace-free identifier token,
/// and trailing whitespace — the Windows transform yields exactly the
/// identifier token.
pub proof fn lemma_transform_extracts_token(
    header: Seq<char>,
    pad: Seq<char>,
    token: Seq<char>,
    tail: Seq<char>,
)
    requires
        forall|i: int| 0 <= i < header.len() ==> header[i] != ' ',
        pad.len() > 0,
        pad[0] == ' ',
        forall|i: int| 0 <= i < pad.len() ==> spec_is_whitespace(pad[i]),
        token.len() > 0,
        forall|i: int| 0 <= i < token.len() ==> !spec_is_whitespace(token[i]),
        forall|i: int| 0 <= i < tail.len() ==> spec_is_whitespace(tail[i]),
    ensures
        spec_has_space(header + pad + token + tail),
        spec_windows_transform(header + pad + token + tail) == token,
{
    let s = header + pad + token + tail;
    let k = header.len() as int;
    let n = s.len() as int;
    assert(s[k] == ' ');
    assert(forall|j: int| 0 <= j < k ==> s[j] == header[j]);
    lemma_first_space_at(s, k);
    let rest = s.subrange(k + 1, n);
    let a = pad.len() - 1;
    let b = a + token.len();
    assert(forall|j: int| 0 <= j < rest.len() ==> rest[j] == s[k + 1 + j]);
    assert(forall|j: int| 0 <= j < a ==> rest[j] == pad[j + 1]);
    assert(forall|j: int| a <= j < b ==> rest[j] == token[j - a]);
    assert(forall|j: int| b <= j < rest.len() ==> rest[j] == tail[j - b]);
    lemma_trim_subrange(rest, a, b);
    assert(rest.subrange(a, b) =~= token);
}

/// Law: when the machine-id file holds 32 lowercase hexadecimal digits and
/// a final newline, Linux retrieval returns those 33 characters unchanged,
/// and trimming the result leaves exactly the 32 hexadecimal digits.
pub proof fn lemma_linux_machine_id_roundtrip(bytes: Seq<u8>, r: Result<String, MachineIdError>)
    requires
        bytes.len() == 33,
        forall|i: int| 0 <= i < 32 ==> is_lower_hex_byte(bytes[i]),
        bytes[32] == 0x0a,
        decode_post(Result::Ok(bytes), r),
    ensures
        r is Ok,
        r->Ok_0@.len() == 33,
        forall|i: int| 0 <= i < 33 ==> r->Ok_0@[i] == bytes[i] as char,
        spec_trim(r->Ok_0@).len() == 32,
        forall|i: int| 0 <= i < 32 ==> is_lower_hex_char(spec_trim(r->Ok_0@)[i]),
{
    assert(forall|i: int| 0 <= i < bytes.len() ==> bytes[i] < 0x80);
    lemma_decode_ascii_bytes(bytes);
    let s = r->Ok_0@;
    assert(forall|i: int| 0 <= i < 33 ==> s[i] == bytes[i] as char);
    assert(forall|i: int|
        0 <= i < 32 ==> !spec_is_whitespace(#[trigger] s[i]) && is_lower_hex_char(s[i])) by {
        assert(forall|i: int|
            0 <= i < 32 ==> #[trigger] (s[i] as u32) == bytes[i] as u32 && is_lower_hex_byte(
                bytes[i],
            ));
    }
    assert(spec_is_whitespace(s[32])) by {
        assert(s[32] as u32 == 0x0a);
    }
    lemma_trim_subrange(s, 0, 32);
    assert(spec_trim(s) == s.subrange(0, 32));
}

/// A hexadecimal digit in either letter case.
pub open spec fn is_hex_digit_char(c: char) -> bool {
    ('0' <= c && c <= '9') || ('a' <= c && c <= 'f') || ('A' <= c && c <= 'F')
}

/// A byte that spells a hexadecimal digit in ASCII, in either letter case.
pub open spec fn is_hex_digit_byte(b: u8) -> bool {
    (0x30 <= b && b <= 0x39) || (0x61 <= b && b <= 0x66) || (0x41 <= b && b <= 0x46)
}

/// The canonical UUID shape: five dash-separated groups of hexadecimal
/// digits, 8-4-4-4-12.
pub open spec fn is_canonical_uuid(s: Seq<char>) -> bool {
    &&& s.len() == 36
    &&& forall|i: int|
        0 <= i < 36 ==> (if i == 8 || i == 13 || i == 18 || i == 23 {
            s[i] == '-'
        } else {
            is_hex_digit_char(#[trigger] s[i])
        })
}

/// Law: when the platform's query answers with a canonical UUID and a
/// final newline, retrieval returns those 37 characters unchanged, and
/// trimming the result leaves a string of the canonical UUID shape.
pub proof fn lemma_uuid_output_keeps_shape(bytes: Seq<u8>, r: Result<String, MachineIdError>)
    requires
        bytes.len() == 37,
        forall|i: int|
            0 <= i < 36 ==> (if i == 8 || i == 13 || i == 18 || i == 23 {
                bytes[i] == 0x2d
            } else {
                is_hex_digit_byte(#[trigger] bytes[i])
            }),
        bytes[36] == 0x0a,
        decode_post(Result::Ok(bytes), r),
    ensures
        r is Ok,
        r->Ok_0@.len() == 37,
        forall|i: int| 0 <= i < 37 ==> r->Ok_0@[i] == bytes[i] as char,
        spec_trim(r->Ok_0@).len() == 36,
        is_canonical_uuid(spec_trim(r->Ok_0@)),
{
    assert(forall|i: int| 0 <= i < bytes.len() ==> bytes[i] < 0x80);
    lemma_decode_ascii_bytes(bytes);
    let s = r->Ok_0@;
    assert(forall|i: int| 0 <= i < 37 ==> s[i] == bytes[i] as char);
    assert(forall|i: int| 0 <= i < 36 ==> !spec_is_whitespace(#[trigger] s[i])) by {
        assert(forall|i: int| 0 <= i < 36 ==> #[trigger] (s[i] as u32) == bytes[i] as u32);
    }
    assert(spec_is_whitespace(s[36])) by {
        assert(s[36] as u32 == 0x0a);
    }
    lemma_trim_subrange(s, 0, 36);
    let t = s.subrange(0, 36);
    assert(forall|i: int|
        0 <= i < 36 ==> #[trigger] (t[i] as u32) == bytes[i] as u32 && t[i] == bytes[i] as char);
    assert(is_canonical_uuid(t)) by {
        assert(forall|i: int|
            0 <= i < 36 && !(i == 8 || i == 13 || i == 18 || i == 23) ==> is_hex_digit_char(
                #[trigger] t[i],
            ));
        assert(t[8] as u32 == 0x2d && t[13] as u32 == 0x2d && t[18] as u32 == 0x2d && t[23] as u32
            == 0x2d);
        assert('-' as u32 == 0x2d);
        assert(t[8] == '-' && t[13] == '-' && t[18] == '-' && t[23] == '-');
    }
}

/// Law: retrieval is a function of the platform and the command outcome
/// alone — two retrievals that observe the same outcome return results
/// that agree, text for text.
pub proof fn lemma_get_deterministic(
    platform: Platform,
    o: Result<Seq<u8>, Seq<char>>,
    r1: Result<String, MachineIdError>,
    r2: Result<String, MachineIdError>,
)
    requires
        get_post(platform, o, r1),
        get_post(platform, o, r2),
    ensures
        same_result(r1, r2),
{
    match platform {
        Platform::Windows => {
            match o {
                Ok(bytes) => {
                    if !valid_utf8(bytes) {
                        lemma_valid_up_to_unique(
                            bytes,
                            r1->Err_0->DecodeError_0 as int,
                            r2->Err_0->DecodeError_0 as int,
                        );
                    }
                },
                Err(_) => {},
            }
        },
        Platform::MacOs => lemma_decode_deterministic(o, r1, r2),
        Platform::Linux => lemma_decode_deterministic(o, r1, r2),
        Platform::Other => {},
    }
}

} // verus!
