//! The form in which a model file's path is handed to the native loader.
//!
//! The native loader takes a path as a NUL-terminated string of UTF-8 bytes.
//! A path that holds a NUL character has no such form: the native side would
//! read it only up to that character and open another file.

use vstd::prelude::*;
use vstd::string::*;
use vstd::utf8::*;
use crate::error::{ErrorKind, OpenError, OpenErrorView};

verus! {

/// Whether `path` can be written as a NUL-terminated native string: it holds
/// no NUL character.
pub open spec fn representable(path: Seq<char>) -> bool {
    !path.contains('\0')
}

/// The native form of `path`: its UTF-8 encoding, followed by the terminator.
pub open spec fn native_form(path: Seq<char>) -> Seq<u8> {
    encode_utf8(path) + seq![0u8]
}

/// Whether `bytes` is a C string: it ends in a NUL byte and holds no other.
pub open spec fn is_c_string(bytes: Seq<u8>) -> bool {
    &&& bytes.len() > 0
    &&& bytes.last() == 0u8
    &&& !bytes.drop_last().contains(0u8)
}

proof fn lemma_narrow_byte_nul(scalar: u32)
    by (bit_vector)
    requires
        has_width_1_encoding(scalar),
    ensures
        leading_byte_width_1(scalar) == 0u8 <==> scalar == 0u32,
{
}

proof fn lemma_wide_bytes_not_nul(scalar: u32)
    by (bit_vector)
    ensures
        leading_byte_width_2(scalar) != 0u8,
        leading_byte_width_3(scalar) != 0u8,
        leading_byte_width_4(scalar) != 0u8,
        last_continuation_byte(scalar) != 0u8,
        second_last_continuation_byte(scalar) != 0u8,
        third_last_continuation_byte(scalar) != 0u8,
{
}

/// The encoding of one character holds a NUL byte exactly when the
/// character is NUL.
proof fn lemma_scalar_nul(c: char)
    ensures
        encode_scalar(c as u32).contains(0u8) <==> c == '\0',
{
    let scalar = c as u32;
    let bytes = encode_scalar(scalar);
    if has_width_1_encoding(scalar) {
        lemma_narrow_byte_nul(scalar);
        if c == '\0' {
            assert(bytes[0] == 0u8);
        }
    } else {
        lemma_wide_bytes_not_nul(scalar);
        assert forall|i: int| 0 <= i < bytes.len() implies bytes[i] != 0u8 by {}
    }
}

/// UTF-8 keeps NUL apart: the encoding of a text holds a NUL byte exactly
/// when the text holds a NUL character.
pub proof fn lemma_encoding_nul(text: Seq<char>)
    ensures
        encode_utf8(text).contains(0u8) <==> text.contains('\0'),
    decreases text.len(),
{
    if text.len() > 0 {
        let head = encode_scalar(text[0] as u32);
        let rest = text.drop_first();
        let tail = encode_utf8(rest);
        lemma_scalar_nul(text[0]);
        lemma_encoding_nul(rest);
        if text.contains('\0') {
            let i = choose|i: int| 0 <= i < text.len() && text[i] == '\0';
            if i == 0 {
                let j = choose|j: int| 0 <= j < head.len() && head[j] == 0u8;
                assert((head + tail)[j] == 0u8);
            } else {
                assert(rest[i - 1] == '\0');
                let j = choose|j: int| 0 <= j < tail.len() && tail[j] == 0u8;
                assert((head + tail)[head.len() + j] == 0u8);
            }
        }
        if (head + tail).contains(0u8) {
            let j = choose|j: int| 0 <= j < (head + tail).len() && (head + tail)[j] == 0u8;
            if j < head.len() {
                assert(head[j] == 0u8);
                assert(text[0] == '\0');
            } else {
                assert(tail[j - head.len()] == 0u8);
                let i = choose|i: int| 0 <= i < rest.len() && rest[i] == '\0';
                assert(text[i + 1] == '\0');
            }
        }
    }
}

/// The native form of a representable path is a C string: the native side
/// reads all of the path and stops at the terminator.
pub proof fn lemma_native_form_is_c_string(path: Seq<char>)
    requires
        representable(path),
    ensures
        is_c_string(native_form(path)),
{
    lemma_encoding_nul(path);
    assert(native_form(path).drop_last() =~= encode_utf8(path));
}

/// The native form names one path only: the native side cannot take one
/// path for another.
pub proof fn lemma_native_form_names_one_path(first: Seq<char>, second: Seq<char>)
    requires
        native_form(first) == native_form(second),
    ensures
        first == second,
{
    assert(native_form(first).drop_last() =~= encode_utf8(first));
    assert(native_form(second).drop_last() =~= encode_utf8(second));
    encode_utf8_decode_utf8(first);
    encode_utf8_decode_utf8(second);
}

/// Tells whether `path` has a native form.
pub fn is_representable(path: &str) -> (b: bool)
    ensures
        b == representable(path@),
{
    let bytes = path.as_bytes();
    let mut i: usize = 0;
    while i < bytes.len()
        invariant
            i <= bytes.len(),
            bytes@ == encode_utf8(path@),
            forall|j: int| 0 <= j < i ==> bytes@[j] != 0u8,
        decreases bytes.len() - i,
    {
        if bytes[i] == 0 {
            proof {
                assert(bytes@[i as int] == 0u8);
                lemma_encoding_nul(path@);
            }
            return false;
        }
        i += 1;
    }
    proof {
        lemma_encoding_nul(path@);
    }
    true
}

/// Writes `path` in its native form, for the native loader to open.
///
/// Fails with [`ErrorKind::PathEncoding`] exactly when `path` holds a NUL
/// character; the error carries the path as given.
pub fn path_as_cstring(path: &str) -> (r: Result<Vec<u8>, OpenError>)
    ensures
        r is Ok <==> representable(path@),
        r matches Ok(bytes) ==> bytes@ == native_form(path@) && is_c_string(bytes@),
        r matches Err(e) ==> e@ == (OpenErrorView { kind: ErrorKind::PathEncoding, path: path@ }),
{
    if !is_representable(path) {
        return Err(OpenError::new(ErrorKind::PathEncoding, path));
    }
    let mut bytes = path.as_bytes_vec();
    bytes.push(0);
    proof {
        lemma_native_form_is_c_string(path@);
    }
    Ok(bytes)
}

} // verus!
