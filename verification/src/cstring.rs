//! Strings as the engine takes them: bytes that end at the first zero.
//!
//! The engine reads a string up to its first zero byte. A Rust string can
//! hold that byte anywhere, so a string crosses to the engine only if its
//! UTF-8 encoding is free of it; what crosses is the encoding followed by
//! one zero byte.

use crate::error::HTSEngineError;
use vstd::prelude::*;
use vstd::slice::slice_to_vec;
use vstd::utf8::*;

verus! {

/// True when `bytes` holds a zero byte.
pub open spec fn has_nul(bytes: Seq<u8>) -> bool {
    bytes.contains(0u8)
}

/// True when `text` can be handed to the engine: its UTF-8 encoding holds
/// no zero byte.
pub open spec fn representable(text: Seq<char>) -> bool {
    !has_nul(encode_utf8(text))
}

/// The bytes that stand for `text` at the engine: its UTF-8 encoding and
/// the terminating zero.
pub open spec fn c_string(text: Seq<char>) -> Seq<u8> {
    encode_utf8(text).push(0u8)
}

/// True when every string of `texts` is [`representable`].
pub open spec fn all_representable(texts: Seq<Seq<char>>) -> bool {
    forall|i: int| 0 <= i < texts.len() ==> representable(#[trigger] texts[i])
}

/// The [`c_string`] of each string of `texts`, in order.
pub open spec fn c_strings(texts: Seq<Seq<char>>) -> Seq<Seq<u8>> {
    Seq::new(texts.len(), |i: int| c_string(texts[i]))
}

/// Finds the first zero byte of `bytes`.
pub fn find_nul(bytes: &[u8]) -> (position: Option<usize>)
    ensures
        match position {
            Some(at) => {
                &&& at < bytes@.len()
                &&& bytes@[at as int] == 0
                &&& forall|j: int| 0 <= j < at ==> bytes@[j] != 0
            },
            None => !has_nul(bytes@),
        },
{
    let mut at: usize = 0;
    while at < bytes.len()
        invariant
            at <= bytes@.len(),
            forall|j: int| 0 <= j < at ==> bytes@[j] != 0,
        decreases bytes@.len() - at,
    {
        if bytes[at] == 0 {
            return Some(at);
        }
        at += 1;
    }
    None
}

/// Encodes one string for the engine.
///
/// Fails with [`HTSEngineError::CStringError`] exactly when the string is
/// not [`representable`]; otherwise returns its [`c_string`].
pub fn to_c_string(text: &str) -> (result: Result<Vec<u8>, HTSEngineError>)
    ensures
        match result {
            Ok(bytes) => representable(text@) && bytes@ == c_string(text@),
            Err(error) => !representable(text@) && error == HTSEngineError::CStringError,
        },
{
    let encoded = text.as_bytes();
    match find_nul(encoded) {
        Some(_) => Err(HTSEngineError::CStringError),
        None => {
            let mut bytes = slice_to_vec(encoded);
            bytes.push(0);
            Ok(bytes)
        },
    }
}

/// Encodes a list of strings for the engine, all or none.
///
/// Fails with [`HTSEngineError::CStringError`] exactly when some string is
/// not [`representable`]; otherwise returns the [`c_string`] of each, in
/// order.
pub fn to_c_strings(texts: &Vec<String>) -> (result: Result<Vec<Vec<u8>>, HTSEngineError>)
    ensures
        match result {
            Ok(encoded) => {
                &&& all_representable(texts.deep_view())
                &&& encoded.deep_view() == c_strings(texts.deep_view())
            },
            Err(error) => {
                &&& !all_representable(texts.deep_view())
                &&& error == HTSEngineError::CStringError
            },
        },
{
    let mut encoded: Vec<Vec<u8>> = Vec::new();
    let mut next: usize = 0;
    while next < texts.len()
        invariant
            next <= texts.len(),
            encoded.len() == next,
            forall|j: int| 0 <= j < next ==> representable(#[trigger] texts@[j]@),
            forall|j: int| 0 <= j < next ==> (#[trigger] encoded@[j])@ == c_string(texts@[j]@),
        decreases texts.len() - next,
    {
        match to_c_string(texts[next].as_str()) {
            Ok(bytes) => {
                encoded.push(bytes);
            },
            Err(error) => {
                assert(texts.deep_view()[next as int] == texts@[next as int]@);
                return Err(error);
            },
        }
        next += 1;
    }
    proof {
        assert forall|i: int| 0 <= i < texts.len() implies representable(
            #[trigger] texts.deep_view()[i],
        ) by {
            assert(representable(texts@[i]@));
        }
        assert forall|i: int| 0 <= i < encoded.len() implies #[trigger] encoded.deep_view()[i]
            == c_string(texts@[i]@) by {
            assert(encoded@[i].deep_view() =~= encoded@[i]@);
        }
        assert(encoded.deep_view() =~= c_strings(texts.deep_view()));
    }
    Ok(encoded)
}

/// An encoded character holds a zero byte only if it is U+0000.
proof fn lemma_scalar_nul(scalar: u32)
    requires
        is_scalar(scalar),
    ensures
        has_nul(encode_scalar(scalar)) <==> scalar == 0,
{
    let bytes = encode_scalar(scalar);
    if has_width_1_encoding(scalar) {
        assert(leading_byte_width_1(scalar) == 0 <==> scalar == 0) by (bit_vector)
            requires
                0 <= scalar <= 0x7F,
        ;
        assert(bytes[0] == leading_byte_width_1(scalar));
    } else {
        assert(leading_byte_width_2(scalar) != 0 && leading_byte_width_3(scalar) != 0
            && leading_byte_width_4(scalar) != 0 && last_continuation_byte(scalar) != 0
            && second_last_continuation_byte(scalar) != 0 && third_last_continuation_byte(scalar)
            != 0) by (bit_vector);
    }
}

/// Two byte strings put together hold a zero byte exactly when one of them
/// does.
proof fn lemma_has_nul_concat(head: Seq<u8>, tail: Seq<u8>)
    ensures
        has_nul(head + tail) <==> has_nul(head) || has_nul(tail),
{
    let joined = head + tail;
    if has_nul(head) {
        let at = choose|i: int| 0 <= i < head.len() && head[i] == 0u8;
        assert(joined[at] == 0u8);
    }
    if has_nul(tail) {
        let at = choose|i: int| 0 <= i < tail.len() && tail[i] == 0u8;
        assert(joined[head.len() + at] == 0u8);
    }
    if has_nul(joined) {
        let at = choose|i: int| 0 <= i < joined.len() && joined[i] == 0u8;
        if at < head.len() {
            assert(head[at] == 0u8);
        } else {
            assert(tail[at - head.len()] == 0u8);
        }
    }
}

/// A string can be handed to the engine exactly when it holds no U+0000.
pub proof fn lemma_representable_iff_no_nul_char(text: Seq<char>)
    ensures
        representable(text) <==> !text.contains('\0'),
    decreases text.len(),
{
    if text.len() > 0 {
        let first = text[0];
        let rest = text.drop_first();
        lemma_representable_iff_no_nul_char(rest);
        lemma_has_nul_concat(encode_scalar(first as u32), encode_utf8(rest));
        assert(has_nul(encode_scalar(first as u32)) <==> first == '\0') by {
            char_is_scalar(first);
            lemma_scalar_nul(first as u32);
            char_u32_cast(first, first as u32);
            char_u32_cast('\0', 0u32);
        }
        if rest.contains('\0') {
            let at = choose|i: int| 0 <= i < rest.len() && rest[i] == '\0';
            assert(text[at + 1] == '\0');
        }
        if text.contains('\0') {
            let at = choose|i: int| 0 <= i < text.len() && text[i] == '\0';
            if at > 0 {
                assert(rest[at - 1] == '\0');
            }
        }
    }
}

} // verus!
