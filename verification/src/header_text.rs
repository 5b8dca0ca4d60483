//! Which texts can travel as a header value.
//!
//! The transport decides on the bytes of a text. This file says the same of
//! its characters, and proves that the two agree.

use crate::metadata::{are_value_bytes, is_value_byte};
use vstd::prelude::*;
use vstd::utf8::{encode_scalar, encode_utf8, has_width_1_encoding};

verus! {

/// Whether a character may stand in a header value: any character but the
/// control characters below 32 and the delete character, the horizontal tab
/// excepted.
pub open spec fn is_value_char(c: char) -> bool {
    (c as u32 >= 32 && c as u32 != 127) || c as u32 == 9
}

/// Whether every character of a text may stand in a header value.
pub open spec fn is_header_text(text: Seq<char>) -> bool {
    forall|i: int| 0 <= i < text.len() ==> is_value_char(#[trigger] text[i])
}

/// A sequence of bytes may stand in a header value exactly when both of
/// its parts may.
pub proof fn lemma_value_bytes_concat(front: Seq<u8>, back: Seq<u8>)
    ensures
        are_value_bytes(front + back) <==> are_value_bytes(front) && are_value_bytes(back),
{
    let whole = front + back;
    if are_value_bytes(whole) {
        assert forall|i: int| 0 <= i < front.len() implies is_value_byte(#[trigger] front[i]) by {
            assert(whole[i] == front[i]);
        }
        assert forall|i: int| 0 <= i < back.len() implies is_value_byte(#[trigger] back[i]) by {
            assert(whole[front.len() + i] == back[i]);
        }
    }
    if are_value_bytes(front) && are_value_bytes(back) {
        assert forall|i: int| 0 <= i < whole.len() implies is_value_byte(#[trigger] whole[i]) by {
            if i < front.len() {
                assert(whole[i] == front[i]);
            } else {
                assert(whole[i] == back[i - front.len()]);
            }
        }
    }
}

/// A text may stand in a header value exactly when both of its parts may.
pub proof fn lemma_header_text_concat(front: Seq<char>, back: Seq<char>)
    ensures
        is_header_text(front + back) <==> is_header_text(front) && is_header_text(back),
{
    let whole = front + back;
    if is_header_text(whole) {
        assert forall|i: int| 0 <= i < front.len() implies is_value_char(#[trigger] front[i]) by {
            assert(whole[i] == front[i]);
        }
        assert forall|i: int| 0 <= i < back.len() implies is_value_char(#[trigger] back[i]) by {
            assert(whole[front.len() + i] == back[i]);
        }
    }
    if is_header_text(front) && is_header_text(back) {
        assert forall|i: int| 0 <= i < whole.len() implies is_value_char(#[trigger] whole[i]) by {
            if i < front.len() {
                assert(whole[i] == front[i]);
            } else {
                assert(whole[i] == back[i - front.len()]);
            }
        }
    }
}

/// The UTF-8 bytes of one character may stand in a header value exactly
/// when the character may: a character below 128 is one byte of the same
/// number, and every byte of a longer encoding is at least 128.
pub proof fn lemma_char_bytes(c: char)
    ensures
        are_value_bytes(encode_scalar(c as u32)) <==> is_value_char(c),
{
    let scalar: u32 = c as u32;
    let bytes = encode_scalar(scalar);
    if has_width_1_encoding(scalar) {
        assert(scalar <= 0x7F ==> (scalar & 0x7F) as u8 == scalar) by (bit_vector);
        assert(bytes[0] == scalar);
    } else {
        let high2: u8 = ((scalar >> 6) & 0x1F) as u8;
        let high3: u8 = ((scalar >> 12) & 0x0F) as u8;
        let high4: u8 = ((scalar >> 18) & 0x7) as u8;
        let low1: u8 = (scalar & 0x3F) as u8;
        let low2: u8 = ((scalar >> 6) & 0x3F) as u8;
        let low3: u8 = ((scalar >> 12) & 0x3F) as u8;
        assert(0xC0u8 | high2 >= 128) by (bit_vector);
        assert(0xE0u8 | high3 >= 128) by (bit_vector);
        assert(0xF0u8 | high4 >= 128) by (bit_vector);
        assert(0x80u8 | low1 >= 128) by (bit_vector);
        assert(0x80u8 | low2 >= 128) by (bit_vector);
        assert(0x80u8 | low3 >= 128) by (bit_vector);
        assert forall|i: int| 0 <= i < bytes.len() implies is_value_byte(#[trigger] bytes[i]) by {}
    }
}

/// A text may stand in a header value exactly when each byte of its UTF-8
/// encoding may.
pub proof fn lemma_header_text_bytes(text: Seq<char>)
    ensures
        are_value_bytes(encode_utf8(text)) <==> is_header_text(text),
    decreases text.len(),
{
    if text.len() > 0 {
        let rest = text.drop_first();
        lemma_char_bytes(text[0]);
        lemma_header_text_bytes(rest);
        lemma_value_bytes_concat(encode_scalar(text[0] as u32), encode_utf8(rest));
        assert(text == seq![text[0]] + rest);
        lemma_header_text_concat(seq![text[0]], rest);
        assert(is_header_text(seq![text[0]]) <==> is_value_char(text[0])) by {
            assert(seq![text[0]][0] == text[0]);
        }
    }
}

} // verus!
