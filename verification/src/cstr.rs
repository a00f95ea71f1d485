//! Text handed to C as a NUL-terminated string.

use vstd::prelude::*;
use vstd::string::StringSliceAdditionalSpecFns;
use vstd::utf8::{encode_scalar, encode_utf8};

verus! {

/// What a C string built from `msg` holds: `msg` itself, or nothing at all
/// when `msg` has a NUL character and so cannot be one.
pub open spec fn spec_c_string_content(msg: Seq<char>) -> Seq<char> {
    if msg.contains('\0') {
        Seq::empty()
    } else {
        msg
    }
}

proof fn lemma_high_bit_nonzero(y: u8)
    ensures
        (0x80u8 | y) != 0u8,
        (0xC0u8 | y) != 0u8,
        (0xE0u8 | y) != 0u8,
        (0xF0u8 | y) != 0u8,
{
    assert((0x80u8 | y) != 0u8) by (bit_vector);
    assert((0xC0u8 | y) != 0u8) by (bit_vector);
    assert((0xE0u8 | y) != 0u8) by (bit_vector);
    assert((0xF0u8 | y) != 0u8) by (bit_vector);
}

/// The UTF-8 encoding of a character holds a zero byte exactly when the
/// character is NUL.
proof fn lemma_scalar_nul(c: char)
    ensures
        encode_scalar(c as u32).contains(0u8) <==> c == '\0',
{
    let v = c as u32;
    if v <= 0x7F {
        assert(v <= 0x7F ==> (((v & 0x7F) as u8 == 0u8) <==> v == 0)) by (bit_vector);
        assert(encode_scalar(v) =~= seq![(v & 0x7F) as u8]);
        if encode_scalar(v).contains(0u8) {
            let k = choose|k: int| 0 <= k < encode_scalar(v).len() && encode_scalar(v)[k] == 0u8;
            assert(k == 0);
        }
        if v == 0 {
            assert(encode_scalar(v)[0] == 0u8);
        }
    } else {
        lemma_high_bit_nonzero(((v >> 6) & 0x1F) as u8);
        lemma_high_bit_nonzero(((v >> 12) & 0x0F) as u8);
        lemma_high_bit_nonzero(((v >> 18) & 0x7) as u8);
        lemma_high_bit_nonzero((v & 0x3F) as u8);
        lemma_high_bit_nonzero(((v >> 6) & 0x3F) as u8);
        lemma_high_bit_nonzero(((v >> 12) & 0x3F) as u8);
        let e = encode_scalar(v);
        assert forall|k: int| 0 <= k < e.len() implies e[k] != 0u8 by {}
    }
}

/// The UTF-8 encoding of a text holds a zero byte exactly when the text
/// holds a NUL character.
pub proof fn lemma_encoding_nul(s: Seq<char>)
    ensures
        encode_utf8(s).contains(0u8) <==> s.contains('\0'),
    decreases s.len(),
{
    if s.len() > 0 {
        let head = encode_scalar(s[0] as u32);
        let rest = encode_utf8(s.drop_first());
        lemma_encoding_nul(s.drop_first());
        lemma_scalar_nul(s[0]);
        assert(encode_utf8(s) == head + rest);
        if (head + rest).contains(0u8) {
            let k = choose|k: int| 0 <= k < (head + rest).len() && (head + rest)[k] == 0u8;
            if k < head.len() {
                assert(head[k] == 0u8);
            } else {
                assert(rest[k - head.len()] == 0u8);
                let j = choose|j: int| 0 <= j < s.drop_first().len() && s.drop_first()[j] == '\0';
                assert(s[j + 1] == '\0');
            }
        }
        if s.contains('\0') {
            let j = choose|j: int| 0 <= j < s.len() && s[j] == '\0';
            if j == 0 {
                let k = choose|k: int| 0 <= k < head.len() && head[k] == 0u8;
                assert((head + rest)[k] == 0u8);
            } else {
                assert(s.drop_first()[j - 1] == '\0');
                let k = choose|k: int| 0 <= k < rest.len() && rest[k] == 0u8;
                assert((head + rest)[head.len() + k] == 0u8);
            }
        }
    } else {
        assert(encode_utf8(s) =~= Seq::<u8>::empty());
    }
}

/// A C string holds the whole text it was made from, character for
/// character, unless the text has a NUL character; then, and only then, it
/// is empty (a non-empty text without NUL never comes out empty).
pub proof fn law_c_string_keeps_text(msg: Seq<char>)
    ensures
        !msg.contains('\0') ==> spec_c_string_content(msg) == msg,
        !msg.contains('\0') ==> spec_c_string_content(msg).len() == msg.len(),
        msg.contains('\0') ==> spec_c_string_content(msg).len() == 0,
        (spec_c_string_content(msg).len() == 0 && msg.len() > 0) ==> msg.contains('\0'),
{
}

/// Whether `msg` holds a NUL character, which a C string cannot carry.
pub fn has_nul(msg: &str) -> (b: bool)
    ensures
        b == msg@.contains('\0'),
{
    proof {
        lemma_encoding_nul(msg@);
    }
    let bytes = msg.as_bytes();
    let mut i: usize = 0;
    while i < bytes.len()
        invariant
            i <= bytes@.len(),
            bytes@ == encode_utf8(msg@),
            encode_utf8(msg@).contains(0u8) <==> msg@.contains('\0'),
            forall|j: int| 0 <= j < i ==> bytes@[j] != 0u8,
        decreases bytes.len() - i,
    {
        if bytes[i] == 0u8 {
            assert(encode_utf8(msg@)[i as int] == 0u8);
            assert(encode_utf8(msg@).contains(0u8));
            return true;
        }
        i = i + 1;
    }
    false
}

/// The text of the C string made from `msg` (empty when `msg` holds a NUL).
pub fn c_string_content(msg: &str) -> (s: String)
    ensures
        s@ == spec_c_string_content(msg@),
        !msg@.contains('\0') ==> s@ == msg@,
        msg@.contains('\0') ==> s@.len() == 0,
{
    if has_nul(msg) {
        String::new()
    } else {
        msg.to_owned()
    }
}

} // verus!
