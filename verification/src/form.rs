//! The `application/x-www-form-urlencoded` form of a text, as it stands in a
//! query string.

use vstd::prelude::*;
use vstd::utf8::{encode_scalar, encode_utf8};

verus! {

/// The bytes that are written as they are: ASCII letters and digits, `*`, `-`, `.`
/// and `_`.
pub open spec fn is_kept(byte: u8) -> bool {
    ||| byte == 0x2a
    ||| byte == 0x2d
    ||| byte == 0x2e
    ||| 0x30 <= byte <= 0x39
    ||| 0x41 <= byte <= 0x5a
    ||| byte == 0x5f
    ||| 0x61 <= byte <= 0x7a
}

/// The upper-case hexadecimal digit of a value below sixteen.
pub open spec fn hex_digit(nibble: u8) -> char
    recommends
        nibble < 16,
{
    if nibble < 10 {
        (0x30 + nibble) as char
    } else {
        (0x37 + nibble) as char
    }
}

/// One byte, encoded: itself, `+` for a space, or `%` and two hexadecimal digits.
pub open spec fn encoded_byte(byte: u8) -> Seq<char> {
    if is_kept(byte) {
        seq![byte as char]
    } else if byte == 0x20 {
        seq!['+']
    } else {
        seq!['%', hex_digit(byte / 16), hex_digit(byte % 16)]
    }
}

/// A byte string, encoded byte by byte.
pub open spec fn encoded_bytes(bytes: Seq<u8>) -> Seq<char>
    decreases bytes.len(),
{
    if bytes.len() == 0 {
        Seq::empty()
    } else {
        encoded_byte(bytes[0]) + encoded_bytes(bytes.drop_first())
    }
}

/// A text, encoded: the encoding of its UTF-8 bytes.
pub open spec fn form_encoded(text: Seq<char>) -> Seq<char> {
    encoded_bytes(encode_utf8(text))
}

/// The characters that an encoded text is made of.
pub open spec fn is_form_char(c: char) -> bool {
    c == '+' || c == '%' || (c as u32 <= 0x7f && is_kept(c as u8))
}

/// A text of kept ASCII characters only.
pub open spec fn is_plain(text: Seq<char>) -> bool {
    forall|i: int| 0 <= i < text.len() ==> (#[trigger] text[i]) as u32 <= 0x7f && is_kept(text[i] as u8)
}

proof fn lemma_encoded_bytes_concat(a: Seq<u8>, b: Seq<u8>)
    ensures
        encoded_bytes(a + b) == encoded_bytes(a) + encoded_bytes(b),
    decreases a.len(),
{
    if a.len() == 0 {
        assert(a + b =~= b);
    } else {
        assert((a + b).drop_first() =~= a.drop_first() + b);
        lemma_encoded_bytes_concat(a.drop_first(), b);
    }
}

proof fn lemma_encode_utf8_concat(a: Seq<char>, b: Seq<char>)
    ensures
        encode_utf8(a + b) == encode_utf8(a) + encode_utf8(b),
    decreases a.len(),
{
    if a.len() == 0 {
        assert(a + b =~= b);
    } else {
        assert((a + b).drop_first() =~= a.drop_first() + b);
        lemma_encode_utf8_concat(a.drop_first(), b);
    }
}

/// Encoding goes through concatenation: a text is encoded piece by piece.
pub proof fn lemma_form_encoded_concat(a: Seq<char>, b: Seq<char>)
    ensures
        form_encoded(a + b) == form_encoded(a) + form_encoded(b),
{
    lemma_encode_utf8_concat(a, b);
    lemma_encoded_bytes_concat(encode_utf8(a), encode_utf8(b));
}

proof fn lemma_hex_digit(nibble: u8)
    requires
        nibble < 16,
    ensures
        is_form_char(hex_digit(nibble)),
{
}

proof fn lemma_encoded_bytes_chars(bytes: Seq<u8>)
    ensures
        forall|i: int| 0 <= i < encoded_bytes(bytes).len() ==> is_form_char(#[trigger] encoded_bytes(bytes)[i]),
    decreases bytes.len(),
{
    if bytes.len() > 0 {
        let byte = bytes[0];
        lemma_encoded_bytes_chars(bytes.drop_first());
        lemma_hex_digit(byte / 16);
        lemma_hex_digit(byte % 16);
        assert forall|i: int| 0 <= i < encoded_bytes(bytes).len() implies is_form_char(
            #[trigger] encoded_bytes(bytes)[i],
        ) by {
            let head = encoded_byte(byte);
            if i >= head.len() {
                assert(encoded_bytes(bytes)[i] == encoded_bytes(bytes.drop_first())[i - head.len()]);
            }
        }
    }
}

/// An encoded text holds kept characters, `+` and `%` only: whatever else stood
/// in the text, `&`, `=`, `?` and `#` among them, is escaped.
pub proof fn lemma_form_encoded_chars(text: Seq<char>)
    ensures
        forall|i: int| 0 <= i < form_encoded(text).len() ==> is_form_char(#[trigger] form_encoded(text)[i]),
{
    lemma_encoded_bytes_chars(encode_utf8(text));
}

proof fn lemma_encoded_single(byte: u8)
    ensures
        encoded_bytes(seq![byte]) == encoded_byte(byte),
{
    let bytes = seq![byte];
    assert(bytes.drop_first() =~= Seq::<u8>::empty());
    assert(encoded_bytes(bytes.drop_first()) =~= Seq::<char>::empty());
    assert(encoded_bytes(bytes) =~= encoded_byte(byte));
}

/// A text that begins with an ASCII character is encoded as that character's
/// byte and what follows.
pub proof fn lemma_form_encoded_ascii_first(text: Seq<char>)
    requires
        text.len() > 0,
        text[0] as u32 <= 0x7f,
    ensures
        form_encoded(text) == encoded_byte(text[0] as u8) + form_encoded(text.drop_first()),
{
    let c = text[0];
    lemma_scalar_ascii(c);
    lemma_encoded_bytes_concat(seq![c as u8], encode_utf8(text.drop_first()));
    lemma_encoded_single(c as u8);
}

/// A text of kept characters is its own encoding.
pub proof fn lemma_form_encoded_plain(text: Seq<char>)
    requires
        is_plain(text),
    ensures
        form_encoded(text) == text,
    decreases text.len(),
{
    if text.len() == 0 {
        assert(form_encoded(text) =~= text);
    } else {
        let rest = text.drop_first();
        assert(is_plain(rest)) by {
            assert forall|i: int| 0 <= i < rest.len() implies (#[trigger] rest[i]) as u32 <= 0x7f
                && is_kept(rest[i] as u8) by {
                assert(rest[i] == text[i + 1]);
            }
        }
        lemma_form_encoded_plain(rest);
        lemma_form_encoded_ascii_first(text);
        let c = text[0];
        lemma_ascii_round_trip(c);
        assert(encoded_byte(c as u8) =~= seq![c]);
        assert(text =~= seq![c] + rest);
    }
}

/// An ASCII character is the character of its byte.
proof fn lemma_ascii_round_trip(c: char)
    requires
        c as u32 <= 0x7f,
    ensures
        (c as u8) as char == c,
{
}

/// An ASCII character is one byte in UTF-8, the character itself.
proof fn lemma_scalar_ascii(c: char)
    requires
        c as u32 <= 0x7f,
    ensures
        encode_scalar(c as u32) == seq![c as u8],
{
    let scalar = c as u32;
    assert(vstd::utf8::leading_byte_width_1(scalar) == scalar as u8) by (bit_vector)
        requires
            scalar <= 0x7f,
    ;
}

} // verus!
