//! Percent-encoding of text for the query component of a URL.
//!
//! Letters, digits and `-`, `.`, `_`, `~` stand for themselves; every other
//! byte of the text's UTF-8 form becomes `%` and two hexadecimal digits.

use crate::text::chars_of;
use vstd::prelude::*;
use vstd::string::StringSliceAdditionalSpecFns;
use vstd::utf8::{decode_utf8, encode_utf8, encode_utf8_decode_utf8};

verus! {

/// Whether `byte` stands for itself in a query.
pub open spec fn is_unreserved(byte: u8) -> bool {
    ||| 0x30 <= byte <= 0x39
    ||| 0x41 <= byte <= 0x5a
    ||| 0x61 <= byte <= 0x7a
    ||| byte == 0x2d
    ||| byte == 0x2e
    ||| byte == 0x5f
    ||| byte == 0x7e
}

/// The hexadecimal digit for `value`, in upper case.
pub open spec fn hex_digit(value: u8) -> char
    recommends
        value < 16,
{
    if value < 10 {
        (0x30 + value) as char
    } else {
        (0x37 + value) as char
    }
}

/// The value of the hexadecimal digit `digit`, in either case.
pub open spec fn hex_value(digit: char) -> Option<u8> {
    let code = digit as u32;
    if 0x30 <= code <= 0x39 {
        Some((code - 0x30) as u8)
    } else if 0x41 <= code <= 0x46 {
        Some((code - 0x37) as u8)
    } else if 0x61 <= code <= 0x66 {
        Some((code - 0x57) as u8)
    } else {
        None
    }
}

/// What one byte becomes.
pub open spec fn escaped_byte(byte: u8) -> Seq<char> {
    if is_unreserved(byte) {
        seq![byte as char]
    } else {
        seq!['%', hex_digit(byte / 16), hex_digit(byte % 16)]
    }
}

/// What a sequence of bytes becomes: each byte's escape, in order.
pub open spec fn percent_encoded(bytes: Seq<u8>) -> Seq<char>
    decreases bytes.len(),
{
    if bytes.len() == 0 {
        Seq::empty()
    } else {
        escaped_byte(bytes[0]) + percent_encoded(bytes.skip(1))
    }
}

/// The bytes that an escaped text stands for. A `%` must be followed by two
/// hexadecimal digits; any other character must be ASCII and stands for
/// itself. There are no bytes for a text that breaks either rule.
pub open spec fn percent_decoded(text: Seq<char>) -> Option<Seq<u8>>
    decreases text.len(),
{
    if text.len() == 0 {
        Some(Seq::empty())
    } else if text[0] == '%' {
        if text.len() >= 3 && hex_value(text[1]) is Some && hex_value(text[2]) is Some {
            match percent_decoded(text.skip(3)) {
                Some(rest) => Some(
                    seq![(hex_value(text[1])->0 * 16 + hex_value(text[2])->0) as u8] + rest,
                ),
                None => None,
            }
        } else {
            None
        }
    } else if (text[0] as u32) < 0x80 {
        match percent_decoded(text.skip(1)) {
            Some(rest) => Some(seq![text[0] as u8] + rest),
            None => None,
        }
    } else {
        None
    }
}

/// Whether `c` may stand in an escaped text: a character that stands for
/// itself, hexadecimal digits among them, or `%`.
pub open spec fn is_escape_char(c: char) -> bool {
    (c as u32) < 0x80 && (is_unreserved(c as u8) || c == '%')
}

/// What a text becomes in a query: the escape of its UTF-8 form.
pub open spec fn escaped(text: Seq<char>) -> Seq<char> {
    percent_encoded(encode_utf8(text))
}

/// The text that an escaped text stands for, where it stands for one.
pub open spec fn unescaped(text: Seq<char>) -> Option<Seq<char>> {
    match percent_decoded(text) {
        Some(bytes) => Some(decode_utf8(bytes)),
        None => None,
    }
}

/// The escape of one byte starts with no `%` unless the byte was escaped,
/// and decodes to the byte.
proof fn lemma_escaped_byte(byte: u8)
    ensures
        is_unreserved(byte) ==> escaped_byte(byte).len() == 1 && escaped_byte(byte)[0] != '%' && (
        escaped_byte(byte)[0] as u32) < 0x80 && escaped_byte(byte)[0] as u8 == byte,
        !is_unreserved(byte) ==> escaped_byte(byte).len() == 3 && escaped_byte(byte)[0] == '%'
            && hex_value(escaped_byte(byte)[1]) == Some((byte / 16) as u8) && hex_value(
            escaped_byte(byte)[2],
        ) == Some((byte % 16) as u8),
        forall|i: int|
            0 <= i < escaped_byte(byte).len() ==> is_escape_char(#[trigger] escaped_byte(byte)[i]),
{
    let hi = (byte / 16) as u8;
    let lo = (byte % 16) as u8;
    assert(hi < 16 && lo < 16);
    lemma_hex_digit(hi);
    lemma_hex_digit(lo);
}

/// A hexadecimal digit has the value it was made for.
proof fn lemma_hex_digit(value: u8)
    requires
        value < 16,
    ensures
        hex_value(hex_digit(value)) == Some(value),
        is_escape_char(hex_digit(value)),
{
}

/// Decoding undoes encoding: the escape of any bytes stands for those bytes.
pub proof fn lemma_decode_encoded(bytes: Seq<u8>)
    ensures
        percent_decoded(percent_encoded(bytes)) == Some(bytes),
    decreases bytes.len(),
{
    if bytes.len() > 0 {
        let head = escaped_byte(bytes[0]);
        let tail = percent_encoded(bytes.skip(1));
        let all = percent_encoded(bytes);
        lemma_escaped_byte(bytes[0]);
        lemma_decode_encoded(bytes.skip(1));
        assert(all == head + tail);
        if is_unreserved(bytes[0]) {
            assert(all.skip(1) == tail);
            assert(all[0] == head[0]);
        } else {
            assert(all.skip(3) == tail);
            assert(all[0] == head[0] && all[1] == head[1] && all[2] == head[2]);
            assert((bytes[0] / 16) * 16 + bytes[0] % 16 == bytes[0]);
        }
        assert(seq![bytes[0]] + bytes.skip(1) == bytes);
    }
}

/// An escape holds nothing but characters that may stand in a query.
pub proof fn lemma_encoded_is_safe(bytes: Seq<u8>)
    ensures
        forall|i: int|
            0 <= i < percent_encoded(bytes).len() ==> is_escape_char(
                #[trigger] percent_encoded(bytes)[i],
            ),
    decreases bytes.len(),
{
    if bytes.len() > 0 {
        lemma_escaped_byte(bytes[0]);
        lemma_encoded_is_safe(bytes.skip(1));
        let head = escaped_byte(bytes[0]);
        let tail = percent_encoded(bytes.skip(1));
        assert forall|i: int| 0 <= i < percent_encoded(bytes).len() implies is_escape_char(
            #[trigger] percent_encoded(bytes)[i],
        ) by {
            if i < head.len() {
                assert(percent_encoded(bytes)[i] == head[i]);
            } else {
                assert(percent_encoded(bytes)[i] == tail[i - head.len()]);
            }
        }
    }
}

/// Unescaping undoes escaping: whatever the text, spaces and letters outside
/// ASCII included, its escape stands for the text itself.
pub proof fn lemma_unescape_escaped(text: Seq<char>)
    ensures
        unescaped(escaped(text)) == Some(text),
{
    lemma_decode_encoded(encode_utf8(text));
    encode_utf8_decode_utf8(text);
}

/// The hexadecimal digit for `value`, in upper case.
fn hex_digit_of(value: u8) -> (digit: char)
    requires
        value < 16,
    ensures
        digit == hex_digit(value),
{
    if value < 10 {
        (0x30 + value) as char
    } else {
        (0x37 + value) as char
    }
}

/// The value of the hexadecimal digit `digit`, in either case.
fn hex_value_of(digit: char) -> (value: Option<u8>)
    ensures
        value == hex_value(digit),
        value matches Some(v) ==> v < 16,
{
    let code = digit as u32;
    if 0x30 <= code && code <= 0x39 {
        Some((code - 0x30) as u8)
    } else if 0x41 <= code && code <= 0x46 {
        Some((code - 0x37) as u8)
    } else if 0x61 <= code && code <= 0x66 {
        Some((code - 0x57) as u8)
    } else {
        None
    }
}

/// Whether `byte` stands for itself in a query.
fn stands_for_itself(byte: u8) -> (plain: bool)
    ensures
        plain == is_unreserved(byte),
{
    (0x30 <= byte && byte <= 0x39) || (0x41 <= byte && byte <= 0x5a) || (0x61 <= byte && byte
        <= 0x7a) || byte == 0x2d || byte == 0x2e || byte == 0x5f || byte == 0x7e
}

/// Escapes `text` for the query component of a URL.
pub fn percent_encode(text: &str) -> (out: String)
    ensures
        out@ == escaped(text@),
        unescaped(out@) == Some(text@),
        forall|i: int| 0 <= i < out@.len() ==> is_escape_char(#[trigger] out@[i]),
{
    let bytes = text.as_bytes();
    let mut out = String::new();
    let mut i: usize = 0;
    assert(bytes@.skip(0) == bytes@);
    while i < bytes.len()
        invariant
            i <= bytes.len(),
            out@ + percent_encoded(bytes@.skip(i as int)) == percent_encoded(bytes@),
        decreases bytes.len() - i,
    {
        let byte = bytes[i];
        let ghost before = out@;
        let ghost rest = bytes@.skip(i as int);
        assert(rest[0] == byte);
        assert(rest.skip(1) == bytes@.skip(i + 1));
        if stands_for_itself(byte) {
            out.push(byte as char);
        } else {
            out.push('%');
            out.push(hex_digit_of(byte / 16));
            out.push(hex_digit_of(byte % 16));
        }
        assert(out@ == before + escaped_byte(byte));
        assert(out@ + percent_encoded(bytes@.skip(i + 1)) == before + (escaped_byte(byte)
            + percent_encoded(bytes@.skip(i + 1))));
        i += 1;
    }
    assert(percent_encoded(bytes@.skip(i as int)) == Seq::<char>::empty());
    assert(out@ + Seq::<char>::empty() == out@);
    proof {
        lemma_unescape_escaped(text@);
        lemma_encoded_is_safe(bytes@);
    }
    out
}

/// The bytes that the escaped `text` stands for, if it stands for any.
pub fn percent_decode(text: &str) -> (out: Option<Vec<u8>>)
    ensures
        match out {
            Some(bytes) => percent_decoded(text@) == Some(bytes@),
            None => percent_decoded(text@) is None,
        },
{
    let chars = chars_of(text);
    let mut out: Vec<u8> = Vec::new();
    let mut i: usize = 0;
    assert(chars@.skip(0) == chars@);
    while i < chars.len()
        invariant
            i <= chars.len(),
            chars@ == text@,
            match percent_decoded(chars@.skip(i as int)) {
                Some(rest) => percent_decoded(chars@) == Some(out@ + rest),
                None => percent_decoded(chars@) is None,
            },
        decreases chars.len() - i,
    {
        let ghost rest = chars@.skip(i as int);
        let ghost before = out@;
        let c = chars[i];
        assert(rest[0] == c);
        if c == '%' {
            if chars.len() - i < 3 {
                return None;
            }
            assert(rest[1] == chars@[i + 1] && rest[2] == chars@[i + 2]);
            assert(rest.skip(3) == chars@.skip(i + 3));
            let high = match hex_value_of(chars[i + 1]) {
                Some(v) => v,
                None => {
                    return None;
                },
            };
            let low = match hex_value_of(chars[i + 2]) {
                Some(v) => v,
                None => {
                    return None;
                },
            };
            out.push(high * 16 + low);
            assert forall|tail: Seq<u8>| #[trigger]
                (before + (seq![(high * 16 + low) as u8] + tail)) == out@ + tail by {
                assert(before + (seq![(high * 16 + low) as u8] + tail) =~= out@ + tail);
            }
            i += 3;
        } else if (c as u32) < 0x80 {
            assert(rest.skip(1) == chars@.skip(i + 1));
            out.push(c as u8);
            assert forall|tail: Seq<u8>| #[trigger] (before + (seq![c as u8] + tail)) == out@
                + tail by {
                assert(before + (seq![c as u8] + tail) =~= out@ + tail);
            }
            i += 1;
        } else {
            return None;
        }
    }
    assert(chars@.skip(i as int).len() == 0);
    assert(out@ + Seq::<u8>::empty() == out@);
    Some(out)
}

} // verus!
