//! Percent-encoding of text that is placed inside a URL query.

use vstd::prelude::*;
use vstd::utf8::*;

verus! {

/// The bytes that stand for themselves in a query component:
/// ASCII letters, digits, `-`, `.`, `_` and `~`.
pub open spec fn is_unreserved(b: u8) -> bool {
    ||| 0x30 <= b <= 0x39
    ||| 0x41 <= b <= 0x5a
    ||| 0x61 <= b <= 0x7a
    ||| b == 0x2d
    ||| b == 0x2e
    ||| b == 0x5f
    ||| b == 0x7e
}

/// The upper-case hexadecimal digit of a value below sixteen.
pub open spec fn hex_digit(n: u8) -> char
    recommends
        n < 16,
{
    if n < 10 {
        (0x30 + n) as u8 as char
    } else {
        (0x37 + n) as u8 as char
    }
}

/// What one byte becomes: itself if unreserved, otherwise `%` and two
/// upper-case hexadecimal digits.
pub open spec fn escape_byte(b: u8) -> Seq<char> {
    if is_unreserved(b) {
        seq![b as char]
    } else {
        seq!['%', hex_digit(b / 16), hex_digit(b % 16)]
    }
}

/// The percent-encoding of a byte string: the escapes of its bytes in order.
pub open spec fn percent_encode(bytes: Seq<u8>) -> Seq<char>
    decreases bytes.len(),
{
    if bytes.len() == 0 {
        Seq::empty()
    } else {
        escape_byte(bytes.first()) + percent_encode(bytes.drop_first())
    }
}

/// The percent-encoding of a text: that of its UTF-8 bytes.
pub open spec fn percent_encode_text(text: Seq<char>) -> Seq<char> {
    percent_encode(encode_utf8(text))
}

/// A character that is an unreserved byte.
pub open spec fn is_unreserved_char(c: char) -> bool {
    '\0' <= c <= '\u{7f}' && is_unreserved(c as u8)
}

/// A text made of unreserved characters only.
pub open spec fn is_unreserved_text(text: Seq<char>) -> bool {
    forall|i: int| 0 <= i < text.len() ==> is_unreserved_char(#[trigger] text[i])
}

/// A character that may appear in percent-encoded output.
pub open spec fn is_query_safe(c: char) -> bool {
    c == '%' || is_unreserved_char(c)
}

/// The value of a hexadecimal digit, of either case.
pub open spec fn hex_value(c: char) -> int {
    if '0' <= c <= '9' {
        c as int - 0x30
    } else if 'A' <= c <= 'F' {
        c as int - 0x37
    } else if 'a' <= c <= 'f' {
        c as int - 0x57
    } else {
        0
    }
}

/// The bytes that a percent-encoded text stands for: `%` and two digits
/// give one byte, every other character gives its own.
pub open spec fn percent_decode(text: Seq<char>) -> Seq<u8>
    decreases text.len(),
{
    if text.len() == 0 {
        Seq::empty()
    } else if text[0] == '%' && text.len() >= 3 {
        seq![(hex_value(text[1]) * 16 + hex_value(text[2])) as u8] + percent_decode(text.skip(3))
    } else {
        seq![text[0] as u8] + percent_decode(text.skip(1))
    }
}

/// Calls `urlencoding::encode` and takes the result as an owned string.
///
/// Trusted: the result is the percent-encoding of the argument's UTF-8
/// bytes, every byte but letters, digits, `-`, `.`, `_` and `~` written as
/// `%` and two upper-case hexadecimal digits.
#[verifier::external_body]
pub(crate) fn encode(text: &str) -> (out: String)
    ensures
        out@ == percent_encode_text(text@),
{
    urlencoding::encode(text).into_owned()
}

/// Decoding undoes encoding: the bytes that went in come out again.
pub proof fn encoding_is_reversible(bytes: Seq<u8>)
    ensures
        percent_decode(percent_encode(bytes)) == bytes,
    decreases bytes.len(),
{
    if bytes.len() > 0 {
        let b = bytes.first();
        let rest = bytes.drop_first();
        let tail = percent_encode(rest);
        let whole = percent_encode(bytes);
        encoding_is_reversible(rest);
        if is_unreserved(b) {
            assert(whole.skip(1) =~= tail);
            assert(whole[0] == b as char);
            assert(whole[0] as u8 == b);
        } else {
            assert(whole.skip(3) =~= tail);
            assert(whole[0] == '%');
            assert(hex_value(hex_digit(b / 16)) == b / 16);
            assert(hex_value(hex_digit(b % 16)) == b % 16);
            assert(hex_value(whole[1]) * 16 + hex_value(whole[2]) == b);
        }
        assert(percent_decode(whole) =~= seq![b] + percent_decode(tail));
        assert(seq![b] + rest =~= bytes);
    }
}

/// Encoded text holds nothing but `%` and unreserved characters, so it can
/// stand inside a query without ending a parameter.
pub proof fn encoding_is_query_safe(bytes: Seq<u8>)
    ensures
        forall|i: int|
            0 <= i < percent_encode(bytes).len() ==> is_query_safe(
                #[trigger] percent_encode(bytes)[i],
            ),
    decreases bytes.len(),
{
    if bytes.len() > 0 {
        let b = bytes.first();
        let head = escape_byte(b);
        let tail = percent_encode(bytes.drop_first());
        encoding_is_query_safe(bytes.drop_first());
        assert forall|i: int| 0 <= i < head.len() implies is_query_safe(#[trigger] head[i]) by {
            if !is_unreserved(b) {
                assert(is_unreserved_char(hex_digit(b / 16)));
                assert(is_unreserved_char(hex_digit(b % 16)));
            }
        }
        assert forall|i: int| 0 <= i < percent_encode(bytes).len() implies is_query_safe(
            #[trigger] percent_encode(bytes)[i],
        ) by {
            if i < head.len() {
                assert(percent_encode(bytes)[i] == head[i]);
            } else {
                assert(percent_encode(bytes)[i] == tail[i - head.len()]);
            }
        }
    }
}

/// Bytes that are all unreserved are encoded as themselves.
pub proof fn unreserved_bytes_are_kept(bytes: Seq<u8>)
    requires
        forall|i: int| 0 <= i < bytes.len() ==> is_unreserved(#[trigger] bytes[i]),
    ensures
        percent_encode(bytes) == Seq::new(bytes.len(), |i: int| bytes[i] as char),
    decreases bytes.len(),
{
    if bytes.len() > 0 {
        unreserved_bytes_are_kept(bytes.drop_first());
        assert(is_unreserved(bytes[0]));
    }
    assert(percent_encode(bytes) =~= Seq::new(bytes.len(), |i: int| bytes[i] as char));
}

/// A text of unreserved characters is encoded as itself.
pub proof fn unreserved_text_is_kept(text: Seq<char>)
    requires
        is_unreserved_text(text),
    ensures
        percent_encode_text(text) == text,
{
    let bytes = encode_utf8(text);
    assert(is_ascii_chars(text));
    is_ascii_chars_encode_utf8(text);
    assert forall|i: int| 0 <= i < bytes.len() implies is_unreserved(#[trigger] bytes[i]) by {
        assert(is_unreserved_char(text[i]));
        assert(bytes[i] == text[i] as u8);
    }
    unreserved_bytes_are_kept(bytes);
    assert forall|i: int| 0 <= i < text.len() implies bytes[i] as char == text[i] by {
        assert(is_unreserved_char(text[i]));
        assert(bytes[i] == text[i] as u8);
    }
    assert(percent_encode(bytes) =~= text);
}

} // verus!
