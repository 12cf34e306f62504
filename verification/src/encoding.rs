//! Percent-encoding of a single URL path segment.
//!
//! A caller-supplied id (a video job, an API key) is placed into a route as one
//! path segment, so every UTF-8 byte outside the URL "unreserved" set
//! (`A-Z a-z 0-9 - . _ ~`) is written as `%XX` with upper-case hex digits.

use vstd::prelude::*;
use vstd::utf8::*;

use crate::text::push_char;

verus! {

/// Bytes that stand for themselves in a path segment.
pub open spec fn is_unreserved(b: u8) -> bool {
    ||| 48 <= b <= 57
    ||| 65 <= b <= 90
    ||| 97 <= b <= 122
    ||| b == 45
    ||| b == 46
    ||| b == 95
    ||| b == 126
}

/// Upper-case hex digit of a value below sixteen.
pub open spec fn hex_digit(d: u8) -> char {
    if d < 10 {
        (d + 48) as char
    } else {
        (d + 55) as char
    }
}

/// What one byte becomes in an encoded segment.
pub open spec fn encode_byte(b: u8) -> Seq<char> {
    if is_unreserved(b) {
        seq![b as char]
    } else {
        seq!['%', hex_digit(b / 16), hex_digit(b % 16)]
    }
}

/// Percent-encoding of a byte string, byte by byte.
pub open spec fn percent_encode(bytes: Seq<u8>) -> Seq<char>
    decreases bytes.len(),
{
    if bytes.len() == 0 {
        Seq::empty()
    } else {
        percent_encode(bytes.drop_last()) + encode_byte(bytes.last())
    }
}

/// The encoded form of a path segment: its UTF-8 bytes, percent-encoded.
pub open spec fn encode_segment(segment: Seq<char>) -> Seq<char> {
    percent_encode(encode_utf8(segment))
}

/// The value of a hex digit character (`0-9`, `A-F`).
pub open spec fn hex_value(c: char) -> int {
    if c <= '9' {
        c as int - 48
    } else {
        c as int - 55
    }
}

/// Inverse of [`percent_encode`] on its image, read from the end: a `%` two
/// places before the end opens the last escape.
pub open spec fn percent_decode(chars: Seq<char>) -> Seq<u8>
    decreases chars.len(),
{
    if chars.len() == 0 {
        Seq::empty()
    } else if chars.len() >= 3 && chars[chars.len() - 3] == '%' {
        percent_decode(chars.take(chars.len() - 3)).push(
            (hex_value(chars[chars.len() - 2]) * 16 + hex_value(chars[chars.len() - 1])) as u8,
        )
    } else {
        percent_decode(chars.drop_last()).push(chars.last() as u8)
    }
}

/// A character that may stand in an encoded segment: an unreserved ASCII
/// character or `%`. In particular never `/`, `?` or `#`.
pub open spec fn is_segment_char(c: char) -> bool {
    c == '%' || (c as u32) < 128 && is_unreserved(c as u8)
}

fn hex_digit_char(d: u8) -> (c: char)
    requires
        d < 16,
    ensures
        c == hex_digit(d),
{
    if d < 10 {
        (d + 48) as char
    } else {
        (d + 55) as char
    }
}

fn unreserved(b: u8) -> (r: bool)
    ensures
        r == is_unreserved(b),
{
    (48 <= b && b <= 57) || (65 <= b && b <= 90) || (97 <= b && b <= 122) || b == 45 || b == 46
        || b == 95 || b == 126
}

/// Percent-encode `segment` for use as one path segment: unreserved bytes are
/// kept, every other UTF-8 byte becomes `%XX`.
pub fn enc(segment: &str) -> (out: String)
    ensures
        out@ == encode_segment(segment@),
{
    let bytes = segment.as_bytes();
    let mut out = String::new();
    let n = bytes.len();
    for i in 0..n
        invariant
            n == bytes@.len(),
            bytes@ == encode_utf8(segment@),
            out@ == percent_encode(bytes@.take(i as int)),
    {
        let b = bytes[i];
        assert(bytes@.take(i + 1).drop_last() =~= bytes@.take(i as int));
        assert(bytes@.take(i + 1).last() == b);
        if unreserved(b) {
            push_char(&mut out, b as char);
        } else {
            push_char(&mut out, '%');
            push_char(&mut out, hex_digit_char(b / 16));
            push_char(&mut out, hex_digit_char(b % 16));
        }
        assert(out@ =~= percent_encode(bytes@.take(i + 1)));
    }
    assert(bytes@.take(n as int) =~= bytes@);
    out
}

proof fn encoded_byte_chars(b: u8)
    ensures
        forall|i: int| 0 <= i < encode_byte(b).len() ==> is_segment_char(#[trigger] encode_byte(b)[i]),
{
    if !is_unreserved(b) {
        let hi = b / 16;
        let lo = b % 16;
        assert(hi < 16 && lo < 16);
    }
}

/// Every character of an encoded segment is unreserved ASCII or `%`, so the
/// segment can neither split the path (`/`) nor start a query (`?`) or a
/// fragment (`#`).
pub proof fn encoded_segment_is_one_segment(bytes: Seq<u8>)
    ensures
        forall|i: int|
            0 <= i < percent_encode(bytes).len() ==> is_segment_char(#[trigger] percent_encode(bytes)[i]),
    decreases bytes.len(),
{
    if bytes.len() > 0 {
        encoded_segment_is_one_segment(bytes.drop_last());
        encoded_byte_chars(bytes.last());
        let front = percent_encode(bytes.drop_last());
        let back = encode_byte(bytes.last());
        assert forall|i: int| 0 <= i < percent_encode(bytes).len() implies is_segment_char(
            #[trigger] percent_encode(bytes)[i],
        ) by {
            if i < front.len() {
                assert(percent_encode(bytes)[i] == front[i]);
            } else {
                assert(percent_encode(bytes)[i] == back[i - front.len()]);
            }
        }
    }
}

/// Every `%` in an encoded byte string opens a complete three-character escape.
proof fn percent_opens_escape(bytes: Seq<u8>)
    ensures
        forall|i: int|
            0 <= i < percent_encode(bytes).len() && #[trigger] percent_encode(bytes)[i] == '%'
                ==> i + 2 < percent_encode(bytes).len(),
    decreases bytes.len(),
{
    if bytes.len() > 0 {
        percent_opens_escape(bytes.drop_last());
        let front = percent_encode(bytes.drop_last());
        let back = encode_byte(bytes.last());
        assert forall|i: int|
            0 <= i < percent_encode(bytes).len() && #[trigger] percent_encode(bytes)[i] == '%'
                implies i + 2 < percent_encode(bytes).len() by {
            if i < front.len() {
                assert(percent_encode(bytes)[i] == front[i]);
            } else {
                assert(percent_encode(bytes)[i] == back[i - front.len()]);
                if is_unreserved(bytes.last()) {
                    assert((bytes.last() as char) != '%');
                }
            }
        }
    }
}

/// Decoding undoes encoding: distinct byte strings never share an encoded
/// segment, so two distinct ids never reach the same route.
pub proof fn percent_decode_inverts_encode(bytes: Seq<u8>)
    ensures
        percent_decode(percent_encode(bytes)) == bytes,
    decreases bytes.len(),
{
    if bytes.len() > 0 {
        let b = bytes.last();
        let front = percent_encode(bytes.drop_last());
        let enc = percent_encode(bytes);
        percent_decode_inverts_encode(bytes.drop_last());
        percent_opens_escape(bytes.drop_last());
        if is_unreserved(b) {
            assert(enc =~= front.push(b as char));
            assert(enc.drop_last() =~= front);
            if enc.len() >= 3 {
                assert(enc[enc.len() - 3] == front[front.len() - 2]);
            }
            assert((b as char) as u8 == b);
        } else {
            let hi = b / 16;
            let lo = b % 16;
            assert(enc =~= front + seq!['%', hex_digit(hi), hex_digit(lo)]);
            assert(enc.take(enc.len() - 3) =~= front);
            assert(hex_value(hex_digit(hi)) == hi as int);
            assert(hex_value(hex_digit(lo)) == lo as int);
            assert(hi * 16 + lo == b);
        }
        assert(bytes.drop_last().push(b) =~= bytes);
    }
}

/// A segment made of unreserved ASCII characters only, such as `job-abc`.
pub open spec fn is_plain_segment(segment: Seq<char>) -> bool {
    forall|i: int|
        0 <= i < segment.len() ==> #[trigger] segment[i] <= '\u{7f}' && is_unreserved(
            segment[i] as u8,
        )
}

proof fn unreserved_bytes_kept(bytes: Seq<u8>)
    requires
        forall|i: int| 0 <= i < bytes.len() ==> is_unreserved(#[trigger] bytes[i]),
    ensures
        percent_encode(bytes) =~= bytes.map_values(|b: u8| b as char),
    decreases bytes.len(),
{
    if bytes.len() > 0 {
        unreserved_bytes_kept(bytes.drop_last());
        assert(is_unreserved(bytes[bytes.len() - 1]));
    }
}

/// A segment of unreserved ASCII characters is left exactly as it is.
pub proof fn plain_segment_unchanged(segment: Seq<char>)
    requires
        is_plain_segment(segment),
    ensures
        encode_segment(segment) == segment,
{
    assert forall|i: int| 0 <= i < segment.len() implies '\0' <= #[trigger] segment[i]
        <= '\u{7f}' by {
        char_is_scalar(segment[i]);
        char_u32_cast(segment[i], segment[i] as u32);
    }
    assert(is_ascii_chars(segment));
    is_ascii_chars_encode_utf8(segment);
    let bytes = encode_utf8(segment);
    assert forall|i: int| 0 <= i < bytes.len() implies is_unreserved(#[trigger] bytes[i]) by {
        assert(segment[i] as u8 == bytes[i]);
    }
    unreserved_bytes_kept(bytes);
    assert forall|i: int| 0 <= i < segment.len() implies #[trigger] segment[i] == (bytes[i] as char) by {
        assert(segment[i] as u8 == bytes[i]);
    }
    assert(encode_segment(segment) =~= segment);
}

} // verus!
