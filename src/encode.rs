//! Percent-encoding of the values placed in a query string: every byte of a
//! value's UTF-8 form that is not an unreserved character is written `%XX`.
use vstd::prelude::*;
use vstd::utf8::encode_utf8;

verus! {

/// The unreserved characters of a URI: letters, digits, `-`, `.`, `_`, `~`.
pub open spec fn is_unreserved(b: u8) -> bool {
    (0x41 <= b <= 0x5A) || (0x61 <= b <= 0x7A) || (0x30 <= b <= 0x39) || b == 0x2D || b == 0x2E
        || b == 0x5F || b == 0x7E
}

/// The upper-case hexadecimal digit of a value below sixteen.
pub open spec fn hex_digit(n: u8) -> char {
    if n < 10 {
        (0x30 + n) as char
    } else {
        (0x37 + n) as char
    }
}

/// One byte as written: itself if unreserved, else `%` and two hex digits.
pub open spec fn encoded_byte(b: u8) -> Seq<char> {
    if is_unreserved(b) {
        seq![b as char]
    } else {
        seq!['%', hex_digit(b / 16), hex_digit(b % 16)]
    }
}

/// A byte sequence, each byte written in turn.
pub open spec fn encoded_bytes(bytes: Seq<u8>) -> Seq<char>
    decreases bytes.len(),
{
    if bytes.len() == 0 {
        Seq::empty()
    } else {
        encoded_bytes(bytes.drop_last()) + encoded_byte(bytes.last())
    }
}

/// A value as it stands in a query string: its UTF-8 bytes, percent-encoded.
pub open spec fn encoded(s: Seq<char>) -> Seq<char> {
    encoded_bytes(encode_utf8(s))
}

/// Whether a character may stand inside a query-string value without being
/// read as a separator (`&`, `=`, `?` or `#`).
pub open spec fn is_value_char(c: char) -> bool {
    c != '&' && c != '=' && c != '?' && c != '#'
}

proof fn lemma_encoded_bytes_are_value_chars(bytes: Seq<u8>)
    ensures
        forall|k: int|
            0 <= k < encoded_bytes(bytes).len() ==> is_value_char(#[trigger] encoded_bytes(bytes)[k]),
    decreases bytes.len(),
{
    if bytes.len() > 0 {
        lemma_encoded_bytes_are_value_chars(bytes.drop_last());
        let b = bytes.last();
        let head = encoded_bytes(bytes.drop_last());
        let tail = encoded_byte(b);
        assert forall|k: int| 0 <= k < tail.len() implies is_value_char(#[trigger] tail[k]) by {
            if is_unreserved(b) {
                assert(tail[k] == b as char);
            } else {
                assert(b / 16 < 16 && b % 16 < 16);
            }
        }
        assert forall|k: int|
            0 <= k < encoded_bytes(bytes).len() implies is_value_char(
            #[trigger] encoded_bytes(bytes)[k],
        ) by {
            if k < head.len() {
                assert(encoded_bytes(bytes)[k] == head[k]);
            } else {
                assert(encoded_bytes(bytes)[k] == tail[k - head.len()]);
            }
        }
    }
}

/// An encoded value holds no `&`, `=`, `?` or `#`: in a query string built
/// from encoded values, every separator is one that the builder put there,
/// so a value can never run into the next one.
pub proof fn lemma_encoded_has_no_separators(s: Seq<char>)
    ensures
        forall|k: int| 0 <= k < encoded(s).len() ==> is_value_char(#[trigger] encoded(s)[k]),
{
    lemma_encoded_bytes_are_value_chars(encode_utf8(s));
}

/// Relies on std's `String::push`: it appends the one character to the end.
#[verifier::external_body]
fn push_char(s: &mut String, c: char)
    ensures
        final(s)@ == old(s)@.push(c),
{
    s.push(c)
}

fn unreserved(b: u8) -> (r: bool)
    ensures
        r == is_unreserved(b),
{
    (0x41 <= b && b <= 0x5A) || (0x61 <= b && b <= 0x7A) || (0x30 <= b && b <= 0x39) || b == 0x2D
        || b == 0x2E || b == 0x5F || b == 0x7E
}

fn hex(n: u8) -> (r: char)
    requires
        n < 16,
    ensures
        r == hex_digit(n),
{
    if n < 10 {
        (0x30 + n) as char
    } else {
        (0x37 + n) as char
    }
}

/// Appends `value`, percent-encoded, to `out`.
pub fn append_encoded(out: &mut String, value: &str)
    ensures
        final(out)@ == old(out)@ + encoded(value@),
{
    let bytes = value.as_bytes();
    let ghost start = out@;
    let mut i: usize = 0;
    while i < bytes.len()
        invariant
            i <= bytes@.len(),
            bytes@ == encode_utf8(value@),
            out@ == start + encoded_bytes(bytes@.take(i as int)),
        decreases bytes@.len() - i,
    {
        let b = bytes[i];
        if unreserved(b) {
            push_char(out, b as char);
        } else {
            push_char(out, '%');
            push_char(out, hex(b / 16));
            push_char(out, hex(b % 16));
        }
        assert(bytes@.take(i + 1).drop_last() == bytes@.take(i as int));
        assert(bytes@.take(i + 1).last() == b);
        i = i + 1;
    }
    assert(bytes@.take(bytes@.len() as int) == bytes@);
}

/// `value`, percent-encoded.
pub fn url_encode(value: &str) -> (r: String)
    ensures
        r@ == encoded(value@),
{
    let mut out = String::new();
    append_encoded(&mut out, value);
    out
}

} // verus!
