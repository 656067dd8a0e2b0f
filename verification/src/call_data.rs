//! Hexadecimal call data: the `0x`-prefixed text in which encoded calls are written
//! out, and read back either from the command line or from a file.

use vstd::prelude::*;
use crate::text::{
    has_hex_prefix, is_white_space, push_char, starts_with_hex_prefix, strip_hex_prefixes,
    strip_hex_prefixes_from, trim, trim_end, trim_start, trim_whitespace,
};

verus! {

/// A character that denotes a hexadecimal digit, in either case.
pub open spec fn is_hex_digit(c: char) -> bool {
    ||| '0' <= c && c <= '9'
    ||| 'a' <= c && c <= 'f'
    ||| 'A' <= c && c <= 'F'
}

/// The value of a hexadecimal digit.
pub open spec fn hex_digit_value(c: char) -> int {
    if '0' <= c && c <= '9' {
        c as int - 48
    } else if 'a' <= c && c <= 'f' {
        c as int - 87
    } else {
        c as int - 55
    }
}

/// The bytes that a hexadecimal text denotes, two digits per byte with the high
/// nibble first; `None` when the length is odd or a character is not a digit.
pub open spec fn hex_decode_spec(s: Seq<char>) -> Option<Seq<u8>>
    decreases s.len(),
{
    if s.len() == 0 {
        Some(Seq::empty())
    } else if s.len() == 1 || !is_hex_digit(s[0]) || !is_hex_digit(s[1]) {
        None
    } else {
        match hex_decode_spec(s.skip(2)) {
            Some(rest) => Some(
                seq![(16 * hex_digit_value(s[0]) + hex_digit_value(s[1])) as u8] + rest,
            ),
            None => None,
        }
    }
}

/// The lower-case hexadecimal digit for a value below 16.
pub open spec fn nibble_char(n: int) -> char {
    if n < 10 {
        (48 + n) as char
    } else {
        (87 + n) as char
    }
}

/// The lower-case hexadecimal text of a byte string, two digits per byte.
pub open spec fn hex_encode_spec(b: Seq<u8>) -> Seq<char>
    decreases b.len(),
{
    if b.len() == 0 {
        Seq::empty()
    } else {
        seq![nibble_char(b[0] as int / 16), nibble_char(b[0] as int % 16)] + hex_encode_spec(b.drop_first())
    }
}

/// The text in which call data is written: `0x` followed by its lower-case hex digits.
pub open spec fn call_data_text_spec(encoded: Seq<u8>) -> Seq<char> {
    seq!['0', 'x'] + hex_encode_spec(encoded)
}

/// What call data given directly on the command line denotes.
pub open spec fn inline_call_data_spec(text: Seq<char>) -> Option<Seq<u8>> {
    hex_decode_spec(strip_hex_prefixes(text))
}

/// What the contents of a call data file denote.
pub open spec fn call_data_file_spec(contents: Seq<char>) -> Option<Seq<u8>> {
    hex_decode_spec(strip_hex_prefixes(trim(contents)))
}

/// `hex::decode`, with the outside error turned into `None`.
///
/// The crate decodes the UTF-8 bytes of the text: it refuses an odd length and any
/// byte that is not an ASCII hex digit, and otherwise yields one byte per pair of
/// digits. A character outside ASCII is never a hex digit, so on characters this is
/// exactly `hex_decode_spec`.
#[verifier::external_body]
fn hex_decode(s: &str) -> (res: Option<Vec<u8>>)
    ensures
        res is Some <==> hex_decode_spec(s@) is Some,
        res matches Some(b) ==> b@ == hex_decode_spec(s@)->0,
{
    hex::decode(s).ok()
}

/// Decodes hexadecimal text that has no prefix.
pub fn decode_hex_text(digits: &str) -> (res: Option<Vec<u8>>)
    ensures
        res is Some <==> hex_decode_spec(digits@) is Some,
        res matches Some(b) ==> b@ == hex_decode_spec(digits@)->0,
{
    hex_decode(digits)
}

/// `hex::encode`: the lower-case hexadecimal text of the bytes, two digits per byte.
#[verifier::external_body]
fn hex_encode(data: &[u8]) -> (res: String)
    ensures
        res@ == hex_encode_spec(data@),
{
    hex::encode(data)
}

/// The text to write out for call data: `0x` followed by its lower-case hex digits.
pub fn call_data_text(encoded: &[u8]) -> (res: String)
    ensures
        res@ == call_data_text_spec(encoded@),
{
    let digits = hex_encode(encoded);
    let mut res = String::new();
    push_char(&mut res, '0');
    push_char(&mut res, 'x');
    res.append(digits.as_str());
    assert(res@ =~= call_data_text_spec(encoded@));
    res
}

/// Whether a proposal given on the command line is call data itself (it starts with
/// `0x`) rather than the path of a file that holds it.
pub fn is_inline_call_data(proposal: &str) -> (b: bool)
    ensures
        b == has_hex_prefix(proposal@),
{
    starts_with_hex_prefix(proposal)
}

/// Decodes call data given on the command line: every leading `0x` is dropped and the
/// rest must be hexadecimal.
pub fn decode_inline_call_data(proposal: &str) -> (res: Option<Vec<u8>>)
    ensures
        res is Some <==> inline_call_data_spec(proposal@) is Some,
        res matches Some(b) ==> b@ == inline_call_data_spec(proposal@)->0,
{
    hex_decode(strip_hex_prefixes_from(proposal))
}

/// Decodes the contents of a call data file: surrounding whitespace and every leading
/// `0x` are dropped and the rest must be hexadecimal.
pub fn decode_call_data_file(contents: &str) -> (res: Option<Vec<u8>>)
    ensures
        res is Some <==> call_data_file_spec(contents@) is Some,
        res matches Some(b) ==> b@ == call_data_file_spec(contents@)->0,
{
    hex_decode(strip_hex_prefixes_from(trim_whitespace(contents)))
}

proof fn lemma_nibble_char(n: int)
    requires
        0 <= n < 16,
    ensures
        is_hex_digit(nibble_char(n)),
        hex_digit_value(nibble_char(n)) == n,
        nibble_char(n) != 'x',
        !is_white_space(nibble_char(n)),
{
}

/// Every character of a hex encoding is a lower-case hex digit, and there are two per byte.
pub proof fn lemma_hex_encode_digits(b: Seq<u8>)
    ensures
        hex_encode_spec(b).len() == 2 * b.len(),
        forall|i: int|
            0 <= i < hex_encode_spec(b).len() ==> is_hex_digit(#[trigger] hex_encode_spec(b)[i])
                && hex_encode_spec(b)[i] != 'x' && !is_white_space(hex_encode_spec(b)[i]),
    decreases b.len(),
{
    if b.len() > 0 {
        lemma_nibble_char(b[0] as int / 16);
        lemma_nibble_char(b[0] as int % 16);
        lemma_hex_encode_digits(b.drop_first());
    }
}

/// Decoding the hex encoding of any bytes gives the bytes back.
pub proof fn lemma_hex_roundtrip(b: Seq<u8>)
    ensures
        hex_decode_spec(hex_encode_spec(b)) == Some(b),
    decreases b.len(),
{
    if b.len() > 0 {
        let hi = b[0] as int / 16;
        let lo = b[0] as int % 16;
        lemma_nibble_char(hi as int);
        lemma_nibble_char(lo as int);
        lemma_hex_roundtrip(b.drop_first());
        let e = hex_encode_spec(b);
        assert(e.skip(2) =~= hex_encode_spec(b.drop_first()));
        assert(seq![b[0]] + b.drop_first() =~= b);
    }
}

/// Call data written out as text is read back unchanged, both when the text is given
/// on the command line and when it is read from a file.
pub proof fn lemma_call_data_roundtrip(encoded: Seq<u8>)
    ensures
        has_hex_prefix(call_data_text_spec(encoded)),
        inline_call_data_spec(call_data_text_spec(encoded)) == Some(encoded),
        call_data_file_spec(call_data_text_spec(encoded)) == Some(encoded),
{
    let digits = hex_encode_spec(encoded);
    let text = call_data_text_spec(encoded);
    lemma_hex_encode_digits(encoded);
    lemma_hex_roundtrip(encoded);
    assert(text.skip(2) =~= digits);
    assert(!has_hex_prefix(digits));
    assert(strip_hex_prefixes(digits) == digits);
    assert(has_hex_prefix(text));
    assert(strip_hex_prefixes(text) == strip_hex_prefixes(text.skip(2)));
    assert(trim_start(text) == text);
    assert(trim_end(text) == text) by {
        if digits.len() > 0 {
            assert(text.last() == digits[digits.len() - 1]);
        }
    }
}

} // verus!
