//! Hexadecimal and base64 presentation of byte buffers.
use base64::Engine;
use vstd::prelude::*;
use vstd::string::StringExecFns;

verus! {

/// A nibble rendered as a lowercase hexadecimal digit.
pub open spec fn hex_char(n: u8) -> char
    recommends
        n < 16,
{
    if n < 10 {
        (('0' as u8) + n) as char
    } else {
        (('a' as u8) + (n - 10)) as char
    }
}

/// The value of a lowercase hexadecimal digit, inverse of `hex_char`.
pub open spec fn hex_val(c: char) -> u8 {
    if '0' <= c && c <= '9' {
        ((c as u8) - ('0' as u8)) as u8
    } else {
        ((c as u8) - ('a' as u8) + 10) as u8
    }
}

/// Lowercase hexadecimal rendering: two digits per byte, high nibble first.
pub open spec fn hex_encoding(s: Seq<u8>) -> Seq<char>
    decreases s.len(),
{
    if s.len() == 0 {
        Seq::empty()
    } else {
        seq![hex_char((s[0] / 16) as u8), hex_char((s[0] % 16) as u8)] + hex_encoding(s.skip(1))
    }
}

/// Reads a hexadecimal rendering back, two digits to a byte.
pub open spec fn hex_decoding(s: Seq<char>) -> Seq<u8>
    decreases s.len(),
{
    if s.len() < 2 {
        Seq::empty()
    } else {
        seq![(hex_val(s[0]) * 16 + hex_val(s[1])) as u8] + hex_decoding(s.skip(2))
    }
}

/// Each nibble's digit decodes back to the nibble.
pub proof fn lemma_hex_char_inverts(n: u8)
    requires
        n < 16,
    ensures
        hex_val(hex_char(n)) == n,
{
}

/// A six-bit group rendered as a standard-alphabet base64 character.
pub open spec fn base64_char(n: u8) -> char
    recommends
        n < 64,
{
    if n < 26 {
        (('A' as u8) + n) as char
    } else if n < 52 {
        (('a' as u8) + (n - 26)) as char
    } else if n < 62 {
        (('0' as u8) + (n - 52)) as char
    } else if n == 62 {
        '+'
    } else {
        '/'
    }
}

/// The six-bit value of a standard-alphabet base64 character, inverse of
/// `base64_char`.
pub open spec fn base64_val(c: char) -> u8 {
    if 'A' <= c && c <= 'Z' {
        ((c as u8) - ('A' as u8)) as u8
    } else if 'a' <= c && c <= 'z' {
        ((c as u8) - ('a' as u8) + 26) as u8
    } else if '0' <= c && c <= '9' {
        ((c as u8) - ('0' as u8) + 52) as u8
    } else if c == '+' {
        62u8
    } else {
        63u8
    }
}

/// Standard base64 rendering: four characters per three bytes, a one-byte
/// tail padded with "==", a two-byte tail with "=".
pub open spec fn base64_encoding(s: Seq<u8>) -> Seq<char>
    decreases s.len(),
{
    if s.len() == 0 {
        Seq::empty()
    } else if s.len() == 1 {
        seq![
            base64_char((s[0] / 4) as u8),
            base64_char(((s[0] % 4) * 16) as u8),
            '=',
            '=',
        ]
    } else if s.len() == 2 {
        seq![
            base64_char((s[0] / 4) as u8),
            base64_char(((s[0] % 4) * 16 + s[1] / 16) as u8),
            base64_char(((s[1] % 16) * 4) as u8),
            '=',
        ]
    } else {
        seq![
            base64_char((s[0] / 4) as u8),
            base64_char(((s[0] % 4) * 16 + s[1] / 16) as u8),
            base64_char(((s[1] % 16) * 4 + s[2] / 64) as u8),
            base64_char((s[2] % 64) as u8),
        ] + base64_encoding(s.skip(3))
    }
}

/// Reads a standard base64 rendering back, four characters to a group, the
/// padding characters of the last group marking how many bytes it holds.
pub open spec fn base64_decoding(s: Seq<char>) -> Seq<u8>
    decreases s.len(),
{
    if s.len() < 4 {
        Seq::empty()
    } else if s[2] == '=' {
        seq![(base64_val(s[0]) * 4 + base64_val(s[1]) / 16) as u8]
    } else if s[3] == '=' {
        seq![
            (base64_val(s[0]) * 4 + base64_val(s[1]) / 16) as u8,
            ((base64_val(s[1]) % 16) * 16 + base64_val(s[2]) / 4) as u8,
        ]
    } else {
        seq![
            (base64_val(s[0]) * 4 + base64_val(s[1]) / 16) as u8,
            ((base64_val(s[1]) % 16) * 16 + base64_val(s[2]) / 4) as u8,
            ((base64_val(s[2]) % 4) * 64 + base64_val(s[3])) as u8,
        ] + base64_decoding(s.skip(4))
    }
}

/// Each six-bit group's character decodes back to the group.
pub proof fn lemma_base64_char_inverts(n: u8)
    requires
        n < 64,
    ensures
        base64_val(base64_char(n)) == n,
        base64_char(n) != '=',
{
}

/// Decoding a base64 rendering recovers the bytes it was made from.
pub proof fn lemma_base64_round_trip(s: Seq<u8>)
    ensures
        base64_decoding(base64_encoding(s)) == s,
    decreases s.len(),
{
    if s.len() == 0 {
        assert(base64_decoding(base64_encoding(s)) =~= s);
    } else if s.len() == 1 {
        lemma_base64_char_inverts((s[0] / 4) as u8);
        lemma_base64_char_inverts(((s[0] % 4) * 16) as u8);
        assert(base64_decoding(base64_encoding(s)) =~= s);
    } else if s.len() == 2 {
        lemma_base64_char_inverts((s[0] / 4) as u8);
        lemma_base64_char_inverts(((s[0] % 4) * 16 + s[1] / 16) as u8);
        lemma_base64_char_inverts(((s[1] % 16) * 4) as u8);
        assert(base64_decoding(base64_encoding(s)) =~= s);
    } else {
        lemma_base64_char_inverts((s[0] / 4) as u8);
        lemma_base64_char_inverts(((s[0] % 4) * 16 + s[1] / 16) as u8);
        lemma_base64_char_inverts(((s[1] % 16) * 4 + s[2] / 64) as u8);
        lemma_base64_char_inverts((s[2] % 64) as u8);
        lemma_base64_round_trip(s.skip(3));
        assert(base64_encoding(s).skip(4) =~= base64_encoding(s.skip(3)));
        assert(base64_decoding(base64_encoding(s)) =~= s);
    }
}

/// Relies on hex::encode: lowercase hexadecimal, two digits per byte, high
/// nibble first.
#[verifier::external_body]
fn hex_encode(data: &Vec<u8>) -> (r: String)
    ensures
        r@ == hex_encoding(data@),
{
    hex::encode(data.as_slice())
}

/// Relies on base64's STANDARD engine (Engine::encode): the standard
/// alphabet with '=' padding.
#[verifier::external_body]
fn base64_encode(data: &Vec<u8>) -> (r: String)
    ensures
        r@ == base64_encoding(data@),
{
    base64::engine::general_purpose::STANDARD.encode(data.as_slice())
}

/// Encodes a buffer for printing: standard base64 when `format` is "base64",
/// lowercase hexadecimal for "hex" and equally for any other value.
pub fn format_value(data: &Vec<u8>, format: &str) -> (r: String)
    ensures
        format@ == "base64"@ ==> r@ == base64_encoding(data@),
        format@ != "base64"@ ==> r@ == hex_encoding(data@),
{
    let requested = String::from_str(format);
    let base64_name = String::from_str("base64");
    if requested.eq(&base64_name) {
        base64_encode(data)
    } else {
        hex_encode(data)
    }
}

/// Decoding a hexadecimal rendering recovers the bytes it was made from.
pub proof fn lemma_hex_round_trip(s: Seq<u8>)
    ensures
        hex_decoding(hex_encoding(s)) == s,
    decreases s.len(),
{
    if s.len() == 0 {
        assert(hex_decoding(hex_encoding(s)) =~= s);
    } else {
        lemma_hex_char_inverts((s[0] / 16) as u8);
        lemma_hex_char_inverts((s[0] % 16) as u8);
        lemma_hex_round_trip(s.skip(1));
        assert(hex_encoding(s).skip(2) =~= hex_encoding(s.skip(1)));
        assert(hex_decoding(hex_encoding(s)) =~= s);
    }
}

} // verus!
