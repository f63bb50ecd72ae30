//! Hex encoding and decoding of binary payloads.
//!
//! Every binary field crosses the HTTP boundary as a hex string; this module
//! pins the exact encoding, wraps the `hex` crate behind contracts that state
//! it, and proves that encoding and decoding invert each other.

use vstd::prelude::*;

verus! {

/// Value of a hex digit character; 16 when the character is not a hex digit.
pub open spec fn hex_char_value(c: char) -> int {
    if '0' <= c && c <= '9' {
        c as int - '0' as int
    } else if 'a' <= c && c <= 'f' {
        c as int - 'a' as int + 10
    } else if 'A' <= c && c <= 'F' {
        c as int - 'A' as int + 10
    } else {
        16
    }
}

/// Whether a character is a hex digit, upper or lower case.
pub open spec fn is_hex_digit(c: char) -> bool {
    hex_char_value(c) < 16
}

/// The lowercase hex digit character for a value below sixteen.
pub open spec fn hex_lower_digit(v: int) -> char {
    if v == 0 {
        '0'
    } else if v == 1 {
        '1'
    } else if v == 2 {
        '2'
    } else if v == 3 {
        '3'
    } else if v == 4 {
        '4'
    } else if v == 5 {
        '5'
    } else if v == 6 {
        '6'
    } else if v == 7 {
        '7'
    } else if v == 8 {
        '8'
    } else if v == 9 {
        '9'
    } else if v == 10 {
        'a'
    } else if v == 11 {
        'b'
    } else if v == 12 {
        'c'
    } else if v == 13 {
        'd'
    } else if v == 14 {
        'e'
    } else {
        'f'
    }
}

/// Lowercase hex encoding of a byte string: two digits per byte, high nibble
/// first.
pub open spec fn hex_encoding(bytes: Seq<u8>) -> Seq<char> {
    Seq::new(
        bytes.len() * 2,
        |i: int|
            if i % 2 == 0 {
                hex_lower_digit(bytes[i / 2] as int / 16)
            } else {
                hex_lower_digit(bytes[i / 2] as int % 16)
            },
    )
}

/// Whether a character sequence is a well-formed hex string: an even number
/// of characters, all of them hex digits.
pub open spec fn valid_hex(s: Seq<char>) -> bool {
    &&& s.len() % 2 == 0
    &&& forall|i: int| 0 <= i < s.len() ==> is_hex_digit(#[trigger] s[i])
}

/// The bytes denoted by a hex string; meaningful when `valid_hex` holds.
pub open spec fn hex_decoding(s: Seq<char>) -> Seq<u8> {
    Seq::new(s.len() / 2, |i: int| (hex_char_value(s[2 * i]) * 16 + hex_char_value(s[2 * i + 1])) as u8)
}

/// Reading a lowercase digit back gives the value it encodes.
pub proof fn lemma_hex_lower_digit_value(v: int)
    requires
        0 <= v < 16,
    ensures
        is_hex_digit(hex_lower_digit(v)),
        hex_char_value(hex_lower_digit(v)) == v,
{
}

/// Hex-encoding any byte string yields a well-formed hex string, and decoding
/// it returns the original bytes exactly.
pub proof fn lemma_hex_round_trip(bytes: Seq<u8>)
    ensures
        valid_hex(hex_encoding(bytes)),
        hex_decoding(hex_encoding(bytes)) =~= bytes,
{
    let enc = hex_encoding(bytes);
    assert forall|i: int| 0 <= i < enc.len() implies is_hex_digit(#[trigger] enc[i]) by {
        if i % 2 == 0 {
            lemma_hex_lower_digit_value(bytes[i / 2] as int / 16);
        } else {
            lemma_hex_lower_digit_value(bytes[i / 2] as int % 16);
        }
    }
    assert forall|i: int| 0 <= i < bytes.len() implies hex_decoding(enc)[i] == bytes[i] by {
        let b = bytes[i] as int;
        lemma_hex_lower_digit_value(b / 16);
        lemma_hex_lower_digit_value(b % 16);
        assert(enc[2 * i] == hex_lower_digit(b / 16));
        assert(enc[2 * i + 1] == hex_lower_digit(b % 16));
        assert(b / 16 * 16 + b % 16 == b) by {
            vstd::arithmetic::div_mod::lemma_fundamental_div_mod(b, 16);
        }
    }
}

/// Relies on `hex::encode`: lowercase hex, two digits per byte, high nibble
/// first.
#[verifier::external_body]
pub(crate) fn hex_encode(bytes: &[u8]) -> (r: String)
    ensures
        r@ == hex_encoding(bytes@),
{
    hex::encode(bytes)
}

#[verifier::external_type_specification]
#[verifier::external_body]
pub struct ExFromHexError(hex::FromHexError);

/// Relies on `hex::decode`: it succeeds exactly on an even number of hex
/// digits (upper or lower case) and then returns the denoted bytes; any
/// other input is an error.
#[verifier::external_body]
pub(crate) fn hex_decode(s: &str) -> (r: Result<Vec<u8>, hex::FromHexError>)
    ensures
        r is Ok <==> valid_hex(s@),
        r matches Ok(b) ==> b@ == hex_decoding(s@),
{
    hex::decode(s)
}

} // verus!
