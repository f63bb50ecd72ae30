//! Conversion between the `0x`-prefixed hex strings of the HTTP boundary
//! and the raw byte buffers of the device.

use vstd::prelude::*;
use crate::hexdata::{
    hex_char_value, hex_decode, hex_encode, hex_decoding, hex_encoding, hex_lower_digit,
    is_hex_digit, valid_hex,
};
use crate::validation::is_hex_digit_exec;

verus! {

/// Whether a string starts with the `0x` marker of a hex-encoded field.
pub open spec fn has_hex_prefix(s: Seq<char>) -> bool {
    s.len() >= 2 && s[0] == '0' && s[1] == 'x'
}

/// The hex string denoting a byte buffer: `0x` followed by lowercase hex.
pub open spec fn hex_prefixed(bytes: Seq<u8>) -> Seq<char> {
    "0x"@ + hex_encoding(bytes)
}

/// Whether a string is a well-formed hex payload: the `0x` marker followed
/// by an even number of hex digits.
pub open spec fn valid_payload(s: Seq<char>) -> bool {
    has_hex_prefix(s) && valid_hex(s.subrange(2, s.len() as int))
}

/// The bytes denoted by a well-formed hex payload.
pub open spec fn payload_bytes(s: Seq<char>) -> Seq<u8> {
    hex_decoding(s.subrange(2, s.len() as int))
}

/// `bytes` left-padded with zeroes to `width`; meaningful when it fits.
pub open spec fn left_padded(bytes: Seq<u8>, width: nat) -> Seq<u8> {
    Seq::new((width - bytes.len()) as nat, |i: int| 0u8) + bytes
}

/// Encoding any byte buffer and decoding the result returns the original
/// bytes exactly: the encoded string is a well-formed payload and denotes
/// nothing else.
pub proof fn lemma_payload_round_trip(bytes: Seq<u8>)
    ensures
        valid_payload(hex_prefixed(bytes)),
        payload_bytes(hex_prefixed(bytes)) =~= bytes,
{
    reveal_strlit("0x");
    crate::hexdata::lemma_hex_round_trip(bytes);
    let s = hex_prefixed(bytes);
    assert(s.subrange(2, s.len() as int) =~= hex_encoding(bytes));
}

/// Checks for the `0x` marker.
pub fn has_hex_prefix_exec(s: &str) -> (r: bool)
    ensures
        r == has_hex_prefix(s@),
{
    let n = s.unicode_len();
    if n < 2 {
        return false;
    }
    let c0 = s.get_char(0);
    let c1 = s.get_char(1);
    c0 == '0' && c1 == 'x'
}

/// Decodes a `0x`-prefixed hex payload into its bytes; `None` exactly when
/// the marker is missing or the digits are not well-formed hex.
pub fn decode_payload(s: &str) -> (r: Option<Vec<u8>>)
    ensures
        r is Some <==> valid_payload(s@),
        r matches Some(b) ==> b@ == payload_bytes(s@),
{
    let n = s.unicode_len();
    if n < 2 {
        return None;
    }
    if !(s.get_char(0) == '0' && s.get_char(1) == 'x') {
        return None;
    }
    let rest = s.substring_char(2, n);
    match hex_decode(rest) {
        Ok(b) => Some(b),
        Err(_) => None,
    }
}

/// Encodes a byte buffer as a `0x`-prefixed lowercase hex string.
pub fn encode_payload(bytes: &[u8]) -> (s: String)
    ensures
        s@ == hex_prefixed(bytes@),
{
    let mut s = String::from_str("0x");
    let digits = hex_encode(bytes);
    s.append(digits.as_str());
    s
}

/// Decodes a `0x`-prefixed hex payload into a fixed-width big-endian word,
/// left-padded with zeroes; `None` when the payload is malformed or wider
/// than `width` bytes.
pub fn decode_fixed_width(s: &str, width: usize) -> (r: Option<Vec<u8>>)
    ensures
        r is Some <==> valid_payload(s@) && payload_bytes(s@).len() <= width,
        r matches Some(b) ==> b@ == left_padded(payload_bytes(s@), width as nat) && b@.len()
            == width,
{
    match decode_payload(s) {
        None => None,
        Some(bytes) => {
            if bytes.len() > width {
                return None;
            }
            let pad = width - bytes.len();
            let mut word: Vec<u8> = Vec::new();
            let mut i: usize = 0;
            while i < pad
                invariant
                    i <= pad,
                    word@ =~= Seq::new(i as nat, |k: int| 0u8),
                decreases pad - i,
            {
                word.push(0);
                i += 1;
            }
            let mut tail = bytes;
            word.append(&mut tail);
            Some(word)
        },
    }
}

fn hex_digit_str(d: u8) -> (r: &'static str)
    requires
        d < 16,
    ensures
        r@ == seq![hex_lower_digit(d as int)],
{
    let r: &'static str = if d == 0 {
        "0"
    } else if d == 1 {
        "1"
    } else if d == 2 {
        "2"
    } else if d == 3 {
        "3"
    } else if d == 4 {
        "4"
    } else if d == 5 {
        "5"
    } else if d == 6 {
        "6"
    } else if d == 7 {
        "7"
    } else if d == 8 {
        "8"
    } else if d == 9 {
        "9"
    } else if d == 10 {
        "a"
    } else if d == 11 {
        "b"
    } else if d == 12 {
        "c"
    } else if d == 13 {
        "d"
    } else if d == 14 {
        "e"
    } else {
        "f"
    };
    proof {
        reveal_strlit("0");
        reveal_strlit("1");
        reveal_strlit("2");
        reveal_strlit("3");
        reveal_strlit("4");
        reveal_strlit("5");
        reveal_strlit("6");
        reveal_strlit("7");
        reveal_strlit("8");
        reveal_strlit("9");
        reveal_strlit("a");
        reveal_strlit("b");
        reveal_strlit("c");
        reveal_strlit("d");
        reveal_strlit("e");
        reveal_strlit("f");
        assert(r@ =~= seq![hex_lower_digit(d as int)]);
    }
    r
}

/// Renders a raw address (or any byte buffer) as lowercase hex without the
/// `0x` marker, digit pair by digit pair.
pub fn convert_address_to_string(address: &[u8]) -> (s: String)
    ensures
        s@ == hex_encoding(address@),
{
    let mut s = String::new();
    let mut i: usize = 0;
    while i < address.len()
        invariant
            i <= address@.len(),
            s@ =~= hex_encoding(address@.subrange(0, i as int)),
        decreases address@.len() - i,
    {
        let b = address[i];
        s.append(hex_digit_str(b / 16));
        s.append(hex_digit_str(b % 16));
        proof {
            let prefix = address@.subrange(0, i as int);
            let prefix1 = address@.subrange(0, i + 1);
            assert forall|j: int| 0 <= j < 2 * (i + 1) implies hex_encoding(prefix1)[j] == s@[j] by {
                if j < 2 * i {
                    assert(hex_encoding(prefix)[j] == hex_encoding(prefix1)[j]);
                }
            }
            assert(s@ =~= hex_encoding(prefix1));
        }
        i += 1;
    }
    proof {
        assert(address@.subrange(0, address@.len() as int) =~= address@);
    }
    s
}

fn hex_value_exec(c: char) -> (v: u8)
    requires
        is_hex_digit(c),
    ensures
        v as int == hex_char_value(c),
{
    let u = c as u32;
    if '0' <= c && c <= '9' {
        (u - 48) as u8
    } else if 'a' <= c && c <= 'f' {
        (u - 97 + 10) as u8
    } else {
        (u - 65 + 10) as u8
    }
}

/// The byte at position `i` of a parsed address: the value of the digit
/// pair when both digits are there and are hex, zero otherwise.
pub open spec fn parsed_address_byte(digits: Seq<char>, i: int) -> u8 {
    if 2 * i + 1 < digits.len() && is_hex_digit(digits[2 * i]) && is_hex_digit(
        digits[2 * i + 1],
    ) {
        (hex_char_value(digits[2 * i]) * 16 + hex_char_value(digits[2 * i + 1])) as u8
    } else {
        0u8
    }
}

/// The 20 address bytes a string denotes: digit pairs after an optional
/// `0x` marker, with zero standing in for a missing or malformed pair and
/// anything past the address width ignored.
pub open spec fn parsed_address(s: Seq<char>) -> Seq<u8> {
    let digits = if has_hex_prefix(s) {
        s.subrange(2, s.len() as int)
    } else {
        s
    };
    Seq::new(20, |i: int| parsed_address_byte(digits, i))
}

/// Parses a hex string into raw address bytes, tolerantly: a malformed or
/// missing digit pair yields a zero byte, excess digits are ignored.
pub fn convert_string_to_address(address: &str) -> (r: Vec<u8>)
    ensures
        r@ == parsed_address(address@),
{
    let n = address.unicode_len();
    let start: usize = if has_hex_prefix_exec(address) {
        2
    } else {
        0
    };
    let digits = address.substring_char(start, n);
    let dn = n - start;
    let mut result: Vec<u8> = Vec::new();
    let mut i: usize = 0;
    while i < 20
        invariant
            i <= 20,
            result@.len() == i,
            dn == digits@.len(),
            forall|k: int| 0 <= k < i ==> result@[k] == parsed_address_byte(digits@, k),
        decreases 20 - i,
    {
        let b: u8 = if 2 * i + 1 < dn {
            let c0 = digits.get_char(2 * i);
            let c1 = digits.get_char(2 * i + 1);
            if is_hex_digit_exec(c0) && is_hex_digit_exec(c1) {
                hex_value_exec(c0) * 16 + hex_value_exec(c1)
            } else {
                0
            }
        } else {
            0
        };
        result.push(b);
        i += 1;
    }
    proof {
        assert(result@ =~= parsed_address(address@));
    }
    result
}

} // verus!
