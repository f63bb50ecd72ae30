//! Validation of the fixed-width hex fields that must be rejected before
//! they reach the device.

use vstd::prelude::*;
use crate::hexdata::is_hex_digit;

verus! {

/// The number of bytes in a rollup address.
pub const CARTESI_ROLLUP_ADDRESS_SIZE: u32 = 20;

/// Whether a string is a well-formed address: `0x` followed by exactly
/// forty hex digits.
pub open spec fn valid_eth_address(s: Seq<char>) -> bool {
    &&& s.len() == 42
    &&& s[0] == '0'
    &&& s[1] == 'x'
    &&& forall|i: int| 2 <= i < 42 ==> is_hex_digit(#[trigger] s[i])
}

/// The reserved generic-I/O domains below this value belong to the device
/// itself; application queries must stay at or above it.
pub const GIO_DOMAIN_THRESHOLD: u16 = 0x10;

/// Whether a generic-I/O domain is open to the application.
pub open spec fn valid_gio_domain(domain: u16) -> bool {
    domain >= 0x10
}

/// Checks whether a character is a hex digit, upper or lower case.
pub fn is_hex_digit_exec(c: char) -> (r: bool)
    ensures
        r == is_hex_digit(c),
{
    ('0' <= c && c <= '9') || ('a' <= c && c <= 'f') || ('A' <= c && c <= 'F')
}

/// Checks whether a string is a well-formed address.
pub fn check_eth_address(s: &str) -> (r: bool)
    ensures
        r == valid_eth_address(s@),
{
    let n = s.unicode_len();
    if n != 42 {
        return false;
    }
    if !(s.get_char(0) == '0' && s.get_char(1) == 'x') {
        return false;
    }
    let mut i: usize = 2;
    while i < 42
        invariant
            2 <= i <= 42,
            s@.len() == 42,
            forall|j: int| 2 <= j < i ==> is_hex_digit(#[trigger] s@[j]),
        decreases 42 - i,
    {
        if !is_hex_digit_exec(s.get_char(i)) {
            return false;
        }
        i += 1;
    }
    true
}

/// Checks whether a generic-I/O domain is open to the application.
pub fn check_gio_domain(domain: u16) -> (r: bool)
    ensures
        r == valid_gio_domain(domain),
{
    domain >= GIO_DOMAIN_THRESHOLD
}

} // verus!
