//! The log lines describing requests and outputs.
//!
//! Each function renders the exact line the server logs; emitting it is the
//! caller's business.

use vstd::prelude::*;
use vstd::utf8::encode_utf8;
use crate::codec::{has_hex_prefix, has_hex_prefix_exec};
use crate::numfmt::{dec_nat, usize_to_dec};
use crate::types::{AdvanceRequest, Exception, InspectRequest, Notice, Report, Voucher};

verus! {

/// An address as printed: under its `0x` marker, which is added when it is
/// missing.
pub open spec fn printed_address(address: Seq<char>) -> Seq<char> {
    if has_hex_prefix(address) {
        address
    } else {
        "0x"@ + address
    }
}

/// The byte length of a string, the length the log lines report.
pub open spec fn byte_len(s: Seq<char>) -> nat {
    (encode_utf8(s).len() as usize) as nat
}

fn str_byte_len(s: &str) -> (n: usize)
    ensures
        n as nat == byte_len(s@),
{
    s.len()
}

/// Appends an address to a printout, under its `0x` marker.
pub fn format_address_printout(address: &str, printout_address: &mut String)
    ensures
        final(printout_address)@ == old(printout_address)@ + printed_address(address@),
{
    if has_hex_prefix_exec(address) {
        printout_address.append(address);
    } else {
        printout_address.append("0x");
        printout_address.append(address);
    }
}

/// Renders an address under its `0x` marker.
pub fn print_address(address: &String) -> (s: String)
    ensures
        s@ == printed_address(address@),
{
    let mut s = String::new();
    format_address_printout(address.as_str(), &mut s);
    s
}

/// The log line for an advance request.
pub open spec fn advance_printout(a: AdvanceRequest) -> Seq<char> {
    "advance: {{msg_sender: "@ + printed_address(a.metadata.msg_sender@) + " block_number: "@
        + dec_nat(a.metadata.block_number as nat) + " block_timestamp: "@ + dec_nat(
        a.metadata.block_timestamp as nat,
    ) + " input_index: "@ + dec_nat(a.metadata.input_index as nat) + " }"@
}

/// Renders the log line for an advance request.
pub fn print_advance(advance: &AdvanceRequest) -> (s: String)
    ensures
        s@ == advance_printout(*advance),
{
    let mut s = String::from_str("advance: {{msg_sender: ");
    format_address_printout(advance.metadata.msg_sender.as_str(), &mut s);
    s.append(" block_number: ");
    let block_number = crate::numfmt::u64_to_dec(advance.metadata.block_number);
    s.append(block_number.as_str());
    s.append(" block_timestamp: ");
    let block_timestamp = crate::numfmt::u64_to_dec(advance.metadata.block_timestamp);
    s.append(block_timestamp.as_str());
    s.append(" input_index: ");
    let input_index = crate::numfmt::u64_to_dec(advance.metadata.input_index);
    s.append(input_index.as_str());
    s.append(" }");
    s
}

/// The log line for a payload-only record under a given label.
pub open spec fn payload_printout(label: Seq<char>, payload: Seq<char>) -> Seq<char> {
    label + " length: "@ + dec_nat(byte_len(payload)) + " payload: "@ + payload + "}"@
}

fn print_payload(label: &str, payload: &String) -> (s: String)
    ensures
        s@ == payload_printout(label@, payload@),
{
    let mut s = String::from_str(label);
    s.append(" length: ");
    let length = usize_to_dec(str_byte_len(payload.as_str()));
    s.append(length.as_str());
    s.append(" payload: ");
    s.append(payload.as_str());
    s.append("}");
    s
}

/// Renders the log line for an inspect request.
pub fn print_inspect(inspect: &InspectRequest) -> (s: String)
    ensures
        s@ == payload_printout("Inspect: {"@, inspect.payload@),
{
    print_payload("Inspect: {", &inspect.payload)
}

/// Renders the log line for a notice.
pub fn print_notice(notice: &Notice) -> (s: String)
    ensures
        s@ == payload_printout("Notice: {"@, notice.payload@),
{
    print_payload("Notice: {", &notice.payload)
}

/// The log line for a voucher.
pub open spec fn voucher_printout(v: Voucher) -> Seq<char> {
    "voucher: {{ destination: "@ + printed_address(v.destination@) + " length: "@ + dec_nat(
        byte_len(v.payload@),
    ) + " payload: "@ + v.payload@ + " }"@
}

/// Renders the log line for a voucher.
pub fn print_voucher(voucher: &Voucher) -> (s: String)
    ensures
        s@ == voucher_printout(*voucher),
{
    let mut s = String::from_str("voucher: {{ destination: ");
    format_address_printout(voucher.destination.as_str(), &mut s);
    s.append(" length: ");
    let length = usize_to_dec(str_byte_len(voucher.payload.as_str()));
    s.append(length.as_str());
    s.append(" payload: ");
    s.append(voucher.payload.as_str());
    s.append(" }");
    s
}

/// Renders the log line for a report.
pub fn print_report(report: &Report) -> (s: String)
    ensures
        s@ == payload_printout("report: {"@, report.payload@),
{
    print_payload("report: {", &report.payload)
}

/// Renders the log line for an exception.
pub fn print_exception(exception: &Exception) -> (s: String)
    ensures
        s@ == payload_printout("exception: {"@, exception.payload@),
{
    print_payload("exception: {", &exception.payload)
}

} // verus!
