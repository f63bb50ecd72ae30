//! The request and output records exchanged between the device, this crate
//! and the application.
//!
//! Binary fields are carried as `0x`-prefixed lowercase hex strings; the
//! codec turns them into raw bytes and back.

use vstd::prelude::*;

verus! {

/// Metadata delivered with every advance-state request, addresses and the
/// randomness word already rendered as hex strings.
#[derive(Debug, Clone, PartialEq, Eq)]
pub struct AdvanceMetadata {
    pub chain_id: u64,
    pub app_contract: String,
    pub msg_sender: String,
    pub block_number: u64,
    pub block_timestamp: u64,
    pub prev_randao: String,
    pub input_index: u64,
}

/// A state-changing input read from the device.
#[derive(Debug, Clone, PartialEq, Eq)]
pub struct AdvanceRequest {
    pub metadata: AdvanceMetadata,
    pub payload: String,
}

/// A read-only query read from the device.
#[derive(Debug, Clone, PartialEq, Eq)]
pub struct InspectRequest {
    pub payload: String,
}

/// The one request handed to the application per device cycle.
#[derive(Debug, Clone, PartialEq, Eq)]
pub enum RollupRequest {
    Inspect(InspectRequest),
    Advance(AdvanceRequest),
}

/// The body of a `/finish` call: `"accept"` or `"reject"`.
#[derive(Debug, Clone, PartialEq, Eq)]
pub struct FinishRequest {
    pub status: String,
}

/// The reports collected while answering an inspect request.
#[derive(Debug, Clone, PartialEq, Eq)]
pub struct InspectReport {
    pub reports: Vec<Report>,
}

/// A provable output record.
#[derive(Debug, Clone, PartialEq, Eq)]
pub struct Notice {
    pub payload: String,
}

/// An outbound call instruction: destination address, transferred value and
/// call payload.
#[derive(Debug, Clone, PartialEq, Eq)]
pub struct Voucher {
    pub destination: String,
    pub value: String,
    pub payload: String,
}

/// An outbound delegate-call instruction: no value is transferred.
#[derive(Debug, Clone, PartialEq, Eq)]
pub struct DelegateCallVoucher {
    pub destination: String,
    pub payload: String,
}

/// A best-effort diagnostic output.
#[derive(Debug, Clone, PartialEq, Eq)]
pub struct Report {
    pub payload: String,
}

/// The terminal signal an application emits when it cannot continue.
#[derive(Debug, Clone, PartialEq, Eq)]
pub struct Exception {
    pub payload: String,
}

/// The answer of every finalize exchange: whether the previous request was
/// accepted, and the kind and payload length of the next one.
#[derive(Debug, Default, Clone, Copy, PartialEq, Eq, Structural)]
pub struct RollupFinish {
    pub accept_previous_request: bool,
    pub next_request_type: i32,
    pub next_request_payload_length: usize,
}

/// A synchronous generic-I/O query; the domain below `0x10` is reserved for
/// the device itself.
#[derive(Debug, Clone, PartialEq, Eq)]
pub struct GIORequest {
    pub domain: u16,
    pub payload: String,
}

/// The device's answer to a generic-I/O query.
#[derive(Debug, Clone, PartialEq, Eq)]
pub struct GIOResponse {
    pub response_code: u16,
    pub response: String,
}

/// The outcome the application reports for the request it processed.
#[derive(Debug, Clone, PartialEq, Eq)]
pub enum RollupResponse {
    Finish(bool),
}

/// The body of a successful `/voucher` or `/notice` reply.
#[derive(Debug, Clone, Copy, PartialEq, Eq, Structural)]
pub struct IndexResponse {
    pub index: u64,
}

/// The error an application-side client reports when a protocol exchange
/// fails.
#[derive(Debug, Clone, PartialEq, Eq)]
pub struct RollupRequestError {
    pub cause: String,
}

} // verus!
