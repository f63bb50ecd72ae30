//! The device gateway: the request/response cycle driven through the rollup
//! device, modelled as a state machine over plain values.
//!
//! The raw exchanges (ioctl-style calls on the device handle) happen outside
//! this crate; every exchange hands its status code and raw buffers to the
//! session below, which decides what the outcome means, what may happen next
//! and what is returned to the caller.  The cycle is the one the device
//! enforces: finalize the previous request, learn the kind of the next one,
//! read it, hand it out, and only then finalize again.

use vstd::prelude::*;
use crate::codec::{
    decode_payload, decode_fixed_width, encode_payload, hex_prefixed, left_padded, payload_bytes,
    valid_payload,
};
use crate::rollup_error::{device_error_message, RollupError, RollupErrorKind};
use crate::types::{
    AdvanceMetadata, AdvanceRequest, GIORequest, GIOResponse, InspectRequest, Notice, RollupFinish,
    Voucher,
};
use crate::validation::{check_eth_address, check_gio_domain, valid_eth_address, valid_gio_domain};

verus! {

/// Discriminant the device uses for a state-changing request.
pub const REQUEST_TYPE_ADVANCE_STATE: i32 = 0;

/// Discriminant the device uses for a read-only query.
pub const REQUEST_TYPE_INSPECT_STATE: i32 = 1;

/// The two request kinds the protocol knows; every other discriminant is an
/// error, never a silent default.
#[derive(Debug, Clone, Copy, PartialEq, Eq, Structural)]
pub enum RequestKind {
    Advance,
    Inspect,
}

/// Where a session stands in its cycle.
#[derive(Debug, Clone, Copy, PartialEq, Eq, Structural)]
pub enum CyclePhase {
    /// No request is open; the next step is a finalize exchange.
    AwaitingFinalize,
    /// A finalize reported an advance request; the next step reads it.
    ReadingAdvance,
    /// A finalize reported an inspect request; the next step reads it.
    ReadingInspect,
    /// A request has been handed out and outputs may be emitted; the cycle
    /// ends with the next finalize.
    RequestOpen,
}

/// The raw advance-state record as the device delivers it: fixed-width
/// big-endian address and randomness words, and the input payload.
#[derive(Debug, Clone, PartialEq, Eq)]
pub struct AdvanceInput {
    pub chain_id: u64,
    pub app_contract: Vec<u8>,
    pub msg_sender: Vec<u8>,
    pub block_number: u64,
    pub block_timestamp: u64,
    pub prev_randao: Vec<u8>,
    pub index: u64,
    pub payload: Vec<u8>,
}

/// A voucher already validated and decoded into the raw buffers the device
/// takes: a 20-byte destination, a 32-byte big-endian value, and the call
/// payload.
#[derive(Debug, Clone, PartialEq, Eq)]
pub struct EncodedVoucher {
    pub destination: Vec<u8>,
    pub value: Vec<u8>,
    pub payload: Vec<u8>,
}

/// A generic-I/O query already validated and decoded for the device.
#[derive(Debug, Clone, PartialEq, Eq)]
pub struct EncodedGIORequest {
    pub domain: u16,
    pub payload: Vec<u8>,
}

/// One device-handle lifetime of the request/response protocol: the phase of
/// the current cycle and the output indices assigned so far.
#[derive(Debug, Clone, PartialEq, Eq)]
pub struct DeviceSession {
    phase: CyclePhase,
    voucher_count: u64,
    notice_count: u64,
}

impl DeviceSession {
    pub closed spec fn spec_phase(self) -> CyclePhase {
        self.phase
    }

    pub closed spec fn spec_voucher_count(self) -> u64 {
        self.voucher_count
    }

    pub closed spec fn spec_notice_count(self) -> u64 {
        self.notice_count
    }

    /// A finalize exchange is in order at the start of a cycle and once a
    /// request has been handed out; after a failed or aborted cycle the
    /// session is back at the start, so the next finalize retries.
    pub open spec fn finalize_allowed(self) -> bool {
        self.spec_phase() is AwaitingFinalize || self.spec_phase() is RequestOpen
    }

    /// An advance read is in order only right after a finalize reported an
    /// advance request.
    pub open spec fn advance_read_allowed(self) -> bool {
        self.spec_phase() is ReadingAdvance
    }

    /// An inspect read is in order only right after a finalize reported an
    /// inspect request.
    pub open spec fn inspect_read_allowed(self) -> bool {
        self.spec_phase() is ReadingInspect
    }

    /// A fresh session: no request open, no output emitted yet.
    pub fn new() -> (s: Self)
        ensures
            s.spec_phase() is AwaitingFinalize,
            s.spec_voucher_count() == 0,
            s.spec_notice_count() == 0,
    {
        DeviceSession { phase: CyclePhase::AwaitingFinalize, voucher_count: 0, notice_count: 0 }
    }

    pub fn phase(&self) -> (p: CyclePhase)
        ensures
            p == self.spec_phase(),
    {
        self.phase
    }

    pub fn voucher_count(&self) -> (n: u64)
        ensures
            n == self.spec_voucher_count(),
    {
        self.voucher_count
    }

    pub fn notice_count(&self) -> (n: u64)
        ensures
            n == self.spec_notice_count(),
    {
        self.notice_count
    }

    /// Records the outcome of the finalize exchange: `status` and the next
    /// request's discriminant and payload length as the device reported
    /// them, with `accept` echoing what was submitted.
    pub fn on_finalize(
        &mut self,
        accept: bool,
        status: i32,
        next_request_type: i32,
        next_request_payload_length: usize,
    ) -> (r: Result<RollupFinish, RollupError>)
        requires
            old(self).finalize_allowed(),
        ensures
            finalize_transition(
                *old(self),
                *final(self),
                accept,
                status,
                next_request_type,
                next_request_payload_length,
                r,
            ),
    {
        if status < 0 {
            self.phase = CyclePhase::AwaitingFinalize;
            Err(RollupError::device("IOCTL_ROLLUP_FINISH", status))
        } else {
            self.phase = if next_request_type == REQUEST_TYPE_ADVANCE_STATE {
                CyclePhase::ReadingAdvance
            } else if next_request_type == REQUEST_TYPE_INSPECT_STATE {
                CyclePhase::ReadingInspect
            } else {
                CyclePhase::AwaitingFinalize
            };
            Ok(
                RollupFinish {
                    accept_previous_request: accept,
                    next_request_type,
                    next_request_payload_length,
                },
            )
        }
    }

    /// Turns the raw advance-state record into the request handed to the
    /// application, every binary field rendered as a `0x`-prefixed hex
    /// string; a nonzero `status` aborts the cycle instead.
    pub fn on_advance_read(&mut self, status: i32, input: &AdvanceInput) -> (r: Result<
        AdvanceRequest,
        RollupError,
    >)
        requires
            old(self).advance_read_allowed(),
        ensures
            advance_read_transition(*old(self), *final(self), status, *input, r),
    {
        if status != 0 {
            self.phase = CyclePhase::AwaitingFinalize;
            return Err(RollupError::device("IOCTL_ROLLUP_READ_ADVANCE_STATE", status));
        }
        let metadata = AdvanceMetadata {
            chain_id: input.chain_id,
            app_contract: encode_payload(input.app_contract.as_slice()),
            msg_sender: encode_payload(input.msg_sender.as_slice()),
            block_number: input.block_number,
            block_timestamp: input.block_timestamp,
            prev_randao: encode_payload(input.prev_randao.as_slice()),
            input_index: input.index,
        };
        let payload = encode_payload(input.payload.as_slice());
        self.phase = CyclePhase::RequestOpen;
        Ok(AdvanceRequest { metadata, payload })
    }

    /// Turns the raw inspect-state payload into the request handed to the
    /// application; a nonzero `status` aborts the cycle instead.
    pub fn on_inspect_read(&mut self, status: i32, payload: &Vec<u8>) -> (r: Result<
        InspectRequest,
        RollupError,
    >)
        requires
            old(self).inspect_read_allowed(),
        ensures
            inspect_read_transition(*old(self), *final(self), status, payload@, r),
    {
        if status != 0 {
            self.phase = CyclePhase::AwaitingFinalize;
            return Err(RollupError::device("IOCTL_ROLLUP_READ_INSPECT_STATE", status));
        }
        let request = InspectRequest { payload: encode_payload(payload.as_slice()) };
        self.phase = CyclePhase::RequestOpen;
        Ok(request)
    }

    /// Records the outcome of a voucher write: on success the voucher gets
    /// the next index of this session, starting at 1.
    pub fn on_voucher_written(&mut self, status: i32) -> (r: Result<u64, RollupError>)
        requires
            old(self).spec_voucher_count() < u64::MAX,
        ensures
            voucher_write_transition(*old(self), *final(self), status, r),
    {
        if status != 0 {
            Err(RollupError::device("IOCTL_ROLLUP_WRITE_VOUCHER", status))
        } else {
            self.voucher_count = self.voucher_count + 1;
            Ok(self.voucher_count)
        }
    }

    /// Records the outcome of a notice write: on success the notice gets
    /// the next index of this session, starting at 1.
    pub fn on_notice_written(&mut self, status: i32) -> (r: Result<u64, RollupError>)
        requires
            old(self).spec_notice_count() < u64::MAX,
        ensures
            notice_write_transition(*old(self), *final(self), status, r),
    {
        if status != 0 {
            Err(RollupError::device("IOCTL_ROLLUP_WRITE_NOTICE", status))
        } else {
            self.notice_count = self.notice_count + 1;
            Ok(self.notice_count)
        }
    }
}

/// What a finalize exchange does to the session: a negative status is a
/// device error and the session stays at the start of a cycle; otherwise the
/// device's answer is returned as delivered and the session enters the phase
/// matching the reported request kind, with an unknown kind opening no read
/// at all.  No finalize touches the output indices.
pub open spec fn finalize_transition(
    pre: DeviceSession,
    post: DeviceSession,
    accept: bool,
    status: i32,
    next_request_type: i32,
    next_request_payload_length: usize,
    r: Result<RollupFinish, RollupError>,
) -> bool {
    &&& post.spec_voucher_count() == pre.spec_voucher_count()
    &&& post.spec_notice_count() == pre.spec_notice_count()
    &&& if status < 0 {
        &&& (r matches Err(e) && e.spec_kind() == RollupErrorKind::Device && e.spec_message()
            == device_error_message("IOCTL_ROLLUP_FINISH"@, status as int))
        &&& post.spec_phase() is AwaitingFinalize
    } else {
        &&& (r matches Ok(f) && f == (RollupFinish {
            accept_previous_request: accept,
            next_request_type,
            next_request_payload_length,
        }))
        &&& next_request_type == REQUEST_TYPE_ADVANCE_STATE ==> post.spec_phase()
            is ReadingAdvance
        &&& next_request_type == REQUEST_TYPE_INSPECT_STATE ==> post.spec_phase()
            is ReadingInspect
        &&& (next_request_type != REQUEST_TYPE_ADVANCE_STATE && next_request_type
            != REQUEST_TYPE_INSPECT_STATE) ==> post.spec_phase() is AwaitingFinalize
    }
}

/// What an advance read does to the session: a nonzero status is a device
/// error and aborts the cycle; on success exactly one advance request is
/// produced, its fields the hex rendering of the raw record, and the request
/// is open.  Output indices are untouched.
pub open spec fn advance_read_transition(
    pre: DeviceSession,
    post: DeviceSession,
    status: i32,
    input: AdvanceInput,
    r: Result<AdvanceRequest, RollupError>,
) -> bool {
    &&& post.spec_voucher_count() == pre.spec_voucher_count()
    &&& post.spec_notice_count() == pre.spec_notice_count()
    &&& if status != 0 {
        &&& (r matches Err(e) && e.spec_kind() == RollupErrorKind::Device && e.spec_message()
            == device_error_message("IOCTL_ROLLUP_READ_ADVANCE_STATE"@, status as int))
        &&& post.spec_phase() is AwaitingFinalize
    } else {
        &&& (r matches Ok(req) && {
            &&& req.metadata.chain_id == input.chain_id
            &&& req.metadata.app_contract@ == hex_prefixed(input.app_contract@)
            &&& req.metadata.msg_sender@ == hex_prefixed(input.msg_sender@)
            &&& req.metadata.block_number == input.block_number
            &&& req.metadata.block_timestamp == input.block_timestamp
            &&& req.metadata.prev_randao@ == hex_prefixed(input.prev_randao@)
            &&& req.metadata.input_index == input.index
            &&& req.payload@ == hex_prefixed(input.payload@)
        })
        &&& post.spec_phase() is RequestOpen
    }
}

/// What an inspect read does to the session: as the advance read, with the
/// payload alone.
pub open spec fn inspect_read_transition(
    pre: DeviceSession,
    post: DeviceSession,
    status: i32,
    payload: Seq<u8>,
    r: Result<InspectRequest, RollupError>,
) -> bool {
    &&& post.spec_voucher_count() == pre.spec_voucher_count()
    &&& post.spec_notice_count() == pre.spec_notice_count()
    &&& if status != 0 {
        &&& (r matches Err(e) && e.spec_kind() == RollupErrorKind::Device && e.spec_message()
            == device_error_message("IOCTL_ROLLUP_READ_INSPECT_STATE"@, status as int))
        &&& post.spec_phase() is AwaitingFinalize
    } else {
        &&& (r matches Ok(req) && req.payload@ == hex_prefixed(payload))
        &&& post.spec_phase() is RequestOpen
    }
}

/// What a voucher write does to the session: a nonzero status is a device
/// error and changes nothing; on success the assigned index is one past the
/// count of vouchers emitted before it.  The phase and the notice index are
/// untouched either way.
pub open spec fn voucher_write_transition(
    pre: DeviceSession,
    post: DeviceSession,
    status: i32,
    r: Result<u64, RollupError>,
) -> bool {
    &&& post.spec_phase() == pre.spec_phase()
    &&& post.spec_notice_count() == pre.spec_notice_count()
    &&& if status != 0 {
        &&& (r matches Err(e) && e.spec_kind() == RollupErrorKind::Device && e.spec_message()
            == device_error_message("IOCTL_ROLLUP_WRITE_VOUCHER"@, status as int))
        &&& post.spec_voucher_count() == pre.spec_voucher_count()
    } else {
        &&& (r matches Ok(i) && i == pre.spec_voucher_count() + 1)
        &&& post.spec_voucher_count() == pre.spec_voucher_count() + 1
    }
}

/// What a notice write does to the session, mirroring the voucher write.
pub open spec fn notice_write_transition(
    pre: DeviceSession,
    post: DeviceSession,
    status: i32,
    r: Result<u64, RollupError>,
) -> bool {
    &&& post.spec_phase() == pre.spec_phase()
    &&& post.spec_voucher_count() == pre.spec_voucher_count()
    &&& if status != 0 {
        &&& (r matches Err(e) && e.spec_kind() == RollupErrorKind::Device && e.spec_message()
            == device_error_message("IOCTL_ROLLUP_WRITE_NOTICE"@, status as int))
        &&& post.spec_notice_count() == pre.spec_notice_count()
    } else {
        &&& (r matches Ok(i) && i == pre.spec_notice_count() + 1)
        &&& post.spec_notice_count() == pre.spec_notice_count() + 1
    }
}

/// Maps the discriminant a finalize reported to the request kind to read
/// next: a closed decision, every value outside the two known ones is an
/// `UnsupportedRequestKind` error.
pub fn next_request_kind(finish: &RollupFinish) -> (r: Result<RequestKind, RollupError>)
    ensures
        finish.next_request_type == REQUEST_TYPE_ADVANCE_STATE ==> (r matches Ok(k) && k
            is Advance),
        finish.next_request_type == REQUEST_TYPE_INSPECT_STATE ==> (r matches Ok(k) && k
            is Inspect),
        (finish.next_request_type != REQUEST_TYPE_ADVANCE_STATE && finish.next_request_type
            != REQUEST_TYPE_INSPECT_STATE) ==> (r matches Err(e) && e.spec_kind()
            == RollupErrorKind::UnsupportedRequestKind && e.spec_message()
            == "request type unsupported"@),
{
    if finish.next_request_type == REQUEST_TYPE_ADVANCE_STATE {
        Ok(RequestKind::Advance)
    } else if finish.next_request_type == REQUEST_TYPE_INSPECT_STATE {
        Ok(RequestKind::Inspect)
    } else {
        Err(RollupError::unsupported("request type unsupported"))
    }
}

/// Decodes a notice payload for the device; a malformed payload is an
/// encoding error and nothing is written.
pub fn prepare_notice(notice: &Notice) -> (r: Result<Vec<u8>, RollupError>)
    ensures
        valid_payload(notice.payload@) ==> (r matches Ok(b) && b@ == payload_bytes(
            notice.payload@,
        )),
        !valid_payload(notice.payload@) ==> (r matches Err(e) && e.spec_kind()
            == RollupErrorKind::Encoding && e.spec_message()
            == "Error decoding notice payload, payload must be in Ethereum hex binary format"@),
{
    match decode_payload(notice.payload.as_str()) {
        Some(b) => Ok(b),
        None => Err(
            RollupError::encoding(
                "Error decoding notice payload, payload must be in Ethereum hex binary format",
            ),
        ),
    }
}

/// Decodes a report payload for the device.
pub fn prepare_report(payload: &str) -> (r: Result<Vec<u8>, RollupError>)
    ensures
        valid_payload(payload@) ==> (r matches Ok(b) && b@ == payload_bytes(payload@)),
        !valid_payload(payload@) ==> (r matches Err(e) && e.spec_kind()
            == RollupErrorKind::Encoding && e.spec_message()
            == "Error decoding report payload, payload must be in Ethereum hex binary format"@),
{
    match decode_payload(payload) {
        Some(b) => Ok(b),
        None => Err(
            RollupError::encoding(
                "Error decoding report payload, payload must be in Ethereum hex binary format",
            ),
        ),
    }
}

/// Decodes an exception payload for the device.
pub fn prepare_exception(payload: &str) -> (r: Result<Vec<u8>, RollupError>)
    ensures
        valid_payload(payload@) ==> (r matches Ok(b) && b@ == payload_bytes(payload@)),
        !valid_payload(payload@) ==> (r matches Err(e) && e.spec_kind()
            == RollupErrorKind::Encoding && e.spec_message()
            == "Error decoding exception payload, payload must be in Ethereum hex binary format"@),
{
    match decode_payload(payload) {
        Some(b) => Ok(b),
        None => Err(
            RollupError::encoding(
                "Error decoding exception payload, payload must be in Ethereum hex binary format",
            ),
        ),
    }
}

/// A well-formed address is in particular a well-formed hex payload of
/// twenty bytes.
pub proof fn lemma_valid_address_decodes(s: Seq<char>)
    requires
        valid_eth_address(s),
    ensures
        valid_payload(s),
        payload_bytes(s).len() == 20,
{
    assert forall|i: int| 0 <= i < s.subrange(2, 42).len() implies crate::hexdata::is_hex_digit(
        #[trigger] s.subrange(2, 42)[i],
    ) by {
        assert(s.subrange(2, 42)[i] == s[i + 2]);
    }
}

/// Validates and decodes a voucher for the device.  A destination that is
/// not `0x` plus forty hex digits is rejected as a validation error before
/// anything else is looked at; then the call payload and the value must be
/// well-formed hex, the value at most 32 bytes wide.  Nothing is written for
/// a rejected voucher.
pub fn prepare_voucher(voucher: &Voucher) -> (r: Result<EncodedVoucher, RollupError>)
    ensures
        !valid_eth_address(voucher.destination@) ==> (r matches Err(e) && e.spec_kind()
            == RollupErrorKind::Validation && e.spec_message() == "Address not valid"@),
        valid_eth_address(voucher.destination@) && !valid_payload(voucher.payload@) ==> (
        r matches Err(e) && e.spec_kind() == RollupErrorKind::Encoding && e.spec_message()
            == "Error decoding voucher payload, it must be in Ethereum hex binary format"@),
        valid_eth_address(voucher.destination@) && valid_payload(voucher.payload@) && !(
        valid_payload(voucher.value@) && payload_bytes(voucher.value@).len() <= 32) ==> (
        r matches Err(e) && e.spec_kind() == RollupErrorKind::Encoding && e.spec_message()
            == "Error decoding voucher value, it must be in Ethereum hex binary format"@),
        valid_eth_address(voucher.destination@) && valid_payload(voucher.payload@) && valid_payload(
            voucher.value@,
        ) && payload_bytes(voucher.value@).len() <= 32 ==> (r matches Ok(v) && {
            &&& v.destination@ == payload_bytes(voucher.destination@)
            &&& v.destination@.len() == 20
            &&& v.value@ == left_padded(payload_bytes(voucher.value@), 32)
            &&& v.payload@ == payload_bytes(voucher.payload@)
        }),
{
    if !check_eth_address(voucher.destination.as_str()) {
        return Err(RollupError::validation("Address not valid"));
    }
    let payload = match decode_payload(voucher.payload.as_str()) {
        Some(b) => b,
        None => {
            return Err(
                RollupError::encoding(
                    "Error decoding voucher payload, it must be in Ethereum hex binary format",
                ),
            );
        },
    };
    let value = match decode_fixed_width(voucher.value.as_str(), 32) {
        Some(b) => b,
        None => {
            return Err(
                RollupError::encoding(
                    "Error decoding voucher value, it must be in Ethereum hex binary format",
                ),
            );
        },
    };
    proof {
        lemma_valid_address_decodes(voucher.destination@);
    }
    let destination = match decode_payload(voucher.destination.as_str()) {
        Some(b) => b,
        None => {
            // unreachable: a valid address always decodes
            return Err(RollupError::validation("Address not valid"));
        },
    };
    Ok(EncodedVoucher { destination, value, payload })
}

/// Validates and decodes a generic-I/O query for the device: the domain must
/// be outside the reserved range, the payload well-formed hex.  A rejected
/// query never reaches the device.
pub fn prepare_gio(gio: &GIORequest) -> (r: Result<EncodedGIORequest, RollupError>)
    ensures
        !valid_gio_domain(gio.domain) ==> (r matches Err(e) && e.spec_kind()
            == RollupErrorKind::Validation && e.spec_message()
            == "gio request domain must be at least 0x10"@),
        valid_gio_domain(gio.domain) && !valid_payload(gio.payload@) ==> (r matches Err(e)
            && e.spec_kind() == RollupErrorKind::Encoding && e.spec_message()
            == "Error decoding gio request payload, payload must be in Ethereum hex binary format"@),
        valid_gio_domain(gio.domain) && valid_payload(gio.payload@) ==> (r matches Ok(g)
            && g.domain == gio.domain && g.payload@ == payload_bytes(gio.payload@)),
{
    if !check_gio_domain(gio.domain) {
        return Err(RollupError::validation("gio request domain must be at least 0x10"));
    }
    match decode_payload(gio.payload.as_str()) {
        Some(b) => Ok(EncodedGIORequest { domain: gio.domain, payload: b }),
        None => Err(
            RollupError::encoding(
                "Error decoding gio request payload, payload must be in Ethereum hex binary format",
            ),
        ),
    }
}

/// Interprets the status of a report write; a report has no index.
pub fn report_outcome(status: i32) -> (r: Result<(), RollupError>)
    ensures
        status == 0 ==> r is Ok,
        status != 0 ==> (r matches Err(e) && e.spec_kind() == RollupErrorKind::Device
            && e.spec_message() == device_error_message("IOCTL_ROLLUP_WRITE_REPORT"@, status as int)),
{
    if status != 0 {
        Err(RollupError::device("IOCTL_ROLLUP_WRITE_REPORT", status))
    } else {
        Ok(())
    }
}

/// Interprets the status of an exception write; an exception has no index.
pub fn exception_outcome(status: i32) -> (r: Result<(), RollupError>)
    ensures
        status == 0 ==> r is Ok,
        status != 0 ==> (r matches Err(e) && e.spec_kind() == RollupErrorKind::Device
            && e.spec_message() == device_error_message(
                "IOCTL_ROLLUP_THROW_EXCEPTION"@,
                status as int,
            )),
{
    if status != 0 {
        Err(RollupError::device("IOCTL_ROLLUP_THROW_EXCEPTION", status))
    } else {
        Ok(())
    }
}

/// Interprets the outcome of a generic-I/O exchange: on success the raw
/// response buffer is rendered as a hex payload next to the device's
/// response code.
pub fn gio_outcome(status: i32, response_code: u16, response: &Vec<u8>) -> (r: Result<
    GIOResponse,
    RollupError,
>)
    ensures
        status == 0 ==> (r matches Ok(resp) && resp.response_code == response_code
            && resp.response@ == hex_prefixed(response@)),
        status != 0 ==> (r matches Err(e) && e.spec_kind() == RollupErrorKind::Device
            && e.spec_message() == device_error_message("GIO request"@, status as int)),
{
    if status != 0 {
        Err(RollupError::device("GIO request", status))
    } else {
        Ok(GIOResponse { response_code, response: encode_payload(response.as_slice()) })
    }
}

/// How many vouchers were emitted in the first `k` steps of a run.
pub open spec fn vouchers_before(emitted: Seq<Option<u64>>, k: int) -> int
    decreases k,
{
    if k <= 0 {
        0
    } else {
        vouchers_before(emitted, k - 1) + if emitted[k - 1] is Some {
            1int
        } else {
            0int
        }
    }
}

/// Whether a run of session states is one device-handle lifetime: it starts
/// with no voucher emitted, and each step either emits a voucher with the
/// index the session assigned (`Some`) or leaves the voucher count alone
/// (`None`) -- finalizes, reads, notices, reports and failed writes all do.
pub open spec fn voucher_run(states: Seq<DeviceSession>, emitted: Seq<Option<u64>>) -> bool {
    &&& states.len() == emitted.len() + 1
    &&& states[0].spec_voucher_count() == 0
    &&& forall|k: int|
        0 <= k < emitted.len() ==> match #[trigger] emitted[k] {
            Some(i) => voucher_write_transition(states[k], states[k + 1], 0, Ok(i)),
            None => states[k + 1].spec_voucher_count() == states[k].spec_voucher_count(),
        }
}

proof fn lemma_voucher_count_is_emission_count(
    states: Seq<DeviceSession>,
    emitted: Seq<Option<u64>>,
    k: int,
)
    requires
        voucher_run(states, emitted),
        0 <= k <= emitted.len(),
    ensures
        states[k].spec_voucher_count() == vouchers_before(emitted, k),
    decreases k,
{
    if k > 0 {
        lemma_voucher_count_is_emission_count(states, emitted, k - 1);
    }
}

/// Voucher indices are device-handle ground truth and strictly increasing
/// from 1: in any run of one session lifetime -- finalizes, reads and other
/// outputs freely interleaved -- the k-th voucher successfully emitted is
/// assigned the index k+1, so the indices read 1, 2, 3, ... in order.
pub proof fn lemma_voucher_indices_strictly_increasing(
    states: Seq<DeviceSession>,
    emitted: Seq<Option<u64>>,
)
    requires
        voucher_run(states, emitted),
    ensures
        forall|k: int|
            0 <= k < emitted.len() ==> (#[trigger] emitted[k] matches Some(i) ==> i
                == vouchers_before(emitted, k) + 1),
{
    assert forall|k: int|
        0 <= k < emitted.len() implies (#[trigger] emitted[k] matches Some(i) ==> i
        == vouchers_before(emitted, k) + 1) by {
        lemma_voucher_count_is_emission_count(states, emitted, k);
    }
}

/// Exactly one request is read per cycle.  A finalize opens at most one
/// read, the one matching the kind it reported, and an unknown kind opens
/// none; once the read completes, successfully or not, no further read is
/// accepted until the next finalize.
pub proof fn lemma_one_request_per_cycle(
    pre: DeviceSession,
    mid: DeviceSession,
    accept: bool,
    status: i32,
    next_request_type: i32,
    next_request_payload_length: usize,
    r: Result<RollupFinish, RollupError>,
)
    requires
        finalize_transition(
            pre,
            mid,
            accept,
            status,
            next_request_type,
            next_request_payload_length,
            r,
        ),
    ensures
        !(mid.advance_read_allowed() && mid.inspect_read_allowed()),
        status >= 0 && next_request_type == REQUEST_TYPE_ADVANCE_STATE ==> (
        mid.advance_read_allowed() && !mid.inspect_read_allowed()),
        status >= 0 && next_request_type == REQUEST_TYPE_INSPECT_STATE ==> (
        mid.inspect_read_allowed() && !mid.advance_read_allowed()),
        status < 0 || (next_request_type != REQUEST_TYPE_ADVANCE_STATE && next_request_type
            != REQUEST_TYPE_INSPECT_STATE) ==> (!mid.advance_read_allowed()
            && !mid.inspect_read_allowed()),
{
}

/// Once a read completes, successfully or not, the session accepts no
/// second read in the same cycle: the next step can only be a finalize.
pub proof fn lemma_read_closes_reading(
    pre: DeviceSession,
    post: DeviceSession,
    status: i32,
    input: AdvanceInput,
    r: Result<AdvanceRequest, RollupError>,
)
    requires
        advance_read_transition(pre, post, status, input, r),
    ensures
        !post.advance_read_allowed(),
        !post.inspect_read_allowed(),
        post.finalize_allowed(),
{
}

/// The inspect counterpart: a completed inspect read, successful or not,
/// closes the cycle's reading phase as well.
pub proof fn lemma_inspect_read_closes_reading(
    pre: DeviceSession,
    post: DeviceSession,
    status: i32,
    payload: Seq<u8>,
    r: Result<InspectRequest, RollupError>,
)
    requires
        inspect_read_transition(pre, post, status, payload, r),
    ensures
        !post.advance_read_allowed(),
        !post.inspect_read_allowed(),
        post.finalize_allowed(),
{
}

} // verus!
