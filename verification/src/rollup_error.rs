//! The error type shared by the device gateway, the codec and the HTTP
//! decision layer.

use vstd::prelude::*;
use crate::numfmt::dec_int;

verus! {

/// What went wrong, by origin: a failed device exchange, a malformed hex
/// payload, a field rejected before it reached the device, a request type
/// the protocol does not know, or a failure of the supervised application
/// process.
#[derive(Clone, Copy, Debug, PartialEq, Eq, Structural)]
pub enum RollupErrorKind {
    Device,
    Encoding,
    Validation,
    UnsupportedRequestKind,
    Process,
}

/// An error with its origin and a human-readable message.
#[derive(Clone, Debug, PartialEq, Eq)]
pub struct RollupError {
    kind: RollupErrorKind,
    message: String,
}

/// The message reported when a device exchange named `op` returns a nonzero
/// status.
pub open spec fn device_error_message(op: Seq<char>, status: int) -> Seq<char> {
    op + " returned error "@ + dec_int(status)
}

impl RollupError {
    pub closed spec fn spec_kind(&self) -> RollupErrorKind {
        self.kind
    }

    pub closed spec fn spec_message(&self) -> Seq<char> {
        self.message@
    }

    /// A device-level error, the kind raised by every failed device exchange.
    pub fn new(message: &str) -> (e: Self)
        ensures
            e.spec_kind() == RollupErrorKind::Device,
            e.spec_message() == message@,
    {
        RollupError { kind: RollupErrorKind::Device, message: String::from_str(message) }
    }

    /// A device-level error for the exchange named `op` failing with `status`.
    pub fn device(op: &str, status: i32) -> (e: Self)
        ensures
            e.spec_kind() == RollupErrorKind::Device,
            e.spec_message() == device_error_message(op@, status as int),
    {
        let mut message = String::from_str(op);
        message.append(" returned error ");
        let digits = crate::numfmt::i32_to_dec(status);
        message.append(digits.as_str());
        RollupError { kind: RollupErrorKind::Device, message }
    }

    /// An error for a payload that is not well-formed hex.
    pub fn encoding(message: &str) -> (e: Self)
        ensures
            e.spec_kind() == RollupErrorKind::Encoding,
            e.spec_message() == message@,
    {
        RollupError { kind: RollupErrorKind::Encoding, message: String::from_str(message) }
    }

    /// An error for a field rejected before it reaches the device.
    pub fn validation(message: &str) -> (e: Self)
        ensures
            e.spec_kind() == RollupErrorKind::Validation,
            e.spec_message() == message@,
    {
        RollupError { kind: RollupErrorKind::Validation, message: String::from_str(message) }
    }

    /// The error for a request type outside the protocol.
    pub fn unsupported(message: &str) -> (e: Self)
        ensures
            e.spec_kind() == RollupErrorKind::UnsupportedRequestKind,
            e.spec_message() == message@,
    {
        RollupError { kind: RollupErrorKind::UnsupportedRequestKind, message: String::from_str(message) }
    }

    /// An error for the supervised application process failing.
    pub fn process(message: &str) -> (e: Self)
        ensures
            e.spec_kind() == RollupErrorKind::Process,
            e.spec_message() == message@,
    {
        RollupError { kind: RollupErrorKind::Process, message: String::from_str(message) }
    }

    pub fn kind(&self) -> (k: RollupErrorKind)
        ensures
            k == self.spec_kind(),
    {
        self.kind
    }

    pub fn message(&self) -> (m: &str)
        ensures
            m@ == self.spec_message(),
    {
        self.message.as_str()
    }

    /// The rendering used wherever the error is shown: the message under a
    /// fixed prefix.
    pub fn to_string(&self) -> (s: String)
        ensures
            s@ == "rollup error: "@ + self.spec_message(),
    {
        let mut s = String::from_str("rollup error: ");
        s.append(self.message.as_str());
        s
    }
}

} // verus!
