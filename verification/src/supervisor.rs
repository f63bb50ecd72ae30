//! The process supervisor's terminal signal: when the supervised
//! application exits, whatever it reports becomes a well-formed exception
//! payload for the device, so the host sees a clean end instead of a hang.

use vstd::prelude::*;
use vstd::utf8::encode_utf8;
use crate::codec::{encode_payload, hex_prefixed};
use crate::types::Exception;

verus! {

/// The diagnostic describing a supervised application that stopped with the
/// given status.
pub open spec fn exit_message(status_desc: Seq<char>) -> Seq<char> {
    "dapp exited with "@ + status_desc
}

/// Builds the diagnostic for an application that stopped with the given
/// status.
pub fn dapp_exit_message(status_desc: &str) -> (s: String)
    ensures
        s@ == exit_message(status_desc@),
{
    let mut s = String::from_str("dapp exited with ");
    s.append(status_desc);
    s
}

/// Wraps a diagnostic message into an exception record: the message's bytes
/// as a hex payload, exactly what the device's exception write takes.
pub fn exception_for_message(message: &str) -> (e: Exception)
    ensures
        e.payload@ == hex_prefixed(encode_utf8(message@)),
{
    let bytes = message.as_bytes();
    Exception { payload: encode_payload(bytes) }
}

/// The exception emitted when the supervised application stopped: one
/// record whose payload decodes back to a diagnostic naming the status.
pub fn exception_for_dapp_exit(status_desc: &str) -> (e: Exception)
    ensures
        e.payload@ == hex_prefixed(encode_utf8(exit_message(status_desc@))),
{
    let message = dapp_exit_message(status_desc);
    exception_for_message(message.as_str())
}

} // verus!
