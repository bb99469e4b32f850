//! Error taxonomy of the protocol engine. Each kind is surfaced distinctly;
//! none is recovered from automatically (bounded per-packet retry around a
//! failed chunk exchange is decided by the transfer session).

use vstd::prelude::*;

verus! {

/// Everything that can go wrong during one command exchange.
#[derive(Debug, Clone, Copy, PartialEq, Eq, Structural)]
pub enum ProtocolError {
    /// Port open, write or read failed at the transport layer.
    Transport,
    /// No complete reply arrived within the command's timeout window.
    Timeout,
    /// A reply frame's stored checksum did not match the one computed
    /// over its first seventy bytes.
    ChecksumMismatch,
    /// A reply was well-formed but semantically inconsistent, such as an
    /// unexpected packet-index echo during a chunked transfer.
    ProtocolViolation,
    /// The source image is larger than the target region, detected before
    /// any frame is sent.
    SizeMismatch,
}

impl ProtocolError {
    /// A short description of the error kind, one distinct message each.
    pub fn message(&self) -> (r: &'static str)
        ensures
            *self is Transport ==> r@ == "serial transport failure"@,
            *self is Timeout ==> r@ == "timed out waiting for a reply"@,
            *self is ChecksumMismatch ==> r@ == "reply frame failed checksum validation"@,
            *self is ProtocolViolation ==> r@ == "reply was inconsistent with the protocol state"@,
            *self is SizeMismatch ==> r@ == "image does not fit the target region"@,
    {
        match self {
            ProtocolError::Transport => "serial transport failure",
            ProtocolError::Timeout => "timed out waiting for a reply",
            ProtocolError::ChecksumMismatch => "reply frame failed checksum validation",
            ProtocolError::ProtocolViolation => "reply was inconsistent with the protocol state",
            ProtocolError::SizeMismatch => "image does not fit the target region",
        }
    }
}

} // verus!
