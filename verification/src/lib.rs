//! Command-decoding layer of an OATH (HOTP/TOTP) smart-card applet.
//!
//! The library turns a raw ISO 7816-4 APDU frame (class, instruction, P1, P2
//! and a body byte slice) into one of a closed set of typed commands, or into
//! a typed status rejection.  It validates the outer header (secure messaging,
//! logical channel, the instruction table), walks the body as a sequence of
//! tag-length-value records, and builds zero-copy command values that borrow
//! their variable-length fields from the input buffer.  Decoding never panics
//! and never reads past the end of the buffer, whatever the input holds.

use vstd::prelude::*;

pub mod command;
pub mod laws;
pub mod oath;
pub mod tlv;

verus! {

/// Status outcomes at the dispatcher boundary, a subset of the ISO 7816-4
/// status words.  Every body-parsing failure is collapsed into
/// `IncorrectDataParameter`; the remaining variants report header-shape
/// failures and the one application-identifier mismatch.
#[derive(Clone, Copy, Debug, PartialEq, Eq, Structural)]
pub enum Status {
    /// The class byte requests secure messaging, which is not supported.
    SecureMessagingNotSupported,
    /// The class byte selects a logical channel other than 0.
    LogicalChannelNotSupported,
    /// The instruction byte, or the full (class, instruction, P1, P2) tuple,
    /// is not in the command table.
    InstructionNotSupportedOrInvalid,
    /// The body failed to decode: a structural TLV error, a mandatory tag
    /// mismatch, or a byte value outside a constant table.
    IncorrectDataParameter,
    /// A Select body that is not the fixed application identifier.
    NotFound,
}

} // verus!
