//! Protocol constant tables: instruction codes, TLV tag identifiers,
//! credential kinds, HMAC algorithm identifiers and property bits.
//!
//! Each table is a total function from a restricted set of byte values to an
//! enumerated value; every byte outside the set yields a typed failure.

use crate::Status;
use vstd::prelude::*;

verus! {

/// The instruction byte of the protocol's command table.
#[derive(Clone, Copy, Debug, PartialEq, Eq, Structural)]
pub enum Instruction {
    /// Register a credential.
    Put,
    /// Delete a credential.
    Delete,
    /// Set or clear the password.
    SetCode,
    /// Delete all credentials and rotate the salt.
    Reset,
    /// List all credentials.
    List,
    /// Calculate the authentication data for one credential.
    Calculate,
    /// Validate the password (both ways).
    Validate,
    /// Calculate the authentication data for all credentials.
    CalculateAll,
    /// Send remaining data in the buffer.
    SendRemaining,
    /// Reverse HOTP validation.
    VerifyCode,
    /// Verify the PIN through the backend.
    VerifyPIN,
    /// Change the PIN through the backend.
    ChangePIN,
    /// Set the PIN through the backend.
    SetPIN,
}

/// The partial map from an instruction byte to the command table's entry.
pub open spec fn spec_instruction(byte: u8) -> Option<Instruction> {
    if byte == 0x01 {
        Some(Instruction::Put)
    } else if byte == 0x02 {
        Some(Instruction::Delete)
    } else if byte == 0x03 {
        Some(Instruction::SetCode)
    } else if byte == 0x04 {
        Some(Instruction::Reset)
    } else if byte == 0xa1 {
        Some(Instruction::List)
    } else if byte == 0xa2 {
        Some(Instruction::Calculate)
    } else if byte == 0xa3 {
        Some(Instruction::Validate)
    } else if byte == 0xa4 {
        Some(Instruction::CalculateAll)
    } else if byte == 0xa5 {
        Some(Instruction::SendRemaining)
    } else if byte == 0xb1 {
        Some(Instruction::VerifyCode)
    } else if byte == 0xb2 {
        Some(Instruction::VerifyPIN)
    } else if byte == 0xb3 {
        Some(Instruction::ChangePIN)
    } else if byte == 0xb4 {
        Some(Instruction::SetPIN)
    } else {
        None
    }
}

impl Instruction {
    /// Decode an instruction byte; an unlisted byte is rejected as an
    /// unsupported instruction.
    pub fn try_from(byte: u8) -> (r: Result<Instruction, Status>)
        ensures
            match r {
                Ok(i) => spec_instruction(byte) == Some(i),
                Err(e) => spec_instruction(byte) is None
                    && e == Status::InstructionNotSupportedOrInvalid,
            },
    {
        match byte {
            0x01 => Ok(Instruction::Put),
            0x02 => Ok(Instruction::Delete),
            0x03 => Ok(Instruction::SetCode),
            0x04 => Ok(Instruction::Reset),
            0xa1 => Ok(Instruction::List),
            0xa2 => Ok(Instruction::Calculate),
            0xa3 => Ok(Instruction::Validate),
            0xa4 => Ok(Instruction::CalculateAll),
            0xa5 => Ok(Instruction::SendRemaining),
            0xb1 => Ok(Instruction::VerifyCode),
            0xb2 => Ok(Instruction::VerifyPIN),
            0xb3 => Ok(Instruction::ChangePIN),
            0xb4 => Ok(Instruction::SetPIN),
            _ => Err(Status::InstructionNotSupportedOrInvalid),
        }
    }
}

/// A TLV tag identifier from the protocol's closed registry.
#[derive(Clone, Copy, Debug, PartialEq, Eq, Structural)]
pub enum Tag {
    /// The label of a credential.
    Name,
    /// Key material: a kind/algorithm header followed by the secret.
    Key,
    /// A challenge to authenticate against.
    Challenge,
    /// A response to a previous challenge.
    Response,
    /// A one-byte property bitmask.
    Property,
    /// The initial counter of a counter-based credential.
    InitialMovingFactor,
    /// A password.
    Password,
    /// A replacement password.
    NewPassword,
}

impl Tag {
    /// The byte that identifies this tag on the wire.
    pub open spec fn spec_byte(self) -> u8 {
        match self {
            Tag::Name => 0x71,
            Tag::Key => 0x73,
            Tag::Challenge => 0x74,
            Tag::Response => 0x75,
            Tag::Property => 0x78,
            Tag::InitialMovingFactor => 0x7a,
            Tag::Password => 0x80,
            Tag::NewPassword => 0x81,
        }
    }

    /// The byte that identifies this tag on the wire.
    pub fn byte(self) -> (r: u8)
        ensures
            r == self.spec_byte(),
    {
        match self {
            Tag::Name => 0x71,
            Tag::Key => 0x73,
            Tag::Challenge => 0x74,
            Tag::Response => 0x75,
            Tag::Property => 0x78,
            Tag::InitialMovingFactor => 0x7a,
            Tag::Password => 0x80,
            Tag::NewPassword => 0x81,
        }
    }
}

/// The kind of a credential, encoded in the high nibble of the key header
/// byte it shares with [`Algorithm`].
#[derive(Clone, Copy, Debug, PartialEq, Eq, Structural)]
pub enum Kind {
    /// Counter-based one-time passwords.
    Hotp,
    /// Time-based one-time passwords.
    Totp,
    /// Counter-based, with the challenge verified against the device-held
    /// counter instead of the host.
    HotpReverse,
}

/// The partial map from the high nibble of the shared header byte to a kind.
pub open spec fn spec_kind(byte: u8) -> Option<Kind> {
    if byte & 0xf0 == 0x10 {
        Some(Kind::Hotp)
    } else if byte & 0xf0 == 0x20 {
        Some(Kind::Totp)
    } else if byte & 0xf0 == 0x30 {
        Some(Kind::HotpReverse)
    } else {
        None
    }
}

impl Kind {
    /// Decode the high nibble of the shared kind/algorithm byte.
    pub fn try_from(byte: u8) -> (r: Result<Kind, Status>)
        ensures
            match r {
                Ok(k) => spec_kind(byte) == Some(k),
                Err(e) => spec_kind(byte) is None && e == Status::IncorrectDataParameter,
            },
    {
        let nibble = byte & 0xf0;
        if nibble == 0x10 {
            Ok(Kind::Hotp)
        } else if nibble == 0x20 {
            Ok(Kind::Totp)
        } else if nibble == 0x30 {
            Ok(Kind::HotpReverse)
        } else {
            Err(Status::IncorrectDataParameter)
        }
    }

    /// A counter-based kind carries an initial counter; a time-based kind
    /// does not.
    pub open spec fn spec_counter_based(self) -> bool {
        self == Kind::Hotp || self == Kind::HotpReverse
    }

    /// A counter-based kind carries an initial counter; a time-based kind
    /// does not.
    pub fn counter_based(self) -> (r: bool)
        ensures
            r == self.spec_counter_based(),
    {
        match self {
            Kind::Hotp => true,
            Kind::HotpReverse => true,
            Kind::Totp => false,
        }
    }
}

/// The HMAC algorithm of a credential, encoded in the low nibble of the key
/// header byte it shares with [`Kind`].
#[derive(Clone, Copy, Debug, PartialEq, Eq, Structural)]
pub enum Algorithm {
    Sha1,
    Sha256,
    Sha512,
}

/// The partial map from the low nibble of the shared header byte to an
/// algorithm.
pub open spec fn spec_algorithm(byte: u8) -> Option<Algorithm> {
    if byte & 0x0f == 0x01 {
        Some(Algorithm::Sha1)
    } else if byte & 0x0f == 0x02 {
        Some(Algorithm::Sha256)
    } else if byte & 0x0f == 0x03 {
        Some(Algorithm::Sha512)
    } else {
        None
    }
}

impl Algorithm {
    /// Decode the low nibble of the shared kind/algorithm byte.
    pub fn try_from(byte: u8) -> (r: Result<Algorithm, Status>)
        ensures
            match r {
                Ok(a) => spec_algorithm(byte) == Some(a),
                Err(e) => spec_algorithm(byte) is None && e == Status::IncorrectDataParameter,
            },
    {
        let nibble = byte & 0x0f;
        if nibble == 0x01 {
            Ok(Algorithm::Sha1)
        } else if nibble == 0x02 {
            Ok(Algorithm::Sha256)
        } else if nibble == 0x03 {
            Ok(Algorithm::Sha512)
        } else {
            Err(Status::IncorrectDataParameter)
        }
    }
}

/// The only defined bit of the property bitmask: the credential requires a
/// touch confirmation before use.  All other bits are ignored.
pub const PROPERTY_REQUIRE_TOUCH: u8 = 0x02;

} // verus!
