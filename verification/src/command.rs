//! The closed set of typed commands, one parser per command payload shape,
//! and the dispatcher that maps a validated APDU header to the parser.
//!
//! Every command borrows its variable-length fields from the input buffer:
//! nothing is copied, and the buffer must outlive the produced value.  Each
//! parser consumes the body's TLV records in a fixed order and returns
//! either a fully populated command or a single typed failure; trailing
//! bytes after the consumed records are ignored.

use crate::oath;
use crate::tlv;
use crate::Status;
use vstd::prelude::*;

verus! {

/// The one-byte property bitmask of a registered credential.  Only the
/// touch-required bit is defined; all other bits are ignored.
#[derive(Clone, Copy, Debug, PartialEq, Eq, Structural)]
pub struct Properties(pub u8);

impl Properties {
    /// Whether the touch-required bit is set.
    pub open spec fn spec_touch_required(self) -> bool {
        self.0 & oath::PROPERTY_REQUIRE_TOUCH != 0
    }

    /// Whether the touch-required bit is set.
    pub fn touch_required(&self) -> (r: bool)
        ensures
            r == self.spec_touch_required(),
    {
        self.0 & oath::PROPERTY_REQUIRE_TOUCH != 0
    }
}

/// The fixed application identifier that a Select body must equal,
/// byte for byte.
pub open spec fn spec_aid() -> Seq<u8> {
    seq![0xa0u8, 0x00u8, 0x00u8, 0x05u8, 0x27u8, 0x21u8, 0x01u8]
}

/// Whether `data` equals the fixed application identifier byte for byte.
fn is_aid(data: &[u8]) -> (r: bool)
    ensures
        r == (data@ == spec_aid()),
{
    if data.len() != 7 {
        return false;
    }
    let r = data[0] == 0xa0 && data[1] == 0x00 && data[2] == 0x00 && data[3] == 0x05 && data[4]
        == 0x27 && data[5] == 0x21 && data[6] == 0x01;
    proof {
        if r {
            assert(data@ =~= spec_aid());
        } else {
            if data@ == spec_aid() {
                assert(data@[0] == 0xa0 && data@[1] == 0x00 && data@[2] == 0x00 && data@[3] == 0x05
                    && data@[4] == 0x27 && data@[5] == 0x21 && data@[6] == 0x01);
            }
        }
    }
    r
}

/// Select the application.
#[derive(Clone, Copy, Debug, PartialEq, Eq)]
pub struct Select<'l> {
    pub aid: &'l [u8],
}

/// The mathematical value of a [`Select`].
pub struct SelectView {
    pub aid: Seq<u8>,
}

impl View for Select<'_> {
    type V = SelectView;

    open spec fn view(&self) -> SelectView {
        SelectView { aid: self.aid@ }
    }
}

impl<'l> Select<'l> {
    /// A Select body succeeds exactly when it equals the fixed application
    /// identifier; any other body yields `NotFound`.
    pub fn try_from(data: &'l [u8]) -> (r: Result<Select<'l>, Status>)
        ensures
            match r {
                Ok(c) => data@ == spec_aid() && c@ == (SelectView { aid: data@ }),
                Err(e) => data@ != spec_aid() && e == Status::NotFound,
            },
    {
        if is_aid(data) {
            Ok(Select { aid: data })
        } else {
            Err(Status::NotFound)
        }
    }
}

/// Set a password for challenge-response authentication.
#[derive(Clone, Copy, Debug, PartialEq, Eq)]
pub struct SetPassword<'l> {
    pub kind: oath::Kind,
    pub algorithm: oath::Algorithm,
    pub key: &'l [u8],
    pub challenge: &'l [u8],
    pub response: &'l [u8],
}

/// The mathematical value of a [`SetPassword`].
pub struct SetPasswordView {
    pub kind: oath::Kind,
    pub algorithm: oath::Algorithm,
    pub key: Seq<u8>,
    pub challenge: Seq<u8>,
    pub response: Seq<u8>,
}

impl View for SetPassword<'_> {
    type V = SetPasswordView;

    open spec fn view(&self) -> SetPasswordView {
        SetPasswordView {
            kind: self.kind,
            algorithm: self.algorithm,
            key: self.key@,
            challenge: self.challenge@,
            response: self.response@,
        }
    }
}

/// The SetPassword body: a Key record whose value is the kind/algorithm
/// header byte followed by at least one secret byte, then a Challenge
/// record, then a Response record.
pub open spec fn spec_set_password(d: Seq<u8>) -> Option<SetPasswordView> {
    match tlv::spec_record(d, 0) {
        Some(r1) => if r1.tag != oath::Tag::Key.spec_byte() || r1.value.len() < 2 {
            None
        } else {
            match (oath::spec_kind(r1.value[0]), oath::spec_algorithm(r1.value[0])) {
                (Some(kind), Some(algorithm)) => match tlv::spec_record(d, r1.end) {
                    Some(r2) => if r2.tag != oath::Tag::Challenge.spec_byte() {
                        None
                    } else {
                        match tlv::spec_record(d, r2.end) {
                            Some(r3) => if r3.tag != oath::Tag::Response.spec_byte() {
                                None
                            } else {
                                Some(
                                    SetPasswordView {
                                        kind,
                                        algorithm,
                                        key: r1.value.subrange(1, r1.value.len() as int),
                                        challenge: r2.value,
                                        response: r3.value,
                                    },
                                )
                            },
                            None => None,
                        }
                    },
                    None => None,
                },
                _ => None,
            }
        },
        None => None,
    }
}

impl<'l> SetPassword<'l> {
    /// Parse a SetPassword body; every failure is `IncorrectDataParameter`.
    pub fn try_from(data: &'l [u8]) -> (r: Result<SetPassword<'l>, Status>)
        ensures
            match r {
                Ok(c) => spec_set_password(data@) == Some(c@),
                Err(e) => spec_set_password(data@) is None && e == Status::IncorrectDataParameter,
            },
    {
        let mut reader = tlv::Reader::new(data);
        let (tag1, key_field) = match reader.decode_next() {
            Ok(x) => x,
            Err(e) => return Err(e),
        };
        if tag1 != oath::Tag::Key.byte() {
            return Err(Status::IncorrectDataParameter);
        }
        if key_field.len() < 2 {
            return Err(Status::IncorrectDataParameter);
        }
        let header = key_field[0];
        let kind = match oath::Kind::try_from(header) {
            Ok(k) => k,
            Err(e) => return Err(e),
        };
        let algorithm = match oath::Algorithm::try_from(header) {
            Ok(a) => a,
            Err(e) => return Err(e),
        };
        let key = vstd::slice::slice_subrange(key_field, 1, key_field.len());
        let (tag2, challenge) = match reader.decode_next() {
            Ok(x) => x,
            Err(e) => return Err(e),
        };
        if tag2 != oath::Tag::Challenge.byte() {
            return Err(Status::IncorrectDataParameter);
        }
        let (tag3, response) = match reader.decode_next() {
            Ok(x) => x,
            Err(e) => return Err(e),
        };
        if tag3 != oath::Tag::Response.byte() {
            return Err(Status::IncorrectDataParameter);
        }
        Ok(SetPassword { kind, algorithm, key, challenge, response })
    }
}

/// Validate the password (both ways).
#[derive(Clone, Copy, Debug, PartialEq, Eq)]
pub struct Validate<'l> {
    pub response: &'l [u8],
    pub challenge: &'l [u8],
}

/// The mathematical value of a [`Validate`].
pub struct ValidateView {
    pub response: Seq<u8>,
    pub challenge: Seq<u8>,
}

impl View for Validate<'_> {
    type V = ValidateView;

    open spec fn view(&self) -> ValidateView {
        ValidateView { response: self.response@, challenge: self.challenge@ }
    }
}

/// The Validate body: a Response record then a Challenge record, in that
/// order.
pub open spec fn spec_validate(d: Seq<u8>) -> Option<ValidateView> {
    match tlv::spec_record(d, 0) {
        Some(r1) => if r1.tag != oath::Tag::Response.spec_byte() {
            None
        } else {
            match tlv::spec_record(d, r1.end) {
                Some(r2) => if r2.tag != oath::Tag::Challenge.spec_byte() {
                    None
                } else {
                    Some(ValidateView { response: r1.value, challenge: r2.value })
                },
                None => None,
            }
        },
        None => None,
    }
}

impl<'l> Validate<'l> {
    /// Parse a Validate body; every failure is `IncorrectDataParameter`.
    pub fn try_from(data: &'l [u8]) -> (r: Result<Validate<'l>, Status>)
        ensures
            match r {
                Ok(c) => spec_validate(data@) == Some(c@),
                Err(e) => spec_validate(data@) is None && e == Status::IncorrectDataParameter,
            },
    {
        let mut reader = tlv::Reader::new(data);
        let (tag1, response) = match reader.decode_next() {
            Ok(x) => x,
            Err(e) => return Err(e),
        };
        if tag1 != oath::Tag::Response.byte() {
            return Err(Status::IncorrectDataParameter);
        }
        let (tag2, challenge) = match reader.decode_next() {
            Ok(x) => x,
            Err(e) => return Err(e),
        };
        if tag2 != oath::Tag::Challenge.byte() {
            return Err(Status::IncorrectDataParameter);
        }
        Ok(Validate { challenge, response })
    }
}

/// Reverse HOTP validation: check a host-supplied code for a credential.
#[derive(Clone, Copy, Debug, PartialEq, Eq)]
pub struct VerifyCode<'l> {
    pub label: &'l [u8],
    pub response: u32,
}

/// The mathematical value of a [`VerifyCode`].
pub struct VerifyCodeView {
    pub label: Seq<u8>,
    pub response: u32,
}

impl View for VerifyCode<'_> {
    type V = VerifyCodeView;

    open spec fn view(&self) -> VerifyCodeView {
        VerifyCodeView { label: self.label@, response: self.response }
    }
}

/// The VerifyCode body: a Name record, then a Response record whose value
/// is exactly four bytes, read as a big-endian unsigned integer.
pub open spec fn spec_verify_code(d: Seq<u8>) -> Option<VerifyCodeView> {
    match tlv::spec_record(d, 0) {
        Some(r1) => if r1.tag != oath::Tag::Name.spec_byte() {
            None
        } else {
            match tlv::spec_record(d, r1.end) {
                Some(r2) => if r2.tag != oath::Tag::Response.spec_byte() || r2.value.len() != 4 {
                    None
                } else {
                    Some(
                        VerifyCodeView {
                            label: r1.value,
                            response: tlv::be_value(r2.value) as u32,
                        },
                    )
                },
                None => None,
            }
        },
        None => None,
    }
}

impl<'l> VerifyCode<'l> {
    /// Parse a VerifyCode body; every failure is `IncorrectDataParameter`.
    pub fn try_from(data: &'l [u8]) -> (r: Result<VerifyCode<'l>, Status>)
        ensures
            match r {
                Ok(c) => spec_verify_code(data@) == Some(c@),
                Err(e) => spec_verify_code(data@) is None && e == Status::IncorrectDataParameter,
            },
    {
        let mut reader = tlv::Reader::new(data);
        let (tag1, label) = match reader.decode_next() {
            Ok(x) => x,
            Err(e) => return Err(e),
        };
        if tag1 != oath::Tag::Name.byte() {
            return Err(Status::IncorrectDataParameter);
        }
        let (tag2, code) = match reader.decode_next() {
            Ok(x) => x,
            Err(e) => return Err(e),
        };
        if tag2 != oath::Tag::Response.byte() || code.len() != 4 {
            return Err(Status::IncorrectDataParameter);
        }
        let response = tlv::be_u32(code);
        proof {
            tlv::lemma_be_value_bound(code@);
        }
        Ok(VerifyCode { label, response })
    }
}

/// Set the PIN through the backend.
#[derive(Clone, Copy, Debug, PartialEq, Eq)]
pub struct SetPin<'l> {
    pub password: &'l [u8],
}

/// The mathematical value of a [`SetPin`].
pub struct SetPinView {
    pub password: Seq<u8>,
}

impl View for SetPin<'_> {
    type V = SetPinView;

    open spec fn view(&self) -> SetPinView {
        SetPinView { password: self.password@ }
    }
}

/// The SetPin body: a single Password record.
pub open spec fn spec_set_pin(d: Seq<u8>) -> Option<SetPinView> {
    match tlv::spec_record(d, 0) {
        Some(r1) => if r1.tag != oath::Tag::Password.spec_byte() {
            None
        } else {
            Some(SetPinView { password: r1.value })
        },
        None => None,
    }
}

impl<'l> SetPin<'l> {
    /// Parse a SetPin body; every failure is `IncorrectDataParameter`.
    pub fn try_from(data: &'l [u8]) -> (r: Result<SetPin<'l>, Status>)
        ensures
            match r {
                Ok(c) => spec_set_pin(data@) == Some(c@),
                Err(e) => spec_set_pin(data@) is None && e == Status::IncorrectDataParameter,
            },
    {
        let mut reader = tlv::Reader::new(data);
        let (tag1, password) = match reader.decode_next() {
            Ok(x) => x,
            Err(e) => return Err(e),
        };
        if tag1 != oath::Tag::Password.byte() {
            return Err(Status::IncorrectDataParameter);
        }
        Ok(SetPin { password })
    }
}

/// Change the PIN through the backend.
#[derive(Clone, Copy, Debug, PartialEq, Eq)]
pub struct ChangePin<'l> {
    pub password: &'l [u8],
    pub new_password: &'l [u8],
}

/// The mathematical value of a [`ChangePin`].
pub struct ChangePinView {
    pub password: Seq<u8>,
    pub new_password: Seq<u8>,
}

impl View for ChangePin<'_> {
    type V = ChangePinView;

    open spec fn view(&self) -> ChangePinView {
        ChangePinView { password: self.password@, new_password: self.new_password@ }
    }
}

/// The ChangePin body: a Password record then a NewPassword record.
pub open spec fn spec_change_pin(d: Seq<u8>) -> Option<ChangePinView> {
    match tlv::spec_record(d, 0) {
        Some(r1) => if r1.tag != oath::Tag::Password.spec_byte() {
            None
        } else {
            match tlv::spec_record(d, r1.end) {
                Some(r2) => if r2.tag != oath::Tag::NewPassword.spec_byte() {
                    None
                } else {
                    Some(ChangePinView { password: r1.value, new_password: r2.value })
                },
                None => None,
            }
        },
        None => None,
    }
}

impl<'l> ChangePin<'l> {
    /// Parse a ChangePin body; every failure is `IncorrectDataParameter`.
    pub fn try_from(data: &'l [u8]) -> (r: Result<ChangePin<'l>, Status>)
        ensures
            match r {
                Ok(c) => spec_change_pin(data@) == Some(c@),
                Err(e) => spec_change_pin(data@) is None && e == Status::IncorrectDataParameter,
            },
    {
        let mut reader = tlv::Reader::new(data);
        let (tag1, password) = match reader.decode_next() {
            Ok(x) => x,
            Err(e) => return Err(e),
        };
        if tag1 != oath::Tag::Password.byte() {
            return Err(Status::IncorrectDataParameter);
        }
        let (tag2, new_password) = match reader.decode_next() {
            Ok(x) => x,
            Err(e) => return Err(e),
        };
        if tag2 != oath::Tag::NewPassword.byte() {
            return Err(Status::IncorrectDataParameter);
        }
        Ok(ChangePin { password, new_password })
    }
}

/// Verify the PIN through the backend.
#[derive(Clone, Copy, Debug, PartialEq, Eq)]
pub struct VerifyPin<'l> {
    pub password: &'l [u8],
}

/// The mathematical value of a [`VerifyPin`].
pub struct VerifyPinView {
    pub password: Seq<u8>,
}

impl View for VerifyPin<'_> {
    type V = VerifyPinView;

    open spec fn view(&self) -> VerifyPinView {
        VerifyPinView { password: self.password@ }
    }
}

/// The VerifyPin body: a single Password record.
pub open spec fn spec_verify_pin(d: Seq<u8>) -> Option<VerifyPinView> {
    match tlv::spec_record(d, 0) {
        Some(r1) => if r1.tag != oath::Tag::Password.spec_byte() {
            None
        } else {
            Some(VerifyPinView { password: r1.value })
        },
        None => None,
    }
}

impl<'l> VerifyPin<'l> {
    /// Parse a VerifyPin body; every failure is `IncorrectDataParameter`.
    pub fn try_from(data: &'l [u8]) -> (r: Result<VerifyPin<'l>, Status>)
        ensures
            match r {
                Ok(c) => spec_verify_pin(data@) == Some(c@),
                Err(e) => spec_verify_pin(data@) is None && e == Status::IncorrectDataParameter,
            },
    {
        let mut reader = tlv::Reader::new(data);
        let (tag1, password) = match reader.decode_next() {
            Ok(x) => x,
            Err(e) => return Err(e),
        };
        if tag1 != oath::Tag::Password.byte() {
            return Err(Status::IncorrectDataParameter);
        }
        Ok(VerifyPin { password })
    }
}

/// Calculate the authentication data for the credential with this label.
#[derive(Clone, Copy, Debug, PartialEq, Eq)]
pub struct Calculate<'l> {
    pub label: &'l [u8],
    pub challenge: &'l [u8],
}

/// The mathematical value of a [`Calculate`].
pub struct CalculateView {
    pub label: Seq<u8>,
    pub challenge: Seq<u8>,
}

impl View for Calculate<'_> {
    type V = CalculateView;

    open spec fn view(&self) -> CalculateView {
        CalculateView { label: self.label@, challenge: self.challenge@ }
    }
}

/// The Calculate body: a Name record then a Challenge record.
pub open spec fn spec_calculate(d: Seq<u8>) -> Option<CalculateView> {
    match tlv::spec_record(d, 0) {
        Some(r1) => if r1.tag != oath::Tag::Name.spec_byte() {
            None
        } else {
            match tlv::spec_record(d, r1.end) {
                Some(r2) => if r2.tag != oath::Tag::Challenge.spec_byte() {
                    None
                } else {
                    Some(CalculateView { label: r1.value, challenge: r2.value })
                },
                None => None,
            }
        },
        None => None,
    }
}

impl<'l> Calculate<'l> {
    /// Parse a Calculate body; every failure is `IncorrectDataParameter`.
    pub fn try_from(data: &'l [u8]) -> (r: Result<Calculate<'l>, Status>)
        ensures
            match r {
                Ok(c) => spec_calculate(data@) == Some(c@),
                Err(e) => spec_calculate(data@) is None && e == Status::IncorrectDataParameter,
            },
    {
        let mut reader = tlv::Reader::new(data);
        let (tag1, label) = match reader.decode_next() {
            Ok(x) => x,
            Err(e) => return Err(e),
        };
        if tag1 != oath::Tag::Name.byte() {
            return Err(Status::IncorrectDataParameter);
        }
        let (tag2, challenge) = match reader.decode_next() {
            Ok(x) => x,
            Err(e) => return Err(e),
        };
        if tag2 != oath::Tag::Challenge.byte() {
            return Err(Status::IncorrectDataParameter);
        }
        Ok(Calculate { label, challenge })
    }
}

/// Calculate the authentication data for all credentials.
#[derive(Clone, Copy, Debug, PartialEq, Eq)]
pub struct CalculateAll<'l> {
    pub challenge: &'l [u8],
}

/// The mathematical value of a [`CalculateAll`].
pub struct CalculateAllView {
    pub challenge: Seq<u8>,
}

impl View for CalculateAll<'_> {
    type V = CalculateAllView;

    open spec fn view(&self) -> CalculateAllView {
        CalculateAllView { challenge: self.challenge@ }
    }
}

/// The CalculateAll body: a single Challenge record.
pub open spec fn spec_calculate_all(d: Seq<u8>) -> Option<CalculateAllView> {
    match tlv::spec_record(d, 0) {
        Some(r1) => if r1.tag != oath::Tag::Challenge.spec_byte() {
            None
        } else {
            Some(CalculateAllView { challenge: r1.value })
        },
        None => None,
    }
}

impl<'l> CalculateAll<'l> {
    /// Parse a CalculateAll body; every failure is `IncorrectDataParameter`.
    pub fn try_from(data: &'l [u8]) -> (r: Result<CalculateAll<'l>, Status>)
        ensures
            match r {
                Ok(c) => spec_calculate_all(data@) == Some(c@),
                Err(e) => spec_calculate_all(data@) is None && e
                    == Status::IncorrectDataParameter,
            },
    {
        let mut reader = tlv::Reader::new(data);
        let (tag1, challenge) = match reader.decode_next() {
            Ok(x) => x,
            Err(e) => return Err(e),
        };
        if tag1 != oath::Tag::Challenge.byte() {
            return Err(Status::IncorrectDataParameter);
        }
        Ok(CalculateAll { challenge })
    }
}

/// Delete the credential with this label.
#[derive(Clone, Copy, Debug, PartialEq, Eq)]
pub struct Delete<'l> {
    pub label: &'l [u8],
}

/// The mathematical value of a [`Delete`].
pub struct DeleteView {
    pub label: Seq<u8>,
}

impl View for Delete<'_> {
    type V = DeleteView;

    open spec fn view(&self) -> DeleteView {
        DeleteView { label: self.label@ }
    }
}

/// The Delete body: a single Name record.
pub open spec fn spec_delete(d: Seq<u8>) -> Option<DeleteView> {
    match tlv::spec_record(d, 0) {
        Some(r1) => if r1.tag != oath::Tag::Name.spec_byte() {
            None
        } else {
            Some(DeleteView { label: r1.value })
        },
        None => None,
    }
}

impl<'l> Delete<'l> {
    /// Parse a Delete body; every failure is `IncorrectDataParameter`.
    pub fn try_from(data: &'l [u8]) -> (r: Result<Delete<'l>, Status>)
        ensures
            match r {
                Ok(c) => spec_delete(data@) == Some(c@),
                Err(e) => spec_delete(data@) is None && e == Status::IncorrectDataParameter,
            },
    {
        let mut reader = tlv::Reader::new(data);
        let (tag1, label) = match reader.decode_next() {
            Ok(x) => x,
            Err(e) => return Err(e),
        };
        if tag1 != oath::Tag::Name.byte() {
            return Err(Status::IncorrectDataParameter);
        }
        Ok(Delete { label })
    }
}

/// A credential to register: the payload of a Register command.
#[derive(Clone, Copy, Debug, PartialEq, Eq)]
pub struct Credential<'l> {
    /// The label under which the credential is stored.  The charset is
    /// application-defined; nothing here assumes valid UTF-8.
    pub label: &'l [u8],
    pub kind: oath::Kind,
    pub algorithm: oath::Algorithm,
    /// Display length of the generated code.
    pub digits: u8,
    /// Raw or pre-hashed HMAC key material; semantically opaque here.
    pub secret: &'l [u8],
    pub touch_required: bool,
    /// `Some` exactly for counter-based kinds, defaulting to 0 when the
    /// initial-moving-factor record is absent or unusable.
    pub counter: Option<u32>,
}

/// The mathematical value of a [`Credential`].
pub struct CredentialView {
    pub label: Seq<u8>,
    pub kind: oath::Kind,
    pub algorithm: oath::Algorithm,
    pub digits: u8,
    pub secret: Seq<u8>,
    pub touch_required: bool,
    pub counter: Option<u32>,
}

impl View for Credential<'_> {
    type V = CredentialView;

    open spec fn view(&self) -> CredentialView {
        CredentialView {
            label: self.label@,
            kind: self.kind,
            algorithm: self.algorithm,
            digits: self.digits,
            secret: self.secret@,
            touch_required: self.touch_required,
            counter: self.counter,
        }
    }
}

/// Register a new credential.
#[derive(Clone, Copy, Debug, PartialEq, Eq)]
pub struct Register<'l> {
    pub credential: Credential<'l>,
}

/// The mathematical value of a [`Register`].
pub struct RegisterView {
    pub credential: CredentialView,
}

impl View for Register<'_> {
    type V = RegisterView;

    open spec fn view(&self) -> RegisterView {
        RegisterView { credential: self.credential@ }
    }
}

/// The counter of a freshly registered credential: `Some` exactly for
/// counter-based kinds.  A well-formed initial-moving-factor record of four
/// value bytes at `pos` supplies it; anything else -- absence, a wrong tag,
/// a wrong length, or a malformed record -- defaults it to 0.
pub open spec fn spec_register_counter(d: Seq<u8>, pos: int, kind: oath::Kind) -> Option<u32> {
    if kind.spec_counter_based() {
        Some(
            match tlv::spec_record(d, pos) {
                Some(r) => if r.tag == oath::Tag::InitialMovingFactor.spec_byte() && r.value.len()
                    == 4 {
                    tlv::be_value(r.value) as u32
                } else {
                    0u32
                },
                None => 0u32,
            },
        )
    } else {
        None
    }
}

/// Assemble the registered credential once the label and key fields are
/// known, reading the optional trailing records at `pos`.
pub open spec fn spec_register_tail(
    d: Seq<u8>,
    pos: int,
    label: Seq<u8>,
    kind: oath::Kind,
    algorithm: oath::Algorithm,
    digits: u8,
    secret: Seq<u8>,
) -> Option<RegisterView> {
    if pos < d.len() && d[pos] == oath::Tag::Property.spec_byte() {
        // The property field is a bare tag byte followed by the bitmask
        // byte; seeing the tag with no byte after it is a hard failure.
        if pos + 2 <= d.len() {
            Some(
                RegisterView {
                    credential: CredentialView {
                        label,
                        kind,
                        algorithm,
                        digits,
                        secret,
                        touch_required: (Properties { 0: d[pos + 1] }).spec_touch_required(),
                        counter: spec_register_counter(d, pos + 2, kind),
                    },
                },
            )
        } else {
            None
        }
    } else {
        Some(
            RegisterView {
                credential: CredentialView {
                    label,
                    kind,
                    algorithm,
                    digits,
                    secret,
                    touch_required: false,
                    counter: spec_register_counter(d, pos, kind),
                },
            },
        )
    }
}

/// The Register body: a Name record, then a Key record whose value is the
/// kind/algorithm header byte, the digit count, and at least one secret
/// byte; then an optional property field and, for counter-based kinds, an
/// optional initial-moving-factor record.
pub open spec fn spec_register(d: Seq<u8>) -> Option<RegisterView> {
    match tlv::spec_record(d, 0) {
        Some(r1) => if r1.tag != oath::Tag::Name.spec_byte() {
            None
        } else {
            match tlv::spec_record(d, r1.end) {
                Some(r2) => if r2.tag != oath::Tag::Key.spec_byte() || r2.value.len() < 3 {
                    None
                } else {
                    match (oath::spec_kind(r2.value[0]), oath::spec_algorithm(r2.value[0])) {
                        (Some(kind), Some(algorithm)) => spec_register_tail(
                            d,
                            r2.end,
                            r1.value,
                            kind,
                            algorithm,
                            r2.value[1],
                            r2.value.subrange(2, r2.value.len() as int),
                        ),
                        _ => None,
                    }
                },
                None => None,
            }
        },
        None => None,
    }
}

impl<'l> Register<'l> {
    /// Parse a Register body; every failure is `IncorrectDataParameter`.
    pub fn try_from(data: &'l [u8]) -> (r: Result<Register<'l>, Status>)
        ensures
            match r {
                Ok(c) => spec_register(data@) == Some(c@),
                Err(e) => spec_register(data@) is None && e == Status::IncorrectDataParameter,
            },
    {
        let mut reader = tlv::Reader::new(data);
        let (tag1, label) = match reader.decode_next() {
            Ok(x) => x,
            Err(e) => return Err(e),
        };
        if tag1 != oath::Tag::Name.byte() {
            return Err(Status::IncorrectDataParameter);
        }
        let (tag2, key_field) = match reader.decode_next() {
            Ok(x) => x,
            Err(e) => return Err(e),
        };
        if tag2 != oath::Tag::Key.byte() {
            return Err(Status::IncorrectDataParameter);
        }
        if key_field.len() < 3 {
            return Err(Status::IncorrectDataParameter);
        }
        let header = key_field[0];
        let digits = key_field[1];
        let kind = match oath::Kind::try_from(header) {
            Ok(k) => k,
            Err(e) => return Err(e),
        };
        let algorithm = match oath::Algorithm::try_from(header) {
            Ok(a) => a,
            Err(e) => return Err(e),
        };
        let secret = vstd::slice::slice_subrange(key_field, 2, key_field.len());
        // The optional property field is decoded speculatively: any byte
        // other than the Property tag leaves it absent, without error.
        let mut touch_required = false;
        match reader.peek() {
            Some(byte) => {
                if byte == oath::Tag::Property.byte() {
                    let pair = match reader.read_byte_pair() {
                        Ok(p) => p,
                        Err(e) => return Err(e),
                    };
                    touch_required = Properties(pair.1).touch_required();
                }
            },
            None => {},
        }
        // Counter-based kinds always carry a counter; a well-formed
        // initial-moving-factor record supplies it and anything else
        // defaults it to 0, a deliberate leniency for hosts that omit a
        // zero counter.
        let mut counter: Option<u32> = None;
        if kind.counter_based() {
            let mut initial: u32 = 0;
            match reader.decode_next() {
                Ok((tag3, value)) => {
                    if tag3 == oath::Tag::InitialMovingFactor.byte() && value.len() == 4 {
                        initial = tlv::be_u32(value);
                        proof {
                            tlv::lemma_be_value_bound(value@);
                        }
                    }
                },
                Err(_) => {},
            }
            counter = Some(initial);
        }
        Ok(
            Register {
                credential: Credential {
                    label,
                    kind,
                    algorithm,
                    digits,
                    secret,
                    touch_required,
                    counter,
                },
            },
        )
    }
}

/// One decoded command, produced exactly once per incoming APDU.
#[derive(Clone, Copy, Debug, PartialEq, Eq)]
pub enum Command<'l> {
    /// Select the application.
    Select(Select<'l>),
    /// Calculate the authentication data for a credential given by label.
    Calculate(Calculate<'l>),
    /// Calculate the authentication data for all credentials.
    CalculateAll(CalculateAll<'l>),
    /// Clear the password.
    ClearPassword,
    /// Delete a credential.
    Delete(Delete<'l>),
    /// List all credentials.
    ListCredentials,
    /// Register a new credential.
    Register(Register<'l>),
    /// Delete all credentials and rotate the salt.
    Reset,
    /// Set a password.
    SetPassword(SetPassword<'l>),
    /// Validate the password (both ways).
    Validate(Validate<'l>),
    /// Verify PIN through the backend.
    VerifyPin(VerifyPin<'l>),
    /// Set PIN through the backend.
    SetPin(SetPin<'l>),
    /// Change PIN through the backend.
    ChangePin(ChangePin<'l>),
    /// Reverse HOTP validation.
    VerifyCode(VerifyCode<'l>),
    /// Send remaining data in the buffer.
    SendRemaining,
}

/// The mathematical value of a [`Command`].
pub enum CommandView {
    Select(SelectView),
    Calculate(CalculateView),
    CalculateAll(CalculateAllView),
    ClearPassword,
    Delete(DeleteView),
    ListCredentials,
    Register(RegisterView),
    Reset,
    SetPassword(SetPasswordView),
    Validate(ValidateView),
    VerifyPin(VerifyPinView),
    SetPin(SetPinView),
    ChangePin(ChangePinView),
    VerifyCode(VerifyCodeView),
    SendRemaining,
}

impl View for Command<'_> {
    type V = CommandView;

    open spec fn view(&self) -> CommandView {
        match self {
            Command::Select(c) => CommandView::Select(c@),
            Command::Calculate(c) => CommandView::Calculate(c@),
            Command::CalculateAll(c) => CommandView::CalculateAll(c@),
            Command::ClearPassword => CommandView::ClearPassword,
            Command::Delete(c) => CommandView::Delete(c@),
            Command::ListCredentials => CommandView::ListCredentials,
            Command::Register(c) => CommandView::Register(c@),
            Command::Reset => CommandView::Reset,
            Command::SetPassword(c) => CommandView::SetPassword(c@),
            Command::Validate(c) => CommandView::Validate(c@),
            Command::VerifyPin(c) => CommandView::VerifyPin(c@),
            Command::SetPin(c) => CommandView::SetPin(c@),
            Command::ChangePin(c) => CommandView::ChangePin(c@),
            Command::VerifyCode(c) => CommandView::VerifyCode(c@),
            Command::SendRemaining => CommandView::SendRemaining,
        }
    }
}

/// One incoming APDU frame, reduced to the header fields and the body
/// bytes that this layer reads.
#[derive(Clone, Copy, Debug, PartialEq, Eq)]
pub struct Apdu<'l> {
    /// The class byte.
    pub cla: u8,
    /// The instruction byte.
    pub ins: u8,
    pub p1: u8,
    pub p2: u8,
    /// The command body.
    pub data: &'l [u8],
}

/// The configuration-time capability set consulted by the dispatcher: a
/// command whose capability is off falls through to the unsupported-
/// instruction outcome, indistinguishable from a never-defined one.
#[derive(Clone, Copy, Debug, PartialEq, Eq, Structural)]
pub struct Config {
    /// Whether the bulk calculate-all command is available.
    pub calculate_all: bool,
    /// Whether password-based challenge-response commands are available.
    pub challenge_response_auth: bool,
}

/// Whether the class byte requests no secure messaging: it must lie in the
/// first interindustry range with both secure-messaging bits clear.
pub open spec fn spec_secure_messaging_none(cla: u8) -> bool {
    cla >> 5 == 0 && (cla >> 2) & 3 == 0
}

/// The command table: which decoded command the validated header tuple
/// selects, given the body `d`.  Reached only once the class byte has
/// passed the secure-messaging and logical-channel checks and the
/// instruction byte is in the instruction table.
pub open spec fn spec_dispatch_table(
    cla: u8,
    instruction: oath::Instruction,
    p1: u8,
    p2: u8,
    d: Seq<u8>,
    config: Config,
) -> Result<CommandView, Status> {
    if cla == 0x00 && instruction == oath::Instruction::Calculate && p1 == 0x00 && p2 == 0x01 {
        match spec_calculate(d) {
            Some(v) => Ok(CommandView::Calculate(v)),
            None => Err(Status::IncorrectDataParameter),
        }
    } else if config.calculate_all && cla == 0x00 && instruction == oath::Instruction::CalculateAll
        && p1 == 0x00 && p2 == 0x01 {
        match spec_calculate_all(d) {
            Some(v) => Ok(CommandView::CalculateAll(v)),
            None => Err(Status::IncorrectDataParameter),
        }
    } else if cla == 0x00 && instruction == oath::Instruction::Delete && p1 == 0x00 && p2 == 0x00 {
        match spec_delete(d) {
            Some(v) => Ok(CommandView::Delete(v)),
            None => Err(Status::IncorrectDataParameter),
        }
    } else if cla == 0x00 && instruction == oath::Instruction::List && p1 == 0x00 && p2 == 0x00 {
        Ok(CommandView::ListCredentials)
    } else if cla == 0x00 && instruction == oath::Instruction::Put && p1 == 0x00 && p2 == 0x00 {
        match spec_register(d) {
            Some(v) => Ok(CommandView::Register(v)),
            None => Err(Status::IncorrectDataParameter),
        }
    } else if cla == 0x00 && instruction == oath::Instruction::Reset && p1 == 0xde && p2 == 0xad {
        Ok(CommandView::Reset)
    } else if config.challenge_response_auth && cla == 0x00 && instruction
        == oath::Instruction::SetCode && p1 == 0x00 && p2 == 0x00 {
        // A two-byte body (an empty record) clears the password instead of
        // setting a new one.
        if d.len() == 2 {
            Ok(CommandView::ClearPassword)
        } else {
            match spec_set_password(d) {
                Some(v) => Ok(CommandView::SetPassword(v)),
                None => Err(Status::IncorrectDataParameter),
            }
        }
    } else if config.challenge_response_auth && cla == 0x00 && instruction
        == oath::Instruction::Validate && p1 == 0x00 && p2 == 0x00 {
        match spec_validate(d) {
            Some(v) => Ok(CommandView::Validate(v)),
            None => Err(Status::IncorrectDataParameter),
        }
    } else if cla == 0x00 && instruction == oath::Instruction::VerifyCode && p1 == 0x00 && p2
        == 0x00 {
        match spec_verify_code(d) {
            Some(v) => Ok(CommandView::VerifyCode(v)),
            None => Err(Status::IncorrectDataParameter),
        }
    } else if cla == 0x00 && instruction == oath::Instruction::VerifyPIN && p1 == 0x00 && p2
        == 0x00 {
        match spec_verify_pin(d) {
            Some(v) => Ok(CommandView::VerifyPin(v)),
            None => Err(Status::IncorrectDataParameter),
        }
    } else if cla == 0x00 && instruction == oath::Instruction::ChangePIN && p1 == 0x00 && p2
        == 0x00 {
        match spec_change_pin(d) {
            Some(v) => Ok(CommandView::ChangePin(v)),
            None => Err(Status::IncorrectDataParameter),
        }
    } else if cla == 0x00 && instruction == oath::Instruction::SetPIN && p1 == 0x00 && p2 == 0x00 {
        match spec_set_pin(d) {
            Some(v) => Ok(CommandView::SetPin(v)),
            None => Err(Status::IncorrectDataParameter),
        }
    } else if cla == 0x00 && instruction == oath::Instruction::SendRemaining && p1 == 0x00 && p2
        == 0x00 {
        Ok(CommandView::SendRemaining)
    } else {
        Err(Status::InstructionNotSupportedOrInvalid)
    }
}

/// The whole decoding pipeline: validate the header shape, recognize the
/// reserved Select tuple, map the instruction byte through the instruction
/// table, and hand the body to the selected parser.
pub open spec fn spec_dispatch(
    cla: u8,
    ins: u8,
    p1: u8,
    p2: u8,
    d: Seq<u8>,
    config: Config,
) -> Result<CommandView, Status> {
    if !spec_secure_messaging_none(cla) {
        Err(Status::SecureMessagingNotSupported)
    } else if cla & 3 != 0 {
        Err(Status::LogicalChannelNotSupported)
    } else if cla == 0x00 && ins == 0xa4 && p1 == 0x04 && p2 == 0x00 {
        if d == spec_aid() {
            Ok(CommandView::Select(SelectView { aid: d }))
        } else {
            Err(Status::NotFound)
        }
    } else {
        match oath::spec_instruction(ins) {
            Some(instruction) => spec_dispatch_table(cla, instruction, p1, p2, d, config),
            None => Err(Status::InstructionNotSupportedOrInvalid),
        }
    }
}

impl<'l> Command<'l> {
    /// Decode one APDU into a command, or reject it with a typed status.
    /// The result is a function of the frame and the capability set alone.
    pub fn try_from(apdu: &Apdu<'l>, config: &Config) -> (r: Result<Command<'l>, Status>)
        ensures
            match r {
                Ok(c) => spec_dispatch(apdu.cla, apdu.ins, apdu.p1, apdu.p2, apdu.data@, *config)
                    == Ok::<CommandView, Status>(c@),
                Err(e) => spec_dispatch(apdu.cla, apdu.ins, apdu.p1, apdu.p2, apdu.data@, *config)
                    == Err::<CommandView, Status>(e),
            },
    {
        let cla = apdu.cla;
        let p1 = apdu.p1;
        let p2 = apdu.p2;
        let data = apdu.data;
        if !(cla >> 5 == 0 && (cla >> 2) & 3 == 0) {
            return Err(Status::SecureMessagingNotSupported);
        }
        if cla & 3 != 0 {
            return Err(Status::LogicalChannelNotSupported);
        }
        if cla == 0x00 && apdu.ins == 0xa4 && p1 == 0x04 && p2 == 0x00 {
            return match Select::try_from(data) {
                Ok(c) => Ok(Command::Select(c)),
                Err(e) => Err(e),
            };
        }
        let instruction = match oath::Instruction::try_from(apdu.ins) {
            Ok(i) => i,
            Err(e) => return Err(e),
        };
        if cla == 0x00 && instruction == oath::Instruction::Calculate && p1 == 0x00 && p2 == 0x01 {
            match Calculate::try_from(data) {
                Ok(c) => Ok(Command::Calculate(c)),
                Err(e) => Err(e),
            }
        } else if config.calculate_all && cla == 0x00 && instruction
            == oath::Instruction::CalculateAll && p1 == 0x00 && p2 == 0x01 {
            match CalculateAll::try_from(data) {
                Ok(c) => Ok(Command::CalculateAll(c)),
                Err(e) => Err(e),
            }
        } else if cla == 0x00 && instruction == oath::Instruction::Delete && p1 == 0x00 && p2
            == 0x00 {
            match Delete::try_from(data) {
                Ok(c) => Ok(Command::Delete(c)),
                Err(e) => Err(e),
            }
        } else if cla == 0x00 && instruction == oath::Instruction::List && p1 == 0x00 && p2
            == 0x00 {
            Ok(Command::ListCredentials)
        } else if cla == 0x00 && instruction == oath::Instruction::Put && p1 == 0x00 && p2
            == 0x00 {
            match Register::try_from(data) {
                Ok(c) => Ok(Command::Register(c)),
                Err(e) => Err(e),
            }
        } else if cla == 0x00 && instruction == oath::Instruction::Reset && p1 == 0xde && p2
            == 0xad {
            Ok(Command::Reset)
        } else if config.challenge_response_auth && cla == 0x00 && instruction
            == oath::Instruction::SetCode && p1 == 0x00 && p2 == 0x00 {
            if data.len() == 2 {
                Ok(Command::ClearPassword)
            } else {
                match SetPassword::try_from(data) {
                    Ok(c) => Ok(Command::SetPassword(c)),
                    Err(e) => Err(e),
                }
            }
        } else if config.challenge_response_auth && cla == 0x00 && instruction
            == oath::Instruction::Validate && p1 == 0x00 && p2 == 0x00 {
            match Validate::try_from(data) {
                Ok(c) => Ok(Command::Validate(c)),
                Err(e) => Err(e),
            }
        } else if cla == 0x00 && instruction == oath::Instruction::VerifyCode && p1 == 0x00 && p2
            == 0x00 {
            match VerifyCode::try_from(data) {
                Ok(c) => Ok(Command::VerifyCode(c)),
                Err(e) => Err(e),
            }
        } else if cla == 0x00 && instruction == oath::Instruction::VerifyPIN && p1 == 0x00 && p2
            == 0x00 {
            match VerifyPin::try_from(data) {
                Ok(c) => Ok(Command::VerifyPin(c)),
                Err(e) => Err(e),
            }
        } else if cla == 0x00 && instruction == oath::Instruction::ChangePIN && p1 == 0x00 && p2
            == 0x00 {
            match ChangePin::try_from(data) {
                Ok(c) => Ok(Command::ChangePin(c)),
                Err(e) => Err(e),
            }
        } else if cla == 0x00 && instruction == oath::Instruction::SetPIN && p1 == 0x00 && p2
            == 0x00 {
            match SetPin::try_from(data) {
                Ok(c) => Ok(Command::SetPin(c)),
                Err(e) => Err(e),
            }
        } else if cla == 0x00 && instruction == oath::Instruction::SendRemaining && p1 == 0x00
            && p2 == 0x00 {
            Ok(Command::SendRemaining)
        } else {
            Err(Status::InstructionNotSupportedOrInvalid)
        }
    }
}

} // verus!
