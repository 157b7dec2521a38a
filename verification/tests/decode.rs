use oath_codec::command::{Apdu, Command, Config, Properties};
use oath_codec::oath::{Algorithm, Instruction, Kind};
use oath_codec::Status;

fn full_config() -> Config {
    Config { calculate_all: true, challenge_response_auth: true }
}

fn dispatch<'l>(
    cla: u8,
    ins: u8,
    p1: u8,
    p2: u8,
    data: &'l [u8],
) -> Result<Command<'l>, Status> {
    let apdu = Apdu { cla, ins, p1, p2, data };
    Command::try_from(&apdu, &full_config())
}

const AID: [u8; 7] = [0xa0, 0x00, 0x00, 0x05, 0x27, 0x21, 0x01];

#[test]
fn select_succeeds_on_exact_aid() {
    let r = dispatch(0x00, 0xa4, 0x04, 0x00, &AID);
    match r {
        Ok(Command::Select(s)) => assert_eq!(s.aid, &AID[..]),
        other => panic!("expected Select, got {:?}", other),
    }
}

#[test]
fn select_rejects_prefix_superset_and_empty() {
    assert_eq!(
        dispatch(0x00, 0xa4, 0x04, 0x00, &AID[..6]),
        Err(Status::NotFound)
    );
    let mut longer = AID.to_vec();
    longer.push(0x00);
    assert_eq!(dispatch(0x00, 0xa4, 0x04, 0x00, &longer), Err(Status::NotFound));
    assert_eq!(dispatch(0x00, 0xa4, 0x04, 0x00, &[]), Err(Status::NotFound));
    let mut flipped = AID;
    flipped[3] = 0x06;
    assert_eq!(dispatch(0x00, 0xa4, 0x04, 0x00, &flipped), Err(Status::NotFound));
}

#[test]
fn secure_messaging_is_rejected() {
    // First interindustry with a secure-messaging bit set.
    assert_eq!(
        dispatch(0x04, 0xa4, 0x04, 0x00, &AID),
        Err(Status::SecureMessagingNotSupported)
    );
    assert_eq!(
        dispatch(0x08, 0xa1, 0x00, 0x00, &[]),
        Err(Status::SecureMessagingNotSupported)
    );
    // Further interindustry and proprietary ranges never count as plain.
    assert_eq!(
        dispatch(0x41, 0xa1, 0x00, 0x00, &[]),
        Err(Status::SecureMessagingNotSupported)
    );
    assert_eq!(
        dispatch(0x80, 0xa1, 0x00, 0x00, &[]),
        Err(Status::SecureMessagingNotSupported)
    );
}

#[test]
fn nonzero_channel_is_rejected() {
    assert_eq!(
        dispatch(0x01, 0xa1, 0x00, 0x00, &[]),
        Err(Status::LogicalChannelNotSupported)
    );
    assert_eq!(
        dispatch(0x02, 0xa4, 0x04, 0x00, &AID),
        Err(Status::LogicalChannelNotSupported)
    );
}

#[test]
fn chaining_class_passes_header_but_matches_no_tuple() {
    // 0x10 requests chaining: the header checks pass, but the command
    // table only holds class 0x00.
    assert_eq!(
        dispatch(0x10, 0xa1, 0x00, 0x00, &[]),
        Err(Status::InstructionNotSupportedOrInvalid)
    );
}

#[test]
fn every_instruction_byte_dispatches_to_exactly_one_kind() {
    for ins in 0u16..=255 {
        let ins = ins as u8;
        let r = dispatch(0x00, ins, 0x00, 0x00, &[]);
        match ins {
            // Known tuples with an empty body: parameterless commands
            // succeed, the rest fail on the body, never on the header.
            0x01 | 0x02 | 0x03 | 0xa3 | 0xb1 | 0xb2 | 0xb3 | 0xb4 => {
                assert_eq!(r, Err(Status::IncorrectDataParameter), "ins {ins:#x}")
            }
            0xa1 => assert_eq!(r, Ok(Command::ListCredentials)),
            0xa5 => assert_eq!(r, Ok(Command::SendRemaining)),
            _ => assert_eq!(
                r,
                Err(Status::InstructionNotSupportedOrInvalid),
                "ins {ins:#x}"
            ),
        }
    }
}

#[test]
fn reset_needs_its_exact_parameters() {
    assert_eq!(dispatch(0x00, 0x04, 0xde, 0xad, &[]), Ok(Command::Reset));
    assert_eq!(
        dispatch(0x00, 0x04, 0x00, 0x00, &[]),
        Err(Status::InstructionNotSupportedOrInvalid)
    );
}

#[test]
fn calculate_needs_p2_one() {
    let body = [0x71, 0x01, b'a', 0x74, 0x01, 0x07];
    match dispatch(0x00, 0xa2, 0x00, 0x01, &body) {
        Ok(Command::Calculate(c)) => {
            assert_eq!(c.label, &[b'a']);
            assert_eq!(c.challenge, &[0x07]);
        }
        other => panic!("expected Calculate, got {:?}", other),
    }
    assert_eq!(
        dispatch(0x00, 0xa2, 0x00, 0x00, &body),
        Err(Status::InstructionNotSupportedOrInvalid)
    );
}

#[test]
fn disabled_capabilities_look_undefined() {
    let config = Config { calculate_all: false, challenge_response_auth: false };
    let apdu = Apdu { cla: 0x00, ins: 0xa4, p1: 0x00, p2: 0x01, data: &[0x74, 0x00] };
    assert_eq!(
        Command::try_from(&apdu, &config),
        Err(Status::InstructionNotSupportedOrInvalid)
    );
    let apdu = Apdu { cla: 0x00, ins: 0xa3, p1: 0x00, p2: 0x00, data: &[] };
    assert_eq!(
        Command::try_from(&apdu, &config),
        Err(Status::InstructionNotSupportedOrInvalid)
    );
    let apdu = Apdu { cla: 0x00, ins: 0x03, p1: 0x00, p2: 0x00, data: &[0x73, 0x00] };
    assert_eq!(
        Command::try_from(&apdu, &config),
        Err(Status::InstructionNotSupportedOrInvalid)
    );
}

#[test]
fn calculate_all_decodes_when_enabled() {
    match dispatch(0x00, 0xa4, 0x00, 0x01, &[0x74, 0x02, 0x0a, 0x0b]) {
        Ok(Command::CalculateAll(c)) => assert_eq!(c.challenge, &[0x0a, 0x0b]),
        other => panic!("expected CalculateAll, got {:?}", other),
    }
}

#[test]
fn register_defaults_hotp_counter_to_zero() {
    // Name "test", key header HOTP|SHA1, six digits, eight secret bytes,
    // no property, no initial moving factor.
    let secret = [1u8, 2, 3, 4, 5, 6, 7, 8];
    let mut body = vec![0x71, 0x04, b't', b'e', b's', b't', 0x73, 0x0a, 0x11, 0x06];
    body.extend_from_slice(&secret);
    match dispatch(0x00, 0x01, 0x00, 0x00, &body) {
        Ok(Command::Register(r)) => {
            let c = r.credential;
            assert_eq!(c.label, b"test");
            assert_eq!(c.kind, Kind::Hotp);
            assert_eq!(c.algorithm, Algorithm::Sha1);
            assert_eq!(c.digits, 6);
            assert_eq!(c.secret, &secret);
            assert!(!c.touch_required);
            assert_eq!(c.counter, Some(0));
        }
        other => panic!("expected Register, got {:?}", other),
    }
}

#[test]
fn register_reads_initial_moving_factor() {
    let mut body = vec![0x71, 0x04, b't', b'e', b's', b't', 0x73, 0x0a, 0x11, 0x06];
    body.extend_from_slice(&[1, 2, 3, 4, 5, 6, 7, 8]);
    body.extend_from_slice(&[0x7a, 0x04, 0x00, 0x00, 0x00, 0x05]);
    match dispatch(0x00, 0x01, 0x00, 0x00, &body) {
        Ok(Command::Register(r)) => assert_eq!(r.credential.counter, Some(5)),
        other => panic!("expected Register, got {:?}", other),
    }
}

#[test]
fn register_totp_carries_no_counter() {
    let mut body = vec![0x71, 0x01, b'x', 0x73, 0x04, 0x21, 0x08];
    body.extend_from_slice(&[9, 9]);
    match dispatch(0x00, 0x01, 0x00, 0x00, &body) {
        Ok(Command::Register(r)) => {
            assert_eq!(r.credential.kind, Kind::Totp);
            assert_eq!(r.credential.counter, None);
        }
        other => panic!("expected Register, got {:?}", other),
    }
}

#[test]
fn register_reads_property_bitmask() {
    // Property is a bare tag byte followed by the bitmask byte.
    let mut body = vec![0x71, 0x01, b'x', 0x73, 0x04, 0x11, 0x08, 9, 9];
    body.extend_from_slice(&[0x78, 0x02]);
    body.extend_from_slice(&[0x7a, 0x04, 0x00, 0x00, 0x00, 0x09]);
    match dispatch(0x00, 0x01, 0x00, 0x00, &body) {
        Ok(Command::Register(r)) => {
            assert!(r.credential.touch_required);
            assert_eq!(r.credential.counter, Some(9));
        }
        other => panic!("expected Register, got {:?}", other),
    }
}

#[test]
fn register_ignores_malformed_moving_factor() {
    // A wrong tag or a wrong length after the key leaves the counter at 0.
    let mut body = vec![0x71, 0x01, b'x', 0x73, 0x04, 0x31, 0x08, 9, 9];
    body.extend_from_slice(&[0x7a, 0x02, 0x00, 0x05]);
    match dispatch(0x00, 0x01, 0x00, 0x00, &body) {
        Ok(Command::Register(r)) => {
            assert_eq!(r.credential.kind, Kind::HotpReverse);
            assert_eq!(r.credential.counter, Some(0));
        }
        other => panic!("expected Register, got {:?}", other),
    }
}

#[test]
fn register_rejects_bad_kind_nibble() {
    let body = [0x71, 0x01, b'x', 0x73, 0x03, 0x41, 0x08, 9];
    assert_eq!(
        dispatch(0x00, 0x01, 0x00, 0x00, &body),
        Err(Status::IncorrectDataParameter)
    );
}

#[test]
fn register_rejects_bad_algorithm_nibble() {
    let body = [0x71, 0x01, b'x', 0x73, 0x03, 0x14, 0x08, 9];
    assert_eq!(
        dispatch(0x00, 0x01, 0x00, 0x00, &body),
        Err(Status::IncorrectDataParameter)
    );
}

#[test]
fn register_rejects_short_key_value() {
    let body = [0x71, 0x01, b'x', 0x73, 0x02, 0x11, 0x08];
    assert_eq!(
        dispatch(0x00, 0x01, 0x00, 0x00, &body),
        Err(Status::IncorrectDataParameter)
    );
}

#[test]
fn verify_code_needs_exactly_four_response_bytes() {
    let short = [0x71, 0x01, b'a', 0x75, 0x03, 0x00, 0x00, 0x64];
    assert_eq!(
        dispatch(0x00, 0xb1, 0x00, 0x00, &short),
        Err(Status::IncorrectDataParameter)
    );
    let exact = [0x71, 0x01, b'a', 0x75, 0x04, 0x00, 0x00, 0x00, 0x64];
    match dispatch(0x00, 0xb1, 0x00, 0x00, &exact) {
        Ok(Command::VerifyCode(v)) => {
            assert_eq!(v.label, &[b'a']);
            assert_eq!(v.response, 100);
        }
        other => panic!("expected VerifyCode, got {:?}", other),
    }
}

#[test]
fn verify_code_reads_big_endian() {
    let body = [0x71, 0x01, b'a', 0x75, 0x04, 0x01, 0x02, 0x03, 0x04];
    match dispatch(0x00, 0xb1, 0x00, 0x00, &body) {
        Ok(Command::VerifyCode(v)) => assert_eq!(v.response, 0x0102_0304),
        other => panic!("expected VerifyCode, got {:?}", other),
    }
}

#[test]
fn set_password_needs_a_secret_byte() {
    // A key value of one byte holds only the kind/algorithm header.
    let short = [0x73, 0x01, 0x21];
    assert_eq!(
        dispatch(0x00, 0x03, 0x00, 0x00, &short),
        Err(Status::IncorrectDataParameter)
    );
    let body = [0x73, 0x02, 0x21, 0xab, 0x74, 0x01, 0x0c, 0x75, 0x01, 0x0d];
    match dispatch(0x00, 0x03, 0x00, 0x00, &body) {
        Ok(Command::SetPassword(s)) => {
            assert_eq!(s.kind, Kind::Totp);
            assert_eq!(s.algorithm, Algorithm::Sha1);
            assert_eq!(s.key, &[0xab]);
            assert_eq!(s.challenge, &[0x0c]);
            assert_eq!(s.response, &[0x0d]);
        }
        other => panic!("expected SetPassword, got {:?}", other),
    }
}

#[test]
fn two_byte_set_code_body_clears_the_password() {
    assert_eq!(
        dispatch(0x00, 0x03, 0x00, 0x00, &[0x73, 0x00]),
        Ok(Command::ClearPassword)
    );
}

#[test]
fn validate_wants_response_then_challenge() {
    let body = [0x75, 0x02, 1, 2, 0x74, 0x03, 3, 4, 5];
    match dispatch(0x00, 0xa3, 0x00, 0x00, &body) {
        Ok(Command::Validate(v)) => {
            assert_eq!(v.response, &[1, 2]);
            assert_eq!(v.challenge, &[3, 4, 5]);
        }
        other => panic!("expected Validate, got {:?}", other),
    }
    // The reverse order is a tag mismatch.
    let swapped = [0x74, 0x03, 3, 4, 5, 0x75, 0x02, 1, 2];
    assert_eq!(
        dispatch(0x00, 0xa3, 0x00, 0x00, &swapped),
        Err(Status::IncorrectDataParameter)
    );
}

#[test]
fn pin_commands_read_password_records() {
    let body = [0x80, 0x03, 1, 2, 3];
    match dispatch(0x00, 0xb4, 0x00, 0x00, &body) {
        Ok(Command::SetPin(c)) => assert_eq!(c.password, &[1, 2, 3]),
        other => panic!("expected SetPin, got {:?}", other),
    }
    match dispatch(0x00, 0xb2, 0x00, 0x00, &body) {
        Ok(Command::VerifyPin(c)) => assert_eq!(c.password, &[1, 2, 3]),
        other => panic!("expected VerifyPin, got {:?}", other),
    }
    let change = [0x80, 0x01, 7, 0x81, 0x02, 8, 9];
    match dispatch(0x00, 0xb3, 0x00, 0x00, &change) {
        Ok(Command::ChangePin(c)) => {
            assert_eq!(c.password, &[7]);
            assert_eq!(c.new_password, &[8, 9]);
        }
        other => panic!("expected ChangePin, got {:?}", other),
    }
    // A NewPassword record alone has the wrong tag for SetPin.
    assert_eq!(
        dispatch(0x00, 0xb4, 0x00, 0x00, &[0x81, 0x01, 7]),
        Err(Status::IncorrectDataParameter)
    );
}

#[test]
fn delete_reads_the_label() {
    match dispatch(0x00, 0x02, 0x00, 0x00, &[0x71, 0x02, b'h', b'i']) {
        Ok(Command::Delete(d)) => assert_eq!(d.label, b"hi"),
        other => panic!("expected Delete, got {:?}", other),
    }
}

#[test]
fn decoding_twice_gives_equal_values() {
    let mut body = vec![0x71, 0x04, b't', b'e', b's', b't', 0x73, 0x0a, 0x11, 0x06];
    body.extend_from_slice(&[1, 2, 3, 4, 5, 6, 7, 8]);
    let first = dispatch(0x00, 0x01, 0x00, 0x00, &body);
    let second = dispatch(0x00, 0x01, 0x00, 0x00, &body);
    assert_eq!(first, second);
    let select_once = dispatch(0x00, 0xa4, 0x04, 0x00, &AID);
    let select_again = dispatch(0x00, 0xa4, 0x04, 0x00, &AID);
    assert_eq!(select_once, select_again);
}

#[test]
fn touch_required_reads_only_its_bit() {
    assert!(Properties(0x02).touch_required());
    assert!(Properties(0xff).touch_required());
    assert!(!Properties(0x01).touch_required());
    assert!(!Properties(0x00).touch_required());
}

#[test]
fn constant_tables_reject_unlisted_bytes() {
    assert_eq!(Kind::try_from(0x11), Ok(Kind::Hotp));
    assert_eq!(Kind::try_from(0x21), Ok(Kind::Totp));
    assert_eq!(Kind::try_from(0x31), Ok(Kind::HotpReverse));
    assert_eq!(Kind::try_from(0x41), Err(Status::IncorrectDataParameter));
    assert_eq!(Algorithm::try_from(0x11), Ok(Algorithm::Sha1));
    assert_eq!(Algorithm::try_from(0x12), Ok(Algorithm::Sha256));
    assert_eq!(Algorithm::try_from(0x13), Ok(Algorithm::Sha512));
    assert_eq!(Algorithm::try_from(0x10), Err(Status::IncorrectDataParameter));
    assert_eq!(Instruction::try_from(0xa2), Ok(Instruction::Calculate));
    assert_eq!(
        Instruction::try_from(0x99),
        Err(Status::InstructionNotSupportedOrInvalid)
    );
}

#[test]
fn raw_frames_decode_through_the_iso_transport() {
    // Parse wire-format APDUs with the transport crate, hand the plain
    // header fields and body to the library, and check both the accepted
    // and the rejected path.
    let mut select = vec![0x00, 0xa4, 0x04, 0x00, 0x07];
    select.extend_from_slice(&AID);
    let frame = iso7816::command::Command::<128>::try_from(&select).unwrap();
    let apdu = Apdu {
        cla: frame.class().into_inner(),
        ins: u8::from(frame.instruction()),
        p1: frame.p1,
        p2: frame.p2,
        data: frame.data().as_slice(),
    };
    match Command::try_from(&apdu, &full_config()) {
        Ok(Command::Select(s)) => assert_eq!(s.aid, &AID[..]),
        other => panic!("expected Select, got {:?}", other),
    }

    let list = [0x00, 0xa1, 0x00, 0x00];
    let frame = iso7816::command::Command::<128>::try_from(&list).unwrap();
    let apdu = Apdu {
        cla: frame.class().into_inner(),
        ins: u8::from(frame.instruction()),
        p1: frame.p1,
        p2: frame.p2,
        data: frame.data().as_slice(),
    };
    assert_eq!(Command::try_from(&apdu, &full_config()), Ok(Command::ListCredentials));

    let unknown = [0x00, 0x99, 0x00, 0x00];
    let frame = iso7816::command::Command::<128>::try_from(&unknown).unwrap();
    let apdu = Apdu {
        cla: frame.class().into_inner(),
        ins: u8::from(frame.instruction()),
        p1: frame.p1,
        p2: frame.p2,
        data: frame.data().as_slice(),
    };
    assert_eq!(
        Command::try_from(&apdu, &full_config()),
        Err(Status::InstructionNotSupportedOrInvalid)
    );
}
