//! Laws of the decoding pipeline, stated over the specification functions
//! that the executable functions' contracts are written against.

use crate::command;
use crate::command::CommandView;
use crate::tlv;
use crate::Status;
use vstd::prelude::*;

verus! {

/// Whether the class byte passes both header checks: no secure messaging
/// and logical channel 0.
pub open spec fn spec_header_accepted(cla: u8) -> bool {
    command::spec_secure_messaging_none(cla) && cla & 3 == 0
}

/// The reserved Select tuple.
pub open spec fn spec_is_select_tuple(cla: u8, ins: u8, p1: u8, p2: u8) -> bool {
    cla == 0x00 && ins == 0xa4 && p1 == 0x04 && p2 == 0x00
}

/// The closed set of supported (class, instruction, P1, P2) tuples, under
/// the given capability set.
pub open spec fn spec_supported_tuple(cla: u8, ins: u8, p1: u8, p2: u8, config: command::Config) -> bool {
    spec_is_select_tuple(cla, ins, p1, p2) || (cla == 0x00 && ((ins == 0xa2 && p1 == 0x00 && p2
        == 0x01) || (config.calculate_all && ins == 0xa4 && p1 == 0x00 && p2 == 0x01) || (ins
        == 0x02 && p1 == 0x00 && p2 == 0x00) || (ins == 0xa1 && p1 == 0x00 && p2 == 0x00) || (ins
        == 0x01 && p1 == 0x00 && p2 == 0x00) || (ins == 0x04 && p1 == 0xde && p2 == 0xad) || (
    config.challenge_response_auth && ins == 0x03 && p1 == 0x00 && p2 == 0x00) || (
    config.challenge_response_auth && ins == 0xa3 && p1 == 0x00 && p2 == 0x00) || (ins == 0xb1
        && p1 == 0x00 && p2 == 0x00) || (ins == 0xb2 && p1 == 0x00 && p2 == 0x00) || (ins == 0xb3
        && p1 == 0x00 && p2 == 0x00) || (ins == 0xb4 && p1 == 0x00 && p2 == 0x00) || (ins == 0xa5
        && p1 == 0x00 && p2 == 0x00)))
}

/// Which command variants the tuple admits: each variant is selected by
/// exactly one tuple of the table.
pub open spec fn spec_tuple_selects(
    c: CommandView,
    ins: u8,
    p1: u8,
    p2: u8,
    config: command::Config,
) -> bool {
    match c {
        CommandView::Select(_) => ins == 0xa4 && p1 == 0x04 && p2 == 0x00,
        CommandView::Calculate(_) => ins == 0xa2 && p1 == 0x00 && p2 == 0x01,
        CommandView::CalculateAll(_) => config.calculate_all && ins == 0xa4 && p1 == 0x00 && p2
            == 0x01,
        CommandView::ClearPassword => config.challenge_response_auth && ins == 0x03 && p1 == 0x00
            && p2 == 0x00,
        CommandView::Delete(_) => ins == 0x02 && p1 == 0x00 && p2 == 0x00,
        CommandView::ListCredentials => ins == 0xa1 && p1 == 0x00 && p2 == 0x00,
        CommandView::Register(_) => ins == 0x01 && p1 == 0x00 && p2 == 0x00,
        CommandView::Reset => ins == 0x04 && p1 == 0xde && p2 == 0xad,
        CommandView::SetPassword(_) => config.challenge_response_auth && ins == 0x03 && p1 == 0x00
            && p2 == 0x00,
        CommandView::Validate(_) => config.challenge_response_auth && ins == 0xa3 && p1 == 0x00
            && p2 == 0x00,
        CommandView::VerifyPin(_) => ins == 0xb2 && p1 == 0x00 && p2 == 0x00,
        CommandView::SetPin(_) => ins == 0xb4 && p1 == 0x00 && p2 == 0x00,
        CommandView::ChangePin(_) => ins == 0xb3 && p1 == 0x00 && p2 == 0x00,
        CommandView::VerifyCode(_) => ins == 0xb1 && p1 == 0x00 && p2 == 0x00,
        CommandView::SendRemaining => ins == 0xa5 && p1 == 0x00 && p2 == 0x00,
    }
}

/// A tuple outside the command table is rejected as an unsupported
/// instruction, whatever the body holds; a capability that is switched off
/// is indistinguishable from an instruction that was never defined.
pub proof fn lemma_unmatched_tuple_rejected(
    cla: u8,
    ins: u8,
    p1: u8,
    p2: u8,
    d: Seq<u8>,
    config: command::Config,
)
    requires
        spec_header_accepted(cla),
        !spec_supported_tuple(cla, ins, p1, p2, config),
    ensures
        command::spec_dispatch(cla, ins, p1, p2, d, config) == Err::<CommandView, Status>(
            Status::InstructionNotSupportedOrInvalid,
        ),
{
}

/// Dispatch selects exactly one command kind per tuple: a successfully
/// decoded command always carries the variant that its tuple names in the
/// command table.
pub proof fn lemma_dispatch_selects_tuple_kind(
    cla: u8,
    ins: u8,
    p1: u8,
    p2: u8,
    d: Seq<u8>,
    config: command::Config,
)
    ensures
        command::spec_dispatch(cla, ins, p1, p2, d, config) matches Ok(c) ==> spec_header_accepted(
            cla,
        ) && cla == 0x00 && spec_supported_tuple(cla, ins, p1, p2, config) && spec_tuple_selects(
            c,
            ins,
            p1,
            p2,
            config,
        ),
{
}

/// Select succeeds exactly when the body equals the fixed application
/// identifier byte for byte; any other body -- including a prefix or a
/// superset of it -- yields the not-found outcome.
pub proof fn lemma_select_exact(cla: u8, ins: u8, p1: u8, p2: u8, d: Seq<u8>, config: command::Config)
    requires
        spec_header_accepted(cla),
        spec_is_select_tuple(cla, ins, p1, p2),
    ensures
        d == command::spec_aid() ==> command::spec_dispatch(cla, ins, p1, p2, d, config) == Ok::<
            CommandView,
            Status,
        >(CommandView::Select(command::SelectView { aid: d })),
        d != command::spec_aid() ==> command::spec_dispatch(cla, ins, p1, p2, d, config) == Err::<
            CommandView,
            Status,
        >(Status::NotFound),
{
}

/// Decoding holds no hidden state: the outcome is a function of the frame
/// and the capability set alone, so decoding the same bytes twice yields
/// structurally equal values.
pub proof fn lemma_decode_deterministic(
    cla: u8,
    ins: u8,
    p1: u8,
    p2: u8,
    d: Seq<u8>,
    config: command::Config,
    r1: Result<CommandView, Status>,
    r2: Result<CommandView, Status>,
)
    requires
        r1 == command::spec_dispatch(cla, ins, p1, p2, d, config),
        r2 == command::spec_dispatch(cla, ins, p1, p2, d, config),
    ensures
        r1 == r2,
{
}

/// A registered credential carries a counter exactly when its kind is
/// counter-based: `Some` for the counter-based kinds (defaulting to 0 when
/// no usable initial-moving-factor record is present), `None` for the
/// time-based kind.
pub proof fn lemma_register_counter_iff_counter_based(d: Seq<u8>)
    ensures
        command::spec_register(d) matches Some(v) ==> ((v.credential.counter is Some)
            <==> v.credential.kind.spec_counter_based()),
{
}

/// Decoding a record is safe for every buffer and position: whenever the
/// grammar accepts, the record lies inside the buffer, so a reader that
/// follows it never touches bytes past the end.
pub proof fn lemma_record_stays_in_bounds(d: Seq<u8>, pos: int)
    ensures
        tlv::spec_record(d, pos) matches Some(r) ==> pos + 2 <= r.end <= d.len(),
{
    tlv::lemma_record_bounds(d, pos);
}

} // verus!
