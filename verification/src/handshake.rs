//! The handshake controller.
//!
//! The exchange that must precede streaming is fixed and retry-free: receive
//! the daemon's VERSION and check its major protocol version, send the
//! enable-watch command, receive the device list, receive the watch
//! acknowledgment and apply the acceptance rule. The controller is a state
//! machine over incoming lines; [`spec_handshake_step`] is its transition
//! function at spec level, [`spec_handshake_run`] folds it over a whole
//! exchange, and the proof functions at the end state the protocol's
//! guarantees: what a valid exchange emits, and that nothing is emitted
//! before the daemon's version is validated.

use vstd::prelude::*;
use vstd::string::StringSliceAdditionalSpecFns;

use crate::decode::{decode_handshake, handshake_fault, spec_class, is_handshake_of};
use crate::errors::{fault_of, DecodeFault, GpsdError};
use crate::fields::{spec_opt_bool, spec_req_int};
use crate::json::Json;
use crate::messages::{Devices, ResponseHandshake, Version, Watch};
use crate::wire::{bytes_to_text, json_doc, lossy_text};
use crate::{ENABLE_WATCH_CMD, PROTO_MAJOR_MIN};

verus! {

/// The states of the handshake, in the order they are passed.
#[derive(Debug, Copy, Clone, PartialEq, Eq, Structural)]
pub enum HandshakeState {
    /// Awaiting the daemon's VERSION announcement; nothing sent yet.
    AwaitVersion,
    /// Version accepted and the enable-watch command sent; awaiting the
    /// device list.
    AwaitDevices,
    /// Awaiting the watch acknowledgment.
    AwaitWatchAck,
    /// The handshake succeeded; the caller may stream.
    Complete,
}

/// Why a handshake step failed.
pub enum StepFail {
    /// The line did not decode against the handshake union.
    Decode(DecodeFault),
    /// The daemon's major protocol version is below the minimum.
    Unsupported,
    /// A well-formed handshake message of the wrong kind for this step.
    Unexpected,
    /// The watch acknowledgment refused the negotiated mode.
    WatchRefused,
}

/// What one handshake step does: move to the next state, emitting bytes to
/// the daemon, or fail.
pub enum StepOutcome {
    Next(HandshakeState, Seq<u8>),
    Fail(StepFail),
}

/// The bytes of the enable-watch command.
pub open spec fn spec_watch_cmd() -> Seq<u8> {
    ENABLE_WATCH_CMD.spec_bytes()
}

/// The enable-watch command, as the bytes put on the wire.
pub fn enable_watch_bytes() -> (r: Vec<u8>)
    ensures
        r@ == spec_watch_cmd(),
{
    vstd::slice::slice_to_vec(ENABLE_WATCH_CMD.as_bytes())
}

/// A watch toggle with the daemon's default: absent reads as `false`.
pub open spec fn spec_flag(o: Option<bool>) -> bool {
    match o {
        Some(b) => b,
        None => false,
    }
}

/// The watch-acknowledgment acceptance rule. With absent toggles read as
/// `false`, exactly the combination `enable == false`, `json == false`,
/// `nmea == true` is refused — the negotiated mode must not be pure legacy
/// NMEA dumping; every other combination of the three is accepted.
pub open spec fn spec_watch_ack_ok(w: Watch) -> bool {
    !(!spec_flag(w.enable) && !spec_flag(w.json) && spec_flag(w.nmea))
}

/// Applies the acceptance rule to an acknowledgment.
pub fn watch_ack_ok(w: &Watch) -> (r: bool)
    ensures
        r == spec_watch_ack_ok(*w),
{
    let enable = match w.enable {
        Some(b) => b,
        None => false,
    };
    let json = match w.json {
        Some(b) => b,
        None => false,
    };
    let nmea = match w.nmea {
        Some(b) => b,
        None => false,
    };
    !(!enable && !json && nmea)
}

/// The object pairs of a line's document; meaningful when the line decodes.
pub open spec fn line_pairs(line: Seq<u8>) -> Seq<(String, Json)> {
    json_doc(line)->Some_0->Obj_0@
}

/// The discriminator of a line; meaningful when the line decodes.
pub open spec fn line_class(line: Seq<u8>) -> Seq<char> {
    spec_class(line_pairs(line))->Ok_0@
}

/// The daemon's major protocol version; meaningful when the line decodes to
/// a VERSION message.
pub open spec fn line_proto_major(line: Seq<u8>) -> i64 {
    spec_req_int(line_pairs(line), "proto_major"@, 0i64, 255i64)->Ok_0
}

/// One watch toggle of a line, with the daemon's default; meaningful when
/// the line decodes to a WATCH message.
pub open spec fn line_flag(line: Seq<u8>, key: Seq<char>) -> bool {
    spec_flag(spec_opt_bool(line_pairs(line), key)->Ok_0)
}

/// The acceptance rule over a raw WATCH line.
pub open spec fn line_ack_ok(line: Seq<u8>) -> bool {
    !(!line_flag(line, "enable"@) && !line_flag(line, "json"@) && line_flag(line, "nmea"@))
}

/// The transition function of the handshake: what receiving `line` in state
/// `s` does. A line that does not decode fails the handshake; the VERSION
/// step validates the major version before anything is sent; the other two
/// steps send nothing.
pub open spec fn spec_handshake_step(s: HandshakeState, line: Seq<u8>) -> StepOutcome {
    match handshake_fault(line) {
        Some(f) => StepOutcome::Fail(StepFail::Decode(f)),
        None => match s {
            HandshakeState::AwaitVersion => if line_class(line) == "VERSION"@ {
                if line_proto_major(line) >= PROTO_MAJOR_MIN {
                    StepOutcome::Next(HandshakeState::AwaitDevices, spec_watch_cmd())
                } else {
                    StepOutcome::Fail(StepFail::Unsupported)
                }
            } else {
                StepOutcome::Fail(StepFail::Unexpected)
            },
            HandshakeState::AwaitDevices => if line_class(line) == "DEVICES"@ {
                StepOutcome::Next(HandshakeState::AwaitWatchAck, Seq::empty())
            } else {
                StepOutcome::Fail(StepFail::Unexpected)
            },
            HandshakeState::AwaitWatchAck => if line_class(line) == "WATCH"@ {
                if line_ack_ok(line) {
                    StepOutcome::Next(HandshakeState::Complete, Seq::empty())
                } else {
                    StepOutcome::Fail(StepFail::WatchRefused)
                }
            } else {
                StepOutcome::Fail(StepFail::Unexpected)
            },
            HandshakeState::Complete => StepOutcome::Next(
                HandshakeState::Complete,
                Seq::empty(),
            ),
        },
    }
}

/// The error a failed step reports: the fault for a line that did not
/// decode, and otherwise the step's failure with the raw line as text.
pub open spec fn step_err_matches(e: GpsdError, k: StepFail, line: Seq<u8>) -> bool {
    match (e, k) {
        (GpsdError::JsonError(d), StepFail::Decode(f)) => fault_of(d) == f,
        (GpsdError::UnsupportedGpsdProtocolVersion, StepFail::Unsupported) => true,
        (GpsdError::UnexpectedGpsdReply(s), StepFail::Unexpected) => s@ == lossy_text(line),
        (GpsdError::WatchFail(s), StepFail::WatchRefused) => s@ == lossy_text(line),
        _ => false,
    }
}

/// Performs one handshake step on a received line: decodes it against the
/// handshake union and follows [`spec_handshake_step`]. On success the
/// returned bytes (possibly none) must be written to the daemon and flushed
/// before the next read.
pub fn handshake_step(state: HandshakeState, line: &Vec<u8>) -> (r: Result<
    (HandshakeState, Vec<u8>),
    GpsdError,
>)
    requires
        state != HandshakeState::Complete,
    ensures
        match spec_handshake_step(state, line@) {
            StepOutcome::Next(s2, out) => r matches Ok(p) && p.0 == s2 && p.1@ == out,
            StepOutcome::Fail(k) => r matches Err(e) && step_err_matches(e, k, line@),
        },
{
    let msg = match decode_handshake(line) {
        Ok(m) => m,
        Err(e) => return Err(GpsdError::JsonError(e)),
    };
    proof {
        reveal_strlit("VERSION");
        reveal_strlit("DEVICES");
        reveal_strlit("WATCH");
        assert("VERSION"@[0] == 'V');
        assert("DEVICES"@[0] == 'D');
        assert("WATCH"@[0] == 'W');
        assert("VERSION"@ != "DEVICES"@);
        assert("VERSION"@ != "WATCH"@);
        assert("DEVICES"@ != "WATCH"@);
    }
    match state {
        HandshakeState::AwaitVersion => match msg {
            ResponseHandshake::Version(v) => if v.proto_major >= PROTO_MAJOR_MIN {
                Ok((HandshakeState::AwaitDevices, enable_watch_bytes()))
            } else {
                Err(GpsdError::UnsupportedGpsdProtocolVersion)
            },
            _ => Err(GpsdError::UnexpectedGpsdReply(bytes_to_text(line))),
        },
        HandshakeState::AwaitDevices => match msg {
            ResponseHandshake::Devices(_) => {
                let out: Vec<u8> = Vec::new();
                proof {
                    assert(out@ =~= Seq::<u8>::empty());
                }
                Ok((HandshakeState::AwaitWatchAck, out))
            },
            _ => Err(GpsdError::UnexpectedGpsdReply(bytes_to_text(line))),
        },
        HandshakeState::AwaitWatchAck => match msg {
            ResponseHandshake::Watch(w) => if watch_ack_ok(&w) {
                let out: Vec<u8> = Vec::new();
                proof {
                    assert(out@ =~= Seq::<u8>::empty());
                }
                Ok((HandshakeState::Complete, out))
            } else {
                Err(GpsdError::WatchFail(bytes_to_text(line)))
            },
            _ => Err(GpsdError::UnexpectedGpsdReply(bytes_to_text(line))),
        },
        HandshakeState::Complete => vstd::pervasive::unreached(),
    }
}

/// Folds the handshake over a sequence of received lines, starting in state
/// `s`: the final state (or the failure that aborted the exchange) and every
/// byte emitted along the way, in order.
pub open spec fn spec_handshake_run(s: HandshakeState, lines: Seq<Seq<u8>>) -> (Result<
    HandshakeState,
    StepFail,
>, Seq<u8>)
    decreases lines.len(),
{
    if s is Complete || lines.len() == 0 {
        (Ok(s), Seq::empty())
    } else {
        match spec_handshake_step(s, lines[0]) {
            StepOutcome::Next(s2, out) => {
                let rest = spec_handshake_run(s2, lines.drop_first());
                (rest.0, out + rest.1)
            },
            StepOutcome::Fail(k) => (Err(k), Seq::empty()),
        }
    }
}

/// A valid exchange completes the handshake and emits exactly the
/// enable-watch command, no more and no less: the daemon announces a VERSION
/// whose major protocol version is at least the minimum, then a device list,
/// then a watch acknowledgment the acceptance rule admits.
pub proof fn lemma_handshake_accepts(
    l1: Seq<u8>,
    l2: Seq<u8>,
    l3: Seq<u8>,
    v: Version,
    d: Devices,
    w: Watch,
)
    requires
        handshake_fault(l1) is None,
        is_handshake_of(l1, ResponseHandshake::Version(v)),
        v.proto_major >= PROTO_MAJOR_MIN,
        handshake_fault(l2) is None,
        is_handshake_of(l2, ResponseHandshake::Devices(d)),
        handshake_fault(l3) is None,
        is_handshake_of(l3, ResponseHandshake::Watch(w)),
        spec_watch_ack_ok(w),
    ensures
        spec_handshake_run(HandshakeState::AwaitVersion, seq![l1, l2, l3]).0 == Ok::<
            HandshakeState,
            StepFail,
        >(HandshakeState::Complete),
        spec_handshake_run(HandshakeState::AwaitVersion, seq![l1, l2, l3]).1 == spec_watch_cmd(),
{
    let lines = seq![l1, l2, l3];
    let tail2 = seq![l2, l3];
    let tail3 = seq![l3];
    assert(lines[0] == l1);
    assert(tail2[0] == l2);
    assert(tail3[0] == l3);
    assert(lines.drop_first() =~= tail2);
    assert(tail2.drop_first() =~= tail3);
    assert(tail3.drop_first() =~= Seq::<Seq<u8>>::empty());
    assert(spec_handshake_step(HandshakeState::AwaitVersion, l1) == StepOutcome::Next(
        HandshakeState::AwaitDevices,
        spec_watch_cmd(),
    ));
    assert(spec_handshake_step(HandshakeState::AwaitDevices, l2) == StepOutcome::Next(
        HandshakeState::AwaitWatchAck,
        Seq::<u8>::empty(),
    ));
    assert(spec_handshake_step(HandshakeState::AwaitWatchAck, l3) == StepOutcome::Next(
        HandshakeState::Complete,
        Seq::<u8>::empty(),
    ));
    let done = spec_handshake_run(HandshakeState::Complete, tail3.drop_first());
    assert(done.0 == Ok::<HandshakeState, StepFail>(HandshakeState::Complete));
    assert(done.1 =~= Seq::<u8>::empty());
    let run3 = spec_handshake_run(HandshakeState::AwaitWatchAck, tail3);
    assert(run3.0 == Ok::<HandshakeState, StepFail>(HandshakeState::Complete));
    assert(run3.1 =~= Seq::<u8>::empty());
    let run2 = spec_handshake_run(HandshakeState::AwaitDevices, tail2);
    assert(run2.0 == Ok::<HandshakeState, StepFail>(HandshakeState::Complete));
    assert(run2.1 =~= Seq::<u8>::empty());
    let run1 = spec_handshake_run(HandshakeState::AwaitVersion, lines);
    assert(run1.0 == Ok::<HandshakeState, StepFail>(HandshakeState::Complete));
    assert(run1.1 =~= spec_watch_cmd());
}

/// A daemon whose major protocol version is below the minimum aborts the
/// handshake at the first step, and nothing is ever written to it.
pub proof fn lemma_handshake_rejects_old_version(lines: Seq<Seq<u8>>, v: Version)
    requires
        lines.len() >= 1,
        handshake_fault(lines[0]) is None,
        is_handshake_of(lines[0], ResponseHandshake::Version(v)),
        v.proto_major < PROTO_MAJOR_MIN,
    ensures
        spec_handshake_run(HandshakeState::AwaitVersion, lines) == (Err::<
            HandshakeState,
            StepFail,
        >(StepFail::Unsupported), Seq::<u8>::empty()),
{
}

/// A well-formed handshake message of the wrong kind in place of the VERSION
/// announcement aborts the handshake, and nothing is ever written: the
/// command must not be sent before the version is validated.
pub proof fn lemma_handshake_rejects_out_of_order(lines: Seq<Seq<u8>>, m: ResponseHandshake)
    requires
        lines.len() >= 1,
        handshake_fault(lines[0]) is None,
        is_handshake_of(lines[0], m),
        !(m is Version),
    ensures
        spec_handshake_run(HandshakeState::AwaitVersion, lines) == (Err::<
            HandshakeState,
            StepFail,
        >(StepFail::Unexpected), Seq::<u8>::empty()),
{
    reveal_strlit("VERSION");
    reveal_strlit("DEVICES");
    reveal_strlit("WATCH");
    assert("VERSION"@[0] == 'V');
    assert("DEVICES"@[0] == 'D');
    assert("WATCH"@[0] == 'W');
    assert("DEVICES"@ != "VERSION"@);
    assert("WATCH"@ != "VERSION"@);
}

/// The watch-acknowledgment truth table: with absent toggles read as
/// `false`, receiving WATCH in the final handshake step fails exactly on the
/// combination `enable == false`, `json == false`, `nmea == true`, and every
/// other combination of the three completes the handshake.
pub proof fn lemma_watch_ack_rule(line: Seq<u8>, w: Watch)
    requires
        handshake_fault(line) is None,
        is_handshake_of(line, ResponseHandshake::Watch(w)),
    ensures
        spec_handshake_step(HandshakeState::AwaitWatchAck, line) == if spec_watch_ack_ok(w) {
            StepOutcome::Next(HandshakeState::Complete, Seq::<u8>::empty())
        } else {
            StepOutcome::Fail(StepFail::WatchRefused)
        },
        spec_watch_ack_ok(w) <==> !(!spec_flag(w.enable) && !spec_flag(w.json) && spec_flag(
            w.nmea,
        )),
{
}

} // verus!
