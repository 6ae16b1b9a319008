//! The blocking client: line-framed reads and writes over a caller-supplied
//! duplex byte stream, driving the verified handshake machine and decoder.
//!
//! All protocol decisions are made by verified code
//! ([`crate::handshake::handshake_step`], [`crate::decode::decode_data`]);
//! this module only moves bytes. The stream's behaviour cannot be promised,
//! so the contracts here say what holds of whatever comes back: success means
//! three received lines drove the machine to completion emitting exactly the
//! enable-watch command, and every failure is an I/O error or the exact error
//! of the step or decode that refused a received line.

use vstd::prelude::*;

use crate::decode::{data_fault, decode_data, is_data_of};
use crate::errors::{fault_of, GpsdError};
use crate::handshake::{
    handshake_step, spec_handshake_run, spec_handshake_step, spec_watch_cmd, step_err_matches,
    HandshakeState, StepFail, StepOutcome,
};
use crate::messages::ResponseData;

verus! {

/// Relies on `std::io::BufRead::read_until`: reads bytes up to and including
/// the next newline, or to the end of the stream.
#[verifier::external_body]
fn read_line_raw<R: std::io::BufRead>(reader: &mut R) -> (r: Result<Vec<u8>, std::io::Error>) {
    let mut data = Vec::new();
    match reader.read_until(b'\n', &mut data) {
        Ok(_) => Ok(data),
        Err(e) => Err(e),
    }
}

/// Relies on `std::io::Write::write_all`: writes the whole buffer or fails.
#[verifier::external_body]
fn write_all_raw<W: std::io::Write>(writer: &mut W, data: &Vec<u8>) -> (r: Result<
    (),
    std::io::Error,
>) {
    writer.write_all(data.as_slice())
}

/// Relies on `std::io::Write::flush`.
#[verifier::external_body]
fn flush_raw<W: std::io::Write>(writer: &mut W) -> (r: Result<(), std::io::Error>) {
    writer.flush()
}

/// Performs the initial handshake with the daemon.
///
/// The sequence is fixed and retry-free: receive VERSION (validating the
/// daemon's major protocol version), send the enable-watch command and flush
/// it, receive DEVICES, receive the WATCH acknowledgment and apply the
/// acceptance rule. Any failure aborts the handshake; nothing is written
/// before the version is validated.
///
/// What the stream yields cannot be known here, so the contract says what
/// holds of every outcome: on success, a sequence of three received lines
/// drove [`spec_handshake_run`] from the first state to completion, emitting
/// exactly the enable-watch command; on failure, the error is an I/O error
/// or the exact error some handshake step reports for a received line.
pub fn handshake<R: std::io::BufRead, W: std::io::Write>(reader: &mut R, writer: &mut W) -> (r:
    Result<(), GpsdError>)
    ensures
        r matches Ok(()) ==> exists|lines: Seq<Seq<u8>>|
            lines.len() == 3 && #[trigger] spec_handshake_run(
                HandshakeState::AwaitVersion,
                lines,
            ) == (Ok::<HandshakeState, StepFail>(HandshakeState::Complete), spec_watch_cmd()),
        r matches Err(e) ==> e is IoError || exists|s: HandshakeState, l: Seq<u8>, k: StepFail|
            #![trigger spec_handshake_step(s, l), step_err_matches(e, k, l)]
            spec_handshake_step(s, l) == StepOutcome::Fail(k) && step_err_matches(e, k, l),
{
    // Get VERSION
    let line1 = match read_line_raw(reader) {
        Ok(l) => l,
        Err(e) => return Err(GpsdError::IoError(e)),
    };
    let step1 = match handshake_step(HandshakeState::AwaitVersion, &line1) {
        Ok(p) => p,
        Err(e) => {
            proof {
                let k = spec_handshake_step(HandshakeState::AwaitVersion, line1@)->Fail_0;
                assert(spec_handshake_step(HandshakeState::AwaitVersion, line1@)
                    == StepOutcome::Fail(k) && step_err_matches(e, k, line1@));
            }
            return Err(e);
        },
    };
    // Enable WATCH: the machine hands the command back on this step alone,
    // and it must be flushed before the next read.
    match write_all_raw(writer, &step1.1) {
        Ok(u) => u,
        Err(e) => return Err(GpsdError::IoError(e)),
    };
    match flush_raw(writer) {
        Ok(u) => u,
        Err(e) => return Err(GpsdError::IoError(e)),
    };
    // Get DEVICES
    let line2 = match read_line_raw(reader) {
        Ok(l) => l,
        Err(e) => return Err(GpsdError::IoError(e)),
    };
    let step2 = match handshake_step(step1.0, &line2) {
        Ok(p) => p,
        Err(e) => {
            proof {
                let k = spec_handshake_step(step1.0, line2@)->Fail_0;
                assert(spec_handshake_step(step1.0, line2@) == StepOutcome::Fail(k)
                    && step_err_matches(e, k, line2@));
            }
            return Err(e);
        },
    };
    // Get WATCH
    let line3 = match read_line_raw(reader) {
        Ok(l) => l,
        Err(e) => return Err(GpsdError::IoError(e)),
    };
    let step3 = match handshake_step(step2.0, &line3) {
        Ok(p) => p,
        Err(e) => {
            proof {
                let k = spec_handshake_step(step2.0, line3@)->Fail_0;
                assert(spec_handshake_step(step2.0, line3@) == StepOutcome::Fail(k)
                    && step_err_matches(e, k, line3@));
            }
            return Err(e);
        },
    };
    proof {
        assert(step3.0 == HandshakeState::Complete);
        let l1 = line1@;
        let l2 = line2@;
        let l3 = line3@;
        let lines = seq![l1, l2, l3];
        let tail2 = seq![l2, l3];
        let tail3 = seq![l3];
        assert(lines[0] == l1);
        assert(tail2[0] == l2);
        assert(tail3[0] == l3);
        assert(lines.drop_first() =~= tail2);
        assert(tail2.drop_first() =~= tail3);
        assert(tail3.drop_first() =~= Seq::<Seq<u8>>::empty());
        assert(spec_handshake_step(HandshakeState::AwaitVersion, l1) == StepOutcome::Next(
            HandshakeState::AwaitDevices,
            spec_watch_cmd(),
        ));
        assert(spec_handshake_step(HandshakeState::AwaitDevices, l2) == StepOutcome::Next(
            HandshakeState::AwaitWatchAck,
            Seq::<u8>::empty(),
        ));
        assert(spec_handshake_step(HandshakeState::AwaitWatchAck, l3) == StepOutcome::Next(
            HandshakeState::Complete,
            Seq::<u8>::empty(),
        ));
        let done = spec_handshake_run(HandshakeState::Complete, tail3.drop_first());
        assert(done.0 == Ok::<HandshakeState, StepFail>(HandshakeState::Complete));
        assert(done.1 =~= Seq::<u8>::empty());
        let run3 = spec_handshake_run(HandshakeState::AwaitWatchAck, tail3);
        assert(run3.0 == Ok::<HandshakeState, StepFail>(HandshakeState::Complete));
        assert(run3.1 =~= Seq::<u8>::empty());
        let run2 = spec_handshake_run(HandshakeState::AwaitDevices, tail2);
        assert(run2.0 == Ok::<HandshakeState, StepFail>(HandshakeState::Complete));
        assert(run2.1 =~= Seq::<u8>::empty());
        let run1 = spec_handshake_run(HandshakeState::AwaitVersion, lines);
        assert(run1.0 == Ok::<HandshakeState, StepFail>(HandshakeState::Complete));
        assert(run1.1 =~= spec_watch_cmd());
        assert(lines.len() == 3 && spec_handshake_run(HandshakeState::AwaitVersion, lines) == (
            Ok::<HandshakeState, StepFail>(HandshakeState::Complete),
            spec_watch_cmd(),
        ));
    }
    Ok(())
}

/// Gets one payload message from the daemon: reads one line and decodes it
/// against the payload union.
///
/// Each call is independent: a decode failure reports that line and does not
/// invalidate the stream, while a read failure ([`GpsdError::IoError`])
/// means the connection is broken. Whatever was read, a returned message is
/// exactly the decoding of one received line, and a decode failure is
/// exactly the fault the decoder reports for one received line.
pub fn get_data<R: std::io::BufRead>(reader: &mut R) -> (r: Result<ResponseData, GpsdError>)
    ensures
        r matches Ok(m) ==> exists|line: Seq<u8>|
            data_fault(line) is None && #[trigger] is_data_of(line, m),
        r matches Err(e) ==> e is IoError || (e matches GpsdError::JsonError(d)
            && exists|line: Seq<u8>| #[trigger] data_fault(line) == Some(fault_of(d))),
{
    let line = match read_line_raw(reader) {
        Ok(l) => l,
        Err(e) => return Err(GpsdError::IoError(e)),
    };
    match decode_data(&line) {
        Ok(m) => {
            proof {
                assert(data_fault(line@) is None && is_data_of(line@, m));
            }
            Ok(m)
        },
        Err(e) => {
            proof {
                assert(data_fault(line@) == Some(fault_of(e)));
            }
            Err(GpsdError::JsonError(e))
        },
    }
}

} // verus!
