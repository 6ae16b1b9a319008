//! The handshake over in-memory streams, and the watch acceptance rule.

use std::io::BufWriter;

use gpsd_proto::handshake::{handshake_step, watch_ack_ok, HandshakeState};
use gpsd_proto::{handshake, GpsdError, Watch, ENABLE_WATCH_CMD};

#[test]
fn handshake_ok() {
    // Note: linefeeds (0x0a) are added implicit; each line ends with 0x0d 0x0a.
    let mut reader: &[u8] = b"{\"class\":\"VERSION\",\"release\":\"blah\",\"rev\":\"blurp\",\"proto_major\":3,\"proto_minor\":12}\x0d
{\"class\":\"DEVICES\",\"devices\":[{\"path\":\"/dev/gps\",\"activated\":\"true\"}]}
{\"class\":\"WATCH\",\"enable\":true,\"json\":true,\"nmea\":false}
";
    let mut writer = BufWriter::new(Vec::<u8>::new());
    let r = handshake(&mut reader, &mut writer);
    assert!(r.is_ok());
    assert_eq!(writer.get_mut().as_slice(), ENABLE_WATCH_CMD.as_bytes());
}

#[test]
fn handshake_unsupported_protocol_version() {
    let mut reader: &[u8] =
        b"{\"class\":\"VERSION\",\"release\":\"blah\",\"rev\":\"blurp\",\"proto_major\":2,\"proto_minor\":17}\x0d
";
    let mut writer = BufWriter::new(Vec::<u8>::new());
    let err = match handshake(&mut reader, &mut writer) {
        Err(GpsdError::UnsupportedGpsdProtocolVersion) => Ok(()),
        _ => Err(()),
    };
    assert_eq!(err, Ok(()));
    let empty: &[u8] = &[];
    assert_eq!(writer.get_mut().as_slice(), empty);
}

#[test]
fn handshake_unexpected_gpsd_reply() {
    // A possible response, but in the wrong order; At the begin
    // of the handshake, a VERSION reply is expected.
    let mut reader: &[u8] =
        b"{\"class\":\"DEVICES\",\"devices\":[{\"path\":\"/dev/gps\",\"activated\":\"true\"}]}
";
    let mut writer = BufWriter::new(Vec::<u8>::new());
    let err = match handshake(&mut reader, &mut writer) {
        Err(GpsdError::UnexpectedGpsdReply(_)) => Ok(()),
        _ => Err(()),
    };
    assert_eq!(err, Ok(()));
    let empty: &[u8] = &[];
    assert_eq!(writer.get_mut().as_slice(), empty);
}

#[test]
fn handshake_json_error() {
    let mut reader: &[u8] = b"{\"class\":broken";
    let mut writer = BufWriter::new(Vec::<u8>::new());
    let err = match handshake(&mut reader, &mut writer) {
        Err(GpsdError::JsonError(_)) => Ok(()),
        _ => Err(()),
    };
    assert_eq!(err, Ok(()));
    let empty: &[u8] = &[];
    assert_eq!(writer.get_mut().as_slice(), empty);
}

#[test]
fn handshake_unexpected_reply_carries_raw_line() {
    let line = b"{\"class\":\"WATCH\",\"enable\":true}\n";
    let mut reader: &[u8] = line;
    let mut writer = BufWriter::new(Vec::<u8>::new());
    match handshake(&mut reader, &mut writer) {
        Err(GpsdError::UnexpectedGpsdReply(s)) => {
            assert_eq!(s.as_bytes(), line);
        }
        _ => panic!("expected an unexpected-reply error"),
    }
}

fn watch(enable: Option<bool>, json: Option<bool>, nmea: Option<bool>) -> Watch {
    Watch {
        enable,
        json,
        nmea,
        raw: None,
        scaled: None,
        timing: None,
        split24: None,
        pps: None,
        device: None,
    }
}

#[test]
fn watch_ack_truth_table() {
    // Exactly enable=false, json=false, nmea=true is refused; the other
    // seven combinations are accepted.
    for enable in [false, true] {
        for json in [false, true] {
            for nmea in [false, true] {
                let expected = !(!enable && !json && nmea);
                let w = watch(Some(enable), Some(json), Some(nmea));
                assert_eq!(watch_ack_ok(&w), expected);
            }
        }
    }
    // All fields absent read as false/false/false: accepted.
    assert!(watch_ack_ok(&watch(None, None, None)));
    // Absent toggles default to false in the refused combination too.
    assert!(!watch_ack_ok(&watch(None, None, Some(true))));
}

#[test]
fn handshake_watch_ack_refused() {
    let mut reader: &[u8] = b"{\"class\":\"VERSION\",\"release\":\"blah\",\"rev\":\"blurp\",\"proto_major\":3,\"proto_minor\":12}
{\"class\":\"DEVICES\",\"devices\":[]}
{\"class\":\"WATCH\",\"enable\":false,\"json\":false,\"nmea\":true}
";
    let mut writer = BufWriter::new(Vec::<u8>::new());
    match handshake(&mut reader, &mut writer) {
        Err(GpsdError::WatchFail(_)) => {}
        _ => panic!("expected the watch negotiation to fail"),
    }
    // The command had already gone out when the acknowledgment arrived.
    assert_eq!(writer.get_mut().as_slice(), ENABLE_WATCH_CMD.as_bytes());
}

#[test]
fn handshake_step_sequence() {
    let l1: Vec<u8> = b"{\"class\":\"VERSION\",\"release\":\"r\",\"rev\":\"v\",\"proto_major\":3,\"proto_minor\":0}".to_vec();
    let l2: Vec<u8> = b"{\"class\":\"DEVICES\",\"devices\":[]}".to_vec();
    let l3: Vec<u8> = b"{\"class\":\"WATCH\",\"enable\":true,\"json\":true}".to_vec();
    let (s1, out1) = handshake_step(HandshakeState::AwaitVersion, &l1).unwrap();
    assert_eq!(s1, HandshakeState::AwaitDevices);
    assert_eq!(out1.as_slice(), ENABLE_WATCH_CMD.as_bytes());
    let (s2, out2) = handshake_step(s1, &l2).unwrap();
    assert_eq!(s2, HandshakeState::AwaitWatchAck);
    assert!(out2.is_empty());
    let (s3, out3) = handshake_step(s2, &l3).unwrap();
    assert_eq!(s3, HandshakeState::Complete);
    assert!(out3.is_empty());
}
