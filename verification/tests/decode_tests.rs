//! The streaming decoder: class dispatch, field coercions, error cases.

use gpsd_proto::decode::{decode_data, decode_handshake, decode_unified};
use gpsd_proto::{get_data, DecodeError, GpsdError, Mode, ResponseData, UnifiedResponse};

#[test]
fn get_data_tpv() {
    let mut reader: &[u8] = b"{\"class\":\"TPV\",\"mode\":3,\"lat\":66.123}\x0d\x0a";
    let r = get_data(&mut reader).unwrap();
    let test = match r {
        ResponseData::Tpv(tpv) => {
            assert!(matches!(tpv.mode, Mode::Fix3d));
            assert_eq!(tpv.lat.unwrap().parse::<f64>().unwrap(), 66.123);
            assert_eq!(tpv.device, None);
            assert_eq!(tpv.time, None);
            assert_eq!(tpv.lon, None);
            assert_eq!(tpv.alt, None);
            assert_eq!(tpv.speed, None);
            Ok(())
        }
        _ => Err(()),
    };
    assert_eq!(test, Ok(()));
}

#[test]
fn get_data_sky() {
    let mut reader: &[u8] = b"{\"class\":\"SKY\",\"device\":\"aDevice\",\"satellites\":[{\"PRN\":123,\"el\":1.0,\"az\":2.0,\"ss\":3.0,\"used\":true,\"gnssid\":1,\"svid\":271,\"health\":1}]}\x0d\x0a";

    let r = get_data(&mut reader).unwrap();
    let test = match r {
        ResponseData::Sky(sky) => {
            assert_eq!(sky.device.unwrap(), "aDevice");
            let actual = &sky.satellites.unwrap()[0];
            assert_eq!(actual.prn, 123);
            assert_eq!(actual.el.clone().unwrap().parse::<f32>().unwrap(), 1.);
            assert_eq!(actual.az.clone().unwrap().parse::<f32>().unwrap(), 2.);
            assert_eq!(actual.ss.clone().unwrap().parse::<f32>().unwrap(), 3.);
            assert!(actual.used);
            assert_eq!(actual.gnssid, Some(1));
            assert_eq!(actual.svid, Some(271));
            assert_eq!(actual.health, Some(1));
            Ok(())
        }
        _ => Err(()),
    };
    assert_eq!(test, Ok(()));
}

#[test]
fn mode_to_string() {
    assert_eq!("NoFix", Mode::NoFix.label());
    assert_eq!("2d", Mode::Fix2d.label());
    assert_eq!("3d", Mode::Fix3d.label());
}

fn unwrap_device(data: UnifiedResponse) -> gpsd_proto::Devices {
    match data {
        UnifiedResponse::Devices(d) => d,
        _ => panic!("Unexpected response"),
    }
}

#[test]
fn test_device_activated_zero_value() {
    let data: &[u8] =
        b"{\"class\":\"DEVICES\",\"devices\":[{\"path\":\"/dev/gps\",\"activated\":0}]}
{\"class\":\"DEVICES\",\"devices\":[{\"path\":\"/dev/gps\",\"activated\":\"2024-01-10T11:36:48.480Z\"}]}
{\"class\":\"DEVICES\",\"devices\":[{\"path\":\"/dev/gps\"}]}
{\"class\":\"DEVICES\",\"devices\":[{\"path\":\"/dev/gps\",\"activated\":1}]}
{\"class\":\"DEVICES\",\"devices\":[{\"path\":\"/dev/gps\",\"activated\":false}]}";
    let mut rdr = data.split(|b| *b == b'\n');

    let ok_zero = unwrap_device(decode_unified(&rdr.next().unwrap().to_vec()).unwrap());
    assert_eq!(ok_zero.devices[0].activated, None);

    let ok_timestamp = unwrap_device(decode_unified(&rdr.next().unwrap().to_vec()).unwrap());
    assert_eq!(
        ok_timestamp.devices[0].activated,
        Some("2024-01-10T11:36:48.480Z".to_string())
    );

    let ok_not_present = unwrap_device(decode_unified(&rdr.next().unwrap().to_vec()).unwrap());
    assert_eq!(ok_not_present.devices[0].activated, None);

    assert!(decode_unified(&rdr.next().unwrap().to_vec()).is_err());

    assert!(decode_unified(&rdr.next().unwrap().to_vec()).is_err());
}

#[test]
fn activated_null_reads_as_absent() {
    let line: Vec<u8> =
        b"{\"class\":\"DEVICES\",\"devices\":[{\"path\":\"/dev/gps\",\"activated\":null}]}"
            .to_vec();
    let d = unwrap_device(decode_unified(&line).unwrap());
    assert_eq!(d.devices[0].activated, None);
    let dev: Vec<u8> = b"{\"class\":\"DEVICE\",\"activated\":null}".to_vec();
    match decode_data(&dev).unwrap() {
        ResponseData::Device(d) => assert_eq!(d.activated, None),
        _ => panic!("expected a DEVICE"),
    }
}

fn tpv_mode(code: u32) -> Mode {
    let line = format!("{{\"class\":\"TPV\",\"mode\":{}}}", code);
    match decode_data(&line.into_bytes()).unwrap() {
        ResponseData::Tpv(t) => t.mode,
        _ => panic!("expected a TPV"),
    }
}

#[test]
fn mode_coercion_table() {
    // 2 and 3 name a fix; anything else in range means no fix, never an
    // error.
    assert_eq!(tpv_mode(0), Mode::NoFix);
    assert_eq!(tpv_mode(1), Mode::NoFix);
    assert_eq!(tpv_mode(2), Mode::Fix2d);
    assert_eq!(tpv_mode(3), Mode::Fix3d);
    assert_eq!(tpv_mode(99), Mode::NoFix);
    assert_eq!(Mode::from_code(0), Mode::NoFix);
    assert_eq!(Mode::from_code(2), Mode::Fix2d);
    assert_eq!(Mode::from_code(3), Mode::Fix3d);
    assert_eq!(Mode::from_code(99), Mode::NoFix);
}

#[test]
fn mode_out_of_byte_range_is_refused() {
    let line: Vec<u8> = b"{\"class\":\"TPV\",\"mode\":256}".to_vec();
    assert!(matches!(
        decode_data(&line),
        Err(DecodeError::BadField(f)) if f == "mode"
    ));
}

#[test]
fn tpv_without_mode_is_refused() {
    let line: Vec<u8> = b"{\"class\":\"TPV\",\"lat\":1.5}".to_vec();
    assert!(matches!(
        decode_data(&line),
        Err(DecodeError::MissingField(f)) if f == "mode"
    ));
}

#[test]
fn malformed_json_is_a_decode_failure() {
    let line: Vec<u8> = b"{\"class\":broken".to_vec();
    assert!(matches!(decode_data(&line), Err(DecodeError::Syntax(_))));
    assert!(matches!(decode_handshake(&line), Err(DecodeError::Syntax(_))));
}

#[test]
fn non_object_line_is_refused() {
    let line: Vec<u8> = b"[1,2,3]".to_vec();
    assert!(matches!(decode_data(&line), Err(DecodeError::NotObject)));
}

#[test]
fn missing_discriminator_is_refused() {
    let line: Vec<u8> = b"{\"lat\":1.5}".to_vec();
    assert!(matches!(decode_data(&line), Err(DecodeError::MissingClass)));
    let line2: Vec<u8> = b"{\"class\":7}".to_vec();
    assert!(matches!(decode_data(&line2), Err(DecodeError::MissingClass)));
}

#[test]
fn unknown_discriminator_is_refused_by_closed_unions() {
    let line: Vec<u8> = b"{\"class\":\"SUBFRAME\",\"x\":1}".to_vec();
    assert!(matches!(
        decode_data(&line),
        Err(DecodeError::UnknownClass(c)) if c == "SUBFRAME"
    ));
    let tpv: Vec<u8> = b"{\"class\":\"TPV\",\"mode\":3}".to_vec();
    assert!(matches!(
        decode_handshake(&tpv),
        Err(DecodeError::UnknownClass(c)) if c == "TPV"
    ));
}

#[test]
fn unknown_discriminator_passes_through_the_open_union() {
    let line: Vec<u8> = b"{\"class\":\"SUBFRAME\",\"frame\":7}".to_vec();
    match decode_unified(&line).unwrap() {
        UnifiedResponse::Subframe(_) => {}
        _ => panic!("expected the open fallback"),
    }
    let other: Vec<u8> = b"{\"class\":\"NOVEL\",\"x\":[true]}".to_vec();
    assert!(matches!(
        decode_unified(&other),
        Ok(UnifiedResponse::Subframe(_))
    ));
}

#[test]
fn string_field_of_wrong_shape_is_refused() {
    let line: Vec<u8> = b"{\"class\":\"TPV\",\"mode\":3,\"device\":5}".to_vec();
    assert!(matches!(
        decode_data(&line),
        Err(DecodeError::BadField(f)) if f == "device"
    ));
}

#[test]
fn numeric_field_of_wrong_shape_is_refused() {
    let line: Vec<u8> = b"{\"class\":\"TPV\",\"mode\":3,\"lat\":\"north\"}".to_vec();
    assert!(matches!(
        decode_data(&line),
        Err(DecodeError::BadField(f)) if f == "lat"
    ));
}

#[test]
fn null_optional_field_reads_as_absent() {
    let line: Vec<u8> = b"{\"class\":\"TPV\",\"mode\":2,\"device\":null,\"lat\":null}".to_vec();
    match decode_data(&line).unwrap() {
        ResponseData::Tpv(t) => {
            assert_eq!(t.device, None);
            assert_eq!(t.lat, None);
            assert_eq!(t.mode, Mode::Fix2d);
        }
        _ => panic!("expected a TPV"),
    }
}

#[test]
fn integer_fields_check_their_range() {
    let ok: Vec<u8> = b"{\"class\":\"SKY\",\"qual\":255}".to_vec();
    match decode_data(&ok).unwrap() {
        ResponseData::Sky(s) => assert_eq!(s.qual, Some(255)),
        _ => panic!("expected a SKY"),
    }
    let over: Vec<u8> = b"{\"class\":\"SKY\",\"qual\":2550}".to_vec();
    assert!(matches!(
        decode_data(&over),
        Err(DecodeError::BadField(f)) if f == "qual"
    ));
    let negative: Vec<u8> = b"{\"class\":\"SKY\",\"qual\":-1}".to_vec();
    assert!(matches!(decode_data(&negative), Err(DecodeError::BadField(_))));
    let fractional: Vec<u8> = b"{\"class\":\"SKY\",\"qual\":1.5}".to_vec();
    assert!(matches!(decode_data(&fractional), Err(DecodeError::BadField(_))));
    let prn: Vec<u8> =
        b"{\"class\":\"SKY\",\"satellites\":[{\"PRN\":-5,\"used\":false}]}".to_vec();
    match decode_data(&prn).unwrap() {
        ResponseData::Sky(s) => assert_eq!(s.satellites.unwrap()[0].prn, -5),
        _ => panic!("expected a SKY"),
    }
}

#[test]
fn every_payload_class_dispatches() {
    let cases: Vec<(&[u8], fn(&ResponseData) -> bool)> = vec![
        (b"{\"class\":\"DEVICE\",\"driver\":\"NMEA\"}", |m| {
            matches!(m, ResponseData::Device(_))
        }),
        (b"{\"class\":\"TPV\",\"mode\":0}", |m| {
            matches!(m, ResponseData::Tpv(_))
        }),
        (b"{\"class\":\"SKY\"}", |m| matches!(m, ResponseData::Sky(_))),
        (
            b"{\"class\":\"PPS\",\"device\":\"d\",\"real_sec\":1,\"real_nsec\":2,\"clock_sec\":3,\"clock_nsec\":4}",
            |m| matches!(m, ResponseData::Pps(_)),
        ),
        (b"{\"class\":\"GST\",\"rms\":1.1}", |m| {
            matches!(m, ResponseData::Gst(_))
        }),
        (b"{\"class\":\"ATT\",\"heading\":12.5}", |m| {
            matches!(m, ResponseData::Att(_))
        }),
        (b"{\"class\":\"IMU\",\"heading\":12.5}", |m| {
            matches!(m, ResponseData::Imu(_))
        }),
        (
            b"{\"class\":\"TOFF\",\"device\":\"d\",\"real_sec\":1,\"real_nsec\":2,\"clock_sec\":3,\"clock_nsec\":4}",
            |m| matches!(m, ResponseData::Toff(_)),
        ),
        (
            b"{\"class\":\"OSC\",\"running\":true,\"reference\":false,\"disciplined\":false,\"delta\":67}",
            |m| matches!(m, ResponseData::Osc(_)),
        ),
        (
            b"{\"class\":\"POLL\",\"active\":1,\"tpv\":[{\"mode\":2,\"lat\":1.25}],\"sky\":[{\"device\":\"d\"}]}",
            |m| matches!(m, ResponseData::Poll(_)),
        ),
    ];
    for (line, check) in cases {
        let m = decode_data(&line.to_vec()).unwrap();
        assert!(check(&m));
    }
}

#[test]
fn poll_carries_its_cached_reports() {
    let line: Vec<u8> = b"{\"class\":\"POLL\",\"time\":\"2010-06-04T10:31:00.289Z\",\"active\":1,\"tpv\":[{\"mode\":3,\"lat\":46.5}],\"sky\":[{\"satellites\":[{\"PRN\":10,\"used\":true}]}]}".to_vec();
    match decode_data(&line).unwrap() {
        ResponseData::Poll(p) => {
            assert_eq!(p.active, 1);
            assert_eq!(p.tpv.len(), 1);
            assert_eq!(p.tpv[0].mode, Mode::Fix3d);
            assert_eq!(p.tpv[0].lat.as_deref(), Some("46.5"));
            assert_eq!(p.sky.len(), 1);
            assert_eq!(p.sky[0].satellites.as_ref().unwrap()[0].prn, 10);
        }
        _ => panic!("expected a POLL"),
    }
}

#[test]
fn errors_describe_themselves() {
    assert_eq!(
        GpsdError::UnsupportedGpsdProtocolVersion.describe(),
        "UnsupportedGpsdProtocolVersion"
    );
    assert_eq!(
        DecodeError::MissingField("mode".to_string()).describe(),
        "missing field mode"
    );
    assert_eq!(
        GpsdError::WatchFail("line".to_string()).describe(),
        "WatchFail: line"
    );
    let e = decode_data(&b"{\"class\":\"FOO\"}".to_vec()).unwrap_err();
    assert_eq!(e.describe(), "unknown class: FOO");
    let io_e = GpsdError::IoError(std::io::Error::new(std::io::ErrorKind::Other, "stream gone"));
    assert_eq!(io_e.describe(), "IoError: stream gone");
}

#[test]
fn io_error_wraps_read_failures() {
    struct Broken;
    impl std::io::Read for Broken {
        fn read(&mut self, _buf: &mut [u8]) -> std::io::Result<usize> {
            Err(std::io::Error::new(std::io::ErrorKind::Other, "gone"))
        }
    }
    let mut reader = std::io::BufReader::new(Broken);
    assert!(matches!(get_data(&mut reader), Err(GpsdError::IoError(_))));
}
