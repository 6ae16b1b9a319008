//! Round trips: decoding the document an encoder builds yields the encoded
//! value back, field for field.

use gpsd_proto::decode::{
    decode_device, decode_device_info, decode_devices, decode_gst, decode_osc, decode_pps,
    decode_satellite, decode_sky, decode_version, decode_watch,
};
use gpsd_proto::encode::{
    encode_device, encode_device_info, encode_devices, encode_gst, encode_handshake, encode_osc,
    encode_pps, encode_satellite, encode_sky, encode_version, encode_watch,
};
use gpsd_proto::{
    Device, DeviceInfo, Devices, Gst, Json, Mode, Osc, Pps, ResponseHandshake, Satellite, Sky,
    Version, Watch,
};

fn obj_pairs(j: Json) -> Vec<(String, Json)> {
    match j {
        Json::Obj(pairs) => pairs,
        _ => panic!("an encoder must build an object"),
    }
}

fn version() -> Version {
    Version {
        release: "3.17".to_string(),
        rev: "3.17".to_string(),
        proto_major: 3,
        proto_minor: 12,
        remote: Some("tcp://host:2947".to_string()),
    }
}

#[test]
fn version_round_trip() {
    let v = version();
    let decoded = decode_version(&obj_pairs(encode_version(&v))).unwrap();
    assert_eq!(decoded, v);
    let bare = Version { remote: None, ..version() };
    assert_eq!(decode_version(&obj_pairs(encode_version(&bare))).unwrap(), bare);
}

#[test]
fn device_info_round_trip() {
    let with_stamp = DeviceInfo {
        path: Some("/dev/gps".to_string()),
        activated: Some("2024-01-10T11:36:48.480Z".to_string()),
    };
    assert_eq!(
        decode_device_info(&obj_pairs(encode_device_info(&with_stamp))).unwrap(),
        with_stamp
    );
    let inactive = DeviceInfo { path: None, activated: None };
    assert_eq!(
        decode_device_info(&obj_pairs(encode_device_info(&inactive))).unwrap(),
        inactive
    );
}

#[test]
fn devices_round_trip() {
    let d = Devices {
        devices: vec![
            DeviceInfo { path: Some("/dev/gps0".to_string()), activated: None },
            DeviceInfo {
                path: None,
                activated: Some("2024-01-10T11:36:48.480Z".to_string()),
            },
        ],
    };
    assert_eq!(decode_devices(&obj_pairs(encode_devices(&d))).unwrap(), d);
}

#[test]
fn watch_round_trip() {
    let w = Watch {
        enable: Some(true),
        json: Some(true),
        nmea: None,
        raw: Some(2),
        scaled: Some(false),
        timing: None,
        split24: None,
        pps: Some(true),
        device: Some("/dev/gps".to_string()),
    };
    assert_eq!(decode_watch(&obj_pairs(encode_watch(&w))).unwrap(), w);
}

#[test]
fn device_round_trip() {
    let d = Device {
        path: Some("/dev/gps".to_string()),
        activated: None,
        flags: Some(-3),
        driver: Some("NMEA".to_string()),
        subtype: None,
        bps: Some(9600),
        parity: Some("N".to_string()),
        stopbits: Some(1),
        native: Some(0),
        cycle: Some("1.0".to_string()),
        mincycle: None,
    };
    assert_eq!(decode_device(&obj_pairs(encode_device(&d))).unwrap(), d);
}

fn satellite() -> Satellite {
    Satellite {
        prn: -17,
        el: Some("45.5".to_string()),
        az: None,
        ss: Some("30.1".to_string()),
        used: true,
        gnssid: Some(2),
        svid: Some(271),
        sigid: None,
        freqid: Some(13),
        health: Some(1),
    }
}

#[test]
fn satellite_round_trip() {
    let s = satellite();
    assert_eq!(decode_satellite(&obj_pairs(encode_satellite(&s))).unwrap(), s);
}

#[test]
fn sky_round_trip() {
    let s = Sky {
        device: Some("/dev/gps".to_string()),
        xdop: Some("0.5".to_string()),
        ydop: None,
        vdop: Some("1.25".to_string()),
        tdop: None,
        hdop: None,
        gdop: None,
        pdop: Some("2.5".to_string()),
        satellites: Some(vec![satellite()]),
        n_sat: Some(1),
        pr_res: None,
        qual: Some(7),
        time: Some("2024-01-10T11:36:48.480Z".to_string()),
        u_sat: Some(1),
    };
    assert_eq!(decode_sky(&obj_pairs(encode_sky(&s))).unwrap(), s);
    let empty = Sky { satellites: None, ..s };
    assert_eq!(decode_sky(&obj_pairs(encode_sky(&empty))).unwrap(), empty);
}

#[test]
fn pps_round_trip() {
    let p = Pps {
        device: "/dev/pps0".to_string(),
        real_sec: "1428001514".to_string(),
        real_nsec: "1000000".to_string(),
        clock_sec: "1428001513".to_string(),
        clock_nsec: "999999999".to_string(),
        precision: Some("-20".to_string()),
        shm: Some("NTP2".to_string()),
        q_err: None,
    };
    assert_eq!(decode_pps(&obj_pairs(encode_pps(&p))).unwrap(), p);
}

#[test]
fn gst_round_trip() {
    let g = Gst {
        device: Some("/dev/gps".to_string()),
        time: None,
        rms: Some("1.5".to_string()),
        major: None,
        minor: None,
        orient: Some("12.0".to_string()),
        lat: Some("0.9".to_string()),
        lon: Some("1.1".to_string()),
        alt: None,
    };
    assert_eq!(decode_gst(&obj_pairs(encode_gst(&g))).unwrap(), g);
}

#[test]
fn osc_round_trip() {
    let o = Osc {
        device: None,
        running: true,
        reference: true,
        disciplined: false,
        delta: 67,
    };
    assert_eq!(decode_osc(&obj_pairs(encode_osc(&o))).unwrap(), o);
}

#[test]
fn handshake_union_round_trip() {
    let m = ResponseHandshake::Version(version());
    match encode_handshake(&m) {
        Json::Obj(pairs) => {
            assert_eq!(decode_version(&pairs).unwrap(), version());
        }
        _ => panic!("an encoder must build an object"),
    }
}

#[test]
fn mode_code_round_trip() {
    for m in [Mode::NoFix, Mode::Fix2d, Mode::Fix3d] {
        assert_eq!(Mode::from_code(m.code()), m);
    }
}

#[test]
fn integer_fields_encode_their_digits() {
    let v = version();
    let pairs = obj_pairs(encode_version(&v));
    let major = pairs.iter().find(|p| p.0 == "proto_major").unwrap();
    match &major.1 {
        Json::Num(n) => {
            assert_eq!(n.text, "3");
            assert_eq!(n.int, Some(3));
            assert_eq!(n.uint, Some(3));
        }
        _ => panic!("an integer field must encode as a number"),
    }
    let sat = obj_pairs(encode_satellite(&satellite()));
    let prn = sat.iter().find(|p| p.0 == "PRN").unwrap();
    match &prn.1 {
        Json::Num(n) => {
            assert_eq!(n.text, "-17");
            assert_eq!(n.int, Some(-17));
            assert_eq!(n.uint, None);
        }
        _ => panic!("an integer field must encode as a number"),
    }
}
