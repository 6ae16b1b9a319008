//! The message decoder: one line of raw bytes to one typed message.
//!
//! Every decoder is verified against a spec-level mirror of the schema: for
//! each message class, a shape function gives the first schema fault of an
//! object (in field order) or success, and an is-of predicate pins each field
//! of the decoded value. The union decoders dispatch on the `class`
//! discriminator and are exact about which discriminators each union accepts.

use vstd::prelude::*;

use crate::errors::{fault_of, to_fault, DecodeError, DecodeFault};
use crate::fields::{
    opt_bool, opt_int, opt_num, opt_string, option_str_or_zero, req_bool, req_int, req_num,
    req_string, spec_opt_bool, spec_opt_int, spec_opt_num, spec_opt_string,
    spec_option_str_or_zero, spec_req_bool, spec_req_int, spec_req_num, spec_req_string,
};
use crate::json::{lookup, spec_lookup, str_eq, Json};
use crate::messages::{
    spec_mode_from_code, Att, Device, DeviceInfo, Devices, Gst, Mode, Osc, Poll, Pps,
    ResponseData, ResponseHandshake, Satellite, Sky, Tpv, UnifiedResponse, Version, Watch,
};
use crate::wire::{json_doc, parse_line};

verus! {

/// The `class` discriminator of an object: refused when absent or not a
/// string.
pub open spec fn spec_class(pairs: Seq<(String, Json)>) -> Result<String, DecodeFault> {
    match spec_lookup(pairs, "class"@) {
        Some(Json::Str(c)) => Ok(c),
        _ => Err(DecodeFault::MissingClass),
    }
}

/// Reads the `class` discriminator.
pub fn class_field(pairs: &Vec<(String, Json)>) -> (r: Result<String, DecodeError>)
    ensures
        to_fault(r) == spec_class(pairs@),
{
    match lookup(pairs, "class") {
        Some(Json::Str(c)) => Ok(c.clone()),
        _ => Err(DecodeError::MissingClass),
    }
}

/// A shape result as the fault a decoder reports: `None` on success.
pub open spec fn shape_fault(r: Result<(), DecodeFault>) -> Option<DecodeFault> {
    match r {
        Ok(_) => None,
        Err(f) => Some(f),
    }
}

/// The first schema fault of a `Version` object, in field order,
/// or success.
pub open spec fn version_shape(pairs: Seq<(String, Json)>) -> Result<(), DecodeFault> {
    if spec_req_string(pairs, "release"@) is Err {
        Err(spec_req_string(pairs, "release"@)->Err_0)
    } else if spec_req_string(pairs, "rev"@) is Err {
        Err(spec_req_string(pairs, "rev"@)->Err_0)
    } else if spec_req_int(pairs, "proto_major"@, 0i64, 255i64) is Err {
        Err(spec_req_int(pairs, "proto_major"@, 0i64, 255i64)->Err_0)
    } else if spec_req_int(pairs, "proto_minor"@, 0i64, 255i64) is Err {
        Err(spec_req_int(pairs, "proto_minor"@, 0i64, 255i64)->Err_0)
    } else if spec_opt_string(pairs, "remote"@) is Err {
        Err(spec_opt_string(pairs, "remote"@)->Err_0)
    } else {
        Ok(())
    }
}

/// `m` holds exactly what the object's fields decode to.
pub open spec fn is_version_of(pairs: Seq<(String, Json)>, m: Version) -> bool {
    &&& spec_req_string(pairs, "release"@) == Ok::<String, DecodeFault>(m.release)
    &&& spec_req_string(pairs, "rev"@) == Ok::<String, DecodeFault>(m.rev)
    &&& match spec_req_int(pairs, "proto_major"@, 0i64, 255i64) {
        Ok(i) => m.proto_major == i as u8,
        Err(_) => false,
    }
    &&& match spec_req_int(pairs, "proto_minor"@, 0i64, 255i64) {
        Ok(i) => m.proto_minor == i as u8,
        Err(_) => false,
    }
    &&& spec_opt_string(pairs, "remote"@) == Ok::<Option<String>, DecodeFault>(m.remote)
}

/// Decodes the fields of one `Version` object.
pub fn decode_version(pairs: &Vec<(String, Json)>) -> (r: Result<Version, DecodeError>)
    ensures
        match r {
            Ok(m) => version_shape(pairs@) == Ok::<(), DecodeFault>(())
                && is_version_of(pairs@, m),
            Err(e) => version_shape(pairs@) == Err::<(), DecodeFault>(fault_of(e)),
        },
{
    let release = match req_string(pairs, "release") {
        Ok(v) => v,
        Err(e) => return Err(e),
    };
    let rev = match req_string(pairs, "rev") {
        Ok(v) => v,
        Err(e) => return Err(e),
    };
    let proto_major = match req_int(pairs, "proto_major", 0i64, 255i64) {
        Ok(v) => v,
        Err(e) => return Err(e),
    };
    let proto_major: u8 = proto_major as u8;
    let proto_minor = match req_int(pairs, "proto_minor", 0i64, 255i64) {
        Ok(v) => v,
        Err(e) => return Err(e),
    };
    let proto_minor: u8 = proto_minor as u8;
    let remote = match opt_string(pairs, "remote") {
        Ok(v) => v,
        Err(e) => return Err(e),
    };
    Ok(Version { release, rev, proto_major, proto_minor, remote })
}

/// The first schema fault of a `DeviceInfo` object, in field order,
/// or success.
pub open spec fn device_info_shape(pairs: Seq<(String, Json)>) -> Result<(), DecodeFault> {
    if spec_opt_string(pairs, "path"@) is Err {
        Err(spec_opt_string(pairs, "path"@)->Err_0)
    } else if spec_option_str_or_zero(pairs, "activated"@) is Err {
        Err(spec_option_str_or_zero(pairs, "activated"@)->Err_0)
    } else {
        Ok(())
    }
}

/// `m` holds exactly what the object's fields decode to.
pub open spec fn is_device_info_of(pairs: Seq<(String, Json)>, m: DeviceInfo) -> bool {
    &&& spec_opt_string(pairs, "path"@) == Ok::<Option<String>, DecodeFault>(m.path)
    &&& spec_option_str_or_zero(pairs, "activated"@) == Ok::<Option<String>, DecodeFault>(m.activated)
}

/// Decodes the fields of one `DeviceInfo` object.
pub fn decode_device_info(pairs: &Vec<(String, Json)>) -> (r: Result<DeviceInfo, DecodeError>)
    ensures
        match r {
            Ok(m) => device_info_shape(pairs@) == Ok::<(), DecodeFault>(())
                && is_device_info_of(pairs@, m),
            Err(e) => device_info_shape(pairs@) == Err::<(), DecodeFault>(fault_of(e)),
        },
{
    let path = match opt_string(pairs, "path") {
        Ok(v) => v,
        Err(e) => return Err(e),
    };
    let activated = match option_str_or_zero(pairs, "activated") {
        Ok(v) => v,
        Err(e) => return Err(e),
    };
    Ok(DeviceInfo { path, activated })
}

/// The first schema fault among the elements of a `DeviceInfo` list: every
/// element must be an object of the right shape.
pub open spec fn device_info_items_shape(items: Seq<Json>, key: Seq<char>) -> Result<(), DecodeFault>
    decreases items.len(),
{
    if items.len() == 0 {
        Ok(())
    } else {
        match items[0] {
            Json::Obj(ps) => if device_info_shape(ps@) is Err {
                Err(device_info_shape(ps@)->Err_0)
            } else {
                device_info_items_shape(items.drop_first(), key)
            },
            _ => Err(DecodeFault::BadField(key)),
        }
    }
}

/// Each element of `out` holds what the matching element of `items` decodes
/// to.
pub open spec fn is_device_info_items(items: Seq<Json>, out: Seq<DeviceInfo>) -> bool {
    &&& out.len() == items.len()
    &&& forall|i: int| 0 <= i < items.len() ==> #[trigger] is_device_info_item(items[i], out[i])
}

/// One list element: an object whose fields decode to `m`.
pub open spec fn is_device_info_item(j: Json, m: DeviceInfo) -> bool {
    match j {
        Json::Obj(ps) => is_device_info_of(ps@, m),
        _ => false,
    }
}

/// Decodes a list of `DeviceInfo` objects; `key` names the list's field in
/// diagnostics.
pub fn decode_device_info_items(items: &Vec<Json>, key: &str) -> (r: Result<Vec<DeviceInfo>, DecodeError>)
    ensures
        match r {
            Ok(out) => device_info_items_shape(items@, key@) == Ok::<(), DecodeFault>(())
                && is_device_info_items(items@, out@),
            Err(e) => device_info_items_shape(items@, key@) == Err::<(), DecodeFault>(fault_of(e)),
        },
{
    let mut out: Vec<DeviceInfo> = Vec::new();
    let mut i: usize = 0;
    proof {
        assert(items@.skip(0) =~= items@);
    }
    while i < items.len()
        invariant
            i <= items.len(),
            out@.len() == i,
            forall|k: int| 0 <= k < i ==> #[trigger] is_device_info_item(items@[k], out@[k]),
            device_info_items_shape(items@, key@) == device_info_items_shape(items@.skip(i as int), key@),
        decreases items.len() - i,
    {
        proof {
            assert(items@.skip(i as int)[0] == items@[i as int]);
            assert(items@.skip(i as int).drop_first() =~= items@.skip(i + 1));
        }
        match &items[i] {
            Json::Obj(ps) => match decode_device_info(ps) {
                Ok(m) => out.push(m),
                Err(e) => return Err(e),
            },
            _ => return Err(DecodeError::BadField(key.to_owned())),
        }
        i = i + 1;
    }
    Ok(out)
}

/// A required list-of-`DeviceInfo` field's schema fault, or success.
pub open spec fn req_arr_shape_device_info(pairs: Seq<(String, Json)>, key: Seq<char>) -> Result<
    (),
    DecodeFault,
> {
    match spec_lookup(pairs, key) {
        None => Err(DecodeFault::MissingField(key)),
        Some(Json::Arr(items)) => device_info_items_shape(items@, key),
        Some(_) => Err(DecodeFault::BadField(key)),
    }
}

/// An optional list-of-`DeviceInfo` field's schema fault, or success.
pub open spec fn opt_arr_shape_device_info(pairs: Seq<(String, Json)>, key: Seq<char>) -> Result<
    (),
    DecodeFault,
> {
    match spec_lookup(pairs, key) {
        None => Ok(()),
        Some(Json::Null) => Ok(()),
        Some(Json::Arr(items)) => device_info_items_shape(items@, key),
        Some(_) => Err(DecodeFault::BadField(key)),
    }
}

/// The first schema fault of a `Devices` object, in field order,
/// or success.
pub open spec fn devices_shape(pairs: Seq<(String, Json)>) -> Result<(), DecodeFault> {
    if req_arr_shape_device_info(pairs, "devices"@) is Err {
        Err(req_arr_shape_device_info(pairs, "devices"@)->Err_0)
    } else {
        Ok(())
    }
}

/// `m` holds exactly what the object's fields decode to.
pub open spec fn is_devices_of(pairs: Seq<(String, Json)>, m: Devices) -> bool {
    &&& match spec_lookup(pairs, "devices"@) {
        Some(Json::Arr(items)) => is_device_info_items(items@, m.devices@),
        _ => false,
    }
}

/// Decodes the fields of one `Devices` object.
pub fn decode_devices(pairs: &Vec<(String, Json)>) -> (r: Result<Devices, DecodeError>)
    ensures
        match r {
            Ok(m) => devices_shape(pairs@) == Ok::<(), DecodeFault>(())
                && is_devices_of(pairs@, m),
            Err(e) => devices_shape(pairs@) == Err::<(), DecodeFault>(fault_of(e)),
        },
{
    let devices = match lookup(pairs, "devices") {
        None => return Err(DecodeError::MissingField("devices".to_owned())),
        Some(Json::Arr(items)) => match decode_device_info_items(items, "devices") {
            Ok(v) => v,
            Err(e) => return Err(e),
        },
        Some(_) => return Err(DecodeError::BadField("devices".to_owned())),
    };
    Ok(Devices { devices })
}

/// The first schema fault of a `Watch` object, in field order,
/// or success.
pub open spec fn watch_shape(pairs: Seq<(String, Json)>) -> Result<(), DecodeFault> {
    if spec_opt_bool(pairs, "enable"@) is Err {
        Err(spec_opt_bool(pairs, "enable"@)->Err_0)
    } else if spec_opt_bool(pairs, "json"@) is Err {
        Err(spec_opt_bool(pairs, "json"@)->Err_0)
    } else if spec_opt_bool(pairs, "nmea"@) is Err {
        Err(spec_opt_bool(pairs, "nmea"@)->Err_0)
    } else if spec_opt_int(pairs, "raw"@, 0i64, 255i64) is Err {
        Err(spec_opt_int(pairs, "raw"@, 0i64, 255i64)->Err_0)
    } else if spec_opt_bool(pairs, "scaled"@) is Err {
        Err(spec_opt_bool(pairs, "scaled"@)->Err_0)
    } else if spec_opt_bool(pairs, "timing"@) is Err {
        Err(spec_opt_bool(pairs, "timing"@)->Err_0)
    } else if spec_opt_bool(pairs, "split24"@) is Err {
        Err(spec_opt_bool(pairs, "split24"@)->Err_0)
    } else if spec_opt_bool(pairs, "pps"@) is Err {
        Err(spec_opt_bool(pairs, "pps"@)->Err_0)
    } else if spec_opt_string(pairs, "device"@) is Err {
        Err(spec_opt_string(pairs, "device"@)->Err_0)
    } else {
        Ok(())
    }
}

/// `m` holds exactly what the object's fields decode to.
pub open spec fn is_watch_of(pairs: Seq<(String, Json)>, m: Watch) -> bool {
    &&& spec_opt_bool(pairs, "enable"@) == Ok::<Option<bool>, DecodeFault>(m.enable)
    &&& spec_opt_bool(pairs, "json"@) == Ok::<Option<bool>, DecodeFault>(m.json)
    &&& spec_opt_bool(pairs, "nmea"@) == Ok::<Option<bool>, DecodeFault>(m.nmea)
    &&& match spec_opt_int(pairs, "raw"@, 0i64, 255i64) {
        Ok(Some(i)) => m.raw == Some(i as u8),
        Ok(None) => m.raw is None,
        Err(_) => false,
    }
    &&& spec_opt_bool(pairs, "scaled"@) == Ok::<Option<bool>, DecodeFault>(m.scaled)
    &&& spec_opt_bool(pairs, "timing"@) == Ok::<Option<bool>, DecodeFault>(m.timing)
    &&& spec_opt_bool(pairs, "split24"@) == Ok::<Option<bool>, DecodeFault>(m.split24)
    &&& spec_opt_bool(pairs, "pps"@) == Ok::<Option<bool>, DecodeFault>(m.pps)
    &&& spec_opt_string(pairs, "device"@) == Ok::<Option<String>, DecodeFault>(m.device)
}

/// Decodes the fields of one `Watch` object.
pub fn decode_watch(pairs: &Vec<(String, Json)>) -> (r: Result<Watch, DecodeError>)
    ensures
        match r {
            Ok(m) => watch_shape(pairs@) == Ok::<(), DecodeFault>(())
                && is_watch_of(pairs@, m),
            Err(e) => watch_shape(pairs@) == Err::<(), DecodeFault>(fault_of(e)),
        },
{
    let enable = match opt_bool(pairs, "enable") {
        Ok(v) => v,
        Err(e) => return Err(e),
    };
    let json = match opt_bool(pairs, "json") {
        Ok(v) => v,
        Err(e) => return Err(e),
    };
    let nmea = match opt_bool(pairs, "nmea") {
        Ok(v) => v,
        Err(e) => return Err(e),
    };
    let raw = match opt_int(pairs, "raw", 0i64, 255i64) {
        Ok(v) => v,
        Err(e) => return Err(e),
    };
    let raw: Option<u8> = match raw {
        Some(i) => Some(i as u8),
        None => None,
    };
    let scaled = match opt_bool(pairs, "scaled") {
        Ok(v) => v,
        Err(e) => return Err(e),
    };
    let timing = match opt_bool(pairs, "timing") {
        Ok(v) => v,
        Err(e) => return Err(e),
    };
    let split24 = match opt_bool(pairs, "split24") {
        Ok(v) => v,
        Err(e) => return Err(e),
    };
    let pps = match opt_bool(pairs, "pps") {
        Ok(v) => v,
        Err(e) => return Err(e),
    };
    let device = match opt_string(pairs, "device") {
        Ok(v) => v,
        Err(e) => return Err(e),
    };
    Ok(Watch { enable, json, nmea, raw, scaled, timing, split24, pps, device })
}

/// The first schema fault of a `Device` object, in field order,
/// or success.
pub open spec fn device_shape(pairs: Seq<(String, Json)>) -> Result<(), DecodeFault> {
    if spec_opt_string(pairs, "path"@) is Err {
        Err(spec_opt_string(pairs, "path"@)->Err_0)
    } else if spec_option_str_or_zero(pairs, "activated"@) is Err {
        Err(spec_option_str_or_zero(pairs, "activated"@)->Err_0)
    } else if spec_opt_int(pairs, "flags"@, -2147483648i64, 2147483647i64) is Err {
        Err(spec_opt_int(pairs, "flags"@, -2147483648i64, 2147483647i64)->Err_0)
    } else if spec_opt_string(pairs, "driver"@) is Err {
        Err(spec_opt_string(pairs, "driver"@)->Err_0)
    } else if spec_opt_string(pairs, "subtype"@) is Err {
        Err(spec_opt_string(pairs, "subtype"@)->Err_0)
    } else if spec_opt_int(pairs, "bps"@, 0i64, 65535i64) is Err {
        Err(spec_opt_int(pairs, "bps"@, 0i64, 65535i64)->Err_0)
    } else if spec_opt_string(pairs, "parity"@) is Err {
        Err(spec_opt_string(pairs, "parity"@)->Err_0)
    } else if spec_opt_int(pairs, "stopbits"@, 0i64, 255i64) is Err {
        Err(spec_opt_int(pairs, "stopbits"@, 0i64, 255i64)->Err_0)
    } else if spec_opt_int(pairs, "native"@, 0i64, 255i64) is Err {
        Err(spec_opt_int(pairs, "native"@, 0i64, 255i64)->Err_0)
    } else if spec_opt_num(pairs, "cycle"@) is Err {
        Err(spec_opt_num(pairs, "cycle"@)->Err_0)
    } else if spec_opt_num(pairs, "mincycle"@) is Err {
        Err(spec_opt_num(pairs, "mincycle"@)->Err_0)
    } else {
        Ok(())
    }
}

/// `m` holds exactly what the object's fields decode to.
pub open spec fn is_device_of(pairs: Seq<(String, Json)>, m: Device) -> bool {
    &&& spec_opt_string(pairs, "path"@) == Ok::<Option<String>, DecodeFault>(m.path)
    &&& spec_option_str_or_zero(pairs, "activated"@) == Ok::<Option<String>, DecodeFault>(m.activated)
    &&& match spec_opt_int(pairs, "flags"@, -2147483648i64, 2147483647i64) {
        Ok(Some(i)) => m.flags == Some(i as i32),
        Ok(None) => m.flags is None,
        Err(_) => false,
    }
    &&& spec_opt_string(pairs, "driver"@) == Ok::<Option<String>, DecodeFault>(m.driver)
    &&& spec_opt_string(pairs, "subtype"@) == Ok::<Option<String>, DecodeFault>(m.subtype)
    &&& match spec_opt_int(pairs, "bps"@, 0i64, 65535i64) {
        Ok(Some(i)) => m.bps == Some(i as u16),
        Ok(None) => m.bps is None,
        Err(_) => false,
    }
    &&& spec_opt_string(pairs, "parity"@) == Ok::<Option<String>, DecodeFault>(m.parity)
    &&& match spec_opt_int(pairs, "stopbits"@, 0i64, 255i64) {
        Ok(Some(i)) => m.stopbits == Some(i as u8),
        Ok(None) => m.stopbits is None,
        Err(_) => false,
    }
    &&& match spec_opt_int(pairs, "native"@, 0i64, 255i64) {
        Ok(Some(i)) => m.native == Some(i as u8),
        Ok(None) => m.native is None,
        Err(_) => false,
    }
    &&& spec_opt_num(pairs, "cycle"@) == Ok::<Option<String>, DecodeFault>(m.cycle)
    &&& spec_opt_num(pairs, "mincycle"@) == Ok::<Option<String>, DecodeFault>(m.mincycle)
}

/// Decodes the fields of one `Device` object.
pub fn decode_device(pairs: &Vec<(String, Json)>) -> (r: Result<Device, DecodeError>)
    ensures
        match r {
            Ok(m) => device_shape(pairs@) == Ok::<(), DecodeFault>(())
                && is_device_of(pairs@, m),
            Err(e) => device_shape(pairs@) == Err::<(), DecodeFault>(fault_of(e)),
        },
{
    let path = match opt_string(pairs, "path") {
        Ok(v) => v,
        Err(e) => return Err(e),
    };
    let activated = match option_str_or_zero(pairs, "activated") {
        Ok(v) => v,
        Err(e) => return Err(e),
    };
    let flags = match opt_int(pairs, "flags", -2147483648i64, 2147483647i64) {
        Ok(v) => v,
        Err(e) => return Err(e),
    };
    let flags: Option<i32> = match flags {
        Some(i) => Some(i as i32),
        None => None,
    };
    let driver = match opt_string(pairs, "driver") {
        Ok(v) => v,
        Err(e) => return Err(e),
    };
    let subtype = match opt_string(pairs, "subtype") {
        Ok(v) => v,
        Err(e) => return Err(e),
    };
    let bps = match opt_int(pairs, "bps", 0i64, 65535i64) {
        Ok(v) => v,
        Err(e) => return Err(e),
    };
    let bps: Option<u16> = match bps {
        Some(i) => Some(i as u16),
        None => None,
    };
    let parity = match opt_string(pairs, "parity") {
        Ok(v) => v,
        Err(e) => return Err(e),
    };
    let stopbits = match opt_int(pairs, "stopbits", 0i64, 255i64) {
        Ok(v) => v,
        Err(e) => return Err(e),
    };
    let stopbits: Option<u8> = match stopbits {
        Some(i) => Some(i as u8),
        None => None,
    };
    let native = match opt_int(pairs, "native", 0i64, 255i64) {
        Ok(v) => v,
        Err(e) => return Err(e),
    };
    let native: Option<u8> = match native {
        Some(i) => Some(i as u8),
        None => None,
    };
    let cycle = match opt_num(pairs, "cycle") {
        Ok(v) => v,
        Err(e) => return Err(e),
    };
    let mincycle = match opt_num(pairs, "mincycle") {
        Ok(v) => v,
        Err(e) => return Err(e),
    };
    Ok(Device { path, activated, flags, driver, subtype, bps, parity, stopbits, native, cycle, mincycle })
}

/// The first schema fault of a `Satellite` object, in field order,
/// or success.
pub open spec fn satellite_shape(pairs: Seq<(String, Json)>) -> Result<(), DecodeFault> {
    if spec_req_int(pairs, "PRN"@, -32768i64, 32767i64) is Err {
        Err(spec_req_int(pairs, "PRN"@, -32768i64, 32767i64)->Err_0)
    } else if spec_opt_num(pairs, "el"@) is Err {
        Err(spec_opt_num(pairs, "el"@)->Err_0)
    } else if spec_opt_num(pairs, "az"@) is Err {
        Err(spec_opt_num(pairs, "az"@)->Err_0)
    } else if spec_opt_num(pairs, "ss"@) is Err {
        Err(spec_opt_num(pairs, "ss"@)->Err_0)
    } else if spec_req_bool(pairs, "used"@) is Err {
        Err(spec_req_bool(pairs, "used"@)->Err_0)
    } else if spec_opt_int(pairs, "gnssid"@, 0i64, 255i64) is Err {
        Err(spec_opt_int(pairs, "gnssid"@, 0i64, 255i64)->Err_0)
    } else if spec_opt_int(pairs, "svid"@, 0i64, 65535i64) is Err {
        Err(spec_opt_int(pairs, "svid"@, 0i64, 65535i64)->Err_0)
    } else if spec_opt_int(pairs, "sigid"@, 0i64, 65535i64) is Err {
        Err(spec_opt_int(pairs, "sigid"@, 0i64, 65535i64)->Err_0)
    } else if spec_opt_int(pairs, "freqid"@, 0i64, 65535i64) is Err {
        Err(spec_opt_int(pairs, "freqid"@, 0i64, 65535i64)->Err_0)
    } else if spec_opt_int(pairs, "health"@, 0i64, 255i64) is Err {
        Err(spec_opt_int(pairs, "health"@, 0i64, 255i64)->Err_0)
    } else {
        Ok(())
    }
}

/// `m` holds exactly what the object's fields decode to.
pub open spec fn is_satellite_of(pairs: Seq<(String, Json)>, m: Satellite) -> bool {
    &&& match spec_req_int(pairs, "PRN"@, -32768i64, 32767i64) {
        Ok(i) => m.prn == i as i16,
        Err(_) => false,
    }
    &&& spec_opt_num(pairs, "el"@) == Ok::<Option<String>, DecodeFault>(m.el)
    &&& spec_opt_num(pairs, "az"@) == Ok::<Option<String>, DecodeFault>(m.az)
    &&& spec_opt_num(pairs, "ss"@) == Ok::<Option<String>, DecodeFault>(m.ss)
    &&& spec_req_bool(pairs, "used"@) == Ok::<bool, DecodeFault>(m.used)
    &&& match spec_opt_int(pairs, "gnssid"@, 0i64, 255i64) {
        Ok(Some(i)) => m.gnssid == Some(i as u8),
        Ok(None) => m.gnssid is None,
        Err(_) => false,
    }
    &&& match spec_opt_int(pairs, "svid"@, 0i64, 65535i64) {
        Ok(Some(i)) => m.svid == Some(i as u16),
        Ok(None) => m.svid is None,
        Err(_) => false,
    }
    &&& match spec_opt_int(pairs, "sigid"@, 0i64, 65535i64) {
        Ok(Some(i)) => m.sigid == Some(i as u16),
        Ok(None) => m.sigid is None,
        Err(_) => false,
    }
    &&& match spec_opt_int(pairs, "freqid"@, 0i64, 65535i64) {
        Ok(Some(i)) => m.freqid == Some(i as u16),
        Ok(None) => m.freqid is None,
        Err(_) => false,
    }
    &&& match spec_opt_int(pairs, "health"@, 0i64, 255i64) {
        Ok(Some(i)) => m.health == Some(i as u8),
        Ok(None) => m.health is None,
        Err(_) => false,
    }
}

/// Decodes the fields of one `Satellite` object.
pub fn decode_satellite(pairs: &Vec<(String, Json)>) -> (r: Result<Satellite, DecodeError>)
    ensures
        match r {
            Ok(m) => satellite_shape(pairs@) == Ok::<(), DecodeFault>(())
                && is_satellite_of(pairs@, m),
            Err(e) => satellite_shape(pairs@) == Err::<(), DecodeFault>(fault_of(e)),
        },
{
    let prn = match req_int(pairs, "PRN", -32768i64, 32767i64) {
        Ok(v) => v,
        Err(e) => return Err(e),
    };
    let prn: i16 = prn as i16;
    let el = match opt_num(pairs, "el") {
        Ok(v) => v,
        Err(e) => return Err(e),
    };
    let az = match opt_num(pairs, "az") {
        Ok(v) => v,
        Err(e) => return Err(e),
    };
    let ss = match opt_num(pairs, "ss") {
        Ok(v) => v,
        Err(e) => return Err(e),
    };
    let used = match req_bool(pairs, "used") {
        Ok(v) => v,
        Err(e) => return Err(e),
    };
    let gnssid = match opt_int(pairs, "gnssid", 0i64, 255i64) {
        Ok(v) => v,
        Err(e) => return Err(e),
    };
    let gnssid: Option<u8> = match gnssid {
        Some(i) => Some(i as u8),
        None => None,
    };
    let svid = match opt_int(pairs, "svid", 0i64, 65535i64) {
        Ok(v) => v,
        Err(e) => return Err(e),
    };
    let svid: Option<u16> = match svid {
        Some(i) => Some(i as u16),
        None => None,
    };
    let sigid = match opt_int(pairs, "sigid", 0i64, 65535i64) {
        Ok(v) => v,
        Err(e) => return Err(e),
    };
    let sigid: Option<u16> = match sigid {
        Some(i) => Some(i as u16),
        None => None,
    };
    let freqid = match opt_int(pairs, "freqid", 0i64, 65535i64) {
        Ok(v) => v,
        Err(e) => return Err(e),
    };
    let freqid: Option<u16> = match freqid {
        Some(i) => Some(i as u16),
        None => None,
    };
    let health = match opt_int(pairs, "health", 0i64, 255i64) {
        Ok(v) => v,
        Err(e) => return Err(e),
    };
    let health: Option<u8> = match health {
        Some(i) => Some(i as u8),
        None => None,
    };
    Ok(Satellite { prn, el, az, ss, used, gnssid, svid, sigid, freqid, health })
}

/// The first schema fault among the elements of a `Satellite` list: every
/// element must be an object of the right shape.
pub open spec fn satellite_items_shape(items: Seq<Json>, key: Seq<char>) -> Result<(), DecodeFault>
    decreases items.len(),
{
    if items.len() == 0 {
        Ok(())
    } else {
        match items[0] {
            Json::Obj(ps) => if satellite_shape(ps@) is Err {
                Err(satellite_shape(ps@)->Err_0)
            } else {
                satellite_items_shape(items.drop_first(), key)
            },
            _ => Err(DecodeFault::BadField(key)),
        }
    }
}

/// Each element of `out` holds what the matching element of `items` decodes
/// to.
pub open spec fn is_satellite_items(items: Seq<Json>, out: Seq<Satellite>) -> bool {
    &&& out.len() == items.len()
    &&& forall|i: int| 0 <= i < items.len() ==> #[trigger] is_satellite_item(items[i], out[i])
}

/// One list element: an object whose fields decode to `m`.
pub open spec fn is_satellite_item(j: Json, m: Satellite) -> bool {
    match j {
        Json::Obj(ps) => is_satellite_of(ps@, m),
        _ => false,
    }
}

/// Decodes a list of `Satellite` objects; `key` names the list's field in
/// diagnostics.
pub fn decode_satellite_items(items: &Vec<Json>, key: &str) -> (r: Result<Vec<Satellite>, DecodeError>)
    ensures
        match r {
            Ok(out) => satellite_items_shape(items@, key@) == Ok::<(), DecodeFault>(())
                && is_satellite_items(items@, out@),
            Err(e) => satellite_items_shape(items@, key@) == Err::<(), DecodeFault>(fault_of(e)),
        },
{
    let mut out: Vec<Satellite> = Vec::new();
    let mut i: usize = 0;
    proof {
        assert(items@.skip(0) =~= items@);
    }
    while i < items.len()
        invariant
            i <= items.len(),
            out@.len() == i,
            forall|k: int| 0 <= k < i ==> #[trigger] is_satellite_item(items@[k], out@[k]),
            satellite_items_shape(items@, key@) == satellite_items_shape(items@.skip(i as int), key@),
        decreases items.len() - i,
    {
        proof {
            assert(items@.skip(i as int)[0] == items@[i as int]);
            assert(items@.skip(i as int).drop_first() =~= items@.skip(i + 1));
        }
        match &items[i] {
            Json::Obj(ps) => match decode_satellite(ps) {
                Ok(m) => out.push(m),
                Err(e) => return Err(e),
            },
            _ => return Err(DecodeError::BadField(key.to_owned())),
        }
        i = i + 1;
    }
    Ok(out)
}

/// A required list-of-`Satellite` field's schema fault, or success.
pub open spec fn req_arr_shape_satellite(pairs: Seq<(String, Json)>, key: Seq<char>) -> Result<
    (),
    DecodeFault,
> {
    match spec_lookup(pairs, key) {
        None => Err(DecodeFault::MissingField(key)),
        Some(Json::Arr(items)) => satellite_items_shape(items@, key),
        Some(_) => Err(DecodeFault::BadField(key)),
    }
}

/// An optional list-of-`Satellite` field's schema fault, or success.
pub open spec fn opt_arr_shape_satellite(pairs: Seq<(String, Json)>, key: Seq<char>) -> Result<
    (),
    DecodeFault,
> {
    match spec_lookup(pairs, key) {
        None => Ok(()),
        Some(Json::Null) => Ok(()),
        Some(Json::Arr(items)) => satellite_items_shape(items@, key),
        Some(_) => Err(DecodeFault::BadField(key)),
    }
}

/// The first schema fault of a `Tpv` object, in field order,
/// or success.
pub open spec fn tpv_shape(pairs: Seq<(String, Json)>) -> Result<(), DecodeFault> {
    if spec_opt_string(pairs, "device"@) is Err {
        Err(spec_opt_string(pairs, "device"@)->Err_0)
    } else if spec_opt_int(pairs, "status"@, -2147483648i64, 2147483647i64) is Err {
        Err(spec_opt_int(pairs, "status"@, -2147483648i64, 2147483647i64)->Err_0)
    } else if spec_req_int(pairs, "mode"@, 0, 255) is Err {
        Err(spec_req_int(pairs, "mode"@, 0, 255)->Err_0)
    } else if spec_opt_string(pairs, "time"@) is Err {
        Err(spec_opt_string(pairs, "time"@)->Err_0)
    } else if spec_opt_num(pairs, "ept"@) is Err {
        Err(spec_opt_num(pairs, "ept"@)->Err_0)
    } else if spec_opt_int(pairs, "leapseconds"@, -2147483648i64, 2147483647i64) is Err {
        Err(spec_opt_int(pairs, "leapseconds"@, -2147483648i64, 2147483647i64)->Err_0)
    } else if spec_opt_num(pairs, "altMSL"@) is Err {
        Err(spec_opt_num(pairs, "altMSL"@)->Err_0)
    } else if spec_opt_num(pairs, "altHAE"@) is Err {
        Err(spec_opt_num(pairs, "altHAE"@)->Err_0)
    } else if spec_opt_num(pairs, "geoidSep"@) is Err {
        Err(spec_opt_num(pairs, "geoidSep"@)->Err_0)
    } else if spec_opt_num(pairs, "lat"@) is Err {
        Err(spec_opt_num(pairs, "lat"@)->Err_0)
    } else if spec_opt_num(pairs, "lon"@) is Err {
        Err(spec_opt_num(pairs, "lon"@)->Err_0)
    } else if spec_opt_num(pairs, "alt"@) is Err {
        Err(spec_opt_num(pairs, "alt"@)->Err_0)
    } else if spec_opt_num(pairs, "epx"@) is Err {
        Err(spec_opt_num(pairs, "epx"@)->Err_0)
    } else if spec_opt_num(pairs, "epy"@) is Err {
        Err(spec_opt_num(pairs, "epy"@)->Err_0)
    } else if spec_opt_num(pairs, "epv"@) is Err {
        Err(spec_opt_num(pairs, "epv"@)->Err_0)
    } else if spec_opt_num(pairs, "track"@) is Err {
        Err(spec_opt_num(pairs, "track"@)->Err_0)
    } else if spec_opt_num(pairs, "speed"@) is Err {
        Err(spec_opt_num(pairs, "speed"@)->Err_0)
    } else if spec_opt_num(pairs, "climb"@) is Err {
        Err(spec_opt_num(pairs, "climb"@)->Err_0)
    } else if spec_opt_num(pairs, "epd"@) is Err {
        Err(spec_opt_num(pairs, "epd"@)->Err_0)
    } else if spec_opt_num(pairs, "eps"@) is Err {
        Err(spec_opt_num(pairs, "eps"@)->Err_0)
    } else if spec_opt_num(pairs, "epc"@) is Err {
        Err(spec_opt_num(pairs, "epc"@)->Err_0)
    } else if spec_opt_num(pairs, "eph"@) is Err {
        Err(spec_opt_num(pairs, "eph"@)->Err_0)
    } else if spec_opt_string(pairs, "datum"@) is Err {
        Err(spec_opt_string(pairs, "datum"@)->Err_0)
    } else if spec_opt_num(pairs, "depth"@) is Err {
        Err(spec_opt_num(pairs, "depth"@)->Err_0)
    } else if spec_opt_num(pairs, "dgpsAge"@) is Err {
        Err(spec_opt_num(pairs, "dgpsAge"@)->Err_0)
    } else if spec_opt_int(pairs, "dgpsSta"@, -2147483648i64, 2147483647i64) is Err {
        Err(spec_opt_int(pairs, "dgpsSta"@, -2147483648i64, 2147483647i64)->Err_0)
    } else if spec_opt_num(pairs, "magtrack"@) is Err {
        Err(spec_opt_num(pairs, "magtrack"@)->Err_0)
    } else if spec_opt_num(pairs, "magvar"@) is Err {
        Err(spec_opt_num(pairs, "magvar"@)->Err_0)
    } else if spec_opt_num(pairs, "ecefx"@) is Err {
        Err(spec_opt_num(pairs, "ecefx"@)->Err_0)
    } else if spec_opt_num(pairs, "ecefy"@) is Err {
        Err(spec_opt_num(pairs, "ecefy"@)->Err_0)
    } else if spec_opt_num(pairs, "ecefz"@) is Err {
        Err(spec_opt_num(pairs, "ecefz"@)->Err_0)
    } else if spec_opt_num(pairs, "ecefpAcc"@) is Err {
        Err(spec_opt_num(pairs, "ecefpAcc"@)->Err_0)
    } else if spec_opt_num(pairs, "ecefvx"@) is Err {
        Err(spec_opt_num(pairs, "ecefvx"@)->Err_0)
    } else if spec_opt_num(pairs, "ecefvy"@) is Err {
        Err(spec_opt_num(pairs, "ecefvy"@)->Err_0)
    } else if spec_opt_num(pairs, "ecefvz"@) is Err {
        Err(spec_opt_num(pairs, "ecefvz"@)->Err_0)
    } else if spec_opt_num(pairs, "ecefvAcc"@) is Err {
        Err(spec_opt_num(pairs, "ecefvAcc"@)->Err_0)
    } else if spec_opt_num(pairs, "sep"@) is Err {
        Err(spec_opt_num(pairs, "sep"@)->Err_0)
    } else if spec_opt_num(pairs, "relD"@) is Err {
        Err(spec_opt_num(pairs, "relD"@)->Err_0)
    } else if spec_opt_num(pairs, "relE"@) is Err {
        Err(spec_opt_num(pairs, "relE"@)->Err_0)
    } else if spec_opt_num(pairs, "relN"@) is Err {
        Err(spec_opt_num(pairs, "relN"@)->Err_0)
    } else if spec_opt_num(pairs, "velD"@) is Err {
        Err(spec_opt_num(pairs, "velD"@)->Err_0)
    } else if spec_opt_num(pairs, "velE"@) is Err {
        Err(spec_opt_num(pairs, "velE"@)->Err_0)
    } else if spec_opt_num(pairs, "velN"@) is Err {
        Err(spec_opt_num(pairs, "velN"@)->Err_0)
    } else if spec_opt_num(pairs, "wanglem"@) is Err {
        Err(spec_opt_num(pairs, "wanglem"@)->Err_0)
    } else if spec_opt_num(pairs, "wangler"@) is Err {
        Err(spec_opt_num(pairs, "wangler"@)->Err_0)
    } else if spec_opt_num(pairs, "wanglet"@) is Err {
        Err(spec_opt_num(pairs, "wanglet"@)->Err_0)
    } else if spec_opt_num(pairs, "wspeedr"@) is Err {
        Err(spec_opt_num(pairs, "wspeedr"@)->Err_0)
    } else if spec_opt_num(pairs, "wspeedt"@) is Err {
        Err(spec_opt_num(pairs, "wspeedt"@)->Err_0)
    } else if spec_opt_num(pairs, "wtemp"@) is Err {
        Err(spec_opt_num(pairs, "wtemp"@)->Err_0)
    } else {
        Ok(())
    }
}

/// `m` holds exactly what the object's fields decode to.
pub open spec fn is_tpv_of(pairs: Seq<(String, Json)>, m: Tpv) -> bool {
    &&& spec_opt_string(pairs, "device"@) == Ok::<Option<String>, DecodeFault>(m.device)
    &&& match spec_opt_int(pairs, "status"@, -2147483648i64, 2147483647i64) {
        Ok(Some(i)) => m.status == Some(i as i32),
        Ok(None) => m.status is None,
        Err(_) => false,
    }
    &&& match spec_req_int(pairs, "mode"@, 0i64, 255i64) {
        Ok(i) => m.mode == spec_mode_from_code(i as u8),
        Err(_) => false,
    }
    &&& spec_opt_string(pairs, "time"@) == Ok::<Option<String>, DecodeFault>(m.time)
    &&& spec_opt_num(pairs, "ept"@) == Ok::<Option<String>, DecodeFault>(m.ept)
    &&& match spec_opt_int(pairs, "leapseconds"@, -2147483648i64, 2147483647i64) {
        Ok(Some(i)) => m.leapseconds == Some(i as i32),
        Ok(None) => m.leapseconds is None,
        Err(_) => false,
    }
    &&& spec_opt_num(pairs, "altMSL"@) == Ok::<Option<String>, DecodeFault>(m.alt_msl)
    &&& spec_opt_num(pairs, "altHAE"@) == Ok::<Option<String>, DecodeFault>(m.alt_hae)
    &&& spec_opt_num(pairs, "geoidSep"@) == Ok::<Option<String>, DecodeFault>(m.geoid_sep)
    &&& spec_opt_num(pairs, "lat"@) == Ok::<Option<String>, DecodeFault>(m.lat)
    &&& spec_opt_num(pairs, "lon"@) == Ok::<Option<String>, DecodeFault>(m.lon)
    &&& spec_opt_num(pairs, "alt"@) == Ok::<Option<String>, DecodeFault>(m.alt)
    &&& spec_opt_num(pairs, "epx"@) == Ok::<Option<String>, DecodeFault>(m.epx)
    &&& spec_opt_num(pairs, "epy"@) == Ok::<Option<String>, DecodeFault>(m.epy)
    &&& spec_opt_num(pairs, "epv"@) == Ok::<Option<String>, DecodeFault>(m.epv)
    &&& spec_opt_num(pairs, "track"@) == Ok::<Option<String>, DecodeFault>(m.track)
    &&& spec_opt_num(pairs, "speed"@) == Ok::<Option<String>, DecodeFault>(m.speed)
    &&& spec_opt_num(pairs, "climb"@) == Ok::<Option<String>, DecodeFault>(m.climb)
    &&& spec_opt_num(pairs, "epd"@) == Ok::<Option<String>, DecodeFault>(m.epd)
    &&& spec_opt_num(pairs, "eps"@) == Ok::<Option<String>, DecodeFault>(m.eps)
    &&& spec_opt_num(pairs, "epc"@) == Ok::<Option<String>, DecodeFault>(m.epc)
    &&& spec_opt_num(pairs, "eph"@) == Ok::<Option<String>, DecodeFault>(m.eph)
    &&& spec_opt_string(pairs, "datum"@) == Ok::<Option<String>, DecodeFault>(m.datum)
    &&& spec_opt_num(pairs, "depth"@) == Ok::<Option<String>, DecodeFault>(m.depth)
    &&& spec_opt_num(pairs, "dgpsAge"@) == Ok::<Option<String>, DecodeFault>(m.dgps_age)
    &&& match spec_opt_int(pairs, "dgpsSta"@, -2147483648i64, 2147483647i64) {
        Ok(Some(i)) => m.dgps_sta == Some(i as i32),
        Ok(None) => m.dgps_sta is None,
        Err(_) => false,
    }
    &&& spec_opt_num(pairs, "magtrack"@) == Ok::<Option<String>, DecodeFault>(m.magtrack)
    &&& spec_opt_num(pairs, "magvar"@) == Ok::<Option<String>, DecodeFault>(m.magvar)
    &&& spec_opt_num(pairs, "ecefx"@) == Ok::<Option<String>, DecodeFault>(m.ecefx)
    &&& spec_opt_num(pairs, "ecefy"@) == Ok::<Option<String>, DecodeFault>(m.ecefy)
    &&& spec_opt_num(pairs, "ecefz"@) == Ok::<Option<String>, DecodeFault>(m.ecefz)
    &&& spec_opt_num(pairs, "ecefpAcc"@) == Ok::<Option<String>, DecodeFault>(m.ecef_p_acc)
    &&& spec_opt_num(pairs, "ecefvx"@) == Ok::<Option<String>, DecodeFault>(m.ecefvx)
    &&& spec_opt_num(pairs, "ecefvy"@) == Ok::<Option<String>, DecodeFault>(m.ecefvy)
    &&& spec_opt_num(pairs, "ecefvz"@) == Ok::<Option<String>, DecodeFault>(m.ecefvz)
    &&& spec_opt_num(pairs, "ecefvAcc"@) == Ok::<Option<String>, DecodeFault>(m.ecef_v_acc)
    &&& spec_opt_num(pairs, "sep"@) == Ok::<Option<String>, DecodeFault>(m.sep)
    &&& spec_opt_num(pairs, "relD"@) == Ok::<Option<String>, DecodeFault>(m.rel_d)
    &&& spec_opt_num(pairs, "relE"@) == Ok::<Option<String>, DecodeFault>(m.rel_e)
    &&& spec_opt_num(pairs, "relN"@) == Ok::<Option<String>, DecodeFault>(m.rel_n)
    &&& spec_opt_num(pairs, "velD"@) == Ok::<Option<String>, DecodeFault>(m.vel_d)
    &&& spec_opt_num(pairs, "velE"@) == Ok::<Option<String>, DecodeFault>(m.vel_e)
    &&& spec_opt_num(pairs, "velN"@) == Ok::<Option<String>, DecodeFault>(m.vel_n)
    &&& spec_opt_num(pairs, "wanglem"@) == Ok::<Option<String>, DecodeFault>(m.wanglem)
    &&& spec_opt_num(pairs, "wangler"@) == Ok::<Option<String>, DecodeFault>(m.wangler)
    &&& spec_opt_num(pairs, "wanglet"@) == Ok::<Option<String>, DecodeFault>(m.wanglet)
    &&& spec_opt_num(pairs, "wspeedr"@) == Ok::<Option<String>, DecodeFault>(m.wspeedr)
    &&& spec_opt_num(pairs, "wspeedt"@) == Ok::<Option<String>, DecodeFault>(m.wspeedt)
    &&& spec_opt_num(pairs, "wtemp"@) == Ok::<Option<String>, DecodeFault>(m.wtemp)
}

/// Decodes the fields of one `Tpv` object.
pub fn decode_tpv(pairs: &Vec<(String, Json)>) -> (r: Result<Tpv, DecodeError>)
    ensures
        match r {
            Ok(m) => tpv_shape(pairs@) == Ok::<(), DecodeFault>(())
                && is_tpv_of(pairs@, m),
            Err(e) => tpv_shape(pairs@) == Err::<(), DecodeFault>(fault_of(e)),
        },
{
    let device = match opt_string(pairs, "device") {
        Ok(v) => v,
        Err(e) => return Err(e),
    };
    let status = match opt_int(pairs, "status", -2147483648i64, 2147483647i64) {
        Ok(v) => v,
        Err(e) => return Err(e),
    };
    let status: Option<i32> = match status {
        Some(i) => Some(i as i32),
        None => None,
    };
    let mode = match req_int(pairs, "mode", 0i64, 255i64) {
        Ok(v) => v,
        Err(e) => return Err(e),
    };
    let mode: Mode = Mode::from_code(mode as u8);
    let time = match opt_string(pairs, "time") {
        Ok(v) => v,
        Err(e) => return Err(e),
    };
    let ept = match opt_num(pairs, "ept") {
        Ok(v) => v,
        Err(e) => return Err(e),
    };
    let leapseconds = match opt_int(pairs, "leapseconds", -2147483648i64, 2147483647i64) {
        Ok(v) => v,
        Err(e) => return Err(e),
    };
    let leapseconds: Option<i32> = match leapseconds {
        Some(i) => Some(i as i32),
        None => None,
    };
    let alt_msl = match opt_num(pairs, "altMSL") {
        Ok(v) => v,
        Err(e) => return Err(e),
    };
    let alt_hae = match opt_num(pairs, "altHAE") {
        Ok(v) => v,
        Err(e) => return Err(e),
    };
    let geoid_sep = match opt_num(pairs, "geoidSep") {
        Ok(v) => v,
        Err(e) => return Err(e),
    };
    let lat = match opt_num(pairs, "lat") {
        Ok(v) => v,
        Err(e) => return Err(e),
    };
    let lon = match opt_num(pairs, "lon") {
        Ok(v) => v,
        Err(e) => return Err(e),
    };
    let alt = match opt_num(pairs, "alt") {
        Ok(v) => v,
        Err(e) => return Err(e),
    };
    let epx = match opt_num(pairs, "epx") {
        Ok(v) => v,
        Err(e) => return Err(e),
    };
    let epy = match opt_num(pairs, "epy") {
        Ok(v) => v,
        Err(e) => return Err(e),
    };
    let epv = match opt_num(pairs, "epv") {
        Ok(v) => v,
        Err(e) => return Err(e),
    };
    let track = match opt_num(pairs, "track") {
        Ok(v) => v,
        Err(e) => return Err(e),
    };
    let speed = match opt_num(pairs, "speed") {
        Ok(v) => v,
        Err(e) => return Err(e),
    };
    let climb = match opt_num(pairs, "climb") {
        Ok(v) => v,
        Err(e) => return Err(e),
    };
    let epd = match opt_num(pairs, "epd") {
        Ok(v) => v,
        Err(e) => return Err(e),
    };
    let eps = match opt_num(pairs, "eps") {
        Ok(v) => v,
        Err(e) => return Err(e),
    };
    let epc = match opt_num(pairs, "epc") {
        Ok(v) => v,
        Err(e) => return Err(e),
    };
    let eph = match opt_num(pairs, "eph") {
        Ok(v) => v,
        Err(e) => return Err(e),
    };
    let datum = match opt_string(pairs, "datum") {
        Ok(v) => v,
        Err(e) => return Err(e),
    };
    let depth = match opt_num(pairs, "depth") {
        Ok(v) => v,
        Err(e) => return Err(e),
    };
    let dgps_age = match opt_num(pairs, "dgpsAge") {
        Ok(v) => v,
        Err(e) => return Err(e),
    };
    let dgps_sta = match opt_int(pairs, "dgpsSta", -2147483648i64, 2147483647i64) {
        Ok(v) => v,
        Err(e) => return Err(e),
    };
    let dgps_sta: Option<i32> = match dgps_sta {
        Some(i) => Some(i as i32),
        None => None,
    };
    let magtrack = match opt_num(pairs, "magtrack") {
        Ok(v) => v,
        Err(e) => return Err(e),
    };
    let magvar = match opt_num(pairs, "magvar") {
        Ok(v) => v,
        Err(e) => return Err(e),
    };
    let ecefx = match opt_num(pairs, "ecefx") {
        Ok(v) => v,
        Err(e) => return Err(e),
    };
    let ecefy = match opt_num(pairs, "ecefy") {
        Ok(v) => v,
        Err(e) => return Err(e),
    };
    let ecefz = match opt_num(pairs, "ecefz") {
        Ok(v) => v,
        Err(e) => return Err(e),
    };
    let ecef_p_acc = match opt_num(pairs, "ecefpAcc") {
        Ok(v) => v,
        Err(e) => return Err(e),
    };
    let ecefvx = match opt_num(pairs, "ecefvx") {
        Ok(v) => v,
        Err(e) => return Err(e),
    };
    let ecefvy = match opt_num(pairs, "ecefvy") {
        Ok(v) => v,
        Err(e) => return Err(e),
    };
    let ecefvz = match opt_num(pairs, "ecefvz") {
        Ok(v) => v,
        Err(e) => return Err(e),
    };
    let ecef_v_acc = match opt_num(pairs, "ecefvAcc") {
        Ok(v) => v,
        Err(e) => return Err(e),
    };
    let sep = match opt_num(pairs, "sep") {
        Ok(v) => v,
        Err(e) => return Err(e),
    };
    let rel_d = match opt_num(pairs, "relD") {
        Ok(v) => v,
        Err(e) => return Err(e),
    };
    let rel_e = match opt_num(pairs, "relE") {
        Ok(v) => v,
        Err(e) => return Err(e),
    };
    let rel_n = match opt_num(pairs, "relN") {
        Ok(v) => v,
        Err(e) => return Err(e),
    };
    let vel_d = match opt_num(pairs, "velD") {
        Ok(v) => v,
        Err(e) => return Err(e),
    };
    let vel_e = match opt_num(pairs, "velE") {
        Ok(v) => v,
        Err(e) => return Err(e),
    };
    let vel_n = match opt_num(pairs, "velN") {
        Ok(v) => v,
        Err(e) => return Err(e),
    };
    let wanglem = match opt_num(pairs, "wanglem") {
        Ok(v) => v,
        Err(e) => return Err(e),
    };
    let wangler = match opt_num(pairs, "wangler") {
        Ok(v) => v,
        Err(e) => return Err(e),
    };
    let wanglet = match opt_num(pairs, "wanglet") {
        Ok(v) => v,
        Err(e) => return Err(e),
    };
    let wspeedr = match opt_num(pairs, "wspeedr") {
        Ok(v) => v,
        Err(e) => return Err(e),
    };
    let wspeedt = match opt_num(pairs, "wspeedt") {
        Ok(v) => v,
        Err(e) => return Err(e),
    };
    let wtemp = match opt_num(pairs, "wtemp") {
        Ok(v) => v,
        Err(e) => return Err(e),
    };
    Ok(Tpv { device, status, mode, time, ept, leapseconds, alt_msl, alt_hae, geoid_sep, lat, lon, alt, epx, epy, epv, track, speed, climb, epd, eps, epc, eph, datum, depth, dgps_age, dgps_sta, magtrack, magvar, ecefx, ecefy, ecefz, ecef_p_acc, ecefvx, ecefvy, ecefvz, ecef_v_acc, sep, rel_d, rel_e, rel_n, vel_d, vel_e, vel_n, wanglem, wangler, wanglet, wspeedr, wspeedt, wtemp })
}

/// The first schema fault among the elements of a `Tpv` list: every
/// element must be an object of the right shape.
pub open spec fn tpv_items_shape(items: Seq<Json>, key: Seq<char>) -> Result<(), DecodeFault>
    decreases items.len(),
{
    if items.len() == 0 {
        Ok(())
    } else {
        match items[0] {
            Json::Obj(ps) => if tpv_shape(ps@) is Err {
                Err(tpv_shape(ps@)->Err_0)
            } else {
                tpv_items_shape(items.drop_first(), key)
            },
            _ => Err(DecodeFault::BadField(key)),
        }
    }
}

/// Each element of `out` holds what the matching element of `items` decodes
/// to.
pub open spec fn is_tpv_items(items: Seq<Json>, out: Seq<Tpv>) -> bool {
    &&& out.len() == items.len()
    &&& forall|i: int| 0 <= i < items.len() ==> #[trigger] is_tpv_item(items[i], out[i])
}

/// One list element: an object whose fields decode to `m`.
pub open spec fn is_tpv_item(j: Json, m: Tpv) -> bool {
    match j {
        Json::Obj(ps) => is_tpv_of(ps@, m),
        _ => false,
    }
}

/// Decodes a list of `Tpv` objects; `key` names the list's field in
/// diagnostics.
pub fn decode_tpv_items(items: &Vec<Json>, key: &str) -> (r: Result<Vec<Tpv>, DecodeError>)
    ensures
        match r {
            Ok(out) => tpv_items_shape(items@, key@) == Ok::<(), DecodeFault>(())
                && is_tpv_items(items@, out@),
            Err(e) => tpv_items_shape(items@, key@) == Err::<(), DecodeFault>(fault_of(e)),
        },
{
    let mut out: Vec<Tpv> = Vec::new();
    let mut i: usize = 0;
    proof {
        assert(items@.skip(0) =~= items@);
    }
    while i < items.len()
        invariant
            i <= items.len(),
            out@.len() == i,
            forall|k: int| 0 <= k < i ==> #[trigger] is_tpv_item(items@[k], out@[k]),
            tpv_items_shape(items@, key@) == tpv_items_shape(items@.skip(i as int), key@),
        decreases items.len() - i,
    {
        proof {
            assert(items@.skip(i as int)[0] == items@[i as int]);
            assert(items@.skip(i as int).drop_first() =~= items@.skip(i + 1));
        }
        match &items[i] {
            Json::Obj(ps) => match decode_tpv(ps) {
                Ok(m) => out.push(m),
                Err(e) => return Err(e),
            },
            _ => return Err(DecodeError::BadField(key.to_owned())),
        }
        i = i + 1;
    }
    Ok(out)
}

/// A required list-of-`Tpv` field's schema fault, or success.
pub open spec fn req_arr_shape_tpv(pairs: Seq<(String, Json)>, key: Seq<char>) -> Result<
    (),
    DecodeFault,
> {
    match spec_lookup(pairs, key) {
        None => Err(DecodeFault::MissingField(key)),
        Some(Json::Arr(items)) => tpv_items_shape(items@, key),
        Some(_) => Err(DecodeFault::BadField(key)),
    }
}

/// An optional list-of-`Tpv` field's schema fault, or success.
pub open spec fn opt_arr_shape_tpv(pairs: Seq<(String, Json)>, key: Seq<char>) -> Result<
    (),
    DecodeFault,
> {
    match spec_lookup(pairs, key) {
        None => Ok(()),
        Some(Json::Null) => Ok(()),
        Some(Json::Arr(items)) => tpv_items_shape(items@, key),
        Some(_) => Err(DecodeFault::BadField(key)),
    }
}

/// The first schema fault of a `Sky` object, in field order,
/// or success.
pub open spec fn sky_shape(pairs: Seq<(String, Json)>) -> Result<(), DecodeFault> {
    if spec_opt_string(pairs, "device"@) is Err {
        Err(spec_opt_string(pairs, "device"@)->Err_0)
    } else if spec_opt_num(pairs, "xdop"@) is Err {
        Err(spec_opt_num(pairs, "xdop"@)->Err_0)
    } else if spec_opt_num(pairs, "ydop"@) is Err {
        Err(spec_opt_num(pairs, "ydop"@)->Err_0)
    } else if spec_opt_num(pairs, "vdop"@) is Err {
        Err(spec_opt_num(pairs, "vdop"@)->Err_0)
    } else if spec_opt_num(pairs, "tdop"@) is Err {
        Err(spec_opt_num(pairs, "tdop"@)->Err_0)
    } else if spec_opt_num(pairs, "hdop"@) is Err {
        Err(spec_opt_num(pairs, "hdop"@)->Err_0)
    } else if spec_opt_num(pairs, "gdop"@) is Err {
        Err(spec_opt_num(pairs, "gdop"@)->Err_0)
    } else if spec_opt_num(pairs, "pdop"@) is Err {
        Err(spec_opt_num(pairs, "pdop"@)->Err_0)
    } else if opt_arr_shape_satellite(pairs, "satellites"@) is Err {
        Err(opt_arr_shape_satellite(pairs, "satellites"@)->Err_0)
    } else if spec_opt_int(pairs, "nSat"@, 0i64, 4294967295i64) is Err {
        Err(spec_opt_int(pairs, "nSat"@, 0i64, 4294967295i64)->Err_0)
    } else if spec_opt_num(pairs, "prRes"@) is Err {
        Err(spec_opt_num(pairs, "prRes"@)->Err_0)
    } else if spec_opt_int(pairs, "qual"@, 0i64, 255i64) is Err {
        Err(spec_opt_int(pairs, "qual"@, 0i64, 255i64)->Err_0)
    } else if spec_opt_string(pairs, "time"@) is Err {
        Err(spec_opt_string(pairs, "time"@)->Err_0)
    } else if spec_opt_int(pairs, "uSat"@, 0i64, 4294967295i64) is Err {
        Err(spec_opt_int(pairs, "uSat"@, 0i64, 4294967295i64)->Err_0)
    } else {
        Ok(())
    }
}

/// `m` holds exactly what the object's fields decode to.
pub open spec fn is_sky_of(pairs: Seq<(String, Json)>, m: Sky) -> bool {
    &&& spec_opt_string(pairs, "device"@) == Ok::<Option<String>, DecodeFault>(m.device)
    &&& spec_opt_num(pairs, "xdop"@) == Ok::<Option<String>, DecodeFault>(m.xdop)
    &&& spec_opt_num(pairs, "ydop"@) == Ok::<Option<String>, DecodeFault>(m.ydop)
    &&& spec_opt_num(pairs, "vdop"@) == Ok::<Option<String>, DecodeFault>(m.vdop)
    &&& spec_opt_num(pairs, "tdop"@) == Ok::<Option<String>, DecodeFault>(m.tdop)
    &&& spec_opt_num(pairs, "hdop"@) == Ok::<Option<String>, DecodeFault>(m.hdop)
    &&& spec_opt_num(pairs, "gdop"@) == Ok::<Option<String>, DecodeFault>(m.gdop)
    &&& spec_opt_num(pairs, "pdop"@) == Ok::<Option<String>, DecodeFault>(m.pdop)
    &&& match spec_lookup(pairs, "satellites"@) {
        None => m.satellites is None,
        Some(Json::Null) => m.satellites is None,
        Some(Json::Arr(items)) => m.satellites matches Some(v) && is_satellite_items(items@, v@),
        Some(_) => false,
    }
    &&& match spec_opt_int(pairs, "nSat"@, 0i64, 4294967295i64) {
        Ok(Some(i)) => m.n_sat == Some(i as u32),
        Ok(None) => m.n_sat is None,
        Err(_) => false,
    }
    &&& spec_opt_num(pairs, "prRes"@) == Ok::<Option<String>, DecodeFault>(m.pr_res)
    &&& match spec_opt_int(pairs, "qual"@, 0i64, 255i64) {
        Ok(Some(i)) => m.qual == Some(i as u8),
        Ok(None) => m.qual is None,
        Err(_) => false,
    }
    &&& spec_opt_string(pairs, "time"@) == Ok::<Option<String>, DecodeFault>(m.time)
    &&& match spec_opt_int(pairs, "uSat"@, 0i64, 4294967295i64) {
        Ok(Some(i)) => m.u_sat == Some(i as u32),
        Ok(None) => m.u_sat is None,
        Err(_) => false,
    }
}

/// Decodes the fields of one `Sky` object.
pub fn decode_sky(pairs: &Vec<(String, Json)>) -> (r: Result<Sky, DecodeError>)
    ensures
        match r {
            Ok(m) => sky_shape(pairs@) == Ok::<(), DecodeFault>(())
                && is_sky_of(pairs@, m),
            Err(e) => sky_shape(pairs@) == Err::<(), DecodeFault>(fault_of(e)),
        },
{
    let device = match opt_string(pairs, "device") {
        Ok(v) => v,
        Err(e) => return Err(e),
    };
    let xdop = match opt_num(pairs, "xdop") {
        Ok(v) => v,
        Err(e) => return Err(e),
    };
    let ydop = match opt_num(pairs, "ydop") {
        Ok(v) => v,
        Err(e) => return Err(e),
    };
    let vdop = match opt_num(pairs, "vdop") {
        Ok(v) => v,
        Err(e) => return Err(e),
    };
    let tdop = match opt_num(pairs, "tdop") {
        Ok(v) => v,
        Err(e) => return Err(e),
    };
    let hdop = match opt_num(pairs, "hdop") {
        Ok(v) => v,
        Err(e) => return Err(e),
    };
    let gdop = match opt_num(pairs, "gdop") {
        Ok(v) => v,
        Err(e) => return Err(e),
    };
    let pdop = match opt_num(pairs, "pdop") {
        Ok(v) => v,
        Err(e) => return Err(e),
    };
    let satellites = match lookup(pairs, "satellites") {
        None => None,
        Some(Json::Null) => None,
        Some(Json::Arr(items)) => match decode_satellite_items(items, "satellites") {
            Ok(v) => Some(v),
            Err(e) => return Err(e),
        },
        Some(_) => return Err(DecodeError::BadField("satellites".to_owned())),
    };
    let n_sat = match opt_int(pairs, "nSat", 0i64, 4294967295i64) {
        Ok(v) => v,
        Err(e) => return Err(e),
    };
    let n_sat: Option<u32> = match n_sat {
        Some(i) => Some(i as u32),
        None => None,
    };
    let pr_res = match opt_num(pairs, "prRes") {
        Ok(v) => v,
        Err(e) => return Err(e),
    };
    let qual = match opt_int(pairs, "qual", 0i64, 255i64) {
        Ok(v) => v,
        Err(e) => return Err(e),
    };
    let qual: Option<u8> = match qual {
        Some(i) => Some(i as u8),
        None => None,
    };
    let time = match opt_string(pairs, "time") {
        Ok(v) => v,
        Err(e) => return Err(e),
    };
    let u_sat = match opt_int(pairs, "uSat", 0i64, 4294967295i64) {
        Ok(v) => v,
        Err(e) => return Err(e),
    };
    let u_sat: Option<u32> = match u_sat {
        Some(i) => Some(i as u32),
        None => None,
    };
    Ok(Sky { device, xdop, ydop, vdop, tdop, hdop, gdop, pdop, satellites, n_sat, pr_res, qual, time, u_sat })
}

/// The first schema fault among the elements of a `Sky` list: every
/// element must be an object of the right shape.
pub open spec fn sky_items_shape(items: Seq<Json>, key: Seq<char>) -> Result<(), DecodeFault>
    decreases items.len(),
{
    if items.len() == 0 {
        Ok(())
    } else {
        match items[0] {
            Json::Obj(ps) => if sky_shape(ps@) is Err {
                Err(sky_shape(ps@)->Err_0)
            } else {
                sky_items_shape(items.drop_first(), key)
            },
            _ => Err(DecodeFault::BadField(key)),
        }
    }
}

/// Each element of `out` holds what the matching element of `items` decodes
/// to.
pub open spec fn is_sky_items(items: Seq<Json>, out: Seq<Sky>) -> bool {
    &&& out.len() == items.len()
    &&& forall|i: int| 0 <= i < items.len() ==> #[trigger] is_sky_item(items[i], out[i])
}

/// One list element: an object whose fields decode to `m`.
pub open spec fn is_sky_item(j: Json, m: Sky) -> bool {
    match j {
        Json::Obj(ps) => is_sky_of(ps@, m),
        _ => false,
    }
}

/// Decodes a list of `Sky` objects; `key` names the list's field in
/// diagnostics.
pub fn decode_sky_items(items: &Vec<Json>, key: &str) -> (r: Result<Vec<Sky>, DecodeError>)
    ensures
        match r {
            Ok(out) => sky_items_shape(items@, key@) == Ok::<(), DecodeFault>(())
                && is_sky_items(items@, out@),
            Err(e) => sky_items_shape(items@, key@) == Err::<(), DecodeFault>(fault_of(e)),
        },
{
    let mut out: Vec<Sky> = Vec::new();
    let mut i: usize = 0;
    proof {
        assert(items@.skip(0) =~= items@);
    }
    while i < items.len()
        invariant
            i <= items.len(),
            out@.len() == i,
            forall|k: int| 0 <= k < i ==> #[trigger] is_sky_item(items@[k], out@[k]),
            sky_items_shape(items@, key@) == sky_items_shape(items@.skip(i as int), key@),
        decreases items.len() - i,
    {
        proof {
            assert(items@.skip(i as int)[0] == items@[i as int]);
            assert(items@.skip(i as int).drop_first() =~= items@.skip(i + 1));
        }
        match &items[i] {
            Json::Obj(ps) => match decode_sky(ps) {
                Ok(m) => out.push(m),
                Err(e) => return Err(e),
            },
            _ => return Err(DecodeError::BadField(key.to_owned())),
        }
        i = i + 1;
    }
    Ok(out)
}

/// A required list-of-`Sky` field's schema fault, or success.
pub open spec fn req_arr_shape_sky(pairs: Seq<(String, Json)>, key: Seq<char>) -> Result<
    (),
    DecodeFault,
> {
    match spec_lookup(pairs, key) {
        None => Err(DecodeFault::MissingField(key)),
        Some(Json::Arr(items)) => sky_items_shape(items@, key),
        Some(_) => Err(DecodeFault::BadField(key)),
    }
}

/// An optional list-of-`Sky` field's schema fault, or success.
pub open spec fn opt_arr_shape_sky(pairs: Seq<(String, Json)>, key: Seq<char>) -> Result<
    (),
    DecodeFault,
> {
    match spec_lookup(pairs, key) {
        None => Ok(()),
        Some(Json::Null) => Ok(()),
        Some(Json::Arr(items)) => sky_items_shape(items@, key),
        Some(_) => Err(DecodeFault::BadField(key)),
    }
}

/// The first schema fault of a `Pps` object, in field order,
/// or success.
pub open spec fn pps_shape(pairs: Seq<(String, Json)>) -> Result<(), DecodeFault> {
    if spec_req_string(pairs, "device"@) is Err {
        Err(spec_req_string(pairs, "device"@)->Err_0)
    } else if spec_req_num(pairs, "real_sec"@) is Err {
        Err(spec_req_num(pairs, "real_sec"@)->Err_0)
    } else if spec_req_num(pairs, "real_nsec"@) is Err {
        Err(spec_req_num(pairs, "real_nsec"@)->Err_0)
    } else if spec_req_num(pairs, "clock_sec"@) is Err {
        Err(spec_req_num(pairs, "clock_sec"@)->Err_0)
    } else if spec_req_num(pairs, "clock_nsec"@) is Err {
        Err(spec_req_num(pairs, "clock_nsec"@)->Err_0)
    } else if spec_opt_num(pairs, "precision"@) is Err {
        Err(spec_opt_num(pairs, "precision"@)->Err_0)
    } else if spec_opt_string(pairs, "shm"@) is Err {
        Err(spec_opt_string(pairs, "shm"@)->Err_0)
    } else if spec_opt_num(pairs, "qErr"@) is Err {
        Err(spec_opt_num(pairs, "qErr"@)->Err_0)
    } else {
        Ok(())
    }
}

/// `m` holds exactly what the object's fields decode to.
pub open spec fn is_pps_of(pairs: Seq<(String, Json)>, m: Pps) -> bool {
    &&& spec_req_string(pairs, "device"@) == Ok::<String, DecodeFault>(m.device)
    &&& spec_req_num(pairs, "real_sec"@) == Ok::<String, DecodeFault>(m.real_sec)
    &&& spec_req_num(pairs, "real_nsec"@) == Ok::<String, DecodeFault>(m.real_nsec)
    &&& spec_req_num(pairs, "clock_sec"@) == Ok::<String, DecodeFault>(m.clock_sec)
    &&& spec_req_num(pairs, "clock_nsec"@) == Ok::<String, DecodeFault>(m.clock_nsec)
    &&& spec_opt_num(pairs, "precision"@) == Ok::<Option<String>, DecodeFault>(m.precision)
    &&& spec_opt_string(pairs, "shm"@) == Ok::<Option<String>, DecodeFault>(m.shm)
    &&& spec_opt_num(pairs, "qErr"@) == Ok::<Option<String>, DecodeFault>(m.q_err)
}

/// Decodes the fields of one `Pps` object.
pub fn decode_pps(pairs: &Vec<(String, Json)>) -> (r: Result<Pps, DecodeError>)
    ensures
        match r {
            Ok(m) => pps_shape(pairs@) == Ok::<(), DecodeFault>(())
                && is_pps_of(pairs@, m),
            Err(e) => pps_shape(pairs@) == Err::<(), DecodeFault>(fault_of(e)),
        },
{
    let device = match req_string(pairs, "device") {
        Ok(v) => v,
        Err(e) => return Err(e),
    };
    let real_sec = match req_num(pairs, "real_sec") {
        Ok(v) => v,
        Err(e) => return Err(e),
    };
    let real_nsec = match req_num(pairs, "real_nsec") {
        Ok(v) => v,
        Err(e) => return Err(e),
    };
    let clock_sec = match req_num(pairs, "clock_sec") {
        Ok(v) => v,
        Err(e) => return Err(e),
    };
    let clock_nsec = match req_num(pairs, "clock_nsec") {
        Ok(v) => v,
        Err(e) => return Err(e),
    };
    let precision = match opt_num(pairs, "precision") {
        Ok(v) => v,
        Err(e) => return Err(e),
    };
    let shm = match opt_string(pairs, "shm") {
        Ok(v) => v,
        Err(e) => return Err(e),
    };
    let q_err = match opt_num(pairs, "qErr") {
        Ok(v) => v,
        Err(e) => return Err(e),
    };
    Ok(Pps { device, real_sec, real_nsec, clock_sec, clock_nsec, precision, shm, q_err })
}

/// The first schema fault of a `Gst` object, in field order,
/// or success.
pub open spec fn gst_shape(pairs: Seq<(String, Json)>) -> Result<(), DecodeFault> {
    if spec_opt_string(pairs, "device"@) is Err {
        Err(spec_opt_string(pairs, "device"@)->Err_0)
    } else if spec_opt_string(pairs, "time"@) is Err {
        Err(spec_opt_string(pairs, "time"@)->Err_0)
    } else if spec_opt_num(pairs, "rms"@) is Err {
        Err(spec_opt_num(pairs, "rms"@)->Err_0)
    } else if spec_opt_num(pairs, "major"@) is Err {
        Err(spec_opt_num(pairs, "major"@)->Err_0)
    } else if spec_opt_num(pairs, "minor"@) is Err {
        Err(spec_opt_num(pairs, "minor"@)->Err_0)
    } else if spec_opt_num(pairs, "orient"@) is Err {
        Err(spec_opt_num(pairs, "orient"@)->Err_0)
    } else if spec_opt_num(pairs, "lat"@) is Err {
        Err(spec_opt_num(pairs, "lat"@)->Err_0)
    } else if spec_opt_num(pairs, "lon"@) is Err {
        Err(spec_opt_num(pairs, "lon"@)->Err_0)
    } else if spec_opt_num(pairs, "alt"@) is Err {
        Err(spec_opt_num(pairs, "alt"@)->Err_0)
    } else {
        Ok(())
    }
}

/// `m` holds exactly what the object's fields decode to.
pub open spec fn is_gst_of(pairs: Seq<(String, Json)>, m: Gst) -> bool {
    &&& spec_opt_string(pairs, "device"@) == Ok::<Option<String>, DecodeFault>(m.device)
    &&& spec_opt_string(pairs, "time"@) == Ok::<Option<String>, DecodeFault>(m.time)
    &&& spec_opt_num(pairs, "rms"@) == Ok::<Option<String>, DecodeFault>(m.rms)
    &&& spec_opt_num(pairs, "major"@) == Ok::<Option<String>, DecodeFault>(m.major)
    &&& spec_opt_num(pairs, "minor"@) == Ok::<Option<String>, DecodeFault>(m.minor)
    &&& spec_opt_num(pairs, "orient"@) == Ok::<Option<String>, DecodeFault>(m.orient)
    &&& spec_opt_num(pairs, "lat"@) == Ok::<Option<String>, DecodeFault>(m.lat)
    &&& spec_opt_num(pairs, "lon"@) == Ok::<Option<String>, DecodeFault>(m.lon)
    &&& spec_opt_num(pairs, "alt"@) == Ok::<Option<String>, DecodeFault>(m.alt)
}

/// Decodes the fields of one `Gst` object.
pub fn decode_gst(pairs: &Vec<(String, Json)>) -> (r: Result<Gst, DecodeError>)
    ensures
        match r {
            Ok(m) => gst_shape(pairs@) == Ok::<(), DecodeFault>(())
                && is_gst_of(pairs@, m),
            Err(e) => gst_shape(pairs@) == Err::<(), DecodeFault>(fault_of(e)),
        },
{
    let device = match opt_string(pairs, "device") {
        Ok(v) => v,
        Err(e) => return Err(e),
    };
    let time = match opt_string(pairs, "time") {
        Ok(v) => v,
        Err(e) => return Err(e),
    };
    let rms = match opt_num(pairs, "rms") {
        Ok(v) => v,
        Err(e) => return Err(e),
    };
    let major = match opt_num(pairs, "major") {
        Ok(v) => v,
        Err(e) => return Err(e),
    };
    let minor = match opt_num(pairs, "minor") {
        Ok(v) => v,
        Err(e) => return Err(e),
    };
    let orient = match opt_num(pairs, "orient") {
        Ok(v) => v,
        Err(e) => return Err(e),
    };
    let lat = match opt_num(pairs, "lat") {
        Ok(v) => v,
        Err(e) => return Err(e),
    };
    let lon = match opt_num(pairs, "lon") {
        Ok(v) => v,
        Err(e) => return Err(e),
    };
    let alt = match opt_num(pairs, "alt") {
        Ok(v) => v,
        Err(e) => return Err(e),
    };
    Ok(Gst { device, time, rms, major, minor, orient, lat, lon, alt })
}

/// The first schema fault of a `Att` object, in field order,
/// or success.
pub open spec fn att_shape(pairs: Seq<(String, Json)>) -> Result<(), DecodeFault> {
    if spec_opt_string(pairs, "device"@) is Err {
        Err(spec_opt_string(pairs, "device"@)->Err_0)
    } else if spec_opt_string(pairs, "time"@) is Err {
        Err(spec_opt_string(pairs, "time"@)->Err_0)
    } else if spec_opt_string(pairs, "timeTag"@) is Err {
        Err(spec_opt_string(pairs, "timeTag"@)->Err_0)
    } else if spec_opt_num(pairs, "heading"@) is Err {
        Err(spec_opt_num(pairs, "heading"@)->Err_0)
    } else if spec_opt_string(pairs, "mag_st"@) is Err {
        Err(spec_opt_string(pairs, "mag_st"@)->Err_0)
    } else if spec_opt_num(pairs, "mheading"@) is Err {
        Err(spec_opt_num(pairs, "mheading"@)->Err_0)
    } else if spec_opt_num(pairs, "pitch"@) is Err {
        Err(spec_opt_num(pairs, "pitch"@)->Err_0)
    } else if spec_opt_string(pairs, "pitch_st"@) is Err {
        Err(spec_opt_string(pairs, "pitch_st"@)->Err_0)
    } else if spec_opt_num(pairs, "rot"@) is Err {
        Err(spec_opt_num(pairs, "rot"@)->Err_0)
    } else if spec_opt_num(pairs, "yaw"@) is Err {
        Err(spec_opt_num(pairs, "yaw"@)->Err_0)
    } else if spec_opt_string(pairs, "yaw_st"@) is Err {
        Err(spec_opt_string(pairs, "yaw_st"@)->Err_0)
    } else if spec_opt_num(pairs, "roll"@) is Err {
        Err(spec_opt_num(pairs, "roll"@)->Err_0)
    } else if spec_opt_string(pairs, "roll_st"@) is Err {
        Err(spec_opt_string(pairs, "roll_st"@)->Err_0)
    } else if spec_opt_num(pairs, "dip"@) is Err {
        Err(spec_opt_num(pairs, "dip"@)->Err_0)
    } else if spec_opt_num(pairs, "mag_len"@) is Err {
        Err(spec_opt_num(pairs, "mag_len"@)->Err_0)
    } else if spec_opt_num(pairs, "mag_x"@) is Err {
        Err(spec_opt_num(pairs, "mag_x"@)->Err_0)
    } else if spec_opt_num(pairs, "mag_y"@) is Err {
        Err(spec_opt_num(pairs, "mag_y"@)->Err_0)
    } else if spec_opt_num(pairs, "mag_z"@) is Err {
        Err(spec_opt_num(pairs, "mag_z"@)->Err_0)
    } else if spec_opt_num(pairs, "acc_len"@) is Err {
        Err(spec_opt_num(pairs, "acc_len"@)->Err_0)
    } else if spec_opt_num(pairs, "acc_x"@) is Err {
        Err(spec_opt_num(pairs, "acc_x"@)->Err_0)
    } else if spec_opt_num(pairs, "acc_y"@) is Err {
        Err(spec_opt_num(pairs, "acc_y"@)->Err_0)
    } else if spec_opt_num(pairs, "acc_z"@) is Err {
        Err(spec_opt_num(pairs, "acc_z"@)->Err_0)
    } else if spec_opt_num(pairs, "gyro_x"@) is Err {
        Err(spec_opt_num(pairs, "gyro_x"@)->Err_0)
    } else if spec_opt_num(pairs, "gyro_y"@) is Err {
        Err(spec_opt_num(pairs, "gyro_y"@)->Err_0)
    } else if spec_opt_num(pairs, "gyro_z"@) is Err {
        Err(spec_opt_num(pairs, "gyro_z"@)->Err_0)
    } else if spec_opt_num(pairs, "depth"@) is Err {
        Err(spec_opt_num(pairs, "depth"@)->Err_0)
    } else if spec_opt_num(pairs, "temp"@) is Err {
        Err(spec_opt_num(pairs, "temp"@)->Err_0)
    } else {
        Ok(())
    }
}

/// `m` holds exactly what the object's fields decode to.
pub open spec fn is_att_of(pairs: Seq<(String, Json)>, m: Att) -> bool {
    &&& spec_opt_string(pairs, "device"@) == Ok::<Option<String>, DecodeFault>(m.device)
    &&& spec_opt_string(pairs, "time"@) == Ok::<Option<String>, DecodeFault>(m.time)
    &&& spec_opt_string(pairs, "timeTag"@) == Ok::<Option<String>, DecodeFault>(m.time_tag)
    &&& spec_opt_num(pairs, "heading"@) == Ok::<Option<String>, DecodeFault>(m.heading)
    &&& spec_opt_string(pairs, "mag_st"@) == Ok::<Option<String>, DecodeFault>(m.mag_st)
    &&& spec_opt_num(pairs, "mheading"@) == Ok::<Option<String>, DecodeFault>(m.mheading)
    &&& spec_opt_num(pairs, "pitch"@) == Ok::<Option<String>, DecodeFault>(m.pitch)
    &&& spec_opt_string(pairs, "pitch_st"@) == Ok::<Option<String>, DecodeFault>(m.pitch_st)
    &&& spec_opt_num(pairs, "rot"@) == Ok::<Option<String>, DecodeFault>(m.rot)
    &&& spec_opt_num(pairs, "yaw"@) == Ok::<Option<String>, DecodeFault>(m.yaw)
    &&& spec_opt_string(pairs, "yaw_st"@) == Ok::<Option<String>, DecodeFault>(m.yaw_st)
    &&& spec_opt_num(pairs, "roll"@) == Ok::<Option<String>, DecodeFault>(m.roll)
    &&& spec_opt_string(pairs, "roll_st"@) == Ok::<Option<String>, DecodeFault>(m.roll_st)
    &&& spec_opt_num(pairs, "dip"@) == Ok::<Option<String>, DecodeFault>(m.dip)
    &&& spec_opt_num(pairs, "mag_len"@) == Ok::<Option<String>, DecodeFault>(m.mag_len)
    &&& spec_opt_num(pairs, "mag_x"@) == Ok::<Option<String>, DecodeFault>(m.mag_x)
    &&& spec_opt_num(pairs, "mag_y"@) == Ok::<Option<String>, DecodeFault>(m.mag_y)
    &&& spec_opt_num(pairs, "mag_z"@) == Ok::<Option<String>, DecodeFault>(m.mag_z)
    &&& spec_opt_num(pairs, "acc_len"@) == Ok::<Option<String>, DecodeFault>(m.acc_len)
    &&& spec_opt_num(pairs, "acc_x"@) == Ok::<Option<String>, DecodeFault>(m.acc_x)
    &&& spec_opt_num(pairs, "acc_y"@) == Ok::<Option<String>, DecodeFault>(m.acc_y)
    &&& spec_opt_num(pairs, "acc_z"@) == Ok::<Option<String>, DecodeFault>(m.acc_z)
    &&& spec_opt_num(pairs, "gyro_x"@) == Ok::<Option<String>, DecodeFault>(m.gyro_x)
    &&& spec_opt_num(pairs, "gyro_y"@) == Ok::<Option<String>, DecodeFault>(m.gyro_y)
    &&& spec_opt_num(pairs, "gyro_z"@) == Ok::<Option<String>, DecodeFault>(m.gyro_z)
    &&& spec_opt_num(pairs, "depth"@) == Ok::<Option<String>, DecodeFault>(m.depth)
    &&& spec_opt_num(pairs, "temp"@) == Ok::<Option<String>, DecodeFault>(m.temp)
}

/// Decodes the fields of one `Att` object.
pub fn decode_att(pairs: &Vec<(String, Json)>) -> (r: Result<Att, DecodeError>)
    ensures
        match r {
            Ok(m) => att_shape(pairs@) == Ok::<(), DecodeFault>(())
                && is_att_of(pairs@, m),
            Err(e) => att_shape(pairs@) == Err::<(), DecodeFault>(fault_of(e)),
        },
{
    let device = match opt_string(pairs, "device") {
        Ok(v) => v,
        Err(e) => return Err(e),
    };
    let time = match opt_string(pairs, "time") {
        Ok(v) => v,
        Err(e) => return Err(e),
    };
    let time_tag = match opt_string(pairs, "timeTag") {
        Ok(v) => v,
        Err(e) => return Err(e),
    };
    let heading = match opt_num(pairs, "heading") {
        Ok(v) => v,
        Err(e) => return Err(e),
    };
    let mag_st = match opt_string(pairs, "mag_st") {
        Ok(v) => v,
        Err(e) => return Err(e),
    };
    let mheading = match opt_num(pairs, "mheading") {
        Ok(v) => v,
        Err(e) => return Err(e),
    };
    let pitch = match opt_num(pairs, "pitch") {
        Ok(v) => v,
        Err(e) => return Err(e),
    };
    let pitch_st = match opt_string(pairs, "pitch_st") {
        Ok(v) => v,
        Err(e) => return Err(e),
    };
    let rot = match opt_num(pairs, "rot") {
        Ok(v) => v,
        Err(e) => return Err(e),
    };
    let yaw = match opt_num(pairs, "yaw") {
        Ok(v) => v,
        Err(e) => return Err(e),
    };
    let yaw_st = match opt_string(pairs, "yaw_st") {
        Ok(v) => v,
        Err(e) => return Err(e),
    };
    let roll = match opt_num(pairs, "roll") {
        Ok(v) => v,
        Err(e) => return Err(e),
    };
    let roll_st = match opt_string(pairs, "roll_st") {
        Ok(v) => v,
        Err(e) => return Err(e),
    };
    let dip = match opt_num(pairs, "dip") {
        Ok(v) => v,
        Err(e) => return Err(e),
    };
    let mag_len = match opt_num(pairs, "mag_len") {
        Ok(v) => v,
        Err(e) => return Err(e),
    };
    let mag_x = match opt_num(pairs, "mag_x") {
        Ok(v) => v,
        Err(e) => return Err(e),
    };
    let mag_y = match opt_num(pairs, "mag_y") {
        Ok(v) => v,
        Err(e) => return Err(e),
    };
    let mag_z = match opt_num(pairs, "mag_z") {
        Ok(v) => v,
        Err(e) => return Err(e),
    };
    let acc_len = match opt_num(pairs, "acc_len") {
        Ok(v) => v,
        Err(e) => return Err(e),
    };
    let acc_x = match opt_num(pairs, "acc_x") {
        Ok(v) => v,
        Err(e) => return Err(e),
    };
    let acc_y = match opt_num(pairs, "acc_y") {
        Ok(v) => v,
        Err(e) => return Err(e),
    };
    let acc_z = match opt_num(pairs, "acc_z") {
        Ok(v) => v,
        Err(e) => return Err(e),
    };
    let gyro_x = match opt_num(pairs, "gyro_x") {
        Ok(v) => v,
        Err(e) => return Err(e),
    };
    let gyro_y = match opt_num(pairs, "gyro_y") {
        Ok(v) => v,
        Err(e) => return Err(e),
    };
    let gyro_z = match opt_num(pairs, "gyro_z") {
        Ok(v) => v,
        Err(e) => return Err(e),
    };
    let depth = match opt_num(pairs, "depth") {
        Ok(v) => v,
        Err(e) => return Err(e),
    };
    let temp = match opt_num(pairs, "temp") {
        Ok(v) => v,
        Err(e) => return Err(e),
    };
    Ok(Att { device, time, time_tag, heading, mag_st, mheading, pitch, pitch_st, rot, yaw, yaw_st, roll, roll_st, dip, mag_len, mag_x, mag_y, mag_z, acc_len, acc_x, acc_y, acc_z, gyro_x, gyro_y, gyro_z, depth, temp })
}

/// The first schema fault of a `Osc` object, in field order,
/// or success.
pub open spec fn osc_shape(pairs: Seq<(String, Json)>) -> Result<(), DecodeFault> {
    if spec_opt_string(pairs, "device"@) is Err {
        Err(spec_opt_string(pairs, "device"@)->Err_0)
    } else if spec_req_bool(pairs, "running"@) is Err {
        Err(spec_req_bool(pairs, "running"@)->Err_0)
    } else if spec_req_bool(pairs, "reference"@) is Err {
        Err(spec_req_bool(pairs, "reference"@)->Err_0)
    } else if spec_req_bool(pairs, "disciplined"@) is Err {
        Err(spec_req_bool(pairs, "disciplined"@)->Err_0)
    } else if spec_req_int(pairs, "delta"@, 0i64, 4294967295i64) is Err {
        Err(spec_req_int(pairs, "delta"@, 0i64, 4294967295i64)->Err_0)
    } else {
        Ok(())
    }
}

/// `m` holds exactly what the object's fields decode to.
pub open spec fn is_osc_of(pairs: Seq<(String, Json)>, m: Osc) -> bool {
    &&& spec_opt_string(pairs, "device"@) == Ok::<Option<String>, DecodeFault>(m.device)
    &&& spec_req_bool(pairs, "running"@) == Ok::<bool, DecodeFault>(m.running)
    &&& spec_req_bool(pairs, "reference"@) == Ok::<bool, DecodeFault>(m.reference)
    &&& spec_req_bool(pairs, "disciplined"@) == Ok::<bool, DecodeFault>(m.disciplined)
    &&& match spec_req_int(pairs, "delta"@, 0i64, 4294967295i64) {
        Ok(i) => m.delta == i as u32,
        Err(_) => false,
    }
}

/// Decodes the fields of one `Osc` object.
pub fn decode_osc(pairs: &Vec<(String, Json)>) -> (r: Result<Osc, DecodeError>)
    ensures
        match r {
            Ok(m) => osc_shape(pairs@) == Ok::<(), DecodeFault>(())
                && is_osc_of(pairs@, m),
            Err(e) => osc_shape(pairs@) == Err::<(), DecodeFault>(fault_of(e)),
        },
{
    let device = match opt_string(pairs, "device") {
        Ok(v) => v,
        Err(e) => return Err(e),
    };
    let running = match req_bool(pairs, "running") {
        Ok(v) => v,
        Err(e) => return Err(e),
    };
    let reference = match req_bool(pairs, "reference") {
        Ok(v) => v,
        Err(e) => return Err(e),
    };
    let disciplined = match req_bool(pairs, "disciplined") {
        Ok(v) => v,
        Err(e) => return Err(e),
    };
    let delta = match req_int(pairs, "delta", 0i64, 4294967295i64) {
        Ok(v) => v,
        Err(e) => return Err(e),
    };
    let delta: u32 = delta as u32;
    Ok(Osc { device, running, reference, disciplined, delta })
}

/// The first schema fault of a `Poll` object, in field order,
/// or success.
pub open spec fn poll_shape(pairs: Seq<(String, Json)>) -> Result<(), DecodeFault> {
    if spec_opt_string(pairs, "time"@) is Err {
        Err(spec_opt_string(pairs, "time"@)->Err_0)
    } else if spec_req_int(pairs, "active"@, 0i64, 4294967295i64) is Err {
        Err(spec_req_int(pairs, "active"@, 0i64, 4294967295i64)->Err_0)
    } else if req_arr_shape_tpv(pairs, "tpv"@) is Err {
        Err(req_arr_shape_tpv(pairs, "tpv"@)->Err_0)
    } else if req_arr_shape_sky(pairs, "sky"@) is Err {
        Err(req_arr_shape_sky(pairs, "sky"@)->Err_0)
    } else {
        Ok(())
    }
}

/// `m` holds exactly what the object's fields decode to.
pub open spec fn is_poll_of(pairs: Seq<(String, Json)>, m: Poll) -> bool {
    &&& spec_opt_string(pairs, "time"@) == Ok::<Option<String>, DecodeFault>(m.time)
    &&& match spec_req_int(pairs, "active"@, 0i64, 4294967295i64) {
        Ok(i) => m.active == i as u32,
        Err(_) => false,
    }
    &&& match spec_lookup(pairs, "tpv"@) {
        Some(Json::Arr(items)) => is_tpv_items(items@, m.tpv@),
        _ => false,
    }
    &&& match spec_lookup(pairs, "sky"@) {
        Some(Json::Arr(items)) => is_sky_items(items@, m.sky@),
        _ => false,
    }
}

/// Decodes the fields of one `Poll` object.
pub fn decode_poll(pairs: &Vec<(String, Json)>) -> (r: Result<Poll, DecodeError>)
    ensures
        match r {
            Ok(m) => poll_shape(pairs@) == Ok::<(), DecodeFault>(())
                && is_poll_of(pairs@, m),
            Err(e) => poll_shape(pairs@) == Err::<(), DecodeFault>(fault_of(e)),
        },
{
    let time = match opt_string(pairs, "time") {
        Ok(v) => v,
        Err(e) => return Err(e),
    };
    let active = match req_int(pairs, "active", 0i64, 4294967295i64) {
        Ok(v) => v,
        Err(e) => return Err(e),
    };
    let active: u32 = active as u32;
    let tpv = match lookup(pairs, "tpv") {
        None => return Err(DecodeError::MissingField("tpv".to_owned())),
        Some(Json::Arr(items)) => match decode_tpv_items(items, "tpv") {
            Ok(v) => v,
            Err(e) => return Err(e),
        },
        Some(_) => return Err(DecodeError::BadField("tpv".to_owned())),
    };
    let sky = match lookup(pairs, "sky") {
        None => return Err(DecodeError::MissingField("sky".to_owned())),
        Some(Json::Arr(items)) => match decode_sky_items(items, "sky") {
            Ok(v) => v,
            Err(e) => return Err(e),
        },
        Some(_) => return Err(DecodeError::BadField("sky".to_owned())),
    };
    Ok(Poll { time, active, tpv, sky })
}

/// The decode fault of one document against this union, or `None` when it
/// decodes.
pub open spec fn handshake_doc_fault(doc: Json) -> Option<DecodeFault> {
    match doc {
        Json::Obj(pairs) => match spec_class(pairs@) {
            Err(f) => Some(f),
            Ok(c) => if c@ == "VERSION"@ {
                shape_fault(version_shape(pairs@))
            } else if c@ == "DEVICES"@ {
                shape_fault(devices_shape(pairs@))
            } else if c@ == "WATCH"@ {
                shape_fault(watch_shape(pairs@))
            } else {
                Some(DecodeFault::UnknownClass(c@))
            },
        },
        _ => Some(DecodeFault::NotObject),
    }
}

/// The decode fault of one raw line against this union, or `None` when it
/// decodes.
pub open spec fn handshake_fault(line: Seq<u8>) -> Option<DecodeFault> {
    match json_doc(line) {
        None => Some(DecodeFault::Syntax),
        Some(doc) => handshake_doc_fault(doc),
    }
}

/// `m` is what the document decodes to against this union.
pub open spec fn is_handshake_doc_of(doc: Json, m: ResponseHandshake) -> bool {
    match doc {
        Json::Obj(pairs) => match m {
            ResponseHandshake::Version(v) => spec_class(pairs@) matches Ok(c) && c@ == "VERSION"@
                && is_version_of(pairs@, v),
            ResponseHandshake::Devices(v) => spec_class(pairs@) matches Ok(c) && c@ == "DEVICES"@
                && is_devices_of(pairs@, v),
            ResponseHandshake::Watch(v) => spec_class(pairs@) matches Ok(c) && c@ == "WATCH"@
                && is_watch_of(pairs@, v),
        },
        _ => false,
    }
}

/// `m` is what the raw line decodes to against this union.
pub open spec fn is_handshake_of(line: Seq<u8>, m: ResponseHandshake) -> bool {
    json_doc(line) matches Some(doc) && is_handshake_doc_of(doc, m)
}

/// Decodes one raw line against the handshake union: VERSION, DEVICES or
/// WATCH; any other discriminator is refused.
pub fn decode_handshake(line: &Vec<u8>) -> (r: Result<ResponseHandshake, DecodeError>)
    ensures
        match r {
            Ok(m) => handshake_fault(line@) is None && is_handshake_of(line@, m),
            Err(e) => handshake_fault(line@) == Some(fault_of(e)),
        },
{
    let doc = match parse_line(line) {
        Ok(d) => d,
        Err(e) => return Err(e),
    };
    let pairs = match &doc {
        Json::Obj(p) => p,
        _ => return Err(DecodeError::NotObject),
    };
    let class = match class_field(pairs) {
        Ok(c) => c,
        Err(e) => return Err(e),
    };
    if str_eq(class.as_str(), "VERSION") {
        match decode_version(pairs) {
            Ok(v) => Ok(ResponseHandshake::Version(v)),
            Err(e) => Err(e),
        }
    } else if str_eq(class.as_str(), "DEVICES") {
        match decode_devices(pairs) {
            Ok(v) => Ok(ResponseHandshake::Devices(v)),
            Err(e) => Err(e),
        }
    } else if str_eq(class.as_str(), "WATCH") {
        match decode_watch(pairs) {
            Ok(v) => Ok(ResponseHandshake::Watch(v)),
            Err(e) => Err(e),
        }
    } else {
        Err(DecodeError::UnknownClass(class))
    }
}

/// The decode fault of one document against this union, or `None` when it
/// decodes.
pub open spec fn data_doc_fault(doc: Json) -> Option<DecodeFault> {
    match doc {
        Json::Obj(pairs) => match spec_class(pairs@) {
            Err(f) => Some(f),
            Ok(c) => if c@ == "DEVICE"@ {
                shape_fault(device_shape(pairs@))
            } else if c@ == "TPV"@ {
                shape_fault(tpv_shape(pairs@))
            } else if c@ == "SKY"@ {
                shape_fault(sky_shape(pairs@))
            } else if c@ == "PPS"@ {
                shape_fault(pps_shape(pairs@))
            } else if c@ == "GST"@ {
                shape_fault(gst_shape(pairs@))
            } else if c@ == "ATT"@ {
                shape_fault(att_shape(pairs@))
            } else if c@ == "IMU"@ {
                shape_fault(att_shape(pairs@))
            } else if c@ == "TOFF"@ {
                shape_fault(pps_shape(pairs@))
            } else if c@ == "OSC"@ {
                shape_fault(osc_shape(pairs@))
            } else if c@ == "POLL"@ {
                shape_fault(poll_shape(pairs@))
            } else {
                Some(DecodeFault::UnknownClass(c@))
            },
        },
        _ => Some(DecodeFault::NotObject),
    }
}

/// The decode fault of one raw line against this union, or `None` when it
/// decodes.
pub open spec fn data_fault(line: Seq<u8>) -> Option<DecodeFault> {
    match json_doc(line) {
        None => Some(DecodeFault::Syntax),
        Some(doc) => data_doc_fault(doc),
    }
}

/// `m` is what the document decodes to against this union.
pub open spec fn is_data_doc_of(doc: Json, m: ResponseData) -> bool {
    match doc {
        Json::Obj(pairs) => match m {
            ResponseData::Device(v) => spec_class(pairs@) matches Ok(c) && c@ == "DEVICE"@
                && is_device_of(pairs@, v),
            ResponseData::Tpv(v) => spec_class(pairs@) matches Ok(c) && c@ == "TPV"@
                && is_tpv_of(pairs@, v),
            ResponseData::Sky(v) => spec_class(pairs@) matches Ok(c) && c@ == "SKY"@
                && is_sky_of(pairs@, v),
            ResponseData::Pps(v) => spec_class(pairs@) matches Ok(c) && c@ == "PPS"@
                && is_pps_of(pairs@, v),
            ResponseData::Gst(v) => spec_class(pairs@) matches Ok(c) && c@ == "GST"@
                && is_gst_of(pairs@, v),
            ResponseData::Att(v) => spec_class(pairs@) matches Ok(c) && c@ == "ATT"@
                && is_att_of(pairs@, v),
            ResponseData::Imu(v) => spec_class(pairs@) matches Ok(c) && c@ == "IMU"@
                && is_att_of(pairs@, v),
            ResponseData::Toff(v) => spec_class(pairs@) matches Ok(c) && c@ == "TOFF"@
                && is_pps_of(pairs@, v),
            ResponseData::Osc(v) => spec_class(pairs@) matches Ok(c) && c@ == "OSC"@
                && is_osc_of(pairs@, v),
            ResponseData::Poll(v) => spec_class(pairs@) matches Ok(c) && c@ == "POLL"@
                && is_poll_of(pairs@, v),
        },
        _ => false,
    }
}

/// `m` is what the raw line decodes to against this union.
pub open spec fn is_data_of(line: Seq<u8>, m: ResponseData) -> bool {
    json_doc(line) matches Some(doc) && is_data_doc_of(doc, m)
}

/// Decodes one raw line against the payload union; any discriminator
/// outside it is refused.
pub fn decode_data(line: &Vec<u8>) -> (r: Result<ResponseData, DecodeError>)
    ensures
        match r {
            Ok(m) => data_fault(line@) is None && is_data_of(line@, m),
            Err(e) => data_fault(line@) == Some(fault_of(e)),
        },
{
    let doc = match parse_line(line) {
        Ok(d) => d,
        Err(e) => return Err(e),
    };
    let pairs = match &doc {
        Json::Obj(p) => p,
        _ => return Err(DecodeError::NotObject),
    };
    let class = match class_field(pairs) {
        Ok(c) => c,
        Err(e) => return Err(e),
    };
    if str_eq(class.as_str(), "DEVICE") {
        match decode_device(pairs) {
            Ok(v) => Ok(ResponseData::Device(v)),
            Err(e) => Err(e),
        }
    } else if str_eq(class.as_str(), "TPV") {
        match decode_tpv(pairs) {
            Ok(v) => Ok(ResponseData::Tpv(v)),
            Err(e) => Err(e),
        }
    } else if str_eq(class.as_str(), "SKY") {
        match decode_sky(pairs) {
            Ok(v) => Ok(ResponseData::Sky(v)),
            Err(e) => Err(e),
        }
    } else if str_eq(class.as_str(), "PPS") {
        match decode_pps(pairs) {
            Ok(v) => Ok(ResponseData::Pps(v)),
            Err(e) => Err(e),
        }
    } else if str_eq(class.as_str(), "GST") {
        match decode_gst(pairs) {
            Ok(v) => Ok(ResponseData::Gst(v)),
            Err(e) => Err(e),
        }
    } else if str_eq(class.as_str(), "ATT") {
        match decode_att(pairs) {
            Ok(v) => Ok(ResponseData::Att(v)),
            Err(e) => Err(e),
        }
    } else if str_eq(class.as_str(), "IMU") {
        match decode_att(pairs) {
            Ok(v) => Ok(ResponseData::Imu(v)),
            Err(e) => Err(e),
        }
    } else if str_eq(class.as_str(), "TOFF") {
        match decode_pps(pairs) {
            Ok(v) => Ok(ResponseData::Toff(v)),
            Err(e) => Err(e),
        }
    } else if str_eq(class.as_str(), "OSC") {
        match decode_osc(pairs) {
            Ok(v) => Ok(ResponseData::Osc(v)),
            Err(e) => Err(e),
        }
    } else if str_eq(class.as_str(), "POLL") {
        match decode_poll(pairs) {
            Ok(v) => Ok(ResponseData::Poll(v)),
            Err(e) => Err(e),
        }
    } else {
        Err(DecodeError::UnknownClass(class))
    }
}

/// The decode fault of one document against this union, or `None` when it
/// decodes.
pub open spec fn unified_doc_fault(doc: Json) -> Option<DecodeFault> {
    match doc {
        Json::Obj(pairs) => match spec_class(pairs@) {
            Err(f) => Some(f),
            Ok(c) => if c@ == "VERSION"@ {
                shape_fault(version_shape(pairs@))
            } else if c@ == "DEVICES"@ {
                shape_fault(devices_shape(pairs@))
            } else if c@ == "WATCH"@ {
                shape_fault(watch_shape(pairs@))
            } else if c@ == "DEVICE"@ {
                shape_fault(device_shape(pairs@))
            } else if c@ == "TPV"@ {
                shape_fault(tpv_shape(pairs@))
            } else if c@ == "SKY"@ {
                shape_fault(sky_shape(pairs@))
            } else if c@ == "PPS"@ {
                shape_fault(pps_shape(pairs@))
            } else if c@ == "GST"@ {
                shape_fault(gst_shape(pairs@))
            } else if c@ == "ATT"@ {
                shape_fault(att_shape(pairs@))
            } else if c@ == "IMU"@ {
                shape_fault(att_shape(pairs@))
            } else if c@ == "TOFF"@ {
                shape_fault(pps_shape(pairs@))
            } else if c@ == "OSC"@ {
                shape_fault(osc_shape(pairs@))
            } else if c@ == "POLL"@ {
                shape_fault(poll_shape(pairs@))
            } else {
                None
            },
        },
        _ => Some(DecodeFault::NotObject),
    }
}

/// The decode fault of one raw line against this union, or `None` when it
/// decodes.
pub open spec fn unified_fault(line: Seq<u8>) -> Option<DecodeFault> {
    match json_doc(line) {
        None => Some(DecodeFault::Syntax),
        Some(doc) => unified_doc_fault(doc),
    }
}

/// `m` is what the document decodes to against this union.
pub open spec fn is_unified_doc_of(doc: Json, m: UnifiedResponse) -> bool {
    match doc {
        Json::Obj(pairs) => match m {
            UnifiedResponse::Version(v) => spec_class(pairs@) matches Ok(c) && c@ == "VERSION"@
                && is_version_of(pairs@, v),
            UnifiedResponse::Devices(v) => spec_class(pairs@) matches Ok(c) && c@ == "DEVICES"@
                && is_devices_of(pairs@, v),
            UnifiedResponse::Watch(v) => spec_class(pairs@) matches Ok(c) && c@ == "WATCH"@
                && is_watch_of(pairs@, v),
            UnifiedResponse::Device(v) => spec_class(pairs@) matches Ok(c) && c@ == "DEVICE"@
                && is_device_of(pairs@, v),
            UnifiedResponse::Tpv(v) => spec_class(pairs@) matches Ok(c) && c@ == "TPV"@
                && is_tpv_of(pairs@, v),
            UnifiedResponse::Sky(v) => spec_class(pairs@) matches Ok(c) && c@ == "SKY"@
                && is_sky_of(pairs@, v),
            UnifiedResponse::Pps(v) => spec_class(pairs@) matches Ok(c) && c@ == "PPS"@
                && is_pps_of(pairs@, v),
            UnifiedResponse::Gst(v) => spec_class(pairs@) matches Ok(c) && c@ == "GST"@
                && is_gst_of(pairs@, v),
            UnifiedResponse::Att(v) => spec_class(pairs@) matches Ok(c) && c@ == "ATT"@
                && is_att_of(pairs@, v),
            UnifiedResponse::Imu(v) => spec_class(pairs@) matches Ok(c) && c@ == "IMU"@
                && is_att_of(pairs@, v),
            UnifiedResponse::Toff(v) => spec_class(pairs@) matches Ok(c) && c@ == "TOFF"@
                && is_pps_of(pairs@, v),
            UnifiedResponse::Osc(v) => spec_class(pairs@) matches Ok(c) && c@ == "OSC"@
                && is_osc_of(pairs@, v),
            UnifiedResponse::Poll(v) => spec_class(pairs@) matches Ok(c) && c@ == "POLL"@
                && is_poll_of(pairs@, v),
            UnifiedResponse::Subframe(d) => {
                &&& d == doc
                &&& spec_class(pairs@) matches Ok(c)
                    && c@ != "VERSION"@
                    && c@ != "DEVICES"@
                    && c@ != "WATCH"@
                    && c@ != "DEVICE"@
                    && c@ != "TPV"@
                    && c@ != "SKY"@
                    && c@ != "PPS"@
                    && c@ != "GST"@
                    && c@ != "ATT"@
                    && c@ != "IMU"@
                    && c@ != "TOFF"@
                    && c@ != "OSC"@
                    && c@ != "POLL"@
            },
        },
        _ => false,
    }
}

/// `m` is what the raw line decodes to against this union.
pub open spec fn is_unified_of(line: Seq<u8>, m: UnifiedResponse) -> bool {
    json_doc(line) matches Some(doc) && is_unified_doc_of(doc, m)
}

/// Decodes one raw line against the open union: a discriminator this crate
/// does not model yields the document verbatim as `Subframe` instead of
/// failing.
pub fn decode_unified(line: &Vec<u8>) -> (r: Result<UnifiedResponse, DecodeError>)
    ensures
        match r {
            Ok(m) => unified_fault(line@) is None && is_unified_of(line@, m),
            Err(e) => unified_fault(line@) == Some(fault_of(e)),
        },
{
    let doc = match parse_line(line) {
        Ok(d) => d,
        Err(e) => return Err(e),
    };
    let pairs = match &doc {
        Json::Obj(p) => p,
        _ => return Err(DecodeError::NotObject),
    };
    let class = match class_field(pairs) {
        Ok(c) => c,
        Err(e) => return Err(e),
    };
    if str_eq(class.as_str(), "VERSION") {
        match decode_version(pairs) {
            Ok(v) => Ok(UnifiedResponse::Version(v)),
            Err(e) => Err(e),
        }
    } else if str_eq(class.as_str(), "DEVICES") {
        match decode_devices(pairs) {
            Ok(v) => Ok(UnifiedResponse::Devices(v)),
            Err(e) => Err(e),
        }
    } else if str_eq(class.as_str(), "WATCH") {
        match decode_watch(pairs) {
            Ok(v) => Ok(UnifiedResponse::Watch(v)),
            Err(e) => Err(e),
        }
    } else if str_eq(class.as_str(), "DEVICE") {
        match decode_device(pairs) {
            Ok(v) => Ok(UnifiedResponse::Device(v)),
            Err(e) => Err(e),
        }
    } else if str_eq(class.as_str(), "TPV") {
        match decode_tpv(pairs) {
            Ok(v) => Ok(UnifiedResponse::Tpv(v)),
            Err(e) => Err(e),
        }
    } else if str_eq(class.as_str(), "SKY") {
        match decode_sky(pairs) {
            Ok(v) => Ok(UnifiedResponse::Sky(v)),
            Err(e) => Err(e),
        }
    } else if str_eq(class.as_str(), "PPS") {
        match decode_pps(pairs) {
            Ok(v) => Ok(UnifiedResponse::Pps(v)),
            Err(e) => Err(e),
        }
    } else if str_eq(class.as_str(), "GST") {
        match decode_gst(pairs) {
            Ok(v) => Ok(UnifiedResponse::Gst(v)),
            Err(e) => Err(e),
        }
    } else if str_eq(class.as_str(), "ATT") {
        match decode_att(pairs) {
            Ok(v) => Ok(UnifiedResponse::Att(v)),
            Err(e) => Err(e),
        }
    } else if str_eq(class.as_str(), "IMU") {
        match decode_att(pairs) {
            Ok(v) => Ok(UnifiedResponse::Imu(v)),
            Err(e) => Err(e),
        }
    } else if str_eq(class.as_str(), "TOFF") {
        match decode_pps(pairs) {
            Ok(v) => Ok(UnifiedResponse::Toff(v)),
            Err(e) => Err(e),
        }
    } else if str_eq(class.as_str(), "OSC") {
        match decode_osc(pairs) {
            Ok(v) => Ok(UnifiedResponse::Osc(v)),
            Err(e) => Err(e),
        }
    } else if str_eq(class.as_str(), "POLL") {
        match decode_poll(pairs) {
            Ok(v) => Ok(UnifiedResponse::Poll(v)),
            Err(e) => Err(e),
        }
    } else {
        Ok(UnifiedResponse::Subframe(doc))
    }
}

} // verus!
