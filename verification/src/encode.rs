//! Message serialization: one typed message to one JSON document.
//!
//! Each encoder's contract is the round trip itself: the document it builds
//! passes the message's shape check, and the value the decoder pins for that
//! document is exactly the encoded one, field for field; the lemmas at the
//! end state that the pinning is complete. Optional fields that are absent
//! are written as JSON `null`, which decodes back to absent. Integer fields
//! carry their integer reading and decimal digits; decimal fields carry
//! their text verbatim.

use vstd::prelude::*;

use crate::decode::{
    device_info_items_shape, device_info_shape, device_shape, devices_shape, gst_shape,
    handshake_doc_fault, is_att_of, is_device_info_item, is_device_info_items, is_device_info_of,
    is_device_of, is_devices_of, is_gst_of, is_handshake_doc_of, is_osc_of, is_pps_of,
    is_satellite_item, is_satellite_items, is_satellite_of, is_sky_of, is_tpv_of, is_version_of,
    is_watch_of, osc_shape, pps_shape, satellite_items_shape, satellite_shape, sky_shape,
    spec_class, version_shape, watch_shape,
};
use crate::errors::DecodeFault;
use crate::json::{spec_lookup, Json, JsonNum};
use crate::messages::{
    Att, Device, DeviceInfo, Devices, Gst, Osc, Pps, ResponseHandshake, Satellite, Sky, Tpv,
    Version, Watch,
};

verus! {

/// The decimal digits of a number, most significant first.
pub open spec fn spec_dec_digits(n: nat) -> Seq<char>
    decreases n,
{
    if n < 10 {
        seq![spec_digit_char(n)]
    } else {
        spec_dec_digits(n / 10).push(spec_digit_char(n % 10))
    }
}

/// The character of one decimal digit.
pub open spec fn spec_digit_char(d: nat) -> char {
    (('0' as u8) + (d as u8)) as char
}

/// The decimal text of a signed value: a minus sign and the digits of its
/// magnitude.
pub open spec fn spec_dec_int(i: int) -> Seq<char> {
    if i < 0 {
        seq!['-'] + spec_dec_digits((-i) as nat)
    } else {
        spec_dec_digits(i as nat)
    }
}

/// Relies on `i64`'s `Display`: the value's decimal text, with a minus sign
/// when it is negative.
#[verifier::external_body]
fn i64_text(x: i64) -> (r: String)
    ensures
        r@ == spec_dec_int(x as int),
{
    x.to_string()
}

/// The number node of a signed integer field.
fn num_from_i64(x: i64) -> (r: JsonNum)
    ensures
        r.int == Some(x),
{
    let uint_part: Option<u64> = if x >= 0 {
        Some(x as u64)
    } else {
        None
    };
    JsonNum { text: i64_text(x), int: Some(x), uint: uint_part }
}

/// The number node of a decimal-text field: the text verbatim, no integer
/// reading.
fn num_from_text(s: &String) -> (r: JsonNum)
    ensures
        r.text == *s,
        r.int is None,
{
    JsonNum { text: s.clone(), int: None, uint: None }
}

/// Builds the document of one `Version`; the document decodes back to exactly
/// the encoded value.
pub fn encode_version(m: &Version) -> (j: Json)
    ensures
        j is Obj,
        spec_class(j->Obj_0@) matches Ok(c) && c@ == "VERSION"@,
        version_shape(j->Obj_0@) == Ok::<(), DecodeFault>(()),
        is_version_of(j->Obj_0@, *m),
{
    let mut pairs: Vec<(String, Json)> = Vec::new();
    pairs.push(("class".to_owned(), Json::Str("VERSION".to_owned())));
    pairs.push(("release".to_owned(), Json::Str(m.release.clone())));
    pairs.push(("rev".to_owned(), Json::Str(m.rev.clone())));
    pairs.push(("proto_major".to_owned(), Json::Num(num_from_i64(m.proto_major as i64))));
    pairs.push(("proto_minor".to_owned(), Json::Num(num_from_i64(m.proto_minor as i64))));
    let v_remote: Json = match &m.remote {
        Some(s) => Json::Str(s.clone()),
        None => Json::Null,
    };
    pairs.push(("remote".to_owned(), v_remote));
    proof {
        reveal_with_fuel(crate::json::spec_lookup, 8);
        reveal_strlit("class");
        reveal_strlit("proto_major");
        reveal_strlit("proto_minor");
        reveal_strlit("release");
        reveal_strlit("remote");
        reveal_strlit("rev");
        assert("class"@.len() == 5);
        assert("proto_major"@.len() == 11);
        assert("proto_minor"@.len() == 11);
        assert("release"@.len() == 7);
        assert("remote"@.len() == 6);
        assert("rev"@.len() == 3);
        assert("proto_major"@[7] == 'a');
        assert("proto_minor"@[7] == 'i');
        assert(spec_lookup(pairs@, "class"@) == Some(pairs@[0].1));
        assert(spec_lookup(pairs@, "release"@) == Some(pairs@[1].1));
        assert(spec_lookup(pairs@, "rev"@) == Some(pairs@[2].1));
        assert(spec_lookup(pairs@, "proto_major"@) == Some(pairs@[3].1));
        assert(spec_lookup(pairs@, "proto_minor"@) == Some(pairs@[4].1));
        assert(spec_lookup(pairs@, "remote"@) == Some(pairs@[5].1));
    }
    Json::Obj(pairs)
}

/// Builds the document of one `DeviceInfo`; the document decodes back to exactly
/// the encoded value.
pub fn encode_device_info(m: &DeviceInfo) -> (j: Json)
    ensures
        j is Obj,
        device_info_shape(j->Obj_0@) == Ok::<(), DecodeFault>(()),
        is_device_info_of(j->Obj_0@, *m),
{
    let mut pairs: Vec<(String, Json)> = Vec::new();
    let v_path: Json = match &m.path {
        Some(s) => Json::Str(s.clone()),
        None => Json::Null,
    };
    pairs.push(("path".to_owned(), v_path));
    let v_activated: Json = match &m.activated {
        Some(s) => Json::Str(s.clone()),
        None => Json::Null,
    };
    pairs.push(("activated".to_owned(), v_activated));
    proof {
        reveal_with_fuel(crate::json::spec_lookup, 4);
        reveal_strlit("activated");
        reveal_strlit("path");
        assert("activated"@.len() == 9);
        assert("path"@.len() == 4);
        assert(spec_lookup(pairs@, "path"@) == Some(pairs@[0].1));
        assert(spec_lookup(pairs@, "activated"@) == Some(pairs@[1].1));
    }
    Json::Obj(pairs)
}

/// The first-fault check of an encoded `DeviceInfo` list passes for any field
/// name.
pub proof fn lemma_device_info_items_shape_ok(items: Seq<Json>, key: Seq<char>)
    requires
        forall|i: int| 0 <= i < items.len() ==> #[trigger] items[i] is Obj
            && device_info_shape(items[i]->Obj_0@) == Ok::<(), DecodeFault>(()),
    ensures
        device_info_items_shape(items, key) == Ok::<(), DecodeFault>(()),
    decreases items.len(),
{
    if items.len() > 0 {
        assert(items[0] is Obj);
        assert forall|i: int|
            0 <= i < items.drop_first().len() implies #[trigger] items.drop_first()[i] is Obj
            && device_info_shape(items.drop_first()[i]->Obj_0@) == Ok::<(), DecodeFault>(()) by {
            assert(items.drop_first()[i] == items[i + 1]);
        }
        lemma_device_info_items_shape_ok(items.drop_first(), key);
    }
}

/// Builds the documents of a `DeviceInfo` list; each decodes back to its element.
pub fn encode_device_info_items(items: &Vec<DeviceInfo>) -> (r: Vec<Json>)
    ensures
        forall|key: Seq<char>| #[trigger] device_info_items_shape(r@, key) == Ok::<(), DecodeFault>(()),
        is_device_info_items(r@, items@),
{
    let mut out: Vec<Json> = Vec::new();
    let mut i: usize = 0;
    while i < items.len()
        invariant
            i <= items.len(),
            out@.len() == i,
            forall|k: int| 0 <= k < i ==> #[trigger] out@[k] is Obj
                && device_info_shape(out@[k]->Obj_0@) == Ok::<(), DecodeFault>(())
                && is_device_info_of(out@[k]->Obj_0@, items@[k]),
        decreases items.len() - i,
    {
        out.push(encode_device_info(&items[i]));
        i = i + 1;
    }
    proof {
        assert forall|key: Seq<char>| #[trigger] device_info_items_shape(out@, key) == Ok::<
            (),
            DecodeFault,
        >(()) by {
            lemma_device_info_items_shape_ok(out@, key);
        }
        assert forall|k: int| 0 <= k < items@.len() implies #[trigger] is_device_info_item(
            out@[k],
            items@[k],
        ) by {}
    }
    out
}

/// Builds the document of one `Devices`; the document decodes back to exactly
/// the encoded value.
pub fn encode_devices(m: &Devices) -> (j: Json)
    ensures
        j is Obj,
        spec_class(j->Obj_0@) matches Ok(c) && c@ == "DEVICES"@,
        devices_shape(j->Obj_0@) == Ok::<(), DecodeFault>(()),
        is_devices_of(j->Obj_0@, *m),
{
    let mut pairs: Vec<(String, Json)> = Vec::new();
    pairs.push(("class".to_owned(), Json::Str("DEVICES".to_owned())));
    pairs.push(("devices".to_owned(), Json::Arr(encode_device_info_items(&m.devices))));
    proof {
        reveal_with_fuel(crate::json::spec_lookup, 4);
        reveal_strlit("class");
        reveal_strlit("devices");
        assert("class"@.len() == 5);
        assert("devices"@.len() == 7);
        assert(spec_lookup(pairs@, "class"@) == Some(pairs@[0].1));
        assert(spec_lookup(pairs@, "devices"@) == Some(pairs@[1].1));
    }
    Json::Obj(pairs)
}

/// Builds the document of one `Watch`; the document decodes back to exactly
/// the encoded value.
pub fn encode_watch(m: &Watch) -> (j: Json)
    ensures
        j is Obj,
        spec_class(j->Obj_0@) matches Ok(c) && c@ == "WATCH"@,
        watch_shape(j->Obj_0@) == Ok::<(), DecodeFault>(()),
        is_watch_of(j->Obj_0@, *m),
{
    let mut pairs: Vec<(String, Json)> = Vec::new();
    pairs.push(("class".to_owned(), Json::Str("WATCH".to_owned())));
    let v_enable: Json = match m.enable {
        Some(b) => Json::Bool(b),
        None => Json::Null,
    };
    pairs.push(("enable".to_owned(), v_enable));
    let v_json: Json = match m.json {
        Some(b) => Json::Bool(b),
        None => Json::Null,
    };
    pairs.push(("json".to_owned(), v_json));
    let v_nmea: Json = match m.nmea {
        Some(b) => Json::Bool(b),
        None => Json::Null,
    };
    pairs.push(("nmea".to_owned(), v_nmea));
    let v_raw: Json = match m.raw {
        Some(x) => Json::Num(num_from_i64(x as i64)),
        None => Json::Null,
    };
    pairs.push(("raw".to_owned(), v_raw));
    let v_scaled: Json = match m.scaled {
        Some(b) => Json::Bool(b),
        None => Json::Null,
    };
    pairs.push(("scaled".to_owned(), v_scaled));
    let v_timing: Json = match m.timing {
        Some(b) => Json::Bool(b),
        None => Json::Null,
    };
    pairs.push(("timing".to_owned(), v_timing));
    let v_split24: Json = match m.split24 {
        Some(b) => Json::Bool(b),
        None => Json::Null,
    };
    pairs.push(("split24".to_owned(), v_split24));
    let v_pps: Json = match m.pps {
        Some(b) => Json::Bool(b),
        None => Json::Null,
    };
    pairs.push(("pps".to_owned(), v_pps));
    let v_device: Json = match &m.device {
        Some(s) => Json::Str(s.clone()),
        None => Json::Null,
    };
    pairs.push(("device".to_owned(), v_device));
    proof {
        reveal_with_fuel(crate::json::spec_lookup, 12);
        reveal_strlit("class");
        reveal_strlit("device");
        reveal_strlit("enable");
        reveal_strlit("json");
        reveal_strlit("nmea");
        reveal_strlit("pps");
        reveal_strlit("raw");
        reveal_strlit("scaled");
        reveal_strlit("split24");
        reveal_strlit("timing");
        assert("class"@.len() == 5);
        assert("device"@.len() == 6);
        assert("enable"@.len() == 6);
        assert("json"@.len() == 4);
        assert("nmea"@.len() == 4);
        assert("pps"@.len() == 3);
        assert("raw"@.len() == 3);
        assert("scaled"@.len() == 6);
        assert("split24"@.len() == 7);
        assert("timing"@.len() == 6);
        assert("device"@[0] == 'd');
        assert("enable"@[0] == 'e');
        assert("scaled"@[0] == 's');
        assert("timing"@[0] == 't');
        assert("json"@[0] == 'j');
        assert("nmea"@[0] == 'n');
        assert("pps"@[0] == 'p');
        assert("raw"@[0] == 'r');
        assert(spec_lookup(pairs@, "class"@) == Some(pairs@[0].1));
        assert(spec_lookup(pairs@, "enable"@) == Some(pairs@[1].1));
        assert(spec_lookup(pairs@, "json"@) == Some(pairs@[2].1));
        assert(spec_lookup(pairs@, "nmea"@) == Some(pairs@[3].1));
        assert(spec_lookup(pairs@, "raw"@) == Some(pairs@[4].1));
        assert(spec_lookup(pairs@, "scaled"@) == Some(pairs@[5].1));
        assert(spec_lookup(pairs@, "timing"@) == Some(pairs@[6].1));
        assert(spec_lookup(pairs@, "split24"@) == Some(pairs@[7].1));
        assert(spec_lookup(pairs@, "pps"@) == Some(pairs@[8].1));
        assert(spec_lookup(pairs@, "device"@) == Some(pairs@[9].1));
    }
    Json::Obj(pairs)
}

/// Builds the document of one `Device`; the document decodes back to exactly
/// the encoded value.
#[verifier::rlimit(100)]
pub fn encode_device(m: &Device) -> (j: Json)
    ensures
        j is Obj,
        spec_class(j->Obj_0@) matches Ok(c) && c@ == "DEVICE"@,
        device_shape(j->Obj_0@) == Ok::<(), DecodeFault>(()),
        is_device_of(j->Obj_0@, *m),
{
    let mut pairs: Vec<(String, Json)> = Vec::new();
    pairs.push(("class".to_owned(), Json::Str("DEVICE".to_owned())));
    let v_path: Json = match &m.path {
        Some(s) => Json::Str(s.clone()),
        None => Json::Null,
    };
    pairs.push(("path".to_owned(), v_path));
    let v_activated: Json = match &m.activated {
        Some(s) => Json::Str(s.clone()),
        None => Json::Null,
    };
    pairs.push(("activated".to_owned(), v_activated));
    let v_flags: Json = match m.flags {
        Some(x) => Json::Num(num_from_i64(x as i64)),
        None => Json::Null,
    };
    pairs.push(("flags".to_owned(), v_flags));
    let v_driver: Json = match &m.driver {
        Some(s) => Json::Str(s.clone()),
        None => Json::Null,
    };
    pairs.push(("driver".to_owned(), v_driver));
    let v_subtype: Json = match &m.subtype {
        Some(s) => Json::Str(s.clone()),
        None => Json::Null,
    };
    pairs.push(("subtype".to_owned(), v_subtype));
    let v_bps: Json = match m.bps {
        Some(x) => Json::Num(num_from_i64(x as i64)),
        None => Json::Null,
    };
    pairs.push(("bps".to_owned(), v_bps));
    let v_parity: Json = match &m.parity {
        Some(s) => Json::Str(s.clone()),
        None => Json::Null,
    };
    pairs.push(("parity".to_owned(), v_parity));
    let v_stopbits: Json = match m.stopbits {
        Some(x) => Json::Num(num_from_i64(x as i64)),
        None => Json::Null,
    };
    pairs.push(("stopbits".to_owned(), v_stopbits));
    let v_native: Json = match m.native {
        Some(x) => Json::Num(num_from_i64(x as i64)),
        None => Json::Null,
    };
    pairs.push(("native".to_owned(), v_native));
    let v_cycle: Json = match &m.cycle {
        Some(s) => Json::Num(num_from_text(s)),
        None => Json::Null,
    };
    pairs.push(("cycle".to_owned(), v_cycle));
    let v_mincycle: Json = match &m.mincycle {
        Some(s) => Json::Num(num_from_text(s)),
        None => Json::Null,
    };
    pairs.push(("mincycle".to_owned(), v_mincycle));
    proof {
        reveal_with_fuel(crate::json::spec_lookup, 14);
        reveal_strlit("activated");
        reveal_strlit("bps");
        reveal_strlit("class");
        reveal_strlit("cycle");
        reveal_strlit("driver");
        reveal_strlit("flags");
        reveal_strlit("mincycle");
        reveal_strlit("native");
        reveal_strlit("parity");
        reveal_strlit("path");
        reveal_strlit("stopbits");
        reveal_strlit("subtype");
        assert("activated"@.len() == 9);
        assert("bps"@.len() == 3);
        assert("class"@.len() == 5);
        assert("cycle"@.len() == 5);
        assert("driver"@.len() == 6);
        assert("flags"@.len() == 5);
        assert("mincycle"@.len() == 8);
        assert("native"@.len() == 6);
        assert("parity"@.len() == 6);
        assert("path"@.len() == 4);
        assert("stopbits"@.len() == 8);
        assert("subtype"@.len() == 7);
        assert("class"@[1] == 'l');
        assert("cycle"@[1] == 'y');
        assert("class"@[0] == 'c');
        assert("flags"@[0] == 'f');
        assert("cycle"@[0] == 'c');
        assert("driver"@[0] == 'd');
        assert("native"@[0] == 'n');
        assert("parity"@[0] == 'p');
        assert("mincycle"@[0] == 'm');
        assert("stopbits"@[0] == 's');
        assert(spec_lookup(pairs@, "class"@) == Some(pairs@[0].1));
        assert(spec_lookup(pairs@, "path"@) == Some(pairs@[1].1));
        assert(spec_lookup(pairs@, "activated"@) == Some(pairs@[2].1));
        assert(spec_lookup(pairs@, "flags"@) == Some(pairs@[3].1));
        assert(spec_lookup(pairs@, "driver"@) == Some(pairs@[4].1));
        assert(spec_lookup(pairs@, "subtype"@) == Some(pairs@[5].1));
        assert(spec_lookup(pairs@, "bps"@) == Some(pairs@[6].1));
        assert(spec_lookup(pairs@, "parity"@) == Some(pairs@[7].1));
        assert(spec_lookup(pairs@, "stopbits"@) == Some(pairs@[8].1));
        assert(spec_lookup(pairs@, "native"@) == Some(pairs@[9].1));
        assert(spec_lookup(pairs@, "cycle"@) == Some(pairs@[10].1));
        assert(spec_lookup(pairs@, "mincycle"@) == Some(pairs@[11].1));
    }
    Json::Obj(pairs)
}

/// Builds the document of one `Satellite`; the document decodes back to exactly
/// the encoded value.
pub fn encode_satellite(m: &Satellite) -> (j: Json)
    ensures
        j is Obj,
        satellite_shape(j->Obj_0@) == Ok::<(), DecodeFault>(()),
        is_satellite_of(j->Obj_0@, *m),
{
    let mut pairs: Vec<(String, Json)> = Vec::new();
    pairs.push(("PRN".to_owned(), Json::Num(num_from_i64(m.prn as i64))));
    let v_el: Json = match &m.el {
        Some(s) => Json::Num(num_from_text(s)),
        None => Json::Null,
    };
    pairs.push(("el".to_owned(), v_el));
    let v_az: Json = match &m.az {
        Some(s) => Json::Num(num_from_text(s)),
        None => Json::Null,
    };
    pairs.push(("az".to_owned(), v_az));
    let v_ss: Json = match &m.ss {
        Some(s) => Json::Num(num_from_text(s)),
        None => Json::Null,
    };
    pairs.push(("ss".to_owned(), v_ss));
    pairs.push(("used".to_owned(), Json::Bool(m.used)));
    let v_gnssid: Json = match m.gnssid {
        Some(x) => Json::Num(num_from_i64(x as i64)),
        None => Json::Null,
    };
    pairs.push(("gnssid".to_owned(), v_gnssid));
    let v_svid: Json = match m.svid {
        Some(x) => Json::Num(num_from_i64(x as i64)),
        None => Json::Null,
    };
    pairs.push(("svid".to_owned(), v_svid));
    let v_sigid: Json = match m.sigid {
        Some(x) => Json::Num(num_from_i64(x as i64)),
        None => Json::Null,
    };
    pairs.push(("sigid".to_owned(), v_sigid));
    let v_freqid: Json = match m.freqid {
        Some(x) => Json::Num(num_from_i64(x as i64)),
        None => Json::Null,
    };
    pairs.push(("freqid".to_owned(), v_freqid));
    let v_health: Json = match m.health {
        Some(x) => Json::Num(num_from_i64(x as i64)),
        None => Json::Null,
    };
    pairs.push(("health".to_owned(), v_health));
    proof {
        reveal_with_fuel(crate::json::spec_lookup, 12);
        reveal_strlit("PRN");
        reveal_strlit("az");
        reveal_strlit("el");
        reveal_strlit("freqid");
        reveal_strlit("gnssid");
        reveal_strlit("health");
        reveal_strlit("sigid");
        reveal_strlit("ss");
        reveal_strlit("svid");
        reveal_strlit("used");
        assert("PRN"@.len() == 3);
        assert("az"@.len() == 2);
        assert("el"@.len() == 2);
        assert("freqid"@.len() == 6);
        assert("gnssid"@.len() == 6);
        assert("health"@.len() == 6);
        assert("sigid"@.len() == 5);
        assert("ss"@.len() == 2);
        assert("svid"@.len() == 4);
        assert("used"@.len() == 4);
        assert("az"@[0] == 'a');
        assert("el"@[0] == 'e');
        assert("ss"@[0] == 's');
        assert("freqid"@[0] == 'f');
        assert("gnssid"@[0] == 'g');
        assert("health"@[0] == 'h');
        assert("svid"@[0] == 's');
        assert("used"@[0] == 'u');
        assert(spec_lookup(pairs@, "PRN"@) == Some(pairs@[0].1));
        assert(spec_lookup(pairs@, "el"@) == Some(pairs@[1].1));
        assert(spec_lookup(pairs@, "az"@) == Some(pairs@[2].1));
        assert(spec_lookup(pairs@, "ss"@) == Some(pairs@[3].1));
        assert(spec_lookup(pairs@, "used"@) == Some(pairs@[4].1));
        assert(spec_lookup(pairs@, "gnssid"@) == Some(pairs@[5].1));
        assert(spec_lookup(pairs@, "svid"@) == Some(pairs@[6].1));
        assert(spec_lookup(pairs@, "sigid"@) == Some(pairs@[7].1));
        assert(spec_lookup(pairs@, "freqid"@) == Some(pairs@[8].1));
        assert(spec_lookup(pairs@, "health"@) == Some(pairs@[9].1));
    }
    Json::Obj(pairs)
}

/// The first-fault check of an encoded `Satellite` list passes for any field
/// name.
pub proof fn lemma_satellite_items_shape_ok(items: Seq<Json>, key: Seq<char>)
    requires
        forall|i: int| 0 <= i < items.len() ==> #[trigger] items[i] is Obj
            && satellite_shape(items[i]->Obj_0@) == Ok::<(), DecodeFault>(()),
    ensures
        satellite_items_shape(items, key) == Ok::<(), DecodeFault>(()),
    decreases items.len(),
{
    if items.len() > 0 {
        assert(items[0] is Obj);
        assert forall|i: int|
            0 <= i < items.drop_first().len() implies #[trigger] items.drop_first()[i] is Obj
            && satellite_shape(items.drop_first()[i]->Obj_0@) == Ok::<(), DecodeFault>(()) by {
            assert(items.drop_first()[i] == items[i + 1]);
        }
        lemma_satellite_items_shape_ok(items.drop_first(), key);
    }
}

/// Builds the documents of a `Satellite` list; each decodes back to its element.
pub fn encode_satellite_items(items: &Vec<Satellite>) -> (r: Vec<Json>)
    ensures
        forall|key: Seq<char>| #[trigger] satellite_items_shape(r@, key) == Ok::<(), DecodeFault>(()),
        is_satellite_items(r@, items@),
{
    let mut out: Vec<Json> = Vec::new();
    let mut i: usize = 0;
    while i < items.len()
        invariant
            i <= items.len(),
            out@.len() == i,
            forall|k: int| 0 <= k < i ==> #[trigger] out@[k] is Obj
                && satellite_shape(out@[k]->Obj_0@) == Ok::<(), DecodeFault>(())
                && is_satellite_of(out@[k]->Obj_0@, items@[k]),
        decreases items.len() - i,
    {
        out.push(encode_satellite(&items[i]));
        i = i + 1;
    }
    proof {
        assert forall|key: Seq<char>| #[trigger] satellite_items_shape(out@, key) == Ok::<
            (),
            DecodeFault,
        >(()) by {
            lemma_satellite_items_shape_ok(out@, key);
        }
        assert forall|k: int| 0 <= k < items@.len() implies #[trigger] is_satellite_item(
            out@[k],
            items@[k],
        ) by {}
    }
    out
}

/// Where some `sky` fields sit in the document this crate builds.
#[verifier::rlimit(100)]
proof fn lemma_sky_lookups_0(pairs: Seq<(String, Json)>)
    requires
        pairs.len() == 15,
        pairs[0].0@ == "class"@,
        pairs[1].0@ == "device"@,
        pairs[2].0@ == "xdop"@,
        pairs[3].0@ == "ydop"@,
        pairs[4].0@ == "vdop"@,
        pairs[5].0@ == "tdop"@,
        pairs[6].0@ == "hdop"@,
        pairs[7].0@ == "gdop"@,
        pairs[8].0@ == "pdop"@,
        pairs[9].0@ == "satellites"@,
        pairs[10].0@ == "nSat"@,
        pairs[11].0@ == "prRes"@,
        pairs[12].0@ == "qual"@,
    ensures
        spec_lookup(pairs, "class"@) == Some(pairs[0].1),
        spec_lookup(pairs, "device"@) == Some(pairs[1].1),
        spec_lookup(pairs, "xdop"@) == Some(pairs[2].1),
        spec_lookup(pairs, "ydop"@) == Some(pairs[3].1),
        spec_lookup(pairs, "vdop"@) == Some(pairs[4].1),
        spec_lookup(pairs, "tdop"@) == Some(pairs[5].1),
        spec_lookup(pairs, "hdop"@) == Some(pairs[6].1),
        spec_lookup(pairs, "gdop"@) == Some(pairs[7].1),
        spec_lookup(pairs, "pdop"@) == Some(pairs[8].1),
        spec_lookup(pairs, "satellites"@) == Some(pairs[9].1),
        spec_lookup(pairs, "nSat"@) == Some(pairs[10].1),
        spec_lookup(pairs, "prRes"@) == Some(pairs[11].1),
        spec_lookup(pairs, "qual"@) == Some(pairs[12].1),
{
    reveal_with_fuel(crate::json::spec_lookup, 15);
    reveal_strlit("class");
    reveal_strlit("device");
    reveal_strlit("gdop");
    reveal_strlit("hdop");
    reveal_strlit("nSat");
    reveal_strlit("pdop");
    reveal_strlit("prRes");
    reveal_strlit("qual");
    reveal_strlit("satellites");
    reveal_strlit("tdop");
    reveal_strlit("vdop");
    reveal_strlit("xdop");
    reveal_strlit("ydop");
    assert("class"@.len() == 5);
    assert("device"@.len() == 6);
    assert("gdop"@.len() == 4);
    assert("hdop"@.len() == 4);
    assert("nSat"@.len() == 4);
    assert("pdop"@.len() == 4);
    assert("prRes"@.len() == 5);
    assert("qual"@.len() == 4);
    assert("satellites"@.len() == 10);
    assert("tdop"@.len() == 4);
    assert("vdop"@.len() == 4);
    assert("xdop"@.len() == 4);
    assert("ydop"@.len() == 4);
    assert("class"@[0] == 'c');
    assert("prRes"@[0] == 'p');
    assert("gdop"@[0] == 'g');
    assert("hdop"@[0] == 'h');
    assert("nSat"@[0] == 'n');
    assert("pdop"@[0] == 'p');
    assert("qual"@[0] == 'q');
    assert("tdop"@[0] == 't');
    assert("vdop"@[0] == 'v');
    assert("xdop"@[0] == 'x');
    assert("ydop"@[0] == 'y');
}

/// Where some `sky` fields sit in the document this crate builds.
#[verifier::rlimit(100)]
proof fn lemma_sky_lookups_1(pairs: Seq<(String, Json)>)
    requires
        pairs.len() == 15,
        pairs[0].0@ == "class"@,
        pairs[1].0@ == "device"@,
        pairs[2].0@ == "xdop"@,
        pairs[3].0@ == "ydop"@,
        pairs[4].0@ == "vdop"@,
        pairs[5].0@ == "tdop"@,
        pairs[6].0@ == "hdop"@,
        pairs[7].0@ == "gdop"@,
        pairs[8].0@ == "pdop"@,
        pairs[9].0@ == "satellites"@,
        pairs[10].0@ == "nSat"@,
        pairs[11].0@ == "prRes"@,
        pairs[12].0@ == "qual"@,
        pairs[13].0@ == "time"@,
        pairs[14].0@ == "uSat"@,
    ensures
        spec_lookup(pairs, "time"@) == Some(pairs[13].1),
        spec_lookup(pairs, "uSat"@) == Some(pairs[14].1),
{
    reveal_with_fuel(crate::json::spec_lookup, 17);
    reveal_strlit("class");
    reveal_strlit("device");
    reveal_strlit("gdop");
    reveal_strlit("hdop");
    reveal_strlit("nSat");
    reveal_strlit("pdop");
    reveal_strlit("prRes");
    reveal_strlit("qual");
    reveal_strlit("satellites");
    reveal_strlit("tdop");
    reveal_strlit("time");
    reveal_strlit("uSat");
    reveal_strlit("vdop");
    reveal_strlit("xdop");
    reveal_strlit("ydop");
    assert("class"@.len() == 5);
    assert("device"@.len() == 6);
    assert("gdop"@.len() == 4);
    assert("hdop"@.len() == 4);
    assert("nSat"@.len() == 4);
    assert("pdop"@.len() == 4);
    assert("prRes"@.len() == 5);
    assert("qual"@.len() == 4);
    assert("satellites"@.len() == 10);
    assert("tdop"@.len() == 4);
    assert("time"@.len() == 4);
    assert("uSat"@.len() == 4);
    assert("vdop"@.len() == 4);
    assert("xdop"@.len() == 4);
    assert("ydop"@.len() == 4);
    assert("class"@[0] == 'c');
    assert("prRes"@[0] == 'p');
    assert("gdop"@[0] == 'g');
    assert("hdop"@[0] == 'h');
    assert("nSat"@[0] == 'n');
    assert("pdop"@[0] == 'p');
    assert("qual"@[0] == 'q');
    assert("tdop"@[0] == 't');
    assert("time"@[0] == 't');
    assert("uSat"@[0] == 'u');
    assert("vdop"@[0] == 'v');
    assert("xdop"@[0] == 'x');
    assert("ydop"@[0] == 'y');
    assert("tdop"@[1] == 'd');
    assert("time"@[1] == 'i');
}

/// Builds the document of one `Sky`; the document decodes back to exactly
/// the encoded value.
#[verifier::rlimit(100)]
pub fn encode_sky(m: &Sky) -> (j: Json)
    ensures
        j is Obj,
        spec_class(j->Obj_0@) matches Ok(c) && c@ == "SKY"@,
        sky_shape(j->Obj_0@) == Ok::<(), DecodeFault>(()),
        is_sky_of(j->Obj_0@, *m),
{
    let mut pairs: Vec<(String, Json)> = Vec::new();
    pairs.push(("class".to_owned(), Json::Str("SKY".to_owned())));
    let v_device: Json = match &m.device {
        Some(s) => Json::Str(s.clone()),
        None => Json::Null,
    };
    pairs.push(("device".to_owned(), v_device));
    let v_xdop: Json = match &m.xdop {
        Some(s) => Json::Num(num_from_text(s)),
        None => Json::Null,
    };
    pairs.push(("xdop".to_owned(), v_xdop));
    let v_ydop: Json = match &m.ydop {
        Some(s) => Json::Num(num_from_text(s)),
        None => Json::Null,
    };
    pairs.push(("ydop".to_owned(), v_ydop));
    let v_vdop: Json = match &m.vdop {
        Some(s) => Json::Num(num_from_text(s)),
        None => Json::Null,
    };
    pairs.push(("vdop".to_owned(), v_vdop));
    let v_tdop: Json = match &m.tdop {
        Some(s) => Json::Num(num_from_text(s)),
        None => Json::Null,
    };
    pairs.push(("tdop".to_owned(), v_tdop));
    let v_hdop: Json = match &m.hdop {
        Some(s) => Json::Num(num_from_text(s)),
        None => Json::Null,
    };
    pairs.push(("hdop".to_owned(), v_hdop));
    let v_gdop: Json = match &m.gdop {
        Some(s) => Json::Num(num_from_text(s)),
        None => Json::Null,
    };
    pairs.push(("gdop".to_owned(), v_gdop));
    let v_pdop: Json = match &m.pdop {
        Some(s) => Json::Num(num_from_text(s)),
        None => Json::Null,
    };
    pairs.push(("pdop".to_owned(), v_pdop));
    let v_satellites: Json = match &m.satellites {
        Some(v) => Json::Arr(encode_satellite_items(v)),
        None => Json::Null,
    };
    pairs.push(("satellites".to_owned(), v_satellites));
    let v_n_sat: Json = match m.n_sat {
        Some(x) => Json::Num(num_from_i64(x as i64)),
        None => Json::Null,
    };
    pairs.push(("nSat".to_owned(), v_n_sat));
    let v_pr_res: Json = match &m.pr_res {
        Some(s) => Json::Num(num_from_text(s)),
        None => Json::Null,
    };
    pairs.push(("prRes".to_owned(), v_pr_res));
    let v_qual: Json = match m.qual {
        Some(x) => Json::Num(num_from_i64(x as i64)),
        None => Json::Null,
    };
    pairs.push(("qual".to_owned(), v_qual));
    let v_time: Json = match &m.time {
        Some(s) => Json::Str(s.clone()),
        None => Json::Null,
    };
    pairs.push(("time".to_owned(), v_time));
    let v_u_sat: Json = match m.u_sat {
        Some(x) => Json::Num(num_from_i64(x as i64)),
        None => Json::Null,
    };
    pairs.push(("uSat".to_owned(), v_u_sat));
    proof {
        assert(pairs@.len() == 15);
        assert(pairs@[0].0@ == "class"@);
        assert(pairs@[1].0@ == "device"@);
        assert(pairs@[2].0@ == "xdop"@);
        assert(pairs@[3].0@ == "ydop"@);
        assert(pairs@[4].0@ == "vdop"@);
        assert(pairs@[5].0@ == "tdop"@);
        assert(pairs@[6].0@ == "hdop"@);
        assert(pairs@[7].0@ == "gdop"@);
        assert(pairs@[8].0@ == "pdop"@);
        assert(pairs@[9].0@ == "satellites"@);
        assert(pairs@[10].0@ == "nSat"@);
        assert(pairs@[11].0@ == "prRes"@);
        assert(pairs@[12].0@ == "qual"@);
        assert(pairs@[13].0@ == "time"@);
        assert(pairs@[14].0@ == "uSat"@);
        lemma_sky_lookups_0(pairs@);
        lemma_sky_lookups_1(pairs@);
    }
    Json::Obj(pairs)
}

/// Builds the document of one `Pps`; the document decodes back to exactly
/// the encoded value.
pub fn encode_pps(m: &Pps) -> (j: Json)
    ensures
        j is Obj,
        spec_class(j->Obj_0@) matches Ok(c) && c@ == "PPS"@,
        pps_shape(j->Obj_0@) == Ok::<(), DecodeFault>(()),
        is_pps_of(j->Obj_0@, *m),
{
    let mut pairs: Vec<(String, Json)> = Vec::new();
    pairs.push(("class".to_owned(), Json::Str("PPS".to_owned())));
    pairs.push(("device".to_owned(), Json::Str(m.device.clone())));
    pairs.push(("real_sec".to_owned(), Json::Num(num_from_text(&m.real_sec))));
    pairs.push(("real_nsec".to_owned(), Json::Num(num_from_text(&m.real_nsec))));
    pairs.push(("clock_sec".to_owned(), Json::Num(num_from_text(&m.clock_sec))));
    pairs.push(("clock_nsec".to_owned(), Json::Num(num_from_text(&m.clock_nsec))));
    let v_precision: Json = match &m.precision {
        Some(s) => Json::Num(num_from_text(s)),
        None => Json::Null,
    };
    pairs.push(("precision".to_owned(), v_precision));
    let v_shm: Json = match &m.shm {
        Some(s) => Json::Str(s.clone()),
        None => Json::Null,
    };
    pairs.push(("shm".to_owned(), v_shm));
    let v_q_err: Json = match &m.q_err {
        Some(s) => Json::Num(num_from_text(s)),
        None => Json::Null,
    };
    pairs.push(("qErr".to_owned(), v_q_err));
    proof {
        reveal_with_fuel(crate::json::spec_lookup, 11);
        reveal_strlit("class");
        reveal_strlit("clock_nsec");
        reveal_strlit("clock_sec");
        reveal_strlit("device");
        reveal_strlit("precision");
        reveal_strlit("qErr");
        reveal_strlit("real_nsec");
        reveal_strlit("real_sec");
        reveal_strlit("shm");
        assert("class"@.len() == 5);
        assert("clock_nsec"@.len() == 10);
        assert("clock_sec"@.len() == 9);
        assert("device"@.len() == 6);
        assert("precision"@.len() == 9);
        assert("qErr"@.len() == 4);
        assert("real_nsec"@.len() == 9);
        assert("real_sec"@.len() == 8);
        assert("shm"@.len() == 3);
        assert("clock_sec"@[0] == 'c');
        assert("precision"@[0] == 'p');
        assert("real_nsec"@[0] == 'r');
        assert(spec_lookup(pairs@, "class"@) == Some(pairs@[0].1));
        assert(spec_lookup(pairs@, "device"@) == Some(pairs@[1].1));
        assert(spec_lookup(pairs@, "real_sec"@) == Some(pairs@[2].1));
        assert(spec_lookup(pairs@, "real_nsec"@) == Some(pairs@[3].1));
        assert(spec_lookup(pairs@, "clock_sec"@) == Some(pairs@[4].1));
        assert(spec_lookup(pairs@, "clock_nsec"@) == Some(pairs@[5].1));
        assert(spec_lookup(pairs@, "precision"@) == Some(pairs@[6].1));
        assert(spec_lookup(pairs@, "shm"@) == Some(pairs@[7].1));
        assert(spec_lookup(pairs@, "qErr"@) == Some(pairs@[8].1));
    }
    Json::Obj(pairs)
}

/// Builds the document of one `Gst`; the document decodes back to exactly
/// the encoded value.
pub fn encode_gst(m: &Gst) -> (j: Json)
    ensures
        j is Obj,
        spec_class(j->Obj_0@) matches Ok(c) && c@ == "GST"@,
        gst_shape(j->Obj_0@) == Ok::<(), DecodeFault>(()),
        is_gst_of(j->Obj_0@, *m),
{
    let mut pairs: Vec<(String, Json)> = Vec::new();
    pairs.push(("class".to_owned(), Json::Str("GST".to_owned())));
    let v_device: Json = match &m.device {
        Some(s) => Json::Str(s.clone()),
        None => Json::Null,
    };
    pairs.push(("device".to_owned(), v_device));
    let v_time: Json = match &m.time {
        Some(s) => Json::Str(s.clone()),
        None => Json::Null,
    };
    pairs.push(("time".to_owned(), v_time));
    let v_rms: Json = match &m.rms {
        Some(s) => Json::Num(num_from_text(s)),
        None => Json::Null,
    };
    pairs.push(("rms".to_owned(), v_rms));
    let v_major: Json = match &m.major {
        Some(s) => Json::Num(num_from_text(s)),
        None => Json::Null,
    };
    pairs.push(("major".to_owned(), v_major));
    let v_minor: Json = match &m.minor {
        Some(s) => Json::Num(num_from_text(s)),
        None => Json::Null,
    };
    pairs.push(("minor".to_owned(), v_minor));
    let v_orient: Json = match &m.orient {
        Some(s) => Json::Num(num_from_text(s)),
        None => Json::Null,
    };
    pairs.push(("orient".to_owned(), v_orient));
    let v_lat: Json = match &m.lat {
        Some(s) => Json::Num(num_from_text(s)),
        None => Json::Null,
    };
    pairs.push(("lat".to_owned(), v_lat));
    let v_lon: Json = match &m.lon {
        Some(s) => Json::Num(num_from_text(s)),
        None => Json::Null,
    };
    pairs.push(("lon".to_owned(), v_lon));
    let v_alt: Json = match &m.alt {
        Some(s) => Json::Num(num_from_text(s)),
        None => Json::Null,
    };
    pairs.push(("alt".to_owned(), v_alt));
    proof {
        reveal_with_fuel(crate::json::spec_lookup, 12);
        reveal_strlit("alt");
        reveal_strlit("class");
        reveal_strlit("device");
        reveal_strlit("lat");
        reveal_strlit("lon");
        reveal_strlit("major");
        reveal_strlit("minor");
        reveal_strlit("orient");
        reveal_strlit("rms");
        reveal_strlit("time");
        assert("alt"@.len() == 3);
        assert("class"@.len() == 5);
        assert("device"@.len() == 6);
        assert("lat"@.len() == 3);
        assert("lon"@.len() == 3);
        assert("major"@.len() == 5);
        assert("minor"@.len() == 5);
        assert("orient"@.len() == 6);
        assert("rms"@.len() == 3);
        assert("time"@.len() == 4);
        assert("alt"@[0] == 'a');
        assert("lat"@[0] == 'l');
        assert("lon"@[0] == 'l');
        assert("rms"@[0] == 'r');
        assert("class"@[0] == 'c');
        assert("major"@[0] == 'm');
        assert("minor"@[0] == 'm');
        assert("device"@[0] == 'd');
        assert("orient"@[0] == 'o');
        assert("lat"@[1] == 'a');
        assert("lon"@[1] == 'o');
        assert("major"@[1] == 'a');
        assert("minor"@[1] == 'i');
        assert(spec_lookup(pairs@, "class"@) == Some(pairs@[0].1));
        assert(spec_lookup(pairs@, "device"@) == Some(pairs@[1].1));
        assert(spec_lookup(pairs@, "time"@) == Some(pairs@[2].1));
        assert(spec_lookup(pairs@, "rms"@) == Some(pairs@[3].1));
        assert(spec_lookup(pairs@, "major"@) == Some(pairs@[4].1));
        assert(spec_lookup(pairs@, "minor"@) == Some(pairs@[5].1));
        assert(spec_lookup(pairs@, "orient"@) == Some(pairs@[6].1));
        assert(spec_lookup(pairs@, "lat"@) == Some(pairs@[7].1));
        assert(spec_lookup(pairs@, "lon"@) == Some(pairs@[8].1));
        assert(spec_lookup(pairs@, "alt"@) == Some(pairs@[9].1));
    }
    Json::Obj(pairs)
}

/// Builds the document of one `Osc`; the document decodes back to exactly
/// the encoded value.
pub fn encode_osc(m: &Osc) -> (j: Json)
    ensures
        j is Obj,
        spec_class(j->Obj_0@) matches Ok(c) && c@ == "OSC"@,
        osc_shape(j->Obj_0@) == Ok::<(), DecodeFault>(()),
        is_osc_of(j->Obj_0@, *m),
{
    let mut pairs: Vec<(String, Json)> = Vec::new();
    pairs.push(("class".to_owned(), Json::Str("OSC".to_owned())));
    let v_device: Json = match &m.device {
        Some(s) => Json::Str(s.clone()),
        None => Json::Null,
    };
    pairs.push(("device".to_owned(), v_device));
    pairs.push(("running".to_owned(), Json::Bool(m.running)));
    pairs.push(("reference".to_owned(), Json::Bool(m.reference)));
    pairs.push(("disciplined".to_owned(), Json::Bool(m.disciplined)));
    pairs.push(("delta".to_owned(), Json::Num(num_from_i64(m.delta as i64))));
    proof {
        reveal_with_fuel(crate::json::spec_lookup, 8);
        reveal_strlit("class");
        reveal_strlit("delta");
        reveal_strlit("device");
        reveal_strlit("disciplined");
        reveal_strlit("reference");
        reveal_strlit("running");
        assert("class"@.len() == 5);
        assert("delta"@.len() == 5);
        assert("device"@.len() == 6);
        assert("disciplined"@.len() == 11);
        assert("reference"@.len() == 9);
        assert("running"@.len() == 7);
        assert("class"@[0] == 'c');
        assert("delta"@[0] == 'd');
        assert(spec_lookup(pairs@, "class"@) == Some(pairs@[0].1));
        assert(spec_lookup(pairs@, "device"@) == Some(pairs@[1].1));
        assert(spec_lookup(pairs@, "running"@) == Some(pairs@[2].1));
        assert(spec_lookup(pairs@, "reference"@) == Some(pairs@[3].1));
        assert(spec_lookup(pairs@, "disciplined"@) == Some(pairs@[4].1));
        assert(spec_lookup(pairs@, "delta"@) == Some(pairs@[5].1));
    }
    Json::Obj(pairs)
}

/// Builds the document of a handshake message; it decodes back to exactly
/// the encoded value.
pub fn encode_handshake(m: &ResponseHandshake) -> (j: Json)
    ensures
        handshake_doc_fault(j) is None,
        is_handshake_doc_of(j, *m),
{
    proof {
        reveal_strlit("DEVICES");
        reveal_strlit("VERSION");
        reveal_strlit("WATCH");
        assert("DEVICES"@.len() == 7);
        assert("VERSION"@.len() == 7);
        assert("WATCH"@.len() == 5);
        assert("DEVICES"@[0] == 'D');
        assert("VERSION"@[0] == 'V');
    }
    match m {
        ResponseHandshake::Version(v) => encode_version(v),
        ResponseHandshake::Devices(v) => encode_devices(v),
        ResponseHandshake::Watch(v) => encode_watch(v),
    }
}

/// The decoder pins a `Version` completely: two values it accepts for one
/// object are equal.
pub proof fn lemma_version_determined(pairs: Seq<(String, Json)>, a: Version, b: Version)
    requires
        is_version_of(pairs, a),
        is_version_of(pairs, b),
    ensures
        a == b,
{
}

/// The decoder pins a `DeviceInfo` completely: two values it accepts for one
/// object are equal.
pub proof fn lemma_device_info_determined(pairs: Seq<(String, Json)>, a: DeviceInfo, b: DeviceInfo)
    requires
        is_device_info_of(pairs, a),
        is_device_info_of(pairs, b),
    ensures
        a == b,
{
}

/// The decoder pins a `Watch` completely: two values it accepts for one
/// object are equal.
pub proof fn lemma_watch_determined(pairs: Seq<(String, Json)>, a: Watch, b: Watch)
    requires
        is_watch_of(pairs, a),
        is_watch_of(pairs, b),
    ensures
        a == b,
{
}

/// The decoder pins a `Device` completely: two values it accepts for one
/// object are equal.
pub proof fn lemma_device_determined(pairs: Seq<(String, Json)>, a: Device, b: Device)
    requires
        is_device_of(pairs, a),
        is_device_of(pairs, b),
    ensures
        a == b,
{
}

/// The decoder pins a `Satellite` completely: two values it accepts for one
/// object are equal.
pub proof fn lemma_satellite_determined(pairs: Seq<(String, Json)>, a: Satellite, b: Satellite)
    requires
        is_satellite_of(pairs, a),
        is_satellite_of(pairs, b),
    ensures
        a == b,
{
}

/// The decoder pins a `Tpv` completely: two values it accepts for one
/// object are equal.
pub proof fn lemma_tpv_determined(pairs: Seq<(String, Json)>, a: Tpv, b: Tpv)
    requires
        is_tpv_of(pairs, a),
        is_tpv_of(pairs, b),
    ensures
        a == b,
{
}

/// The decoder pins a `Pps` completely: two values it accepts for one
/// object are equal.
pub proof fn lemma_pps_determined(pairs: Seq<(String, Json)>, a: Pps, b: Pps)
    requires
        is_pps_of(pairs, a),
        is_pps_of(pairs, b),
    ensures
        a == b,
{
}

/// The decoder pins a `Gst` completely: two values it accepts for one
/// object are equal.
pub proof fn lemma_gst_determined(pairs: Seq<(String, Json)>, a: Gst, b: Gst)
    requires
        is_gst_of(pairs, a),
        is_gst_of(pairs, b),
    ensures
        a == b,
{
}

/// The decoder pins a `Att` completely: two values it accepts for one
/// object are equal.
pub proof fn lemma_att_determined(pairs: Seq<(String, Json)>, a: Att, b: Att)
    requires
        is_att_of(pairs, a),
        is_att_of(pairs, b),
    ensures
        a == b,
{
}

/// The decoder pins a `Osc` completely: two values it accepts for one
/// object are equal.
pub proof fn lemma_osc_determined(pairs: Seq<(String, Json)>, a: Osc, b: Osc)
    requires
        is_osc_of(pairs, a),
        is_osc_of(pairs, b),
    ensures
        a == b,
{
}

/// The decoder pins a `Devices` completely: two values it accepts for one
/// object hold the same device list.
pub proof fn lemma_devices_determined(pairs: Seq<(String, Json)>, a: Devices, b: Devices)
    requires
        is_devices_of(pairs, a),
        is_devices_of(pairs, b),
    ensures
        a.devices@ == b.devices@,
{
    assert(spec_lookup(pairs, "devices"@) matches Some(Json::Arr(_)));
    let items = spec_lookup(pairs, "devices"@)->Some_0->Arr_0;
    assert(is_device_info_items(items@, a.devices@));
    assert(is_device_info_items(items@, b.devices@));
    assert forall|i: int| 0 <= i < a.devices@.len() implies a.devices@[i] == b.devices@[i] by {
        assert(is_device_info_item(items@[i], a.devices@[i]));
        assert(is_device_info_item(items@[i], b.devices@[i]));
        assert(items@[i] matches Json::Obj(_));
        lemma_device_info_determined(items@[i]->Obj_0@, a.devices@[i], b.devices@[i]);
    }
    assert(a.devices@ =~= b.devices@);
}

/// The decoder pins a `Sky` completely: two values it accepts for one object
/// agree on every field, with the satellite lists equal element for element.
pub proof fn lemma_sky_determined(pairs: Seq<(String, Json)>, a: Sky, b: Sky)
    requires
        is_sky_of(pairs, a),
        is_sky_of(pairs, b),
    ensures
        a.device == b.device,
        a.xdop == b.xdop,
        a.ydop == b.ydop,
        a.vdop == b.vdop,
        a.tdop == b.tdop,
        a.hdop == b.hdop,
        a.gdop == b.gdop,
        a.pdop == b.pdop,
        a.n_sat == b.n_sat,
        a.pr_res == b.pr_res,
        a.qual == b.qual,
        a.time == b.time,
        a.u_sat == b.u_sat,
        a.satellites is Some <==> b.satellites is Some,
        a.satellites is Some ==> a.satellites->0@ == b.satellites->0@,
{
    if a.satellites is Some {
        assert(spec_lookup(pairs, "satellites"@) matches Some(Json::Arr(_)));
        let items = spec_lookup(pairs, "satellites"@)->Some_0->Arr_0;
        let sa = a.satellites->0;
        let sb = b.satellites->0;
        assert(is_satellite_items(items@, sa@));
        assert(is_satellite_items(items@, sb@));
        assert forall|i: int| 0 <= i < sa@.len() implies sa@[i] == sb@[i] by {
            assert(is_satellite_item(items@[i], sa@[i]));
            assert(is_satellite_item(items@[i], sb@[i]));
            assert(items@[i] matches Json::Obj(_));
            lemma_satellite_determined(items@[i]->Obj_0@, sa@[i], sb@[i]);
        }
        assert(sa@ =~= sb@);
    }
}

} // verus!
