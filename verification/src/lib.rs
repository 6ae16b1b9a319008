//! Client-side implementation of the `gpsd` line-delimited JSON protocol.
//!
//! The daemon streams positioning data (time, position, velocity, satellite
//! visibility, pulse-per-second timing) as UTF-8 lines, each holding one JSON
//! object tagged by a `class` field. This crate covers the handshake that
//! negotiates protocol compatibility, the decoder that classifies each line
//! into a typed message, and the lenient per-field coercions needed because
//! the daemon's wire encoding of some fields changed across versions.

use vstd::prelude::*;

pub mod client;
pub mod decode;
pub mod encode;
pub mod errors;
pub mod fields;
pub mod handshake;
pub mod json;
pub mod messages;
pub mod wire;

pub use client::{get_data, handshake};
pub use errors::{DecodeError, GpsdError};
pub use json::{Json, JsonNum};
pub use messages::{
    Att, Device, DeviceInfo, Devices, Gst, Mode, Osc, Poll, Pps, ResponseData, ResponseHandshake,
    Satellite, Sky, Tpv, UnifiedResponse, Version, Watch,
};

verus! {

/// Minimum supported protocol major version of `gpsd`.
pub const PROTO_MAJOR_MIN: u8 = 3;

/// Command to enable watch, as it is put on the wire.
pub const ENABLE_WATCH_CMD: &'static str = "?WATCH={\"enable\":true,\"json\":true};\r\n";

} // verus!
