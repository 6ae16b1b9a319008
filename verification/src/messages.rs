//! The typed messages of the protocol.
//!
//! Each message is an immutable snapshot parsed from exactly one JSON line;
//! fields are independently optional unless noted. Decimal-valued fields
//! (coordinates, error estimates, timing offsets) hold the wire value's
//! decimal text, exactly as the parser rendered it.

use vstd::prelude::*;

use crate::json::Json;

verus! {

/// The daemon ships a VERSION response to each client when the client first
/// connects.
#[derive(Debug, Clone, PartialEq, Eq)]
pub struct Version {
    /// Public release level.
    pub release: String,
    /// Internal revision-control level.
    pub rev: String,
    /// API major revision level.
    pub proto_major: u8,
    /// API minor revision level.
    pub proto_minor: u8,
    /// URL of the remote daemon reporting this version. If empty, this is
    /// the version of the local daemon.
    pub remote: Option<String>,
}

/// Single device information as reported by the daemon.
#[derive(Debug, Clone, PartialEq, Eq)]
pub struct DeviceInfo {
    /// Name of the device for which the control bits are being reported.
    pub path: Option<String>,
    /// Time the device was activated as an ISO 8601 timestamp, absent when
    /// the device is inactive. Some older daemon versions give the integer
    /// `0` here instead, which decodes to `None`.
    pub activated: Option<String>,
}

/// Device enumeration.
#[derive(Debug, Clone, PartialEq, Eq)]
pub struct Devices {
    /// List of devices.
    pub devices: Vec<DeviceInfo>,
}

/// Watch response: a report of per-subscriber policy.
#[derive(Debug, Clone, PartialEq, Eq)]
pub struct Watch {
    /// Enable (true) or disable (false) watcher mode.
    pub enable: Option<bool>,
    /// Enable (true) or disable (false) dumping of JSON reports.
    pub json: Option<bool>,
    /// Enable (true) or disable (false) dumping of binary packets as
    /// pseudo-NMEA.
    pub nmea: Option<bool>,
    /// Raw mode: `1` reports the unprocessed data stream, `2` the received
    /// data verbatim.
    pub raw: Option<u8>,
    /// If true, apply scaling divisors to output before dumping.
    pub scaled: Option<bool>,
    /// Undocumented.
    pub timing: Option<bool>,
    /// If true, aggregate AIS type24 sentence parts.
    pub split24: Option<bool>,
    /// If true, emit the TOFF message on each cycle and a PPS message when
    /// the device issues one.
    pub pps: Option<bool>,
    /// If present, watch only the named device.
    pub device: Option<String>,
}

/// Device information.
#[derive(Debug, Clone, PartialEq, Eq)]
pub struct Device {
    /// Name of the device for which the control bits are being reported.
    pub path: Option<String>,
    /// Time the device was activated as an ISO 8601 timestamp, absent when
    /// the device is inactive; the historical integer `0` decodes to `None`.
    pub activated: Option<String>,
    /// Bit vector of property flags: packet types seen so far.
    pub flags: Option<i32>,
    /// The daemon's name for the device driver type.
    pub driver: Option<String>,
    /// Whatever version information the device returned.
    pub subtype: Option<String>,
    /// Device speed in bits per second.
    pub bps: Option<u16>,
    /// N, O or E for no parity, odd, or even.
    pub parity: Option<String>,
    /// Stop bits (1 or 2).
    pub stopbits: Option<u8>,
    /// 0 means NMEA mode and 1 means alternate mode.
    pub native: Option<u8>,
    /// Device cycle time in seconds, as decimal text.
    pub cycle: Option<String>,
    /// Device minimum cycle time in seconds, as decimal text; reported when
    /// and only when the rate is switchable.
    pub mincycle: Option<String>,
}

/// Type of GPS fix.
#[derive(Debug, Copy, Clone, PartialEq, Eq)]
pub enum Mode {
    /// No fix at all.
    NoFix,
    /// Two dimensional fix, 2D.
    Fix2d,
    /// Three dimensional fix, 3D (i.e. with altitude).
    Fix3d,
}

/// The display label of a fix mode.
pub open spec fn spec_mode_label(m: Mode) -> Seq<char> {
    match m {
        Mode::NoFix => "NoFix"@,
        Mode::Fix2d => "2d"@,
        Mode::Fix3d => "3d"@,
    }
}

/// The fix mode a wire code selects: `2` and `3` name a fix, every other
/// code means no fix; no code is refused.
pub open spec fn spec_mode_from_code(code: u8) -> Mode {
    if code == 2 {
        Mode::Fix2d
    } else if code == 3 {
        Mode::Fix3d
    } else {
        Mode::NoFix
    }
}

/// The wire code this crate writes for a fix mode. Decoding maps it back to
/// the same mode: `1` is among the codes that mean no fix.
pub open spec fn spec_mode_code(m: Mode) -> u8 {
    match m {
        Mode::NoFix => 1,
        Mode::Fix2d => 2,
        Mode::Fix3d => 3,
    }
}

impl Mode {
    /// The wire code written for this mode.
    pub fn code(&self) -> (r: u8)
        ensures
            r == spec_mode_code(*self),
    {
        match self {
            Mode::NoFix => 1,
            Mode::Fix2d => 2,
            Mode::Fix3d => 3,
        }
    }

    /// The display label of this mode.
    pub fn label(&self) -> (r: String)
        ensures
            r@ == spec_mode_label(*self),
    {
        match self {
            Mode::NoFix => "NoFix".to_owned(),
            Mode::Fix2d => "2d".to_owned(),
            Mode::Fix3d => "3d".to_owned(),
        }
    }

    /// The mode a wire code selects.
    pub fn from_code(code: u8) -> (r: Mode)
        ensures
            r == spec_mode_from_code(code),
    {
        match code {
            2 => Mode::Fix2d,
            3 => Mode::Fix3d,
            _ => Mode::NoFix,
        }
    }
}

/// GPS position: a time-position-velocity report.
#[derive(Debug, Clone, PartialEq, Eq)]
pub struct Tpv {
    /// Name of the originating device.
    pub device: Option<String>,
    /// GPS fix status.
    pub status: Option<i32>,
    /// NMEA mode.
    pub mode: Mode,
    /// Time/date stamp in ISO 8601 format, UTC.
    pub time: Option<String>,
    /// Estimated timestamp error in seconds, as decimal text.
    pub ept: Option<String>,
    /// Leap seconds.
    pub leapseconds: Option<i32>,
    /// MSL altitude in meters, as decimal text.
    pub alt_msl: Option<String>,
    /// Altitude height above the ellipsoid in meters, as decimal text.
    pub alt_hae: Option<String>,
    /// Geoid separation between the device's geoid and WGS84 in meters, as
    /// decimal text.
    pub geoid_sep: Option<String>,
    /// Latitude in degrees (positive is North), as decimal text.
    pub lat: Option<String>,
    /// Longitude in degrees (positive is East), as decimal text.
    pub lon: Option<String>,
    /// Altitude in meters, as decimal text.
    pub alt: Option<String>,
    /// Longitude error estimate in meters, as decimal text.
    pub epx: Option<String>,
    /// Latitude error estimate in meters, as decimal text.
    pub epy: Option<String>,
    /// Estimated vertical error in meters, as decimal text.
    pub epv: Option<String>,
    /// Course over ground, degrees from true north, as decimal text.
    pub track: Option<String>,
    /// Speed over ground in meters per second, as decimal text.
    pub speed: Option<String>,
    /// Climb or sink rate in meters per second, as decimal text.
    pub climb: Option<String>,
    /// Direction error estimate in degrees, as decimal text.
    pub epd: Option<String>,
    /// Speed error estimate in meters per second, as decimal text.
    pub eps: Option<String>,
    /// Climb/sink error estimate in meters per second, as decimal text.
    pub epc: Option<String>,
    /// Horizontal 2D position error in meters, as decimal text.
    pub eph: Option<String>,
    /// Current datum.
    pub datum: Option<String>,
    /// Depth in meters, as decimal text.
    pub depth: Option<String>,
    /// Age of DGPS data in seconds, as decimal text.
    pub dgps_age: Option<String>,
    /// ID of the DGPS station.
    pub dgps_sta: Option<i32>,
    /// Course over ground, degrees magnetic, as decimal text.
    pub magtrack: Option<String>,
    /// Magnetic variation in degrees, as decimal text.
    pub magvar: Option<String>,
    /// ECEF X position in meters, as decimal text.
    pub ecefx: Option<String>,
    /// ECEF Y position in meters, as decimal text.
    pub ecefy: Option<String>,
    /// ECEF Z position in meters, as decimal text.
    pub ecefz: Option<String>,
    /// ECEF position error in meters, as decimal text.
    pub ecef_p_acc: Option<String>,
    /// ECEF X velocity in meters per second, as decimal text.
    pub ecefvx: Option<String>,
    /// ECEF Y velocity in meters per second, as decimal text.
    pub ecefvy: Option<String>,
    /// ECEF Z velocity in meters per second, as decimal text.
    pub ecefvz: Option<String>,
    /// ECEF velocity error in meters per second, as decimal text.
    pub ecef_v_acc: Option<String>,
    /// Estimated spherical (3D) position error in meters, as decimal text.
    pub sep: Option<String>,
    /// Down component of the relative position vector in meters, as decimal
    /// text.
    pub rel_d: Option<String>,
    /// East component of the relative position vector in meters, as decimal
    /// text.
    pub rel_e: Option<String>,
    /// North component of the relative position vector in meters, as decimal
    /// text.
    pub rel_n: Option<String>,
    /// Down velocity component in meters per second, as decimal text.
    pub vel_d: Option<String>,
    /// East velocity component in meters per second, as decimal text.
    pub vel_e: Option<String>,
    /// North velocity component in meters per second, as decimal text.
    pub vel_n: Option<String>,
    /// Wind angle magnetic in degrees, as decimal text.
    pub wanglem: Option<String>,
    /// Wind angle relative in degrees, as decimal text.
    pub wangler: Option<String>,
    /// Wind angle true in degrees, as decimal text.
    pub wanglet: Option<String>,
    /// Wind speed relative in meters per second, as decimal text.
    pub wspeedr: Option<String>,
    /// Wind speed true in meters per second, as decimal text.
    pub wspeedt: Option<String>,
    /// Water temperature in degrees Celsius, as decimal text.
    pub wtemp: Option<String>,
}

/// Detailed satellite information: one row of a sky view.
#[derive(Debug, Clone, PartialEq, Eq)]
pub struct Satellite {
    /// PRN ID of the satellite; numbering schemes vary, so it is signed.
    pub prn: i16,
    /// Elevation in degrees, as decimal text.
    pub el: Option<String>,
    /// Azimuth, degrees from true north, as decimal text.
    pub az: Option<String>,
    /// Signal strength in dB, as decimal text.
    pub ss: Option<String>,
    /// Used in the current solution?
    pub used: bool,
    /// The GNSS ID.
    pub gnssid: Option<u8>,
    /// The satellite ID within its constellation.
    pub svid: Option<u16>,
    /// The signal ID of this signal.
    pub sigid: Option<u16>,
    /// For GLONASS satellites only: the frequency ID of the signal.
    pub freqid: Option<u16>,
    /// The health of this satellite: 0 unknown, 1 OK, 2 unhealthy.
    pub health: Option<u8>,
}

/// Satellites information: a sky view of satellite positions and dilution of
/// precision factors.
#[derive(Debug, Clone, PartialEq, Eq)]
pub struct Sky {
    /// Name of the originating device.
    pub device: Option<String>,
    /// Longitudinal dilution of precision, as decimal text.
    pub xdop: Option<String>,
    /// Latitudinal dilution of precision, as decimal text.
    pub ydop: Option<String>,
    /// Altitude dilution of precision, as decimal text.
    pub vdop: Option<String>,
    /// Time dilution of precision, as decimal text.
    pub tdop: Option<String>,
    /// Horizontal dilution of precision, as decimal text.
    pub hdop: Option<String>,
    /// Hyperspherical dilution of precision, as decimal text.
    pub gdop: Option<String>,
    /// Spherical dilution of precision, as decimal text.
    pub pdop: Option<String>,
    /// List of satellite objects in the sky view.
    pub satellites: Option<Vec<Satellite>>,
    /// Number of satellites in the list.
    pub n_sat: Option<u32>,
    /// Pseudorange residue in meters, as decimal text.
    pub pr_res: Option<String>,
    /// Quality indicator.
    pub qual: Option<u8>,
    /// Time/date stamp in ISO 8601 format, UTC.
    pub time: Option<String>,
    /// Number of satellites used in the navigation solution.
    pub u_sat: Option<u32>,
}

/// Pulse-per-second timing report, emitted each time the daemon sees a valid
/// PPS strobe from a device.
#[derive(Debug, Clone, PartialEq, Eq)]
pub struct Pps {
    /// Name of the originating device.
    pub device: String,
    /// Seconds from the PPS source, as decimal text.
    pub real_sec: String,
    /// Nanoseconds from the PPS source, as decimal text.
    pub real_nsec: String,
    /// Seconds from the system clock, as decimal text.
    pub clock_sec: String,
    /// Nanoseconds from the system clock, as decimal text.
    pub clock_nsec: String,
    /// NTP-style estimate of PPS precision, as decimal text.
    pub precision: Option<String>,
    /// Shared-memory key of this PPS.
    pub shm: Option<String>,
    /// Quantization ("sawtooth") error of the PPS in picoseconds, as decimal
    /// text.
    pub q_err: Option<String>,
}

/// Pseudorange noise report.
#[derive(Debug, Clone, PartialEq, Eq)]
pub struct Gst {
    /// Name of the originating device.
    pub device: Option<String>,
    /// Time/date stamp in ISO 8601 format, UTC.
    pub time: Option<String>,
    /// Standard deviation of the range inputs to the navigation process, as
    /// decimal text.
    pub rms: Option<String>,
    /// Standard deviation of the error ellipse's semi-major axis in meters,
    /// as decimal text.
    pub major: Option<String>,
    /// Standard deviation of the error ellipse's semi-minor axis in meters,
    /// as decimal text.
    pub minor: Option<String>,
    /// Orientation of the error ellipse's semi-major axis, degrees from true
    /// north, as decimal text.
    pub orient: Option<String>,
    /// Standard deviation of the latitude error in meters, as decimal text.
    pub lat: Option<String>,
    /// Standard deviation of the longitude error in meters, as decimal text.
    pub lon: Option<String>,
    /// Standard deviation of the altitude error in meters, as decimal text.
    pub alt: Option<String>,
}

/// Vehicle-attitude report from digital-compass and gyroscope sensors.
#[derive(Debug, Clone, PartialEq, Eq)]
pub struct Att {
    /// Name of the originating device.
    pub device: Option<String>,
    /// Time/date stamp in ISO 8601 format, UTC.
    pub time: Option<String>,
    /// Arbitrary time tag of the measurement.
    pub time_tag: Option<String>,
    /// Heading, degrees from true north, as decimal text.
    pub heading: Option<String>,
    /// Magnetometer status.
    pub mag_st: Option<String>,
    /// Heading, degrees from magnetic north, as decimal text.
    pub mheading: Option<String>,
    /// Pitch in degrees, as decimal text.
    pub pitch: Option<String>,
    /// Pitch sensor status.
    pub pitch_st: Option<String>,
    /// Rate of turn in degrees per minute, as decimal text.
    pub rot: Option<String>,
    /// Yaw in degrees, as decimal text.
    pub yaw: Option<String>,
    /// Yaw sensor status.
    pub yaw_st: Option<String>,
    /// Roll in degrees, as decimal text.
    pub roll: Option<String>,
    /// Roll sensor status.
    pub roll_st: Option<String>,
    /// Local magnetic inclination in degrees, as decimal text.
    pub dip: Option<String>,
    /// Scalar magnetic field strength, as decimal text.
    pub mag_len: Option<String>,
    /// X component of magnetic field strength, as decimal text.
    pub mag_x: Option<String>,
    /// Y component of magnetic field strength, as decimal text.
    pub mag_y: Option<String>,
    /// Z component of magnetic field strength, as decimal text.
    pub mag_z: Option<String>,
    /// Scalar acceleration, as decimal text.
    pub acc_len: Option<String>,
    /// X component of acceleration, as decimal text.
    pub acc_x: Option<String>,
    /// Y component of acceleration, as decimal text.
    pub acc_y: Option<String>,
    /// Z component of acceleration, as decimal text.
    pub acc_z: Option<String>,
    /// X component of angular rate, as decimal text.
    pub gyro_x: Option<String>,
    /// Y component of angular rate, as decimal text.
    pub gyro_y: Option<String>,
    /// Z component of angular rate, as decimal text.
    pub gyro_z: Option<String>,
    /// Water depth in meters, as decimal text.
    pub depth: Option<String>,
    /// Temperature at the sensor in degrees centigrade, as decimal text.
    pub temp: Option<String>,
}

/// Status of a GPS-disciplined oscillator.
#[derive(Debug, Clone, PartialEq, Eq)]
pub struct Osc {
    /// Name of the originating device.
    pub device: Option<String>,
    /// If true, the oscillator is currently running.
    pub running: bool,
    /// If true, the oscillator is receiving a GPS PPS signal.
    pub reference: bool,
    /// If true, the GPS PPS signal is sufficiently stable and disciplines
    /// the local oscillator.
    pub disciplined: bool,
    /// Time difference in nanoseconds between the oscillator's PPS output
    /// pulse and the most recent GPS PPS input pulse.
    pub delta: u32,
}

/// Cached data from the last-seen fixes on all active devices, requested by
/// the POLL command.
#[derive(Debug, Clone, PartialEq, Eq)]
pub struct Poll {
    /// Timestamp in ISO 8601 format, UTC.
    pub time: Option<String>,
    /// Count of active devices.
    pub active: u32,
    /// Cached time-position-velocity reports.
    pub tpv: Vec<Tpv>,
    /// Cached sky views.
    pub sky: Vec<Sky>,
}

/// Responses of the daemon during the handshake.
#[derive(Debug, Clone, PartialEq, Eq)]
pub enum ResponseHandshake {
    Version(Version),
    Devices(Devices),
    Watch(Watch),
}

/// Responses of the daemon after the handshake (the payload).
#[derive(Debug, Clone, PartialEq, Eq)]
pub enum ResponseData {
    Device(Device),
    Tpv(Tpv),
    Sky(Sky),
    Pps(Pps),
    Gst(Gst),
    Att(Att),
    /// Same fields as ATT, but asynchronous to the GNSS epoch and reported
    /// as soon as possible.
    Imu(Att),
    /// Offset between the host's clock time and the GPS time at the top of
    /// the second; mirrors the PPS message.
    Toff(Pps),
    Osc(Osc),
    Poll(Poll),
}

/// All known responses of the daemon (handshake and normal operation), plus
/// an open fallback so that message classes this crate does not model pass
/// through instead of failing.
#[derive(Debug, Clone, PartialEq, Eq)]
pub enum UnifiedResponse {
    Version(Version),
    Devices(Devices),
    Watch(Watch),
    Device(Device),
    Tpv(Tpv),
    Sky(Sky),
    Pps(Pps),
    Gst(Gst),
    Att(Att),
    /// Same fields as ATT, but asynchronous to the GNSS epoch and reported
    /// as soon as possible.
    Imu(Att),
    /// Offset between the host's clock time and the GPS time at the top of
    /// the second; mirrors the PPS message.
    Toff(Pps),
    Osc(Osc),
    Poll(Poll),
    /// A message of a class this crate does not model, captured verbatim.
    Subframe(Json),
}

} // verus!
