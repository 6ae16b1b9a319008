//! Errors of the protocol client.

use vstd::prelude::*;
use vstd::string::StringExecFns;

verus! {

/// `std::io::Error` carried by [`GpsdError::IoError`]; opaque to the
/// verifier.
#[verifier::external_type_specification]
#[verifier::external_body]
pub struct ExIoError(std::io::Error);

/// Relies on `std::io::Error`'s `Display`: the error's diagnostic text.
/// Nothing is promised of it; the text depends on the operating system.
#[verifier::external_body]
fn io_error_text(e: &std::io::Error) -> (r: String) {
    e.to_string()
}

/// Why one line failed to decode.
///
/// The line was either not valid JSON at all, or valid JSON that does not
/// match the schema selected by its `class` discriminator. Each variant
/// carries the diagnostic a caller needs to log the failure: the parser's
/// message, the offending discriminator, or the offending field name.
#[derive(Debug, Clone, PartialEq, Eq)]
pub enum DecodeError {
    /// The bytes are not one valid JSON document: the parser's diagnostic.
    Syntax(String),
    /// The document is valid JSON but not an object.
    NotObject,
    /// The `class` discriminator is absent or not a string.
    MissingClass,
    /// The discriminator names no schema of the active union.
    UnknownClass(String),
    /// A field the schema requires is absent.
    MissingField(String),
    /// A field's value has a shape the schema refuses.
    BadField(String),
}

/// The spec-level image of a [`DecodeError`]: the same variants with text as
/// character sequences, so contracts can pin a failure exactly.
pub enum DecodeFault {
    Syntax,
    NotObject,
    MissingClass,
    UnknownClass(Seq<char>),
    MissingField(Seq<char>),
    BadField(Seq<char>),
}

/// The image of an executable decode error.
///
/// A syntax failure's diagnostic text is the parser's own and is not pinned.
pub open spec fn fault_of(e: DecodeError) -> DecodeFault {
    match e {
        DecodeError::Syntax(_) => DecodeFault::Syntax,
        DecodeError::NotObject => DecodeFault::NotObject,
        DecodeError::MissingClass => DecodeFault::MissingClass,
        DecodeError::UnknownClass(s) => DecodeFault::UnknownClass(s@),
        DecodeError::MissingField(s) => DecodeFault::MissingField(s@),
        DecodeError::BadField(s) => DecodeFault::BadField(s@),
    }
}

/// The display text of a decode failure.
pub open spec fn spec_decode_error_text(e: DecodeError) -> Seq<char> {
    match e {
        DecodeError::Syntax(s) => "invalid JSON: "@ + s@,
        DecodeError::NotObject => "not a JSON object"@,
        DecodeError::MissingClass => "missing class discriminator"@,
        DecodeError::UnknownClass(s) => "unknown class: "@ + s@,
        DecodeError::MissingField(s) => "missing field "@ + s@,
        DecodeError::BadField(s) => "invalid value for field "@ + s@,
    }
}

impl DecodeError {
    /// This failure as display text.
    pub fn describe(&self) -> (r: String)
        ensures
            r@ == spec_decode_error_text(*self),
    {
        match self {
            DecodeError::Syntax(s) => "invalid JSON: ".to_owned().concat(s.as_str()),
            DecodeError::NotObject => "not a JSON object".to_owned(),
            DecodeError::MissingClass => "missing class discriminator".to_owned(),
            DecodeError::UnknownClass(s) => "unknown class: ".to_owned().concat(s.as_str()),
            DecodeError::MissingField(s) => "missing field ".to_owned().concat(s.as_str()),
            DecodeError::BadField(s) => "invalid value for field ".to_owned().concat(s.as_str()),
        }
    }
}

/// The spec-level image of an executable decode result: the value as it is,
/// the error as its [`DecodeFault`] image.
pub open spec fn to_fault<T>(r: Result<T, DecodeError>) -> Result<T, DecodeFault> {
    match r {
        Ok(v) => Ok(v),
        Err(e) => Err(fault_of(e)),
    }
}

/// Errors during handshake or data acquisition.
#[derive(Debug)]
pub enum GpsdError {
    /// Generic I/O error on the underlying byte stream.
    IoError(std::io::Error),
    /// A line failed to decode.
    JsonError(DecodeError),
    /// The protocol major version reported by the daemon is below
    /// [`crate::PROTO_MAJOR_MIN`].
    UnsupportedGpsdProtocolVersion,
    /// A handshake step received a valid message of the wrong kind for that
    /// step; carries the raw line.
    UnexpectedGpsdReply(String),
    /// The daemon's watch acknowledgment refused the negotiated mode; carries
    /// the raw line.
    WatchFail(String),
}

/// The display text of a protocol error: the error's name and its detail.
/// For an I/O failure this is only the prefix: the carried error's own text
/// follows it, and that text cannot be pinned here — it depends on the
/// operating system.
pub open spec fn spec_gpsd_error_text(e: GpsdError) -> Seq<char> {
    match e {
        GpsdError::IoError(_) => "IoError: "@,
        GpsdError::JsonError(d) => "JsonError: "@ + spec_decode_error_text(d),
        GpsdError::UnsupportedGpsdProtocolVersion => "UnsupportedGpsdProtocolVersion"@,
        GpsdError::UnexpectedGpsdReply(s) => "UnexpectedGpsdReply: "@ + s@,
        GpsdError::WatchFail(s) => "WatchFail: "@ + s@,
    }
}

impl GpsdError {
    /// This error as display text: exact for every variant but the I/O one,
    /// whose own diagnostic follows the stated prefix.
    pub fn describe(&self) -> (r: String)
        ensures
            !(*self is IoError) ==> r@ == spec_gpsd_error_text(*self),
            *self is IoError ==> spec_gpsd_error_text(*self).is_prefix_of(r@),
    {
        match self {
            GpsdError::IoError(e) => {
                let r = "IoError: ".to_owned().concat(io_error_text(e).as_str());
                proof {
                    assert(r@.subrange(0, "IoError: "@.len() as int) =~= "IoError: "@);
                }
                r
            },
            GpsdError::JsonError(d) => "JsonError: ".to_owned().concat(d.describe().as_str()),
            GpsdError::UnsupportedGpsdProtocolVersion => {
                "UnsupportedGpsdProtocolVersion".to_owned()
            },
            GpsdError::UnexpectedGpsdReply(s) => "UnexpectedGpsdReply: ".to_owned().concat(
                s.as_str(),
            ),
            GpsdError::WatchFail(s) => "WatchFail: ".to_owned().concat(s.as_str()),
        }
    }
}

impl From<std::io::Error> for GpsdError {
    /// An I/O failure on the byte stream, as the protocol error that carries
    /// it.
    fn from(e: std::io::Error) -> (r: GpsdError) {
        GpsdError::IoError(e)
    }
}

impl vstd::std_specs::convert::FromSpecImpl<std::io::Error> for GpsdError {
    open spec fn obeys_from_spec() -> bool {
        true
    }

    open spec fn from_spec(e: std::io::Error) -> GpsdError {
        GpsdError::IoError(e)
    }
}

} // verus!
