//! Per-field readers over a decoded object.
//!
//! Each reader states exactly which JSON shapes it accepts for a field and
//! what it yields for each, mirroring the daemon's schema: optional fields
//! treat an absent key and a JSON `null` alike, integer fields check range,
//! and decimal fields keep the wire value's decimal text. The `activated`
//! reader accepts the historical encodings of "not activated".

use vstd::prelude::*;

use crate::errors::{to_fault, DecodeError, DecodeFault};
use crate::json::{lookup, spec_lookup, Json, JsonNum};

verus! {

/// An optional string field: absent or `null` is `None`; anything but a
/// string is refused.
pub open spec fn spec_opt_string(pairs: Seq<(String, Json)>, key: Seq<char>) -> Result<
    Option<String>,
    DecodeFault,
> {
    match spec_lookup(pairs, key) {
        None => Ok(None),
        Some(Json::Null) => Ok(None),
        Some(Json::Str(s)) => Ok(Some(s)),
        Some(_) => Err(DecodeFault::BadField(key)),
    }
}

pub fn opt_string(pairs: &Vec<(String, Json)>, key: &str) -> (r: Result<Option<String>, DecodeError>)
    ensures
        to_fault(r) == spec_opt_string(pairs@, key@),
{
    match lookup(pairs, key) {
        None => Ok(None),
        Some(Json::Null) => Ok(None),
        Some(Json::Str(s)) => Ok(Some(s.clone())),
        Some(_) => Err(DecodeError::BadField(key.to_owned())),
    }
}

/// A required string field: as [`spec_opt_string`], but an absent key is
/// refused too.
pub open spec fn spec_req_string(pairs: Seq<(String, Json)>, key: Seq<char>) -> Result<
    String,
    DecodeFault,
> {
    match spec_lookup(pairs, key) {
        None => Err(DecodeFault::MissingField(key)),
        Some(Json::Str(s)) => Ok(s),
        Some(_) => Err(DecodeFault::BadField(key)),
    }
}

pub fn req_string(pairs: &Vec<(String, Json)>, key: &str) -> (r: Result<String, DecodeError>)
    ensures
        to_fault(r) == spec_req_string(pairs@, key@),
{
    match lookup(pairs, key) {
        None => Err(DecodeError::MissingField(key.to_owned())),
        Some(Json::Str(s)) => Ok(s.clone()),
        Some(_) => Err(DecodeError::BadField(key.to_owned())),
    }
}

/// An optional numeric field: any JSON number is accepted and kept as its
/// decimal text; absent or `null` is `None`.
pub open spec fn spec_opt_num(pairs: Seq<(String, Json)>, key: Seq<char>) -> Result<
    Option<String>,
    DecodeFault,
> {
    match spec_lookup(pairs, key) {
        None => Ok(None),
        Some(Json::Null) => Ok(None),
        Some(Json::Num(n)) => Ok(Some(n.text)),
        Some(_) => Err(DecodeFault::BadField(key)),
    }
}

pub fn opt_num(pairs: &Vec<(String, Json)>, key: &str) -> (r: Result<Option<String>, DecodeError>)
    ensures
        to_fault(r) == spec_opt_num(pairs@, key@),
{
    match lookup(pairs, key) {
        None => Ok(None),
        Some(Json::Null) => Ok(None),
        Some(Json::Num(n)) => Ok(Some(n.text.clone())),
        Some(_) => Err(DecodeError::BadField(key.to_owned())),
    }
}

/// A required numeric field: as [`spec_opt_num`], but an absent key is
/// refused too.
pub open spec fn spec_req_num(pairs: Seq<(String, Json)>, key: Seq<char>) -> Result<
    String,
    DecodeFault,
> {
    match spec_lookup(pairs, key) {
        None => Err(DecodeFault::MissingField(key)),
        Some(Json::Num(n)) => Ok(n.text),
        Some(_) => Err(DecodeFault::BadField(key)),
    }
}

pub fn req_num(pairs: &Vec<(String, Json)>, key: &str) -> (r: Result<String, DecodeError>)
    ensures
        to_fault(r) == spec_req_num(pairs@, key@),
{
    match lookup(pairs, key) {
        None => Err(DecodeError::MissingField(key.to_owned())),
        Some(Json::Num(n)) => Ok(n.text.clone()),
        Some(_) => Err(DecodeError::BadField(key.to_owned())),
    }
}

/// An optional boolean field.
pub open spec fn spec_opt_bool(pairs: Seq<(String, Json)>, key: Seq<char>) -> Result<
    Option<bool>,
    DecodeFault,
> {
    match spec_lookup(pairs, key) {
        None => Ok(None),
        Some(Json::Null) => Ok(None),
        Some(Json::Bool(b)) => Ok(Some(b)),
        Some(_) => Err(DecodeFault::BadField(key)),
    }
}

pub fn opt_bool(pairs: &Vec<(String, Json)>, key: &str) -> (r: Result<Option<bool>, DecodeError>)
    ensures
        to_fault(r) == spec_opt_bool(pairs@, key@),
{
    match lookup(pairs, key) {
        None => Ok(None),
        Some(Json::Null) => Ok(None),
        Some(Json::Bool(b)) => Ok(Some(*b)),
        Some(_) => Err(DecodeError::BadField(key.to_owned())),
    }
}

/// A required boolean field.
pub open spec fn spec_req_bool(pairs: Seq<(String, Json)>, key: Seq<char>) -> Result<
    bool,
    DecodeFault,
> {
    match spec_lookup(pairs, key) {
        None => Err(DecodeFault::MissingField(key)),
        Some(Json::Bool(b)) => Ok(b),
        Some(_) => Err(DecodeFault::BadField(key)),
    }
}

pub fn req_bool(pairs: &Vec<(String, Json)>, key: &str) -> (r: Result<bool, DecodeError>)
    ensures
        to_fault(r) == spec_req_bool(pairs@, key@),
{
    match lookup(pairs, key) {
        None => Err(DecodeError::MissingField(key.to_owned())),
        Some(Json::Bool(b)) => Ok(*b),
        Some(_) => Err(DecodeError::BadField(key.to_owned())),
    }
}

/// The integer a JSON number carries, when it is an integer that fits in
/// `i64`: every wire integer of this protocol does.
pub open spec fn spec_num_int(n: JsonNum) -> Option<i64> {
    n.int
}

/// An integer field's value within `[lo, hi]`: a non-integer number, or one
/// out of range, is refused.
pub open spec fn spec_int_in(n: JsonNum, lo: i64, hi: i64, key: Seq<char>) -> Result<
    i64,
    DecodeFault,
> {
    match n.int {
        Some(i) => if lo <= i && i <= hi {
            Ok(i)
        } else {
            Err(DecodeFault::BadField(key))
        },
        None => Err(DecodeFault::BadField(key)),
    }
}

fn int_in(n: &JsonNum, lo: i64, hi: i64, key: &str) -> (r: Result<i64, DecodeError>)
    requires
        lo <= hi,
    ensures
        to_fault(r) == spec_int_in(*n, lo, hi, key@),
        r matches Ok(i) ==> lo <= i <= hi,
{
    match n.int {
        Some(i) => if lo <= i && i <= hi {
            Ok(i)
        } else {
            Err(DecodeError::BadField(key.to_owned()))
        },
        None => Err(DecodeError::BadField(key.to_owned())),
    }
}

/// An optional integer field within `[lo, hi]`.
pub open spec fn spec_opt_int(
    pairs: Seq<(String, Json)>,
    key: Seq<char>,
    lo: i64,
    hi: i64,
) -> Result<Option<i64>, DecodeFault> {
    match spec_lookup(pairs, key) {
        None => Ok(None),
        Some(Json::Null) => Ok(None),
        Some(Json::Num(n)) => match spec_int_in(n, lo, hi, key) {
            Ok(i) => Ok(Some(i)),
            Err(f) => Err(f),
        },
        Some(_) => Err(DecodeFault::BadField(key)),
    }
}

pub fn opt_int(pairs: &Vec<(String, Json)>, key: &str, lo: i64, hi: i64) -> (r: Result<
    Option<i64>,
    DecodeError,
>)
    requires
        lo <= hi,
    ensures
        to_fault(r) == spec_opt_int(pairs@, key@, lo, hi),
        r matches Ok(Some(i)) ==> lo <= i <= hi,
{
    match lookup(pairs, key) {
        None => Ok(None),
        Some(Json::Null) => Ok(None),
        Some(Json::Num(n)) => match int_in(n, lo, hi, key) {
            Ok(i) => Ok(Some(i)),
            Err(e) => Err(e),
        },
        Some(_) => Err(DecodeError::BadField(key.to_owned())),
    }
}

/// A required integer field within `[lo, hi]`.
pub open spec fn spec_req_int(
    pairs: Seq<(String, Json)>,
    key: Seq<char>,
    lo: i64,
    hi: i64,
) -> Result<i64, DecodeFault> {
    match spec_lookup(pairs, key) {
        None => Err(DecodeFault::MissingField(key)),
        Some(Json::Num(n)) => spec_int_in(n, lo, hi, key),
        Some(_) => Err(DecodeFault::BadField(key)),
    }
}

pub fn req_int(pairs: &Vec<(String, Json)>, key: &str, lo: i64, hi: i64) -> (r: Result<
    i64,
    DecodeError,
>)
    requires
        lo <= hi,
    ensures
        to_fault(r) == spec_req_int(pairs@, key@, lo, hi),
        r matches Ok(i) ==> lo <= i <= hi,
{
    match lookup(pairs, key) {
        None => Err(DecodeError::MissingField(key.to_owned())),
        Some(Json::Num(n)) => int_in(n, lo, hi, key),
        Some(_) => Err(DecodeError::BadField(key.to_owned())),
    }
}

/// The device-activation timestamp, with the historical encodings: absent or
/// `null` is "not activated"; a string is the ISO 8601 timestamp; the
/// integer `0`, which some daemon versions emit, also means "not activated";
/// any other value — any non-string, non-zero, non-null encoding — is
/// refused.
pub open spec fn spec_option_str_or_zero(pairs: Seq<(String, Json)>, key: Seq<char>) -> Result<
    Option<String>,
    DecodeFault,
> {
    match spec_lookup(pairs, key) {
        None => Ok(None),
        Some(Json::Null) => Ok(None),
        Some(Json::Str(s)) => Ok(Some(s)),
        Some(Json::Num(n)) => if n.int == Some(0i64) {
            Ok(None)
        } else {
            Err(DecodeFault::BadField(key))
        },
        Some(_) => Err(DecodeFault::BadField(key)),
    }
}

pub fn option_str_or_zero(pairs: &Vec<(String, Json)>, key: &str) -> (r: Result<
    Option<String>,
    DecodeError,
>)
    ensures
        to_fault(r) == spec_option_str_or_zero(pairs@, key@),
{
    match lookup(pairs, key) {
        None => Ok(None),
        Some(Json::Null) => Ok(None),
        Some(Json::Str(s)) => Ok(Some(s.clone())),
        Some(Json::Num(n)) => match n.int {
            Some(0i64) => Ok(None),
            _ => Err(DecodeError::BadField(key.to_owned())),
        },
        Some(_) => Err(DecodeError::BadField(key.to_owned())),
    }
}

} // verus!
