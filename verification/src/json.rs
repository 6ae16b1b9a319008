//! The crate's own model of a parsed JSON document.
//!
//! Every line the daemon sends is one JSON object. The raw bytes are parsed
//! by an outside JSON parser behind a trusted boundary; everything after that
//! point works on this plain-value tree, so the schema logic that reads it is
//! verified.

use vstd::prelude::*;

verus! {

/// One JSON number, as the wire carried it.
///
/// The protocol mixes integer fields (protocol versions, satellite ids) with
/// decimal fields (coordinates, error estimates). Integer readings come from
/// `int` / `uint`; decimal fields keep the parser's rendering of the value in
/// `text`, so no precision is lost and no floating point is needed here.
#[derive(Debug, Clone, PartialEq, Eq)]
pub struct JsonNum {
    /// Decimal rendering of the value.
    pub text: String,
    /// The value, when it is an integer that fits in `i64`.
    pub int: Option<i64>,
    /// The value, when it is an integer that fits in `u64`.
    pub uint: Option<u64>,
}

/// One JSON value.
#[derive(Debug, PartialEq, Eq)]
pub enum Json {
    Null,
    Bool(bool),
    Num(JsonNum),
    Str(String),
    Arr(Vec<Json>),
    /// An object, as a key/value list. The parser yields each key once.
    Obj(Vec<(String, Json)>),
}

/// The value of `key` in an object's pair list: the first pair that matches.
pub open spec fn spec_lookup(pairs: Seq<(String, Json)>, key: Seq<char>) -> Option<Json>
    decreases pairs.len(),
{
    if pairs.len() == 0 {
        None
    } else if pairs[0].0@ == key {
        Some(pairs[0].1)
    } else {
        spec_lookup(pairs.drop_first(), key)
    }
}

impl Clone for Json {
    /// A structural copy of the tree. Verified to terminate; callers learn
    /// nothing of the copy's value, as with a derived `Clone`.
    fn clone(&self) -> Self
        decreases self,
    {
        broadcast use vstd::std_specs::vec::group_vec_axioms;

        match self {
            Json::Null => Json::Null,
            Json::Bool(b) => Json::Bool(*b),
            Json::Num(n) => Json::Num(n.clone()),
            Json::Str(s) => Json::Str(s.clone()),
            Json::Arr(items) => {
                let mut out: Vec<Json> = Vec::new();
                let mut i: usize = 0;
                while i < items.len()
                    invariant
                        i <= items.len(),
                        *self == Json::Arr(*items),
                    decreases items.len() - i,
                {
                    proof {
                        let ghost whole = *self;
                        assert(decreases_to!(whole => whole->Arr_0));
                        assert(decreases_to!(*items => items@));
                        assert(decreases_to!(items@ => items@[i as int]));
                        assert(decreases_to!(*self => items@[i as int]));
                    }
                    out.push(items[i].clone());
                    i = i + 1;
                }
                Json::Arr(out)
            },
            Json::Obj(pairs) => {
                let mut out: Vec<(String, Json)> = Vec::new();
                let mut i: usize = 0;
                while i < pairs.len()
                    invariant
                        i <= pairs.len(),
                        *self == Json::Obj(*pairs),
                    decreases pairs.len() - i,
                {
                    proof {
                        let ghost whole = *self;
                        assert(decreases_to!(whole => whole->Obj_0));
                        assert(decreases_to!(*pairs => pairs@));
                        assert(decreases_to!(pairs@ => pairs@[i as int]));
                        assert(decreases_to!(pairs@[i as int] => pairs@[i as int].1));
                        assert(decreases_to!(*self => pairs@[i as int].1));
                    }
                    out.push((pairs[i].0.clone(), pairs[i].1.clone()));
                    i = i + 1;
                }
                Json::Obj(out)
            },
        }
    }
}

/// Relies on `<str as PartialEq>::eq` of std: equal exactly when the two
/// strings hold the same characters.
#[verifier::external_body]
pub fn str_eq(a: &str, b: &str) -> (r: bool)
    ensures
        r == (a@ == b@),
{
    a == b
}

/// Looks `key` up in an object's pair list.
pub fn lookup<'a>(pairs: &'a Vec<(String, Json)>, key: &str) -> (r: Option<&'a Json>)
    ensures
        match r {
            Some(v) => spec_lookup(pairs@, key@) == Some(*v),
            None => spec_lookup(pairs@, key@) is None,
        },
{
    let mut i: usize = 0;
    proof {
        assert(pairs@.skip(0) =~= pairs@);
    }
    while i < pairs.len()
        invariant
            i <= pairs.len(),
            spec_lookup(pairs@, key@) == spec_lookup(pairs@.skip(i as int), key@),
        decreases pairs.len() - i,
    {
        proof {
            assert(pairs@.skip(i as int)[0] == pairs@[i as int]);
        }
        if str_eq(pairs[i].0.as_str(), key) {
            return Some(&pairs[i].1);
        }
        proof {
            assert(pairs@.skip(i as int).drop_first() =~= pairs@.skip(i + 1));
        }
        i = i + 1;
    }
    None
}

} // verus!
