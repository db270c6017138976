//! Reading JSON text into a `Raw` value. The text is parsed by `serde_json`;
//! what this module states of that crate is believed, not proved.

use vstd::prelude::*;
use crate::raw::{Json, Number, Raw};

verus! {

/// `serde_json::Value`, carried through as an opaque value.
#[verifier::external_type_specification]
#[verifier::external_body]
pub struct ExJsonValue(serde_json::Value);

/// `serde_json::Error`, carried through as an opaque value.
#[verifier::external_type_specification]
#[verifier::external_body]
pub struct ExJsonError(serde_json::Error);

/// What a `serde_json::Value` holds, as a tree of plain values: null, a
/// flag, a number as `serde_json` stores it, a text, the items of an array,
/// or the members of an object in the order in which its map hands them out.
pub uninterp spec fn tree(v: serde_json::Value) -> Json;

/// The tree that `serde_json::from_str` reads from a text; `None` where it
/// rejects the text.
pub uninterp spec fn parsed(text: Seq<char>) -> Option<Json>;

/// The trees of a sequence of parsed values, item by item.
pub open spec fn trees(items: Seq<serde_json::Value>) -> Seq<Json> {
    Seq::new(items.len(), |i: int| tree(items[i]))
}

/// `serde_json::from_str` at `serde_json::Value`: parsing depends on the text
/// alone, and the value handed back holds the tree read from it.
#[verifier::external_body]
fn parse_value(text: &str) -> (r: Result<serde_json::Value, serde_json::Error>)
    ensures
        match r {
            Ok(v) => parsed(text@) == Some(tree(v)),
            Err(_) => parsed(text@) is None,
        },
{
    serde_json::from_str::<serde_json::Value>(text)
}

/// `Value::as_bool` hands out the flag of a boolean and `None` for anything else.
pub assume_specification[ serde_json::Value::as_bool ](v: &serde_json::Value) -> (r: Option<bool>)
    ensures
        r == match tree(*v) {
            Json::Bool(b) => Some(b),
            _ => None::<bool>,
        },
;

/// `Value::as_u64` hands out a non-negative integer and `None` for anything else.
pub assume_specification[ serde_json::Value::as_u64 ](v: &serde_json::Value) -> (r: Option<u64>)
    ensures
        r == match tree(*v) {
            Json::Number(Number::PosInt(u)) => Some(u),
            _ => None::<u64>,
        },
;

/// `Value::as_i64` hands out an integer that fits in 64 signed bits and `None`
/// for anything else.
pub assume_specification[ serde_json::Value::as_i64 ](v: &serde_json::Value) -> (r: Option<i64>)
    ensures
        r == match tree(*v) {
            Json::Number(Number::PosInt(u)) => if u <= i64::MAX {
                Some(u as i64)
            } else {
                None::<i64>
            },
            Json::Number(Number::NegInt(i)) => Some(i),
            _ => None::<i64>,
        },
;

/// `Value::as_f64`, the double handed out as its bit pattern: some double for
/// every number, and for one stored as a double exactly that one.
#[verifier::external_body]
fn float_bits(v: &serde_json::Value) -> (r: Option<u64>)
    ensures
        r is Some <==> tree(*v) is Number,
        tree(*v) matches Json::Number(Number::Float(bits)) ==> r == Some(bits),
{
    v.as_f64().map(|x| x.to_bits())
}

/// `Value::as_str` hands out the text of a string and `None` for anything else.
pub assume_specification<'a>[ serde_json::Value::as_str ](v: &'a serde_json::Value) -> (r: Option<
    &'a str,
>)
    ensures
        match r {
            Some(s) => tree(*v) == Json::String(s@),
            None => !(tree(*v) is String),
        },
;

/// `Value::as_array` hands out the items of an array and `None` for anything else.
pub assume_specification<'a>[ serde_json::Value::as_array ](v: &'a serde_json::Value) -> (r: Option<
    &'a Vec<serde_json::Value>,
>)
    ensures
        match r {
            Some(items) => tree(*v) == Json::Array(trees(items@)),
            None => !(tree(*v) is Array),
        },
;

/// `Value::as_object` and `Map::iter`: the members of an object, in the
/// order in which the map hands them out, and `None` for anything else.
#[verifier::external_body]
fn members_of<'a>(v: &'a serde_json::Value) -> (r: Option<Vec<(&'a String, &'a serde_json::Value)>>)
    ensures
        match r {
            Some(ms) => tree(*v) == Json::Object(
                Seq::new(ms@.len(), |i: int| (ms@[i].0@, tree(*ms@[i].1))),
            ),
            None => !(tree(*v) is Object),
        },
{
    v.as_object().map(|m| m.iter().collect())
}

/// Why a text could not be read.
#[derive(Debug)]
pub struct SyntaxError {
    pub cause: serde_json::Error,
}

/// Copies a parsed value into a value of this library.
fn lift(v: &serde_json::Value) -> (r: Raw)
    ensures
        r@ == tree(*v),
    decreases tree(*v),
{
    if let Some(b) = v.as_bool() {
        return Raw::Bool(b);
    }
    if let Some(u) = v.as_u64() {
        return Raw::Number(Number::PosInt(u));
    }
    if let Some(i) = v.as_i64() {
        return Raw::Number(Number::NegInt(i));
    }
    if let Some(bits) = float_bits(v) {
        return Raw::Number(Number::Float(bits));
    }
    if let Some(s) = v.as_str() {
        return Raw::String(s.to_owned());
    }
    if let Some(items) = v.as_array() {
        let mut out: Vec<Raw> = Vec::new();
        let mut i: usize = 0;
        while i < items.len()
            invariant
                i <= items.len(),
                out.len() == i,
                tree(*v) == Json::Array(trees(items@)),
                forall|j: int| 0 <= j < i ==> out@[j]@ == tree(items@[j]),
            decreases items.len() - i,
        {
            assert(trees(items@)[i as int] == tree(items@[i as int]));
            assert(decreases_to!(tree(*v) => tree(*v)->Array_0[i as int]));
            out.push(lift(&items[i]));
            i += 1;
        }
        let r = Raw::Array(out);
        assert(r@->Array_0 =~= trees(items@));
        return r;
    }
    if let Some(ms) = members_of(v) {
        let ghost all = Seq::new(ms@.len(), |i: int| (ms@[i].0@, tree(*ms@[i].1)));
        let mut out: Vec<(String, Raw)> = Vec::new();
        let mut i: usize = 0;
        while i < ms.len()
            invariant
                i <= ms.len(),
                out.len() == i,
                tree(*v) == Json::Object(all),
                all == Seq::new(ms@.len(), |i: int| (ms@[i].0@, tree(*ms@[i].1))),
                forall|j: int| 0 <= j < i ==> out@[j].0@ == all[j].0 && out@[j].1@ == all[j].1,
            decreases ms.len() - i,
        {
            assert(all[i as int] == (ms@[i as int].0@, tree(*ms@[i as int].1)));
            assert(decreases_to!(tree(*v) => tree(*v)->Object_0[i as int].1));
            out.push((ms[i].0.clone(), lift(ms[i].1)));
            i += 1;
        }
        let r = Raw::Object(out);
        assert(r@->Object_0 =~= all);
        return r;
    }
    Raw::Null
}

/// Reads a JSON text into a raw value.
///
/// The result is the tree that `serde_json` reads from the text, and an
/// error exactly where it rejects the text.
pub fn parse(text: &str) -> (r: Result<Raw, SyntaxError>)
    ensures
        match r {
            Ok(v) => parsed(text@) == Some(v@),
            Err(_) => parsed(text@) is None,
        },
{
    match parse_value(text) {
        Ok(v) => Ok(lift(&v)),
        Err(cause) => Err(SyntaxError { cause }),
    }
}

} // verus!
