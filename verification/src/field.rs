//! Reading the fields of a raw object: which shapes are accepted, what a
//! missing field means, and which error names the failure.

use vstd::prelude::*;
use crate::error::{
    missing_field, plain_of, type_mismatch, view_of, DecodeError, DecodeErrorView, Decoded,
};
use crate::raw::{
    items_view, lemma_array_view, lemma_member_decreases, lemma_object_view, member, members_view,
    Json, Number, Raw,
};

verus! {

/// The text of a string standing at `field`.
pub open spec fn text_of(v: Json, field: Seq<char>) -> Decoded<Seq<char>> {
    match v {
        Json::String(s) => Ok(s),
        _ => Err(type_mismatch(field, "string"@, v)),
    }
}

/// The flag of a boolean standing at `field`.
pub open spec fn flag_of(v: Json, field: Seq<char>) -> Decoded<bool> {
    match v {
        Json::Bool(b) => Ok(b),
        _ => Err(type_mismatch(field, "boolean"@, v)),
    }
}

/// The integer standing at `field`, where it is an integer of 32 signed bits.
pub open spec fn int_of(v: Json, field: Seq<char>) -> Decoded<i32> {
    match v {
        Json::Number(Number::PosInt(u)) if u <= i32::MAX => Ok(u as i32),
        Json::Number(Number::NegInt(i)) if i32::MIN <= i <= i32::MAX => Ok(i as i32),
        _ => Err(type_mismatch(field, "32-bit integer"@, v)),
    }
}

/// The number standing at `field`, integer or not.
pub open spec fn number_of(v: Json, field: Seq<char>) -> Decoded<Number> {
    match v {
        Json::Number(n) => Ok(n),
        _ => Err(type_mismatch(field, "number"@, v)),
    }
}

/// The items of an array standing at `field`.
pub open spec fn items_of(v: Json, field: Seq<char>) -> Decoded<Seq<Json>> {
    match v {
        Json::Array(items) => Ok(items),
        _ => Err(type_mismatch(field, "array"@, v)),
    }
}

/// The members of an object standing at `field`.
pub open spec fn members_of(v: Json, field: Seq<char>) -> Decoded<Seq<(Seq<char>, Json)>> {
    match v {
        Json::Object(members) => Ok(members),
        _ => Err(type_mismatch(field, "object"@, v)),
    }
}

/// The field `key`, which an object of type `container` must have.
pub open spec fn required(obj: Json, key: Seq<char>, container: Seq<char>) -> Decoded<Json> {
    match obj.field(key) {
        Some(v) => Ok(v),
        None => Err(missing_field(key, container)),
    }
}

/// The field `key` where it is there and holds something; a field that
/// holds null counts as absent.
pub open spec fn present(obj: Json, key: Seq<char>) -> Option<Json> {
    match obj.field(key) {
        Some(Json::Null) => None,
        other => other,
    }
}

/// The string at the required field `key`.
pub open spec fn text_field(obj: Json, key: Seq<char>, container: Seq<char>) -> Decoded<Seq<char>> {
    match required(obj, key, container) {
        Ok(v) => text_of(v, key),
        Err(e) => Err(e),
    }
}

/// The boolean at the required field `key`.
pub open spec fn flag_field(obj: Json, key: Seq<char>, container: Seq<char>) -> Decoded<bool> {
    match required(obj, key, container) {
        Ok(v) => flag_of(v, key),
        Err(e) => Err(e),
    }
}

/// The integer at the required field `key`.
pub open spec fn int_field(obj: Json, key: Seq<char>, container: Seq<char>) -> Decoded<i32> {
    match required(obj, key, container) {
        Ok(v) => int_of(v, key),
        Err(e) => Err(e),
    }
}

/// The number at the required field `key`.
pub open spec fn number_field(obj: Json, key: Seq<char>, container: Seq<char>) -> Decoded<Number> {
    match required(obj, key, container) {
        Ok(v) => number_of(v, key),
        Err(e) => Err(e),
    }
}

/// The items of the array at the required field `key`.
pub open spec fn items_field(
    obj: Json,
    key: Seq<char>,
    container: Seq<char>,
) -> Decoded<Seq<Json>> {
    match required(obj, key, container) {
        Ok(v) => items_of(v, key),
        Err(e) => Err(e),
    }
}

/// The outcome of decoding each of `items` with `f`, in order: the decoded
/// items, or the error of the first item that fails.
pub open spec fn each<T>(items: Seq<Json>, f: spec_fn(Json) -> Decoded<T>) -> Decoded<Seq<T>>
    decreases items.len(),
{
    if items.len() == 0 {
        Ok(Seq::empty())
    } else {
        match each(items.drop_last(), f) {
            Ok(done) => match f(items.last()) {
                Ok(v) => Ok(done.push(v)),
                Err(e) => Err(e),
            },
            Err(e) => Err(e),
        }
    }
}

/// Once a prefix of a list has failed, the list fails with the same error.
pub proof fn lemma_each_keeps_first_error<T>(
    items: Seq<Json>,
    f: spec_fn(Json) -> Decoded<T>, n: int,
)
    requires
        0 <= n <= items.len(),
        each(items.take(n), f) is Err,
    ensures
        each(items, f) == each(items.take(n), f),
    decreases items.len(),
{
    if n == items.len() {
        assert(items.take(n) =~= items);
    } else {
        assert(items.drop_last().take(n) =~= items.take(n));
        lemma_each_keeps_first_error(items.drop_last(), f, n);
    }
}

/// The items of an array found in a field are smaller than the object
/// that holds the field.
pub proof fn lemma_items_field_decreases(obj: Json, key: Seq<char>, container: Seq<char>)
    ensures
        items_field(obj, key, container) matches Ok(items) ==> decreases_to!(obj => items),
{
    if items_field(obj, key, container) is Ok {
        let members = obj->Object_0;
        let v = member(members, key)->Some_0;
        lemma_member_decreases(members, key);
        assert(decreases_to!(obj => obj->Object_0));
        assert(decreases_to!(v => v->Array_0));
    }
}

/// The array at the required field `key`, each item decoded with `f`.
pub open spec fn list_field<T>(
    obj: Json,
    key: Seq<char>,
    container: Seq<char>,
    f: spec_fn(Json) -> Decoded<T>,
) -> Decoded<Seq<T>> {
    match items_field(obj, key, container) {
        Ok(items) => each(items, f),
        Err(e) => Err(e),
    }
}

/// A flag that stands for `default` where the field is absent.
pub open spec fn flag_field_or(obj: Json, key: Seq<char>, default: bool) -> Decoded<bool> {
    match obj.field(key) {
        Some(v) => flag_of(v, key),
        None => Ok(default),
    }
}

/// An integer that stands for `default` where the field is absent.
pub open spec fn int_field_or(obj: Json, key: Seq<char>, default: i32) -> Decoded<i32> {
    match obj.field(key) {
        Some(v) => int_of(v, key),
        None => Ok(default),
    }
}

/// The string at the optional field `key`.
pub open spec fn optional_text(obj: Json, key: Seq<char>) -> Decoded<Option<Seq<char>>> {
    match present(obj, key) {
        Some(v) => match text_of(v, key) {
            Ok(s) => Ok(Some(s)),
            Err(e) => Err(e),
        },
        None => Ok(None),
    }
}

/// The boolean at the optional field `key`.
pub open spec fn optional_flag(obj: Json, key: Seq<char>) -> Decoded<Option<bool>> {
    match present(obj, key) {
        Some(v) => match flag_of(v, key) {
            Ok(b) => Ok(Some(b)),
            Err(e) => Err(e),
        },
        None => Ok(None),
    }
}

/// The number at the optional field `key`.
pub open spec fn optional_number(obj: Json, key: Seq<char>) -> Decoded<Option<Number>> {
    match present(obj, key) {
        Some(v) => match number_of(v, key) {
            Ok(n) => Ok(Some(n)),
            Err(e) => Err(e),
        },
        None => Ok(None),
    }
}

/// The model of an outcome that holds an optional string.
pub open spec fn optional_view(
    r: Result<Option<String>, DecodeError>,
) -> Decoded<Option<Seq<char>>> {
    match r {
        Ok(Some(s)) => Ok(Some(s@)),
        Ok(None) => Ok(None),
        Err(e) => Err(e@),
    }
}

/// Reads the string standing at `field`.
pub fn read_text(v: &Raw, field: &str) -> (r: Result<String, DecodeError>)
    ensures
        view_of(r) == text_of(v@, field@),
{
    match v {
        Raw::String(s) => Ok(s.clone()),
        _ => Err(DecodeError::mismatch(field, "string", v)),
    }
}

/// Reads the boolean standing at `field`.
pub fn read_flag(v: &Raw, field: &str) -> (r: Result<bool, DecodeError>)
    ensures
        plain_of(r) == flag_of(v@, field@),
{
    match v {
        Raw::Bool(b) => Ok(*b),
        _ => Err(DecodeError::mismatch(field, "boolean", v)),
    }
}

/// Reads the integer standing at `field`.
pub fn read_int(v: &Raw, field: &str) -> (r: Result<i32, DecodeError>)
    ensures
        plain_of(r) == int_of(v@, field@),
{
    match v {
        Raw::Number(Number::PosInt(u)) => {
            if *u <= 0x7fff_ffff {
                Ok(*u as i32)
            } else {
                Err(DecodeError::mismatch(field, "32-bit integer", v))
            }
        },
        Raw::Number(Number::NegInt(i)) => {
            if -0x8000_0000 <= *i && *i <= 0x7fff_ffff {
                Ok(*i as i32)
            } else {
                Err(DecodeError::mismatch(field, "32-bit integer", v))
            }
        },
        _ => Err(DecodeError::mismatch(field, "32-bit integer", v)),
    }
}

/// Reads the number standing at `field`.
pub fn read_number(v: &Raw, field: &str) -> (r: Result<Number, DecodeError>)
    ensures
        plain_of(r) == number_of(v@, field@),
{
    match v {
        Raw::Number(n) => Ok(*n),
        _ => Err(DecodeError::mismatch(field, "number", v)),
    }
}

/// The items of an array, by reference.
pub fn read_items<'a>(v: &'a Raw, field: &str) -> (r: Result<&'a Vec<Raw>, DecodeError>)
    ensures
        match r {
            Ok(items) => items_of(v@, field@) == Ok::<_, DecodeErrorView>(items_view(items@)),
            Err(e) => items_of(v@, field@) == Err::<Seq<Json>, _>(e@),
        },
{
    match v {
        Raw::Array(items) => {
            proof {
                lemma_array_view(*items);
            }
            Ok(items)
        },
        _ => Err(DecodeError::mismatch(field, "array", v)),
    }
}

/// The members of an object, by reference.
pub fn read_members<'a>(v: &'a Raw, field: &str) -> (r: Result<&'a Vec<(String, Raw)>, DecodeError>)
    ensures
        match r {
            Ok(members) => members_of(v@, field@) == Ok::<_, DecodeErrorView>(members_view(members@)),
            Err(e) => members_of(v@, field@) == Err::<Seq<(Seq<char>, Json)>, _>(e@),
        },
{
    match v {
        Raw::Object(members) => {
            proof {
                lemma_object_view(*members);
            }
            Ok(members)
        },
        _ => Err(DecodeError::mismatch(field, "object", v)),
    }
}

/// Checks that the value standing at `field` is an object.
pub fn expect_object(v: &Raw, field: &str) -> (r: Result<(), DecodeError>)
    ensures
        match r {
            Ok(_) => v@ is Object,
            Err(e) => !(v@ is Object) && e@ == type_mismatch(field@, "object"@, v@),
        },
{
    match v {
        Raw::Object(_) => Ok(()),
        _ => Err(DecodeError::mismatch(field, "object", v)),
    }
}

/// Finds the required field `key` of an object of type `container`.
pub fn read_required<'a>(obj: &'a Raw, key: &str, container: &str) -> (r: Result<&'a Raw, DecodeError>)
    ensures
        view_of(r) == required(obj@, key@, container@),
{
    match obj.get(key) {
        Some(v) => Ok(v),
        None => Err(DecodeError::missing(key, container)),
    }
}

/// Finds the optional field `key`; a field that holds null counts as absent.
pub fn read_present<'a>(obj: &'a Raw, key: &str) -> (r: Option<&'a Raw>)
    ensures
        match r {
            Some(v) => present(obj@, key@) == Some(v@),
            None => present(obj@, key@) is None,
        },
{
    match obj.get(key) {
        Some(Raw::Null) => None,
        other => other,
    }
}

/// Reads the string at the required field `key`.
pub fn read_text_field(obj: &Raw, key: &str, container: &str) -> (r: Result<String, DecodeError>)
    ensures
        view_of(r) == text_field(obj@, key@, container@),
{
    read_text(read_required(obj, key, container)?, key)
}

/// Reads the boolean at the required field `key`.
pub fn read_flag_field(obj: &Raw, key: &str, container: &str) -> (r: Result<bool, DecodeError>)
    ensures
        plain_of(r) == flag_field(obj@, key@, container@),
{
    read_flag(read_required(obj, key, container)?, key)
}

/// Reads the integer at the required field `key`.
pub fn read_int_field(obj: &Raw, key: &str, container: &str) -> (r: Result<i32, DecodeError>)
    ensures
        plain_of(r) == int_field(obj@, key@, container@),
{
    read_int(read_required(obj, key, container)?, key)
}

/// Reads the number at the required field `key`.
pub fn read_number_field(obj: &Raw, key: &str, container: &str) -> (r: Result<Number, DecodeError>)
    ensures
        plain_of(r) == number_field(obj@, key@, container@),
{
    read_number(read_required(obj, key, container)?, key)
}

/// The items of the array at the required field `key`, by reference.
pub fn read_items_field<'a>(obj: &'a Raw, key: &str, container: &str) -> (r: Result<
    &'a Vec<Raw>,
    DecodeError,
>)
    ensures
        match r {
            Ok(items) => items_field(obj@, key@, container@) == Ok::<_, DecodeErrorView>(
                items_view(items@),
            ),
            Err(e) => items_field(obj@, key@, container@) == Err::<Seq<Json>, _>(e@),
        },
{
    read_items(read_required(obj, key, container)?, key)
}

/// Reads the boolean at `key`, or takes `default` where the field is absent.
pub fn read_flag_field_or(obj: &Raw, key: &str, default: bool) -> (r: Result<bool, DecodeError>)
    ensures
        plain_of(r) == flag_field_or(obj@, key@, default),
{
    match obj.get(key) {
        Some(v) => read_flag(v, key),
        None => Ok(default),
    }
}

/// Reads the integer at `key`, or takes `default` where the field is absent.
pub fn read_int_field_or(obj: &Raw, key: &str, default: i32) -> (r: Result<i32, DecodeError>)
    ensures
        plain_of(r) == int_field_or(obj@, key@, default),
{
    match obj.get(key) {
        Some(v) => read_int(v, key),
        None => Ok(default),
    }
}

/// Reads the string at the optional field `key`.
pub fn read_optional_text(obj: &Raw, key: &str) -> (r: Result<Option<String>, DecodeError>)
    ensures
        optional_view(r) == optional_text(obj@, key@),
{
    match read_present(obj, key) {
        Some(v) => Ok(Some(read_text(v, key)?)),
        None => Ok(None),
    }
}

/// Reads the boolean at the optional field `key`.
pub fn read_optional_flag(obj: &Raw, key: &str) -> (r: Result<Option<bool>, DecodeError>)
    ensures
        plain_of(r) == optional_flag(obj@, key@),
{
    match read_present(obj, key) {
        Some(v) => Ok(Some(read_flag(v, key)?)),
        None => Ok(None),
    }
}

/// Reads the number at the optional field `key`.
pub fn read_optional_number(obj: &Raw, key: &str) -> (r: Result<Option<Number>, DecodeError>)
    ensures
        plain_of(r) == optional_number(obj@, key@),
{
    match read_present(obj, key) {
        Some(v) => Ok(Some(read_number(v, key)?)),
        None => Ok(None),
    }
}

} // verus!
