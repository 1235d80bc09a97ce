//! JSON values as `serde_json` holds them.
//!
//! The service speaks JSON, and `serde_json` parses and builds it. Verus does
//! not look inside a `serde_json::Value`, so this module gives the content of
//! one a mathematical model, [`JsonView`], and states what each `serde_json`
//! call used by this crate does in terms of that model. Those statements are
//! trusted, not proved; everything built on them is verified.

use vstd::prelude::*;

verus! {

#[verifier::external_type_specification]
#[verifier::external_body]
pub struct ExValue(serde_json::Value);

/// A JSON number, in the three forms in which `serde_json` keeps one.
pub ghost enum JsonNumber {
    /// A non-negative integer.
    PosInt(u64),
    /// A negative integer.
    NegInt(i64),
    /// Any other finite number, given by the bits of its double.
    Float(u64),
}

/// The mathematical content of a JSON value.
pub ghost enum JsonView {
    Null,
    Bool(bool),
    Number(JsonNumber),
    String(Seq<char>),
    Array(Seq<JsonView>),
    Object(Map<Seq<char>, JsonView>),
}

impl JsonView {
    /// The member stored under `key`, if `self` is an object that has one.
    pub open spec fn member(self, key: Seq<char>) -> Option<JsonView> {
        match self {
            JsonView::Object(members) => if members.contains_key(key) {
                Some(members[key])
            } else {
                None
            },
            _ => None,
        }
    }

    /// The member stored under `key`, with null standing for a member that
    /// is not there.
    pub open spec fn field(self, key: Seq<char>) -> JsonView {
        match self.member(key) {
            Some(member) => member,
            None => JsonView::Null,
        }
    }

    /// The truth value, if `self` is a boolean.
    pub open spec fn as_bool(self) -> Option<bool> {
        match self {
            JsonView::Bool(flag) => Some(flag),
            _ => None,
        }
    }

    /// The text, if `self` is a string.
    pub open spec fn as_text(self) -> Option<Seq<char>> {
        match self {
            JsonView::String(text) => Some(text),
            _ => None,
        }
    }

    /// The value, if `self` is a non-negative integer below 2^64.
    pub open spec fn as_unsigned(self) -> Option<u64> {
        match self {
            JsonView::Number(JsonNumber::PosInt(number)) => Some(number),
            _ => None,
        }
    }

    /// The value, if `self` is a non-negative integer below 2^32.
    pub open spec fn as_count(self) -> Option<u32> {
        match self.as_unsigned() {
            Some(number) => if number <= u32::MAX {
                Some(number as u32)
            } else {
                None
            },
            None => None,
        }
    }

    /// The bits of `self` as a double, if `self` is a number: the double
    /// itself where the number is kept as one, and the integer converted to
    /// a double otherwise.
    pub open spec fn as_double(self) -> Option<u64> {
        match self {
            JsonView::Number(JsonNumber::Float(bits)) => Some(bits),
            JsonView::Number(number) => Some(number_as_double(number)),
            _ => None,
        }
    }

    /// `self` with `member` stored under `key`, replacing what was there.
    pub open spec fn with_member(self, key: Seq<char>, member: JsonView) -> JsonView
        recommends
            self is Object,
    {
        JsonView::Object(self->Object_0.insert(key, member))
    }
}

/// The object without members.
pub open spec fn empty_object() -> JsonView {
    JsonView::Object(Map::empty())
}

/// What a `serde_json::Value` holds.
pub uninterp spec fn json_view(value: serde_json::Value) -> JsonView;

/// The model of a value that may be missing: nothing reads as null.
pub open spec fn view_or_null(found: Option<&serde_json::Value>) -> JsonView {
    match found {
        Some(value) => json_view(*value),
        None => JsonView::Null,
    }
}

/// The bits of the double that `serde_json` gives for a number kept as an
/// integer: the integer converted to a double. Of a number kept as a double
/// the contracts speak directly, not through this name.
pub uninterp spec fn number_as_double(number: JsonNumber) -> u64;

/// What `serde_json` makes of a text: the value it parses to, or nothing
/// where it rejects the text.
pub uninterp spec fn parsed_json(bytes: Seq<u8>) -> Option<JsonView>;

/// `serde_json::Value::get` with a string key: the member under `key` if
/// `value` is an object that has one, and nothing otherwise.
#[verifier::external_body]
pub(crate) fn get_member<'a>(value: &'a serde_json::Value, key: &str) -> (found: Option<
    &'a serde_json::Value,
>)
    ensures
        match found {
            Some(member) => json_view(*value).member(key@) == Some(json_view(*member)),
            None => json_view(*value).member(key@) is None,
        },
{
    value.get(key)
}

/// `serde_json::Value::as_bool`: the truth value of a boolean, nothing for
/// any other value.
#[verifier::external_body]
pub(crate) fn get_bool(value: &serde_json::Value) -> (flag: Option<bool>)
    ensures
        flag == json_view(*value).as_bool(),
{
    value.as_bool()
}

/// `serde_json::Value::as_str`: the text of a string, nothing for any other
/// value.
#[verifier::external_body]
pub(crate) fn get_text<'a>(value: &'a serde_json::Value) -> (text: Option<&'a str>)
    ensures
        match text {
            Some(found) => json_view(*value).as_text() == Some(found@),
            None => json_view(*value).as_text() is None,
        },
{
    value.as_str()
}

/// `serde_json::Value::as_u64`: the value of a number kept as a non-negative
/// integer, nothing for any other number or value.
#[verifier::external_body]
pub(crate) fn get_unsigned(value: &serde_json::Value) -> (number: Option<u64>)
    ensures
        number == json_view(*value).as_unsigned(),
{
    value.as_u64()
}

/// `serde_json::Value::as_f64`, handed on as the bits of the double: for a
/// number kept as a double that double itself, for a number kept as an
/// integer the integer converted to a double, and nothing for any other
/// value.
#[verifier::external_body]
pub(crate) fn get_double(value: &serde_json::Value) -> (bits: Option<u64>)
    ensures
        bits == match json_view(*value) {
            JsonView::Number(JsonNumber::Float(stored)) => Some(stored),
            JsonView::Number(number) => Some(number_as_double(number)),
            _ => None,
        },
{
    match value.as_f64() {
        Some(double) => Some(double.to_bits()),
        None => None,
    }
}

/// `serde_json::Value::String`: the JSON string with the given text.
#[verifier::external_body]
pub(crate) fn new_text(text: String) -> (value: serde_json::Value)
    ensures
        json_view(value) == JsonView::String(text@),
{
    serde_json::Value::String(text)
}

/// `serde_json::Value::Object` of `serde_json::Map::new`: the JSON object
/// without members.
#[verifier::external_body]
pub(crate) fn new_object() -> (value: serde_json::Value)
    ensures
        json_view(value) == empty_object(),
{
    serde_json::Value::Object(serde_json::Map::new())
}

/// Assignment through `serde_json::Value`'s `IndexMut` with a string key:
/// on an object, `member` is stored under `key`, replacing what was there,
/// and every other member stays. On anything but an object or null the
/// index panics; the precondition admits objects only.
#[verifier::external_body]
pub(crate) fn set_member(object: &mut serde_json::Value, key: &str, member: serde_json::Value)
    requires
        json_view(*old(object)) is Object,
    ensures
        json_view(*final(object)) == json_view(*old(object)).with_member(key@, json_view(member)),
{
    object[key] = member;
}

/// `serde_json::from_slice` at `serde_json::Value`: the value that the bytes
/// parse to, or nothing where they are no JSON text.
#[verifier::external_body]
pub(crate) fn parse(bytes: &[u8]) -> (value: Option<serde_json::Value>)
    ensures
        match value {
            Some(parsed) => parsed_json(bytes@) == Some(json_view(parsed)),
            None => parsed_json(bytes@) is None,
        },
{
    serde_json::from_slice::<serde_json::Value>(bytes).ok()
}

/// The member of `group` under `key`, where `group` is there and has one.
pub fn member_in<'a>(group: Option<&'a serde_json::Value>, key: &str) -> (found: Option<
    &'a serde_json::Value,
>)
    ensures
        view_or_null(found) == view_or_null(group).field(key@),
        found is Some <==> view_or_null(group).member(key@) is Some,
{
    match group {
        Some(value) => get_member(value, key),
        None => None,
    }
}

/// The truth value under `key`, where `group` holds a boolean there.
pub fn bool_in(group: Option<&serde_json::Value>, key: &str) -> (flag: Option<bool>)
    ensures
        flag == view_or_null(group).field(key@).as_bool(),
{
    match member_in(group, key) {
        Some(value) => get_bool(value),
        None => None,
    }
}

/// The text under `key`, where `group` holds a string there.
pub fn text_in<'a>(group: Option<&'a serde_json::Value>, key: &str) -> (text: Option<&'a str>)
    ensures
        match text {
            Some(found) => view_or_null(group).field(key@).as_text() == Some(found@),
            None => view_or_null(group).field(key@).as_text() is None,
        },
{
    match member_in(group, key) {
        Some(value) => get_text(value),
        None => None,
    }
}

/// The number under `key`, where `group` holds a non-negative integer
/// below 2^64 there.
pub fn unsigned_in(group: Option<&serde_json::Value>, key: &str) -> (number: Option<u64>)
    ensures
        number == view_or_null(group).field(key@).as_unsigned(),
{
    match member_in(group, key) {
        Some(value) => get_unsigned(value),
        None => None,
    }
}

/// The number under `key`, where `group` holds a non-negative integer
/// below 2^32 there. A greater one is not cut down: it is not a count.
pub fn count_in(group: Option<&serde_json::Value>, key: &str) -> (count: Option<u32>)
    ensures
        count == view_or_null(group).field(key@).as_count(),
        count matches Some(number) ==> view_or_null(group).field(key@).as_unsigned() == Some(
            number as u64,
        ),
{
    match unsigned_in(group, key) {
        Some(number) => if number <= u32::MAX as u64 {
            Some(number as u32)
        } else {
            None
        },
        None => None,
    }
}

/// The bits of the double under `key`, where `group` holds a number there.
pub fn double_in(group: Option<&serde_json::Value>, key: &str) -> (bits: Option<u64>)
    ensures
        bits == view_or_null(group).field(key@).as_double(),
{
    match member_in(group, key) {
        Some(value) => get_double(value),
        None => None,
    }
}

} // verus!
