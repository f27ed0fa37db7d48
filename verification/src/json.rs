//! JSON values: their mathematical model and the calls that build, read,
//! print and parse them.
//!
//! Values are `serde_json::Value`s. Verus cannot look inside one, so the
//! functions here say what each call does in terms of [`json_of`], the
//! mathematical value that a `Value` holds. None of these statements is
//! proved: they are what this library takes from `serde_json`.
use vstd::prelude::*;
use serde_json::Value;

verus! {

/// A JSON value.
pub ghost enum Json {
    Null,
    Bool(bool),
    /// A number that is kept as an integer.
    Integer(int),
    /// A number that is kept as a float. The field stands for the float and
    /// is never read.
    Fraction(int),
    Text(Seq<char>),
    List(Seq<Json>),
    /// An object: its keys, each with its value. Keys have no order.
    Object(Map<Seq<char>, Json>),
}

impl Json {
    /// The value under `key`, if `self` is an object that has the key.
    pub open spec fn member(self, key: Seq<char>) -> Option<Json> {
        match self {
            Json::Object(entries) if entries.contains_key(key) => Some(entries[key]),
            _ => None,
        }
    }

    /// The value holds integers as its only numbers, and its arrays and
    /// objects are nested at most `levels` deep.
    pub open spec fn plain(self, levels: nat) -> bool
        decreases levels,
    {
        match self {
            Json::Fraction(_) => false,
            Json::List(items) => levels > 0 && forall|i: int|
                0 <= i < items.len() ==> (#[trigger] items[i]).plain((levels - 1) as nat),
            Json::Object(entries) => levels > 0 && forall|key: Seq<char>|
                entries.contains_key(key) ==> (#[trigger] entries[key]).plain((levels - 1) as nat),
            _ => true,
        }
    }

    /// A value that is plain within some depth is plain within any greater
    /// depth.
    pub proof fn lemma_plain_deeper(self, levels: nat, deeper: nat)
        requires
            self.plain(levels),
            levels <= deeper,
        ensures
            self.plain(deeper),
        decreases levels,
    {
        match self {
            Json::List(items) => {
                assert forall|i: int| 0 <= i < items.len() implies (#[trigger] items[i]).plain(
                    (deeper - 1) as nat,
                ) by {
                    items[i].lemma_plain_deeper((levels - 1) as nat, (deeper - 1) as nat);
                }
            },
            Json::Object(entries) => {
                assert forall|key: Seq<char>| entries.contains_key(key) implies (#[trigger] entries[key]).plain(
                    (deeper - 1) as nat,
                ) by {
                    entries[key].lemma_plain_deeper((levels - 1) as nat, (deeper - 1) as nat);
                }
            },
            _ => {},
        }
    }
}

/// The depth to which `serde_json` reads arrays and objects nested in each
/// other.
pub open spec fn readable_depth() -> nat {
    127
}

/// The object that holds the given keys with their values, in this order.
/// Where a key comes twice, the later value stands.
pub open spec fn object_of(entries: Seq<(Seq<char>, Json)>) -> Map<Seq<char>, Json>
    decreases entries.len(),
{
    if entries.len() == 0 {
        Map::empty()
    } else {
        object_of(entries.drop_last()).insert(entries.last().0, entries.last().1)
    }
}

/// `serde_json::Value`, taken as it is: what one holds is [`json_of`] it.
#[verifier::external_type_specification]
#[verifier::external_body]
pub struct ExValue(serde_json::Value);

/// `serde_json::Error`, of which nothing is read.
#[verifier::external_type_specification]
#[verifier::external_body]
pub struct ExJsonError(serde_json::Error);

/// The JSON value that a `serde_json::Value` holds.
pub uninterp spec fn json_of(value: Value) -> Json;

/// The text that `serde_json::to_string` prints for a value, or `None` where
/// it fails.
pub uninterp spec fn json_text(json: Json) -> Option<Seq<char>>;

/// The value that `serde_json::from_str` reads from a text, or `None` where
/// it rejects the text.
pub uninterp spec fn json_parse(text: Seq<char>) -> Option<Json>;

/// The entries of a vector of keys and values, as mathematical values.
pub open spec fn entries_of(entries: Seq<(String, Value)>) -> Seq<(Seq<char>, Json)> {
    entries.map_values(|entry: (String, Value)| (entry.0@, json_of(entry.1)))
}

/// The items of a vector of values, as mathematical values.
pub open spec fn items_of(items: Seq<Value>) -> Seq<Json> {
    items.map_values(|item: Value| json_of(item))
}

/// `Value::Null`: the null value.
#[verifier::external_body]
pub(crate) fn json_null() -> (value: Value)
    ensures
        json_of(value) == Json::Null,
{
    Value::Null
}

/// `Value::String`: the string value with the given text.
#[verifier::external_body]
pub(crate) fn json_string(text: String) -> (value: Value)
    ensures
        json_of(value) == Json::Text(text@),
{
    Value::String(text)
}

/// `Value::from` on a `usize`: the number with that value, which
/// `serde_json` keeps as an unsigned integer.
#[verifier::external_body]
pub(crate) fn json_number(n: usize) -> (value: Value)
    ensures
        json_of(value) == Json::Integer(n as int),
{
    Value::from(n)
}

/// `Value::Array`: the array with the given items, in their order.
#[verifier::external_body]
pub(crate) fn json_array(items: Vec<Value>) -> (value: Value)
    ensures
        json_of(value) == Json::List(items_of(items@)),
{
    Value::Array(items)
}

/// `Value::from_iter` on pairs of a key and a value: the object that holds
/// each key with its value. The keys must differ: the map's documentation
/// does not say which of two values under one key is kept.
#[verifier::external_body]
pub(crate) fn json_object(entries: Vec<(String, Value)>) -> (value: Value)
    requires
        forall|i: int, j: int| 0 <= i < j < entries@.len() ==> entries@[i].0@ != entries@[j].0@,
    ensures
        json_of(value) == Json::Object(object_of(entries_of(entries@))),
{
    Value::from_iter(entries)
}

/// `Value::get` with a string index: the value under `key` where `value` is
/// an object that has the key, `None` otherwise.
#[verifier::external_body]
pub(crate) fn json_member<'a>(value: &'a Value, key: &str) -> (found: Option<&'a Value>)
    ensures
        match found {
            Some(member) => json_of(*value).member(key@) == Some(json_of(*member)),
            None => json_of(*value).member(key@) is None,
        },
{
    value.get(key)
}

/// `Value::as_str`: the text of a string value, `None` for any other value.
#[verifier::external_body]
pub(crate) fn json_as_str<'a>(value: &'a Value) -> (text: Option<&'a str>)
    ensures
        match text {
            Some(t) => json_of(*value) == Json::Text(t@),
            None => !(json_of(*value) is Text),
        },
{
    value.as_str()
}

/// `Value::as_u64`: the number where the value is an integer from zero to
/// `u64::MAX`, `None` for any other value.
#[verifier::external_body]
pub(crate) fn json_as_u64(value: &Value) -> (number: Option<u64>)
    ensures
        match number {
            Some(n) => json_of(*value) == Json::Integer(n as int),
            None => !(json_of(*value) matches Json::Integer(n) && 0 <= n <= u64::MAX),
        },
{
    value.as_u64()
}

/// `Value::as_array`: the items of an array, `None` for any other value.
#[verifier::external_body]
pub(crate) fn json_as_array<'a>(value: &'a Value) -> (items: Option<&'a Vec<Value>>)
    ensures
        match items {
            Some(list) => json_of(*value) == Json::List(items_of(list@)),
            None => !(json_of(*value) is List),
        },
{
    value.as_array()
}

/// `Value::as_bool`: the flag of a boolean value, `None` for any other value.
#[verifier::external_body]
pub(crate) fn json_as_bool(value: &Value) -> (flag: Option<bool>)
    ensures
        match flag {
            Some(b) => json_of(*value) == Json::Bool(b),
            None => !(json_of(*value) is Bool),
        },
{
    value.as_bool()
}

/// `Value::is_null`: whether the value is null.
#[verifier::external_body]
pub(crate) fn json_is_null(value: &Value) -> (null: bool)
    ensures
        null == (json_of(*value) is Null),
{
    value.is_null()
}

/// `serde_json::to_string` on a `Value`: the compact text of the value, which
/// depends on the value alone. `serde_json::from_str` reads the value back
/// from its text as it was, where the value holds no float and is not nested
/// deeper than the reader goes.
#[verifier::external_body]
pub(crate) fn json_to_string(value: &Value) -> (text: Result<String, serde_json::Error>)
    ensures
        match text {
            Ok(t) => json_text(json_of(*value)) == Some(t@),
            Err(_) => json_text(json_of(*value)) is None,
        },
        text matches Ok(t) ==> json_of(*value).plain(readable_depth()) ==> json_parse(t@) == Some(json_of(*value)),
{
    serde_json::to_string(value)
}

/// `serde_json::from_str` to a `Value`: the value that the text denotes,
/// which depends on the text alone.
#[verifier::external_body]
pub(crate) fn json_from_str(text: &str) -> (value: Result<Value, serde_json::Error>)
    ensures
        match value {
            Ok(v) => json_parse(text@) == Some(json_of(v)),
            Err(_) => json_parse(text@) is None,
        },
{
    serde_json::from_str(text)
}

} // verus!
