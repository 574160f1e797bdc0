//! JSON values: what a `serde_json` value holds, and the calls into `serde_json`.
use crate::order::texts_of;
use serde_json::{Map as JsonMap, Value};
use vstd::prelude::*;

verus! {

/// What a JSON value is. An object is the list of its members in the order in
/// which they are written out.
pub enum Json {
    Null,
    Bool(bool),
    /// A number that is held as a whole one.
    Integer(int),
    /// Any other number, as it is written out.
    Float(Seq<char>),
    Text(Seq<char>),
    Array(Seq<Json>),
    Object(Seq<(Seq<char>, Json)>),
}

/// The keys of an object's members, in their order.
pub open spec fn member_keys(members: Seq<(Seq<char>, Json)>) -> Seq<Seq<char>> {
    members.map_values(|m: (Seq<char>, Json)| m.0)
}

/// The value of the member with the given key, which must be there.
pub open spec fn member(members: Seq<(Seq<char>, Json)>, key: Seq<char>) -> Json {
    members[member_keys(members).index_of(key)].1
}

/// The keys of an object are those of its members, one for one. Where no two
/// members have the same key, each is found by its key.
pub proof fn law_members_are_found_by_their_keys(members: Seq<(Seq<char>, Json)>)
    ensures
        member_keys(members).len() == members.len(),
        forall|i: int|
            0 <= i < members.len() ==> #[trigger] member_keys(members)[i] == members[i].0,
        (forall|i: int, j: int|
            0 <= i < j < members.len() ==> (#[trigger] members[i]).0 != (#[trigger] members[j]).0)
            ==> forall|i: int|
            0 <= i < members.len() ==> member(members, (#[trigger] members[i]).0) == members[i].1,
{
    let keys = member_keys(members);
    if forall|i: int, j: int|
        0 <= i < j < members.len() ==> (#[trigger] members[i]).0 != (#[trigger] members[j]).0 {
        assert forall|i: int| 0 <= i < members.len() implies member(
            members,
            (#[trigger] members[i]).0,
        ) == members[i].1 by {
            assert(keys[i] == members[i].0);
            assert(keys.contains(keys[i]));
            let at = keys.index_of(keys[i]);
            assert(keys[at] == keys[i]);
            assert(members[at].0 == members[i].0);
        }
    }
}

/// `serde_json::Value`, whose content is told by `json_of`.
#[verifier::external_type_specification]
#[verifier::external_body]
pub struct ExValue(Value);

/// `serde_json::Map`, whose content is told by `members_of`.
#[verifier::external_type_specification]
#[verifier::external_body]
#[verifier::reject_recursive_types(K)]
#[verifier::reject_recursive_types(V)]
pub struct ExMap<K, V>(JsonMap<K, V>);

/// The error of `serde_json`, which is only carried.
#[verifier::external_type_specification]
#[verifier::external_body]
pub struct ExJsonError(serde_json::Error);

/// The JSON value that a `serde_json::Value` holds.
pub uninterp spec fn json_of(value: Value) -> Json;

/// The members that a `serde_json::Map` holds, in the order in which it yields them.
pub uninterp spec fn members_of(map: JsonMap<String, Value>) -> Seq<(Seq<char>, Json)>;

/// The text that `serde_json::to_string` writes for a JSON value.
pub uninterp spec fn json_text(json: Json) -> Seq<char>;

/// The JSON values that a list of `serde_json::Value`s holds.
pub open spec fn jsons_of(values: Seq<Value>) -> Seq<Json> {
    values.map_values(|v: Value| json_of(v))
}

/// The JSON values of a list are those of its values, one for one.
pub proof fn law_jsons_of_a_list(values: Seq<Value>)
    ensures
        jsons_of(values).len() == values.len(),
        forall|i: int|
            0 <= i < values.len() ==> #[trigger] jsons_of(values)[i] == json_of(values[i]),
{
}

/// A `serde_json::Value` opened by one level.
pub enum Opened {
    Array(Vec<Value>),
    Object(JsonMap<String, Value>),
    /// The value itself, which is neither an array nor an object.
    Scalar(Value),
}

/// Opens a `serde_json::Value`: the field of its `Array` or `Object` variant is
/// handed out as it is, and so is a value of any other variant.
#[verifier::external_body]
pub(crate) fn open_value(value: Value) -> (opened: Opened)
    ensures
        match opened {
            Opened::Array(items) => json_of(value) == Json::Array(jsons_of(items@)),
            Opened::Object(map) => json_of(value) == Json::Object(members_of(map)),
            Opened::Scalar(scalar) => {
                &&& scalar == value
                &&& !(json_of(value) is Array)
                &&& !(json_of(value) is Object)
            },
        },
{
    match value {
        Value::Array(items) => Opened::Array(items),
        Value::Object(map) => Opened::Object(map),
        scalar => Opened::Scalar(scalar),
    }
}

/// What a `serde_json::Value` is built of.
pub enum Parts {
    Null,
    Bool(bool),
    Number(u64),
    Text(String),
    Array(Vec<Value>),
    Object(JsonMap<String, Value>),
}

impl Parts {
    /// The JSON value that the parts make up.
    pub open spec fn json(self) -> Json {
        match self {
            Parts::Null => Json::Null,
            Parts::Bool(b) => Json::Bool(b),
            Parts::Number(n) => Json::Integer(n as int),
            Parts::Text(s) => Json::Text(s@),
            Parts::Array(items) => Json::Array(jsons_of(items@)),
            Parts::Object(map) => Json::Object(members_of(map)),
        }
    }
}

/// Parts make up the JSON value of their own kind, with what they hold.
pub proof fn law_parts_make_up_what_they_hold(parts: Parts)
    ensures
        parts is Null ==> parts.json() is Null,
        parts matches Parts::Bool(b) ==> parts.json() == Json::Bool(b),
        parts matches Parts::Number(n) ==> parts.json() == Json::Integer(n as int),
        parts matches Parts::Text(s) ==> parts.json() == Json::Text(s@),
        parts matches Parts::Array(items) ==> {
            &&& parts.json() is Array
            &&& parts.json()->Array_0.len() == items@.len()
            &&& forall|i: int|
                0 <= i < items@.len() ==> #[trigger] parts.json()->Array_0[i] == json_of(items@[i])
        },
        parts matches Parts::Object(map) ==> parts.json() == Json::Object(members_of(map)),
{
}

/// Builds the `serde_json::Value` of the variant that the parts are of. A number
/// goes through `Value::from`, which holds it as a whole one.
#[verifier::external_body]
pub(crate) fn build_value(parts: Parts) -> (value: Value)
    ensures
        json_of(value) == parts.json(),
{
    match parts {
        Parts::Null => Value::Null,
        Parts::Bool(b) => Value::Bool(b),
        Parts::Number(n) => Value::from(n),
        Parts::Text(s) => Value::String(s),
        Parts::Array(items) => Value::Array(items),
        Parts::Object(map) => Value::Object(map),
    }
}

/// `serde_json::Value::clone` gives a value with the same content.
pub assume_specification[ <Value as Clone>::clone ](value: &Value) -> (copy: Value)
    ensures
        json_of(copy) == json_of(*value),
;

/// `serde_json::Map::new` gives a map without members.
pub assume_specification[ JsonMap::<String, Value>::new ]() -> (map: JsonMap<String, Value>)
    ensures
        members_of(map) == Seq::<(Seq<char>, Json)>::empty(),
;

/// `serde_json::Map::insert`, with the map keeping the order in which its keys
/// came: a key that is new goes to the end, a key that is there keeps its place
/// and gets the new value. The value that was there before is returned.
pub assume_specification[ JsonMap::<String, Value>::insert ](
    map: &mut JsonMap<String, Value>,
    k: String,
    v: Value,
) -> (previous: Option<Value>)
    ensures
        ({
            let before = members_of(*old(map));
            let keys = member_keys(before);
            let after = members_of(*final(map));
            if keys.contains(k@) {
                &&& after == before.update(keys.index_of(k@), (k@, json_of(v)))
                &&& previous matches Some(value) && json_of(value) == member(before, k@)
            } else {
                &&& after == before.push((k@, json_of(v)))
                &&& previous is None
            }
        }),
;

/// Calls `serde_json::Map::keys` and copies the keys: they come in the map's
/// own order, and no key comes twice.
#[verifier::external_body]
pub(crate) fn keys_of_map(map: &JsonMap<String, Value>) -> (keys: Vec<String>)
    ensures
        texts_of(keys@) == member_keys(members_of(*map)),
        texts_of(keys@).no_duplicates(),
{
    map.keys().cloned().collect()
}

/// Calls `serde_json::Map::get`: the value of the member with that key, or
/// `None` where the map has no such member.
#[verifier::external_body]
pub(crate) fn look_up<'a>(map: &'a JsonMap<String, Value>, key: &str) -> (found: Option<&'a Value>)
    ensures
        found is Some <==> member_keys(members_of(*map)).contains(key@),
        found matches Some(value) ==> json_of(*value) == member(members_of(*map), key@),
{
    map.get(key)
}

/// Calls `serde_json::to_string` on a `serde_json::Value`. Its keys are strings,
/// so writing it out does not fail. The text depends on the JSON value alone,
/// and two `serde_json::Value`s with the same text hold the same JSON value.
#[verifier::external_body]
pub(crate) fn write_out(value: &Value) -> (text: Result<String, serde_json::Error>)
    ensures
        text is Ok,
        text->Ok_0@ == json_text(json_of(*value)),
        forall|other: Value|
            json_text(#[trigger] json_of(other)) == text->Ok_0@ ==> json_of(other) == json_of(
                *value,
            ),
{
    serde_json::to_string(value)
}

} // verus!
