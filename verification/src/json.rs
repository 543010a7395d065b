//! A JSON document as a tree of plain values, and its mathematical model.

use crate::text::same_text;
use vstd::prelude::*;

verus! {

/// A JSON number: a non-negative integer, a negative integer, or a finite
/// binary64 value held as its bit pattern.
#[derive(Clone, Copy, Debug, PartialEq, Eq)]
pub enum JsonNumber {
    PosInt(u64),
    NegInt(i64),
    Float(u64),
}

/// A JSON document. An object is the list of its members; a reader finds a
/// member by its key, and the first member under a key is the one it finds.
#[derive(Debug, PartialEq, Eq)]
pub enum JsonValue {
    Null,
    Bool(bool),
    Number(JsonNumber),
    String(String),
    Array(Vec<JsonValue>),
    Object(Vec<(String, JsonValue)>),
}

/// The mathematical model of a [`JsonValue`].
pub ghost enum Json {
    Null,
    Bool(bool),
    Number(JsonNumber),
    String(Seq<char>),
    Array(Seq<Json>),
    Object(Seq<(Seq<char>, Json)>),
}

/// The model of a value: strings become sequences of characters, vectors
/// become sequences.
pub open spec fn model_of(value: JsonValue) -> Json
    decreases value,
{
    match value {
        JsonValue::Null => Json::Null,
        JsonValue::Bool(b) => Json::Bool(b),
        JsonValue::Number(n) => Json::Number(n),
        JsonValue::String(s) => Json::String(s@),
        JsonValue::Array(items) => Json::Array(
            Seq::new(
                items@.len(),
                |i: int|
                    if 0 <= i < items@.len() {
                        model_of(items@[i])
                    } else {
                        Json::Null
                    },
            ),
        ),
        JsonValue::Object(members) => Json::Object(
            Seq::new(
                members@.len(),
                |i: int|
                    if 0 <= i < members@.len() {
                        (members@[i].0@, model_of(members@[i].1))
                    } else {
                        (Seq::empty(), Json::Null)
                    },
            ),
        ),
    }
}

impl View for JsonValue {
    type V = Json;

    open spec fn view(&self) -> Json {
        model_of(*self)
    }
}

/// The model of an optional value.
pub open spec fn model_of_option(value: Option<JsonValue>) -> Option<Json> {
    match value {
        Some(v) => Some(v@),
        None => None,
    }
}

/// The models of the elements of an array, in order.
pub open spec fn array_view(items: Seq<JsonValue>) -> Seq<Json> {
    items.map_values(|v: JsonValue| v@)
}

/// The models of the members of an object, in order.
pub open spec fn object_view(members: Seq<(String, JsonValue)>) -> Seq<(Seq<char>, Json)> {
    members.map_values(|m: (String, JsonValue)| (m.0@, m.1@))
}

/// The view of an array is the array of its elements' views.
pub proof fn lemma_array_view(items: Vec<JsonValue>)
    ensures
        JsonValue::Array(items)@ == Json::Array(array_view(items@)),
{
    assert(JsonValue::Array(items)@->Array_0 =~= array_view(items@));
}

/// The view of an object is the list of its members' views.
pub proof fn lemma_object_view(members: Vec<(String, JsonValue)>)
    ensures
        JsonValue::Object(members)@ == Json::Object(object_view(members@)),
{
    assert(JsonValue::Object(members)@->Object_0 =~= object_view(members@));
}

impl Clone for JsonValue {
    fn clone(&self) -> (res: JsonValue)
        ensures
            res@ == self@,
        decreases self,
    {
        match self {
            JsonValue::Null => JsonValue::Null,
            JsonValue::Bool(b) => JsonValue::Bool(*b),
            JsonValue::Number(n) => JsonValue::Number(*n),
            JsonValue::String(s) => JsonValue::String(s.clone()),
            JsonValue::Array(items) => {
                let mut copy: Vec<JsonValue> = Vec::new();
                let mut i: usize = 0;
                while i < items.len()
                    invariant
                        *self == JsonValue::Array(*items),
                        i <= items@.len(),
                        copy@.len() == i,
                        forall|k: int| 0 <= k < i ==> copy@[k]@ == items@[k]@,
                    decreases items@.len() - i,
                {
                    proof {
                        assert(decreases_to!(*self => self->Array_0));
                        assert(decreases_to!(*items => items[i as int]));
                    }
                    copy.push(items[i].clone());
                    i += 1;
                }
                proof {
                    lemma_array_view(*items);
                    lemma_array_view(copy);
                    assert(array_view(copy@) =~= array_view(items@));
                }
                JsonValue::Array(copy)
            },
            JsonValue::Object(members) => {
                let mut copy: Vec<(String, JsonValue)> = Vec::new();
                let mut i: usize = 0;
                while i < members.len()
                    invariant
                        *self == JsonValue::Object(*members),
                        i <= members@.len(),
                        copy@.len() == i,
                        forall|k: int|
                            0 <= k < i ==> copy@[k].0@ == members@[k].0@ && copy@[k].1@
                                == members@[k].1@,
                    decreases members@.len() - i,
                {
                    proof {
                        assert(decreases_to!(*self => self->Object_0));
                        assert(decreases_to!(*members => members[i as int]));
                        assert(decreases_to!(members[i as int] => members[i as int].1));
                    }
                    copy.push((members[i].0.clone(), members[i].1.clone()));
                    i += 1;
                }
                proof {
                    lemma_object_view(*members);
                    lemma_object_view(copy);
                    assert(object_view(copy@) =~= object_view(members@));
                }
                JsonValue::Object(copy)
            },
        }
    }
}

/// The index of the first member of `members` from `from` on under the key
/// `key`; the number of members where there is none.
pub open spec fn first_member(members: Seq<(Seq<char>, Json)>, key: Seq<char>, from: int) -> int
    decreases members.len() - from,
{
    if from >= members.len() {
        members.len() as int
    } else if members[from].0 == key {
        from
    } else {
        first_member(members, key, from + 1)
    }
}

/// The value that an object holds under `key`: that of its first member with
/// that key. Nothing for an object without such a member, and for a value
/// that is no object.
pub open spec fn member_of(value: Json, key: Seq<char>) -> Option<Json> {
    match value {
        Json::Object(members) => if first_member(members, key, 0) < members.len() {
            Some(members[first_member(members, key, 0)].1)
        } else {
            None
        },
        _ => None,
    }
}

impl JsonValue {
    /// The value that this object holds under `key`, if it is an object and
    /// has such a member.
    pub fn get(&self, key: &str) -> (found: Option<&JsonValue>)
        ensures
            match found {
                Some(value) => member_of(self@, key@) == Some(value@),
                None => member_of(self@, key@) is None,
            },
    {
        match self {
            JsonValue::Object(members) => {
                proof {
                    lemma_object_view(*members);
                }
                let mut i: usize = 0;
                while i < members.len()
                    invariant
                        *self == JsonValue::Object(*members),
                        self@ == Json::Object(object_view(members@)),
                        i <= members@.len(),
                        first_member(object_view(members@), key@, 0) == first_member(
                            object_view(members@),
                            key@,
                            i as int,
                        ),
                    decreases members@.len() - i,
                {
                    if same_text(members[i].0.as_str(), key) {
                        return Some(&members[i].1);
                    }
                    i += 1;
                }
                None
            },
            _ => None,
        }
    }
}

/// `serde_json::Value`, carried from the parser to the conversion below.
#[verifier::external_type_specification]
#[verifier::external_body]
pub struct ExSerdeValue(serde_json::Value);

/// `serde_json::Number`, carried from the parser to the conversion below.
#[verifier::external_type_specification]
#[verifier::external_body]
pub struct ExSerdeNumber(serde_json::Number);

/// What `serde_json::from_slice` makes of `bytes` read as one JSON document:
/// the document's model, or `None` where the bytes are rejected.
pub uninterp spec fn parsed_json(bytes: Seq<u8>) -> Option<Json>;

/// Tells the three forms of a `serde_json::Number` apart by `as_u64`,
/// `as_i64` and `as_f64`, and carries the number over unchanged.
#[verifier::external_body]
fn number_from_serde(number: &serde_json::Number) -> JsonNumber {
    if let Some(n) = number.as_u64() {
        JsonNumber::PosInt(n)
    } else if let Some(n) = number.as_i64() {
        JsonNumber::NegInt(n)
    } else {
        JsonNumber::Float(number.as_f64().map_or(0, |x| x.to_bits()))
    }
}

/// Carries a `serde_json::Value` over into a [`JsonValue`], variant by variant;
/// the members of an object come in the order in which `serde_json` walks
/// them.
#[verifier::external_body]
fn value_from_serde(value: serde_json::Value) -> JsonValue {
    match value {
        serde_json::Value::Null => JsonValue::Null,
        serde_json::Value::Bool(b) => JsonValue::Bool(b),
        serde_json::Value::Number(n) => JsonValue::Number(number_from_serde(&n)),
        serde_json::Value::String(s) => JsonValue::String(s),
        serde_json::Value::Array(items) => JsonValue::Array(
            items.into_iter().map(value_from_serde).collect(),
        ),
        serde_json::Value::Object(map) => JsonValue::Object(
            map.into_iter().map(|(k, v)| (k, value_from_serde(v))).collect(),
        ),
    }
}

/// Calls `serde_json::from_slice` for a `serde_json::Value`. The result is
/// the document that the bytes spell, and `None` where `serde_json` reports an
/// error.
#[verifier::external_body]
pub(crate) fn parse_json(bytes: &[u8]) -> (parsed: Option<JsonValue>)
    ensures
        match parsed {
            Some(value) => parsed_json(bytes@) == Some(value@),
            None => parsed_json(bytes@) is None,
        },
{
    serde_json::from_slice::<serde_json::Value>(bytes).ok().map(value_from_serde)
}

} // verus!
