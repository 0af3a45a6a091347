//! JSON data as the workflows read and write it.
//!
//! The tree holds what a decoded JSON document holds, in plain values: the
//! members of an object in the order they were read, texts by their
//! characters, and of a number whether it is an integer that fits 64 bits.

use vstd::prelude::*;
use crate::text::same_text;

verus! {

/// `serde_json::Value`, which is read here only to be turned into a
/// [`JsonValue`].
#[verifier::external_type_specification]
#[verifier::external_body]
pub struct ExSerdeValue(serde_json::Value);

/// `serde_json::Error`, of which only the message is read.
#[verifier::external_type_specification]
#[verifier::external_body]
pub struct ExSerdeError(serde_json::Error);

/// A JSON value.
#[derive(Debug, PartialEq, Eq)]
pub enum JsonValue {
    Null,
    Bool(bool),
    /// A number that is an integer within the range of `i64`.
    Integer(i64),
    /// Any other number.
    Number,
    Text(String),
    Array(Vec<JsonValue>),
    Object(Vec<JsonMember>),
}

/// One member of a JSON object.
#[derive(Debug, PartialEq, Eq)]
pub struct JsonMember {
    pub key: String,
    pub value: JsonValue,
}

/// The value of the first member named `key`, if there is one.
pub open spec fn spec_first_with_key(members: Seq<JsonMember>, key: Seq<char>) -> Option<JsonValue>
    decreases members.len(),
{
    if members.len() == 0 {
        None
    } else if members[0].key@ == key {
        Some(members[0].value)
    } else {
        spec_first_with_key(members.drop_first(), key)
    }
}

/// A member found by [`spec_first_with_key`] sits at some index of the list, and
/// no member before that index has the key; without such a member nothing is found.
pub proof fn lemma_first_with_key(members: Seq<JsonMember>, key: Seq<char>)
    ensures
        match spec_first_with_key(members, key) {
            Some(v) => exists|i: int|
                0 <= i < members.len() && (#[trigger] members[i]).key@ == key && members[i].value == v
                    && forall|j: int| 0 <= j < i ==> (#[trigger] members[j]).key@ != key,
            None => forall|j: int| 0 <= j < members.len() ==> (#[trigger] members[j]).key@ != key,
        },
    decreases members.len(),
{
    if members.len() == 0 {
    } else if members[0].key@ == key {
        assert(members[0].key@ == key && members[0].value == members[0].value);
    } else {
        let rest = members.drop_first();
        lemma_first_with_key(rest, key);
        assert(forall|j: int| 0 <= j < rest.len() ==> rest[j] == members[j + 1]);
        match spec_first_with_key(rest, key) {
            Some(v) => {
                let i = choose|i: int|
                    0 <= i < rest.len() && (#[trigger] rest[i]).key@ == key && rest[i].value == v
                        && forall|j: int| 0 <= j < i ==> (#[trigger] rest[j]).key@ != key;
                assert(members[i + 1].key@ == key && members[i + 1].value == v);
                assert forall|j: int| 0 <= j < i + 1 implies (#[trigger] members[j]).key@ != key by {
                    if j > 0 {
                        assert(rest[j - 1] == members[j]);
                    }
                }
            },
            None => {
                assert forall|j: int| 0 <= j < members.len() implies (#[trigger] members[j]).key@
                    != key by {
                    if j > 0 {
                        assert(rest[j - 1] == members[j]);
                    }
                }
            },
        }
    }
}

impl JsonValue {
    /// Whether the value is an object.
    pub open spec fn spec_is_object(self) -> bool {
        self is Object
    }

    /// The member named `key` of an object; `None` for a missing member and
    /// for a value that is no object.
    pub open spec fn spec_member(self, key: Seq<char>) -> Option<JsonValue> {
        match self {
            JsonValue::Object(members) => spec_first_with_key(members@, key),
            _ => None,
        }
    }

    /// The characters of a text; `None` for any other value.
    pub open spec fn spec_text(self) -> Option<Seq<char>> {
        match self {
            JsonValue::Text(s) => Some(s@),
            _ => None,
        }
    }

    /// The integer that the value holds; `None` for any other value.
    pub open spec fn spec_integer(self) -> Option<i64> {
        match self {
            JsonValue::Integer(i) => Some(i),
            _ => None,
        }
    }

    /// The elements of an array; `None` for any other value.
    pub open spec fn spec_elements(self) -> Option<Seq<JsonValue>> {
        match self {
            JsonValue::Array(items) => Some(items@),
            _ => None,
        }
    }

    /// An object without members.
    pub fn empty_object() -> (r: JsonValue)
        ensures
            r matches JsonValue::Object(m) && m@.len() == 0,
    {
        JsonValue::Object(Vec::new())
    }

    /// A text value holding the characters of `s`.
    pub fn text(s: &str) -> (r: JsonValue)
        ensures
            r.spec_text() == Some(s@),
    {
        JsonValue::Text(s.to_owned())
    }

    /// Whether the value is an object.
    pub fn is_object(&self) -> (r: bool)
        ensures
            r == self.spec_is_object(),
    {
        match self {
            JsonValue::Object(_) => true,
            _ => false,
        }
    }

    /// Looks a member of an object up by its name.
    pub fn member(&self, key: &str) -> (r: Option<&JsonValue>)
        ensures
            match r {
                Some(v) => self.spec_member(key@) == Some(*v),
                None => self.spec_member(key@) is None,
            },
    {
        match self {
            JsonValue::Object(members) => {
                let mut i: usize = 0;
                assert(members@.skip(0) =~= members@);
                while i < members.len()
                    invariant
                        i <= members@.len(),
                        self.spec_member(key@) == spec_first_with_key(members@, key@),
                        spec_first_with_key(members@, key@) == spec_first_with_key(
                            members@.skip(i as int),
                            key@,
                        ),
                    decreases members@.len() - i,
                {
                    let ghost rest = members@.skip(i as int);
                    assert(rest[0] == members@[i as int]);
                    assert(rest.drop_first() == members@.skip(i + 1));
                    if same_text(members[i].key.as_str(), key) {
                        assert(spec_first_with_key(rest, key@) == Some(members@[i as int].value));
                        return Some(&members[i].value);
                    }
                    i += 1;
                }
                None
            },
            _ => None,
        }
    }

    /// The text that the value holds, if it is a text.
    pub fn as_text(&self) -> (r: Option<&String>)
        ensures
            match r {
                Some(s) => self.spec_text() == Some(s@),
                None => self.spec_text() is None,
            },
    {
        match self {
            JsonValue::Text(s) => Some(s),
            _ => None,
        }
    }

    /// The integer that the value holds, if it is one.
    pub fn as_integer(&self) -> (r: Option<i64>)
        ensures
            r == self.spec_integer(),
    {
        match self {
            JsonValue::Integer(i) => Some(*i),
            _ => None,
        }
    }

    /// The elements of the value, if it is an array.
    pub fn as_array(&self) -> (r: Option<&Vec<JsonValue>>)
        ensures
            match r {
                Some(items) => self.spec_elements() == Some(items@),
                None => self.spec_elements() is None,
            },
    {
        match self {
            JsonValue::Array(items) => Some(items),
            _ => None,
        }
    }
}

/// The value reached from `value` by following the member names of `path`
/// in order; `None` where a step meets no such member.
pub open spec fn spec_path(value: JsonValue, path: Seq<Seq<char>>) -> Option<JsonValue>
    decreases path.len(),
{
    if path.len() == 0 {
        Some(value)
    } else {
        match value.spec_member(path[0]) {
            Some(inner) => spec_path(inner, path.drop_first()),
            None => None,
        }
    }
}

/// An object with the one member `key`.
pub fn object_of_one(key: &str, value: JsonValue) -> (r: JsonValue)
    ensures
        r.spec_is_object(),
        r.spec_member(key@) == Some(value),
{
    let mut members: Vec<JsonMember> = Vec::new();
    members.push(JsonMember { key: key.to_owned(), value });
    JsonValue::Object(members)
}

/// An object with the two members `first_key` and `second_key`.
pub fn object_of_two(
    first_key: &str,
    first: JsonValue,
    second_key: &str,
    second: JsonValue,
) -> (r: JsonValue)
    requires
        first_key@ != second_key@,
    ensures
        r.spec_is_object(),
        r.spec_member(first_key@) == Some(first),
        r.spec_member(second_key@) == Some(second),
{
    let mut members: Vec<JsonMember> = Vec::new();
    members.push(JsonMember { key: first_key.to_owned(), value: first });
    members.push(JsonMember { key: second_key.to_owned(), value: second });
    proof {
        reveal_with_fuel(spec_first_with_key, 3);
        assert(members@.drop_first()[0] == members@[1]);
    }
    JsonValue::Object(members)
}

/// An object with the three members `first_key`, `second_key` and `third_key`.
pub fn object_of_three(
    first_key: &str,
    first: JsonValue,
    second_key: &str,
    second: JsonValue,
    third_key: &str,
    third: JsonValue,
) -> (r: JsonValue)
    requires
        first_key@ != second_key@,
        first_key@ != third_key@,
        second_key@ != third_key@,
    ensures
        r.spec_is_object(),
        r.spec_member(first_key@) == Some(first),
        r.spec_member(second_key@) == Some(second),
        r.spec_member(third_key@) == Some(third),
{
    let mut members: Vec<JsonMember> = Vec::new();
    members.push(JsonMember { key: first_key.to_owned(), value: first });
    members.push(JsonMember { key: second_key.to_owned(), value: second });
    members.push(JsonMember { key: third_key.to_owned(), value: third });
    proof {
        reveal_with_fuel(spec_first_with_key, 4);
        assert(members@.drop_first()[0] == members@[1]);
        assert(members@.drop_first().drop_first()[0] == members@[2]);
    }
    JsonValue::Object(members)
}

/// An array of the texts of `items`, in order.
pub fn array_of_texts(items: &Vec<String>) -> (r: JsonValue)
    ensures
        r.spec_elements() matches Some(elements) && elements.len() == items@.len() && forall|i: int|
            0 <= i < items@.len() ==> (#[trigger] elements[i]).spec_text() == Some(items@[i]@),
{
    let mut elements: Vec<JsonValue> = Vec::new();
    let mut i: usize = 0;
    while i < items.len()
        invariant
            i <= items@.len(),
            elements@.len() == i,
            forall|j: int| 0 <= j < i ==> (#[trigger] elements@[j]).spec_text() == Some(items@[j]@),
        decreases items@.len() - i,
    {
        elements.push(JsonValue::text(items[i].as_str()));
        i += 1;
    }
    JsonValue::Array(elements)
}

/// The value that a text decodes to as JSON, or `None` where the text is no
/// JSON document.
pub uninterp spec fn json_decoding(text: Seq<char>) -> Option<JsonValue>;

/// Turns a value of `serde_json` into a tree, variant by variant: a number
/// becomes `Integer` where `Number::as_i64` gives one and `Number` otherwise,
/// and the members of an object keep the order in which its map yields them.
/// Nothing is claimed of the result here; the claim is made where a text is
/// decoded.
#[verifier::external_body]
fn tree_of(value: &serde_json::Value) -> JsonValue {
    match value {
        serde_json::Value::Null => JsonValue::Null,
        serde_json::Value::Bool(b) => JsonValue::Bool(*b),
        serde_json::Value::Number(n) => n.as_i64().map_or(JsonValue::Number, JsonValue::Integer),
        serde_json::Value::String(s) => JsonValue::Text(s.clone()),
        serde_json::Value::Array(items) => JsonValue::Array(items.iter().map(tree_of).collect()),
        serde_json::Value::Object(map) => JsonValue::Object(
            map.iter().map(|(k, v)| JsonMember { key: k.clone(), value: tree_of(v) }).collect(),
        ),
    }
}

/// Calls `serde_json::from_str` for a `serde_json::Value` and turns the
/// value into a tree. The result is a function of the text alone; the claim
/// here is only that it is the decoding named above, with `Err` standing for
/// `None`.
#[verifier::external_body]
fn decode_text(text: &str) -> (r: Result<JsonValue, serde_json::Error>)
    ensures
        match r {
            Ok(value) => json_decoding(text@) == Some(value),
            Err(_) => json_decoding(text@) is None,
        },
{
    serde_json::from_str::<serde_json::Value>(text).map(|value| tree_of(&value))
}

/// The message of a decoding error, as its `Display` impl writes it.
/// Nothing is claimed of the text.
#[verifier::external_body]
fn error_text(error: &serde_json::Error) -> String {
    error.to_string()
}

/// Decodes a JSON document; a text that is none is answered with the
/// decoder's complaint.
pub fn decode(text: &str) -> (r: Result<JsonValue, String>)
    ensures
        match r {
            Ok(value) => json_decoding(text@) == Some(value),
            Err(_) => json_decoding(text@) is None,
        },
{
    match decode_text(text) {
        Ok(value) => Ok(value),
        Err(error) => Err(error_text(&error)),
    }
}

/// What the text of a stored column decodes to: `None` for a column
/// without a value and for a text that is no JSON document.
pub open spec fn spec_decode_stored(stored: Option<String>) -> Option<JsonValue> {
    match stored {
        None => None,
        Some(text) => json_decoding(text@),
    }
}

/// Decodes the text of a stored column.
pub fn decode_stored(stored: Option<String>) -> (r: Option<JsonValue>)
    ensures
        r == spec_decode_stored(stored),
{
    match stored {
        None => None,
        Some(text) => match decode(text.as_str()) {
            Ok(value) => Some(value),
            Err(_) => None,
        },
    }
}

} // verus!
