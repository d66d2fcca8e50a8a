//! JSON documents as the wire protocol needs them.
//!
//! A document is a tree of plain values. Reading text into a tree and
//! writing a tree out as text is the work of `serde_json`; what the library
//! builds and what it looks up in a tree is stated over the tree's view.

use vstd::prelude::*;

verus! {

/// A JSON document.
#[derive(Debug)]
pub enum Json {
    Null,
    Bool(bool),
    /// A whole number from 0 to `u64::MAX`.
    Integer(u64),
    /// A whole number below 0.
    Negative(i64),
    /// Any other number. Its value is not kept, and it is written as `null`.
    Real,
    Text(String),
    Array(Vec<Json>),
    /// The members of an object, each a key and a value.
    Object(Vec<(String, Json)>),
}

/// The mathematical value of a document.
pub ghost enum JsonValue {
    Null,
    Bool(bool),
    Integer(u64),
    Negative(i64),
    Real,
    Text(Seq<char>),
    Array(Seq<JsonValue>),
    Object(Seq<(Seq<char>, JsonValue)>),
}

/// The value of a document: that of each part, in place.
pub open spec fn value_of(json: Json) -> JsonValue
    decreases json,
{
    match json {
        Json::Null => JsonValue::Null,
        Json::Bool(b) => JsonValue::Bool(b),
        Json::Integer(n) => JsonValue::Integer(n),
        Json::Negative(n) => JsonValue::Negative(n),
        Json::Real => JsonValue::Real,
        Json::Text(s) => JsonValue::Text(s@),
        Json::Array(items) => JsonValue::Array(
            Seq::new(
                items@.len(),
                |i: int|
                    if 0 <= i < items@.len() {
                        value_of(items@[i])
                    } else {
                        JsonValue::Null
                    },
            ),
        ),
        Json::Object(members) => JsonValue::Object(
            Seq::new(
                members@.len(),
                |i: int|
                    if 0 <= i < members@.len() {
                        (members@[i].0@, value_of(members@[i].1))
                    } else {
                        (Seq::empty(), JsonValue::Null)
                    },
            ),
        ),
    }
}

impl View for Json {
    type V = JsonValue;

    open spec fn view(&self) -> JsonValue {
        value_of(*self)
    }
}

/// The value of the last member before index `upto` whose key is `key`.
pub open spec fn member_before(
    members: Seq<(Seq<char>, JsonValue)>,
    key: Seq<char>,
    upto: int,
) -> Option<JsonValue>
    decreases upto,
{
    if upto <= 0 || upto > members.len() {
        None
    } else if members[upto - 1].0 == key {
        Some(members[upto - 1].1)
    } else {
        member_before(members, key, upto - 1)
    }
}

impl JsonValue {
    /// The value of the member with this key, where the document is an
    /// object that has one. Of several members with one key the last counts,
    /// as it does when the document is written out.
    pub open spec fn member(self, key: Seq<char>) -> Option<JsonValue> {
        match self {
            JsonValue::Object(members) => member_before(members, key, members.len() as int),
            _ => None,
        }
    }

    /// The truth value, where the document is one.
    pub open spec fn as_bool(self) -> Option<bool> {
        match self {
            JsonValue::Bool(b) => Some(b),
            _ => None,
        }
    }

    /// The number, where the document is a whole number from 0 to
    /// `u64::MAX`.
    pub open spec fn as_unsigned(self) -> Option<u64> {
        match self {
            JsonValue::Integer(n) => Some(n),
            _ => None,
        }
    }

    /// The characters, where the document is a string.
    pub open spec fn as_text(self) -> Option<Seq<char>> {
        match self {
            JsonValue::Text(s) => Some(s),
            _ => None,
        }
    }
}

/// `serde_json::Value`, as an opaque value on its way into or out of a
/// document.
#[verifier::external_type_specification]
#[verifier::external_body]
pub struct ExValue(serde_json::Value);

/// `serde_json::Number`, as an opaque value on its way into a document.
#[verifier::external_type_specification]
#[verifier::external_body]
pub struct ExNumber(serde_json::Number);

/// The document that `serde_json::from_str` reads from a text, `None` where
/// it reads none.
pub uninterp spec fn parsed(text: Seq<char>) -> Option<JsonValue>;

/// The text that `serde_json` writes for a document: its compact form.
pub uninterp spec fn rendered(value: JsonValue) -> Seq<char>;

/// Tells the three kinds of `serde_json::Number` apart by `as_u64` and
/// `as_i64`: a number from 0 to `u64::MAX`, a negative whole number, any
/// other.
#[verifier::external_body]
fn lift_number(number: &serde_json::Number) -> Json {
    match (number.as_u64(), number.as_i64()) {
        (Some(n), _) => Json::Integer(n),
        (None, Some(n)) => Json::Negative(n),
        (None, None) => Json::Real,
    }
}

/// Turns a `serde_json::Value` into a document, variant by variant; the
/// members of an object come in the order in which its map hands them out.
#[verifier::external_body]
fn lift(value: serde_json::Value) -> Json {
    match value {
        serde_json::Value::Null => Json::Null,
        serde_json::Value::Bool(b) => Json::Bool(b),
        serde_json::Value::Number(n) => lift_number(&n),
        serde_json::Value::String(s) => Json::Text(s),
        serde_json::Value::Array(items) => Json::Array(items.into_iter().map(lift).collect()),
        serde_json::Value::Object(map) => Json::Object(
            map.into_iter().map(|(k, v)| (k, lift(v))).collect(),
        ),
    }
}

/// Turns a document into a `serde_json::Value`, variant by variant. A later
/// member replaces an earlier one of the same key, as the map does.
#[verifier::external_body]
fn lower(json: &Json) -> serde_json::Value {
    match json {
        Json::Null => serde_json::Value::Null,
        Json::Bool(b) => serde_json::Value::Bool(*b),
        Json::Integer(n) => serde_json::Value::from(*n),
        Json::Negative(n) => serde_json::Value::from(*n),
        Json::Real => serde_json::Value::Null,
        Json::Text(s) => serde_json::Value::String(s.clone()),
        Json::Array(items) => serde_json::Value::Array(items.iter().map(lower).collect()),
        Json::Object(members) => serde_json::Value::Object(
            members.iter().map(|(k, v)| (k.clone(), lower(v))).collect(),
        ),
    }
}

/// `serde_json::from_str`, read as a `serde_json::Value`: the document of
/// the text, or `None` where the text is no JSON. The result depends on the
/// text alone.
#[verifier::external_body]
fn read_document(text: &str) -> (r: Option<Json>)
    ensures
        match r {
            Some(json) => parsed(text@) == Some(json@),
            None => parsed(text@).is_none(),
        },
{
    serde_json::from_str::<serde_json::Value>(text).ok().map(lift)
}

/// `Display` of `serde_json::Value`: the compact text of the document. The
/// result depends on the document alone.
#[verifier::external_body]
fn write_document(json: &Json) -> (text: String)
    ensures
        text@ == rendered(json@),
{
    lower(json).to_string()
}

/// A member of an object: a key and a value.
pub fn field(key: &str, value: Json) -> (member: (String, Json))
    ensures
        member.0@ == key@,
        member.1 == value,
{
    (key.to_owned(), value)
}

/// The document that is a string of these characters.
pub fn text(characters: &str) -> (json: Json)
    ensures
        json@ == JsonValue::Text(characters@),
{
    Json::Text(characters.to_owned())
}

/// The object with these members, in this order.
pub fn object(members: Vec<(String, Json)>) -> (json: Json)
    ensures
        json@ == JsonValue::Object(Seq::new(members@.len(), |i: int| (members@[i].0@, members@[i].1@))),
{
    let json = Json::Object(members);
    assert(json@->Object_0 =~= Seq::new(
        members@.len(),
        |i: int| (members@[i].0@, members@[i].1@),
    ));
    json
}

/// The array with these items, in this order.
pub fn array(items: Vec<Json>) -> (json: Json)
    ensures
        json@ == JsonValue::Array(Seq::new(items@.len(), |i: int| items@[i]@)),
{
    let json = Json::Array(items);
    assert(json@->Array_0 =~= Seq::new(items@.len(), |i: int| items@[i]@));
    json
}

impl Json {
    /// Reads a document from a text.
    pub fn parse(text: &str) -> (r: Option<Json>)
        ensures
            match r {
                Some(json) => parsed(text@) == Some(json@),
                None => parsed(text@).is_none(),
            },
    {
        read_document(text)
    }

    /// Writes the document out as compact text.
    pub fn render(&self) -> (text: String)
        ensures
            text@ == rendered(self@),
    {
        write_document(self)
    }

    /// The value of the member with this key, where the document is an
    /// object that has one; of several members with one key, the last.
    pub fn member(&self, key: &str) -> (r: Option<&Json>)
        ensures
            match r {
                Some(value) => self@.member(key@) == Some(value@),
                None => self@.member(key@).is_none(),
            },
    {
        match self {
            Json::Object(members) => {
                let wanted: String = key.to_owned();
                let ghost model = self@->Object_0;
                let mut i: usize = members.len();
                while i > 0
                    invariant
                        i <= members@.len(),
                        wanted@ == key@,
                        self@ == JsonValue::Object(model),
                        model.len() == members@.len(),
                        forall|j: int|
                            0 <= j < members@.len() ==> model[j] == (
                                members@[j].0@,
                                members@[j].1@,
                            ),
                        member_before(model, key@, model.len() as int) == member_before(
                            model,
                            key@,
                            i as int,
                        ),
                    decreases i,
                {
                    i -= 1;
                    if members[i].0 == wanted {
                        assert(model[i as int] == (members@[i as int].0@, members@[i as int].1@));
                        return Some(&members[i].1);
                    }
                }
                None
            },
            _ => None,
        }
    }

    /// The truth value, where the document is one.
    pub fn as_bool(&self) -> (r: Option<bool>)
        ensures
            r == self@.as_bool(),
    {
        match self {
            Json::Bool(b) => Some(*b),
            _ => None,
        }
    }

    /// The number, where the document is a whole number from 0 to
    /// `u64::MAX`.
    pub fn as_unsigned(&self) -> (r: Option<u64>)
        ensures
            r == self@.as_unsigned(),
    {
        match self {
            Json::Integer(n) => Some(*n),
            _ => None,
        }
    }

    /// The characters, where the document is a string.
    pub fn as_text(&self) -> (r: Option<&String>)
        ensures
            match r {
                Some(s) => self@.as_text() == Some(s@),
                None => self@.as_text().is_none(),
            },
    {
        match self {
            Json::Text(s) => Some(s),
            _ => None,
        }
    }
}

} // verus!
