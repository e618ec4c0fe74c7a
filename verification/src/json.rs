//! JSON documents: a model of the values that `serde_json` reads, and the
//! lookups that the reply and command-output parsers are built from.

use serde_json::Value;
use vstd::prelude::*;
use crate::text::{chars_of, same_chars};

verus! {

/// A JSON document as `serde_json` holds it. Nothing of its inside is visible
/// here: `json_of_value` turns it into a `Json`.
#[verifier::external_type_specification]
#[verifier::external_body]
pub struct ExValue(Value);

/// A JSON number: a non-negative integer, a negative integer, or a number
/// with a fraction or an exponent, whose value is not kept.
#[derive(Clone, Copy, Debug, PartialEq, Eq, Structural)]
pub enum JsonNumber {
    PosInt(u64),
    NegInt(i64),
    Float,
}

/// One member of a JSON object.
#[derive(Debug)]
pub struct JsonField {
    pub name: String,
    pub value: Json,
}

/// A JSON value.
#[derive(Debug)]
pub enum Json {
    Null,
    Bool(bool),
    Number(JsonNumber),
    String(String),
    Array(Vec<Json>),
    Object(Vec<JsonField>),
}

/// What a JSON value holds.
pub enum JsonView {
    Null,
    Bool(bool),
    Number(JsonNumber),
    String(Seq<char>),
    Array(Seq<JsonView>),
    Object(Seq<(Seq<char>, JsonView)>),
}

impl View for Json {
    type V = JsonView;

    open spec fn view(&self) -> JsonView
        decreases self,
    {
        match self {
            Json::Null => JsonView::Null,
            Json::Bool(b) => JsonView::Bool(*b),
            Json::Number(n) => JsonView::Number(*n),
            Json::String(s) => JsonView::String(s@),
            Json::Array(items) => JsonView::Array(json_views(items@)),
            Json::Object(fields) => JsonView::Object(field_views(fields@)),
        }
    }
}

/// What a list of JSON values holds, in order.
pub open spec fn json_views(items: Seq<Json>) -> Seq<JsonView>
    decreases items,
{
    if items.len() == 0 {
        Seq::empty()
    } else {
        json_views(items.drop_last()).push(items.last().view())
    }
}

/// What a list of object members holds, in order: each member's name and
/// value.
pub open spec fn field_views(fields: Seq<JsonField>) -> Seq<(Seq<char>, JsonView)>
    decreases fields,
{
    if fields.len() == 0 {
        Seq::empty()
    } else {
        field_views(fields.drop_last()).push((fields.last().name@, fields.last().value.view()))
    }
}

/// `json_views` keeps the length and takes each item's view.
pub proof fn lemma_json_views(items: Seq<Json>)
    ensures
        json_views(items).len() == items.len(),
        forall|i: int| 0 <= i < items.len() ==> (#[trigger] json_views(items)[i]) == items[i]@,
    decreases items.len(),
{
    if items.len() > 0 {
        lemma_json_views(items.drop_last());
        assert(json_views(items) == json_views(items.drop_last()).push(items.last().view()));
    } else {
        assert(json_views(items) == Seq::<JsonView>::empty());
    }
}

/// `field_views` keeps the length and takes each member's name and value.
pub proof fn lemma_field_views(fields: Seq<JsonField>)
    ensures
        field_views(fields).len() == fields.len(),
        forall|i: int|
            0 <= i < fields.len() ==> (#[trigger] field_views(fields)[i]) == (
                fields[i].name@,
                fields[i].value@,
            ),
    decreases fields.len(),
{
    if fields.len() > 0 {
        lemma_field_views(fields.drop_last());
        assert(field_views(fields) == field_views(fields.drop_last()).push(
            (fields.last().name@, fields.last().value.view()),
        ));
    } else {
        assert(field_views(fields) == Seq::<(Seq<char>, JsonView)>::empty());
    }
}

/// What `serde_json::from_str` makes of a text: the document that the text
/// denotes, or the message of the error that it reports.
pub uninterp spec fn json_text(text: Seq<char>) -> Result<JsonView, Seq<char>>;

/// The document that a `serde_json::Value` holds.
pub uninterp spec fn value_json(value: Value) -> JsonView;

/// Calls `serde_json::from_str` for a `serde_json::Value`. The result is the
/// document that the text denotes; on an error, the error's own message.
#[verifier::external_body]
fn read_value(text: &str) -> (read: Result<Value, String>)
    ensures
        match read {
            Ok(value) => json_text(text@) == Ok::<JsonView, Seq<char>>(value_json(value)),
            Err(message) => json_text(text@) == Err::<JsonView, Seq<char>>(message@),
        },
{
    serde_json::from_str::<Value>(text).map_err(|e| e.to_string())
}

/// Copies a `serde_json::Value` into a `Json`, variant by variant. A number
/// is told apart by `Number::as_u64` and `Number::as_i64`; the members of an
/// object come in the order in which `serde_json::Map` hands them out.
#[verifier::external_body]
fn json_of_value(value: &Value) -> (json: Json)
    ensures
        json@ == value_json(*value),
{
    match value {
        Value::Null => Json::Null,
        Value::Bool(b) => Json::Bool(*b),
        Value::Number(n) => Json::Number(
            n.as_u64().map(JsonNumber::PosInt).or(n.as_i64().map(JsonNumber::NegInt)).unwrap_or(
                JsonNumber::Float,
            ),
        ),
        Value::String(s) => Json::String(s.clone()),
        Value::Array(a) => Json::Array(a.iter().map(json_of_value).collect()),
        Value::Object(o) => Json::Object(
            o.iter().map(|(k, v)| JsonField { name: k.clone(), value: json_of_value(v) }).collect(),
        ),
    }
}

/// Reads a JSON document from a text.
pub fn parse_json(text: &str) -> (parsed: Result<Json, String>)
    ensures
        match parsed {
            Ok(json) => json_text(text@) == Ok::<JsonView, Seq<char>>(json@),
            Err(message) => json_text(text@) == Err::<JsonView, Seq<char>>(message@),
        },
{
    match read_value(text) {
        Ok(value) => Ok(json_of_value(&value)),
        Err(message) => Err(message),
    }
}


/// The value of the first member named `key` among `fields`, from position
/// `from` on.
pub open spec fn field_from(
    fields: Seq<(Seq<char>, JsonView)>,
    key: Seq<char>,
    from: int,
) -> Option<JsonView>
    decreases fields.len() - from,
{
    if from < 0 || from >= fields.len() {
        None
    } else if fields[from].0 == key {
        Some(fields[from].1)
    } else {
        field_from(fields, key, from + 1)
    }
}

/// The member `key` of an object. Anything but an object has no members.
pub open spec fn member(value: JsonView, key: Seq<char>) -> Option<JsonView> {
    match value {
        JsonView::Object(fields) => field_from(fields, key, 0),
        _ => None,
    }
}

/// The text of a string value.
pub open spec fn text_of(value: JsonView) -> Option<Seq<char>> {
    match value {
        JsonView::String(text) => Some(text),
        _ => None,
    }
}

/// The truth value of a boolean value.
pub open spec fn bool_of(value: JsonView) -> Option<bool> {
    match value {
        JsonView::Bool(b) => Some(b),
        _ => None,
    }
}

/// The number of a non-negative integer value.
pub open spec fn u64_of(value: JsonView) -> Option<u64> {
    match value {
        JsonView::Number(JsonNumber::PosInt(n)) => Some(n),
        _ => None,
    }
}

/// The number of an integer value that fits 32 bits with a sign.
pub open spec fn i32_of(value: JsonView) -> Option<i32> {
    match value {
        JsonView::Number(JsonNumber::PosInt(n)) => if n <= i32::MAX {
            Some(n as i32)
        } else {
            None
        },
        JsonView::Number(JsonNumber::NegInt(n)) => if i32::MIN <= n <= i32::MAX {
            Some(n as i32)
        } else {
            None
        },
        _ => None,
    }
}

/// The items of an array value.
pub open spec fn items_of(value: JsonView) -> Option<Seq<JsonView>> {
    match value {
        JsonView::Array(items) => Some(items),
        _ => None,
    }
}

/// The members of an object value.
pub open spec fn fields_of(value: JsonView) -> Option<Seq<(Seq<char>, JsonView)>> {
    match value {
        JsonView::Object(fields) => Some(fields),
        _ => None,
    }
}

impl Json {
    /// The member `key` of this object.
    pub fn get(&self, key: &str) -> (found: Option<&Json>)
        ensures
            match found {
                Some(value) => member(self@, key@) == Some(value@),
                None => member(self@, key@) is None,
            },
    {
        match self {
            Json::Object(fields) => {
                assert(self@ == JsonView::Object(field_views(fields@)));
                let wanted = chars_of(key);
                let mut i: usize = 0;
                while i < fields.len()
                    invariant
                        i <= fields.len(),
                        wanted@ == key@,
                        self@ == JsonView::Object(field_views(fields@)),
                        field_from(field_views(fields@), key@, 0) == field_from(
                            field_views(fields@),
                            key@,
                            i as int,
                        ),
                    decreases fields.len() - i,
                {
                    proof {
                        lemma_field_views(fields@);
                    }
                    let name = chars_of(fields[i].name.as_str());
                    if same_chars(&name, &wanted) {
                        return Some(&fields[i].value);
                    }
                    i += 1;
                }
                proof {
                    lemma_field_views(fields@);
                }
                None
            },
            _ => None,
        }
    }

    /// The text of this string.
    pub fn as_str(&self) -> (text: Option<&String>)
        ensures
            match text {
                Some(t) => text_of(self@) == Some(t@),
                None => text_of(self@) is None,
            },
    {
        match self {
            Json::String(t) => Some(t),
            _ => None,
        }
    }

    /// The truth value of this boolean.
    pub fn as_bool(&self) -> (b: Option<bool>)
        ensures
            b == bool_of(self@),
    {
        match self {
            Json::Bool(b) => Some(*b),
            _ => None,
        }
    }

    /// The number of this non-negative integer.
    pub fn as_u64(&self) -> (n: Option<u64>)
        ensures
            n == u64_of(self@),
    {
        match self {
            Json::Number(JsonNumber::PosInt(n)) => Some(*n),
            _ => None,
        }
    }

    /// The number of this integer, if it fits 32 bits with a sign.
    pub fn as_i32(&self) -> (n: Option<i32>)
        ensures
            n == i32_of(self@),
    {
        match self {
            Json::Number(JsonNumber::PosInt(n)) => if *n <= 2147483647 {
                Some(*n as i32)
            } else {
                None
            },
            Json::Number(JsonNumber::NegInt(n)) => if -2147483648 <= *n && *n <= 2147483647 {
                Some(*n as i32)
            } else {
                None
            },
            _ => None,
        }
    }

    /// The items of this array.
    pub fn as_array(&self) -> (items: Option<&Vec<Json>>)
        ensures
            match items {
                Some(list) => items_of(self@) == Some(json_views(list@)),
                None => items_of(self@) is None,
            },
    {
        match self {
            Json::Array(list) => {
                assert(self@ == JsonView::Array(json_views(list@)));
                Some(list)
            },
            _ => None,
        }
    }

    /// The members of this object.
    pub fn as_object(&self) -> (fields: Option<&Vec<JsonField>>)
        ensures
            match fields {
                Some(list) => fields_of(self@) == Some(field_views(list@)),
                None => fields_of(self@) is None,
            },
    {
        match self {
            Json::Object(list) => {
                assert(self@ == JsonView::Object(field_views(list@)));
                Some(list)
            },
            _ => None,
        }
    }
}


/// The text of the member `key` of an object, if it is a string.
pub open spec fn member_text(value: JsonView, key: Seq<char>) -> Option<Seq<char>> {
    match member(value, key) {
        Some(field) => text_of(field),
        None => None,
    }
}

/// The truth value of the member `key` of an object, if it is a boolean.
pub open spec fn member_bool(value: JsonView, key: Seq<char>) -> Option<bool> {
    match member(value, key) {
        Some(field) => bool_of(field),
        None => None,
    }
}

/// The number of the member `key` of an object, if it is a non-negative
/// integer.
pub open spec fn member_u64(value: JsonView, key: Seq<char>) -> Option<u64> {
    match member(value, key) {
        Some(field) => u64_of(field),
        None => None,
    }
}

impl Json {
    /// The text of the member `key`, if it is a string.
    pub fn get_str(&self, key: &str) -> (text: Option<&String>)
        ensures
            match text {
                Some(t) => member_text(self@, key@) == Some(t@),
                None => member_text(self@, key@) is None,
            },
    {
        match self.get(key) {
            Some(field) => field.as_str(),
            None => None,
        }
    }

    /// The truth value of the member `key`, if it is a boolean.
    pub fn get_bool(&self, key: &str) -> (b: Option<bool>)
        ensures
            b == member_bool(self@, key@),
    {
        match self.get(key) {
            Some(field) => field.as_bool(),
            None => None,
        }
    }

    /// The number of the member `key`, if it is a non-negative integer.
    pub fn get_u64(&self, key: &str) -> (n: Option<u64>)
        ensures
            n == member_u64(self@, key@),
    {
        match self.get(key) {
            Some(field) => field.as_u64(),
            None => None,
        }
    }
}

} // verus!
