//! A JSON document as a tree of plain values.

use vstd::prelude::*;
use vstd::string::*;
use crate::assoc::lookup;
use crate::text::texts;

verus! {

/// `serde_json::Value`, as an opaque type: it is only handed from the parser
/// to the copy into a [`Json`], and from the copy out of one to the
/// serializer.
#[verifier::external_type_specification]
#[verifier::external_body]
pub struct ExValue(serde_json::Value);

/// A JSON document. A number is kept as its decimal text; an object keeps its
/// members in document order.
#[derive(Debug)]
pub enum Json {
    Null,
    Bool(bool),
    Number(String),
    Text(String),
    Array(Vec<Json>),
    Object(Vec<(String, Json)>),
}

/// The mathematical value of a [`Json`] document.
pub enum JsonValue {
    Null,
    Bool(bool),
    Number(Seq<char>),
    Text(Seq<char>),
    Array(Seq<JsonValue>),
    Object(Seq<(Seq<char>, JsonValue)>),
}

/// The value of a document.
pub open spec fn value_of(document: Json) -> JsonValue
    decreases document,
{
    match document {
        Json::Null => JsonValue::Null,
        Json::Bool(b) => JsonValue::Bool(b),
        Json::Number(n) => JsonValue::Number(n@),
        Json::Text(s) => JsonValue::Text(s@),
        Json::Array(items) => JsonValue::Array(
            Seq::new(
                items@.len(),
                |i: int| if 0 <= i < items@.len() { value_of(items@[i]) } else { JsonValue::Null },
            ),
        ),
        Json::Object(members) => JsonValue::Object(
            Seq::new(
                members@.len(),
                |i: int| if 0 <= i < members@.len() {
                    (members@[i].0@, value_of(members@[i].1))
                } else {
                    (Seq::empty(), JsonValue::Null)
                },
            ),
        ),
    }
}

impl View for Json {
    type V = JsonValue;

    open spec fn view(&self) -> JsonValue {
        value_of(*self)
    }
}

/// The members of an object, each name and value by its view.
pub open spec fn object_members(members: Seq<(String, Json)>) -> Seq<(Seq<char>, JsonValue)> {
    Seq::new(members.len(), |i: int| (members[i].0@, members[i].1@))
}

/// The items of an array, each by its view.
pub open spec fn array_items(items: Seq<Json>) -> Seq<JsonValue> {
    Seq::new(items.len(), |i: int| items[i]@)
}

/// The view of an object is the list of its members' views.
pub proof fn lemma_object_view(members: Vec<(String, Json)>)
    ensures
        Json::Object(members)@ == JsonValue::Object(object_members(members@)),
{
    assert(Json::Object(members)@->Object_0 =~= object_members(members@));
}

/// The view of an array is the list of its items' views.
pub proof fn lemma_array_view(items: Vec<Json>)
    ensures
        Json::Array(items)@ == JsonValue::Array(array_items(items@)),
{
    assert(Json::Array(items)@->Array_0 =~= array_items(items@));
}

/// The text held by a value that is a string.
pub open spec fn text_in(value: Option<JsonValue>) -> Option<Seq<char>> {
    match value {
        Some(JsonValue::Text(s)) => Some(s),
        _ => None,
    }
}

/// The members held by a value that is an object.
pub open spec fn members_in(value: Option<JsonValue>) -> Option<Seq<(Seq<char>, JsonValue)>> {
    match value {
        Some(JsonValue::Object(m)) => Some(m),
        _ => None,
    }
}

/// What the JSON parser makes of a text: the document it holds, or nothing
/// where the text is not one JSON document.
pub uninterp spec fn document_in(text: Seq<char>) -> Option<JsonValue>;

/// The JSON text that the serializer writes for a document.
pub uninterp spec fn text_of(document: JsonValue) -> Seq<char>;

/// Copies a `serde_json::Value` into a [`Json`], variant by variant: a number
/// becomes the text that `serde_json::Number` displays, an object's members
/// come in the order in which `serde_json::Map` iterates. Nothing is claimed
/// of the result.
#[verifier::external_body]
fn from_value(value: &serde_json::Value) -> Json {
    match value {
        serde_json::Value::Null => Json::Null,
        serde_json::Value::Bool(b) => Json::Bool(*b),
        serde_json::Value::Number(n) => Json::Number(n.to_string()),
        serde_json::Value::String(s) => Json::Text(s.clone()),
        serde_json::Value::Array(a) => Json::Array(a.iter().map(from_value).collect()),
        serde_json::Value::Object(o) => Json::Object(
            o.iter().map(|(k, v)| (k.clone(), from_value(v))).collect(),
        ),
    }
}

/// Copies a [`Json`] into a `serde_json::Value`, variant by variant: a number
/// is read back by `serde_json::Number`'s `FromStr` and becomes null where
/// that fails. Nothing is claimed of the result.
#[verifier::external_body]
fn to_value(document: &Json) -> serde_json::Value {
    match document {
        Json::Null => serde_json::Value::Null,
        Json::Bool(b) => serde_json::Value::Bool(*b),
        Json::Number(n) => n.parse().map(serde_json::Value::Number).unwrap_or(serde_json::Value::Null),
        Json::Text(s) => serde_json::Value::String(s.clone()),
        Json::Array(a) => serde_json::Value::Array(a.iter().map(to_value).collect()),
        Json::Object(o) => serde_json::Value::Object(
            o.iter().map(|(k, v)| (k.clone(), to_value(v))).collect(),
        ),
    }
}

/// `serde_json::from_str` on `text`, read as a `serde_json::Value`. The
/// contract claims only that the outcome is a function of the text: the
/// document is `document_in(text)`, and the call fails exactly where that is
/// nothing. The error carries the parser's message.
#[verifier::external_body]
fn parse_text(text: &str) -> (r: Result<Json, String>)
    ensures
        match r {
            Ok(document) => document_in(text@) == Some(document@),
            Err(_) => document_in(text@) is None,
        },
{
    match serde_json::from_str::<serde_json::Value>(text) {
        Ok(value) => Ok(from_value(&value)),
        Err(e) => Err(e.to_string()),
    }
}

/// `serde_json::to_string` on the document. The contract claims only that the
/// text is a function of the document's value: it is `text_of` of it.
#[verifier::external_body]
fn render_text(document: &Json) -> (r: String)
    ensures
        r@ == text_of(document@),
{
    serde_json::to_string(&to_value(document)).unwrap_or_default()
}

/// The first member called `key` among `members`.
pub fn member<'a>(members: &'a Vec<(String, Json)>, key: &str) -> (r: Option<&'a Json>)
    ensures
        match r {
            Some(value) => lookup(object_members(members@), key@) == Some(value@),
            None => lookup(object_members(members@), key@) is None,
        },
{
    let wanted = String::from_str(key);
    let ghost all = object_members(members@);
    let mut i: usize = 0;
    assert(all.skip(0) =~= all);
    while i < members.len()
        invariant
            i <= members.len(),
            wanted@ == key@,
            all == object_members(members@),
            lookup(all, key@) == lookup(all.skip(i as int), key@),
        decreases members.len() - i,
    {
        proof {
            let rest = all.skip(i as int);
            assert(rest[0] == all[i as int]);
            assert(rest.drop_first() =~= all.skip(i as int + 1));
        }
        if members[i].0 == wanted {
            return Some(&members[i].1);
        }
        i += 1;
    }
    assert(all.skip(i as int).len() == 0);
    None
}

impl Json {
    /// Reads one document from JSON text: the document that the parser makes
    /// of it, or the parser's message where the text is no JSON document.
    pub fn parse(text: &str) -> (r: Result<Json, String>)
        ensures
            match r {
                Ok(document) => document_in(text@) == Some(document@),
                Err(_) => document_in(text@) is None,
            },
    {
        parse_text(text)
    }

    /// The document as JSON text: what the serializer writes for it.
    pub fn render(&self) -> (r: String)
        ensures
            r@ == text_of(self@),
    {
        render_text(self)
    }

    /// The text of a document that is a string.
    pub fn as_text(&self) -> (r: Option<&String>)
        ensures
            match r {
                Some(s) => text_in(Some(self@)) == Some(s@),
                None => text_in(Some(self@)) is None,
            },
    {
        match self {
            Json::Text(s) => Some(s),
            _ => None,
        }
    }

    /// The members of a document that is an object.
    pub fn as_members(&self) -> (r: Option<&Vec<(String, Json)>>)
        ensures
            match r {
                Some(m) => members_in(Some(self@)) == Some(object_members(m@)),
                None => members_in(Some(self@)) is None,
            },
    {
        match self {
            Json::Object(m) => {
                proof {
                    lemma_object_view(*m);
                }
                Some(m)
            },
            _ => None,
        }
    }

    /// A copy of the document.
    pub fn duplicate(&self) -> (r: Json)
        ensures
            r@ == self@,
        decreases self,
    {
        match self {
            Json::Null => Json::Null,
            Json::Bool(b) => Json::Bool(*b),
            Json::Number(n) => Json::Number(n.clone()),
            Json::Text(s) => Json::Text(s.clone()),
            Json::Array(items) => {
                let mut out: Vec<Json> = Vec::new();
                let mut i: usize = 0;
                while i < items.len()
                    invariant
                        *self == Json::Array(*items),
                        i <= items.len(),
                        out.len() == i,
                        forall|k: int| 0 <= k < i ==> out@[k]@ == items@[k]@,
                    decreases items.len() - i,
                {
                    assert(decreases_to!(self => self->Array_0));
                    assert(decreases_to!(items => items[i as int]));
                    let c = items[i].duplicate();
                    out.push(c);
                    i += 1;
                }
                assert(Json::Array(out)@->Array_0 =~= self@->Array_0);
                Json::Array(out)
            },
            Json::Object(members) => {
                let mut out: Vec<(String, Json)> = Vec::new();
                let mut i: usize = 0;
                while i < members.len()
                    invariant
                        *self == Json::Object(*members),
                        i <= members.len(),
                        out.len() == i,
                        forall|k: int| 0 <= k < i ==> out@[k].0@ == members@[k].0@ && out@[k].1@ == members@[k].1@,
                    decreases members.len() - i,
                {
                    assert(decreases_to!(self => self->Object_0));
                    assert(decreases_to!(members => members[i as int]));
                    assert(decreases_to!(members[i as int] => members[i as int].1));
                    let c = members[i].1.duplicate();
                    out.push((members[i].0.clone(), c));
                    i += 1;
                }
                assert(Json::Object(out)@->Object_0 =~= self@->Object_0);
                Json::Object(out)
            },
        }
    }
}

/// The JSON strings of a list of texts.
pub open spec fn text_values(names: Seq<Seq<char>>) -> Seq<JsonValue> {
    Seq::new(names.len(), |i: int| JsonValue::Text(names[i]))
}

/// A member: a name and its value.
pub fn member_of(name: &str, value: Json) -> (r: (String, Json))
    ensures
        r.0@ == name@,
        r.1 == value,
{
    (String::from_str(name), value)
}

/// The object with the given members.
pub fn object_of(members: Vec<(String, Json)>) -> (r: Json)
    ensures
        r@ == JsonValue::Object(object_members(members@)),
{
    proof {
        lemma_object_view(members);
    }
    Json::Object(members)
}

/// The array of the given texts, each a JSON string.
pub fn names_to_json(names: &Vec<String>) -> (r: Json)
    ensures
        r@ == JsonValue::Array(text_values(texts(names@))),
{
    let mut out: Vec<Json> = Vec::new();
    let mut i: usize = 0;
    while i < names.len()
        invariant
            i <= names.len(),
            out.len() == i,
            forall|k: int| 0 <= k < i ==> out@[k]@ == JsonValue::Text(names@[k]@),
        decreases names.len() - i,
    {
        out.push(Json::Text(names[i].clone()));
        i += 1;
    }
    proof {
        lemma_array_view(out);
        assert(array_items(out@) =~= text_values(texts(names@)));
    }
    Json::Array(out)
}

} // verus!
