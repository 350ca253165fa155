//! JSON documents as plain values, and the reading of a document from text.
//!
//! The text is read by `serde_json`. What it yields is carried over, value
//! by value, into [`JsonValue`], on which the rest of the library works.

use vstd::prelude::*;
use crate::text::text_eq;
use crate::text::texts;

verus! {

/// A JSON document. A number keeps the text in which `serde_json` prints it;
/// an object keeps its members in the order in which `serde_json` walks them.
#[derive(Debug, PartialEq, Eq)]
pub enum JsonValue {
    Null,
    Bool(bool),
    Number(String),
    Text(String),
    Array(Vec<JsonValue>),
    Object(Vec<(String, JsonValue)>),
}

/// The mathematical content of a [`JsonValue`].
pub enum JsonData {
    Null,
    Bool(bool),
    Number(Seq<char>),
    Text(Seq<char>),
    Array(Seq<JsonData>),
    Object(Seq<(Seq<char>, JsonData)>),
}

/// The content of a value: that of an array holds the contents of its
/// items, that of an object the names and contents of its members.
pub open spec fn json_data(value: JsonValue) -> JsonData
    decreases value,
{
    match value {
        JsonValue::Null => JsonData::Null,
        JsonValue::Bool(b) => JsonData::Bool(b),
        JsonValue::Number(s) => JsonData::Number(s@),
        JsonValue::Text(s) => JsonData::Text(s@),
        JsonValue::Array(items) => JsonData::Array(
            Seq::new(
                items@.len(),
                |i: int|
                    if 0 <= i < items@.len() {
                        json_data(items@[i])
                    } else {
                        JsonData::Null
                    },
            ),
        ),
        JsonValue::Object(fields) => JsonData::Object(
            Seq::new(
                fields@.len(),
                |i: int|
                    if 0 <= i < fields@.len() {
                        (fields@[i].0@, json_data(fields@[i].1))
                    } else {
                        (Seq::empty(), JsonData::Null)
                    },
            ),
        ),
    }
}

impl View for JsonValue {
    type V = JsonData;

    open spec fn view(&self) -> JsonData {
        json_data(*self)
    }
}

/// The contents of a list of values, in order.
pub open spec fn item_views(items: Seq<JsonValue>) -> Seq<JsonData> {
    Seq::new(items.len(), |i: int| items[i]@)
}

/// The names and contents of a list of members, in order.
pub open spec fn member_views(fields: Seq<(String, JsonValue)>) -> Seq<(Seq<char>, JsonData)> {
    Seq::new(fields.len(), |i: int| (fields[i].0@, fields[i].1@))
}

/// The content of an array is the contents of its items.
pub proof fn lemma_array_view(items: Vec<JsonValue>)
    ensures
        JsonValue::Array(items)@ == JsonData::Array(item_views(items@)),
{
    assert(JsonValue::Array(items)@->Array_0 =~= item_views(items@));
}

/// The content of an object is the names and contents of its members.
pub proof fn lemma_object_view(fields: Vec<(String, JsonValue)>)
    ensures
        JsonValue::Object(fields)@ == JsonData::Object(member_views(fields@)),
{
    assert(JsonValue::Object(fields)@->Object_0 =~= member_views(fields@));
}

/// The value of the first member of `fields` named `key`, if there is one.
pub open spec fn lookup(fields: Seq<(Seq<char>, JsonData)>, key: Seq<char>) -> Option<JsonData>
    decreases fields.len(),
{
    if fields.len() == 0 {
        None
    } else if fields[0].0 == key {
        Some(fields[0].1)
    } else {
        lookup(fields.drop_first(), key)
    }
}

/// The texts of `items` if every one of them is a JSON string.
pub open spec fn text_items(items: Seq<JsonData>) -> Option<Seq<Seq<char>>> {
    if forall|i: int| 0 <= i < items.len() ==> (#[trigger] items[i]).text() is Some {
        Some(Seq::new(items.len(), |i: int| items[i].text().unwrap()))
    } else {
        None
    }
}

impl JsonData {
    /// The text of a JSON string.
    pub open spec fn text(self) -> Option<Seq<char>> {
        match self {
            JsonData::Text(s) => Some(s),
            _ => None,
        }
    }

    /// The printed form of a JSON number.
    pub open spec fn number(self) -> Option<Seq<char>> {
        match self {
            JsonData::Number(s) => Some(s),
            _ => None,
        }
    }

    /// The members of a JSON object.
    pub open spec fn members(self) -> Option<Seq<(Seq<char>, JsonData)>> {
        match self {
            JsonData::Object(fields) => Some(fields),
            _ => None,
        }
    }

    /// The texts of a JSON array that holds strings only.
    pub open spec fn text_list(self) -> Option<Seq<Seq<char>>> {
        match self {
            JsonData::Array(items) => text_items(items),
            _ => None,
        }
    }
}

impl JsonValue {
    /// The text of a JSON string, `None` for any other value.
    pub fn as_text(&self) -> (r: Option<&str>)
        ensures
            r is Some <==> self@.text() is Some,
            r matches Some(s) ==> self@.text() == Some(s@),
    {
        match self {
            JsonValue::Text(s) => Some(s.as_str()),
            _ => None,
        }
    }

    /// The printed form of a JSON number, `None` for any other value.
    pub fn as_number(&self) -> (r: Option<&str>)
        ensures
            r is Some <==> self@.number() is Some,
            r matches Some(s) ==> self@.number() == Some(s@),
    {
        match self {
            JsonValue::Number(s) => Some(s.as_str()),
            _ => None,
        }
    }

    /// The members of a JSON object, `None` for any other value.
    pub fn as_object(&self) -> (r: Option<&Vec<(String, JsonValue)>>)
        ensures
            r is Some <==> self@.members() is Some,
            r matches Some(fields) ==> self@.members() == Some(member_views(fields@)),
    {
        match self {
            JsonValue::Object(fields) => {
                proof {
                    lemma_object_view(*fields);
                }
                Some(fields)
            },
            _ => None,
        }
    }

    /// The strings of an array of strings; `None` for any other value, an
    /// array with one element that is not a string included.
    pub fn as_text_list(&self) -> (r: Option<Vec<String>>)
        ensures
            r is Some <==> self@.text_list() is Some,
            r matches Some(list) ==> self@.text_list() == Some(texts(list@)),
    {
        match self {
            JsonValue::Array(items) => {
                proof {
                    lemma_array_view(*items);
                }
                let mut out: Vec<String> = Vec::new();
                let mut i: usize = 0;
                while i < items.len()
                    invariant
                        i <= items.len(),
                        out@.len() == i,
                        self@.text_list() == text_items(item_views(items@)),
                        forall|j: int|
                            0 <= j < i ==> (#[trigger] item_views(items@)[j]).text() == Some(
                                out@[j]@,
                            ),
                    decreases items.len() - i,
                {
                    match items[i].as_text() {
                        Some(s) => {
                            out.push(s.to_owned());
                        },
                        None => {
                            assert(item_views(items@)[i as int].text() is None);
                            return None;
                        },
                    }
                    i += 1;
                }
                assert(text_items(item_views(items@)).unwrap() =~= texts(out@));
                Some(out)
            },
            _ => None,
        }
    }
}

/// Looks a member up by name: the value of the first member of that name.
pub fn find<'a>(fields: &'a Vec<(String, JsonValue)>, key: &str) -> (r: Option<&'a JsonValue>)
    ensures
        r is Some <==> lookup(member_views(fields@), key@) is Some,
        r matches Some(v) ==> lookup(member_views(fields@), key@) == Some(v@),
{
    let ghost all = member_views(fields@);
    let mut i: usize = 0;
    assert(all.subrange(0, all.len() as int) =~= all);
    while i < fields.len()
        invariant
            i <= fields.len(),
            all == member_views(fields@),
            lookup(all, key@) == lookup(all.subrange(i as int, all.len() as int), key@),
        decreases fields.len() - i,
    {
        let ghost rest = all.subrange(i as int, all.len() as int);
        assert(rest[0] == all[i as int]);
        assert(rest.drop_first() =~= all.subrange(i + 1, all.len() as int));
        if text_eq(fields[i].0.as_str(), key) {
            return Some(&fields[i].1);
        }
        i += 1;
    }
    None
}

#[verifier::external_type_specification]
#[verifier::external_body]
pub struct ExValue(serde_json::Value);

#[verifier::external_type_specification]
#[verifier::external_body]
pub struct ExError(serde_json::Error);

/// The document that `serde_json` reads from `text`, `None` where it reports
/// an error.
pub uninterp spec fn json_document(text: Seq<char>) -> Option<JsonData>;

/// What a `serde_json::Value` holds.
pub uninterp spec fn value_content(value: serde_json::Value) -> JsonData;

/// The variant of a `serde_json::Value`, with what the variant carries.
enum Variant<'a> {
    Null,
    Bool(bool),
    Number(String),
    Text(&'a str),
    Array(&'a Vec<serde_json::Value>),
    Object(Vec<(&'a String, &'a serde_json::Value)>),
}

/// What the items of an array hold, in order.
spec fn item_contents(items: Seq<serde_json::Value>) -> Seq<JsonData> {
    Seq::new(items.len(), |i: int| value_content(items[i]))
}

/// The names of the members of an object and what they hold, in order.
spec fn member_contents(members: Seq<(&String, &serde_json::Value)>) -> Seq<
    (Seq<char>, JsonData),
> {
    Seq::new(members.len(), |i: int| (members[i].0@, value_content(*members[i].1)))
}

/// What a value of the given variant holds.
spec fn variant_content(variant: Variant) -> JsonData {
    match variant {
        Variant::Null => JsonData::Null,
        Variant::Bool(b) => JsonData::Bool(b),
        Variant::Number(printed) => JsonData::Number(printed@),
        Variant::Text(text) => JsonData::Text(text@),
        Variant::Array(items) => JsonData::Array(item_contents(items@)),
        Variant::Object(members) => JsonData::Object(member_contents(members@)),
    }
}

/// Calls `serde_json::from_str` for a `serde_json::Value`. The contract names
/// the outcome and claims only that it is fixed by the text.
#[verifier::external_body]
fn read_value(text: &str) -> (r: Result<serde_json::Value, serde_json::Error>)
    ensures
        r matches Ok(value) ==> json_document(text@) == Some(value_content(value)),
        r is Err ==> json_document(text@) is None,
{
    serde_json::from_str::<serde_json::Value>(text)
}

/// Tells the variants of `serde_json::Value` apart and hands out what each
/// carries: a number in the form in which `serde_json::Number` prints it, the
/// members of an object in the order in which `serde_json::Map::iter` walks
/// them. The contract says that a value holds what its variant carries.
#[verifier::external_body]
fn variant_of(value: &serde_json::Value) -> (r: Variant<'_>)
    ensures
        variant_content(r) == value_content(*value),
{
    match value {
        serde_json::Value::Null => Variant::Null,
        serde_json::Value::Bool(b) => Variant::Bool(*b),
        serde_json::Value::Number(n) => Variant::Number(n.to_string()),
        serde_json::Value::String(s) => Variant::Text(s),
        serde_json::Value::Array(a) => Variant::Array(a),
        serde_json::Value::Object(o) => Variant::Object(o.iter().collect()),
    }
}

/// Carries a `serde_json::Value` over into a [`JsonValue`].
fn lift(value: &serde_json::Value) -> (r: JsonValue)
    ensures
        r@ == value_content(*value),
    decreases value_content(*value),
{
    match variant_of(value) {
        Variant::Null => JsonValue::Null,
        Variant::Bool(b) => JsonValue::Bool(b),
        Variant::Number(printed) => JsonValue::Number(printed),
        Variant::Text(text) => JsonValue::Text(text.to_owned()),
        Variant::Array(items) => {
            let mut out: Vec<JsonValue> = Vec::new();
            let mut i: usize = 0;
            while i < items.len()
                invariant
                    i <= items.len(),
                    out@.len() == i,
                    value_content(*value) == JsonData::Array(item_contents(items@)),
                    forall|j: int| 0 <= j < i ==> (#[trigger] out@[j])@ == value_content(items@[j]),
                decreases items.len() - i,
            {
                proof {
                    let whole = value_content(*value);
                    let all = item_contents(items@);
                    assert(whole->Array_0 == all);
                    assert(all[i as int] == value_content(items@[i as int]));
                    assert(decreases_to!(whole => whole->Array_0));
                    assert(decreases_to!(all => all[i as int]));
                }
                out.push(lift(&items[i]));
                i += 1;
            }
            proof {
                lemma_array_view(out);
                assert(item_views(out@) =~= item_contents(items@));
            }
            JsonValue::Array(out)
        },
        Variant::Object(members) => {
            let mut out: Vec<(String, JsonValue)> = Vec::new();
            let mut i: usize = 0;
            while i < members.len()
                invariant
                    i <= members.len(),
                    out@.len() == i,
                    value_content(*value) == JsonData::Object(member_contents(members@)),
                    forall|j: int|
                        0 <= j < i ==> (#[trigger] out@[j]).0@ == members@[j].0@ && out@[j].1@
                            == value_content(*members@[j].1),
                decreases members.len() - i,
            {
                proof {
                    let whole = value_content(*value);
                    let all = member_contents(members@);
                    assert(whole->Object_0 == all);
                    assert(all[i as int].1 == value_content(*members@[i as int].1));
                    assert(decreases_to!(whole => whole->Object_0));
                    assert(decreases_to!(all => all[i as int]));
                    assert(decreases_to!(all[i as int] => all[i as int].1));
                }
                let name = members[i].0.clone();
                let member = lift(members[i].1);
                out.push((name, member));
                i += 1;
            }
            proof {
                lemma_object_view(out);
                assert(member_views(out@) =~= member_contents(members@));
            }
            JsonValue::Object(out)
        },
    }
}

/// The content of an optional document.
pub open spec fn document_view(document: Option<JsonValue>) -> Option<JsonData> {
    match document {
        Some(value) => Some(value@),
        None => None,
    }
}

/// Reads a JSON document from text; `None` where the text is not JSON.
pub fn parse_json(text: &str) -> (r: Option<JsonValue>)
    ensures
        document_view(r) == json_document(text@),
{
    match read_value(text) {
        Ok(value) => Some(lift(&value)),
        Err(_) => None,
    }
}

} // verus!
