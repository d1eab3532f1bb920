//! JSON values: what they hold, how they are put together and how they are read.
use serde_json::Value;
use vstd::prelude::*;

verus! {

/// A JSON value.
#[verifier::external_type_specification]
#[verifier::external_body]
pub struct ExValue(serde_json::Value);

/// The fields of a JSON object.
#[verifier::external_type_specification]
#[verifier::external_body]
#[verifier::reject_recursive_types(K)]
#[verifier::reject_recursive_types(V)]
pub struct ExMap<K, V>(serde_json::Map<K, V>);

/// Why a text is no JSON.
#[verifier::external_type_specification]
#[verifier::external_body]
pub struct ExError(serde_json::Error);

/// What a JSON value holds. A number that is no integer is given as it is printed.
pub enum Json {
    Null,
    Bool(bool),
    Integer(int),
    Float(Seq<char>),
    Text(Seq<char>),
    Array(Seq<Json>),
    Object(Map<Seq<char>, Json>),
}

/// What a JSON value holds.
pub uninterp spec fn json_of(v: serde_json::Value) -> Json;

/// What the fields of a JSON object hold.
pub uninterp spec fn fields_of(m: serde_json::Map<String, serde_json::Value>) -> Map<
    Seq<char>,
    Json,
>;

/// What `serde_json::from_str` reads from a text, if the text is JSON.
pub uninterp spec fn parsed_json(text: Seq<char>) -> Option<Json>;

/// What `serde_json::to_string_pretty` makes of a value.
pub uninterp spec fn pretty_json(v: Json) -> Seq<char>;

/// An object without fields.
pub open spec fn no_fields() -> Map<Seq<char>, Json> {
    Map::empty()
}

/// What a list of values holds.
pub open spec fn json_list(items: Seq<Value>) -> Seq<Json> {
    items.map_values(|v: Value| json_of(v))
}

/// What an optional value holds.
pub open spec fn opt_json(v: Option<Value>) -> Option<Json> {
    match v {
        Some(v) => Some(json_of(v)),
        None => None,
    }
}

/// A list of texts in JSON.
pub open spec fn text_array(list: Seq<Seq<char>>) -> Json {
    Json::Array(list.map_values(|s: Seq<char>| Json::Text(s)))
}

/// The field of an object, if the value is an object that has it.
pub open spec fn field(v: Json, key: Seq<char>) -> Option<Json> {
    match v {
        Json::Object(m) => if m.contains_key(key) {
            Some(m[key])
        } else {
            None
        },
        _ => None,
    }
}

/// The text of a value, if the value is a text.
pub open spec fn json_text(v: Json) -> Option<Seq<char>> {
    match v {
        Json::Text(s) => Some(s),
        _ => None,
    }
}

/// `serde_json::Map::new`: an object without fields.
#[verifier::external_body]
pub(crate) fn new_fields() -> (m: serde_json::Map<String, Value>)
    ensures
        fields_of(m) == no_fields(),
{
    serde_json::Map::new()
}

/// `serde_json::Map::insert`: sets the field of that name, whether or not there was one.
#[verifier::external_body]
pub(crate) fn set_field(m: &mut serde_json::Map<String, Value>, key: String, v: Value)
    ensures
        fields_of(*final(m)) == fields_of(*old(m)).insert(key@, json_of(v)),
{
    m.insert(key, v);
}

/// `serde_json::Value::Object`: the value is the object with these fields.
#[verifier::external_body]
pub(crate) fn object_value(m: serde_json::Map<String, Value>) -> (v: Value)
    ensures
        json_of(v) == Json::Object(fields_of(m)),
{
    Value::Object(m)
}

/// `serde_json::Value::Array`: the value is the array of these values.
#[verifier::external_body]
pub(crate) fn array_value(items: Vec<Value>) -> (v: Value)
    ensures
        json_of(v) == Json::Array(json_list(items@)),
{
    Value::Array(items)
}

/// `serde_json::Value::String`: the value is that text.
#[verifier::external_body]
pub(crate) fn text_value(s: String) -> (v: Value)
    ensures
        json_of(v) == Json::Text(s@),
{
    Value::String(s)
}

/// `serde_json::Value::from` on an unsigned integer: the value is that number.
#[verifier::external_body]
pub(crate) fn number_value(n: u64) -> (v: Value)
    ensures
        json_of(v) == Json::Integer(n as int),
{
    Value::from(n)
}

/// `serde_json::Value::get` with a text: the field of that name of an object, nothing of any
/// other value.
#[verifier::external_body]
pub(crate) fn get_field<'a>(v: &'a Value, key: &str) -> (r: Option<&'a Value>)
    ensures
        (match r {
            Some(w) => field(json_of(*v), key@) == Some(json_of(*w)),
            None => field(json_of(*v), key@) is None,
        }),
{
    v.get(key)
}

/// `serde_json::Value::as_str`: the text of a text, nothing of any other value.
#[verifier::external_body]
pub(crate) fn get_text<'a>(v: &'a Value) -> (r: Option<&'a str>)
    ensures
        (match r {
            Some(s) => json_text(json_of(*v)) == Some(s@),
            None => json_text(json_of(*v)) is None,
        }),
{
    v.as_str()
}

/// `serde_json::from_str`: the value that a text stands for, or that it stands for none. The
/// result is a function of the text, named `parsed_json`.
#[verifier::external_body]
pub(crate) fn parse(text: &str) -> (r: Result<Value, serde_json::Error>)
    ensures
        (match r {
            Ok(v) => parsed_json(text@) == Some(json_of(v)),
            Err(_) => parsed_json(text@) is None,
        }),
{
    serde_json::from_str(text)
}

/// `serde_json::to_string_pretty` on a JSON value, which always succeeds: every key is a text
/// and the output is memory. The fields of an object are written in the order of their names, so
/// the result is a function of what the value holds, named `pretty_json`.
#[verifier::external_body]
pub(crate) fn pretty(v: &Value) -> (r: Result<String, serde_json::Error>)
    ensures
        r is Ok,
        r->Ok_0@ == pretty_json(json_of(*v)),
{
    serde_json::to_string_pretty(v)
}

/// The JSON array of a list of texts.
pub fn text_array_value(list: &Vec<String>) -> (v: Value)
    ensures
        json_of(v) == text_array(list.deep_view()),
{
    let mut items: Vec<Value> = Vec::new();
    let mut i: usize = 0;
    while i < list.len()
        invariant
            i <= list.len(),
            items.len() == i,
            forall|k: int|
                0 <= k < i ==> json_of(#[trigger] items@[k]) == Json::Text(list.deep_view()[k]),
        decreases list.len() - i,
    {
        items.push(text_value(list[i].clone()));
        i += 1;
    }
    assert(json_list(items@) =~= list.deep_view().map_values(|s: Seq<char>| Json::Text(s)));
    array_value(items)
}

} // verus!
