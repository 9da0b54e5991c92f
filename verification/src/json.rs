//! JSON documents through `serde_json`: a model of the values the vault builds and reads
//! (text, null, lists and objects), and the trusted calls that build, read, print and parse
//! them.
use vstd::prelude::*;

verus! {

/// Trusted: the outside type `serde_json::Value`, a JSON document.
#[verifier::external_type_specification]
#[verifier::external_body]
pub struct ExJsonValue(serde_json::Value);

/// The mathematical value of a JSON document. Booleans and numbers, which the vault never
/// writes, are not told apart.
pub enum JsonModel {
    Null,
    Text(Seq<char>),
    List(Seq<JsonModel>),
    Object(Map<Seq<char>, JsonModel>),
    Other,
}

/// The model of a `serde_json::Value`: `Null`, `String`, `Array` and `Object` (a map from
/// key to value), and `Other` for booleans and numbers.
pub uninterp spec fn json_model(v: serde_json::Value) -> JsonModel;

/// What `serde_json::from_str::<Value>` gives for a text: the model of the parsed document,
/// or nothing when the text is not JSON.
pub uninterp spec fn json_decoded(text: Seq<char>) -> Option<JsonModel>;

/// The models of a list of values.
pub open spec fn json_models(items: Seq<serde_json::Value>) -> Seq<JsonModel> {
    items.map_values(|v: serde_json::Value| json_model(v))
}

/// The object built from key/value pairs: a later pair replaces an earlier one with the
/// same key.
pub open spec fn object_of(fields: Seq<(Seq<char>, JsonModel)>) -> Map<Seq<char>, JsonModel>
    decreases fields.len(),
{
    if fields.len() == 0 {
        Map::empty()
    } else {
        object_of(fields.drop_last()).insert(fields.last().0, fields.last().1)
    }
}

/// The models of key/value pairs.
pub open spec fn json_pairs(fields: Seq<(String, serde_json::Value)>) -> Seq<(Seq<char>, JsonModel)> {
    fields.map_values(|f: (String, serde_json::Value)| (f.0@, json_model(f.1)))
}

/// Whether a document holds only null, text, lists and objects, nested at most `depth`
/// lists and objects deep.
pub open spec fn plain_json(m: JsonModel, depth: nat) -> bool
    decreases m,
{
    match m {
        JsonModel::Null => true,
        JsonModel::Text(_) => true,
        JsonModel::List(items) => depth > 0 && forall|i: int|
            0 <= i < items.len() ==> plain_json(#[trigger] items[i], (depth - 1) as nat),
        JsonModel::Object(o) => depth > 0 && forall|k: Seq<char>|
            o.dom().contains(k) ==> plain_json(#[trigger] o[k], (depth - 1) as nat),
        JsonModel::Other => false,
    }
}

/// The deepest nesting of lists and objects that `serde_json::from_str` reads back: its
/// parser refuses a document nested 128 deep or more.
pub open spec fn max_json_depth() -> nat {
    127
}

/// Trusted: `serde_json::from_str::<Value>`; `None` when the text is not JSON. The parsed
/// document is named `json_decoded` of the text.
#[verifier::external_body]
pub(crate) fn json_parse(text: &str) -> (r: Option<serde_json::Value>)
    ensures
        r matches Some(v) ==> json_decoded(text@) == Some(json_model(v)),
        r is None ==> json_decoded(text@) is None,
{
    serde_json::from_str(text).ok()
}

/// Trusted: `Value::as_array` then `len`: the length of a list, `None` for anything else.
#[verifier::external_body]
pub(crate) fn json_array_len(v: &serde_json::Value) -> (r: Option<usize>)
    ensures
        r matches Some(n) ==> (json_model(*v) matches JsonModel::List(items) && n == items.len()),
        r is None ==> !(json_model(*v) is List),
{
    v.as_array().map(Vec::len)
}

/// Trusted: `Value::get(index)`, cloned: the item of a list at `index`; `None` out of range
/// or for anything but a list.
#[verifier::external_body]
pub(crate) fn json_array_item(v: &serde_json::Value, index: usize) -> (r: Option<serde_json::Value>)
    ensures
        r matches Some(x) ==> (json_model(*v) matches JsonModel::List(items) && index < items.len() && json_model(x) == items[index as int]),
        r is None ==> !(json_model(*v) matches JsonModel::List(items) && index < items.len()),
{
    v.get(index).cloned()
}

/// Trusted: `Value::get(key)`, cloned: the member `key` of an object; `None` when it is
/// missing or the value is not an object.
#[verifier::external_body]
pub(crate) fn json_field(v: &serde_json::Value, key: &str) -> (r: Option<serde_json::Value>)
    ensures
        r matches Some(x) ==> (json_model(*v) matches JsonModel::Object(o) && o.dom().contains(key@) && json_model(x) == o[key@]),
        r is None ==> !(json_model(*v) matches JsonModel::Object(o) && o.dom().contains(key@)),
{
    v.get(key).cloned()
}

/// Trusted: `Value::as_str`, cloned: the text of a string value, `None` for anything else.
#[verifier::external_body]
pub(crate) fn json_as_string(v: &serde_json::Value) -> (r: Option<String>)
    ensures
        r matches Some(s) ==> json_model(*v) == JsonModel::Text(s@),
        r is None ==> !(json_model(*v) is Text),
{
    v.as_str().map(str::to_string)
}

/// Trusted: `Value::is_null`.
#[verifier::external_body]
pub(crate) fn json_is_null(v: &serde_json::Value) -> (r: bool)
    ensures
        r == (json_model(*v) is Null),
{
    v.is_null()
}

/// Trusted: `Value::String(text)`.
#[verifier::external_body]
pub(crate) fn json_text(text: String) -> (r: serde_json::Value)
    ensures
        json_model(r) == JsonModel::Text(text@),
{
    serde_json::Value::String(text)
}

/// Trusted: `Value::Null`.
#[verifier::external_body]
pub(crate) fn json_null() -> (r: serde_json::Value)
    ensures
        json_model(r) == JsonModel::Null,
{
    serde_json::Value::Null
}

/// Trusted: `Value::Array(items)`.
#[verifier::external_body]
pub(crate) fn json_list(items: Vec<serde_json::Value>) -> (r: serde_json::Value)
    ensures
        json_model(r) == JsonModel::List(json_models(items@)),
{
    serde_json::Value::Array(items)
}

/// Trusted: `Value::Object` collected from key/value pairs; a later pair replaces an
/// earlier one with the same key.
#[verifier::external_body]
pub(crate) fn json_object(fields: Vec<(String, serde_json::Value)>) -> (r: serde_json::Value)
    ensures
        json_model(r) == JsonModel::Object(object_of(json_pairs(fields@))),
{
    serde_json::Value::Object(fields.into_iter().collect())
}

/// Trusted: `<Value as Display>::to_string`, the compact JSON text of a value. For a
/// document of null, text, lists and objects nested less deep than serde_json's parser
/// reads, parsing the text gives the document back. Nothing is stated of the text itself.
#[verifier::external_body]
pub(crate) fn json_encode(v: &serde_json::Value) -> (r: String)
    ensures
        plain_json(json_model(*v), max_json_depth()) ==> json_decoded(r@) == Some(json_model(*v)),
{
    v.to_string()
}

} // verus!
