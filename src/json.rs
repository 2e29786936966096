use vstd::prelude::*;

verus! {

#[verifier::external_type_specification]
#[verifier::external_body]
pub struct ExValue(serde_json::Value);

/// What a JSON value holds, as mathematical values. An object keeps its
/// members in order, each key once.
pub ghost enum JsonModel {
    Null,
    Bool(bool),
    /// A number without fraction or exponent.
    Int(int),
    /// A number with a fraction or an exponent, by the bit pattern of its
    /// binary64 value.
    Real(u64),
    Str(Seq<char>),
    Array(Seq<JsonModel>),
    Object(Seq<(Seq<char>, JsonModel)>),
}

/// What the value `v` holds.
pub uninterp spec fn json_content(v: serde_json::Value) -> JsonModel;

/// The value that the text `s` denotes, if it is well-formed JSON.
pub uninterp spec fn parsed_json(s: Seq<char>) -> Option<JsonModel>;

/// The indented text that renders a value.
pub uninterp spec fn pretty_text(m: JsonModel) -> Seq<char>;

pub open spec fn contents(items: Seq<serde_json::Value>) -> Seq<JsonModel> {
    items.map_values(|v: serde_json::Value| json_content(v))
}

pub open spec fn member_contents(fields: Seq<(String, serde_json::Value)>) -> Seq<(Seq<char>, JsonModel)> {
    fields.map_values(|p: (String, serde_json::Value)| (p.0@, json_content(p.1)))
}

/// The value under `key` among an object's members.
pub open spec fn lookup(fields: Seq<(Seq<char>, JsonModel)>, key: Seq<char>) -> Option<JsonModel>
    decreases fields.len(),
{
    if fields.len() == 0 {
        None
    } else if fields[0].0 == key {
        Some(fields[0].1)
    } else {
        lookup(fields.drop_first(), key)
    }
}

/// The member `key` of `m`, where `m` is an object that has one.
pub open spec fn member(m: JsonModel, key: Seq<char>) -> Option<JsonModel> {
    match m {
        JsonModel::Object(fields) => lookup(fields, key),
        _ => None,
    }
}

pub open spec fn keys_distinct(fields: Seq<(Seq<char>, JsonModel)>) -> bool {
    forall|i: int, j: int|
        0 <= i < j < fields.len() ==> #[trigger] fields[i].0 != #[trigger] fields[j].0
}

/// Relies on serde_json::from_str into a `Value`: it succeeds exactly on
/// well-formed JSON text, and the value depends on the text alone. The error
/// is serde_json's diagnostic, in its debug form.
#[verifier::external_body]
pub(crate) fn parse_json(s: &str) -> (r: Result<serde_json::Value, String>)
    ensures
        r is Ok <==> parsed_json(s@) is Some,
        r matches Ok(v) ==> parsed_json(s@) == Some(json_content(v)),
{
    serde_json::from_str::<serde_json::Value>(s).map_err(|e| format!("{:?}", e))
}

/// Relies on serde_json::Value::get with a string index: the member of that
/// name of an object, and nothing for any other value.
#[verifier::external_body]
pub(crate) fn get_member<'a>(v: &'a serde_json::Value, key: &str) -> (r: Option<&'a serde_json::Value>)
    ensures
        r is Some <==> member(json_content(*v), key@) is Some,
        r matches Some(x) ==> member(json_content(*v), key@) == Some(json_content(*x)),
{
    v.get(key)
}

/// serde_json::Value::as_array: the items of an array, and nothing for any
/// other value.
pub assume_specification[ serde_json::Value::as_array ](v: &serde_json::Value) -> (r: Option<
    &Vec<serde_json::Value>,
>)
    ensures
        r is Some <==> json_content(*v) is Array,
        r matches Some(a) ==> json_content(*v) == JsonModel::Array(contents(a@)),
;

/// serde_json::Value::as_str: the text of a string, and nothing for any
/// other value.
pub assume_specification[ serde_json::Value::as_str ](v: &serde_json::Value) -> (r: Option<&str>)
    ensures
        r is Some <==> json_content(*v) is Str,
        r matches Some(s) ==> json_content(*v) == JsonModel::Str(s@),
;

/// serde_json::Value::as_i64: an integer that fits in `i64`, and nothing for
/// any other value.
pub assume_specification[ serde_json::Value::as_i64 ](v: &serde_json::Value) -> (r: Option<i64>)
    ensures
        r == (match json_content(*v) {
            JsonModel::Int(n) => if i64::MIN <= n <= i64::MAX {
                Some(n as i64)
            } else {
                None
            },
            _ => None,
        }),
;

/// Relies on serde_json::Value::String: a string value.
#[verifier::external_body]
pub(crate) fn text_value(s: String) -> (r: serde_json::Value)
    ensures
        json_content(r) == JsonModel::Str(s@),
{
    serde_json::Value::String(s)
}

/// Relies on serde_json's `From<i32>` for `Value`: a number value.
#[verifier::external_body]
pub(crate) fn int_value(n: i32) -> (r: serde_json::Value)
    ensures
        json_content(r) == JsonModel::Int(n as int),
{
    serde_json::Value::from(n)
}

/// Relies on serde_json::Value::Array: an array value with these items.
#[verifier::external_body]
pub(crate) fn array_value(items: Vec<serde_json::Value>) -> (r: serde_json::Value)
    ensures
        json_content(r) == JsonModel::Array(contents(items@)),
{
    serde_json::Value::Array(items)
}

/// Relies on serde_json::Value::Object, its map collected from the pairs:
/// with the `preserve_order` feature the members keep the pairs' order.
#[verifier::external_body]
pub(crate) fn object_value(fields: Vec<(String, serde_json::Value)>) -> (r: serde_json::Value)
    requires
        keys_distinct(member_contents(fields@)),
    ensures
        json_content(r) == JsonModel::Object(member_contents(fields@)),
{
    serde_json::Value::Object(fields.into_iter().collect())
}

/// Relies on serde_json::to_string_pretty: the text depends on the value
/// alone, and rendering a `Value` does not fail, since its map keys are all
/// strings and the output is written to memory.
#[verifier::external_body]
pub(crate) fn render_pretty(v: &serde_json::Value) -> (r: Option<String>)
    ensures
        r is Some,
        r matches Some(s) ==> s@ == pretty_text(json_content(*v)),
{
    serde_json::to_string_pretty(v).ok()
}

} // verus!
