//! The parsed form of a JSON value, and what this library takes from
//! serde_json: the parser, and read access to the values that it builds.

use vstd::prelude::*;

verus! {

/// A JSON value as plain data. Object members keep the order in which the
/// parser met their keys.
pub enum Json {
    Null,
    Bool(bool),
    Number(Seq<char>),
    Str(Seq<char>),
    Array(Seq<Json>),
    Object(Seq<(Seq<char>, Json)>),
}

/// Whether `j` nests arrays and objects fewer than `n` levels deep.
pub open spec fn nests_below(j: Json, n: nat) -> bool
    decreases j,
{
    match j {
        Json::Array(items) => n > 0 && forall|i: int|
            0 <= i < items.len() ==> nests_below(#[trigger] items[i], (n - 1) as nat),
        Json::Object(fields) => n > 0 && forall|i: int|
            0 <= i < fields.len() ==> nests_below(#[trigger] fields[i].1, (n - 1) as nat),
        _ => true,
    }
}

#[verifier::external_type_specification]
#[verifier::external_body]
pub struct ExValue(serde_json::Value);

#[verifier::external_type_specification]
#[verifier::external_body]
#[verifier::reject_recursive_types(K)]
#[verifier::reject_recursive_types(V)]
pub struct ExMap<K, V>(serde_json::Map<K, V>);

#[verifier::external_type_specification]
#[verifier::external_body]
pub struct ExNumber(serde_json::Number);

#[verifier::external_type_specification]
#[verifier::external_body]
pub struct ExError(serde_json::Error);

/// What a serde_json value holds.
pub uninterp spec fn value_model(v: serde_json::Value) -> Json;

/// What each of a sequence of serde_json values holds.
pub open spec fn models(vs: Seq<serde_json::Value>) -> Seq<Json> {
    vs.map_values(|x: serde_json::Value| value_model(x))
}

/// The members of a serde_json map, in its iteration order.
pub uninterp spec fn map_model(m: serde_json::Map<String, serde_json::Value>) -> Seq<(Seq<char>, Json)>;

/// The text that serde_json writes for a number.
pub uninterp spec fn number_text(n: serde_json::Number) -> Seq<char>;

/// What serde_json's parser makes of a text: `None` where the text is no
/// JSON value.
pub uninterp spec fn parse_json(s: Seq<char>) -> Option<Json>;

/// Relies on serde_json::from_str with `Value` as the target: it succeeds
/// exactly where the text is a JSON value, and its depth guard (a counter
/// that starts at 128 and fails at 0) refuses 128 or more nested arrays and
/// objects.
#[verifier::external_body]
pub(crate) fn parse_value(s: &str) -> (r: Result<serde_json::Value, serde_json::Error>)
    ensures
        (r is Ok) == (parse_json(s@) is Some),
        r matches Ok(v) ==> parse_json(s@) == Some(value_model(v)) && nests_below(
            value_model(v),
            128,
        ),
{
    serde_json::from_str::<serde_json::Value>(s)
}

pub assume_specification[ serde_json::Value::is_null ](v: &serde_json::Value) -> (r: bool)
    ensures
        r == (value_model(*v) is Null),
;

pub assume_specification[ serde_json::Value::as_bool ](v: &serde_json::Value) -> (r: Option<bool>)
    ensures
        r == (match value_model(*v) {
            Json::Bool(b) => Some(b),
            _ => None,
        }),
;

pub assume_specification[ serde_json::Value::as_number ](v: &serde_json::Value) -> (r: Option<&serde_json::Number>)
    ensures
        (r is Some) == (value_model(*v) is Number),
        r matches Some(n) ==> value_model(*v) == Json::Number(number_text(*n)),
;

pub assume_specification[ serde_json::Value::as_str ](v: &serde_json::Value) -> (r: Option<&str>)
    ensures
        (r is Some) == (value_model(*v) is Str),
        r matches Some(s) ==> value_model(*v) == Json::Str(s@),
;

pub assume_specification[ serde_json::Value::as_array ](v: &serde_json::Value) -> (r: Option<&Vec<serde_json::Value>>)
    ensures
        (r is Some) == (value_model(*v) is Array),
        r matches Some(a) ==> value_model(*v) == Json::Array(models(a@)),
;

pub assume_specification[ serde_json::Value::as_object ](v: &serde_json::Value) -> (r: Option<&serde_json::Map<String, serde_json::Value>>)
    ensures
        (r is Some) == (value_model(*v) is Object),
        r matches Some(m) ==> value_model(*v) == Json::Object(map_model(*m)),
;

/// Relies on serde_json's `Display` for numbers, through `to_string`.
#[verifier::external_body]
pub(crate) fn number_string(n: &serde_json::Number) -> (r: String)
    ensures
        r@ == number_text(*n),
{
    n.to_string()
}

/// Relies on serde_json's `Map::iter`: each member once, in the map's order.
#[verifier::external_body]
pub(crate) fn map_entries(m: &serde_json::Map<String, serde_json::Value>) -> (r: Vec<(&String, &serde_json::Value)>)
    ensures
        r@.len() == map_model(*m).len(),
        forall|i: int| 0 <= i < r@.len() ==> (#[trigger] r@[i]).0@ == map_model(*m)[i].0
            && value_model(*r@[i].1) == map_model(*m)[i].1,
{
    m.iter().collect()
}

} // verus!
