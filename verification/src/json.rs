//! JSON values as the wire protocol carries them.
//!
//! Values of `serde_json::Value` pass through the library unopened: tool
//! arguments go to the tool handlers as they came, and tool results go back to
//! the server as the handlers returned them. The only values the library builds
//! itself are strings, objects and `null`, and it builds them through the
//! trusted constructors below.
use vstd::prelude::*;

verus! {

#[verifier::external_type_specification]
#[verifier::external_body]
pub struct ExJsonValue(serde_json::Value);

#[verifier::external_type_specification]
#[verifier::external_body]
#[verifier::reject_recursive_types(K)]
#[verifier::reject_recursive_types(V)]
pub struct ExJsonMap<K, V>(serde_json::Map<K, V>);

/// `Value::clone`, which `serde_json` derives: the copy is the same value.
pub assume_specification[ <serde_json::Value as Clone>::clone ](v: &serde_json::Value) -> (r: serde_json::Value)
    ensures
        r == *v,
;

/// The value that `serde_json` builds from a string: `Value::String(text)`.
pub uninterp spec fn json_string_value(text: Seq<char>) -> serde_json::Value;

/// The value that `serde_json` collects from a sequence of key/value pairs:
/// `Value::Object` holding those entries.
pub uninterp spec fn json_object_value(entries: Seq<(Seq<char>, serde_json::Value)>) -> serde_json::Value;

/// Whether a value is JSON `null`.
pub uninterp spec fn json_is_null(v: serde_json::Value) -> bool;

/// Whether a value is a JSON object.
pub uninterp spec fn json_is_object(v: serde_json::Value) -> bool;

/// The `Debug` text of a value, as `format!("{:?}", v)` writes it.
pub uninterp spec fn json_debug_text(v: serde_json::Value) -> Seq<char>;

/// The entries of a JSON map, each key taken by its view.
pub uninterp spec fn json_map_entries(m: serde_json::Map<String, serde_json::Value>) -> Map<
    Seq<char>,
    serde_json::Value,
>;

/// No entries at all.
pub open spec fn no_entries() -> Map<Seq<char>, serde_json::Value> {
    Map::empty()
}

/// The entries of a JSON object value, each key taken by its view.
pub uninterp spec fn json_object_entries_of(v: serde_json::Value) -> Map<
    Seq<char>,
    serde_json::Value,
>;

/// The key/value pairs of a vector of entries, with each key taken by its view.
pub open spec fn entries_view(entries: Seq<(String, serde_json::Value)>) -> Seq<(Seq<char>, serde_json::Value)> {
    entries.map_values(|e: (String, serde_json::Value)| (e.0@, e.1))
}

/// Builds a JSON string through `impl From<String> for serde_json::Value`,
/// which returns `Value::String(text)`. The contract names that result.
#[verifier::external_body]
pub(crate) fn json_string(text: String) -> (v: serde_json::Value)
    ensures
        v == json_string_value(text@),
{
    serde_json::Value::from(text)
}

/// Builds a JSON object through `impl FromIterator<(K, V)> for serde_json::Value`,
/// which collects the pairs into a `Value::Object`. The contract names that result.
#[verifier::external_body]
pub(crate) fn json_object(entries: Vec<(String, serde_json::Value)>) -> (v: serde_json::Value)
    ensures
        v == json_object_value(entries_view(entries@)),
{
    entries.into_iter().collect()
}

/// Builds JSON `null` through `impl From<()> for serde_json::Value`, which the
/// `serde_json` documentation describes as converting `()` to `Value::Null`.
#[verifier::external_body]
pub(crate) fn json_null() -> (v: serde_json::Value)
    ensures
        json_is_null(v),
{
    serde_json::Value::from(())
}

/// The entries of a JSON object, by matching `Value::Object(map)`: the map is
/// the object's own; any other value is handed back unchanged.
#[verifier::external_body]
pub(crate) fn json_object_entries(v: serde_json::Value) -> (r: Result<
    serde_json::Map<String, serde_json::Value>,
    serde_json::Value,
>)
    ensures
        r is Ok == json_is_object(v),
        r matches Err(w) ==> w == v,
        r matches Ok(m) ==> json_map_entries(m) == json_object_entries_of(v),
{
    match v {
        serde_json::Value::Object(map) => Ok(map),
        other => Err(other),
    }
}

/// `serde_json::Map::new()`: a map with no entries.
#[verifier::external_body]
pub(crate) fn json_empty_map() -> (r: serde_json::Map<String, serde_json::Value>)
    ensures
        json_map_entries(r) == no_entries(),
{
    serde_json::Map::new()
}

/// `format!("{:?}", v)`: the `Debug` text of a value.
#[verifier::external_body]
pub(crate) fn json_debug(v: &serde_json::Value) -> (r: String)
    ensures
        r@ == json_debug_text(*v),
{
    format!("{:?}", v)
}

/// The object `{"error": message}` that reports a failure back to the server.
pub open spec fn error_object(message: Seq<char>) -> serde_json::Value {
    json_object_value(seq![("error"@, json_string_value(message))])
}

/// Builds `{"error": message}`.
pub fn error_value(message: String) -> (v: serde_json::Value)
    ensures
        v == error_object(message@),
{
    let mut entries: Vec<(String, serde_json::Value)> = Vec::new();
    entries.push((String::from_str("error"), json_string(message)));
    let v = json_object(entries);
    proof {
        assert(entries_view(entries@) =~= seq![("error"@, json_string_value(message@))]);
    }
    v
}

} // verus!
