//! What the library takes from serde_json, each item with the contract it is
//! trusted to meet.
use vstd::prelude::*;

verus! {

/// A JSON value of serde_json, carried through the library unread.
#[verifier::external_type_specification]
#[verifier::external_body]
pub struct ExValue(serde_json::Value);

/// A JSON object of serde_json: string keys, each with one value.
#[verifier::external_type_specification]
#[verifier::external_body]
#[verifier::reject_recursive_types(K)]
#[verifier::reject_recursive_types(V)]
pub struct ExObject<K, V>(serde_json::Map<K, V>);

/// The error that serde_json reports when it cannot parse or print.
#[verifier::external_type_specification]
#[verifier::external_body]
pub struct ExJsonError(serde_json::Error);

/// The entries of a JSON object, keyed by the characters of each key.
pub uninterp spec fn object_entries(m: serde_json::Map<String, serde_json::Value>) -> Map<Seq<char>, serde_json::Value>;

/// Whether serde_json's `Value::is_null` holds of a value.
pub uninterp spec fn value_is_null(v: serde_json::Value) -> bool;

/// The strings that `serde_json::from_value::<Vec<String>>` reads from a value,
/// or `None` where it fails (the value is no array of strings).
pub uninterp spec fn string_list_of(v: serde_json::Value) -> Option<Seq<Seq<char>>>;

/// The object that `serde_json::from_str::<Map<String, Value>>` reads from a
/// text, or `None` where it fails (the text is no JSON object).
pub uninterp spec fn parsed_object(s: Seq<char>) -> Option<Map<Seq<char>, serde_json::Value>>;

/// The text that `serde_json::to_string_pretty` writes for an object with these
/// entries.
pub uninterp spec fn pretty_object_text(e: Map<Seq<char>, serde_json::Value>) -> Seq<char>;

/// Relies on `Map::new`: a new object has no entries.
#[verifier::external_body]
pub(crate) fn new_object() -> (r: serde_json::Map<String, serde_json::Value>)
    ensures
        object_entries(r).dom().is_empty(),
{
    serde_json::Map::new()
}

/// Relies on `Map::insert`: the key then holds the value, the other entries
/// stay, and the value that the key held before is handed back.
pub assume_specification[ serde_json::Map::<String, serde_json::Value>::insert ](
    m: &mut serde_json::Map<String, serde_json::Value>,
    k: String,
    v: serde_json::Value,
) -> (r: Option<serde_json::Value>)
    ensures
        object_entries(*final(m)) == object_entries(*old(m)).insert(k@, v),
        r == (if object_entries(*old(m)).contains_key(k@) {
            Some(object_entries(*old(m))[k@])
        } else {
            None
        }),
;

/// Relies on `Map::remove`: the entry of the key is taken out and handed back,
/// the other entries stay.
#[verifier::external_body]
pub(crate) fn take_entry(m: &mut serde_json::Map<String, serde_json::Value>, key: &str) -> (r: Option<serde_json::Value>)
    ensures
        object_entries(*final(m)) == object_entries(*old(m)).remove(key@),
        r == (if object_entries(*old(m)).contains_key(key@) {
            Some(object_entries(*old(m))[key@])
        } else {
            None
        }),
{
    m.remove(key)
}

/// Relies on `Value::Null`, of which `Value::is_null` holds.
#[verifier::external_body]
pub(crate) fn null_value() -> (r: serde_json::Value)
    ensures
        value_is_null(r),
{
    serde_json::Value::Null
}

/// Relies on `From<Vec<String>> for Value`, which makes an array of JSON
/// strings, from which `serde_json::from_value::<Vec<String>>` reads the same
/// strings back in the same order.
#[verifier::external_body]
pub(crate) fn strings_value(items: Vec<String>) -> (r: serde_json::Value)
    ensures
        string_list_of(r) == Some(items.deep_view()),
{
    serde_json::Value::from(items)
}

/// Relies on `serde_json::from_value::<Vec<String>>`.
#[verifier::external_body]
pub(crate) fn read_strings(v: serde_json::Value) -> (r: Result<Vec<String>, serde_json::Error>)
    ensures
        r is Ok <==> string_list_of(v) is Some,
        r matches Ok(items) ==> Some(items.deep_view()) == string_list_of(v),
{
    serde_json::from_value(v)
}

/// Relies on `serde_json::from_str::<Map<String, Value>>`.
#[verifier::external_body]
pub(crate) fn parse_object(text: &str) -> (r: Result<serde_json::Map<String, serde_json::Value>, serde_json::Error>)
    ensures
        r is Ok <==> parsed_object(text@) is Some,
        r matches Ok(m) ==> Some(object_entries(m)) == parsed_object(text@),
{
    serde_json::from_str(text)
}

/// Relies on `serde_json::to_string_pretty` on an object. It writes into
/// memory, and an object with string keys and JSON values always serializes,
/// so it does not fail.
#[verifier::external_body]
pub(crate) fn print_object_pretty(m: &serde_json::Map<String, serde_json::Value>) -> (r: Result<String, serde_json::Error>)
    ensures
        r is Ok,
        r matches Ok(text) ==> text@ == pretty_object_text(object_entries(*m)),
{
    serde_json::to_string_pretty(m)
}

/// Relies on the `Display` of serde_json's error, which describes it.
#[verifier::external_body]
pub(crate) fn describe_error(e: &serde_json::Error) -> (r: String) {
    e.to_string()
}

} // verus!
