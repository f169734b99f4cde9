//! What this library assumes of `serde_json`: the value type is carried
//! through untouched, and an object is known by the entries it holds.
use serde_json::Value;
use vstd::prelude::*;

verus! {

/// `serde_json::Value`, opaque to the verifier: the library moves JSON
/// values around and never looks inside one.
#[verifier::external_type_specification]
#[verifier::external_body]
pub struct ExValue(serde_json::Value);

/// `serde_json::Map`, the object type of `serde_json`.
#[verifier::external_type_specification]
#[verifier::external_body]
#[verifier::reject_recursive_types(K)]
#[verifier::reject_recursive_types(V)]
pub struct ExJsonMap<K, V>(serde_json::Map<K, V>);

/// A JSON object: property names to JSON values.
pub type JsonMap = serde_json::Map<String, Value>;

/// The entries that a JSON object holds, keyed by the characters of each name.
pub uninterp spec fn json_entries(m: serde_json::Map<String, Value>) -> Map<Seq<char>, Value>;

/// `serde_json::Map::new` makes an object without entries.
pub assume_specification[ serde_json::Map::<String, Value>::new ]() -> (m: serde_json::Map<
    String,
    Value,
>)
    ensures
        json_entries(m) =~= Map::empty(),
;

/// `serde_json::Map::insert` binds the name to the value, replacing what the
/// name was bound to, and hands back the value it replaced, if any.
pub assume_specification[ serde_json::Map::<String, Value>::insert ](
    m: &mut serde_json::Map<String, Value>,
    k: String,
    v: Value,
) -> (previous: Option<Value>)
    ensures
        json_entries(*final(m)) == json_entries(*old(m)).insert(k@, v),
        previous == (if json_entries(*old(m)).contains_key(k@) {
            Some(json_entries(*old(m))[k@])
        } else {
            None
        }),
;

/// `serde_json::Map::append` moves every entry of `other` into `m`; where both
/// hold a name, the value of `other` stays. `other` is left empty.
pub assume_specification[ serde_json::Map::<String, Value>::append ](
    m: &mut serde_json::Map<String, Value>,
    other: &mut serde_json::Map<String, Value>,
)
    ensures
        json_entries(*final(m)) == json_entries(*old(m)).union_prefer_right(
            json_entries(*old(other)),
        ),
        json_entries(*final(other)) =~= Map::empty(),
;

/// The derived `Clone` of `serde_json::Value` yields an equal value.
pub assume_specification[ <Value as Clone>::clone ](v: &Value) -> (copy: Value)
    ensures
        copy == *v,
;

/// The `Clone` of `serde_json::Map` yields an object with the same entries.
pub assume_specification[ <serde_json::Map<String, Value> as Clone>::clone ](
    m: &serde_json::Map<String, Value>,
) -> (copy: serde_json::Map<String, Value>)
    ensures
        json_entries(copy) == json_entries(*m),
;

/// The entries of an object that may be absent.
pub open spec fn optional_entries(m: Option<serde_json::Map<String, Value>>) -> Option<
    Map<Seq<char>, Value>,
> {
    match m {
        Some(m) => Some(json_entries(m)),
        None => None,
    }
}

/// The JSON value that `serde_json::to_value` makes of an object that may
/// be absent.
pub uninterp spec fn json_of_optional_object(entries: Option<Map<Seq<char>, Value>>) -> Value;

/// `serde_json::to_value` on an object that may be absent. The value
/// depends on the entries alone. Serializing an object cannot fail, as its
/// names are strings and its values are JSON already.
#[verifier::external_body]
pub(crate) fn optional_object_to_value(m: &Option<serde_json::Map<String, Value>>) -> (value: Value)
    ensures
        value == json_of_optional_object(optional_entries(*m)),
{
    match serde_json::to_value(m) {
        Ok(value) => value,
        Err(_) => Value::Null,
    }
}

/// `serde_json::Error`, carried through by the verifier as an opaque value.
#[verifier::external_type_specification]
#[verifier::external_body]
pub struct ExJsonError(serde_json::Error);

/// What `serde_json::from_value` makes of a value that is asked to be an
/// object: the entries of the object, or the message of the error for a
/// value of another kind.
pub uninterp spec fn object_of_value(value: Value) -> Result<Map<Seq<char>, Value>, Seq<char>>;

/// `serde_json::from_value` at the type of objects, with the error
/// rendered as its message.
#[verifier::external_body]
pub(crate) fn value_into_object(value: Value) -> (object: Result<
    serde_json::Map<String, Value>,
    String,
>)
    ensures
        match object {
            Ok(m) => object_of_value(value) == Ok::<Map<Seq<char>, Value>, Seq<char>>(
                json_entries(m),
            ),
            Err(message) => object_of_value(value) == Err::<Map<Seq<char>, Value>, Seq<char>>(
                message@,
            ),
        },
{
    match serde_json::from_value::<serde_json::Map<String, Value>>(value) {
        Ok(m) => Ok(m),
        Err(err) => Err(err.to_string()),
    }
}

/// What `serde_json::to_string` makes of an object: its text in the wire
/// format, or the message of the error.
pub uninterp spec fn text_of_object(entries: Map<Seq<char>, Value>) -> Result<Seq<char>, Seq<char>>;

/// `serde_json::to_string` on an object, with the error rendered as its
/// message.
#[verifier::external_body]
pub(crate) fn object_to_string(m: &serde_json::Map<String, Value>) -> (text: Result<String, String>)
    ensures
        match text {
            Ok(json) => text_of_object(json_entries(*m)) == Ok::<Seq<char>, Seq<char>>(json@),
            Err(message) => text_of_object(json_entries(*m)) == Err::<Seq<char>, Seq<char>>(
                message@,
            ),
        },
{
    match serde_json::to_string(m) {
        Ok(json) => Ok(json),
        Err(err) => Err(err.to_string()),
    }
}

} // verus!
