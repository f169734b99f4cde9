//! Small helpers shared by the modules.
use crate::error::InertiaError;
use crate::json::{json_entries, object_of_value, object_to_string, text_of_object, value_into_object, JsonMap};
use serde_json::Value;
use vstd::prelude::*;

verus! {

/// A message as the library logs it: under its own tag.
pub fn inertia_err_msg(msg: String) -> (tagged: String)
    ensures
        tagged@ == "[Inertia] "@ + msg@,
{
    let mut tagged = String::from_str("[Inertia] ");
    tagged.append(msg.as_str());
    tagged
}

/// The cause of the failure for a value that cannot be serialized.
pub const NOT_SERIALIZABLE: &'static str = "Struct is not JSON serializable.";

/// The object that a serialized struct is.
///
/// `struct_as_value` is what serializing the struct to a JSON value gave.
/// Fails where that failed, and where the value is no object.
pub fn convert_struct_to_map(struct_as_value: Result<Value, serde_json::Error>) -> (map: Result<
    JsonMap,
    InertiaError,
>)
    ensures
        match struct_as_value {
            Err(_) => map matches Err(InertiaError::SerializationError(cause)) && cause@
                == NOT_SERIALIZABLE@,
            Ok(value) => match object_of_value(value) {
                Ok(entries) => map matches Ok(m) && json_entries(m) == entries,
                Err(message) => map matches Err(InertiaError::SerializationError(cause)) && cause@
                    == "Failed to serialize struct as map: "@ + message,
            },
        },
{
    let struct_as_value = match struct_as_value {
        Ok(value) => value,
        Err(_) => {
            return Err(InertiaError::SerializationError(String::from_str(NOT_SERIALIZABLE)));
        },
    };
    object_or_failure(value_into_object(struct_as_value))
}

/// The object that a value was found to be, or the failure that tells why
/// the value is none.
pub fn object_or_failure(object: Result<JsonMap, String>) -> (map: Result<JsonMap, InertiaError>)
    ensures
        match object {
            Ok(found) => map == Ok::<JsonMap, InertiaError>(found),
            Err(message) => map matches Err(InertiaError::SerializationError(cause)) && cause@
                == "Failed to serialize struct as map: "@ + message@,
        },
{
    match object {
        Ok(value) => Ok(value),
        Err(err) => {
            let mut cause = String::from_str("Failed to serialize struct as map: ");
            cause.append(err.as_str());
            Err(InertiaError::SerializationError(cause))
        },
    }
}

/// The text that an object was written as, or the failure that tells why
/// it was not written.
pub fn text_or_failure(text: Result<String, String>) -> (json: Result<String, InertiaError>)
    ensures
        match text {
            Ok(written) => json == Ok::<String, InertiaError>(written),
            Err(message) => json matches Err(InertiaError::SerializationError(cause)) && cause@
                == "Failed to serialize HashMap: "@ + message@,
        },
{
    match text {
        Ok(json) => Ok(json),
        Err(err) => {
            let mut cause = String::from_str("Failed to serialize HashMap: ");
            cause.append(err.as_str());
            Err(InertiaError::SerializationError(cause))
        },
    }
}

/// The text, in the wire format, of the object that a serialized struct
/// is. Fails where `convert_struct_to_map` fails, and where the object
/// has no text.
pub fn convert_struct_to_stringified_json(struct_as_value: Result<Value, serde_json::Error>) -> (
json: Result<String, InertiaError>)
    ensures
        match struct_as_value {
            Err(_) => json matches Err(InertiaError::SerializationError(cause)) && cause@
                == NOT_SERIALIZABLE@,
            Ok(value) => match object_of_value(value) {
                Ok(entries) => match text_of_object(entries) {
                    Ok(text) => json matches Ok(body) && body@ == text,
                    Err(message) => json matches Err(InertiaError::SerializationError(cause))
                        && cause@ == "Failed to serialize HashMap: "@ + message,
                },
                Err(message) => json matches Err(InertiaError::SerializationError(cause))
                    && cause@ == "Failed to serialize struct as map: "@ + message,
            },
        },
{
    let map = match convert_struct_to_map(struct_as_value) {
        Ok(map) => map,
        Err(err) => {
            return Err(err);
        },
    };
    text_or_failure(object_to_string(&map))
}

} // verus!
