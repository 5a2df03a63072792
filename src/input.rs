//! A JSON value as the configuration records read it.

use vstd::prelude::*;

verus! {

/// One member of a JSON object or one element of a JSON array, as far as a
/// configuration field reads it: a boolean, a string, or anything else.
pub enum JsonField {
    Bool(bool),
    Text(String),
    Other,
}

/// A JSON value handed over as configuration: an object (its members in
/// order), an array, or any other value.
pub enum JsonInput {
    Object(Vec<(String, JsonField)>),
    Array(Vec<JsonField>),
    Other,
}

} // verus!
