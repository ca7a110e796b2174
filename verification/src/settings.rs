//! Settings blobs: what the host's settings store holds for a language
//! server, and what is forwarded of it.

use serde_json::Value;
use vstd::prelude::*;

verus! {

/// `serde_json::Value`: a JSON value of any shape. The adapter never looks
/// inside one; it is carried from the settings store to the server as it is.
#[verifier::external_type_specification]
#[verifier::external_body]
pub struct ExValue(serde_json::Value);

/// The compact JSON text of a value, as `serde_json::to_string` writes it.
/// This is the form in which a blob leaves for the language server.
pub uninterp spec fn json_text(value: Value) -> Seq<char>;

/// The text of the empty structure: a JSON object without members.
pub const EMPTY_STRUCTURE: &'static str = "{}";

/// The record that the settings store keeps for one language server in one
/// project. Either field may be missing.
#[derive(Clone, Debug, PartialEq, Eq)]
pub struct LspSettings {
    /// The initialization options to pass to the language server.
    pub initialization_options: Option<Value>,
    /// The workspace configuration to pass to the language server.
    pub settings: Option<Value>,
}

/// What the store holds as initialization options: the field of the record,
/// and nothing where the lookup failed or the record lacks the field.
pub open spec fn initialization_options_of(lookup: Result<LspSettings, String>) -> Option<Value> {
    match lookup {
        Ok(record) => record.initialization_options,
        Err(_) => None,
    }
}

/// What the store holds as workspace configuration: the field of the record,
/// and nothing where the lookup failed or the record lacks the field.
pub open spec fn workspace_settings_of(lookup: Result<LspSettings, String>) -> Option<Value> {
    match lookup {
        Ok(record) => record.settings,
        Err(_) => None,
    }
}

/// `blob` is what is forwarded for `field`: the very value where there is
/// one, the empty structure where there is none.
pub open spec fn forwards(field: Option<Value>, blob: Value) -> bool {
    match field {
        Some(given) => blob == given,
        None => json_text(blob) == EMPTY_STRUCTURE@,
    }
}

/// Trusted: `serde_json::Map::new` inside `Value::Object`. The claim is that
/// a JSON object made from a new, empty map is written as `{}`.
#[verifier::external_body]
fn empty_structure() -> (blob: Value)
    ensures
        json_text(blob) == EMPTY_STRUCTURE@,
{
    Value::Object(serde_json::Map::new())
}

/// The value of a settings field, or the empty structure in its place.
/// Absence is no failure here: there is always a blob to forward.
pub fn or_empty(field: Option<Value>) -> (blob: Value)
    ensures
        forwards(field, blob),
{
    match field {
        Some(given) => given,
        None => empty_structure(),
    }
}

} // verus!
