//! Structured JSON values carried through the content model.
//!
//! `serde_json::Value` is opaque to the verifier, so the library pairs the
//! value with the facts its own logic reads: whether the value is a JSON
//! object, whether it is JSON null, and the value's canonical JSON text.

use vstd::prelude::*;

verus! {

#[verifier::external_type_specification]
#[verifier::external_body]
pub struct ExValue(serde_json::Value);

pub assume_specification[ <serde_json::Value as std::clone::Clone>::clone ](
    v: &serde_json::Value,
) -> serde_json::Value;

pub assume_specification[ serde_json::Value::is_object ](v: &serde_json::Value) -> bool;

pub assume_specification[ serde_json::Value::is_null ](v: &serde_json::Value) -> bool;

/// Whether serde_json parses the text as a JSON document; the outcome depends
/// on the text alone.
pub uninterp spec fn json_parses(s: Seq<char>) -> bool;

/// Whether the JSON document the text holds is an object; meaningful only
/// when `json_parses` holds of the text. The outcome depends on the text alone.
pub uninterp spec fn json_parses_to_object(s: Seq<char>) -> bool;

/// The canonical serde_json serialization of the document the text holds;
/// meaningful only when `json_parses` holds of the text. The outcome depends
/// on the text alone.
pub uninterp spec fn canonical_json(s: Seq<char>) -> Seq<char>;

/// Relies on serde_json::to_string: serializes a decoded value back to JSON
/// text; an unserializable value yields the empty text.
#[verifier::external_body]
fn value_to_text(v: &serde_json::Value) -> String {
    serde_json::to_string(v).unwrap_or_default()
}

/// A structured JSON value together with the facts the library reads of it.
#[derive(Debug, Clone, PartialEq)]
pub struct JsonValue {
    value: serde_json::Value,
    object: bool,
    null: bool,
    text: String,
}

/// What a `JsonValue` is mathematically: the recorded shape facts and the
/// canonical text. The payload itself is opaque to the verifier and not part
/// of the view.
pub struct JsonValueView {
    pub object: bool,
    pub null: bool,
    pub text: Seq<char>,
}

impl View for JsonValue {
    type V = JsonValueView;

    closed spec fn view(&self) -> JsonValueView {
        JsonValueView { object: self.object, null: self.null, text: self.text@ }
    }
}

impl JsonValue {
    /// Whether this value is a JSON object.
    pub open spec fn spec_is_object(&self) -> bool {
        self@.object
    }

    /// Whether this value is JSON null.
    pub open spec fn spec_is_null(&self) -> bool {
        self@.null
    }

    /// The carried payload; opaque to the contracts.
    pub closed spec fn spec_value(&self) -> serde_json::Value {
        self.value
    }

    /// Wrap an already-decoded value, recording its shape and canonical
    /// text. Nothing is known of an arbitrary decoded value, so the contract
    /// states nothing of what is recorded.
    pub fn from_value(value: serde_json::Value) -> (r: JsonValue) {
        let object = value.is_object();
        let null = value.is_null();
        let text = value_to_text(&value);
        JsonValue { value, object, null, text }
    }

    /// Parse a JSON text; returns a value exactly when the text is
    /// well-formed JSON.
    ///
    /// Relies on serde_json::from_str::<serde_json::Value>, whose success is
    /// a function of the text alone, on serde_json::Value::is_object and
    /// serde_json::Value::is_null for the parsed document's shape, and on
    /// serde_json::to_string for its canonical text.
    #[verifier::external_body]
    pub fn from_text(s: &str) -> (r: Option<JsonValue>)
        ensures
            r is Some <==> json_parses(s@),
            r matches Some(v) ==> v.spec_is_object() == json_parses_to_object(s@) && v@.text
                == canonical_json(s@),
    {
        match serde_json::from_str::<serde_json::Value>(s) {
            Ok(value) => {
                let object = value.is_object();
                let null = value.is_null();
                let text = serde_json::to_string(&value).unwrap_or_default();
                Some(JsonValue { value, object, null, text })
            },
            Err(_) => None,
        }
    }

    pub fn is_object(&self) -> (r: bool)
        ensures
            r == self.spec_is_object(),
    {
        self.object
    }

    pub fn is_null(&self) -> (r: bool)
        ensures
            r == self.spec_is_null(),
    {
        self.null
    }

    /// The canonical JSON text of this value.
    pub fn text(&self) -> (r: &str)
        ensures
            r@ == self@.text,
    {
        self.text.as_str()
    }

    /// An identical value: same payload, same recorded facts.
    ///
    /// Relies on serde_json's Clone for the payload; the recorded facts are
    /// copied directly.
    pub fn duplicate(&self) -> (r: JsonValue)
        ensures
            r@ == self@,
    {
        JsonValue {
            value: self.value.clone(),
            object: self.object,
            null: self.null,
            text: self.text.clone(),
        }
    }

    /// The payload, for callers that re-encode or inspect it outside the
    /// verified core.
    pub fn value(&self) -> (r: &serde_json::Value)
        ensures
            r == self.spec_value(),
    {
        &self.value
    }
}

} // verus!
