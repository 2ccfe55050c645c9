//! Opaque JSON documents and the two calls into `serde_json` the engine needs.
use vstd::prelude::*;

verus! {

/// Whether `serde_json` accepts the text as one JSON value.
pub uninterp spec fn json_parses(s: Seq<char>) -> bool;

/// The JSON string literal (quoted and escaped) that `serde_json` writes for a text.
pub uninterp spec fn json_quoted(s: Seq<char>) -> Seq<char>;

/// An opaque structured document, kept as its JSON text byte for byte.
/// The engine never reinterprets it; it only moves it from one field to another.
#[derive(Clone, Debug)]
pub struct JsonDoc {
    pub text: String,
}

impl View for JsonDoc {
    type V = Seq<char>;

    open spec fn view(&self) -> Seq<char> {
        self.text@
    }
}

impl JsonDoc {
    pub fn new(text: &str) -> (r: JsonDoc)
        ensures
            r@ == text@,
    {
        JsonDoc { text: text.to_string() }
    }

    /// The document `{}`.
    pub fn empty_object() -> (r: JsonDoc)
        ensures
            r@ == "{}"@,
    {
        JsonDoc { text: String::from_str("{}") }
    }

    /// The document `null`.
    pub fn null() -> (r: JsonDoc)
        ensures
            r@ == "null"@,
    {
        JsonDoc { text: String::from_str("null") }
    }
}

/// Relies on `serde_json::from_str::<serde_json::Value>`: whether the text
/// parses as a JSON value. Its answer depends on the text alone.
#[verifier::external_body]
pub(crate) fn parses_as_json(s: &str) -> (r: bool)
    ensures
        r == json_parses(s@),
{
    serde_json::from_str::<serde_json::Value>(s).is_ok()
}

/// Relies on `Display` for `serde_json::Value::String`: the compact JSON
/// string literal for the text.
#[verifier::external_body]
pub(crate) fn quote_json(s: &str) -> (r: String)
    ensures
        r@ == json_quoted(s@),
{
    serde_json::Value::String(s.to_string()).to_string()
}

} // verus!
