//! The entries of a JSON message, as the normalizer reads them.

use vstd::prelude::*;

verus! {

/// One entry of a message's top-level object, reduced to what the
/// normalizer reads of it.
#[derive(Debug)]
pub struct JsonField {
    /// The entry's key.
    pub name: String,
    /// The entry's value when it is a JSON string.
    pub text: Option<String>,
    /// The entry's value when it is a JSON number: the bit pattern of the
    /// 64-bit IEEE 754 number nearest to it.
    pub number_bits: Option<u64>,
    /// The entry's value written out as compact JSON.
    pub rendered: String,
}

/// What a `JsonField` says, as plain mathematical values.
pub struct JsonFieldView {
    pub name: Seq<char>,
    pub text: Option<Seq<char>>,
    pub number_bits: Option<u64>,
    pub rendered: Seq<char>,
}

impl View for JsonField {
    type V = JsonFieldView;

    open spec fn view(&self) -> JsonFieldView {
        JsonFieldView {
            name: self.name@,
            text: match self.text {
                Some(text) => Some(text@),
                None => None,
            },
            number_bits: self.number_bits,
            rendered: self.rendered@,
        }
    }
}

/// The views of a sequence of entries, in the same order.
pub open spec fn fields_view(fields: Seq<JsonField>) -> Seq<JsonFieldView> {
    fields.map_values(|field: JsonField| field@)
}

/// `serde_json::Error`, the parser's error: carried from the parser to the
/// caller that turns it into a message, never looked into.
#[verifier::external_type_specification]
#[verifier::external_body]
pub struct ExJsonError(serde_json::Error);

/// What `serde_json` makes of a text: `None` where it is not one JSON
/// document, else the entries of the document's top-level object in the
/// order in which `serde_json`'s map yields them. A document that is not an
/// object has no entries.
pub uninterp spec fn json_fields(text: Seq<char>) -> Option<Seq<JsonFieldView>>;

/// `serde_json::from_str` into a `serde_json::Value`, then one `JsonField`
/// for each entry of the object: the key, `Value::as_str`, the bits of
/// `Value::as_f64`, and the value's `Display` form. Trusted to return what
/// `json_fields` names, and the parser's error where the text does not parse.
#[verifier::external_body]
pub(crate) fn parse_fields(text: &str) -> (parsed: Result<Vec<JsonField>, serde_json::Error>)
    ensures
        match parsed {
            Ok(fields) => json_fields(text@) == Some(fields_view(fields@)),
            Err(_) => json_fields(text@) is None,
        },
{
    let value: serde_json::Value = serde_json::from_str(text)?;
    let mut fields: Vec<JsonField> = Vec::new();
    if let serde_json::Value::Object(map) = &value {
        for (name, v) in map {
            fields.push(JsonField {
                name: name.clone(),
                text: v.as_str().map(str::to_owned),
                number_bits: v.as_f64().map(|number| number.to_bits()),
                rendered: v.to_string(),
            });
        }
    }
    Ok(fields)
}

/// The `Display` form of a `serde_json::Error`: the parser's message with
/// the line and column. Nothing is claimed of the text.
#[verifier::external_body]
pub(crate) fn error_text(error: &serde_json::Error) -> (message: String) {
    error.to_string()
}

} // verus!
