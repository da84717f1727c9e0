//! The JSON surface syntax: parses a JSON document into the format-agnostic
//! configuration model.

use vstd::prelude::*;
use vstd::string::StringExecFns;
use crate::config::{
    distinct_keys, doc_get, doc_lookup, doc_lookup_model, ConfigError, ConfigItem, ConfigValue,
    ValueModel,
};

verus! {

/// The mathematical content of `text` as a JSON configuration document: the
/// key-to-value map of the one string-keyed JSON object that `text` spells —
/// what serde_json::from_str parses below — or None when `text` spells no
/// such object.
pub uninterp spec fn json_doc_of(text: Seq<char>) -> Option<Map<Seq<char>, ValueModel>>;

/// Relies on serde_json::Value being a plain data type: a parsed JSON value,
/// carried only between the parser and the converter below.
#[verifier::external_type_specification]
#[verifier::external_body]
pub struct ExJsonValue(serde_json::Value);

/// Relies on serde_json::Value's variants: a JSON string becomes text, a JSON
/// array becomes a list whose string elements become text items and whose
/// other elements become opaque items, and every other JSON shape becomes an
/// opaque value.
#[verifier::external_body]
fn config_value_of_json(value: serde_json::Value) -> ConfigValue {
    match value {
        serde_json::Value::String(text) => ConfigValue::Text(text),
        serde_json::Value::Array(items) => ConfigValue::List(
            items.into_iter().map(|item| match item {
                serde_json::Value::String(text) => ConfigItem::Text(text),
                _ => ConfigItem::Other,
            }).collect(),
        ),
        serde_json::Value::Null => ConfigValue::Opaque,
        serde_json::Value::Bool(_) => ConfigValue::Opaque,
        serde_json::Value::Number(_) => ConfigValue::Opaque,
        serde_json::Value::Object(_) => ConfigValue::Opaque,
    }
}

/// Relies on serde_json::from_str: parses the whole text as one JSON mapping
/// from string keys to values — Err, carrying the parser's error text,
/// exactly when the text is not such a document. The entries of an Ok result
/// hold the mapping's keys, pairwise distinct and each bound to its converted
/// value; their order comes from a seeded hash-map walk and is not stated.
#[verifier::external_body]
fn parse_json_entries(text: &str) -> (result: Result<Vec<(String, ConfigValue)>, String>)
    ensures
        result matches Ok(entries) ==> json_doc_of(text@) matches Some(doc) && (forall|
            key: Seq<char>,
        |
            #[trigger] doc_lookup_model(entries@, key) == (if doc.contains_key(key) {
                Some(doc[key])
            } else {
                None
            })) && distinct_keys(entries@),
        result is Err <==> json_doc_of(text@) is None,
{
    let data: std::collections::HashMap<String, serde_json::Value> =
        match serde_json::from_str(text) {
            Ok(data) => data,
            Err(error) => {
                return Err(error.to_string());
            },
        };
    Ok(data.into_iter().map(|(key, value)| (key, config_value_of_json(value))).collect())
}

/// One JSON configuration document, reduced to the format-agnostic model.
pub struct Json {
    /// The path the document was read from.
    pub file: String,
    /// The document's key/value entries; the keys are pairwise distinct.
    pub data: Vec<(String, ConfigValue)>,
}

impl Json {
    /// Parses the text of the JSON document read from `file_path`: a
    /// malformed document — and nothing else — fails, and a well-formed one
    /// yields exactly the document's content, nothing added or lost.
    pub fn new(file_path: &str, text: &str) -> (result: Result<Json, ConfigError>)
        ensures
            result matches Ok(document) ==> json_doc_of(text@) matches Some(doc)
                && document.file@ == file_path@ && (forall|key: Seq<char>|
                #[trigger] doc_lookup_model(document.data@, key) == (if doc.contains_key(key) {
                    Some(doc[key])
                } else {
                    None
                })) && distinct_keys(document.data@),
            result matches Err(e) ==> e matches ConfigError::ParseFailed(_),
            result is Err <==> json_doc_of(text@) is None,
    {
        match parse_json_entries(text) {
            Ok(entries) => Ok(Json { file: String::from_str(file_path), data: entries }),
            Err(detail) => Err(ConfigError::ParseFailed(detail)),
        }
    }

    /// The value stored under `key`, if any.
    pub fn get<'a>(&'a self, key: &str) -> (value: Option<&'a ConfigValue>)
        ensures
            match value {
                Some(v) => doc_lookup(self.data@, key@) == Some(*v),
                None => doc_lookup(self.data@, key@) is None,
            },
    {
        doc_get(&self.data, key)
    }
}

} // verus!
