use vstd::prelude::*;

use crate::toml_doc::{doc_of, doc_wf, TomlDoc, TomlValue};
use toml::Value;

verus! {

#[verifier::external_type_specification]
#[verifier::external_body]
pub struct ExTomlValue(toml::Value);

/// What `toml::from_str::<toml::Value>` makes of a text, as a model, or
/// `None` where it refuses the text.
pub uninterp spec fn toml_parse(text: Seq<char>) -> Option<TomlDoc>;

/// What `toml::to_string_pretty` writes for a document, or `None` where it
/// refuses it.
pub uninterp spec fn toml_pretty(doc: TomlDoc) -> Option<Seq<char>>;

/// Converts a `toml::Value` into the library's model, node for node.
#[verifier::external_body]
fn model_of(v: &toml::Value) -> TomlValue {
    match v {
        Value::String(s) => TomlValue::String(s.clone()),
        Value::Integer(i) => TomlValue::Integer(*i),
        Value::Float(f) => TomlValue::Float(f.to_string()),
        Value::Boolean(b) => TomlValue::Boolean(*b),
        Value::Datetime(d) => TomlValue::Datetime(d.to_string()),
        Value::Array(a) => TomlValue::Array(a.iter().map(model_of).collect()),
        Value::Table(t) => TomlValue::Table(t.iter().map(|(k, x)| (k.clone(), model_of(x))).collect()),
    }
}

/// Converts the library's model back into a `toml::Value`, node for node;
/// `None` where a float or datetime text does not read back.
#[verifier::external_body]
fn value_of(v: &TomlValue) -> Option<toml::Value> {
    Some(match v {
        TomlValue::String(s) => Value::String(s.clone()),
        TomlValue::Integer(i) => Value::Integer(*i),
        TomlValue::Float(s) => Value::Float(s.parse().ok()?),
        TomlValue::Boolean(b) => Value::Boolean(*b),
        TomlValue::Datetime(s) => Value::Datetime(s.parse().ok()?),
        TomlValue::Array(a) => Value::Array(a.iter().map(value_of).collect::<Option<_>>()?),
        TomlValue::Table(t) => Value::Table(t.iter().map(|(k, x)| Some((k.clone(), value_of(x)?))).collect::<Option<_>>()?),
    })
}

/// Reads a TOML text with `toml::from_str::<toml::Value>`. The result is the
/// named model of the text; a table of `toml` never holds a key twice, so the
/// document is well formed.
#[verifier::external_body]
pub(crate) fn parse_toml(text: &str) -> (r: Option<TomlValue>)
    ensures
        match r {
            Some(v) => toml_parse(text@) == Some(doc_of(v)) && doc_wf(doc_of(v)),
            None => toml_parse(text@) is None,
        },
{
    toml::from_str::<toml::Value>(text).ok().map(|v| model_of(&v))
}

/// Writes a document with `toml::to_string_pretty`. The result is the named
/// text of the document.
#[verifier::external_body]
pub(crate) fn render_toml_pretty(v: &TomlValue) -> (r: Option<String>)
    ensures
        match r {
            Some(s) => toml_pretty(doc_of(*v)) == Some(s@),
            None => toml_pretty(doc_of(*v)) is None,
        },
{
    value_of(v).and_then(|x| toml::to_string_pretty(&x).ok())
}

} // verus!
