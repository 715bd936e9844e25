use jsonpath_rust::JsonPath;
use serde_json::Value;
use serde_json::Value::{Array, Bool, Null, Number, Object};
use vstd::prelude::*;

verus! {

/// The kind of a JSON value.
#[derive(Debug, Clone, Copy, PartialEq, Eq, Structural)]
pub enum JsonKind {
    Null,
    Bool,
    Number,
    Str,
    Array,
    Object,
}

/// One level of a JSON document: the kind of its root, the root's compact
/// text, and the compact texts of its children (array items in order, or
/// object entries with their keys, in the order the document map keeps
/// them).
#[derive(Debug, Clone, PartialEq, Eq)]
pub struct JsonNode {
    pub kind: JsonKind,
    pub compact: String,
    pub items: Vec<String>,
    pub entries: Vec<(String, String)>,
}

/// A node as plain values: kind, compact text, item texts, and entries.
pub type JsonNodeView = (JsonKind, Seq<char>, Seq<Seq<char>>, Seq<(Seq<char>, Seq<char>)>);

impl JsonNode {
    /// The node as plain values.
    pub open spec fn view_parts(&self) -> JsonNodeView {
        (
            self.kind,
            self.compact@,
            self.items@.map_values(|t: String| t@),
            self.entries@.map_values(|e: (String, String)| (e.0@, e.1@)),
        )
    }
}

/// What `serde_json::from_str::<serde_json::Value>` reads from `s`: the
/// root level of the document, or the parse error's text.
pub uninterp spec fn json_node(s: Seq<char>) -> Result<JsonNodeView, Seq<char>>;

/// Read the root level of a JSON document.
///
/// Calls `serde_json::from_str::<serde_json::Value>`, tells the value's
/// kinds apart, and writes the value and each of its children with
/// `to_string` (compact JSON).  The outcome, and the error's text, depend on
/// the text alone.
#[verifier::external_body]
pub(crate) fn read_json(s: &str) -> (r: Result<JsonNode, String>)
    ensures
        match r {
            Ok(n) => json_node(s@) == Ok::<JsonNodeView, Seq<char>>(n.view_parts()),
            Err(e) => json_node(s@) == Err::<JsonNodeView, Seq<char>>(e@),
        },
{
    let v: Value = serde_json::from_str(s).map_err(|e| e.to_string())?;
    let kind = match &v {
        Null => JsonKind::Null,
        Bool(_) => JsonKind::Bool,
        Number(_) => JsonKind::Number,
        Value::String(_) => JsonKind::Str,
        Array(_) => JsonKind::Array,
        Object(_) => JsonKind::Object,
    };
    let items = v.as_array().map(|a| a.iter().map(Value::to_string).collect()).unwrap_or_default();
    let entries = v.as_object().map(|m| m.iter().map(|(k, x)| (k.clone(), x.to_string())).collect()).unwrap_or_default();
    Ok(JsonNode { kind, compact: v.to_string(), items, entries })
}

/// The pretty-printed text (`serde_json::to_string_pretty`) of the JSON
/// document `s`; `None` when `s` is not JSON or cannot be written.
pub uninterp spec fn json_pretty(s: Seq<char>) -> Option<Seq<char>>;

/// Pretty-print a JSON document.
///
/// Calls `serde_json::from_str::<serde_json::Value>` and
/// `serde_json::to_string_pretty`; the text depends on the input alone.
#[verifier::external_body]
pub(crate) fn pretty_json(s: &str) -> (r: Option<String>)
    ensures
        match r {
            Some(t) => json_pretty(s@) == Some(t@),
            None => json_pretty(s@) is None,
        },
{
    let v: Value = serde_json::from_str(s).ok()?;
    serde_json::to_string_pretty(&v).ok()
}

/// Whether `a` and `b` are both JSON documents and hold equal values
/// (`serde_json::Value`'s `==`).
pub uninterp spec fn json_same(a: Seq<char>, b: Seq<char>) -> bool;

/// Compare two JSON documents as values.
///
/// Calls `serde_json::from_str::<serde_json::Value>` on both and compares
/// the values with `==`; `false` when either is not JSON.  The answer
/// depends on the two texts alone.
#[verifier::external_body]
pub(crate) fn same_json(a: &str, b: &str) -> (r: bool)
    ensures
        r == json_same(a@, b@),
{
    match (serde_json::from_str::<Value>(a), serde_json::from_str::<Value>(b)) {
        (Ok(x), Ok(y)) => x == y,
        _ => false,
    }
}

/// What the JSONPath `query` finds in the JSON document `input`: the
/// matches as a pretty-printed JSON array, or the error's text (of the
/// document, or of the query).
pub uninterp spec fn json_path_result(input: Seq<char>, query: Seq<char>) -> Result<Seq<char>, Seq<char>>;

/// Run a JSONPath query on a JSON document.
///
/// Calls `serde_json::from_str::<serde_json::Value>`, then
/// `jsonpath_rust::JsonPath::query` and `serde_json::to_string_pretty` on
/// the matches (empty text if they cannot be written).  The outcome depends
/// on the two texts alone.
#[verifier::external_body]
pub(crate) fn query_json_path(input: &str, query: &str) -> (r: Result<String, String>)
    ensures
        match r {
            Ok(t) => json_path_result(input@, query@) == Ok::<Seq<char>, Seq<char>>(t@),
            Err(e) => json_path_result(input@, query@) == Err::<Seq<char>, Seq<char>>(e@),
        },
{
    let v: Value = serde_json::from_str(input).map_err(|e| e.to_string())?;
    let found = v.query(query).map_err(|e| e.to_string())?;
    Ok(serde_json::to_string_pretty(&found).unwrap_or_default())
}

/// The YAML text (`serde_yaml::to_string`) of the JSON document `input`,
/// or the error's text.
pub uninterp spec fn yaml_text(input: Seq<char>) -> Result<Seq<char>, Seq<char>>;

/// Write a JSON document as YAML.
///
/// Calls `serde_json::from_str::<serde_json::Value>` and
/// `serde_yaml::to_string`; the outcome depends on the input alone.
#[verifier::external_body]
pub(crate) fn json_to_yaml(input: &str) -> (r: Result<String, String>)
    ensures
        match r {
            Ok(t) => yaml_text(input@) == Ok::<Seq<char>, Seq<char>>(t@),
            Err(e) => yaml_text(input@) == Err::<Seq<char>, Seq<char>>(e@),
        },
{
    let v: Value = serde_json::from_str(input).map_err(|e| e.to_string())?;
    serde_yaml::to_string(&v).map_err(|e| e.to_string())
}

/// The TOML text (`toml::to_string_pretty`) of the JSON document `input`,
/// or the error's text.
pub uninterp spec fn toml_text(input: Seq<char>) -> Result<Seq<char>, Seq<char>>;

/// Write a JSON document as TOML.
///
/// Calls `serde_json::from_str::<serde_json::Value>` and
/// `toml::to_string_pretty`; the outcome depends on the input alone.
#[verifier::external_body]
pub(crate) fn json_to_toml(input: &str) -> (r: Result<String, String>)
    ensures
        match r {
            Ok(t) => toml_text(input@) == Ok::<Seq<char>, Seq<char>>(t@),
            Err(e) => toml_text(input@) == Err::<Seq<char>, Seq<char>>(e@),
        },
{
    let v: Value = serde_json::from_str(input).map_err(|e| e.to_string())?;
    toml::to_string_pretty(&v).map_err(|e| e.to_string())
}

} // verus!
