use myme::models::json::JsonModel;

fn with_input(input: &str) -> JsonModel {
    let mut m = JsonModel::new();
    m.input = input.to_string();
    m
}

#[test]
fn defaults() {
    let m = JsonModel::new();
    assert_eq!(m.jsonpath_query, "$");
    assert_eq!(m.convert_format, "yaml");
    assert!(!m.is_valid);
}

#[test]
fn formats_and_minifies() {
    let mut m = with_input(r#"{"a": [true, null], "b": 1}"#);
    m.format_json();
    assert_eq!(m.output, "{\n  \"a\": [\n    true,\n    null\n  ],\n  \"b\": 1\n}");
    assert!(m.is_valid);
    assert_eq!(m.validation_message, "Valid JSON");
    assert_eq!(m.error_message, "");

    m.input = m.output.clone();
    m.minify_json();
    assert_eq!(m.output, r#"{"a":[true,null],"b":1}"#);
    assert!(m.is_valid);
}

#[test]
fn invalid_documents_are_reported() {
    let mut m = with_input("{");
    m.output = "previous".to_string();
    m.format_json();
    assert!(!m.is_valid);
    assert!(m.error_message.starts_with("Invalid JSON: "), "{}", m.error_message);
    assert!(m.validation_message.starts_with("Invalid: "), "{}", m.validation_message);
    assert_eq!(m.output, "previous");

    m.minify_json();
    assert!(!m.is_valid);
    assert!(m.error_message.starts_with("Invalid JSON: "));

    m.validate_json();
    assert!(!m.is_valid);
    assert_eq!(m.error_message, "");
    assert!(m.validation_message.starts_with("Invalid: "));
}

#[test]
fn empty_input() {
    let mut m = with_input("");
    m.output = "x".to_string();
    m.format_json();
    assert_eq!(m.output, "");
    m.validate_json();
    assert!(!m.is_valid);
    assert_eq!(m.validation_message, "No input");
}

#[test]
fn validation_counts_values_by_kind() {
    let mut m = with_input(r#"{"a": [true, null, "x", 1.5, [], {"k": false}], "b": {}}"#);
    m.validate_json();
    assert!(m.is_valid);
    assert_eq!(
        m.validation_message,
        "Valid JSON - Objects: 3, Arrays: 2, Strings: 1, Numbers: 1, Booleans: 2, Nulls: 1"
    );
    m.input = "42".to_string();
    m.validate_json();
    assert_eq!(
        m.validation_message,
        "Valid JSON - Objects: 0, Arrays: 0, Strings: 0, Numbers: 1, Booleans: 0, Nulls: 0"
    );
}

#[test]
fn jsonpath_queries() {
    let mut m = with_input(r#"{"a": [1, 2], "b": {"c": "x"}}"#);
    m.jsonpath_query = "$.a[0]".to_string();
    m.query_jsonpath();
    assert_eq!(m.error_message, "");
    assert_eq!(m.jsonpath_result, "[\n  1\n]");
    m.jsonpath_query = "$.b.c".to_string();
    m.query_jsonpath();
    assert_eq!(m.jsonpath_result, "[\n  \"x\"\n]");
    m.jsonpath_query = "$[".to_string();
    m.query_jsonpath();
    assert!(m.error_message.starts_with("Invalid JSONPath: "), "{}", m.error_message);
    assert_eq!(m.jsonpath_result, "[\n  \"x\"\n]");

    m.input = "nope".to_string();
    m.query_jsonpath();
    assert!(m.error_message.starts_with("Invalid JSON: "));
    m.input = String::new();
    m.query_jsonpath();
    assert_eq!(m.jsonpath_result, "");
}

#[test]
fn conversions() {
    let mut m = with_input(r#"{"a": 1, "b": "two"}"#);
    m.convert_to_format();
    assert_eq!(m.error_message, "");
    assert_eq!(m.converted_output, "a: 1\nb: two\n");
    m.convert_format = "toml".to_string();
    m.convert_to_format();
    assert_eq!(m.error_message, "");
    assert_eq!(m.converted_output, "a = 1\nb = \"two\"\n");

    m.input = "[1, 2]".to_string();
    m.convert_to_format();
    assert_eq!(m.error_message, "TOML requires an object at the root level");
    m.convert_format = "xml".to_string();
    m.convert_to_format();
    assert_eq!(m.error_message, "Unknown format");
    m.input = "{bad".to_string();
    m.convert_to_format();
    assert!(m.error_message.starts_with("Invalid JSON: "));
}

fn compare(a: &str, b: &str) -> JsonModel {
    let mut m = JsonModel::new();
    m.diff_input_a = a.to_string();
    m.diff_input_b = b.to_string();
    m.compare_json();
    m
}

#[test]
fn identical_documents() {
    let m = compare(r#"{"a": 1, "b": 2}"#, r#"{"b":2,"a":1}"#);
    assert_eq!(m.diff_result, "identical:The JSON documents are identical");
    assert_eq!(m.error_message, "");
}

#[test]
fn differences_are_listed() {
    let m = compare(
        r#"{"a": 1, "b": [1, 2], "c": {"d": true}, "x": 0}"#,
        r#"{"a": 2, "b": [1], "c": {"d": false}, "e": null}"#,
    );
    assert_eq!(
        m.diff_result,
        "different:~ a: 1 -> 2\n~ b: array length 2 -> 1\n~ c.d: true -> false\n- x: removed\n+ e: added"
    );
    let m = compare("[1, 2]", "[2, 1]");
    assert_eq!(m.diff_result, "different:Documents differ (structural differences)");
    let m = compare("1", "\"1\"");
    assert_eq!(m.diff_result, "different:~ root: 1 -> \"1\"");
    let m = compare(r#"{"a": {"b": {"c": 1}}}"#, r#"{"a": {"b": []}}"#);
    assert_eq!(m.diff_result, "different:~ a.b: {\"c\":1} -> []");
}

#[test]
fn comparison_errors() {
    let m = compare("x", "{}");
    assert!(m.error_message.starts_with("JSON A invalid: "), "{}", m.error_message);
    let m = compare("{}", "[");
    assert!(m.error_message.starts_with("JSON B invalid: "), "{}", m.error_message);
    let m = compare("", "{}");
    assert_eq!(m.diff_result, "");
    assert_eq!(m.error_message, "");
}

#[test]
fn clear_keeps_the_format() {
    let mut m = with_input("{}");
    m.convert_format = "toml".to_string();
    m.jsonpath_query = "$.a".to_string();
    m.validate_json();
    m.clear();
    assert_eq!(m.input, "");
    assert_eq!(m.jsonpath_query, "$");
    assert_eq!(m.convert_format, "toml");
    assert!(!m.is_valid);
    assert_eq!(m.validation_message, "");
}
