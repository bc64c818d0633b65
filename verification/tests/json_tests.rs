use repo_provision::json::json_escape;
use repo_provision::json::json_nested_string_field;
use repo_provision::json::json_string_field;

#[test]
fn plain_text_is_unchanged() {
    assert_eq!(json_escape("hello world"), "hello world");
}

#[test]
fn quotes_and_backslashes_are_escaped() {
    assert_eq!(json_escape("a\"b\\c"), "a\\\"b\\\\c");
}

#[test]
fn control_characters_become_unicode_escapes() {
    assert_eq!(json_escape("\n"), "\\u000a");
    assert_eq!(json_escape("\t"), "\\u0009");
    assert_eq!(json_escape("\u{1}x\u{1f}"), "\\u0001x\\u001f");
}

#[test]
fn non_ascii_text_is_unchanged() {
    assert_eq!(json_escape("héllo — ☂"), "héllo — ☂");
}

#[test]
fn empty_text_stays_empty() {
    assert_eq!(json_escape(""), "");
}

#[test]
fn reads_a_top_level_string_field() {
    let body = "{\"html_url\":\"https://github.com/o/r\",\"name\":\"r\"}";
    assert_eq!(json_string_field(body, "html_url").unwrap(), "https://github.com/o/r");
}

#[test]
fn missing_field_reads_as_none() {
    assert_eq!(json_string_field("{\"name\":\"r\"}", "html_url"), None);
}

#[test]
fn non_string_field_reads_as_none() {
    assert_eq!(json_string_field("{\"html_url\":7}", "html_url"), None);
}

#[test]
fn malformed_document_reads_as_none() {
    assert_eq!(json_string_field("not json", "html_url"), None);
}

#[test]
fn reads_a_nested_string_field() {
    let body = "{\"ref\":\"refs/heads/main\",\"object\":{\"sha\":\"abc123\",\"type\":\"commit\"}}";
    assert_eq!(json_nested_string_field(body, "object", "sha").unwrap(), "abc123");
}

#[test]
fn missing_nested_field_reads_as_none() {
    assert_eq!(json_nested_string_field("{\"object\":{}}", "object", "sha"), None);
    assert_eq!(json_nested_string_field("{}", "object", "sha"), None);
}
