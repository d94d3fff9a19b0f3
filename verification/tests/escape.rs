use sea_value::escape_string;
use sea_value::unescape_string;

#[test]
fn test_escape_1() {
    let test = r#" "abc" "#;
    assert_eq!(escape_string(test), r#" \"abc\" "#.to_owned());
    assert_eq!(unescape_string(escape_string(test).as_str()), test);
}

#[test]
fn test_escape_2() {
    let test = "a\nb\tc";
    assert_eq!(escape_string(test), "a\\nb\\tc".to_owned());
    assert_eq!(unescape_string(escape_string(test).as_str()), test);
}

#[test]
fn test_escape_3() {
    let test = "a\\b";
    assert_eq!(escape_string(test), "a\\\\b".to_owned());
    assert_eq!(unescape_string(escape_string(test).as_str()), test);
}

#[test]
fn test_escape_4() {
    let test = "a\"b";
    assert_eq!(escape_string(test), "a\\\"b".to_owned());
    assert_eq!(unescape_string(escape_string(test).as_str()), test);
}

#[test]
fn escape_whole_table() {
    let test = "\\\"'\0\u{8}\t\u{1a}\n\r";
    assert_eq!(escape_string(test), "\\\\\\\"\\'\\0\\b\\t\\z\\n\\r");
    assert_eq!(unescape_string(escape_string(test).as_str()), test);
}

#[test]
fn escape_empty() {
    assert_eq!(escape_string(""), "");
    assert_eq!(unescape_string(""), "");
}

#[test]
fn escape_passes_plain_text_through() {
    assert_eq!(escape_string("hello world"), "hello world");
    assert_eq!(unescape_string("hello world"), "hello world");
}

#[test]
fn unescape_unknown_code_passes_through() {
    // Codes outside the table keep the second character and drop the marker.
    assert_eq!(unescape_string("a\\xb"), "axb");
}

#[test]
fn unescape_trailing_marker_yields_nothing() {
    assert_eq!(unescape_string("ab\\"), "ab");
}

#[test]
fn escape_non_ascii_passes_through() {
    let test = "caf\u{e9}\u{1f600}";
    assert_eq!(escape_string(test), test);
    assert_eq!(unescape_string(escape_string(test).as_str()), test);
}
