use html_form_actions::text::{decimal_text, string_literal_text};

#[test]
fn decimal_of_zero_is_one_digit() {
    assert_eq!(decimal_text(0), "0");
}

#[test]
fn decimal_of_single_digits() {
    assert_eq!(decimal_text(7), "7");
    assert_eq!(decimal_text(9), "9");
}

#[test]
fn decimal_of_several_digits() {
    assert_eq!(decimal_text(10), "10");
    assert_eq!(decimal_text(405), "405");
    assert_eq!(decimal_text(1234567890), "1234567890");
}

#[test]
fn decimal_of_the_largest_number() {
    assert_eq!(decimal_text(usize::MAX), format!("{}", usize::MAX));
}

#[test]
fn literal_of_a_plain_name() {
    assert_eq!(string_literal_text("value"), "\"value\"");
}

#[test]
fn literal_of_the_empty_text() {
    assert_eq!(string_literal_text(""), "\"\"");
}

#[test]
fn literal_escapes_quotes_and_backslashes() {
    assert_eq!(string_literal_text("a\"b"), "\"a\\\"b\"");
    assert_eq!(string_literal_text("a\\b"), "\"a\\\\b\"");
    assert_eq!(string_literal_text("\"\\"), "\"\\\"\\\\\"");
}

#[test]
fn literal_escapes_line_ends_and_tabs() {
    assert_eq!(string_literal_text("a\nb\rc\td"), "\"a\\nb\\rc\\td\"");
}

#[test]
fn literal_keeps_other_characters() {
    assert_eq!(string_literal_text("größe-1 'x'"), "\"größe-1 'x'\"");
}

#[test]
fn literal_is_read_back_as_the_text() {
    for text in [
        "",
        "x",
        "user name",
        "a\"b\\c",
        "\\\\",
        "line\nbreak\r\n\ttab",
        "größe",
        "q=1&/r",
        "'single'",
        "{braces}",
    ] {
        let literal = string_literal_text(text);
        let parsed: syn::LitStr = syn::parse_str(&literal).unwrap();
        assert_eq!(parsed.value(), text);
    }
}
