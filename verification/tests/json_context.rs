use mcmeta::download::errors::MetadataError;
use mcmeta::utils::{get_json_context, get_json_context_back, json_matching_brace, place_is_in};

#[test]
fn matching_braces() {
    assert_eq!(json_matching_brace('['), ']');
    assert_eq!(json_matching_brace(']'), '[');
    assert_eq!(json_matching_brace('{'), '}');
    assert_eq!(json_matching_brace('}'), '{');
    assert_eq!(json_matching_brace('('), '(');
    assert_eq!(json_matching_brace('"'), '"');
}

#[test]
fn context_after_ends_with_the_value() {
    let body = r#"{"a": [1, 2], "b": "x"}"#;
    assert_eq!(get_json_context(1, 6, body, 0), "[1, 2]");
    assert_eq!(get_json_context(1, 6, body, 6), "[1, 2]");
    assert_eq!(get_json_context(1, 6, body, 3), "[1, ...");
    assert_eq!(get_json_context(1, 0, body, 0), body);
    // A nested value is read to its own end.
    assert_eq!(get_json_context(1, 0, r#"{"a": {"b": [1]}} tail"#, 0), r#"{"a": {"b": [1]}}"#);
    // A string ends the context where nothing else is open.
    assert_eq!(get_json_context(1, 0, r#""ab" : 1"#, 0), r#""ab""#);
}

#[test]
fn context_after_ends_with_a_comma() {
    assert_eq!(get_json_context(1, 0, "12, 13", 0), "12,");
    // A comma in a string does not count.
    assert_eq!(get_json_context(1, 0, r#"["a,b", 1] x"#, 0), r#"["a,b", 1]"#);
    // What stops at the very start gives the whole rest.
    assert_eq!(get_json_context(1, 1, "1,2", 0), ",2");
    // What never stops gives the whole rest too.
    assert_eq!(get_json_context(1, 0, "[1 2 3", 0), "[1 2 3");
    assert_eq!(get_json_context(1, 0, "[1 2 3", 2), "[1 ...");
}

#[test]
fn context_after_escaped_quote() {
    // The escaped quote opens a string of its own, which the next quote closes.
    let body = r#""a\"b", 3"#;
    assert_eq!(get_json_context(1, 0, body, 0), body);
}

#[test]
fn context_starts_at_the_newline_that_the_line_counts_to() {
    let body = "a\nb\nc,d";
    assert_eq!(get_json_context(1, 1, body, 0), "b\nc,");
    assert_eq!(get_json_context(2, 1, body, 0), "c,");
    // A line beyond the text starts at the beginning.
    assert_eq!(get_json_context(3, 0, body, 0), "a\nb\nc,");
    assert_eq!(get_json_context(100, 4, body, 0), "c,");
}

#[test]
fn context_before_starts_with_the_value() {
    let body = r#"{"a": [1, 2], "b": tru}"#;
    assert_eq!(get_json_context_back(1, 19, body, 0), r#""b": "#);
    assert_eq!(get_json_context_back(1, 19, body, 200), r#""b": "#);
    let body = "[1, [2, 3] x";
    assert_eq!(get_json_context_back(1, 11, body, 0), "[2, 3] ");
    assert_eq!(get_json_context_back(1, 11, body, 7), "[2, 3] ");
    assert_eq!(get_json_context_back(1, 11, body, 3), "... [2,");
    assert_eq!(get_json_context_back(1, 11, body, 6), "... ");
    // Nothing before the place: nothing to show.
    assert_eq!(get_json_context_back(1, 0, body, 0), "");
    // What never opens gives everything before the place.
    assert_eq!(get_json_context_back(1, 3, "1 2 3 4", 0), "1 2");
}

#[test]
fn context_before_over_lines() {
    let body = "{\n\"a\": [1],\n\"b\": x\n}";
    // The second newline stands at 11; the place is 6 characters on.
    assert_eq!(get_json_context_back(2, 6, body, 0), "\"b\": ");
}

#[test]
fn places_in_and_out_of_the_text() {
    assert!(place_is_in("abc", 1, 0));
    assert!(place_is_in("abc", 1, 2));
    assert!(!place_is_in("abc", 1, 3));
    assert!(!place_is_in("abc", 0, 0));
    assert!(!place_is_in("", 1, 0));
    assert!(place_is_in("a\nbc", 1, 2));
    assert!(!place_is_in("a\nbc", 1, 3));
    assert!(place_is_in("a\nbc", 2, 3));
    assert!(!place_is_in("a\nbc", 2, usize::MAX));
}

#[test]
fn error_with_its_context() {
    let body = r#"{"a": [1, 2], "b": tru}"#;
    let e = MetadataError::from_json_position(1, 19, body);
    assert_eq!(
        e,
        MetadataError::BadJsonData { ctx: r#""b": "#.to_string(), line: 1, column: 19 }
    );
    assert_eq!(
        e.message("expected value"),
        "Unable to deserialise json object at 1:19. Context `\"b\": ` \n\nCaused by:\n\texpected value"
    );
    assert_eq!(MetadataError::try_from_json_position(1, 19, body), Some(e));
    assert_eq!(MetadataError::try_from_json_position(0, 0, body), None);
    assert_eq!(MetadataError::try_from_json_position(1, 23, body), None);
    // A long context is cut.
    let long = format!("[{}", "1 ".repeat(300));
    let e = MetadataError::from_json_position(1, 500, &long);
    match e {
        MetadataError::BadJsonData { ctx, .. } => {
            assert_eq!(ctx.chars().count(), 4 + 500 - 1 - 200);
            assert!(ctx.starts_with("... [1 1 "));
        }
    }
}
