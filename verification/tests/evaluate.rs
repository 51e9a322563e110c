use rustexp::eval::evaluate;

#[test]
fn empty_pattern_yields_empty_output() {
    assert_eq!(evaluate("", "abc"), "");
    assert_eq!(evaluate("", ""), "");
}

#[test]
fn invalid_pattern_reports_diagnostic() {
    let out = evaluate("(", "anything");
    assert!(out.contains("unclosed group"));
    assert!(!out.contains("Some(Captures({"));
}

#[test]
fn invalid_repetition_reports_diagnostic() {
    let out = evaluate("a{3,2}", "aaa");
    assert!(!out.is_empty());
    assert!(!out.contains("Some(Captures({"));
    assert_ne!(out, "None");
}

#[test]
fn no_match_yields_sentinel() {
    assert_eq!(evaluate("z", "abc"), "None");
}

#[test]
fn no_match_on_empty_subject() {
    assert_eq!(evaluate("z", ""), "None");
}

#[test]
fn optional_group_absent() {
    let expected = "Some(Captures({\n    0: Some(\"a\"),\n    1: Some(\"a\"),\n    2: None,\n})),\n";
    assert_eq!(evaluate("(a)(b)?", "a"), expected);
}

#[test]
fn alternation_shows_taken_branch() {
    let expected = "Some(Captures({\n    0: Some(\"x\"),\n    1: Some(\"x\"),\n    2: None,\n})),\nSome(Captures({\n    0: Some(\"y\"),\n    1: None,\n    2: Some(\"y\"),\n})),\n";
    assert_eq!(evaluate("(x)|(y)", "xy"), expected);
}

#[test]
fn two_matches_two_blocks() {
    let block = "Some(Captures({\n    0: Some(\"a\"),\n})),\n";
    let expected = format!("{}{}", block, block);
    assert_eq!(evaluate("a", "aa"), expected);
}

#[test]
fn repeated_evaluation_identical() {
    let a = evaluate("(a)(b)?", "abab");
    let b = evaluate("(a)(b)?", "abab");
    assert_eq!(a, b);
}

#[test]
fn zero_width_match_on_empty_subject() {
    assert_eq!(evaluate("a*", ""), "Some(Captures({\n    0: Some(\"\"),\n})),\n");
}

#[test]
fn captured_text_is_debug_escaped() {
    let out = evaluate("(?s).+", "a\"b\\c\nd\te");
    assert_eq!(out, "Some(Captures({\n    0: Some(\"a\\\"b\\\\c\\nd\\te\"),\n})),\n");
}

#[test]
fn non_printable_capture_is_escaped() {
    let out = evaluate(".", "\u{1}");
    assert_eq!(out, "Some(Captures({\n    0: Some(\"\\u{1}\"),\n})),\n");
}

#[test]
fn two_digit_group_indexes() {
    let pattern = "(a)(a)(a)(a)(a)(a)(a)(a)(a)(a)";
    let out = evaluate(pattern, "aaaaaaaaaa");
    assert!(out.starts_with("Some(Captures({\n    0: Some(\"aaaaaaaaaa\"),\n"));
    assert!(out.contains("\n    9: Some(\"a\"),\n"));
    assert!(out.contains("\n    10: Some(\"a\"),\n"));
}
