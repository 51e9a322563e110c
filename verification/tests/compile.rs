use rustexp::engine::compile;
use rustexp::render::format_captures;

#[test]
fn compile_accepts_valid_pattern() {
    assert!(compile("a+(b|c)?").is_ok());
}

#[test]
fn compile_rejects_unclosed_group() {
    let err = match compile("(") {
        Ok(_) => panic!("an unclosed group must be rejected"),
        Err(e) => e,
    };
    assert!(err.contains("unclosed group"));
}

#[test]
fn format_reports_each_match() {
    let m = compile("(x)|(y)").unwrap();
    let out = format_captures(&m, "xy");
    let expected = "Some(Captures({\n    0: Some(\"x\"),\n    1: Some(\"x\"),\n    2: None,\n})),\nSome(Captures({\n    0: Some(\"y\"),\n    1: None,\n    2: Some(\"y\"),\n})),\n";
    assert_eq!(out, expected);
}

#[test]
fn format_no_match_is_sentinel() {
    let m = compile("q").unwrap();
    assert_eq!(format_captures(&m, "abc"), "None");
}
