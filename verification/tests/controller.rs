use rustexp::tester::RegexTester;

#[test]
fn fresh_tester_reports_empty() {
    let t = RegexTester::new();
    assert_eq!(t.current_report(), "");
}

#[test]
fn report_tracks_inputs() {
    let mut t = RegexTester::new();
    t.set_pattern(String::from("a"));
    assert_eq!(t.current_report(), "None");
    t.set_subject(String::from("aa"));
    let two = "Some(Captures({\n    0: Some(\"a\"),\n})),\nSome(Captures({\n    0: Some(\"a\"),\n})),\n";
    assert_eq!(t.current_report(), two);
    t.set_pattern(String::new());
    assert_eq!(t.current_report(), "");
}

#[test]
fn restoring_subject_restores_report() {
    let mut t = RegexTester::new();
    t.set_pattern(String::from("(a)(b)?"));
    t.set_subject(String::from("ab"));
    let original = t.current_report();
    t.set_subject(String::from("zzz"));
    assert_eq!(t.current_report(), "None");
    t.set_subject(String::from("ab"));
    assert_eq!(t.current_report(), original);
}
