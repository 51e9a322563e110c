use rustexp::tables::get_modifiers;
use rustexp::tables::get_reference;

#[test]
fn modifiers_table_contents() {
    let m = get_modifiers();
    assert_eq!(m.len(), 7);
    assert_eq!(m[0].code, "u");
    assert_eq!(m[0].desc, "unicode");
    assert_eq!(m[1].code, "i");
    assert_eq!(m[6].code, "r");
    assert_eq!(m[6].desc, "inverts greediness");
}

#[test]
fn reference_table_contents() {
    let r = get_reference();
    assert_eq!(r.len(), 24);
    assert_eq!(r[0].code, ".");
    assert_eq!(r[0].desc, "non-newline char");
    assert_eq!(r[3].code, "\\b");
    assert_eq!(r[17].code, "(foo)");
    assert_eq!(r[23].code, "a{3,5}");
    assert_eq!(r[23].desc, "3 through 5 a");
}
