//! The static reference tables shown beside the tester: a short syntax
//! reference and the table of pattern modifiers, each a code with its
//! description.

use vstd::prelude::*;

verus! {

/// One reference entry: a piece of pattern syntax and its description.
#[derive(Debug, Clone, Copy, PartialEq, Eq)]
pub struct Code {
    pub code: &'static str,
    pub desc: &'static str,
}

/// The table of pattern modifiers, in display order.
pub fn get_modifiers() -> (r: Vec<Code>)
    ensures
        r@.len() == 7,
        r@[0].code@ == "u"@ && r@[0].desc@ == "unicode"@,
        r@[1].code@ == "i"@ && r@[1].desc@ == "case insensitive"@,
        r@[2].code@ == "s"@ && r@[2].desc@ == "dot matches newline"@,
        r@[3].code@ == "m"@ && r@[3].desc@ == "multiline"@,
        r@[4].code@ == "x"@ && r@[4].desc@ == "whitespace ignored"@,
        r@[5].code@ == "f"@ && r@[5].desc@ == "start on first line"@,
        r@[6].code@ == "r"@ && r@[6].desc@ == "inverts greediness"@,
{
    vec![
        Code { code: "u", desc: "unicode" },
        Code { code: "i", desc: "case insensitive" },
        Code { code: "s", desc: "dot matches newline" },
        Code { code: "m", desc: "multiline" },
        Code { code: "x", desc: "whitespace ignored" },
        Code { code: "f", desc: "start on first line" },
        Code { code: "r", desc: "inverts greediness" },
    ]
}

/// The syntax reference table, in display order.
pub fn get_reference() -> (r: Vec<Code>)
    ensures
        r@.len() == 24,
        r@[0].code@ == "."@ && r@[0].desc@ == "non-newline char"@,
        r@[1].code@ == "^"@ && r@[1].desc@ == "start of line"@,
        r@[2].code@ == "$"@ && r@[2].desc@ == "end of line"@,
        r@[3].code@ == "\\b"@ && r@[3].desc@ == "word boundary"@,
        r@[4].code@ == "\\B"@ && r@[4].desc@ == "non-word boundary"@,
        r@[5].code@ == "\\A"@ && r@[5].desc@ == "start of subject"@,
        r@[6].code@ == "\\z"@ && r@[6].desc@ == "end of subject"@,
        r@[7].code@ == "\\d"@ && r@[7].desc@ == "decimal digit"@,
        r@[8].code@ == "\\D"@ && r@[8].desc@ == "non-decimal digit"@,
        r@[9].code@ == "\\s"@ && r@[9].desc@ == "whitespace"@,
        r@[10].code@ == "\\S"@ && r@[10].desc@ == "non-whitespace"@,
        r@[11].code@ == "\\w"@ && r@[11].desc@ == "word character"@,
        r@[12].code@ == "\\W"@ && r@[12].desc@ == "non-word character"@,
        r@[13].code@ == "(a|z)"@ && r@[13].desc@ == "a or z"@,
        r@[14].code@ == "[az]"@ && r@[14].desc@ == "a or z"@,
        r@[15].code@ == "[^az]"@ && r@[15].desc@ == "not a or z"@,
        r@[16].code@ == "[a-z]"@ && r@[16].desc@ == "a through z"@,
        r@[17].code@ == "(foo)"@ && r@[17].desc@ == "capture foo"@,
        r@[18].code@ == "a?"@ && r@[18].desc@ == "0 or 1 a"@,
        r@[19].code@ == "a*"@ && r@[19].desc@ == "0 or more a"@,
        r@[20].code@ == "a+"@ && r@[20].desc@ == "1 or more a"@,
        r@[21].code@ == "a{3}"@ && r@[21].desc@ == "3 of a"@,
        r@[22].code@ == "a{3,}"@ && r@[22].desc@ == "3 or more a"@,
        r@[23].code@ == "a{3,5}"@ && r@[23].desc@ == "3 through 5 a"@,
{
    vec![
        Code { code: ".", desc: "non-newline char" },
        Code { code: "^", desc: "start of line" },
        Code { code: "$", desc: "end of line" },
        Code { code: "\\b", desc: "word boundary" },
        Code { code: "\\B", desc: "non-word boundary" },
        Code { code: "\\A", desc: "start of subject" },
        Code { code: "\\z", desc: "end of subject" },
        Code { code: "\\d", desc: "decimal digit" },
        Code { code: "\\D", desc: "non-decimal digit" },
        Code { code: "\\s", desc: "whitespace" },
        Code { code: "\\S", desc: "non-whitespace" },
        Code { code: "\\w", desc: "word character" },
        Code { code: "\\W", desc: "non-word character" },
        Code { code: "(a|z)", desc: "a or z" },
        Code { code: "[az]", desc: "a or z" },
        Code { code: "[^az]", desc: "not a or z" },
        Code { code: "[a-z]", desc: "a through z" },
        Code { code: "(foo)", desc: "capture foo" },
        Code { code: "a?", desc: "0 or 1 a" },
        Code { code: "a*", desc: "0 or more a" },
        Code { code: "a+", desc: "1 or more a" },
        Code { code: "a{3}", desc: "3 of a" },
        Code { code: "a{3,}", desc: "3 or more a" },
        Code { code: "a{3,5}", desc: "3 through 5 a" },
    ]
}

} // verus!
