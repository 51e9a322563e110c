//! The pattern compiler and the boundary to the matching engine: turn raw
//! pattern text into either a usable matcher or the engine's compilation
//! diagnostic, and run a compiled matcher over a subject to collect every
//! match with its capture groups.

use vstd::prelude::*;

verus! {

#[verifier::external_type_specification]
#[verifier::external_body]
pub struct ExRegex(regex::bytes::Regex);

/// What compiling pattern text `p` yields: `None` when the engine accepts
/// `p`, `Some(msg)` when it rejects `p` with diagnostic text `msg`. Whether
/// a pattern compiles, and the diagnostic rendered on failure, depend on the
/// pattern text alone.
pub uninterp spec fn compile_result(p: Seq<char>) -> Option<Seq<char>>;

/// The engine's matches for pattern `p` over subject `s`: one row per
/// non-overlapping match, in left-to-right scan order; within a row, one
/// entry per capture group of the pattern, indexed from group 0 (the whole
/// match), holding `Some` with the captured text where the group
/// participated in the match and `None` where it did not. Matching depends
/// on the pattern and subject text alone.
pub uninterp spec fn captures_of(p: Seq<char>, s: Seq<char>) -> Seq<Seq<Option<Seq<char>>>>;

/// The validated, executable form of a pattern: the engine's compiled
/// matcher together with the pattern text it was built from. Values exist
/// only through `compile`, so the matcher always belongs to the stored
/// pattern text; the view of a `CompiledMatcher` is that pattern text.
pub struct CompiledMatcher {
    matcher: regex::bytes::Regex,
    pattern: String,
}

impl View for CompiledMatcher {
    type V = Seq<char>;

    closed spec fn view(&self) -> Seq<char> {
        self.pattern@
    }
}

/// Relies on `regex::bytes::Regex::new`: it returns `Ok` exactly when the
/// pattern is a valid expression of the engine's syntax (within the default
/// size limit), and otherwise an error whose rendering is the engine's
/// descriptive diagnostic; both are functions of the pattern text alone.
/// Every diagnostic the engine renders is a nonempty sentence (a parse
/// error report, the size-limit sentence, or a build-error message) and so
/// is never the bare no-match sentinel.
#[verifier::external_body]
fn regex_new(pattern: &str) -> (r: Result<regex::bytes::Regex, String>)
    ensures
        (r is Ok) == (compile_result(pattern@) is None),
        r is Err ==> r->Err_0@ == compile_result(pattern@)->0,
        r is Err ==> r->Err_0@.len() > 0 && r->Err_0@ != "None"@,
{
    regex::bytes::Regex::new(pattern).map_err(|e| e.to_string())
}

/// Compile `pattern` into a matcher, or return the engine's diagnostic text
/// verbatim when the pattern is rejected. A diagnostic is never empty and
/// never the bare no-match sentinel, so the failure report cannot be
/// mistaken for either of those states.
pub fn compile(pattern: &str) -> (r: Result<CompiledMatcher, String>)
    ensures
        (r is Ok) == (compile_result(pattern@) is None),
        r is Ok ==> r->Ok_0@ == pattern@,
        r is Err ==> r->Err_0@ == compile_result(pattern@)->0,
        r is Err ==> r->Err_0@.len() > 0 && r->Err_0@ != "None"@,
{
    match regex_new(pattern) {
        Ok(matcher) => Ok(CompiledMatcher { matcher, pattern: pattern.to_owned() }),
        Err(msg) => Err(msg),
    }
}

/// Relies on `regex::bytes::Regex::captures_iter` and `Captures::iter`: the
/// sequence of non-overlapping leftmost-first matches and, within each
/// match, the per-group captured spans (group 0 first, then the groups in
/// order of their opening parenthesis) are functions of the pattern and the
/// subject alone. Captured bytes are decoded as text; a span that is not
/// valid text (possible only under byte-oriented constructs such as
/// `(?-u:.)`) is decoded lossily, which keeps the result a function of the
/// same two texts. Every row lists one entry per capture group of the
/// pattern — the same count in every row — and its entry 0, the whole
/// match, is always present. Sound because `CompiledMatcher` values exist
/// only through `compile`, so `m`'s matcher was built from the pattern text
/// `m@`.
#[verifier::external_body]
pub(crate) fn regex_captures(m: &CompiledMatcher, subject: &str) -> (rows: Vec<Vec<Option<String>>>)
    ensures
        rows.deep_view() == captures_of(m@, subject@),
        forall|i: int|
            0 <= i < rows.deep_view().len() ==> ({
                let row = #[trigger] rows.deep_view()[i];
                row.len() >= 1 && row[0] is Some && row.len() == rows.deep_view()[0].len()
            }),
{
    m.matcher
        .captures_iter(subject.as_bytes())
        .map(|c| {
            c.iter()
                .map(|g| g.map(|sp| String::from_utf8_lossy(sp.as_bytes()).into_owned()))
                .collect()
        })
        .collect()
}

} // verus!
