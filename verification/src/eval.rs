//! The evaluation pipeline: one pure function from (pattern, subject) to the
//! textual report — empty output for an empty pattern, the engine's
//! diagnostic for a rejected pattern, and the rendered match report
//! otherwise.

use vstd::prelude::*;
use crate::engine::compile;
use crate::engine::compile_result;
use crate::engine::captures_of;
use crate::render::render_report;
use crate::render::format_captures;

verus! {

/// The report that evaluating pattern text `p` against subject text `s`
/// yields: empty where `p` is empty, the engine's diagnostic where the
/// engine rejects `p`, and otherwise the rendered report of all matches.
pub open spec fn evaluate_spec(p: Seq<char>, s: Seq<char>) -> Seq<char> {
    if p.len() == 0 {
        Seq::empty()
    } else {
        match compile_result(p) {
            Some(msg) => msg,
            None => render_report(captures_of(p, s)),
        }
    }
}

/// Evaluate `pattern` against `subject`: compile the pattern, scan the
/// subject, and render the report. Never fails — an empty pattern yields
/// empty output, a rejected pattern yields the engine's diagnostic text.
/// A diagnostic report is never empty and never the bare no-match
/// sentinel, so it cannot be mistaken for those two states.
pub fn evaluate(pattern: &str, subject: &str) -> (r: String)
    ensures
        r@ == evaluate_spec(pattern@, subject@),
        pattern@.len() > 0 && compile_result(pattern@) is Some ==> r@.len() > 0 && r@
            != "None"@,
{
    if pattern.is_empty() {
        return String::new();
    }
    match compile(pattern) {
        Err(msg) => msg,
        Ok(matcher) => format_captures(&matcher, subject),
    }
}

/// Law (purity): the report is a function of the pattern and subject text
/// alone, so repeated evaluations of identical inputs yield identical
/// output.
pub proof fn lemma_evaluate_pure(p: Seq<char>, s: Seq<char>, r1: Seq<char>, r2: Seq<char>)
    requires
        r1 == evaluate_spec(p, s),
        r2 == evaluate_spec(p, s),
    ensures
        r1 == r2,
{
}

/// Law (empty pattern): evaluating the empty pattern yields empty output,
/// whatever the subject.
pub proof fn lemma_empty_pattern(s: Seq<char>)
    ensures
        evaluate_spec(Seq::empty(), s) == Seq::<char>::empty(),
{
}

/// Law (rejected pattern): where the engine rejects the pattern, the
/// report is exactly the engine's diagnostic text.
pub proof fn lemma_rejected_pattern(p: Seq<char>, s: Seq<char>)
    requires
        p.len() > 0,
        compile_result(p) is Some,
    ensures
        evaluate_spec(p, s) == compile_result(p)->0,
{
}

/// Law (no match): where the pattern compiles and has no occurrence in the
/// subject, the report is exactly the fixed sentinel.
pub proof fn lemma_no_match_sentinel(p: Seq<char>, s: Seq<char>)
    requires
        p.len() > 0,
        compile_result(p) is None,
        captures_of(p, s).len() == 0,
    ensures
        evaluate_spec(p, s) == "None"@,
{
}

} // verus!
