//! The reactive controller: holds the two mutable inputs (pattern, subject)
//! and the memoized report, recomputes the report synchronously on every
//! input change, and never exposes a report computed from superseded
//! inputs.

use vstd::prelude::*;
use crate::eval::evaluate;
use crate::eval::evaluate_spec;

verus! {

/// The controller's state: the current pattern and subject text and the
/// memoized report. Every mutation recomputes the report before it
/// returns, so a well-formed tester always reports exactly what evaluating
/// its current inputs yields.
pub struct RegexTester {
    pattern: String,
    subject: String,
    report: String,
}

impl RegexTester {
    /// The current pattern text.
    pub closed spec fn spec_pattern(&self) -> Seq<char> {
        self.pattern@
    }

    /// The current subject text.
    pub closed spec fn spec_subject(&self) -> Seq<char> {
        self.subject@
    }

    /// The memoized report.
    pub closed spec fn spec_report(&self) -> Seq<char> {
        self.report@
    }

    /// Well-formedness: the memoized report is exactly what evaluating the
    /// current inputs yields — no observer ever sees a stale report.
    pub open spec fn wf(&self) -> bool {
        self.spec_report() == evaluate_spec(self.spec_pattern(), self.spec_subject())
    }

    /// A fresh tester: both inputs empty, and the report already what the
    /// empty inputs evaluate to (empty output).
    pub fn new() -> (t: Self)
        ensures
            t.wf(),
            t.spec_pattern() == Seq::<char>::empty(),
            t.spec_subject() == Seq::<char>::empty(),
    {
        RegexTester { pattern: String::new(), subject: String::new(), report: String::new() }
    }

    /// Replace the pattern text and synchronously recompute the report.
    pub fn set_pattern(&mut self, pattern: String)
        ensures
            final(self).wf(),
            final(self).spec_pattern() == pattern@,
            final(self).spec_subject() == old(self).spec_subject(),
    {
        self.pattern = pattern;
        self.report = evaluate(self.pattern.as_str(), self.subject.as_str());
    }

    /// Replace the subject text and synchronously recompute the report.
    pub fn set_subject(&mut self, subject: String)
        ensures
            final(self).wf(),
            final(self).spec_subject() == subject@,
            final(self).spec_pattern() == old(self).spec_pattern(),
    {
        self.subject = subject;
        self.report = evaluate(self.pattern.as_str(), self.subject.as_str());
    }

    /// The latest memoized report; on a well-formed tester this is exactly
    /// what evaluating the current inputs yields.
    pub fn current_report(&self) -> (r: String)
        ensures
            r@ == self.spec_report(),
            self.wf() ==> r@ == evaluate_spec(self.spec_pattern(), self.spec_subject()),
    {
        self.report.clone()
    }
}

/// Law (re-evaluation restores the report): two well-formed testers whose
/// pattern and subject text agree hold the same report — in particular,
/// changing the subject and then changing it back to its original value
/// restores the original report exactly.
pub proof fn lemma_report_determined(a: RegexTester, b: RegexTester)
    requires
        a.wf(),
        b.wf(),
        a.spec_pattern() == b.spec_pattern(),
        a.spec_subject() == b.spec_subject(),
    ensures
        a.spec_report() == b.spec_report(),
{
}

} // verus!
