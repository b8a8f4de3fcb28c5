//! The result of validating a candidate configuration: a pass/fail flag
//! together with diagnostic text.
use vstd::prelude::*;
use vstd::string::*;

verus! {

/// What a validation run reported: `passed` with an empty diagnostic, or a
/// failure that always carries a non-empty diagnostic.
pub struct ValidationOutcome {
    pub passed: bool,
    pub diagnostic: String,
}

/// Well-formedness of an outcome: a pass carries no diagnostic, a failure
/// always carries one.
pub open spec fn outcome_wf(o: &ValidationOutcome) -> bool {
    &&& o.passed ==> o.diagnostic@.len() == 0
    &&& !o.passed ==> o.diagnostic@.len() > 0
}

impl ValidationOutcome {
    /// A passing outcome with an empty diagnostic.
    pub fn pass() -> (r: Self)
        ensures
            r.passed,
            r.diagnostic@.len() == 0,
            outcome_wf(&r),
    {
        ValidationOutcome { passed: true, diagnostic: String::new() }
    }

    /// A failing outcome with the given diagnostic text.
    pub fn fail(diagnostic: String) -> (r: Self)
        requires
            diagnostic@.len() > 0,
        ensures
            !r.passed,
            r.diagnostic@ == diagnostic@,
            outcome_wf(&r),
    {
        ValidationOutcome { passed: false, diagnostic }
    }
}

} // verus!
