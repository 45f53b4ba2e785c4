//! Validation findings, grouped by the validator that produced them.

use vstd::prelude::*;

verus! {

/// Severity of a validation finding.
#[derive(Debug, Clone, Copy, PartialEq, Eq, Structural)]
pub enum Severity {
    /// A finding that fails the overall validation run.
    Error,
    /// A finding that is reported but does not fail the run.
    Warning,
    /// A purely informational finding.
    Info,
}

/// A single finding produced by a validator.
#[derive(Debug, Clone)]
pub struct ValidationError {
    /// How severe this finding is.
    pub severity: Severity,
    /// Human-readable description of the finding.
    pub message: String,
    /// Optional suggested remediation for this finding.
    pub fix_suggestion: Option<String>,
}

impl ValidationError {
    /// A finding that fails the overall validation run.
    pub fn error(message: &str) -> (e: Self)
        ensures
            e.severity == Severity::Error,
            e.message@ == message@,
            e.fix_suggestion is None,
    {
        ValidationError { severity: Severity::Error, message: message.to_owned(), fix_suggestion: None }
    }

    /// A finding that is reported but does not fail the run.
    pub fn warning(message: &str) -> (e: Self)
        ensures
            e.severity == Severity::Warning,
            e.message@ == message@,
            e.fix_suggestion is None,
    {
        ValidationError { severity: Severity::Warning, message: message.to_owned(), fix_suggestion: None }
    }

    /// A purely informational finding.
    pub fn info(message: &str) -> (e: Self)
        ensures
            e.severity == Severity::Info,
            e.message@ == message@,
            e.fix_suggestion is None,
    {
        ValidationError { severity: Severity::Info, message: message.to_owned(), fix_suggestion: None }
    }

    /// Attach a suggested remediation to this finding.
    pub fn with_fix(self, suggestion: &str) -> (e: Self)
        ensures
            e.severity == self.severity,
            e.message == self.message,
            e.fix_suggestion matches Some(s) && s@ == suggestion@,
    {
        let mut e = self;
        e.fix_suggestion = Some(suggestion.to_owned());
        e
    }
}

/// Number of findings of severity `severity` in `findings`.
pub open spec fn count_in(findings: Seq<ValidationError>, severity: Severity) -> nat
    decreases findings.len(),
{
    if findings.len() == 0 {
        0
    } else {
        count_in(findings.drop_last(), severity) + if findings.last().severity == severity {
            1nat
        } else {
            0nat
        }
    }
}

/// Number of findings of severity `severity` over all validators of `results`.
pub open spec fn count_results(results: Seq<(String, Vec<ValidationError>)>, severity: Severity) -> nat
    decreases results.len(),
{
    if results.len() == 0 {
        0
    } else {
        count_results(results.drop_last(), severity) + count_in(results.last().1@, severity)
    }
}

/// Number of findings, of any severity, over all validators of `results`.
pub open spec fn total_findings(results: Seq<(String, Vec<ValidationError>)>) -> nat
    decreases results.len(),
{
    if results.len() == 0 {
        0
    } else {
        total_findings(results.drop_last()) + results.last().1@.len()
    }
}

/// Findings of a full validation run, grouped by validator.
#[derive(Debug)]
pub struct DoctorReport {
    /// Findings recorded by each validator, in the order they ran.
    results: Vec<(String, Vec<ValidationError>)>,
}

impl DoctorReport {
    /// The findings can be counted in a `usize`.
    #[verifier::type_invariant]
    spec fn countable(self) -> bool {
        total_findings(self.results@) <= usize::MAX
    }

    /// `(validator name, findings)` pairs, in run order.
    pub closed spec fn entries(self) -> Seq<(String, Vec<ValidationError>)> {
        self.results@
    }

    /// Number of findings of the given severity over all validators.
    pub open spec fn count_of(self, severity: Severity) -> nat {
        count_results(self.entries(), severity)
    }

    /// Number of findings over all validators.
    pub open spec fn total(self) -> nat {
        total_findings(self.entries())
    }

    /// A report with no validator results yet.
    pub fn new() -> (r: Self)
        ensures
            r.entries() == Seq::<(String, Vec<ValidationError>)>::empty(),
    {
        DoctorReport { results: Vec::new() }
    }

    /// Record one validator's findings.
    pub fn add_result(&mut self, validator_name: &str, errors: Vec<ValidationError>)
        requires
            old(self).total() + errors@.len() <= usize::MAX,
        ensures
            final(self).entries().len() == old(self).entries().len() + 1,
            final(self).entries().take(old(self).entries().len() as int) == old(self).entries(),
            final(self).entries().last().0@ == validator_name@,
            final(self).entries().last().1@ == errors@,
    {
        let ghost prev = self.results@;
        let name = validator_name.to_owned();
        let entry = (name, errors);
        let mut results = Vec::new();
        std::mem::swap(&mut results, &mut self.results);
        results.push(entry);
        assert(results@.drop_last() == prev);
        self.results = results;
        assert(self.results@.take(prev.len() as int) == prev);
    }

    /// `(validator name, findings)` pairs, in run order.
    pub fn results(&self) -> (r: &[(String, Vec<ValidationError>)])
        ensures
            r@ == self.entries(),
    {
        self.results.as_slice()
    }

    /// Count findings across all validators at a given severity.
    pub fn count_by_severity(&self, severity: Severity) -> (n: usize)
        ensures
            n == self.count_of(severity),
    {
        proof {
            use_type_invariant(self);
        }
        let mut n: usize = 0;
        for i in 0..self.results.len()
            invariant
                n == count_results(self.results@.take(i as int), severity),
                total_findings(self.results@) <= usize::MAX,
        {
            let errors = &self.results[i].1;
            proof {
                assert(self.results@.take(i + 1).drop_last() == self.results@.take(i as int));
                lemma_count_le_total(self.results@.take(i + 1), severity);
                lemma_total_prefix(self.results@, i + 1);
            }
            for j in 0..errors.len()
                invariant
                    n == count_results(self.results@.take(i as int), severity) + count_in(
                        errors@.take(j as int),
                        severity,
                    ),
                    errors@ == self.results@[i as int].1@,
                    count_results(self.results@.take(i + 1), severity) <= usize::MAX,
                    count_results(self.results@.take(i + 1), severity) == count_results(
                        self.results@.take(i as int),
                        severity,
                    ) + count_in(errors@, severity),
            {
                proof {
                    assert(errors@.take(j + 1).drop_last() == errors@.take(j as int));
                    lemma_count_in_prefix(errors@, j + 1, severity);
                }
                if errors[j].severity == severity {
                    n = n + 1;
                }
            }
            assert(errors@.take(errors@.len() as int) == errors@);
        }
        assert(self.results@.take(self.results@.len() as int) == self.results@);
        n
    }

    /// Total number of [`Severity::Error`] findings.
    pub fn error_count(&self) -> (n: usize)
        ensures
            n == self.count_of(Severity::Error),
    {
        self.count_by_severity(Severity::Error)
    }

    /// Total number of [`Severity::Warning`] findings.
    pub fn warning_count(&self) -> (n: usize)
        ensures
            n == self.count_of(Severity::Warning),
    {
        self.count_by_severity(Severity::Warning)
    }
}

impl Default for DoctorReport {
    /// A report with no validator results yet.
    fn default() -> (r: Self)
        ensures
            r.entries() == Seq::<(String, Vec<ValidationError>)>::empty(),
    {
        DoctorReport::new()
    }
}

/// Counting a prefix of the findings gives at most the count of all of them.
proof fn lemma_count_in_prefix(findings: Seq<ValidationError>, k: int, severity: Severity)
    requires
        0 <= k <= findings.len(),
    ensures
        count_in(findings.take(k), severity) <= count_in(findings, severity),
    decreases findings.len(),
{
    if k < findings.len() {
        assert(findings.drop_last().take(k) == findings.take(k));
        lemma_count_in_prefix(findings.drop_last(), k, severity);
    } else {
        assert(findings.take(k) == findings);
    }
}

/// The findings of one severity are among all the findings.
proof fn lemma_count_le_total(results: Seq<(String, Vec<ValidationError>)>, severity: Severity)
    ensures
        count_results(results, severity) <= total_findings(results),
    decreases results.len(),
{
    if results.len() > 0 {
        lemma_count_le_total(results.drop_last(), severity);
        lemma_count_in_le_len(results.last().1@, severity);
    }
}

/// A severity count of a list of findings is at most its length.
proof fn lemma_count_in_le_len(findings: Seq<ValidationError>, severity: Severity)
    ensures
        count_in(findings, severity) <= findings.len(),
    decreases findings.len(),
{
    if findings.len() > 0 {
        lemma_count_in_le_len(findings.drop_last(), severity);
    }
}

/// The findings of a prefix of the results are among all the findings.
proof fn lemma_total_prefix(results: Seq<(String, Vec<ValidationError>)>, k: int)
    requires
        0 <= k <= results.len(),
    ensures
        total_findings(results.take(k)) <= total_findings(results),
    decreases results.len(),
{
    if k < results.len() {
        assert(results.drop_last().take(k) == results.take(k));
        lemma_total_prefix(results.drop_last(), k);
    } else {
        assert(results.take(k) == results);
    }
}

/// Recording a validator's findings raises the count of each severity by the
/// number of that validator's findings of that severity, and leaves the rest
/// of the report's counts as they were.
pub proof fn law_add_result_counts(before: DoctorReport, after: DoctorReport, severity: Severity)
    requires
        after.entries().len() == before.entries().len() + 1,
        after.entries().take(before.entries().len() as int) == before.entries(),
    ensures
        after.count_of(severity) == before.count_of(severity) + count_in(
            after.entries().last().1@,
            severity,
        ),
        after.total() == before.total() + after.entries().last().1@.len(),
{
    assert(after.entries().drop_last() == before.entries());
}

/// A report with no validator results has no findings of any severity.
pub proof fn law_empty_report_counts_zero(report: DoctorReport, severity: Severity)
    requires
        report.entries().len() == 0,
    ensures
        report.count_of(severity) == 0,
        report.total() == 0,
{
}

/// Every finding has exactly one severity: the error, warning and info
/// counts add up to the number of findings.
pub proof fn law_severities_partition_findings(report: DoctorReport)
    ensures
        report.count_of(Severity::Error) + report.count_of(Severity::Warning) + report.count_of(
            Severity::Info,
        ) == report.total(),
{
    lemma_partition(report.entries());
}

proof fn lemma_partition_in(findings: Seq<ValidationError>)
    ensures
        count_in(findings, Severity::Error) + count_in(findings, Severity::Warning) + count_in(
            findings,
            Severity::Info,
        ) == findings.len(),
    decreases findings.len(),
{
    if findings.len() > 0 {
        lemma_partition_in(findings.drop_last());
    }
}

proof fn lemma_partition(results: Seq<(String, Vec<ValidationError>)>)
    ensures
        count_results(results, Severity::Error) + count_results(results, Severity::Warning)
            + count_results(results, Severity::Info) == total_findings(results),
    decreases results.len(),
{
    if results.len() > 0 {
        lemma_partition(results.drop_last());
        lemma_partition_in(results.last().1@);
    }
}

} // verus!
