//! The verdict of a validation run and the line that announces it.

use vstd::prelude::*;
use crate::text::{decimal, push_decimal, push_str};
use super::report::{count_in, count_results, DoctorReport, Severity, ValidationError};

verus! {

/// How a validation run ends, drawn from its finding counts.
#[derive(Debug, Clone, Copy, PartialEq, Eq, Structural)]
pub enum DoctorVerdict {
    /// At least one error: the run fails.
    Failed { errors: usize, warnings: usize },
    /// No error, but at least one warning.
    Warnings { warnings: usize },
    /// No error and no warning.
    Passed,
}

/// The verdict for a run with `errors` errors and `warnings` warnings: it
/// fails on any error, else it reports its warnings, else it passes.
pub open spec fn verdict_of(errors: usize, warnings: usize) -> DoctorVerdict {
    if errors > 0 {
        DoctorVerdict::Failed { errors, warnings }
    } else if warnings > 0 {
        DoctorVerdict::Warnings { warnings }
    } else {
        DoctorVerdict::Passed
    }
}

/// The verdict for a run with `errors` errors and `warnings` warnings.
pub fn doctor_verdict(errors: usize, warnings: usize) -> (v: DoctorVerdict)
    ensures
        v == verdict_of(errors, warnings),
{
    if errors > 0 {
        DoctorVerdict::Failed { errors, warnings }
    } else if warnings > 0 {
        DoctorVerdict::Warnings { warnings }
    } else {
        DoctorVerdict::Passed
    }
}

impl DoctorVerdict {
    /// Whether the run fails.
    pub open spec fn fails(self) -> bool {
        self is Failed
    }

    /// The line that announces the verdict.
    pub open spec fn text(self) -> Seq<char> {
        match self {
            DoctorVerdict::Failed { errors, warnings } => "Validation failed: "@ + decimal(
                errors as nat,
            ) + " error(s), "@ + decimal(warnings as nat) + " warning(s)"@,
            DoctorVerdict::Warnings { warnings } => "Validation complete: "@ + decimal(
                warnings as nat,
            ) + " warning(s)"@,
            DoctorVerdict::Passed => "All checks passed"@,
        }
    }

    /// The line that announces the verdict.
    pub fn message(&self) -> (m: String)
        ensures
            m@ == self.text(),
    {
        let mut m = String::new();
        match self {
            DoctorVerdict::Failed { errors, warnings } => {
                push_str(&mut m, "Validation failed: ");
                push_decimal(&mut m, *errors as u64);
                push_str(&mut m, " error(s), ");
                push_decimal(&mut m, *warnings as u64);
                push_str(&mut m, " warning(s)");
            },
            DoctorVerdict::Warnings { warnings } => {
                push_str(&mut m, "Validation complete: ");
                push_decimal(&mut m, *warnings as u64);
                push_str(&mut m, " warning(s)");
            },
            DoctorVerdict::Passed => {
                push_str(&mut m, "All checks passed");
            },
        }
        m
    }
}

/// A run fails exactly when it has at least one error; warnings alone never
/// fail it.
pub proof fn law_only_errors_fail(errors: usize, warnings: usize)
    ensures
        verdict_of(errors, warnings).fails() <==> errors > 0,
{
}

proof fn lemma_count_in_positive(findings: Seq<ValidationError>, severity: Severity)
    ensures
        count_in(findings, severity) > 0 <==> exists|j: int|
            0 <= j < findings.len() && (#[trigger] findings[j]).severity == severity,
    decreases findings.len(),
{
    if findings.len() > 0 {
        let init = findings.drop_last();
        lemma_count_in_positive(init, severity);
        if exists|j: int| 0 <= j < init.len() && (#[trigger] init[j]).severity == severity {
            let j = choose|j: int| 0 <= j < init.len() && (#[trigger] init[j]).severity == severity;
            assert(findings[j] == init[j]);
        }
        if exists|j: int| 0 <= j < findings.len() && (#[trigger] findings[j]).severity == severity {
            let j = choose|j: int|
                0 <= j < findings.len() && (#[trigger] findings[j]).severity == severity;
            if j < findings.len() - 1 {
                assert(init[j] == findings[j]);
            }
        }
    }
}

proof fn lemma_count_results_positive(
    results: Seq<(String, Vec<ValidationError>)>,
    severity: Severity,
)
    ensures
        count_results(results, severity) > 0 <==> exists|i: int, j: int|
            0 <= i < results.len() && 0 <= j < results[i].1@.len() && (
            #[trigger] results[i].1@[j]).severity == severity,
    decreases results.len(),
{
    if results.len() > 0 {
        let init = results.drop_last();
        lemma_count_results_positive(init, severity);
        lemma_count_in_positive(results.last().1@, severity);
        if exists|i: int, j: int|
            0 <= i < init.len() && 0 <= j < init[i].1@.len() && (#[trigger] init[i].1@[j]).severity
                == severity {
            let (i, j) = choose|i: int, j: int|
                0 <= i < init.len() && 0 <= j < init[i].1@.len() && (
                #[trigger] init[i].1@[j]).severity == severity;
            assert(results[i] == init[i]);
            assert(results[i].1@[j] == init[i].1@[j]);
        }
        if exists|j: int|
            0 <= j < results.last().1@.len() && (#[trigger] results.last().1@[j]).severity
                == severity {
            let j = choose|j: int|
                0 <= j < results.last().1@.len() && (#[trigger] results.last().1@[j]).severity
                    == severity;
            assert(results[results.len() - 1].1@[j] == results.last().1@[j]);
        }
        if exists|i: int, j: int|
            0 <= i < results.len() && 0 <= j < results[i].1@.len() && (
            #[trigger] results[i].1@[j]).severity == severity {
            let (i, j) = choose|i: int, j: int|
                0 <= i < results.len() && 0 <= j < results[i].1@.len() && (
                #[trigger] results[i].1@[j]).severity == severity;
            if i < results.len() - 1 {
                assert(init[i] == results[i]);
                assert(init[i].1@[j] == results[i].1@[j]);
            } else {
                assert(results.last().1@[j] == results[i].1@[j]);
            }
        }
    }
}

/// A validation run fails exactly when some validator reported a finding of
/// severity error, whatever the warnings.
pub proof fn law_run_fails_iff_some_error(report: DoctorReport, errors: usize, warnings: usize)
    requires
        errors == report.count_of(Severity::Error),
        warnings == report.count_of(Severity::Warning),
    ensures
        verdict_of(errors, warnings).fails() <==> exists|i: int, j: int|
            0 <= i < report.entries().len() && 0 <= j < report.entries()[i].1@.len() && (
            #[trigger] report.entries()[i].1@[j]).severity == Severity::Error,
{
    lemma_count_results_positive(report.entries(), Severity::Error);
}

} // verus!
