use dotfiles_manager::doctor::{doctor_verdict, DoctorReport, DoctorVerdict, Severity, ValidationError};

#[test]
fn error_constructor_sets_error_severity_and_no_fix() {
    let err = ValidationError::error("something broke");
    assert_eq!(err.severity, Severity::Error);
    assert_eq!(err.message, "something broke");
    assert!(err.fix_suggestion.is_none());
}

#[test]
fn warning_constructor_sets_warning_severity() {
    let err = ValidationError::warning("drift detected");
    assert_eq!(err.severity, Severity::Warning);
    assert_eq!(err.message, "drift detected");
}

#[test]
fn info_constructor_sets_info_severity() {
    let err = ValidationError::info("just fyi");
    assert_eq!(err.severity, Severity::Info);
    assert_eq!(err.message, "just fyi");
}

#[test]
fn with_fix_attaches_suggestion() {
    let err = ValidationError::warning("drift detected").with_fix("run dfm backup");
    assert_eq!(err.fix_suggestion.as_deref(), Some("run dfm backup"));
}

#[test]
fn add_result_stores_findings_in_run_order() {
    let mut report = DoctorReport::default();
    report.add_result("Registry Files", vec![ValidationError::info("a")]);
    report.add_result(
        "Backup Consistency Check",
        vec![ValidationError::error("b")],
    );

    let results = report.results();
    assert_eq!(results.len(), 2);
    assert_eq!(results[0].0, "Registry Files");
    assert_eq!(results[1].0, "Backup Consistency Check");
}

#[test]
fn error_count_counts_only_error_severity_across_validators() {
    let mut report = DoctorReport::default();
    report.add_result(
        "A",
        vec![ValidationError::error("e1"), ValidationError::warning("w1")],
    );
    report.add_result("B", vec![ValidationError::error("e2")]);

    assert_eq!(report.error_count(), 2);
}

#[test]
fn warning_count_counts_only_warning_severity_across_validators() {
    let mut report = DoctorReport::default();
    report.add_result(
        "A",
        vec![ValidationError::warning("w1"), ValidationError::info("i1")],
    );
    report.add_result("B", vec![ValidationError::warning("w2")]);

    assert_eq!(report.warning_count(), 2);
}

#[test]
fn default_report_has_no_results_and_zero_counts() {
    let report = DoctorReport::default();
    assert!(report.results().is_empty());
    assert_eq!(report.error_count(), 0);
    assert_eq!(report.warning_count(), 0);
}

// Further cases.

#[test]
fn with_fix_keeps_severity_and_message() {
    let err = ValidationError::error("broken").with_fix("run doctor --fix");
    assert_eq!(err.severity, Severity::Error);
    assert_eq!(err.message, "broken");
    assert_eq!(err.fix_suggestion.as_deref(), Some("run doctor --fix"));
}

#[test]
fn adding_a_validator_raises_counts_by_its_findings() {
    let mut report = DoctorReport::new();
    report.add_result("A", vec![ValidationError::error("e1")]);
    let (errors, warnings) = (report.error_count(), report.warning_count());
    report.add_result(
        "B",
        vec![
            ValidationError::error("e2"),
            ValidationError::warning("w1"),
            ValidationError::warning("w2"),
            ValidationError::info("i1"),
        ],
    );
    assert_eq!(report.error_count(), errors + 1);
    assert_eq!(report.warning_count(), warnings + 2);
    assert_eq!(report.results()[0].1.len(), 1);
}

#[test]
fn validator_with_no_findings_counts_nothing() {
    let mut report = DoctorReport::new();
    report.add_result("Empty", vec![]);
    assert_eq!(report.results().len(), 1);
    assert_eq!(report.error_count(), 0);
    assert_eq!(report.warning_count(), 0);
}

#[test]
fn verdict_fails_on_errors_only() {
    assert_eq!(doctor_verdict(2, 1), DoctorVerdict::Failed { errors: 2, warnings: 1 });
    assert_eq!(doctor_verdict(0, 3), DoctorVerdict::Warnings { warnings: 3 });
    assert_eq!(doctor_verdict(0, 0), DoctorVerdict::Passed);
}

#[test]
fn verdict_messages() {
    assert_eq!(
        doctor_verdict(2, 1).message(),
        "Validation failed: 2 error(s), 1 warning(s)"
    );
    assert_eq!(doctor_verdict(0, 12).message(), "Validation complete: 12 warning(s)");
    assert_eq!(doctor_verdict(0, 0).message(), "All checks passed");
    assert_eq!(
        doctor_verdict(1, 0).message(),
        "Validation failed: 1 error(s), 0 warning(s)"
    );
}

#[test]
fn severity_counts_partition_every_finding() {
    let mut report = DoctorReport::new();
    report.add_result("A", vec![ValidationError::error("e1"), ValidationError::warning("w1")]);
    report.add_result("B", vec![ValidationError::info("i1"), ValidationError::error("e2")]);
    report.add_result("C", vec![]);
    let total: usize = report.results().iter().map(|(_, errs)| errs.len()).sum();
    assert_eq!(report.count_by_severity(Severity::Error), 2);
    assert_eq!(report.count_by_severity(Severity::Warning), 1);
    assert_eq!(report.count_by_severity(Severity::Info), 1);
    assert_eq!(
        report.count_by_severity(Severity::Error)
            + report.count_by_severity(Severity::Warning)
            + report.count_by_severity(Severity::Info),
        total
    );
    let before = report.error_count();
    report.add_result("D", vec![ValidationError::warning("w2"), ValidationError::error("e3")]);
    assert_eq!(report.error_count(), before + 1);
}
