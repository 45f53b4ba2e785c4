use dotfiles_manager::doctor::verdict::doctor_verdict;
use dotfiles_manager::doctor::{DoctorReport, ValidationError};
use dotfiles_manager::output::{
    color, doctor_report_lines, green, is_quiet, is_verbose, profile_list_lines, red,
    set_verbosity, sync_preview_lines, verbosity, verbosity_from_flags, verdict_line, yellow, Color,
    Stream, Verbosity, validation_header_lines, validation_result,
};

#[test]
fn green_contains_original_text() {
    assert!(green("hello").contains("hello"));
}

#[test]
fn yellow_contains_original_text() {
    assert!(yellow("warning").contains("warning"));
}

#[test]
fn red_contains_original_text() {
    assert!(red("error").contains("error"));
}

#[test]
fn color_contains_original_text() {
    assert!(color("some text", Color::Green).contains("some text"));
}

#[test]
fn color_wraps_text_with_style_and_reset() {
    let styled = color("x", Color::Red);
    let expected = "\u{1b}[31mx\u{1b}[0m";
    assert_eq!(styled, expected);
}

#[test]
fn different_colors_produce_different_output_for_same_text() {
    assert_ne!(green("same"), yellow("same"));
    assert_ne!(yellow("same"), red("same"));
    assert_ne!(green("same"), red("same"));
}

#[test]
fn empty_text_still_contains_empty_substring() {
    assert!(green("").contains(""));
}

// Further cases.

#[test]
fn each_color_uses_its_ansi_code() {
    assert_eq!(green("ok"), "\u{1b}[32mok\u{1b}[0m");
    assert_eq!(yellow("ok"), "\u{1b}[33mok\u{1b}[0m");
    assert_eq!(red("ok"), "\u{1b}[31mok\u{1b}[0m");
}

#[test]
fn verbosity_flags_quiet_wins() {
    assert_eq!(verbosity_from_flags(true, true), Verbosity::Quiet);
    assert_eq!(verbosity_from_flags(true, false), Verbosity::Quiet);
    assert_eq!(verbosity_from_flags(false, true), Verbosity::Verbose);
    assert_eq!(verbosity_from_flags(false, false), Verbosity::Normal);
}

#[test]
fn only_the_first_verbosity_takes_effect() {
    let mut setting = None;
    assert_eq!(verbosity(&setting), Verbosity::Normal);
    assert!(!is_quiet(&setting));
    set_verbosity(&mut setting, Verbosity::Quiet);
    set_verbosity(&mut setting, Verbosity::Verbose);
    assert!(is_quiet(&setting));
    assert!(!is_verbose(&setting));
}

#[test]
fn doctor_report_lines_group_and_color_findings() {
    let mut report = DoctorReport::new();
    report.add_result("Registry Files", vec![]);
    report.add_result(
        "Backup Consistency Check",
        vec![
            ValidationError::error("broken").with_fix("run doctor --fix"),
            ValidationError::warning("drift"),
            ValidationError::info("fyi"),
        ],
    );
    let lines = doctor_report_lines(&report, false);
    assert_eq!(
        lines,
        vec![
            " Registry Files OK".to_string(),
            " Backup Consistency Check".to_string(),
            red(" x broken"),
            yellow(" Fix: run doctor --fix"),
            yellow(" ! drift"),
            green(" i fyi"),
        ]
    );
    let quiet = doctor_report_lines(&report, true);
    assert_eq!(quiet.len(), 5);
    assert_eq!(quiet[0], " Backup Consistency Check");
}

#[test]
fn sync_preview_lines_count_and_indent_changes() {
    assert_eq!(sync_preview_lines(&vec![]), vec![yellow("   No changes to commit")]);
    assert_eq!(
        sync_preview_lines(&vec!["?? new.txt".to_string(), " M a".to_string()]),
        vec![
            "Dry run: would stage, commit, and push 2 change(s):".to_string(),
            "   ?? new.txt".to_string(),
            "    M a".to_string(),
        ]
    );
}

#[test]
fn profile_list_lines_mark_the_active_profile() {
    assert_eq!(
        profile_list_lines(&vec![], Some("work")),
        vec![
            "No profiles configured".to_string(),
            String::new(),
            "Create a profile with: dfm profile create <name>".to_string(),
        ]
    );
    let profiles = vec![
        ("personal".to_string(), None),
        ("work".to_string(), Some("Work setup".to_string())),
    ];
    assert_eq!(
        profile_list_lines(&profiles, Some("work")),
        vec![
            "Available profiles:".to_string(),
            "   personal".to_string(),
            "   work - Work setup \u{2190} active".to_string(),
        ]
    );
    assert_eq!(profile_list_lines(&profiles, None)[2], "   work - Work setup");
}

#[test]
fn verdict_line_goes_to_the_right_stream_in_the_right_color() {
    assert_eq!(
        verdict_line(&doctor_verdict(0, 0)),
        Ok((Stream::Stdout, "\u{1b}[32mAll checks passed\u{1b}[0m".to_string()))
    );
    assert_eq!(
        verdict_line(&doctor_verdict(0, 2)),
        Ok((Stream::Stderr, "\u{1b}[31mValidation complete: 2 warning(s)\u{1b}[0m".to_string()))
    );
    assert_eq!(
        verdict_line(&doctor_verdict(1, 3)),
        Err("Validation failed: 1 error(s), 3 warning(s)".to_string())
    );
}

#[test]
fn validation_output_frames_findings_and_ends_with_the_verdict() {
    assert_eq!(
        validation_header_lines("work", false, false),
        vec!["Validating configuration...", "   Profile: work"]
    );
    assert!(validation_header_lines("work", true, false).is_empty());
    assert!(validation_header_lines("work", false, true).is_empty());

    let mut report = DoctorReport::new();
    report.add_result("Registry", vec![]);
    let o = validation_result(&report, false, false);
    assert_eq!(
        o.stdout,
        vec![
            "".to_string(),
            " Registry OK".to_string(),
            "".to_string(),
            "\u{1b}[32mAll checks passed\u{1b}[0m".to_string(),
        ]
    );
    assert!(o.stderr.is_empty());
    assert_eq!(o.failure, None);

    report.add_result("Paths", vec![ValidationError::warning("stale link")]);
    let o = validation_result(&report, true, false);
    assert_eq!(
        o.stdout,
        vec![
            "".to_string(),
            " Paths".to_string(),
            "\u{1b}[33m ! stale link\u{1b}[0m".to_string(),
            "".to_string(),
        ]
    );
    assert_eq!(o.stderr, vec!["\u{1b}[31mValidation complete: 1 warning(s)\u{1b}[0m".to_string()]);

    report.add_result("Files", vec![ValidationError::error("missing file")]);
    let o = validation_result(&report, false, true);
    assert!(o.stdout.is_empty() && o.stderr.is_empty());
    assert_eq!(o.failure, Some("Validation failed: 1 error(s), 1 warning(s)".to_string()));
    let o = validation_result(&report, false, false);
    assert_eq!(o.failure, Some("Validation failed: 1 error(s), 1 warning(s)".to_string()));
    assert!(o.stderr.is_empty());
}
