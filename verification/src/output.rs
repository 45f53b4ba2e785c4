//! Output verbosity and severity colors.

use vstd::prelude::*;
use crate::doctor::report::{count_results, DoctorReport, Severity, ValidationError};
use crate::doctor::verdict::{doctor_verdict, verdict_of, DoctorVerdict};
use crate::text::{decimal, push_str};

verus! {

// ---------------------------------------------------------------------------
// Verbosity
// ---------------------------------------------------------------------------

/// Output verbosity, set once at startup from `--quiet`/`--verbose`.
#[derive(Debug, Clone, Copy, PartialEq, Eq, Structural)]
pub enum Verbosity {
    /// Suppress non-essential output.
    Quiet,
    /// Default verbosity.
    Normal,
    /// Print additional diagnostic output.
    Verbose,
}

/// The verbosity that the `--quiet` and `--verbose` flags select: quiet wins
/// over verbose, and neither means normal.
pub fn verbosity_from_flags(quiet: bool, verbose: bool) -> (v: Verbosity)
    ensures
        quiet ==> v == Verbosity::Quiet,
        !quiet && verbose ==> v == Verbosity::Verbose,
        !quiet && !verbose ==> v == Verbosity::Normal,
{
    if quiet {
        Verbosity::Quiet
    } else if verbose {
        Verbosity::Verbose
    } else {
        Verbosity::Normal
    }
}

/// Set the verbosity held in `setting`. Only the first call takes effect:
/// once a verbosity is held, it is kept.
pub fn set_verbosity(setting: &mut Option<Verbosity>, verbosity: Verbosity)
    ensures
        *old(setting) is None ==> *final(setting) == Some(verbosity),
        *old(setting) is Some ==> *final(setting) == *old(setting),
{
    if setting.is_none() {
        *setting = Some(verbosity);
    }
}

/// The verbosity that `setting` stands for: `Normal` until one is set.
pub open spec fn current_verbosity(setting: Option<Verbosity>) -> Verbosity {
    match setting {
        Some(v) => v,
        None => Verbosity::Normal,
    }
}

/// The verbosity that `setting` stands for: `Normal` until one is set.
pub fn verbosity(setting: &Option<Verbosity>) -> (v: Verbosity)
    ensures
        v == current_verbosity(*setting),
{
    match setting {
        Some(v) => *v,
        None => Verbosity::Normal,
    }
}

/// Whether non-essential status output should be suppressed.
pub fn is_quiet(setting: &Option<Verbosity>) -> (b: bool)
    ensures
        b == (current_verbosity(*setting) == Verbosity::Quiet),
{
    verbosity(setting) == Verbosity::Quiet
}

/// Whether additional diagnostic output should be printed.
pub fn is_verbose(setting: &Option<Verbosity>) -> (b: bool)
    ensures
        b == (current_verbosity(*setting) == Verbosity::Verbose),
{
    verbosity(setting) == Verbosity::Verbose
}

// ---------------------------------------------------------------------------
// Colors
// ---------------------------------------------------------------------------

/// The foreground colors that output uses.
#[derive(Debug, Clone, Copy, PartialEq, Eq, Structural)]
pub enum Color {
    /// Success.
    Green,
    /// Warning.
    Yellow,
    /// Error.
    Red,
}

/// The ANSI escape that sets `color` as the foreground.
pub open spec fn color_code(color: Color) -> Seq<char> {
    match color {
        Color::Green => seq!['\u{1b}', '[', '3', '2', 'm'],
        Color::Yellow => seq!['\u{1b}', '[', '3', '3', 'm'],
        Color::Red => seq!['\u{1b}', '[', '3', '1', 'm'],
    }
}

/// The ANSI escape that resets all styling.
pub open spec fn reset_code() -> Seq<char> {
    seq!['\u{1b}', '[', '0', 'm']
}

/// `text` wrapped in `color`, reset after it.
pub open spec fn colored(text: Seq<char>, color: Color) -> Seq<char> {
    color_code(color) + text + reset_code()
}

/// The rendering of `anstyle`'s style for `color` on the default background,
/// as `Display` writes it (`{style}`): the foreground escape of the ANSI
/// color.
#[verifier::external_body]
fn style_prefix(color: Color) -> (s: String)
    ensures
        s@ == color_code(color),
{
    let style = match color {
        Color::Green => anstyle::AnsiColor::Green,
        Color::Yellow => anstyle::AnsiColor::Yellow,
        Color::Red => anstyle::AnsiColor::Red,
    }.on_default();
    format!("{style}")
}

/// The alternate rendering of `anstyle`'s style for `color` on the default
/// background (`{style:#}`): the reset escape, which `anstyle` writes for any
/// style other than the plain one.
#[verifier::external_body]
fn style_reset(color: Color) -> (s: String)
    ensures
        s@ == reset_code(),
{
    let style = match color {
        Color::Green => anstyle::AnsiColor::Green,
        Color::Yellow => anstyle::AnsiColor::Yellow,
        Color::Red => anstyle::AnsiColor::Red,
    }.on_default();
    format!("{style:#}")
}

/// Wrap `text` in the given color, resetting after it.
pub fn color(text: &str, c: Color) -> (s: String)
    ensures
        s@ == colored(text@, c),
{
    let mut s = style_prefix(c);
    push_str(&mut s, text);
    let reset = style_reset(c);
    push_str(&mut s, reset.as_str());
    s
}

/// Wrap `text` in green (success).
pub fn green(text: &str) -> (s: String)
    ensures
        s@ == colored(text@, Color::Green),
{
    color(text, Color::Green)
}

/// Wrap `text` in yellow (warning).
pub fn yellow(text: &str) -> (s: String)
    ensures
        s@ == colored(text@, Color::Yellow),
{
    color(text, Color::Yellow)
}

/// Wrap `text` in red (error).
pub fn red(text: &str) -> (s: String)
    ensures
        s@ == colored(text@, Color::Red),
{
    color(text, Color::Red)
}

/// Colored text holds the original text, right after the color's escape.
pub proof fn law_colored_contains_text(text: Seq<char>, color: Color)
    ensures
        colored(text, color).subrange(5, 5 + text.len() as int) == text,
{
    assert(colored(text, color).subrange(5, 5 + text.len() as int) =~= text);
}

/// Different colors give different output for the same text.
pub proof fn law_colors_differ(text: Seq<char>, a: Color, b: Color)
    requires
        a != b,
    ensures
        colored(text, a) != colored(text, b),
{
    assert(colored(text, a)[3] == color_code(a)[3]);
    assert(colored(text, b)[3] == color_code(b)[3]);
}

// ---------------------------------------------------------------------------
// Doctor report lines
// ---------------------------------------------------------------------------

/// The marker that starts the line of a finding of `severity`.
pub open spec fn severity_marker(severity: Severity) -> Seq<char> {
    match severity {
        Severity::Error => " x "@,
        Severity::Warning => " ! "@,
        Severity::Info => " i "@,
    }
}

/// The color of the line of a finding of `severity`.
pub open spec fn severity_color(severity: Severity) -> Color {
    match severity {
        Severity::Error => Color::Red,
        Severity::Warning => Color::Yellow,
        Severity::Info => Color::Green,
    }
}

/// The lines printed for one finding: the severity-colored message, then
/// the suggested fix in yellow when there is one.
pub open spec fn finding_lines(e: ValidationError) -> Seq<Seq<char>> {
    let head = seq![colored(severity_marker(e.severity) + e.message@, severity_color(e.severity))];
    match e.fix_suggestion {
        Some(fix) => head.push(colored(" Fix: "@ + fix@, Color::Yellow)),
        None => head,
    }
}

/// The lines printed for a validator's findings, in order.
pub open spec fn findings_lines(findings: Seq<ValidationError>) -> Seq<Seq<char>>
    decreases findings.len(),
{
    if findings.len() == 0 {
        Seq::empty()
    } else {
        findings_lines(findings.drop_last()) + finding_lines(findings.last())
    }
}

/// The lines printed for one validator: ` <name> OK` when it found nothing
/// (left out when quiet), else ` <name>` followed by its findings.
pub open spec fn validator_lines(name: Seq<char>, findings: Seq<ValidationError>, quiet: bool) -> Seq<
    Seq<char>,
> {
    if findings.len() == 0 {
        if quiet {
            Seq::empty()
        } else {
            seq![" "@ + name + " OK"@]
        }
    } else {
        seq![" "@ + name] + findings_lines(findings)
    }
}

/// The lines printed for every validator's findings, in run order.
pub open spec fn report_lines(results: Seq<(String, Vec<ValidationError>)>, quiet: bool) -> Seq<
    Seq<char>,
>
    decreases results.len(),
{
    if results.len() == 0 {
        Seq::empty()
    } else {
        report_lines(results.drop_last(), quiet) + validator_lines(
            results.last().0@,
            results.last().1@,
            quiet,
        )
    }
}

/// The views of a list of strings.
pub open spec fn line_views(v: Seq<String>) -> Seq<Seq<char>> {
    v.map_values(|s: String| s@)
}

/// Append `line` to `lines`.
pub fn push_line(lines: &mut Vec<String>, line: String)
    ensures
        line_views(final(lines)@) == line_views(old(lines)@).push(line@),
{
    lines.push(line);
    assert(line_views(final(lines)@) =~= line_views(old(lines)@).push(line@));
}

fn push_finding_lines(lines: &mut Vec<String>, e: &ValidationError)
    ensures
        line_views(final(lines)@) == line_views(old(lines)@) + finding_lines(*e),
{
    let mut text = String::new();
    match e.severity {
        Severity::Error => push_str(&mut text, " x "),
        Severity::Warning => push_str(&mut text, " ! "),
        Severity::Info => push_str(&mut text, " i "),
    }
    push_str(&mut text, e.message.as_str());
    let c = match e.severity {
        Severity::Error => Color::Red,
        Severity::Warning => Color::Yellow,
        Severity::Info => Color::Green,
    };
    let ghost start = line_views(lines@);
    push_line(lines, color(text.as_str(), c));
    match &e.fix_suggestion {
        Some(fix) => {
            let mut t = String::new();
            push_str(&mut t, " Fix: ");
            push_str(&mut t, fix.as_str());
            push_line(lines, color(t.as_str(), Color::Yellow));
        },
        None => {},
    }
    assert(line_views(lines@) =~= start + finding_lines(*e));
}

/// The lines that show every validator's findings, grouped and
/// severity-colored; validators with nothing to report are left out when
/// `quiet`.
pub fn doctor_report_lines(report: &DoctorReport, quiet: bool) -> (lines: Vec<String>)
    ensures
        line_views(lines@) == report_lines(report.entries(), quiet),
{
    let results = report.results();
    let mut lines: Vec<String> = Vec::new();
    assert(line_views(lines@) =~= report_lines(results@.take(0), quiet));
    for i in 0..results.len()
        invariant
            results@ == report.entries(),
            line_views(lines@) == report_lines(results@.take(i as int), quiet),
    {
        let name = &results[i].0;
        let errors = &results[i].1;
        let ghost before = line_views(lines@);
        assert(results@.take(i + 1).drop_last() =~= results@.take(i as int));
        if errors.len() == 0 {
            if !quiet {
                let mut t = String::new();
                push_str(&mut t, " ");
                push_str(&mut t, name.as_str());
                push_str(&mut t, " OK");
                push_line(&mut lines, t);
            }
            assert(line_views(lines@) =~= before + validator_lines(name@, errors@, quiet));
        } else {
            let mut t = String::new();
            push_str(&mut t, " ");
            push_str(&mut t, name.as_str());
            push_line(&mut lines, t);
            let ghost head = line_views(lines@);
            assert(errors@.take(0) =~= Seq::<ValidationError>::empty());
            assert(head =~= before + seq![" "@ + name@] + findings_lines(errors@.take(0)));
            for j in 0..errors.len()
                invariant
                    line_views(lines@) == before + seq![" "@ + name@] + findings_lines(
                        errors@.take(j as int),
                    ),
            {
                assert(errors@.take(j + 1).drop_last() =~= errors@.take(j as int));
                push_finding_lines(&mut lines, &errors[j]);
                assert(line_views(lines@) =~= before + seq![" "@ + name@] + findings_lines(
                    errors@.take(j + 1),
                ));
            }
            assert(errors@.take(errors@.len() as int) =~= errors@);
            assert(line_views(lines@) =~= before + validator_lines(name@, errors@, quiet));
        }
    }
    assert(results@.take(results@.len() as int) =~= results@);
    lines
}

// ---------------------------------------------------------------------------
// Sync preview and profile list lines
// ---------------------------------------------------------------------------

/// The lines that preview a sync run over the pending `changes`: a yellow
/// notice when there is none, else a count followed by each change,
/// indented.
pub open spec fn sync_preview_text(changes: Seq<Seq<char>>) -> Seq<Seq<char>> {
    if changes.len() == 0 {
        seq![colored("   No changes to commit"@, Color::Yellow)]
    } else {
        seq!["Dry run: would stage, commit, and push "@ + crate::text::decimal(changes.len())
            + " change(s):"@] + changes.map_values(|c: Seq<char>| "   "@ + c)
    }
}

/// The lines that preview a sync run over the pending `changes`.
pub fn sync_preview_lines(changes: &Vec<String>) -> (lines: Vec<String>)
    ensures
        line_views(lines@) == sync_preview_text(line_views(changes@)),
{
    let mut lines: Vec<String> = Vec::new();
    if changes.len() == 0 {
        push_line(&mut lines, yellow("   No changes to commit"));
        assert(line_views(lines@) =~= sync_preview_text(line_views(changes@)));
        return lines;
    }
    let mut head = String::new();
    push_str(&mut head, "Dry run: would stage, commit, and push ");
    crate::text::push_decimal(&mut head, changes.len() as u64);
    push_str(&mut head, " change(s):");
    push_line(&mut lines, head);
    let ghost first = line_views(lines@);
    for i in 0..changes.len()
        invariant
            line_views(lines@) == first + line_views(changes@).take(i as int).map_values(
                |c: Seq<char>| "   "@ + c,
            ),
    {
        let mut l = String::new();
        push_str(&mut l, "   ");
        push_str(&mut l, changes[i].as_str());
        push_line(&mut lines, l);
        assert(line_views(changes@).take(i + 1).map_values(|c: Seq<char>| "   "@ + c)
            =~= line_views(changes@).take(i as int).map_values(|c: Seq<char>| "   "@ + c).push(
            "   "@ + changes@[i as int]@,
        ));
    }
    assert(line_views(changes@).take(changes@.len() as int) =~= line_views(changes@));
    assert(line_views(lines@) =~= sync_preview_text(line_views(changes@)));
    lines
}

/// The line listing one profile: its name, its description after ` - `
/// when it has one, and ` ← active` when it is the active profile.
pub open spec fn profile_line(name: Seq<char>, description: Option<Seq<char>>, active: bool) -> Seq<
    char,
> {
    "   "@ + name + match description {
        Some(d) => " - "@ + d,
        None => Seq::empty(),
    } + if active {
        " ← active"@
    } else {
        Seq::empty()
    }
}

/// The line listing the profile `p = (name, description)`, marked when its
/// name is `active`.
pub open spec fn profile_entry_line(p: (String, Option<String>), active: Option<Seq<char>>) -> Seq<
    char,
> {
    profile_line(
        p.0@,
        match p.1 {
            Some(d) => Some(d@),
            None => None,
        },
        active == Some(p.0@),
    )
}

/// The lines listing each profile of `profiles`, in order.
pub open spec fn profile_entries(
    profiles: Seq<(String, Option<String>)>,
    active: Option<Seq<char>>,
) -> Seq<Seq<char>> {
    profiles.map_values(|p: (String, Option<String>)| profile_entry_line(p, active))
}

/// The lines that list the profiles `(name, description)`, in order, the one
/// named `active` marked; or, when there is none, how to create one.
pub open spec fn profile_list_text(
    profiles: Seq<(String, Option<String>)>,
    active: Option<Seq<char>>,
) -> Seq<Seq<char>> {
    if profiles.len() == 0 {
        seq![
            "No profiles configured"@,
            Seq::empty(),
            "Create a profile with: dfm profile create <name>"@,
        ]
    } else {
        seq!["Available profiles:"@] + profile_entries(profiles, active)
    }
}

/// The lines that list the profiles `(name, description)`, the one named
/// `active` marked.
pub fn profile_list_lines(profiles: &Vec<(String, Option<String>)>, active: Option<&str>) -> (lines:
    Vec<String>)
    ensures
        line_views(lines@) == profile_list_text(
            profiles@,
            match active {
                Some(a) => Some(a@),
                None => None,
            },
        ),
{
    let ghost act = match active {
        Some(a) => Some(a@),
        None => None,
    };
    let mut lines: Vec<String> = Vec::new();
    if profiles.len() == 0 {
        push_line(&mut lines, "No profiles configured".to_owned());
        push_line(&mut lines, String::new());
        push_line(&mut lines, "Create a profile with: dfm profile create <name>".to_owned());
        assert(line_views(lines@) =~= profile_list_text(profiles@, act));
        return lines;
    }
    push_line(&mut lines, "Available profiles:".to_owned());
    for i in 0..profiles.len()
        invariant
            line_views(lines@) == seq!["Available profiles:"@] + profile_entries(
                profiles@.take(i as int),
                act,
            ),
            act == match active {
                Some(a) => Some(a@),
                None => None,
            },
    {
        let (name, description) = &profiles[i];
        let is_active = match active {
            Some(a) => crate::text::chars_eq(
                &crate::text::chars_of(name.as_str()),
                &crate::text::chars_of(a),
            ),
            None => false,
        };
        let mut l = String::new();
        push_str(&mut l, "   ");
        push_str(&mut l, name.as_str());
        match description {
            Some(d) => {
                push_str(&mut l, " - ");
                push_str(&mut l, d.as_str());
            },
            None => {},
        }
        if is_active {
            push_str(&mut l, " ← active");
        }
        proof {
            assert(profiles@[i as int].0 == *name);
            assert(profiles@[i as int].1 == *description);
            assert(is_active == (act == Some(name@)));
            let d_part = match description {
                Some(d) => " - "@ + d@,
                None => Seq::<char>::empty(),
            };
            let a_part = if is_active {
                " ← active"@
            } else {
                Seq::<char>::empty()
            };
            assert(l@ =~= "   "@ + name@ + d_part + a_part);
            assert(l@ =~= profile_entry_line(profiles@[i as int], act));
        }
        push_line(&mut lines, l);
        assert(profile_entries(profiles@.take(i + 1), act) =~= profile_entries(
            profiles@.take(i as int),
            act,
        ).push(profile_entry_line(profiles@[i as int], act)));
    }
    assert(profiles@.take(profiles@.len() as int) =~= profiles@);
    assert(line_views(lines@) =~= profile_list_text(profiles@, act));
    lines
}

// ---------------------------------------------------------------------------
// The doctor verdict line
// ---------------------------------------------------------------------------

/// The stream a line is written to.
#[derive(Debug, Clone, Copy, PartialEq, Eq, Structural)]
pub enum Stream {
    /// Standard output.
    Stdout,
    /// Standard error.
    Stderr,
}

/// How a validation run ends on the terminal: a failed run ends in an error
/// with the verdict's text; a run with warnings prints that text in red on
/// standard error; a clean run prints it in green on standard output.
pub open spec fn verdict_line_of(v: DoctorVerdict) -> Result<(Stream, Seq<char>), Seq<char>> {
    match v {
        DoctorVerdict::Failed { .. } => Err(v.text()),
        DoctorVerdict::Warnings { .. } => Ok((Stream::Stderr, colored(v.text(), Color::Red))),
        DoctorVerdict::Passed => Ok((Stream::Stdout, colored(v.text(), Color::Green))),
    }
}

/// The line that ends a validation run and its stream, or the error that
/// ends a failed one.
pub fn verdict_line(v: &DoctorVerdict) -> (r: Result<(Stream, String), String>)
    ensures
        match r {
            Ok((stream, line)) => verdict_line_of(*v) == Ok::<(Stream, Seq<char>), Seq<char>>(
                (stream, line@),
            ),
            Err(e) => verdict_line_of(*v) == Err::<(Stream, Seq<char>), Seq<char>>(e@),
        },
{
    let text = v.message();
    match v {
        DoctorVerdict::Failed { .. } => Err(text),
        DoctorVerdict::Warnings { .. } => Ok((Stream::Stderr, red(text.as_str()))),
        DoctorVerdict::Passed => Ok((Stream::Stdout, green(text.as_str()))),
    }
}

// ---------------------------------------------------------------------------
// A validation run
// ---------------------------------------------------------------------------

/// The lines that open a validation of the `profile` profile; none for JSON
/// output or when quiet.
pub open spec fn validation_header_text(profile: Seq<char>, json: bool, quiet: bool) -> Seq<
    Seq<char>,
> {
    if json || quiet {
        Seq::empty()
    } else {
        seq!["Validating configuration..."@, "   Profile: "@ + profile]
    }
}

/// The lines that open a validation of the `profile` profile.
pub fn validation_header_lines(profile: &str, json: bool, quiet: bool) -> (lines: Vec<String>)
    ensures
        line_views(lines@) == validation_header_text(profile@, json, quiet),
{
    let mut lines: Vec<String> = Vec::new();
    if !json && !quiet {
        push_line(&mut lines, "Validating configuration...".to_owned());
        let mut t = String::new();
        push_str(&mut t, "   Profile: ");
        push_str(&mut t, profile);
        push_line(&mut lines, t);
    }
    assert(line_views(lines@) =~= validation_header_text(profile@, json, quiet));
    lines
}

/// What a validation run shows once its findings are in.
pub struct ValidationOutput {
    /// Lines for standard output, in order.
    pub stdout: Vec<String>,
    /// Lines for standard error, in order.
    pub stderr: Vec<String>,
    /// The error that ends a failed run.
    pub failure: Option<String>,
}

/// The verdict of the findings in `results`.
pub open spec fn results_verdict(results: Seq<(String, Vec<ValidationError>)>) -> DoctorVerdict {
    verdict_of(
        count_results(results, Severity::Error) as usize,
        count_results(results, Severity::Warning) as usize,
    )
}

/// What a validation run shows for the findings in `results`. With JSON
/// output the report itself is all that is printed, and the run fails on
/// any error. Otherwise the findings are framed by blank lines and the
/// verdict follows: on standard output in green when everything passed, on
/// standard error in red when there are only warnings, as the error of the
/// run when there are errors.
pub open spec fn validation_result_text(
    results: Seq<(String, Vec<ValidationError>)>,
    quiet: bool,
    json: bool,
) -> (Seq<Seq<char>>, Seq<Seq<char>>, Option<Seq<char>>) {
    let v = results_verdict(results);
    let failure = if v.fails() {
        Some(v.text())
    } else {
        None
    };
    if json {
        (Seq::empty(), Seq::empty(), failure)
    } else {
        let body = seq![Seq::<char>::empty()] + report_lines(results, quiet) + seq![
            Seq::<char>::empty(),
        ];
        match verdict_line_of(v) {
            Ok((Stream::Stdout, line)) => (body.push(line), Seq::empty(), None),
            Ok((Stream::Stderr, line)) => (body, seq![line], None),
            Err(e) => (body, Seq::empty(), Some(e)),
        }
    }
}

/// What a validation run shows for the findings of `report`.
pub fn validation_result(report: &DoctorReport, quiet: bool, json: bool) -> (o: ValidationOutput)
    ensures
        ({
            let (out, err, failure) = validation_result_text(report.entries(), quiet, json);
            &&& line_views(o.stdout@) == out
            &&& line_views(o.stderr@) == err
            &&& match o.failure {
                Some(f) => failure == Some(f@),
                None => failure is None,
            }
        }),
        o.failure is Some <==> report.count_of(Severity::Error) > 0,
        o.failure matches Some(f) ==> f@ == "Validation failed: "@ + decimal(
            report.count_of(Severity::Error),
        ) + " error(s), "@ + decimal(report.count_of(Severity::Warning)) + " warning(s)"@,
{
    let errors = report.error_count();
    let warnings = report.warning_count();
    let v = doctor_verdict(errors, warnings);
    assert(v == results_verdict(report.entries()));
    let mut stdout: Vec<String> = Vec::new();
    let mut stderr: Vec<String> = Vec::new();
    if json {
        let failure = match v {
            DoctorVerdict::Failed { .. } => Some(v.message()),
            _ => None,
        };
        assert(line_views(stdout@) =~= Seq::<Seq<char>>::empty());
        assert(line_views(stderr@) =~= Seq::<Seq<char>>::empty());
        return ValidationOutput { stdout, stderr, failure };
    }
    push_line(&mut stdout, String::new());
    let body = doctor_report_lines(report, quiet);
    let ghost before = line_views(stdout@);
    for i in 0..body.len()
        invariant
            line_views(stdout@) == before + line_views(body@).take(i as int),
    {
        push_line(&mut stdout, body[i].clone());
        assert(line_views(body@).take(i + 1) =~= line_views(body@).take(i as int).push(
            line_views(body@)[i as int],
        ));
    }
    assert(line_views(body@).take(body@.len() as int) =~= line_views(body@));
    push_line(&mut stdout, String::new());
    let ghost framed = line_views(stdout@);
    assert(framed =~= seq![Seq::<char>::empty()] + report_lines(report.entries(), quiet) + seq![
        Seq::<char>::empty(),
    ]);
    let failure = match verdict_line(&v) {
        Ok((Stream::Stdout, line)) => {
            push_line(&mut stdout, line);
            None
        },
        Ok((Stream::Stderr, line)) => {
            push_line(&mut stderr, line);
            None
        },
        Err(e) => Some(e),
    };
    proof {
        let (out, err, f) = validation_result_text(report.entries(), quiet, json);
        assert(line_views(stdout@) =~= out);
        assert(line_views(stderr@) =~= err);
    }
    ValidationOutput { stdout, stderr, failure }
}

/// A validation run fails, with or without JSON output and whatever the
/// verbosity, exactly when some finding is an error; warnings and notes
/// alone never fail it. The failure names both counts.
pub proof fn law_validation_fails_only_on_errors(
    results: Seq<(String, Vec<ValidationError>)>,
    quiet: bool,
    json: bool,
)
    requires
        count_results(results, Severity::Error) <= usize::MAX,
        count_results(results, Severity::Warning) <= usize::MAX,
    ensures
        validation_result_text(results, quiet, json).2 is Some <==> count_results(
            results,
            Severity::Error,
        ) > 0,
        validation_result_text(results, quiet, json).2 matches Some(f) ==> f == "Validation failed: "@
            + decimal(count_results(results, Severity::Error)) + " error(s), "@ + decimal(
            count_results(results, Severity::Warning),
        ) + " warning(s)"@,
{
}

/// The number of findings in `findings` that suggest a fix.
pub open spec fn fixes_in(findings: Seq<ValidationError>) -> nat
    decreases findings.len(),
{
    if findings.len() == 0 {
        0
    } else {
        fixes_in(findings.drop_last()) + if findings.last().fix_suggestion is Some {
            1nat
        } else {
            0nat
        }
    }
}

/// Each finding, whatever its severity, shows as its marked message in the
/// severity's color, followed by exactly one yellow ` Fix: ` line when it
/// suggests a fix, and by nothing else.
pub proof fn law_every_finding_shows_its_fix(e: ValidationError)
    ensures
        finding_lines(e).len() == if e.fix_suggestion is Some {
            2int
        } else {
            1int
        },
        finding_lines(e)[0] == match e.severity {
            Severity::Error => colored(" x "@ + e.message@, Color::Red),
            Severity::Warning => colored(" ! "@ + e.message@, Color::Yellow),
            Severity::Info => colored(" i "@ + e.message@, Color::Green),
        },
        e.fix_suggestion matches Some(fix) ==> finding_lines(e)[1] == colored(
            " Fix: "@ + fix@,
            Color::Yellow,
        ),
{
}

/// A validator's findings take one line each, plus one line per suggested
/// fix: no finding and no fix is left out.
pub proof fn law_findings_lines_count(findings: Seq<ValidationError>)
    ensures
        findings_lines(findings).len() == findings.len() + fixes_in(findings),
    decreases findings.len(),
{
    if findings.len() > 0 {
        law_findings_lines_count(findings.drop_last());
        law_every_finding_shows_its_fix(findings.last());
    }
}

/// How a validation run ends on the terminal, by its counts: any error makes
/// it fail with both counts; otherwise warnings are reported in red on
/// standard error; otherwise the pass is reported in green on standard
/// output.
pub proof fn law_verdict_line_by_counts(errors: usize, warnings: usize)
    ensures
        errors > 0 ==> verdict_line_of(verdict_of(errors, warnings)) == Err::<
            (Stream, Seq<char>),
            Seq<char>,
        >(
            "Validation failed: "@ + decimal(errors as nat) + " error(s), "@ + decimal(
                warnings as nat,
            ) + " warning(s)"@,
        ),
        errors == 0 && warnings > 0 ==> verdict_line_of(verdict_of(errors, warnings)) == Ok::<
            (Stream, Seq<char>),
            Seq<char>,
        >(
            (
                Stream::Stderr,
                colored("Validation complete: "@ + decimal(warnings as nat) + " warning(s)"@, Color::Red),
            ),
        ),
        errors == 0 && warnings == 0 ==> verdict_line_of(verdict_of(errors, warnings)) == Ok::<
            (Stream, Seq<char>),
            Seq<char>,
        >((Stream::Stdout, colored("All checks passed"@, Color::Green))),
{
}

/// The number of validators in `results` that found nothing.
pub open spec fn clean_validators(results: Seq<(String, Vec<ValidationError>)>) -> nat
    decreases results.len(),
{
    if results.len() == 0 {
        0
    } else {
        clean_validators(results.drop_last()) + if results.last().1@.len() == 0 {
            1nat
        } else {
            0nat
        }
    }
}

/// The number of findings in `results`, and of suggested fixes among them.
pub open spec fn shown_findings(results: Seq<(String, Vec<ValidationError>)>) -> nat
    decreases results.len(),
{
    if results.len() == 0 {
        0
    } else {
        shown_findings(results.drop_last()) + results.last().1@.len() + fixes_in(
            results.last().1@,
        )
    }
}

/// A doctor report shows one heading line per validator that found
/// something, one line per finding and one per suggested fix, and, unless
/// quiet, one line per validator that found nothing: quiet drops exactly
/// those.
pub proof fn law_report_lines_count(results: Seq<(String, Vec<ValidationError>)>, quiet: bool)
    ensures
        report_lines(results, quiet).len() == (results.len() - clean_validators(results))
            + shown_findings(results) + if quiet {
            0int
        } else {
            clean_validators(results) as int
        },
    decreases results.len(),
{
    if results.len() > 0 {
        law_report_lines_count(results.drop_last(), quiet);
        law_findings_lines_count(results.last().1@);
    }
}

} // verus!
