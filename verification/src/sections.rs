//! The lines that report what a backup or restore did with each registry
//! entry, what `doctor --fix` rewrote, and what a dry run would touch.

use vstd::prelude::*;
use crate::output::{colored, green, line_views, push_line, red, yellow, Color};
use crate::text::{decimal, push_decimal, push_str};

verus! {

// ---------------------------------------------------------------------------
// Backup and restore sections
// ---------------------------------------------------------------------------

/// What happened to one registry entry.
#[derive(Debug, Clone, PartialEq, Eq)]
pub enum EntryStatus {
    /// The entry was processed; the note, if any, adds a detail.
    Done { note: Option<String> },
    /// The entry was left alone, for the reason given.
    Skipped { reason: String },
}

/// The standard-output lines of one entry `(label, id, status)`: a green
/// check and the label, then the note indented, both left out when `quiet`;
/// nothing for a skipped entry.
pub open spec fn entry_stdout(o: (String, String, EntryStatus), quiet: bool) -> Seq<Seq<char>> {
    match o.2 {
        EntryStatus::Done { note } => if quiet {
            Seq::empty()
        } else {
            seq!["     "@ + colored("✔"@, Color::Green) + " "@ + o.0@] + match note {
                Some(n) => seq!["       "@ + n@],
                None => Seq::empty(),
            }
        },
        EntryStatus::Skipped { .. } => Seq::empty(),
    }
}

/// The standard-error lines of one entry `(label, id, status)`: for a
/// skipped entry, the label, id and reason in yellow, whatever the
/// verbosity; nothing for one that was done.
pub open spec fn entry_stderr(o: (String, String, EntryStatus)) -> Seq<Seq<char>> {
    match o.2 {
        EntryStatus::Skipped { reason } => seq![
            colored(
                "     skipped "@ + o.0@ + " ("@ + o.1@ + "): "@ + reason@,
                Color::Yellow,
            ),
        ],
        EntryStatus::Done { .. } => Seq::empty(),
    }
}

/// The standard-output lines of every entry, in order.
pub open spec fn entries_stdout(outcomes: Seq<(String, String, EntryStatus)>, quiet: bool) -> Seq<
    Seq<char>,
>
    decreases outcomes.len(),
{
    if outcomes.len() == 0 {
        Seq::empty()
    } else {
        entries_stdout(outcomes.drop_last(), quiet) + entry_stdout(outcomes.last(), quiet)
    }
}

/// The standard-error lines of every entry, in order.
pub open spec fn entries_stderr(outcomes: Seq<(String, String, EntryStatus)>) -> Seq<Seq<char>>
    decreases outcomes.len(),
{
    if outcomes.len() == 0 {
        Seq::empty()
    } else {
        entries_stderr(outcomes.drop_last()) + entry_stderr(outcomes.last())
    }
}

/// What a section prints on standard output: a header with the number of
/// entries, left out when `quiet`, then each entry's lines.
pub open spec fn section_stdout(
    title: Seq<char>,
    outcomes: Seq<(String, String, EntryStatus)>,
    quiet: bool,
) -> Seq<Seq<char>> {
    (if quiet {
        Seq::empty()
    } else {
        seq!["   "@ + title + ": "@ + decimal(outcomes.len()) + " entries"@]
    }) + entries_stdout(outcomes, quiet)
}

/// What a section prints on standard error: each warning in yellow, then
/// each skipped entry.
pub open spec fn section_stderr(warnings: Seq<String>, outcomes: Seq<(String, String, EntryStatus)>) -> Seq<
    Seq<char>,
> {
    warnings.map_values(|w: String| colored("     "@ + w@, Color::Yellow)) + entries_stderr(
        outcomes,
    )
}

/// The lines of a backup or restore section, for standard output and for
/// standard error. Under `quiet` the header and the per-entry lines are
/// dropped; warnings and skipped entries are kept.
pub fn section_lines(
    title: &str,
    warnings: &Vec<String>,
    outcomes: &Vec<(String, String, EntryStatus)>,
    quiet: bool,
) -> (r: (Vec<String>, Vec<String>))
    ensures
        line_views(r.0@) == section_stdout(title@, outcomes@, quiet),
        line_views(r.1@) == section_stderr(warnings@, outcomes@),
{
    let mut out: Vec<String> = Vec::new();
    let mut err: Vec<String> = Vec::new();
    if !quiet {
        let mut head = String::new();
        push_str(&mut head, "   ");
        push_str(&mut head, title);
        push_str(&mut head, ": ");
        push_decimal(&mut head, outcomes.len() as u64);
        push_str(&mut head, " entries");
        push_line(&mut out, head);
    }
    let ghost head_lines = line_views(out@);
    for i in 0..warnings.len()
        invariant
            line_views(err@) == warnings@.take(i as int).map_values(
                |w: String| colored("     "@ + w@, Color::Yellow),
            ),
    {
        let mut t = String::new();
        push_str(&mut t, "     ");
        push_str(&mut t, warnings[i].as_str());
        push_line(&mut err, yellow(t.as_str()));
        assert(warnings@.take(i + 1).map_values(|w: String| colored("     "@ + w@, Color::Yellow))
            =~= warnings@.take(i as int).map_values(
            |w: String| colored("     "@ + w@, Color::Yellow),
        ).push(colored("     "@ + warnings@[i as int]@, Color::Yellow)));
    }
    assert(warnings@.take(warnings@.len() as int) =~= warnings@);
    let ghost warn_lines = line_views(err@);
    assert(outcomes@.take(0) =~= Seq::<(String, String, EntryStatus)>::empty());
    assert(out@ == out@);
    for i in 0..outcomes.len()
        invariant
            line_views(out@) == head_lines + entries_stdout(outcomes@.take(i as int), quiet),
            line_views(err@) == warn_lines + entries_stderr(outcomes@.take(i as int)),
    {
        let (label, id, status) = &outcomes[i];
        assert(outcomes@.take(i + 1).drop_last() =~= outcomes@.take(i as int));
        let ghost o = outcomes@[i as int];
        let ghost out_before = line_views(out@);
        let ghost err_before = line_views(err@);
        match status {
            EntryStatus::Done { note } => {
                if !quiet {
                    let mut l = String::new();
                    push_str(&mut l, "     ");
                    let check = green("✔");
                    push_str(&mut l, check.as_str());
                    push_str(&mut l, " ");
                    push_str(&mut l, label.as_str());
                    push_line(&mut out, l);
                    match note {
                        Some(n) => {
                            let mut t = String::new();
                            push_str(&mut t, "       ");
                            push_str(&mut t, n.as_str());
                            push_line(&mut out, t);
                        },
                        None => {},
                    }
                }
                assert(line_views(out@) =~= out_before + entry_stdout(o, quiet));
                assert(line_views(err@) =~= err_before + entry_stderr(o));
            },
            EntryStatus::Skipped { reason } => {
                let mut t = String::new();
                push_str(&mut t, "     skipped ");
                push_str(&mut t, label.as_str());
                push_str(&mut t, " (");
                push_str(&mut t, id.as_str());
                push_str(&mut t, "): ");
                push_str(&mut t, reason.as_str());
                push_line(&mut err, yellow(t.as_str()));
                assert(line_views(out@) =~= out_before + entry_stdout(o, quiet));
                assert(line_views(err@) =~= err_before + entry_stderr(o));
            },
        }
    }
    assert(outcomes@.take(outcomes@.len() as int) =~= outcomes@);
    assert(line_views(out@) =~= section_stdout(title@, outcomes@, quiet));
    assert(line_views(err@) =~= section_stderr(warnings@, outcomes@));
    (out, err)
}

/// How many entries were done.
pub open spec fn done_count(outcomes: Seq<(String, String, EntryStatus)>) -> nat
    decreases outcomes.len(),
{
    if outcomes.len() == 0 {
        0
    } else {
        done_count(outcomes.drop_last()) + if outcomes.last().2 is Done {
            1nat
        } else {
            0nat
        }
    }
}

/// How many entries were skipped.
pub open spec fn skipped_count(outcomes: Seq<(String, String, EntryStatus)>) -> nat
    decreases outcomes.len(),
{
    if outcomes.len() == 0 {
        0
    } else {
        skipped_count(outcomes.drop_last()) + if outcomes.last().2 is Skipped {
            1nat
        } else {
            0nat
        }
    }
}

/// Every entry is either done or skipped, so the two counts add up to the
/// number of entries.
pub proof fn law_done_and_skipped_cover_section(outcomes: Seq<(String, String, EntryStatus)>)
    ensures
        done_count(outcomes) + skipped_count(outcomes) == outcomes.len(),
    decreases outcomes.len(),
{
    if outcomes.len() > 0 {
        law_done_and_skipped_cover_section(outcomes.drop_last());
    }
}

/// How many entries were done with a note.
pub open spec fn noted_count(outcomes: Seq<(String, String, EntryStatus)>) -> nat
    decreases outcomes.len(),
{
    if outcomes.len() == 0 {
        0
    } else {
        noted_count(outcomes.drop_last()) + if outcomes.last().2 matches EntryStatus::Done {
            note: Some(_),
        } {
            1nat
        } else {
            0nat
        }
    }
}

proof fn lemma_entries_counts(outcomes: Seq<(String, String, EntryStatus)>, quiet: bool)
    ensures
        entries_stdout(outcomes, quiet).len() == if quiet {
            0
        } else {
            done_count(outcomes) + noted_count(outcomes)
        },
        entries_stderr(outcomes).len() == skipped_count(outcomes),
    decreases outcomes.len(),
{
    if outcomes.len() > 0 {
        lemma_entries_counts(outcomes.drop_last(), quiet);
    }
}

/// Under `--quiet` a section prints nothing on standard output; otherwise a
/// header, one line per done entry and one per note. On standard error it
/// prints, whatever the verbosity, one line per warning and one per skipped
/// entry, with the warnings first, each in yellow.
pub proof fn law_section_lines_count(
    title: Seq<char>,
    warnings: Seq<String>,
    outcomes: Seq<(String, String, EntryStatus)>,
    quiet: bool,
)
    ensures
        section_stdout(title, outcomes, quiet).len() == if quiet {
            0
        } else {
            1 + done_count(outcomes) + noted_count(outcomes)
        },
        section_stderr(warnings, outcomes).len() == warnings.len() + skipped_count(outcomes),
        forall|i: int|
            0 <= i < warnings.len() ==> section_stderr(warnings, outcomes)[i] == colored(
                "     "@ + (#[trigger] warnings[i])@,
                Color::Yellow,
            ),
{
    lemma_entries_counts(outcomes, quiet);
}

/// The closing line of a section: how many of its entries succeeded and how
/// many were skipped.
pub open spec fn summary_text(title: Seq<char>, outcomes: Seq<(String, String, EntryStatus)>) -> Seq<
    char,
> {
    "   "@ + title + " completed: "@ + decimal(done_count(outcomes)) + " succeeded, "@ + decimal(
        skipped_count(outcomes),
    ) + " skipped"@
}

/// The closing line of a section, with its succeeded and skipped counts.
pub fn section_summary(title: &str, outcomes: &Vec<(String, String, EntryStatus)>) -> (s: String)
    ensures
        s@ == summary_text(title@, outcomes@),
{
    let mut done: usize = 0;
    let mut skipped: usize = 0;
    for i in 0..outcomes.len()
        invariant
            done == done_count(outcomes@.take(i as int)),
            skipped == skipped_count(outcomes@.take(i as int)),
            done + skipped == i,
    {
        assert(outcomes@.take(i + 1).drop_last() =~= outcomes@.take(i as int));
        match &outcomes[i].2 {
            EntryStatus::Done { .. } => {
                done = done + 1;
            },
            EntryStatus::Skipped { .. } => {
                skipped = skipped + 1;
            },
        }
    }
    assert(outcomes@.take(outcomes@.len() as int) =~= outcomes@);
    let mut s = String::new();
    push_str(&mut s, "   ");
    push_str(&mut s, title);
    push_str(&mut s, " completed: ");
    push_decimal(&mut s, done as u64);
    push_str(&mut s, " succeeded, ");
    push_decimal(&mut s, skipped as u64);
    push_str(&mut s, " skipped");
    s
}

// ---------------------------------------------------------------------------
// `doctor --fix`
// ---------------------------------------------------------------------------

/// What `doctor --fix` did to one of dfm's own files.
#[derive(Debug, Clone, PartialEq, Eq)]
pub enum FixOutcome {
    /// The file was rewritten.
    Rewritten,
    /// The file does not exist, so there was nothing to rewrite.
    Missing,
    /// Rewriting failed; the text says why.
    Failed(String),
}

/// The line for one file `(label, path, outcome)`.
pub open spec fn fix_line(f: (String, String, FixOutcome)) -> Seq<char> {
    match f.2 {
        FixOutcome::Rewritten => colored(" ✔ Rewrote "@ + f.0@ + " ("@ + f.1@ + ")"@, Color::Green),
        FixOutcome::Missing => " - "@ + f.0@ + " does not exist, skipped"@,
        FixOutcome::Failed(e) => colored(
            " x Could not rewrite "@ + f.0@ + " ("@ + f.1@ + "): "@ + e@,
            Color::Red,
        ),
    }
}

/// The report of `doctor --fix`: a heading, then one line per file, in order.
pub open spec fn fix_report_text(files: Seq<(String, String, FixOutcome)>) -> Seq<Seq<char>> {
    seq![" Fix"@] + files.map_values(|f: (String, String, FixOutcome)| fix_line(f))
}

/// The lines that report what `doctor --fix` did to each file
/// `(label, path, outcome)`.
pub fn fix_report_lines(files: &Vec<(String, String, FixOutcome)>) -> (lines: Vec<String>)
    ensures
        line_views(lines@) == fix_report_text(files@),
{
    let mut lines: Vec<String> = Vec::new();
    push_line(&mut lines, " Fix".to_owned());
    for i in 0..files.len()
        invariant
            line_views(lines@) == seq![" Fix"@] + files@.take(i as int).map_values(
                |f: (String, String, FixOutcome)| fix_line(f),
            ),
    {
        let (label, path, outcome) = &files[i];
        let line = match outcome {
            FixOutcome::Rewritten => {
                let mut t = String::new();
                push_str(&mut t, " ✔ Rewrote ");
                push_str(&mut t, label.as_str());
                push_str(&mut t, " (");
                push_str(&mut t, path.as_str());
                push_str(&mut t, ")");
                green(t.as_str())
            },
            FixOutcome::Missing => {
                let mut t = String::new();
                push_str(&mut t, " - ");
                push_str(&mut t, label.as_str());
                push_str(&mut t, " does not exist, skipped");
                t
            },
            FixOutcome::Failed(e) => {
                let mut t = String::new();
                push_str(&mut t, " x Could not rewrite ");
                push_str(&mut t, label.as_str());
                push_str(&mut t, " (");
                push_str(&mut t, path.as_str());
                push_str(&mut t, "): ");
                push_str(&mut t, e.as_str());
                red(t.as_str())
            },
        };
        assert(line@ =~= fix_line(files@[i as int]));
        push_line(&mut lines, line);
        assert(files@.take(i + 1).map_values(|f: (String, String, FixOutcome)| fix_line(f))
            =~= files@.take(i as int).map_values(|f: (String, String, FixOutcome)| fix_line(f)).push(
            fix_line(files@[i as int]),
        ));
    }
    assert(files@.take(files@.len() as int) =~= files@);
    lines
}

/// Whether rewriting any file failed, which makes `doctor --fix` fail.
pub fn fix_failed(files: &Vec<(String, String, FixOutcome)>) -> (b: bool)
    ensures
        b <==> exists|i: int| 0 <= i < files@.len() && (#[trigger] files@[i]).2 is Failed,
{
    for i in 0..files.len()
        invariant
            forall|k: int| 0 <= k < i ==> !((#[trigger] files@[k]).2 is Failed),
    {
        if let FixOutcome::Failed(_) = &files[i].2 {
            assert(files@[i as int].2 is Failed);
            return true;
        }
    }
    false
}

// ---------------------------------------------------------------------------
// Dry runs
// ---------------------------------------------------------------------------

/// The lines that list one registry: a heading with the title and the
/// number of entries, then each entry `(name, detail)`, indented.
pub open spec fn listing(title: Seq<char>, entries: Seq<(String, String)>) -> Seq<Seq<char>> {
    seq!["   "@ + title + " ("@ + decimal(entries.len()) + "):"@] + entries.map_values(
        |e: (String, String)| "     "@ + e.0@ + " ("@ + e.1@ + ")"@,
    )
}

/// The views of an optional list of entries.
pub open spec fn entries_view(o: Option<&Vec<(String, String)>>) -> Option<
    Seq<(String, String)>,
> {
    match o {
        Some(v) => Some(v@),
        None => None,
    }
}

/// What a dry run prints: that nothing was written, the target profile, the
/// enabled configurations, the enabled package managers when the command
/// handles them, and the enabled encrypted configurations, or that they are
/// skipped (`None`).
pub open spec fn dry_run_text(
    target: Seq<char>,
    configs: Seq<(String, String)>,
    packages: Option<Seq<(String, String)>>,
    encrypted: Option<Seq<(String, String)>>,
) -> Seq<Seq<char>> {
    seq!["Dry run: nothing was written"@, "   Target: "@ + target] + listing(
        "Configurations"@,
        configs,
    ) + match packages {
        Some(p) => listing("Package managers"@, p),
        None => Seq::empty(),
    } + match encrypted {
        Some(e) => listing("Encrypted configs"@, e),
        None => seq!["   Encrypted configs: skipped (--skip-encrypted)"@],
    }
}

/// The line that lists one registry entry `(name, detail)`.
pub open spec fn entry_line(e: (String, String)) -> Seq<char> {
    "     "@ + e.0@ + " ("@ + e.1@ + ")"@
}

/// A registry listing is its heading, with the title and the number of
/// entries, followed by one line per entry, in order, and nothing else.
pub proof fn law_listing_shows_every_entry(title: Seq<char>, entries: Seq<(String, String)>)
    ensures
        listing(title, entries).len() == entries.len() + 1,
        listing(title, entries)[0] == "   "@ + title + " ("@ + decimal(entries.len()) + "):"@,
        forall|i: int|
            0 <= i < entries.len() ==> listing(title, entries)[i + 1] == entry_line(
                #[trigger] entries[i],
            ),
{
}

/// A dry run opens with the notice that nothing was written and the target,
/// lists every enabled configuration, then every package manager when the
/// command handles them, and ends with every enabled encrypted entry, one
/// line each and in order, or with the line saying they are skipped.
pub proof fn law_dry_run_lists_every_entry(
    target: Seq<char>,
    configs: Seq<(String, String)>,
    packages: Option<Seq<(String, String)>>,
    encrypted: Option<Seq<(String, String)>>,
)
    ensures
        dry_run_text(target, configs, packages, encrypted)[0] == "Dry run: nothing was written"@,
        dry_run_text(target, configs, packages, encrypted)[1] == "   Target: "@ + target,
        dry_run_text(target, configs, packages, encrypted)[2] == "   Configurations ("@ + decimal(
            configs.len(),
        ) + "):"@,
        forall|i: int|
            0 <= i < configs.len() ==> dry_run_text(target, configs, packages, encrypted)[3 + i]
                == entry_line(#[trigger] configs[i]),
        packages matches Some(pk) ==> dry_run_text(target, configs, packages, encrypted)[3
            + configs.len() as int] == "   Package managers ("@ + decimal(pk.len()) + "):"@,
        packages matches Some(pk) ==> forall|i: int|
            0 <= i < pk.len() ==> dry_run_text(target, configs, packages, encrypted)[4
                + configs.len() as int + i] == entry_line(#[trigger] pk[i]),
        encrypted is None ==> dry_run_text(target, configs, packages, encrypted).len() == 4
            + configs.len() + match packages {
            Some(p) => p.len() + 1int,
            None => 0int,
        },
        encrypted is None ==> dry_run_text(target, configs, packages, encrypted).last()
            == "   Encrypted configs: skipped (--skip-encrypted)"@,
        encrypted matches Some(e) ==> dry_run_text(target, configs, packages, encrypted).len() == 4
            + configs.len() + e.len() + match packages {
            Some(p) => p.len() + 1int,
            None => 0int,
        },
        encrypted matches Some(e) ==> dry_run_text(target, configs, packages, encrypted)[(
        dry_run_text(target, configs, packages, encrypted).len() - e.len() - 1) as int]
            == "   Encrypted configs ("@ + decimal(e.len()) + "):"@,
        encrypted matches Some(e) ==> forall|i: int|
            0 <= i < e.len() ==> dry_run_text(target, configs, packages, encrypted)[(dry_run_text(
                target,
                configs,
                packages,
                encrypted,
            ).len() - e.len() + i) as int] == entry_line(#[trigger] e[i]),
{
    reveal_strlit("   ");
    reveal_strlit(" (");
    reveal_strlit("Configurations");
    reveal_strlit("   Configurations (");
    reveal_strlit("Package managers");
    reveal_strlit("   Package managers (");
    reveal_strlit("Encrypted configs");
    reveal_strlit("   Encrypted configs (");
    assert("   "@ + "Configurations"@ + " ("@ =~= "   Configurations ("@);
    assert("   "@ + "Package managers"@ + " ("@ =~= "   Package managers ("@);
    assert("   "@ + "Encrypted configs"@ + " ("@ =~= "   Encrypted configs ("@);
    law_listing_shows_every_entry("Configurations"@, configs);
    let head = seq!["Dry run: nothing was written"@, "   Target: "@ + target];
    let c = listing("Configurations"@, configs);
    let pk = match packages {
        Some(p) => listing("Package managers"@, p),
        None => Seq::<Seq<char>>::empty(),
    };
    if let Some(p) = packages {
        law_listing_shows_every_entry("Package managers"@, p);
    }
    if let Some(e) = encrypted {
        law_listing_shows_every_entry("Encrypted configs"@, e);
    }
    let l = dry_run_text(target, configs, packages, encrypted);
    let tail = match encrypted {
        Some(e) => listing("Encrypted configs"@, e),
        None => seq!["   Encrypted configs: skipped (--skip-encrypted)"@],
    };
    assert(l == head + c + pk + tail);
    assert(l.len() == 2 + c.len() + pk.len() + tail.len());
    assert(l[0] == head[0]);
    assert(l[1] == head[1]);
    assert(l[2] == c[0]);
    if let Some(p) = packages {
        assert(l[3 + configs.len() as int] == pk[0]);
    }
    let n = l.len() as int;
    match encrypted {
        Some(e) => {
            assert(l[n - e.len() - 1] == tail[0]);
        },
        None => {
            assert(l[n - 1] == tail[0]);
        },
    }
    assert forall|i: int| 0 <= i < configs.len() implies l[3 + i] == entry_line(
        #[trigger] configs[i],
    ) by {
        assert(l[3 + i] == c[i + 1]);
    }
    if let Some(p) = packages {
        assert forall|i: int| 0 <= i < p.len() implies l[4 + configs.len() + i] == entry_line(
            #[trigger] p[i],
        ) by {
            assert(l[4 + configs.len() + i] == pk[i + 1]);
        }
    }
    if let Some(e) = encrypted {
        let en = listing("Encrypted configs"@, e);
        let n = l.len() as int;
        assert forall|i: int| 0 <= i < e.len() implies l[n - e.len() + i] == entry_line(
            #[trigger] e[i],
        ) by {
            assert(l[n - e.len() + i] == en[i + 1]);
        }
    }
}

fn push_listing(lines: &mut Vec<String>, title: &str, entries: &Vec<(String, String)>)
    ensures
        line_views(final(lines)@) == line_views(old(lines)@) + listing(title@, entries@),
{
    let ghost start = line_views(lines@);
    let mut head = String::new();
    push_str(&mut head, "   ");
    push_str(&mut head, title);
    push_str(&mut head, " (");
    push_decimal(&mut head, entries.len() as u64);
    push_str(&mut head, "):");
    push_line(lines, head);
    let ghost first = line_views(lines@);
    for i in 0..entries.len()
        invariant
            line_views(lines@) == first + entries@.take(i as int).map_values(
                |e: (String, String)| "     "@ + e.0@ + " ("@ + e.1@ + ")"@,
            ),
    {
        let mut t = String::new();
        push_str(&mut t, "     ");
        push_str(&mut t, entries[i].0.as_str());
        push_str(&mut t, " (");
        push_str(&mut t, entries[i].1.as_str());
        push_str(&mut t, ")");
        push_line(lines, t);
        assert(entries@.take(i + 1).map_values(
            |e: (String, String)| "     "@ + e.0@ + " ("@ + e.1@ + ")"@,
        ) =~= entries@.take(i as int).map_values(
            |e: (String, String)| "     "@ + e.0@ + " ("@ + e.1@ + ")"@,
        ).push("     "@ + entries@[i as int].0@ + " ("@ + entries@[i as int].1@ + ")"@));
    }
    assert(entries@.take(entries@.len() as int) =~= entries@);
    assert(line_views(lines@) =~= start + listing(title@, entries@));
}

/// The lines of a dry run of backup (with `packages`) or restore (without),
/// for the `target` profile; `encrypted` is `None` under `--skip-encrypted`.
pub fn dry_run_lines(
    target: &str,
    configs: &Vec<(String, String)>,
    packages: Option<&Vec<(String, String)>>,
    encrypted: Option<&Vec<(String, String)>>,
) -> (lines: Vec<String>)
    ensures
        line_views(lines@) == dry_run_text(
            target@,
            configs@,
            entries_view(packages),
            entries_view(encrypted),
        ),
{
    let mut lines: Vec<String> = Vec::new();
    push_line(&mut lines, "Dry run: nothing was written".to_owned());
    let mut t = String::new();
    push_str(&mut t, "   Target: ");
    push_str(&mut t, target);
    push_line(&mut lines, t);
    push_listing(&mut lines, "Configurations", configs);
    let ghost after_configs = line_views(lines@);
    match packages {
        Some(p) => push_listing(&mut lines, "Package managers", p),
        None => {},
    }
    let ghost after_packages = line_views(lines@);
    assert(after_packages == after_configs + match entries_view(packages) {
        Some(p) => listing("Package managers"@, p),
        None => Seq::<Seq<char>>::empty(),
    }) by {
        if packages is None {
            assert(after_packages =~= after_configs + Seq::<Seq<char>>::empty());
        }
    }
    match encrypted {
        Some(e) => push_listing(&mut lines, "Encrypted configs", e),
        None => push_line(&mut lines, "   Encrypted configs: skipped (--skip-encrypted)".to_owned()),
    }
    assert(line_views(lines@) =~= dry_run_text(
        target@,
        configs@,
        entries_view(packages),
        entries_view(encrypted),
    ));
    lines
}

// ---------------------------------------------------------------------------
// Backup and restore runs
// ---------------------------------------------------------------------------

/// The lines that open a backup or restore of the `target` profile: what is
/// being done, then the target; none when quiet.
pub open spec fn progress_header_text(doing: Seq<char>, target: Seq<char>, quiet: bool) -> Seq<
    Seq<char>,
> {
    if quiet {
        Seq::empty()
    } else {
        seq![doing + "..."@, "   Target: "@ + target]
    }
}

/// The lines that open a run (`doing` is `Backing up` or `Restoring`) for the
/// `target` profile.
pub fn progress_header_lines(doing: &str, target: &str, quiet: bool) -> (lines: Vec<String>)
    ensures
        line_views(lines@) == progress_header_text(doing@, target@, quiet),
{
    let mut lines: Vec<String> = Vec::new();
    if !quiet {
        let mut t = String::new();
        push_str(&mut t, doing);
        push_str(&mut t, "...");
        push_line(&mut lines, t);
        let mut t = String::new();
        push_str(&mut t, "   Target: ");
        push_str(&mut t, target);
        push_line(&mut lines, t);
    }
    assert(line_views(lines@) =~= progress_header_text(doing@, target@, quiet));
    lines
}

/// The question asked before a restore of the `target` profile overwrites
/// files.
pub fn restore_question(target: &str) -> (q: String)
    ensures
        q@ == "Restore will overwrite existing files at their original paths for '"@ + target@
            + "'. Continue?"@,
{
    let mut q = String::new();
    push_str(&mut q, "Restore will overwrite existing files at their original paths for '");
    push_str(&mut q, target);
    push_str(&mut q, "'. Continue?");
    q
}

} // verus!
