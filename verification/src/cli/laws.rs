//! Laws that tie each flag of the command line to the field it sets.
//!
//! The flags of a command are read into a list in the order in which its
//! command type keeps them (see `Command::model`): for `backup`,
//! `skip_encrypted`, `ask_password`, `dry_run`; for `doctor`,
//! `skip_encrypted`, `ask_password`, `fix`, `include_disabled`, `json`; and
//! so on. The global flags follow, in the order `quiet`, `verbose`,
//! `no_input` of `Cli::model`. Each law below says which flag, written on
//! the command line, sets which of those entries, and nothing else.

use vstd::prelude::*;
use super::args::CommandKind;
use super::leaf::{
    eq_pos, find_flag_short, find_name, hyphen_value_expected, is_escape, is_long, is_short,
    find_short, leaf_step, long_name, long_value, option_longs, read_cluster, CliError,
    LeafGrammar, LeafState, PositionalGrammar,
};
use super::table::{leaf_grammar, own_flags};

verus! {

/// A state in which a flag is read as a flag: no option waits for its
/// value, and neither `--` nor trailing values came before.
pub open spec fn reads_flags(st: LeafState) -> bool {
    !st.trailing && !st.escaped && st.pending is None
}

/// The state `st` with flag number `k` set.
pub open spec fn with_flag(st: LeafState, k: int) -> LeafState {
    LeafState { flags: st.flags.update(k, true), ..st }
}

proof fn lemma_no_eq(s: Seq<char>, i: int)
    requires
        0 <= i <= s.len(),
        forall|j: int| i <= j < s.len() ==> s[j] != '=',
    ensures
        eq_pos(s, i) == s.len(),
    decreases s.len() - i,
{
    if i < s.len() {
        lemma_no_eq(s, i + 1);
    }
}

proof fn lemma_long_flag(g: LeafGrammar, st: LeafState, name: Seq<char>, k: int)
    requires
        name.len() > 0,
        forall|j: int| 0 <= j < name.len() ==> name[j] != '=',
        name != "help"@,
        find_name(g.flags, name, 0) == Some(k),
        reads_flags(st),
        !st.flags[k],
    ensures
        leaf_step(g, st, seq!['-', '-'] + name) == Ok::<LeafState, CliError>(with_flag(st, k)),
{
    let t = seq!['-', '-'] + name;
    assert(t.skip(2) =~= name);
    lemma_no_eq(name, 0);
    assert(name.take(name.len() as int) =~= name);
    assert(long_name(t) == name);
    assert(long_value(t) is None);
    assert(is_long(t));
    assert(!is_escape(t)) by {
        assert(t.len() != 2);
    }
}

proof fn lemma_short_flag(g: LeafGrammar, st: LeafState, c: char, k: int)
    requires
        c != 'h',
        c != '-',
        find_flag_short(g, c, 0) == Some(k),
        reads_flags(st),
        !st.flags[k],
        !hyphen_value_expected(g, st),
    ensures
        leaf_step(g, st, seq!['-', c]) == Ok::<LeafState, CliError>(with_flag(st, k)),
{
    let t = seq!['-', c];
    assert(t.skip(1) =~= seq![c]);
    assert(is_short(t));
    assert(!is_long(t));
    assert(!is_escape(t));
    assert(read_cluster(g, with_flag(st, k), seq![c], 1) == Ok::<LeafState, CliError>(
        with_flag(st, k),
    ));
}

proof fn lemma_name_skip_encrypted()
    ensures
        "skip-encrypted"@.len() > 0,
        "skip-encrypted"@ != "help"@,
        forall|j: int| 0 <= j < "skip-encrypted"@.len() ==> "skip-encrypted"@[j] != '=',
{
    reveal_strlit("skip-encrypted");
    reveal_strlit("help");
    assert("skip-encrypted"@.len() != 4 || "skip-encrypted"@[0] != "help"@[0]);
    assert forall|j: int| 0 <= j < "skip-encrypted"@.len() implies "skip-encrypted"@[j] != '=' by {
        if j == 0 {} else if j == 1 {} else if j == 2 {} else if j == 3 {} else if j == 4 {} else if j == 5 {} else if j == 6 {} else if j == 7 {} else if j == 8 {} else if j == 9 {} else if j == 10 {} else if j == 11 {} else if j == 12 {} else if j == 13 {}
    }
}

proof fn lemma_name_ask_password()
    ensures
        "ask-password"@.len() > 0,
        "ask-password"@ != "help"@,
        forall|j: int| 0 <= j < "ask-password"@.len() ==> "ask-password"@[j] != '=',
{
    reveal_strlit("ask-password");
    reveal_strlit("help");
    assert("ask-password"@.len() != 4 || "ask-password"@[0] != "help"@[0]);
    assert forall|j: int| 0 <= j < "ask-password"@.len() implies "ask-password"@[j] != '=' by {
        if j == 0 {} else if j == 1 {} else if j == 2 {} else if j == 3 {} else if j == 4 {} else if j == 5 {} else if j == 6 {} else if j == 7 {} else if j == 8 {} else if j == 9 {} else if j == 10 {} else if j == 11 {}
    }
}

proof fn lemma_name_dry_run()
    ensures
        "dry-run"@.len() > 0,
        "dry-run"@ != "help"@,
        forall|j: int| 0 <= j < "dry-run"@.len() ==> "dry-run"@[j] != '=',
{
    reveal_strlit("dry-run");
    reveal_strlit("help");
    assert("dry-run"@.len() != 4 || "dry-run"@[0] != "help"@[0]);
    assert forall|j: int| 0 <= j < "dry-run"@.len() implies "dry-run"@[j] != '=' by {
        if j == 0 {} else if j == 1 {} else if j == 2 {} else if j == 3 {} else if j == 4 {} else if j == 5 {} else if j == 6 {}
    }
}

proof fn lemma_name_fix()
    ensures
        "fix"@.len() > 0,
        "fix"@ != "help"@,
        forall|j: int| 0 <= j < "fix"@.len() ==> "fix"@[j] != '=',
{
    reveal_strlit("fix");
    reveal_strlit("help");
    assert("fix"@.len() != 4 || "fix"@[0] != "help"@[0]);
    assert forall|j: int| 0 <= j < "fix"@.len() implies "fix"@[j] != '=' by {
        if j == 0 {} else if j == 1 {} else if j == 2 {}
    }
}

proof fn lemma_name_include_disabled()
    ensures
        "include-disabled"@.len() > 0,
        "include-disabled"@ != "help"@,
        forall|j: int| 0 <= j < "include-disabled"@.len() ==> "include-disabled"@[j] != '=',
{
    reveal_strlit("include-disabled");
    reveal_strlit("help");
    assert("include-disabled"@.len() != 4 || "include-disabled"@[0] != "help"@[0]);
    assert forall|j: int| 0 <= j < "include-disabled"@.len() implies "include-disabled"@[j] != '=' by {
        if j == 0 {} else if j == 1 {} else if j == 2 {} else if j == 3 {} else if j == 4 {} else if j == 5 {} else if j == 6 {} else if j == 7 {} else if j == 8 {} else if j == 9 {} else if j == 10 {} else if j == 11 {} else if j == 12 {} else if j == 13 {} else if j == 14 {} else if j == 15 {}
    }
}

proof fn lemma_name_json()
    ensures
        "json"@.len() > 0,
        "json"@ != "help"@,
        forall|j: int| 0 <= j < "json"@.len() ==> "json"@[j] != '=',
{
    reveal_strlit("json");
    reveal_strlit("help");
    assert("json"@.len() != 4 || "json"@[0] != "help"@[0]);
    assert forall|j: int| 0 <= j < "json"@.len() implies "json"@[j] != '=' by {
        if j == 0 {} else if j == 1 {} else if j == 2 {} else if j == 3 {}
    }
}

proof fn lemma_name_quiet()
    ensures
        "quiet"@.len() > 0,
        "quiet"@ != "help"@,
        forall|j: int| 0 <= j < "quiet"@.len() ==> "quiet"@[j] != '=',
{
    reveal_strlit("quiet");
    reveal_strlit("help");
    assert("quiet"@.len() != 4 || "quiet"@[0] != "help"@[0]);
    assert forall|j: int| 0 <= j < "quiet"@.len() implies "quiet"@[j] != '=' by {
        if j == 0 {} else if j == 1 {} else if j == 2 {} else if j == 3 {} else if j == 4 {}
    }
}

proof fn lemma_name_verbose()
    ensures
        "verbose"@.len() > 0,
        "verbose"@ != "help"@,
        forall|j: int| 0 <= j < "verbose"@.len() ==> "verbose"@[j] != '=',
{
    reveal_strlit("verbose");
    reveal_strlit("help");
    assert("verbose"@.len() != 4 || "verbose"@[0] != "help"@[0]);
    assert forall|j: int| 0 <= j < "verbose"@.len() implies "verbose"@[j] != '=' by {
        if j == 0 {} else if j == 1 {} else if j == 2 {} else if j == 3 {} else if j == 4 {} else if j == 5 {} else if j == 6 {}
    }
}

proof fn lemma_name_no_input()
    ensures
        "no-input"@.len() > 0,
        "no-input"@ != "help"@,
        forall|j: int| 0 <= j < "no-input"@.len() ==> "no-input"@[j] != '=',
{
    reveal_strlit("no-input");
    reveal_strlit("help");
    assert("no-input"@.len() != 4 || "no-input"@[0] != "help"@[0]);
    assert forall|j: int| 0 <= j < "no-input"@.len() implies "no-input"@[j] != '=' by {
        if j == 0 {} else if j == 1 {} else if j == 2 {} else if j == 3 {} else if j == 4 {} else if j == 5 {} else if j == 6 {} else if j == 7 {}
    }
}

/// `link`: `--skip-encrypted` sets `skip_encrypted` (entry 0) and `--ask-password` sets `ask_password` (entry 1), and nothing else.
pub proof fn law_link_flags_set_their_fields(st: LeafState)
    requires
        reads_flags(st),
    ensures
        !st.flags[0] ==> leaf_step(leaf_grammar(CommandKind::Link), st, seq!['-', '-'] + "skip-encrypted"@)
            == Ok::<LeafState, CliError>(with_flag(st, 0)),
        !st.flags[1] ==> leaf_step(leaf_grammar(CommandKind::Link), st, seq!['-', '-'] + "ask-password"@)
            == Ok::<LeafState, CliError>(with_flag(st, 1)),
{
    let g = leaf_grammar(CommandKind::Link);
    reveal_strlit("ask-password");
    reveal_strlit("help");
    reveal_strlit("no-input");
    reveal_strlit("quiet");
    reveal_strlit("skip-encrypted");
    reveal_strlit("verbose");
    lemma_name_skip_encrypted();
    assert(g.flags[0] == "skip-encrypted"@);
    assert(find_name(g.flags, "skip-encrypted"@, 0) == Some(0int));
    if !st.flags[0] { lemma_long_flag(g, st, "skip-encrypted"@, 0); }
    lemma_name_ask_password();
    assert(g.flags[1] == "ask-password"@);
    assert(g.flags[0] == "skip-encrypted"@);
    assert(find_name(g.flags, "ask-password"@, 1) == Some(1int));
    assert(find_name(g.flags, "ask-password"@, 0) == Some(1int));
    if !st.flags[1] { lemma_long_flag(g, st, "ask-password"@, 1); }
}

/// `backup`: `--skip-encrypted` sets `skip_encrypted` (entry 0), `--ask-password` sets `ask_password` (entry 1) and `--dry-run` sets `dry_run` (entry 2), and nothing else.
pub proof fn law_backup_flags_set_their_fields(st: LeafState)
    requires
        reads_flags(st),
    ensures
        !st.flags[0] ==> leaf_step(leaf_grammar(CommandKind::Backup), st, seq!['-', '-'] + "skip-encrypted"@)
            == Ok::<LeafState, CliError>(with_flag(st, 0)),
        !st.flags[1] ==> leaf_step(leaf_grammar(CommandKind::Backup), st, seq!['-', '-'] + "ask-password"@)
            == Ok::<LeafState, CliError>(with_flag(st, 1)),
        !st.flags[2] ==> leaf_step(leaf_grammar(CommandKind::Backup), st, seq!['-', '-'] + "dry-run"@)
            == Ok::<LeafState, CliError>(with_flag(st, 2)),
{
    let g = leaf_grammar(CommandKind::Backup);
    reveal_strlit("ask-password");
    reveal_strlit("dry-run");
    reveal_strlit("help");
    reveal_strlit("no-input");
    reveal_strlit("quiet");
    reveal_strlit("skip-encrypted");
    reveal_strlit("verbose");
    lemma_name_skip_encrypted();
    assert(g.flags[0] == "skip-encrypted"@);
    assert(find_name(g.flags, "skip-encrypted"@, 0) == Some(0int));
    if !st.flags[0] { lemma_long_flag(g, st, "skip-encrypted"@, 0); }
    lemma_name_ask_password();
    assert(g.flags[1] == "ask-password"@);
    assert(g.flags[0] == "skip-encrypted"@);
    assert(find_name(g.flags, "ask-password"@, 1) == Some(1int));
    assert(find_name(g.flags, "ask-password"@, 0) == Some(1int));
    if !st.flags[1] { lemma_long_flag(g, st, "ask-password"@, 1); }
    lemma_name_dry_run();
    assert(g.flags[2] == "dry-run"@);
    assert(g.flags[1] == "ask-password"@);
    assert(g.flags[0] == "skip-encrypted"@);
    assert(find_name(g.flags, "dry-run"@, 2) == Some(2int));
    assert(find_name(g.flags, "dry-run"@, 1) == Some(2int));
    assert(find_name(g.flags, "dry-run"@, 0) == Some(2int));
    if !st.flags[2] { lemma_long_flag(g, st, "dry-run"@, 2); }
}

/// `restore`: `--skip-encrypted` sets `skip_encrypted` (entry 0), `--ask-password` sets `ask_password` (entry 1), and `--dry-run` or `-n` sets `dry_run` (entry 2), and nothing else.
pub proof fn law_restore_flags_set_their_fields(st: LeafState)
    requires
        reads_flags(st),
    ensures
        !st.flags[0] ==> leaf_step(leaf_grammar(CommandKind::Restore), st, seq!['-', '-'] + "skip-encrypted"@)
            == Ok::<LeafState, CliError>(with_flag(st, 0)),
        !st.flags[1] ==> leaf_step(leaf_grammar(CommandKind::Restore), st, seq!['-', '-'] + "ask-password"@)
            == Ok::<LeafState, CliError>(with_flag(st, 1)),
        !st.flags[2] ==> leaf_step(leaf_grammar(CommandKind::Restore), st, seq!['-', '-'] + "dry-run"@)
            == Ok::<LeafState, CliError>(with_flag(st, 2)),
        !st.flags[2] ==> leaf_step(leaf_grammar(CommandKind::Restore), st, seq!['-', 'n'])
            == Ok::<LeafState, CliError>(with_flag(st, 2)),
{
    let g = leaf_grammar(CommandKind::Restore);
    reveal_strlit("ask-password");
    reveal_strlit("dry-run");
    reveal_strlit("help");
    reveal_strlit("no-input");
    reveal_strlit("quiet");
    reveal_strlit("skip-encrypted");
    reveal_strlit("verbose");
    lemma_name_skip_encrypted();
    assert(g.flags[0] == "skip-encrypted"@);
    assert(find_name(g.flags, "skip-encrypted"@, 0) == Some(0int));
    if !st.flags[0] { lemma_long_flag(g, st, "skip-encrypted"@, 0); }
    lemma_name_ask_password();
    assert(g.flags[1] == "ask-password"@);
    assert(g.flags[0] == "skip-encrypted"@);
    assert(find_name(g.flags, "ask-password"@, 1) == Some(1int));
    assert(find_name(g.flags, "ask-password"@, 0) == Some(1int));
    if !st.flags[1] { lemma_long_flag(g, st, "ask-password"@, 1); }
    lemma_name_dry_run();
    assert(g.flags[2] == "dry-run"@);
    assert(g.flags[1] == "ask-password"@);
    assert(g.flags[0] == "skip-encrypted"@);
    assert(find_name(g.flags, "dry-run"@, 2) == Some(2int));
    assert(find_name(g.flags, "dry-run"@, 1) == Some(2int));
    assert(find_name(g.flags, "dry-run"@, 0) == Some(2int));
    if !st.flags[2] { lemma_long_flag(g, st, "dry-run"@, 2); }
    reveal_strlit("n");
    assert(g.flag_shorts[2] == "n"@);
    assert("n"@.contains('n')) by { assert("n"@[0] == 'n'); }
    assert(g.flag_shorts[1] == ""@);
    reveal_strlit("");
    assert(!""@.contains('n'));
    assert(g.flag_shorts[0] == ""@);
    reveal_strlit("");
    assert(!""@.contains('n'));
    assert(find_flag_short(g, 'n', 2) == Some(2int));
    assert(find_flag_short(g, 'n', 1) == Some(2int));
    assert(find_flag_short(g, 'n', 0) == Some(2int));
    if !st.flags[2] { lemma_short_flag(g, st, 'n', 2); }
}

/// `doctor`: `--skip-encrypted`, `--ask-password`, `--fix`, `--include-disabled` and `--json` set `skip_encrypted`, `ask_password`, `fix`, `include_disabled` and `json` (entries 0 to 4) in that order, and nothing else.
pub proof fn law_doctor_flags_set_their_fields(st: LeafState)
    requires
        reads_flags(st),
    ensures
        !st.flags[0] ==> leaf_step(leaf_grammar(CommandKind::Doctor), st, seq!['-', '-'] + "skip-encrypted"@)
            == Ok::<LeafState, CliError>(with_flag(st, 0)),
        !st.flags[1] ==> leaf_step(leaf_grammar(CommandKind::Doctor), st, seq!['-', '-'] + "ask-password"@)
            == Ok::<LeafState, CliError>(with_flag(st, 1)),
        !st.flags[2] ==> leaf_step(leaf_grammar(CommandKind::Doctor), st, seq!['-', '-'] + "fix"@)
            == Ok::<LeafState, CliError>(with_flag(st, 2)),
        !st.flags[3] ==> leaf_step(leaf_grammar(CommandKind::Doctor), st, seq!['-', '-'] + "include-disabled"@)
            == Ok::<LeafState, CliError>(with_flag(st, 3)),
        !st.flags[4] ==> leaf_step(leaf_grammar(CommandKind::Doctor), st, seq!['-', '-'] + "json"@)
            == Ok::<LeafState, CliError>(with_flag(st, 4)),
{
    let g = leaf_grammar(CommandKind::Doctor);
    reveal_strlit("ask-password");
    reveal_strlit("fix");
    reveal_strlit("help");
    reveal_strlit("include-disabled");
    reveal_strlit("json");
    reveal_strlit("no-input");
    reveal_strlit("quiet");
    reveal_strlit("skip-encrypted");
    reveal_strlit("verbose");
    lemma_name_skip_encrypted();
    assert(g.flags[0] == "skip-encrypted"@);
    assert(find_name(g.flags, "skip-encrypted"@, 0) == Some(0int));
    if !st.flags[0] { lemma_long_flag(g, st, "skip-encrypted"@, 0); }
    lemma_name_ask_password();
    assert(g.flags[1] == "ask-password"@);
    assert(g.flags[0] == "skip-encrypted"@);
    assert(find_name(g.flags, "ask-password"@, 1) == Some(1int));
    assert(find_name(g.flags, "ask-password"@, 0) == Some(1int));
    if !st.flags[1] { lemma_long_flag(g, st, "ask-password"@, 1); }
    lemma_name_fix();
    assert(g.flags[2] == "fix"@);
    assert(g.flags[1] == "ask-password"@);
    assert(g.flags[0] == "skip-encrypted"@);
    assert(find_name(g.flags, "fix"@, 2) == Some(2int));
    assert(find_name(g.flags, "fix"@, 1) == Some(2int));
    assert(find_name(g.flags, "fix"@, 0) == Some(2int));
    if !st.flags[2] { lemma_long_flag(g, st, "fix"@, 2); }
    lemma_name_include_disabled();
    assert(g.flags[3] == "include-disabled"@);
    assert(g.flags[2] == "fix"@);
    assert(g.flags[1] == "ask-password"@);
    assert(g.flags[0] == "skip-encrypted"@);
    assert(find_name(g.flags, "include-disabled"@, 3) == Some(3int));
    assert(find_name(g.flags, "include-disabled"@, 2) == Some(3int));
    assert(find_name(g.flags, "include-disabled"@, 1) == Some(3int));
    assert(find_name(g.flags, "include-disabled"@, 0) == Some(3int));
    if !st.flags[3] { lemma_long_flag(g, st, "include-disabled"@, 3); }
    lemma_name_json();
    assert(g.flags[4] == "json"@);
    assert(g.flags[3] == "include-disabled"@);
    assert(g.flags[2] == "fix"@);
    assert(g.flags[1] == "ask-password"@);
    assert(g.flags[0] == "skip-encrypted"@);
    assert(find_name(g.flags, "json"@, 4) == Some(4int));
    assert(find_name(g.flags, "json"@, 3) == Some(4int));
    assert(find_name(g.flags, "json"@, 2) == Some(4int));
    assert(find_name(g.flags, "json"@, 1) == Some(4int));
    assert(find_name(g.flags, "json"@, 0) == Some(4int));
    if !st.flags[4] { lemma_long_flag(g, st, "json"@, 4); }
}

/// `sync`: `--dry-run` or `-n` sets `dry_run` (entry 0), and nothing else.
pub proof fn law_sync_flags_set_their_fields(st: LeafState)
    requires
        reads_flags(st),
    ensures
        !st.flags[0] ==> leaf_step(leaf_grammar(CommandKind::Sync), st, seq!['-', '-'] + "dry-run"@)
            == Ok::<LeafState, CliError>(with_flag(st, 0)),
        !st.flags[0] ==> leaf_step(leaf_grammar(CommandKind::Sync), st, seq!['-', 'n'])
            == Ok::<LeafState, CliError>(with_flag(st, 0)),
{
    let g = leaf_grammar(CommandKind::Sync);
    reveal_strlit("dry-run");
    reveal_strlit("help");
    reveal_strlit("no-input");
    reveal_strlit("quiet");
    reveal_strlit("verbose");
    lemma_name_dry_run();
    assert(g.flags[0] == "dry-run"@);
    assert(find_name(g.flags, "dry-run"@, 0) == Some(0int));
    if !st.flags[0] { lemma_long_flag(g, st, "dry-run"@, 0); }
    reveal_strlit("n");
    assert(g.flag_shorts[0] == "n"@);
    assert("n"@.contains('n')) by { assert("n"@[0] == 'n'); }
    assert(find_flag_short(g, 'n', 0) == Some(0int));
    if !st.flags[0] { lemma_short_flag(g, st, 'n', 0); }
}

/// `profile` and each of its actions: `--json` sets `json` (entry 0), and
/// nothing else.
pub proof fn law_profile_json_sets_its_field(kind: CommandKind, st: LeafState)
    requires
        kind == CommandKind::Profile || kind == CommandKind::ProfileList || kind
            == CommandKind::ProfileCreate || kind == CommandKind::ProfileDelete,
        reads_flags(st),
    ensures
        !st.flags[0] ==> leaf_step(leaf_grammar(kind), st, seq!['-', '-'] + "json"@) == Ok::<
            LeafState,
            CliError,
        >(with_flag(st, 0)),
{
    let g = leaf_grammar(kind);
    reveal_strlit("json");
    reveal_strlit("help");
    lemma_name_json();
    assert(g.flags[0] == "json"@);
    assert(find_name(g.flags, "json"@, 0) == Some(0int));
    if !st.flags[0] { lemma_long_flag(g, st, "json"@, 0); }
}

/// Every command: `--quiet`, `--verbose` and `--no-input` set `quiet`,
/// `verbose` and `no_input` (the entries right after the command's own
/// flags, in that order), and nothing else.
pub proof fn law_global_flags_set_their_fields(kind: CommandKind, st: LeafState)
    requires
        reads_flags(st),
    ensures
        ({
            let n = own_flags(kind).0.len() as int;
            let g = leaf_grammar(kind);
            &&& !st.flags[n] ==> leaf_step(g, st, seq!['-', '-'] + "quiet"@) == Ok::<
                LeafState,
                CliError,
            >(with_flag(st, n))
            &&& !st.flags[n + 1] ==> leaf_step(g, st, seq!['-', '-'] + "verbose"@) == Ok::<
                LeafState,
                CliError,
            >(with_flag(st, n + 1))
            &&& !st.flags[n + 2] ==> leaf_step(g, st, seq!['-', '-'] + "no-input"@) == Ok::<
                LeafState,
                CliError,
            >(with_flag(st, n + 2))
        }),
{
    let n = own_flags(kind).0.len() as int;
    let g = leaf_grammar(kind);
    reveal_strlit("help");
    lemma_name_quiet();
    lemma_name_verbose();
    lemma_name_no_input();
    match kind {
        CommandKind::Link => {
            reveal_strlit("ask-password");
            reveal_strlit("no-input");
            reveal_strlit("quiet");
            reveal_strlit("skip-encrypted");
            reveal_strlit("verbose");
            assert(g.flags[0] == "skip-encrypted"@);
            assert(g.flags[1] == "ask-password"@);
            assert(g.flags[2] == "quiet"@);
            assert(g.flags[3] == "verbose"@);
            assert(g.flags[4] == "no-input"@);
            assert(find_name(g.flags, "quiet"@, 2) == Some(2int));
            assert(find_name(g.flags, "quiet"@, 1) == Some(2int));
            assert(find_name(g.flags, "quiet"@, 0) == Some(2int));
            assert(find_name(g.flags, "verbose"@, 3) == Some(3int));
            assert(find_name(g.flags, "verbose"@, 2) == Some(3int));
            assert(find_name(g.flags, "verbose"@, 1) == Some(3int));
            assert(find_name(g.flags, "verbose"@, 0) == Some(3int));
            assert(find_name(g.flags, "no-input"@, 4) == Some(4int));
            assert(find_name(g.flags, "no-input"@, 3) == Some(4int));
            assert(find_name(g.flags, "no-input"@, 2) == Some(4int));
            assert(find_name(g.flags, "no-input"@, 1) == Some(4int));
            assert(find_name(g.flags, "no-input"@, 0) == Some(4int));
        },
        CommandKind::Backup => {
            reveal_strlit("ask-password");
            reveal_strlit("dry-run");
            reveal_strlit("no-input");
            reveal_strlit("quiet");
            reveal_strlit("skip-encrypted");
            reveal_strlit("verbose");
            assert(g.flags[0] == "skip-encrypted"@);
            assert(g.flags[1] == "ask-password"@);
            assert(g.flags[2] == "dry-run"@);
            assert(g.flags[3] == "quiet"@);
            assert(g.flags[4] == "verbose"@);
            assert(g.flags[5] == "no-input"@);
            assert(find_name(g.flags, "quiet"@, 3) == Some(3int));
            assert(find_name(g.flags, "quiet"@, 2) == Some(3int));
            assert(find_name(g.flags, "quiet"@, 1) == Some(3int));
            assert(find_name(g.flags, "quiet"@, 0) == Some(3int));
            assert("dry-run"@[0] != "verbose"@[0]);
            assert(find_name(g.flags, "verbose"@, 4) == Some(4int));
            assert(find_name(g.flags, "verbose"@, 3) == Some(4int));
            assert(find_name(g.flags, "verbose"@, 2) == Some(4int));
            assert(find_name(g.flags, "verbose"@, 1) == Some(4int));
            assert(find_name(g.flags, "verbose"@, 0) == Some(4int));
            assert(find_name(g.flags, "no-input"@, 5) == Some(5int));
            assert(find_name(g.flags, "no-input"@, 4) == Some(5int));
            assert(find_name(g.flags, "no-input"@, 3) == Some(5int));
            assert(find_name(g.flags, "no-input"@, 2) == Some(5int));
            assert(find_name(g.flags, "no-input"@, 1) == Some(5int));
            assert(find_name(g.flags, "no-input"@, 0) == Some(5int));
        },
        CommandKind::Restore => {
            reveal_strlit("ask-password");
            reveal_strlit("dry-run");
            reveal_strlit("no-input");
            reveal_strlit("quiet");
            reveal_strlit("skip-encrypted");
            reveal_strlit("verbose");
            assert(g.flags[0] == "skip-encrypted"@);
            assert(g.flags[1] == "ask-password"@);
            assert(g.flags[2] == "dry-run"@);
            assert(g.flags[3] == "quiet"@);
            assert(g.flags[4] == "verbose"@);
            assert(g.flags[5] == "no-input"@);
            assert(find_name(g.flags, "quiet"@, 3) == Some(3int));
            assert(find_name(g.flags, "quiet"@, 2) == Some(3int));
            assert(find_name(g.flags, "quiet"@, 1) == Some(3int));
            assert(find_name(g.flags, "quiet"@, 0) == Some(3int));
            assert("dry-run"@[0] != "verbose"@[0]);
            assert(find_name(g.flags, "verbose"@, 4) == Some(4int));
            assert(find_name(g.flags, "verbose"@, 3) == Some(4int));
            assert(find_name(g.flags, "verbose"@, 2) == Some(4int));
            assert(find_name(g.flags, "verbose"@, 1) == Some(4int));
            assert(find_name(g.flags, "verbose"@, 0) == Some(4int));
            assert(find_name(g.flags, "no-input"@, 5) == Some(5int));
            assert(find_name(g.flags, "no-input"@, 4) == Some(5int));
            assert(find_name(g.flags, "no-input"@, 3) == Some(5int));
            assert(find_name(g.flags, "no-input"@, 2) == Some(5int));
            assert(find_name(g.flags, "no-input"@, 1) == Some(5int));
            assert(find_name(g.flags, "no-input"@, 0) == Some(5int));
        },
        CommandKind::Use => {
            reveal_strlit("no-input");
            reveal_strlit("quiet");
            reveal_strlit("verbose");
            assert(g.flags[0] == "quiet"@);
            assert(g.flags[1] == "verbose"@);
            assert(g.flags[2] == "no-input"@);
            assert(find_name(g.flags, "quiet"@, 0) == Some(0int));
            assert(find_name(g.flags, "verbose"@, 1) == Some(1int));
            assert(find_name(g.flags, "verbose"@, 0) == Some(1int));
            assert(find_name(g.flags, "no-input"@, 2) == Some(2int));
            assert(find_name(g.flags, "no-input"@, 1) == Some(2int));
            assert(find_name(g.flags, "no-input"@, 0) == Some(2int));
        },
        CommandKind::Profile => {
            reveal_strlit("json");
            reveal_strlit("no-input");
            reveal_strlit("quiet");
            reveal_strlit("verbose");
            assert(g.flags[0] == "json"@);
            assert(g.flags[1] == "quiet"@);
            assert(g.flags[2] == "verbose"@);
            assert(g.flags[3] == "no-input"@);
            assert(find_name(g.flags, "quiet"@, 1) == Some(1int));
            assert(find_name(g.flags, "quiet"@, 0) == Some(1int));
            assert(find_name(g.flags, "verbose"@, 2) == Some(2int));
            assert(find_name(g.flags, "verbose"@, 1) == Some(2int));
            assert(find_name(g.flags, "verbose"@, 0) == Some(2int));
            assert(find_name(g.flags, "no-input"@, 3) == Some(3int));
            assert(find_name(g.flags, "no-input"@, 2) == Some(3int));
            assert(find_name(g.flags, "no-input"@, 1) == Some(3int));
            assert(find_name(g.flags, "no-input"@, 0) == Some(3int));
        },
        CommandKind::ProfileList => {
            reveal_strlit("json");
            reveal_strlit("no-input");
            reveal_strlit("quiet");
            reveal_strlit("verbose");
            assert(g.flags[0] == "json"@);
            assert(g.flags[1] == "quiet"@);
            assert(g.flags[2] == "verbose"@);
            assert(g.flags[3] == "no-input"@);
            assert(find_name(g.flags, "quiet"@, 1) == Some(1int));
            assert(find_name(g.flags, "quiet"@, 0) == Some(1int));
            assert(find_name(g.flags, "verbose"@, 2) == Some(2int));
            assert(find_name(g.flags, "verbose"@, 1) == Some(2int));
            assert(find_name(g.flags, "verbose"@, 0) == Some(2int));
            assert(find_name(g.flags, "no-input"@, 3) == Some(3int));
            assert(find_name(g.flags, "no-input"@, 2) == Some(3int));
            assert(find_name(g.flags, "no-input"@, 1) == Some(3int));
            assert(find_name(g.flags, "no-input"@, 0) == Some(3int));
        },
        CommandKind::ProfileCreate => {
            reveal_strlit("json");
            reveal_strlit("no-input");
            reveal_strlit("quiet");
            reveal_strlit("verbose");
            assert(g.flags[0] == "json"@);
            assert(g.flags[1] == "quiet"@);
            assert(g.flags[2] == "verbose"@);
            assert(g.flags[3] == "no-input"@);
            assert(find_name(g.flags, "quiet"@, 1) == Some(1int));
            assert(find_name(g.flags, "quiet"@, 0) == Some(1int));
            assert(find_name(g.flags, "verbose"@, 2) == Some(2int));
            assert(find_name(g.flags, "verbose"@, 1) == Some(2int));
            assert(find_name(g.flags, "verbose"@, 0) == Some(2int));
            assert(find_name(g.flags, "no-input"@, 3) == Some(3int));
            assert(find_name(g.flags, "no-input"@, 2) == Some(3int));
            assert(find_name(g.flags, "no-input"@, 1) == Some(3int));
            assert(find_name(g.flags, "no-input"@, 0) == Some(3int));
        },
        CommandKind::ProfileDelete => {
            reveal_strlit("json");
            reveal_strlit("no-input");
            reveal_strlit("quiet");
            reveal_strlit("verbose");
            assert(g.flags[0] == "json"@);
            assert(g.flags[1] == "quiet"@);
            assert(g.flags[2] == "verbose"@);
            assert(g.flags[3] == "no-input"@);
            assert(find_name(g.flags, "quiet"@, 1) == Some(1int));
            assert(find_name(g.flags, "quiet"@, 0) == Some(1int));
            assert(find_name(g.flags, "verbose"@, 2) == Some(2int));
            assert(find_name(g.flags, "verbose"@, 1) == Some(2int));
            assert(find_name(g.flags, "verbose"@, 0) == Some(2int));
            assert(find_name(g.flags, "no-input"@, 3) == Some(3int));
            assert(find_name(g.flags, "no-input"@, 2) == Some(3int));
            assert(find_name(g.flags, "no-input"@, 1) == Some(3int));
            assert(find_name(g.flags, "no-input"@, 0) == Some(3int));
        },
        CommandKind::Git => {
            reveal_strlit("no-input");
            reveal_strlit("quiet");
            reveal_strlit("verbose");
            assert(g.flags[0] == "quiet"@);
            assert(g.flags[1] == "verbose"@);
            assert(g.flags[2] == "no-input"@);
            assert(find_name(g.flags, "quiet"@, 0) == Some(0int));
            assert(find_name(g.flags, "verbose"@, 1) == Some(1int));
            assert(find_name(g.flags, "verbose"@, 0) == Some(1int));
            assert(find_name(g.flags, "no-input"@, 2) == Some(2int));
            assert(find_name(g.flags, "no-input"@, 1) == Some(2int));
            assert(find_name(g.flags, "no-input"@, 0) == Some(2int));
        },
        CommandKind::Status => {
            reveal_strlit("no-input");
            reveal_strlit("quiet");
            reveal_strlit("verbose");
            assert(g.flags[0] == "quiet"@);
            assert(g.flags[1] == "verbose"@);
            assert(g.flags[2] == "no-input"@);
            assert(find_name(g.flags, "quiet"@, 0) == Some(0int));
            assert(find_name(g.flags, "verbose"@, 1) == Some(1int));
            assert(find_name(g.flags, "verbose"@, 0) == Some(1int));
            assert(find_name(g.flags, "no-input"@, 2) == Some(2int));
            assert(find_name(g.flags, "no-input"@, 1) == Some(2int));
            assert(find_name(g.flags, "no-input"@, 0) == Some(2int));
        },
        CommandKind::Diff => {
            reveal_strlit("no-input");
            reveal_strlit("quiet");
            reveal_strlit("verbose");
            assert(g.flags[0] == "quiet"@);
            assert(g.flags[1] == "verbose"@);
            assert(g.flags[2] == "no-input"@);
            assert(find_name(g.flags, "quiet"@, 0) == Some(0int));
            assert(find_name(g.flags, "verbose"@, 1) == Some(1int));
            assert(find_name(g.flags, "verbose"@, 0) == Some(1int));
            assert(find_name(g.flags, "no-input"@, 2) == Some(2int));
            assert(find_name(g.flags, "no-input"@, 1) == Some(2int));
            assert(find_name(g.flags, "no-input"@, 0) == Some(2int));
        },
        CommandKind::Sync => {
            reveal_strlit("dry-run");
            reveal_strlit("no-input");
            reveal_strlit("quiet");
            reveal_strlit("verbose");
            assert(g.flags[0] == "dry-run"@);
            assert(g.flags[1] == "quiet"@);
            assert(g.flags[2] == "verbose"@);
            assert(g.flags[3] == "no-input"@);
            assert(find_name(g.flags, "quiet"@, 1) == Some(1int));
            assert(find_name(g.flags, "quiet"@, 0) == Some(1int));
            assert("dry-run"@[0] != "verbose"@[0]);
            assert(find_name(g.flags, "verbose"@, 2) == Some(2int));
            assert(find_name(g.flags, "verbose"@, 1) == Some(2int));
            assert(find_name(g.flags, "verbose"@, 0) == Some(2int));
            assert(find_name(g.flags, "no-input"@, 3) == Some(3int));
            assert(find_name(g.flags, "no-input"@, 2) == Some(3int));
            assert(find_name(g.flags, "no-input"@, 1) == Some(3int));
            assert(find_name(g.flags, "no-input"@, 0) == Some(3int));
        },
        CommandKind::Doctor => {
            reveal_strlit("ask-password");
            reveal_strlit("fix");
            reveal_strlit("include-disabled");
            reveal_strlit("json");
            reveal_strlit("no-input");
            reveal_strlit("quiet");
            reveal_strlit("skip-encrypted");
            reveal_strlit("verbose");
            assert(g.flags[0] == "skip-encrypted"@);
            assert(g.flags[1] == "ask-password"@);
            assert(g.flags[2] == "fix"@);
            assert(g.flags[3] == "include-disabled"@);
            assert(g.flags[4] == "json"@);
            assert(g.flags[5] == "quiet"@);
            assert(g.flags[6] == "verbose"@);
            assert(g.flags[7] == "no-input"@);
            assert(find_name(g.flags, "quiet"@, 5) == Some(5int));
            assert(find_name(g.flags, "quiet"@, 4) == Some(5int));
            assert(find_name(g.flags, "quiet"@, 3) == Some(5int));
            assert(find_name(g.flags, "quiet"@, 2) == Some(5int));
            assert(find_name(g.flags, "quiet"@, 1) == Some(5int));
            assert(find_name(g.flags, "quiet"@, 0) == Some(5int));
            assert(find_name(g.flags, "verbose"@, 6) == Some(6int));
            assert(find_name(g.flags, "verbose"@, 5) == Some(6int));
            assert(find_name(g.flags, "verbose"@, 4) == Some(6int));
            assert(find_name(g.flags, "verbose"@, 3) == Some(6int));
            assert(find_name(g.flags, "verbose"@, 2) == Some(6int));
            assert(find_name(g.flags, "verbose"@, 1) == Some(6int));
            assert(find_name(g.flags, "verbose"@, 0) == Some(6int));
            assert(find_name(g.flags, "no-input"@, 7) == Some(7int));
            assert(find_name(g.flags, "no-input"@, 6) == Some(7int));
            assert(find_name(g.flags, "no-input"@, 5) == Some(7int));
            assert(find_name(g.flags, "no-input"@, 4) == Some(7int));
            assert(find_name(g.flags, "no-input"@, 3) == Some(7int));
            assert(find_name(g.flags, "no-input"@, 2) == Some(7int));
            assert(find_name(g.flags, "no-input"@, 1) == Some(7int));
            assert(find_name(g.flags, "no-input"@, 0) == Some(7int));
        },
        CommandKind::SecretSet => {
            reveal_strlit("no-input");
            reveal_strlit("quiet");
            reveal_strlit("verbose");
            assert(g.flags[0] == "quiet"@);
            assert(g.flags[1] == "verbose"@);
            assert(g.flags[2] == "no-input"@);
            assert(find_name(g.flags, "quiet"@, 0) == Some(0int));
            assert(find_name(g.flags, "verbose"@, 1) == Some(1int));
            assert(find_name(g.flags, "verbose"@, 0) == Some(1int));
            assert(find_name(g.flags, "no-input"@, 2) == Some(2int));
            assert(find_name(g.flags, "no-input"@, 1) == Some(2int));
            assert(find_name(g.flags, "no-input"@, 0) == Some(2int));
        },
        CommandKind::SecretDelete => {
            reveal_strlit("no-input");
            reveal_strlit("quiet");
            reveal_strlit("verbose");
            assert(g.flags[0] == "quiet"@);
            assert(g.flags[1] == "verbose"@);
            assert(g.flags[2] == "no-input"@);
            assert(find_name(g.flags, "quiet"@, 0) == Some(0int));
            assert(find_name(g.flags, "verbose"@, 1) == Some(1int));
            assert(find_name(g.flags, "verbose"@, 0) == Some(1int));
            assert(find_name(g.flags, "no-input"@, 2) == Some(2int));
            assert(find_name(g.flags, "no-input"@, 1) == Some(2int));
            assert(find_name(g.flags, "no-input"@, 0) == Some(2int));
        },
        CommandKind::Prune => {
            reveal_strlit("no-input");
            reveal_strlit("quiet");
            reveal_strlit("verbose");
            assert(g.flags[0] == "quiet"@);
            assert(g.flags[1] == "verbose"@);
            assert(g.flags[2] == "no-input"@);
            assert(find_name(g.flags, "quiet"@, 0) == Some(0int));
            assert(find_name(g.flags, "verbose"@, 1) == Some(1int));
            assert(find_name(g.flags, "verbose"@, 0) == Some(1int));
            assert(find_name(g.flags, "no-input"@, 2) == Some(2int));
            assert(find_name(g.flags, "no-input"@, 1) == Some(2int));
            assert(find_name(g.flags, "no-input"@, 0) == Some(2int));
        },
        CommandKind::Edit => {
            reveal_strlit("no-input");
            reveal_strlit("quiet");
            reveal_strlit("verbose");
            assert(g.flags[0] == "quiet"@);
            assert(g.flags[1] == "verbose"@);
            assert(g.flags[2] == "no-input"@);
            assert(find_name(g.flags, "quiet"@, 0) == Some(0int));
            assert(find_name(g.flags, "verbose"@, 1) == Some(1int));
            assert(find_name(g.flags, "verbose"@, 0) == Some(1int));
            assert(find_name(g.flags, "no-input"@, 2) == Some(2int));
            assert(find_name(g.flags, "no-input"@, 1) == Some(2int));
            assert(find_name(g.flags, "no-input"@, 0) == Some(2int));
        },
        CommandKind::Completions => {
            reveal_strlit("no-input");
            reveal_strlit("quiet");
            reveal_strlit("verbose");
            assert(g.flags[0] == "quiet"@);
            assert(g.flags[1] == "verbose"@);
            assert(g.flags[2] == "no-input"@);
            assert(find_name(g.flags, "quiet"@, 0) == Some(0int));
            assert(find_name(g.flags, "verbose"@, 1) == Some(1int));
            assert(find_name(g.flags, "verbose"@, 0) == Some(1int));
            assert(find_name(g.flags, "no-input"@, 2) == Some(2int));
            assert(find_name(g.flags, "no-input"@, 1) == Some(2int));
            assert(find_name(g.flags, "no-input"@, 0) == Some(2int));
        },
        CommandKind::Man => {
            reveal_strlit("no-input");
            reveal_strlit("quiet");
            reveal_strlit("verbose");
            assert(g.flags[0] == "quiet"@);
            assert(g.flags[1] == "verbose"@);
            assert(g.flags[2] == "no-input"@);
            assert(find_name(g.flags, "quiet"@, 0) == Some(0int));
            assert(find_name(g.flags, "verbose"@, 1) == Some(1int));
            assert(find_name(g.flags, "verbose"@, 0) == Some(1int));
            assert(find_name(g.flags, "no-input"@, 2) == Some(2int));
            assert(find_name(g.flags, "no-input"@, 1) == Some(2int));
            assert(find_name(g.flags, "no-input"@, 0) == Some(2int));
        },
    }
    if !st.flags[n] {
        lemma_long_flag(g, st, "quiet"@, n);
    }
    if !st.flags[n + 1] {
        lemma_long_flag(g, st, "verbose"@, n + 1);
    }
    if !st.flags[n + 2] {
        lemma_long_flag(g, st, "no-input"@, n + 2);
    }
}

proof fn lemma_name_profile()
    ensures
        "profile"@.len() > 0,
        "profile"@ != "help"@,
        forall|j: int| 0 <= j < "profile"@.len() ==> "profile"@[j] != '=',
{
    reveal_strlit("profile");
    reveal_strlit("help");
    assert("profile"@.len() != 4 || "profile"@[0] != "help"@[0]);
    assert forall|j: int| 0 <= j < "profile"@.len() implies "profile"@[j] != '=' by {
        if j == 0 {} else if j == 1 {} else if j == 2 {} else if j == 3 {} else if j == 4 {} else if j == 5 {} else if j == 6 {}
    }
}

proof fn lemma_name_description()
    ensures
        "description"@.len() > 0,
        "description"@ != "help"@,
        forall|j: int| 0 <= j < "description"@.len() ==> "description"@[j] != '=',
{
    reveal_strlit("description");
    reveal_strlit("help");
    assert("description"@.len() != 4 || "description"@[0] != "help"@[0]);
    assert forall|j: int| 0 <= j < "description"@.len() implies "description"@[j] != '=' by {
        if j == 0 {} else if j == 1 {} else if j == 2 {} else if j == 3 {} else if j == 4 {} else if j == 5 {} else if j == 6 {} else if j == 7 {} else if j == 8 {} else if j == 9 {} else if j == 10 {}
    }
}

proof fn lemma_name_message()
    ensures
        "message"@.len() > 0,
        "message"@ != "help"@,
        forall|j: int| 0 <= j < "message"@.len() ==> "message"@[j] != '=',
{
    reveal_strlit("message");
    reveal_strlit("help");
    assert("message"@.len() != 4 || "message"@[0] != "help"@[0]);
    assert forall|j: int| 0 <= j < "message"@.len() implies "message"@[j] != '=' by {
        if j == 0 {} else if j == 1 {} else if j == 2 {} else if j == 3 {} else if j == 4 {} else if j == 5 {} else if j == 6 {}
    }
}

proof fn lemma_name_editor()
    ensures
        "editor"@.len() > 0,
        "editor"@ != "help"@,
        forall|j: int| 0 <= j < "editor"@.len() ==> "editor"@[j] != '=',
{
    reveal_strlit("editor");
    reveal_strlit("help");
    assert("editor"@.len() != 4 || "editor"@[0] != "help"@[0]);
    assert forall|j: int| 0 <= j < "editor"@.len() implies "editor"@[j] != '=' by {
        if j == 0 {} else if j == 1 {} else if j == 2 {} else if j == 3 {} else if j == 4 {} else if j == 5 {}
    }
}

proof fn lemma_long_option(g: LeafGrammar, st: LeafState, name: Seq<char>, k: int)
    requires
        name.len() > 0,
        forall|j: int| 0 <= j < name.len() ==> name[j] != '=',
        name != "help"@,
        find_name(g.flags, name, 0) is None,
        find_name(option_longs(g), name, 0) == Some(k),
        reads_flags(st),
        st.values[k] is None,
    ensures
        leaf_step(g, st, seq!['-', '-'] + name) == Ok::<LeafState, CliError>(
            LeafState { pending: Some(k), ..st },
        ),
{
    let t = seq!['-', '-'] + name;
    assert(t.skip(2) =~= name);
    lemma_no_eq(name, 0);
    assert(name.take(name.len() as int) =~= name);
    assert(long_name(t) == name);
    assert(long_value(t) is None);
    assert(is_long(t));
    assert(!is_escape(t)) by {
        assert(t.len() != 2);
    }
}

proof fn lemma_short_option(g: LeafGrammar, st: LeafState, c: char, k: int)
    requires
        c != 'h',
        c != '-',
        find_flag_short(g, c, 0) is None,
        find_short(g.options, c, 0) == Some(k),
        reads_flags(st),
        st.values[k] is None,
        !hyphen_value_expected(g, st),
    ensures
        leaf_step(g, st, seq!['-', c]) == Ok::<LeafState, CliError>(
            LeafState { pending: Some(k), ..st },
        ),
{
    let t = seq!['-', c];
    assert(t.skip(1) =~= seq![c]);
    assert(seq![c].skip(1) =~= Seq::<char>::empty());
    assert(is_short(t));
    assert(!is_long(t));
    assert(!is_escape(t));
}

/// `backup`: `--profile`, and `-p` and `-n`, wait for the value of its only option
/// (the `profile` field), and do nothing else.
pub proof fn law_backup_option_takes_its_value(st: LeafState)
    requires
        reads_flags(st),
    ensures
        st.values[0] is None ==> leaf_step(leaf_grammar(CommandKind::Backup), st, seq!['-', '-'] + "profile"@)
            == Ok::<LeafState, CliError>(LeafState { pending: Some(0), ..st }),
        st.values[0] is None ==> leaf_step(leaf_grammar(CommandKind::Backup), st, seq!['-', 'p'])
            == Ok::<LeafState, CliError>(LeafState { pending: Some(0), ..st }),
        st.values[0] is None ==> leaf_step(leaf_grammar(CommandKind::Backup), st, seq!['-', 'n'])
            == Ok::<LeafState, CliError>(LeafState { pending: Some(0), ..st }),
{
    let g = leaf_grammar(CommandKind::Backup);
    reveal_strlit("help");
    lemma_name_profile();
    reveal_strlit("ask-password");
    reveal_strlit("dry-run");
    reveal_strlit("no-input");
    reveal_strlit("profile");
    reveal_strlit("quiet");
    reveal_strlit("skip-encrypted");
    reveal_strlit("verbose");
    assert(g.flags[0] == "skip-encrypted"@);
    assert(g.flags[1] == "ask-password"@);
    assert(g.flags[2] == "dry-run"@);
    assert("dry-run"@[0] != "profile"@[0]);
    assert(g.flags[3] == "quiet"@);
    assert(g.flags[4] == "verbose"@);
    assert("verbose"@[0] != "profile"@[0]);
    assert(g.flags[5] == "no-input"@);
    assert(find_name(g.flags, "profile"@, 6) is None);
    assert(find_name(g.flags, "profile"@, 5) is None);
    assert(find_name(g.flags, "profile"@, 4) is None);
    assert(find_name(g.flags, "profile"@, 3) is None);
    assert(find_name(g.flags, "profile"@, 2) is None);
    assert(find_name(g.flags, "profile"@, 1) is None);
    assert(find_name(g.flags, "profile"@, 0) is None);
    assert(option_longs(g)[0] == "profile"@);
    assert(find_name(option_longs(g), "profile"@, 0) == Some(0int));
    if st.values[0] is None { lemma_long_option(g, st, "profile"@, 0); }
    reveal_strlit("pn");
    reveal_strlit("");
    reveal_strlit("");
    reveal_strlit("q");
    assert(g.options[0].1 == "pn"@);
    assert(g.flag_shorts[0] == ""@);
    assert(g.flag_shorts[1] == ""@);
    assert(g.flag_shorts[2] == ""@);
    assert(g.flag_shorts[3] == "q"@);
    assert(g.flag_shorts[4] == ""@);
    assert(g.flag_shorts[5] == ""@);
    assert(!""@.contains('p'));
    assert(!"q"@.contains('p')) by { if "q"@.contains('p') { let i = choose|i: int| 0 <= i < "q"@.len() && "q"@[i] == 'p'; assert(i == 0); } }
    assert(find_flag_short(g, 'p', 6) is None);
    assert(find_flag_short(g, 'p', 5) is None);
    assert(find_flag_short(g, 'p', 4) is None);
    assert(find_flag_short(g, 'p', 3) is None);
    assert(find_flag_short(g, 'p', 2) is None);
    assert(find_flag_short(g, 'p', 1) is None);
    assert(find_flag_short(g, 'p', 0) is None);
    assert("pn"@[0] == 'p');
    assert(g.options[0].1.contains('p'));
    assert(find_short(g.options, 'p', 0) == Some(0int));
    if st.values[0] is None { lemma_short_option(g, st, 'p', 0); }
    assert(!""@.contains('n'));
    assert(!"q"@.contains('n')) by { if "q"@.contains('n') { let i = choose|i: int| 0 <= i < "q"@.len() && "q"@[i] == 'n'; assert(i == 0); } }
    assert(find_flag_short(g, 'n', 6) is None);
    assert(find_flag_short(g, 'n', 5) is None);
    assert(find_flag_short(g, 'n', 4) is None);
    assert(find_flag_short(g, 'n', 3) is None);
    assert(find_flag_short(g, 'n', 2) is None);
    assert(find_flag_short(g, 'n', 1) is None);
    assert(find_flag_short(g, 'n', 0) is None);
    assert("pn"@[1] == 'n');
    assert(g.options[0].1.contains('n'));
    assert(find_short(g.options, 'n', 0) == Some(0int));
    if st.values[0] is None { lemma_short_option(g, st, 'n', 0); }
}

/// `profile create`: `--description`, and `-d`, wait for the value of its only option
/// (the `description` field), and do nothing else.
pub proof fn law_profile_create_option_takes_its_value(st: LeafState)
    requires
        reads_flags(st),
    ensures
        st.values[0] is None ==> leaf_step(leaf_grammar(CommandKind::ProfileCreate), st, seq!['-', '-'] + "description"@)
            == Ok::<LeafState, CliError>(LeafState { pending: Some(0), ..st }),
        st.values[0] is None ==> leaf_step(leaf_grammar(CommandKind::ProfileCreate), st, seq!['-', 'd'])
            == Ok::<LeafState, CliError>(LeafState { pending: Some(0), ..st }),
{
    let g = leaf_grammar(CommandKind::ProfileCreate);
    reveal_strlit("help");
    lemma_name_description();
    reveal_strlit("description");
    reveal_strlit("json");
    reveal_strlit("no-input");
    reveal_strlit("quiet");
    reveal_strlit("verbose");
    assert(g.flags[0] == "json"@);
    assert(g.flags[1] == "quiet"@);
    assert(g.flags[2] == "verbose"@);
    assert(g.flags[3] == "no-input"@);
    assert(find_name(g.flags, "description"@, 4) is None);
    assert(find_name(g.flags, "description"@, 3) is None);
    assert(find_name(g.flags, "description"@, 2) is None);
    assert(find_name(g.flags, "description"@, 1) is None);
    assert(find_name(g.flags, "description"@, 0) is None);
    assert(option_longs(g)[0] == "description"@);
    assert(find_name(option_longs(g), "description"@, 0) == Some(0int));
    if st.values[0] is None { lemma_long_option(g, st, "description"@, 0); }
    reveal_strlit("d");
    reveal_strlit("");
    reveal_strlit("");
    reveal_strlit("q");
    assert(g.options[0].1 == "d"@);
    assert(g.flag_shorts[0] == ""@);
    assert(g.flag_shorts[1] == "q"@);
    assert(g.flag_shorts[2] == ""@);
    assert(g.flag_shorts[3] == ""@);
    assert(!""@.contains('d'));
    assert(!"q"@.contains('d')) by { if "q"@.contains('d') { let i = choose|i: int| 0 <= i < "q"@.len() && "q"@[i] == 'd'; assert(i == 0); } }
    assert(find_flag_short(g, 'd', 4) is None);
    assert(find_flag_short(g, 'd', 3) is None);
    assert(find_flag_short(g, 'd', 2) is None);
    assert(find_flag_short(g, 'd', 1) is None);
    assert(find_flag_short(g, 'd', 0) is None);
    assert("d"@[0] == 'd');
    assert(g.options[0].1.contains('d'));
    assert(find_short(g.options, 'd', 0) == Some(0int));
    if st.values[0] is None { lemma_short_option(g, st, 'd', 0); }
}

/// `sync`: `--message`, and `-m`, wait for the value of its only option
/// (the `message` field), and do nothing else.
pub proof fn law_sync_option_takes_its_value(st: LeafState)
    requires
        reads_flags(st),
    ensures
        st.values[0] is None ==> leaf_step(leaf_grammar(CommandKind::Sync), st, seq!['-', '-'] + "message"@)
            == Ok::<LeafState, CliError>(LeafState { pending: Some(0), ..st }),
        st.values[0] is None ==> leaf_step(leaf_grammar(CommandKind::Sync), st, seq!['-', 'm'])
            == Ok::<LeafState, CliError>(LeafState { pending: Some(0), ..st }),
{
    let g = leaf_grammar(CommandKind::Sync);
    reveal_strlit("help");
    lemma_name_message();
    reveal_strlit("dry-run");
    reveal_strlit("message");
    reveal_strlit("no-input");
    reveal_strlit("quiet");
    reveal_strlit("verbose");
    assert(g.flags[0] == "dry-run"@);
    assert("dry-run"@[0] != "message"@[0]);
    assert(g.flags[1] == "quiet"@);
    assert(g.flags[2] == "verbose"@);
    assert("verbose"@[0] != "message"@[0]);
    assert(g.flags[3] == "no-input"@);
    assert(find_name(g.flags, "message"@, 4) is None);
    assert(find_name(g.flags, "message"@, 3) is None);
    assert(find_name(g.flags, "message"@, 2) is None);
    assert(find_name(g.flags, "message"@, 1) is None);
    assert(find_name(g.flags, "message"@, 0) is None);
    assert(option_longs(g)[0] == "message"@);
    assert(find_name(option_longs(g), "message"@, 0) == Some(0int));
    if st.values[0] is None { lemma_long_option(g, st, "message"@, 0); }
    reveal_strlit("m");
    reveal_strlit("");
    reveal_strlit("");
    reveal_strlit("n");
    reveal_strlit("q");
    assert(g.options[0].1 == "m"@);
    assert(g.flag_shorts[0] == "n"@);
    assert(g.flag_shorts[1] == "q"@);
    assert(g.flag_shorts[2] == ""@);
    assert(g.flag_shorts[3] == ""@);
    assert(!""@.contains('m'));
    assert(!"n"@.contains('m')) by { if "n"@.contains('m') { let i = choose|i: int| 0 <= i < "n"@.len() && "n"@[i] == 'm'; assert(i == 0); } }
    assert(!"q"@.contains('m')) by { if "q"@.contains('m') { let i = choose|i: int| 0 <= i < "q"@.len() && "q"@[i] == 'm'; assert(i == 0); } }
    assert(find_flag_short(g, 'm', 4) is None);
    assert(find_flag_short(g, 'm', 3) is None);
    assert(find_flag_short(g, 'm', 2) is None);
    assert(find_flag_short(g, 'm', 1) is None);
    assert(find_flag_short(g, 'm', 0) is None);
    assert("m"@[0] == 'm');
    assert(g.options[0].1.contains('m'));
    assert(find_short(g.options, 'm', 0) == Some(0int));
    if st.values[0] is None { lemma_short_option(g, st, 'm', 0); }
}

/// `edit`: `--editor`, and `-e`, wait for the value of its only option
/// (the `editor` field), and do nothing else.
pub proof fn law_edit_option_takes_its_value(st: LeafState)
    requires
        reads_flags(st),
    ensures
        st.values[0] is None ==> leaf_step(leaf_grammar(CommandKind::Edit), st, seq!['-', '-'] + "editor"@)
            == Ok::<LeafState, CliError>(LeafState { pending: Some(0), ..st }),
        st.values[0] is None ==> leaf_step(leaf_grammar(CommandKind::Edit), st, seq!['-', 'e'])
            == Ok::<LeafState, CliError>(LeafState { pending: Some(0), ..st }),
{
    let g = leaf_grammar(CommandKind::Edit);
    reveal_strlit("help");
    lemma_name_editor();
    reveal_strlit("editor");
    reveal_strlit("no-input");
    reveal_strlit("quiet");
    reveal_strlit("verbose");
    assert(g.flags[0] == "quiet"@);
    assert(g.flags[1] == "verbose"@);
    assert(g.flags[2] == "no-input"@);
    assert(find_name(g.flags, "editor"@, 3) is None);
    assert(find_name(g.flags, "editor"@, 2) is None);
    assert(find_name(g.flags, "editor"@, 1) is None);
    assert(find_name(g.flags, "editor"@, 0) is None);
    assert(option_longs(g)[0] == "editor"@);
    assert(find_name(option_longs(g), "editor"@, 0) == Some(0int));
    if st.values[0] is None { lemma_long_option(g, st, "editor"@, 0); }
    reveal_strlit("e");
    reveal_strlit("");
    reveal_strlit("");
    reveal_strlit("q");
    assert(g.options[0].1 == "e"@);
    assert(g.flag_shorts[0] == "q"@);
    assert(g.flag_shorts[1] == ""@);
    assert(g.flag_shorts[2] == ""@);
    assert(!""@.contains('e'));
    assert(!"q"@.contains('e')) by { if "q"@.contains('e') { let i = choose|i: int| 0 <= i < "q"@.len() && "q"@[i] == 'e'; assert(i == 0); } }
    assert(find_flag_short(g, 'e', 3) is None);
    assert(find_flag_short(g, 'e', 2) is None);
    assert(find_flag_short(g, 'e', 1) is None);
    assert(find_flag_short(g, 'e', 0) is None);
    assert("e"@[0] == 'e');
    assert(g.options[0].1.contains('e'));
    assert(find_short(g.options, 'e', 0) == Some(0int));
    if st.values[0] is None { lemma_short_option(g, st, 'e', 0); }
}

} // verus!
