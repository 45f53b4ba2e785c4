//! The grammar of each `dfm` command, and the subcommand names of the
//! commands that have subcommands.

use vstd::prelude::*;
use crate::text::chars_of;
use super::args::CommandKind;
use super::leaf::{seq_views, LeafDesc, LeafGrammar, Positional, PositionalGrammar};

verus! {

/// The flags `--skip-encrypted` and `--ask-password`.
pub open spec fn password_flags() -> Seq<Seq<char>> {
    seq!["skip-encrypted"@, "ask-password"@]
}

/// The values that name the registries `dfm edit` opens.
pub open spec fn registry_names() -> Seq<Seq<char>> {
    seq!["config"@, "package"@, "encrypted"@, "profiles"@]
}

/// The flags that every command accepts, wherever it stands on the command
/// line: `--quiet`, `--verbose` and `--no-input`.
pub open spec fn global_flags() -> Seq<Seq<char>> {
    seq!["quiet"@, "verbose"@, "no-input"@]
}

/// The short names of the global flags: `-q` for `--quiet`.
pub open spec fn global_shorts() -> Seq<Seq<char>> {
    seq!["q"@, ""@, ""@]
}

/// The values that name the shells `dfm completions` writes scripts for.
pub open spec fn shell_names() -> Seq<Seq<char>> {
    seq!["bash"@, "elvish"@, "fish"@, "powershell"@, "zsh"@]
}

/// The flags of each command without subcommands, its own first, and the
/// short names of each, in the same order.
pub open spec fn own_flags(kind: CommandKind) -> (Seq<Seq<char>>, Seq<Seq<char>>) {
    match kind {
        CommandKind::Link => (password_flags(), seq![""@, ""@]),
        CommandKind::Backup => (password_flags() + seq!["dry-run"@], seq![""@, ""@, ""@]),
        CommandKind::Restore => (password_flags() + seq!["dry-run"@], seq![""@, ""@, "n"@]),
        CommandKind::Profile | CommandKind::ProfileList | CommandKind::ProfileCreate
        | CommandKind::ProfileDelete => (seq!["json"@], seq![""@]),
        CommandKind::Sync => (seq!["dry-run"@], seq!["n"@]),
        CommandKind::Doctor => (
            password_flags() + seq!["fix"@, "include-disabled"@, "json"@],
            seq![""@, ""@, ""@, ""@, ""@],
        ),
        _ => (seq![], seq![]),
    }
}

/// The grammar of each command without subcommands: its own flags followed
/// by the global ones, its options, and its positional values.
pub open spec fn leaf_grammar(kind: CommandKind) -> LeafGrammar {
    LeafGrammar {
        flags: own_flags(kind).0 + global_flags(),
        flag_shorts: own_flags(kind).1 + global_shorts(),
        options: match kind {
            CommandKind::Backup => seq![("profile"@, "pn"@)],
            CommandKind::ProfileCreate => seq![("description"@, "d"@)],
            CommandKind::Sync => seq![("message"@, "m"@)],
            CommandKind::Edit => seq![("editor"@, "e"@)],
            _ => seq![],
        },
        positional: match kind {
            CommandKind::Link | CommandKind::Use | CommandKind::ProfileCreate
            | CommandKind::ProfileDelete => PositionalGrammar::One,
            CommandKind::Git => PositionalGrammar::Trailing(true),
            CommandKind::Status | CommandKind::Diff => PositionalGrammar::Trailing(false),
            CommandKind::Edit => PositionalGrammar::OneOf(registry_names()),
            CommandKind::Completions => PositionalGrammar::OneOf(shell_names()),
            _ => PositionalGrammar::Nothing,
        },
    }
}

/// No command takes an option whose value could be a passphrase: the only
/// options are a profile, a description, a commit message and an editor.
pub proof fn law_no_option_takes_a_passphrase(kind: CommandKind)
    ensures
        forall|i: int|
            0 <= i < leaf_grammar(kind).options.len() ==> seq![
                "profile"@,
                "description"@,
                "message"@,
                "editor"@,
            ].contains(#[trigger] leaf_grammar(kind).options[i].0),
{
    let names = seq!["profile"@, "description"@, "message"@, "editor"@];
    assert(names[0] == "profile"@ && names[1] == "description"@ && names[2] == "message"@
        && names[3] == "editor"@);
}

/// The commands that have subcommands.
#[derive(Debug, Clone, Copy, PartialEq, Eq, Structural)]
pub enum Group {
    /// `dfm` itself.
    Top,
    /// `dfm profile`.
    Profile,
    /// `dfm secret`.
    Secret,
}

/// The subcommand names of each command that has subcommands, `help` last.
pub open spec fn group_names(g: Group) -> Seq<Seq<char>> {
    match g {
        Group::Top => seq![
            "link"@,
            "backup"@,
            "restore"@,
            "use"@,
            "profile"@,
            "git"@,
            "status"@,
            "diff"@,
            "sync"@,
            "doctor"@,
            "secret"@,
            "prune"@,
            "edit"@,
            "completions"@,
            "man"@,
            "help"@,
        ],
        Group::Profile => seq!["list"@, "create"@, "delete"@, "help"@],
        Group::Secret => seq!["set"@, "delete"@, "help"@],
    }
}

fn push_name(v: &mut Vec<Vec<char>>, s: &str)
    ensures
        seq_views(final(v)@) == seq_views(old(v)@).push(s@),
{
    v.push(chars_of(s));
    assert(seq_views(final(v)@) =~= seq_views(old(v)@).push(s@));
}

/// The subcommand names of `g`.
pub fn group_names_of(g: Group) -> (v: Vec<Vec<char>>)
    ensures
        seq_views(v@) == group_names(g),
{
    let mut v: Vec<Vec<char>> = Vec::new();
    match g {
        Group::Top => {
            push_name(&mut v, "link");
            push_name(&mut v, "backup");
            push_name(&mut v, "restore");
            push_name(&mut v, "use");
            push_name(&mut v, "profile");
            push_name(&mut v, "git");
            push_name(&mut v, "status");
            push_name(&mut v, "diff");
            push_name(&mut v, "sync");
            push_name(&mut v, "doctor");
            push_name(&mut v, "secret");
            push_name(&mut v, "prune");
            push_name(&mut v, "edit");
            push_name(&mut v, "completions");
            push_name(&mut v, "man");
            push_name(&mut v, "help");
        },
        Group::Profile => {
            push_name(&mut v, "list");
            push_name(&mut v, "create");
            push_name(&mut v, "delete");
            push_name(&mut v, "help");
        },
        Group::Secret => {
            push_name(&mut v, "set");
            push_name(&mut v, "delete");
            push_name(&mut v, "help");
        },
    }
    assert(seq_views(v@) =~= group_names(g));
    v
}

fn option_entry(long: &str, shorts: &str) -> (o: (Vec<char>, Vec<char>))
    ensures
        o.0@ == long@,
        o.1@ == shorts@,
{
    (chars_of(long), chars_of(shorts))
}

/// The grammar of the command `kind`.
pub fn leaf_desc(kind: CommandKind) -> (d: LeafDesc)
    ensures
        d.grammar() == leaf_grammar(kind),
{
    let mut flags: Vec<Vec<char>> = Vec::new();
    let mut flag_shorts: Vec<Vec<char>> = Vec::new();
    let mut options: Vec<(Vec<char>, Vec<char>)> = Vec::new();
    let positional = match kind {
        CommandKind::Link => {
            push_name(&mut flags, "skip-encrypted");
            push_name(&mut flags, "ask-password");
            push_name(&mut flag_shorts, "");
            push_name(&mut flag_shorts, "");
            Positional::One
        },
        CommandKind::Backup => {
            push_name(&mut flags, "skip-encrypted");
            push_name(&mut flags, "ask-password");
            push_name(&mut flags, "dry-run");
            push_name(&mut flag_shorts, "");
            push_name(&mut flag_shorts, "");
            push_name(&mut flag_shorts, "");
            options.push(option_entry("profile", "pn"));
            Positional::Nothing
        },
        CommandKind::Restore => {
            push_name(&mut flags, "skip-encrypted");
            push_name(&mut flags, "ask-password");
            push_name(&mut flags, "dry-run");
            push_name(&mut flag_shorts, "");
            push_name(&mut flag_shorts, "");
            push_name(&mut flag_shorts, "n");
            Positional::Nothing
        },
        CommandKind::Use => Positional::One,
        CommandKind::Profile | CommandKind::ProfileList => {
            push_name(&mut flags, "json");
            push_name(&mut flag_shorts, "");
            Positional::Nothing
        },
        CommandKind::ProfileCreate => {
            push_name(&mut flags, "json");
            push_name(&mut flag_shorts, "");
            options.push(option_entry("description", "d"));
            Positional::One
        },
        CommandKind::ProfileDelete => {
            push_name(&mut flags, "json");
            push_name(&mut flag_shorts, "");
            Positional::One
        },
        CommandKind::Git => Positional::Trailing(true),
        CommandKind::Status | CommandKind::Diff => Positional::Trailing(false),
        CommandKind::Sync => {
            push_name(&mut flags, "dry-run");
            push_name(&mut flag_shorts, "n");
            options.push(option_entry("message", "m"));
            Positional::Nothing
        },
        CommandKind::Doctor => {
            push_name(&mut flags, "skip-encrypted");
            push_name(&mut flags, "ask-password");
            push_name(&mut flags, "fix");
            push_name(&mut flags, "include-disabled");
            push_name(&mut flags, "json");
            push_name(&mut flag_shorts, "");
            push_name(&mut flag_shorts, "");
            push_name(&mut flag_shorts, "");
            push_name(&mut flag_shorts, "");
            push_name(&mut flag_shorts, "");
            Positional::Nothing
        },
        CommandKind::SecretSet | CommandKind::SecretDelete | CommandKind::Prune
        | CommandKind::Man => Positional::Nothing,
        CommandKind::Edit => {
            options.push(option_entry("editor", "e"));
            let mut allowed: Vec<Vec<char>> = Vec::new();
            push_name(&mut allowed, "config");
            push_name(&mut allowed, "package");
            push_name(&mut allowed, "encrypted");
            push_name(&mut allowed, "profiles");
            assert(seq_views(allowed@) =~= registry_names());
            Positional::OneOf(allowed)
        },
        CommandKind::Completions => {
            let mut allowed: Vec<Vec<char>> = Vec::new();
            push_name(&mut allowed, "bash");
            push_name(&mut allowed, "elvish");
            push_name(&mut allowed, "fish");
            push_name(&mut allowed, "powershell");
            push_name(&mut allowed, "zsh");
            assert(seq_views(allowed@) =~= shell_names());
            Positional::OneOf(allowed)
        },
    };
    let ghost own = (seq_views(flags@), seq_views(flag_shorts@));
    assert(own.0 =~= own_flags(kind).0);
    assert(own.1 =~= own_flags(kind).1);
    push_name(&mut flags, "quiet");
    push_name(&mut flags, "verbose");
    push_name(&mut flags, "no-input");
    push_name(&mut flag_shorts, "q");
    push_name(&mut flag_shorts, "");
    push_name(&mut flag_shorts, "");
    let d = LeafDesc { flags, flag_shorts, options, positional };
    assert(d.grammar().flags =~= leaf_grammar(kind).flags);
    assert(d.grammar().flag_shorts =~= leaf_grammar(kind).flag_shorts);
    assert(d.grammar().options =~= leaf_grammar(kind).options);
    d
}

} // verus!
