//! Reading a whole command line: the subcommand names, the flags of the
//! commands that have subcommands, and the arguments of the command named.

use vstd::prelude::*;
use crate::text::{chars_eq, chars_of, string_of};
use super::args::{
    opt_string, string_views, BackupArgs, Cli, Command, CommandKind, CommandModel,
    CompletionsArgs, DoctorArgs, EditArgs, GitArgs, LinkArgs, PassthroughArgs, ProfileActions,
    ProfileArgs, RegistryChoice, RestoreArgs, SecretActions, Shell, SyncArgs, UseArgs,
};
use super::leaf::{
    eq_pos, find_name, initial_state, leaf_run, leaf_step, opt_view, LeafGrammar,
    LeafState, is_escape, is_long, is_short, leaf_parse_from, long_name, long_value, parse_leaf,
    seq_views, CliError, LeafMatches, Parsed,
};
use super::table::{
    global_flags, group_names, group_names_of, leaf_desc, leaf_grammar, own_flags, registry_names,
    shell_names, Group,
};

verus! {

// ---------------------------------------------------------------------------
// The grammar
// ---------------------------------------------------------------------------

/// No global flag given: `quiet`, `verbose` and `no_input` all unset.
pub open spec fn no_globals() -> Seq<bool> {
    seq![false, false, false]
}

/// The global flags given in `a` or in `b`.
pub open spec fn merge_globals(a: Seq<bool>, b: Seq<bool>) -> Seq<bool> {
    seq![a[0] || b[0], a[1] || b[1], a[2] || b[2]]
}

/// How reading the arguments of a command with subcommands ends.
pub enum GroupScan {
    /// The parse ends here.
    Stop(CliError),
    /// The arguments ran out without a subcommand; holds whether `--json`
    /// was given, and the global flags given.
    End(bool, Seq<bool>),
    /// Subcommand number `.0` was named at token `.1`; `.2` holds whether
    /// `--json` was given before it, `.3` the global flags given before it.
    Sub(int, int, bool, Seq<bool>),
}

/// Read the short arguments of `cluster` from position `j` on, for the
/// command `g`: `h` asks for help, `V` for the version (of `dfm` itself),
/// `q` sets `--quiet` (once only), and anything else is a usage error.
pub open spec fn group_cluster(g: Group, cluster: Seq<char>, j: int, globals: Seq<bool>) -> Result<
    Seq<bool>,
    CliError,
>
    decreases cluster.len() - j,
{
    if j < 0 || j >= cluster.len() {
        Ok(globals)
    } else if cluster[j] == 'h' {
        Err(CliError::DisplayHelp)
    } else if g == Group::Top && cluster[j] == 'V' {
        Err(CliError::DisplayVersion)
    } else if cluster[j] == 'q' {
        if globals[0] {
            Err(CliError::Usage)
        } else {
            group_cluster(g, cluster, j + 1, globals.update(0, true))
        }
    } else {
        Err(CliError::Usage)
    }
}

/// Read the arguments of the command `g` from token `i` on, up to the first
/// subcommand name. A global flag may be given once at this level.
pub open spec fn group_scan(g: Group, toks: Seq<Seq<char>>, i: int, json: bool, globals: Seq<bool>) -> GroupScan
    decreases toks.len() - i,
{
    if i < 0 || i >= toks.len() {
        GroupScan::End(json, globals)
    } else {
        let t = toks[i];
        match find_name(group_names(g), t, 0) {
            Some(k) => GroupScan::Sub(k, i, json, globals),
            None => if is_escape(t) {
                if i + 1 < toks.len() {
                    GroupScan::Stop(CliError::Usage)
                } else {
                    GroupScan::End(json, globals)
                }
            } else if is_long(t) {
                let name = long_name(t);
                let value = long_value(t);
                if name == "help"@ {
                    GroupScan::Stop(
                        if value is Some {
                            CliError::Usage
                        } else {
                            CliError::DisplayHelp
                        },
                    )
                } else if g == Group::Top && name == "version"@ {
                    GroupScan::Stop(
                        if value is Some {
                            CliError::Usage
                        } else {
                            CliError::DisplayVersion
                        },
                    )
                } else if g == Group::Profile && name == "json"@ {
                    if value is Some || json {
                        GroupScan::Stop(CliError::Usage)
                    } else {
                        group_scan(g, toks, i + 1, true, globals)
                    }
                } else if let Some(j) = find_name(global_flags(), name, 0) {
                    if value is Some || globals[j] {
                        GroupScan::Stop(CliError::Usage)
                    } else {
                        group_scan(g, toks, i + 1, json, globals.update(j, true))
                    }
                } else {
                    GroupScan::Stop(CliError::Usage)
                }
            } else if is_short(t) {
                match group_cluster(g, t.skip(1), 0, globals) {
                    Err(e) => GroupScan::Stop(e),
                    Ok(next) => group_scan(g, toks, i + 1, json, next),
                }
            } else {
                GroupScan::Stop(CliError::Usage)
            },
        }
    }
}

/// A node of the command tree.
pub enum Node {
    /// A command with subcommands.
    Branch(Group),
    /// A command without subcommands.
    Leaf,
}

/// The node of subcommand number `k` of `g`.
pub open spec fn child(g: Group, k: int) -> Node {
    if g == Group::Top && k == 4 {
        Node::Branch(Group::Profile)
    } else if g == Group::Top && k == 10 {
        Node::Branch(Group::Secret)
    } else {
        Node::Leaf
    }
}

/// Whether the tokens from `i` on name a path of subcommands below `n`.
pub open spec fn help_path(n: Node, toks: Seq<Seq<char>>, i: int) -> bool
    decreases toks.len() - i,
{
    if i < 0 || i >= toks.len() {
        true
    } else {
        match n {
            Node::Leaf => false,
            Node::Branch(g) => match find_name(group_names(g), toks[i], 0) {
                Some(k) => help_path(child(g, k), toks, i + 1),
                None => false,
            },
        }
    }
}

/// How `help` ends the parse: with the help text of the command that the
/// tokens after it name, or with a usage error when they name none.
pub open spec fn help_outcome(g: Group, toks: Seq<Seq<char>>, i: int) -> CliError {
    if help_path(Node::Branch(g), toks, i) {
        CliError::DisplayHelp
    } else {
        CliError::Usage
    }
}

/// The command named by subcommand number `k` of `dfm` (other than
/// `profile`, `secret` and `help`).
pub open spec fn top_kind(k: int) -> CommandKind {
    if k == 0 {
        CommandKind::Link
    } else if k == 1 {
        CommandKind::Backup
    } else if k == 2 {
        CommandKind::Restore
    } else if k == 3 {
        CommandKind::Use
    } else if k == 5 {
        CommandKind::Git
    } else if k == 6 {
        CommandKind::Status
    } else if k == 7 {
        CommandKind::Diff
    } else if k == 8 {
        CommandKind::Sync
    } else if k == 9 {
        CommandKind::Doctor
    } else if k == 11 {
        CommandKind::Prune
    } else if k == 12 {
        CommandKind::Edit
    } else if k == 13 {
        CommandKind::Completions
    } else {
        CommandKind::Man
    }
}

/// The command named by subcommand number `k` of `dfm profile` (other than
/// `help`).
pub open spec fn profile_kind(k: int) -> CommandKind {
    if k == 0 {
        CommandKind::ProfileList
    } else if k == 1 {
        CommandKind::ProfileCreate
    } else {
        CommandKind::ProfileDelete
    }
}

/// The matches of command `kind` without the global flags.
pub open spec fn own_matches(kind: CommandKind, m: LeafMatches) -> LeafMatches {
    LeafMatches { flags: m.flags.take(own_flags(kind).0.len() as int), ..m }
}

/// The global flags among the matches of command `kind`.
pub open spec fn leaf_globals(kind: CommandKind, m: LeafMatches) -> Seq<bool> {
    m.flags.skip(own_flags(kind).0.len() as int)
}

/// Read the arguments of command `kind` from token `start` on, the global
/// flags `globals` having been given before it.
pub open spec fn leaf_command(kind: CommandKind, toks: Seq<Seq<char>>, start: int, globals: Seq<bool>) -> Result<
    (Option<CommandModel>, Seq<bool>),
    CliError,
> {
    match leaf_parse_from(leaf_grammar(kind), toks, start) {
        Ok(m) => Ok(
            (
                Some(CommandModel { kind, matches: own_matches(kind, m) }),
                merge_globals(globals, leaf_globals(kind, m)),
            ),
        ),
        Err(e) => Err(e),
    }
}

/// Read `dfm profile` from token `start` on, the global flags `globals`
/// having been given before it; `--json` given to `profile` holds for its
/// action too.
pub open spec fn profile_command(toks: Seq<Seq<char>>, start: int, globals: Seq<bool>) -> Result<
    (Option<CommandModel>, Seq<bool>),
    CliError,
> {
    match group_scan(Group::Profile, toks, start, false, no_globals()) {
        GroupScan::Stop(e) => Err(e),
        GroupScan::End(json, here) => Ok(
            (
                Some(
                    CommandModel {
                        kind: CommandKind::Profile,
                        matches: LeafMatches { flags: seq![json], values: seq![], pos: seq![] },
                    },
                ),
                merge_globals(globals, here),
            ),
        ),
        GroupScan::Sub(k, at, json, here) => if k == 3 {
            Err(help_outcome(Group::Profile, toks, at + 1))
        } else {
            match leaf_parse_from(leaf_grammar(profile_kind(k)), toks, at + 1) {
                Ok(m) => Ok(
                    (
                        Some(
                            CommandModel {
                                kind: profile_kind(k),
                                matches: LeafMatches { flags: seq![m.flags[0] || json], ..m },
                            },
                        ),
                        merge_globals(
                            merge_globals(globals, here),
                            leaf_globals(profile_kind(k), m),
                        ),
                    ),
                ),
                Err(e) => Err(e),
            }
        },
    }
}

/// Read `dfm secret` from token `start` on, the global flags `globals`
/// having been given before it; an action is required.
pub open spec fn secret_command(toks: Seq<Seq<char>>, start: int, globals: Seq<bool>) -> Result<
    (Option<CommandModel>, Seq<bool>),
    CliError,
> {
    match group_scan(Group::Secret, toks, start, false, no_globals()) {
        GroupScan::Stop(e) => Err(e),
        GroupScan::End(_, _) => Err(CliError::Usage),
        GroupScan::Sub(k, at, _, here) => if k == 2 {
            Err(help_outcome(Group::Secret, toks, at + 1))
        } else {
            leaf_command(
                if k == 0 {
                    CommandKind::SecretSet
                } else {
                    CommandKind::SecretDelete
                },
                toks,
                at + 1,
                merge_globals(globals, here),
            )
        },
    }
}

/// What the arguments `toks` (the program name left out) give: the command
/// they name, or none, with the global flags given anywhere before, among
/// or after the subcommand names; or how the parse ends without one.
pub open spec fn parse_tokens(toks: Seq<Seq<char>>) -> Result<(Option<CommandModel>, Seq<bool>), CliError> {
    match group_scan(Group::Top, toks, 0, false, no_globals()) {
        GroupScan::Stop(e) => Err(e),
        GroupScan::End(_, here) => Ok((None, here)),
        GroupScan::Sub(k, at, _, here) => if k == 15 {
            Err(help_outcome(Group::Top, toks, at + 1))
        } else if k == 4 {
            profile_command(toks, at + 1, here)
        } else if k == 10 {
            secret_command(toks, at + 1, here)
        } else {
            leaf_command(top_kind(k), toks, at + 1, here)
        },
    }
}

/// The arguments after the program name.
pub open spec fn tokens_of(args: Seq<&str>) -> Seq<Seq<char>> {
    if args.len() == 0 {
        Seq::empty()
    } else {
        args.drop_first().map_values(|s: &str| s@)
    }
}

// ---------------------------------------------------------------------------
// Reading the command line
// ---------------------------------------------------------------------------

/// The first name in `names` that is `t`.
fn find_in(names: &Vec<Vec<char>>, t: &Vec<char>) -> (r: Option<usize>)
    ensures
        r matches Some(k) ==> find_name(seq_views(names@), t@, 0) == Some(k as int),
        r is None ==> find_name(seq_views(names@), t@, 0) is None,
{
    let ghost nv = seq_views(names@);
    let mut k: usize = 0;
    while k < names.len()
        invariant
            k <= names@.len() == nv.len(),
            nv == seq_views(names@),
            find_name(nv, t@, k as int) == find_name(nv, t@, 0),
        decreases names@.len() - k,
    {
        if chars_eq(&names[k], t) {
            return Some(k);
        }
        k = k + 1;
    }
    None
}

proof fn lemma_find_in_bounds(names: Seq<Seq<char>>, name: Seq<char>, k: int)
    requires
        0 <= k,
    ensures
        find_name(names, name, k) matches Some(j) ==> k <= j < names.len(),
    decreases names.len() - k,
{
    if k < names.len() && names[k] != name {
        lemma_find_in_bounds(names, name, k + 1);
    }
}

/// The global flags `quiet`, `verbose` and `no_input`, in that order.
pub open spec fn gseq(t: (bool, bool, bool)) -> Seq<bool> {
    seq![t.0, t.1, t.2]
}

/// How reading the arguments of a command with subcommands ended.
enum Scanned {
    Stop(CliError),
    End(bool, (bool, bool, bool)),
    Sub(usize, usize, bool, (bool, bool, bool)),
}

spec fn scanned_is(r: Scanned, s: GroupScan) -> bool {
    match (r, s) {
        (Scanned::Stop(e1), GroupScan::Stop(e2)) => e1 == e2,
        (Scanned::End(j1, g1), GroupScan::End(j2, g2)) => j1 == j2 && gseq(g1) == g2,
        (Scanned::Sub(k1, a1, j1, g1), GroupScan::Sub(k2, a2, j2, g2)) => k1 == k2 && a1 == a2 && j1
            == j2 && gseq(g1) == g2,
        _ => false,
    }
}

fn global_names_of() -> (v: Vec<Vec<char>>)
    ensures
        seq_views(v@) == global_flags(),
{
    let mut v: Vec<Vec<char>> = Vec::new();
    v.push(chars_of("quiet"));
    v.push(chars_of("verbose"));
    v.push(chars_of("no-input"));
    assert(seq_views(v@) =~= global_flags());
    v
}

/// `gl` with global flag `j` set.
fn set_global(gl: (bool, bool, bool), j: usize) -> (r: (bool, bool, bool))
    requires
        j < 3,
    ensures
        gseq(r) == gseq(gl).update(j as int, true),
{
    let r = if j == 0 {
        (true, gl.1, gl.2)
    } else if j == 1 {
        (gl.0, true, gl.2)
    } else {
        (gl.0, gl.1, true)
    };
    assert(gseq(r) =~= gseq(gl).update(j as int, true));
    r
}

/// Read the arguments of command `g` from token `start` on, up to the first
/// subcommand name.
fn scan_group(g: Group, toks: &Vec<Vec<char>>, start: usize) -> (r: Scanned)
    requires
        start <= toks@.len(),
    ensures
        scanned_is(r, group_scan(g, seq_views(toks@), start as int, false, no_globals())),
        r matches Scanned::Sub(k, at, _, _) ==> start <= at < toks@.len() && k < group_names(g).len()
            && at < usize::MAX,
{
    let ghost tv = seq_views(toks@);
    let names = group_names_of(g);
    let gnames = global_names_of();
    let help = chars_of("help");
    let version = chars_of("version");
    let json_name = chars_of("json");
    let mut json = false;
    let mut gl: (bool, bool, bool) = (false, false, false);
    assert(gseq(gl) =~= no_globals());
    let mut i = start;
    while i < toks.len()
        invariant
            start <= i <= toks@.len(),
            tv == seq_views(toks@),
            seq_views(names@) == group_names(g),
            seq_views(gnames@) == global_flags(),
            help@ == "help"@,
            version@ == "version"@,
            json_name@ == "json"@,
            group_scan(g, tv, i as int, json, gseq(gl)) == group_scan(
                g,
                tv,
                start as int,
                false,
                no_globals(),
            ),
        decreases toks@.len() - i,
    {
        let t = &toks[i];
        assert(tv[i as int] == t@);
        match find_in(&names, t) {
            Some(k) => {
                proof {
                    lemma_find_in_bounds(group_names(g), t@, 0);
                }
                return Scanned::Sub(k, i, json, gl);
            },
            None => {},
        }
        let n = t.len();
        if n == 2 && t[0] == '-' && t[1] == '-' {
            assert(t@ =~= seq!['-', '-']);
            if i + 1 < toks.len() {
                return Scanned::Stop(CliError::Usage);
            }
            return Scanned::End(json, gl);
        }
        proof {
            if is_escape(t@) {
                assert(t@.len() == 2 && t@[0] == '-' && t@[1] == '-');
            }
        }
        if n > 2 && t[0] == '-' && t[1] == '-' {
            let body = crate::text::sub_chars(t, 2, n);
            assert(body@ =~= t@.skip(2));
            let mut e: usize = 0;
            while e < body.len() && body[e] != '='
                invariant
                    e <= body@.len(),
                    eq_pos(body@, e as int) == eq_pos(body@, 0),
                decreases body@.len() - e,
            {
                e = e + 1;
            }
            let name = crate::text::sub_chars(&body, 0, e);
            assert(name@ =~= long_name(t@));
            let has_value = e < body.len();
            assert(has_value == long_value(t@) is Some);
            if chars_eq(&name, &help) {
                return Scanned::Stop(
                    if has_value {
                        CliError::Usage
                    } else {
                        CliError::DisplayHelp
                    },
                );
            }
            if g == Group::Top && chars_eq(&name, &version) {
                return Scanned::Stop(
                    if has_value {
                        CliError::Usage
                    } else {
                        CliError::DisplayVersion
                    },
                );
            }
            if g == Group::Profile && chars_eq(&name, &json_name) {
                if has_value || json {
                    return Scanned::Stop(CliError::Usage);
                }
                json = true;
                i = i + 1;
                continue;
            }
            match find_in(&gnames, &name) {
                Some(j) => {
                    proof {
                        lemma_find_in_bounds(global_flags(), name@, 0);
                    }
                    let set = if j == 0 {
                        gl.0
                    } else if j == 1 {
                        gl.1
                    } else {
                        gl.2
                    };
                    assert(set == gseq(gl)[j as int]);
                    if has_value || set {
                        return Scanned::Stop(CliError::Usage);
                    }
                    gl = set_global(gl, j);
                    i = i + 1;
                    continue;
                },
                None => {},
            }
            return Scanned::Stop(CliError::Usage);
        }
        if n >= 2 && t[0] == '-' && t[1] != '-' {
            let ghost cluster = t@.skip(1);
            let ghost gl0 = gseq(gl);
            let mut j: usize = 1;
            while j < n
                invariant
                    1 <= j <= n == t@.len(),
                    cluster == t@.skip(1),
                    start <= i < toks@.len(),
                    tv == seq_views(toks@),
                    seq_views(names@) == group_names(g),
                    seq_views(gnames@) == global_flags(),
                    help@ == "help"@,
                    version@ == "version"@,
                    json_name@ == "json"@,
                    tv[i as int] == t@,
                    is_short(t@),
                    !is_escape(t@),
                    !is_long(t@),
                    find_name(group_names(g), t@, 0) is None,
                    group_scan(g, tv, i as int, json, gl0) == group_scan(
                        g,
                        tv,
                        start as int,
                        false,
                        no_globals(),
                    ),
                    group_cluster(g, cluster, 0, gl0) == group_cluster(
                        g,
                        cluster,
                        j - 1,
                        gseq(gl),
                    ),
                decreases n - j,
            {
                let c = t[j];
                assert(cluster[j - 1] == c);
                if c == 'h' {
                    return Scanned::Stop(CliError::DisplayHelp);
                }
                if g == Group::Top && c == 'V' {
                    return Scanned::Stop(CliError::DisplayVersion);
                }
                if c == 'q' {
                    if gl.0 {
                        return Scanned::Stop(CliError::Usage);
                    }
                    gl = set_global(gl, 0);
                    j = j + 1;
                } else {
                    return Scanned::Stop(CliError::Usage);
                }
            }
            assert(group_cluster(g, cluster, 0, gl0) == Ok::<Seq<bool>, CliError>(gseq(gl)));
            i = i + 1;
            continue;
        }
        return Scanned::Stop(CliError::Usage);
    }
    Scanned::End(json, gl)
}

/// Whether the tokens from `start` on name a path of subcommands below `g`.
fn help_path_ok(g: Group, toks: &Vec<Vec<char>>, start: usize) -> (b: bool)
    requires
        start <= toks@.len(),
    ensures
        b == help_path(Node::Branch(g), seq_views(toks@), start as int),
{
    let ghost tv = seq_views(toks@);
    let mut current: Option<Group> = Some(g);
    let mut i = start;
    while i < toks.len()
        invariant
            start <= i <= toks@.len(),
            tv == seq_views(toks@),
            help_path(
                match current {
                    Some(h) => Node::Branch(h),
                    None => Node::Leaf,
                },
                tv,
                i as int,
            ) == help_path(Node::Branch(g), tv, start as int),
        decreases toks@.len() - i,
    {
        assert(tv[i as int] == toks@[i as int]@);
        match current {
            None => {
                return false;
            },
            Some(h) => {
                let names = group_names_of(h);
                match find_in(&names, &toks[i]) {
                    None => {
                        return false;
                    },
                    Some(k) => {
                        current = if h == Group::Top && k == 4 {
                            Some(Group::Profile)
                        } else if h == Group::Top && k == 10 {
                            Some(Group::Secret)
                        } else {
                            None
                        };
                    },
                }
            },
        }
        i = i + 1;
    }
    true
}

fn opt_string_of(o: &Option<Vec<char>>) -> (r: Option<String>)
    ensures
        opt_string(r) == opt_view(*o),
{
    match o {
        Some(v) => Some(string_of(v)),
        None => None,
    }
}

fn strings_of(v: &Vec<Vec<char>>) -> (r: Vec<String>)
    ensures
        string_views(r@) == seq_views(v@),
{
    let mut r: Vec<String> = Vec::new();
    for i in 0..v.len()
        invariant
            string_views(r@) == seq_views(v@).take(i as int),
    {
        let ghost before = r@;
        let s = string_of(&v[i]);
        r.push(s);
        assert(r@ == before.push(s));
        assert(seq_views(v@).take(i + 1) =~= seq_views(v@).take(i as int).push(v@[i as int]@));
        assert(string_views(r@) =~= string_views(before).push(s@));
    }
    assert(seq_views(v@).take(v@.len() as int) =~= seq_views(v@));
    r
}

/// The command `kind` with the arguments `p`.
fn build_command(kind: CommandKind, p: &Parsed) -> (c: Command)
    requires
        p.fits(leaf_grammar(kind)),
        kind != CommandKind::Profile,
        kind != CommandKind::ProfileList,
        kind != CommandKind::ProfileCreate,
        kind != CommandKind::ProfileDelete,
    ensures
        c.model() == (CommandModel { kind, matches: own_matches(kind, p.matches()) }),
{
    let ghost m = p.matches();
    let c = match kind {
        CommandKind::Link => Command::Link(
            LinkArgs {
                repo: string_of(&p.pos[0]),
                skip_encrypted: p.flags[0],
                ask_password: p.flags[1],
            },
        ),
        CommandKind::Backup => Command::Backup(
            BackupArgs {
                profile: opt_string_of(&p.values[0]),
                skip_encrypted: p.flags[0],
                ask_password: p.flags[1],
                dry_run: p.flags[2],
            },
        ),
        CommandKind::Restore => Command::Restore(
            RestoreArgs { skip_encrypted: p.flags[0], ask_password: p.flags[1], dry_run: p.flags[2] },
        ),
        CommandKind::Use => Command::Use(UseArgs { profile: string_of(&p.pos[0]) }),
        CommandKind::Git => Command::Git(GitArgs { args: strings_of(&p.pos) }),
        CommandKind::Status => Command::Status(PassthroughArgs { args: strings_of(&p.pos) }),
        CommandKind::Diff => Command::Diff(PassthroughArgs { args: strings_of(&p.pos) }),
        CommandKind::Sync => Command::Sync(
            SyncArgs { message: opt_string_of(&p.values[0]), dry_run: p.flags[0] },
        ),
        CommandKind::Doctor => Command::Doctor(
            DoctorArgs {
                skip_encrypted: p.flags[0],
                ask_password: p.flags[1],
                fix: p.flags[2],
                include_disabled: p.flags[3],
                json: p.flags[4],
            },
        ),
        CommandKind::SecretSet => Command::Secret { action: SecretActions::SetPassword },
        CommandKind::SecretDelete => Command::Secret { action: SecretActions::Delete },
        CommandKind::Prune => Command::Prune,
        CommandKind::Man => Command::Man,
        CommandKind::Completions => {
            let name = &p.pos[0];
            assert(shell_names().contains(name@));
            let shell = if chars_eq(name, &chars_of("bash")) {
                Shell::Bash
            } else if chars_eq(name, &chars_of("elvish")) {
                Shell::Elvish
            } else if chars_eq(name, &chars_of("fish")) {
                Shell::Fish
            } else if chars_eq(name, &chars_of("powershell")) {
                Shell::PowerShell
            } else {
                assert(name@ == "zsh"@);
                Shell::Zsh
            };
            Command::Completions(CompletionsArgs { shell })
        },
        _ => {
            let name = &p.pos[0];
            assert(registry_names().contains(name@));
            let registry = if chars_eq(name, &chars_of("config")) {
                RegistryChoice::Config
            } else if chars_eq(name, &chars_of("package")) {
                RegistryChoice::Package
            } else if chars_eq(name, &chars_of("encrypted")) {
                RegistryChoice::Encrypted
            } else {
                assert(name@ == "profiles"@);
                RegistryChoice::Profiles
            };
            Command::Edit(EditArgs { registry, editor: opt_string_of(&p.values[0]) })
        },
    };
    assert(c.model().matches =~= own_matches(kind, m));
    c
}

/// The global flags given to a command `kind` parsed as `p`.
fn leaf_globals_of(kind: CommandKind, p: &Parsed) -> (gl: (bool, bool, bool))
    requires
        p.fits(leaf_grammar(kind)),
    ensures
        gseq(gl) == leaf_globals(kind, p.matches()),
{
    let n = p.flags.len();
    let gl = (p.flags[n - 3], p.flags[n - 2], p.flags[n - 1]);
    assert(gseq(gl) =~= leaf_globals(kind, p.matches()));
    gl
}

/// The global flags given in `a` or in `b`.
fn merged(a: (bool, bool, bool), b: (bool, bool, bool)) -> (r: (bool, bool, bool))
    ensures
        gseq(r) == merge_globals(gseq(a), gseq(b)),
{
    let r = (a.0 || b.0, a.1 || b.1, a.2 || b.2);
    assert(gseq(r) =~= merge_globals(gseq(a), gseq(b)));
    r
}

/// A command line with the command `command` and the global flags `gl`.
fn cli_of(command: Option<Command>, gl: (bool, bool, bool)) -> (cli: Cli)
    ensures
        cli.command == command,
        cli.model().1 == gseq(gl),
{
    let cli = Cli { command, quiet: gl.0, verbose: gl.1, no_input: gl.2 };
    assert(cli.model().1 =~= gseq(gl));
    cli
}

/// The `profile` action `kind` with the arguments `p`, `--json` holding when
/// `json` (given to `profile` itself) or when given to the action.
fn build_profile(kind: CommandKind, p: &Parsed, json: bool) -> (c: Command)
    requires
        p.fits(leaf_grammar(kind)),
        kind == CommandKind::ProfileList || kind == CommandKind::ProfileCreate || kind
            == CommandKind::ProfileDelete,
    ensures
        c.model() == (CommandModel {
            kind,
            matches: LeafMatches { flags: seq![p.matches().flags[0] || json], ..p.matches() },
        }),
{
    let ghost m = p.matches();
    let json = p.flags[0] || json;
    let action = match kind {
        CommandKind::ProfileList => ProfileActions::List,
        CommandKind::ProfileCreate => ProfileActions::Create {
            name: string_of(&p.pos[0]),
            description: opt_string_of(&p.values[0]),
        },
        _ => ProfileActions::Delete { name: string_of(&p.pos[0]) },
    };
    let c = Command::Profile(ProfileArgs { action: Some(action), json });
    assert(c.model().matches =~= LeafMatches { flags: seq![m.flags[0] || json], ..m });
    c
}

/// Whether a parse result is the outcome that the grammar gives: the same
/// command, or the same ending.
pub open spec fn outcome_is(
    r: Result<Cli, CliError>,
    s: Result<(Option<CommandModel>, Seq<bool>), CliError>,
) -> bool {
    match (r, s) {
        (Ok(cli), Ok(m)) => cli.model() == m,
        (Err(e1), Err(e2)) => e1 == e2,
        _ => false,
    }
}

/// Read the leaf command `kind` from token `start` on.
fn parse_leaf_command(
    kind: CommandKind,
    toks: &Vec<Vec<char>>,
    start: usize,
    gl: (bool, bool, bool),
) -> (r: Result<Cli, CliError>)
    requires
        start <= toks@.len(),
        kind != CommandKind::Profile,
        kind != CommandKind::ProfileList,
        kind != CommandKind::ProfileCreate,
        kind != CommandKind::ProfileDelete,
    ensures
        outcome_is(r, leaf_command(kind, seq_views(toks@), start as int, gseq(gl))),
{
    let d = leaf_desc(kind);
    match parse_leaf(&d, toks, start) {
        Ok(p) => {
            let c = build_command(kind, &p);
            let all = merged(gl, leaf_globals_of(kind, &p));
            Ok(cli_of(Some(c), all))
        },
        Err(e) => Err(e),
    }
}

impl Cli {
    /// Parse a command line; `args[0]` is the program name. The result is
    /// the command the arguments name (none when they name none), or how
    /// the parse ends without one: a request for the help text or the
    /// version, or a usage error.
    pub fn try_parse_from(args: &[&str]) -> (r: Result<Cli, CliError>)
        ensures
            outcome_is(r, parse_tokens(tokens_of(args@))),
    {
        let mut toks: Vec<Vec<char>> = Vec::new();
        let mut i: usize = 1;
        while i < args.len()
            invariant
                1 <= i,
                args@.len() > 0 ==> i <= args@.len(),
                args@.len() > 0 ==> seq_views(toks@) == tokens_of(args@).take(i - 1),
                args@.len() == 0 ==> toks@.len() == 0,
            decreases args@.len() - i,
        {
            toks.push(chars_of(args[i]));
            assert(seq_views(toks@) =~= tokens_of(args@).take(i as int));
            i = i + 1;
        }
        proof {
            if args@.len() > 0 {
                assert(tokens_of(args@).take(args@.len() - 1) =~= tokens_of(args@));
            } else {
                assert(seq_views(toks@) =~= tokens_of(args@));
            }
        }
        let ghost tv = seq_views(toks@);
        match scan_group(Group::Top, &toks, 0) {
            Scanned::Stop(e) => Err(e),
            Scanned::End(_, gl) => Ok(cli_of(None, gl)),
            Scanned::Sub(k, at, _, gl) => {
                if k == 15 {
                    if help_path_ok(Group::Top, &toks, at + 1) {
                        Err(CliError::DisplayHelp)
                    } else {
                        Err(CliError::Usage)
                    }
                } else if k == 4 {
                    parse_profile(&toks, at + 1, gl)
                } else if k == 10 {
                    parse_secret(&toks, at + 1, gl)
                } else {
                    let kind = if k == 0 {
                        CommandKind::Link
                    } else if k == 1 {
                        CommandKind::Backup
                    } else if k == 2 {
                        CommandKind::Restore
                    } else if k == 3 {
                        CommandKind::Use
                    } else if k == 5 {
                        CommandKind::Git
                    } else if k == 6 {
                        CommandKind::Status
                    } else if k == 7 {
                        CommandKind::Diff
                    } else if k == 8 {
                        CommandKind::Sync
                    } else if k == 9 {
                        CommandKind::Doctor
                    } else if k == 11 {
                        CommandKind::Prune
                    } else if k == 12 {
                        CommandKind::Edit
                    } else if k == 13 {
                        CommandKind::Completions
                    } else {
                        CommandKind::Man
                    };
                    parse_leaf_command(kind, &toks, at + 1, gl)
                }
            },
        }
    }
}

/// Read `dfm profile` from token `start` on, after the global flags `gl`.
fn parse_profile(toks: &Vec<Vec<char>>, start: usize, gl: (bool, bool, bool)) -> (r: Result<
    Cli,
    CliError,
>)
    requires
        start <= toks@.len(),
    ensures
        outcome_is(r, profile_command(seq_views(toks@), start as int, gseq(gl))),
{
    match scan_group(Group::Profile, toks, start) {
        Scanned::Stop(e) => Err(e),
        Scanned::End(json, here) => {
            let c = Command::Profile(ProfileArgs { action: None, json });
            assert(c.model().matches =~= LeafMatches {
                flags: seq![json],
                values: seq![],
                pos: seq![],
            });
            Ok(cli_of(Some(c), merged(gl, here)))
        },
        Scanned::Sub(k, at, json, here) => {
            if k == 3 {
                if help_path_ok(Group::Profile, toks, at + 1) {
                    Err(CliError::DisplayHelp)
                } else {
                    Err(CliError::Usage)
                }
            } else {
                let kind = if k == 0 {
                    CommandKind::ProfileList
                } else if k == 1 {
                    CommandKind::ProfileCreate
                } else {
                    CommandKind::ProfileDelete
                };
                let d = leaf_desc(kind);
                match parse_leaf(&d, toks, at + 1) {
                    Ok(p) => {
                        let c = build_profile(kind, &p, json);
                        let all = merged(merged(gl, here), leaf_globals_of(kind, &p));
                        Ok(cli_of(Some(c), all))
                    },
                    Err(e) => Err(e),
                }
            }
        },
    }
}

/// Read `dfm secret` from token `start` on, after the global flags `gl`.
fn parse_secret(toks: &Vec<Vec<char>>, start: usize, gl: (bool, bool, bool)) -> (r: Result<
    Cli,
    CliError,
>)
    requires
        start <= toks@.len(),
    ensures
        outcome_is(r, secret_command(seq_views(toks@), start as int, gseq(gl))),
{
    match scan_group(Group::Secret, toks, start) {
        Scanned::Stop(e) => Err(e),
        Scanned::End(_, _) => Err(CliError::Usage),
        Scanned::Sub(k, at, _, here) => {
            if k == 2 {
                if help_path_ok(Group::Secret, toks, at + 1) {
                    Err(CliError::DisplayHelp)
                } else {
                    Err(CliError::Usage)
                }
            } else {
                let kind = if k == 0 {
                    CommandKind::SecretSet
                } else {
                    CommandKind::SecretDelete
                };
                parse_leaf_command(kind, toks, at + 1, merged(gl, here))
            }
        },
    }
}

// ---------------------------------------------------------------------------
// Laws of the grammar
// ---------------------------------------------------------------------------

proof fn lemma_find_name_absent(names: Seq<Seq<char>>, name: Seq<char>, k: int)
    requires
        0 <= k,
        !names.contains(name),
    ensures
        find_name(names, name, k) is None,
    decreases names.len() - k,
{
    if k < names.len() {
        assert(names[k] != name);
        lemma_find_name_absent(names, name, k + 1);
    }
}

proof fn lemma_top_names_start_with_letters()
    ensures
        forall|k: int|
            0 <= k < group_names(Group::Top).len() ==> #[trigger] group_names(Group::Top)[k].len() > 0
                && group_names(Group::Top)[k][0] != '-',
{
    reveal_strlit("link");
    reveal_strlit("backup");
    reveal_strlit("restore");
    reveal_strlit("use");
    reveal_strlit("profile");
    reveal_strlit("git");
    reveal_strlit("status");
    reveal_strlit("diff");
    reveal_strlit("sync");
    reveal_strlit("doctor");
    reveal_strlit("secret");
    reveal_strlit("prune");
    reveal_strlit("edit");
    reveal_strlit("completions");
    reveal_strlit("man");
    reveal_strlit("help");
}

/// With no arguments after the program name, no command is named.
pub proof fn law_no_arguments_name_no_command()
    ensures
        parse_tokens(Seq::empty()) == Ok::<(Option<CommandModel>, Seq<bool>), CliError>(
            (None, no_globals()),
        ),
{
}

/// A first argument that is neither a subcommand name nor starts with `-`
/// is a usage error, whatever follows it.
pub proof fn law_unknown_subcommand_is_usage_error(toks: Seq<Seq<char>>)
    requires
        toks.len() > 0,
        !group_names(Group::Top).contains(toks[0]),
        toks[0].len() == 0 || toks[0][0] != '-',
    ensures
        parse_tokens(toks) == Err::<(Option<CommandModel>, Seq<bool>), CliError>(CliError::Usage),
{
    lemma_find_name_absent(group_names(Group::Top), toks[0], 0);
}

/// `-h` as the first argument asks for the help text, whatever follows it.
pub proof fn law_short_help_first_asks_for_help(rest: Seq<Seq<char>>)
    ensures
        parse_tokens(seq![seq!['-', 'h']] + rest) == Err::<
            (Option<CommandModel>, Seq<bool>),
            CliError,
        >(CliError::DisplayHelp),
{
    let toks = seq![seq!['-', 'h']] + rest;
    assert(toks[0] == seq!['-', 'h']);
    lemma_top_names_start_with_letters();
    assert(!group_names(Group::Top).contains(toks[0])) by {
        if group_names(Group::Top).contains(toks[0]) {
            let k = choose|k: int|
                0 <= k < group_names(Group::Top).len() && group_names(Group::Top)[k] == toks[0];
            assert(group_names(Group::Top)[k][0] != '-');
        }
    }
    lemma_find_name_absent(group_names(Group::Top), toks[0], 0);
}

/// Once trailing values began, every later token is one of them, as it is.
proof fn lemma_trailing_run(g: LeafGrammar, toks: Seq<Seq<char>>, i: int, st: LeafState)
    requires
        0 <= i <= toks.len(),
        st.trailing,
        g.positional is Trailing,
    ensures
        leaf_run(g, toks, i, st) == Ok::<LeafState, CliError>(
            LeafState { pos: st.pos + toks.subrange(i, toks.len() as int), ..st },
        ),
    decreases toks.len() - i,
{
    if i < toks.len() {
        let next = LeafState { pos: st.pos.push(toks[i]), trailing: true, ..st };
        lemma_trailing_run(g, toks, i + 1, next);
        assert(next.pos + toks.subrange(i + 1, toks.len() as int) =~= st.pos + toks.subrange(
            i,
            toks.len() as int,
        ));
    } else {
        assert(st.pos + toks.subrange(i, toks.len() as int) =~= st.pos);
        assert(LeafState { pos: st.pos, ..st } =~= st);
    }
}

/// `dfm git` passes every argument from its first one on to git as it is,
/// arguments that start with `-` included, when the first one does not
/// itself start with `-`.
pub proof fn law_git_passes_arguments_through(first: Seq<char>, rest: Seq<Seq<char>>)
    requires
        first.len() == 0 || first[0] != '-',
    ensures
        parse_tokens(seq!["git"@, first] + rest) == Ok::<
            (Option<CommandModel>, Seq<bool>),
            CliError,
        >(
            (
                Some(
                    CommandModel {
                        kind: CommandKind::Git,
                        matches: LeafMatches {
                            flags: seq![],
                            values: seq![],
                            pos: seq![first] + rest,
                        },
                    },
                ),
                no_globals(),
            ),
        ),
{
    let toks = seq!["git"@, first] + rest;
    assert(toks[0] == "git"@);
    assert(toks[1] == first);
    reveal_strlit("link");
    reveal_strlit("backup");
    reveal_strlit("restore");
    reveal_strlit("use");
    reveal_strlit("profile");
    reveal_strlit("git");
    assert(find_name(group_names(Group::Top), toks[0], 5) == Some(5int));
    assert(find_name(group_names(Group::Top), toks[0], 4) == Some(5int));
    assert(find_name(group_names(Group::Top), toks[0], 3) == Some(5int));
    assert(find_name(group_names(Group::Top), toks[0], 2) == Some(5int));
    assert(find_name(group_names(Group::Top), toks[0], 1) == Some(5int));
    assert(find_name(group_names(Group::Top), toks[0], 0) == Some(5int));
    let g = leaf_grammar(CommandKind::Git);
    let st0 = initial_state(g);
    assert(st0.flags =~= seq![false, false, false]);
    assert(st0.values =~= Seq::<Option<Seq<char>>>::empty());
    let st1 = LeafState { pos: seq![first], trailing: true, ..st0 };
    assert(st0.pos.push(first) =~= seq![first]);
    assert(leaf_step(g, st0, first) == Ok::<LeafState, CliError>(st1));
    lemma_trailing_run(g, toks, 2, st1);
    assert(toks.subrange(2, toks.len() as int) =~= rest);
    assert(seq![first] + toks.subrange(2, toks.len() as int) =~= seq![first] + rest);
    assert(st1.flags.take(0) =~= Seq::<bool>::empty());
    assert(st1.flags.skip(0) =~= st1.flags);
    assert(merge_globals(no_globals(), st1.flags) =~= no_globals());
}

/// `dfm use` without a profile name is a usage error.
pub proof fn law_use_requires_a_profile()
    ensures
        parse_tokens(seq!["use"@]) == Err::<(Option<CommandModel>, Seq<bool>), CliError>(
            CliError::Usage,
        ),
{
    let toks = seq!["use"@];
    reveal_strlit("link");
    reveal_strlit("backup");
    reveal_strlit("restore");
    reveal_strlit("use");
    assert(find_name(group_names(Group::Top), toks[0], 3) == Some(3int));
    assert(find_name(group_names(Group::Top), toks[0], 2) == Some(3int));
    assert(find_name(group_names(Group::Top), toks[0], 1) == Some(3int));
    assert(find_name(group_names(Group::Top), toks[0], 0) == Some(3int));
    let g = leaf_grammar(CommandKind::Use);
    assert(leaf_run(g, toks, 1, initial_state(g)) == Ok::<LeafState, CliError>(initial_state(g)));
}

proof fn lemma_find_name_distinct(names: Seq<Seq<char>>, k: int, j: int)
    requires
        0 <= j <= k < names.len(),
        forall|a: int, b: int| 0 <= a < b < names.len() ==> names[a] != names[b],
    ensures
        find_name(names, names[k], j) == Some(k),
    decreases k - j,
{
    if j < k {
        assert(names[j] != names[k]);
        lemma_find_name_distinct(names, k, j + 1);
    }
}

proof fn lemma_top_names_distinct()
    ensures
        forall|a: int, b: int|
            0 <= a < b < group_names(Group::Top).len() ==> group_names(Group::Top)[a]
                != group_names(Group::Top)[b],
{
    reveal_strlit("link");
    reveal_strlit("backup");
    reveal_strlit("restore");
    reveal_strlit("use");
    reveal_strlit("profile");
    reveal_strlit("git");
    reveal_strlit("status");
    reveal_strlit("diff");
    reveal_strlit("sync");
    reveal_strlit("doctor");
    reveal_strlit("secret");
    reveal_strlit("prune");
    reveal_strlit("edit");
    reveal_strlit("completions");
    reveal_strlit("man");
    reveal_strlit("help");
    let n = group_names(Group::Top);
    assert forall|a: int, b: int| 0 <= a < b < n.len() implies n[a] != n[b] by {
        if n[a] == n[b] {
            assert(n[a].len() == n[b].len());
            assert(n[a][0] == n[b][0]);
            assert(n[a][n[a].len() - 1] == n[b][n[b].len() - 1]);
        }
    }
}

/// `-q` before the name of a command without subcommands sets `--quiet` for
/// the whole command line, whatever the command's own arguments are,
/// whenever they parse.
pub proof fn law_quiet_before_a_command_holds(k: int, rest: Seq<Seq<char>>)
    requires
        0 <= k < group_names(Group::Top).len(),
        k != 4,
        k != 10,
        k != 15,
    ensures
        parse_tokens(seq![seq!['-', 'q'], group_names(Group::Top)[k]] + rest) matches Ok((_, g)) ==> g[0],
{
    let toks = seq![seq!['-', 'q'], group_names(Group::Top)[k]] + rest;
    assert(toks[0] == seq!['-', 'q']);
    assert(toks[1] == group_names(Group::Top)[k]);
    lemma_top_names_start_with_letters();
    assert(!group_names(Group::Top).contains(toks[0])) by {
        if group_names(Group::Top).contains(toks[0]) {
            let a = choose|a: int|
                0 <= a < group_names(Group::Top).len() && group_names(Group::Top)[a] == toks[0];
            assert(group_names(Group::Top)[a][0] != '-');
        }
    }
    lemma_find_name_absent(group_names(Group::Top), toks[0], 0);
    assert(toks[0].skip(1) =~= seq!['q']);
    let q = seq![true, false, false];
    assert(no_globals().update(0, true) =~= q);
    assert(group_cluster(Group::Top, seq!['q'], 1, q) == Ok::<Seq<bool>, CliError>(q));
    assert(group_cluster(Group::Top, toks[0].skip(1), 0, no_globals()) == Ok::<Seq<bool>, CliError>(
        q,
    ));
    lemma_top_names_distinct();
    lemma_find_name_distinct(group_names(Group::Top), k, 0);
    assert(group_scan(Group::Top, toks, 1, false, q) == GroupScan::Sub(k, 1, false, q));
    assert(group_scan(Group::Top, toks, 0, false, no_globals()) == GroupScan::Sub(k, 1, false, q));
}

proof fn lemma_group_names_start_with_letters(g: Group)
    ensures
        forall|k: int|
            0 <= k < group_names(g).len() ==> #[trigger] group_names(g)[k].len() > 0
                && group_names(g)[k][0] != '-',
{
    lemma_top_names_start_with_letters();
    reveal_strlit("list");
    reveal_strlit("create");
    reveal_strlit("delete");
    reveal_strlit("set");
    reveal_strlit("help");
}

proof fn lemma_dash_token_is_no_name(g: Group, t: Seq<char>)
    requires
        t.len() > 0,
        t[0] == '-',
    ensures
        find_name(group_names(g), t, 0) is None,
{
    lemma_group_names_start_with_letters(g);
    assert(!group_names(g).contains(t)) by {
        if group_names(g).contains(t) {
            let a = choose|a: int| 0 <= a < group_names(g).len() && group_names(g)[a] == t;
            assert(group_names(g)[a][0] != '-');
        }
    }
    lemma_find_name_absent(group_names(g), t, 0);
}

proof fn lemma_no_eq_in(s: Seq<char>, i: int)
    requires
        0 <= i <= s.len(),
        forall|j: int| i <= j < s.len() ==> s[j] != '=',
    ensures
        eq_pos(s, i) == s.len(),
    decreases s.len() - i,
{
    if i < s.len() {
        lemma_no_eq_in(s, i + 1);
    }
}

proof fn lemma_group_long_global(
    g: Group,
    toks: Seq<Seq<char>>,
    i: int,
    json: bool,
    globals: Seq<bool>,
    name: Seq<char>,
    j: int,
)
    requires
        0 <= i < toks.len(),
        toks[i] == seq!['-', '-'] + name,
        name.len() > 0,
        forall|k: int| 0 <= k < name.len() ==> name[k] != '=',
        name != "help"@,
        name != "version"@,
        name != "json"@,
        find_name(global_flags(), name, 0) == Some(j),
        !globals[j],
    ensures
        group_scan(g, toks, i, json, globals) == group_scan(
            g,
            toks,
            i + 1,
            json,
            globals.update(j, true),
        ),
{
    let t = toks[i];
    lemma_dash_token_is_no_name(g, t);
    assert(t.skip(2) =~= name);
    lemma_no_eq_in(name, 0);
    assert(name.take(name.len() as int) =~= name);
    assert(long_name(t) == name);
    assert(long_value(t) is None);
    assert(!is_escape(t)) by {
        assert(t.len() != 2);
    }
}

/// Before any subcommand name, at every level, `-q` and `--quiet` set
/// `quiet`, `--verbose` sets `verbose` and `--no-input` sets `no_input`
/// (entries 0, 1 and 2 of the global flags), once each; then reading goes
/// on with the next argument.
pub proof fn law_group_global_flags(
    g: Group,
    toks: Seq<Seq<char>>,
    i: int,
    json: bool,
    globals: Seq<bool>,
)
    requires
        0 <= i < toks.len(),
        globals.len() == 3,
    ensures
        toks[i] == seq!['-', 'q'] && !globals[0] ==> group_scan(g, toks, i, json, globals)
            == group_scan(g, toks, i + 1, json, globals.update(0, true)),
        toks[i] == seq!['-', '-'] + "quiet"@ && !globals[0] ==> group_scan(g, toks, i, json, globals)
            == group_scan(g, toks, i + 1, json, globals.update(0, true)),
        toks[i] == seq!['-', '-'] + "verbose"@ && !globals[1] ==> group_scan(g, toks, i, json, globals)
            == group_scan(g, toks, i + 1, json, globals.update(1, true)),
        toks[i] == seq!['-', '-'] + "no-input"@ && !globals[2] ==> group_scan(g, toks, i, json, globals)
            == group_scan(g, toks, i + 1, json, globals.update(2, true)),
{
    let t = toks[i];
    reveal_strlit("quiet");
    reveal_strlit("verbose");
    reveal_strlit("no-input");
    reveal_strlit("help");
    reveal_strlit("version");
    reveal_strlit("json");
    if t == seq!['-', 'q'] {
        lemma_dash_token_is_no_name(g, t);
        assert(t.skip(1) =~= seq!['q']);
        assert(group_cluster(g, seq!['q'], 1, globals.update(0, true)) == Ok::<
            Seq<bool>,
            CliError,
        >(globals.update(0, true)));
    }
    assert("quiet"@[0] != "help"@[0] && "quiet"@[0] != "json"@[0]);
    assert("verbose"@[3] != "version"@[3]);
    assert("no-input"@[0] != "help"@[0]);
    assert(forall|k: int| 0 <= k < "quiet"@.len() ==> "quiet"@[k] != '=') by {
        assert forall|k: int| 0 <= k < "quiet"@.len() implies "quiet"@[k] != '=' by {
            if k == 0 {} else if k == 1 {} else if k == 2 {} else if k == 3 {} else {}
        }
    }
    assert(forall|k: int| 0 <= k < "verbose"@.len() ==> "verbose"@[k] != '=') by {
        assert forall|k: int| 0 <= k < "verbose"@.len() implies "verbose"@[k] != '=' by {
            if k == 0 {} else if k == 1 {} else if k == 2 {} else if k == 3 {} else if k == 4 {
            } else if k == 5 {} else {}
        }
    }
    assert(forall|k: int| 0 <= k < "no-input"@.len() ==> "no-input"@[k] != '=') by {
        assert forall|k: int| 0 <= k < "no-input"@.len() implies "no-input"@[k] != '=' by {
            if k == 0 {} else if k == 1 {} else if k == 2 {} else if k == 3 {} else if k == 4 {
            } else if k == 5 {} else if k == 6 {} else {}
        }
    }
    assert(find_name(global_flags(), "quiet"@, 0) == Some(0int));
    assert(find_name(global_flags(), "verbose"@, 1) == Some(1int));
    assert(find_name(global_flags(), "verbose"@, 0) == Some(1int));
    assert(find_name(global_flags(), "no-input"@, 2) == Some(2int));
    assert(find_name(global_flags(), "no-input"@, 1) == Some(2int));
    assert(find_name(global_flags(), "no-input"@, 0) == Some(2int));
    if t == seq!['-', '-'] + "quiet"@ && !globals[0] {
        lemma_group_long_global(g, toks, i, json, globals, "quiet"@, 0);
    }
    if t == seq!['-', '-'] + "verbose"@ && !globals[1] {
        lemma_group_long_global(g, toks, i, json, globals, "verbose"@, 1);
    }
    if t == seq!['-', '-'] + "no-input"@ && !globals[2] {
        lemma_group_long_global(g, toks, i, json, globals, "no-input"@, 2);
    }
}

} // verus!
