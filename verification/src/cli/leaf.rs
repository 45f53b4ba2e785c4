//! The arguments of a command without subcommands: flags, options that take
//! one value, and positional values, read one token at a time.

use vstd::prelude::*;
use crate::text::{chars_eq, sub_chars};

verus! {

/// How a command-line parse ends when it does not produce a command.
#[derive(Debug, Clone, Copy, PartialEq, Eq, Structural)]
pub enum CliError {
    /// `-h`, `--help` or `help` asked for the help text.
    DisplayHelp,
    /// `-V` or `--version` asked for the version.
    DisplayVersion,
    /// The arguments do not fit the grammar.
    Usage,
}

/// What a command takes as positional values.
pub enum PositionalGrammar {
    /// No positional value.
    Nothing,
    /// Exactly one value, of any text.
    One,
    /// Exactly one value, out of these.
    OneOf(Seq<Seq<char>>),
    /// The rest of the command line, values starting with `-` included;
    /// `true` when at least one value is required.
    Trailing(bool),
}

/// The grammar of a command without subcommands. Options take one value
/// each and have a long name and any number of one-letter short names.
pub struct LeafGrammar {
    /// Long names of the flags, none of which takes a value.
    pub flags: Seq<Seq<char>>,
    /// The one-letter short names of each flag, in the order of `flags`.
    pub flag_shorts: Seq<Seq<char>>,
    /// Long name and short names of each option.
    pub options: Seq<(Seq<char>, Seq<char>)>,
    /// What the command takes as positional values.
    pub positional: PositionalGrammar,
}

/// What has been read of a command's arguments so far.
#[verifier::ext_equal]
pub struct LeafState {
    /// Whether each flag was given.
    pub flags: Seq<bool>,
    /// The value given to each option, if any.
    pub values: Seq<Option<Seq<char>>>,
    /// The positional values, in order.
    pub pos: Seq<Seq<char>>,
    /// The option whose value is the next token, if any.
    pub pending: Option<int>,
    /// Whether `--` was read: every later token is a positional value.
    pub escaped: bool,
    /// Whether trailing values began: every later token is taken as it is.
    pub trailing: bool,
}

/// What was given for a command: its flags, option values and positional
/// values, in the order of its grammar.
#[verifier::ext_equal]
pub struct LeafMatches {
    /// Whether each flag was given.
    pub flags: Seq<bool>,
    /// The value given to each option, if any.
    pub values: Seq<Option<Seq<char>>>,
    /// The positional values, in order.
    pub pos: Seq<Seq<char>>,
}

/// Whether `pos` can be the positional values of a command of grammar `g`
/// so far: none when it takes none, at most one (out of the allowed ones)
/// when it takes one.
pub open spec fn positionals_fit(g: LeafGrammar, pos: Seq<Seq<char>>) -> bool {
    match g.positional {
        PositionalGrammar::Nothing => pos.len() == 0,
        PositionalGrammar::One => pos.len() <= 1,
        PositionalGrammar::OneOf(allowed) => pos.len() <= 1 && (pos.len() == 1 ==> allowed.contains(
            pos[0],
        )),
        PositionalGrammar::Trailing(_) => true,
    }
}

/// Nothing read yet.
pub open spec fn initial_state(g: LeafGrammar) -> LeafState {
    LeafState {
        flags: Seq::new(g.flags.len(), |i: int| false),
        values: Seq::new(g.options.len(), |i: int| None),
        pos: Seq::empty(),
        pending: None,
        escaped: false,
        trailing: false,
    }
}

/// `--`, after which every token is a positional value.
pub open spec fn is_escape(t: Seq<char>) -> bool {
    t == seq!['-', '-']
}

/// A long argument: `--` followed by a name, and `=value` optionally.
pub open spec fn is_long(t: Seq<char>) -> bool {
    t.len() > 2 && t[0] == '-' && t[1] == '-'
}

/// A cluster of short arguments: `-` followed by at least one character that
/// is not `-`.
pub open spec fn is_short(t: Seq<char>) -> bool {
    t.len() >= 2 && t[0] == '-' && t[1] != '-'
}

/// The index of the first `=` in `s` at or after `i`, or the length of `s`.
pub open spec fn eq_pos(s: Seq<char>, i: int) -> int
    recommends
        0 <= i <= s.len(),
    decreases s.len() - i,
{
    if i >= s.len() {
        s.len() as int
    } else if s[i] == '=' {
        i
    } else {
        eq_pos(s, i + 1)
    }
}

/// The name of a long argument: what follows `--`, up to the first `=`.
pub open spec fn long_name(t: Seq<char>) -> Seq<char> {
    let body = t.skip(2);
    body.take(eq_pos(body, 0))
}

/// The value attached to a long argument after its first `=`, if any.
pub open spec fn long_value(t: Seq<char>) -> Option<Seq<char>> {
    let body = t.skip(2);
    let e = eq_pos(body, 0);
    if e < body.len() {
        Some(body.skip(e + 1))
    } else {
        None
    }
}

/// The first index at or after `k` whose name is `name`, if any.
pub open spec fn find_name(names: Seq<Seq<char>>, name: Seq<char>, k: int) -> Option<int>
    decreases names.len() - k,
{
    if k < 0 || k >= names.len() {
        None
    } else if names[k] == name {
        Some(k)
    } else {
        find_name(names, name, k + 1)
    }
}

/// The long names of the options.
pub open spec fn option_longs(g: LeafGrammar) -> Seq<Seq<char>> {
    g.options.map_values(|o: (Seq<char>, Seq<char>)| o.0)
}

/// The first option at or after `k` with `c` among its short names, if any.
pub open spec fn find_short(options: Seq<(Seq<char>, Seq<char>)>, c: char, k: int) -> Option<int>
    decreases options.len() - k,
{
    if k < 0 || k >= options.len() {
        None
    } else if options[k].1.contains(c) {
        Some(k)
    } else {
        find_short(options, c, k + 1)
    }
}

/// The first flag at or after `k` with `c` among its short names, if any.
pub open spec fn find_flag_short(g: LeafGrammar, c: char, k: int) -> Option<int>
    decreases g.flags.len() - k,
{
    if k < 0 || k >= g.flags.len() || k >= g.flag_shorts.len() {
        None
    } else if g.flag_shorts[k].contains(c) {
        Some(k)
    } else {
        find_flag_short(g, c, k + 1)
    }
}

/// Whether `c` is a short name that the command knows: `h` for help, or the
/// short name of one of its flags or options.
pub open spec fn known_short(g: LeafGrammar, c: char) -> bool {
    c == 'h' || find_flag_short(g, c, 0) is Some || find_short(g.options, c, 0) is Some
}

/// Whether the command takes trailing values that may start with `-`, and
/// none has been read yet: then an unknown `-...` token is such a value.
pub open spec fn hyphen_value_expected(g: LeafGrammar, st: LeafState) -> bool {
    g.positional is Trailing && st.pos.len() == 0
}

/// Read `t` as a positional value.
pub open spec fn add_positional(g: LeafGrammar, st: LeafState, t: Seq<char>) -> Result<
    LeafState,
    CliError,
> {
    match g.positional {
        PositionalGrammar::Nothing => Err(CliError::Usage),
        PositionalGrammar::One => if st.pos.len() >= 1 {
            Err(CliError::Usage)
        } else {
            Ok(LeafState { pos: st.pos.push(t), ..st })
        },
        PositionalGrammar::OneOf(allowed) => if st.pos.len() >= 1 || !allowed.contains(t) {
            Err(CliError::Usage)
        } else {
            Ok(LeafState { pos: st.pos.push(t), ..st })
        },
        PositionalGrammar::Trailing(_) => Ok(LeafState { pos: st.pos.push(t), trailing: true, ..st }),
    }
}

/// Give option `k` the value `v`.
pub open spec fn set_value(st: LeafState, k: int, v: Seq<char>) -> LeafState {
    LeafState { values: st.values.update(k, Some(v)), pending: None, ..st }
}

/// Read one long argument.
pub open spec fn read_long(g: LeafGrammar, st: LeafState, t: Seq<char>) -> Result<
    LeafState,
    CliError,
> {
    let name = long_name(t);
    let value = long_value(t);
    if name == "help"@ {
        if value is Some {
            Err(CliError::Usage)
        } else {
            Err(CliError::DisplayHelp)
        }
    } else if let Some(k) = find_name(g.flags, name, 0) {
        if value is Some || st.flags[k] {
            Err(CliError::Usage)
        } else {
            Ok(LeafState { flags: st.flags.update(k, true), ..st })
        }
    } else if let Some(k) = find_name(option_longs(g), name, 0) {
        if st.values[k] is Some {
            Err(CliError::Usage)
        } else {
            match value {
                Some(v) => Ok(set_value(st, k, v)),
                None => Ok(LeafState { pending: Some(k), ..st }),
            }
        }
    } else if hyphen_value_expected(g, st) {
        add_positional(g, st, t)
    } else {
        Err(CliError::Usage)
    }
}

/// Read the short arguments of `cluster` from position `j` on: `h` asks for
/// help; a flag's short name sets that flag (once only) and reading goes on;
/// an option's short name takes the rest of the cluster, after an optional
/// `=`, as its value, or the next token when nothing is left; any other
/// character is a usage error.
pub open spec fn read_cluster(g: LeafGrammar, st: LeafState, cluster: Seq<char>, j: int) -> Result<
    LeafState,
    CliError,
>
    decreases cluster.len() - j,
{
    if j < 0 || j >= cluster.len() {
        Ok(st)
    } else if cluster[j] == 'h' {
        Err(CliError::DisplayHelp)
    } else if let Some(k) = find_flag_short(g, cluster[j], 0) {
        if st.flags[k] {
            Err(CliError::Usage)
        } else {
            read_cluster(g, LeafState { flags: st.flags.update(k, true), ..st }, cluster, j + 1)
        }
    } else if let Some(k) = find_short(g.options, cluster[j], 0) {
        if st.values[k] is Some {
            Err(CliError::Usage)
        } else {
            let rest = cluster.skip(j + 1);
            if rest.len() == 0 {
                Ok(LeafState { pending: Some(k), ..st })
            } else if rest[0] == '=' {
                Ok(set_value(st, k, rest.skip(1)))
            } else {
                Ok(set_value(st, k, rest))
            }
        }
    } else {
        Err(CliError::Usage)
    }
}

/// Read one cluster of short arguments.
pub open spec fn read_short(g: LeafGrammar, st: LeafState, t: Seq<char>) -> Result<
    LeafState,
    CliError,
> {
    let cluster = t.skip(1);
    if hyphen_value_expected(g, st) && exists|j: int|
        0 <= j < cluster.len() && !known_short(g, #[trigger] cluster[j]) {
        add_positional(g, st, t)
    } else {
        read_cluster(g, st, cluster, 0)
    }
}

/// Read one token.
pub open spec fn leaf_step(g: LeafGrammar, st: LeafState, t: Seq<char>) -> Result<
    LeafState,
    CliError,
> {
    if st.trailing || st.escaped {
        add_positional(g, st, t)
    } else if let Some(k) = st.pending {
        if is_escape(t) || is_long(t) || is_short(t) {
            Err(CliError::Usage)
        } else {
            Ok(set_value(st, k, t))
        }
    } else if is_escape(t) {
        Ok(LeafState { escaped: true, ..st })
    } else if is_long(t) {
        read_long(g, st, t)
    } else if is_short(t) {
        read_short(g, st, t)
    } else {
        add_positional(g, st, t)
    }
}

/// Read the tokens from `i` on, starting from `st`; the first token that
/// ends the parse decides how.
pub open spec fn leaf_run(g: LeafGrammar, toks: Seq<Seq<char>>, i: int, st: LeafState) -> Result<
    LeafState,
    CliError,
>
    decreases toks.len() - i,
{
    if i < 0 || i >= toks.len() {
        Ok(st)
    } else {
        match leaf_step(g, st, toks[i]) {
            Err(e) => Err(e),
            Ok(next) => leaf_run(g, toks, i + 1, next),
        }
    }
}

/// Check what was read once the tokens are over: no option may still wait
/// for its value, and required positional values must be there.
pub open spec fn leaf_finish(g: LeafGrammar, st: LeafState) -> Result<LeafMatches, CliError> {
    if st.pending is Some {
        Err(CliError::Usage)
    } else if st.pos.len() == 0 && match g.positional {
        PositionalGrammar::Nothing => false,
        PositionalGrammar::One => true,
        PositionalGrammar::OneOf(_) => true,
        PositionalGrammar::Trailing(required) => required,
    } {
        Err(CliError::Usage)
    } else {
        Ok(LeafMatches { flags: st.flags, values: st.values, pos: st.pos })
    }
}

/// What the tokens of `toks` from `start` on give for a command of grammar
/// `g`.
pub open spec fn leaf_parse_from(g: LeafGrammar, toks: Seq<Seq<char>>, start: int) -> Result<
    LeafMatches,
    CliError,
> {
    match leaf_run(g, toks, start, initial_state(g)) {
        Err(e) => Err(e),
        Ok(st) => leaf_finish(g, st),
    }
}

// ---------------------------------------------------------------------------
// Reading the tokens
// ---------------------------------------------------------------------------

/// The views of a list of character lists.
pub open spec fn seq_views(v: Seq<Vec<char>>) -> Seq<Seq<char>> {
    v.map_values(|x: Vec<char>| x@)
}

/// The view of an optional character list.
pub open spec fn opt_view(o: Option<Vec<char>>) -> Option<Seq<char>> {
    match o {
        Some(v) => Some(v@),
        None => None,
    }
}

/// What a command takes as positional values.
pub enum Positional {
    /// No positional value.
    Nothing,
    /// Exactly one value, of any text.
    One,
    /// Exactly one value, out of these.
    OneOf(Vec<Vec<char>>),
    /// The rest of the command line; `true` when at least one value is
    /// required.
    Trailing(bool),
}

/// The grammar of a command without subcommands.
pub struct LeafDesc {
    /// Long names of the flags.
    pub flags: Vec<Vec<char>>,
    /// The one-letter short names of each flag.
    pub flag_shorts: Vec<Vec<char>>,
    /// Long name and short names of each option.
    pub options: Vec<(Vec<char>, Vec<char>)>,
    /// What the command takes as positional values.
    pub positional: Positional,
}

impl LeafDesc {
    /// The grammar this description stands for.
    pub open spec fn grammar(&self) -> LeafGrammar {
        LeafGrammar {
            flags: seq_views(self.flags@),
            flag_shorts: seq_views(self.flag_shorts@),
            options: self.options@.map_values(|o: (Vec<char>, Vec<char>)| (o.0@, o.1@)),
            positional: match self.positional {
                Positional::Nothing => PositionalGrammar::Nothing,
                Positional::One => PositionalGrammar::One,
                Positional::OneOf(allowed) => PositionalGrammar::OneOf(seq_views(allowed@)),
                Positional::Trailing(required) => PositionalGrammar::Trailing(required),
            },
        }
    }
}

/// What was given for a command, in the order of its grammar.
pub struct Parsed {
    /// Whether each flag was given.
    pub flags: Vec<bool>,
    /// The value given to each option, if any.
    pub values: Vec<Option<Vec<char>>>,
    /// The positional values, in order.
    pub pos: Vec<Vec<char>>,
}

impl Parsed {
    /// Whether this has the shape that grammar `g` gives: one entry per flag
    /// and per option, and positional values as the grammar takes them.
    pub open spec fn fits(&self, g: LeafGrammar) -> bool {
        &&& self.flags@.len() == g.flags.len()
        &&& self.values@.len() == g.options.len()
        &&& positionals_fit(g, seq_views(self.pos@))
        &&& (g.positional is One || g.positional is OneOf ==> self.pos@.len() == 1)
    }

    /// The matches this stands for.
    pub open spec fn matches(&self) -> LeafMatches {
        LeafMatches {
            flags: self.flags@,
            values: self.values@.map_values(|o: Option<Vec<char>>| opt_view(o)),
            pos: seq_views(self.pos@),
        }
    }
}

/// What has been read so far.
struct Scan {
    flags: Vec<bool>,
    values: Vec<Option<Vec<char>>>,
    pos: Vec<Vec<char>>,
    pending: Option<usize>,
    escaped: bool,
    trailing: bool,
}

impl Scan {
    spec fn state(&self) -> LeafState {
        LeafState {
            flags: self.flags@,
            values: self.values@.map_values(|o: Option<Vec<char>>| opt_view(o)),
            pos: seq_views(self.pos@),
            pending: match self.pending {
                Some(k) => Some(k as int),
                None => None,
            },
            escaped: self.escaped,
            trailing: self.trailing,
        }
    }

    spec fn fits(&self, g: LeafGrammar) -> bool {
        &&& self.flags@.len() == g.flags.len()
        &&& self.values@.len() == g.options.len()
        &&& (self.pending matches Some(k) ==> k < g.options.len())
        &&& positionals_fit(g, seq_views(self.pos@))
    }
}

proof fn lemma_find_name(names: Seq<Seq<char>>, name: Seq<char>, k: int)
    requires
        0 <= k,
    ensures
        find_name(names, name, k) matches Some(j) ==> k <= j < names.len() && names[j] == name,
    decreases names.len() - k,
{
    if k < names.len() && names[k] != name {
        lemma_find_name(names, name, k + 1);
    }
}

proof fn lemma_find_short(options: Seq<(Seq<char>, Seq<char>)>, c: char, k: int)
    requires
        0 <= k,
    ensures
        find_short(options, c, k) matches Some(j) ==> k <= j < options.len() && options[j].1.contains(c),
        find_short(options, c, k) is None ==> forall|j: int| k <= j < options.len() ==> !options[j].1.contains(c),
    decreases options.len() - k,
{
    if k < options.len() && !options[k].1.contains(c) {
        lemma_find_short(options, c, k + 1);
    }
}

/// The first flag named `name`.
fn find_flag(d: &LeafDesc, name: &Vec<char>) -> (r: Option<usize>)
    ensures
        r matches Some(k) ==> find_name(d.grammar().flags, name@, 0) == Some(k as int),
        r is None ==> find_name(d.grammar().flags, name@, 0) is None,
{
    let ghost names = d.grammar().flags;
    let mut k: usize = 0;
    while k < d.flags.len()
        invariant
            k <= d.flags@.len() == names.len(),
            names == d.grammar().flags,
            find_name(names, name@, k as int) == find_name(names, name@, 0),
        decreases d.flags@.len() - k,
    {
        if chars_eq(&d.flags[k], name) {
            return Some(k);
        }
        k = k + 1;
    }
    None
}

/// The first option whose long name is `name`.
fn find_option(d: &LeafDesc, name: &Vec<char>) -> (r: Option<usize>)
    ensures
        r matches Some(k) ==> find_name(option_longs(d.grammar()), name@, 0) == Some(k as int),
        r is None ==> find_name(option_longs(d.grammar()), name@, 0) is None,
{
    let ghost names = option_longs(d.grammar());
    let mut k: usize = 0;
    while k < d.options.len()
        invariant
            k <= d.options@.len() == names.len(),
            names == option_longs(d.grammar()),
            find_name(names, name@, k as int) == find_name(names, name@, 0),
        decreases d.options@.len() - k,
    {
        if chars_eq(&d.options[k].0, name) {
            return Some(k);
        }
        k = k + 1;
    }
    None
}

fn chars_contain(v: &Vec<char>, c: char) -> (b: bool)
    ensures
        b == v@.contains(c),
{
    for i in 0..v.len()
        invariant
            forall|j: int| 0 <= j < i ==> v@[j] != c,
    {
        if v[i] == c {
            return true;
        }
    }
    false
}

/// The first option with `c` among its short names.
fn find_short_option(d: &LeafDesc, c: char) -> (r: Option<usize>)
    ensures
        r matches Some(k) ==> find_short(d.grammar().options, c, 0) == Some(k as int),
        r is None ==> find_short(d.grammar().options, c, 0) is None,
{
    let ghost opts = d.grammar().options;
    let mut k: usize = 0;
    while k < d.options.len()
        invariant
            k <= d.options@.len() == opts.len(),
            opts == d.grammar().options,
            find_short(opts, c, k as int) == find_short(opts, c, 0),
        decreases d.options@.len() - k,
    {
        if chars_contain(&d.options[k].1, c) {
            return Some(k);
        }
        k = k + 1;
    }
    None
}

proof fn lemma_find_flag_short(g: LeafGrammar, c: char, k: int)
    requires
        0 <= k,
    ensures
        find_flag_short(g, c, k) matches Some(j) ==> k <= j < g.flags.len() && j < g.flag_shorts.len()
            && g.flag_shorts[j].contains(c),
    decreases g.flags.len() - k,
{
    if k < g.flags.len() && k < g.flag_shorts.len() && !g.flag_shorts[k].contains(c) {
        lemma_find_flag_short(g, c, k + 1);
    }
}

/// The first flag with `c` among its short names.
fn find_short_flag(d: &LeafDesc, c: char) -> (r: Option<usize>)
    ensures
        r matches Some(k) ==> find_flag_short(d.grammar(), c, 0) == Some(k as int),
        r is None ==> find_flag_short(d.grammar(), c, 0) is None,
{
    let ghost g = d.grammar();
    let mut k: usize = 0;
    while k < d.flags.len() && k < d.flag_shorts.len()
        invariant
            g == d.grammar(),
            k <= d.flags@.len() == g.flags.len(),
            d.flag_shorts@.len() == g.flag_shorts.len(),
            k <= d.flag_shorts@.len() || k == 0,
            find_flag_short(g, c, k as int) == find_flag_short(g, c, 0),
        decreases d.flags@.len() - k,
    {
        if chars_contain(&d.flag_shorts[k], c) {
            return Some(k);
        }
        k = k + 1;
    }
    None
}

/// Whether some character of `cluster` is not a short name the command knows.
fn has_unknown_short(d: &LeafDesc, cluster: &Vec<char>) -> (b: bool)
    ensures
        b == exists|j: int| 0 <= j < cluster@.len() && !known_short(d.grammar(), #[trigger] cluster@[j]),
{
    for i in 0..cluster.len()
        invariant
            forall|j: int| 0 <= j < i ==> known_short(d.grammar(), #[trigger] cluster@[j]),
    {
        let c = cluster[i];
        if c != 'h' && find_short_flag(d, c).is_none() && find_short_option(d, c).is_none() {
            assert(!known_short(d.grammar(), cluster@[i as int]));
            return true;
        }
    }
    false
}

/// The index of the first `=` in `s`, or its length.
fn find_eq(s: &Vec<char>) -> (e: usize)
    ensures
        e == eq_pos(s@, 0),
        e <= s@.len(),
{
    let mut i: usize = 0;
    while i < s.len() && s[i] != '='
        invariant
            i <= s@.len(),
            eq_pos(s@, i as int) == eq_pos(s@, 0),
        decreases s@.len() - i,
    {
        i = i + 1;
    }
    i
}

proof fn lemma_eq_pos_bounds(s: Seq<char>, i: int)
    requires
        0 <= i <= s.len(),
    ensures
        i <= eq_pos(s, i) <= s.len(),
    decreases s.len() - i,
{
    if i < s.len() && s[i] != '=' {
        lemma_eq_pos_bounds(s, i + 1);
    }
}

/// Read `t` as a positional value.
fn push_positional(d: &LeafDesc, st: &mut Scan, t: &Vec<char>) -> (r: Result<(), CliError>)
    requires
        old(st).fits(d.grammar()),
    ensures
        match add_positional(d.grammar(), old(st).state(), t@) {
            Ok(next) => r is Ok && final(st).state() == next && final(st).fits(d.grammar()),
            Err(e) => r == Err::<(), CliError>(e),
        },
{
    let ghost before = st.state();
    match &d.positional {
        Positional::Nothing => {
            return Err(CliError::Usage);
        },
        Positional::One => {
            if st.pos.len() >= 1 {
                return Err(CliError::Usage);
            }
        },
        Positional::OneOf(allowed) => {
            if st.pos.len() >= 1 {
                return Err(CliError::Usage);
            }
            let mut found = false;
            let mut k: usize = 0;
            while k < allowed.len()
                invariant
                    k <= allowed@.len(),
                    !found ==> forall|j: int| 0 <= j < k ==> allowed@[j]@ != t@,
                    found ==> seq_views(allowed@).contains(t@),
                decreases allowed@.len() - k,
            {
                if chars_eq(&allowed[k], t) {
                    assert(seq_views(allowed@)[k as int] == t@);
                    found = true;
                }
                k = k + 1;
            }
            if !found {
                assert(!seq_views(allowed@).contains(t@)) by {
                    if seq_views(allowed@).contains(t@) {
                        let j = choose|j: int| 0 <= j < allowed@.len() && seq_views(allowed@)[j] == t@;
                        assert(allowed@[j]@ == t@);
                    }
                }
                return Err(CliError::Usage);
            }
        },
        Positional::Trailing(_) => {
            st.trailing = true;
        },
    }
    let v = sub_chars(t, 0, t.len());
    assert(v@ =~= t@);
    st.pos.push(v);
    assert(st.state() =~= match add_positional(d.grammar(), before, t@) {
        Ok(next) => next,
        Err(_) => before,
    });
    Ok(())
}

fn set_option_value(st: &mut Scan, k: usize, v: Vec<char>)
    requires
        k < old(st).values@.len(),
        old(st).pending matches Some(p) ==> p < old(st).values@.len(),
    ensures
        final(st).state() == set_value(old(st).state(), k as int, v@),
        final(st).flags@ == old(st).flags@,
        final(st).values@.len() == old(st).values@.len(),
        final(st).pending is None,
{
    let ghost before = st.state();
    st.values.set(k, Some(v));
    st.pending = None;
    assert(st.state() =~= set_value(before, k as int, v@));
}

/// Read one token.
fn step(d: &LeafDesc, st: &mut Scan, t: &Vec<char>) -> (r: Result<(), CliError>)
    requires
        old(st).fits(d.grammar()),
    ensures
        match leaf_step(d.grammar(), old(st).state(), t@) {
            Ok(next) => r is Ok && final(st).state() == next && final(st).fits(d.grammar()),
            Err(e) => r == Err::<(), CliError>(e),
        },
{
    let ghost g = d.grammar();
    let ghost before = st.state();
    let n = t.len();
    let escape = n == 2 && t[0] == '-' && t[1] == '-';
    let long = n > 2 && t[0] == '-' && t[1] == '-';
    let short = n >= 2 && t[0] == '-' && t[1] != '-';
    proof {
        if escape {
            assert(t@ =~= seq!['-', '-']);
        }
        if is_escape(t@) {
            assert(t@.len() == 2 && t@[0] == '-' && t@[1] == '-');
        }
    }
    if st.trailing || st.escaped {
        return push_positional(d, st, t);
    }
    match st.pending {
        Some(k) => {
            if escape || long || short {
                return Err(CliError::Usage);
            }
            let v = sub_chars(t, 0, n);
            assert(v@ =~= t@);
            set_option_value(st, k, v);
            return Ok(());
        },
        None => {},
    }
    if escape {
        st.escaped = true;
        assert(st.state() =~= LeafState { escaped: true, ..before });
        return Ok(());
    }
    if long {
        let body = sub_chars(t, 2, n);
        assert(body@ =~= t@.skip(2));
        let e = find_eq(&body);
        let name = sub_chars(&body, 0, e);
        assert(name@ =~= long_name(t@));
        let value: Option<Vec<char>> = if e < body.len() {
            let v = sub_chars(&body, e + 1, body.len());
            assert(v@ =~= body@.skip(e + 1));
            Some(v)
        } else {
            None
        };
        assert(opt_view(value) == long_value(t@));
        let help: Vec<char> = crate::text::chars_of("help");
        if chars_eq(&name, &help) {
            if value.is_some() {
                return Err(CliError::Usage);
            }
            return Err(CliError::DisplayHelp);
        }
        match find_flag(d, &name) {
            Some(k) => {
                proof {
                    lemma_find_name(g.flags, name@, 0);
                }
                if value.is_some() || st.flags[k] {
                    return Err(CliError::Usage);
                }
                st.flags.set(k, true);
                assert(st.state() =~= LeafState { flags: before.flags.update(k as int, true), ..before });
                return Ok(());
            },
            None => {},
        }
        match find_option(d, &name) {
            Some(k) => {
                proof {
                    lemma_find_name(option_longs(g), name@, 0);
                }
                if st.values[k].is_some() {
                    return Err(CliError::Usage);
                }
                match value {
                    Some(v) => {
                        set_option_value(st, k, v);
                    },
                    None => {
                        st.pending = Some(k);
                        assert(st.state() =~= LeafState { pending: Some(k as int), ..before });
                    },
                }
                return Ok(());
            },
            None => {},
        }
        let hyphen_value = match d.positional {
            Positional::Trailing(_) => st.pos.len() == 0,
            _ => false,
        };
        if hyphen_value {
            return push_positional(d, st, t);
        }
        return Err(CliError::Usage);
    }
    if short {
        let cluster = sub_chars(t, 1, n);
        assert(cluster@ =~= t@.skip(1));
        let hyphen_value = match d.positional {
            Positional::Trailing(_) => st.pos.len() == 0,
            _ => false,
        };
        if hyphen_value && has_unknown_short(d, &cluster) {
            return push_positional(d, st, t);
        }
        let mut j: usize = 0;
        while j < cluster.len()
            invariant
                g == d.grammar(),
                j <= cluster@.len(),
                st.fits(g),
                read_short(g, before, t@) == read_cluster(g, st.state(), cluster@, j as int),
                leaf_step(g, before, t@) == read_short(g, before, t@),
                before == old(st).state(),
            decreases cluster@.len() - j,
        {
            let ghost cur = st.state();
            let c = cluster[j];
            if c == 'h' {
                return Err(CliError::DisplayHelp);
            }
            match find_short_flag(d, c) {
                Some(k) => {
                    proof {
                        lemma_find_flag_short(g, c, 0);
                    }
                    if st.flags[k] {
                        return Err(CliError::Usage);
                    }
                    st.flags.set(k, true);
                    assert(st.state() =~= LeafState { flags: cur.flags.update(k as int, true), ..cur });
                    j = j + 1;
                    continue;
                },
                None => {},
            }
            match find_short_option(d, c) {
                Some(k) => {
                    proof {
                        lemma_find_short(g.options, c, 0);
                    }
                    if st.values[k].is_some() {
                        return Err(CliError::Usage);
                    }
                    let rest = sub_chars(&cluster, j + 1, cluster.len());
                    assert(rest@ =~= cluster@.skip(j + 1));
                    if rest.len() == 0 {
                        st.pending = Some(k);
                        assert(st.state() =~= LeafState { pending: Some(k as int), ..cur });
                    } else if rest[0] == '=' {
                        let v = sub_chars(&rest, 1, rest.len());
                        assert(v@ =~= rest@.skip(1));
                        set_option_value(st, k, v);
                    } else {
                        set_option_value(st, k, rest);
                    }
                    return Ok(());
                },
                None => {
                    return Err(CliError::Usage);
                },
            }
        }
        return Ok(());
    }
    push_positional(d, st, t)
}

/// What the tokens of `toks` from `start` on give for a command of grammar `d`.
pub fn parse_leaf(d: &LeafDesc, toks: &Vec<Vec<char>>, start: usize) -> (r: Result<Parsed, CliError>)
    requires
        start <= toks@.len(),
    ensures
        match (r, leaf_parse_from(d.grammar(), seq_views(toks@), start as int)) {
            (Ok(p), Ok(m)) => p.matches() == m,
            (Err(e1), Err(e2)) => e1 == e2,
            _ => false,
        },
        r matches Ok(p) ==> p.fits(d.grammar()),
{
    let ghost g = d.grammar();
    let ghost tv = seq_views(toks@);
    let mut flags: Vec<bool> = Vec::new();
    for i in 0..d.flags.len()
        invariant
            flags@ == Seq::new(i as nat, |j: int| false),
    {
        flags.push(false);
        assert(flags@ =~= Seq::new((i + 1) as nat, |j: int| false));
    }
    let mut values: Vec<Option<Vec<char>>> = Vec::new();
    for i in 0..d.options.len()
        invariant
            values@.len() == i,
            forall|j: int| 0 <= j < i ==> values@[j] is None,
    {
        values.push(None);
    }
    let mut st = Scan { flags, values, pos: Vec::new(), pending: None, escaped: false, trailing: false };
    assert(st.state() =~= initial_state(g));
    let mut i = start;
    while i < toks.len()
        invariant
            start <= i <= toks@.len(),
            tv == seq_views(toks@),
            g == d.grammar(),
            st.fits(g),
            leaf_run(g, tv, i as int, st.state()) == leaf_run(g, tv, start as int, initial_state(g)),
        decreases toks@.len() - i,
    {
        let ghost before = st.state();
        assert(tv[i as int] == toks@[i as int]@);
        match step(d, &mut st, &toks[i]) {
            Err(e) => {
                return Err(e);
            },
            Ok(()) => {},
        }
        i = i + 1;
    }
    if st.pending.is_some() {
        return Err(CliError::Usage);
    }
    let required = match &d.positional {
        Positional::Nothing => false,
        Positional::One => true,
        Positional::OneOf(_) => true,
        Positional::Trailing(required) => *required,
    };
    if st.pos.len() == 0 && required {
        return Err(CliError::Usage);
    }
    let p = Parsed { flags: st.flags, values: st.values, pos: st.pos };
    assert(p.matches() =~= LeafMatches { flags: st.state().flags, values: st.state().values, pos: st.state().pos });
    Ok(p)
}

} // verus!
