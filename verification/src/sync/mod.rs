//! Stages, commits, and pushes the dotfiles repo in one step: the decisions
//! of a sync run, with the git commands themselves left to the caller.

use vstd::prelude::*;
use crate::text::{
    chars_of, push_signed_decimal, push_str, signed_decimal, string_of, trim_chars,
    trimmed,
};
use self::stamp::{format_stamp, is_clock_reading, stamp_text, utc_now, UtcTime};

pub mod stamp;

verus! {

// ---------------------------------------------------------------------------
// Listing pending changes
// ---------------------------------------------------------------------------

/// The pieces of `s` between newline characters: one more piece than `s`
/// has newlines.
pub open spec fn split_newlines(s: Seq<char>) -> Seq<Seq<char>>
    decreases s.len(),
{
    if s.len() == 0 {
        seq![Seq::<char>::empty()]
    } else if s.last() == '\n' {
        split_newlines(s.drop_last()).push(Seq::<char>::empty())
    } else {
        let r = split_newlines(s.drop_last());
        r.update(r.len() - 1, r.last().push(s.last()))
    }
}

/// A line that ended in `\r\n`, without its `\r`.
pub open spec fn strip_cr(line: Seq<char>) -> Seq<char> {
    if line.len() > 0 && line.last() == '\r' {
        line.drop_last()
    } else {
        line
    }
}

/// The lines of `s` as `str::lines` yields them: split at `\n`, a `\r`
/// right before a `\n` dropped, and no empty line after a final `\n`.
pub open spec fn lines_of(s: Seq<char>) -> Seq<Seq<char>> {
    let pieces = split_newlines(s);
    let n = pieces.len();
    let body = strip_all(pieces.take(n - 1));
    if pieces[n - 1].len() == 0 {
        body
    } else {
        body.push(pieces[n - 1])
    }
}

/// Each line with the `\r` of a `\r\n` ending dropped.
pub open spec fn strip_all(lines: Seq<Seq<char>>) -> Seq<Seq<char>> {
    lines.map_values(|p: Seq<char>| strip_cr(p))
}

/// Whether a line holds anything.
pub open spec fn non_empty() -> spec_fn(Seq<char>) -> bool {
    |line: Seq<char>| line.len() > 0
}

/// The non-empty lines of `git status --porcelain` output `s`, in order.
pub open spec fn status_entries(s: Seq<char>) -> Seq<Seq<char>> {
    lines_of(s).filter(non_empty())
}

proof fn lemma_filter_push(s: Seq<Seq<char>>, x: Seq<char>)
    ensures
        s.push(x).filter(non_empty()) == if x.len() > 0 {
            s.filter(non_empty()).push(x)
        } else {
            s.filter(non_empty())
        },
{
    reveal(Seq::filter);
    assert(s.push(x).drop_last() =~= s);
}

/// The views of a list of strings.
pub open spec fn views(v: Seq<String>) -> Seq<Seq<char>> {
    v.map_values(|s: String| s@)
}

proof fn lemma_split_newlines_len(s: Seq<char>)
    ensures
        split_newlines(s).len() >= 1,
    decreases s.len(),
{
    if s.len() > 0 {
        lemma_split_newlines_len(s.drop_last());
    }
}

fn strip_cr_chars(line: Vec<char>) -> (r: Vec<char>)
    ensures
        r@ == strip_cr(line@),
{
    let mut line = line;
    let n = line.len();
    if n > 0 && line[n - 1] == '\r' {
        line.pop();
    }
    line
}

/// List the working-tree changes that a sync run would stage and commit:
/// the non-empty lines of the `git status --porcelain` output `status`.
pub fn preview(status: &str) -> (changes: Vec<String>)
    ensures
        views(changes@) == status_entries(status@),
{
    let cs = chars_of(status);
    let mut out: Vec<String> = Vec::new();
    let mut cur: Vec<char> = Vec::new();
    let ghost mut done: Seq<Seq<char>> = Seq::empty();
    assert(cs@.take(0) =~= Seq::<char>::empty());
    assert(strip_all(done) =~= Seq::<Seq<char>>::empty());
    assert(views(out@) =~= Seq::<Seq<char>>::empty());
    for i in 0..cs.len()
        invariant
            split_newlines(cs@.take(i as int)) == done.push(cur@),
            views(out@) == strip_all(done).filter(non_empty()),
    {
        let c = cs[i];
        assert(cs@.take(i + 1).drop_last() =~= cs@.take(i as int));
        if c == '\n' {
            let ghost prev_done = done;
            let ghost piece = cur@;
            let mut line: Vec<char> = Vec::new();
            std::mem::swap(&mut line, &mut cur);
            let line = strip_cr_chars(line);
            proof {
                done = done.push(piece);
                assert(strip_all(done) =~= strip_all(prev_done).push(strip_cr(piece)));
                lemma_filter_push(strip_all(prev_done), strip_cr(piece));
                assert(split_newlines(cs@.take(i + 1)) =~= done.push(cur@));
            }
            if line.len() > 0 {
                let ghost before = out@;
                out.push(string_of(&line));
                assert(views(out@) =~= views(before).push(line@));
            }
        } else {
            let ghost r = done.push(cur@);
            cur.push(c);
            assert(split_newlines(cs@.take(i + 1)) =~= r.update(r.len() - 1, r.last().push(c)));
            assert(r.update(r.len() - 1, r.last().push(c)) =~= done.push(cur@));
        }
    }
    assert(cs@.take(cs@.len() as int) =~= cs@);
    let ghost pieces = done.push(cur@);
    assert(pieces.take(pieces.len() - 1) =~= done);
    if cur.len() > 0 {
        let ghost before = out@;
        out.push(string_of(&cur));
        proof {
            lemma_filter_push(strip_all(done), cur@);
            assert(views(out@) =~= views(before).push(cur@));
        }
    }
    out
}

// ---------------------------------------------------------------------------
// Commit message
// ---------------------------------------------------------------------------

/// The default commit message of a sync run made at time `t`.
pub open spec fn default_message(t: UtcTime) -> Seq<char> {
    "chore: sync dfm ("@ + stamp_text(t) + ")"@
}

/// A message made of the default prefix, the calendar reading of a time the
/// clock can give, laid out as `%Y-%m-%d %H:%M:%S UTC`, and a closing
/// parenthesis.
pub open spec fn is_default_message(m: Seq<char>) -> bool {
    exists|t: UtcTime| t.valid() && is_clock_reading(t) && m == default_message(t)
}

/// The characters of an optional string.
pub open spec fn str_view(o: Option<&str>) -> Option<Seq<char>> {
    match o {
        Some(s) => Some(s@),
        None => None,
    }
}

/// Whether `given` holds something besides white space.
pub open spec fn has_text(given: Option<Seq<char>>) -> bool {
    given matches Some(g) && trimmed(g).len() > 0
}

/// What the commit message of a sync run is, for the message `given` on the
/// command line: that message without surrounding white space when it holds
/// anything else, else the timestamped default.
pub open spec fn is_commit_message(given: Option<Seq<char>>, m: Seq<char>) -> bool {
    if has_text(given) {
        m == trimmed(given->Some_0)
    } else {
        is_default_message(m)
    }
}

/// The commit message for the message `given` on the command line when the
/// clock reads `now` (`None` when it could not be read): the given message
/// trimmed when it holds text, else the default for `now`; nothing when the
/// default is needed and there is no time for it.
pub open spec fn message_at(given: Option<Seq<char>>, now: Option<UtcTime>) -> Option<Seq<char>> {
    if has_text(given) {
        Some(trimmed(given->Some_0))
    } else {
        match now {
            Some(t) => Some(default_message(t)),
            None => None,
        }
    }
}

/// The commit message for `message` when the clock reads `now`.
pub fn commit_message_at(message: Option<&str>, now: Option<UtcTime>) -> (m: Option<String>)
    ensures
        string_view(m) == message_at(str_view(message), now),
{
    match message {
        Some(msg) => {
            let t = trim_chars(&chars_of(msg));
            if t.len() > 0 {
                return Some(string_of(&t));
            }
        },
        None => {},
    }
    match now {
        Some(t) => {
            let mut m = String::new();
            push_str(&mut m, "chore: sync dfm (");
            let stamp = format_stamp(&t);
            push_str(&mut m, stamp.as_str());
            push_str(&mut m, ")");
            proof {
                assert(m@ =~= default_message(t));
            }
            Some(m)
        },
        None => None,
    }
}

/// The given message if it holds anything besides white space, trimmed;
/// else `chore: sync dfm (<UTC date time>)` by the system clock, which is
/// read only then. `None` when the clock cannot be read.
pub fn commit_message(message: Option<&str>) -> (m: Option<String>)
    ensures
        has_text(str_view(message)) ==> (m matches Some(s) && s@ == trimmed(message->Some_0@)),
        m matches Some(s) ==> is_commit_message(str_view(message), s@),
{
    let given = match message {
        Some(msg) => {
            let t = trim_chars(&chars_of(msg));
            if t.len() > 0 {
                return Some(string_of(&t));
            }
            Some(msg)
        },
        None => None,
    };
    let now = utc_now();
    let m = commit_message_at(given, now);
    proof {
        if let Some(t) = now {
            assert(t.valid() && is_clock_reading(t) && default_message(t) == default_message(t));
        }
    }
    m
}

// ---------------------------------------------------------------------------
// Staged changes and errors
// ---------------------------------------------------------------------------

/// Why a sync run failed.
#[derive(Debug, Clone, PartialEq, Eq)]
pub enum SyncError {
    /// `git diff --cached --quiet` exited with a status other than 0 or 1.
    UnexpectedStatus(i32),
    /// `git diff --cached --quiet` was terminated by a signal.
    TerminatedBySignal,
    /// A git command failed; the text says why.
    CommandFailed(String),
    /// The default commit message was needed and the system clock could not
    /// be read as a UTC date and time.
    ClockUnreadable,
}

impl SyncError {
    /// The text of this error, as it is reported to the user.
    pub open spec fn text(self) -> Seq<char> {
        match self {
            SyncError::UnexpectedStatus(code) => "git diff --cached --quiet exited with status "@
                + signed_decimal(code as int),
            SyncError::TerminatedBySignal => "git diff --cached --quiet was terminated by signal"@,
            SyncError::CommandFailed(why) => why@,
            SyncError::ClockUnreadable => "system time could not be read as a UTC date and time"@,
        }
    }

    /// The text of this error, as it is reported to the user.
    pub fn message(&self) -> (m: String)
        ensures
            m@ == self.text(),
    {
        match self {
            SyncError::UnexpectedStatus(code) => {
                let mut m = String::new();
                push_str(&mut m, "git diff --cached --quiet exited with status ");
                push_signed_decimal(&mut m, *code as i64);
                m
            },
            SyncError::TerminatedBySignal => {
                let mut m = String::new();
                push_str(&mut m, "git diff --cached --quiet was terminated by signal");
                m
            },
            SyncError::CommandFailed(why) => why.clone(),
            SyncError::ClockUnreadable => {
                let mut m = String::new();
                push_str(&mut m, "system time could not be read as a UTC date and time");
                m
            },
        }
    }
}

/// What the exit status of `git diff --cached --quiet` says (`None` when a
/// signal ended it): 0 means nothing is staged, 1 means something is, and
/// anything else is an error.
pub open spec fn staged_outcome(exit_code: Option<i32>) -> Result<bool, SyncError> {
    match exit_code {
        Some(c) => if c == 0 {
            Ok(false)
        } else if c == 1 {
            Ok(true)
        } else {
            Err(SyncError::UnexpectedStatus(c))
        },
        None => Err(SyncError::TerminatedBySignal),
    }
}

/// Whether `git diff --cached --quiet` reported staged changes, from its exit
/// status (`None` when a signal ended it).
pub fn has_staged_changes(exit_code: Option<i32>) -> (r: Result<bool, SyncError>)
    ensures
        r == staged_outcome(exit_code),
{
    match exit_code {
        Some(0) => Ok(false),
        Some(1) => Ok(true),
        Some(code) => Err(SyncError::UnexpectedStatus(code)),
        None => Err(SyncError::TerminatedBySignal),
    }
}

// ---------------------------------------------------------------------------
// The sync run
// ---------------------------------------------------------------------------

/// What a sync run did.
#[derive(Debug, Clone)]
pub struct SyncReport {
    /// Commit message used, or `None` when there was nothing to commit.
    pub committed: Option<String>,
}

/// Where a sync run stands.
#[derive(Debug)]
pub enum SyncStage {
    /// Waiting for the dfm root to be confirmed as a git repository.
    EnsuringRepository,
    /// Waiting for `git add .` to finish.
    Staging,
    /// Waiting for the exit status of `git diff --cached --quiet`.
    CheckingStaged,
    /// Waiting for `git commit -m <message>` to finish.
    Committing(String),
    /// Waiting for `git push` to finish; holds the commit message, if a
    /// commit was made.
    Pushing(Option<String>),
    /// The run is over.
    Finished,
}

/// The next thing the caller must do for a sync run.
#[derive(Debug)]
pub enum SyncAction {
    /// Make sure the dfm root is a git repository.
    EnsureRepository,
    /// Run `git add .` in the dfm root.
    StageAll,
    /// Run `git diff --cached --quiet` and report its exit status.
    CheckStaged,
    /// Run `git commit -m` with this message.
    Commit(String),
    /// Run `git push`, its output going straight to the terminal.
    Push,
    /// The run is over, with this outcome.
    Finish(Result<SyncReport, SyncError>),
}

/// What the caller reports back after doing an action.
#[derive(Debug)]
pub enum SyncEvent {
    /// The action's git command succeeded.
    Succeeded,
    /// The action's git command failed; the text says why.
    Failed(String),
    /// The exit status of `git diff --cached --quiet` (`None` when a signal
    /// ended it).
    StagedStatus(Option<i32>),
}

/// A sync run in progress: stage everything, commit when there are changes,
/// and push.
#[derive(Debug)]
pub struct SyncRun {
    /// Where the run stands.
    stage: SyncStage,
    /// The commit message given on the command line.
    message: Option<String>,
}

/// The characters of an optional owned string.
pub open spec fn string_view(o: Option<String>) -> Option<Seq<char>> {
    match o {
        Some(s) => Some(s@),
        None => None,
    }
}

/// Whether `event` answers the action that a run at `stage` is waiting on:
/// a failure answers any of them, the exit status answers only the staged
/// check, and success answers every other one; a finished run awaits
/// nothing.
pub open spec fn stage_awaits(stage: SyncStage, event: SyncEvent) -> bool {
    match stage {
        SyncStage::Finished => false,
        SyncStage::CheckingStaged => event !is Succeeded,
        _ => event !is StagedStatus,
    }
}

/// One step of a sync run with the message `given` on the command line:
/// from `from`, the outcome `event` of the awaited action leads to `to`,
/// with `action` to do next.
/// - A failed git command ends the run with that failure.
/// - Once the repository is confirmed, everything is staged; once staged,
///   the staged changes are checked.
/// - Exit status 1 of the check leads to a commit with the commit message
///   (or, when the default message is needed and the clock cannot be read,
///   to the end of the run); status 0 leads straight to the push; any other
///   status, or a signal, ends the run with that error.
/// - A successful commit leads to the push, which remembers the message.
/// - A successful push ends the run with the report of what was committed.
pub open spec fn step_ok(
    from: SyncStage,
    given: Option<Seq<char>>,
    event: SyncEvent,
    to: SyncStage,
    action: SyncAction,
) -> bool {
    &&& event matches SyncEvent::Failed(why) ==> to is Finished && action == SyncAction::Finish(
        Err(SyncError::CommandFailed(why)),
    )
    &&& event is Succeeded && from is EnsuringRepository ==> to is Staging && action is StageAll
    &&& event is Succeeded && from is Staging ==> to is CheckingStaged && action is CheckStaged
    &&& event matches SyncEvent::StagedStatus(code) ==> match staged_outcome(code) {
        Err(e) => to is Finished && action == SyncAction::Finish(Err(e)),
        Ok(true) => (action matches SyncAction::Commit(m) && to == SyncStage::Committing(m)
            && is_commit_message(given, m@)) || (!has_text(given) && to is Finished && action
            == SyncAction::Finish(Err(SyncError::ClockUnreadable))),
        Ok(false) => to == SyncStage::Pushing(None) && action is Push,
    }
    &&& event is Succeeded && from is Committing ==> to == SyncStage::Pushing(
        Some(from->Committing_0),
    ) && action is Push
    &&& event is Succeeded && from is Pushing ==> to is Finished && action == SyncAction::Finish(
        Ok(SyncReport { committed: from->Pushing_0 }),
    )
}

impl SyncRun {
    /// Where the run stands.
    pub closed spec fn stage(self) -> SyncStage {
        self.stage
    }

    /// The commit message given on the command line.
    pub closed spec fn given_message(self) -> Option<Seq<char>> {
        string_view(self.message)
    }

    /// Whether `event` answers the action that the run is waiting on: a
    /// failure answers any of them, the exit status answers only the staged
    /// check, and success answers every other one.
    pub open spec fn awaits(self, event: SyncEvent) -> bool {
        stage_awaits(self.stage(), event)
    }

    /// Whether `event` answers the action that the run is waiting on.
    pub fn accepts(&self, event: &SyncEvent) -> (b: bool)
        ensures
            b == self.awaits(*event),
    {
        match (&self.stage, event) {
            (SyncStage::Finished, _) => false,
            (SyncStage::CheckingStaged, SyncEvent::Succeeded) => false,
            (SyncStage::CheckingStaged, _) => true,
            (_, SyncEvent::StagedStatus(_)) => false,
            _ => true,
        }
    }

    /// Advance the run by the outcome of the action it was waiting on, and
    /// say what to do next.
    pub fn advance(self, event: SyncEvent) -> (r: (SyncRun, SyncAction))
        requires
            self.awaits(event),
        ensures
            r.0.given_message() == self.given_message(),
            step_ok(self.stage(), self.given_message(), event, r.0.stage(), r.1),
    {
        let SyncRun { stage, message } = self;
        match event {
            SyncEvent::Failed(why) => {
                (
                    SyncRun { stage: SyncStage::Finished, message },
                    SyncAction::Finish(Err(SyncError::CommandFailed(why))),
                )
            },
            SyncEvent::StagedStatus(code) => {
                match has_staged_changes(code) {
                    Err(e) => (
                        SyncRun { stage: SyncStage::Finished, message },
                        SyncAction::Finish(Err(e)),
                    ),
                    Ok(true) => {
                        let m = match &message {
                            Some(given) => commit_message(Some(given.as_str())),
                            None => commit_message(None),
                        };
                        match m {
                            Some(m) => {
                                let m2 = m.clone();
                                (
                                    SyncRun { stage: SyncStage::Committing(m), message },
                                    SyncAction::Commit(m2),
                                )
                            },
                            None => (
                                SyncRun { stage: SyncStage::Finished, message },
                                SyncAction::Finish(Err(SyncError::ClockUnreadable)),
                            ),
                        }
                    },
                    Ok(false) => (
                        SyncRun { stage: SyncStage::Pushing(None), message },
                        SyncAction::Push,
                    ),
                }
            },
            SyncEvent::Succeeded => {
                match stage {
                    SyncStage::EnsuringRepository => (
                        SyncRun { stage: SyncStage::Staging, message },
                        SyncAction::StageAll,
                    ),
                    SyncStage::Staging => (
                        SyncRun { stage: SyncStage::CheckingStaged, message },
                        SyncAction::CheckStaged,
                    ),
                    SyncStage::Committing(m) => (
                        SyncRun { stage: SyncStage::Pushing(Some(m)), message },
                        SyncAction::Push,
                    ),
                    SyncStage::Pushing(committed) => (
                        SyncRun { stage: SyncStage::Finished, message },
                        SyncAction::Finish(Ok(SyncReport { committed })),
                    ),
                    // `awaits` rules out success while the run checks what is
                    // staged or after it is over.
                    _ => (SyncRun { stage: SyncStage::Finished, message }, SyncAction::Push),
                }
            },
        }
    }
}

/// Begin a sync run with the commit message given on the command line; the
/// first thing to do is to make sure the dfm root is a git repository.
pub fn run(message: Option<&str>) -> (r: (SyncRun, SyncAction))
    ensures
        r.0.stage() is EnsuringRepository,
        r.0.given_message() == str_view(message),
        r.1 is EnsureRepository,
{
    let message = match message {
        Some(m) => Some(m.to_owned()),
        None => None,
    };
    (SyncRun { stage: SyncStage::EnsuringRepository, message }, SyncAction::EnsureRepository)
}

/// Whether `stages`, `events` and `actions` trace a sync run with the
/// message `given` on the command line: it starts by confirming the
/// repository, and each event answers the action awaited at its stage and
/// makes the step that follows, which leads to the next stage and action.
pub open spec fn is_run_trace(
    given: Option<Seq<char>>,
    stages: Seq<SyncStage>,
    events: Seq<SyncEvent>,
    actions: Seq<SyncAction>,
) -> bool {
    &&& stages.len() == events.len() + 1
    &&& actions.len() == events.len()
    &&& stages[0] is EnsuringRepository
    &&& forall|i: int|
        0 <= i < events.len() ==> stage_awaits(stages[i], #[trigger] events[i]) && step_ok(
            stages[i],
            given,
            events[i],
            stages[i + 1],
            actions[i],
        )
}

/// A sync run that ends well confirmed the repository, staged everything and
/// checked what was staged, in that order; it committed exactly when the
/// check found staged changes (exit status 1), with the commit message, and
/// that commit succeeded; and it pushed last, with success, whether or not
/// anything was committed.
pub proof fn law_successful_sync_commits_iff_staged(
    given: Option<Seq<char>>,
    stages: Seq<SyncStage>,
    events: Seq<SyncEvent>,
    actions: Seq<SyncAction>,
    report: SyncReport,
)
    requires
        is_run_trace(given, stages, events, actions),
        events.len() > 0,
        actions.last() == SyncAction::Finish(Ok(report)),
    ensures
        events.len() == if report.committed is Some {
            5int
        } else {
            4int
        },
        actions[0] is StageAll && actions[1] is CheckStaged,
        events[0] is Succeeded && events[1] is Succeeded,
        events[2] is StagedStatus,
        report.committed is Some <==> events[2] == SyncEvent::StagedStatus(Some(1)),
        report.committed matches Some(m) ==> is_commit_message(given, m@) && actions[2]
            == SyncAction::Commit(m) && events[3] is Succeeded,
        actions[events.len() - 2] is Push,
        stages[events.len() - 1] is Pushing,
        events.last() is Succeeded,
{
    let n = events.len() as int;
    assert(stage_awaits(stages[0], events[0]));
    assert(n > 1) by {
        if n == 1 {
            assert(actions.last() == actions[0]);
        }
    }
    assert(stage_awaits(stages[1], events[1]));
    assert(stages[1] is Staging);
    assert(n > 2) by {
        if n == 2 {
            assert(actions.last() == actions[1]);
        }
    }
    assert(stage_awaits(stages[2], events[2]));
    assert(stages[2] is CheckingStaged);
    assert(n > 3) by {
        if n == 3 {
            assert(actions.last() == actions[2]);
        }
    }
    assert(stage_awaits(stages[3], events[3]));
    assert(events[2] is StagedStatus);
    let code = events[2]->StagedStatus_0;
    if code == Some(1i32) {
        let m = actions[2]->Commit_0;
        assert(stages[3] == SyncStage::Committing(m));
        assert(n > 4) by {
            if n == 4 {
                assert(actions.last() == actions[3]);
            }
        }
        assert(stage_awaits(stages[4], events[4]));
        assert(stages[4] == SyncStage::Pushing(Some(m)));
        assert(n == 5) by {
            if n > 5 {
                assert(stage_awaits(stages[5], events[5]));
            }
        }
        assert(actions.last() == actions[4]);
    } else {
        assert(stages[3] == SyncStage::Pushing(None));
        assert(n == 4) by {
            if n > 4 {
                assert(stage_awaits(stages[4], events[4]));
            }
        }
        assert(actions.last() == actions[3]);
    }
}

} // verus!
