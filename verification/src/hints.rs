//! The next steps suggested alongside an error.

use vstd::prelude::*;
use crate::output::{line_views, push_line};
use crate::text::push_str;

verus! {

/// The kinds of error that suggestions are chosen by.
#[derive(Debug, Clone, PartialEq, Eq)]
pub enum ErrorKind {
    /// No profile has this name.
    ProfileNotFound(String),
    /// The dfm root is not a git repository yet.
    NoGitRepository,
    /// The data directory to be created exists already, at this path.
    DataDirAlreadyExists(String),
    /// A repository was given in a form that is neither a URL nor
    /// `owner/repo`.
    InvalidRepo,
    /// Any other error.
    Other,
}

/// Where to report a bug or ask for help.
pub open spec fn bug_report_url() -> Seq<char> {
    "https://github.com/alexandretrotel/dotfiles-manager/issues"@
}

/// The suggestions attached to an error of `kind`, in order: the next step
/// for the errors that have one, else a pointer to the issue tracker.
pub open spec fn suggestions_of(kind: ErrorKind) -> Seq<Seq<char>> {
    match kind {
        ErrorKind::ProfileNotFound(name) => seq![
            "Create it with: dfm profile create "@ + name@,
            "List available profiles with: dfm profile list"@,
        ],
        ErrorKind::NoGitRepository => seq!["Run 'dfm backup' to initialize it."@],
        ErrorKind::DataDirAlreadyExists(path) => seq![
            "Move or remove "@ + path@ + " first, then retry."@,
        ],
        ErrorKind::InvalidRepo => seq![
            "Use a URL (https://github.com/owner/repo) or `owner/repo`."@,
        ],
        ErrorKind::Other => seq!["If this looks like a bug, report it: "@ + bug_report_url()],
    }
}

/// The suggestions to attach to an error of `kind`, in order.
pub fn suggestions(kind: &ErrorKind) -> (s: Vec<String>)
    ensures
        line_views(s@) == suggestions_of(*kind),
{
    let mut s: Vec<String> = Vec::new();
    match kind {
        ErrorKind::ProfileNotFound(name) => {
            let mut t = String::new();
            push_str(&mut t, "Create it with: dfm profile create ");
            push_str(&mut t, name.as_str());
            push_line(&mut s, t);
            push_line(&mut s, "List available profiles with: dfm profile list".to_owned());
        },
        ErrorKind::NoGitRepository => {
            push_line(&mut s, "Run 'dfm backup' to initialize it.".to_owned());
        },
        ErrorKind::DataDirAlreadyExists(path) => {
            let mut t = String::new();
            push_str(&mut t, "Move or remove ");
            push_str(&mut t, path.as_str());
            push_str(&mut t, " first, then retry.");
            push_line(&mut s, t);
        },
        ErrorKind::InvalidRepo => {
            push_line(
                &mut s,
                "Use a URL (https://github.com/owner/repo) or `owner/repo`.".to_owned(),
            );
        },
        ErrorKind::Other => {
            let mut t = String::new();
            push_str(&mut t, "If this looks like a bug, report it: ");
            push_str(&mut t, "https://github.com/alexandretrotel/dotfiles-manager/issues");
            push_line(&mut s, t);
        },
    }
    assert(line_views(s@) =~= suggestions_of(*kind));
    s
}

/// Every error gets at least one suggestion, and only errors without a next
/// step of their own point at the issue tracker.
pub proof fn law_every_error_gets_a_suggestion(kind: ErrorKind)
    ensures
        suggestions_of(kind).len() >= 1,
        (kind is Other) <==> suggestions_of(kind) == seq![
            "If this looks like a bug, report it: "@ + bug_report_url(),
        ],
{
    if !(kind is Other) {
        reveal_strlit("If this looks like a bug, report it: ");
        reveal_strlit("Create it with: dfm profile create ");
        reveal_strlit("Run 'dfm backup' to initialize it.");
        reveal_strlit("Move or remove ");
        reveal_strlit("Use a URL (https://github.com/owner/repo) or `owner/repo`.");
        let s = suggestions_of(kind);
        let o = "If this looks like a bug, report it: "@ + bug_report_url();
        assert(s[0][0] != o[0]);
    }
}

} // verus!
