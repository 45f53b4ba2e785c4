//! Decisions behind the interactive prompts: whether prompting is allowed,
//! where the encryption password comes from, and what a reply means.

use vstd::prelude::*;
use crate::text::{chars_eq, chars_of, push_str, trim_chars, trimmed};

verus! {

/// Set the `--no-input` flag held in `setting`. Only the first call takes
/// effect: once a value is held, it is kept.
pub fn set_no_input(setting: &mut Option<bool>, no_input: bool)
    ensures
        *old(setting) is None ==> *final(setting) == Some(no_input),
        *old(setting) is Some ==> *final(setting) == *old(setting),
{
    if setting.is_none() {
        *setting = Some(no_input);
    }
}

/// Whether interactive prompts are disabled: `false` until the flag is set.
pub fn no_input(setting: &Option<bool>) -> (b: bool)
    ensures
        b == (*setting == Some(true)),
{
    match setting {
        Some(b) => *b,
        None => false,
    }
}

/// Whether a reply to a `[y/N]` question means yes: only `y` or `Y`, once
/// surrounding white space is dropped.
pub open spec fn means_yes(reply: Seq<char>) -> bool {
    trimmed(reply) == seq!['y'] || trimmed(reply) == seq!['Y']
}

/// Whether the reply typed at a `[y/N]` prompt means yes. Any reply other
/// than exactly `y` or `Y` (surrounding white space aside), a blank line
/// included, counts as no.
pub fn confirm_reply(reply: &str) -> (yes: bool)
    ensures
        yes == means_yes(reply@),
{
    let t = trim_chars(&chars_of(reply));
    let yes = t.len() == 1 && (t[0] == 'y' || t[0] == 'Y');
    proof {
        if t@.len() == 1 {
            if t@[0] == 'y' {
                assert(t@ =~= seq!['y']);
            }
            if t@[0] == 'Y' {
                assert(t@ =~= seq!['Y']);
            }
        }
    }
    yes
}

/// Whether a `[y/N]` question is answered yes: with prompts disabled it is
/// answered no without reading anything; otherwise `reply` decides.
pub fn confirm(no_input: bool, reply: Option<&str>) -> (yes: bool)
    requires
        !no_input ==> reply is Some,
    ensures
        no_input ==> !yes,
        !no_input ==> yes == means_yes(reply->Some_0@),
{
    if no_input {
        false
    } else {
        match reply {
            Some(r) => confirm_reply(r),
            None => false,
        }
    }
}

/// Why a typed password was refused.
#[derive(Debug, Clone, Copy, PartialEq, Eq, Structural)]
pub enum PasswordError {
    /// Nothing was typed.
    Empty,
    /// The confirmation differs from the password.
    Mismatch,
}

impl PasswordError {
    /// The text of this error, as it is reported to the user.
    pub open spec fn text(self) -> Seq<char> {
        match self {
            PasswordError::Empty => "Password cannot be empty"@,
            PasswordError::Mismatch => "Passwords do not match"@,
        }
    }

    /// The text of this error, as it is reported to the user.
    pub fn message(&self) -> (m: String)
        ensures
            m@ == self.text(),
    {
        match self {
            PasswordError::Empty => "Password cannot be empty".to_owned(),
            PasswordError::Mismatch => "Passwords do not match".to_owned(),
        }
    }
}

/// The outcome of checking a typed password and its confirmation, if one
/// was asked for: an empty password is refused first, then a confirmation
/// that differs.
pub open spec fn password_check(password: Seq<char>, confirmation: Option<Seq<char>>) -> Result<
    (),
    PasswordError,
> {
    if password.len() == 0 {
        Err(PasswordError::Empty)
    } else {
        match confirmation {
            Some(c) => if c == password {
                Ok(())
            } else {
                Err(PasswordError::Mismatch)
            },
            None => Ok(()),
        }
    }
}

/// The characters of an optional string.
pub open spec fn opt_chars(o: Option<&str>) -> Option<Seq<char>> {
    match o {
        Some(s) => Some(s@),
        None => None,
    }
}

/// Check a typed password, and its confirmation when one was asked for.
pub fn check_password(password: &str, confirmation: Option<&str>) -> (r: Result<(), PasswordError>)
    ensures
        r == password_check(password@, opt_chars(confirmation)),
{
    let p = chars_of(password);
    if p.len() == 0 {
        return Err(PasswordError::Empty);
    }
    match confirmation {
        Some(c) => {
            let c = chars_of(c);
            if chars_eq(&p, &c) {
                Ok(())
            } else {
                Err(PasswordError::Mismatch)
            }
        },
        None => Ok(()),
    }
}

/// What follows once the password has been typed.
#[derive(Debug, Clone, Copy, PartialEq, Eq, Structural)]
pub enum PasswordStep {
    /// Refuse it, for this reason, without reading anything more.
    Refuse(PasswordError),
    /// Read the confirmation, then check it with `check_password`.
    AskConfirmation,
    /// Accept it as it is.
    Accept,
}

/// What follows a typed `password`: an empty one is refused at once; else
/// the confirmation is read when `confirm` asks for it; else the password is
/// accepted.
pub open spec fn password_step(password: Seq<char>, confirm: bool) -> PasswordStep {
    if password.len() == 0 {
        PasswordStep::Refuse(PasswordError::Empty)
    } else if confirm {
        PasswordStep::AskConfirmation
    } else {
        PasswordStep::Accept
    }
}

/// What follows a typed `password`, when `confirm` asks for a confirmation.
pub fn after_password(password: &str, confirm: bool) -> (step: PasswordStep)
    ensures
        step == password_step(password@, confirm),
{
    if password.is_empty() {
        PasswordStep::Refuse(PasswordError::Empty)
    } else if confirm {
        PasswordStep::AskConfirmation
    } else {
        PasswordStep::Accept
    }
}

/// The confirmation is read exactly when one is asked for and the password
/// is not empty; and the step agrees with the full check: a refusal is the
/// check's error whatever the confirmation, and an acceptance is the check
/// without one.
pub proof fn law_confirmation_read_only_when_needed(
    password: Seq<char>,
    confirm: bool,
    confirmation: Option<Seq<char>>,
)
    ensures
        (password_step(password, confirm) is AskConfirmation) <==> (confirm && password.len() > 0),
        password_step(password, confirm) matches PasswordStep::Refuse(e) ==> password_check(
            password,
            confirmation,
        ) == Err::<(), PasswordError>(e),
        password_step(password, confirm) is Accept ==> password_check(password, None) == Ok::<
            (),
            PasswordError,
        >(()),
{
}

/// Where the encryption password comes from.
#[derive(Debug, Clone, Copy, PartialEq, Eq, Structural)]
pub enum PasswordSource {
    /// The password stored in the system keychain.
    Stored,
    /// A prompt; afterwards, suggest storing the password in the keychain
    /// when `suggest_storing`.
    Prompt { suggest_storing: bool },
    /// Nowhere: a prompt is needed but prompts are disabled.
    Unavailable,
}

/// Where the encryption password comes from: the keychain unless a prompt is
/// forced or nothing is stored there; a prompt unless prompts are disabled;
/// after a prompt, the tip to store the password only when none was stored.
pub open spec fn source_of(ask_password: bool, has_stored: bool, no_input: bool) -> PasswordSource {
    if !ask_password && has_stored {
        PasswordSource::Stored
    } else if no_input {
        PasswordSource::Unavailable
    } else {
        PasswordSource::Prompt { suggest_storing: !has_stored }
    }
}

/// Where the encryption password comes from.
pub fn password_source(ask_password: bool, has_stored: bool, no_input: bool) -> (s: PasswordSource)
    ensures
        s == source_of(ask_password, has_stored, no_input),
{
    if !ask_password && has_stored {
        PasswordSource::Stored
    } else if no_input {
        PasswordSource::Unavailable
    } else {
        PasswordSource::Prompt { suggest_storing: !has_stored }
    }
}

/// A stored password is used unless a prompt is forced; with prompts
/// disabled, no prompt is ever chosen.
pub proof fn law_password_source(ask_password: bool, has_stored: bool, no_input: bool)
    ensures
        source_of(ask_password, has_stored, no_input) is Stored <==> (!ask_password && has_stored),
        no_input ==> !(source_of(ask_password, has_stored, no_input) is Prompt),
{
}

/// The characters of an optional owned string.
pub open spec fn owned_chars(o: Option<String>) -> Option<Seq<char>> {
    match o {
        Some(s) => Some(s@),
        None => None,
    }
}

/// The error when a password is needed but prompts are disabled and none is
/// stored.
pub open spec fn unavailable_text() -> Seq<char> {
    "A password is required but --no-input is set and none is stored; run `dfm secret set` first or drop --no-input."@
}

/// The tip printed after a prompt when no password is stored.
pub open spec fn storing_tip_text() -> Seq<char> {
    "Tip: run `dfm secret set` to save this password in your system keychain and skip prompts later."@
}

impl PasswordSource {
    /// The error that ends the search for a password: only when it is
    /// unavailable.
    pub open spec fn refusal_text(self) -> Option<Seq<char>> {
        match self {
            PasswordSource::Unavailable => Some(unavailable_text()),
            _ => None,
        }
    }

    /// The error that ends the search for a password, if it is unavailable.
    pub fn refusal(&self) -> (r: Option<String>)
        ensures
            owned_chars(r) == self.refusal_text(),
    {
        match self {
            PasswordSource::Unavailable => Some(
                "A password is required but --no-input is set and none is stored; run `dfm secret set` first or drop --no-input.".to_owned(),
            ),
            _ => None,
        }
    }

    /// The tip printed once the password was typed: only after a prompt
    /// that was made because nothing is stored.
    pub open spec fn tip_text(self) -> Option<Seq<char>> {
        match self {
            PasswordSource::Prompt { suggest_storing: true } => Some(storing_tip_text()),
            _ => None,
        }
    }

    /// The tip printed once the password was typed, if any.
    pub fn tip(&self) -> (r: Option<String>)
        ensures
            owned_chars(r) == self.tip_text(),
    {
        match self {
            PasswordSource::Prompt { suggest_storing: true } => Some(
                "Tip: run `dfm secret set` to save this password in your system keychain and skip prompts later.".to_owned(),
            ),
            _ => None,
        }
    }
}

/// The `[y/N]` prompt that asks `question`, written before the reply is read.
pub fn confirm_prompt(question: &str) -> (p: String)
    ensures
        p@ == question@ + " [y/N]: "@,
{
    let mut p = String::new();
    push_str(&mut p, question);
    push_str(&mut p, " [y/N]: ");
    p
}

/// The notice written, in place of a prompt, when `--no-input` answers
/// `question` with no.
pub fn no_input_notice(question: &str) -> (n: String)
    ensures
        n@ == question@ + " [y/N]: skipped (--no-input), assuming no"@,
{
    let mut n = String::new();
    push_str(&mut n, question);
    push_str(&mut n, " [y/N]: skipped (--no-input), assuming no");
    n
}

/// The notice written when an optional encrypted `step` is skipped because
/// no password could be had, for the reason `why`.
pub fn skipping_notice(step: &str, why: &str) -> (n: String)
    ensures
        n@ == "Skipping "@ + step@ + ": "@ + why@,
{
    let mut n = String::new();
    push_str(&mut n, "Skipping ");
    push_str(&mut n, step);
    push_str(&mut n, ": ");
    push_str(&mut n, why);
    n
}

/// With prompts disabled and no stored password to use, the search for a
/// password ends in the refusal, and no prompt is made.
pub proof fn law_no_input_refuses_instead_of_prompting(ask_password: bool, has_stored: bool)
    requires
        ask_password || !has_stored,
    ensures
        source_of(ask_password, has_stored, true).refusal_text() == Some(unavailable_text()),
        !(source_of(ask_password, has_stored, true) is Prompt),
{
}

} // verus!
