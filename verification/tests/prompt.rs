use dotfiles_manager::prompt::{
    after_password, check_password, confirm, confirm_prompt, confirm_reply, no_input,
    no_input_notice, password_source, set_no_input, skipping_notice, PasswordError,
    PasswordSource, PasswordStep,
};

#[test]
fn confirm_returns_false_without_reading_stdin_when_no_input_set() {
    let mut setting = None;
    set_no_input(&mut setting, true);
    assert!(!confirm(no_input(&setting), None));
}

#[test]
fn only_exact_y_means_yes() {
    assert!(confirm_reply("y\n"));
    assert!(confirm_reply("  Y  "));
    assert!(!confirm_reply(""));
    assert!(!confirm_reply("\n"));
    assert!(!confirm_reply("yes"));
    assert!(!confirm_reply("n"));
    assert!(!confirm_reply("yy"));
    assert!(confirm(false, Some("y")));
    assert!(!confirm(true, Some("y")));
}

#[test]
fn no_input_keeps_the_first_value() {
    let mut setting = None;
    assert!(!no_input(&setting));
    set_no_input(&mut setting, false);
    set_no_input(&mut setting, true);
    assert!(!no_input(&setting));
}

#[test]
fn password_checks() {
    assert_eq!(check_password("", None), Err(PasswordError::Empty));
    assert_eq!(check_password("", Some("")), Err(PasswordError::Empty));
    assert_eq!(check_password("pw", Some("px")), Err(PasswordError::Mismatch));
    assert_eq!(check_password("pw", Some("pw")), Ok(()));
    assert_eq!(check_password("pw", None), Ok(()));
    assert_eq!(PasswordError::Empty.message(), "Password cannot be empty");
    assert_eq!(PasswordError::Mismatch.message(), "Passwords do not match");
}

#[test]
fn password_source_prefers_the_keychain() {
    assert_eq!(password_source(false, true, false), PasswordSource::Stored);
    assert_eq!(password_source(false, true, true), PasswordSource::Stored);
    assert_eq!(
        password_source(true, true, false),
        PasswordSource::Prompt { suggest_storing: false }
    );
    assert_eq!(
        password_source(false, false, false),
        PasswordSource::Prompt { suggest_storing: true }
    );
    assert_eq!(password_source(false, false, true), PasswordSource::Unavailable);
    assert_eq!(password_source(true, true, true), PasswordSource::Unavailable);
}

#[test]
fn confirmation_is_read_only_for_a_non_empty_password_when_asked() {
    assert_eq!(after_password("", true), PasswordStep::Refuse(PasswordError::Empty));
    assert_eq!(after_password("", false), PasswordStep::Refuse(PasswordError::Empty));
    assert_eq!(after_password("secret", true), PasswordStep::AskConfirmation);
    assert_eq!(after_password("secret", false), PasswordStep::Accept);
}

#[test]
fn prompt_texts() {
    assert_eq!(confirm_prompt("proceed?"), "proceed? [y/N]: ");
    assert_eq!(
        no_input_notice("proceed?"),
        "proceed? [y/N]: skipped (--no-input), assuming no"
    );
    assert_eq!(
        skipping_notice("encrypted restore", "no password"),
        "Skipping encrypted restore: no password"
    );
}

#[test]
fn no_input_refuses_a_needed_password_with_its_message() {
    let refusal = "A password is required but --no-input is set and none is stored; run `dfm secret set` first or drop --no-input.";
    assert_eq!(password_source(true, true, true).refusal(), Some(refusal.to_string()));
    assert_eq!(password_source(false, false, true).refusal(), Some(refusal.to_string()));
    assert_eq!(password_source(false, true, true).refusal(), None);
    assert_eq!(password_source(true, false, false).refusal(), None);
    assert_eq!(
        password_source(false, false, false).tip(),
        Some("Tip: run `dfm secret set` to save this password in your system keychain and skip prompts later.".to_string())
    );
    assert_eq!(password_source(true, true, false).tip(), None);
    assert_eq!(password_source(false, true, false).tip(), None);
}
