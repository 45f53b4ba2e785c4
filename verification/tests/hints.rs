use dotfiles_manager::hints::{suggestions, ErrorKind};

#[test]
fn missing_profile_suggests_creating_and_listing() {
    assert_eq!(
        suggestions(&ErrorKind::ProfileNotFound("work".to_string())),
        vec![
            "Create it with: dfm profile create work",
            "List available profiles with: dfm profile list",
        ]
    );
}

#[test]
fn each_known_error_gets_its_next_step() {
    assert_eq!(
        suggestions(&ErrorKind::NoGitRepository),
        vec!["Run 'dfm backup' to initialize it."]
    );
    assert_eq!(
        suggestions(&ErrorKind::DataDirAlreadyExists("/tmp/dfm".to_string())),
        vec!["Move or remove /tmp/dfm first, then retry."]
    );
    assert_eq!(
        suggestions(&ErrorKind::InvalidRepo),
        vec!["Use a URL (https://github.com/owner/repo) or `owner/repo`."]
    );
}

#[test]
fn unexpected_errors_point_at_the_issue_tracker() {
    assert_eq!(
        suggestions(&ErrorKind::Other),
        vec![
            "If this looks like a bug, report it: https://github.com/alexandretrotel/dotfiles-manager/issues"
        ]
    );
}
