use dotfiles_manager::sync::stamp::{format_stamp, utc_now, utc_time_at, UtcTime};
use dotfiles_manager::sync::{
    commit_message, commit_message_at, has_staged_changes, preview, run, SyncAction, SyncError,
    SyncEvent,
};

#[test]
fn commit_message_uses_given_message_when_present() {
    assert_eq!(commit_message(Some("fix bug")).unwrap(), "fix bug");
}

#[test]
fn commit_message_trims_surrounding_whitespace() {
    assert_eq!(commit_message(Some("  fix bug  ")).unwrap(), "fix bug");
}

#[test]
fn commit_message_falls_back_to_timestamp_when_none() {
    assert!(commit_message(None).unwrap().starts_with("chore: sync dfm ("));
}

#[test]
fn commit_message_falls_back_to_timestamp_when_blank() {
    assert!(commit_message(Some("")).unwrap().starts_with("chore: sync dfm ("));
    assert!(commit_message(Some("   ")).unwrap().starts_with("chore: sync dfm ("));
}

// Further cases.

fn time(year: i32, month: u32, day: u32, hour: u32, minute: u32, second: u32) -> UtcTime {
    UtcTime { year, month, day, hour, minute, second }
}

#[test]
fn default_commit_message_wraps_the_stamp() {
    let t = time(2024, 1, 2, 3, 4, 5);
    assert_eq!(
        commit_message_at(None, Some(t)).unwrap(),
        "chore: sync dfm (2024-01-02 03:04:05 UTC)"
    );
    assert_eq!(
        commit_message_at(Some(" \t\n"), Some(t)).unwrap(),
        "chore: sync dfm (2024-01-02 03:04:05 UTC)"
    );
    assert_eq!(commit_message_at(Some("\u{3000}msg\u{a0}"), None).unwrap(), "msg");
    assert_eq!(commit_message_at(None, None), None);
    assert_eq!(commit_message_at(Some("  "), None), None);
    let m = commit_message(None).unwrap();
    assert!(m.ends_with(" UTC)"));
    assert_eq!(m.len(), "chore: sync dfm (2024-01-02 03:04:05 UTC)".len());
}

#[test]
fn stamp_layout_pads_each_field() {
    assert_eq!(format_stamp(&time(2015, 5, 15, 0, 0, 0)), "2015-05-15 00:00:00 UTC");
    assert_eq!(format_stamp(&time(999, 12, 31, 23, 59, 59)), "0999-12-31 23:59:59 UTC");
    assert_eq!(format_stamp(&time(12345, 1, 1, 0, 0, 0)), "+12345-01-01 00:00:00 UTC");
    assert_eq!(format_stamp(&time(-44, 3, 15, 12, 0, 0)), "-0044-03-15 12:00:00 UTC");
}

#[test]
fn clock_reading_matches_the_calendar() {
    assert_eq!(utc_time_at(1431648000, 0), Some(time(2015, 5, 15, 0, 0, 0)));
    assert_eq!(utc_time_at(0, 0), Some(time(1970, 1, 1, 0, 0, 0)));
    assert_eq!(utc_time_at(951782400 + 86399, 999_999_999), Some(time(2000, 2, 29, 23, 59, 59)));
    assert_eq!(utc_time_at(u64::MAX, 0), None);
    let now = utc_now().unwrap();
    assert!(now.year >= 2024);
}

#[test]
fn staged_changes_from_exit_status() {
    assert_eq!(has_staged_changes(Some(0)), Ok(false));
    assert_eq!(has_staged_changes(Some(1)), Ok(true));
    assert_eq!(has_staged_changes(Some(128)), Err(SyncError::UnexpectedStatus(128)));
    assert_eq!(has_staged_changes(None), Err(SyncError::TerminatedBySignal));
}

#[test]
fn has_staged_changes_errs_with_status_when_git_exits_non_0_or_1() {
    let err = has_staged_changes(Some(129)).unwrap_err();
    assert!(err.message().contains("exited with status"));
    assert_eq!(err.message(), "git diff --cached --quiet exited with status 129");
    assert_eq!(
        SyncError::UnexpectedStatus(-3).message(),
        "git diff --cached --quiet exited with status -3"
    );
    assert_eq!(
        SyncError::TerminatedBySignal.message(),
        "git diff --cached --quiet was terminated by signal"
    );
    assert_eq!(
        SyncError::ClockUnreadable.message(),
        "system time could not be read as a UTC date and time"
    );
}

#[test]
fn preview_lists_non_empty_status_lines() {
    assert_eq!(preview("?? new.txt\n"), vec!["?? new.txt".to_string()]);
    assert!(preview("").is_empty());
    assert!(preview("\n\n").is_empty());
    assert_eq!(
        preview(" M a.txt\r\n\r\n?? b\rc\n?? last"),
        vec![" M a.txt".to_string(), "?? b\rc".to_string(), "?? last".to_string()]
    );
    assert_eq!(preview("x\r"), vec!["x\r".to_string()]);
}

#[test]
fn sync_run_commits_then_pushes_when_changes_are_staged() {
    let (r, action) = run(Some("  add new file "));
    assert!(matches!(action, SyncAction::EnsureRepository));
    let (r, action) = r.advance(SyncEvent::Succeeded);
    assert!(matches!(action, SyncAction::StageAll));
    let (r, action) = r.advance(SyncEvent::Succeeded);
    assert!(matches!(action, SyncAction::CheckStaged));
    assert!(!r.accepts(&SyncEvent::Succeeded));
    let (r, action) = r.advance(SyncEvent::StagedStatus(Some(1)));
    match &action {
        SyncAction::Commit(m) => assert_eq!(m, "add new file"),
        other => panic!("expected a commit, got {:?}", other),
    }
    let (r, action) = r.advance(SyncEvent::Succeeded);
    assert!(matches!(action, SyncAction::Push));
    let (r, action) = r.advance(SyncEvent::Succeeded);
    match action {
        SyncAction::Finish(Ok(report)) => assert_eq!(report.committed, Some("add new file".to_string())),
        other => panic!("expected success, got {:?}", other),
    }
    assert!(!r.accepts(&SyncEvent::Succeeded));
}

#[test]
fn sync_run_pushes_without_commit_when_nothing_is_staged() {
    let (r, _) = run(None);
    let (r, _) = r.advance(SyncEvent::Succeeded);
    let (r, _) = r.advance(SyncEvent::Succeeded);
    let (r, action) = r.advance(SyncEvent::StagedStatus(Some(0)));
    assert!(matches!(action, SyncAction::Push));
    let (_, action) = r.advance(SyncEvent::Succeeded);
    match action {
        SyncAction::Finish(Ok(report)) => assert_eq!(report.committed, None),
        other => panic!("expected success, got {:?}", other),
    }
}

#[test]
fn sync_run_stops_at_the_first_failure() {
    let (r, _) = run(Some("test"));
    let (r, _) = r.advance(SyncEvent::Succeeded);
    let (r, _) = r.advance(SyncEvent::Succeeded);
    let (r, _) = r.advance(SyncEvent::StagedStatus(Some(1)));
    let (r, _) = r.advance(SyncEvent::Succeeded);
    let (r, action) = r.advance(SyncEvent::Failed("no upstream".to_string()));
    match action {
        SyncAction::Finish(Err(SyncError::CommandFailed(why))) => assert_eq!(why, "no upstream"),
        other => panic!("expected failure, got {:?}", other),
    }
    assert!(!r.accepts(&SyncEvent::Failed("again".to_string())));

    let (r, _) = run(None);
    let (r, _) = r.advance(SyncEvent::Succeeded);
    let (r, _) = r.advance(SyncEvent::Succeeded);
    let (_, action) = r.advance(SyncEvent::StagedStatus(Some(128)));
    match action {
        SyncAction::Finish(Err(e)) => assert_eq!(e, SyncError::UnexpectedStatus(128)),
        other => panic!("expected failure, got {:?}", other),
    }
}

#[test]
fn sync_run_with_blank_message_commits_with_default() {
    let (r, _) = run(Some("   "));
    let (r, _) = r.advance(SyncEvent::Succeeded);
    let (r, _) = r.advance(SyncEvent::Succeeded);
    let (_, action) = r.advance(SyncEvent::StagedStatus(Some(1)));
    match action {
        SyncAction::Commit(m) => assert!(m.starts_with("chore: sync dfm (")),
        other => panic!("expected a commit, got {:?}", other),
    }
}
