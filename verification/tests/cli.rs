use dotfiles_manager::cli::{
    Cli, CliError, Command, ProfileActions, ProfileArgs, RegistryChoice, SecretActions, Shell,
};

#[test]
fn doctor_with_flags_sets_them_true() {
    let cli = Cli::try_parse_from(&[
        "dfm",
        "doctor",
        "--fix",
        "--skip-encrypted",
        "--include-disabled",
    ])
    .unwrap();
    match cli.command {
        Some(Command::Doctor(args)) => {
            assert!(args.fix);
            assert!(args.skip_encrypted);
            assert!(!args.ask_password);
            assert!(args.include_disabled);
        }
        _ => panic!("expected Doctor command"),
    }
}

#[test]
fn doctor_with_no_flags_defaults_false() {
    let cli = Cli::try_parse_from(&["dfm", "doctor"]).unwrap();
    match cli.command {
        Some(Command::Doctor(args)) => {
            assert!(!args.fix);
            assert!(!args.skip_encrypted);
            assert!(!args.ask_password);
            assert!(!args.include_disabled);
        }
        _ => panic!("expected Doctor command"),
    }
}

#[test]
fn link_requires_repo_argument() {
    let result = Cli::try_parse_from(&["dfm", "link"]);
    assert!(result.is_err());
}

#[test]
fn link_parses_repo_argument() {
    let cli = Cli::try_parse_from(&["dfm", "link", "owner/repo"]).unwrap();
    match cli.command {
        Some(Command::Link(args)) => {
            assert_eq!(args.repo, "owner/repo");
            assert!(!args.skip_encrypted);
            assert!(!args.ask_password);
        }
        _ => panic!("expected Link command"),
    }
}

#[test]
fn use_requires_profile_argument() {
    let result = Cli::try_parse_from(&["dfm", "use"]);
    assert!(result.is_err());
}

#[test]
fn use_parses_profile_argument() {
    let cli = Cli::try_parse_from(&["dfm", "use", "work"]).unwrap();
    match cli.command {
        Some(Command::Use(args)) => assert_eq!(args.profile, "work"),
        _ => panic!("expected Use command"),
    }
}

#[test]
fn git_requires_at_least_one_arg() {
    let result = Cli::try_parse_from(&["dfm", "git"]);
    assert!(result.is_err());
}

#[test]
fn git_passes_through_trailing_hyphen_values() {
    let cli = Cli::try_parse_from(&["dfm", "git", "commit", "-m", "msg"]).unwrap();
    match cli.command {
        Some(Command::Git(args)) => {
            assert_eq!(args.args, vec!["commit", "-m", "msg"]);
        }
        _ => panic!("expected Git command"),
    }
}

#[test]
fn status_allows_no_trailing_args() {
    let cli = Cli::try_parse_from(&["dfm", "status"]).unwrap();
    match cli.command {
        Some(Command::Status(args)) => assert!(args.args.is_empty()),
        _ => panic!("expected Status command"),
    }
}

#[test]
fn diff_passes_through_trailing_hyphen_values() {
    let cli = Cli::try_parse_from(&["dfm", "diff", "--stat"]).unwrap();
    match cli.command {
        Some(Command::Diff(args)) => assert_eq!(args.args, vec!["--stat"]),
        _ => panic!("expected Diff command"),
    }
}

#[test]
fn sync_message_defaults_to_none() {
    let cli = Cli::try_parse_from(&["dfm", "sync"]).unwrap();
    match cli.command {
        Some(Command::Sync(args)) => assert_eq!(args.message, None),
        _ => panic!("expected Sync command"),
    }
}

#[test]
fn sync_parses_short_message_flag() {
    let cli = Cli::try_parse_from(&["dfm", "sync", "-m", "chore: update"]).unwrap();
    match cli.command {
        Some(Command::Sync(args)) => {
            assert_eq!(args.message, Some("chore: update".to_string()));
        }
        _ => panic!("expected Sync command"),
    }
}

#[test]
fn backup_parses_profile_alias() {
    let cli = Cli::try_parse_from(&["dfm", "backup", "-n", "personal"]).unwrap();
    match cli.command {
        Some(Command::Backup(args)) => {
            assert_eq!(args.profile, Some("personal".to_string()));
        }
        _ => panic!("expected Backup command"),
    }
}

#[test]
fn profile_create_parses_name_and_description() {
    let cli = Cli::try_parse_from(&[
        "dfm",
        "profile",
        "create",
        "work",
        "--description",
        "work machine",
    ])
    .unwrap();
    match cli.command {
        Some(Command::Profile(args)) => match args.action {
            Some(ProfileActions::Create { name, description }) => {
                assert_eq!(name, "work");
                assert_eq!(description, Some("work machine".to_string()));
            }
            _ => panic!("expected Create action"),
        },
        _ => panic!("expected Profile command"),
    }
}

#[test]
fn profile_delete_requires_name() {
    let result = Cli::try_parse_from(&["dfm", "profile", "delete"]);
    assert!(result.is_err());
}

#[test]
fn profile_with_no_action_is_none() {
    let cli = Cli::try_parse_from(&["dfm", "profile"]).unwrap();
    match cli.command {
        Some(Command::Profile(args)) => assert!(args.action.is_none()),
        _ => panic!("expected Profile command"),
    }
}

#[test]
fn profile_json_flag_defaults_false() {
    let cli = Cli::try_parse_from(&["dfm", "profile"]).unwrap();
    match cli.command {
        Some(Command::Profile(args)) => assert!(!args.json),
        _ => panic!("expected Profile command"),
    }
}

#[test]
fn profile_parses_json_flag() {
    let cli = Cli::try_parse_from(&["dfm", "profile", "--json"]).unwrap();
    match cli.command {
        Some(Command::Profile(args)) => assert!(args.json),
        _ => panic!("expected Profile command"),
    }
}

#[test]
fn doctor_parses_json_flag() {
    let cli = Cli::try_parse_from(&["dfm", "doctor", "--json"]).unwrap();
    match cli.command {
        Some(Command::Doctor(args)) => assert!(args.json),
        _ => panic!("expected Doctor command"),
    }
}

#[test]
fn secret_set_and_delete_parse() {
    let cli = Cli::try_parse_from(&["dfm", "secret", "set"]).unwrap();
    match cli.command {
        Some(Command::Secret { action }) => assert!(matches!(action, SecretActions::SetPassword)),
        _ => panic!("expected Secret command"),
    }

    let cli = Cli::try_parse_from(&["dfm", "secret", "delete"]).unwrap();
    match cli.command {
        Some(Command::Secret { action }) => assert!(matches!(action, SecretActions::Delete)),
        _ => panic!("expected Secret command"),
    }
}

#[test]
fn prune_parses_with_no_args() {
    let cli = Cli::try_parse_from(&["dfm", "prune"]).unwrap();
    assert!(matches!(cli.command, Some(Command::Prune)));
}

#[test]
fn edit_requires_registry_argument() {
    let result = Cli::try_parse_from(&["dfm", "edit"]);
    assert!(result.is_err());
}

#[test]
fn edit_rejects_unknown_registry() {
    let result = Cli::try_parse_from(&["dfm", "edit", "bogus"]);
    assert!(result.is_err());
}

#[test]
fn edit_parses_registry_choice_and_defaults_editor_to_none() {
    let cli = Cli::try_parse_from(&["dfm", "edit", "config"]).unwrap();
    match cli.command {
        Some(Command::Edit(args)) => {
            assert!(matches!(args.registry, RegistryChoice::Config));
            assert_eq!(args.editor, None);
        }
        _ => panic!("expected Edit command"),
    }
}

#[test]
fn edit_parses_all_registry_choices() {
    for (arg, expected) in [
        ("config", "Config"),
        ("package", "Package"),
        ("encrypted", "Encrypted"),
        ("profiles", "Profiles"),
    ] {
        let cli = Cli::try_parse_from(&["dfm", "edit", arg]).unwrap();
        match cli.command {
            Some(Command::Edit(args)) => {
                let actual = match args.registry {
                    RegistryChoice::Config => "Config",
                    RegistryChoice::Package => "Package",
                    RegistryChoice::Encrypted => "Encrypted",
                    RegistryChoice::Profiles => "Profiles",
                };
                assert_eq!(actual, expected);
            }
            _ => panic!("expected Edit command"),
        }
    }
}

#[test]
fn edit_parses_custom_editor_flag() {
    let cli =
        Cli::try_parse_from(&["dfm", "edit", "profiles", "--editor", "code --wait"]).unwrap();
    match cli.command {
        Some(Command::Edit(args)) => {
            assert_eq!(args.editor, Some("code --wait".to_string()));
        }
        _ => panic!("expected Edit command"),
    }
}

#[test]
fn edit_parses_short_editor_flag() {
    let cli = Cli::try_parse_from(&["dfm", "edit", "config", "-e", "nano"]).unwrap();
    match cli.command {
        Some(Command::Edit(args)) => {
            assert_eq!(args.editor, Some("nano".to_string()));
        }
        _ => panic!("expected Edit command"),
    }
}

#[test]
fn no_subcommand_is_none() {
    let cli = Cli::try_parse_from(&["dfm"]).unwrap();
    assert!(cli.command.is_none());
}

#[test]
fn unknown_subcommand_is_err() {
    let result = Cli::try_parse_from(&["dfm", "not-a-command"]);
    assert!(result.is_err());
}

// Further cases of the grammar.

#[test]
fn help_flag_asks_for_help_anywhere_before_values() {
    assert_eq!(Cli::try_parse_from(&["dfm", "--help"]).unwrap_err(), CliError::DisplayHelp);
    assert_eq!(Cli::try_parse_from(&["dfm", "-h"]).unwrap_err(), CliError::DisplayHelp);
    assert_eq!(Cli::try_parse_from(&["dfm", "link", "--help"]).unwrap_err(), CliError::DisplayHelp);
    assert_eq!(Cli::try_parse_from(&["dfm", "git", "--help"]).unwrap_err(), CliError::DisplayHelp);
}

#[test]
fn version_flag_only_at_top_level() {
    assert_eq!(Cli::try_parse_from(&["dfm", "--version"]).unwrap_err(), CliError::DisplayVersion);
    assert_eq!(Cli::try_parse_from(&["dfm", "-V"]).unwrap_err(), CliError::DisplayVersion);
    assert_eq!(Cli::try_parse_from(&["dfm", "link", "-V"]).unwrap_err(), CliError::Usage);
}

#[test]
fn help_subcommand_names_a_path_of_subcommands() {
    assert_eq!(Cli::try_parse_from(&["dfm", "help"]).unwrap_err(), CliError::DisplayHelp);
    assert_eq!(
        Cli::try_parse_from(&["dfm", "help", "profile", "create"]).unwrap_err(),
        CliError::DisplayHelp
    );
    assert_eq!(Cli::try_parse_from(&["dfm", "help", "bogus"]).unwrap_err(), CliError::Usage);
    assert_eq!(
        Cli::try_parse_from(&["dfm", "help", "link", "extra"]).unwrap_err(),
        CliError::Usage
    );
}

#[test]
fn git_keeps_help_flag_after_first_value() {
    let cli = Cli::try_parse_from(&["dfm", "git", "log", "--help", "--", "x"]).unwrap();
    match cli.command {
        Some(Command::Git(args)) => assert_eq!(args.args, vec!["log", "--help", "--", "x"]),
        _ => panic!("expected Git command"),
    }
}

#[test]
fn escape_makes_hyphen_text_a_value() {
    let cli = Cli::try_parse_from(&["dfm", "use", "--", "--weird"]).unwrap();
    match cli.command {
        Some(Command::Use(args)) => assert_eq!(args.profile, "--weird"),
        _ => panic!("expected Use command"),
    }
}

#[test]
fn option_values_attach_with_equals_or_directly() {
    for args in [
        ["dfm", "backup", "--profile=work"],
        ["dfm", "backup", "-pwork"],
        ["dfm", "backup", "-p=work"],
    ] {
        let cli = Cli::try_parse_from(&args).unwrap();
        match cli.command {
            Some(Command::Backup(b)) => assert_eq!(b.profile, Some("work".to_string())),
            _ => panic!("expected Backup command"),
        }
    }
}

#[test]
fn repeated_or_valueless_arguments_are_usage_errors() {
    for args in [
        vec!["dfm", "doctor", "--fix", "--fix"],
        vec!["dfm", "backup", "-p", "a", "-p", "b"],
        vec!["dfm", "backup", "--profile"],
        vec!["dfm", "backup", "--profile", "--skip-encrypted"],
        vec!["dfm", "doctor", "--fix=yes"],
        vec!["dfm", "use", "a", "b"],
        vec!["dfm", "prune", "x"],
        vec!["dfm", "secret"],
        vec!["dfm", "--", "link"],
    ] {
        assert_eq!(Cli::try_parse_from(&args).unwrap_err(), CliError::Usage, "{:?}", args);
    }
}

#[test]
fn profile_json_given_to_the_action_counts() {
    let cli = Cli::try_parse_from(&["dfm", "profile", "list", "--json"]).unwrap();
    match cli.command {
        Some(Command::Profile(args)) => {
            assert!(args.json);
            assert!(matches!(args.action, Some(ProfileActions::List)));
        }
        _ => panic!("expected Profile command"),
    }
    let cli = Cli::try_parse_from(&["dfm", "profile", "--json", "delete", "old"]).unwrap();
    match cli.command {
        Some(Command::Profile(args)) => {
            assert!(args.json);
            match args.action {
                Some(ProfileActions::Delete { name }) => assert_eq!(name, "old"),
                _ => panic!("expected Delete action"),
            }
        }
        _ => panic!("expected Profile command"),
    }
}

#[test]
fn empty_argument_list_names_no_command() {
    let cli = Cli::try_parse_from(&[]).unwrap();
    assert!(cli.command.is_none());
    let cli = Cli::try_parse_from(&["dfm", "--"]).unwrap();
    assert!(cli.command.is_none());
}

#[test]
fn sync_dry_run_long_and_short() {
    for args in [vec!["dfm", "sync", "--dry-run"], vec!["dfm", "sync", "-n"]] {
        match Cli::try_parse_from(&args).unwrap().command {
            Some(Command::Sync(a)) => {
                assert!(a.dry_run);
                assert_eq!(a.message, None);
            }
            _ => panic!("expected Sync command"),
        }
    }
    match Cli::try_parse_from(&["dfm", "sync"]).unwrap().command {
        Some(Command::Sync(a)) => assert!(!a.dry_run),
        _ => panic!("expected Sync command"),
    }
}

#[test]
fn short_flag_clusters_read_each_letter() {
    match Cli::try_parse_from(&["dfm", "sync", "-nm", "msg"]).unwrap().command {
        Some(Command::Sync(a)) => {
            assert!(a.dry_run);
            assert_eq!(a.message, Some("msg".to_string()));
        }
        _ => panic!("expected Sync command"),
    }
    match Cli::try_parse_from(&["dfm", "sync", "-nmmsg"]).unwrap().command {
        Some(Command::Sync(a)) => {
            assert!(a.dry_run);
            assert_eq!(a.message, Some("msg".to_string()));
        }
        _ => panic!("expected Sync command"),
    }
    assert_eq!(
        Cli::try_parse_from(&["dfm", "sync", "-nn"]).err(),
        Some(CliError::Usage)
    );
    assert_eq!(
        Cli::try_parse_from(&["dfm", "sync", "-nh"]).err(),
        Some(CliError::DisplayHelp)
    );
    assert_eq!(
        Cli::try_parse_from(&["dfm", "sync", "-nx"]).err(),
        Some(CliError::Usage)
    );
}

#[test]
fn restore_and_backup_dry_run() {
    match Cli::try_parse_from(&["dfm", "restore", "-n", "--skip-encrypted"]).unwrap().command {
        Some(Command::Restore(a)) => {
            assert!(a.dry_run && a.skip_encrypted && !a.ask_password);
        }
        _ => panic!("expected Restore command"),
    }
    match Cli::try_parse_from(&["dfm", "backup", "--dry-run"]).unwrap().command {
        Some(Command::Backup(a)) => {
            assert!(a.dry_run);
            assert_eq!(a.profile, None);
        }
        _ => panic!("expected Backup command"),
    }
    // On backup, `-n` stays the short alias of `--profile`.
    match Cli::try_parse_from(&["dfm", "backup", "-n", "work"]).unwrap().command {
        Some(Command::Backup(a)) => {
            assert!(!a.dry_run);
            assert_eq!(a.profile, Some("work".to_string()));
        }
        _ => panic!("expected Backup command"),
    }
}

#[test]
fn global_flags_are_read_before_and_after_the_subcommand() {
    let cli = Cli::try_parse_from(&["dfm", "-q", "sync"]).unwrap();
    assert!(cli.quiet && !cli.verbose && !cli.no_input);
    assert!(matches!(cli.command, Some(Command::Sync(_))));

    let cli = Cli::try_parse_from(&["dfm", "sync", "--verbose", "--no-input"]).unwrap();
    assert!(!cli.quiet && cli.verbose && cli.no_input);

    let cli = Cli::try_parse_from(&["dfm", "--quiet", "profile", "--no-input", "list", "--verbose"])
        .unwrap();
    assert!(cli.quiet && cli.verbose && cli.no_input);
    assert!(matches!(
        cli.command,
        Some(Command::Profile(ProfileArgs { action: Some(ProfileActions::List), json: false }))
    ));

    let cli = Cli::try_parse_from(&["dfm", "-q"]).unwrap();
    assert!(cli.quiet && cli.command.is_none());

    let cli = Cli::try_parse_from(&["dfm", "sync"]).unwrap();
    assert!(!cli.quiet && !cli.verbose && !cli.no_input);
}

#[test]
fn global_flags_once_per_level() {
    assert!(Cli::try_parse_from(&["dfm", "-q", "sync", "-q"]).unwrap().quiet);
    assert_eq!(Cli::try_parse_from(&["dfm", "-q", "-q", "sync"]).err(), Some(CliError::Usage));
    assert_eq!(Cli::try_parse_from(&["dfm", "-qq"]).err(), Some(CliError::Usage));
    assert_eq!(Cli::try_parse_from(&["dfm", "sync", "-qnq"]).err(), Some(CliError::Usage));
    assert_eq!(Cli::try_parse_from(&["dfm", "--quiet=yes"]).err(), Some(CliError::Usage));
    assert_eq!(Cli::try_parse_from(&["dfm", "-qh"]).err(), Some(CliError::DisplayHelp));
    assert_eq!(Cli::try_parse_from(&["dfm", "-qV"]).err(), Some(CliError::DisplayVersion));
    let cli = Cli::try_parse_from(&["dfm", "sync", "-qn"]).unwrap();
    assert!(cli.quiet);
    match cli.command {
        Some(Command::Sync(a)) => assert!(a.dry_run),
        _ => panic!("expected Sync command"),
    }
}

#[test]
fn git_passes_global_flags_after_its_first_argument_through() {
    let cli = Cli::try_parse_from(&["dfm", "git", "--quiet", "status", "--quiet"]).unwrap();
    assert!(cli.quiet);
    match cli.command {
        Some(Command::Git(a)) => assert_eq!(a.args, vec!["status", "--quiet"]),
        _ => panic!("expected Git command"),
    }
}

#[test]
fn completions_and_man_parse() {
    for (name, shell) in [
        ("bash", Shell::Bash),
        ("elvish", Shell::Elvish),
        ("fish", Shell::Fish),
        ("powershell", Shell::PowerShell),
        ("zsh", Shell::Zsh),
    ] {
        match Cli::try_parse_from(&["dfm", "completions", name]).unwrap().command {
            Some(Command::Completions(a)) => assert_eq!(a.shell, shell),
            _ => panic!("expected Completions command"),
        }
    }
    assert_eq!(Cli::try_parse_from(&["dfm", "completions"]).err(), Some(CliError::Usage));
    assert_eq!(
        Cli::try_parse_from(&["dfm", "completions", "tcsh"]).err(),
        Some(CliError::Usage)
    );
    assert!(matches!(
        Cli::try_parse_from(&["dfm", "man"]).unwrap().command,
        Some(Command::Man)
    ));
    assert_eq!(Cli::try_parse_from(&["dfm", "help", "man"]).err(), Some(CliError::DisplayHelp));
}
