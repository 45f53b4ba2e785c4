use dotfiles_manager::sections::{
    dry_run_lines, fix_failed, fix_report_lines, progress_header_lines, restore_question,
    section_lines, section_summary, EntryStatus, FixOutcome,
};

const GREEN: &str = "\u{1b}[32m";
const YELLOW: &str = "\u{1b}[33m";
const RED: &str = "\u{1b}[31m";
const RESET: &str = "\u{1b}[0m";

fn outcome(label: &str, id: &str, status: EntryStatus) -> (String, String, EntryStatus) {
    (label.to_string(), id.to_string(), status)
}

fn sample() -> Vec<(String, String, EntryStatus)> {
    vec![
        outcome("zsh", "zshrc", EntryStatus::Done { note: None }),
        outcome("git", "gitconfig", EntryStatus::Skipped { reason: "missing".to_string() }),
        outcome("nvim", "nvim", EntryStatus::Done { note: Some("linked".to_string()) }),
    ]
}

#[test]
fn section_lines_list_every_entry_when_not_quiet() {
    let warnings = vec!["registry is old".to_string()];
    let (out, err) = section_lines("Configurations", &warnings, &sample(), false);
    assert_eq!(
        out,
        vec![
            "   Configurations: 3 entries".to_string(),
            format!("     {GREEN}✔{RESET} zsh"),
            format!("     {GREEN}✔{RESET} nvim"),
            "       linked".to_string(),
        ]
    );
    assert_eq!(
        err,
        vec![
            format!("{YELLOW}     registry is old{RESET}"),
            format!("{YELLOW}     skipped git (gitconfig): missing{RESET}"),
        ]
    );
}

#[test]
fn section_lines_keep_only_warnings_and_skips_when_quiet() {
    let warnings = vec!["registry is old".to_string()];
    let (out, err) = section_lines("Configurations", &warnings, &sample(), true);
    assert!(out.is_empty());
    assert_eq!(err.len(), 2);
    assert_eq!(err[1], format!("{YELLOW}     skipped git (gitconfig): missing{RESET}"));
}

#[test]
fn section_lines_of_an_empty_section() {
    let (out, err) = section_lines("Package managers", &Vec::new(), &Vec::new(), false);
    assert_eq!(out, vec!["   Package managers: 0 entries".to_string()]);
    assert!(err.is_empty());
}

#[test]
fn section_summary_counts_done_and_skipped() {
    assert_eq!(
        section_summary("Configurations", &sample()),
        "   Configurations completed: 2 succeeded, 1 skipped"
    );
    assert_eq!(
        section_summary("Encrypted configs", &Vec::new()),
        "   Encrypted configs completed: 0 succeeded, 0 skipped"
    );
}

fn fixed(label: &str, path: &str, outcome: FixOutcome) -> (String, String, FixOutcome) {
    (label.to_string(), path.to_string(), outcome)
}

#[test]
fn fix_report_lines_show_each_outcome() {
    let files = vec![
        fixed("config registry", "/d/configs.toml", FixOutcome::Rewritten),
        fixed("package registry", "/d/packages.toml", FixOutcome::Missing),
        fixed("profiles", "/d/profiles.toml", FixOutcome::Failed("denied".to_string())),
    ];
    assert_eq!(
        fix_report_lines(&files),
        vec![
            " Fix".to_string(),
            format!("{GREEN} ✔ Rewrote config registry (/d/configs.toml){RESET}"),
            " - package registry does not exist, skipped".to_string(),
            format!("{RED} x Could not rewrite profiles (/d/profiles.toml): denied{RESET}"),
        ]
    );
    assert!(fix_failed(&files));
    assert!(!fix_failed(&files[..2].to_vec()));
    assert!(!fix_failed(&Vec::new()));
    assert_eq!(fix_report_lines(&Vec::new()), vec![" Fix".to_string()]);
}

fn entry(name: &str, detail: &str) -> (String, String) {
    (name.to_string(), detail.to_string())
}

#[test]
fn backup_dry_run_lists_every_registry() {
    let configs = vec![entry("zsh", "/home/u/.zshrc")];
    let packages = vec![entry("brew", "brew bundle dump"), entry("cargo", "cargo install --list")];
    let encrypted = Vec::new();
    assert_eq!(
        dry_run_lines("work", &configs, Some(&packages), Some(&encrypted)),
        vec![
            "Dry run: nothing was written",
            "   Target: work",
            "   Configurations (1):",
            "     zsh (/home/u/.zshrc)",
            "   Package managers (2):",
            "     brew (brew bundle dump)",
            "     cargo (cargo install --list)",
            "   Encrypted configs (0):",
        ]
    );
}

#[test]
fn restore_dry_run_skips_encrypted_when_asked() {
    let configs = vec![entry("zsh", "/home/u/.zshrc")];
    assert_eq!(
        dry_run_lines("common", &configs, None, None),
        vec![
            "Dry run: nothing was written",
            "   Target: common",
            "   Configurations (1):",
            "     zsh (/home/u/.zshrc)",
            "   Encrypted configs: skipped (--skip-encrypted)",
        ]
    );
}

#[test]
fn run_header_is_dropped_when_quiet() {
    assert_eq!(
        progress_header_lines("Backing up", "work", false),
        vec!["Backing up...", "   Target: work"]
    );
    assert!(progress_header_lines("Restoring", "work", true).is_empty());
    assert_eq!(
        restore_question("work"),
        "Restore will overwrite existing files at their original paths for 'work'. Continue?"
    );
}
