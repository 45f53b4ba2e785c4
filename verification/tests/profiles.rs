use dotfiles_manager::profiles::{
    aborted_line, delete_question, profile_created_lines, profile_deleted_lines, profile_rows,
    profile_status_lines, ProfileRow,
};

fn profiles() -> Vec<(String, Option<String>)> {
    vec![
        ("home".to_string(), None),
        ("work".to_string(), Some("office laptop".to_string())),
    ]
}

#[test]
fn created_profile_lines_with_and_without_description() {
    assert_eq!(
        profile_created_lines("work", Some("office laptop")),
        vec![
            "Created profile 'work'",
            "   Description: office laptop",
            "",
            "Switch to this profile with: dfm use work",
        ]
    );
    assert_eq!(
        profile_created_lines("home", None),
        vec!["Created profile 'home'", "", "Switch to this profile with: dfm use home"]
    );
}

#[test]
fn deleting_a_profile_asks_and_reports() {
    assert_eq!(delete_question("work"), "Delete profile 'work'?");
    assert_eq!(aborted_line("deleted"), "Aborted, nothing was deleted");
    assert_eq!(aborted_line("restored"), "Aborted, nothing was restored");
    assert_eq!(profile_deleted_lines("work", None), vec!["Deleted profile 'work'"]);
    assert_eq!(
        profile_deleted_lines("work", Some("/d/profiles/work")),
        vec![
            "Profile directory exists at /d/profiles/work",
            "The directory was NOT deleted. Remove manually if desired:",
            "rm -rf /d/profiles/work",
            "Deleted profile 'work'",
        ]
    );
}

#[test]
fn profile_status_shows_the_active_profile_and_the_list() {
    assert_eq!(
        profile_status_lines(&profiles(), Some("work")),
        vec![
            "Active profile: work",
            "",
            "Available profiles:",
            "   home",
            "   work - office laptop ← active",
            "",
            "Use 'dfm use <profile>' to switch profiles",
        ]
    );
    assert_eq!(
        profile_status_lines(&Vec::new(), None),
        vec![
            "No active profile (using common only)",
            "",
            "No profiles configured",
            "",
            "Create a profile with: dfm profile create <name>",
            "",
            "Use 'dfm use <profile>' to switch profiles",
        ]
    );
}

#[test]
fn profile_rows_mark_only_the_active_profile() {
    assert_eq!(
        profile_rows(&profiles(), Some("home")),
        vec![
            ProfileRow { name: "home".to_string(), description: None, active: true },
            ProfileRow {
                name: "work".to_string(),
                description: Some("office laptop".to_string()),
                active: false,
            },
        ]
    );
    assert!(profile_rows(&profiles(), None).iter().all(|r| !r.active));
    assert!(profile_rows(&profiles(), Some("hom")).iter().all(|r| !r.active));
}
