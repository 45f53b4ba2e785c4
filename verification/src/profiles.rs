//! What `dfm profile` prints: the outcome of creating or deleting a profile,
//! the status of all profiles, and the rows of its JSON output.

use vstd::prelude::*;
use crate::output::{line_views, profile_list_lines, profile_list_text, push_line};
use crate::text::{chars_eq, chars_of, push_str};

verus! {

/// The characters of an optional string.
pub open spec fn opt_view(o: Option<&str>) -> Option<Seq<char>> {
    match o {
        Some(s) => Some(s@),
        None => None,
    }
}

/// The lines that announce a created profile: its name, its description
/// when it has one, a blank line, and how to switch to it.
pub open spec fn created_text(name: Seq<char>, description: Option<Seq<char>>) -> Seq<Seq<char>> {
    seq!["Created profile '"@ + name + "'"@] + match description {
        Some(d) => seq!["   Description: "@ + d],
        None => Seq::empty(),
    } + seq![Seq::empty(), "Switch to this profile with: dfm use "@ + name]
}

/// The lines that announce the created profile `name`.
pub fn profile_created_lines(name: &str, description: Option<&str>) -> (lines: Vec<String>)
    ensures
        line_views(lines@) == created_text(name@, opt_view(description)),
{
    let mut lines: Vec<String> = Vec::new();
    let mut t = String::new();
    push_str(&mut t, "Created profile '");
    push_str(&mut t, name);
    push_str(&mut t, "'");
    push_line(&mut lines, t);
    match description {
        Some(d) => {
            let mut t = String::new();
            push_str(&mut t, "   Description: ");
            push_str(&mut t, d);
            push_line(&mut lines, t);
        },
        None => {},
    }
    push_line(&mut lines, String::new());
    let mut t = String::new();
    push_str(&mut t, "Switch to this profile with: dfm use ");
    push_str(&mut t, name);
    push_line(&mut lines, t);
    assert(line_views(lines@) =~= created_text(name@, opt_view(description)));
    lines
}

/// The question asked before the profile `name` is deleted.
pub fn delete_question(name: &str) -> (q: String)
    ensures
        q@ == "Delete profile '"@ + name@ + "'?"@,
{
    let mut q = String::new();
    push_str(&mut q, "Delete profile '");
    push_str(&mut q, name);
    push_str(&mut q, "'?");
    q
}

/// The line printed when a confirmation is declined: nothing was done.
pub fn aborted_line(nothing_was: &str) -> (l: String)
    ensures
        l@ == "Aborted, nothing was "@ + nothing_was@,
{
    let mut l = String::new();
    push_str(&mut l, "Aborted, nothing was ");
    push_str(&mut l, nothing_was);
    l
}

/// The lines that announce the deleted profile `name`: when its directory
/// was kept, where it is and how to remove it, then the deletion itself.
pub open spec fn deleted_text(name: Seq<char>, retained_directory: Option<Seq<char>>) -> Seq<
    Seq<char>,
> {
    (match retained_directory {
        Some(dir) => seq![
            "Profile directory exists at "@ + dir,
            "The directory was NOT deleted. Remove manually if desired:"@,
            "rm -rf "@ + dir,
        ],
        None => Seq::empty(),
    }) + seq!["Deleted profile '"@ + name + "'"@]
}

/// The lines that announce the deleted profile `name`.
pub fn profile_deleted_lines(name: &str, retained_directory: Option<&str>) -> (lines: Vec<String>)
    ensures
        line_views(lines@) == deleted_text(name@, opt_view(retained_directory)),
{
    let mut lines: Vec<String> = Vec::new();
    match retained_directory {
        Some(dir) => {
            let mut t = String::new();
            push_str(&mut t, "Profile directory exists at ");
            push_str(&mut t, dir);
            push_line(&mut lines, t);
            push_line(
                &mut lines,
                "The directory was NOT deleted. Remove manually if desired:".to_owned(),
            );
            let mut t = String::new();
            push_str(&mut t, "rm -rf ");
            push_str(&mut t, dir);
            push_line(&mut lines, t);
        },
        None => {},
    }
    let mut t = String::new();
    push_str(&mut t, "Deleted profile '");
    push_str(&mut t, name);
    push_str(&mut t, "'");
    push_line(&mut lines, t);
    assert(line_views(lines@) =~= deleted_text(name@, opt_view(retained_directory)));
    lines
}

/// What `dfm profile` with no action prints: the active profile, or that
/// only the common files are in use, then the profile list, then how to
/// switch.
pub open spec fn status_text(profiles: Seq<(String, Option<String>)>, active: Option<Seq<char>>) -> Seq<
    Seq<char>,
> {
    seq![
        match active {
            Some(a) => "Active profile: "@ + a,
            None => "No active profile (using common only)"@,
        },
        Seq::empty(),
    ] + profile_list_text(profiles, active) + seq![
        Seq::empty(),
        "Use 'dfm use <profile>' to switch profiles"@,
    ]
}

/// The lines that `dfm profile` with no action prints.
pub fn profile_status_lines(profiles: &Vec<(String, Option<String>)>, active: Option<&str>) -> (lines:
    Vec<String>)
    ensures
        line_views(lines@) == status_text(profiles@, opt_view(active)),
{
    let mut lines: Vec<String> = Vec::new();
    match active {
        Some(a) => {
            let mut t = String::new();
            push_str(&mut t, "Active profile: ");
            push_str(&mut t, a);
            push_line(&mut lines, t);
        },
        None => push_line(&mut lines, "No active profile (using common only)".to_owned()),
    }
    push_line(&mut lines, String::new());
    let list = profile_list_lines(profiles, active);
    let ghost before = line_views(lines@);
    for i in 0..list.len()
        invariant
            line_views(lines@) == before + line_views(list@).take(i as int),
    {
        push_line(&mut lines, list[i].clone());
        assert(line_views(list@).take(i + 1) =~= line_views(list@).take(i as int).push(
            line_views(list@)[i as int],
        ));
    }
    let n = list.len();
    assert(line_views(list@).take(n as int) =~= line_views(list@));
    push_line(&mut lines, String::new());
    push_line(&mut lines, "Use 'dfm use <profile>' to switch profiles".to_owned());
    assert(line_views(lines@) =~= status_text(profiles@, opt_view(active)));
    lines
}

/// One profile as the JSON output shows it.
#[derive(Debug, Clone, PartialEq, Eq)]
pub struct ProfileRow {
    /// The profile's name.
    pub name: String,
    /// The profile's description, if any.
    pub description: Option<String>,
    /// Whether it is the active profile.
    pub active: bool,
}

/// The characters of an optional owned string.
pub open spec fn owned_view(o: Option<String>) -> Option<Seq<char>> {
    match o {
        Some(s) => Some(s@),
        None => None,
    }
}

/// The JSON rows for the profiles `(name, description)`, in order, the one
/// named `active` marked as such.
pub fn profile_rows(profiles: &Vec<(String, Option<String>)>, active: Option<&str>) -> (rows: Vec<
    ProfileRow,
>)
    ensures
        rows@.len() == profiles@.len(),
        forall|i: int|
            0 <= i < rows@.len() ==> {
                &&& (#[trigger] rows@[i]).name@ == profiles@[i].0@
                &&& owned_view(rows@[i].description) == owned_view(profiles@[i].1)
                &&& rows@[i].active == (opt_view(active) == Some(profiles@[i].0@))
            },
{
    let mut rows: Vec<ProfileRow> = Vec::new();
    for i in 0..profiles.len()
        invariant
            rows@.len() == i,
            forall|k: int|
                0 <= k < i ==> {
                    &&& (#[trigger] rows@[k]).name@ == profiles@[k].0@
                    &&& owned_view(rows@[k].description) == owned_view(profiles@[k].1)
                    &&& rows@[k].active == (opt_view(active) == Some(profiles@[k].0@))
                },
    {
        let (name, description) = &profiles[i];
        let is_active = match active {
            Some(a) => chars_eq(&chars_of(name.as_str()), &chars_of(a)),
            None => false,
        };
        let description = match description {
            Some(d) => Some(d.clone()),
            None => None,
        };
        rows.push(ProfileRow { name: name.clone(), description, active: is_active });
    }
    rows
}

} // verus!
