//! `new-project`: what is reported, and whether settings are saved, once a
//! project folder has been ensured and registered.
use vstd::prelude::*;
use crate::text::{append_str, string_of};

verus! {

broadcast use vstd::string::group_string_axioms;

/// The arguments of `new-project`.
pub struct NewProjectArgs {
    /// Folder to make into a project; created when missing.
    pub path: String,
}

/// Printed when the settings hold malformed project metadata.
pub const MALFORMED_PROJECTS_ERROR: &'static str =
    "Error: settings.json has malformed project metadata; refusing to modify the project list. Fix or remove the corrupt project fields first.";

/// What `new-project` reports after the registration step.
pub struct NewProjectReport {
    /// The settings changed and are saved (and the project announced).
    pub save: bool,
    /// The status lines, in order.
    pub lines: Vec<String>,
}

pub open spec fn new_project_lines(path: Seq<char>, created: bool, registered: bool) -> Seq<Seq<char>> {
    seq![
        if created {
            "Created AC project at "@ + path
        } else {
            "AC project already exists at "@ + path
        },
        if registered {
            "Registered project: "@ + path
        } else {
            "Project already registered: "@ + path
        },
    ]
}

/// The report for `path`: saved when the project folder was `created` or the
/// path newly `registered`; one line on each of the two.
pub fn new_project_report(path: &str, created: bool, registered: bool) -> (r: NewProjectReport)
    ensures
        r.save == (created || registered),
        r.lines@.len() == 2,
        r.lines@[0]@ == new_project_lines(path@, created, registered)[0],
        r.lines@[1]@ == new_project_lines(path@, created, registered)[1],
{
    let mut first: Vec<char> = Vec::new();
    if created {
        append_str(&mut first, "Created AC project at ");
    } else {
        append_str(&mut first, "AC project already exists at ");
    }
    append_str(&mut first, path);
    let mut second: Vec<char> = Vec::new();
    if registered {
        append_str(&mut second, "Registered project: ");
    } else {
        append_str(&mut second, "Project already registered: ");
    }
    append_str(&mut second, path);
    let lines = vec![string_of(&first), string_of(&second)];
    NewProjectReport { save: created || registered, lines }
}

} // verus!
