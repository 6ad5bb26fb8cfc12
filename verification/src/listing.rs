//! The text that the interface shows for a snapshot: the body of the
//! projects screen and the labels of the navigation bar.

use vstd::prelude::*;
use crate::app::{App, AppView};
use crate::github::{Repo, RepoView};

verus! {

/// The character of a decimal digit.
pub open spec fn digit_char(d: nat) -> char
    recommends
        d < 10,
{
    if d == 0 {
        '0'
    } else if d == 1 {
        '1'
    } else if d == 2 {
        '2'
    } else if d == 3 {
        '3'
    } else if d == 4 {
        '4'
    } else if d == 5 {
        '5'
    } else if d == 6 {
        '6'
    } else if d == 7 {
        '7'
    } else if d == 8 {
        '8'
    } else {
        '9'
    }
}

/// A number in decimal, without leading zeros.
pub open spec fn decimal(n: nat) -> Seq<char>
    decreases n,
{
    if n < 10 {
        seq![digit_char(n)]
    } else {
        decimal(n / 10).push(digit_char(n % 10))
    }
}

/// The description of a record, or the stand-in for a record without one.
pub open spec fn description_text(r: RepoView) -> Seq<char> {
    match r.description {
        Some(d) => d,
        None => "No description provided."@,
    }
}

/// The entry of one project: its number in brackets and its name on one
/// line, its description on the next.
pub open spec fn entry_text(number: nat, r: RepoView) -> Seq<char> {
    "("@ + decimal(number) + ") "@ + r.name + "\n"@ + description_text(r) + "\n"@
}

/// The entries of the first `count` projects, numbered from 1, with an
/// empty line between one entry and the next.
pub open spec fn entries_text(projects: Seq<RepoView>, count: nat) -> Seq<char>
    recommends
        count <= projects.len(),
    decreases count,
{
    if count == 0 {
        Seq::empty()
    } else if count == 1 {
        entry_text(1, projects[0])
    } else {
        entries_text(projects, (count - 1) as nat) + "\n"@ + entry_text(
            count,
            projects[count - 1],
        )
    }
}

/// The body of the projects screen. A fetch under way comes first, then a
/// failure, then an empty list; else every project is listed.
pub open spec fn projects_text(s: AppView) -> Seq<char> {
    if s.projects_loading {
        "Loading projects from GitHub\u{2026}"@
    } else if let Some(message) = s.project_error {
        "Error loading projects:\n\n"@ + message
    } else if s.projects.len() == 0 {
        "No projects found."@
    } else {
        entries_text(s.projects, s.projects.len())
    }
}

/// The label of a navigation item, with a space on either side.
pub open spec fn nav_text(label: Seq<char>) -> Seq<char> {
    " "@ + label + " "@
}

fn digit_str(d: usize) -> (s: &'static str)
    requires
        d < 10,
    ensures
        s@ == seq![digit_char(d as nat)],
{
    proof {
        reveal_strlit("0");
        reveal_strlit("1");
        reveal_strlit("2");
        reveal_strlit("3");
        reveal_strlit("4");
        reveal_strlit("5");
        reveal_strlit("6");
        reveal_strlit("7");
        reveal_strlit("8");
        reveal_strlit("9");
    }
    let s = if d == 0 {
        "0"
    } else if d == 1 {
        "1"
    } else if d == 2 {
        "2"
    } else if d == 3 {
        "3"
    } else if d == 4 {
        "4"
    } else if d == 5 {
        "5"
    } else if d == 6 {
        "6"
    } else if d == 7 {
        "7"
    } else if d == 8 {
        "8"
    } else {
        "9"
    };
    assert(s@ =~= seq![digit_char(d as nat)]);
    s
}

/// Writes a number in decimal.
pub fn decimal_string(n: usize) -> (s: String)
    ensures
        s@ == decimal(n as nat),
    decreases n,
{
    if n < 10 {
        digit_str(n).to_owned()
    } else {
        let mut s = decimal_string(n / 10);
        s.append(digit_str(n % 10));
        assert(s@ =~= decimal((n / 10) as nat).push(digit_char((n % 10) as nat)));
        s
    }
}

/// Writes the entry of one project.
pub fn entry_string(number: usize, repo: &Repo) -> (s: String)
    ensures
        s@ == entry_text(number as nat, repo@),
{
    let mut s = "(".to_owned();
    s.append(decimal_string(number).as_str());
    s.append(") ");
    s.append(repo.name.as_str());
    s.append("\n");
    match &repo.description {
        Some(d) => s.append(d.as_str()),
        None => s.append("No description provided."),
    }
    s.append("\n");
    s
}

/// Writes the body of the projects screen for a snapshot.
pub fn projects_string(app: &App) -> (s: String)
    ensures
        s@ == projects_text(app@),
{
    if app.projects_loading {
        "Loading projects from GitHub\u{2026}".to_owned()
    } else if let Some(message) = &app.project_error {
        let mut s = "Error loading projects:\n\n".to_owned();
        s.append(message.as_str());
        s
    } else if app.projects.len() == 0 {
        "No projects found.".to_owned()
    } else {
        let mut s = entry_string(1, &app.projects[0]);
        let mut i: usize = 1;
        while i < app.projects.len()
            invariant
                1 <= i <= app.projects.len(),
                s@ == entries_text(app@.projects, i as nat),
            decreases app.projects.len() - i,
        {
            s.append("\n");
            s.append(entry_string(i + 1, &app.projects[i]).as_str());
            i += 1;
        }
        s
    }
}

/// Writes the label of a navigation item.
pub fn nav_label(label: &str) -> (s: String)
    ensures
        s@ == nav_text(label@),
{
    let mut s = " ".to_owned();
    s.append(label);
    s.append(" ");
    s
}

} // verus!
