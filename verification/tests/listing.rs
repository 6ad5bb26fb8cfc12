use portfolio_tui::app::App;
use portfolio_tui::github::{Repo, RepoOwner};
use portfolio_tui::listing::{decimal_string, entry_string, nav_label, projects_string};

fn described(name: &str, description: Option<&str>) -> Repo {
    Repo {
        name: name.to_string(),
        html_url: String::new(),
        description: description.map(|d| d.to_string()),
        owner: RepoOwner { login: "me".to_string() },
    }
}

#[test]
fn decimal_strings() {
    assert_eq!(decimal_string(0), "0");
    assert_eq!(decimal_string(7), "7");
    assert_eq!(decimal_string(9), "9");
    assert_eq!(decimal_string(10), "10");
    assert_eq!(decimal_string(11), "11");
    assert_eq!(decimal_string(100), "100");
    assert_eq!(decimal_string(1234567890), "1234567890");
    assert_eq!(decimal_string(usize::MAX), usize::MAX.to_string());
}

#[test]
fn entry_with_description() {
    assert_eq!(
        entry_string(3, &described("tool", Some("does things"))),
        "(3) tool\ndoes things\n"
    );
}

#[test]
fn entry_without_description() {
    assert_eq!(
        entry_string(12, &described("tool", None)),
        "(12) tool\nNo description provided.\n"
    );
}

#[test]
fn nav_labels_are_padded() {
    assert_eq!(nav_label("(h)ome"), " (h)ome ");
    assert_eq!(nav_label(""), "  ");
}

#[test]
fn text_while_loading() {
    let mut app = App::new();
    app.start_loading_projects();
    app.set_project_error("e".to_string());
    app.set_projects(vec![described("a", None)]);
    assert_eq!(projects_string(&app), "Loading projects from GitHub\u{2026}");
}

#[test]
fn text_after_failure() {
    let mut app = App::new();
    app.set_project_error("network unreachable".to_string());
    app.set_projects(vec![described("a", None)]);
    assert_eq!(projects_string(&app), "Error loading projects:\n\nnetwork unreachable");
}

#[test]
fn text_without_projects() {
    assert_eq!(projects_string(&App::new()), "No projects found.");
}

#[test]
fn text_with_one_project() {
    let mut app = App::new();
    app.set_projects(vec![described("a", Some("first"))]);
    assert_eq!(projects_string(&app), "(1) a\nfirst\n");
}

#[test]
fn text_with_projects() {
    let mut app = App::new();
    app.set_projects(vec![
        described("a", Some("first")),
        described("b", None),
        described("c", Some("third")),
    ]);
    assert_eq!(
        projects_string(&app),
        "(1) a\nfirst\n\n(2) b\nNo description provided.\n\n(3) c\nthird\n"
    );
}

#[test]
fn text_numbers_past_nine() {
    let mut app = App::new();
    let mut projects = Vec::new();
    for i in 0..11 {
        projects.push(described(&format!("p{}", i), Some("d")));
    }
    app.set_projects(projects);
    let text = projects_string(&app);
    assert!(text.starts_with("(1) p0\nd\n\n(2) p1\nd\n"));
    assert!(text.ends_with("\n(10) p9\nd\n\n(11) p10\nd\n"));
}
