use portfolio_tui::app::{App, Screen};
use portfolio_tui::github::{Repo, RepoOwner};

fn repo(name: &str, url: &str, description: Option<&str>, owner: &str) -> Repo {
    Repo {
        name: name.to_string(),
        html_url: url.to_string(),
        description: description.map(|d| d.to_string()),
        owner: RepoOwner { login: owner.to_string() },
    }
}

#[test]
fn new_app_is_initial() {
    let app = App::new();
    assert!(app.current_screen == Screen::Home);
    assert!(!app.should_quit);
    assert!(app.projects.is_empty());
    assert_eq!(app.project_error, None);
    assert!(!app.projects_loading);
}

#[test]
fn loading_flag_is_set_and_cleared() {
    let mut app = App::new();
    app.start_loading_projects();
    assert!(app.projects_loading);
    assert!(app.projects.is_empty());
    assert_eq!(app.project_error, None);
    app.finish_loading_projects();
    assert!(!app.projects_loading);
}

#[test]
fn quit_sets_only_the_flag() {
    let mut app = App::new();
    app.go_projects();
    app.quit();
    assert!(app.should_quit);
    assert!(app.current_screen == Screen::Projects);
    assert!(app.projects.is_empty());
    assert!(!app.projects_loading);
}

#[test]
fn navigation_switches_screens() {
    let mut app = App::new();
    app.go_projects();
    assert!(app.current_screen == Screen::Projects);
    app.go_projects();
    assert!(app.current_screen == Screen::Projects);
    app.go_home();
    assert!(app.current_screen == Screen::Home);
    assert!(!app.should_quit);
}

#[test]
fn set_projects_replaces_the_list() {
    let mut app = App::new();
    app.set_projects(vec![
        repo("a", "https://example.org/a", None, "me"),
        repo("b", "https://example.org/b", Some("second"), "me"),
    ]);
    assert_eq!(app.projects.len(), 2);
    assert_eq!(app.projects[0].name, "a");
    assert_eq!(app.projects[1].html_url, "https://example.org/b");
    assert_eq!(app.projects[1].description.as_deref(), Some("second"));
    assert_eq!(app.project_error, None);
    app.set_projects(vec![repo("c", "https://example.org/c", None, "me")]);
    assert_eq!(app.projects.len(), 1);
    assert_eq!(app.projects[0].name, "c");
}

#[test]
fn set_project_error_keeps_projects() {
    let mut app = App::new();
    app.set_projects(vec![repo("a", "https://example.org/a", None, "me")]);
    app.set_project_error("boom".to_string());
    assert_eq!(app.project_error.as_deref(), Some("boom"));
    assert_eq!(app.projects.len(), 1);
}

#[test]
fn project_link_counts_from_one() {
    let mut app = App::new();
    assert_eq!(app.project_link(0), None);
    assert_eq!(app.project_link(1), None);
    app.set_projects(vec![
        repo("a", "https://example.org/a", None, "me"),
        repo("b", "https://example.org/b", None, "me"),
    ]);
    assert_eq!(app.project_link(0), None);
    assert_eq!(app.project_link(1).as_deref(), Some("https://example.org/a"));
    assert_eq!(app.project_link(2).as_deref(), Some("https://example.org/b"));
    assert_eq!(app.project_link(3), None);
    assert_eq!(app.project_link(usize::MAX), None);
}

#[test]
fn clone_is_an_independent_copy() {
    let mut app = App::new();
    app.set_projects(vec![repo("a", "https://example.org/a", Some("d"), "me")]);
    app.set_project_error("e".to_string());
    app.go_projects();
    app.start_loading_projects();
    let copy = app.clone();
    app.set_projects(Vec::new());
    app.quit();
    app.go_home();
    app.finish_loading_projects();
    assert!(copy.current_screen == Screen::Projects);
    assert!(!copy.should_quit);
    assert!(copy.projects_loading);
    assert_eq!(copy.projects.len(), 1);
    assert_eq!(copy.projects[0].name, "a");
    assert_eq!(copy.projects[0].html_url, "https://example.org/a");
    assert_eq!(copy.projects[0].description.as_deref(), Some("d"));
    assert_eq!(copy.projects[0].owner.login, "me");
    assert_eq!(copy.project_error.as_deref(), Some("e"));
}
