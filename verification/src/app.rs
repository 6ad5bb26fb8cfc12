//! The application state: one record that the fetch task and the main loop
//! share, and the single-field updates that each of them makes to it.

use vstd::prelude::*;
use crate::github::{copy_repos, copy_text, records, text_of, Repo, RepoView};

verus! {

/// The two views that the interface can show.
#[derive(Clone, Copy, PartialEq, Eq, Structural, Debug)]
pub enum Screen {
    Home,
    Projects,
}

/// The application state.
///
/// `current_screen` and `should_quit` belong to the main loop; `projects`,
/// `project_error` and `projects_loading` belong to the fetch task.
#[derive(Debug)]
pub struct App {
    pub current_screen: Screen,
    pub should_quit: bool,
    pub projects: Vec<Repo>,
    pub project_error: Option<String>,
    pub projects_loading: bool,
}

/// What an `App` holds, as plain values.
pub struct AppView {
    pub current_screen: Screen,
    pub should_quit: bool,
    pub projects: Seq<RepoView>,
    pub project_error: Option<Seq<char>>,
    pub projects_loading: bool,
}

impl AppView {
    /// The state that every run starts from: the home screen, nothing
    /// fetched, no error, not loading, not quitting.
    pub open spec fn initial() -> AppView {
        AppView {
            current_screen: Screen::Home,
            should_quit: false,
            projects: Seq::empty(),
            project_error: None,
            projects_loading: false,
        }
    }
}

/// The link of the project with the given number, counted from 1, if the
/// list has a project of that number.
pub open spec fn selected_link(projects: Seq<RepoView>, number: int) -> Option<Seq<char>> {
    if 1 <= number <= projects.len() {
        Some(projects[number - 1].html_url)
    } else {
        None
    }
}

impl View for App {
    type V = AppView;

    open spec fn view(&self) -> AppView {
        AppView {
            current_screen: self.current_screen,
            should_quit: self.should_quit,
            projects: records(self.projects@),
            project_error: text_of(self.project_error),
            projects_loading: self.projects_loading,
        }
    }
}

impl App {
    /// The initial state.
    pub fn new() -> (app: Self)
        ensures
            app@ == AppView::initial(),
    {
        let app = App {
            current_screen: Screen::Home,
            should_quit: false,
            projects: Vec::new(),
            project_error: None,
            projects_loading: false,
        };
        assert(app@.projects =~= Seq::empty());
        app
    }

    /// Marks the fetch as under way.
    pub fn start_loading_projects(&mut self)
        ensures
            final(self)@ == (AppView { projects_loading: true, ..old(self)@ }),
    {
        self.projects_loading = true;
    }

    /// Marks the fetch as over.
    pub fn finish_loading_projects(&mut self)
        ensures
            final(self)@ == (AppView { projects_loading: false, ..old(self)@ }),
    {
        self.projects_loading = false;
    }

    /// Asks the main loop to end.
    pub fn quit(&mut self)
        ensures
            final(self)@ == (AppView { should_quit: true, ..old(self)@ }),
    {
        self.should_quit = true;
    }

    /// Shows the home screen.
    pub fn go_home(&mut self)
        ensures
            final(self)@ == (AppView { current_screen: Screen::Home, ..old(self)@ }),
    {
        self.current_screen = Screen::Home;
    }

    /// Shows the projects screen.
    pub fn go_projects(&mut self)
        ensures
            final(self)@ == (AppView { current_screen: Screen::Projects, ..old(self)@ }),
    {
        self.current_screen = Screen::Projects;
    }

    /// Replaces the project list.
    pub fn set_projects(&mut self, projects: Vec<Repo>)
        ensures
            final(self)@ == (AppView { projects: records(projects@), ..old(self)@ }),
    {
        self.projects = projects;
    }

    /// Records why the fetch failed.
    pub fn set_project_error(&mut self, err: String)
        ensures
            final(self)@ == (AppView { project_error: Some(err@), ..old(self)@ }),
    {
        self.project_error = Some(err);
    }

    /// A copy of the link of the project with the given number, counted
    /// from 1. There is none for 0 and for a number past the end of the list.
    pub fn project_link(&self, number: usize) -> (link: Option<String>)
        ensures
            text_of(link) == selected_link(self@.projects, number as int),
    {
        if number == 0 || number > self.projects.len() {
            None
        } else {
            Some(self.projects[number - 1].html_url.clone())
        }
    }
}

impl Clone for App {
    /// A snapshot: a copy that owns all of its data and holds what `self`
    /// holds at the time of the call.
    fn clone(&self) -> (snapshot: Self)
        ensures
            snapshot@ == self@,
    {
        App {
            current_screen: self.current_screen,
            should_quit: self.should_quit,
            projects: copy_repos(&self.projects),
            project_error: copy_text(&self.project_error),
            projects_loading: self.projects_loading,
        }
    }
}

} // verus!
