//! The shared state store.
//!
//! The store owns the application state and changes it only by whole
//! mutations, each committed while the caller has exclusive access. Whatever
//! the order in which the fetch task and the main loop get that access, the
//! store holds at every instant the state that the mutations committed so
//! far produce when replayed in the order of their commits.

use vstd::prelude::*;
use crate::app::{selected_link, App, AppView, Screen};
use crate::github::{records, text_of, Repo, RepoView};

verus! {

/// One change to the application state, committed as a whole.
///
/// The first three come from the fetch task, the last two from the main loop.
#[derive(Debug)]
pub enum Mutation {
    /// The fetch has started.
    StartLoading,
    /// The fetch has ended with these records.
    FetchSucceeded(Vec<Repo>),
    /// The fetch has ended with this message.
    FetchFailed(String),
    /// The user asked to leave.
    Quit,
    /// The user asked for a screen.
    Navigate(Screen),
}

/// What a `Mutation` holds, as plain values.
pub enum MutationView {
    StartLoading,
    FetchSucceeded(Seq<RepoView>),
    FetchFailed(Seq<char>),
    Quit,
    Navigate(Screen),
}

impl View for Mutation {
    type V = MutationView;

    open spec fn view(&self) -> MutationView {
        match *self {
            Mutation::StartLoading => MutationView::StartLoading,
            Mutation::FetchSucceeded(repos) => MutationView::FetchSucceeded(records(repos@)),
            Mutation::FetchFailed(message) => MutationView::FetchFailed(message@),
            Mutation::Quit => MutationView::Quit,
            Mutation::Navigate(screen) => MutationView::Navigate(screen),
        }
    }
}

impl MutationView {
    /// Whether the fetch task commits this mutation; the main loop commits
    /// the others.
    pub open spec fn from_fetch(self) -> bool {
        self is StartLoading || self is FetchSucceeded || self is FetchFailed
    }

    /// Whether the main loop commits this mutation.
    pub open spec fn from_main_loop(self) -> bool {
        !self.from_fetch()
    }
}

/// The state after one mutation.
pub open spec fn apply(s: AppView, m: MutationView) -> AppView {
    match m {
        MutationView::StartLoading => AppView { projects_loading: true, ..s },
        MutationView::FetchSucceeded(repos) => AppView {
            projects: repos,
            projects_loading: false,
            ..s
        },
        MutationView::FetchFailed(message) => AppView {
            project_error: Some(message),
            projects_loading: false,
            ..s
        },
        MutationView::Quit => AppView { should_quit: true, ..s },
        MutationView::Navigate(screen) => AppView { current_screen: screen, ..s },
    }
}

/// The state after a sequence of mutations, the first one applied first.
pub open spec fn replay(s: AppView, ms: Seq<MutationView>) -> AppView
    decreases ms.len(),
{
    if ms.len() == 0 {
        s
    } else {
        apply(replay(s, ms.drop_last()), ms.last())
    }
}

/// The mutations of `ms` that the fetch task committed, in their order.
pub open spec fn fetch_part(ms: Seq<MutationView>) -> Seq<MutationView> {
    ms.filter(|m: MutationView| m.from_fetch())
}

/// The mutations of `ms` that the main loop committed, in their order.
pub open spec fn main_loop_part(ms: Seq<MutationView>) -> Seq<MutationView> {
    ms.filter(|m: MutationView| m.from_main_loop())
}

/// Replaying one more mutation applies it to the state replayed so far.
pub proof fn lemma_replay_push(s: AppView, ms: Seq<MutationView>, m: MutationView)
    ensures
        replay(s, ms.push(m)) == apply(replay(s, ms), m),
{
    assert(ms.push(m).drop_last() =~= ms);
}

/// No torn read of the project list: after any sequence of mutations the
/// list is the one the state started with, or it is, whole, the list that one
/// of the committed successes carried.
pub proof fn lemma_projects_whole(s: AppView, ms: Seq<MutationView>)
    ensures
        replay(s, ms).projects == s.projects || exists|i: int|
            0 <= i < ms.len() && #[trigger] ms[i] == MutationView::FetchSucceeded(
                replay(s, ms).projects,
            ),
    decreases ms.len(),
{
    if ms.len() > 0 {
        let earlier = ms.drop_last();
        lemma_projects_whole(s, earlier);
        let before = replay(s, earlier);
        let after = replay(s, ms);
        if ms.last() is FetchSucceeded {
            assert(ms[ms.len() - 1] == MutationView::FetchSucceeded(after.projects));
        } else if before.projects != s.projects {
            let i = choose|i: int|
                0 <= i < earlier.len() && #[trigger] earlier[i] == MutationView::FetchSucceeded(
                    before.projects,
                );
            assert(ms[i] == MutationView::FetchSucceeded(after.projects));
        }
    }
}

/// Each actor's fields depend on that actor's mutations alone: what the
/// fetch task owns is what its own mutations produce in their order, and so
/// is what the main loop owns, wherever the other's mutations fall between.
pub proof fn lemma_actors_independent(s: AppView, ms: Seq<MutationView>)
    ensures
        replay(s, ms).projects == replay(s, fetch_part(ms)).projects,
        replay(s, ms).project_error == replay(s, fetch_part(ms)).project_error,
        replay(s, ms).projects_loading == replay(s, fetch_part(ms)).projects_loading,
        replay(s, ms).current_screen == replay(s, main_loop_part(ms)).current_screen,
        replay(s, ms).should_quit == replay(s, main_loop_part(ms)).should_quit,
    decreases ms.len(),
{
    reveal(Seq::filter);
    if ms.len() > 0 {
        let earlier = ms.drop_last();
        let last = ms.last();
        lemma_actors_independent(s, earlier);
        if last.from_fetch() {
            assert(fetch_part(ms) == fetch_part(earlier).push(last));
            assert(main_loop_part(ms) == main_loop_part(earlier));
            lemma_replay_push(s, fetch_part(earlier), last);
        } else {
            assert(fetch_part(ms) == fetch_part(earlier));
            assert(main_loop_part(ms) == main_loop_part(earlier).push(last));
            lemma_replay_push(s, main_loop_part(earlier), last);
        }
    }
}

/// Every interleaving is a valid serialization: two commit orders in which
/// each actor's own mutations come in the same order end in the same state.
pub proof fn lemma_interleavings_agree(s: AppView, a: Seq<MutationView>, b: Seq<MutationView>)
    requires
        fetch_part(a) == fetch_part(b),
        main_loop_part(a) == main_loop_part(b),
    ensures
        replay(s, a) == replay(s, b),
{
    lemma_actors_independent(s, a);
    lemma_actors_independent(s, b);
}

/// The application state behind whole-mutation access.
pub struct Store {
    app: App,
    log: Ghost<Seq<MutationView>>,
}

impl View for Store {
    type V = AppView;

    closed spec fn view(&self) -> AppView {
        self.app@
    }
}

impl Store {
    #[verifier::type_invariant]
    spec fn consistent(self) -> bool {
        self.app@ == replay(AppView::initial(), self.log@)
    }

    /// The mutations committed so far, in the order of their commits.
    pub closed spec fn history(self) -> Seq<MutationView> {
        self.log@
    }

    /// A store in the initial state, with nothing committed.
    pub fn new() -> (store: Self)
        ensures
            store@ == AppView::initial(),
            store.history() == Seq::<MutationView>::empty(),
            store@ == replay(AppView::initial(), store.history()),
    {
        Store { app: App::new(), log: Ghost(Seq::empty()) }
    }

    /// Commits one mutation in one step: the state changes as the mutation
    /// says and the mutation joins the history.
    pub fn commit(&mut self, m: Mutation)
        ensures
            final(self)@ == apply(old(self)@, m@),
            final(self).history() == old(self).history().push(m@),
            final(self)@ == replay(AppView::initial(), final(self).history()),
    {
        proof {
            use_type_invariant(&*self);
        }
        let ghost before = self.log@;
        let ghost change = m@;
        let mut taken = Store::new();
        std::mem::swap(&mut taken, self);
        let mut app = taken.app;
        match m {
            Mutation::StartLoading => {
                app.start_loading_projects();
            },
            Mutation::FetchSucceeded(repos) => {
                app.set_projects(repos);
                app.finish_loading_projects();
            },
            Mutation::FetchFailed(message) => {
                app.set_project_error(message);
                app.finish_loading_projects();
            },
            Mutation::Quit => {
                app.quit();
            },
            Mutation::Navigate(screen) => {
                match screen {
                    Screen::Home => app.go_home(),
                    Screen::Projects => app.go_projects(),
                }
            },
        }
        proof {
            assert(before.push(change).drop_last() =~= before);
        }
        *self = Store { app, log: Ghost(before.push(change)) };
    }

    /// Whether the user has asked to leave.
    pub fn should_quit(&self) -> (quit: bool)
        ensures
            quit == self@.should_quit,
    {
        self.app.should_quit
    }

    /// A copy of the link of the project with the given number, counted
    /// from 1. There is none for 0 and for a number past the end of the list.
    pub fn project_link(&self, number: usize) -> (link: Option<String>)
        ensures
            text_of(link) == selected_link(self@.projects, number as int),
    {
        self.app.project_link(number)
    }

    /// A snapshot: an independent copy of the state as it is now, which is
    /// the state that the committed mutations produce from the initial one.
    pub fn snapshot(&self) -> (copy: App)
        ensures
            copy@ == self@,
            copy@ == replay(AppView::initial(), self.history()),
    {
        proof {
            use_type_invariant(self);
        }
        self.app.clone()
    }

    /// Snapshots taken with no commit between them hold the same state.
    pub proof fn lemma_snapshots_agree(self, first: App, second: App)
        requires
            first@ == self@,
            second@ == self@,
        ensures
            first@ == second@,
    {
    }
}

} // verus!
