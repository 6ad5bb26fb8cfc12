//! The background fetch task: one attempt, no retry.
//!
//! The task goes from `NotStarted` to `Loading` and from there to `Succeeded`
//! or `Failed`, where it stays. It touches the store twice, once to announce
//! the fetch and once to commit what came back; the wait for the data
//! provider lies between the two, outside the store.

use vstd::prelude::*;
use crate::app::AppView;
use crate::github::{records, Repo, RepoView};
use crate::store::{apply, fetch_part, lemma_actors_independent, replay, Mutation, MutationView, Store};

verus! {

/// Where the fetch task stands.
#[derive(Clone, Copy, PartialEq, Eq, Structural, Debug)]
pub enum FetchPhase {
    NotStarted,
    Loading,
    Succeeded,
    Failed,
}

/// The one fetch task of a run.
pub struct FetchTask {
    phase: FetchPhase,
}

impl View for FetchTask {
    type V = FetchPhase;

    closed spec fn view(&self) -> FetchPhase {
        self.phase
    }
}

/// The mutation that commits what the data provider returned.
pub open spec fn completion(outcome: Result<Vec<Repo>, String>) -> MutationView {
    match outcome {
        Ok(repos) => MutationView::FetchSucceeded(records(repos@)),
        Err(message) => MutationView::FetchFailed(message@),
    }
}

/// The phase in which what the data provider returned leaves the task.
pub open spec fn completed_phase(outcome: Result<Vec<Repo>, String>) -> FetchPhase {
    match outcome {
        Ok(_) => FetchPhase::Succeeded,
        Err(_) => FetchPhase::Failed,
    }
}

impl FetchTask {
    /// A task that has not started.
    pub fn new() -> (task: Self)
        ensures
            task@ == FetchPhase::NotStarted,
    {
        FetchTask { phase: FetchPhase::NotStarted }
    }

    /// Where the task stands.
    pub fn phase(&self) -> (phase: FetchPhase)
        ensures
            phase == self@,
    {
        self.phase
    }

    /// Announces the fetch: a task that has not started commits
    /// `StartLoading` and is `Loading` from then on. A task in any other
    /// phase does nothing and returns `false`.
    pub fn start(&mut self, store: &mut Store) -> (started: bool)
        ensures
            started == (old(self)@ == FetchPhase::NotStarted),
            started ==> {
                &&& final(self)@ == FetchPhase::Loading
                &&& final(store)@ == apply(old(store)@, MutationView::StartLoading)
                &&& final(store).history() == old(store).history().push(
                    MutationView::StartLoading,
                )
            },
            !started ==> {
                &&& final(self)@ == old(self)@
                &&& final(store)@ == old(store)@
                &&& final(store).history() == old(store).history()
            },
    {
        match self.phase {
            FetchPhase::NotStarted => {
                store.commit(Mutation::StartLoading);
                self.phase = FetchPhase::Loading;
                true
            },
            _ => false,
        }
    }

    /// Commits what the data provider returned: a task that is `Loading`
    /// commits the records or the failure message, either one together with
    /// the end of loading, and is `Succeeded` or `Failed` from then on. A task
    /// in any other phase does nothing and returns `false`.
    pub fn complete(&mut self, store: &mut Store, outcome: Result<Vec<Repo>, String>) -> (committed:
        bool)
        ensures
            committed == (old(self)@ == FetchPhase::Loading),
            committed ==> {
                &&& final(self)@ == completed_phase(outcome)
                &&& final(store)@ == apply(old(store)@, completion(outcome))
                &&& final(store).history() == old(store).history().push(completion(outcome))
            },
            !committed ==> {
                &&& final(self)@ == old(self)@
                &&& final(store)@ == old(store)@
                &&& final(store).history() == old(store).history()
            },
    {
        match self.phase {
            FetchPhase::Loading => {
                match outcome {
                    Ok(repos) => {
                        store.commit(Mutation::FetchSucceeded(repos));
                        self.phase = FetchPhase::Succeeded;
                    },
                    Err(message) => {
                        store.commit(Mutation::FetchFailed(message));
                        self.phase = FetchPhase::Failed;
                    },
                }
                true
            },
            _ => false,
        }
    }
}

/// While the fetch is under way the state shows it: from the initial state,
/// once the task has announced the fetch and committed nothing else, the
/// state is loading and holds no project and no error, whatever the main
/// loop committed meanwhile.
pub proof fn lemma_loading_until_completed(ms: Seq<MutationView>)
    requires
        fetch_part(ms) == seq![MutationView::StartLoading],
    ensures
        replay(AppView::initial(), ms).projects_loading,
        replay(AppView::initial(), ms).projects == Seq::<RepoView>::empty(),
        replay(AppView::initial(), ms).project_error == None::<Seq<char>>,
{
    let s = AppView::initial();
    lemma_actors_independent(s, ms);
    lemma_replay_one(s, MutationView::StartLoading);
}

/// A fetch that succeeded leaves the records it brought, no error and no
/// loading, whatever the main loop committed meanwhile.
pub proof fn lemma_success_recorded(ms: Seq<MutationView>, repos: Seq<RepoView>)
    requires
        fetch_part(ms) == seq![MutationView::StartLoading, MutationView::FetchSucceeded(repos)],
    ensures
        !replay(AppView::initial(), ms).projects_loading,
        replay(AppView::initial(), ms).projects == repos,
        replay(AppView::initial(), ms).project_error == None::<Seq<char>>,
{
    let s = AppView::initial();
    lemma_actors_independent(s, ms);
    lemma_replay_two(s, MutationView::StartLoading, MutationView::FetchSucceeded(repos));
}

/// A fetch that failed leaves its message, no project and no loading,
/// whatever the main loop committed meanwhile.
pub proof fn lemma_failure_recorded(ms: Seq<MutationView>, message: Seq<char>)
    requires
        fetch_part(ms) == seq![MutationView::StartLoading, MutationView::FetchFailed(message)],
    ensures
        !replay(AppView::initial(), ms).projects_loading,
        replay(AppView::initial(), ms).projects == Seq::<RepoView>::empty(),
        replay(AppView::initial(), ms).project_error == Some(message),
{
    let s = AppView::initial();
    lemma_actors_independent(s, ms);
    lemma_replay_two(s, MutationView::StartLoading, MutationView::FetchFailed(message));
}

proof fn lemma_replay_one(s: AppView, m: MutationView)
    ensures
        replay(s, seq![m]) == apply(s, m),
{
    assert(seq![m].drop_last() =~= Seq::<MutationView>::empty());
    assert(replay(s, seq![m].drop_last()) == s);
}

proof fn lemma_replay_two(s: AppView, m: MutationView, n: MutationView)
    ensures
        replay(s, seq![m, n]) == apply(apply(s, m), n),
{
    assert(seq![m, n].drop_last() =~= seq![m]);
    lemma_replay_one(s, m);
}

} // verus!
