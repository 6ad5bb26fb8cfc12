//! The main loop, one iteration at a time.
//!
//! Each iteration first asks the store whether to go on and, if so, for the
//! snapshot to draw. After the drawing and the wait for input it hands the
//! key that came, if one came, back to the store. Both steps are short and
//! wait for nothing, so the store is never held while the loop draws, waits
//! or opens a link.

use vstd::prelude::*;
use crate::app::{selected_link, App, AppView};
use crate::github::text_of;
use crate::input::{command, decode, Action, Key};
use crate::store::{apply, replay, Mutation, MutationView, Store};

verus! {

/// The mutation that an action commits, if it commits one.
pub open spec fn mutation_of(action: Action) -> Option<MutationView> {
    match action {
        Action::Quit => Some(MutationView::Quit),
        Action::Navigate(screen) => Some(MutationView::Navigate(screen)),
        _ => None,
    }
}

/// The state after an action.
pub open spec fn state_after(s: AppView, action: Action) -> AppView {
    match mutation_of(action) {
        Some(m) => apply(s, m),
        None => s,
    }
}

/// The history after an action.
pub open spec fn history_after(ms: Seq<MutationView>, action: Action) -> Seq<MutationView> {
    match mutation_of(action) {
        Some(m) => ms.push(m),
        None => ms,
    }
}

/// The link that an action asks to open in state `s`, if it asks for one.
pub open spec fn link_opened(s: AppView, action: Action) -> Option<Seq<char>> {
    match action {
        Action::OpenProject(number) => selected_link(s.projects, number as int),
        Action::OpenLink(link) => Some(link.address()),
        _ => None,
    }
}

/// The first half of an iteration: `None` once the user has asked to leave,
/// and then nothing is drawn any more; else the snapshot to draw.
pub fn begin_iteration(store: &Store) -> (frame: Option<App>)
    ensures
        frame is None <==> store@.should_quit,
        frame matches Some(snapshot) ==> snapshot@ == store@ && snapshot@ == replay(
            AppView::initial(),
            store.history(),
        ),
{
    if store.should_quit() {
        None
    } else {
        Some(store.snapshot())
    }
}

/// Carries out an action on the store and returns the link to open, if the
/// action asks for one. Quitting and navigating commit one mutation each;
/// opening a link commits nothing. A project number that the list does not
/// have changes nothing and opens nothing.
pub fn perform(store: &mut Store, action: Action) -> (open: Option<String>)
    ensures
        final(store)@ == state_after(old(store)@, action),
        final(store).history() == history_after(old(store).history(), action),
        text_of(open) == link_opened(old(store)@, action),
{
    match action {
        Action::Quit => {
            store.commit(Mutation::Quit);
            None
        },
        Action::Navigate(screen) => {
            store.commit(Mutation::Navigate(screen));
            None
        },
        Action::OpenProject(number) => store.project_link(number),
        Action::OpenLink(link) => Some(link.url().to_owned()),
        Action::Nothing => None,
    }
}

/// The second half of an iteration: with no input before the timeout
/// nothing happens; a key is looked up in the command table and its action
/// carried out.
pub fn end_iteration(store: &mut Store, input: Option<Key>) -> (open: Option<String>)
    ensures
        input matches Some(key) ==> {
            &&& final(store)@ == state_after(old(store)@, command(key))
            &&& final(store).history() == history_after(old(store).history(), command(key))
            &&& text_of(open) == link_opened(old(store)@, command(key))
        },
        input is None ==> {
            &&& final(store)@ == old(store)@
            &&& final(store).history() == old(store).history()
            &&& open is None
        },
{
    match input {
        Some(key) => perform(store, decode(key)),
        None => None,
    }
}

/// Selecting project 0, or a number past the end of the list, changes
/// nothing, commits nothing and opens nothing.
pub proof fn lemma_selection_out_of_range(s: AppView, ms: Seq<MutationView>, number: usize)
    requires
        number == 0 || number > s.projects.len(),
    ensures
        state_after(s, Action::OpenProject(number)) == s,
        history_after(ms, Action::OpenProject(number)) == ms,
        link_opened(s, Action::OpenProject(number)) == None::<Seq<char>>,
{
}

/// The key `0` is reserved: it changes nothing, commits nothing and opens
/// nothing, in every state.
pub proof fn lemma_zero_is_reserved(s: AppView, ms: Seq<MutationView>)
    ensures
        state_after(s, command(Key::Char('0'))) == s,
        history_after(ms, command(Key::Char('0'))) == ms,
        link_opened(s, command(Key::Char('0'))) == None::<Seq<char>>,
{
}

/// Opening a link never changes the state.
pub proof fn lemma_opening_commits_nothing(s: AppView, ms: Seq<MutationView>, action: Action)
    requires
        link_opened(s, action) is Some,
    ensures
        state_after(s, action) == s,
        history_after(ms, action) == ms,
{
}

/// The key `q` sets the quit flag on every screen and changes nothing else.
pub proof fn lemma_quit_key(s: AppView)
    ensures
        state_after(s, command(Key::Char('q'))) == (AppView { should_quit: true, ..s }),
        link_opened(s, command(Key::Char('q'))) == None::<Seq<char>>,
{
}

/// The quit flag is never reset: once it is set, no sequence of mutations
/// clears it, so every later iteration ends the loop.
pub proof fn lemma_quit_is_final(s: AppView, ms: Seq<MutationView>)
    requires
        s.should_quit,
    ensures
        replay(s, ms).should_quit,
    decreases ms.len(),
{
    if ms.len() > 0 {
        lemma_quit_is_final(s, ms.drop_last());
    }
}

} // verus!
