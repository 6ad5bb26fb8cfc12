//! State handling for a small terminal interface with a home screen and a
//! projects screen, the latter filled by one background fetch.
//!
//! The store owns the application state. The fetch task and the main loop
//! change it by whole mutations only, and the renderer works on snapshots,
//! so a frame never shows a state that no order of the committed mutations
//! produces.

pub mod app;
pub mod fetch;
pub mod github;
pub mod input;
pub mod listing;
pub mod main_loop;
pub mod store;
