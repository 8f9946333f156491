//! Optimistic task-list editing for a terminal todo client: the task model,
//! the per-task sets of pending changes, the paged grid with its selection
//! cursor, the modal item editor, and the decisions of the tick loop that
//! reconciles local edits with a remote store.

pub mod types;

pub mod diff;
pub mod keys;
pub mod layout;
pub mod grid;

pub mod text;
pub mod fields;
pub mod dates;
pub mod editor;

pub mod app;
pub mod handler;
pub mod error;
pub mod config;
pub mod minecraft;
pub mod git;
pub mod descriptor;
pub mod store;
