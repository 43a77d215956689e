//! A personal task tracker: tasks live in one table of an embedded SQLite
//! database, and an interactive menu adds, lists and completes them.
//!
//! The crate holds the rules of both halves. `request` builds the
//! statements, `store` hands them to the database and decodes what comes
//! back, and `menu` is the state machine of the interactive session, with
//! `text` for the numerals and the trimming that both need. Reading the
//! terminal and painting text is left to the program that drives the session.

mod engine;
pub mod error;
pub mod menu;
pub mod request;
pub mod store;
pub mod task;
pub mod text;
