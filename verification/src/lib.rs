//! Verified core of the Horto terminal UI: tab order, panel text, modal key
//! handling, the application state machine and command-line flag parsing.

pub mod app;
pub mod cli;
pub mod clock;
pub mod flow;
pub mod laws;
pub mod layout;
pub mod overview;
pub mod probe;
pub mod prompt;
pub mod tabs;
pub mod text;
pub mod view;
