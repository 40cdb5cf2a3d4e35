//! The coordination core of a desktop tool that manages a project of tagged
//! files: which windows are open, which screen is shown, how the panes of
//! the project screen are arranged, and how the answers of logins and of
//! the folder picker come back into the state.
//!
//! A `Session` is the whole state. `update` takes it through one message at
//! a time and tells the host, by an `Effect`, what to do next; the host
//! draws the windows, talks to the outside, and sends back what happened.

pub mod panes;
pub mod program_settings;
pub mod project;
pub mod screens;
pub mod session;
pub mod subwindows;
