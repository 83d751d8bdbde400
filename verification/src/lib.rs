//! Decision logic of a desktop text editor's native host.
//!
//! The host answers a small set of commands issued by the document view:
//! new, open, save, save-as, print, set-title and quit.  Everything a command
//! decides lives here and is verified; showing a dialog, touching the
//! filesystem or talking to the window is left to the embedding application,
//! which performs what a command asks for and reports what happened.

pub mod commands;
pub mod dialog;
pub mod file_result;
pub mod guarantees;
