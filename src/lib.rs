//! Replaces a desktop application's packaged resource archive with a bundled
//! one, keeping the previous archive as a backup.
//!
//! The library holds the decisions of a patch run: where the files lie
//! relative to the executable's directory (`layout`), and the run itself as a
//! state machine from events to actions (`session`). The program around it
//! performs each action on the real filesystem and reports what happened.
//! `laws` proves what a run does to a model of the disk.
pub mod layout;
pub mod session;
pub mod laws;
