//! Verified core of the DFA Visualizer tray application: formatting of
//! scores and ranks, the category catalogue, profile assembly, settings,
//! character import and the decisions of the background watchers.

pub mod catalog;
pub mod config;
pub mod import;
pub mod numfmt;
pub mod profile;
pub mod text;
pub mod tray;
pub mod watch;
