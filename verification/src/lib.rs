//! Core of a small interactive file organizer: a navigation state confined to
//! a base root, pure path resolution, a recursive-copy planner with progress
//! accounting, and the parsing of drag-and-drop terminal input.
//!
//! All filesystem answers (does a path exist, what is its canonical form, did
//! the working-directory change succeed) enter as plain values; the decisions
//! taken on them are verified here.

pub mod commands;
pub mod config;
pub mod copy;
pub mod drops;
pub mod error;
pub mod paths;
pub mod progress;
pub mod navigator;
pub mod state;
pub mod stores;
pub mod tokens;

pub use error::DirError;
