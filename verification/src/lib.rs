//! Core logic of a live terminal dashboard for GitHub Actions runs and
//! open pull requests: settings, columns, run visibility and ordering,
//! key handling, command arguments for the GitHub CLI and the texts the
//! dashboard shows.

pub mod app;
pub mod cache;
pub mod columns;
pub mod config;
pub mod gh;
pub mod model;
pub mod panel;
pub mod runs;
pub mod text;
pub mod timefmt;
pub mod ui;
