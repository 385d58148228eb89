//! A small verified core for a command-line convenience wrapper around a
//! version-control tool: commit-message formatting, argument parsing, the
//! push safety guard, the branch-switch fallback machine, and the
//! pending-change count. Process spawning and repository access live in the
//! surrounding application, which hands this library plain values.

pub mod cli;
pub mod commit_type;
pub mod dispatch;
pub mod message;
pub mod plan;
pub mod status;
pub mod switch;
pub mod text;
