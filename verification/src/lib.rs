//! An event-driven commit orchestrator for autonomous coding agents.
//!
//! The library receives structured lifecycle notifications, decides
//! whether the working tree should be staged and committed, prepares
//! the prompt for an external message generator with a deterministic
//! fallback, and manages short-lived per-session branches. Every
//! decision and every repository operation of the pipeline lives here,
//! under contract; only process plumbing (argument parsing, standard
//! input, daemonization, the generator subprocess) stays outside.

pub mod commit_message_generator;
pub mod committer;
pub mod git_ops;
pub mod text;
pub mod types;
