//! deli: a local-first DevOps console over documents, configuration tables,
//! worktree actions, metrics and services. This crate holds what the console
//! decides and computes, with its contracts: configuration and provider
//! setup, document normalization, typed tables, chart scripts, remote
//! document addresses, the Feishu sign-in protocol, the console's state and
//! what each key press does to it.
pub mod config;
pub mod dataframe;
pub mod document;
pub mod error;
pub mod feishu;
pub mod gnuplot;
pub mod json;
pub mod keys;
pub mod metrics;
pub mod laws;
pub mod panels;
pub mod providers;
pub mod registry;
pub mod remote;
pub mod screen;
pub mod session;
pub mod state;
pub mod terminal_theme;
pub mod text;
