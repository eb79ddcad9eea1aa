//! Rules of a dotfile manager that keeps a user's home directory in a bare
//! git repository: where the repository lies, which shell file gets the
//! `config` alias, and what the status listing says.
//!
//! The library computes on plain values. Reading the environment's files,
//! prompting and the repository itself are left to the program around it.

pub mod cmd;
pub mod config;
pub mod dotme_panic;
pub mod interpolate_env;
pub mod path_utils;
pub mod repo;
pub mod shell;
pub mod text;
