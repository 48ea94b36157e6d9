//! Scaffolding for a hybrid project: a compiled library module next to a
//! script-side test module. The crate decides what is generated and in which
//! order; running commands and touching the file system is left to the caller.

pub mod action;
pub mod cargo_setup;
pub mod cli;
pub mod config;
pub mod error;
pub mod json;
pub mod node_setup;
pub mod project;
pub mod templates;
pub mod text;
