//! Dotfiles manager core: path classification, the manifest of declared
//! links, and the table that decides what each verb does to each pair.

pub mod cli;
pub mod commands;
pub mod config;
pub mod environment;
pub mod kind;
pub mod laws;
pub mod man;
pub mod manifest;
pub mod path;
pub mod picker;
pub mod reconcile;
pub mod report;
pub mod script;
pub mod text;
