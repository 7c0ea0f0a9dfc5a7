//! Scenario data: commands, configuration, and the raw textual shapes they
//! are parsed from.

pub mod command;
pub mod config;
pub mod scenario;
