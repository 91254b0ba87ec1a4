//! Diagnosis and repair planning for a command-line system repair toolkit.
//!
//! The library holds the parts of the toolkit that decide and compute: the
//! catalogue of issues and advanced commands, configuration defaults and
//! validation, error messages, and the interpretation of what the operating
//! system's tools print. The program around it runs the tools and talks to
//! the user.

pub mod types;
pub mod text;
pub mod errors;
pub mod config;
pub mod commands;
pub mod probes;
pub mod menu;
pub mod plan;
pub mod steps;
pub mod ranking;

pub use config::Config;
pub use errors::{RepairError, RepairResult};
pub use types::{AdvancedCommand, SystemIssue};
