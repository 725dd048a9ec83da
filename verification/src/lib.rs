//! Verified core of the StarEscrow command-line client: its typed errors,
//! deadline parsing and formatting, the resolution of network settings, and
//! the decisions its subcommands take between network calls.
pub mod cli;
pub mod commands;
pub mod deadline;
pub mod decimal;
pub mod error;

pub use error::{CliError, CliErrorModel};
