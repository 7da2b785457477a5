//! The commands of the program: their arguments and their decisions.
pub mod auto;
pub mod command;
pub mod generate_config;
pub mod get;

pub use command::{RootCommand, Subcommand};
