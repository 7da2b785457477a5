//! A dynamic-DNS engine: a canonical model of DNS records, the conversions
//! from each provider's wire records into it, and the resolution of the
//! caller's public address into ready-made records.
//!
//! The engine computes; it neither sends nor stores. An adapter builds the
//! HTTP request to send and reads what came back; the resolver reads the
//! answer of an address service; the commands decide what is to be done.
//! Everything is specified over mathematical models of the data and proved
//! against them:
//!
//! - [`text`]: tokens, trimming, splitting and numbers, on which the
//!   grammars are built;
//! - [`types`]: IP addresses with their texts, and the canonical record;
//! - [`json`]: JSON documents as plain values;
//! - [`provider`]: what every adapter offers, the content grammar that the
//!   adapters share, and the adapters for Nitrado, Hetzner and Netcup;
//! - [`resolver`]: from the answer of an address service to an address and
//!   to the record of an automatic entry;
//! - [`config`]: the configuration, its defaults and how two are merged;
//! - [`cli`]: the command line and the decisions of the commands.
pub mod cli;
pub mod config;
pub mod json;
pub mod provider;
pub mod resolver;
pub mod text;
pub mod types;

use vstd::prelude::*;

pub use cli::command::{PROGRAM_NAME, PROGRAM_VERSION};
pub use config::Config;

verus! {

/// The placeholder that stands where an API token is expected and none is
/// configured.
pub const TOKEN: &'static str = "nope";

} // verus!
