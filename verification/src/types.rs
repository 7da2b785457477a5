//! The canonical data model: addresses and DNS records.
pub mod dns;
pub mod ip;
