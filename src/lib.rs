//! Keeps the address records of hosted DNS zones in step with the host's
//! public IPv4 and IPv6 addresses: decides, for each configured label, which
//! records to leave alone, which to skip and which to patch.

pub mod address;
pub mod config;
pub mod errors;
pub mod laws;
pub mod names;
pub mod reconcile;
pub mod records;
