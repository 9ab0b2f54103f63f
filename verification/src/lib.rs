//! An escrow-and-reward ledger for incentivized polls.
//!
//! A sponsor locks a fungible-token reward pool tied to a poll identifier,
//! participants submit answers and later claim an individual reward exactly
//! once, and the sponsor may reclaim the remaining funds. The vault holding
//! the pool is addressed deterministically from the poll identifier, so the
//! only transfer authority is program logic, never a private key.

pub mod address;
pub mod data;
pub mod errors;
pub mod laws;
pub mod model;
pub mod ops;
pub mod size;
