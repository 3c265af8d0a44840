//! A counter kept in a single persisted record, with an owner-gated reset.
//!
//! The record holds a signed count and the identity that created it. Three
//! entry operations work on an injected [`state::Store`]: [`contract::instantiate`]
//! creates the record, [`contract::execute`] increments or resets the count,
//! and [`contract::query`] reads it back. Each operation's contract is stated
//! against a small specification-level transition model in [`contract`].

pub mod contract;
pub mod decimal;
pub mod error;
pub mod msg;
pub mod response;
pub mod state;

pub use crate::error::ContractError;
