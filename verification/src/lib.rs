//! Verified core of an on-chain airdrop-distribution engine.
//!
//! An administrator configures the platform (admin identity, maximum assets
//! per distribution batch, fee charged per batch), campaign creators register
//! multi-asset giveaway campaigns, and operator accounts trigger batched
//! transfers of those assets to winners.  The contract never custodies the
//! assets: every operation returns the list of outbound transfer
//! instructions for the host to execute atomically with the state change.
//!
//! All state is reached through an explicit [`state::ContractState`] handle;
//! the host glue that persists it and performs the instructions lives
//! outside this crate.

pub mod contract;
pub mod error;
pub mod fee;
pub mod helpers;
pub mod msg;
pub mod state;
