//! Peer-to-peer escrow: a seller locks one asset and names the assets it
//! accepts in return; any counterparty may fill the offer in whole or in part.

pub mod fixed;
pub mod expiry;
pub mod error;
pub mod state;
pub mod msg;
pub mod store;
pub mod create;
pub mod settle;
pub mod sweep;
pub mod contract;
pub mod query;
pub mod laws;
