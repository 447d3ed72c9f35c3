//! Custodial escrow settlement: a seller locks an asset lot at a fixed price,
//! a buyer pays the price to release it, and an unsold lot can be unwound.

pub mod accounts;
pub mod config;
pub mod error;
pub mod events;
pub mod identity;
pub mod laws;
pub mod ledger;
pub mod listing;
pub mod record;
pub mod settlement;
