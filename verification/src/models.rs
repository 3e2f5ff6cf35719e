//! Plain records exchanged with the exchange and kept by the strategy.

pub mod account;
pub mod order;
pub mod ticker;
