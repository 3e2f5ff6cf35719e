//! The strategy state machine of one trading pair.

pub mod state;

pub mod dca;
