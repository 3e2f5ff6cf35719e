//! A dollar-cost-averaging engine for several trading pairs side by side.
//!
//! Each pair has a slot with a strategy: a small state machine that enters
//! a position in fixed increments, follows its average entry price, and
//! closes it at a profit target, a loss limit or a retracement from the
//! best price seen. The registry holds the slots together with the market
//! data, the alert levels, the log and the state of the interface.
//!
//! The engine decides and records; it performs no input or output. One
//! tick of a slot yields the order to place, and the answer to that order
//! is handed back to be settled. Commands of the user change the registry
//! in one step and say what is left for the caller to do.
//!
//! Amounts are fixed-point integers (see [`fixed`]) and instants are plain
//! seconds (see [`clock`]). Contracts are stated over these values and
//! proved with Verus. The few calls into other crates and into parts of the
//! standard library that have no specification stand behind trusted
//! functions; each says in its comment what is taken on trust.

pub mod fixed;
pub mod text;
pub mod decimal;
pub mod table;
pub mod symbol;
pub mod clock;
pub mod config;
pub mod models;
pub mod strategy;
pub mod registry;
pub mod feed;
pub mod engine;
pub mod commands;
pub mod startup;
pub mod alerts;
pub mod api;
pub mod stream;
pub mod keymap;
