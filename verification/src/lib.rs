//! A small trading-signal engine: market analysis yields signals, the signals
//! that are confident enough become trades, and a bot state gates execution.
//!
//! Real-valued quantities are carried as IEEE 754 bit patterns (see [`ieee`]),
//! so that every rule of the engine is a statement about integers.

pub mod analysis;
pub mod bot;
pub mod ieee;
pub mod laws;
pub mod signal;
pub mod state;
pub mod trade;

pub use crate::analysis::Analyze;
pub use crate::analysis::Illustrative;
pub use crate::bot::TradingBot;
pub use crate::ieee::Binary32;
pub use crate::ieee::Binary64;
pub use crate::signal::Action;
pub use crate::signal::Proposal;
pub use crate::signal::TradeSignal;
pub use crate::state::BotState;
pub use crate::state::TradeError;
pub use crate::trade::Trade;
