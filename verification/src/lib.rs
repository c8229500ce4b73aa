//! Core logic of a MetaTrader 5 execution service: schema translation between
//! a public REST vocabulary, an execution-plugin vocabulary, and the wire
//! schema of a remote bridge process, together with the connection-state
//! machine that decides when a probe or an order may be sent.
//!
//! All network traffic, clock reads and JSON parsing of remote replies happen
//! outside this crate; callers hand the results in as plain values and every
//! decision taken on them is verified here.

pub mod api;
pub mod bridge;
pub mod client;
pub mod config;
pub mod errors;
pub mod fixed;
pub mod mapping;
pub mod models;
pub mod plugin;
pub mod text;
pub mod wire;

pub use client::MT5Client;
pub use models::{MT5MarketData, MT5Order, MT5Position};
pub use plugin::MT5Plugin;

use vstd::prelude::*;

verus! {

/// Plugin name identifier
pub const PLUGIN_NAME: &'static str = "mt5";

} // verus!
