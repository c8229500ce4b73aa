//! The shared data model: orders, positions and market snapshots as the
//! bridge vocabulary knows them.
//!
//! Quantities are exact fixed-point decimals; the order-type tag is the
//! bridge's own closed six-tag vocabulary, carried as text and validated
//! by the mapping table before transport.

use vstd::prelude::*;
use crate::fixed::Fixed;

verus! {

/// An order in the bridge vocabulary. The ticket is assigned by the
/// remote system and stays zero until then.
#[derive(Clone, Debug)]
pub struct MT5Order {
    pub ticket: u64,
    pub symbol: String,
    pub order_type: String,
    pub volume: Fixed,
    pub price: Fixed,
    pub stop_loss: Option<Fixed>,
    pub take_profit: Option<Fixed>,
    pub comment: Option<String>,
    pub magic: u32,
    pub expiration: Option<i64>,
}

/// An open position, read-only from this core's perspective: only the
/// remote system mutates positions, this core observes and relays them.
#[derive(Clone, Debug)]
pub struct MT5Position {
    pub ticket: u64,
    pub symbol: String,
    pub position_type: String,
    pub volume: Fixed,
    pub price_open: Fixed,
    pub price_current: Fixed,
    pub profit: Fixed,
    pub swap: Fixed,
    pub commission: Fixed,
    pub stop_loss: Option<Fixed>,
    pub take_profit: Option<Fixed>,
    pub comment: Option<String>,
    pub magic: u32,
    pub time_open: i64,
}

/// An immutable market snapshot with no identity beyond symbol and time.
#[derive(Clone, Debug)]
pub struct MT5MarketData {
    pub symbol: String,
    pub bid: Fixed,
    pub ask: Fixed,
    pub last: Fixed,
    pub volume: Fixed,
    pub time: i64,
    pub spread: Fixed,
    pub digits: u32,
}

} // verus!
