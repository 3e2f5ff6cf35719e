//! Prices as the exchange reports them.

use vstd::prelude::*;
use crate::decimal::{parse_decimal, parsed};
use crate::fixed::{div_floor, floor_div};

verus! {

/// The exchange's answer to a price query.
#[derive(Debug, Clone)]
pub struct TickerPrice {
    pub symbol: String,
    pub price: String,
}

/// One event of the price stream. Prices and volumes are the decimal
/// strings the exchange sent.
#[derive(Debug, Clone)]
pub struct MiniTickerEvent {
    pub event_type: String,
    pub event_time: u64,
    pub symbol: String,
    /// Last price.
    pub close_price: String,
    /// Price 24 hours ago.
    pub open_price: String,
    /// Highest price of the last 24 hours.
    pub high_price: String,
    /// Lowest price of the last 24 hours.
    pub low_price: String,
    pub base_volume: String,
    pub quote_volume: String,
}

/// An event as the combined stream wraps it.
#[derive(Debug, Clone)]
pub struct CombinedStreamWrapper {
    pub stream: String,
    pub data: MiniTickerEvent,
}

/// High and low of one candle, in price units.
#[derive(Debug, Clone, Copy, PartialEq, Eq, Structural)]
pub struct Kline {
    pub high: u64,
    pub low: u64,
}

/// The units a decimal text stands for; 0 where it is no decimal.
pub open spec fn units_or_zero(text: Seq<char>) -> u64 {
    match parsed(text) {
        Some(v) => v,
        None => 0,
    }
}

/// Change from `open` to `close` in percent units, rounded down; 0 where
/// `open` is 0.
pub open spec fn change_pct_of(open: u64, close: u64) -> int {
    if open == 0 {
        0
    } else {
        floor_div((close - open) * 1_000_000, open as int)
    }
}

/// Parses a decimal text into units; 0 where it is no decimal.
pub fn parse_or_zero(text: &str) -> (r: u64)
    ensures
        r == units_or_zero(text@),
{
    match parse_decimal(text) {
        Some(v) => v,
        None => 0,
    }
}

impl MiniTickerEvent {
    /// Last price in units; 0 where the text is no decimal.
    pub fn close_f64(&self) -> (r: u64)
        ensures
            r == units_or_zero(self.close_price@),
    {
        parse_or_zero(self.close_price.as_str())
    }

    /// Price 24 hours ago in units; 0 where the text is no decimal.
    pub fn open_f64(&self) -> (r: u64)
        ensures
            r == units_or_zero(self.open_price@),
    {
        parse_or_zero(self.open_price.as_str())
    }

    /// Change over the last 24 hours in percent units.
    pub fn change_pct(&self) -> (r: i128)
        ensures
            r == change_pct_of(units_or_zero(self.open_price@), units_or_zero(self.close_price@)),
    {
        let open = self.open_f64();
        if open == 0 {
            return 0;
        }
        let close = self.close_f64();
        let moved: i128 = (close as i128 - open as i128) * 1_000_000;
        div_floor(moved, open as i128)
    }
}

} // verus!
