//! Orders as the exchange reports them, and the trade records a strategy keeps.

use vstd::prelude::*;
use crate::clock::now_utc;

verus! {

/// Side of an order.
#[derive(Debug, Clone, Copy, PartialEq, Eq, Structural)]
pub enum OrderSide {
    Buy,
    Sell,
}

/// Kind of an order.
#[derive(Debug, Clone, Copy, PartialEq, Eq, Structural)]
pub enum OrderType {
    Market,
    Limit,
    StopLoss,
    StopLossLimit,
    TakeProfit,
    TakeProfitLimit,
    LimitMaker,
}

/// Life-cycle status of an order.
#[derive(Debug, Clone, Copy, PartialEq, Eq, Structural)]
pub enum OrderStatus {
    New,
    PartiallyFilled,
    Filled,
    Canceled,
    PendingCancel,
    Rejected,
    Expired,
}

/// The exchange's answer to a placed order. Amounts are the decimal strings
/// the exchange sent.
#[derive(Debug, Clone)]
pub struct Order {
    pub symbol: String,
    pub order_id: u64,
    pub client_order_id: String,
    pub transact_time: u64,
    pub price: String,
    pub orig_qty: String,
    pub executed_qty: String,
    pub cummulative_quote_qty: String,
    pub status: OrderStatus,
    pub side: OrderSide,
    pub order_type: OrderType,
}

/// One filled entry of a strategy.
#[derive(Debug, Clone, Copy, PartialEq, Eq, Structural)]
pub struct DcaTrade {
    /// Order id given by the exchange.
    pub order_id: u64,
    /// Fill price, in price units.
    pub buy_price: u64,
    /// Base quantity filled, in units.
    pub quantity: u64,
    /// Quote amount paid or received, in units.
    pub cost: u64,
    /// Seconds since the Unix epoch at which the fill was recorded.
    pub timestamp: i64,
}

impl DcaTrade {
    /// A trade recorded at the given instant.
    pub fn at(order_id: u64, buy_price: u64, quantity: u64, cost: u64, timestamp: i64) -> (r: DcaTrade)
        ensures
            r == (DcaTrade { order_id, buy_price, quantity, cost, timestamp }),
    {
        DcaTrade { order_id, buy_price, quantity, cost, timestamp }
    }

    /// A trade recorded now. The time comes from the system clock, so only
    /// the other four fields are fixed by the arguments.
    pub fn new(order_id: u64, buy_price: u64, quantity: u64, cost: u64) -> (r: DcaTrade)
        ensures
            r.order_id == order_id,
            r.buy_price == buy_price,
            r.quantity == quantity,
            r.cost == cost,
    {
        let now = now_utc();
        DcaTrade::at(order_id, buy_price, quantity, cost, now.secs)
    }
}

} // verus!
