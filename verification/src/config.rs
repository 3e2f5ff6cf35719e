//! Settings the engine reads: trade direction, per-strategy parameters,
//! risk cap, alert window and exchange credentials.

use vstd::prelude::*;
use crate::fixed::{MAX_COST, MAX_INTERVAL_MINUTES, MAX_PCT};

verus! {

/// Direction of a strategy.
#[derive(Debug, Clone, Copy, PartialEq, Eq, Structural)]
pub enum Direction {
    /// Buy in increments, close by selling when the price has risen.
    Long,
    /// Sell in increments, close by buying back when the price has fallen.
    Short,
}

impl Direction {
    /// The opposite direction.
    pub open spec fn flipped(self) -> Direction {
        match self {
            Direction::Long => Direction::Short,
            Direction::Short => Direction::Long,
        }
    }

    /// Returns the opposite direction.
    pub fn flip(&self) -> (r: Direction)
        ensures
            r == self.flipped(),
    {
        match self {
            Direction::Long => Direction::Short,
            Direction::Short => Direction::Long,
        }
    }
}

impl Default for Direction {
    fn default() -> (r: Direction)
        ensures
            r == Direction::Long,
    {
        Direction::Long
    }
}

/// Flipping twice gives the direction back.
pub proof fn lemma_flip_involution(d: Direction)
    ensures
        d.flipped().flipped() == d,
        d.flipped() != d,
{
}

/// Settings of the support and resistance alerts.
#[derive(Debug, Clone)]
pub struct AlertsConfig {
    /// Number of closed candles the levels are taken over.
    pub rolling_window: usize,
    /// Candle interval, as the exchange names it ("1m", "1h", "1d", ...).
    pub candle_interval: String,
    /// Least number of minutes between two alerts of one kind for one symbol.
    pub cooldown_minutes: u64,
}

/// Default number of closed candles in the alert window.
pub fn default_rolling_window() -> (r: usize)
    ensures
        r == 20,
{
    20
}

/// Default candle interval of the alert window: one hour.
pub fn default_candle_interval() -> (r: String)
    ensures
        r@ == "1h"@,
{
    "1h".to_owned()
}

/// Default alert cooldown, in minutes.
pub fn default_cooldown_minutes() -> (r: u64)
    ensures
        r == 30,
{
    30
}

impl Default for AlertsConfig {
    fn default() -> (r: AlertsConfig)
        ensures
            r.rolling_window == 20,
            r.candle_interval@ == "1h"@,
            r.cooldown_minutes == 30,
    {
        AlertsConfig {
            rolling_window: default_rolling_window(),
            candle_interval: default_candle_interval(),
            cooldown_minutes: default_cooldown_minutes(),
        }
    }
}

/// Credentials and network selection for the exchange.
#[derive(Debug, Clone)]
pub struct BinanceConfig {
    pub api_key: String,
    pub api_secret: String,
    pub testnet: bool,
}

/// Parameters of one strategy.
#[derive(Debug)]
pub struct DcaConfig {
    /// Trading pair, as the exchange names it.
    pub symbol: String,
    /// Trade direction.
    pub direction: Direction,
    /// Quote amount per entry, in units.
    pub quote_amount: u64,
    /// Minutes between two timed entries.
    pub interval_minutes: u64,
    /// Adverse move since the last entry that triggers another one, in
    /// percent units; 0 switches the trigger off.
    pub price_drop_trigger: u64,
    /// Greatest number of entries in one cycle.
    pub max_orders: u32,
    /// Net gain at which the position is closed, in percent units; 0 is off.
    pub take_profit_pct: u64,
    /// Loss against the average entry price at which the position is
    /// closed, in percent units; 0 is off.
    pub stop_loss_pct: u64,
    /// Retracement from the best price seen at which the position is
    /// closed, in percent units; 0 is off.
    pub trailing_tp_pct: u64,
    /// Start a new cycle by itself after a profitable close.
    pub auto_restart: bool,
    /// Flip the direction when a new cycle starts by itself.
    pub auto_flip: bool,
    /// Fees are paid at the discounted rate.
    pub has_bnb_balance: bool,
}

impl DcaConfig {
    /// The settings are within the range the engine computes on.
    pub open spec fn wf(&self) -> bool {
        &&& self.quote_amount <= MAX_COST
        &&& self.interval_minutes <= MAX_INTERVAL_MINUTES
        &&& self.price_drop_trigger <= MAX_PCT
        &&& self.take_profit_pct <= MAX_PCT
        &&& self.stop_loss_pct <= MAX_PCT
        &&& self.trailing_tp_pct <= MAX_PCT
    }

    /// Tells whether the settings are within the engine's range.
    pub fn in_range(&self) -> (r: bool)
        ensures
            r == self.wf(),
    {
        self.quote_amount <= MAX_COST && self.interval_minutes <= MAX_INTERVAL_MINUTES
            && self.price_drop_trigger <= MAX_PCT && self.take_profit_pct <= MAX_PCT
            && self.stop_loss_pct <= MAX_PCT && self.trailing_tp_pct <= MAX_PCT
    }
}

impl Clone for DcaConfig {
    fn clone(&self) -> (r: DcaConfig)
        ensures
            r == *self,
    {
        DcaConfig {
            symbol: self.symbol.clone(),
            direction: self.direction,
            quote_amount: self.quote_amount,
            interval_minutes: self.interval_minutes,
            price_drop_trigger: self.price_drop_trigger,
            max_orders: self.max_orders,
            take_profit_pct: self.take_profit_pct,
            stop_loss_pct: self.stop_loss_pct,
            trailing_tp_pct: self.trailing_tp_pct,
            auto_restart: self.auto_restart,
            auto_flip: self.auto_flip,
            has_bnb_balance: self.has_bnb_balance,
        }
    }
}

/// Limits that hold across all strategies.
#[derive(Debug, Clone, Copy, PartialEq, Eq, Structural)]
pub struct RiskConfig {
    /// Greatest quote amount one strategy may spend on entries per day, in units.
    pub max_daily_spend: u64,
}

/// Everything the engine is configured with.
#[derive(Debug)]
pub struct Config {
    pub binance: BinanceConfig,
    pub dca: DcaConfig,
    pub risk: RiskConfig,
    pub alerts: AlertsConfig,
}

/// Why a configuration is refused at startup.
#[derive(Debug, Clone, Copy, PartialEq, Eq, Structural)]
pub enum ConfigError {
    /// The API key is still the placeholder of the sample file.
    PlaceholderApiKey,
    /// The amount per entry is zero.
    AmountNotPositive,
    /// The entry interval is zero.
    IntervalNotPositive,
    /// A value is beyond the range the engine computes on.
    OutOfRange,
}

/// The API key that the sample configuration ships with.
pub open spec fn placeholder_api_key() -> Seq<char> {
    "YOUR_API_KEY_HERE"@
}

impl Config {
    /// The verdict on a configuration: the first failing check, in the order
    /// key, amount, interval, range.
    pub open spec fn verdict(&self) -> Result<(), ConfigError> {
        if self.binance.api_key@ == placeholder_api_key() {
            Err(ConfigError::PlaceholderApiKey)
        } else if self.dca.quote_amount == 0 {
            Err(ConfigError::AmountNotPositive)
        } else if self.dca.interval_minutes == 0 {
            Err(ConfigError::IntervalNotPositive)
        } else if !self.dca.wf() {
            Err(ConfigError::OutOfRange)
        } else {
            Ok(())
        }
    }

    /// Checks a configuration that has been read and parsed.
    pub fn validate(&self) -> (r: Result<(), ConfigError>)
        ensures
            r == self.verdict(),
            r is Ok ==> self.dca.wf() && self.dca.quote_amount > 0 && self.dca.interval_minutes > 0,
    {
        let placeholder: String = "YOUR_API_KEY_HERE".to_owned();
        if self.binance.api_key == placeholder {
            return Err(ConfigError::PlaceholderApiKey);
        }
        if self.dca.quote_amount == 0 {
            return Err(ConfigError::AmountNotPositive);
        }
        if self.dca.interval_minutes == 0 {
            return Err(ConfigError::IntervalNotPositive);
        }
        if !self.dca.in_range() {
            return Err(ConfigError::OutOfRange);
        }
        Ok(())
    }
}

} // verus!
