//! The dollar-cost-averaging strategy of one trading pair: its trade
//! records, the metrics they determine and the rules that read them.
//!
//! Every rule is stated over exact rationals. A percentage comparison such
//! as "the loss against the average is at least `s` percent" is written with
//! both sides multiplied out, so no rounding enters a decision.

use vstd::prelude::*;
use crate::clock::{now_utc, Timestamp};
use crate::config::{DcaConfig, Direction};
use crate::fixed::{
    clamp, div_floor, floor_div, lemma_u64_product_fits, MAX_COST, MAX_PRICE, MAX_QUANTITY,
    PCT_PARTS, SCALE,
};
use crate::models::order::DcaTrade;
use crate::strategy::state::DcaState;
use crate::text::{push_two_digits, string_from_chars, two_digits};

verus! {

/// Value of `price_trough` while no trough has been seen.
pub const TROUGH_UNSET: u64 = u64::MAX;

/// Net gain a trailing close must still realise, in percent units (0.05 %).
pub const TRAILING_MARGIN_PCT: u64 = 500;

/// Denominator of [`pnl_numerator`]: one quote unit is this many parts.
pub const PNL_PARTS_PER_UNIT: u64 = 100_000_000_000;

/// Sum of the quote amounts of the trades, in units.
pub open spec fn sum_cost(trades: Seq<DcaTrade>) -> int
    decreases trades.len(),
{
    if trades.len() == 0 {
        0
    } else {
        sum_cost(trades.drop_last()) + trades.last().cost
    }
}

/// Sum of the base quantities of the trades, in units.
pub open spec fn sum_quantity(trades: Seq<DcaTrade>) -> int
    decreases trades.len(),
{
    if trades.len() == 0 {
        0
    } else {
        sum_quantity(trades.drop_last()) + trades.last().quantity
    }
}

/// Average entry price of the trades, in price units, rounded down; 0 for
/// an empty position.
pub open spec fn average_cost_of(trades: Seq<DcaTrade>) -> int {
    if sum_quantity(trades) == 0 {
        0
    } else {
        floor_div(sum_cost(trades) * SCALE, sum_quantity(trades))
    }
}

/// Net profit of closing `quantity` at `price` after `invested` was paid
/// (long) or received (short), counted in parts of which
/// `PNL_PARTS_PER_UNIT` make one quote unit.
///
/// Long: `quantity * price * 0.999 - invested`.
/// Short: `invested - quantity * price * 1.001`.
pub open spec fn pnl_numerator(direction: Direction, quantity: int, invested: int, price: int) -> int {
    if quantity == 0 {
        0
    } else {
        match direction {
            Direction::Long => 999 * (quantity * price) - 1000 * SCALE * invested,
            Direction::Short => 1000 * SCALE * invested - 1001 * (quantity * price),
        }
    }
}

/// Net profit in quote units, rounded down.
pub open spec fn pnl_units(direction: Direction, quantity: int, invested: int, price: int) -> int {
    floor_div(pnl_numerator(direction, quantity, invested, price), PNL_PARTS_PER_UNIT as int)
}

/// Net profit as a percentage of the invested amount, in percent units,
/// rounded down; 0 where nothing is invested.
pub open spec fn pnl_pct_units(direction: Direction, quantity: int, invested: int, price: int) -> int {
    if invested == 0 {
        0
    } else {
        floor_div(pnl_numerator(direction, quantity, invested, price), 100_000 * invested)
    }
}

/// The net profit percentage is strictly above `pct` percent units.
pub open spec fn pnl_pct_exceeds(direction: Direction, quantity: int, invested: int, price: int, pct: int) -> bool {
    invested != 0 && pnl_numerator(direction, quantity, invested, price) > pct * (100_000 * invested)
}

/// How far the price has moved against a position entered at `from`:
/// downwards for a long position, upwards for a short one.
pub open spec fn adverse_move(direction: Direction, from: int, price: int) -> int {
    match direction {
        Direction::Long => from - price,
        Direction::Short => price - from,
    }
}

/// What a strategy asks for on one tick. At most one action runs per tick.
#[derive(Debug, Clone, Copy, PartialEq, Eq, Structural)]
pub enum Decision {
    /// Close the position at the loss limit.
    StopLoss,
    /// Close the position at the profit target.
    TakeProfit,
    /// Close the position on a retracement from the best price.
    TrailingTakeProfit,
    /// Make another entry.
    Enter,
    /// Do nothing.
    Hold,
}

/// The mathematical value of a strategy: its fields, with the trade list as
/// a sequence.
pub struct StrategyView {
    pub config: DcaConfig,
    pub state: DcaState,
    pub trades: Seq<DcaTrade>,
    pub last_buy_time: Option<i64>,
    pub last_buy_price: Option<u64>,
    pub daily_spent: u64,
    pub last_reset_day: u32,
    pub next_buy_in_secs: i64,
    pub price_peak: u64,
    pub price_trough: u64,
}

/// The strategy engine of one trading pair.
pub struct DcaStrategy {
    pub config: DcaConfig,
    pub state: DcaState,
    /// Filled entries of the open position, oldest first.
    pub trades: Vec<DcaTrade>,
    /// Instant of the last entry or start, in seconds since the Unix epoch.
    pub last_buy_time: Option<i64>,
    /// Fill price of the last entry.
    pub last_buy_price: Option<u64>,
    /// Quote amount spent on entries during the current day, in units.
    pub daily_spent: u64,
    /// Day of the month on which `daily_spent` was last reset.
    pub last_reset_day: u32,
    /// Seconds until the next timed entry.
    pub next_buy_in_secs: i64,
    /// Long: highest price seen while the position is open; 0 while unset.
    pub price_peak: u64,
    /// Short: lowest price seen while the position is open;
    /// `TROUGH_UNSET` while unset.
    pub price_trough: u64,
}

impl View for DcaStrategy {
    type V = StrategyView;

    open spec fn view(&self) -> StrategyView {
        StrategyView {
            config: self.config,
            state: self.state,
            trades: self.trades@,
            last_buy_time: self.last_buy_time,
            last_buy_price: self.last_buy_price,
            daily_spent: self.daily_spent,
            last_reset_day: self.last_reset_day,
            next_buy_in_secs: self.next_buy_in_secs,
            price_peak: self.price_peak,
            price_trough: self.price_trough,
        }
    }
}

impl DcaStrategy {
    /// The position and settings are within the range the engine computes on.
    pub open spec fn wf(&self) -> bool {
        &&& self.config.wf()
        &&& sum_cost(self.trades@) <= MAX_COST
        &&& sum_quantity(self.trades@) <= MAX_QUANTITY
        &&& self.next_buy_in_secs >= 0
    }

    /// Quote amount invested in the open position.
    pub open spec fn invested(&self) -> int {
        sum_cost(self.trades@)
    }

    /// Base quantity held in the open position.
    pub open spec fn quantity(&self) -> int {
        sum_quantity(self.trades@)
    }

    /// Exact net profit at `price`, in parts (see [`pnl_numerator`]).
    pub open spec fn net_numerator(&self, price: u64) -> int {
        pnl_numerator(self.config.direction, self.quantity(), self.invested(), price as int)
    }

    /// A strategy without trades, stopped, with nothing spent.
    pub fn new(config: DcaConfig) -> (r: DcaStrategy)
        ensures
            r == (DcaStrategy {
                config,
                state: DcaState::Idle,
                trades: r.trades,
                last_buy_time: None,
                last_buy_price: None,
                daily_spent: 0,
                last_reset_day: 0,
                next_buy_in_secs: 0,
                price_peak: 0,
                price_trough: TROUGH_UNSET,
            }),
            r.trades@ == Seq::<DcaTrade>::empty(),
            config.wf() ==> r.wf(),
    {
        DcaStrategy {
            config,
            state: DcaState::Idle,
            trades: Vec::new(),
            last_buy_time: None,
            last_buy_price: None,
            daily_spent: 0,
            last_reset_day: 0,
            next_buy_in_secs: 0,
            price_peak: 0,
            price_trough: TROUGH_UNSET,
        }
    }

    /// Quote amount involved in the entries: spent on buys (long) or
    /// received on sells (short).
    pub fn total_invested(&self) -> (r: u128)
        ensures
            r == sum_cost(self.trades@),
    {
        let mut acc: u128 = 0;
        let mut i: usize = 0;
        while i < self.trades.len()
            invariant
                i <= self.trades.len(),
                acc == sum_cost(self.trades@.take(i as int)),
                acc <= i * u64::MAX,
            decreases self.trades.len() - i,
        {
            proof {
                assert(self.trades@.take(i + 1).drop_last() =~= self.trades@.take(i as int));
            }
            acc = acc + self.trades[i].cost as u128;
            i = i + 1;
        }
        proof {
            assert(self.trades@.take(i as int) =~= self.trades@);
        }
        acc
    }

    /// Base quantity held in the position.
    pub fn total_quantity(&self) -> (r: u128)
        ensures
            r == sum_quantity(self.trades@),
    {
        let mut acc: u128 = 0;
        let mut i: usize = 0;
        while i < self.trades.len()
            invariant
                i <= self.trades.len(),
                acc == sum_quantity(self.trades@.take(i as int)),
                acc <= i * u64::MAX,
            decreases self.trades.len() - i,
        {
            proof {
                assert(self.trades@.take(i + 1).drop_last() =~= self.trades@.take(i as int));
            }
            acc = acc + self.trades[i].quantity as u128;
            i = i + 1;
        }
        proof {
            assert(self.trades@.take(i as int) =~= self.trades@);
        }
        acc
    }

    /// Average entry price: the buy price (long) or sell price (short) at
    /// which the whole position would have been entered at once.
    pub fn average_cost(&self) -> (r: u128)
        requires
            self.wf(),
        ensures
            r == average_cost_of(self.trades@),
    {
        let quantity = self.total_quantity();
        if quantity == 0 {
            return 0;
        }
        let invested = self.total_invested();
        let scaled: u128 = invested * 100_000_000u128;
        scaled / quantity
    }

    /// Exact net profit at `current_price`, in parts of which
    /// `PNL_PARTS_PER_UNIT` make one quote unit.
    pub fn pnl_parts(&self, current_price: u64) -> (r: i128)
        requires
            self.wf(),
            current_price <= MAX_PRICE,
        ensures
            r == self.net_numerator(current_price),
            -100_000_000_000 * MAX_COST - 1001 * (MAX_QUANTITY * MAX_PRICE) <= r <= 100_000_000_000
                * MAX_COST + 1001 * (MAX_QUANTITY * MAX_PRICE),
    {
        let quantity = self.total_quantity();
        if quantity == 0 {
            return 0;
        }
        let invested = self.total_invested();
        proof {
            assert(quantity * current_price <= MAX_QUANTITY * MAX_PRICE) by (nonlinear_arith)
                requires
                    0 <= quantity <= MAX_QUANTITY,
                    0 <= current_price <= MAX_PRICE,
            ;
            assert(0 <= quantity * current_price) by (nonlinear_arith)
                requires
                    0 <= quantity,
                    0 <= current_price,
            ;
        }
        let value: i128 = (quantity as i128) * (current_price as i128);
        let paid: i128 = 100_000_000_000i128 * (invested as i128);
        match self.config.direction {
            Direction::Long => 999 * value - paid,
            Direction::Short => paid - 1001 * value,
        }
    }

    /// Net profit at `current_price` in quote units, after the closing fee,
    /// rounded down.
    pub fn pnl(&self, current_price: u64) -> (r: i128)
        requires
            self.wf(),
            current_price <= MAX_PRICE,
        ensures
            r == pnl_units(self.config.direction, self.quantity(), self.invested(), current_price as int),
    {
        let parts = self.pnl_parts(current_price);
        div_floor(parts, PNL_PARTS_PER_UNIT as i128)
    }

    /// Net profit at `current_price` as a percentage of the invested
    /// amount, in percent units, rounded down.
    pub fn pnl_pct(&self, current_price: u64) -> (r: i128)
        requires
            self.wf(),
            current_price <= MAX_PRICE,
        ensures
            r == pnl_pct_units(self.config.direction, self.quantity(), self.invested(), current_price as int),
    {
        let invested = self.total_invested();
        if invested == 0 {
            return 0;
        }
        let parts = self.pnl_parts(current_price);
        div_floor(parts, 100_000i128 * (invested as i128))
    }

    // ------------------------------------------------------------------
    // Decision rules
    // ------------------------------------------------------------------

    /// The configured interval has passed since the last entry or start.
    pub open spec fn interval_elapsed(&self, now: i64) -> bool {
        self.last_buy_time matches Some(t) && now - t >= self.config.interval_minutes * 60
    }

    /// The price has moved against the last entry by the configured
    /// percentage or more.
    pub open spec fn move_triggered(&self, price: u64) -> bool {
        &&& self.config.price_drop_trigger > 0
        &&& self.last_buy_price matches Some(last)
        &&& last > 0
        &&& adverse_move(self.config.direction, last as int, price as int) * PCT_PARTS
            >= self.config.price_drop_trigger * last
    }

    /// An entry is due: the strategy runs, has entries and daily budget
    /// left, and either has no entry yet, or the interval has passed, or the
    /// price has moved far enough against the last entry.
    pub open spec fn should_enter(&self, price: u64, now: i64, max_daily: u64) -> bool {
        &&& self.state.active()
        &&& self.trades@.len() < self.config.max_orders
        &&& self.daily_spent + self.config.quote_amount <= max_daily
        &&& (self.trades@.len() == 0 || self.interval_elapsed(now) || self.move_triggered(price))
    }

    /// The profit target is reached.
    pub open spec fn take_profit_due(&self, price: u64) -> bool {
        &&& self.trades@.len() > 0
        &&& self.config.take_profit_pct > 0
        &&& pnl_pct_units(self.config.direction, self.quantity(), self.invested(), price as int)
            >= self.config.take_profit_pct
    }

    /// The loss limit is reached: the price stands against the exact average
    /// entry price `invested / quantity` by the configured percentage or more.
    pub open spec fn stop_loss_due(&self, price: u64) -> bool {
        &&& self.trades@.len() > 0
        &&& self.config.stop_loss_pct > 0
        &&& self.quantity() > 0
        &&& self.invested() > 0
        &&& adverse_move(self.config.direction, self.invested() * SCALE, price * self.quantity())
            * PCT_PARTS >= self.config.stop_loss_pct * (self.invested() * SCALE)
    }

    /// The best price seen lies on the profitable side of the exact average
    /// entry price.
    pub open spec fn extreme_in_profit(&self) -> bool {
        match self.config.direction {
            Direction::Long => self.price_peak * self.quantity() > self.invested() * SCALE,
            Direction::Short => self.price_trough != TROUGH_UNSET && self.price_trough
                * self.quantity() < self.invested() * SCALE,
        }
    }

    /// The price has come back from the best price seen by the configured
    /// percentage or more.
    pub open spec fn retraced(&self, price: u64) -> bool {
        match self.config.direction {
            Direction::Long => (self.price_peak - price) * PCT_PARTS
                >= self.config.trailing_tp_pct * self.price_peak,
            Direction::Short => (price - self.price_trough) * PCT_PARTS
                >= self.config.trailing_tp_pct * self.price_trough,
        }
    }

    /// A trailing close is due: the best price was in profit, the price has
    /// retraced far enough from it, and closing now still nets more than
    /// `TRAILING_MARGIN_PCT`.
    pub open spec fn trailing_due(&self, price: u64) -> bool {
        &&& self.trades@.len() > 0
        &&& self.config.trailing_tp_pct > 0
        &&& self.quantity() > 0
        &&& self.invested() > 0
        &&& self.extreme_in_profit()
        &&& self.retraced(price)
        &&& pnl_pct_exceeds(
            self.config.direction,
            self.quantity(),
            self.invested(),
            price as int,
            TRAILING_MARGIN_PCT as int,
        )
    }

    /// The price at which the retracement rule would fire, rounded down; 0
    /// while the rule is off or no extreme has been seen.
    pub open spec fn trailing_trigger(&self) -> int {
        if self.config.trailing_tp_pct == 0 {
            0
        } else {
            match self.config.direction {
                Direction::Long => if self.price_peak == 0 {
                    0
                } else {
                    floor_div(
                        self.price_peak * (PCT_PARTS - self.config.trailing_tp_pct),
                        PCT_PARTS as int,
                    )
                },
                Direction::Short => if self.price_trough == TROUGH_UNSET || self.price_trough == 0 {
                    0
                } else {
                    floor_div(
                        self.price_trough * (PCT_PARTS + self.config.trailing_tp_pct),
                        PCT_PARTS as int,
                    )
                },
            }
        }
    }

    /// Seconds left until the next timed entry at `now`.
    pub open spec fn countdown(&self, now: i64) -> int {
        match self.last_buy_time {
            Some(t) => clamp(self.config.interval_minutes * 60 - (now - t), 0, i64::MAX as int),
            None => 0,
        }
    }

    /// Advances the clock of the strategy: resets the daily spend when the
    /// day has changed and recomputes the countdown.
    pub fn tick(&mut self, now: Timestamp)
        ensures
            final(self)@ == (StrategyView {
                daily_spent: if now.day != old(self).last_reset_day {
                    0
                } else {
                    old(self).daily_spent
                },
                last_reset_day: now.day,
                next_buy_in_secs: old(self).countdown(now.secs) as i64,
                ..old(self)@
            }),
            old(self).wf() ==> final(self).wf(),
    {
        if now.day != self.last_reset_day {
            self.daily_spent = 0;
            self.last_reset_day = now.day;
        }
        match self.last_buy_time {
            Some(last) => {
                let interval: i128 = (self.config.interval_minutes as i128) * 60;
                let elapsed: i128 = (now.secs as i128) - (last as i128);
                let left: i128 = interval - elapsed;
                if left < 0 {
                    self.next_buy_in_secs = 0;
                } else if left > i64::MAX as i128 {
                    self.next_buy_in_secs = i64::MAX;
                } else {
                    self.next_buy_in_secs = left as i64;
                }
            },
            None => {
                self.next_buy_in_secs = 0;
            },
        }
    }

    /// Decides whether an entry is to be made now: a buy (long) or a sell
    /// of the base asset (short).
    pub fn should_buy(&self, current_price: u64, now: Timestamp, max_daily: u64) -> (r: bool)
        ensures
            r == self.should_enter(current_price, now.secs, max_daily),
    {
        if !self.state.is_active() {
            return false;
        }
        if self.trades.len() >= self.config.max_orders as usize {
            return false;
        }
        if (self.daily_spent as u128) + (self.config.quote_amount as u128) > max_daily as u128 {
            return false;
        }
        if self.trades.len() == 0 {
            return true;
        }
        match self.last_buy_time {
            Some(last) => {
                let elapsed: i128 = (now.secs as i128) - (last as i128);
                if elapsed >= (self.config.interval_minutes as i128) * 60 {
                    return true;
                }
            },
            None => {},
        }
        if self.config.price_drop_trigger > 0 {
            match self.last_buy_price {
                Some(last_price) => {
                    if last_price > 0 {
                        let moved: u64 = match self.config.direction {
                            Direction::Long => if last_price >= current_price {
                                last_price - current_price
                            } else {
                                0
                            },
                            Direction::Short => if current_price >= last_price {
                                current_price - last_price
                            } else {
                                0
                            },
                        };
                        proof {
                            lemma_u64_product_fits(self.config.price_drop_trigger, last_price);
                            lemma_u64_product_fits(moved, PCT_PARTS);
                            let exact = adverse_move(
                                self.config.direction,
                                last_price as int,
                                current_price as int,
                            );
                            assert(self.config.price_drop_trigger * last_price > 0) by (nonlinear_arith)
                                requires
                                    self.config.price_drop_trigger > 0,
                                    last_price > 0,
                            ;
                            assert(exact < 0 ==> exact * PCT_PARTS < 0);
                            assert(exact >= 0 ==> moved == exact);
                        }
                        let lhs: u128 = (moved as u128) * (PCT_PARTS as u128);
                        let rhs: u128 = (self.config.price_drop_trigger as u128) * (last_price as u128);
                        if lhs >= rhs {
                            return true;
                        }
                    }
                },
                None => {},
            }
        }
        false
    }

    /// Tracks the best price seen while a position is open: raises the peak
    /// (long) or lowers the trough (short), never the other way.
    pub fn update_price_peak(&mut self, price: u64)
        ensures
            final(self)@ == (StrategyView {
                price_peak: if old(self).trades@.len() > 0 && old(self).config.direction
                    == Direction::Long && price > old(self).price_peak {
                    price
                } else {
                    old(self).price_peak
                },
                price_trough: if old(self).trades@.len() > 0 && old(self).config.direction
                    == Direction::Short && price < old(self).price_trough {
                    price
                } else {
                    old(self).price_trough
                },
                ..old(self)@
            }),
            final(self).price_peak >= old(self).price_peak,
            final(self).price_trough <= old(self).price_trough,
            old(self).wf() ==> final(self).wf(),
    {
        if self.trades.len() > 0 {
            match self.config.direction {
                Direction::Long => {
                    if price > self.price_peak {
                        self.price_peak = price;
                    }
                },
                Direction::Short => {
                    if price < self.price_trough {
                        self.price_trough = price;
                    }
                },
            }
        }
    }

    /// Decides whether the position is to be closed because the price has
    /// retraced from its best while the close is still profitable.
    pub fn should_trailing_tp(&self, current_price: u64) -> (r: bool)
        requires
            self.wf(),
            current_price <= MAX_PRICE,
        ensures
            r == self.trailing_due(current_price),
    {
        if self.trades.len() == 0 || self.config.trailing_tp_pct == 0 {
            return false;
        }
        let quantity = self.total_quantity();
        let invested = self.total_invested();
        if quantity == 0 || invested == 0 {
            return false;
        }
        let average_scaled: u128 = invested * 100_000_000u128;
        let trail: u128 = self.config.trailing_tp_pct as u128;
        let extreme: u64 = match self.config.direction {
            Direction::Long => self.price_peak,
            Direction::Short => self.price_trough,
        };
        proof {
            assert(0 <= extreme * quantity <= 0xffff_ffff_ffff_ffff * MAX_QUANTITY) by (nonlinear_arith)
                requires
                    0 <= extreme <= 0xffff_ffff_ffff_ffff,
                    0 <= quantity <= MAX_QUANTITY,
            ;
            assert(0 <= trail * extreme <= 1_000_000_000 * 0xffff_ffff_ffff_ffff) by (nonlinear_arith)
                requires
                    0 <= extreme <= 0xffff_ffff_ffff_ffff,
                    0 <= trail <= 1_000_000_000,
            ;
        }
        let extreme_value: u128 = (extreme as u128) * quantity;
        let threshold: u128 = trail * (extreme as u128);
        match self.config.direction {
            Direction::Long => {
                if extreme_value <= average_scaled {
                    return false;
                }
                if current_price > extreme {
                    proof {
                        assert(extreme > 0) by (nonlinear_arith)
                            requires
                                extreme_value == (extreme as u128) * quantity,
                                extreme_value > 0,
                        ;
                        assert(threshold > 0) by (nonlinear_arith)
                            requires
                                threshold == trail * (extreme as u128),
                                trail > 0,
                                extreme > 0,
                        ;
                    }
                    return false;
                }
                let fallen: u128 = ((extreme - current_price) as u128) * 1_000_000u128;
                if fallen < threshold {
                    return false;
                }
            },
            Direction::Short => {
                if extreme == TROUGH_UNSET || extreme_value >= average_scaled {
                    return false;
                }
                if current_price < extreme {
                    proof {
                        assert(threshold > 0) by (nonlinear_arith)
                            requires
                                threshold == trail * (extreme as u128),
                                trail > 0,
                                extreme > 0,
                        ;
                    }
                    return false;
                }
                let risen: u128 = ((current_price - extreme) as u128) * 1_000_000u128;
                if risen < threshold {
                    return false;
                }
            },
        }
        let parts = self.pnl_parts(current_price);
        let margin: i128 = 50_000_000i128 * (invested as i128);
        parts > margin
    }

    /// The price that would fire the retracement rule, for display.
    pub fn trailing_tp_trigger_price(&self) -> (r: i128)
        requires
            self.config.wf(),
        ensures
            r == self.trailing_trigger(),
    {
        if self.config.trailing_tp_pct == 0 {
            return 0;
        }
        let trail: i128 = self.config.trailing_tp_pct as i128;
        match self.config.direction {
            Direction::Long => {
                if self.price_peak == 0 {
                    return 0;
                }
                let factor: i128 = 1_000_000i128 - trail;
                proof {
                    assert(-0xffff_ffff_ffff_ffff * 1_000_000_000 <= self.price_peak * factor
                        <= 0xffff_ffff_ffff_ffff * 1_000_000) by (nonlinear_arith)
                        requires
                            0 <= self.price_peak <= 0xffff_ffff_ffff_ffff,
                            -1_000_000_000 <= factor <= 1_000_000,
                    ;
                }
                div_floor((self.price_peak as i128) * factor, 1_000_000)
            },
            Direction::Short => {
                if self.price_trough == TROUGH_UNSET || self.price_trough == 0 {
                    return 0;
                }
                let factor: i128 = 1_000_000i128 + trail;
                proof {
                    assert(0 <= self.price_trough * factor <= 0xffff_ffff_ffff_ffff * 1_001_000_000)
                        by (nonlinear_arith)
                        requires
                            0 <= self.price_trough <= 0xffff_ffff_ffff_ffff,
                            0 <= factor <= 1_001_000_000,
                    ;
                }
                div_floor((self.price_trough as i128) * factor, 1_000_000)
            },
        }
    }

    /// Decides whether the position is to be closed at the profit target.
    pub fn should_take_profit(&self, current_price: u64) -> (r: bool)
        requires
            self.wf(),
            current_price <= MAX_PRICE,
        ensures
            r == self.take_profit_due(current_price),
    {
        if self.trades.len() == 0 || self.config.take_profit_pct == 0 {
            return false;
        }
        self.pnl_pct(current_price) >= self.config.take_profit_pct as i128
    }

    /// Decides whether the position is to be closed at the loss limit.
    pub fn should_stop_loss(&self, current_price: u64) -> (r: bool)
        requires
            self.wf(),
            current_price <= MAX_PRICE,
        ensures
            r == self.stop_loss_due(current_price),
    {
        if self.trades.len() == 0 || self.config.stop_loss_pct == 0 {
            return false;
        }
        let quantity = self.total_quantity();
        let invested = self.total_invested();
        if quantity == 0 || invested == 0 {
            return false;
        }
        proof {
            assert(0 <= current_price * quantity <= MAX_PRICE * MAX_QUANTITY) by (nonlinear_arith)
                requires
                    0 <= current_price <= MAX_PRICE,
                    0 <= quantity <= MAX_QUANTITY,
            ;
            assert(0 <= self.config.stop_loss_pct * (invested * SCALE) <= 1_000_000_000
                * (MAX_COST * SCALE)) by (nonlinear_arith)
                requires
                    0 <= self.config.stop_loss_pct <= 1_000_000_000,
                    0 <= invested * SCALE <= MAX_COST * SCALE,
            ;
        }
        let average_scaled: i128 = (invested as i128) * 100_000_000i128;
        let value: i128 = (current_price as i128) * (quantity as i128);
        let lost: i128 = match self.config.direction {
            Direction::Long => average_scaled - value,
            Direction::Short => value - average_scaled,
        };
        let limit: i128 = (self.config.stop_loss_pct as i128) * average_scaled;
        lost * 1_000_000i128 >= limit
    }

    /// The action of one tick, by priority: stop loss, take profit,
    /// trailing take profit, entry. A close needs a position to close.
    pub open spec fn decision(&self, price: u64, now: i64, max_daily: u64) -> Decision {
        if self.stop_loss_due(price) && self.quantity() > 0 {
            Decision::StopLoss
        } else if self.take_profit_due(price) && self.quantity() > 0 {
            Decision::TakeProfit
        } else if self.trailing_due(price) && self.quantity() > 0 {
            Decision::TrailingTakeProfit
        } else if self.should_enter(price, now, max_daily) {
            Decision::Enter
        } else {
            Decision::Hold
        }
    }

    /// Decides the action of one tick.
    pub fn decide(&self, current_price: u64, now: Timestamp, max_daily: u64) -> (r: Decision)
        requires
            self.wf(),
            current_price <= MAX_PRICE,
        ensures
            r == self.decision(current_price, now.secs, max_daily),
    {
        let held = self.total_quantity() > 0;
        if held && self.should_stop_loss(current_price) {
            Decision::StopLoss
        } else if held && self.should_take_profit(current_price) {
            Decision::TakeProfit
        } else if held && self.should_trailing_tp(current_price) {
            Decision::TrailingTakeProfit
        } else if self.should_buy(current_price, now, max_daily) {
            Decision::Enter
        } else {
            Decision::Hold
        }
    }

    // ------------------------------------------------------------------
    // State changes
    // ------------------------------------------------------------------

    /// The strategy after a start at `now`: running; if it was not running
    /// before, the countdown to the next entry is measured from `now`.
    pub open spec fn started(&self, now: i64) -> StrategyView {
        StrategyView {
            state: DcaState::Running,
            last_buy_time: if self.state.active() {
                self.last_buy_time
            } else {
                Some(now)
            },
            ..self@
        }
    }

    /// Starts or restarts the strategy at the given instant.
    pub fn start_at(&mut self, now: Timestamp)
        ensures
            final(self)@ == old(self).started(now.secs),
            old(self).wf() ==> final(self).wf(),
    {
        if !self.state.is_active() {
            self.last_buy_time = Some(now.secs);
        }
        self.state = DcaState::Running;
    }

    /// Starts or restarts the strategy now. The instant comes from the
    /// system clock, so the contract holds for some instant.
    pub fn start(&mut self)
        ensures
            exists|now: i64| final(self)@ == old(self).started(now),
            final(self).state == DcaState::Running,
            final(self).trades@ == old(self).trades@,
            old(self).wf() ==> final(self).wf(),
    {
        let now = now_utc();
        self.start_at(now);
    }

    /// Stops a running strategy; any other state is left as it is.
    pub fn stop(&mut self)
        ensures
            final(self)@ == (StrategyView {
                state: if old(self).state.active() {
                    DcaState::Idle
                } else {
                    old(self).state
                },
                ..old(self)@
            }),
            old(self).wf() ==> final(self).wf(),
    {
        if self.state.is_active() {
            self.state = DcaState::Idle;
        }
    }

    /// The fill fits into the position without leaving the engine's range.
    pub open spec fn can_record(&self, quantity: u64, cost: u64) -> bool {
        &&& self.config.wf()
        &&& sum_quantity(self.trades@) + quantity <= MAX_QUANTITY
        &&& sum_cost(self.trades@) + cost <= MAX_COST
        &&& self.daily_spent + cost <= u64::MAX
    }

    /// The strategy after a fill was recorded at `now`.
    pub open spec fn recorded(&self, order_id: u64, price: u64, quantity: u64, cost: u64, now: i64) -> StrategyView {
        StrategyView {
            state: if self.trades@.len() + 1 >= self.config.max_orders {
                DcaState::MaxOrdersReached
            } else {
                self.state
            },
            trades: self.trades@.push(
                DcaTrade { order_id, buy_price: price, quantity, cost, timestamp: now },
            ),
            last_buy_time: Some(now),
            last_buy_price: Some(price),
            daily_spent: (self.daily_spent + cost) as u64,
            next_buy_in_secs: (self.config.interval_minutes * 60) as i64,
            ..self@
        }
    }

    /// Tells whether a fill fits into the position.
    pub fn fits(&self, quantity: u64, cost: u64) -> (r: bool)
        ensures
            r == self.can_record(quantity, cost),
    {
        if !self.config.in_range() {
            return false;
        }
        let held = self.total_quantity();
        let invested = self.total_invested();
        held <= MAX_QUANTITY as u128 && held + quantity as u128 <= MAX_QUANTITY as u128 && invested
            <= MAX_COST as u128 && invested + cost as u128 <= MAX_COST as u128 && cost <= u64::MAX
            - self.daily_spent
    }

    /// Records a filled entry at the given instant: appends the trade,
    /// restarts the countdown, adds the cost to the daily spend, and moves
    /// to `MaxOrdersReached` once the configured number of entries is made.
    pub fn record_buy_at(&mut self, order_id: u64, price: u64, quantity: u64, cost: u64, now: Timestamp)
        requires
            old(self).can_record(quantity, cost),
        ensures
            final(self)@ == old(self).recorded(order_id, price, quantity, cost, now.secs),
            final(self).wf(),
    {
        self.trades.push(DcaTrade::at(order_id, price, quantity, cost, now.secs));
        proof {
            assert(self.trades@.drop_last() =~= old(self).trades@);
        }
        self.last_buy_time = Some(now.secs);
        self.last_buy_price = Some(price);
        self.daily_spent = self.daily_spent + cost;
        self.next_buy_in_secs = (self.config.interval_minutes * 60) as i64;
        if self.trades.len() >= self.config.max_orders as usize {
            self.state = DcaState::MaxOrdersReached;
        }
    }

    /// Records a filled entry now. The instant comes from the system clock,
    /// so the contract holds for some instant.
    pub fn record_buy(&mut self, order_id: u64, price: u64, quantity: u64, cost: u64)
        requires
            old(self).can_record(quantity, cost),
        ensures
            exists|now: i64| final(self)@ == old(self).recorded(order_id, price, quantity, cost, now),
            final(self).trades@.len() == old(self).trades@.len() + 1,
            final(self).wf(),
    {
        let now = now_utc();
        self.record_buy_at(order_id, price, quantity, cost, now);
    }

    /// Forgets the position after it was closed: no trades, no last entry,
    /// and both price extremes unset.
    pub fn clear_trades(&mut self)
        ensures
            final(self)@ == (StrategyView {
                trades: Seq::<DcaTrade>::empty(),
                last_buy_time: None,
                last_buy_price: None,
                price_peak: 0,
                price_trough: TROUGH_UNSET,
                ..old(self)@
            }),
            old(self).config.wf() && old(self).next_buy_in_secs >= 0 ==> final(self).wf(),
    {
        self.trades.clear();
        self.last_buy_time = None;
        self.last_buy_price = None;
        self.price_peak = 0;
        self.price_trough = TROUGH_UNSET;
    }

    /// The countdown as shown: minutes and seconds, two digits each.
    pub open spec fn countdown_text(&self) -> Seq<char> {
        if !self.state.active() {
            "--:--"@
        } else if self.last_buy_time is None {
            "00:00"@
        } else {
            two_digits((self.next_buy_in_secs / 60) as nat) + seq![':'] + two_digits(
                (self.next_buy_in_secs % 60) as nat,
            )
        }
    }

    /// Formats the time until the next entry as "MM:SS".
    pub fn next_buy_countdown(&self) -> (r: String)
        requires
            self.next_buy_in_secs >= 0,
        ensures
            r@ == self.countdown_text(),
    {
        if !self.state.is_active() {
            return "--:--".to_owned();
        }
        if self.last_buy_time.is_none() {
            return "00:00".to_owned();
        }
        let secs: u128 = self.next_buy_in_secs as u128;
        let mut out: Vec<char> = Vec::new();
        push_two_digits(&mut out, secs / 60);
        out.push(':');
        push_two_digits(&mut out, secs % 60);
        proof {
            assert(out@ =~= self.countdown_text());
        }
        string_from_chars(&out)
    }

    // ------------------------------------------------------------------
    // Snapshots
    // ------------------------------------------------------------------

    /// `snapshot` holds what is persisted of the strategy.
    pub open spec fn stored_in(&self, snapshot: &StrategySnapshot) -> bool {
        &&& snapshot.direction == self.config.direction
        &&& snapshot.has_bnb_balance == self.config.has_bnb_balance
        &&& snapshot.trades@ == self.trades@
        &&& snapshot.last_buy_time == self.last_buy_time
        &&& snapshot.last_buy_price == self.last_buy_price
        &&& snapshot.daily_spent == self.daily_spent
        &&& snapshot.last_reset_day == self.last_reset_day
        &&& snapshot.price_peak == self.price_peak
        &&& snapshot.price_trough == self.price_trough
        &&& snapshot.state == self.state
    }

    /// The strategy after it has taken over a snapshot: direction, fee
    /// setting, trades, last entry, daily spend, extremes and lifecycle
    /// state are the snapshot's; the other settings and the countdown stay.
    pub open spec fn restored(&self, snapshot: &StrategySnapshot) -> StrategyView {
        StrategyView {
            config: DcaConfig {
                direction: snapshot.direction,
                has_bnb_balance: snapshot.has_bnb_balance,
                ..self.config
            },
            state: snapshot.state,
            trades: snapshot.trades@,
            last_buy_time: snapshot.last_buy_time,
            last_buy_price: snapshot.last_buy_price,
            daily_spent: snapshot.daily_spent,
            last_reset_day: snapshot.last_reset_day,
            price_peak: snapshot.price_peak,
            price_trough: snapshot.price_trough,
            ..self@
        }
    }

    /// Copies what is persisted of the strategy, under the given symbol.
    pub fn to_snapshot(&self, symbol: &str) -> (r: StrategySnapshot)
        ensures
            r.symbol@ == symbol@,
            self.stored_in(&r),
    {
        StrategySnapshot {
            symbol: symbol.to_owned(),
            direction: self.config.direction,
            trades: copy_trades(&self.trades),
            last_buy_time: self.last_buy_time,
            last_buy_price: self.last_buy_price,
            daily_spent: self.daily_spent,
            last_reset_day: self.last_reset_day,
            price_peak: self.price_peak,
            price_trough: self.price_trough,
            has_bnb_balance: self.config.has_bnb_balance,
            state: self.state.clone(),
        }
    }

    /// Takes over what a snapshot stores. A strategy stored as running is
    /// running again.
    pub fn restore_from_snapshot(&mut self, snapshot: StrategySnapshot)
        ensures
            final(self)@ == old(self).restored(&snapshot),
    {
        self.config.direction = snapshot.direction;
        self.config.has_bnb_balance = snapshot.has_bnb_balance;
        self.trades = snapshot.trades;
        self.last_buy_time = snapshot.last_buy_time;
        self.last_buy_price = snapshot.last_buy_price;
        self.daily_spent = snapshot.daily_spent;
        self.last_reset_day = snapshot.last_reset_day;
        self.price_peak = snapshot.price_peak;
        self.price_trough = snapshot.price_trough;
        self.state = snapshot.state;
    }

    /// Tells whether the strategy is within the range the engine computes on.
    pub fn in_range(&self) -> (r: bool)
        ensures
            r == self.wf(),
    {
        if !self.config.in_range() || self.next_buy_in_secs < 0 {
            return false;
        }
        let held = self.total_quantity();
        let invested = self.total_invested();
        held <= MAX_QUANTITY as u128 && invested <= MAX_COST as u128
    }
}

/// Copies a list of trades.
pub fn copy_trades(trades: &Vec<DcaTrade>) -> (r: Vec<DcaTrade>)
    ensures
        r@ == trades@,
{
    let mut out: Vec<DcaTrade> = Vec::new();
    let mut i: usize = 0;
    while i < trades.len()
        invariant
            i <= trades.len(),
            out@ == trades@.take(i as int),
        decreases trades.len() - i,
    {
        out.push(trades[i]);
        proof {
            assert(trades@.take(i + 1) =~= trades@.take(i as int).push(trades@[i as int]));
        }
        i = i + 1;
    }
    proof {
        assert(trades@.take(i as int) =~= trades@);
    }
    out
}

/// What is persisted of one strategy.
#[derive(Debug)]
pub struct StrategySnapshot {
    pub symbol: String,
    pub direction: Direction,
    pub trades: Vec<DcaTrade>,
    pub last_buy_time: Option<i64>,
    pub last_buy_price: Option<u64>,
    pub daily_spent: u64,
    pub last_reset_day: u32,
    pub price_peak: u64,
    pub price_trough: u64,
    pub has_bnb_balance: bool,
    pub state: DcaState,
}

impl Clone for StrategySnapshot {
    fn clone(&self) -> (r: StrategySnapshot)
        ensures
            r.symbol == self.symbol,
            r.direction == self.direction,
            r.trades@ == self.trades@,
            r.last_buy_time == self.last_buy_time,
            r.last_buy_price == self.last_buy_price,
            r.daily_spent == self.daily_spent,
            r.last_reset_day == self.last_reset_day,
            r.price_peak == self.price_peak,
            r.price_trough == self.price_trough,
            r.has_bnb_balance == self.has_bnb_balance,
            r.state == self.state,
    {
        StrategySnapshot {
            symbol: self.symbol.clone(),
            direction: self.direction,
            trades: copy_trades(&self.trades),
            last_buy_time: self.last_buy_time,
            last_buy_price: self.last_buy_price,
            daily_spent: self.daily_spent,
            last_reset_day: self.last_reset_day,
            price_peak: self.price_peak,
            price_trough: self.price_trough,
            has_bnb_balance: self.has_bnb_balance,
            state: self.state.clone(),
        }
    }
}

/// The trough a snapshot has when none was stored for it.
pub fn default_trough() -> (r: u64)
    ensures
        r == TROUGH_UNSET,
{
    TROUGH_UNSET
}

// ----------------------------------------------------------------------
// Laws
// ----------------------------------------------------------------------

/// A position without trades has no average cost, nothing invested and no
/// quantity, and its profit is zero at every price in either direction.
pub proof fn lemma_empty_position(trades: Seq<DcaTrade>, direction: Direction, price: int)
    requires
        trades.len() == 0,
    ensures
        average_cost_of(trades) == 0,
        sum_cost(trades) == 0,
        sum_quantity(trades) == 0,
        pnl_numerator(direction, sum_quantity(trades), sum_cost(trades), price) == 0,
        pnl_units(direction, sum_quantity(trades), sum_cost(trades), price) == 0,
        pnl_pct_units(direction, sum_quantity(trades), sum_cost(trades), price) == 0,
{
}

/// Recording one more trade adds exactly its cost and its quantity.
pub proof fn lemma_sums_push(trades: Seq<DcaTrade>, trade: DcaTrade)
    ensures
        sum_cost(trades.push(trade)) == sum_cost(trades) + trade.cost,
        sum_quantity(trades.push(trade)) == sum_quantity(trades) + trade.quantity,
{
    assert(trades.push(trade).drop_last() =~= trades);
}

/// The sums of a list of trades are the sums of its parts, in any split.
pub proof fn lemma_sums_concat(a: Seq<DcaTrade>, b: Seq<DcaTrade>)
    ensures
        sum_cost(a + b) == sum_cost(a) + sum_cost(b),
        sum_quantity(a + b) == sum_quantity(a) + sum_quantity(b),
        sum_cost(a) >= 0,
        sum_quantity(a) >= 0,
    decreases b.len(),
{
    lemma_sums_nonnegative(a);
    if b.len() == 0 {
        assert(a + b =~= a);
    } else {
        lemma_sums_concat(a, b.drop_last());
        assert((a + b).drop_last() =~= a + b.drop_last());
    }
}

/// Sums of trades are never negative.
pub proof fn lemma_sums_nonnegative(trades: Seq<DcaTrade>)
    ensures
        sum_cost(trades) >= 0,
        sum_quantity(trades) >= 0,
    decreases trades.len(),
{
    if trades.len() > 0 {
        lemma_sums_nonnegative(trades.drop_last());
    }
}

/// Direction symmetry. For one position, the long profit at a price is the
/// negated short profit at the mirrored price, where two prices mirror each
/// other when closing at them is worth the same after the fee:
/// `0.999 * price_long == 1.001 * price_short`.
pub proof fn lemma_direction_symmetry(quantity: int, invested: int, price_long: int, price_short: int)
    requires
        999 * price_long == 1001 * price_short,
    ensures
        pnl_numerator(Direction::Long, quantity, invested, price_long) == -pnl_numerator(
            Direction::Short,
            quantity,
            invested,
            price_short,
        ),
{
    assert(999 * (quantity * price_long) == 1001 * (quantity * price_short)) by (nonlinear_arith)
        requires
            999 * price_long == 1001 * price_short,
    ;
}

/// At one and the same price the two directions mirror each other up to
/// the fees: what one side gains the other loses, less the fee that each
/// side pays on its close, 0.1 % of the position's value each.
pub proof fn lemma_direction_symmetry_at_one_price(quantity: int, invested: int, price: int)
    ensures
        pnl_numerator(Direction::Long, quantity, invested, price) + pnl_numerator(
            Direction::Short,
            quantity,
            invested,
            price,
        ) == -2 * (quantity * price),
{
    if quantity == 0 {
        assert(quantity * price == 0) by (nonlinear_arith)
            requires
                quantity == 0,
        ;
    }
}

/// Two snapshots of one strategy hold the same: what is persisted is
/// determined by the strategy alone.
pub proof fn lemma_snapshots_agree(source: &DcaStrategy, first: &StrategySnapshot, second: &StrategySnapshot)
    requires
        source.stored_in(first),
        source.stored_in(second),
    ensures
        first.direction == second.direction,
        first.trades@ == second.trades@,
        first.last_buy_time == second.last_buy_time,
        first.last_buy_price == second.last_buy_price,
        first.daily_spent == second.daily_spent,
        first.last_reset_day == second.last_reset_day,
        first.price_peak == second.price_peak,
        first.price_trough == second.price_trough,
        first.has_bnb_balance == second.has_bnb_balance,
        first.state == second.state,
{
}

/// Persistence keeps the position. A snapshot taken of a strategy and
/// restored into that strategy changes nothing; restored into any other
/// strategy it reproduces the trade list, the lifecycle state, the last
/// entry, the daily spend, the extremes and the direction exactly.
pub proof fn lemma_snapshot_round_trip(source: &DcaStrategy, target: &DcaStrategy, snapshot: &StrategySnapshot)
    requires
        source.stored_in(snapshot),
    ensures
        source.restored(snapshot) == source@,
        target.restored(snapshot).trades == source.trades@,
        target.restored(snapshot).state == source.state,
        target.restored(snapshot).last_buy_time == source.last_buy_time,
        target.restored(snapshot).last_buy_price == source.last_buy_price,
        target.restored(snapshot).daily_spent == source.daily_spent,
        target.restored(snapshot).last_reset_day == source.last_reset_day,
        target.restored(snapshot).price_peak == source.price_peak,
        target.restored(snapshot).price_trough == source.price_trough,
        target.restored(snapshot).config.direction == source.config.direction,
        sum_cost(target.restored(snapshot).trades) == source.invested(),
        sum_quantity(target.restored(snapshot).trades) == source.quantity(),
{
}

} // verus!
