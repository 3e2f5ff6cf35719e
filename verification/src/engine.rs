//! One tick of one slot: the plan that the decision rules give, and what
//! becomes of the slot once the exchange has answered the order.
//!
//! The engine never talks to the exchange. `evaluate_slot` hands back the
//! order to place; the caller places it and hands the answer to
//! `settle_close` or `settle_entry`.

use vstd::prelude::*;
use crate::clock::Timestamp;
use crate::config::{DcaConfig, Direction};
use crate::decimal::{parse_decimal, parsed};
use crate::fixed::{floor_div, MAX_PRICE, SCALE};
use crate::models::order::Order;
use crate::registry::{
    appended, index_of_id, slot_views, AppState, CloseKind, LogEntry, LogLevel, Notice, SaleResult,
    SlotView, StateView, StrategySlot, UiMode,
};
use crate::models::order::DcaTrade;
use crate::strategy::dca::{
    pnl_pct_units, pnl_units, DcaStrategy, Decision, StrategyView, TROUGH_UNSET,
};
use crate::strategy::state::DcaState;

verus! {

/// Code with which the exchange refuses an order for want of balance.
pub const INSUFFICIENT_BALANCE_CODE: i64 = -2010;

/// An order for the exchange. Amounts are in units.
#[derive(Debug)]
pub enum OrderRequest {
    /// Buy at market for the given quote amount.
    MarketBuyQuote { symbol: String, quote_amount: u64 },
    /// Buy the given base quantity at market.
    MarketBuyQty { symbol: String, quantity: u128 },
    /// Sell the given base quantity at market.
    MarketSellQty { symbol: String, quantity: u128 },
}

/// Why the exchange refused an order, or why it could not be reached.
#[derive(Debug)]
pub struct OrderError {
    /// The exchange's error code; 0 where there is none.
    pub code: i64,
    /// The message for the user.
    pub message: String,
}

/// A decided close of a position.
#[derive(Debug)]
pub struct ClosePlan {
    pub slot_id: usize,
    pub kind: CloseKind,
    pub symbol: String,
    pub direction: Direction,
    /// Base quantity to sell (long) or to buy back (short), in units.
    pub quantity: u64,
    /// Price at which the close was decided.
    pub price: u64,
    /// Best price seen: the peak (long) or the trough (short).
    pub extreme: u64,
    /// Net profit expected, in units.
    pub pnl: i128,
    /// Net profit expected, in percent units.
    pub pnl_pct: i128,
    /// A new cycle starts by itself after a profitable close.
    pub auto_restart: bool,
    /// The direction flips when a new cycle starts by itself.
    pub auto_flip: bool,
}

/// A decided entry.
#[derive(Debug)]
pub struct EntryPlan {
    pub slot_id: usize,
    pub symbol: String,
    pub direction: Direction,
    /// Quote amount of the entry, in units.
    pub amount: u64,
    /// Price at which the entry was decided.
    pub price: u64,
    /// Short: base quantity to sell, `amount / price` rounded down. Long: 0.
    pub quantity: u128,
}

/// What a slot asks for on one tick.
#[derive(Debug)]
pub enum SlotAction {
    Nothing,
    Close(ClosePlan),
    Enter(EntryPlan),
}

/// A price that the rules can be evaluated at.
pub open spec fn usable_price(price: u64) -> bool {
    0 < price <= MAX_PRICE
}

impl ClosePlan {
    /// The order that closes the position: the opposite side of the entries.
    pub open spec fn order(&self) -> OrderRequest {
        match self.direction {
            Direction::Long => OrderRequest::MarketSellQty {
                symbol: self.symbol,
                quantity: self.quantity as u128,
            },
            Direction::Short => OrderRequest::MarketBuyQty {
                symbol: self.symbol,
                quantity: self.quantity as u128,
            },
        }
    }

    /// Returns the order that closes the position.
    pub fn order_request(&self) -> (r: OrderRequest)
        ensures
            r == self.order(),
    {
        match self.direction {
            Direction::Long => OrderRequest::MarketSellQty {
                symbol: self.symbol.clone(),
                quantity: self.quantity as u128,
            },
            Direction::Short => OrderRequest::MarketBuyQty {
                symbol: self.symbol.clone(),
                quantity: self.quantity as u128,
            },
        }
    }

    /// The log entry that announces the close.
    pub open spec fn announcement(&self) -> Notice {
        Notice::CloseTriggered {
            kind: self.kind,
            symbol: self.symbol,
            direction: self.direction,
            quantity: self.quantity,
            price: self.price,
            pnl: self.pnl,
        }
    }

    /// What the overlay shows once `received` has come in.
    pub open spec fn sale_result(&self, received: u64) -> SaleResult {
        SaleResult { kind: self.kind, received, pnl: self.pnl, pnl_pct: self.pnl_pct }
    }
}

impl EntryPlan {
    /// The order that makes the entry: a buy for the quote amount (long) or
    /// a sale of the base quantity (short).
    pub open spec fn order(&self) -> OrderRequest {
        match self.direction {
            Direction::Long => OrderRequest::MarketBuyQuote {
                symbol: self.symbol,
                quote_amount: self.amount,
            },
            Direction::Short => OrderRequest::MarketSellQty {
                symbol: self.symbol,
                quantity: self.quantity,
            },
        }
    }

    /// Returns the order that makes the entry.
    pub fn order_request(&self) -> (r: OrderRequest)
        ensures
            r == self.order(),
    {
        match self.direction {
            Direction::Long => OrderRequest::MarketBuyQuote {
                symbol: self.symbol.clone(),
                quote_amount: self.amount,
            },
            Direction::Short => OrderRequest::MarketSellQty {
                symbol: self.symbol.clone(),
                quantity: self.quantity,
            },
        }
    }
}

/// The strategy after the clock has advanced to `now` and `price` was seen:
/// the daily spend and the countdown follow the clock, and a usable price
/// moves the extreme of an open position.
pub open spec fn advanced(strategy: &DcaStrategy, price: u64, now: Timestamp) -> StrategyView {
    let moves = usable_price(price) && strategy.trades@.len() > 0;
    StrategyView {
        daily_spent: if now.day != strategy.last_reset_day {
            0
        } else {
            strategy.daily_spent
        },
        last_reset_day: now.day,
        next_buy_in_secs: strategy.countdown(now.secs) as i64,
        price_peak: if moves && strategy.config.direction == Direction::Long && price
            > strategy.price_peak {
            price
        } else {
            strategy.price_peak
        },
        price_trough: if moves && strategy.config.direction == Direction::Short && price
            < strategy.price_trough {
            price
        } else {
            strategy.price_trough
        },
        ..strategy@
    }
}

/// The close that a slot plans at `price`.
pub open spec fn close_plan(slot: &StrategySlot, kind: CloseKind, price: u64) -> ClosePlan {
    let s = slot.strategy;
    ClosePlan {
        slot_id: slot.id,
        kind,
        symbol: slot.symbol,
        direction: s.config.direction,
        quantity: s.quantity() as u64,
        price,
        extreme: match s.config.direction {
            Direction::Long => s.price_peak,
            Direction::Short => s.price_trough,
        },
        pnl: pnl_units(s.config.direction, s.quantity(), s.invested(), price as int) as i128,
        pnl_pct: pnl_pct_units(s.config.direction, s.quantity(), s.invested(), price as int) as i128,
        auto_restart: s.config.auto_restart,
        auto_flip: s.config.auto_flip,
    }
}

/// The entry that a slot plans at `price`.
pub open spec fn entry_plan(slot: &StrategySlot, price: u64) -> EntryPlan {
    let s = slot.strategy;
    EntryPlan {
        slot_id: slot.id,
        symbol: slot.symbol,
        direction: s.config.direction,
        amount: s.config.quote_amount,
        price,
        quantity: match s.config.direction {
            Direction::Long => 0,
            Direction::Short => floor_div(s.config.quote_amount * SCALE, price as int) as u128,
        },
    }
}

/// What a slot asks for at `price`: nothing without a usable price, else
/// what its strategy decides.
pub open spec fn slot_action(slot: &StrategySlot, price: u64, now: i64, max_daily: u64) -> SlotAction {
    if !usable_price(price) {
        SlotAction::Nothing
    } else {
        match slot.strategy.decision(price, now, max_daily) {
            Decision::StopLoss => SlotAction::Close(close_plan(slot, CloseKind::StopLoss, price)),
            Decision::TakeProfit => SlotAction::Close(close_plan(slot, CloseKind::TakeProfit, price)),
            Decision::TrailingTakeProfit => SlotAction::Close(
                close_plan(slot, CloseKind::TrailingTp, price),
            ),
            Decision::Enter => SlotAction::Enter(entry_plan(slot, price)),
            Decision::Hold => SlotAction::Nothing,
        }
    }
}

impl StrategySlot {
    /// Plans a close of the kind given at `price`.
    pub fn plan_close(&self, kind: CloseKind, price: u64) -> (r: ClosePlan)
        requires
            self.strategy.wf(),
            price <= MAX_PRICE,
        ensures
            r == close_plan(self, kind, price),
    {
        let quantity = self.strategy.total_quantity();
        ClosePlan {
            slot_id: self.id,
            kind,
            symbol: self.symbol.clone(),
            direction: self.strategy.config.direction,
            quantity: quantity as u64,
            price,
            extreme: match self.strategy.config.direction {
                Direction::Long => self.strategy.price_peak,
                Direction::Short => self.strategy.price_trough,
            },
            pnl: self.strategy.pnl(price),
            pnl_pct: self.strategy.pnl_pct(price),
            auto_restart: self.strategy.config.auto_restart,
            auto_flip: self.strategy.config.auto_flip,
        }
    }

    /// Plans an entry at `price`.
    pub fn plan_entry(&self, price: u64) -> (r: EntryPlan)
        requires
            price > 0,
        ensures
            r == entry_plan(self, price),
    {
        let amount = self.strategy.config.quote_amount;
        let quantity: u128 = match self.strategy.config.direction {
            Direction::Long => 0,
            Direction::Short => {
                let scaled: u128 = (amount as u128) * 100_000_000u128;
                scaled / (price as u128)
            },
        };
        EntryPlan {
            slot_id: self.id,
            symbol: self.symbol.clone(),
            direction: self.strategy.config.direction,
            amount,
            price,
            quantity,
        }
    }

    /// Advances the slot by one tick at `price` and returns what it asks for.
    pub fn plan(&mut self, price: u64, now: Timestamp, max_daily: u64) -> (r: SlotAction)
        requires
            old(self).strategy.wf(),
        ensures
            final(self)@ == (SlotView { strategy: advanced(&old(self).strategy, price, now), ..old(self)@ }),
            r == slot_action(final(self), price, now.secs, max_daily),
            final(self).strategy.wf(),
    {
        self.strategy.tick(now);
        if price == 0 || price > MAX_PRICE {
            return SlotAction::Nothing;
        }
        self.strategy.update_price_peak(price);
        match self.strategy.decide(price, now, max_daily) {
            Decision::StopLoss => SlotAction::Close(self.plan_close(CloseKind::StopLoss, price)),
            Decision::TakeProfit => SlotAction::Close(self.plan_close(CloseKind::TakeProfit, price)),
            Decision::TrailingTakeProfit => SlotAction::Close(
                self.plan_close(CloseKind::TrailingTp, price),
            ),
            Decision::Enter => SlotAction::Enter(self.plan_entry(price)),
            Decision::Hold => SlotAction::Nothing,
        }
    }
}

/// The log after a tick that gave `action`: a planned close is announced.
pub open spec fn log_after_plan(log: Seq<LogEntry>, action: SlotAction, now: i64) -> Seq<LogEntry> {
    match action {
        SlotAction::Close(plan) => appended(
            log,
            LogEntry { secs: now, level: LogLevel::Info, notice: plan.announcement() },
        ),
        _ => log,
    }
}

/// Evaluates one slot at `now`: advances its clock, reads the last price of
/// its symbol, moves the extreme, and decides by priority whether to close
/// the position or to enter. A planned close is announced in the log.
///
/// A slot id that no slot has changes nothing.
pub fn evaluate_slot(state: &mut AppState, slot_id: usize, now: Timestamp, max_daily: u64) -> (r: SlotAction)
    requires
        old(state).wf(),
    ensures
        match index_of_id(old(state).slots@, slot_id) {
            None => r is Nothing && final(state)@ == old(state)@,
            Some(i) => {
                let before = old(state).slots@[i];
                let price = old(state).price_of(before.symbol@);
                &&& final(state).slots@.len() == old(state).slots@.len()
                &&& r == slot_action(&final(state).slots@[i], price, now.secs, max_daily)
                &&& final(state).slots@[i]@ == (SlotView {
                    strategy: advanced(&before.strategy, price, now),
                    ..before@
                })
                &&& final(state)@ == (StateView {
                    slots: old(state)@.slots.update(
                        i,
                        SlotView { strategy: advanced(&before.strategy, price, now), ..before@ },
                    ),
                    log: log_after_plan(old(state).log@, r, now.secs),
                    ..old(state)@
                })
            },
        },
        final(state).wf(),
{
    let i = match state.position_of(slot_id) {
        Some(i) => i,
        None => {
            return SlotAction::Nothing;
        },
    };
    let price = match state.prices.get(&state.slots[i].symbol) {
        Some(data) => data.price,
        None => 0,
    };
    let action = state.slots[i].plan(price, now, max_daily);
    proof {
        assert(slot_views(state.slots@) =~= slot_views(old(state).slots@).update(
            i as int,
            state.slots@[i as int]@,
        ));
    }
    match &action {
        SlotAction::Close(plan) => {
            let notice = Notice::CloseTriggered {
                kind: plan.kind,
                symbol: plan.symbol.clone(),
                direction: plan.direction,
                quantity: plan.quantity,
                price: plan.price,
                pnl: plan.pnl,
            };
            state.note(now.secs, LogLevel::Info, notice);
        },
        _ => {},
    }
    action
}

// ----------------------------------------------------------------------
// Settling a close
// ----------------------------------------------------------------------

/// A close of this plan starts a new cycle by itself: it took a profit and
/// the slot was set to restart.
pub open spec fn restarts(plan: &ClosePlan) -> bool {
    plan.auto_restart && (plan.kind == CloseKind::TakeProfit || plan.kind == CloseKind::TrailingTp)
}

/// A close of this plan flips the direction of the slot.
pub open spec fn flips(plan: &ClosePlan) -> bool {
    restarts(plan) && plan.auto_flip
}

/// The strategy after its position was closed at `now`: the trades are
/// gone and the extremes unset. After a stop loss it is idle; after a manual
/// close it is idle if it ran; after a profit it runs again from `now` if it
/// restarts by itself, flipped if so set, and is idle otherwise.
pub open spec fn closed(strategy: &DcaStrategy, plan: &ClosePlan, now: i64) -> StrategyView {
    StrategyView {
        config: if flips(plan) {
            DcaConfig { direction: strategy.config.direction.flipped(), ..strategy.config }
        } else {
            strategy.config
        },
        state: if restarts(plan) {
            DcaState::Running
        } else if plan.kind == CloseKind::ManualClose && !strategy.state.active() {
            strategy.state
        } else {
            DcaState::Idle
        },
        trades: Seq::<DcaTrade>::empty(),
        last_buy_time: if restarts(plan) {
            Some(now)
        } else {
            None
        },
        last_buy_price: None,
        price_peak: 0,
        price_trough: TROUGH_UNSET,
        ..strategy@
    }
}

/// The quote amount that an order reports as received or paid; 0 where the
/// text is no decimal.
pub open spec fn received_of(order: &Order) -> u64 {
    match parsed(order.cummulative_quote_qty@) {
        Some(v) => v,
        None => 0,
    }
}

/// The log after a close was filled: the flip, if one took place, then the
/// fill, then the restart, if one took place.
pub open spec fn log_after_close(log: Seq<LogEntry>, plan: &ClosePlan, received: u64, flipped: Option<Direction>, now: i64) -> Seq<LogEntry> {
    let first = match flipped {
        Some(direction) => appended(
            log,
            LogEntry { secs: now, level: LogLevel::Info, notice: Notice::AutoFlipped { direction } },
        ),
        None => log,
    };
    let second = appended(
        first,
        LogEntry {
            secs: now,
            level: LogLevel::Info,
            notice: Notice::CloseDone { kind: plan.kind, symbol: plan.symbol, received },
        },
    );
    if restarts(plan) {
        appended(second, LogEntry { secs: now, level: LogLevel::Info, notice: Notice::AutoRestarted })
    } else {
        second
    }
}

/// The slots after the slot at `at`, if any, took the view `slot`.
pub open spec fn slots_with(slots: Seq<SlotView>, at: Option<int>, slot: SlotView) -> Seq<SlotView> {
    match at {
        Some(i) => slots.update(i, slot),
        None => slots,
    }
}

impl StrategySlot {
    /// Applies a filled close to the slot.
    pub fn apply_close(&mut self, plan: &ClosePlan, now: Timestamp)
        requires
            old(self).strategy.wf(),
        ensures
            final(self)@ == (SlotView { strategy: closed(&old(self).strategy, plan, now.secs), ..old(self)@ }),
            final(self).strategy.wf(),
    {
        let was_active = self.strategy.state.is_active();
        self.strategy.clear_trades();
        let takes_profit = match plan.kind {
            CloseKind::TakeProfit => true,
            CloseKind::TrailingTp => true,
            _ => false,
        };
        if takes_profit && plan.auto_restart {
            if plan.auto_flip {
                self.strategy.config.direction = self.strategy.config.direction.flip();
            }
            self.strategy.state = DcaState::TakeProfitReached;
            self.strategy.start_at(now);
        } else {
            match plan.kind {
                CloseKind::ManualClose => {
                    if was_active {
                        self.strategy.state = DcaState::Idle;
                    }
                },
                _ => {
                    self.strategy.state = DcaState::Idle;
                },
            }
        }
    }

    /// Halts the slot after an order failed: a running strategy is stopped.
    pub fn halt(&mut self)
        ensures
            final(self)@ == (SlotView {
                strategy: StrategyView {
                    state: if old(self).strategy.state.active() {
                        DcaState::Idle
                    } else {
                        old(self).strategy.state
                    },
                    ..old(self).strategy@
                },
                ..old(self)@
            }),
            old(self).strategy.wf() ==> final(self).strategy.wf(),
    {
        self.strategy.stop();
    }
}

/// Settles a close whose order was filled: the slot, if it still exists,
/// is cleared and moves on as `closed` says; the fill is logged; and unless
/// a new cycle started by itself, the overlay shows the result.
///
/// Returns `true`: the slots are to be persisted.
pub fn settle_close(state: &mut AppState, plan: &ClosePlan, order: &Order, now: Timestamp) -> (persist: bool)
    requires
        old(state).wf(),
    ensures
        persist,
        ({
            let at = index_of_id(old(state).slots@, plan.slot_id);
            let received = received_of(order);
            let flipped = match at {
                Some(i) => if flips(plan) {
                    Some(old(state).slots@[i].strategy.config.direction.flipped())
                } else {
                    None
                },
                None => None,
            };
            final(state)@ == (StateView {
                slots: match at {
                    Some(i) => old(state)@.slots.update(
                        i,
                        SlotView {
                            strategy: closed(&old(state).slots@[i].strategy, plan, now.secs),
                            ..old(state).slots@[i]@
                        },
                    ),
                    None => old(state)@.slots,
                },
                log: log_after_close(old(state).log@, plan, received, flipped, now.secs),
                ui_mode: if restarts(plan) {
                    old(state).ui_mode
                } else {
                    UiMode::PostSale(plan.slot_id, plan.sale_result(received))
                },
                ..old(state)@
            })
        }),
        final(state).wf(),
{
    let received = match parse_decimal(order.cummulative_quote_qty.as_str()) {
        Some(v) => v,
        None => 0,
    };
    let takes_profit = match plan.kind {
        CloseKind::TakeProfit => true,
        CloseKind::TrailingTp => true,
        _ => false,
    };
    let restart = takes_profit && plan.auto_restart;
    let mut flipped: Option<Direction> = None;
    match state.position_of(plan.slot_id) {
        Some(i) => {
            state.slots[i].apply_close(plan, now);
            if restart && plan.auto_flip {
                flipped = Some(state.slots[i].strategy.config.direction);
            }
            proof {
                assert(slot_views(state.slots@) =~= slot_views(old(state).slots@).update(
                    i as int,
                    state.slots@[i as int]@,
                ));
            }
        },
        None => {},
    }
    match flipped {
        Some(direction) => {
            state.note(now.secs, LogLevel::Info, Notice::AutoFlipped { direction });
        },
        None => {},
    }
    state.note(
        now.secs,
        LogLevel::Info,
        Notice::CloseDone { kind: plan.kind, symbol: plan.symbol.clone(), received },
    );
    if restart {
        state.note(now.secs, LogLevel::Info, Notice::AutoRestarted);
    } else {
        state.ui_mode = UiMode::PostSale(
            plan.slot_id,
            SaleResult { kind: plan.kind, received, pnl: plan.pnl, pnl_pct: plan.pnl_pct },
        );
    }
    true
}

/// Settles a close whose order failed: the failure is logged as an error
/// and the slot, if it still exists, is halted. Nothing is retried.
///
/// Returns `true`: the slots are to be persisted.
pub fn settle_close_failure(state: &mut AppState, plan: &ClosePlan, error: &OrderError, now: Timestamp) -> (persist: bool)
    requires
        old(state).wf(),
    ensures
        persist,
        final(state)@ == (StateView {
            slots: match index_of_id(old(state).slots@, plan.slot_id) {
                Some(i) => old(state)@.slots.update(
                    i,
                    SlotView {
                        strategy: StrategyView {
                            state: if old(state).slots@[i].strategy.state.active() {
                                DcaState::Idle
                            } else {
                                old(state).slots@[i].strategy.state
                            },
                            ..old(state).slots@[i].strategy@
                        },
                        ..old(state).slots@[i]@
                    },
                ),
                None => old(state)@.slots,
            },
            log: appended(
                old(state).log@,
                LogEntry {
                    secs: now.secs,
                    level: LogLevel::Error,
                    notice: Notice::CloseFailed {
                        kind: plan.kind,
                        symbol: plan.symbol,
                        code: error.code,
                        reason: error.message,
                    },
                },
            ),
            ..old(state)@
        }),
        final(state).wf(),
{
    match state.position_of(plan.slot_id) {
        Some(i) => {
            state.slots[i].halt();
            proof {
                assert(slot_views(state.slots@) =~= slot_views(old(state).slots@).update(
                    i as int,
                    state.slots@[i as int]@,
                ));
            }
        },
        None => {},
    }
    state.note(
        now.secs,
        LogLevel::Error,
        Notice::CloseFailed {
            kind: plan.kind,
            symbol: plan.symbol.clone(),
            code: error.code,
            reason: error.message.clone(),
        },
    );
    true
}

// ----------------------------------------------------------------------
// Settling an entry
// ----------------------------------------------------------------------

/// The base quantity that an order reports as executed; 0 where the text
/// is no decimal.
pub open spec fn executed_of(order: &Order) -> u64 {
    match parsed(order.executed_qty@) {
        Some(v) => v,
        None => 0,
    }
}

/// The quote amount that an entry order reports; the planned amount where
/// the text is no decimal.
pub open spec fn cost_of(order: &Order, planned: u64) -> u64 {
    match parsed(order.cummulative_quote_qty@) {
        Some(v) => v,
        None => planned,
    }
}

/// The price of a fill: what was paid per unit of quantity, rounded down,
/// or the planned price where nothing was executed.
pub open spec fn fill_price(quantity: u64, cost: u64, planned: u64) -> int {
    if quantity > 0 {
        floor_div(cost * SCALE, quantity as int)
    } else {
        planned as int
    }
}

/// The fill can be recorded without leaving the engine's range.
pub open spec fn recordable(strategy: &DcaStrategy, quantity: u64, cost: u64, planned: u64) -> bool {
    strategy.can_record(quantity, cost) && fill_price(quantity, cost, planned) <= u64::MAX
}

/// The strategy after a fill came in at `now`: the fill is recorded if it
/// can be; if not, the strategy is set idle and keeps what it had.
pub open spec fn filled(strategy: &DcaStrategy, order_id: u64, quantity: u64, cost: u64, planned: u64, now: i64) -> StrategyView {
    if recordable(strategy, quantity, cost, planned) {
        strategy.recorded(order_id, fill_price(quantity, cost, planned) as u64, quantity, cost, now)
    } else {
        StrategyView { state: DcaState::Idle, ..strategy@ }
    }
}

/// The log entry for a fill that came in for the slot.
pub open spec fn fill_entry(slot: &StrategySlot, plan: &EntryPlan, quantity: u64, cost: u64, now: i64) -> LogEntry {
    if recordable(&slot.strategy, quantity, cost, plan.price) {
        LogEntry {
            secs: now,
            level: LogLevel::Info,
            notice: Notice::EntryFilled {
                number: (slot.strategy.trades@.len() + 1) as usize,
                symbol: plan.symbol,
                direction: plan.direction,
                quantity,
                price: fill_price(quantity, cost, plan.price) as u64,
                cost,
            },
        }
    } else {
        LogEntry {
            secs: now,
            level: LogLevel::Error,
            notice: Notice::EntryOutOfRange { symbol: plan.symbol },
        }
    }
}

/// What the planned entry needs beyond the balance last reported.
pub open spec fn shortfall(slot: &StrategySlot, plan: &EntryPlan) -> int {
    match plan.direction {
        Direction::Long => plan.amount - slot.quote_balance,
        Direction::Short => plan.quantity - slot.base_balance,
    }
}

/// The log entry for a failed entry: want of balance is named as such
/// where the exchange gave that code and the last reported balance falls
/// short; any other failure is passed on with its code and message.
pub open spec fn failure_entry(slot: Option<StrategySlot>, plan: &EntryPlan, error: &OrderError, now: i64) -> LogEntry {
    LogEntry {
        secs: now,
        level: LogLevel::Error,
        notice: match slot {
            Some(slot) => if error.code == INSUFFICIENT_BALANCE_CODE && shortfall(&slot, plan) > 0 {
                Notice::InsufficientBalance {
                    symbol: plan.symbol,
                    direction: plan.direction,
                    needed: shortfall(&slot, plan) as u128,
                    asset: match plan.direction {
                        Direction::Long => slot.quote_asset,
                        Direction::Short => slot.base_asset,
                    },
                }
            } else {
                Notice::EntryFailed {
                    symbol: plan.symbol,
                    direction: plan.direction,
                    code: error.code,
                    reason: error.message,
                }
            },
            None => Notice::EntryFailed {
                symbol: plan.symbol,
                direction: plan.direction,
                code: error.code,
                reason: error.message,
            },
        },
    }
}

impl StrategySlot {
    /// Applies a fill to the slot and tells whether it was recorded.
    pub fn apply_fill(&mut self, order_id: u64, quantity: u64, cost: u64, planned: u64, now: Timestamp) -> (r: bool)
        requires
            old(self).strategy.wf(),
        ensures
            r == recordable(&old(self).strategy, quantity, cost, planned),
            final(self)@ == (SlotView {
                strategy: filled(&old(self).strategy, order_id, quantity, cost, planned, now.secs),
                ..old(self)@
            }),
            final(self).strategy.wf(),
    {
        let price: u128 = if quantity > 0 {
            let scaled: u128 = (cost as u128) * 100_000_000u128;
            scaled / (quantity as u128)
        } else {
            planned as u128
        };
        if price <= u64::MAX as u128 && self.strategy.fits(quantity, cost) {
            self.strategy.record_buy_at(order_id, price as u64, quantity, cost, now);
            true
        } else {
            self.strategy.state = DcaState::Idle;
            false
        }
    }

    /// Sets the strategy of the slot idle.
    pub fn set_idle(&mut self)
        ensures
            final(self)@ == (SlotView {
                strategy: StrategyView { state: DcaState::Idle, ..old(self).strategy@ },
                ..old(self)@
            }),
            old(self).strategy.wf() ==> final(self).strategy.wf(),
    {
        self.strategy.state = DcaState::Idle;
    }

    /// The notice for a failed entry of this slot.
    pub fn failure_notice(&self, plan: &EntryPlan, error: &OrderError) -> (r: Notice)
        ensures
            r == failure_entry(Some(*self), plan, error, 0).notice,
    {
        if error.code == INSUFFICIENT_BALANCE_CODE {
            match plan.direction {
                Direction::Long => {
                    if plan.amount > self.quote_balance {
                        return Notice::InsufficientBalance {
                            symbol: plan.symbol.clone(),
                            direction: plan.direction,
                            needed: (plan.amount - self.quote_balance) as u128,
                            asset: self.quote_asset.clone(),
                        };
                    }
                },
                Direction::Short => {
                    if plan.quantity > self.base_balance as u128 {
                        return Notice::InsufficientBalance {
                            symbol: plan.symbol.clone(),
                            direction: plan.direction,
                            needed: plan.quantity - self.base_balance as u128,
                            asset: self.base_asset.clone(),
                        };
                    }
                },
            }
        }
        Notice::EntryFailed {
            symbol: plan.symbol.clone(),
            direction: plan.direction,
            code: error.code,
            reason: error.message.clone(),
        }
    }
}

/// Settles an entry whose order was filled: the fill is recorded in the
/// slot, if it still exists, and logged. A fill that would take the
/// position out of the engine's range is not recorded; the slot is set idle
/// and an error is logged.
///
/// Returns `true`: the slots are to be persisted.
pub fn settle_entry(state: &mut AppState, plan: &EntryPlan, order: &Order, now: Timestamp) -> (persist: bool)
    requires
        old(state).wf(),
    ensures
        persist,
        ({
            let quantity = executed_of(order);
            let cost = cost_of(order, plan.amount);
            match index_of_id(old(state).slots@, plan.slot_id) {
                Some(i) => {
                    let before = old(state).slots@[i];
                    final(state)@ == (StateView {
                        slots: old(state)@.slots.update(
                            i,
                            SlotView {
                                strategy: filled(
                                    &before.strategy,
                                    order.order_id,
                                    quantity,
                                    cost,
                                    plan.price,
                                    now.secs,
                                ),
                                ..before@
                            },
                        ),
                        log: appended(
                            old(state).log@,
                            fill_entry(&before, plan, quantity, cost, now.secs),
                        ),
                        ..old(state)@
                    })
                },
                None => final(state)@ == old(state)@,
            }
        }),
        final(state).wf(),
{
    let quantity = match parse_decimal(order.executed_qty.as_str()) {
        Some(v) => v,
        None => 0,
    };
    let cost = match parse_decimal(order.cummulative_quote_qty.as_str()) {
        Some(v) => v,
        None => plan.amount,
    };
    match state.position_of(plan.slot_id) {
        Some(i) => {
            let recorded = state.slots[i].apply_fill(order.order_id, quantity, cost, plan.price, now);
            proof {
                assert(slot_views(state.slots@) =~= slot_views(old(state).slots@).update(
                    i as int,
                    state.slots@[i as int]@,
                ));
            }
            if recorded {
                let number = state.slots[i].strategy.trades.len();
                let price = match state.slots[i].strategy.last_buy_price {
                    Some(p) => p,
                    None => 0,
                };
                state.note(
                    now.secs,
                    LogLevel::Info,
                    Notice::EntryFilled {
                        number,
                        symbol: plan.symbol.clone(),
                        direction: plan.direction,
                        quantity,
                        price,
                        cost,
                    },
                );
            } else {
                state.note(
                    now.secs,
                    LogLevel::Error,
                    Notice::EntryOutOfRange { symbol: plan.symbol.clone() },
                );
            }
        },
        None => {},
    }
    true
}

/// Settles an entry whose order failed: the failure is logged as an error,
/// the slot, if it still exists, is set idle, and the halt is logged.
/// Nothing is retried; the user has to start the slot again.
///
/// Returns `true`: the slots are to be persisted.
pub fn settle_entry_failure(state: &mut AppState, plan: &EntryPlan, error: &OrderError, now: Timestamp) -> (persist: bool)
    requires
        old(state).wf(),
    ensures
        persist,
        ({
            let at = index_of_id(old(state).slots@, plan.slot_id);
            let slot = match at {
                Some(i) => Some(old(state).slots@[i]),
                None => None,
            };
            final(state)@ == (StateView {
                slots: match at {
                    Some(i) => old(state)@.slots.update(
                        i,
                        SlotView {
                            strategy: StrategyView {
                                state: DcaState::Idle,
                                ..old(state).slots@[i].strategy@
                            },
                            ..old(state).slots@[i]@
                        },
                    ),
                    None => old(state)@.slots,
                },
                log: appended(
                    appended(old(state).log@, failure_entry(slot, plan, error, now.secs)),
                    LogEntry {
                        secs: now.secs,
                        level: LogLevel::Info,
                        notice: Notice::StoppedOnError { symbol: plan.symbol },
                    },
                ),
                ..old(state)@
            })
        }),
        final(state).wf(),
{
    let found = state.position_of(plan.slot_id);
    let notice = match found {
        Some(i) => state.slots[i].failure_notice(plan, error),
        None => Notice::EntryFailed {
            symbol: plan.symbol.clone(),
            direction: plan.direction,
            code: error.code,
            reason: error.message.clone(),
        },
    };
    state.note(now.secs, LogLevel::Error, notice);
    match found {
        Some(i) => {
            state.slots[i].set_idle();
            proof {
                assert(slot_views(state.slots@) =~= slot_views(old(state).slots@).update(
                    i as int,
                    state.slots@[i as int]@,
                ));
            }
        },
        None => {},
    }
    state.note(now.secs, LogLevel::Info, Notice::StoppedOnError { symbol: plan.symbol.clone() });
    true
}

} // verus!
