//! The registry: every slot, the market data, the alert levels, the log and
//! the state of the user interface. It is the one value that the price
//! feed, the command processor and the tick scheduler share.

use std::collections::VecDeque;
use vstd::prelude::*;
use crate::clock::now_utc;
use crate::config::Direction;
use crate::fixed::MAX_PRICE;
use crate::strategy::dca::{DcaStrategy, StrategyView};
use crate::table::{lookup, Row, SymbolTable};

verus! {

/// Greatest number of strategies that run side by side.
pub const MAX_SLOTS: usize = 4;

/// Greatest number of entries the log keeps.
pub const LOG_CAPACITY: usize = 100;

/// Last known figures of one symbol.
#[derive(Debug, Clone, Copy, PartialEq, Eq, Structural)]
pub struct MarketData {
    /// Last price, in price units; 0 while none has arrived.
    pub price: u64,
    /// Change over the last 24 hours, in percent units.
    pub change_24h_pct: i128,
    /// Highest price of the last 24 hours.
    pub high_24h: u64,
    /// Lowest price of the last 24 hours.
    pub low_24h: u64,
}

impl Default for MarketData {
    fn default() -> (r: MarketData)
        ensures
            r == (MarketData { price: 0, change_24h_pct: 0, high_24h: 0, low_24h: 0 }),
    {
        MarketData { price: 0, change_24h_pct: 0, high_24h: 0, low_24h: 0 }
    }
}

/// Support and resistance of one symbol, with the instants of the last alerts.
#[derive(Debug, Clone, Copy, PartialEq, Eq, Structural)]
pub struct AlertLevel {
    /// Highest high of the window.
    pub resistance: u64,
    /// Lowest low of the window.
    pub support: u64,
    /// Price at the previous evaluation.
    pub prev_price: u64,
    /// Instant of the last support alert, in seconds.
    pub last_support_alert: Option<i64>,
    /// Instant of the last resistance alert, in seconds.
    pub last_resistance_alert: Option<i64>,
}

/// One strategy with what is known of its market.
pub struct StrategySlot {
    pub id: usize,
    pub strategy: DcaStrategy,
    pub symbol: String,
    pub base_asset: String,
    pub quote_asset: String,
    /// Free base balance as last reported, in units.
    pub base_balance: u64,
    /// Free quote balance as last reported, in units.
    pub quote_balance: u64,
}

/// The mathematical value of a slot.
pub struct SlotView {
    pub id: usize,
    pub strategy: StrategyView,
    pub symbol: String,
    pub base_asset: String,
    pub quote_asset: String,
    pub base_balance: u64,
    pub quote_balance: u64,
}

impl View for StrategySlot {
    type V = SlotView;

    open spec fn view(&self) -> SlotView {
        SlotView {
            id: self.id,
            strategy: self.strategy@,
            symbol: self.symbol,
            base_asset: self.base_asset,
            quote_asset: self.quote_asset,
            base_balance: self.base_balance,
            quote_balance: self.quote_balance,
        }
    }
}

/// Why a position was closed.
#[derive(Debug, Clone, Copy, PartialEq, Eq, Structural)]
pub enum CloseKind {
    TakeProfit,
    TrailingTp,
    StopLoss,
    ManualClose,
}

impl CloseKind {
    /// The text shown for a kind of close.
    pub open spec fn label_text(&self) -> Seq<char> {
        match self {
            CloseKind::TakeProfit => "TAKE PROFIT"@,
            CloseKind::TrailingTp => "TRAILING TP"@,
            CloseKind::StopLoss => "STOP LOSS"@,
            CloseKind::ManualClose => "MANUAL CLOSE"@,
        }
    }

    /// Returns the text shown for a kind of close.
    pub fn label(&self) -> (r: &str)
        ensures
            r@ == self.label_text(),
    {
        match self {
            CloseKind::TakeProfit => "TAKE PROFIT",
            CloseKind::TrailingTp => "TRAILING TP",
            CloseKind::StopLoss => "STOP LOSS",
            CloseKind::ManualClose => "MANUAL CLOSE",
        }
    }
}

/// Outcome of a close, for the overlay shown after it.
#[derive(Debug, Clone, Copy, PartialEq, Eq, Structural)]
pub struct SaleResult {
    pub kind: CloseKind,
    /// Quote amount received (long) or paid (short), in units.
    pub received: u64,
    /// Net profit estimated before the order, in units.
    pub pnl: i128,
    /// Net profit estimated before the order, in percent units.
    pub pnl_pct: i128,
}

/// One line of the prompt that offers to resume a stored session.
#[derive(Debug)]
pub struct RestoredSlot {
    pub symbol: String,
    pub direction: Direction,
    pub trade_count: usize,
    pub active: bool,
}

/// What the user interface shows.
#[derive(Debug)]
pub enum UiMode {
    Normal,
    /// Panel that edits the amount per entry.
    Config,
    /// Prompt at startup: a stored session was found.
    RestoreSession(Vec<RestoredSlot>),
    /// Dialog that creates a strategy.
    NewStrategy,
    /// Overlay after a close, for the slot with the given id.
    PostSale(usize, SaleResult),
    /// Confirmation of a manual close.
    ConfirmClose,
    /// Confirmation of the deletion of a slot.
    ConfirmDelete,
}

/// What the user can ask of the engine.
#[derive(Debug, Clone, Copy, PartialEq, Eq, Structural)]
pub enum AppCommand {
    Quit,
    SlotSelectUp,
    SlotSelectDown,
    StopSelected,
    ToggleStartStopSelected,
    ToggleAutoFlip,
    OpenConfirmDelete,
    ConfirmDeleteNow,
    OpenNewStrategy,
    NewStratSymbolUp,
    NewStratSymbolDown,
    NewStratToggleDirection,
    NewStratToggleAutoRestart,
    NewStratToggleAutoFlip,
    NewStratToggleBnb,
    NewStratConfirm,
    NewStratCancel,
    PostSaleRestart(usize),
    PostSaleDismiss(usize),
    RestoreSessionContinue,
    RestoreSessionDiscard,
    OpenConfig,
    CloseConfig,
    CfgInputChar(char),
    CfgBackspace,
    CfgConfirm,
    CfgToggleBnb,
    OpenConfirmClose,
    ConfirmCloseNow,
}

/// Weight of a log entry.
#[derive(Debug, Clone, Copy, PartialEq, Eq, Structural)]
pub enum LogLevel {
    Info,
    Alert,
    Error,
}

/// What a log entry reports. The user interface turns it into text.
#[derive(Debug)]
pub enum Notice {
    /// Free text.
    Text(String),
    SessionResumed,
    SessionDiscarded,
    StrategyStarted { symbol: String },
    StrategyStopped { symbol: String },
    AutoFlipSet { symbol: String, enabled: bool },
    CannotDeleteLastSlot,
    SlotRemoved,
    MaxStrategiesReached,
    NewStrategy { symbol: String, direction: Direction },
    CycleRestarted,
    NoOpenPosition,
    ConfigUpdated { amount: u64, fee_discount: bool },
    InvalidAmount { text: String },
    /// A close was decided and its order is about to be sent.
    CloseTriggered { kind: CloseKind, symbol: String, direction: Direction, quantity: u64, price: u64, pnl: i128 },
    /// The order of a close was filled.
    CloseDone { kind: CloseKind, symbol: String, received: u64 },
    /// The order of a close failed.
    CloseFailed { kind: CloseKind, symbol: String, code: i64, reason: String },
    AutoFlipped { direction: Direction },
    AutoRestarted,
    /// An entry was filled and recorded.
    EntryFilled { number: usize, symbol: String, direction: Direction, quantity: u64, price: u64, cost: u64 },
    /// An entry was filled but does not fit into the position any more.
    EntryOutOfRange { symbol: String },
    /// The order of an entry failed.
    EntryFailed { symbol: String, direction: Direction, code: i64, reason: String },
    /// The order of an entry failed for want of balance.
    InsufficientBalance { symbol: String, direction: Direction, needed: u128, asset: String },
    StoppedOnError { symbol: String },
    SupportBroken { symbol: String, price: u64, level: u64 },
    ResistanceBroken { symbol: String, price: u64, level: u64 },
}

/// One entry of the log.
#[derive(Debug)]
pub struct LogEntry {
    /// Instant of the entry, in seconds since the Unix epoch.
    pub secs: i64,
    pub level: LogLevel,
    pub notice: Notice,
}

/// The log after `entry` is added: the oldest entry leaves once the log is full.
pub open spec fn appended(log: Seq<LogEntry>, entry: LogEntry) -> Seq<LogEntry> {
    if log.len() >= LOG_CAPACITY {
        log.drop_first().push(entry)
    } else {
        log.push(entry)
    }
}

/// `entry` is free text reading `text`, of the given weight.
pub open spec fn is_text_entry(entry: LogEntry, level: LogLevel, text: Seq<char>) -> bool {
    entry.level == level && (entry.notice matches Notice::Text(t) && t@ == text)
}

/// The state shared by the user interface and the engine.
pub struct AppState {
    /// Active slots, at most `MAX_SLOTS`.
    pub slots: Vec<StrategySlot>,
    /// Index of the slot selected in the list.
    pub selected_slot: usize,
    /// Market data by symbol.
    pub prices: SymbolTable<MarketData>,
    /// Alert levels by symbol.
    pub alert_levels: SymbolTable<AlertLevel>,
    /// Pairs that can be traded.
    pub symbols: Vec<String>,
    /// The last `LOG_CAPACITY` log entries, oldest first.
    pub log: VecDeque<LogEntry>,
    pub should_quit: bool,
    pub ui_mode: UiMode,
    pub new_strat_symbol_idx: usize,
    pub new_strat_direction: Direction,
    pub new_strat_auto_restart: bool,
    pub new_strat_auto_flip: bool,
    pub new_strat_has_bnb: bool,
    /// Text typed into the amount field.
    pub cfg_amount_buf: String,
    pub cfg_has_bnb: bool,
    /// Id that the next new slot gets.
    pub next_slot_id: usize,
}

/// The mathematical value of the registry.
pub struct StateView {
    pub slots: Seq<SlotView>,
    pub selected_slot: usize,
    pub prices: SymbolTable<MarketData>,
    pub alert_levels: SymbolTable<AlertLevel>,
    pub symbols: Seq<String>,
    pub log: Seq<LogEntry>,
    pub should_quit: bool,
    pub ui_mode: UiMode,
    pub new_strat_symbol_idx: usize,
    pub new_strat_direction: Direction,
    pub new_strat_auto_restart: bool,
    pub new_strat_auto_flip: bool,
    pub new_strat_has_bnb: bool,
    pub cfg_amount_buf: Seq<char>,
    pub cfg_has_bnb: bool,
    pub next_slot_id: usize,
}

/// The views of a list of slots.
pub open spec fn slot_views(slots: Seq<StrategySlot>) -> Seq<SlotView> {
    Seq::new(slots.len(), |i: int| slots[i]@)
}

impl View for AppState {
    type V = StateView;

    open spec fn view(&self) -> StateView {
        StateView {
            slots: slot_views(self.slots@),
            selected_slot: self.selected_slot,
            prices: self.prices,
            alert_levels: self.alert_levels,
            symbols: self.symbols@,
            log: self.log@,
            should_quit: self.should_quit,
            ui_mode: self.ui_mode,
            new_strat_symbol_idx: self.new_strat_symbol_idx,
            new_strat_direction: self.new_strat_direction,
            new_strat_auto_restart: self.new_strat_auto_restart,
            new_strat_auto_flip: self.new_strat_auto_flip,
            new_strat_has_bnb: self.new_strat_has_bnb,
            cfg_amount_buf: self.cfg_amount_buf@,
            cfg_has_bnb: self.cfg_has_bnb,
            next_slot_id: self.next_slot_id,
        }
    }
}

/// Index of the first slot with the given id, if there is one.
pub open spec fn index_of_id(slots: Seq<StrategySlot>, id: usize) -> Option<int>
    decreases slots.len(),
{
    if slots.len() == 0 {
        None
    } else if slots[0].id == id {
        Some(0)
    } else {
        match index_of_id(slots.drop_first(), id) {
            Some(i) => Some(i + 1),
            None => None,
        }
    }
}

/// What `index_of_id` returns is the first index with that id.
pub proof fn lemma_index_of_id(slots: Seq<StrategySlot>, id: usize)
    ensures
        match index_of_id(slots, id) {
            Some(i) => 0 <= i < slots.len() && slots[i].id == id && forall|j: int|
                0 <= j < i ==> (#[trigger] slots[j]).id != id,
            None => forall|j: int| 0 <= j < slots.len() ==> (#[trigger] slots[j]).id != id,
        },
    decreases slots.len(),
{
    if slots.len() > 0 && slots[0].id != id {
        let rest = slots.drop_first();
        lemma_index_of_id(rest, id);
        match index_of_id(rest, id) {
            Some(i) => {
                assert(rest[i] == slots[i + 1]);
                assert forall|j: int| 0 <= j < i + 1 implies (#[trigger] slots[j]).id != id by {
                    if j > 0 {
                        assert(rest[j - 1] == slots[j]);
                    }
                }
            },
            None => {
                assert forall|j: int| 0 <= j < slots.len() implies (#[trigger] slots[j]).id
                    != id by {
                    if j > 0 {
                        assert(rest[j - 1] == slots[j]);
                    }
                }
            },
        }
    }
}

/// The index with a given id is the only one, where no id occurs twice.
pub proof fn lemma_index_of_id_is(slots: Seq<StrategySlot>, id: usize, at: int)
    requires
        0 <= at < slots.len(),
        slots[at].id == id,
        forall|j: int| 0 <= j < at ==> (#[trigger] slots[j]).id != id,
    ensures
        index_of_id(slots, id) == Some(at),
{
    lemma_index_of_id(slots, id);
}

impl AppState {
    /// The registry keeps its bounds: at most `MAX_SLOTS` slots, each within
    /// the engine's range and with an id of its own below `next_slot_id`,
    /// a log within its capacity, and no price above `MAX_PRICE`.
    pub open spec fn wf(&self) -> bool {
        &&& self.slots@.len() <= MAX_SLOTS
        &&& forall|i: int| 0 <= i < self.slots@.len() ==> (#[trigger] self.slots@[i]).strategy.wf()
        &&& forall|i: int| 0 <= i < self.slots@.len() ==> (#[trigger] self.slots@[i]).id < self.next_slot_id
        &&& forall|i: int, j: int|
            0 <= i < j < self.slots@.len() ==> (#[trigger] self.slots@[i]).id != (
            #[trigger] self.slots@[j]).id
        &&& self.log@.len() <= LOG_CAPACITY
        &&& forall|symbol: Seq<char>|
            (#[trigger] self.prices.value_of(symbol)) matches Some(data) ==> data.price <= MAX_PRICE
    }

    /// The last price of a symbol; 0 while none has arrived.
    pub open spec fn price_of(&self, symbol: Seq<char>) -> u64 {
        match self.prices.value_of(symbol) {
            Some(data) => data.price,
            None => 0,
        }
    }

    /// Adds an entry to the log; the oldest entry leaves once the log is full.
    pub fn note(&mut self, secs: i64, level: LogLevel, notice: Notice)
        ensures
            final(self)@ == (StateView {
                log: appended(old(self).log@, LogEntry { secs, level, notice }),
                ..old(self)@
            }),
            final(self).slots@ == old(self).slots@,
            final(self).log@.len() <= LOG_CAPACITY || final(self).log@.len() <= old(self).log@.len(),
            old(self).wf() ==> final(self).wf(),
    {
        if self.log.len() >= LOG_CAPACITY {
            self.log.pop_front();
        }
        self.log.push_back(LogEntry { secs, level, notice });
    }

    /// Logs a message now. The instant comes from the system clock.
    pub fn log(&mut self, msg: &str)
        ensures
            exists|entry: LogEntry| #[trigger]
                is_text_entry(entry, LogLevel::Info, msg@) && final(self)@ == (StateView {
                    log: appended(old(self).log@, entry),
                    ..old(self)@
                }),
            final(self).slots@ == old(self).slots@,
            old(self).wf() ==> final(self).wf(),
    {
        let now = now_utc();
        let text = msg.to_owned();
        proof {
            let entry = LogEntry { secs: now.secs, level: LogLevel::Info, notice: Notice::Text(text) };
            assert(is_text_entry(entry, LogLevel::Info, msg@));
        }
        self.note(now.secs, LogLevel::Info, Notice::Text(text));
    }

    /// Logs an alert now. The instant comes from the system clock.
    pub fn log_alert(&mut self, msg: &str)
        ensures
            exists|entry: LogEntry| #[trigger]
                is_text_entry(entry, LogLevel::Alert, msg@) && final(self)@ == (StateView {
                    log: appended(old(self).log@, entry),
                    ..old(self)@
                }),
            final(self).slots@ == old(self).slots@,
            old(self).wf() ==> final(self).wf(),
    {
        let now = now_utc();
        let text = msg.to_owned();
        proof {
            let entry = LogEntry { secs: now.secs, level: LogLevel::Alert, notice: Notice::Text(text) };
            assert(is_text_entry(entry, LogLevel::Alert, msg@));
        }
        self.note(now.secs, LogLevel::Alert, Notice::Text(text));
    }

    /// Logs an error now. The instant comes from the system clock.
    pub fn log_error(&mut self, msg: &str)
        ensures
            exists|entry: LogEntry| #[trigger]
                is_text_entry(entry, LogLevel::Error, msg@) && final(self)@ == (StateView {
                    log: appended(old(self).log@, entry),
                    ..old(self)@
                }),
            final(self).slots@ == old(self).slots@,
            old(self).wf() ==> final(self).wf(),
    {
        let now = now_utc();
        let text = msg.to_owned();
        proof {
            let entry = LogEntry { secs: now.secs, level: LogLevel::Error, notice: Notice::Text(text) };
            assert(is_text_entry(entry, LogLevel::Error, msg@));
        }
        self.note(now.secs, LogLevel::Error, Notice::Text(text));
    }

    /// The selected slot, if the selection points at one.
    pub fn selected(&self) -> (r: Option<&StrategySlot>)
        ensures
            match r {
                Some(slot) => self.selected_slot < self.slots@.len() && *slot == self.slots@[self.selected_slot as int],
                None => self.selected_slot >= self.slots@.len(),
            },
    {
        if self.selected_slot < self.slots.len() {
            Some(&self.slots[self.selected_slot])
        } else {
            None
        }
    }

    /// The selected slot, to be changed in place.
    pub fn selected_mut(&mut self) -> (r: Option<&mut StrategySlot>)
        ensures
            match r {
                Some(slot) => old(self).selected_slot < old(self).slots@.len() && *slot == old(self).slots@[old(self).selected_slot as int] && final(self).slots@ == old(self).slots@.update(old(self).selected_slot as int, *final(slot)) && (*final(self)
                    == AppState { slots: final(self).slots, ..*old(self) }),
                None => old(self).selected_slot >= old(self).slots@.len() && *final(self) == *old(self),
            },
    {
        let at = self.selected_slot;
        if at < self.slots.len() {
            Some(&mut self.slots[at])
        } else {
            None
        }
    }

    /// Index of the slot with the given id.
    pub fn position_of(&self, id: usize) -> (r: Option<usize>)
        ensures
            match r {
                Some(i) => index_of_id(self.slots@, id) == Some(i as int) && i < self.slots@.len()
                    && self.slots@[i as int].id == id,
                None => index_of_id(self.slots@, id) == None::<int>,
            },
    {
        let mut i: usize = 0;
        while i < self.slots.len()
            invariant
                i <= self.slots.len(),
                forall|j: int| 0 <= j < i ==> (#[trigger] self.slots@[j]).id != id,
            decreases self.slots.len() - i,
        {
            if self.slots[i].id == id {
                proof {
                    lemma_index_of_id_is(self.slots@, id, i as int);
                }
                return Some(i);
            }
            i = i + 1;
        }
        proof {
            lemma_index_of_id(self.slots@, id);
        }
        None
    }

    /// The slot with the given id.
    pub fn slot_by_id(&self, id: usize) -> (r: Option<&StrategySlot>)
        ensures
            match r {
                Some(slot) => index_of_id(self.slots@, id) matches Some(i) && *slot
                    == self.slots@[i],
                None => index_of_id(self.slots@, id) == None::<int>,
            },
    {
        match self.position_of(id) {
            Some(i) => Some(&self.slots[i]),
            None => None,
        }
    }

    /// The slot with the given id, to be changed in place.
    pub fn slot_by_id_mut(&mut self, id: usize) -> (r: Option<&mut StrategySlot>)
        ensures
            match r {
                Some(slot) => index_of_id(old(self).slots@, id) matches Some(i) && *slot == old(self).slots@[i] && final(self).slots@ == old(self).slots@.update(i, *final(slot))
                    && (*final(self) == AppState { slots: final(self).slots, ..*old(self) }),
                None => index_of_id(old(self).slots@, id) == None::<int> && *final(self) == *old(self),
            },
    {
        match self.position_of(id) {
            Some(i) => Some(&mut self.slots[i]),
            None => None,
        }
    }

    /// The last price of the selected slot's symbol; 0 if there is none.
    pub fn selected_price(&self) -> (r: u64)
        ensures
            r == (if self.selected_slot < self.slots@.len() {
                self.price_of(self.slots@[self.selected_slot as int].symbol@)
            } else {
                0
            }),
    {
        match self.selected() {
            Some(slot) => match self.prices.get(&slot.symbol) {
                Some(data) => data.price,
                None => 0,
            },
            None => 0,
        }
    }

    /// The market data of the selected slot's symbol; all zero if there is none.
    pub fn selected_market(&self) -> (r: MarketData)
        ensures
            r == (if self.selected_slot < self.slots@.len() {
                match self.prices.value_of(self.slots@[self.selected_slot as int].symbol@) {
                    Some(data) => data,
                    None => MarketData { price: 0, change_24h_pct: 0, high_24h: 0, low_24h: 0 },
                }
            } else {
                MarketData { price: 0, change_24h_pct: 0, high_24h: 0, low_24h: 0 }
            }),
    {
        match self.selected() {
            Some(slot) => match self.prices.get(&slot.symbol) {
                Some(data) => data,
                None => MarketData::default(),
            },
            None => MarketData::default(),
        }
    }

    /// Removes the slot with the given id, and moves the selection back
    /// onto the last slot if it pointed past the end.
    pub fn remove_slot(&mut self, id: usize)
        ensures
            match index_of_id(old(self).slots@, id) {
                Some(i) => final(self).slots@ == old(self).slots@.remove(i) && final(self).selected_slot == (if old(self).selected_slot >= old(self).slots@.len() - 1 && old(self).slots@.len() > 1 {
                    (old(self).slots@.len() - 2) as usize
                } else {
                    old(self).selected_slot
                }),
                None => final(self).slots@ == old(self).slots@ && final(self).selected_slot == old(self).selected_slot,
            },
            *final(self) == (AppState {
                slots: final(self).slots,
                selected_slot: final(self).selected_slot,
                ..*old(self)
            }),
            old(self).wf() ==> final(self).wf(),
    {
        match self.position_of(id) {
            Some(pos) => {
                self.slots.remove(pos);
                if self.selected_slot >= self.slots.len() && self.slots.len() > 0 {
                    self.selected_slot = self.slots.len() - 1;
                }
            },
            None => {},
        }
    }

    /// Hands out the next slot id. Ids grow, so none is handed out twice.
    pub fn alloc_slot_id(&mut self) -> (id: usize)
        requires
            old(self).next_slot_id < usize::MAX,
        ensures
            id == old(self).next_slot_id,
            *final(self) == (AppState { next_slot_id: (id + 1) as usize, ..*old(self) }),
            old(self).wf() ==> final(self).wf(),
    {
        let id = self.next_slot_id;
        self.next_slot_id = self.next_slot_id + 1;
        id
    }
}

/// Every row of the price table holds a price within the engine's range.
pub open spec fn rows_in_range(rows: Seq<Row<MarketData>>) -> bool {
    forall|i: int| 0 <= i < rows.len() ==> (#[trigger] rows[i]).value.price <= MAX_PRICE
}

/// A table whose rows are all in range gives no price out of range.
pub proof fn lemma_rows_in_range(rows: Seq<Row<MarketData>>, symbol: Seq<char>)
    requires
        rows_in_range(rows),
    ensures
        lookup(rows, symbol) matches Some(data) ==> data.price <= MAX_PRICE,
    decreases rows.len(),
{
    if rows.len() > 0 {
        assert(rows[0].value.price <= MAX_PRICE);
        if rows[0].key@ != symbol {
            let rest = rows.drop_first();
            assert forall|i: int| 0 <= i < rest.len() implies (#[trigger] rest[i]).value.price
                <= MAX_PRICE by {
                assert(rest[i] == rows[i + 1]);
            }
            lemma_rows_in_range(rest, symbol);
        }
    }
}

impl AppState {
    /// What `check` tests: the bounds of `wf`, with the price bound on
    /// every row of the table.
    pub open spec fn checked(&self) -> bool {
        &&& self.slots@.len() <= MAX_SLOTS
        &&& forall|i: int| 0 <= i < self.slots@.len() ==> (#[trigger] self.slots@[i]).strategy.wf()
        &&& forall|i: int| 0 <= i < self.slots@.len() ==> (#[trigger] self.slots@[i]).id < self.next_slot_id
        &&& forall|i: int, j: int|
            0 <= i < j < self.slots@.len() ==> (#[trigger] self.slots@[i]).id != (
            #[trigger] self.slots@[j]).id
        &&& self.log@.len() <= LOG_CAPACITY
        &&& rows_in_range(self.prices.rows@)
    }

    /// Tests at run time whether the registry keeps its bounds. A caller
    /// that built or changed the registry by hand calls this before it
    /// hands the registry to the engine.
    pub fn check(&self) -> (r: bool)
        ensures
            r == self.checked(),
            r ==> self.wf(),
    {
        if self.slots.len() > MAX_SLOTS || self.log.len() > LOG_CAPACITY {
            return false;
        }
        let mut i: usize = 0;
        while i < self.slots.len()
            invariant
                i <= self.slots.len(),
                forall|k: int| 0 <= k < i ==> (#[trigger] self.slots@[k]).strategy.wf(),
                forall|k: int| 0 <= k < i ==> (#[trigger] self.slots@[k]).id < self.next_slot_id,
                forall|k: int, j: int|
                    0 <= k < j < i ==> (#[trigger] self.slots@[k]).id != (#[trigger] self.slots@[j]).id,
            decreases self.slots.len() - i,
        {
            if !self.slots[i].strategy.in_range() || self.slots[i].id >= self.next_slot_id {
                return false;
            }
            let mut k: usize = 0;
            while k < i
                invariant
                    k <= i,
                    i < self.slots.len(),
                    forall|j: int| 0 <= j < k ==> (#[trigger] self.slots@[j]).id != self.slots@[i as int].id,
                decreases i - k,
            {
                if self.slots[k].id == self.slots[i].id {
                    return false;
                }
                k = k + 1;
            }
            i = i + 1;
        }
        let mut n: usize = 0;
        while n < self.prices.rows.len()
            invariant
                n <= self.prices.rows.len(),
                forall|k: int| 0 <= k < n ==> (#[trigger] self.prices.rows@[k]).value.price <= MAX_PRICE,
            decreases self.prices.rows.len() - n,
        {
            if self.prices.rows[n].value.price > MAX_PRICE {
                return false;
            }
            n = n + 1;
        }
        proof {
            assert forall|symbol: Seq<char>| (#[trigger] self.prices.value_of(symbol)) is Some implies self.prices.value_of(
                symbol,
            )->0.price <= MAX_PRICE by {
                lemma_rows_in_range(self.prices.rows@, symbol);
            }
        }
        true
    }
}

} // verus!
