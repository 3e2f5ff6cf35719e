//! The command processor: what each user intent does to the registry, and
//! what the caller has to do afterwards.
//!
//! A command changes the registry in one step. Persisting the slots,
//! refreshing balances, telling the price feed about new symbols and
//! placing an order are left to the caller, who does them once the
//! registry is free again; `CommandOutcome` says which of them are due.

use vstd::prelude::*;
use crate::clock::Timestamp;
use crate::config::{DcaConfig, Direction};
use crate::decimal::{format_short, is_digit, parse_decimal, parsed, short_text};
use crate::engine::{close_plan, ClosePlan};
use crate::fixed::{MAX_COST, SCALE};
use crate::models::order::DcaTrade;
use crate::registry::{
    appended, index_of_id, lemma_index_of_id_is, slot_views, AppCommand, AppState, CloseKind,
    LogEntry, LogLevel, Notice, SlotView, StateView, StrategySlot, UiMode, MAX_SLOTS,
};
use crate::strategy::dca::{DcaStrategy, StrategyView, TROUGH_UNSET};
use crate::strategy::state::DcaState;
use crate::symbol::{parse_symbol, split_symbol};

verus! {

/// What the caller has to do after a command.
#[derive(Debug)]
pub struct CommandOutcome {
    /// Write the slots to durable storage.
    pub persist: bool,
    /// Fetch the balances anew.
    pub refresh_balance: bool,
    /// Tell the price feed which symbols are active now.
    pub update_symbols: bool,
    /// Store this amount per entry in the configuration file.
    pub save_amount: Option<u64>,
    /// Place the order of this close and settle it.
    pub close: Option<ClosePlan>,
}

impl CommandOutcome {
    /// Nothing is left to do.
    pub open spec fn nothing() -> CommandOutcome {
        CommandOutcome {
            persist: false,
            refresh_balance: false,
            update_symbols: false,
            save_amount: None,
            close: None,
        }
    }

    /// The slots are to be persisted.
    pub open spec fn persisting() -> CommandOutcome {
        CommandOutcome { persist: true, ..CommandOutcome::nothing() }
    }

    /// The set of slots has changed: persist, refresh balances, update the feed.
    pub open spec fn slots_changed() -> CommandOutcome {
        CommandOutcome {
            persist: true,
            refresh_balance: true,
            update_symbols: true,
            save_amount: None,
            close: None,
        }
    }

    fn none() -> (r: CommandOutcome)
        ensures
            r == CommandOutcome::nothing(),
    {
        CommandOutcome {
            persist: false,
            refresh_balance: false,
            update_symbols: false,
            save_amount: None,
            close: None,
        }
    }

    fn persist_only() -> (r: CommandOutcome)
        ensures
            r == CommandOutcome::persisting(),
    {
        CommandOutcome {
            persist: true,
            refresh_balance: false,
            update_symbols: false,
            save_amount: None,
            close: None,
        }
    }

    fn all_slots() -> (r: CommandOutcome)
        ensures
            r == CommandOutcome::slots_changed(),
    {
        CommandOutcome {
            persist: true,
            refresh_balance: true,
            update_symbols: true,
            save_amount: None,
            close: None,
        }
    }
}

/// A log entry of weight `Info`.
pub open spec fn info(now: i64, notice: Notice) -> LogEntry {
    LogEntry { secs: now, level: LogLevel::Info, notice }
}

/// A log entry of weight `Error`.
pub open spec fn error(now: i64, notice: Notice) -> LogEntry {
    LogEntry { secs: now, level: LogLevel::Error, notice }
}

/// `c` occurs in `s`.
pub open spec fn has_char(s: Seq<char>, c: char) -> bool {
    exists|i: int| 0 <= i < s.len() && s[i] == c
}

/// Some slot trades the symbol.
pub open spec fn symbol_in_use(slots: Seq<StrategySlot>, symbol: Seq<char>) -> bool {
    exists|i: int| 0 <= i < slots.len() && (#[trigger] slots[i]).symbol@ == symbol
}

/// Index of the first symbol from `from` on that no slot trades; the number
/// of symbols if every one is traded.
pub open spec fn first_unused(symbols: Seq<String>, slots: Seq<StrategySlot>, from: int) -> int
    decreases symbols.len() - from,
{
    if from < 0 || from >= symbols.len() {
        symbols.len() as int
    } else if !symbol_in_use(slots, symbols[from]@) {
        from
    } else {
        first_unused(symbols, slots, from + 1)
    }
}

/// The symbol preselected for a new strategy: the first that no slot
/// trades, or the first of all if every one is traded.
pub open spec fn preselected(symbols: Seq<String>, slots: Seq<StrategySlot>) -> int {
    if first_unused(symbols, slots, 0) >= symbols.len() {
        0
    } else {
        first_unused(symbols, slots, 0)
    }
}

/// The amount field after `c` was typed: digits are taken, and a point
/// where the field has none yet.
pub open spec fn typed(buf: Seq<char>, c: char) -> Seq<char> {
    if is_digit(c) || (c == '.' && !has_char(buf, '.')) {
        buf.push(c)
    } else {
        buf
    }
}

/// The amount field after its last character was deleted.
pub open spec fn erased(buf: Seq<char>) -> Seq<char> {
    if buf.len() > 0 {
        buf.drop_last()
    } else {
        buf
    }
}

/// The registry after a command that touches neither slots nor settings of
/// a strategy: navigation, dialogs and the fields of the dialogs.
pub open spec fn after_ui_command(s: &AppState, cmd: AppCommand, base: &DcaConfig, now: i64) -> StateView {
    let v = s@;
    let slot_count = s.slots@.len();
    let symbol_count = s.symbols@.len();
    match cmd {
        AppCommand::Quit => StateView { should_quit: true, ..v },
        AppCommand::RestoreSessionContinue => StateView {
            log: appended(v.log, info(now, Notice::SessionResumed)),
            ui_mode: UiMode::Normal,
            ..v
        },
        AppCommand::SlotSelectUp => StateView {
            selected_slot: if s.selected_slot > 0 {
                (s.selected_slot - 1) as usize
            } else {
                s.selected_slot
            },
            ..v
        },
        AppCommand::SlotSelectDown => StateView {
            selected_slot: if s.selected_slot + 1 < slot_count {
                (s.selected_slot + 1) as usize
            } else {
                s.selected_slot
            },
            ..v
        },
        AppCommand::OpenConfirmDelete => if slot_count <= 1 {
            StateView { log: appended(v.log, error(now, Notice::CannotDeleteLastSlot)), ..v }
        } else {
            StateView { ui_mode: UiMode::ConfirmDelete, ..v }
        },
        AppCommand::OpenNewStrategy => StateView {
            new_strat_symbol_idx: preselected(s.symbols@, s.slots@) as usize,
            new_strat_direction: Direction::Long,
            new_strat_auto_restart: base.auto_restart,
            new_strat_auto_flip: base.auto_flip,
            ui_mode: UiMode::NewStrategy,
            ..v
        },
        AppCommand::NewStratSymbolUp => StateView {
            new_strat_symbol_idx: if symbol_count == 0 {
                s.new_strat_symbol_idx
            } else if s.new_strat_symbol_idx == 0 {
                (symbol_count - 1) as usize
            } else {
                (s.new_strat_symbol_idx - 1) as usize
            },
            ..v
        },
        AppCommand::NewStratSymbolDown => StateView {
            new_strat_symbol_idx: if symbol_count == 0 {
                s.new_strat_symbol_idx
            } else {
                ((s.new_strat_symbol_idx + 1) % (symbol_count as int)) as usize
            },
            ..v
        },
        AppCommand::NewStratToggleDirection => StateView {
            new_strat_direction: s.new_strat_direction.flipped(),
            ..v
        },
        AppCommand::NewStratToggleAutoRestart => StateView {
            new_strat_auto_restart: !s.new_strat_auto_restart,
            ..v
        },
        AppCommand::NewStratToggleAutoFlip => StateView {
            new_strat_auto_flip: !s.new_strat_auto_flip,
            ..v
        },
        AppCommand::NewStratToggleBnb => StateView { new_strat_has_bnb: !s.new_strat_has_bnb, ..v },
        AppCommand::NewStratCancel => StateView { ui_mode: UiMode::Normal, ..v },
        AppCommand::CloseConfig => StateView { ui_mode: UiMode::Normal, ..v },
        AppCommand::CfgToggleBnb => StateView { cfg_has_bnb: !s.cfg_has_bnb, ..v },
        AppCommand::CfgInputChar(c) => StateView { cfg_amount_buf: typed(v.cfg_amount_buf, c), ..v },
        AppCommand::CfgBackspace => StateView { cfg_amount_buf: erased(v.cfg_amount_buf), ..v },
        AppCommand::PostSaleDismiss(id) => match s.ui_mode {
            UiMode::PostSale(shown, _) => if shown == id {
                StateView { ui_mode: UiMode::Normal, ..v }
            } else {
                v
            },
            _ => v,
        },
        AppCommand::OpenConfig => StateView {
            cfg_amount_buf: short_text(
                (if s.selected_slot < slot_count {
                    s.slots@[s.selected_slot as int].strategy.config.quote_amount
                } else {
                    base.quote_amount
                }) as u128,
            ),
            cfg_has_bnb: if s.selected_slot < slot_count {
                s.slots@[s.selected_slot as int].strategy.config.has_bnb_balance
            } else {
                base.has_bnb_balance
            },
            ui_mode: UiMode::Config,
            ..v
        },
        AppCommand::OpenConfirmClose => if s.selected_slot < slot_count
            && s.slots@[s.selected_slot as int].strategy.quantity() > 0 {
            StateView { ui_mode: UiMode::ConfirmClose, ..v }
        } else {
            StateView { log: appended(v.log, info(now, Notice::NoOpenPosition)), ..v }
        },
        _ => v,
    }
}

/// The command is one of those that `after_ui_command` describes.
pub open spec fn is_ui_command(cmd: AppCommand) -> bool {
    match cmd {
        AppCommand::Quit => true,
        AppCommand::RestoreSessionContinue => true,
        AppCommand::SlotSelectUp => true,
        AppCommand::SlotSelectDown => true,
        AppCommand::OpenConfirmDelete => true,
        AppCommand::OpenNewStrategy => true,
        AppCommand::NewStratSymbolUp => true,
        AppCommand::NewStratSymbolDown => true,
        AppCommand::NewStratToggleDirection => true,
        AppCommand::NewStratToggleAutoRestart => true,
        AppCommand::NewStratToggleAutoFlip => true,
        AppCommand::NewStratToggleBnb => true,
        AppCommand::NewStratCancel => true,
        AppCommand::CloseConfig => true,
        AppCommand::CfgToggleBnb => true,
        AppCommand::CfgInputChar(_) => true,
        AppCommand::CfgBackspace => true,
        AppCommand::PostSaleDismiss(_) => true,
        AppCommand::OpenConfig => true,
        AppCommand::OpenConfirmClose => true,
        _ => false,
    }
}

/// Appends a character to a string through `String::push`.
///
/// Trusted: the string afterwards is the string before with the character
/// at its end, as std documents.
#[verifier::external_body]
fn string_push(s: &mut String, c: char)
    ensures
        final(s)@ == old(s)@.push(c),
{
    s.push(c);
}

/// Removes the last character of a string through `String::pop`.
///
/// Trusted: the string afterwards is the string before without its last
/// character, and an empty string stays empty, as std documents.
#[verifier::external_body]
fn string_pop(s: &mut String)
    ensures
        final(s)@ == erased(old(s)@),
{
    s.pop();
}

/// Tells whether `c` occurs in `s`.
pub fn contains_char(s: &str, c: char) -> (r: bool)
    ensures
        r == has_char(s@, c),
{
    let n = s.unicode_len();
    let mut i: usize = 0;
    while i < n
        invariant
            n == s@.len(),
            i <= n,
            forall|j: int| 0 <= j < i ==> s@[j] != c,
        decreases n - i,
    {
        if s.get_char(i) == c {
            return true;
        }
        i = i + 1;
    }
    false
}

/// Tells whether some slot trades the symbol.
pub fn in_use(slots: &Vec<StrategySlot>, symbol: &String) -> (r: bool)
    ensures
        r == symbol_in_use(slots@, symbol@),
{
    let mut i: usize = 0;
    while i < slots.len()
        invariant
            i <= slots.len(),
            forall|j: int| 0 <= j < i ==> (#[trigger] slots@[j]).symbol@ != symbol@,
        decreases slots.len() - i,
    {
        if slots[i].symbol == *symbol {
            return true;
        }
        i = i + 1;
    }
    false
}

/// Returns the index of the symbol preselected for a new strategy.
pub fn preselect(symbols: &Vec<String>, slots: &Vec<StrategySlot>) -> (r: usize)
    ensures
        r == preselected(symbols@, slots@),
{
    let mut i: usize = 0;
    while i < symbols.len()
        invariant
            i <= symbols.len(),
            first_unused(symbols@, slots@, 0) == first_unused(symbols@, slots@, i as int),
        decreases symbols.len() - i,
    {
        if !in_use(slots, &symbols[i]) {
            return i;
        }
        i = i + 1;
    }
    0
}

fn ui_quit(state: &mut AppState, base: &DcaConfig, now: Timestamp)
    ensures
        final(state)@ == after_ui_command(old(state), AppCommand::Quit, base, now.secs),
        final(state).slots@ == old(state).slots@,
        final(state).next_slot_id == old(state).next_slot_id,
        old(state).wf() ==> final(state).wf(),
{
    state.should_quit = true;
}

fn ui_restore_session_continue(state: &mut AppState, base: &DcaConfig, now: Timestamp)
    ensures
        final(state)@ == after_ui_command(old(state), AppCommand::RestoreSessionContinue, base, now.secs),
        final(state).slots@ == old(state).slots@,
        final(state).next_slot_id == old(state).next_slot_id,
        old(state).wf() ==> final(state).wf(),
{
    state.note(now.secs, LogLevel::Info, Notice::SessionResumed);
    state.ui_mode = UiMode::Normal;
}

fn ui_slot_select_up(state: &mut AppState, base: &DcaConfig, now: Timestamp)
    ensures
        final(state)@ == after_ui_command(old(state), AppCommand::SlotSelectUp, base, now.secs),
        final(state).slots@ == old(state).slots@,
        final(state).next_slot_id == old(state).next_slot_id,
        old(state).wf() ==> final(state).wf(),
{
    if state.selected_slot > 0 {
        state.selected_slot = state.selected_slot - 1;
    }
}

fn ui_slot_select_down(state: &mut AppState, base: &DcaConfig, now: Timestamp)
    ensures
        final(state)@ == after_ui_command(old(state), AppCommand::SlotSelectDown, base, now.secs),
        final(state).slots@ == old(state).slots@,
        final(state).next_slot_id == old(state).next_slot_id,
        old(state).wf() ==> final(state).wf(),
{
    if state.selected_slot < state.slots.len() && state.selected_slot + 1 < state.slots.len() {
        state.selected_slot = state.selected_slot + 1;
    }
}

fn ui_open_confirm_delete(state: &mut AppState, base: &DcaConfig, now: Timestamp)
    ensures
        final(state)@ == after_ui_command(old(state), AppCommand::OpenConfirmDelete, base, now.secs),
        final(state).slots@ == old(state).slots@,
        final(state).next_slot_id == old(state).next_slot_id,
        old(state).wf() ==> final(state).wf(),
{
    if state.slots.len() <= 1 {
        state.note(now.secs, LogLevel::Error, Notice::CannotDeleteLastSlot);
    } else {
        state.ui_mode = UiMode::ConfirmDelete;
    }
}

fn ui_open_new_strategy(state: &mut AppState, base: &DcaConfig, now: Timestamp)
    ensures
        final(state)@ == after_ui_command(old(state), AppCommand::OpenNewStrategy, base, now.secs),
        final(state).slots@ == old(state).slots@,
        final(state).next_slot_id == old(state).next_slot_id,
        old(state).wf() ==> final(state).wf(),
{
    state.new_strat_symbol_idx = preselect(&state.symbols, &state.slots);
    state.new_strat_direction = Direction::Long;
    state.new_strat_auto_restart = base.auto_restart;
    state.new_strat_auto_flip = base.auto_flip;
    state.ui_mode = UiMode::NewStrategy;
}

fn ui_new_strat_symbol_up(state: &mut AppState, base: &DcaConfig, now: Timestamp)
    ensures
        final(state)@ == after_ui_command(old(state), AppCommand::NewStratSymbolUp, base, now.secs),
        final(state).slots@ == old(state).slots@,
        final(state).next_slot_id == old(state).next_slot_id,
        old(state).wf() ==> final(state).wf(),
{
    let len = state.symbols.len();
    if len > 0 {
        state.new_strat_symbol_idx = if state.new_strat_symbol_idx == 0 {
            len - 1
        } else {
            state.new_strat_symbol_idx - 1
        };
    }
}

fn ui_new_strat_symbol_down(state: &mut AppState, base: &DcaConfig, now: Timestamp)
    ensures
        final(state)@ == after_ui_command(old(state), AppCommand::NewStratSymbolDown, base, now.secs),
        final(state).slots@ == old(state).slots@,
        final(state).next_slot_id == old(state).next_slot_id,
        old(state).wf() ==> final(state).wf(),
{
    let len = state.symbols.len();
    if len > 0 {
        let next: u128 = (state.new_strat_symbol_idx as u128 + 1) % (len as u128);
        state.new_strat_symbol_idx = next as usize;
    }
}

fn ui_new_strat_toggle_direction(state: &mut AppState, base: &DcaConfig, now: Timestamp)
    ensures
        final(state)@ == after_ui_command(old(state), AppCommand::NewStratToggleDirection, base, now.secs),
        final(state).slots@ == old(state).slots@,
        final(state).next_slot_id == old(state).next_slot_id,
        old(state).wf() ==> final(state).wf(),
{
    state.new_strat_direction = state.new_strat_direction.flip();
}

fn ui_new_strat_toggle_auto_restart(state: &mut AppState, base: &DcaConfig, now: Timestamp)
    ensures
        final(state)@ == after_ui_command(old(state), AppCommand::NewStratToggleAutoRestart, base, now.secs),
        final(state).slots@ == old(state).slots@,
        final(state).next_slot_id == old(state).next_slot_id,
        old(state).wf() ==> final(state).wf(),
{
    state.new_strat_auto_restart = !state.new_strat_auto_restart;
}

fn ui_new_strat_toggle_auto_flip(state: &mut AppState, base: &DcaConfig, now: Timestamp)
    ensures
        final(state)@ == after_ui_command(old(state), AppCommand::NewStratToggleAutoFlip, base, now.secs),
        final(state).slots@ == old(state).slots@,
        final(state).next_slot_id == old(state).next_slot_id,
        old(state).wf() ==> final(state).wf(),
{
    state.new_strat_auto_flip = !state.new_strat_auto_flip;
}

fn ui_new_strat_toggle_bnb(state: &mut AppState, base: &DcaConfig, now: Timestamp)
    ensures
        final(state)@ == after_ui_command(old(state), AppCommand::NewStratToggleBnb, base, now.secs),
        final(state).slots@ == old(state).slots@,
        final(state).next_slot_id == old(state).next_slot_id,
        old(state).wf() ==> final(state).wf(),
{
    state.new_strat_has_bnb = !state.new_strat_has_bnb;
}

fn ui_new_strat_cancel(state: &mut AppState, base: &DcaConfig, now: Timestamp)
    ensures
        final(state)@ == after_ui_command(old(state), AppCommand::NewStratCancel, base, now.secs),
        final(state).slots@ == old(state).slots@,
        final(state).next_slot_id == old(state).next_slot_id,
        old(state).wf() ==> final(state).wf(),
{
    state.ui_mode = UiMode::Normal;
}

fn ui_close_config(state: &mut AppState, base: &DcaConfig, now: Timestamp)
    ensures
        final(state)@ == after_ui_command(old(state), AppCommand::CloseConfig, base, now.secs),
        final(state).slots@ == old(state).slots@,
        final(state).next_slot_id == old(state).next_slot_id,
        old(state).wf() ==> final(state).wf(),
{
    state.ui_mode = UiMode::Normal;
}

fn ui_cfg_toggle_bnb(state: &mut AppState, base: &DcaConfig, now: Timestamp)
    ensures
        final(state)@ == after_ui_command(old(state), AppCommand::CfgToggleBnb, base, now.secs),
        final(state).slots@ == old(state).slots@,
        final(state).next_slot_id == old(state).next_slot_id,
        old(state).wf() ==> final(state).wf(),
{
    state.cfg_has_bnb = !state.cfg_has_bnb;
}

fn ui_cfg_input_char(state: &mut AppState, c: char, base: &DcaConfig, now: Timestamp)
    ensures
        final(state)@ == after_ui_command(old(state), AppCommand::CfgInputChar(c), base, now.secs),
        final(state).slots@ == old(state).slots@,
        final(state).next_slot_id == old(state).next_slot_id,
        old(state).wf() ==> final(state).wf(),
{
    let digit = '0' <= c && c <= '9';
    if digit || (c == '.' && !contains_char(state.cfg_amount_buf.as_str(), '.')) {
        string_push(&mut state.cfg_amount_buf, c);
    }
}

fn ui_cfg_backspace(state: &mut AppState, base: &DcaConfig, now: Timestamp)
    ensures
        final(state)@ == after_ui_command(old(state), AppCommand::CfgBackspace, base, now.secs),
        final(state).slots@ == old(state).slots@,
        final(state).next_slot_id == old(state).next_slot_id,
        old(state).wf() ==> final(state).wf(),
{
    string_pop(&mut state.cfg_amount_buf);
}

fn ui_post_sale_dismiss(state: &mut AppState, id: usize, base: &DcaConfig, now: Timestamp)
    ensures
        final(state)@ == after_ui_command(old(state), AppCommand::PostSaleDismiss(id), base, now.secs),
        final(state).slots@ == old(state).slots@,
        final(state).next_slot_id == old(state).next_slot_id,
        old(state).wf() ==> final(state).wf(),
{
    let dismiss = match &state.ui_mode {
        UiMode::PostSale(shown, _) => *shown == id,
        _ => false,
    };
    if dismiss {
        state.ui_mode = UiMode::Normal;
    }
}

fn ui_open_config(state: &mut AppState, base: &DcaConfig, now: Timestamp)
    ensures
        final(state)@ == after_ui_command(old(state), AppCommand::OpenConfig, base, now.secs),
        final(state).slots@ == old(state).slots@,
        final(state).next_slot_id == old(state).next_slot_id,
        old(state).wf() ==> final(state).wf(),
{
    let (amount, fee_discount) = if state.selected_slot < state.slots.len() {
        let config = &state.slots[state.selected_slot].strategy.config;
        (config.quote_amount, config.has_bnb_balance)
    } else {
        (base.quote_amount, base.has_bnb_balance)
    };
    state.cfg_amount_buf = format_short(amount as u128);
    state.cfg_has_bnb = fee_discount;
    state.ui_mode = UiMode::Config;
}

fn ui_open_confirm_close(state: &mut AppState, base: &DcaConfig, now: Timestamp)
    ensures
        final(state)@ == after_ui_command(old(state), AppCommand::OpenConfirmClose, base, now.secs),
        final(state).slots@ == old(state).slots@,
        final(state).next_slot_id == old(state).next_slot_id,
        old(state).wf() ==> final(state).wf(),
{
    let has_position = if state.selected_slot < state.slots.len() {
        state.slots[state.selected_slot].strategy.total_quantity() > 0
    } else {
        false
    };
    if has_position {
        state.ui_mode = UiMode::ConfirmClose;
    } else {
        state.note(now.secs, LogLevel::Info, Notice::NoOpenPosition);
    }
}

/// Applies a command that touches no slot: navigation, dialogs and their fields.
pub fn apply_ui_command(state: &mut AppState, cmd: AppCommand, base: &DcaConfig, now: Timestamp)
    requires
        is_ui_command(cmd),
    ensures
        final(state)@ == after_ui_command(old(state), cmd, base, now.secs),
        final(state).slots@ == old(state).slots@,
        final(state).next_slot_id == old(state).next_slot_id,
        old(state).wf() ==> final(state).wf(),
{
    match cmd {
        AppCommand::Quit => ui_quit(state, base, now),
        AppCommand::RestoreSessionContinue => ui_restore_session_continue(state, base, now),
        AppCommand::SlotSelectUp => ui_slot_select_up(state, base, now),
        AppCommand::SlotSelectDown => ui_slot_select_down(state, base, now),
        AppCommand::OpenConfirmDelete => ui_open_confirm_delete(state, base, now),
        AppCommand::OpenNewStrategy => ui_open_new_strategy(state, base, now),
        AppCommand::NewStratSymbolUp => ui_new_strat_symbol_up(state, base, now),
        AppCommand::NewStratSymbolDown => ui_new_strat_symbol_down(state, base, now),
        AppCommand::NewStratToggleDirection => ui_new_strat_toggle_direction(state, base, now),
        AppCommand::NewStratToggleAutoRestart => ui_new_strat_toggle_auto_restart(state, base, now),
        AppCommand::NewStratToggleAutoFlip => ui_new_strat_toggle_auto_flip(state, base, now),
        AppCommand::NewStratToggleBnb => ui_new_strat_toggle_bnb(state, base, now),
        AppCommand::NewStratCancel => ui_new_strat_cancel(state, base, now),
        AppCommand::CloseConfig => ui_close_config(state, base, now),
        AppCommand::CfgToggleBnb => ui_cfg_toggle_bnb(state, base, now),
        AppCommand::CfgInputChar(c) => ui_cfg_input_char(state, c, base, now),
        AppCommand::CfgBackspace => ui_cfg_backspace(state, base, now),
        AppCommand::PostSaleDismiss(id) => ui_post_sale_dismiss(state, id, base, now),
        AppCommand::OpenConfig => ui_open_config(state, base, now),
        AppCommand::OpenConfirmClose => ui_open_confirm_close(state, base, now),
        _ => {},
    }
}

// ----------------------------------------------------------------------
// Commands on the selected slot
// ----------------------------------------------------------------------

/// The view of a registry whose slot at `at` has the strategy given.
pub open spec fn with_strategy(s: &AppState, at: int, strategy: StrategyView) -> Seq<SlotView> {
    s@.slots.update(at, SlotView { strategy, ..s.slots@[at]@ })
}

/// The registry after a command on the selected slot or on the slot of a
/// given id: start, stop, direction flip setting, restart after a sale,
/// deletion.
pub open spec fn after_slot_command(s: &AppState, cmd: AppCommand, now: i64) -> StateView {
    let v = s@;
    let sel = s.selected_slot as int;
    let selected = sel < s.slots@.len();
    match cmd {
        AppCommand::ToggleStartStopSelected => if selected {
            let slot = s.slots@[sel];
            if slot.strategy.state.active() {
                StateView {
                    slots: with_strategy(
                        s,
                        sel,
                        StrategyView { state: DcaState::Idle, ..slot.strategy@ },
                    ),
                    log: appended(v.log, info(now, Notice::StrategyStopped { symbol: slot.symbol })),
                    ..v
                }
            } else {
                StateView {
                    slots: with_strategy(s, sel, slot.strategy.started(now)),
                    log: appended(v.log, info(now, Notice::StrategyStarted { symbol: slot.symbol })),
                    ..v
                }
            }
        } else {
            v
        },
        AppCommand::StopSelected => if selected && s.slots@[sel].strategy.state.active() {
            let slot = s.slots@[sel];
            StateView {
                slots: with_strategy(s, sel, StrategyView { state: DcaState::Idle, ..slot.strategy@ }),
                log: appended(v.log, info(now, Notice::StrategyStopped { symbol: slot.symbol })),
                ..v
            }
        } else {
            v
        },
        AppCommand::ToggleAutoFlip => if selected {
            let slot = s.slots@[sel];
            let config = slot.strategy.config;
            StateView {
                slots: with_strategy(
                    s,
                    sel,
                    StrategyView {
                        config: DcaConfig { auto_flip: !config.auto_flip, ..config },
                        ..slot.strategy@
                    },
                ),
                log: appended(
                    v.log,
                    info(
                        now,
                        Notice::AutoFlipSet { symbol: slot.symbol, enabled: !config.auto_flip },
                    ),
                ),
                ..v
            }
        } else {
            v
        },
        AppCommand::PostSaleRestart(id) => StateView {
            slots: match index_of_id(s.slots@, id) {
                Some(i) => with_strategy(s, i, s.slots@[i].strategy.started(now)),
                None => v.slots,
            },
            ui_mode: UiMode::Normal,
            log: appended(v.log, info(now, Notice::CycleRestarted)),
            ..v
        },
        AppCommand::ConfirmDeleteNow => if selected {
            StateView {
                slots: v.slots.remove(sel),
                selected_slot: if sel >= s.slots@.len() - 1 && s.slots@.len() > 1 {
                    (s.slots@.len() - 2) as usize
                } else {
                    s.selected_slot
                },
                ui_mode: UiMode::Normal,
                log: appended(v.log, info(now, Notice::SlotRemoved)),
                ..v
            }
        } else {
            StateView { ui_mode: UiMode::Normal, ..v }
        },
        _ => v,
    }
}

/// What is left to do after a command on a slot.
pub open spec fn outcome_of_slot_command(s: &AppState, cmd: AppCommand) -> CommandOutcome {
    let selected = s.selected_slot < s.slots@.len();
    match cmd {
        AppCommand::ToggleStartStopSelected => if selected {
            CommandOutcome::persisting()
        } else {
            CommandOutcome::nothing()
        },
        AppCommand::StopSelected => if selected && s.slots@[s.selected_slot as int].strategy.state.active() {
            CommandOutcome::persisting()
        } else {
            CommandOutcome::nothing()
        },
        AppCommand::ToggleAutoFlip => if selected {
            CommandOutcome::persisting()
        } else {
            CommandOutcome::nothing()
        },
        AppCommand::PostSaleRestart(_) => CommandOutcome::persisting(),
        AppCommand::ConfirmDeleteNow => if selected {
            CommandOutcome::slots_changed()
        } else {
            CommandOutcome::nothing()
        },
        _ => CommandOutcome::nothing(),
    }
}

/// The command is one of those that `after_slot_command` describes.
pub open spec fn is_slot_command(cmd: AppCommand) -> bool {
    match cmd {
        AppCommand::ToggleStartStopSelected => true,
        AppCommand::StopSelected => true,
        AppCommand::ToggleAutoFlip => true,
        AppCommand::PostSaleRestart(_) => true,
        AppCommand::ConfirmDeleteNow => true,
        _ => false,
    }
}

fn slot_toggle_start_stop(state: &mut AppState, now: Timestamp) -> (r: CommandOutcome)
    requires
        old(state).wf(),
    ensures
        final(state)@ == after_slot_command(old(state), AppCommand::ToggleStartStopSelected, now.secs),
        r == outcome_of_slot_command(old(state), AppCommand::ToggleStartStopSelected),
        final(state).next_slot_id == old(state).next_slot_id,
        final(state).wf(),
{
    let sel = state.selected_slot;
    if sel >= state.slots.len() {
        return CommandOutcome::none();
    }
    let symbol = state.slots[sel].symbol.clone();
    let notice = if state.slots[sel].strategy.state.is_active() {
        state.slots[sel].strategy.stop();
        Notice::StrategyStopped { symbol }
    } else {
        state.slots[sel].strategy.start_at(now);
        Notice::StrategyStarted { symbol }
    };
    proof {
        assert(slot_views(state.slots@) =~= slot_views(old(state).slots@).update(
            sel as int,
            state.slots@[sel as int]@,
        ));
    }
    state.note(now.secs, LogLevel::Info, notice);
    CommandOutcome::persist_only()
}

fn slot_stop(state: &mut AppState, now: Timestamp) -> (r: CommandOutcome)
    requires
        old(state).wf(),
    ensures
        final(state)@ == after_slot_command(old(state), AppCommand::StopSelected, now.secs),
        r == outcome_of_slot_command(old(state), AppCommand::StopSelected),
        final(state).next_slot_id == old(state).next_slot_id,
        final(state).wf(),
{
    let sel = state.selected_slot;
    if sel >= state.slots.len() || !state.slots[sel].strategy.state.is_active() {
        return CommandOutcome::none();
    }
    let symbol = state.slots[sel].symbol.clone();
    state.slots[sel].strategy.stop();
    proof {
        assert(slot_views(state.slots@) =~= slot_views(old(state).slots@).update(
            sel as int,
            state.slots@[sel as int]@,
        ));
    }
    state.note(now.secs, LogLevel::Info, Notice::StrategyStopped { symbol });
    CommandOutcome::persist_only()
}

fn slot_toggle_auto_flip(state: &mut AppState, now: Timestamp) -> (r: CommandOutcome)
    requires
        old(state).wf(),
    ensures
        final(state)@ == after_slot_command(old(state), AppCommand::ToggleAutoFlip, now.secs),
        r == outcome_of_slot_command(old(state), AppCommand::ToggleAutoFlip),
        final(state).next_slot_id == old(state).next_slot_id,
        final(state).wf(),
{
    let sel = state.selected_slot;
    if sel >= state.slots.len() {
        return CommandOutcome::none();
    }
    let symbol = state.slots[sel].symbol.clone();
    let enabled = !state.slots[sel].strategy.config.auto_flip;
    state.slots[sel].strategy.config.auto_flip = enabled;
    proof {
        assert(slot_views(state.slots@) =~= slot_views(old(state).slots@).update(
            sel as int,
            state.slots@[sel as int]@,
        ));
    }
    state.note(now.secs, LogLevel::Info, Notice::AutoFlipSet { symbol, enabled });
    CommandOutcome::persist_only()
}

fn slot_restart(state: &mut AppState, id: usize, now: Timestamp) -> (r: CommandOutcome)
    requires
        old(state).wf(),
    ensures
        final(state)@ == after_slot_command(old(state), AppCommand::PostSaleRestart(id), now.secs),
        r == outcome_of_slot_command(old(state), AppCommand::PostSaleRestart(id)),
        final(state).next_slot_id == old(state).next_slot_id,
        final(state).wf(),
{
    match state.position_of(id) {
        Some(i) => {
            state.slots[i].strategy.start_at(now);
            proof {
                assert(slot_views(state.slots@) =~= slot_views(old(state).slots@).update(
                    i as int,
                    state.slots@[i as int]@,
                ));
            }
        },
        None => {},
    }
    state.ui_mode = UiMode::Normal;
    state.note(now.secs, LogLevel::Info, Notice::CycleRestarted);
    CommandOutcome::persist_only()
}

fn slot_delete(state: &mut AppState, now: Timestamp) -> (r: CommandOutcome)
    requires
        old(state).wf(),
    ensures
        final(state)@ == after_slot_command(old(state), AppCommand::ConfirmDeleteNow, now.secs),
        r == outcome_of_slot_command(old(state), AppCommand::ConfirmDeleteNow),
        final(state).next_slot_id == old(state).next_slot_id,
        final(state).wf(),
{
    state.ui_mode = UiMode::Normal;
    let sel = state.selected_slot;
    if sel >= state.slots.len() {
        return CommandOutcome::none();
    }
    let id = state.slots[sel].id;
    proof {
        lemma_index_of_id_is(state.slots@, id, sel as int);
    }
    state.remove_slot(id);
    proof {
        assert(slot_views(state.slots@) =~= slot_views(old(state).slots@).remove(sel as int));
    }
    state.note(now.secs, LogLevel::Info, Notice::SlotRemoved);
    CommandOutcome::all_slots()
}

/// Applies a command on the selected slot or on the slot of a given id.
pub fn apply_slot_command(state: &mut AppState, cmd: AppCommand, now: Timestamp) -> (r: CommandOutcome)
    requires
        old(state).wf(),
        is_slot_command(cmd),
    ensures
        final(state)@ == after_slot_command(old(state), cmd, now.secs),
        r == outcome_of_slot_command(old(state), cmd),
        final(state).next_slot_id == old(state).next_slot_id,
        final(state).wf(),
{
    match cmd {
        AppCommand::ToggleStartStopSelected => slot_toggle_start_stop(state, now),
        AppCommand::StopSelected => slot_stop(state, now),
        AppCommand::ToggleAutoFlip => slot_toggle_auto_flip(state, now),
        AppCommand::PostSaleRestart(id) => slot_restart(state, id, now),
        AppCommand::ConfirmDeleteNow => slot_delete(state, now),
        _ => CommandOutcome::none(),
    }
}

// ----------------------------------------------------------------------
// New slots
// ----------------------------------------------------------------------

/// `slot` is a new slot with the id and settings given: no trades, nothing
/// spent, no balances known, its assets those of the symbol; running from
/// `started` if that is given, idle otherwise.
pub open spec fn is_fresh(slot: &StrategySlot, id: usize, config: DcaConfig, started: Option<i64>) -> bool {
    &&& slot.id == id
    &&& slot.symbol == config.symbol
    &&& slot.base_asset@ == split_symbol(config.symbol@).0
    &&& slot.quote_asset@ == split_symbol(config.symbol@).1
    &&& slot.base_balance == 0
    &&& slot.quote_balance == 0
    &&& slot.strategy@ == (StrategyView {
        config,
        state: if started is Some {
            DcaState::Running
        } else {
            DcaState::Idle
        },
        trades: Seq::<DcaTrade>::empty(),
        last_buy_time: started,
        last_buy_price: None,
        daily_spent: 0,
        last_reset_day: 0,
        next_buy_in_secs: 0,
        price_peak: 0,
        price_trough: TROUGH_UNSET,
    })
}

impl StrategySlot {
    /// A new, idle slot with the id and settings given.
    pub fn fresh(id: usize, config: DcaConfig) -> (r: StrategySlot)
        ensures
            is_fresh(&r, id, config, None),
            config.wf() ==> r.strategy.wf(),
    {
        let symbol = config.symbol.clone();
        let (base_asset, quote_asset) = parse_symbol(symbol.as_str());
        StrategySlot {
            id,
            strategy: DcaStrategy::new(config),
            symbol,
            base_asset,
            quote_asset,
            base_balance: 0,
            quote_balance: 0,
        }
    }
}

/// The text of the symbol that the dialog for a new strategy has chosen:
/// the one at the chosen index, the last one if the index lies past the
/// end, and `BTCUSDT` if there are no symbols.
pub open spec fn chosen_symbol(s: &AppState) -> Seq<char> {
    if s.symbols@.len() == 0 {
        "BTCUSDT"@
    } else if s.new_strat_symbol_idx < s.symbols@.len() {
        s.symbols@[s.new_strat_symbol_idx as int]@
    } else {
        s.symbols@[s.symbols@.len() - 1]@
    }
}

/// The settings of a strategy created by the dialog: the defaults, with the
/// symbol and what the dialog has set.
pub open spec fn dialog_config(s: &AppState, base: &DcaConfig, symbol: String) -> DcaConfig {
    DcaConfig {
        symbol,
        direction: s.new_strat_direction,
        auto_restart: s.new_strat_auto_restart,
        auto_flip: s.new_strat_auto_flip,
        has_bnb_balance: s.new_strat_has_bnb,
        ..*base
    }
}

/// What `NewStratConfirm` does. With `MAX_SLOTS` slots already there, an
/// error is logged and nothing else changes. Otherwise a new slot with the
/// next id is appended, running from `now`, and selected; the dialog closes.
pub open spec fn new_strategy_done(before: &AppState, after: &AppState, base: &DcaConfig, now: i64, r: CommandOutcome) -> bool {
    if before.slots@.len() >= MAX_SLOTS {
        &&& after@ == (StateView {
            log: appended(before.log@, error(now, Notice::MaxStrategiesReached)),
            ..before@
        })
        &&& r == CommandOutcome::nothing()
    } else {
        let slot = after.slots@.last();
        &&& after.slots@ == before.slots@.push(slot)
        &&& slot.symbol@ == chosen_symbol(before)
        &&& is_fresh(&slot, before.next_slot_id, dialog_config(before, base, slot.symbol), Some(now))
        &&& after@ == (StateView {
            slots: before@.slots.push(slot@),
            selected_slot: before.slots@.len() as usize,
            log: appended(
                before.log@,
                info(
                    now,
                    Notice::NewStrategy { symbol: slot.symbol, direction: before.new_strat_direction },
                ),
            ),
            ui_mode: UiMode::Normal,
            next_slot_id: (before.next_slot_id + 1) as usize,
            ..before@
        })
        &&& r == CommandOutcome::slots_changed()
    }
}

/// What `RestoreSessionDiscard` does: every slot is dropped and one new,
/// idle slot with the default settings and the next id takes their place.
pub open spec fn discard_done(before: &AppState, after: &AppState, base: &DcaConfig, now: i64, r: CommandOutcome) -> bool {
    let slot = after.slots@[0];
    &&& after.slots@.len() == 1
    &&& is_fresh(&slot, before.next_slot_id, *base, None)
    &&& after@ == (StateView {
        slots: seq![slot@],
        selected_slot: 0,
        log: appended(before.log@, info(now, Notice::SessionDiscarded)),
        ui_mode: UiMode::Normal,
        next_slot_id: (before.next_slot_id + 1) as usize,
        ..before@
    })
    &&& r == CommandOutcome::slots_changed()
}

fn new_strategy_confirm(state: &mut AppState, base: &DcaConfig, now: Timestamp) -> (r: CommandOutcome)
    requires
        old(state).wf(),
        base.wf(),
        old(state).next_slot_id < usize::MAX,
    ensures
        new_strategy_done(old(state), final(state), base, now.secs, r),
        final(state).wf(),
{
    if state.slots.len() >= MAX_SLOTS {
        state.note(now.secs, LogLevel::Error, Notice::MaxStrategiesReached);
        return CommandOutcome::none();
    }
    let count = state.symbols.len();
    let symbol: String = if count == 0 {
        "BTCUSDT".to_owned()
    } else if state.new_strat_symbol_idx < count {
        state.symbols[state.new_strat_symbol_idx].clone()
    } else {
        state.symbols[count - 1].clone()
    };
    let direction = state.new_strat_direction;
    let mut config = base.clone();
    config.symbol = symbol;
    config.direction = direction;
    config.auto_restart = state.new_strat_auto_restart;
    config.auto_flip = state.new_strat_auto_flip;
    config.has_bnb_balance = state.new_strat_has_bnb;
    let id = state.alloc_slot_id();
    let mut slot = StrategySlot::fresh(id, config);
    slot.strategy.start_at(now);
    let notice = Notice::NewStrategy { symbol: slot.symbol.clone(), direction };
    state.note(now.secs, LogLevel::Info, notice);
    let ghost pushed = slot;
    state.slots.push(slot);
    proof {
        assert(state.slots@.last() == pushed);
        assert(slot_views(state.slots@) =~= slot_views(old(state).slots@).push(pushed@));
    }
    state.selected_slot = state.slots.len() - 1;
    state.ui_mode = UiMode::Normal;
    CommandOutcome::all_slots()
}

fn session_discard(state: &mut AppState, base: &DcaConfig, now: Timestamp) -> (r: CommandOutcome)
    requires
        old(state).wf(),
        base.wf(),
        old(state).next_slot_id < usize::MAX,
    ensures
        discard_done(old(state), final(state), base, now.secs, r),
        final(state).wf(),
{
    state.slots.clear();
    state.selected_slot = 0;
    let id = state.alloc_slot_id();
    let slot = StrategySlot::fresh(id, base.clone());
    let ghost pushed = slot;
    state.slots.push(slot);
    proof {
        assert(state.slots@[0] == pushed);
        assert(slot_views(state.slots@) =~= seq![pushed@]);
    }
    state.note(now.secs, LogLevel::Info, Notice::SessionDiscarded);
    state.ui_mode = UiMode::Normal;
    CommandOutcome::all_slots()
}

// ----------------------------------------------------------------------
// The amount per entry
// ----------------------------------------------------------------------

/// The amount that the text of the amount field stands for, if it is one
/// that can be set: a decimal of at least one whole unit and no more than
/// `MAX_COST`.
pub open spec fn accepted_amount(buf: Seq<char>) -> Option<u64> {
    match parsed(buf) {
        Some(v) => if SCALE <= v <= MAX_COST {
            Some(v)
        } else {
            None
        },
        None => None,
    }
}

/// The slot with the amount per entry and the fee setting given.
pub open spec fn with_amount(slot: &StrategySlot, amount: u64, fee_discount: bool) -> SlotView {
    SlotView {
        strategy: StrategyView {
            config: DcaConfig {
                quote_amount: amount,
                has_bnb_balance: fee_discount,
                ..slot.strategy.config
            },
            ..slot.strategy@
        },
        ..slot@
    }
}

/// The registry after `CfgConfirm`: an amount that can be set goes to every
/// slot, with the fee setting of the panel, and the panel closes; any other
/// text is reported as an error and changes nothing.
pub open spec fn after_amount_confirm(s: &AppState, now: i64) -> StateView {
    match accepted_amount(s.cfg_amount_buf@) {
        Some(amount) => StateView {
            slots: Seq::new(s.slots@.len(), |i: int| with_amount(&s.slots@[i], amount, s.cfg_has_bnb)),
            ui_mode: UiMode::Normal,
            log: appended(
                s.log@,
                info(now, Notice::ConfigUpdated { amount, fee_discount: s.cfg_has_bnb }),
            ),
            ..s@
        },
        None => StateView {
            log: appended(s.log@, error(now, Notice::InvalidAmount { text: s.cfg_amount_buf })),
            ..s@
        },
    }
}

/// What is left to do after `CfgConfirm`: an amount that was set is stored
/// in the configuration file, and the slots are persisted.
pub open spec fn outcome_of_amount_confirm(s: &AppState) -> CommandOutcome {
    match accepted_amount(s.cfg_amount_buf@) {
        Some(amount) => CommandOutcome {
            persist: true,
            save_amount: Some(amount),
            ..CommandOutcome::nothing()
        },
        None => CommandOutcome::nothing(),
    }
}

fn amount_confirm(state: &mut AppState, now: Timestamp) -> (r: CommandOutcome)
    requires
        old(state).wf(),
    ensures
        final(state)@ == after_amount_confirm(old(state), now.secs),
        r == outcome_of_amount_confirm(old(state)),
        final(state).next_slot_id == old(state).next_slot_id,
        final(state).wf(),
{
    let amount = match parse_decimal(state.cfg_amount_buf.as_str()) {
        Some(v) => if v >= SCALE && v <= MAX_COST {
            Some(v)
        } else {
            None
        },
        None => None,
    };
    match amount {
        Some(v) => {
            let fee_discount = state.cfg_has_bnb;
            let mut i: usize = 0;
            while i < state.slots.len()
                invariant
                    i <= state.slots.len(),
                    state.slots@.len() == old(state).slots@.len(),
                    v <= MAX_COST,
                    old(state).wf(),
                    *state == (AppState { slots: state.slots, ..*old(state) }),
                    forall|j: int|
                        0 <= j < i ==> (#[trigger] state.slots@[j])@ == with_amount(
                            &old(state).slots@[j],
                            v,
                            fee_discount,
                        ),
                    forall|j: int|
                        i <= j < state.slots@.len() ==> #[trigger] state.slots@[j] == old(state).slots@[j],
                    forall|j: int|
                        0 <= j < state.slots@.len() ==> (#[trigger] state.slots@[j]).id == old(state).slots@[j].id && state.slots@[j].strategy.wf(),
                decreases state.slots.len() - i,
            {
                state.slots[i].strategy.config.quote_amount = v;
                state.slots[i].strategy.config.has_bnb_balance = fee_discount;
                i = i + 1;
            }
            proof {
                assert(slot_views(state.slots@) =~= Seq::new(
                    old(state).slots@.len(),
                    |i: int| with_amount(&old(state).slots@[i], v, fee_discount),
                ));
            }
            state.ui_mode = UiMode::Normal;
            state.note(now.secs, LogLevel::Info, Notice::ConfigUpdated { amount: v, fee_discount });
            CommandOutcome {
                persist: true,
                refresh_balance: false,
                update_symbols: false,
                save_amount: Some(v),
                close: None,
            }
        },
        None => {
            let text = state.cfg_amount_buf.clone();
            state.note(now.secs, LogLevel::Error, Notice::InvalidAmount { text });
            CommandOutcome::none()
        },
    }
}

// ----------------------------------------------------------------------
// Manual close
// ----------------------------------------------------------------------

/// The manual close that `ConfirmCloseNow` plans, if the selected slot
/// holds a position: a close of the whole quantity at the last price.
pub open spec fn manual_close(s: &AppState) -> Option<ClosePlan> {
    if s.selected_slot < s.slots@.len() && s.slots@[s.selected_slot as int].strategy.quantity() > 0 {
        let slot = s.slots@[s.selected_slot as int];
        Some(close_plan(&slot, CloseKind::ManualClose, s.price_of(slot.symbol@)))
    } else {
        None
    }
}

/// The registry after `ConfirmCloseNow`: the confirmation closes; a planned
/// close is announced, and the want of a position is reported.
pub open spec fn after_close_confirm(s: &AppState, now: i64) -> StateView {
    if s.selected_slot >= s.slots@.len() {
        StateView { ui_mode: UiMode::Normal, ..s@ }
    } else {
        StateView {
            ui_mode: UiMode::Normal,
            log: appended(
                s.log@,
                info(
                    now,
                    match manual_close(s) {
                        Some(plan) => plan.announcement(),
                        None => Notice::NoOpenPosition,
                    },
                ),
            ),
            ..s@
        }
    }
}

/// What is left to do after `ConfirmCloseNow`: to place the order of the
/// close that was planned, if one was.
pub open spec fn outcome_of_close_confirm(s: &AppState) -> CommandOutcome {
    CommandOutcome { close: manual_close(s), ..CommandOutcome::nothing() }
}

fn close_confirm(state: &mut AppState, now: Timestamp) -> (r: CommandOutcome)
    requires
        old(state).wf(),
    ensures
        final(state)@ == after_close_confirm(old(state), now.secs),
        r == outcome_of_close_confirm(old(state)),
        final(state).next_slot_id == old(state).next_slot_id,
        final(state).wf(),
{
    state.ui_mode = UiMode::Normal;
    let sel = state.selected_slot;
    if sel >= state.slots.len() {
        return CommandOutcome::none();
    }
    if state.slots[sel].strategy.total_quantity() == 0 {
        state.note(now.secs, LogLevel::Info, Notice::NoOpenPosition);
        return CommandOutcome::none();
    }
    let price = match state.prices.get(&state.slots[sel].symbol) {
        Some(data) => data.price,
        None => 0,
    };
    let plan = state.slots[sel].plan_close(CloseKind::ManualClose, price);
    let notice = Notice::CloseTriggered {
        kind: plan.kind,
        symbol: plan.symbol.clone(),
        direction: plan.direction,
        quantity: plan.quantity,
        price: plan.price,
        pnl: plan.pnl,
    };
    state.note(now.secs, LogLevel::Info, notice);
    CommandOutcome {
        persist: false,
        refresh_balance: false,
        update_symbols: false,
        save_amount: None,
        close: Some(plan),
    }
}

// ----------------------------------------------------------------------
// The dispatcher
// ----------------------------------------------------------------------

/// What a command does: how the registry after it relates to the registry
/// before it, and what is left for the caller to do.
pub open spec fn command_done(before: &AppState, after: &AppState, cmd: AppCommand, base: &DcaConfig, now: i64, r: CommandOutcome) -> bool {
    match cmd {
        AppCommand::NewStratConfirm => new_strategy_done(before, after, base, now, r),
        AppCommand::RestoreSessionDiscard => discard_done(before, after, base, now, r),
        AppCommand::CfgConfirm => {
            &&& after@ == after_amount_confirm(before, now)
            &&& r == outcome_of_amount_confirm(before)
        },
        AppCommand::ConfirmCloseNow => {
            &&& after@ == after_close_confirm(before, now)
            &&& r == outcome_of_close_confirm(before)
        },
        _ => if is_slot_command(cmd) {
            &&& after@ == after_slot_command(before, cmd, now)
            &&& r == outcome_of_slot_command(before, cmd)
        } else {
            &&& after@ == after_ui_command(before, cmd, base, now)
            &&& r == CommandOutcome::nothing()
        },
    }
}

/// Applies one command of the user to the registry and says what is left
/// for the caller to do: persist, refresh balances, update the price feed,
/// store the amount, or place the order of a manual close.
///
/// The registry keeps its bounds, and slot ids only grow.
pub fn handle_command(state: &mut AppState, cmd: AppCommand, base: &DcaConfig, now: Timestamp) -> (r: CommandOutcome)
    requires
        old(state).wf(),
        base.wf(),
        old(state).next_slot_id < usize::MAX,
    ensures
        command_done(old(state), final(state), cmd, base, now.secs, r),
        final(state).wf(),
        final(state).slots@.len() <= MAX_SLOTS,
        final(state).next_slot_id >= old(state).next_slot_id,
{
    match cmd {
        AppCommand::NewStratConfirm => new_strategy_confirm(state, base, now),
        AppCommand::RestoreSessionDiscard => session_discard(state, base, now),
        AppCommand::CfgConfirm => amount_confirm(state, now),
        AppCommand::ConfirmCloseNow => close_confirm(state, now),
        AppCommand::ToggleStartStopSelected => apply_slot_command(state, cmd, now),
        AppCommand::StopSelected => apply_slot_command(state, cmd, now),
        AppCommand::ToggleAutoFlip => apply_slot_command(state, cmd, now),
        AppCommand::PostSaleRestart(_) => apply_slot_command(state, cmd, now),
        AppCommand::ConfirmDeleteNow => apply_slot_command(state, cmd, now),
        _ => {
            apply_ui_command(state, cmd, base, now);
            CommandOutcome::none()
        },
    }
}

} // verus!
