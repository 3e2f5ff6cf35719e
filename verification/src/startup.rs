//! The registry at startup: slots restored from stored snapshots, or one
//! slot from the configured defaults where nothing is stored.

use std::collections::VecDeque;
use vstd::prelude::*;
use crate::commands::is_fresh;
use crate::config::{DcaConfig, Direction};
use crate::fixed::{MAX_COST, MAX_QUANTITY};
use crate::registry::{AppState, RestoredSlot, StrategySlot, UiMode, MAX_SLOTS};
use crate::strategy::dca::{sum_cost, sum_quantity, StrategySnapshot, StrategyView};
use crate::symbol::{default_symbol_texts, default_symbols, split_symbol, texts_of};
use crate::table::SymbolTable;

verus! {

/// A snapshot can be restored: its position lies within the engine's range.
pub open spec fn restorable(snapshot: &StrategySnapshot) -> bool {
    sum_cost(snapshot.trades@) <= MAX_COST && sum_quantity(snapshot.trades@) <= MAX_QUANTITY
}

/// The snapshots that are restored: the first `MAX_SLOTS` that can be, in
/// their order.
pub open spec fn accepted(snapshots: Seq<StrategySnapshot>) -> Seq<StrategySnapshot>
    decreases snapshots.len(),
{
    if snapshots.len() == 0 {
        Seq::empty()
    } else {
        let earlier = accepted(snapshots.drop_last());
        if earlier.len() < MAX_SLOTS && restorable(&snapshots.last()) {
            earlier.push(snapshots.last())
        } else {
            earlier
        }
    }
}

/// `slot` is the slot restored from `snapshot` under the id given: the
/// default settings with the snapshot's symbol, direction and fee setting,
/// and the snapshot's trades, last entry, daily spend, extremes and
/// lifecycle state. A strategy stored as running is running.
pub open spec fn is_restored(slot: &StrategySlot, id: usize, snapshot: &StrategySnapshot, base: &DcaConfig) -> bool {
    &&& slot.id == id
    &&& slot.symbol == snapshot.symbol
    &&& slot.base_asset@ == split_symbol(snapshot.symbol@).0
    &&& slot.quote_asset@ == split_symbol(snapshot.symbol@).1
    &&& slot.base_balance == 0
    &&& slot.quote_balance == 0
    &&& slot.strategy@ == (StrategyView {
        config: DcaConfig {
            symbol: snapshot.symbol,
            direction: snapshot.direction,
            has_bnb_balance: snapshot.has_bnb_balance,
            ..*base
        },
        state: snapshot.state,
        trades: snapshot.trades@,
        last_buy_time: snapshot.last_buy_time,
        last_buy_price: snapshot.last_buy_price,
        daily_spent: snapshot.daily_spent,
        last_reset_day: snapshot.last_reset_day,
        next_buy_in_secs: 0,
        price_peak: snapshot.price_peak,
        price_trough: snapshot.price_trough,
    })
}

/// `line` is the line of the restore prompt for `snapshot`.
pub open spec fn is_prompt_line(line: &RestoredSlot, snapshot: &StrategySnapshot) -> bool {
    &&& line.symbol == snapshot.symbol
    &&& line.direction == snapshot.direction
    &&& line.trade_count == snapshot.trades@.len()
    &&& line.active == snapshot.state.active()
}

/// A restored session is worth asking about: some restored slot has trades
/// or was running.
pub open spec fn worth_prompt(snapshots: Seq<StrategySnapshot>) -> bool {
    exists|i: int|
        0 <= i < snapshots.len() && ((#[trigger] snapshots[i]).trades@.len() > 0
            || snapshots[i].state.active())
}

/// The symbols to offer: those the exchange gave, or the built-in list
/// where it gave none.
pub fn symbols_or_default(fetched: Vec<String>) -> (r: Vec<String>)
    ensures
        fetched@.len() > 0 ==> r == fetched,
        fetched@.len() == 0 ==> texts_of(r@) == default_symbol_texts(),
{
    if fetched.len() > 0 {
        fetched
    } else {
        default_symbols()
    }
}

/// The snapshots that a stored text holds: the list it reads as, else the
/// one snapshot it reads as, else none. A text that reads as neither is
/// "no prior state".
pub fn snapshots_from(list: Option<Vec<StrategySnapshot>>, single: Option<StrategySnapshot>) -> (r: Vec<StrategySnapshot>)
    ensures
        match (list, single) {
            (Some(all), _) => r == all,
            (None, Some(one)) => r@ == seq![one],
            (None, None) => r@.len() == 0,
        },
{
    match list {
        Some(all) => all,
        None => {
            let mut out: Vec<StrategySnapshot> = Vec::new();
            match single {
                Some(one) => {
                    out.push(one);
                },
                None => {},
            }
            out
        },
    }
}

/// Restores one slot from a snapshot.
pub fn restore_slot(id: usize, snapshot: &StrategySnapshot, base: &DcaConfig) -> (r: StrategySlot)
    ensures
        is_restored(&r, id, snapshot, base),
        base.wf() && restorable(snapshot) ==> r.strategy.wf(),
{
    let mut config = base.clone();
    config.symbol = snapshot.symbol.clone();
    config.direction = snapshot.direction;
    let mut slot = StrategySlot::fresh(id, config);
    let copy = snapshot.clone();
    slot.strategy.restore_from_snapshot(copy);
    slot
}

/// Tells whether a snapshot can be restored.
pub fn can_restore(snapshot: &StrategySnapshot) -> (r: bool)
    ensures
        r == restorable(snapshot),
{
    let mut cost: u128 = 0;
    let mut quantity: u128 = 0;
    let mut i: usize = 0;
    while i < snapshot.trades.len()
        invariant
            i <= snapshot.trades.len(),
            cost == sum_cost(snapshot.trades@.take(i as int)),
            quantity == sum_quantity(snapshot.trades@.take(i as int)),
            cost <= i * u64::MAX,
            quantity <= i * u64::MAX,
        decreases snapshot.trades.len() - i,
    {
        proof {
            assert(snapshot.trades@.take(i + 1).drop_last() =~= snapshot.trades@.take(i as int));
        }
        cost = cost + snapshot.trades[i].cost as u128;
        quantity = quantity + snapshot.trades[i].quantity as u128;
        i = i + 1;
    }
    proof {
        assert(snapshot.trades@.take(i as int) =~= snapshot.trades@);
    }
    cost <= MAX_COST as u128 && quantity <= MAX_QUANTITY as u128
}

/// Builds the registry at startup.
///
/// The first `MAX_SLOTS` snapshots that can be restored become slots, with
/// ids counting from 0, each in the lifecycle state it was stored in. Where
/// none is restored, one idle slot with the default settings is created.
/// The restore prompt is shown exactly if some restored slot has trades or
/// was running, and lists every restored slot.
pub fn startup(base: &DcaConfig, snapshots: &Vec<StrategySnapshot>, symbols: Vec<String>) -> (r: AppState)
    requires
        base.wf(),
    ensures
        r.wf(),
        ({
            let restored = accepted(snapshots@);
            &&& if restored.len() > 0 {
                &&& r.slots@.len() == restored.len()
                &&& forall|i: int|
                    0 <= i < restored.len() ==> is_restored(
                        #[trigger] &r.slots@[i],
                        i as usize,
                        &restored[i],
                        base,
                    )
            } else {
                r.slots@.len() == 1 && is_fresh(&r.slots@[0], 0, *base, None)
            }
            &&& r.next_slot_id == r.slots@.len()
            &&& match r.ui_mode {
                UiMode::RestoreSession(lines) => worth_prompt(restored) && lines@.len()
                    == restored.len() && forall|i: int|
                    0 <= i < restored.len() ==> is_prompt_line(#[trigger] &lines@[i], &restored[i]),
                UiMode::Normal => !worth_prompt(restored),
                _ => false,
            }
        }),
        r.selected_slot == 0,
        r.symbols == symbols,
        r.log@.len() == 0,
        !r.should_quit,
        r.new_strat_symbol_idx == 0,
        r.new_strat_direction == Direction::Long,
        r.new_strat_auto_restart == base.auto_restart,
        r.new_strat_auto_flip == base.auto_flip,
        r.new_strat_has_bnb == base.has_bnb_balance,
        r.cfg_amount_buf@.len() == 0,
        r.cfg_has_bnb == base.has_bnb_balance,
        forall|symbol: Seq<char>| r.price_of(symbol) == 0,
        forall|symbol: Seq<char>| r.alert_levels.value_of(symbol) is None,
{
    let mut slots: Vec<StrategySlot> = Vec::new();
    let mut lines: Vec<RestoredSlot> = Vec::new();
    let mut prompt = false;
    let mut k: usize = 0;
    while k < snapshots.len()
        invariant
            k <= snapshots.len(),
            base.wf(),
            slots@.len() == accepted(snapshots@.take(k as int)).len(),
            lines@.len() == slots@.len(),
            slots@.len() <= MAX_SLOTS,
            prompt == worth_prompt(accepted(snapshots@.take(k as int))),
            forall|i: int|
                0 <= i < slots@.len() ==> is_restored(
                    #[trigger] &slots@[i],
                    i as usize,
                    &accepted(snapshots@.take(k as int))[i],
                    base,
                ) && slots@[i].strategy.wf(),
            forall|i: int|
                0 <= i < lines@.len() ==> is_prompt_line(
                    #[trigger] &lines@[i],
                    &accepted(snapshots@.take(k as int))[i],
                ),
        decreases snapshots.len() - k,
    {
        let snapshot = &snapshots[k];
        let ghost earlier = accepted(snapshots@.take(k as int));
        proof {
            assert(snapshots@.take(k + 1).drop_last() =~= snapshots@.take(k as int));
            assert(snapshots@.take(k + 1).last() == *snapshot);
        }
        if slots.len() < MAX_SLOTS && can_restore(snapshot) {
            let slot = restore_slot(slots.len(), snapshot, base);
            let active = slot.strategy.state.is_active();
            let trade_count = slot.strategy.trades.len();
            lines.push(
                RestoredSlot {
                    symbol: snapshot.symbol.clone(),
                    direction: snapshot.direction,
                    trade_count,
                    active,
                },
            );
            slots.push(slot);
            proof {
                let now = accepted(snapshots@.take(k + 1));
                assert(now == earlier.push(*snapshot));
                if trade_count > 0 || active {
                    assert(now[now.len() - 1] == *snapshot);
                } else if worth_prompt(now) {
                    let i = choose|i: int|
                        0 <= i < now.len() && ((#[trigger] now[i]).trades@.len() > 0
                            || now[i].state.active());
                    assert(earlier[i] == now[i]);
                }
                if prompt {
                    let i = choose|i: int|
                        0 <= i < earlier.len() && ((#[trigger] earlier[i]).trades@.len() > 0
                            || earlier[i].state.active());
                    assert(now[i] == earlier[i]);
                }
            }
            if trade_count > 0 || active {
                prompt = true;
            }
        }
        k = k + 1;
    }
    proof {
        assert(snapshots@.take(k as int) =~= snapshots@);
    }
    if slots.len() == 0 {
        slots.push(StrategySlot::fresh(0, base.clone()));
    }
    let next_slot_id = slots.len();
    let ui_mode = if prompt {
        UiMode::RestoreSession(lines)
    } else {
        UiMode::Normal
    };
    AppState {
        slots,
        selected_slot: 0,
        prices: SymbolTable::new(),
        alert_levels: SymbolTable::new(),
        symbols,
        log: VecDeque::new(),
        should_quit: false,
        ui_mode,
        new_strat_symbol_idx: 0,
        new_strat_direction: Direction::Long,
        new_strat_auto_restart: base.auto_restart,
        new_strat_auto_flip: base.auto_flip,
        new_strat_has_bnb: base.has_bnb_balance,
        cfg_amount_buf: String::new(),
        cfg_has_bnb: base.has_bnb_balance,
        next_slot_id,
    }
}

} // verus!
