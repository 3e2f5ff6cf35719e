//! What arrives from outside between ticks: price events and balances.

use vstd::prelude::*;
use crate::fixed::MAX_PRICE;
use crate::models::account::{free_of, AccountInfo};
use crate::models::ticker::{change_pct_of, units_or_zero, MiniTickerEvent};
use crate::decimal::{parse_decimal, parsed};
use crate::registry::{slot_views, AppState, MarketData, SlotView, StateView, StrategySlot};

verus! {

/// The price that an event's text stands for: its units, or 0, "no price",
/// where the text is no decimal or lies above `MAX_PRICE`.
pub open spec fn ingested_price(text: Seq<char>) -> u64 {
    if units_or_zero(text) <= MAX_PRICE {
        units_or_zero(text)
    } else {
        0
    }
}

/// The units of a decimal text, or `kept` where it is no decimal.
pub open spec fn units_or(text: Seq<char>, kept: u64) -> u64 {
    match parsed(text) {
        Some(v) => v,
        None => kept,
    }
}

/// The market data of a symbol after an event: price and change are those
/// of the event; high and low are those of the event where it gives them,
/// else what was known before.
pub open spec fn after_event(prior: Option<MarketData>, event: &MiniTickerEvent) -> MarketData {
    let known = match prior {
        Some(data) => data,
        None => MarketData { price: 0, change_24h_pct: 0, high_24h: 0, low_24h: 0 },
    };
    MarketData {
        price: ingested_price(event.close_price@),
        change_24h_pct: change_pct_of(
            units_or_zero(event.open_price@),
            units_or_zero(event.close_price@),
        ) as i128,
        high_24h: units_or(event.high_price@, known.high_24h),
        low_24h: units_or(event.low_price@, known.low_24h),
    }
}

/// Writes a price event into the market data. The row of the event's
/// symbol is overwritten with what the event says; no other row changes,
/// so a late or repeated event does no harm.
pub fn record_tick(state: &mut AppState, event: &MiniTickerEvent)
    ensures
        final(state).prices.value_of(event.symbol@) == Some(
            after_event(old(state).prices.value_of(event.symbol@), event),
        ),
        forall|other: Seq<char>|
            other != event.symbol@ ==> final(state).prices.value_of(other) == old(
                state,
            ).prices.value_of(other),
        *final(state) == (AppState { prices: final(state).prices, ..*old(state) }),
        old(state).wf() ==> final(state).wf(),
{
    let known = match state.prices.get(&event.symbol) {
        Some(data) => data,
        None => MarketData::default(),
    };
    let close = event.close_f64();
    let data = MarketData {
        price: if close <= MAX_PRICE {
            close
        } else {
            0
        },
        change_24h_pct: event.change_pct(),
        high_24h: match parse_decimal(event.high_price.as_str()) {
            Some(v) => v,
            None => known.high_24h,
        },
        low_24h: match parse_decimal(event.low_price.as_str()) {
            Some(v) => v,
            None => known.low_24h,
        },
    };
    state.prices.put(event.symbol.clone(), data);
    proof {
        if old(state).wf() {
            assert forall|symbol: Seq<char>| (#[trigger] state.prices.value_of(symbol)) is Some implies state.prices.value_of(
                symbol,
            )->0.price <= MAX_PRICE by {
                if symbol != event.symbol@ {
                    assert(state.prices.value_of(symbol) == old(state).prices.value_of(symbol));
                }
            }
        }
    }
}

/// The slot with the balances that the account reports for its two assets.
pub open spec fn with_balances(slot: &StrategySlot, account: &AccountInfo) -> SlotView {
    SlotView {
        base_balance: free_of(account.balances@, slot.base_asset@),
        quote_balance: free_of(account.balances@, slot.quote_asset@),
        ..slot@
    }
}

/// Takes the free balances of every slot's two assets from the account.
/// The balances serve warnings only; no decision reads them.
pub fn apply_balances(state: &mut AppState, account: &AccountInfo)
    ensures
        final(state)@ == (StateView {
            slots: Seq::new(
                old(state).slots@.len(),
                |i: int| with_balances(&old(state).slots@[i], account),
            ),
            ..old(state)@
        }),
        final(state).slots@.len() == old(state).slots@.len(),
        old(state).wf() ==> final(state).wf(),
{
    let mut i: usize = 0;
    while i < state.slots.len()
        invariant
            i <= state.slots.len(),
            state.slots@.len() == old(state).slots@.len(),
            *state == (AppState { slots: state.slots, ..*old(state) }),
            forall|j: int| 0 <= j < i ==> (#[trigger] state.slots@[j])@ == with_balances(&old(state).slots@[j], account),
            forall|j: int| i <= j < state.slots@.len() ==> #[trigger] state.slots@[j] == old(state).slots@[j],
            forall|j: int| 0 <= j < state.slots@.len() ==> (#[trigger] state.slots@[j]).id == old(state).slots@[j].id
                && state.slots@[j].strategy == old(state).slots@[j].strategy,
        decreases state.slots.len() - i,
    {
        let base = account.get_free(state.slots[i].base_asset.as_str());
        let quote = account.get_free(state.slots[i].quote_asset.as_str());
        state.slots[i].base_balance = base;
        state.slots[i].quote_balance = quote;
        i = i + 1;
    }
    proof {
        assert(slot_views(state.slots@) =~= Seq::new(
            old(state).slots@.len(),
            |i: int| with_balances(&old(state).slots@[i], account),
        ));
    }
}

} // verus!
