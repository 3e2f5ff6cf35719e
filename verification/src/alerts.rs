//! Support and resistance alerts.
//!
//! On a slow timer the caller fetches the last candles of every active
//! symbol and hands them to `evaluate_alerts`. The levels are the highest
//! high and the lowest low of the completed candles. An alert fires when
//! the price has crossed a level since the previous evaluation, at most
//! once per level and symbol within the cooldown. Alerts are logged; no
//! trading decision reads them.

use vstd::prelude::*;
use crate::clock::Timestamp;
use crate::models::ticker::Kline;
use crate::registry::{
    appended, AlertLevel, AppState, LogEntry, LogLevel, Notice, StateView,
};

verus! {

/// Highest high of the candles; 0 for none.
pub open spec fn highest_high(candles: Seq<Kline>) -> u64
    decreases candles.len(),
{
    if candles.len() == 0 {
        0
    } else {
        let rest = highest_high(candles.drop_last());
        if candles.last().high > rest {
            candles.last().high
        } else {
            rest
        }
    }
}

/// Lowest low of the candles; `u64::MAX` for none.
pub open spec fn lowest_low(candles: Seq<Kline>) -> u64
    decreases candles.len(),
{
    if candles.len() == 0 {
        u64::MAX
    } else {
        let rest = lowest_low(candles.drop_last());
        if candles.last().low < rest {
            candles.last().low
        } else {
            rest
        }
    }
}

/// The highest high is a high of the window and no high exceeds it.
pub proof fn lemma_highest_high(candles: Seq<Kline>)
    requires
        candles.len() > 0,
    ensures
        forall|i: int| 0 <= i < candles.len() ==> (#[trigger] candles[i]).high <= highest_high(candles),
        exists|i: int| 0 <= i < candles.len() && (#[trigger] candles[i]).high == highest_high(candles),
    decreases candles.len(),
{
    let rest = candles.drop_last();
    if rest.len() == 0 {
        assert(candles[0].high == highest_high(candles));
    } else {
        lemma_highest_high(rest);
        let w = choose|i: int| 0 <= i < rest.len() && (#[trigger] rest[i]).high == highest_high(rest);
        assert(rest[w] == candles[w]);
        assert forall|i: int| 0 <= i < candles.len() implies (#[trigger] candles[i]).high
            <= highest_high(candles) by {
            if i < rest.len() {
                assert(rest[i] == candles[i]);
            }
        }
        if candles.last().high > highest_high(rest) {
            assert(candles[candles.len() - 1].high == highest_high(candles));
        } else {
            assert(candles[w].high == highest_high(candles));
        }
    }
}

/// The lowest low is a low of the window and no low lies below it.
pub proof fn lemma_lowest_low(candles: Seq<Kline>)
    requires
        candles.len() > 0,
    ensures
        forall|i: int| 0 <= i < candles.len() ==> (#[trigger] candles[i]).low >= lowest_low(candles),
        exists|i: int| 0 <= i < candles.len() && (#[trigger] candles[i]).low == lowest_low(candles),
    decreases candles.len(),
{
    let rest = candles.drop_last();
    if rest.len() == 0 {
        assert(candles[0].low == lowest_low(candles));
    } else {
        lemma_lowest_low(rest);
        let w = choose|i: int| 0 <= i < rest.len() && (#[trigger] rest[i]).low == lowest_low(rest);
        assert(rest[w] == candles[w]);
        assert forall|i: int| 0 <= i < candles.len() implies (#[trigger] candles[i]).low
            >= lowest_low(candles) by {
            if i < rest.len() {
                assert(rest[i] == candles[i]);
            }
        }
        if candles.last().low < lowest_low(rest) {
            assert(candles[candles.len() - 1].low == lowest_low(candles));
        } else {
            assert(candles[w].low == lowest_low(candles));
        }
    }
}

/// The candles that count: all but the last, which is still forming.
pub open spec fn completed(candles: Seq<Kline>) -> Seq<Kline> {
    candles.drop_last()
}

/// The price has fallen through the support since the previous evaluation.
pub open spec fn support_broken(price: u64, previous: u64, support: u64) -> bool {
    price < support && previous >= support
}

/// The price has risen through the resistance since the previous evaluation.
pub open spec fn resistance_broken(price: u64, previous: u64, resistance: u64) -> bool {
    price > resistance && previous <= resistance
}

/// The cooldown since the last alert is over, or there was none.
pub open spec fn cooled_down(last: Option<i64>, now: i64, cooldown_minutes: u64) -> bool {
    match last {
        Some(t) => now - t >= cooldown_minutes * 60,
        None => true,
    }
}

/// Which alerts an evaluation fires.
#[derive(Debug, Clone, Copy, PartialEq, Eq, Structural)]
pub struct AlertOutcome {
    /// The support alert fired.
    pub support: bool,
    /// The resistance alert fired.
    pub resistance: bool,
}

/// The alerts that fire for a symbol at `price`.
pub open spec fn alerts_due(known: Option<AlertLevel>, candles: Seq<Kline>, price: u64, now: i64, cooldown_minutes: u64) -> AlertOutcome {
    let support = lowest_low(completed(candles));
    let resistance = highest_high(completed(candles));
    let previous = match known {
        Some(level) => level.prev_price,
        None => price,
    };
    let last_support = match known {
        Some(level) => level.last_support_alert,
        None => None,
    };
    let last_resistance = match known {
        Some(level) => level.last_resistance_alert,
        None => None,
    };
    AlertOutcome {
        support: support_broken(price, previous, support) && cooled_down(
            last_support,
            now,
            cooldown_minutes,
        ),
        resistance: resistance_broken(price, previous, resistance) && cooled_down(
            last_resistance,
            now,
            cooldown_minutes,
        ),
    }
}

/// The level of a symbol after an evaluation at `price`: the levels of the
/// window, the price as the previous price of the next evaluation, and the
/// instant of every alert that fired.
pub open spec fn level_after(known: Option<AlertLevel>, candles: Seq<Kline>, price: u64, now: i64, cooldown_minutes: u64) -> AlertLevel {
    let due = alerts_due(known, candles, price, now, cooldown_minutes);
    AlertLevel {
        resistance: highest_high(completed(candles)),
        support: lowest_low(completed(candles)),
        prev_price: price,
        last_support_alert: if due.support {
            Some(now)
        } else {
            match known {
                Some(level) => level.last_support_alert,
                None => None,
            }
        },
        last_resistance_alert: if due.resistance {
            Some(now)
        } else {
            match known {
                Some(level) => level.last_resistance_alert,
                None => None,
            }
        },
    }
}

/// The log after the alerts that fired: support first, then resistance.
pub open spec fn log_after_alerts(log: Seq<LogEntry>, symbol: String, due: AlertOutcome, price: u64, support: u64, resistance: u64, now: i64) -> Seq<LogEntry> {
    let first = if due.support {
        appended(
            log,
            LogEntry {
                secs: now,
                level: LogLevel::Alert,
                notice: Notice::SupportBroken { symbol, price, level: support },
            },
        )
    } else {
        log
    };
    if due.resistance {
        appended(
            first,
            LogEntry {
                secs: now,
                level: LogLevel::Alert,
                notice: Notice::ResistanceBroken { symbol, price, level: resistance },
            },
        )
    } else {
        first
    }
}

/// An evaluation takes place: there is a completed candle and a price.
pub open spec fn can_evaluate(candles: Seq<Kline>, price: u64) -> bool {
    candles.len() > 1 && price != 0
}

/// Number of candles to fetch for a window: one more than the window, for
/// the candle that is still forming; at most `u32::MAX`.
pub fn candle_limit(rolling_window: usize) -> (r: u32)
    ensures
        r == (if rolling_window + 1 <= u32::MAX {
            rolling_window + 1
        } else {
            u32::MAX as int
        }),
{
    if rolling_window < u32::MAX as usize {
        (rolling_window + 1) as u32
    } else {
        u32::MAX
    }
}

/// Computes resistance and support of the completed candles.
pub fn window_levels(candles: &Vec<Kline>) -> (r: (u64, u64))
    requires
        candles@.len() > 0,
    ensures
        r.0 == highest_high(completed(candles@)),
        r.1 == lowest_low(completed(candles@)),
{
    let mut resistance: u64 = 0;
    let mut support: u64 = u64::MAX;
    let n = candles.len() - 1;
    let mut i: usize = 0;
    while i < n
        invariant
            n == candles@.len() - 1,
            i <= n,
            resistance == highest_high(candles@.take(i as int)),
            support == lowest_low(candles@.take(i as int)),
        decreases n - i,
    {
        proof {
            assert(candles@.take(i + 1).drop_last() =~= candles@.take(i as int));
            assert(candles@.take(i + 1).last() == candles@[i as int]);
        }
        if candles[i].high > resistance {
            resistance = candles[i].high;
        }
        if candles[i].low < support {
            support = candles[i].low;
        }
        i = i + 1;
    }
    proof {
        assert(candles@.take(n as int) =~= candles@.drop_last());
    }
    (resistance, support)
}

/// Tells whether the cooldown since the last alert is over.
pub fn is_cooled_down(last: Option<i64>, now: i64, cooldown_minutes: u64) -> (r: bool)
    ensures
        r == cooled_down(last, now, cooldown_minutes),
{
    match last {
        Some(t) => (now as i128) - (t as i128) >= (cooldown_minutes as i128) * 60,
        None => true,
    }
}

/// Evaluates the alerts of one symbol against its last candles.
///
/// Without a completed candle or without a price nothing happens. Else the
/// alerts that fire are logged, and the level of the symbol is replaced by
/// the levels of the window, the price and the instants of the alerts.
pub fn evaluate_alerts(state: &mut AppState, symbol: &String, candles: &Vec<Kline>, now: Timestamp, cooldown_minutes: u64) -> (r: AlertOutcome)
    ensures
        ({
            let price = old(state).price_of(symbol@);
            let known = old(state).alert_levels.value_of(symbol@);
            if can_evaluate(candles@, price) {
                &&& r == alerts_due(known, candles@, price, now.secs, cooldown_minutes)
                &&& final(state).alert_levels.value_of(symbol@) == Some(
                    level_after(known, candles@, price, now.secs, cooldown_minutes),
                )
                &&& forall|other: Seq<char>|
                    other != symbol@ ==> final(state).alert_levels.value_of(other) == old(state).alert_levels.value_of(other)
                &&& final(state).log@ == log_after_alerts(
                    old(state).log@,
                    *symbol,
                    r,
                    price,
                    lowest_low(completed(candles@)),
                    highest_high(completed(candles@)),
                    now.secs,
                )
                &&& final(state)@ == (StateView {
                    log: final(state).log@,
                    alert_levels: final(state).alert_levels,
                    ..old(state)@
                })
            } else {
                !r.support && !r.resistance && final(state)@ == old(state)@
            }
        }),
        final(state).slots@ == old(state).slots@,
        old(state).wf() ==> final(state).wf(),
{
    let price = match state.prices.get(symbol) {
        Some(data) => data.price,
        None => 0,
    };
    if candles.len() <= 1 || price == 0 {
        return AlertOutcome { support: false, resistance: false };
    }
    let (resistance, support) = window_levels(candles);
    let known = state.alert_levels.get(symbol);
    let (previous, last_support, last_resistance) = match known {
        Some(level) => (level.prev_price, level.last_support_alert, level.last_resistance_alert),
        None => (price, None, None),
    };
    let fire_support = price < support && previous >= support && is_cooled_down(
        last_support,
        now.secs,
        cooldown_minutes,
    );
    let fire_resistance = price > resistance && previous <= resistance && is_cooled_down(
        last_resistance,
        now.secs,
        cooldown_minutes,
    );
    if fire_support {
        state.note(
            now.secs,
            LogLevel::Alert,
            Notice::SupportBroken { symbol: symbol.clone(), price, level: support },
        );
    }
    if fire_resistance {
        state.note(
            now.secs,
            LogLevel::Alert,
            Notice::ResistanceBroken { symbol: symbol.clone(), price, level: resistance },
        );
    }
    let level = AlertLevel {
        resistance,
        support,
        prev_price: price,
        last_support_alert: if fire_support {
            Some(now.secs)
        } else {
            last_support
        },
        last_resistance_alert: if fire_resistance {
            Some(now.secs)
        } else {
            last_resistance
        },
    };
    state.alert_levels.put(symbol.clone(), level);
    AlertOutcome { support: fire_support, resistance: fire_resistance }
}

} // verus!
