use dca_engine::clock::Timestamp;
use dca_engine::config::{DcaConfig, Direction};
use dca_engine::strategy::dca::{DcaStrategy, Decision, TROUGH_UNSET};
use dca_engine::strategy::state::DcaState;

fn units(x: f64) -> u64 {
    (x * 1e8).round() as u64
}

fn pct(x: f64) -> u64 {
    (x * 1e4).round() as u64
}

fn config(direction: Direction) -> DcaConfig {
    DcaConfig {
        symbol: "BTCUSDT".to_string(),
        direction,
        quote_amount: units(10.0),
        interval_minutes: 60,
        price_drop_trigger: pct(2.0),
        max_orders: 5,
        take_profit_pct: pct(3.0),
        stop_loss_pct: pct(10.0),
        trailing_tp_pct: pct(2.0),
        auto_restart: false,
        auto_flip: false,
        has_bnb_balance: false,
    }
}

fn at(secs: i64) -> Timestamp {
    Timestamp::new(secs, 1 + ((secs / 86_400) % 28) as u32)
}

fn long_with_three_entries() -> DcaStrategy {
    let mut s = DcaStrategy::new(config(Direction::Long));
    s.start_at(at(1_000));
    s.record_buy_at(1, units(100.0), units(1.0), units(100.0), at(1_000));
    s.record_buy_at(2, units(95.0), units(1.0), units(95.0), at(2_000));
    s.record_buy_at(3, units(90.0), units(1.0), units(90.0), at(3_000));
    s
}

#[test]
fn empty_position_has_zero_metrics() {
    let s = DcaStrategy::new(config(Direction::Long));
    assert_eq!(s.average_cost(), 0);
    assert_eq!(s.total_invested(), 0);
    assert_eq!(s.total_quantity(), 0);
    assert_eq!(s.pnl(units(123.0)), 0);
    assert_eq!(s.pnl_pct(units(123.0)), 0);
    let short = DcaStrategy::new(config(Direction::Short));
    assert_eq!(short.pnl(units(123.0)), 0);
}

#[test]
fn sums_are_exact() {
    let s = long_with_three_entries();
    assert_eq!(s.total_invested(), units(285.0) as u128);
    assert_eq!(s.total_quantity(), units(3.0) as u128);
}

#[test]
fn three_long_entries_scenario() {
    let s = long_with_three_entries();
    assert_eq!(s.average_cost(), units(95.0) as u128);
    assert_eq!(s.total_invested(), units(285.0) as u128);
    assert_eq!(s.total_quantity(), units(3.0) as u128);
    // 3 * 104.5 * 0.999 - 285 = 28.1865
    assert_eq!(s.pnl(units(104.5)), 2_818_650_000);
    // 28.1865 / 285 * 100 = 9.8900 %, rounded down to 1e-4 %
    assert_eq!(s.pnl_pct(units(104.5)), 98_900);
}

#[test]
fn short_pnl_formula() {
    let mut s = DcaStrategy::new(config(Direction::Short));
    s.start_at(at(0));
    s.record_buy_at(1, units(100.0), units(2.0), units(200.0), at(0));
    // 200 - 2 * 90 * 1.001 = 19.82
    assert_eq!(s.pnl(units(90.0)), units(19.82) as i128);
    // 200 - 2 * 110 * 1.001 = -20.22
    assert_eq!(s.pnl(units(110.0)), -(units(20.22) as i128));
}

#[test]
fn pnl_rounds_toward_negative_infinity() {
    let mut s = DcaStrategy::new(config(Direction::Long));
    s.start_at(at(0));
    s.record_buy_at(1, 1, 1, 1, at(0));
    // one unit of quantity at one unit of price is worth far less than one
    // unit of quote: the exact profit is just above -1 unit
    assert_eq!(s.pnl(1), -1);
    assert_eq!(s.pnl_parts(1), 999 - 100_000_000_000);
}

#[test]
fn direction_symmetry_on_values() {
    let mut long = DcaStrategy::new(config(Direction::Long));
    let mut short = DcaStrategy::new(config(Direction::Short));
    long.start_at(at(0));
    short.start_at(at(0));
    long.record_buy_at(1, units(100.0), units(2.0), units(200.0), at(0));
    short.record_buy_at(1, units(100.0), units(2.0), units(200.0), at(0));
    // 999 * 1001 == 1001 * 999
    let price_long = 1001 * 7_000_000;
    let price_short = 999 * 7_000_000;
    assert_eq!(long.pnl_parts(price_long), -short.pnl_parts(price_short));
    assert_ne!(long.pnl_parts(price_long), 0);
}

#[test]
fn directions_differ_by_the_fees_at_one_price() {
    let mut long = DcaStrategy::new(config(Direction::Long));
    let mut short = DcaStrategy::new(config(Direction::Short));
    long.start_at(at(0));
    short.start_at(at(0));
    long.record_buy_at(1, units(100.0), units(2.0), units(200.0), at(0));
    short.record_buy_at(1, units(100.0), units(2.0), units(200.0), at(0));
    let price = units(110.0);
    let value = (units(2.0) as i128) * (price as i128);
    assert_eq!(long.pnl_parts(price) + short.pnl_parts(price), -2 * value);
    // 2 * 110 * 0.999 - 200 = 19.78; 200 - 2 * 110 * 1.001 = -20.22
    assert_eq!(long.pnl(price), units(19.78) as i128);
    assert_eq!(short.pnl(price), -(units(20.22) as i128));
}

#[test]
fn entry_is_gated_by_daily_cap() {
    let mut cfg = config(Direction::Long);
    cfg.quote_amount = units(10.0);
    let mut s = DcaStrategy::new(cfg);
    s.start_at(at(0));
    s.daily_spent = units(95.0);
    // first entry, so neither time nor price would hold it back
    assert!(!s.should_buy(units(100.0), at(0), units(100.0)));
    assert!(!s.should_buy(units(1.0), at(10_000_000), units(100.0)));
    assert!(s.should_buy(units(100.0), at(0), units(105.0)));
    s.record_buy_at(1, units(100.0), units(0.1), units(10.0), at(0));
    assert_eq!(s.daily_spent, units(105.0));
    assert!(!s.should_buy(units(50.0), at(10_000_000), units(110.0)));
    assert!(s.should_buy(units(50.0), at(10_000_000), units(115.0)));
}

#[test]
fn entry_needs_running_state_and_free_orders() {
    let mut cfg = config(Direction::Long);
    cfg.max_orders = 2;
    let mut s = DcaStrategy::new(cfg);
    assert!(!s.should_buy(units(100.0), at(0), units(1000.0)));
    s.start_at(at(0));
    assert!(s.should_buy(units(100.0), at(0), units(1000.0)));
    s.record_buy_at(1, units(100.0), units(0.1), units(10.0), at(0));
    assert_eq!(s.state, DcaState::Running);
    s.record_buy_at(2, units(100.0), units(0.1), units(10.0), at(1));
    assert_eq!(s.state, DcaState::MaxOrdersReached);
    assert!(!s.should_buy(units(1.0), at(10_000_000), units(1000.0)));
    s.start_at(at(2));
    assert!(!s.should_buy(units(1.0), at(10_000_000), units(1000.0)));
}

#[test]
fn time_trigger_fires_at_the_interval() {
    let mut s = DcaStrategy::new(config(Direction::Long));
    s.start_at(at(0));
    s.record_buy_at(1, units(100.0), units(0.1), units(10.0), at(1_000));
    assert!(!s.should_buy(units(100.0), at(1_000 + 3_599), units(1000.0)));
    assert!(s.should_buy(units(100.0), at(1_000 + 3_600), units(1000.0)));
}

#[test]
fn move_trigger_is_direction_aware() {
    let mut long = DcaStrategy::new(config(Direction::Long));
    long.start_at(at(0));
    long.record_buy_at(1, units(100.0), units(0.1), units(10.0), at(0));
    assert!(!long.should_buy(units(98.01), at(1), units(1000.0)));
    assert!(long.should_buy(units(98.0), at(1), units(1000.0)));
    assert!(!long.should_buy(units(102.0), at(1), units(1000.0)));

    let mut short = DcaStrategy::new(config(Direction::Short));
    short.start_at(at(0));
    short.record_buy_at(1, units(100.0), units(0.1), units(10.0), at(0));
    assert!(!short.should_buy(units(101.99), at(1), units(1000.0)));
    assert!(short.should_buy(units(102.0), at(1), units(1000.0)));
    assert!(!short.should_buy(units(98.0), at(1), units(1000.0)));
}

#[test]
fn move_trigger_can_be_switched_off() {
    let mut cfg = config(Direction::Long);
    cfg.price_drop_trigger = 0;
    let mut s = DcaStrategy::new(cfg);
    s.start_at(at(0));
    s.record_buy_at(1, units(100.0), units(0.1), units(10.0), at(0));
    assert!(!s.should_buy(units(1.0), at(1), units(1000.0)));
}

#[test]
fn trailing_take_profit_triggers_on_retracement_in_profit() {
    let mut s = DcaStrategy::new(config(Direction::Long));
    s.start_at(at(0));
    s.record_buy_at(1, units(100.0), units(1.0), units(100.0), at(0));
    s.update_price_peak(units(110.0));
    assert_eq!(s.price_peak, units(110.0));
    // 107.8 is exactly 2 % below the peak of 110
    assert!(s.should_trailing_tp(units(107.8)));
    // 107.9 is 1.909 % below the peak: not far enough
    assert!(!s.should_trailing_tp(units(107.9)));
    assert_eq!(s.trailing_tp_trigger_price(), units(107.8) as i128);
}

#[test]
fn trailing_take_profit_needs_profit() {
    let mut s = DcaStrategy::new(config(Direction::Long));
    s.start_at(at(0));
    s.record_buy_at(1, units(100.0), units(1.0), units(100.0), at(0));
    s.update_price_peak(units(101.0));
    assert!(!s.should_trailing_tp(units(99.0)));
    // far enough from the peak, but the close would realise a loss
    assert!(!s.should_trailing_tp(units(98.0)));
    // a peak that never rose above the average never triggers
    let mut flat = DcaStrategy::new(config(Direction::Long));
    flat.start_at(at(0));
    flat.record_buy_at(1, units(100.0), units(1.0), units(100.0), at(0));
    flat.update_price_peak(units(100.0));
    assert!(!flat.should_trailing_tp(units(90.0)));
}

#[test]
fn trailing_margin_is_strict() {
    let mut cfg = config(Direction::Long);
    cfg.trailing_tp_pct = pct(1.0);
    let mut s = DcaStrategy::new(cfg);
    s.start_at(at(0));
    s.record_buy_at(1, units(100.0), units(1000.0), units(100_000.0), at(0));
    s.update_price_peak(units(102.0));
    // net gain of exactly 0.05 % does not suffice: 100.05 / 0.999 is no
    // whole number of units, so take the nearest prices on either side
    let edge = 10_015_015_015u64;
    assert!(s.pnl_parts(edge) <= 50_000_000 * (units(100_000.0) as i128));
    assert!(!s.should_trailing_tp(edge));
    assert!(s.should_trailing_tp(edge + 1));
}

#[test]
fn trailing_take_profit_short() {
    let mut s = DcaStrategy::new(config(Direction::Short));
    s.start_at(at(0));
    s.record_buy_at(1, units(100.0), units(1.0), units(100.0), at(0));
    assert_eq!(s.price_trough, TROUGH_UNSET);
    assert!(!s.should_trailing_tp(units(95.0)));
    assert_eq!(s.trailing_tp_trigger_price(), 0);
    s.update_price_peak(units(90.0));
    assert_eq!(s.price_trough, units(90.0));
    s.update_price_peak(units(95.0));
    assert_eq!(s.price_trough, units(90.0));
    assert!(!s.should_trailing_tp(units(91.7)));
    assert!(s.should_trailing_tp(units(91.8)));
    assert_eq!(s.trailing_tp_trigger_price(), units(91.8) as i128);
}

#[test]
fn extreme_is_monotonic_and_needs_a_position() {
    let mut s = DcaStrategy::new(config(Direction::Long));
    s.update_price_peak(units(500.0));
    assert_eq!(s.price_peak, 0);
    s.start_at(at(0));
    s.record_buy_at(1, units(100.0), units(1.0), units(100.0), at(0));
    s.update_price_peak(units(105.0));
    s.update_price_peak(units(103.0));
    assert_eq!(s.price_peak, units(105.0));
    assert_eq!(s.price_trough, TROUGH_UNSET);
}

#[test]
fn take_profit_threshold() {
    let s = long_with_three_entries();
    // 3 % of 285 is 8.55: the value after fee must reach 293.55
    assert!(!s.should_take_profit(units(97.9479)));
    assert!(s.should_take_profit(units(97.948)));
    let mut off = config(Direction::Long);
    off.take_profit_pct = 0;
    let mut t = DcaStrategy::new(off);
    t.start_at(at(0));
    t.record_buy_at(1, units(100.0), units(1.0), units(100.0), at(0));
    assert!(!t.should_take_profit(units(1000.0)));
    let empty = DcaStrategy::new(config(Direction::Long));
    assert!(!empty.should_take_profit(units(1000.0)));
}

#[test]
fn stop_loss_threshold() {
    let s = long_with_three_entries();
    // average 95, stop at 10 %: 85.5
    assert!(!s.should_stop_loss(units(85.51)));
    assert!(s.should_stop_loss(units(85.5)));
    let mut short = DcaStrategy::new(config(Direction::Short));
    short.start_at(at(0));
    short.record_buy_at(1, units(100.0), units(1.0), units(100.0), at(0));
    assert!(!short.should_stop_loss(units(109.99)));
    assert!(short.should_stop_loss(units(110.0)));
    assert!(!short.should_stop_loss(units(50.0)));
}

#[test]
fn priorities_of_one_tick() {
    let s = long_with_three_entries();
    assert_eq!(s.decide(units(80.0), at(3_001), units(1000.0)), Decision::StopLoss);
    assert_eq!(s.decide(units(120.0), at(3_001), units(1000.0)), Decision::TakeProfit);
    assert_eq!(s.decide(units(95.0), at(3_001), units(1000.0)), Decision::Hold);
    assert_eq!(s.decide(units(95.0), at(3_000 + 3_600), units(1000.0)), Decision::Enter);
    // profit target and interval both reached: the close comes first
    assert_eq!(s.decide(units(120.0), at(3_000 + 3_600), units(1000.0)), Decision::TakeProfit);
    let mut trailing = DcaStrategy::new(config(Direction::Long));
    trailing.config.take_profit_pct = 0;
    trailing.start_at(at(0));
    trailing.record_buy_at(1, units(100.0), units(1.0), units(100.0), at(0));
    trailing.update_price_peak(units(110.0));
    assert_eq!(trailing.decide(units(107.0), at(1), units(1000.0)), Decision::TrailingTakeProfit);
}

#[test]
fn first_cycle_scenario() {
    let mut cfg = config(Direction::Long);
    cfg.max_orders = 1;
    let mut s = DcaStrategy::new(cfg);
    assert_eq!(s.state, DcaState::Idle);
    assert!(s.trades.is_empty());
    s.start_at(at(5_000));
    assert_eq!(s.state, DcaState::Running);
    assert_eq!(s.last_buy_time, Some(5_000));
    s.tick(at(5_000));
    assert_eq!(s.next_buy_in_secs, 3_600);
    assert!(s.should_buy(units(100.0), at(5_000), units(1000.0)));
    s.record_buy_at(77, units(100.0), units(0.1), units(10.0), at(5_001));
    assert_eq!(s.trades.len(), 1);
    assert_eq!(s.trades[0].order_id, 77);
    assert_eq!(s.trades[0].timestamp, 5_001);
    assert_eq!(s.state, DcaState::MaxOrdersReached);
    assert_eq!(s.last_buy_price, Some(units(100.0)));
    assert_eq!(s.next_buy_in_secs, 3_600);
}

#[test]
fn start_with_the_clock() {
    let mut s = DcaStrategy::new(config(Direction::Long));
    s.start();
    assert_eq!(s.state, DcaState::Running);
    assert!(s.last_buy_time.unwrap() > 1_600_000_000);
    s.record_buy(5, units(100.0), units(0.1), units(10.0));
    assert_eq!(s.trades.len(), 1);
    assert!(s.trades[0].timestamp > 1_600_000_000);
}

#[test]
fn start_keeps_the_reference_of_a_running_strategy() {
    let mut s = DcaStrategy::new(config(Direction::Long));
    s.start_at(at(100));
    s.start_at(at(900));
    assert_eq!(s.last_buy_time, Some(100));
    s.stop();
    assert_eq!(s.state, DcaState::Idle);
    s.stop();
    assert_eq!(s.state, DcaState::Idle);
    s.start_at(at(900));
    assert_eq!(s.last_buy_time, Some(900));
}

#[test]
fn stop_leaves_other_states_alone() {
    let mut s = DcaStrategy::new(config(Direction::Long));
    s.state = DcaState::TakeProfitReached;
    s.stop();
    assert_eq!(s.state, DcaState::TakeProfitReached);
    s.state = DcaState::Error("boom".to_string());
    s.stop();
    assert_eq!(s.state, DcaState::Error("boom".to_string()));
    assert_ne!(s.state, DcaState::Error("bang".to_string()));
}

#[test]
fn tick_resets_daily_spend_and_counts_down() {
    let mut s = DcaStrategy::new(config(Direction::Long));
    s.start_at(Timestamp::new(0, 7));
    s.record_buy_at(1, units(100.0), units(0.1), units(10.0), Timestamp::new(0, 7));
    s.tick(Timestamp::new(600, 7));
    assert_eq!(s.daily_spent, 0);
    s.daily_spent = units(10.0);
    s.tick(Timestamp::new(700, 7));
    assert_eq!(s.daily_spent, units(10.0));
    assert_eq!(s.next_buy_in_secs, 2_900);
    s.tick(Timestamp::new(4_000, 8));
    assert_eq!(s.daily_spent, 0);
    assert_eq!(s.next_buy_in_secs, 0);
    let mut fresh = DcaStrategy::new(config(Direction::Long));
    fresh.tick(Timestamp::new(5, 9));
    assert_eq!(fresh.next_buy_in_secs, 0);
}

#[test]
fn clear_trades_unsets_extremes() {
    let mut s = long_with_three_entries();
    s.update_price_peak(units(120.0));
    s.price_trough = units(80.0);
    s.clear_trades();
    assert!(s.trades.is_empty());
    assert_eq!(s.price_peak, 0);
    assert_eq!(s.price_trough, TROUGH_UNSET);
    assert_eq!(s.last_buy_time, None);
    assert_eq!(s.last_buy_price, None);
    assert_eq!(s.average_cost(), 0);
}

#[test]
fn countdown_text() {
    let mut s = DcaStrategy::new(config(Direction::Long));
    assert_eq!(s.next_buy_countdown(), "--:--");
    s.state = DcaState::Running;
    assert_eq!(s.next_buy_countdown(), "00:00");
    s.last_buy_time = Some(0);
    s.next_buy_in_secs = 3_599;
    assert_eq!(s.next_buy_countdown(), "59:59");
    s.next_buy_in_secs = 65;
    assert_eq!(s.next_buy_countdown(), "01:05");
    s.next_buy_in_secs = 6_000 * 60 + 7;
    assert_eq!(s.next_buy_countdown(), "6000:07");
}

#[test]
fn snapshot_round_trip() {
    let mut s = long_with_three_entries();
    s.update_price_peak(units(101.0));
    let snapshot = s.to_snapshot("BTCUSDT");
    assert_eq!(snapshot.symbol, "BTCUSDT");
    assert_eq!(snapshot.state, DcaState::Running);
    let mut other = DcaStrategy::new(config(Direction::Short));
    other.restore_from_snapshot(snapshot.clone());
    assert_eq!(other.trades, s.trades);
    assert_eq!(other.state, DcaState::Running);
    assert_eq!(other.config.direction, Direction::Long);
    assert_eq!(other.price_peak, units(101.0));
    assert_eq!(other.last_buy_time, s.last_buy_time);
    assert_eq!(other.last_buy_price, s.last_buy_price);
    assert_eq!(other.daily_spent, s.daily_spent);
    assert!(other.in_range());
}

#[test]
fn fits_guards_the_range() {
    let s = long_with_three_entries();
    assert!(s.fits(units(1.0), units(100.0)));
    assert!(!s.fits(1_000_000_000_000_000_000, units(100.0)));
    assert!(!s.fits(units(1.0), 10_000_000_000_000_000));
    assert!(s.in_range());
}

#[test]
fn state_labels() {
    assert_eq!(DcaState::Idle.label(), "STOPPED");
    assert_eq!(DcaState::Running.label(), "ACTIVE");
    assert_eq!(DcaState::TakeProfitReached.label(), "TAKE PROFIT");
    assert_eq!(DcaState::StopLossReached.label(), "STOP LOSS");
    assert_eq!(DcaState::MaxOrdersReached.label(), "MAX ORDERS");
    assert_eq!(DcaState::Error("x".to_string()).label(), "ERROR");
    assert!(DcaState::Running.is_active());
    assert!(!DcaState::Idle.is_active());
    assert!(!DcaState::MaxOrdersReached.is_active());
}

#[test]
fn direction_flip() {
    assert_eq!(Direction::Long.flip(), Direction::Short);
    assert_eq!(Direction::Short.flip(), Direction::Long);
    assert_eq!(Direction::default(), Direction::Long);
}
