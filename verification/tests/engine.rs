use dca_engine::alerts::{candle_limit, evaluate_alerts, window_levels, AlertOutcome};
use dca_engine::clock::Timestamp;
use dca_engine::commands::handle_command;
use dca_engine::config::{DcaConfig, Direction};
use dca_engine::engine::{
    evaluate_slot, settle_close, settle_close_failure, settle_entry, settle_entry_failure,
    OrderError, OrderRequest, SlotAction,
};
use dca_engine::feed::{apply_balances, record_tick};
use dca_engine::models::account::{AccountInfo, Balance};
use dca_engine::models::order::{DcaTrade, Order, OrderSide, OrderStatus, OrderType};
use dca_engine::models::ticker::{Kline, MiniTickerEvent};
use dca_engine::registry::{
    AppCommand, AppState, CloseKind, LogLevel, Notice, UiMode, LOG_CAPACITY, MAX_SLOTS,
};
use dca_engine::startup::{can_restore, startup, symbols_or_default};
use dca_engine::strategy::dca::{StrategySnapshot, TROUGH_UNSET};
use dca_engine::strategy::state::DcaState;

fn units(x: f64) -> u64 {
    (x * 1e8).round() as u64
}

fn pct(x: f64) -> u64 {
    (x * 1e4).round() as u64
}

fn base(direction: Direction) -> DcaConfig {
    DcaConfig {
        symbol: "BTCUSDT".to_string(),
        direction,
        quote_amount: units(10.0),
        interval_minutes: 60,
        price_drop_trigger: pct(2.0),
        max_orders: 5,
        take_profit_pct: pct(3.0),
        stop_loss_pct: pct(10.0),
        trailing_tp_pct: pct(2.0),
        auto_restart: false,
        auto_flip: false,
        has_bnb_balance: false,
    }
}

fn at(secs: i64) -> Timestamp {
    Timestamp::new(secs, 3)
}

fn symbols() -> Vec<String> {
    vec!["BTCUSDT".to_string(), "ETHUSDT".to_string(), "SOLUSDT".to_string()]
}

fn fresh(direction: Direction) -> AppState {
    startup(&base(direction), &Vec::new(), symbols())
}

fn tick(symbol: &str, close: &str) -> MiniTickerEvent {
    MiniTickerEvent {
        event_type: "24hrMiniTicker".to_string(),
        event_time: 1,
        symbol: symbol.to_string(),
        close_price: close.to_string(),
        open_price: "100".to_string(),
        high_price: "110".to_string(),
        low_price: "90".to_string(),
        base_volume: "1".to_string(),
        quote_volume: "1".to_string(),
    }
}

fn fill(order_id: u64, executed: &str, quote: &str) -> Order {
    Order {
        symbol: "BTCUSDT".to_string(),
        order_id,
        client_order_id: "x".to_string(),
        transact_time: 0,
        price: "0".to_string(),
        orig_qty: executed.to_string(),
        executed_qty: executed.to_string(),
        cummulative_quote_qty: quote.to_string(),
        status: OrderStatus::Filled,
        side: OrderSide::Buy,
        order_type: OrderType::Market,
    }
}

fn last_notice(state: &AppState) -> &Notice {
    &state.log.back().unwrap().notice
}

#[test]
fn startup_without_snapshots() {
    let state = fresh(Direction::Long);
    assert_eq!(state.slots.len(), 1);
    assert_eq!(state.slots[0].id, 0);
    assert_eq!(state.slots[0].symbol, "BTCUSDT");
    assert_eq!(state.slots[0].base_asset, "BTC");
    assert_eq!(state.slots[0].quote_asset, "USDT");
    assert_eq!(state.slots[0].strategy.state, DcaState::Idle);
    assert_eq!(state.next_slot_id, 1);
    assert!(matches!(state.ui_mode, UiMode::Normal));
    assert!(state.log.is_empty());
    assert_eq!(state.selected_price(), 0);
}

fn snapshot(symbol: &str, state: DcaState, trades: usize) -> StrategySnapshot {
    let mut list = Vec::new();
    for i in 0..trades {
        list.push(DcaTrade::at(i as u64, units(100.0), units(1.0), units(100.0), 50 + i as i64));
    }
    StrategySnapshot {
        symbol: symbol.to_string(),
        direction: Direction::Short,
        trades: list,
        last_buy_time: Some(51),
        last_buy_price: Some(units(100.0)),
        daily_spent: units(200.0),
        last_reset_day: 3,
        price_peak: 0,
        price_trough: TROUGH_UNSET,
        has_bnb_balance: true,
        state,
    }
}

#[test]
fn restart_scenario() {
    let stored = vec![snapshot("ETHUSDT", DcaState::Running, 2)];
    let state = startup(&base(Direction::Long), &stored, symbols());
    assert_eq!(state.slots.len(), 1);
    let slot = &state.slots[0];
    assert_eq!(slot.symbol, "ETHUSDT");
    assert_eq!(slot.base_asset, "ETH");
    assert_eq!(slot.strategy.state, DcaState::Running);
    assert_eq!(slot.strategy.trades.len(), 2);
    assert_eq!(slot.strategy.config.direction, Direction::Short);
    assert_eq!(slot.strategy.config.symbol, "ETHUSDT");
    assert!(slot.strategy.config.has_bnb_balance);
    assert_eq!(slot.strategy.daily_spent, units(200.0));
    match &state.ui_mode {
        UiMode::RestoreSession(lines) => {
            assert_eq!(lines.len(), 1);
            assert_eq!(lines[0].symbol, "ETHUSDT");
            assert_eq!(lines[0].direction, Direction::Short);
            assert_eq!(lines[0].trade_count, 2);
            assert!(lines[0].active);
        }
        other => panic!("no restore prompt: {:?}", other),
    }
}

#[test]
fn restore_prompt_needs_history_or_activity() {
    let idle = vec![snapshot("ETHUSDT", DcaState::Idle, 0)];
    let state = startup(&base(Direction::Long), &idle, symbols());
    assert!(matches!(state.ui_mode, UiMode::Normal));
    assert_eq!(state.slots[0].symbol, "ETHUSDT");
    let active = vec![snapshot("ETHUSDT", DcaState::Running, 0)];
    assert!(matches!(startup(&base(Direction::Long), &active, symbols()).ui_mode, UiMode::RestoreSession(_)));
    let traded = vec![snapshot("ETHUSDT", DcaState::Idle, 1)];
    assert!(matches!(startup(&base(Direction::Long), &traded, symbols()).ui_mode, UiMode::RestoreSession(_)));
}

#[test]
fn at_most_four_slots_are_restored() {
    let stored: Vec<StrategySnapshot> =
        (0..6).map(|i| snapshot(&format!("S{}USDT", i), DcaState::Idle, 1)).collect();
    let state = startup(&base(Direction::Long), &stored, symbols());
    assert_eq!(state.slots.len(), MAX_SLOTS);
    assert_eq!(state.next_slot_id, 4);
    for (i, slot) in state.slots.iter().enumerate() {
        assert_eq!(slot.id, i);
        assert_eq!(slot.symbol, format!("S{}USDT", i));
    }
}

#[test]
fn snapshots_out_of_range_are_skipped() {
    let mut huge = snapshot("ETHUSDT", DcaState::Running, 1);
    huge.trades[0].quantity = u64::MAX;
    assert!(!can_restore(&huge));
    let stored = vec![huge, snapshot("SOLUSDT", DcaState::Idle, 1)];
    let state = startup(&base(Direction::Long), &stored, symbols());
    assert_eq!(state.slots.len(), 1);
    assert_eq!(state.slots[0].symbol, "SOLUSDT");
    assert_eq!(state.slots[0].id, 0);
}

#[test]
fn built_in_symbols_stand_in() {
    assert_eq!(symbols_or_default(Vec::new()).len(), 9);
    assert_eq!(symbols_or_default(vec!["X".to_string()]), vec!["X".to_string()]);
}

#[test]
fn price_events_overwrite_the_row() {
    let mut state = fresh(Direction::Long);
    record_tick(&mut state, &tick("BTCUSDT", "105"));
    let data = state.selected_market();
    assert_eq!(data.price, units(105.0));
    assert_eq!(data.change_24h_pct, 50_000);
    assert_eq!(data.high_24h, units(110.0));
    assert_eq!(data.low_24h, units(90.0));
    let mut second = tick("BTCUSDT", "104");
    second.high_price = "bad".to_string();
    second.low_price = "89".to_string();
    record_tick(&mut state, &second);
    let data = state.selected_market();
    assert_eq!(data.price, units(104.0));
    assert_eq!(data.high_24h, units(110.0));
    assert_eq!(data.low_24h, units(89.0));
    record_tick(&mut state, &tick("ETHUSDT", "7"));
    assert_eq!(state.selected_price(), units(104.0));
    assert_eq!(state.prices.rows.len(), 2);
    // a repeated event changes nothing
    record_tick(&mut state, &second);
    assert_eq!(state.selected_price(), units(104.0));
    assert_eq!(state.prices.rows.len(), 2);
}

#[test]
fn unusable_prices_count_as_no_price() {
    let mut state = fresh(Direction::Long);
    record_tick(&mut state, &tick("BTCUSDT", "junk"));
    assert_eq!(state.selected_price(), 0);
    record_tick(&mut state, &tick("BTCUSDT", "1000000.00000001"));
    assert_eq!(state.selected_price(), 0);
    record_tick(&mut state, &tick("BTCUSDT", "1000000"));
    assert_eq!(state.selected_price(), units(1_000_000.0));
}

#[test]
fn balances_are_taken_from_the_account() {
    let mut state = fresh(Direction::Long);
    let account = AccountInfo {
        maker_commission: 10,
        taker_commission: 10,
        buyer_commission: 0,
        seller_commission: 0,
        can_trade: true,
        can_deposit: true,
        can_withdraw: true,
        balances: vec![
            Balance { asset: "ETH".to_string(), free: "3".to_string(), locked: "0".to_string() },
            Balance { asset: "BTC".to_string(), free: "0.5".to_string(), locked: "0.1".to_string() },
            Balance { asset: "USDT".to_string(), free: "250.75".to_string(), locked: "0".to_string() },
            Balance { asset: "BTC".to_string(), free: "9".to_string(), locked: "0".to_string() },
            Balance { asset: "XRP".to_string(), free: "0.0".to_string(), locked: "0.00000000".to_string() },
            Balance { asset: "ADA".to_string(), free: "0".to_string(), locked: "4".to_string() },
        ],
    };
    apply_balances(&mut state, &account);
    assert_eq!(state.slots[0].base_balance, units(0.5));
    assert_eq!(state.slots[0].quote_balance, units(250.75));
    assert_eq!(account.get_free("DOGE"), 0);
    assert_eq!(account.get_free("ETH"), units(3.0));
    let held: Vec<&str> = account.non_zero_balances().iter().map(|b| b.asset.as_str()).collect();
    assert_eq!(held, vec!["ETH", "BTC", "USDT", "BTC", "ADA"]);
    assert_eq!(account.balances[1].locked_f64(), units(0.1));
}

#[test]
fn nothing_happens_without_a_price_or_a_slot() {
    let mut state = fresh(Direction::Long);
    handle_command(&mut state, AppCommand::ToggleStartStopSelected, &base(Direction::Long), at(0));
    assert!(matches!(evaluate_slot(&mut state, 0, at(1), units(1000.0)), SlotAction::Nothing));
    assert_eq!(state.slots[0].strategy.last_reset_day, 3);
    assert!(matches!(evaluate_slot(&mut state, 99, at(1), units(1000.0)), SlotAction::Nothing));
}

#[test]
fn long_cycle_through_the_engine() {
    let mut state = fresh(Direction::Long);
    let cfg = base(Direction::Long);
    record_tick(&mut state, &tick("BTCUSDT", "100"));
    let outcome = handle_command(&mut state, AppCommand::ToggleStartStopSelected, &cfg, at(0));
    assert!(outcome.persist);
    assert_eq!(state.slots[0].strategy.state, DcaState::Running);
    assert!(matches!(last_notice(&state), Notice::StrategyStarted { symbol } if symbol == "BTCUSDT"));

    // first tick: immediate entry
    let plan = match evaluate_slot(&mut state, 0, at(1), units(1000.0)) {
        SlotAction::Enter(plan) => plan,
        other => panic!("no entry: {:?}", other),
    };
    assert_eq!(plan.slot_id, 0);
    assert_eq!(plan.amount, units(10.0));
    assert_eq!(plan.price, units(100.0));
    match plan.order_request() {
        OrderRequest::MarketBuyQuote { symbol, quote_amount } => {
            assert_eq!(symbol, "BTCUSDT");
            assert_eq!(quote_amount, units(10.0));
        }
        other => panic!("wrong order: {:?}", other),
    }
    assert!(settle_entry(&mut state, &plan, &fill(11, "0.10000000", "9.99000000"), at(2)));
    {
        let s = &state.slots[0].strategy;
        assert_eq!(s.trades.len(), 1);
        assert_eq!(s.trades[0].order_id, 11);
        assert_eq!(s.trades[0].buy_price, units(99.9));
        assert_eq!(s.trades[0].quantity, units(0.1));
        assert_eq!(s.trades[0].cost, units(9.99));
        assert_eq!(s.daily_spent, units(9.99));
        assert_eq!(s.last_buy_time, Some(2));
    }
    match last_notice(&state) {
        Notice::EntryFilled { number, symbol, direction, quantity, price, cost } => {
            assert_eq!(*number, 1);
            assert_eq!(symbol, "BTCUSDT");
            assert_eq!(*direction, Direction::Long);
            assert_eq!(*quantity, units(0.1));
            assert_eq!(*price, units(99.9));
            assert_eq!(*cost, units(9.99));
        }
        other => panic!("wrong notice: {:?}", other),
    }

    // nothing to do right after
    assert!(matches!(evaluate_slot(&mut state, 0, at(3), units(1000.0)), SlotAction::Nothing));
    assert_eq!(state.slots[0].strategy.price_peak, units(100.0));

    // the price rises: take profit
    record_tick(&mut state, &tick("BTCUSDT", "104"));
    let plan = match evaluate_slot(&mut state, 0, at(4), units(1000.0)) {
        SlotAction::Close(plan) => plan,
        other => panic!("no close: {:?}", other),
    };
    assert_eq!(plan.kind, CloseKind::TakeProfit);
    assert_eq!(plan.quantity, units(0.1));
    assert_eq!(plan.extreme, units(104.0));
    // 0.1 * 104 * 0.999 - 9.99 = 0.3996
    assert_eq!(plan.pnl, units(0.3996) as i128);
    assert_eq!(plan.pnl_pct, 40_000);
    assert!(matches!(plan.order_request(), OrderRequest::MarketSellQty { quantity, .. } if quantity == units(0.1) as u128));
    assert!(matches!(last_notice(&state), Notice::CloseTriggered { kind: CloseKind::TakeProfit, .. }));
    assert!(settle_close(&mut state, &plan, &fill(12, "0.1", "10.39"), at(5)));
    {
        let s = &state.slots[0].strategy;
        assert!(s.trades.is_empty());
        assert_eq!(s.state, DcaState::Idle);
        assert_eq!(s.price_peak, 0);
        assert_eq!(s.price_trough, TROUGH_UNSET);
        assert_eq!(s.last_buy_time, None);
    }
    match &state.ui_mode {
        UiMode::PostSale(id, result) => {
            assert_eq!(*id, 0);
            assert_eq!(result.kind, CloseKind::TakeProfit);
            assert_eq!(result.received, units(10.39));
            assert_eq!(result.pnl, units(0.3996) as i128);
            assert_eq!(result.pnl_pct, 40_000);
        }
        other => panic!("no overlay: {:?}", other),
    }
    assert!(matches!(last_notice(&state), Notice::CloseDone { kind: CloseKind::TakeProfit, received, .. } if *received == units(10.39)));

    // restart from the overlay
    let outcome = handle_command(&mut state, AppCommand::PostSaleRestart(0), &cfg, at(6));
    assert!(outcome.persist);
    assert_eq!(state.slots[0].strategy.state, DcaState::Running);
    assert!(matches!(state.ui_mode, UiMode::Normal));
}

#[test]
fn take_profit_with_restart_and_flip() {
    let mut cfg = base(Direction::Long);
    cfg.auto_restart = true;
    cfg.auto_flip = true;
    let mut state = startup(&cfg, &Vec::new(), symbols());
    record_tick(&mut state, &tick("BTCUSDT", "100"));
    handle_command(&mut state, AppCommand::ToggleStartStopSelected, &cfg, at(0));
    let entry = match evaluate_slot(&mut state, 0, at(1), units(1000.0)) {
        SlotAction::Enter(plan) => plan,
        other => panic!("no entry: {:?}", other),
    };
    settle_entry(&mut state, &entry, &fill(1, "0.1", "10"), at(1));
    record_tick(&mut state, &tick("BTCUSDT", "110"));
    let close = match evaluate_slot(&mut state, 0, at(2), units(1000.0)) {
        SlotAction::Close(plan) => plan,
        other => panic!("no close: {:?}", other),
    };
    assert!(close.auto_restart && close.auto_flip);
    let before = state.log.len();
    settle_close(&mut state, &close, &fill(2, "0.1", "10.99"), at(3));
    let s = &state.slots[0].strategy;
    assert_eq!(s.state, DcaState::Running);
    assert_eq!(s.config.direction, Direction::Short);
    assert_eq!(s.last_buy_time, Some(3));
    assert!(s.trades.is_empty());
    assert!(matches!(state.ui_mode, UiMode::Normal));
    assert_eq!(state.log.len(), before + 3);
    assert!(matches!(state.log[before].notice, Notice::AutoFlipped { direction: Direction::Short }));
    assert!(matches!(state.log[before + 1].notice, Notice::CloseDone { .. }));
    assert!(matches!(state.log[before + 2].notice, Notice::AutoRestarted));

    // the new cycle is short: its first entry sells amount / price
    let entry = match evaluate_slot(&mut state, 0, at(4), units(1000.0)) {
        SlotAction::Enter(plan) => plan,
        other => panic!("no entry: {:?}", other),
    };
    assert_eq!(entry.direction, Direction::Short);
    // 10 / 110 = 0.09090909...
    assert_eq!(entry.quantity, 9_090_909);
    assert!(matches!(entry.order_request(), OrderRequest::MarketSellQty { quantity: 9_090_909, .. }));
}

#[test]
fn stop_loss_ends_idle() {
    let mut state = fresh(Direction::Long);
    let cfg = base(Direction::Long);
    record_tick(&mut state, &tick("BTCUSDT", "100"));
    handle_command(&mut state, AppCommand::ToggleStartStopSelected, &cfg, at(0));
    let entry = match evaluate_slot(&mut state, 0, at(1), units(1000.0)) {
        SlotAction::Enter(plan) => plan,
        other => panic!("no entry: {:?}", other),
    };
    settle_entry(&mut state, &entry, &fill(1, "0.1", "10"), at(1));
    record_tick(&mut state, &tick("BTCUSDT", "89"));
    let close = match evaluate_slot(&mut state, 0, at(2), units(1000.0)) {
        SlotAction::Close(plan) => plan,
        other => panic!("no close: {:?}", other),
    };
    assert_eq!(close.kind, CloseKind::StopLoss);
    settle_close(&mut state, &close, &fill(2, "0.1", "junk"), at(3));
    assert_eq!(state.slots[0].strategy.state, DcaState::Idle);
    assert!(state.slots[0].strategy.trades.is_empty());
    match &state.ui_mode {
        UiMode::PostSale(_, result) => {
            assert_eq!(result.kind, CloseKind::StopLoss);
            assert_eq!(result.received, 0);
        }
        other => panic!("no overlay: {:?}", other),
    }
}

#[test]
fn failed_close_halts_the_slot() {
    let mut state = fresh(Direction::Long);
    let cfg = base(Direction::Long);
    record_tick(&mut state, &tick("BTCUSDT", "100"));
    handle_command(&mut state, AppCommand::ToggleStartStopSelected, &cfg, at(0));
    let entry = match evaluate_slot(&mut state, 0, at(1), units(1000.0)) {
        SlotAction::Enter(plan) => plan,
        other => panic!("no entry: {:?}", other),
    };
    settle_entry(&mut state, &entry, &fill(1, "0.1", "10"), at(1));
    record_tick(&mut state, &tick("BTCUSDT", "89"));
    let close = match evaluate_slot(&mut state, 0, at(2), units(1000.0)) {
        SlotAction::Close(plan) => plan,
        other => panic!("no close: {:?}", other),
    };
    let error = OrderError { code: -1001, message: "timeout".to_string() };
    assert!(settle_close_failure(&mut state, &close, &error, at(3)));
    assert_eq!(state.slots[0].strategy.state, DcaState::Idle);
    assert_eq!(state.slots[0].strategy.trades.len(), 1);
    let entry = state.log.back().unwrap();
    assert_eq!(entry.level, LogLevel::Error);
    assert!(matches!(&entry.notice, Notice::CloseFailed { kind: CloseKind::StopLoss, code: -1001, reason, .. } if reason == "timeout"));
    // the position is still there, so the rule still speaks; the slot stays halted
    assert!(matches!(evaluate_slot(&mut state, 0, at(4), units(1000.0)), SlotAction::Close(_)));
    assert_eq!(state.slots[0].strategy.state, DcaState::Idle);
}

#[test]
fn failed_entry_names_missing_balance() {
    let mut state = fresh(Direction::Long);
    let cfg = base(Direction::Long);
    record_tick(&mut state, &tick("BTCUSDT", "100"));
    handle_command(&mut state, AppCommand::ToggleStartStopSelected, &cfg, at(0));
    state.slots[0].quote_balance = units(4.0);
    let entry = match evaluate_slot(&mut state, 0, at(1), units(1000.0)) {
        SlotAction::Enter(plan) => plan,
        other => panic!("no entry: {:?}", other),
    };
    let error = OrderError { code: -2010, message: "insufficient".to_string() };
    let before = state.log.len();
    assert!(settle_entry_failure(&mut state, &entry, &error, at(2)));
    assert_eq!(state.slots[0].strategy.state, DcaState::Idle);
    assert_eq!(state.log.len(), before + 2);
    assert_eq!(state.log[before].level, LogLevel::Error);
    match &state.log[before].notice {
        Notice::InsufficientBalance { symbol, direction, needed, asset } => {
            assert_eq!(symbol, "BTCUSDT");
            assert_eq!(*direction, Direction::Long);
            assert_eq!(*needed, units(6.0) as u128);
            assert_eq!(asset, "USDT");
        }
        other => panic!("wrong notice: {:?}", other),
    }
    assert!(matches!(&state.log[before + 1].notice, Notice::StoppedOnError { symbol } if symbol == "BTCUSDT"));

    // any other code, or a balance that suffices, passes the error on
    handle_command(&mut state, AppCommand::ToggleStartStopSelected, &cfg, at(3));
    let other = OrderError { code: -1013, message: "filter".to_string() };
    settle_entry_failure(&mut state, &entry, &other, at(4));
    let n = state.log.len();
    assert!(matches!(&state.log[n - 2].notice, Notice::EntryFailed { code: -1013, reason, .. } if reason == "filter"));
    state.slots[0].quote_balance = units(50.0);
    settle_entry_failure(&mut state, &entry, &error, at(5));
    let n = state.log.len();
    assert!(matches!(&state.log[n - 2].notice, Notice::EntryFailed { code: -2010, .. }));
}

#[test]
fn fill_defaults() {
    let mut state = fresh(Direction::Long);
    let cfg = base(Direction::Long);
    record_tick(&mut state, &tick("BTCUSDT", "100"));
    handle_command(&mut state, AppCommand::ToggleStartStopSelected, &cfg, at(0));
    let entry = match evaluate_slot(&mut state, 0, at(1), units(1000.0)) {
        SlotAction::Enter(plan) => plan,
        other => panic!("no entry: {:?}", other),
    };
    // nothing readable: quantity 0, cost is the planned amount, price the planned price
    settle_entry(&mut state, &entry, &fill(5, "?", "?"), at(2));
    let trade = state.slots[0].strategy.trades[0];
    assert_eq!(trade.quantity, 0);
    assert_eq!(trade.cost, units(10.0));
    assert_eq!(trade.buy_price, units(100.0));
}

#[test]
fn fill_beyond_the_range_is_not_recorded() {
    let mut state = fresh(Direction::Long);
    let cfg = base(Direction::Long);
    record_tick(&mut state, &tick("BTCUSDT", "100"));
    handle_command(&mut state, AppCommand::ToggleStartStopSelected, &cfg, at(0));
    let entry = match evaluate_slot(&mut state, 0, at(1), units(1000.0)) {
        SlotAction::Enter(plan) => plan,
        other => panic!("no entry: {:?}", other),
    };
    settle_entry(&mut state, &entry, &fill(5, "100000000000", "10"), at(2));
    assert!(state.slots[0].strategy.trades.is_empty());
    assert_eq!(state.slots[0].strategy.state, DcaState::Idle);
    assert_eq!(state.log.back().unwrap().level, LogLevel::Error);
    assert!(matches!(last_notice(&state), Notice::EntryOutOfRange { .. }));
}

#[test]
fn settling_for_a_deleted_slot() {
    let mut state = fresh(Direction::Long);
    let cfg = base(Direction::Long);
    record_tick(&mut state, &tick("BTCUSDT", "100"));
    handle_command(&mut state, AppCommand::ToggleStartStopSelected, &cfg, at(0));
    let entry = match evaluate_slot(&mut state, 0, at(1), units(1000.0)) {
        SlotAction::Enter(plan) => plan,
        other => panic!("no entry: {:?}", other),
    };
    handle_command(&mut state, AppCommand::RestoreSessionDiscard, &cfg, at(2));
    assert_eq!(state.slots[0].id, 1);
    let before = state.log.len();
    settle_entry(&mut state, &entry, &fill(5, "0.1", "10"), at(3));
    assert!(state.slots[0].strategy.trades.is_empty());
    assert_eq!(state.log.len(), before);
}

#[test]
fn registry_check() {
    let mut state = fresh(Direction::Long);
    assert!(state.check());
    state.next_slot_id = 0;
    assert!(!state.check());
    state.next_slot_id = 1;
    state.slots[0].strategy.config.take_profit_pct = u64::MAX;
    assert!(!state.check());
    state.slots[0].strategy.config.take_profit_pct = 0;
    state.slots[0].strategy.next_buy_in_secs = -1;
    assert!(!state.check());
    state.slots[0].strategy.next_buy_in_secs = 0;
    state.slots[0].strategy.trades.push(DcaTrade::at(1, 1, u64::MAX, 1, 1));
    assert!(!state.check());
    state.slots[0].strategy.trades.clear();
    assert!(state.check());
    state.prices.put("BTCUSDT".to_string(), dca_engine::registry::MarketData {
        price: u64::MAX,
        change_24h_pct: 0,
        high_24h: 0,
        low_24h: 0,
    });
    assert!(!state.check());
}

#[test]
fn log_keeps_the_last_hundred() {
    let mut state = fresh(Direction::Long);
    for i in 0..(LOG_CAPACITY as i64 + 5) {
        state.note(i, LogLevel::Info, Notice::CycleRestarted);
    }
    assert_eq!(state.log.len(), LOG_CAPACITY);
    assert_eq!(state.log.front().unwrap().secs, 5);
    assert_eq!(state.log.back().unwrap().secs, LOG_CAPACITY as i64 + 4);
    state.log("hello");
    state.log_alert("watch out");
    state.log_error("broken");
    assert_eq!(state.log.len(), LOG_CAPACITY);
    let n = state.log.len();
    assert!(matches!(&state.log[n - 3].notice, Notice::Text(t) if t == "hello"));
    assert_eq!(state.log[n - 3].level, LogLevel::Info);
    assert_eq!(state.log[n - 2].level, LogLevel::Alert);
    assert_eq!(state.log[n - 1].level, LogLevel::Error);
    assert!(state.log[n - 1].secs > 1_600_000_000);
}

#[test]
fn slot_lookup_and_removal() {
    let mut state = fresh(Direction::Long);
    let cfg = base(Direction::Long);
    handle_command(&mut state, AppCommand::OpenNewStrategy, &cfg, at(0));
    handle_command(&mut state, AppCommand::NewStratConfirm, &cfg, at(0));
    handle_command(&mut state, AppCommand::OpenNewStrategy, &cfg, at(0));
    handle_command(&mut state, AppCommand::NewStratConfirm, &cfg, at(0));
    assert_eq!(state.slots.len(), 3);
    assert_eq!(state.slot_by_id(1).unwrap().symbol, "ETHUSDT");
    assert_eq!(state.slot_by_id(2).unwrap().symbol, "SOLUSDT");
    assert!(state.slot_by_id(3).is_none());
    assert_eq!(state.position_of(2), Some(2));
    assert_eq!(state.selected().unwrap().id, 2);
    state.slot_by_id_mut(1).unwrap().base_balance = 5;
    assert_eq!(state.slots[1].base_balance, 5);
    state.selected_mut().unwrap().quote_balance = 6;
    assert_eq!(state.slots[2].quote_balance, 6);
    state.remove_slot(2);
    assert_eq!(state.slots.len(), 2);
    assert_eq!(state.selected_slot, 1);
    state.remove_slot(7);
    assert_eq!(state.slots.len(), 2);
    state.remove_slot(0);
    assert_eq!(state.selected_slot, 0);
    assert_eq!(state.slots[0].id, 1);
    assert_eq!(state.alloc_slot_id(), 3);
    assert_eq!(state.alloc_slot_id(), 4);
    state.selected_slot = 9;
    assert!(state.selected().is_none());
    assert!(state.selected_mut().is_none());
    assert_eq!(state.selected_price(), 0);
}

fn candles(list: &[(f64, f64)]) -> Vec<Kline> {
    list.iter().map(|(h, l)| Kline { high: units(*h), low: units(*l) }).collect()
}

#[test]
fn alert_levels_of_the_window() {
    // the last candle is still forming and does not count
    let window = candles(&[(105.0, 95.0), (110.0, 97.0), (108.0, 92.0), (500.0, 1.0)]);
    assert_eq!(window_levels(&window), (units(110.0), units(92.0)));
    assert_eq!(candle_limit(20), 21);
    assert_eq!(candle_limit(usize::MAX), u32::MAX);
}

#[test]
fn alerts_fire_on_a_crossing_and_cool_down() {
    let mut state = fresh(Direction::Long);
    let symbol = "BTCUSDT".to_string();
    let window = candles(&[(105.0, 95.0), (110.0, 97.0), (108.0, 92.0), (500.0, 1.0)]);
    let quiet = AlertOutcome { support: false, resistance: false };

    // no price yet
    assert_eq!(evaluate_alerts(&mut state, &symbol, &window, at(0), 30), quiet);
    assert!(state.alert_levels.get(&symbol).is_none());
    record_tick(&mut state, &tick("BTCUSDT", "100"));
    // one candle is not enough
    assert_eq!(evaluate_alerts(&mut state, &symbol, &candles(&[(1.0, 1.0)]), at(0), 30), quiet);
    assert!(state.alert_levels.get(&symbol).is_none());

    // first evaluation: the previous price is the price itself
    assert_eq!(evaluate_alerts(&mut state, &symbol, &window, at(0), 30), quiet);
    let level = state.alert_levels.get(&symbol).unwrap();
    assert_eq!(level.resistance, units(110.0));
    assert_eq!(level.support, units(92.0));
    assert_eq!(level.prev_price, units(100.0));

    // the price falls through the support
    record_tick(&mut state, &tick("BTCUSDT", "91"));
    let fired = evaluate_alerts(&mut state, &symbol, &window, at(300), 30);
    assert_eq!(fired, AlertOutcome { support: true, resistance: false });
    assert_eq!(state.alert_levels.get(&symbol).unwrap().last_support_alert, Some(300));
    let entry = state.log.back().unwrap();
    assert_eq!(entry.level, LogLevel::Alert);
    assert!(matches!(&entry.notice, Notice::SupportBroken { symbol, price, level } if symbol == "BTCUSDT" && *price == units(91.0) && *level == units(92.0)));

    // still below: no crossing
    assert_eq!(evaluate_alerts(&mut state, &symbol, &window, at(600), 30), quiet);

    // back above and through again within the cooldown: silent
    record_tick(&mut state, &tick("BTCUSDT", "93"));
    assert_eq!(evaluate_alerts(&mut state, &symbol, &window, at(900), 30), quiet);
    record_tick(&mut state, &tick("BTCUSDT", "91"));
    assert_eq!(evaluate_alerts(&mut state, &symbol, &window, at(1200), 30), quiet);
    assert_eq!(state.alert_levels.get(&symbol).unwrap().last_support_alert, Some(300));

    // and once more after the cooldown: fires
    record_tick(&mut state, &tick("BTCUSDT", "93"));
    evaluate_alerts(&mut state, &symbol, &window, at(1500), 30);
    record_tick(&mut state, &tick("BTCUSDT", "91"));
    assert_eq!(
        evaluate_alerts(&mut state, &symbol, &window, at(300 + 1800), 30),
        AlertOutcome { support: true, resistance: false }
    );

    // resistance
    record_tick(&mut state, &tick("BTCUSDT", "111"));
    assert_eq!(
        evaluate_alerts(&mut state, &symbol, &window, at(5000), 30),
        AlertOutcome { support: false, resistance: true }
    );
    assert!(matches!(last_notice(&state), Notice::ResistanceBroken { .. }));
    assert_eq!(state.alert_levels.get(&symbol).unwrap().last_resistance_alert, Some(5000));
}
