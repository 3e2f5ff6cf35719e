use dca_engine::clock::Timestamp;
use dca_engine::commands::{contains_char, handle_command, preselect};
use dca_engine::config::{
    default_candle_interval, default_cooldown_minutes, default_rolling_window, AlertsConfig,
    BinanceConfig, Config, ConfigError, DcaConfig, Direction, RiskConfig,
};
use dca_engine::engine::{settle_close, settle_close_failure, OrderError, OrderRequest};
use dca_engine::feed::record_tick;
use dca_engine::models::order::{DcaTrade, Order, OrderSide, OrderStatus, OrderType};
use dca_engine::models::ticker::MiniTickerEvent;
use dca_engine::registry::{
    AppCommand, AppState, CloseKind, LogLevel, MarketData, Notice, SaleResult, UiMode, MAX_SLOTS,
};
use dca_engine::startup::startup;
use dca_engine::strategy::state::{default_state, DcaState};

fn units(x: f64) -> u64 {
    (x * 1e8).round() as u64
}

fn base() -> DcaConfig {
    DcaConfig {
        symbol: "BTCUSDT".to_string(),
        direction: Direction::Long,
        quote_amount: units(10.0),
        interval_minutes: 60,
        price_drop_trigger: 20_000,
        max_orders: 5,
        take_profit_pct: 30_000,
        stop_loss_pct: 100_000,
        trailing_tp_pct: 20_000,
        auto_restart: true,
        auto_flip: false,
        has_bnb_balance: false,
    }
}

fn at(secs: i64) -> Timestamp {
    Timestamp::new(secs, 3)
}

fn fresh() -> AppState {
    startup(
        &base(),
        &Vec::new(),
        vec!["BTCUSDT".to_string(), "ETHUSDT".to_string(), "SOLUSDT".to_string()],
    )
}

fn run(state: &mut AppState, cmd: AppCommand) -> dca_engine::commands::CommandOutcome {
    handle_command(state, cmd, &base(), at(100))
}

fn last_notice(state: &AppState) -> &Notice {
    &state.log.back().unwrap().notice
}

fn price(state: &mut AppState, symbol: &str, close: &str) {
    let event = MiniTickerEvent {
        event_type: "24hrMiniTicker".to_string(),
        event_time: 1,
        symbol: symbol.to_string(),
        close_price: close.to_string(),
        open_price: "100".to_string(),
        high_price: "110".to_string(),
        low_price: "90".to_string(),
        base_volume: "1".to_string(),
        quote_volume: "1".to_string(),
    };
    record_tick(state, &event);
}

#[test]
fn quit() {
    let mut state = fresh();
    let outcome = run(&mut state, AppCommand::Quit);
    assert!(state.should_quit);
    assert!(!outcome.persist && !outcome.refresh_balance && !outcome.update_symbols);
    assert!(outcome.close.is_none() && outcome.save_amount.is_none());
}

#[test]
fn restored_session_continue_and_discard() {
    let mut state = fresh();
    state.ui_mode = UiMode::RestoreSession(Vec::new());
    run(&mut state, AppCommand::RestoreSessionContinue);
    assert!(matches!(state.ui_mode, UiMode::Normal));
    assert!(matches!(last_notice(&state), Notice::SessionResumed));

    state.slots[0].strategy.trades.push(DcaTrade::at(1, 1, 1, 1, 1));
    state.ui_mode = UiMode::RestoreSession(Vec::new());
    state.selected_slot = 3;
    let outcome = run(&mut state, AppCommand::RestoreSessionDiscard);
    assert!(outcome.persist && outcome.refresh_balance && outcome.update_symbols);
    assert_eq!(state.slots.len(), 1);
    assert_eq!(state.slots[0].id, 1);
    assert!(state.slots[0].strategy.trades.is_empty());
    assert_eq!(state.slots[0].strategy.state, DcaState::Idle);
    assert_eq!(state.slots[0].symbol, "BTCUSDT");
    assert_eq!(state.selected_slot, 0);
    assert_eq!(state.next_slot_id, 2);
    assert!(matches!(state.ui_mode, UiMode::Normal));
    assert!(matches!(last_notice(&state), Notice::SessionDiscarded));
}

#[test]
fn selection_moves_within_the_slots() {
    let mut state = fresh();
    run(&mut state, AppCommand::NewStratConfirm);
    run(&mut state, AppCommand::NewStratConfirm);
    assert_eq!(state.selected_slot, 2);
    run(&mut state, AppCommand::SlotSelectDown);
    assert_eq!(state.selected_slot, 2);
    run(&mut state, AppCommand::SlotSelectUp);
    run(&mut state, AppCommand::SlotSelectUp);
    assert_eq!(state.selected_slot, 0);
    run(&mut state, AppCommand::SlotSelectUp);
    assert_eq!(state.selected_slot, 0);
    run(&mut state, AppCommand::SlotSelectDown);
    assert_eq!(state.selected_slot, 1);
    state.selected_slot = usize::MAX;
    run(&mut state, AppCommand::SlotSelectDown);
    assert_eq!(state.selected_slot, usize::MAX);
}

#[test]
fn start_stop_and_flip_setting() {
    let mut state = fresh();
    let outcome = run(&mut state, AppCommand::ToggleStartStopSelected);
    assert!(outcome.persist);
    assert_eq!(state.slots[0].strategy.state, DcaState::Running);
    assert_eq!(state.slots[0].strategy.last_buy_time, Some(100));
    run(&mut state, AppCommand::ToggleStartStopSelected);
    assert_eq!(state.slots[0].strategy.state, DcaState::Idle);
    assert!(matches!(last_notice(&state), Notice::StrategyStopped { symbol } if symbol == "BTCUSDT"));
    let before = state.log.len();
    let outcome = run(&mut state, AppCommand::StopSelected);
    assert!(!outcome.persist);
    assert_eq!(state.log.len(), before);
    run(&mut state, AppCommand::ToggleStartStopSelected);
    let outcome = run(&mut state, AppCommand::StopSelected);
    assert!(outcome.persist);
    assert_eq!(state.slots[0].strategy.state, DcaState::Idle);

    let outcome = run(&mut state, AppCommand::ToggleAutoFlip);
    assert!(outcome.persist);
    assert!(state.slots[0].strategy.config.auto_flip);
    assert!(matches!(last_notice(&state), Notice::AutoFlipSet { enabled: true, .. }));
    run(&mut state, AppCommand::ToggleAutoFlip);
    assert!(!state.slots[0].strategy.config.auto_flip);

    state.selected_slot = 5;
    let before = state.log.len();
    assert!(!run(&mut state, AppCommand::ToggleStartStopSelected).persist);
    assert!(!run(&mut state, AppCommand::ToggleAutoFlip).persist);
    assert_eq!(state.log.len(), before);
}

#[test]
fn new_strategy_dialog() {
    let mut state = fresh();
    run(&mut state, AppCommand::OpenNewStrategy);
    assert!(matches!(state.ui_mode, UiMode::NewStrategy));
    // BTCUSDT is taken: the first unused symbol is preselected
    assert_eq!(state.new_strat_symbol_idx, 1);
    assert_eq!(state.new_strat_direction, Direction::Long);
    assert!(state.new_strat_auto_restart);
    run(&mut state, AppCommand::NewStratSymbolDown);
    assert_eq!(state.new_strat_symbol_idx, 2);
    run(&mut state, AppCommand::NewStratSymbolDown);
    assert_eq!(state.new_strat_symbol_idx, 0);
    run(&mut state, AppCommand::NewStratSymbolUp);
    assert_eq!(state.new_strat_symbol_idx, 2);
    run(&mut state, AppCommand::NewStratSymbolUp);
    assert_eq!(state.new_strat_symbol_idx, 1);
    run(&mut state, AppCommand::NewStratToggleDirection);
    assert_eq!(state.new_strat_direction, Direction::Short);
    run(&mut state, AppCommand::NewStratToggleAutoRestart);
    assert!(!state.new_strat_auto_restart);
    run(&mut state, AppCommand::NewStratToggleAutoFlip);
    assert!(state.new_strat_auto_flip);
    run(&mut state, AppCommand::NewStratToggleBnb);
    assert!(state.new_strat_has_bnb);

    let outcome = run(&mut state, AppCommand::NewStratConfirm);
    assert!(outcome.persist && outcome.refresh_balance && outcome.update_symbols);
    assert_eq!(state.slots.len(), 2);
    let slot = &state.slots[1];
    assert_eq!(slot.id, 1);
    assert_eq!(slot.symbol, "ETHUSDT");
    assert_eq!(slot.base_asset, "ETH");
    assert_eq!(slot.quote_asset, "USDT");
    assert_eq!(slot.strategy.config.symbol, "ETHUSDT");
    assert_eq!(slot.strategy.config.direction, Direction::Short);
    assert!(!slot.strategy.config.auto_restart);
    assert!(slot.strategy.config.auto_flip);
    assert!(slot.strategy.config.has_bnb_balance);
    assert_eq!(slot.strategy.config.quote_amount, units(10.0));
    assert_eq!(slot.strategy.state, DcaState::Running);
    assert_eq!(slot.strategy.last_buy_time, Some(100));
    assert_eq!(state.selected_slot, 1);
    assert_eq!(state.next_slot_id, 2);
    assert!(matches!(state.ui_mode, UiMode::Normal));
    assert!(matches!(last_notice(&state), Notice::NewStrategy { symbol, direction: Direction::Short } if symbol == "ETHUSDT"));

    run(&mut state, AppCommand::OpenNewStrategy);
    run(&mut state, AppCommand::NewStratCancel);
    assert!(matches!(state.ui_mode, UiMode::Normal));
}

#[test]
fn slot_count_is_capped_and_ids_are_not_reused() {
    let mut state = fresh();
    for _ in 0..3 {
        run(&mut state, AppCommand::NewStratConfirm);
    }
    assert_eq!(state.slots.len(), MAX_SLOTS);
    state.ui_mode = UiMode::NewStrategy;
    let outcome = run(&mut state, AppCommand::NewStratConfirm);
    assert!(!outcome.persist);
    assert_eq!(state.slots.len(), MAX_SLOTS);
    assert_eq!(state.log.back().unwrap().level, LogLevel::Error);
    assert!(matches!(last_notice(&state), Notice::MaxStrategiesReached));
    assert!(matches!(state.ui_mode, UiMode::NewStrategy));

    state.selected_slot = 1;
    run(&mut state, AppCommand::ConfirmDeleteNow);
    assert_eq!(state.slots.len(), 3);
    run(&mut state, AppCommand::NewStratConfirm);
    let ids: Vec<usize> = state.slots.iter().map(|s| s.id).collect();
    assert_eq!(ids, vec![0, 2, 3, 4]);
}

#[test]
fn symbol_choice_falls_back() {
    let mut state = fresh();
    state.new_strat_symbol_idx = 99;
    run(&mut state, AppCommand::NewStratConfirm);
    assert_eq!(state.slots[1].symbol, "SOLUSDT");
    state.symbols.clear();
    run(&mut state, AppCommand::NewStratConfirm);
    assert_eq!(state.slots[2].symbol, "BTCUSDT");
    run(&mut state, AppCommand::NewStratSymbolUp);
    run(&mut state, AppCommand::NewStratSymbolDown);
    assert_eq!(state.new_strat_symbol_idx, 99);
    run(&mut state, AppCommand::OpenNewStrategy);
    assert_eq!(state.new_strat_symbol_idx, 0);
}

#[test]
fn preselection() {
    let state = fresh();
    assert_eq!(preselect(&state.symbols, &state.slots), 1);
    assert_eq!(preselect(&vec!["BTCUSDT".to_string()], &state.slots), 0);
    assert_eq!(preselect(&Vec::new(), &state.slots), 0);
    assert_eq!(preselect(&vec!["XRPUSDT".to_string()], &state.slots), 0);
}

#[test]
fn deleting_slots() {
    let mut state = fresh();
    run(&mut state, AppCommand::OpenConfirmDelete);
    assert!(matches!(state.ui_mode, UiMode::Normal));
    assert_eq!(state.log.back().unwrap().level, LogLevel::Error);
    assert!(matches!(last_notice(&state), Notice::CannotDeleteLastSlot));

    run(&mut state, AppCommand::NewStratConfirm);
    run(&mut state, AppCommand::OpenConfirmDelete);
    assert!(matches!(state.ui_mode, UiMode::ConfirmDelete));
    let outcome = run(&mut state, AppCommand::ConfirmDeleteNow);
    assert!(outcome.persist && outcome.refresh_balance && outcome.update_symbols);
    assert_eq!(state.slots.len(), 1);
    assert_eq!(state.slots[0].id, 0);
    assert_eq!(state.selected_slot, 0);
    assert!(matches!(state.ui_mode, UiMode::Normal));
    assert!(matches!(last_notice(&state), Notice::SlotRemoved));

    state.selected_slot = 4;
    state.ui_mode = UiMode::ConfirmDelete;
    let outcome = run(&mut state, AppCommand::ConfirmDeleteNow);
    assert!(!outcome.persist);
    assert_eq!(state.slots.len(), 1);
    assert!(matches!(state.ui_mode, UiMode::Normal));
}

#[test]
fn post_sale_overlay() {
    let mut state = fresh();
    let result = SaleResult { kind: CloseKind::TakeProfit, received: 1, pnl: 2, pnl_pct: 3 };
    state.ui_mode = UiMode::PostSale(0, result);
    run(&mut state, AppCommand::PostSaleDismiss(7));
    assert!(matches!(state.ui_mode, UiMode::PostSale(0, _)));
    run(&mut state, AppCommand::PostSaleDismiss(0));
    assert!(matches!(state.ui_mode, UiMode::Normal));
    run(&mut state, AppCommand::PostSaleDismiss(0));
    assert!(matches!(state.ui_mode, UiMode::Normal));

    state.ui_mode = UiMode::PostSale(0, result);
    let outcome = run(&mut state, AppCommand::PostSaleRestart(0));
    assert!(outcome.persist);
    assert_eq!(state.slots[0].strategy.state, DcaState::Running);
    assert!(matches!(state.ui_mode, UiMode::Normal));
    assert!(matches!(last_notice(&state), Notice::CycleRestarted));
    state.slots[0].strategy.stop();
    state.ui_mode = UiMode::PostSale(9, result);
    run(&mut state, AppCommand::PostSaleRestart(9));
    assert_eq!(state.slots[0].strategy.state, DcaState::Idle);
    assert!(matches!(state.ui_mode, UiMode::Normal));
}

#[test]
fn amount_panel() {
    let mut state = fresh();
    run(&mut state, AppCommand::OpenConfig);
    assert!(matches!(state.ui_mode, UiMode::Config));
    assert_eq!(state.cfg_amount_buf, "10");
    run(&mut state, AppCommand::CfgBackspace);
    run(&mut state, AppCommand::CfgBackspace);
    run(&mut state, AppCommand::CfgBackspace);
    assert_eq!(state.cfg_amount_buf, "");
    for c in ['2', 'x', '5', '.', '.', '7', '-', '5'] {
        run(&mut state, AppCommand::CfgInputChar(c));
    }
    assert_eq!(state.cfg_amount_buf, "25.75");
    run(&mut state, AppCommand::CfgToggleBnb);
    assert!(state.cfg_has_bnb);
    run(&mut state, AppCommand::NewStratConfirm);
    state.ui_mode = UiMode::Config;
    let outcome = run(&mut state, AppCommand::CfgConfirm);
    assert_eq!(outcome.save_amount, Some(units(25.75)));
    assert!(outcome.persist);
    assert!(matches!(state.ui_mode, UiMode::Normal));
    for slot in state.slots.iter() {
        assert_eq!(slot.strategy.config.quote_amount, units(25.75));
        assert!(slot.strategy.config.has_bnb_balance);
    }
    assert!(matches!(last_notice(&state), Notice::ConfigUpdated { amount, fee_discount: true } if *amount == units(25.75)));

    state.selected_slot = 0;
    run(&mut state, AppCommand::OpenConfig);
    assert_eq!(state.cfg_amount_buf, "25.75");
    assert!(state.cfg_has_bnb);
    run(&mut state, AppCommand::CloseConfig);
    assert!(matches!(state.ui_mode, UiMode::Normal));
    state.selected_slot = 8;
    run(&mut state, AppCommand::OpenConfig);
    assert_eq!(state.cfg_amount_buf, "10");
    assert!(!state.cfg_has_bnb);
}

#[test]
fn amounts_that_are_refused() {
    for text in ["", ".", "0.99999999", "abc", "100000000.00000001"] {
        let mut state = fresh();
        state.ui_mode = UiMode::Config;
        state.cfg_amount_buf = text.to_string();
        let outcome = run(&mut state, AppCommand::CfgConfirm);
        assert_eq!(outcome.save_amount, None);
        assert!(!outcome.persist);
        assert!(matches!(state.ui_mode, UiMode::Config));
        assert_eq!(state.slots[0].strategy.config.quote_amount, units(10.0));
        assert_eq!(state.log.back().unwrap().level, LogLevel::Error);
        assert!(matches!(last_notice(&state), Notice::InvalidAmount { text: t } if t == text));
    }
    for (text, value) in [("1", 1.0), ("1.", 1.0), ("100000000", 100_000_000.0)] {
        let mut state = fresh();
        state.cfg_amount_buf = text.to_string();
        assert_eq!(run(&mut state, AppCommand::CfgConfirm).save_amount, Some(units(value)));
    }
}

#[test]
fn contains_char_scans_the_text() {
    assert!(contains_char("1.5", '.'));
    assert!(!contains_char("15", '.'));
    assert!(!contains_char("", '.'));
}

fn fill(quote: &str) -> Order {
    Order {
        symbol: "BTCUSDT".to_string(),
        order_id: 1,
        client_order_id: "x".to_string(),
        transact_time: 0,
        price: "0".to_string(),
        orig_qty: "0".to_string(),
        executed_qty: "0".to_string(),
        cummulative_quote_qty: quote.to_string(),
        status: OrderStatus::Filled,
        side: OrderSide::Sell,
        order_type: OrderType::Market,
    }
}

#[test]
fn manual_close() {
    let mut state = fresh();
    run(&mut state, AppCommand::OpenConfirmClose);
    assert!(matches!(state.ui_mode, UiMode::Normal));
    assert!(matches!(last_notice(&state), Notice::NoOpenPosition));
    state.ui_mode = UiMode::ConfirmClose;
    let outcome = run(&mut state, AppCommand::ConfirmCloseNow);
    assert!(outcome.close.is_none());
    assert!(matches!(state.ui_mode, UiMode::Normal));
    assert!(matches!(last_notice(&state), Notice::NoOpenPosition));

    price(&mut state, "BTCUSDT", "105");
    run(&mut state, AppCommand::ToggleStartStopSelected);
    state.slots[0].strategy.record_buy_at(1, units(100.0), units(2.0), units(200.0), at(5));
    run(&mut state, AppCommand::OpenConfirmClose);
    assert!(matches!(state.ui_mode, UiMode::ConfirmClose));
    let outcome = run(&mut state, AppCommand::ConfirmCloseNow);
    assert!(matches!(state.ui_mode, UiMode::Normal));
    let plan = outcome.close.unwrap();
    assert_eq!(plan.kind, CloseKind::ManualClose);
    assert_eq!(plan.slot_id, 0);
    assert_eq!(plan.quantity, units(2.0));
    assert_eq!(plan.price, units(105.0));
    // 2 * 105 * 0.999 - 200 = 9.79
    assert_eq!(plan.pnl, units(9.79) as i128);
    assert_eq!(plan.pnl_pct, 48_950);
    assert!(matches!(plan.order_request(), OrderRequest::MarketSellQty { .. }));
    assert!(matches!(last_notice(&state), Notice::CloseTriggered { kind: CloseKind::ManualClose, .. }));

    settle_close(&mut state, &plan, &fill("209.79"), at(6));
    assert!(state.slots[0].strategy.trades.is_empty());
    assert_eq!(state.slots[0].strategy.state, DcaState::Idle);
    match &state.ui_mode {
        UiMode::PostSale(0, result) => {
            assert_eq!(result.kind, CloseKind::ManualClose);
            assert_eq!(result.received, units(209.79));
        }
        other => panic!("no overlay: {:?}", other),
    }
}

#[test]
fn manual_close_keeps_a_reached_state_and_buys_back_a_short() {
    let mut state = fresh();
    price(&mut state, "BTCUSDT", "95");
    state.slots[0].strategy.config.direction = Direction::Short;
    state.slots[0].strategy.config.max_orders = 1;
    run(&mut state, AppCommand::ToggleStartStopSelected);
    state.slots[0].strategy.record_buy_at(1, units(100.0), units(2.0), units(200.0), at(5));
    assert_eq!(state.slots[0].strategy.state, DcaState::MaxOrdersReached);
    let plan = run(&mut state, AppCommand::ConfirmCloseNow).close.unwrap();
    assert!(matches!(plan.order_request(), OrderRequest::MarketBuyQty { quantity, .. } if quantity == units(2.0) as u128));
    settle_close(&mut state, &plan, &fill("190"), at(6));
    assert_eq!(state.slots[0].strategy.state, DcaState::MaxOrdersReached);
    assert!(state.slots[0].strategy.trades.is_empty());
}

#[test]
fn failed_manual_close_keeps_the_position() {
    let mut state = fresh();
    price(&mut state, "BTCUSDT", "105");
    run(&mut state, AppCommand::ToggleStartStopSelected);
    state.slots[0].strategy.record_buy_at(1, units(100.0), units(2.0), units(200.0), at(5));
    let plan = run(&mut state, AppCommand::ConfirmCloseNow).close.unwrap();
    let error = OrderError { code: 0, message: "HTTP 500: down".to_string() };
    settle_close_failure(&mut state, &plan, &error, at(6));
    assert_eq!(state.slots[0].strategy.trades.len(), 1);
    assert_eq!(state.slots[0].strategy.state, DcaState::Idle);
    assert!(matches!(state.ui_mode, UiMode::Normal));
    assert!(matches!(last_notice(&state), Notice::CloseFailed { kind: CloseKind::ManualClose, .. }));
}

#[test]
fn configuration_is_validated() {
    let mut config = Config {
        binance: BinanceConfig {
            api_key: "abc".to_string(),
            api_secret: "SECRET-REDACTED".to_string(),
            testnet: true,
        },
        dca: base(),
        risk: RiskConfig { max_daily_spend: units(100.0) },
        alerts: AlertsConfig::default(),
    };
    assert_eq!(config.validate(), Ok(()));
    config.dca.take_profit_pct = 1_000_000_001;
    assert_eq!(config.validate(), Err(ConfigError::OutOfRange));
    config.dca.interval_minutes = 0;
    assert_eq!(config.validate(), Err(ConfigError::IntervalNotPositive));
    config.dca.quote_amount = 0;
    assert_eq!(config.validate(), Err(ConfigError::AmountNotPositive));
    config.binance.api_key = "YOUR_API_KEY_HERE".to_string();
    assert_eq!(config.validate(), Err(ConfigError::PlaceholderApiKey));
    assert!(!config.dca.in_range());
}

#[test]
fn defaults() {
    assert_eq!(default_rolling_window(), 20);
    assert_eq!(default_candle_interval(), "1h");
    assert_eq!(default_cooldown_minutes(), 30);
    let alerts = AlertsConfig::default();
    assert_eq!(alerts.rolling_window, 20);
    assert_eq!(alerts.candle_interval, "1h");
    assert_eq!(alerts.cooldown_minutes, 30);
    assert_eq!(default_state(), DcaState::Idle);
    assert_eq!(MarketData::default(), MarketData { price: 0, change_24h_pct: 0, high_24h: 0, low_24h: 0 });
    assert_eq!(CloseKind::TakeProfit.label(), "TAKE PROFIT");
    assert_eq!(CloseKind::TrailingTp.label(), "TRAILING TP");
    assert_eq!(CloseKind::StopLoss.label(), "STOP LOSS");
    assert_eq!(CloseKind::ManualClose.label(), "MANUAL CLOSE");
    let trade = DcaTrade::new(4, 3, 2, 1);
    assert_eq!((trade.order_id, trade.buy_price, trade.quantity, trade.cost), (4, 3, 2, 1));
    assert!(trade.timestamp > 1_600_000_000);
}
