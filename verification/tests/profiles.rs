//! Paper profiles, their replays and the shutdown signals.

use trading_apps::decimal::Decimal;
use trading_apps::domain::{
    MarketDataEvent, MarketSnapshot, MarketType, OrderIntent, OrderType, Side, TimeInForce,
};
use trading_apps::monitor::ReplayMarketDataClock;
use trading_apps::paper_arbitrage_task::ArbitragePaperTaskError;
use trading_apps::paper_grid_task::GridPaperTaskError;
use trading_apps::paper_profile::{
    default_cost_model, filter_events, first_observation, grid_geometry, load_arbitrage_profile, load_grid_profile,
    market_type_for_symbol, validate_arbitrage_replay, validate_grid_replay,
    validate_profile_identity, ArbitragePaperProfile, ArbitragePaperProfileInput, ConfigFailure,
    ExchangePair, GridGeometryError, GridMode, GridPaperProfile, GridPaperProfileInput,
    GridProfileConfig, MonitorProfileConfig, PairProfileConfig, PaperProfileCatalog,
    PaperProfileError, PaperProfileKind, ProfileLoadError, SubmitCommand,
};
use trading_apps::replay_mirror::{
    execution_policy, serves_batch, MirroredReplaySource, MirroredReplayState, NextReplayEvent,
    ReplayExecutionError,
};
use trading_apps::requests::PaperCostModel;
use trading_apps::shutdown::{
    install_shutdown_signal, signals_to_register, ShutdownPlatform, ShutdownSignal,
    ShutdownSignalError, ShutdownSignalStage, SignalOutcome,
};
use trading_apps::timestamp::Timestamp;

fn number(text: &str) -> Decimal {
    Decimal::parse(text).unwrap()
}

fn snapshot(exchange: &str, symbol: &str, bid: &str, ask: &str, seconds: i64) -> MarketSnapshot {
    MarketSnapshot {
        exchange: exchange.to_owned(),
        symbol: symbol.to_owned(),
        market_type: MarketType::Perpetual,
        bid: number(bid),
        ask: number(ask),
        last: None,
        mid_price: number(bid),
        bid_quantity: None,
        ask_quantity: None,
        timestamp: Timestamp::from_parts(seconds, 0),
    }
}

fn observation(exchange: &str, seconds: i64) -> MarketDataEvent {
    MarketDataEvent::Observation {
        snapshot: snapshot(exchange, "BTC-USDC-PERP", "99", "100", seconds),
        revision: 1,
        received_at: Timestamp::from_parts(seconds, 0),
    }
}

fn gap(exchange: &str, seconds: i64) -> MarketDataEvent {
    MarketDataEvent::SourceGap {
        exchange: exchange.to_owned(),
        observed_at: Timestamp::from_parts(seconds, 0),
    }
}

fn intent(exchange: &str) -> OrderIntent {
    OrderIntent {
        client_order_id: 1,
        exchange: exchange.to_owned(),
        symbol: "BTC-USDC-PERP".to_owned(),
        market_type: MarketType::Perpetual,
        side: Side::Buy,
        order_type: OrderType::Market,
        quantity: number("1"),
        price: None,
        time_in_force: TimeInForce::Ioc,
        reduce_only: false,
    }
}

#[test]
fn grid_replay_rejects_source_identity_drift() {
    let event = MarketDataEvent::Observation {
        snapshot: snapshot("paper-grid-alt", "BTC-USDC-PERP", "99", "100", 1_784_937_600),
        revision: 1,
        received_at: Timestamp::from_parts(1_784_937_600, 0),
    };
    assert_eq!(
        Timestamp::from_parts(1_784_937_600, 0).to_rfc3339(),
        Some("2026-07-25T00:00:00+00:00".to_owned())
    );
    let error =
        validate_grid_replay(&vec![event], "paper-grid", "BTC-USDC-PERP", MarketType::Perpetual)
            .unwrap_err();
    assert!(error.message("").contains("source identity drifted"));
    assert_eq!(
        error.message(""),
        "grid replay source identity drifted from paper-grid/BTC-USDC-PERP/Perpetual"
    );
}

#[test]
fn profile_identity_rejects_whitespace_controls_and_oversized_values() {
    for invalid in ["", " leading", "trailing ", "line\nbreak"] {
        assert!(validate_profile_identity(invalid, "identity").is_err());
    }
    assert!(validate_profile_identity(&"x".repeat(129), "identity").is_err());
    validate_profile_identity("paper-grid-btc", "identity").unwrap();
    validate_profile_identity(&"x".repeat(128), "identity").unwrap();
    assert_eq!(
        validate_profile_identity("", "identity").unwrap_err().message(""),
        "identity must be a non-empty, trimmed, control-free identity of at most 128 bytes"
    );
}

#[test]
fn synthetic_signal_error_preserves_the_failed_stage() {
    let error = ShutdownSignalError::synthetic(
        "SIGTERM",
        ShutdownSignalStage::Register,
        "synthetic failure",
    );

    assert_eq!(
        error.message(),
        "shutdown signal registration failed for SIGTERM: synthetic failure"
    );
}

#[test]
fn the_first_failed_registration_is_the_error() {
    let ready = vec![Ok(())];
    let wait = install_shutdown_signal(ShutdownPlatform::Unix, &ready).unwrap();
    assert_eq!(
        wait.receive(ShutdownSignal::CtrlC, &SignalOutcome::Received).unwrap(),
        ShutdownSignal::CtrlC
    );
    assert_eq!(
        wait.receive(ShutdownSignal::Sigterm, &SignalOutcome::StreamEnded).unwrap_err().message(),
        "shutdown signal wait failed for SIGTERM: signal stream ended unexpectedly"
    );
    assert_eq!(
        wait.receive(ShutdownSignal::CtrlC, &SignalOutcome::Failed("broken".to_owned()))
            .unwrap_err()
            .message(),
        "shutdown signal wait failed for Ctrl-C: broken"
    );
    let refused = vec![Ok(()), Err("busy".to_owned()), Err("later".to_owned()), Ok(())];
    let error = install_shutdown_signal(ShutdownPlatform::Windows, &refused).unwrap_err();
    assert_eq!(error.stage(), ShutdownSignalStage::Register);
    assert_eq!(
        error.message(),
        "shutdown signal registration failed for Ctrl-Break: busy"
    );
    assert!(signals_to_register(ShutdownPlatform::Other).is_empty());
}

#[test]
fn grid_replay_names_its_flaw() {
    assert!(matches!(
        validate_grid_replay(&Vec::new(), "paper", "BTC-USDC-PERP", MarketType::Perpetual),
        Err(ProfileLoadError::GridReplayEmpty)
    ));
    assert!(matches!(
        validate_grid_replay(
            &vec![observation("paper", 1), gap("paper", 2)],
            "paper",
            "BTC-USDC-PERP",
            MarketType::Perpetual
        ),
        Err(ProfileLoadError::GridReplayNotObservations)
    ));
    validate_grid_replay(
        &vec![observation("paper", 1), observation("paper", 2)],
        "paper",
        "BTC-USDC-PERP",
        MarketType::Perpetual,
    )
    .unwrap();
}

fn check_pair(events: Vec<MarketDataEvent>) -> Result<(), ProfileLoadError> {
    validate_arbitrage_replay(&events, "left", "right", "BTC-USDC-PERP", MarketType::Perpetual)
}

#[test]
fn arbitrage_replay_needs_both_exchanges_and_nothing_else() {
    check_pair(vec![observation("left", 1), observation("right", 2)]).unwrap();
    assert!(matches!(check_pair(Vec::new()), Err(ProfileLoadError::ArbitrageReplayEmpty)));
    assert!(matches!(
        check_pair(vec![observation("left", 1)]),
        Err(ProfileLoadError::ArbitrageReplayOneSided)
    ));
    assert!(matches!(
        check_pair(vec![observation("left", 1), observation("elsewhere", 2)]),
        Err(ProfileLoadError::ArbitrageReplayDrifted)
    ));
    assert!(matches!(
        check_pair(vec![observation("left", 1), gap("right", 2)]),
        Err(ProfileLoadError::ArbitrageReplayNotObservations)
    ));
    assert!(validate_arbitrage_replay(
        &vec![observation("left", 1)],
        "left",
        "left",
        "BTC-USDC-PERP",
        MarketType::Perpetual
    )
    .is_err());
}

#[test]
fn the_sources_of_a_pair_share_no_event() {
    let events = vec![
        gap("left", 1),
        observation("right", 2),
        observation("left", 3),
        gap("right", 4),
    ];
    let left = filter_events(&events, "left", "BTC-USDC-PERP");
    let right = filter_events(&events, "right", "BTC-USDC-PERP");
    assert_eq!((left.len(), right.len()), (2, 2));
    assert!(filter_events(&events, "left", "ETH").len() == 1);
    assert_eq!(first_observation(&events).unwrap().exchange, "right");
    assert!(first_observation(&vec![gap("left", 1)]).is_none());
}

#[test]
fn the_grid_lies_half_way_between_its_prices() {
    let geometry =
        grid_geometry(Some(number("90")), Some(number("110")), number("2")).unwrap();
    assert!(geometry.initial_price.equals(number("100")));
    assert!(geometry.grid_width_percent.equals(number("20")));
    assert!(geometry.grid_interval_percent.equals(number("2")));
    assert_eq!(
        grid_geometry(None, None, number("2")).unwrap_err(),
        GridGeometryError::MissingLowerPrice
    );
    assert_eq!(
        grid_geometry(Some(number("90")), None, number("2")).unwrap_err(),
        GridGeometryError::MissingUpperPrice
    );
    assert_eq!(
        grid_geometry(Some(number("-90")), Some(number("90")), number("2")).unwrap_err(),
        GridGeometryError::MidpointNotPositive
    );
    let largest = number("79228162514264337593543950335");
    assert_eq!(
        grid_geometry(Some(largest), Some(largest), number("2")).unwrap_err().message(),
        "grid geometry is out of range"
    );
}

#[test]
fn the_symbol_tells_the_market() {
    assert_eq!(market_type_for_symbol("BTC-USDT-SPOT"), MarketType::Spot);
    assert_eq!(market_type_for_symbol("BTC-USDC-PERP"), MarketType::Perpetual);
    assert_eq!(market_type_for_symbol("SPOT"), MarketType::Perpetual);
}

fn grid_input(task_id: &str) -> GridPaperProfileInput {
    GridPaperProfileInput {
        task_id: task_id.to_owned(),
        strategy_id: "grid-btc".to_owned(),
        strategy_revision: "r1".to_owned(),
        config_path: "grid.yaml".to_owned(),
        replay_path: "grid.jsonl".to_owned(),
        shutdown_grace_nanos: 5_000_000_000,
    }
}

fn grid_config(mode: GridMode) -> GridProfileConfig {
    GridProfileConfig {
        mode,
        exchange: "paper".to_owned(),
        symbol: "BTC-USDC-PERP".to_owned(),
        market_type: MarketType::Perpetual,
        order_amount: number("0.5"),
        lower_price: Some(number("90")),
        upper_price: Some(number("110")),
        grid_interval: number("2"),
    }
}

fn grid_profile(task_id: &str) -> Result<GridPaperProfile, ProfileLoadError> {
    load_grid_profile(
        grid_input(task_id),
        Ok(grid_config(GridMode::FixedLong)),
        Some(vec![observation("paper", 7), observation("paper", 8)]),
    )
}

#[test]
fn a_grid_profile_is_loaded_step_by_step() {
    let profile = grid_profile("grid-task").unwrap();
    assert_eq!(profile.task_id(), "grid-task");
    assert_eq!(profile.shutdown_grace_nanos(), 5_000_000_000);
    let plan = profile.start_plan().unwrap();
    assert_eq!(plan.account_id, "paper-grid:grid-task");
    assert_eq!(plan.initial_available.to_text(), "10000");
    assert_eq!(plan.cost_model, PaperCostModel::v1(10, 5, 15));
    assert_eq!(plan.clock_start, Timestamp::from_parts(7, 0));
    assert!(plan.geometry.initial_price.equals(number("100")));

    assert!(matches!(
        grid_profile(" grid-task").unwrap_err(),
        ProfileLoadError::InvalidIdentity { label } if label == "grid task_id"
    ));
    assert_eq!(
        load_grid_profile(grid_input("grid"), Err(ConfigFailure::Unreadable), None)
            .unwrap_err()
            .message(""),
        "failed to read grid config grid.yaml"
    );
    assert_eq!(
        load_grid_profile(grid_input("grid"), Err(ConfigFailure::Unloadable), None)
            .unwrap_err()
            .message(""),
        "failed to load grid config grid.yaml"
    );
    assert!(matches!(
        load_grid_profile(grid_input("grid"), Ok(grid_config(GridMode::Other)), None),
        Err(ProfileLoadError::GridNotFixedLong)
    ));
    assert_eq!(
        load_grid_profile(grid_input("grid"), Ok(grid_config(GridMode::FixedLong)), None)
            .unwrap_err()
            .message(""),
        "failed to load grid replay grid.jsonl"
    );
}

fn pair(symbols: &[&str], exchanges: &[&str]) -> PairProfileConfig {
    PairProfileConfig {
        symbols: symbols.iter().map(|text| text.to_string()).collect(),
        exchanges: exchanges.iter().map(|text| text.to_string()).collect(),
    }
}

fn monitor(symbols: &[&str], exchanges: &[&str]) -> MonitorProfileConfig {
    MonitorProfileConfig {
        symbols: symbols.iter().map(|text| text.to_string()).collect(),
        exchanges: exchanges.iter().map(|text| text.to_string()).collect(),
        data_timeout_seconds: u64::MAX,
        min_spread_pct: number("0.1"),
    }
}

fn arbitrage_profile_with(
    task_id: &str,
    strategy: PairProfileConfig,
    watched: MonitorProfileConfig,
    resolved: Option<ExchangePair>,
) -> Result<ArbitragePaperProfile, ProfileLoadError> {
    load_arbitrage_profile(
        ArbitragePaperProfileInput {
            task_id: task_id.to_owned(),
            strategy_id: "arb-btc".to_owned(),
            strategy_revision: "r2".to_owned(),
            arbitrage_config_path: "arb.yaml".to_owned(),
            monitor_config_path: "monitor.yaml".to_owned(),
            replay_path: "arb.jsonl".to_owned(),
            shutdown_grace_nanos: 1,
        },
        Ok(strategy),
        Ok(watched),
        true,
        Some(vec![observation("left", 3), observation("right", 4), observation("left", 5)]),
        resolved,
    )
}

fn arbitrage_profile(task_id: &str) -> Result<ArbitragePaperProfile, ProfileLoadError> {
    arbitrage_profile_with(
        task_id,
        pair(&["BTC-USDC-PERP"], &["left", "right"]),
        monitor(&["BTC-USDC-PERP"], &["left", "right"]),
        Some(ExchangePair { left: "left".to_owned(), right: "right".to_owned() }),
    )
}

#[test]
fn an_arbitrage_profile_feeds_each_source_its_own_events() {
    let profile = arbitrage_profile("arb-task").unwrap();
    let plan = profile.start_plan();
    assert_eq!(plan.account_id, "paper-arbitrage:arb-task");
    assert_eq!(plan.initial_available.to_text(), "100000");
    assert_eq!(plan.cost_model, default_cost_model());
    assert_eq!(plan.clock_start, Timestamp::from_parts(3, 0));
    assert_eq!((plan.left_events.len(), plan.right_events.len()), (2, 1));
    assert_eq!(plan.left.market_type, MarketType::Perpetual);
    assert_eq!(plan.data_timeout_seconds, i64::MAX);
}

#[test]
fn an_arbitrage_profile_names_the_flaw_of_its_pair() {
    let resolved = || Some(ExchangePair { left: "left".to_owned(), right: "right".to_owned() });
    let flaw = |strategy: PairProfileConfig, watched: MonitorProfileConfig| {
        arbitrage_profile_with("arb", strategy, watched, resolved()).unwrap_err().message("")
    };
    let symbol = ["BTC-USDC-PERP"];
    let both = ["left", "right"];
    assert_eq!(
        flaw(pair(&[], &both), monitor(&symbol, &both)),
        "arbitrage profile requires one configured symbol"
    );
    assert_eq!(
        flaw(pair(&symbol, &both), monitor(&["ETH"], &both)),
        "arbitrage paper write mode requires exactly one shared symbol"
    );
    assert_eq!(
        flaw(pair(&symbol, &["left"]), monitor(&symbol, &both)),
        "arbitrage paper write mode requires exactly two configured exchanges"
    );
    assert_eq!(
        flaw(pair(&symbol, &both), monitor(&symbol, &["right", "left"])),
        "arbitrage strategy and monitor must use the same ordered exact-pair exchanges"
    );
    assert_eq!(
        flaw(pair(&symbol, &["left", "left"]), monitor(&symbol, &["left", "left"])),
        "arbitrage paper write mode requires two distinct exchanges"
    );
    assert_eq!(
        arbitrage_profile_with("arb", pair(&symbol, &both), monitor(&symbol, &both), None)
            .unwrap_err()
            .message(""),
        "arbitrage symbol BTC-USDC-PERP is not executable"
    );
}

#[test]
fn a_catalog_starts_exactly_the_matching_profile() {
    let shared =
        PaperProfileCatalog::new(Some(grid_profile("same")), Some(arbitrage_profile("same")));
    assert_eq!(
        shared.unwrap_err().message(""),
        "grid and arbitrage paper profiles must use distinct task identities"
    );
    assert!(PaperProfileCatalog::new(None, None).unwrap().is_empty());

    let catalog =
        PaperProfileCatalog::new(Some(grid_profile("grid")), Some(arbitrage_profile("arb")))
            .unwrap();
    assert_eq!(catalog.task_ids(), vec!["grid".to_owned(), "arb".to_owned()]);
    assert!(!catalog.is_empty());
    let grid_command = |revision: &str| SubmitCommand::StartPaperGrid {
        strategy_id: "grid-btc".to_owned(),
        strategy_revision: revision.to_owned(),
    };
    assert_eq!(
        catalog.start_matching("grid", &grid_command("r1")),
        Ok(PaperProfileKind::Grid)
    );
    assert_eq!(
        catalog.start_matching("arb", &grid_command("r1")),
        Err(PaperProfileError::UnknownTask)
    );
    assert_eq!(
        catalog.start_matching("grid", &grid_command("r0")),
        Err(PaperProfileError::StrategyMismatch)
    );
    assert_eq!(
        catalog.start_matching(
            "arb",
            &SubmitCommand::StartPaperArbitrage {
                strategy_id: "arb-btc".to_owned(),
                strategy_revision: "r2".to_owned(),
            }
        ),
        Ok(PaperProfileKind::Arbitrage)
    );
    assert_eq!(
        catalog.start_matching("grid", &SubmitCommand::Other),
        Err(PaperProfileError::UnsupportedCommand)
    );
}

#[test]
fn only_failures_that_may_have_written_are_not_rejections() {
    assert!(PaperProfileError::UnknownTask.is_rejected());
    assert!(PaperProfileError::GridStart(GridPaperTaskError::RecoveryRequired).is_rejected());
    assert!(!PaperProfileError::GridStart(GridPaperTaskError::Journal).is_rejected());
    assert!(!PaperProfileError::GridStart(GridPaperTaskError::AccountRisk).is_rejected());
    assert!(PaperProfileError::ArbitrageStart(ArbitragePaperTaskError::Monitor).is_rejected());
    assert!(
        !PaperProfileError::ArbitrageStart(ArbitragePaperTaskError::TaskPanicked).is_rejected()
    );
}

#[test]
fn the_mirror_prices_a_batch_from_the_latest_snapshots() {
    let mut state = MirroredReplayState::new();
    let missing = state.snapshots_for_batch(&vec![intent("left")]).unwrap_err();
    assert_eq!(missing.exchange, "left");
    state.update(snapshot("left", "BTC-USDC-PERP", "99", "100", 1));
    state.update(snapshot("right", "BTC-USDC-PERP", "98", "99", 1));
    state.update(snapshot("left", "BTC-USDC-PERP", "101", "102", 2));
    let chosen = state
        .snapshots_for_batch(&vec![intent("left"), intent("right"), intent("left")])
        .unwrap();
    assert_eq!(chosen.len(), 2);
    let left = chosen.iter().find(|market| market.exchange == "left").unwrap();
    assert_eq!(left.bid.to_text(), "101");
    assert!(serves_batch("left", &vec![intent("left"), intent("left")]));
    assert!(!serves_batch("left", &vec![intent("left"), intent("right")]));
}

#[test]
fn a_batch_is_executed_at_the_time_of_the_replay_on_its_own_exchange() {
    let clock = ReplayMarketDataClock::new(Timestamp::from_parts(5, 0));
    let mut latest = MirroredReplayState::new();
    latest.update(snapshot("left", "BTC-USDC-PERP", "99", "100", 1));
    let both = vec![intent("left"), intent("right")];
    assert!(matches!(
        execution_policy(Some("left"), &clock, &latest, &both).unwrap_err(),
        ReplayExecutionError::MissingMarketData(missing) if missing.exchange == "right"
    ));
    latest.update(snapshot("right", "BTC-USDC-PERP", "98", "99", 1));
    assert!(matches!(
        execution_policy(Some("left"), &clock, &latest, &both).unwrap_err(),
        ReplayExecutionError::UnknownExchange { exchange } if exchange == "left"
    ));
    let policy = execution_policy(None, &clock, &latest, &both).unwrap();
    assert_eq!((policy.now, policy.max_market_age_seconds), (Timestamp::from_parts(5, 0), 30));
    assert_eq!(policy.snapshots.len(), 2);
    let one = execution_policy(Some("left"), &clock, &latest, &vec![intent("left")]).unwrap();
    assert_eq!(one.snapshots[0].exchange, "left");
}

#[test]
fn the_source_advances_the_clock_and_the_mirror_before_it_publishes() {
    let mut clock = ReplayMarketDataClock::new(Timestamp::from_parts(5, 0));
    let mut latest = MirroredReplayState::new();
    let mut source = MirroredReplaySource {
        source_id: "left".to_owned(),
        events: vec![observation("left", 9), gap("left", 3)],
    };
    let event = match source.next_event(&mut clock, &mut latest) {
        NextReplayEvent::Publish(event) => event,
        other => panic!("{other:?}"),
    };
    assert_eq!(clock.now(), Timestamp::from_parts(9, 0));
    assert_eq!(latest.snapshots_for_batch(&vec![intent("left")]).unwrap().len(), 1);
    assert!(source.published(event, true).is_ok());
    assert!(matches!(
        source.next_event(&mut clock, &mut latest),
        NextReplayEvent::Deliver(MarketDataEvent::SourceGap { .. })
    ));
    assert_eq!(clock.now(), Timestamp::from_parts(9, 0));
    assert!(matches!(source.next_event(&mut clock, &mut latest), NextReplayEvent::Pending));
    assert_eq!(source.published(gap("left", 1), false).unwrap_err().exchange, "left");
}
