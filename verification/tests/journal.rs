//! The read-only monitor and the replay that feeds it.

use trading_apps::decimal::Decimal;
use trading_apps::domain::{
    quoted_snapshot, MarketDataEvent, MarketSnapshot, MarketType, StrategyError,
};
use trading_apps::monitor::{
    ArbitrageMonitorError, ArbitrageMonitorOutcome, MarketDataUpdate, MarketInstrument,
    MonitorAnalysisFailure, OutcomeDetails, PairAnalysis, ReadOnlyArbitrageMonitor,
    ReplayMarketDataClock, Spread,
};
use trading_apps::paper_arbitrage_task::{
    backfill_samples, history_gate, history_sample_of, sort_by_time, ArbitragePaperTaskError,
    HistoryDecisionKind, SpreadHistorySampleView,
};
use trading_apps::replay::{
    load_market_snapshot_replay, MarketSnapshotReplay, PendingRecord, ReplayError, ReplayProgress,
};
use trading_apps::timestamp::Timestamp;

fn number(text: &str) -> Decimal {
    Decimal::parse(text).unwrap()
}

fn instrument(exchange: &str) -> MarketInstrument {
    MarketInstrument {
        exchange: exchange.to_owned(),
        symbol: "BTC-USDC-PERP".to_owned(),
        market_type: MarketType::Perpetual,
    }
}

fn monitor() -> ReadOnlyArbitrageMonitor {
    ReadOnlyArbitrageMonitor::new(instrument("left"), instrument("right"), true, true, number("0.5"))
        .unwrap()
}

fn spread(percent: &str) -> PairAnalysis {
    PairAnalysis::Spread(Spread {
        buy_exchange: "left".to_owned(),
        sell_exchange: "right".to_owned(),
        buy_price: number("100"),
        sell_price: number("101"),
        absolute: number("1"),
        percent: number(percent),
    })
}

fn at(seconds: i64) -> Timestamp {
    Timestamp::from_parts(seconds, 0)
}

#[test]
fn a_monitor_is_bound_to_two_distinct_known_instruments() {
    let bind = |right: &str, known: bool, threshold: &str| {
        ReadOnlyArbitrageMonitor::new(
            instrument("left"),
            instrument(right),
            true,
            known,
            number(threshold),
        )
        .map(|_| ())
    };
    assert_eq!(bind("left", true, "-1"), Err(ArbitrageMonitorError::NegativeThreshold));
    assert_eq!(bind("left", true, "1"), Err(ArbitrageMonitorError::DuplicateLeg));
    assert_eq!(bind("right", false, "1"), Err(ArbitrageMonitorError::Market));
    assert_eq!(bind("right", true, "0"), Ok(()));
    assert_eq!(monitor().legs().0.exchange, "left");
}

#[test]
fn every_event_is_numbered_and_judged_against_the_threshold() {
    let mut bound = monitor();
    let first = bound
        .process(Some(MarketDataUpdate::Accepted), at(1), 1, spread("0.50"))
        .unwrap();
    assert_eq!((first.sequence, first.schema_version), (1, 1));
    assert!(matches!(first.outcome, ArbitrageMonitorOutcome::Opportunity(_)));
    assert_eq!(first.outcome.decision_label(), "monitor_opportunity");
    let record = first.to_record();
    assert_eq!(record.decision, "monitor_opportunity");
    let second = bound
        .process(Some(MarketDataUpdate::AcceptedWithGap), at(2), 2, spread("0.4"))
        .unwrap();
    assert_eq!(second.sequence, 2);
    assert!(matches!(second.outcome, ArbitrageMonitorOutcome::NoOpportunity(_)));
    assert!(matches!(
        bound.process(None, at(3), 2, spread("1")),
        Err(ArbitrageMonitorError::Market)
    ));
    let third = bound
        .process(
            Some(MarketDataUpdate::SourceDegraded),
            at(3),
            3,
            PairAnalysis::NotReady {
                instrument: instrument("right"),
                freshness: "stale".to_owned(),
                continuity: "gap".to_owned(),
            },
        )
        .unwrap();
    assert_eq!(third.sequence, 3);
    assert!(matches!(third.outcome, ArbitrageMonitorOutcome::Waiting { .. }));
    let fourth = bound
        .process(
            Some(MarketDataUpdate::Accepted),
            at(4),
            4,
            PairAnalysis::Rejected(StrategyError::SnapshotMismatch("pair".to_owned())),
        )
        .unwrap();
    assert!(matches!(
        fourth.outcome.details(),
        OutcomeDetails::AnalysisRejected { .. }
    ));
    assert_eq!(MonitorAnalysisFailure::SnapshotMismatch.as_str(), "snapshot_mismatch");
}

#[test]
fn the_clock_shows_the_latest_instant() {
    let mut clock = ReplayMarketDataClock::new(at(5));
    clock.advance(at(3));
    assert_eq!(clock.now(), at(5));
    clock.advance(at(8));
    assert_eq!(clock.now(), at(8));
    let mut other = ReplayMarketDataClock::new(at(5));
    for seconds in [8, 3, 8] {
        other.advance(at(seconds));
    }
    assert_eq!(other.now(), clock.now());
}

fn load(text: &str) -> Result<MarketSnapshotReplay, ReplayError> {
    load_market_snapshot_replay(text.len() as u64, text.as_bytes().to_vec(), 2)
}

fn snapshot(exchange: &str, seconds: i64) -> MarketSnapshot {
    quoted_snapshot(
        exchange.to_owned(),
        "BTC-USDC-PERP".to_owned(),
        MarketType::Perpetual,
        number("99"),
        number("100"),
        None,
        None,
        None,
        at(seconds),
    )
    .unwrap()
}

fn pending(replay: MarketSnapshotReplay) -> PendingRecord {
    match replay.next_record().unwrap() {
        ReplayProgress::Record(record) => record,
        ReplayProgress::Finished(events) => panic!("{} events", events.len()),
    }
}

#[test]
fn a_replay_frames_its_records() {
    let line = "{\"exchange\":\"left\",\"symbol\":\"BTC\",\"bid\":\"1\"}";
    let text = format!("{line}\r\n{line}\n{line}\n");
    let first = pending(load(&text).unwrap());
    assert_eq!(String::from_utf8(first.line().clone()).unwrap(), line);
    let second = pending(first.accept(Some(snapshot("left", 1)), true).unwrap());
    assert_eq!(String::from_utf8(second.line().clone()).unwrap(), line);
    let error = second.accept(Some(snapshot("left", 2)), true).unwrap().next_record().unwrap_err();
    assert_eq!(error.message(), "monitor replay exceeds 2 events");
    let second = pending(pending(load(&text).unwrap()).accept(Some(snapshot("a", 1)), true).unwrap());
    assert!(matches!(
        second.accept(Some(snapshot("left", 2)), false),
        Err(ReplayError::InvalidIdentity { record: 2 })
    ));
    assert!(matches!(
        pending(load(&text).unwrap()).accept(None, true),
        Err(ReplayError::InvalidRecord { record: 1 })
    ));
    let mut long = snapshot("left", 1);
    long.symbol = "x".repeat(129);
    assert!(matches!(
        pending(load(&text).unwrap()).accept(Some(long), false),
        Err(ReplayError::SymbolTooLong { record: 1 })
    ));
}

#[test]
fn a_replay_becomes_one_observation_for_each_line() {
    let line = |exchange: &str, at: &str| {
        format!(
            "{{\"exchange\":\"{exchange}\",\"symbol\":\"BTC-USDC-PERP\",\
             \"market_type\":\"perpetual\",\"bid\":\"99\",\"ask\":\"100\",\
             \"timestamp\":\"{at}\"}}\n"
        )
    };
    let text = [
        line("paper-a", "2026-07-25T00:00:00Z"),
        line("paper-b", "2026-07-25T00:00:00Z"),
        line("paper-a", "2026-07-25T00:00:01Z"),
    ]
    .concat();
    let mut replay =
        load_market_snapshot_replay(text.len() as u64, text.into_bytes(), 3).unwrap();
    let start = 1_784_937_600;
    for (exchange, seconds) in [("paper-a", start), ("paper-b", start), ("paper-a", start + 1)] {
        replay = pending(replay).accept(Some(snapshot(exchange, seconds)), true).unwrap();
    }
    let events = match replay.next_record().unwrap() {
        ReplayProgress::Finished(events) => events,
        ReplayProgress::Record(record) => panic!("{record:?}"),
    };
    let seen: Vec<(String, u64, Timestamp)> = events
        .into_iter()
        .map(|event| match event {
            MarketDataEvent::Observation { snapshot, revision, received_at } => {
                (snapshot.exchange, revision, received_at)
            }
            other => panic!("{other:?}"),
        })
        .collect();
    assert_eq!(
        seen,
        vec![
            ("paper-a".to_owned(), 1, at(start)),
            ("paper-b".to_owned(), 1, at(start)),
            ("paper-a".to_owned(), 2, at(start + 1)),
        ]
    );
}

#[test]
fn a_snapshot_needs_prices_and_a_book_that_is_not_crossed() {
    let quoted = |bid: &str, ask: &str| {
        quoted_snapshot(
            "paper".to_owned(),
            "BTC".to_owned(),
            MarketType::Spot,
            number(bid),
            number(ask),
            None,
            None,
            None,
            at(1),
        )
    };
    assert_eq!(quoted("99", "102").unwrap().mid_price.to_text(), "100.50");
    assert!(quoted("99", "99").is_some());
    assert!(quoted("0", "1").is_none());
    assert!(quoted("-1", "1").is_none());
    assert!(quoted("2", "1").is_none());
}

#[test]
fn a_replay_names_its_flaw() {
    assert!(matches!(load(""), Err(ReplayError::Empty)));
    assert!(matches!(load("{}"), Err(ReplayError::PartialFinalRecord)));
    assert!(matches!(
        load_market_snapshot_replay(8_388_609, Vec::new(), 1),
        Err(ReplayError::TooLarge { bytes: 8_388_609 })
    ));
    assert!(matches!(
        load_market_snapshot_replay(1, vec![10, 10], 1),
        Err(ReplayError::Changed)
    ));
    let next = |text: &str| load(text).unwrap().next_record().unwrap_err().message();
    assert_eq!(next("\n"), "monitor replay record 1 is empty");
    assert_eq!(next("{\n"), "monitor replay record 1 is invalid JSON");
    assert_eq!(next("[]\n"), "monitor replay record 1 must be an object");
    assert_eq!(next("{\"fee\":1}\n"), "unknown replay field fee at record 1");
    let wide = format!("\"{}\"\n", "x".repeat(65_536));
    assert_eq!(next(&wide), "monitor replay record 1 exceeds 65536 bytes");
}

fn sample(seconds: i64, bps: &str) -> SpreadHistorySampleView {
    SpreadHistorySampleView {
        timestamp: at(seconds),
        exchange_buy: "left".to_owned(),
        exchange_sell: "right".to_owned(),
        price_buy: "100".to_owned(),
        price_sell: "101".to_owned(),
        spread_bps: bps.to_owned(),
        funding_rate_buy: None,
        funding_rate_sell: Some("0.0001".to_owned()),
    }
}

#[test]
fn history_is_fed_in_the_order_of_its_times() {
    let sorted = sort_by_time(vec![sample(3, "1"), sample(1, "2"), sample(3, "3"), sample(2, "4")]);
    assert_eq!(
        sorted.iter().map(|view| view.spread_bps.as_str()).collect::<Vec<_>>(),
        vec!["2", "4", "1", "3"]
    );
    let fed = backfill_samples(true, vec![sample(2, "5"), sample(1, "6")]).unwrap();
    assert_eq!(fed[0].spread_bps.to_text(), "6");
    assert_eq!(
        backfill_samples(false, vec![sample(2, "5")]).unwrap_err(),
        ArbitragePaperTaskError::RecoveryRequired
    );
    assert_eq!(
        backfill_samples(true, vec![sample(2, "many")]).unwrap_err(),
        ArbitragePaperTaskError::RecoveryRequired
    );
}

#[test]
fn a_sample_carries_the_spread_in_basis_points() {
    let mut bound = monitor();
    let event = bound
        .process(Some(MarketDataUpdate::Accepted), at(1), 1, spread("0.75"))
        .unwrap();
    let sample = history_sample_of(&event).unwrap().unwrap();
    assert!(sample.spread_bps.equals(number("75")));
    assert_eq!(sample.timestamp, at(1));
    assert!(history_gate(false, None));
    assert!(!history_gate(true, None));
    assert!(history_gate(true, Some(HistoryDecisionKind::Open)));
    assert!(!history_gate(true, Some(HistoryDecisionKind::Hold)));
}
