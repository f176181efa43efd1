//! Scans, their ranking and their record.

use trading_apps::decimal::Decimal;
use trading_apps::domain::{MarketType, Side, StrategyError};
use trading_apps::monitor::MarketInstrument;
use trading_apps::paper_bar_task::{Bar, PaperBarAction, PaperBarTask, PaperBarTaskError};
use trading_apps::scan_report::{decimal_text, DeterministicVirtualGridScanner};
use trading_apps::scanner::{
    grid_probe, GridEvaluation, ScannerActivity, ScannerPriority, ScannerRatingGrade,
    VirtualGridScanCandidate, VirtualGridScanObservation, VirtualGridScanRequest,
    VirtualGridScannerError,
};
use trading_apps::timestamp::Timestamp;

fn number(text: &str) -> Decimal {
    Decimal::parse(text).unwrap()
}

fn instrument(exchange: &str, symbol: &str) -> MarketInstrument {
    MarketInstrument {
        exchange: exchange.to_owned(),
        symbol: symbol.to_owned(),
        market_type: MarketType::Perpetual,
    }
}

fn observations(times: &[i64]) -> Vec<VirtualGridScanObservation> {
    times
        .iter()
        .enumerate()
        .map(|(index, at)| {
            VirtualGridScanObservation::new(
                index as u64 + 1,
                number("100"),
                Timestamp::from_parts(*at, 0),
            )
            .unwrap()
        })
        .collect()
}

fn candidate_with(
    named: MarketInstrument,
    volume: &str,
    priority: ScannerPriority,
    seen: Vec<VirtualGridScanObservation>,
    probe: Result<(), StrategyError>,
) -> Result<VirtualGridScanCandidate, VirtualGridScannerError> {
    VirtualGridScanCandidate::new(
        named,
        number("10"),
        number("1"),
        number(volume),
        Some(number("-1.50")),
        priority,
        seen,
        probe,
    )
}

fn candidate(symbol: &str, priority: ScannerPriority) -> VirtualGridScanCandidate {
    candidate_with(instrument("paper", symbol), "5", priority, observations(&[10, 20]), Ok(()))
        .unwrap()
}

fn evaluation(apr: &str, cycles: u64) -> Result<GridEvaluation, StrategyError> {
    Ok(GridEvaluation {
        current_price: number("100.00"),
        lower_price: number("95"),
        upper_price: number("105"),
        pending_buy_price: number("99"),
        pending_sell_price: number("101"),
        grid_count: 10,
        buy_crosses: 3,
        sell_crosses: 4,
        complete_cycles: cycles,
        recent_cycles: 1,
        cycles_per_hour: number("2.50"),
        estimated_apr: number(apr),
        rating_grade: ScannerRatingGrade::B,
        rating_score: number("0.00"),
    })
}

fn request(
    row_limit: usize,
    candidates: Vec<VirtualGridScanCandidate>,
) -> Result<VirtualGridScanRequest, VirtualGridScannerError> {
    VirtualGridScanRequest::new(
        " run-1 ",
        Timestamp::from_parts(30, 900_000_000),
        3_600,
        2,
        row_limit,
        candidates,
    )
}

#[test]
fn rows_are_ranked_by_priority_then_rate_then_instrument() {
    let asked = request(
        8,
        vec![
            candidate("B", ScannerPriority::Standard),
            candidate("C", ScannerPriority::Standard),
            candidate("A", ScannerPriority::Standard),
            candidate("Z", ScannerPriority::Benchmark),
            candidate("IDLE", ScannerPriority::Standard),
        ],
    )
    .unwrap();
    let evaluations = vec![
        evaluation("7.0", 2),
        evaluation("9", 5),
        evaluation("7", 2),
        evaluation("1", 0),
        evaluation("99", 1),
    ];
    let scan = DeterministicVirtualGridScanner::run(&asked, &evaluations).unwrap();
    let record = scan.record();
    assert_eq!(record.strategy, "virtual_grid_scanner");
    assert_eq!(record.decision, "scanner_ranked");
    assert_eq!(record.ranking_policy, "explicit_benchmark_then_apr_desc");
    assert_eq!(record.rows[0].priority, "benchmark");
    assert_eq!(record.rows[0].current_price, "100");
    assert_eq!(record.rows[0].cycles_per_hour, "2.5");
    assert_eq!(record.rows[0].rating_score, "0");
    assert_eq!(record.rows[0].price_change_24h_percent, Some("-1.5".to_owned()));
    assert_eq!(record.rows[0].running_seconds, 20);
    let report = scan.publish(true).unwrap();
    assert_eq!(report.run_id, "run-1");
    assert_eq!(
        report.rows.iter().map(|row| row.instrument.symbol.as_str()).collect::<Vec<_>>(),
        vec!["Z", "C", "A", "B"]
    );
    assert_eq!(report.rows.iter().map(|row| row.rank()).collect::<Vec<_>>(), vec![1, 2, 3, 4]);
    assert_eq!((report.eligible_count, report.filtered_by_cycles_count), (4, 1));
    assert!(!report.truncated);
    let best = &report.rows[1];
    assert_eq!(best.total_crosses(), 7);
    assert_eq!(best.activity(), ScannerActivity::Active);
    assert_eq!(best.rating_grade().as_str(), "b");
    assert!(!best.is_benchmark());
    assert_eq!(best.last_observed_at(), Timestamp::from_parts(20, 0));
}

#[test]
fn the_ranking_does_not_depend_on_the_listing() {
    let symbols = ["A", "B", "C"];
    let rates = ["1", "2", "1"];
    let order = |places: [usize; 3]| {
        let asked = request(
            2,
            places.iter().map(|at| candidate(symbols[*at], ScannerPriority::Standard)).collect(),
        )
        .unwrap();
        let evaluations = places.iter().map(|at| evaluation(rates[*at], 9)).collect();
        let report =
            DeterministicVirtualGridScanner::run(&asked, &evaluations).unwrap().publish(true);
        let report = report.unwrap();
        assert!(report.truncated);
        report.rows.iter().map(|row| row.instrument.symbol.clone()).collect::<Vec<_>>()
    };
    assert_eq!(order([0, 1, 2]), vec!["B".to_owned(), "A".to_owned()]);
    assert_eq!(order([2, 1, 0]), order([0, 1, 2]));
    assert_eq!(order([1, 0, 2]), order([0, 1, 2]));
}

#[test]
fn a_report_without_its_record_is_lost() {
    let asked = request(1, vec![candidate("A", ScannerPriority::Standard)]).unwrap();
    let scan = DeterministicVirtualGridScanner::run(&asked, &vec![evaluation("1", 9)]).unwrap();
    let error = scan.publish(false).unwrap_err();
    assert!(matches!(error, VirtualGridScannerError::Journal));
    assert_eq!(error.message("disk full"), "scanner journal failed: disk full");
}

#[test]
fn the_first_failed_evaluation_is_the_error() {
    let asked = request(
        4,
        vec![candidate("A", ScannerPriority::Standard), candidate("B", ScannerPriority::Standard)],
    )
    .unwrap();
    let mut overflowing = evaluation("1", 9).unwrap();
    overflowing.buy_crosses = u64::MAX;
    assert!(matches!(
        DeterministicVirtualGridScanner::run(
            &asked,
            &vec![
                Ok(overflowing),
                Err(StrategyError::InvalidConfig("width".to_owned())),
            ]
        ),
        Err(VirtualGridScannerError::CountOverflow)
    ));
    assert!(matches!(
        DeterministicVirtualGridScanner::run(
            &asked,
            &vec![
                evaluation("1", 9),
                Err(StrategyError::InvalidConfig("width".to_owned())),
            ]
        ),
        Err(VirtualGridScannerError::Strategy(StrategyError::InvalidConfig(_)))
    ));
}

#[test]
fn a_replay_starts_with_the_first_observation() {
    let asked = request(4, vec![candidate("A", ScannerPriority::Standard)]).unwrap();
    let replay = asked.replay(0);
    assert_eq!(replay.started_at, Timestamp::from_parts(10, 0));
    assert_eq!(replay.updates.len(), 1);
    assert_eq!(replay.recent_window_seconds, 300);
    assert_eq!(replay.apr_window_seconds, 3_600);
    let probe = grid_probe(&instrument("paper", "A"), number("10"), number("1"));
    assert_eq!(probe.initial_price.to_text(), "1");
}

#[test]
fn a_candidate_names_its_first_flaw() {
    let standard = ScannerPriority::Standard;
    assert!(matches!(
        VirtualGridScanObservation::new(0, number("1"), Timestamp::from_parts(0, 0)),
        Err(VirtualGridScannerError::InvalidObservationSequence { expected: 1, observed: 0 })
    ));
    assert!(matches!(
        candidate_with(instrument("pa per", "A"), "-1", standard, Vec::new(), Ok(())),
        Err(VirtualGridScannerError::InvalidInstrumentIdentity)
    ));
    assert!(matches!(
        candidate_with(instrument("paper", "A"), "-1", standard, Vec::new(), Ok(())),
        Err(VirtualGridScannerError::NegativeVolume { .. })
    ));
    assert!(matches!(
        candidate_with(instrument("paper", "A"), "0", standard, Vec::new(), Ok(())),
        Err(VirtualGridScannerError::MissingObservations { .. })
    ));
    let many = observations(&vec![1; 8_193]);
    assert!(matches!(
        candidate_with(instrument("paper", "A"), "0", standard, many, Ok(())),
        Err(VirtualGridScannerError::TooManyCandidateObservations { count: 8_193, .. })
    ));
    let mut jumping = observations(&[1, 2]);
    jumping[1].sequence = 3;
    assert!(matches!(
        candidate_with(instrument("paper", "A"), "0", standard, jumping, Ok(())),
        Err(VirtualGridScannerError::InvalidObservationSequence { expected: 2, observed: 3 })
    ));
    let error =
        candidate_with(instrument("paper", "A"), "0", standard, observations(&[2, 1]), Ok(()))
            .unwrap_err();
    assert_eq!(error.message("A"), "scanner candidate A rolls time back at sequence 2");
    assert!(matches!(
        candidate_with(
            instrument("paper", "A"),
            "0",
            standard,
            observations(&[1]),
            Err(StrategyError::InvalidConfig("interval".to_owned()))
        ),
        Err(VirtualGridScannerError::Strategy(_))
    ));
}

#[test]
fn a_request_names_its_first_flaw() {
    let one = || vec![candidate("A", ScannerPriority::Standard)];
    let at = Timestamp::from_parts(30, 0);
    let new = VirtualGridScanRequest::new;
    assert!(matches!(new("run/1", at, 1, 0, 1, one()), Err(VirtualGridScannerError::InvalidRunId)));
    assert!(matches!(
        new("run", at, 31_622_401, 0, 1, one()),
        Err(VirtualGridScannerError::InvalidAprWindow { seconds: 31_622_401 })
    ));
    assert_eq!(
        new("run", at, 1, 0, 129, one()).unwrap_err().message(""),
        "scanner row limit 129 exceeds 1..=128"
    );
    assert!(matches!(
        new("run", at, 1, 0, 1, Vec::new()),
        Err(VirtualGridScannerError::MissingCandidates)
    ));
    let crowd = (0..129)
        .map(|index| candidate(&format!("S{index}"), ScannerPriority::Standard))
        .collect();
    assert!(matches!(
        new("run", at, 1, 0, 1, crowd),
        Err(VirtualGridScannerError::TooManyCandidates { count: 129, limit: 128 })
    ));
    let doubled = ["C", "B", "C", "A", "B"]
        .iter()
        .map(|symbol| candidate(symbol, ScannerPriority::Standard))
        .collect();
    assert!(matches!(
        new("run", at, 1, 0, 1, doubled),
        Err(VirtualGridScannerError::DuplicateInstrument { instrument }) if instrument.symbol == "B"
    ));
    assert!(matches!(
        new("run", Timestamp::from_parts(19, 0), 1, 0, 1, one()),
        Err(VirtualGridScannerError::EvaluationPrecedesObservation { .. })
    ));
    let busy = (0..9)
        .map(|index| {
            candidate_with(
                instrument("paper", &format!("S{index}")),
                "0",
                ScannerPriority::Standard,
                observations(&vec![1; 8_192]),
                Ok(()),
            )
            .unwrap()
        })
        .collect();
    assert!(matches!(
        new("run", at, 1, 0, 1, busy),
        Err(VirtualGridScannerError::TooManyObservations { count: 73_728, limit: 65_536 })
    ));
}

#[test]
fn numbers_are_shown_without_zeros_at_their_end() {
    assert_eq!(decimal_text(number("1.500")), "1.5");
    assert_eq!(decimal_text(number("-120.00")), "-120");
    assert_eq!(decimal_text(number("0.000")), "0");
    assert_eq!(decimal_text(number("1200")), "1200");
}

fn bar(open: i64, close: i64) -> Bar {
    Bar {
        open_time: Timestamp::from_parts(open, 0),
        close_time: Timestamp::from_parts(close, 0),
        open: number("100"),
        high: number("103"),
        low: number("99"),
        close: number("102"),
        volume: number("7"),
    }
}

#[test]
fn the_strategy_is_asked_with_the_accepted_bars() {
    let mut task = PaperBarTask::new();
    let first = task.accept_bar(bar(0, 9)).unwrap();
    assert_eq!((first.history.len(), first.bar_index), (1, 0));
    assert!(first.current_target.is_zero());
    task.decide(first, Ok(number("0.5"))).unwrap();
    assert!(task.accept_bar(bar(9, 19)).is_err());
    let second = task.accept_bar(bar(10, 19)).unwrap();
    assert_eq!((second.history.len(), second.bar_index), (2, 1));
    assert_eq!(second.history[0].close_time, Timestamp::from_parts(9, 0));
    assert_eq!(second.history[1].high.to_text(), "103");
    assert_eq!(second.decided_at, Timestamp::from_parts(19, 0));
    assert_eq!(second.current_target.to_text(), "0.5");
}

#[test]
fn bars_move_the_target() {
    let mut task = PaperBarTask::new();
    let first = task.on_bar(bar(0, 9), Ok(number("0.5"))).unwrap();
    assert_eq!(first.bar_index, 0);
    assert_eq!(first.decided_at, Timestamp::from_parts(9, 0));
    assert!(matches!(first.action, PaperBarAction::Rebalance { side: Side::Buy, .. }));
    let second = task.on_bar(bar(10, 19), Ok(number("0.50"))).unwrap();
    assert!(matches!(second.action, PaperBarAction::Hold));
    let error = task.on_bar(bar(19, 29), Ok(number("1"))).unwrap_err();
    assert_eq!(
        error.message(""),
        "paper bar task requires strictly increasing completed bars"
    );
    let failed = task
        .on_bar(bar(20, 29), Err(StrategyError::MissingMarketData("late".to_owned())))
        .unwrap_err();
    assert!(matches!(failed, PaperBarTaskError::Strategy(_)));
    assert!(task.on_bar(bar(20, 29), Ok(number("0"))).is_err());
    let last = task.on_bar(bar(30, 39), Ok(number("-1"))).unwrap();
    assert_eq!(last.bar_index, 3);
    assert!(matches!(last.action, PaperBarAction::Rebalance { side: Side::Sell, .. }));
}
