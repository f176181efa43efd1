//! The task owners, from their start to their end.

use trading_apps::arbitrage_account::{
    account_decision_snapshot, ensure_operation_fifo_isolation, restore_state,
};
use trading_apps::arbitrage_owner::{
    ArbitrageAction, ArbitrageInput, ArbitrageOwner, GateFound, PlanScope, SampleFound,
};
use trading_apps::arbitrage_plan::{
    admission_candidate, admission_notional, build_forced_close_operation,
    build_operation as build_pair,
    matching_market, prepare_operation, validate_liquidity,
    ArbitrageDecisionKind, ArbitrageState, ObservedMarketPair,
};
use trading_apps::capacity_retention::{CapacityAction, CapacityRetention, OwnerKind};
use trading_apps::decimal::Decimal;
use trading_apps::domain::{
    MarketDataEvent, MarketSnapshot, MarketType, Order, OrderIntent, OrderStatus, Side,
    SubmissionDisposition, TradingReceipt,
};
use trading_apps::grid_owner::{
    CrossingFound, ForcedClose, GridAction, GridDirective, GridInput, GridOwner, OperationOutcome,
    PositionFound, ProtectionSignature, RiskExit,
};
use trading_apps::operation_run::{OperationRun, OperationRunPolicy, RunEvent};
use trading_apps::paper_account::{
    PaperAccountSnapshot, PaperLot, PaperReservation, PaperReservationPhase,
};
use trading_apps::paper_arbitrage_task::{
    ArbitragePaperTaskConfig, ArbitragePaperTaskError, ArbitragePaperTaskExit,
    ArbitragePaperTaskFailure, ArbitragePaperTaskPhase, HistoryDecisionConfig, OperationResult,
};
use trading_apps::paper_grid_task::{
    account_risk_exit, account_risk_exit_reason, build_operation, conservative_reservation_price,
    entry_candidate, entry_notional, observation_view, recovery_preflight, retain_active_capacity, source_is_bound,
    target_instrument_close_plan, target_instrument_has_foreign_lots, AccountRiskDirective,
    AccountRiskExitAction, GridPaperTaskConfig, GridPaperTaskError, GridPaperTaskExit,
    GridPaperTaskFailure, GridPaperTaskPhase, SagaFailure,
};
use trading_apps::paper_single_leg_saga::PaperSingleLegRun;
use trading_apps::paper_task::{durable_task_view, lifecycle_record, DurableTask, EarlierTask};
use trading_apps::paper_volume_maker_task::{
    plan_evaluated, plan_operation, receipt_fill_price, statistics_record, standing_quote,
    CycleLimits, ObservedEvent, PlanStep, PlannedKind, PlannedOperation, StandingQuote,
    StatisticsBucket, StatisticsReason, StrategyAnswer, VolumeMakerMode,
    VolumeMakerPaperTaskConfig, VolumeMakerPaperTaskExit, VolumeMakerPaperTaskPhase,
    VolumeMakerState, VolumeMakerStrategyConfig,
};
use trading_apps::requests::{limit_intent, FreshIds, PaperCostModel};
use trading_apps::task_handle::{
    FinishRequest, GridPaperTask, HandleAction, HandleInput, JoinOutcome,
};
use trading_apps::task_start::{advance_start, start, StartAction, StartInput, StartPlan};
use trading_apps::timestamp::Timestamp;
use trading_apps::volume_owner::{VolumeAction, VolumeInput, VolumeOwner};

fn number(text: &str) -> Decimal {
    Decimal::parse(text).unwrap()
}

fn at(seconds: i64) -> Timestamp {
    Timestamp::from_parts(seconds, 0)
}

fn market(exchange: &str, bid: &str, ask: &str) -> MarketSnapshot {
    MarketSnapshot {
        exchange: exchange.to_owned(),
        symbol: "BTC-USDC-PERP".to_owned(),
        market_type: MarketType::Perpetual,
        bid: number(bid),
        ask: number(ask),
        last: None,
        mid_price: number("100"),
        bid_quantity: Some(number("3")),
        ask_quantity: Some(number("3")),
        timestamp: at(1),
    }
}

fn intent(exchange: &str, side: Side, quantity: &str) -> OrderIntent {
    limit_intent(
        1,
        exchange,
        "BTC-USDC-PERP",
        MarketType::Perpetual,
        side,
        number(quantity),
        number("100"),
        false,
    )
}

fn lot(exchange: &str, side: Side, quantity: &str, source: u128) -> PaperLot {
    PaperLot {
        exchange: exchange.to_owned(),
        symbol: "BTC-USDC-PERP".to_owned(),
        market_type: MarketType::Perpetual,
        side,
        remaining_quantity: number(quantity),
        source_reservation_id: source,
    }
}

fn reservation(id: u128, task_id: &str, phase: PaperReservationPhase) -> PaperReservation {
    PaperReservation {
        reservation_id: id,
        task_id: task_id.to_owned(),
        phase,
        reconciliation_failed: false,
    }
}

fn account(reservations: Vec<PaperReservation>, open_lots: Vec<PaperLot>) -> PaperAccountSnapshot {
    PaperAccountSnapshot {
        projection_complete: true,
        available: number("1000"),
        settled_equity_base: number("990"),
        pending_reserved: Decimal::zero(),
        uncertain_reserved: Decimal::zero(),
        committed_exposure: Decimal::zero(),
        reservations,
        open_lots,
    }
}

fn costs() -> PaperCostModel {
    PaperCostModel::v1(10, 5, 15)
}

fn grid_config() -> GridPaperTaskConfig {
    GridPaperTaskConfig::new(" grid ", "paper", MarketType::Perpetual, number("2"), costs()).unwrap()
}

#[test]
fn a_grid_configuration_has_safe_identities_and_a_positive_quantity() {
    assert_eq!(grid_config().task_id(), "grid");
    let new = GridPaperTaskConfig::new;
    for (task, quantity) in [("", "1"), ("a b", "1"), ("grid", "0"), ("grid", "-1")] {
        assert_eq!(
            new(task, "paper", MarketType::Perpetual, number(quantity), costs()).unwrap_err(),
            GridPaperTaskError::InvalidConfig
        );
    }
    assert!(new(&"x".repeat(97), "paper", MarketType::Perpetual, number("1"), costs()).is_err());
    assert!(source_is_bound(&grid_config(), true, "BTC-USDC-PERP", "paper"));
    assert!(!source_is_bound(&grid_config(), true, "BTC-USDC-PERP", "elsewhere"));
    assert!(!source_is_bound(&grid_config(), false, "BTC-USDC-PERP", "paper"));
}

fn own(id: u128) -> PaperReservation {
    reservation(id, "grid/op/000001", PaperReservationPhase::Committed)
}

fn foreign(id: u128) -> PaperReservation {
    reservation(id, "other/op/000001", PaperReservationPhase::Committed)
}

#[test]
fn a_close_plan_covers_the_own_lots_only() {
    let config = grid_config();
    let plan = |snapshot: &PaperAccountSnapshot| {
        target_instrument_close_plan(snapshot, &config, "BTC-USDC-PERP")
    };
    let long = account(
        vec![own(1), own(2)],
        vec![lot("paper", Side::Buy, "2", 1), lot("paper", Side::Buy, "0.5", 2)],
    );
    let (side, quantity) = plan(&long).unwrap().unwrap();
    assert_eq!((side, quantity.to_text()), (Side::Sell, "2.5".to_owned()));
    assert!(plan(&account(Vec::new(), Vec::new())).unwrap().is_none());
    let mixed = account(
        vec![own(1), foreign(2)],
        vec![lot("paper", Side::Buy, "2", 1), lot("paper", Side::Buy, "1", 2)],
    );
    assert_eq!(plan(&mixed).unwrap_err(), GridPaperTaskError::RecoveryRequired);
    assert!(target_instrument_has_foreign_lots(&mixed, &config, "BTC-USDC-PERP").unwrap());
    assert!(!target_instrument_has_foreign_lots(&long, &config, "BTC-USDC-PERP").unwrap());
}

#[test]
fn account_risk_closes_at_the_touch() {
    let config = grid_config();
    let long = account(vec![own(1)], vec![lot("paper", Side::Buy, "2", 1)]);
    let seen = market("paper", "99", "101");
    match account_risk_exit(&long, &config, "BTC-USDC-PERP", Some(&seen)).unwrap() {
        AccountRiskExitAction::Close { side, quantity, price } => {
            assert_eq!(side, Side::Sell);
            assert_eq!((quantity.to_text(), price.to_text()), ("2".to_owned(), "99".to_owned()));
        }
        other => panic!("{other:?}"),
    }
    assert!(matches!(
        account_risk_exit(&account(Vec::new(), Vec::new()), &config, "BTC-USDC-PERP", None),
        Ok(AccountRiskExitAction::Stop)
    ));
    let directives = vec![
        AccountRiskDirective::ClosePosition { task_id: "other".to_owned() },
        AccountRiskDirective::CloseAllPositions { reason: "drawdown".to_owned() },
    ];
    assert_eq!(account_risk_exit_reason(&directives, "grid"), Some("drawdown".to_owned()));
    assert_eq!(account_risk_exit_reason(&Vec::new(), "grid"), None);
}

#[test]
fn a_crossed_level_is_reserved_at_the_worse_price() {
    let event = MarketDataEvent::Observation {
        snapshot: market("paper", "99", "101"),
        revision: 1,
        received_at: at(1),
    };
    assert_eq!(
        conservative_reservation_price(&event, Side::Buy, number("100")).to_text(),
        "101"
    );
    let (price, seen_at) =
        observation_view(&grid_config(), "BTC-USDC-PERP", &event).unwrap().unwrap();
    assert_eq!((price.to_text(), seen_at), ("100".to_owned(), at(1)));
    assert_eq!(entry_notional(&grid_config(), number("101")).unwrap().to_text(), "202");
    let candidate = entry_candidate(&grid_config(), "BTC-USDC-PERP", number("101")).unwrap();
    assert_eq!((candidate.task_id.as_str(), candidate.symbol.as_str()), ("grid", "BTC-USDC-PERP"));
    assert_eq!(candidate.notional.to_text(), "202");
    let config = grid_config().with_account_risk("risk-scope".to_owned());
    let request = build_operation(
        &config,
        "BTC-USDC-PERP",
        Side::Buy,
        number("100"),
        false,
        number("101"),
        4,
        5,
        FreshIds { batch_id: 6, reservation_id: 7 },
        Some(8),
    )
    .unwrap();
    assert_eq!(request.reservation().task_id, "grid/op/000004");
    let admission = request.reservation().admission.as_ref().unwrap();
    assert_eq!((admission.scope_id.as_str(), admission.ticket), ("risk-scope", 8));
    assert_eq!(request.reservation().cost_model, costs());
    assert_eq!(request.batch().intents[0].price.unwrap().to_text(), "100");
    assert_eq!(request.reservation().legs[0].notional.to_text(), "202");
}

#[test]
fn an_owner_resumes_only_from_a_settled_account() {
    let settled = account(vec![own(1)], Vec::new());
    assert_eq!(recovery_preflight("grid", &settled, None), Ok(1));
    assert_eq!(
        recovery_preflight(
            "grid",
            &settled,
            Some(EarlierTask { stopped: false, needs_recovery: false })
        ),
        Err(GridPaperTaskError::RecoveryRequired)
    );
    let pending = account(
        vec![
            reservation(3, "grid/op/000002", PaperReservationPhase::Pending),
            reservation(4, "other/op/000002", PaperReservationPhase::Pending),
        ],
        Vec::new(),
    );
    assert_eq!(
        recovery_preflight("grid", &pending, None),
        Err(GridPaperTaskError::RecoveryRequired)
    );
    assert_eq!(
        retain_active_capacity(
            trading_apps::operations::Ownership::Digits,
            &pending.reservations,
            "grid"
        ),
        vec![3]
    );
    let names = vec!["a".to_owned(), "grid".to_owned()];
    assert_eq!(durable_task_view(true, &names, "grid"), DurableTask::Found(1));
    assert_eq!(durable_task_view(true, &names, "none"), DurableTask::Missing);
    assert_eq!(durable_task_view(false, &names, "grid"), DurableTask::RecoveryRequired);
}

fn feed(owner: GridOwner, inputs: Vec<GridInput>) -> (GridOwner, GridAction) {
    let mut state = owner;
    let mut last = GridAction::Wait;
    for input in inputs {
        let (next, action) = state.step(input);
        state = next;
        last = action;
    }
    (state, last)
}

fn event() -> GridInput {
    GridInput::Event { observation: true, bound: true, signalled: false }
}

#[test]
fn a_grid_event_is_worked_off_level_by_level() {
    let owner = GridOwner::start(true, false, 10);
    let (owner, action) = feed(
        owner,
        vec![
            event(),
            GridInput::Done,
            GridInput::Risk(RiskExit::Continue),
            GridInput::Crossed(2),
            GridInput::Crossing(CrossingFound::Ready { reduce_only: false }),
        ],
    );
    assert!(matches!(action, GridAction::AdmitCrossing { level: 0 }));
    let (owner, action) = feed(owner, vec![GridInput::Admitted(true)]);
    assert!(matches!(
        action,
        GridAction::BuildCrossing { level: 0, sequence: 11, reduce_only: false, admitted: true }
    ));
    let (owner, action) = feed(
        owner,
        vec![
            GridInput::Done,
            GridInput::Outcome(OperationOutcome::Completed { stop_requested: false }),
            GridInput::Crossing(CrossingFound::Ready { reduce_only: true }),
        ],
    );
    assert!(matches!(
        action,
        GridAction::BuildCrossing { level: 1, sequence: 12, reduce_only: true, admitted: false }
    ));
    let (owner, action) = feed(
        owner,
        vec![
            GridInput::Done,
            GridInput::Outcome(OperationOutcome::Completed { stop_requested: true }),
            GridInput::Position(PositionFound::Open),
        ],
    );
    assert!(matches!(
        action,
        GridAction::AppendCheckpoint { counts }
            if counts.operation_count == 12 && counts.processed_event_count == 1
    ));
    let (owner, action) = feed(owner, vec![GridInput::Done]);
    assert!(matches!(
        action,
        GridAction::AppendStatus { phase: GridPaperTaskPhase::Stopping, .. }
    ));
    let (_, action) = feed(
        owner,
        vec![
            GridInput::Done,
            GridInput::SourceStopped { timed_out: false },
            GridInput::Done,
        ],
    );
    assert!(matches!(action, GridAction::Finish(Ok(GridPaperTaskExit::StopRequested))));
}

#[test]
fn every_crossed_level_is_its_own_numbered_operation() {
    let ready = || GridInput::Crossing(CrossingFound::Ready { reduce_only: false });
    let completed =
        |stop_requested| GridInput::Outcome(OperationOutcome::Completed { stop_requested });
    let (owner, _) = feed(
        GridOwner::start(true, false, 7),
        vec![event(), GridInput::Done, GridInput::Risk(RiskExit::Continue), GridInput::Crossed(3)],
    );
    let (owner, action) = feed(owner, vec![ready(), GridInput::Admitted(true)]);
    assert!(matches!(action, GridAction::BuildCrossing { level: 0, sequence: 8, .. }));
    let (owner, action) = feed(
        owner,
        vec![GridInput::Done, completed(false), ready(), GridInput::Admitted(false)],
    );
    assert!(matches!(action, GridAction::CheckCrossing { level: 2 }));
    let (owner, action) = feed(owner, vec![ready(), GridInput::Admitted(true)]);
    assert!(matches!(action, GridAction::BuildCrossing { level: 2, sequence: 9, .. }));
    let (_, action) = feed(owner, vec![GridInput::Done, completed(false)]);
    assert!(matches!(action, GridAction::CheckFlat));
}

#[test]
fn a_stop_before_the_last_crossed_level_needs_recovery() {
    let (owner, action) = feed(
        GridOwner::start(false, false, 0),
        vec![
            event(),
            GridInput::Done,
            GridInput::Crossed(2),
            GridInput::Crossing(CrossingFound::Ready { reduce_only: false }),
            GridInput::Done,
            GridInput::Outcome(OperationOutcome::Completed { stop_requested: true }),
        ],
    );
    assert!(matches!(action, GridAction::StopSource));
    let (_, action) =
        feed(owner, vec![GridInput::SourceStopped { timed_out: false }, GridInput::Done]);
    assert!(matches!(action, GridAction::Finish(Err(GridPaperTaskError::RecoveryRequired))));
}

#[test]
fn an_ended_source_ends_the_owner_only_when_it_is_flat() {
    let (owner, action) = feed(GridOwner::start(false, false, 0), vec![GridInput::SourceEnded]);
    assert!(matches!(action, GridAction::CheckFlat));
    let (_, action) = feed(
        owner,
        vec![
            GridInput::Position(PositionFound::Flat),
            GridInput::Done,
            GridInput::SourceStopped { timed_out: false },
            GridInput::Done,
        ],
    );
    assert!(matches!(action, GridAction::Finish(Ok(GridPaperTaskExit::SourceEnded))));
    let (owner, _) = feed(GridOwner::start(false, false, 0), vec![GridInput::SourceEnded]);
    let (_, action) = feed(
        owner,
        vec![
            GridInput::Position(PositionFound::Open),
            GridInput::SourceStopped { timed_out: false },
            GridInput::Done,
        ],
    );
    assert!(matches!(action, GridAction::Finish(Err(GridPaperTaskError::RecoveryRequired))));
}

#[test]
fn a_refused_reservation_keeps_the_lane_of_an_arbitrage_owner_closed() {
    let pending = |kind: &str| {
        account(
            vec![
                reservation(3, &format!("{kind}/op/000001"), PaperReservationPhase::Pending),
                reservation(4, &format!("{kind}/op/000002"), PaperReservationPhase::Committed),
                reservation(5, &format!("{kind}/op/000003"), PaperReservationPhase::Pending),
                reservation(6, "other/op/000001", PaperReservationPhase::Pending),
            ],
            Vec::new(),
        )
    };
    let drive = |kind: OwnerKind, answers: &[bool]| {
        let held = pending("task");
        let (mut retention, mut action) = CapacityRetention::start(kind, Some(&held), "task");
        let mut marked = Vec::new();
        for answer in answers {
            if let CapacityAction::MarkUncertain { reservation_id } = action {
                marked.push(reservation_id);
                (retention, action) = retention.answered(*answer);
            }
        }
        (marked, action)
    };
    for kind in [OwnerKind::Grid, OwnerKind::VolumeMaker] {
        assert_eq!(drive(kind, &[false, false]), (vec![3, 5], CapacityAction::ReleaseLane));
    }
    assert_eq!(
        drive(OwnerKind::Arbitrage, &[true, true]),
        (vec![3, 5], CapacityAction::ReleaseLane)
    );
    assert_eq!(
        drive(OwnerKind::Arbitrage, &[false, true]),
        (vec![3], CapacityAction::KeepLaneClosed)
    );
    let unread = |kind| CapacityRetention::start(kind, None, "task").1;
    assert_eq!(unread(OwnerKind::Grid), CapacityAction::ReleaseLane);
    assert_eq!(unread(OwnerKind::Arbitrage), CapacityAction::KeepLaneClosed);
    let mut failed = pending("task");
    failed.reservations[1].reconciliation_failed = true;
    assert_eq!(
        CapacityRetention::start(OwnerKind::Arbitrage, Some(&failed), "task").1,
        CapacityAction::KeepLaneClosed
    );
    assert!(OwnerKind::Grid.holds_lane() && !OwnerKind::VolumeMaker.holds_lane());
}

#[test]
fn a_held_grid_takes_no_level_and_repeats_no_record() {
    let freeze = || {
        GridInput::Directive(GridDirective::Hold(ProtectionSignature::Freeze {
            reason: "spike".to_owned(),
        }))
    };
    let owner = GridOwner::start(false, true, 0);
    let (owner, action) = feed(owner, vec![event(), GridInput::Done, freeze()]);
    assert!(matches!(action, GridAction::AppendProtection));
    let (owner, action) = feed(owner, vec![GridInput::Done]);
    assert!(matches!(action, GridAction::AppendCheckpoint { .. }));
    let (_, action) = feed(owner, vec![GridInput::Done, event(), GridInput::Done, freeze()]);
    assert!(matches!(action, GridAction::AppendCheckpoint { .. }));
}

#[test]
fn a_forced_close_is_recorded_before_it_runs() {
    let owner = GridOwner::start(true, false, 0);
    let (owner, action) =
        feed(owner, vec![event(), GridInput::Done, GridInput::Risk(RiskExit::Close)]);
    assert!(matches!(
        action,
        GridAction::BuildForcedClose { purpose: ForcedClose::RiskOnEvent, sequence: 1 }
    ));
    let (owner, action) = feed(owner, vec![GridInput::Done]);
    assert!(matches!(action, GridAction::AppendForcedClose { sequence: 1, .. }));
    let (owner, action) = feed(owner, vec![GridInput::Done]);
    assert!(matches!(action, GridAction::RunForcedClose));
    let (_, action) = feed(
        owner,
        vec![
            GridInput::Outcome(OperationOutcome::Completed { stop_requested: false }),
            GridInput::Position(PositionFound::Open),
            GridInput::Done,
        ],
    );
    assert!(matches!(
        action,
        GridAction::AppendStatus {
            failure: Some(GridPaperTaskFailure::RecoveryRequired),
            ..
        }
    ));
}

#[test]
fn a_failed_operation_fails_the_grid_owner() {
    let owner = GridOwner::start(false, false, 0);
    let (_, action) = feed(
        owner,
        vec![
            event(),
            GridInput::Done,
            GridInput::Crossed(1),
            GridInput::Crossing(CrossingFound::Ready { reduce_only: false }),
            GridInput::Done,
            GridInput::Outcome(OperationOutcome::Failed(SagaFailure::Execution)),
            GridInput::Retained(false),
            GridInput::Done,
            GridInput::Done,
        ],
    );
    assert!(matches!(
        action,
        GridAction::Finish(Err(GridPaperTaskError::Saga(SagaFailure::Execution)))
    ));
}

#[test]
fn a_stop_waits_for_the_running_operation() {
    let mut run = OperationRun::start(OperationRunPolicy::monitored(true));
    let (outcome, _) = run.observe(RunEvent::Stop { requested: true }, "grid");
    assert!(outcome.is_none());
    let (outcome, _) = run.observe(RunEvent::Ended(None), "grid");
    assert_eq!(outcome, Some(OperationOutcome::Completed { stop_requested: true }));
    let mut close = OperationRun::start(OperationRunPolicy::forced_close());
    let (outcome, _) = close.observe(RunEvent::DirectivesUnavailable, "grid");
    assert!(outcome.is_none());
    let (outcome, _) = close.observe(RunEvent::Deadline, "grid");
    assert_eq!(outcome, Some(OperationOutcome::TimedOut));
    let mut watched = OperationRun::start(OperationRunPolicy::monitored(true));
    let (outcome, reason) = watched.observe(
        RunEvent::Directives(vec![AccountRiskDirective::CloseAllPositions {
            reason: "loss".to_owned(),
        }]),
        "grid",
    );
    assert_eq!(outcome, Some(OperationOutcome::RiskInterrupted));
    assert_eq!(reason, Some("loss".to_owned()));
}

fn volume_config(mode: VolumeMakerMode) -> VolumeMakerPaperTaskConfig {
    VolumeMakerPaperTaskConfig::new(
        "volume",
        VolumeMakerStrategyConfig {
            exchange: "paper".to_owned(),
            symbol: "BTC-USDC-PERP".to_owned(),
            market_type: MarketType::Perpetual,
            mode,
            order_quantity: number("2"),
        },
        costs(),
    )
    .unwrap()
}

fn planned(kind: PlannedKind, side: Side) -> PlannedOperation {
    PlannedOperation { intent: intent("paper", side, "2"), kind, reference_price: number("100") }
}

fn filled(side: Side, price: &str) -> PaperSingleLegRun {
    PaperSingleLegRun::Completed {
        receipts: vec![TradingReceipt::Submitted {
            order: Order {
                id: "1".to_owned(),
                intent: intent("paper", side, "2"),
                status: OrderStatus::Filled,
                filled_quantity: number("2"),
                average_fill_price: Some(number(price)),
            },
            disposition: SubmissionDisposition::Filled,
        }],
    }
}

fn feed_volume(owner: VolumeOwner, inputs: Vec<VolumeInput>) -> (VolumeOwner, VolumeAction) {
    let mut state = owner;
    let mut last = VolumeAction::Wait;
    for input in inputs {
        let (next, action) = state.step(input);
        state = next;
        last = action;
    }
    (state, last)
}

fn observed(seconds: i64) -> VolumeInput {
    VolumeInput::Event {
        observed: ObservedEvent::Observation { at: at(seconds) },
        signalled: false,
    }
}

#[test]
fn a_volume_cycle_opens_closes_and_ends_at_its_bound() {
    let limits = CycleLimits {
        interval_seconds: 60,
        interval_nanos: 0,
        max_cycles: Some(1),
        target_volume: None,
    };
    let owner = VolumeOwner::start(false, limits, 0);
    let (owner, action) = feed_volume(
        owner,
        vec![
            observed(10),
            VolumeInput::Planned {
                operation: Some(planned(PlannedKind::Open, Side::Buy)),
                quote: None,
            },
        ],
    );
    assert!(matches!(action, VolumeAction::BuildRequest { sequence: 1, admitted: false }));
    let (owner, action) = feed_volume(
        owner,
        vec![
            VolumeInput::Done,
            VolumeInput::Ran { run: filled(Side::Buy, "100"), stop_requested: false },
        ],
    );
    assert!(matches!(
        action,
        VolumeAction::AppendCheckpoint { counts } if counts.completed_cycle_count == 0
    ));
    assert_eq!(owner.position.unwrap().quantity.to_text(), "2");
    let (owner, action) = feed_volume(
        owner,
        vec![
            VolumeInput::Done,
            observed(20),
            VolumeInput::Planned {
                operation: Some(planned(PlannedKind::Close, Side::Sell)),
                quote: None,
            },
            VolumeInput::Done,
            VolumeInput::Ran { run: filled(Side::Sell, "103"), stop_requested: false },
        ],
    );
    assert!(matches!(
        action,
        VolumeAction::AppendCheckpoint { counts } if counts.completed_cycle_count == 1
    ));
    assert_eq!(owner.next_cycle_at, Some(at(80)));
    assert!(owner.total_volume.equals(number("2")));
    assert_eq!(owner.bucket.as_ref().unwrap().buy_volume.to_text(), "2");
    assert!(owner.bucket.unwrap().realized_pnl.equals(number("6")));
    let (owner, action) = feed_volume(owner, vec![VolumeInput::Done]);
    assert!(matches!(
        action,
        VolumeAction::AppendStatistics { reason: StatisticsReason::Stop, .. }
    ));
    let (_, action) = feed_volume(
        owner,
        vec![
            VolumeInput::Done,
            VolumeInput::Done,
            VolumeInput::SourceStopped { timed_out: false },
            VolumeInput::Done,
        ],
    );
    assert!(matches!(
        action,
        VolumeAction::Finish(Ok(VolumeMakerPaperTaskExit::BoundsReached))
    ));
}

#[test]
fn an_hour_is_reported_when_the_next_one_begins() {
    let limits = CycleLimits {
        interval_seconds: 0,
        interval_nanos: 0,
        max_cycles: None,
        target_volume: None,
    };
    let owner = VolumeOwner::start(false, limits, 0);
    let (owner, _) = feed_volume(
        owner,
        vec![
            observed(3_500),
            VolumeInput::Planned {
                operation: Some(planned(PlannedKind::Open, Side::Buy)),
                quote: None,
            },
            VolumeInput::Done,
            VolumeInput::Ran { run: filled(Side::Buy, "100"), stop_requested: false },
            VolumeInput::Done,
        ],
    );
    let (_, action) = feed_volume(owner, vec![observed(3_601)]);
    assert!(matches!(
        action,
        VolumeAction::AppendStatistics { bucket, reason: StatisticsReason::HourRollover }
            if bucket.hour_start == at(0)
    ));
}

#[test]
fn a_standing_quote_is_crossed_by_the_market() {
    let config = volume_config(VolumeMakerMode::LimitBoth);
    let quote = standing_quote(&vec![
        limit_intent(
            1,
            "paper",
            "BTC-USDC-PERP",
            MarketType::Perpetual,
            Side::Buy,
            number("2"),
            number("99"),
            false,
        ),
        limit_intent(
            2,
            "paper",
            "BTC-USDC-PERP",
            MarketType::Perpetual,
            Side::Sell,
            number("2"),
            number("101"),
            false,
        ),
    ])
    .unwrap();
    assert_eq!((quote.bid.to_text(), quote.ask.to_text()), ("99".to_owned(), "101".to_owned()));
    let seen = market("paper", "97", "98");
    match plan_operation(
        &config,
        None,
        Some(StandingQuote { bid: number("99"), ask: number("101") }),
        None,
        &seen,
        at(1),
        5,
    ) {
        PlanStep::Execute(operation) => {
            assert_eq!(operation.intent.side, Side::Buy);
            assert_eq!(operation.intent.client_order_id, 5);
            assert!(matches!(operation.kind, PlannedKind::Open));
        }
        other => panic!("{other:?}"),
    }
    assert!(matches!(
        plan_operation(&config, None, None, Some(at(9)), &seen, at(1), 5),
        PlanStep::Rest
    ));
    let (operation, kept) = plan_evaluated(
        VolumeMakerMode::MarketImbalance,
        VolumeMakerState::Flat,
        None,
        &seen,
        StrategyAnswer::MissingMarketData,
    )
    .unwrap();
    assert!(operation.is_none() && kept.is_none());
}

#[test]
fn volume_statistics_are_written_as_plain_numbers() {
    let config = volume_config(VolumeMakerMode::MarketImbalance);
    let mut bucket = StatisticsBucket::new(at(0));
    assert!(bucket.is_empty());
    bucket.buy_volume = number("10.5");
    bucket.sell_volume = number("2");
    let record =
        statistics_record(&config, &bucket, StatisticsReason::HourRollover, at(5)).unwrap();
    assert_eq!(record.total_volume, "12.5");
    assert_eq!(record.bucket_start, Some("1970-01-01T00:00:00+00:00".to_owned()));
    assert_eq!(record.task_id, "volume");
    assert_eq!(receipt_fill_price(&Vec::new(), number("7")).to_text(), "7");
}

fn pair_market() -> ObservedMarketPair {
    ObservedMarketPair {
        left: market("left", "99", "100"),
        right: market("right", "103", "104"),
        observed_at: at(1),
    }
}

#[test]
fn a_pair_is_priced_and_bounded_by_its_book() {
    let pair = pair_market();
    let legs = vec![intent("left", Side::Buy, "2"), intent("right", Side::Sell, "2")];
    assert_eq!(matching_market(&pair, &legs[1]).unwrap().exchange, "right");
    assert_eq!(validate_liquidity(&pair, &legs), Ok(()));
    assert_eq!(
        validate_liquidity(&pair, &vec![intent("left", Side::Buy, "4"), intent("right", Side::Sell, "4")]),
        Err(ArbitragePaperTaskError::LiquidityRejected)
    );
    assert!(admission_notional(&pair, &legs).unwrap().is_positive());
    let config = ArbitragePaperTaskConfig::new(
        "arb",
        true,
        Some(number("1000")),
        true,
        HistoryDecisionConfig::Disabled,
        costs(),
    )
    .unwrap();
    let candidate = admission_candidate(&config, &pair, &legs).unwrap();
    assert_eq!((candidate.task_id.as_str(), candidate.symbol.as_str()), ("arb", "BTC-USDC-PERP"));
    assert!(candidate.notional.equals(admission_notional(&pair, &legs).unwrap()));
}

fn hedged_account() -> PaperAccountSnapshot {
    account(
        vec![reservation(1, "arb/op/000001", PaperReservationPhase::Committed)],
        vec![lot("left", Side::Buy, "2", 1), lot("right", Side::Sell, "2", 1)],
    )
}

#[test]
fn a_position_is_restored_from_its_own_lots_and_closed_in_full() {
    let restored = restore_state(&hedged_account(), "arb").unwrap();
    assert_eq!(restored.position_quantity.to_text(), "2");
    assert_eq!(restored.direction.as_ref().unwrap().buy_exchange, "left");
    let flat = restore_state(&account(Vec::new(), Vec::new()), "arb").unwrap();
    assert!(flat.position_quantity.is_zero() && flat.direction.is_none());
    let torn = account(
        vec![reservation(1, "arb/op/000001", PaperReservationPhase::Committed)],
        vec![lot("left", Side::Buy, "2", 1)],
    );
    assert_eq!(
        restore_state(&torn, "arb").unwrap_err(),
        ArbitragePaperTaskError::RecoveryRequired
    );
    let plan = build_forced_close_operation(
        "arb",
        costs(),
        &pair_market(),
        &restored,
        &hedged_account(),
        2,
        11,
        12,
        FreshIds { batch_id: 13, reservation_id: 14 },
    )
    .unwrap();
    assert!(plan.decision.target.position_quantity.is_zero());
    let spread = &plan.decision.spread;
    assert_eq!((spread.buy_exchange.as_str(), spread.sell_exchange.as_str()), ("left", "right"));
    assert_eq!(spread.buy_symbol, "BTC-USDC-PERP");
    assert!(plan.request.batch().intents.iter().all(|leg| leg.reduce_only));
    assert_eq!(plan.request.reservation().task_id, "arb/op/000002");
    assert_eq!(plan.request.reservation().cost_model, costs());
    assert!(plan.request.reservation().admission.is_none());
}

#[test]
fn the_risk_engine_sees_the_settled_equity() {
    let pair = pair_market();
    let intents = vec![intent("left", Side::Buy, "1"), intent("right", Side::Sell, "1")];
    let account = hedged_account();
    let restored = restore_state(&account, "arb").unwrap();
    let question = prepare_operation("arb", &pair, &restored, &account, &intents).unwrap();
    assert_eq!(question.account.equity.to_text(), "990");
    assert_eq!(question.account.available_balance.to_text(), "1000");
    assert!(!question.account.kill_switch);
    assert_eq!(question.account.timestamp, pair.observed_at);
    assert_eq!(question.observed_at, pair.observed_at);
    assert_eq!((question.intents.len(), question.positions.len()), (2, 2));
    assert_eq!(question.markets[0].exchange, pair.left.exchange);
    assert_eq!(question.markets[1].exchange, pair.right.exchange);
    let plain = ArbitragePaperTaskConfig::new(
        "arb",
        true,
        Some(number("1000")),
        true,
        HistoryDecisionConfig::Disabled,
        costs(),
    )
    .unwrap();
    let ids = FreshIds { batch_id: 13, reservation_id: 14 };
    let build = |config: &ArbitragePaperTaskConfig, authorized: bool, ticket: Option<u128>| {
        build_pair(config, &pair, &restored, &account, &intents, authorized, ticket, 3, ids)
    };
    assert_eq!(
        build(&plain, false, None).unwrap_err(),
        ArbitragePaperTaskError::RiskRejected
    );
    assert_eq!(
        build(&plain, true, Some(8)).unwrap_err(),
        ArbitragePaperTaskError::RecoveryRequired
    );
    let request = build(&plain, true, None).unwrap();
    assert!(request.reservation().admission.is_none());
    assert_eq!(request.reservation().cost_model, costs());
    let scoped = plain.with_account_risk("risk-scope".to_owned());
    let request = build(&scoped, true, Some(8)).unwrap();
    let admission = request.reservation().admission.as_ref().unwrap();
    assert_eq!((admission.scope_id.as_str(), admission.ticket), ("risk-scope", 8));
}

#[test]
fn lots_of_another_owner_block_a_reduction() {
    let mixed = account(
        vec![
            reservation(1, "arb/op/000001", PaperReservationPhase::Committed),
            reservation(2, "other/op/000001", PaperReservationPhase::Committed),
        ],
        vec![lot("left", Side::Buy, "2", 2)],
    );
    assert_eq!(
        ensure_operation_fifo_isolation(&mixed, "arb", &vec![intent("left", Side::Sell, "1")]),
        Err(ArbitragePaperTaskError::RecoveryRequired)
    );
    assert_eq!(
        ensure_operation_fifo_isolation(
            &hedged_account(),
            "arb",
            &vec![intent("left", Side::Sell, "1")]
        ),
        Ok(())
    );
    let mut failed = hedged_account();
    assert_eq!(account_decision_snapshot(&failed), Ok(()));
    failed.reservations[0].reconciliation_failed = true;
    assert_eq!(
        account_decision_snapshot(&failed),
        Err(ArbitragePaperTaskError::RecoveryRequired)
    );
}

fn flat() -> ArbitrageState {
    ArbitrageState { position_quantity: Decimal::zero(), direction: None }
}

fn feed_pair(
    owner: ArbitrageOwner,
    inputs: Vec<ArbitrageInput>,
) -> (ArbitrageOwner, ArbitrageAction) {
    let mut state = owner;
    let mut last = ArbitrageAction::Wait;
    for input in inputs {
        let (next, action) = state.step(input);
        state = next;
        last = action;
    }
    (state, last)
}

fn opportunity() -> Vec<ArbitrageInput> {
    vec![
        ArbitrageInput::Event { signalled: false },
        ArbitrageInput::Done,
        ArbitrageInput::Monitored {
            scope: Some(PlanScope::Full),
            pair: true,
            sample: SampleFound::Taken,
        },
        ArbitrageInput::Done,
    ]
}

#[test]
fn an_opportunity_in_flight_is_coalesced_and_planned_afterwards() {
    let (owner, first) = ArbitrageOwner::start(false, 0);
    assert!(matches!(first, ArbitrageAction::RestoreState));
    let (owner, action) = feed_pair(owner, vec![ArbitrageInput::Restored(flat())]);
    assert!(matches!(action, ArbitrageAction::Wait));
    let (owner, action) = feed_pair(owner, opportunity());
    assert!(matches!(action, ArbitrageAction::ReadGate));
    let (owner, action) = feed_pair(
        owner,
        vec![
            ArbitrageInput::Gate(GateFound::Open),
            ArbitrageInput::Decided(Some(ArbitrageDecisionKind::Open)),
            ArbitrageInput::Done,
        ],
    );
    assert!(matches!(action, ArbitrageAction::BuildOperation { sequence: 1, admitted: false }));
    let target = ArbitrageState { position_quantity: number("2"), direction: None };
    let (owner, action) = feed_pair(
        owner,
        vec![ArbitrageInput::Built { target, signalled: false }, ArbitrageInput::Done],
    );
    assert!(matches!(action, ArbitrageAction::Wait));
    assert!(owner.in_flight.is_some());
    let (owner, action) = feed_pair(owner, opportunity());
    assert!(matches!(action, ArbitrageAction::Wait));
    assert_eq!(owner.status.coalesced_opportunity_count, 1);
    let (owner, action) =
        feed_pair(owner, vec![ArbitrageInput::Operation(OperationResult::Completed)]);
    assert!(matches!(action, ArbitrageAction::ReadGate));
    assert_eq!(owner.position.position_quantity.to_text(), "2");
    assert!(owner.in_flight.is_none());
}

#[test]
fn a_stopped_pair_owner_records_its_end() {
    let (owner, _) = ArbitrageOwner::start(false, 0);
    let (owner, action) = feed_pair(
        owner,
        vec![ArbitrageInput::Restored(flat()), ArbitrageInput::Signal { cancel: false }],
    );
    assert!(matches!(
        action,
        ArbitrageAction::AppendStatus { phase: ArbitragePaperTaskPhase::Stopping, .. }
    ));
    let (owner, action) = feed_pair(
        owner,
        vec![ArbitrageInput::Done, ArbitrageInput::SourcesStopped { timed_out: false }],
    );
    let (_, action) = match action {
        ArbitrageAction::RestoreState => {
            feed_pair(owner, vec![ArbitrageInput::Restored(flat()), ArbitrageInput::Done])
        }
        ArbitrageAction::AppendStatus { .. } => feed_pair(owner, vec![ArbitrageInput::Done]),
        other => panic!("{other:?}"),
    };
    assert!(matches!(
        action,
        ArbitrageAction::Finish(Ok(ArbitragePaperTaskExit::StopRequested))
    ));
    assert!(ArbitragePaperTaskPhase::Stopped.is_terminal());
    assert!(!VolumeMakerPaperTaskPhase::Running.is_terminal());
    assert!(GridPaperTaskPhase::Failed.is_terminal());
}

#[test]
fn an_arbitrage_configuration_needs_valid_parts() {
    let new = |task: &str, strategy: bool, risk: bool, history: HistoryDecisionConfig| {
        ArbitragePaperTaskConfig::new(task, strategy, Some(number("1000")), risk, history, costs())
            .map(|config| config.is_history_gated())
    };
    assert_eq!(new("arb", true, true, HistoryDecisionConfig::Disabled), Ok(false));
    assert_eq!(
        new(
            "arb",
            true,
            true,
            HistoryDecisionConfig::Enabled { valid: true, spread_history_path: None }
        ),
        Ok(true)
    );
    for (strategy, risk, valid) in [(false, true, true), (true, false, true), (true, true, false)] {
        assert_eq!(
            new(
                "arb",
                strategy,
                risk,
                HistoryDecisionConfig::Enabled { valid, spread_history_path: None }
            ),
            Err(ArbitragePaperTaskError::Strategy)
        );
    }
    assert_eq!(
        new("", true, true, HistoryDecisionConfig::Disabled),
        Err(ArbitragePaperTaskError::InvalidConfig)
    );
    assert_eq!(
        ArbitragePaperTaskConfig::new(
            "arb",
            true,
            None,
            true,
            HistoryDecisionConfig::Disabled,
            costs(),
        )
        .unwrap_err(),
        ArbitragePaperTaskError::InvalidConfig
    );
    assert_eq!(
        ArbitragePaperTaskError::Journal.failure_bucket(),
        ArbitragePaperTaskFailure::JournalUnavailable
    );
}

#[test]
fn a_source_starts_only_after_its_owner_is_registered() {
    let plan = StartPlan { ensure_account: true, backfill: false, two_sources: false };
    let (_, refused) = start(false, GridPaperTaskError::InvalidSourceBinding);
    assert!(matches!(
        refused,
        StartAction::Finish { error: Some(GridPaperTaskError::InvalidSourceBinding), .. }
    ));
    let (stage, action) = start(true, GridPaperTaskError::InvalidSourceBinding);
    assert!(matches!(action, StartAction::RunPreflight));
    let (stage, action) = advance_start(plan, stage, StartInput::Preflighted { sequence: 4 });
    assert!(matches!(action, StartAction::EnsureAccount));
    let (stage, action) = advance_start(plan, stage, StartInput::Done);
    assert!(matches!(action, StartAction::AppendRegistered));
    let (stage, action) = advance_start(plan, stage, StartInput::Done);
    assert!(matches!(action, StartAction::StartFirstSource));
    let (_, action) =
        advance_start(plan, stage, StartInput::Failed { error: GridPaperTaskError::Source });
    assert!(matches!(action, StartAction::AppendStartupFailure));
}

#[test]
fn a_handle_keeps_what_the_owner_came_to() {
    let handle = GridPaperTask::started();
    let (handle, action) = handle.stop();
    assert!(matches!(
        action,
        HandleAction::Join { signal: Some(FinishRequest::Stop), bounded: true }
    ));
    let (handle, action) = handle.advance(HandleInput::Joined {
        outcome: JoinOutcome::Returned(Ok(GridPaperTaskExit::SourceEnded)),
        leased: false,
    });
    assert!(matches!(
        action,
        HandleAction::Return { result: Ok(GridPaperTaskExit::SourceEnded), .. }
    ));
    let (_, action) = handle.cancel();
    assert!(matches!(
        action,
        HandleAction::Return { signal: None, result: Ok(GridPaperTaskExit::SourceEnded) }
    ));
    let (slow, _) = GridPaperTask::started().request(FinishRequest::Stop);
    let (slow, action) = slow.advance(HandleInput::TimedOut);
    assert!(matches!(action, HandleAction::AbortOwner));
    let (slow, action) = slow.advance(HandleInput::Done);
    assert!(matches!(action, HandleAction::RetainCapacity));
    let (slow, action) = slow.advance(HandleInput::Done);
    assert!(matches!(action, HandleAction::RecordFailure));
    let (_, action) = slow.advance(HandleInput::Done);
    assert!(matches!(
        action,
        HandleAction::Return { result: Err(GridPaperTaskError::ShutdownTimedOut), .. }
    ));
}

#[test]
fn a_lifecycle_record_names_its_task() {
    let record = lifecycle_record(
        "grid",
        "grid_paper",
        "task_failed",
        "failed",
        3,
        None,
        Some(trading_apps::paper_grid_task::task_failure_label(
            GridPaperTaskFailure::RecoveryRequired,
        )),
        at(1),
    );
    assert_eq!(record.strategy, "read_only_task");
    assert_eq!(record.failure, Some("recovery_required"));
    assert_eq!(record.processed_event_count, 3);
}
