//! What the owners write, build and are told.

use trading_apps::arbitrage_owner::{ArbitrageInput, GateFound, PlanScope, SampleFound};
use trading_apps::arbitrage_plan::ArbitrageDecisionKind;
use trading_apps::decimal::Decimal;
use trading_apps::domain::{
    ExchangeError, MarketDataEvent, MarketSnapshot, MarketType, Order, OrderStatus, OrderType,
    RemoteFailure, RemoteRetryAfter, Side, SubmissionDisposition, TimeInForce, TradingReceipt,
};
use trading_apps::grid_owner::{CrossingFound, ForcedClose, GridInput, PositionFound, RiskExit};
use trading_apps::live_lifecycle::{
    admission_truth, cancelled_order, order_status_label, outcome_unknown_details,
    should_defer_cancel_confirmation, submitted_order, valid_campaign_id, valid_wire_symbol,
    weigh_admission, AssetBalance, ForeignOpenOrder, LiveAdmissionRefusal, LiveLifecycleConfig,
    LiveLifecycleError, LiveLifecycleObservation, OwnOpenOrder,
};
use trading_apps::monitor::{ArbitrageMonitorOutcome, MarketInstrument, MeasuredSpread, Spread};
use trading_apps::owner_inputs::{
    arbitrage_decided, arbitrage_gate, arbitrage_monitored, arbitrage_risk, demand_step,
    arbitrage_directive_record, event_plan_scope, grid_crossing, grid_directive_record,
    grid_event, grid_position, grid_risk, read_demand, volume_directive_record, volume_risk,
    DemandAction, DemandInput, DemandStage, RiskDemand,
};
use trading_apps::paper_account::{
    PaperAccountSnapshot, PaperLot, PaperReservation, PaperReservationPhase,
};
use trading_apps::paper_admission::{reservation_phase, PaperAdmissionCompensationError};
use trading_apps::paper_arbitrage_saga::{intent_summary, receipt_summary};
use trading_apps::paper_arbitrage_task::{
    ArbitragePaperTaskConfig, ArbitragePaperTaskError, ArbitragePaperTaskExit,
    ArbitragePaperTaskFailure, ArbitragePaperTaskPhase, ArbitragePaperTaskStatus,
    ArbitrageSagaFailure, HistoryDecisionConfig, HistoryDecisionKind, OperationResult,
    SpreadSample,
};
use trading_apps::paper_grid_task::{
    account_risk_directive_record, build_protection_operation,
    build_target_instrument_close_operation, external_failure_status, forced_close_record,
    protection_inputs, protection_record, reference_price_text, status_record,
    AccountRiskDirective, AccountRiskExitAction, GridPaperTaskConfig, GridPaperTaskError,
    GridPaperTaskExit, GridPaperTaskFailure, GridPaperTaskPhase, GridPaperTaskStatus, SagaFailure,
    ScalpOrder,
};
use trading_apps::paper_task::{
    placeholder_source_value, registered_record, source_exit_label, source_health_label,
    source_phase_label, startup_failure_record, MarketSupervisorExit, MarketSupervisorHealth,
    MarketSupervisorPhase,
};
use trading_apps::paper_volume_maker_task::{
    bounds_reached, build_request, consume_run, open_candidate, open_notional, CycleLimits, CycleState,
    OpenPosition, PlannedKind, PlannedOperation, StandingQuote, StatisticsBucket, VolumeMakerMode,
    VolumeMakerPaperTaskConfig, VolumeMakerPaperTaskError, VolumeMakerPaperTaskPhase,
    VolumeMakerStrategyConfig,
};
use trading_apps::paper_single_leg_saga::PaperSingleLegRun;
use trading_apps::requests::{limit_intent, FreshIds, PaperCostModel};
use trading_apps::timestamp::Timestamp;
use trading_apps::volume_owner::VolumeInput;

const SYMBOL: &str = "BTC-USDC-PERP";

fn number(text: &str) -> Decimal {
    Decimal::parse(text).unwrap()
}

/// Some values carry texts and are compared as they are shown.
fn alike<T: std::fmt::Debug>(found: T, expected: T) {
    assert_eq!(format!("{found:?}"), format!("{expected:?}"));
}

fn at(seconds: i64) -> Timestamp {
    Timestamp::from_parts(seconds, 0)
}

fn market(bid: &str, ask: &str) -> MarketSnapshot {
    MarketSnapshot {
        exchange: "paper".to_owned(),
        symbol: SYMBOL.to_owned(),
        market_type: MarketType::Perpetual,
        bid: number(bid),
        ask: number(ask),
        last: None,
        mid_price: number("100"),
        bid_quantity: None,
        ask_quantity: None,
        timestamp: at(1),
    }
}

fn costs() -> PaperCostModel {
    PaperCostModel::v1(10, 5, 15)
}

fn config() -> GridPaperTaskConfig {
    GridPaperTaskConfig::new("grid", "paper", MarketType::Perpetual, number("2"), costs()).unwrap()
}

fn account(reservations: Vec<PaperReservation>, open_lots: Vec<PaperLot>) -> PaperAccountSnapshot {
    PaperAccountSnapshot {
        projection_complete: true,
        available: number("700"),
        settled_equity_base: number("990"),
        pending_reserved: number("100"),
        uncertain_reserved: number("50"),
        committed_exposure: number("150"),
        reservations,
        open_lots,
    }
}

fn reservation(id: u128, task_id: &str, phase: PaperReservationPhase) -> PaperReservation {
    PaperReservation {
        reservation_id: id,
        task_id: task_id.to_owned(),
        phase,
        reconciliation_failed: false,
    }
}

fn lot(side: Side, quantity: &str, source: u128) -> PaperLot {
    PaperLot {
        exchange: "paper".to_owned(),
        symbol: SYMBOL.to_owned(),
        market_type: MarketType::Perpetual,
        side,
        remaining_quantity: number(quantity),
        source_reservation_id: source,
    }
}

fn long() -> PaperAccountSnapshot {
    account(
        vec![reservation(1, "grid/op/000001", PaperReservationPhase::Committed)],
        vec![lot(Side::Buy, "3", 1)],
    )
}

fn ids() -> FreshIds {
    FreshIds { batch_id: 10, reservation_id: 11 }
}

#[test]
fn a_forced_close_is_written_with_its_number() {
    let record = forced_close_record(
        &config(),
        SYMBOL,
        ForcedClose::RiskOnPoll.trigger(),
        Side::Sell,
        number("3"),
        number("99.5"),
        7,
        at(5),
    );
    assert_eq!(record.strategy, "grid");
    assert_eq!(record.symbol, SYMBOL);
    assert_eq!(record.decision, "grid_forced_close_planned");
    assert_eq!(record.schema_version, 1);
    assert_eq!(record.task_id, "grid");
    assert_eq!(record.task_kind, "grid_paper");
    assert_eq!(record.trigger, "risk-close");
    assert_eq!(record.side, "sell");
    assert_eq!(record.quantity, "3");
    assert_eq!(record.price, "99.5");
    assert_eq!((record.operation_sequence, record.operation_count), (7, 7));
    assert_eq!(record.recorded_at, at(5));
    assert_eq!(ForcedClose::RiskOnEvent.trigger(), "risk-close");
    assert_eq!(ForcedClose::Reset.trigger(), "protection-close");
    assert_eq!(ForcedClose::Exit.trigger(), "protection-close");
}

#[test]
fn a_protection_record_shows_the_order_of_a_scalp() {
    let frozen = protection_record(
        "grid",
        SYMBOL,
        "freeze_entries",
        Some("price_lock".to_owned()),
        None,
        number("101"),
        at(2),
    );
    assert_eq!(frozen.strategy, "grid_protection");
    assert_eq!(frozen.decision, "freeze_entries");
    assert_eq!(frozen.reason.as_deref(), Some("price_lock"));
    assert_eq!(frozen.price, "101");
    assert_eq!((frozen.side, frozen.quantity, frozen.take_profit_price), (None, None, None));
    let order = ScalpOrder {
        side: Side::Sell,
        quantity: number("0.5"),
        take_profit_price: number("110"),
    };
    let scalped = protection_record("grid", SYMBOL, "scalp", None, Some(order), number("101"), at(2));
    assert_eq!(scalped.side, Some("sell"));
    assert_eq!(scalped.quantity.as_deref(), Some("0.5"));
    assert_eq!(scalped.take_profit_price.as_deref(), Some("110"));
}

#[test]
fn a_directive_is_written_with_the_price_that_was_seen() {
    assert_eq!(reference_price_text(None), "unavailable");
    let mut seen = market("99", "101");
    assert_eq!(reference_price_text(Some(&seen)), "100");
    seen.last = Some(number("100.25"));
    assert_eq!(reference_price_text(Some(&seen)), "100.25");
    let record =
        account_risk_directive_record("grid", "grid_paper", SYMBOL, "kill_switch", "100.25", at(3));
    assert_eq!(record.strategy, "account_risk");
    assert_eq!(record.decision, "account_risk_directive_exit");
    assert_eq!(record.schema_version, 1);
    assert_eq!((record.task_id.as_str(), record.task_kind), ("grid", "grid_paper"));
    assert_eq!((record.reason.as_str(), record.price.as_str()), ("kill_switch", "100.25"));
}

#[test]
fn every_owner_files_its_directive_under_its_own_kind() {
    let mut seen = market("99", "101");
    seen.last = Some(number("100.25"));
    let grid = grid_directive_record(&config(), SYMBOL, Some(&seen), "kill_switch", at(3));
    assert_eq!((grid.task_kind, grid.symbol.as_str()), ("grid_paper", SYMBOL));
    assert_eq!(grid.price, "100.25");
    let unseen = grid_directive_record(&config(), SYMBOL, None, "kill_switch", at(3));
    assert_eq!(unseen.price, "unavailable");
    let volume = volume_directive_record(&volume_config(), &seen, "kill_switch", at(3));
    assert_eq!((volume.task_kind, volume.symbol.as_str()), ("volume_maker", SYMBOL));
    assert_eq!((volume.task_id.as_str(), volume.price.as_str()), ("maker", "100"));
    let pair = ArbitragePaperTaskConfig::new(
        "pair",
        true,
        Some(number("1000")),
        true,
        HistoryDecisionConfig::Disabled,
        costs(),
    )
    .unwrap();
    let left = MarketInstrument {
        exchange: "a".to_owned(),
        symbol: SYMBOL.to_owned(),
        market_type: MarketType::Perpetual,
    };
    let arbitrage = arbitrage_directive_record(&pair, &left, "kill_switch", at(3));
    assert_eq!((arbitrage.task_kind, arbitrage.symbol.as_str()), ("arbitrage_paper", SYMBOL));
    assert_eq!((arbitrage.reason.as_str(), arbitrage.price.as_str()), ("kill_switch", ""));
    let decision = trading_apps::paper_grid_task::phase_decision;
    assert_eq!(decision(GridPaperTaskPhase::Stopping), "task_stopping");
    assert_eq!(decision(GridPaperTaskPhase::Failed), "task_failed");
    let decision = trading_apps::paper_arbitrage_task::phase_decision;
    assert_eq!(decision(ArbitragePaperTaskPhase::Running), "task_running");
    let decision = trading_apps::paper_volume_maker_task::phase_decision;
    assert_eq!(decision(VolumeMakerPaperTaskPhase::Stopped), "task_stopped");
}

#[test]
fn a_close_reduces_and_a_scalp_does_not_have_to() {
    let close = build_target_instrument_close_operation(
        &config(),
        SYMBOL,
        "risk-close",
        Side::Sell,
        number("3"),
        number("99"),
        7,
        42,
        ids(),
    )
    .unwrap();
    let intent = &close.batch().intents[0];
    assert!(intent.reduce_only);
    assert_eq!(intent.client_order_id, 42);
    assert_eq!(intent.order_type, OrderType::Limit);
    assert_eq!(intent.side, Side::Sell);
    assert_eq!(close.batch().id, 10);
    assert_eq!(close.reservation().reservation_id, 11);
    assert_eq!(close.reservation().task_id, "grid/op/000007");
    assert_eq!(close.reservation().idempotency_key, "risk-close:000007");
    assert_eq!(close.reservation().legs[0].notional.to_text(), "297");
    let scalp = build_protection_operation(
        &config(),
        SYMBOL,
        Side::Sell,
        number("0.5"),
        number("110"),
        8,
        43,
        ids(),
    )
    .unwrap();
    assert!(!scalp.batch().intents[0].reduce_only);
    assert_eq!(scalp.reservation().task_id, "grid/op/000008");
    assert_eq!(scalp.reservation().idempotency_key, "scalp:000008");
    assert_eq!(scalp.reservation().legs[0].notional.to_text(), "55.0");
    let huge = build_protection_operation(
        &config(),
        SYMBOL,
        Side::Sell,
        number("79228162514264337593543950335"),
        number("79228162514264337593543950335"),
        9,
        44,
        ids(),
    );
    assert!(matches!(huge, Err(GridPaperTaskError::InvalidRequest)));
}

#[test]
fn protection_sees_the_position_the_equity_and_the_pace() {
    let inputs = protection_inputs(&long(), &config(), SYMBOL, 4).unwrap();
    assert_eq!(inputs.position_quantity.to_text(), "3");
    assert_eq!(inputs.current_collateral.to_text(), "1000");
    assert_eq!(inputs.cycles_per_hour.to_text(), "24");
    let short = account(
        vec![reservation(1, "grid/op/000001", PaperReservationPhase::Committed)],
        vec![lot(Side::Sell, "3", 1)],
    );
    let inputs = protection_inputs(&short, &config(), SYMBOL, 0).unwrap();
    assert_eq!(inputs.position_quantity.to_text(), "-3");
    let flat = protection_inputs(&account(vec![], vec![]), &config(), SYMBOL, 0).unwrap();
    assert!(flat.position_quantity.is_zero());
}

fn grid_status() -> GridPaperTaskStatus {
    GridPaperTaskStatus {
        schema_version: 1,
        task_id: "grid".to_owned(),
        phase: GridPaperTaskPhase::Running,
        processed_event_count: 5,
        operation_count: 2,
        last_recorded_at: Some(at(20)),
        exit: Some(GridPaperTaskExit::SourceEnded),
        failure: None,
        runtime_failure: Some(GridPaperTaskFailure::SourceContract),
    }
}

#[test]
fn an_owner_that_died_is_recorded_as_failed() {
    let failed =
        external_failure_status(grid_status(), GridPaperTaskFailure::TaskPanicked, at(10));
    assert_eq!(failed.phase, GridPaperTaskPhase::Failed);
    assert_eq!(failed.failure, Some(GridPaperTaskFailure::TaskPanicked));
    assert_eq!((failed.exit, failed.runtime_failure), (None, None));
    assert_eq!(failed.last_recorded_at, Some(at(20)));
    assert_eq!((failed.processed_event_count, failed.operation_count), (5, 2));
    let record = status_record(&failed, "task_failed", at(20));
    assert_eq!((record.strategy, record.symbol), ("read_only_task", "control-plane"));
    assert_eq!(record.decision, "task_failed");
    assert_eq!(record.phase, "failed");
    assert_eq!(record.failure, Some("task_panicked"));
    assert_eq!(record.exit, None);
    assert_eq!(record.processed_event_count, 5);
    let pair = trading_apps::paper_arbitrage_task::external_failure_status(
        ArbitragePaperTaskStatus {
            schema_version: 1,
            task_id: "pair".to_owned(),
            phase: ArbitragePaperTaskPhase::Running,
            processed_event_count: 1,
            operation_count: 1,
            coalesced_opportunity_count: 1,
            last_recorded_at: None,
            exit: Some(ArbitragePaperTaskExit::StopRequested),
            failure: None,
            runtime_failure: None,
        },
        ArbitragePaperTaskFailure::TaskCancelled,
        at(10),
    );
    assert_eq!(pair.last_recorded_at, Some(at(10)));
    let record =
        trading_apps::paper_arbitrage_task::status_record(&pair, "task_failed", at(10));
    assert_eq!(record.task_kind, "arbitrage_paper");
    assert_eq!(record.failure, Some("task_cancelled"));
}

#[test]
fn a_start_is_recorded_with_a_source_that_has_not_spoken() {
    let registered = registered_record("grid", "grid_paper", at(4));
    assert_eq!(registered.decision, "task_registered");
    assert_eq!(registered.phase, "registered");
    assert_eq!(registered.processed_event_count, 0);
    assert_eq!((registered.exit, registered.failure), (None, None));
    let failed = startup_failure_record("grid", "grid_paper", at(3), at(4));
    assert_eq!(failed.decision, "task_failed");
    assert_eq!(failed.phase, "failed");
    assert_eq!(failed.failure, Some("startup_failed"));
    assert_eq!(failed.recorded_at, at(4));
    let source = placeholder_source_value("paper", 3);
    assert_eq!(source.source_id, "paper");
    assert_eq!(source.schema_version, 3);
    assert_eq!(source_phase_label(source.phase), "starting");
    assert_eq!(source_health_label(source.health), "unknown");
    assert_eq!((source.task_id, source.last_event_at, source.exit), (None, None, None));
    assert_eq!(source_phase_label(MarketSupervisorPhase::Stopped), "stopped");
    assert_eq!(source_health_label(MarketSupervisorHealth::Degraded), "degraded");
    assert_eq!(
        source_exit_label(MarketSupervisorExit::ReconnectExhausted),
        "reconnect_exhausted"
    );
    assert_eq!(
        source_exit_label(MarketSupervisorExit::ShutdownTimedOut),
        "shutdown_timed_out"
    );
}

#[test]
fn a_failed_saga_tells_the_owner_what_failed() {
    let grid = trading_apps::paper_grid_task::classify_saga_error;
    assert_eq!(grid(SagaFailure::Account), GridPaperTaskFailure::AccountContract);
    assert_eq!(grid(SagaFailure::Journal), GridPaperTaskFailure::JournalUnavailable);
    assert_eq!(grid(SagaFailure::Incomplete), GridPaperTaskFailure::ExecutionIncomplete);
    assert_eq!(grid(SagaFailure::Execution), GridPaperTaskFailure::ExecutionFailed);
    assert_eq!(grid(SagaFailure::RecoveryRequired), GridPaperTaskFailure::RecoveryRequired);
    assert_eq!(grid(SagaFailure::InvalidRequest), GridPaperTaskFailure::InvalidRequest);
    let pair = trading_apps::paper_arbitrage_task::classify_saga_error;
    assert_eq!(
        pair(ArbitrageSagaFailure::Journal),
        ArbitragePaperTaskFailure::JournalUnavailable
    );
    let done = trading_apps::paper_arbitrage_task::complete_operation;
    assert_eq!(done(OperationResult::Completed), Ok(()));
    assert_eq!(
        done(OperationResult::AlreadyCompleted),
        Err(ArbitragePaperTaskError::RecoveryRequired)
    );
    assert_eq!(done(OperationResult::Panicked), Err(ArbitragePaperTaskError::TaskPanicked));
    assert_eq!(done(OperationResult::Cancelled), Err(ArbitragePaperTaskError::TaskCancelled));
    let from = GridPaperTaskError::from_compensation;
    assert_eq!(from(PaperAdmissionCompensationError::Account), GridPaperTaskError::Account);
    assert_eq!(
        from(PaperAdmissionCompensationError::AccountRisk),
        GridPaperTaskError::AccountRisk
    );
    assert_eq!(
        from(PaperAdmissionCompensationError::RecoveryRequired),
        GridPaperTaskError::RecoveryRequired
    );
}

#[test]
fn a_demand_counts_once_it_is_recorded() {
    let (stage, action) = read_demand();
    alike(action, DemandAction::ReadDirectives);
    let directives = vec![
        AccountRiskDirective::ClosePosition { task_id: "other".to_owned() },
        AccountRiskDirective::CloseAllPositions { reason: "kill_switch".to_owned() },
    ];
    let (stage, action) = demand_step("grid", stage, DemandInput::Directives(Some(directives)));
    alike(action, DemandAction::AppendDirective { reason: "kill_switch".to_owned() });
    alike(
        demand_step("grid", stage, DemandInput::Appended(true)).1,
        DemandAction::Finish(RiskDemand::Recorded)
    );
    alike(
        demand_step("grid", DemandStage::Append, DemandInput::Appended(false)).1,
        DemandAction::Finish(RiskDemand::Unrecorded)
    );
    let read = |found| demand_step("grid", DemandStage::Directives, found).1;
    alike(
        read(DemandInput::Directives(None)),
        DemandAction::Finish(RiskDemand::Unavailable)
    );
    alike(
        read(DemandInput::Directives(Some(vec![]))),
        DemandAction::Finish(RiskDemand::Absent)
    );
    let expired = vec![AccountRiskDirective::ClosePosition { task_id: "grid".to_owned() }];
    alike(
        read(DemandInput::Directives(Some(expired))),
        DemandAction::AppendDirective { reason: "position_duration_exceeded".to_owned() }
    );
}

#[test]
fn a_grid_owner_is_told_what_account_risk_demands() {
    let seen = market("99", "101");
    let told = |demand, account: Option<&PaperAccountSnapshot>, market| {
        grid_risk(demand, account, &config(), SYMBOL, market)
    };
    let (input, exit) = told(RiskDemand::Absent, None, None);
    alike(input, GridInput::Risk(RiskExit::Continue));
    alike(exit, None);
    let flat = account(vec![], vec![]);
    let (input, _) = told(RiskDemand::Recorded, Some(&flat), None);
    alike(input, GridInput::Risk(RiskExit::Stop));
    let held = long();
    let (input, exit) = told(RiskDemand::Recorded, Some(&held), Some(&seen));
    alike(input, GridInput::Risk(RiskExit::Close));
    match exit {
        Some(AccountRiskExitAction::Close { side, quantity, price }) => {
            alike(side, Side::Sell);
            assert_eq!(quantity.to_text(), "3");
            assert_eq!(price.to_text(), "99");
        }
        other => panic!("no close: {other:?}"),
    }
    let (input, _) = told(RiskDemand::Recorded, Some(&held), None);
    alike(input, GridInput::Failed(GridPaperTaskError::RecoveryRequired));
    let (input, _) = told(RiskDemand::Recorded, None, Some(&seen));
    alike(input, GridInput::Failed(GridPaperTaskError::Account));
    let (input, _) = told(RiskDemand::Unavailable, Some(&held), Some(&seen));
    alike(input, GridInput::Failed(GridPaperTaskError::AccountRisk));
    let (input, _) = told(RiskDemand::Unrecorded, Some(&held), Some(&seen));
    alike(input, GridInput::Failed(GridPaperTaskError::Journal));
    let busy = account(
        vec![reservation(1, "other/op/000001", PaperReservationPhase::Pending)],
        vec![],
    );
    let (input, _) = told(RiskDemand::Recorded, Some(&busy), Some(&seen));
    alike(input, GridInput::Failed(GridPaperTaskError::RecoveryRequired));
}

#[test]
fn a_grid_owner_is_told_what_it_holds() {
    let busy = account(
        vec![reservation(1, "grid/op/000001", PaperReservationPhase::Uncertain)],
        vec![],
    );
    let told = |account: Option<&PaperAccountSnapshot>, settled_only| {
        grid_position(account, settled_only, &config(), SYMBOL)
    };
    alike(told(Some(&long()), true), PositionFound::Open);
    alike(told(Some(&account(vec![], vec![])), true), PositionFound::Flat);
    alike(told(None, true), PositionFound::Unread(GridPaperTaskError::Account));
    alike(
        told(Some(&busy), true),
        PositionFound::Unread(GridPaperTaskError::RecoveryRequired)
    );
    alike(told(Some(&busy), false), PositionFound::Flat);
    let crossing = |signalled, account: Option<&PaperAccountSnapshot>, side| {
        grid_crossing(signalled, account, &config(), SYMBOL, side)
    };
    alike(crossing(true, None, Side::Buy), CrossingFound::Signalled);
    alike(
        crossing(false, None, Side::Buy),
        CrossingFound::Unread(GridPaperTaskError::Account)
    );
    let held = long();
    alike(
        crossing(false, Some(&held), Side::Sell),
        CrossingFound::Ready { reduce_only: true }
    );
    alike(
        crossing(false, Some(&held), Side::Buy),
        CrossingFound::Ready { reduce_only: false }
    );
    let foreign = account(
        vec![reservation(1, "other/op/000001", PaperReservationPhase::Committed)],
        vec![lot(Side::Buy, "3", 1)],
    );
    alike(crossing(false, Some(&foreign), Side::Sell), CrossingFound::Foreign);
}

#[test]
fn a_grid_event_says_whether_it_is_of_the_owners_instrument() {
    let observation = MarketDataEvent::Observation {
        snapshot: market("99", "101"),
        revision: 1,
        received_at: at(2),
    };
    alike(
        grid_event(&config(), SYMBOL, &observation, false),
        GridInput::Event { observation: true, bound: true, signalled: false }
    );
    alike(
        grid_event(&config(), "ETH-USDC-PERP", &observation, true),
        GridInput::Event { observation: true, bound: false, signalled: true }
    );
    let gap = MarketDataEvent::SourceGap { exchange: "paper".to_owned(), observed_at: at(2) };
    assert!(matches!(
        grid_event(&config(), SYMBOL, &gap, false),
        GridInput::Event { observation: false, .. }
    ));
}

fn measured() -> MeasuredSpread {
    MeasuredSpread {
        spread: Spread {
            buy_exchange: "a".to_owned(),
            sell_exchange: "b".to_owned(),
            buy_price: number("100"),
            sell_price: number("101"),
            absolute: number("1"),
            percent: number("1"),
        },
        threshold_percent: number("0.5"),
    }
}

#[test]
fn the_other_owners_are_told_what_they_asked() {
    assert!(matches!(volume_risk(RiskDemand::Absent), VolumeInput::Risk(false)));
    assert!(matches!(volume_risk(RiskDemand::Recorded), VolumeInput::Risk(true)));
    assert!(matches!(
        volume_risk(RiskDemand::Unavailable),
        VolumeInput::Failed(VolumeMakerPaperTaskError::AccountRisk)
    ));
    assert!(matches!(
        volume_risk(RiskDemand::Unrecorded),
        VolumeInput::Failed(VolumeMakerPaperTaskError::Journal)
    ));
    assert!(matches!(arbitrage_risk(RiskDemand::Recorded), ArbitrageInput::Risk(true)));
    assert!(matches!(
        arbitrage_risk(RiskDemand::Unrecorded),
        ArbitrageInput::Failed(ArbitragePaperTaskError::Journal)
    ));
    let open = ArbitrageMonitorOutcome::Opportunity(measured());
    let closed = ArbitrageMonitorOutcome::NoOpportunity(measured());
    assert_eq!(event_plan_scope(&open), Some(PlanScope::Full));
    assert_eq!(event_plan_scope(&closed), Some(PlanScope::ReduceOnly));
    let sample: Result<Option<SpreadSample>, ()> = Err(());
    assert!(matches!(
        arbitrage_monitored(&open, true, true, &sample, false),
        ArbitrageInput::Monitored {
            scope: Some(PlanScope::Full),
            pair: true,
            sample: SampleFound::Overflow,
        }
    ));
    assert!(matches!(
        arbitrage_monitored(&closed, false, false, &sample, false),
        ArbitrageInput::Monitored {
            scope: Some(PlanScope::ReduceOnly),
            pair: false,
            sample: SampleFound::Taken,
        }
    ));
    assert_eq!(arbitrage_gate(true, false, None), GateFound::Signalled);
    assert_eq!(arbitrage_gate(false, false, None), GateFound::Open);
    assert_eq!(arbitrage_gate(false, true, None), GateFound::Closed);
    assert_eq!(
        arbitrage_gate(false, true, Some(HistoryDecisionKind::Hold)),
        GateFound::Closed
    );
    assert_eq!(arbitrage_gate(false, true, Some(HistoryDecisionKind::Open)), GateFound::Open);
    assert!(matches!(
        arbitrage_decided(ArbitrageDecisionKind::Open, 0),
        ArbitrageInput::Decided(None)
    ));
    assert!(matches!(
        arbitrage_decided(ArbitrageDecisionKind::Reduce, 2),
        ArbitrageInput::Decided(Some(ArbitrageDecisionKind::Reduce))
    ));
}

fn volume_config() -> VolumeMakerPaperTaskConfig {
    VolumeMakerPaperTaskConfig::new(
        "maker",
        VolumeMakerStrategyConfig {
            exchange: "paper".to_owned(),
            symbol: SYMBOL.to_owned(),
            market_type: MarketType::Perpetual,
            mode: VolumeMakerMode::LimitBoth,
            order_quantity: number("2"),
        },
        costs(),
    )
    .unwrap()
}

fn planned(kind: PlannedKind, side: Side) -> PlannedOperation {
    PlannedOperation {
        intent: limit_intent(
            5,
            "paper",
            SYMBOL,
            MarketType::Perpetual,
            side,
            number("2"),
            number("100"),
            kind == PlannedKind::Close,
        ),
        kind,
        reference_price: number("100.5"),
    }
}

#[test]
fn a_volume_operation_is_reserved_at_its_reference_price() {
    let config = volume_config()
        .with_account_risk()
        .with_cycle_interval(3, 500)
        .with_max_cycles(4)
        .with_target_volume(number("9"));
    assert!(config.has_account_risk());
    let limits = config.limits();
    assert_eq!((limits.interval_seconds, limits.interval_nanos), (3, 500));
    assert_eq!(limits.max_cycles, Some(4));
    assert_eq!(limits.target_volume.unwrap().to_text(), "9");
    let operation = planned(PlannedKind::Open, Side::Buy);
    assert_eq!(open_notional(&operation).unwrap().to_text(), "201.0");
    let candidate = open_candidate(&config, &operation).unwrap();
    assert_eq!((candidate.task_id.as_str(), candidate.symbol.as_str()), ("maker", SYMBOL));
    assert_eq!(candidate.notional.to_text(), "201.0");
    let request = build_request(&config, &operation, 12, ids()).unwrap();
    assert_eq!(request.symbol(), SYMBOL);
    assert_eq!(request.reservation().task_id, "maker/op/000012");
    assert_eq!(request.reservation().idempotency_key, "volume:000012");
    assert!(request.reservation().admission.is_none());
    assert_eq!(request.reservation().cost_model, costs());
    let mut other = planned(PlannedKind::Open, Side::Buy);
    other.intent.symbol = "ETH-USDC-PERP".to_owned();
    assert_eq!(
        build_request(&config, &other, 12, ids()).unwrap_err(),
        VolumeMakerPaperTaskError::Saga(SagaFailure::InvalidRequest)
    );
    assert_eq!(request.reservation().legs[0].notional.to_text(), "201.0");
    assert_eq!(request.batch().intents[0].client_order_id, 5);
}

#[test]
fn a_bound_is_reached_by_cycles_or_by_volume() {
    let bounds = |max_cycles, target: Option<&str>| CycleLimits {
        interval_seconds: 0,
        interval_nanos: 0,
        max_cycles,
        target_volume: target.map(number),
    };
    assert!(!bounds_reached(bounds(None, None), u64::MAX, number("1000")));
    assert!(!bounds_reached(bounds(Some(2), None), 1, number("1000")));
    assert!(bounds_reached(bounds(Some(2), None), 2, Decimal::zero()));
    assert!(!bounds_reached(bounds(None, Some("5")), 9, number("4.9")));
    assert!(bounds_reached(bounds(None, Some("5")), 0, number("5.0")));
}

fn cycle(position: Option<OpenPosition>) -> CycleState {
    CycleState {
        position,
        quote: Some(StandingQuote { bid: number("99"), ask: number("101") }),
        bucket: StatisticsBucket::new(at(0)),
        total_volume: Decimal::zero(),
    }
}

#[test]
fn a_closed_cycle_realises_its_result() {
    let close = planned(PlannedKind::Close, Side::Sell);
    let run = PaperSingleLegRun::Completed { receipts: vec![] };
    let held = OpenPosition { side: Side::Buy, quantity: number("2"), open_price: number("90") };
    let (state, completed) = consume_run(cycle(Some(held)), &close, &run).unwrap();
    assert!(completed);
    assert!(state.position.is_none());
    assert_eq!(state.bucket.completed_cycles, 1);
    assert_eq!(state.bucket.realized_pnl.to_text(), "21.0");
    assert!(consume_run(cycle(None), &close, &run).is_err());
    let open = planned(PlannedKind::Open, Side::Buy);
    let (state, completed) = consume_run(cycle(None), &open, &run).unwrap();
    assert!(!completed);
    assert!(state.quote.is_none());
    assert_eq!(state.position.unwrap().open_price.to_text(), "100.5");
}

fn order(status: OrderStatus) -> Order {
    Order {
        id: "server-1".to_owned(),
        intent: limit_intent(
            5,
            "paper",
            SYMBOL,
            MarketType::Perpetual,
            Side::Buy,
            number("2"),
            number("100"),
            false,
        ),
        status,
        filled_quantity: Decimal::zero(),
        average_fill_price: None,
    }
}

#[test]
fn a_receipt_is_held_to_the_request() {
    let submitted = || TradingReceipt::Submitted {
        order: order(OrderStatus::Open),
        disposition: SubmissionDisposition::Open,
    };
    let cancelled = |count: usize| TradingReceipt::Cancelled {
        orders: (0..count).map(|_| order(OrderStatus::Cancelled)).collect(),
    };
    assert_eq!(submitted_order(submitted()).unwrap().id, "server-1");
    assert!(matches!(submitted_order(cancelled(1)), Err(ExchangeError::InvalidRequest)));
    assert_eq!(cancelled_order(cancelled(1)).unwrap().status, OrderStatus::Cancelled);
    assert!(matches!(cancelled_order(submitted()), Err(ExchangeError::InvalidRequest)));
    assert!(matches!(cancelled_order(cancelled(0)), Err(ExchangeError::InvalidRequest)));
    assert!(matches!(cancelled_order(cancelled(2)), Err(ExchangeError::InvalidRequest)));
    assert_eq!(order_status_label(OrderStatus::PartiallyFilled), "partially_filled");
    let summary = receipt_summary(&vec![submitted(), cancelled(1), submitted()]);
    assert_eq!(summary.receipt_count, 3);
    assert_eq!((summary.open, summary.filled), (2, 0));
    assert_eq!((summary.cancelled, summary.already_processed), (1, 0));
    assert!(!summary.receipts_truncated);
    let many = receipt_summary(&(0..65).map(|_| submitted()).collect());
    assert_eq!((many.receipt_count, many.receipts.len()), (65, 64));
    assert!(many.receipts_truncated);
    assert_eq!(intent_summary(1, &order(OrderStatus::Open).intent).index, 1);
}

#[test]
fn an_unknown_outcome_shows_what_the_venue_said() {
    let remote = |status, retry_after| {
        ExchangeError::RemoteFailure(RemoteFailure {
            status,
            exchange_code: Some("-1003".to_owned()),
            retry_after,
            server_time: Some(at(9)),
        })
    };
    let limited = remote(Some(429), Some(RemoteRetryAfter::Seconds(30)));
    let details = outcome_unknown_details(&limited);
    assert_eq!(details.failure, "remote_failure");
    assert_eq!(details.http_status, Some(429));
    assert_eq!(details.exchange_code.as_deref(), Some("-1003"));
    assert_eq!(details.retry_after, Some(RemoteRetryAfter::Seconds(30)));
    assert_eq!(details.server_time, Some(at(9)));
    let plain = outcome_unknown_details(&ExchangeError::AmbiguousOutcome);
    assert_eq!(plain.failure, "ambiguous_outcome");
    assert_eq!((plain.http_status, plain.exchange_code, plain.server_time), (None, None, None));
    assert!(should_defer_cancel_confirmation(&limited));
    assert!(should_defer_cancel_confirmation(&remote(Some(418), None)));
    assert!(should_defer_cancel_confirmation(&remote(
        Some(500),
        Some(RemoteRetryAfter::At(at(9)))
    )));
    assert!(!should_defer_cancel_confirmation(&remote(Some(500), None)));
    assert!(!should_defer_cancel_confirmation(&ExchangeError::Unavailable));
}

#[test]
fn admission_is_weighed_on_the_venues_own_truth() {
    let mut intent = order(OrderStatus::Open).intent;
    intent.exchange = "binance".to_owned();
    intent.symbol = "BTC-USDT-SPOT".to_owned();
    intent.market_type = MarketType::Spot;
    intent.time_in_force = TimeInForce::Gtc;
    let config = LiveLifecycleConfig::new(
        "campaign-1".to_owned(),
        intent,
        "BTCUSDT".to_owned(),
        LiveLifecycleObservation::Open,
        1_000_000_000,
        4,
        number("1000"),
        false,
    )
    .unwrap();
    assert_eq!(config.wire_symbol(), "BTCUSDT");
    let truth = admission_truth(
        "BTC-USDT-SPOT",
        "BTC",
        "USDT",
        &vec![
            AssetBalance { asset: "BTC".to_owned(), available_balance: number("1") },
            AssetBalance { asset: "USDT".to_owned(), available_balance: number("199") },
        ],
        &vec![OwnOpenOrder { symbol: "BTC-USDT-SPOT".to_owned(), client_order_id: 5 }],
        &vec![
            ForeignOpenOrder { symbol: "BTC-USDT-SPOT".to_owned(), client_order_id: None },
            ForeignOpenOrder {
                symbol: "ETH-USDT-SPOT".to_owned(),
                client_order_id: Some("x".to_owned()),
            },
        ],
    );
    assert_eq!(truth.free_base_quantity.to_text(), "1");
    assert_eq!(truth.free_quote_amount.to_text(), "199");
    assert_eq!(truth.open_order_client_ids.len(), 2);
    let (fact, refusal) = weigh_admission(&config, &truth);
    assert_eq!(fact.notional.to_text(), "200");
    assert_eq!(fact.open_orders_on_symbol, 2);
    assert_eq!(fact.foreign_open_orders, 1);
    assert_eq!(refusal, Some(LiveAdmissionRefusal::InsufficientQuoteBalance));
    assert!(valid_campaign_id("campaign-1") && !valid_campaign_id("a b"));
    assert!(valid_wire_symbol("BTCUSDT") && !valid_wire_symbol("btcusdt"));
    assert_eq!(config.with_wire_symbol("ETHUSDT".to_owned()).unwrap().wire_symbol(), "ETHUSDT");
    let again = LiveLifecycleConfig::new(
        "campaign-1".to_owned(),
        order(OrderStatus::Open).intent,
        "BTCUSDT".to_owned(),
        LiveLifecycleObservation::Open,
        1_000_000_000,
        4,
        number("1000"),
        false,
    );
    assert!(matches!(again, Err(LiveLifecycleError::InvalidConfig)));
}

#[test]
fn a_reservation_is_found_by_its_identity() {
    let held = vec![
        reservation(1, "a", PaperReservationPhase::Committed),
        reservation(2, "b", PaperReservationPhase::Pending),
    ];
    assert_eq!(reservation_phase(&held, 2), Some(PaperReservationPhase::Pending));
    assert_eq!(reservation_phase(&held, 3), None);
}
