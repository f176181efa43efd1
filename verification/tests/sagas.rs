//! Journal-first sagas, their requests, and what keeps or releases capacity.

use trading_apps::decimal::Decimal;
use trading_apps::domain::{
    MarketType, Order, OrderIntent, OrderStatus, OrderType, Position, PositionSide, Side,
    SubmissionDisposition, TimeInForce, TradingReceipt,
};
use trading_apps::paper_account::PaperReservationPhase;
use trading_apps::paper_admission::{
    discard_planned_admission, retain_cancelled_reservation, retention_step,
    PaperAdmissionCompensationError, RetentionAction, RetentionInput,
};
use trading_apps::paper_arbitrage_saga::{
    classify_existing as classify_pair, execution_error_summary, ArbitrageSagaAction,
    ArbitrageSagaInput, DurablePaperArbitrageSaga, ExecutionBatchState, ExecutionErrorSummary, PairDetails,
    PaperArbitrageRecoveryStage, PaperArbitrageRequest, PaperArbitrageRun,
    PaperArbitrageSagaError, PartialExecution, ReconciliationObservation,
    ReconciliationReceipt, ReconciliationSummary, RecoveryEvidence, RuntimeFailure,
};
use trading_apps::paper_single_leg_saga::{
    bounded_error, classify_existing, DurablePaperSingleLegSaga, PaperSingleLegRequest,
    PaperSingleLegRun, PaperSingleLegSagaError, Settlement, SingleLegAction, SingleLegDetails,
    SingleLegInput,
};
use trading_apps::requests::{
    gross_notional, leg_for, limit_intent, single_leg_operation, ExecutionBatch, FreshIds,
    OperationFlaw, PaperCostModel, PaperReservationRequest, PaperReservationView,
};
use trading_apps::timestamp::Timestamp;

const BATCH: u128 = 0x0f3c_807d_776f_4de4_85d0_9376_0a82_dfcf;

fn number(text: &str) -> Decimal {
    Decimal::parse(text).unwrap()
}

fn intent(exchange: &str, side: Side) -> OrderIntent {
    limit_intent(
        7,
        exchange,
        "BTC-USDC-PERP",
        MarketType::Perpetual,
        side,
        number("2"),
        number("50"),
        false,
    )
}

fn receipt(order: &OrderIntent, filled: &str, status: OrderStatus) -> TradingReceipt {
    TradingReceipt::Submitted {
        order: Order {
            id: "1".to_owned(),
            intent: order.copy(),
            status,
            filled_quantity: number(filled),
            average_fill_price: None,
        },
        disposition: if status == OrderStatus::Filled {
            SubmissionDisposition::Filled
        } else if status == OrderStatus::Cancelled {
            SubmissionDisposition::Cancelled
        } else {
            SubmissionDisposition::Open
        },
    }
}

fn single() -> PaperSingleLegRequest {
    single_leg_operation(
        "grid",
        "grid",
        3,
        "BTC-USDC-PERP",
        intent("paper", Side::Buy),
        number("51"),
        FreshIds { batch_id: BATCH, reservation_id: 9 },
        PaperCostModel::v1(10, 5, 15),
        Some("risk-scope"),
        Some(77),
    )
    .unwrap()
}

#[test]
fn an_operation_reserves_its_notional_under_its_own_identity() {
    let request = single();
    assert_eq!(request.reservation().task_id, "grid/op/000003");
    assert_eq!(request.reservation().idempotency_key, "grid:000003");
    assert_eq!(request.reservation().legs[0].notional.to_text(), "102");
    assert_eq!(request.batch().intents[0].order_type, OrderType::Limit);
    assert_eq!(request.batch().intents[0].time_in_force, TimeInForce::Gtc);
    assert_eq!(request.symbol(), "BTC-USDC-PERP");
    let admission = request.reservation().admission.as_ref().unwrap();
    assert_eq!((admission.scope_id.as_str(), admission.ticket), ("risk-scope", 77));
    let costs = request.reservation().cost_model;
    assert_eq!((costs.version, costs.fee_bps), (1, 10));
    assert_eq!((costs.funding_buffer_bps, costs.slippage_bps), (5, 15));
    let flaw = |symbol: &str, price: &str| {
        single_leg_operation(
            "grid",
            "grid",
            3,
            symbol,
            intent("paper", Side::Buy),
            number(price),
            FreshIds { batch_id: BATCH, reservation_id: 9 },
            PaperCostModel::v1(10, 5, 15),
            None,
            Some(77),
        )
        .map(|request| request.reservation().admission.is_some())
    };
    assert_eq!(flaw("BTC-USDC-PERP", "1"), Ok(false));
    assert_eq!(flaw("ETH-USDC-PERP", "1"), Err(OperationFlaw::OtherSymbol));
    assert_eq!(
        flaw("ETH-USDC-PERP", "79228162514264337593543950335"),
        Err(OperationFlaw::Notional)
    );
}

/// The reservation as the account holds it, under an identity of its own.
fn held() -> PaperReservationView {
    PaperReservationView {
        reservation_id: 90,
        task_id: "held/op/000001".to_owned(),
        idempotency_key: "held:000001".to_owned(),
        cost_model: PaperCostModel { version: 4, ..PaperCostModel::v1(1, 2, 3) },
    }
}

fn run_single(execution: Result<Vec<TradingReceipt>, String>) -> (Vec<String>, Settlement) {
    let saga = DurablePaperSingleLegSaga::new(single(), true).unwrap();
    let mut seen = Vec::new();
    let mut settled = Settlement::MarkUncertain;
    let (mut stage, mut action) = saga.run();
    let expected = execution.as_ref().map_or(0, Vec::len);
    let mut answer = Some(execution);
    loop {
        seen.push(format!("{action:?}").split([' ', '(']).next().unwrap().to_owned());
        let input = match action {
            SingleLegAction::Reserve { reservation_id } => {
                assert_eq!(reservation_id, 9);
                SingleLegInput::Reserved(held())
            }
            SingleLegAction::AppendPlanned(plan) => {
                assert_eq!((plan.strategy, plan.saga), ("grid", "paper_single_leg_saga"));
                assert_eq!(plan.schema_version, 1);
                assert_eq!(plan.symbol, "BTC-USDC-PERP");
                assert_eq!((plan.batch_id, plan.reservation_id), (BATCH, 90));
                assert_eq!(plan.task_id, "held/op/000001");
                assert_eq!(plan.idempotency_key, "held:000001");
                assert_eq!(plan.cost_model_version, 4);
                assert_eq!(plan.legs.len(), 1);
                assert_eq!(plan.legs[0].index, 0);
                assert_eq!(plan.legs[0].intent.exchange, "paper");
                SingleLegInput::Appended(true)
            }
            SingleLegAction::AppendOutcome(outcome) => {
                assert_eq!((outcome.strategy, outcome.symbol.as_str()), ("grid", "BTC-USDC-PERP"));
                match outcome.details {
                    SingleLegDetails::Receipts { batch_id, receipts } => {
                        assert_eq!((batch_id, receipts.len()), (BATCH, expected));
                        assert_ne!(outcome.decision, "execution_failed");
                    }
                    SingleLegDetails::Failed { batch_id, error } => {
                        assert_eq!((batch_id, error.as_str()), (BATCH, "venue gone"));
                        assert_eq!(outcome.decision, "execution_failed");
                    }
                }
                SingleLegInput::Appended(true)
            }
            SingleLegAction::Execute { batch_id } => {
                assert_eq!(batch_id, BATCH);
                SingleLegInput::Executed(answer.take().unwrap())
            }
            SingleLegAction::Settle { reservation_id, settlement } => {
                assert_eq!(reservation_id, 90);
                settled = settlement;
                SingleLegInput::Settled(true)
            }
            SingleLegAction::Finish(_) => return (seen, settled),
        };
        let (next, asked) = saga.step(stage, input);
        stage = next;
        action = asked;
    }
}

#[test]
fn a_single_leg_is_planned_before_it_is_executed_and_settled_after() {
    let request = single();
    let order = &request.batch().intents[0];
    let steps = ["Reserve", "AppendPlanned", "Execute", "AppendOutcome", "Settle", "Finish"];
    let (seen, settled) = run_single(Ok(vec![receipt(order, "2", OrderStatus::Filled)]));
    assert_eq!(seen, steps);
    assert!(matches!(settled, Settlement::Commit { amount } if amount.to_text() == "102"));
    let (_, settled) = run_single(Ok(vec![receipt(order, "0", OrderStatus::Cancelled)]));
    assert!(matches!(settled, Settlement::Release { reason: "single_leg_cancelled" }));
    let (_, settled) = run_single(Ok(vec![receipt(order, "1", OrderStatus::Open)]));
    assert!(matches!(settled, Settlement::MarkUncertain));
    let (_, settled) = run_single(Ok(Vec::new()));
    assert!(matches!(settled, Settlement::MarkUncertain));
    let (_, settled) = run_single(Err("venue gone".to_owned()));
    assert!(matches!(settled, Settlement::MarkUncertain));
}

#[test]
fn a_plan_that_is_not_durable_is_never_executed() {
    let saga = DurablePaperSingleLegSaga::new(single(), true).unwrap();
    let (stage, _) = saga.run();
    let (stage, _) = saga.step(stage, SingleLegInput::Reserved(held()));
    let (_, action) = saga.step(stage, SingleLegInput::Appended(false));
    assert!(matches!(
        action,
        SingleLegAction::Finish(Err(PaperSingleLegSagaError::Journal))
    ));
    assert!(DurablePaperSingleLegSaga::new(single(), false).is_err());
}

#[test]
fn a_known_reservation_is_classified_and_not_executed_again() {
    assert!(matches!(
        classify_existing(BATCH, PaperReservationPhase::Committed),
        Ok(PaperSingleLegRun::AlreadyTerminal { .. })
    ));
    let error = classify_existing(BATCH, PaperReservationPhase::Uncertain).unwrap_err();
    assert_eq!(
        error.message(""),
        "single-leg paper batch 0f3c807d-776f-4de4-85d0-93760a82dfcf is Uncertain; reconciliation is required"
    );
    assert_eq!(PaperSingleLegSagaError::Account.message("no funds"), "no funds");
    assert_eq!(
        PaperSingleLegSagaError::Incomplete(Vec::new()).message(""),
        "single-leg paper execution returned 0 unproven receipt(s)"
    );
}

#[test]
fn an_error_text_is_cut_between_characters() {
    let text = "\u{e9}".repeat(1_025);
    assert_eq!(bounded_error(&text).len(), 2_048);
    assert_eq!(bounded_error("short"), "short");
}

fn pair_reservation(legs: Vec<OrderIntent>) -> (ExecutionBatch, PaperReservationRequest) {
    let reservation = PaperReservationRequest {
        reservation_id: 9,
        task_id: "arb/op/000001".to_owned(),
        idempotency_key: "arb:000001".to_owned(),
        batch_id: BATCH,
        legs: legs
            .iter()
            .enumerate()
            .map(|(index, leg)| leg_for(index, leg, number("100")))
            .collect(),
        cost_model: PaperCostModel::v1(10, 5, 15),
        admission: None,
    };
    (ExecutionBatch { id: BATCH, intents: legs }, reservation)
}

fn pair() -> PaperArbitrageRequest {
    let (batch, reservation) =
        pair_reservation(vec![intent("left", Side::Buy), intent("right", Side::Sell)]);
    PaperArbitrageRequest::new("BTC-USDC-PERP".to_owned(), batch, reservation).unwrap()
}

fn pair_flaw(legs: Vec<OrderIntent>) -> String {
    let (batch, reservation) = pair_reservation(legs);
    PaperArbitrageRequest::new("BTC-USDC-PERP".to_owned(), batch, reservation)
        .unwrap_err()
        .message("")
}

#[test]
fn a_pair_has_two_exchanges_and_two_sides() {
    assert_eq!(pair().batch().intents.len(), 2);
    assert_eq!(
        pair_flaw(vec![intent("left", Side::Buy)]),
        "invalid paper arbitrage request: paper arbitrage saga requires exactly two legs"
    );
    assert_eq!(
        pair_flaw(vec![intent("left", Side::Buy), intent("left", Side::Sell)]),
        "invalid paper arbitrage request: paper arbitrage legs must target distinct exchanges"
    );
    assert_eq!(
        pair_flaw(vec![intent("left", Side::Buy), intent("right", Side::Buy)]),
        "invalid paper arbitrage request: paper arbitrage legs must contain one buy and one sell"
    );
    let (batch, mut reservation) =
        pair_reservation(vec![intent("left", Side::Buy), intent("right", Side::Sell)]);
    reservation.batch_id = 1;
    assert!(
        PaperArbitrageRequest::new("BTC-USDC-PERP".to_owned(), batch, reservation).is_err()
    );
}

#[test]
fn a_pair_commits_only_when_both_legs_are_proven() {
    let saga = DurablePaperArbitrageSaga::new(pair(), true).unwrap();
    let drive = |result: Result<Vec<TradingReceipt>, RuntimeFailure>| {
        let (stage, _) = saga.run();
        let (stage, _) = saga.step(stage, ArbitrageSagaInput::Reserved(held()));
        let (stage, _) = saga.step(stage, ArbitrageSagaInput::Appended(true));
        let (stage, outcome) = saga.step(stage, ArbitrageSagaInput::Executed(result));
        let (decision, details) = match outcome {
            ArbitrageSagaAction::AppendOutcome(outcome) => {
                assert_eq!(outcome.strategy, "arbitrage");
                assert_eq!(outcome.symbol, "BTC-USDC-PERP");
                (outcome.decision, outcome.details)
            }
            other => panic!("{other:?}"),
        };
        match &details {
            PairDetails::Completed { batch_id, summary } => {
                assert_eq!((decision, *batch_id), ("execution_completed", BATCH));
                assert_eq!((summary.receipt_count, summary.filled), (2, 2));
            }
            PairDetails::Incomplete { batch_id, expected_receipt_count, summary } => {
                assert_eq!((decision, *batch_id), ("execution_incomplete", BATCH));
                assert_eq!(*expected_receipt_count, 2);
                assert_eq!(summary.receipts.len(), summary.receipt_count);
            }
            PairDetails::Failed(summary) => {
                assert_eq!(decision, "execution_failed");
                assert!(matches!(
                    summary,
                    ExecutionErrorSummary::Failed { batch_id: BATCH, error } if error == "venue gone"
                ));
            }
        }
        let (stage, settle) = saga.step(stage, ArbitrageSagaInput::Appended(true));
        let settlement = match settle {
            ArbitrageSagaAction::Settle { reservation_id: 90, settlement } => settlement,
            other => panic!("{other:?}"),
        };
        let (_, last) = saga.step(stage, ArbitrageSagaInput::Settled(true));
        match last {
            ArbitrageSagaAction::Finish(result) => (settlement, result),
            other => panic!("{other:?}"),
        }
    };
    let request = pair();
    let filled = |index: usize| receipt(&request.batch().intents[index], "2", OrderStatus::Filled);
    let (settlement, result) = drive(Ok(vec![filled(0), filled(1)]));
    assert!(matches!(settlement, Settlement::Commit { amount } if amount.to_text() == "200"));
    assert!(matches!(result, Ok(PaperArbitrageRun::Completed { .. })));
    let cancelled =
        |index: usize| receipt(&request.batch().intents[index], "0", OrderStatus::Cancelled);
    let (settlement, result) = drive(Ok(vec![cancelled(0), cancelled(1)]));
    assert!(matches!(settlement, Settlement::Release { reason: "all_legs_cancelled" }));
    assert!(matches!(result, Err(PaperArbitrageSagaError::Incomplete(_))));
    let (settlement, result) = drive(Ok(vec![filled(0)]));
    assert!(matches!(settlement, Settlement::MarkUncertain));
    assert_eq!(
        result.unwrap_err().message(""),
        "paper arbitrage returned 1 receipt(s) for two legs; reconcile before any action"
    );
    let (settlement, result) =
        drive(Err(RuntimeFailure { text: "venue gone".to_owned(), partial: None }));
    assert!(matches!(settlement, Settlement::MarkUncertain));
    assert_eq!(result.unwrap_err().message(""), "venue gone");
}

#[test]
fn an_amount_that_cannot_be_summed_up_is_not_committed() {
    let largest = number("79228162514264337593543950335");
    let legs = vec![intent("left", Side::Buy), intent("right", Side::Sell)];
    let (batch, mut reservation) = pair_reservation(legs);
    assert_eq!(gross_notional(&reservation).unwrap().to_text(), "200");
    reservation.legs[0].notional = largest;
    assert!(gross_notional(&reservation).is_none());
    let request =
        PaperArbitrageRequest::new("BTC-USDC-PERP".to_owned(), batch, reservation).unwrap();
    let filled = vec![
        receipt(&request.batch().intents[0], "2", OrderStatus::Filled),
        receipt(&request.batch().intents[1], "2", OrderStatus::Filled),
    ];
    let saga = DurablePaperArbitrageSaga::new(request, true).unwrap();
    let (stage, _) = saga.run();
    let (stage, _) = saga.step(stage, ArbitrageSagaInput::Reserved(held()));
    let (stage, _) = saga.step(stage, ArbitrageSagaInput::Appended(true));
    let (stage, _) = saga.step(stage, ArbitrageSagaInput::Executed(Ok(filled)));
    let (_, action) = saga.step(stage, ArbitrageSagaInput::Appended(true));
    assert!(matches!(
        action,
        ArbitrageSagaAction::Finish(Err(PaperArbitrageSagaError::Account))
    ));
}

#[test]
fn an_outcome_that_is_not_durable_is_preserved() {
    let saga = DurablePaperArbitrageSaga::new(pair(), true).unwrap();
    let (stage, _) = saga.run();
    let (stage, _) = saga.step(stage, ArbitrageSagaInput::Reserved(held()));
    let (stage, _) = saga.step(stage, ArbitrageSagaInput::Appended(true));
    let (stage, _) = saga.step(stage, ArbitrageSagaInput::Executed(Ok(Vec::new())));
    let (_, action) = saga.step(stage, ArbitrageSagaInput::Appended(false));
    match action {
        ArbitrageSagaAction::Finish(Err(error)) => assert_eq!(
            error.message("disk full"),
            "paper execution produced incomplete outcome with 0 receipt(s), but its outcome journal failed: disk full"
        ),
        other => panic!("{other:?}"),
    }
}

#[test]
fn a_known_operation_is_classified_by_the_batch_that_the_account_holds() {
    let held_batch = BATCH + 1;
    let committed = PaperReservationPhase::Committed;
    let saga = DurablePaperArbitrageSaga::new(pair(), true).unwrap();
    let (stage, _) = saga.run();
    let known = ArbitrageSagaInput::Existing { batch_id: held_batch, phase: committed };
    let (stage, action) = saga.step(stage, known);
    assert!(matches!(
        action,
        ArbitrageSagaAction::ReadRecoveryEvidence { batch_id } if batch_id == held_batch
    ));
    let evidence =
        ArbitrageSagaInput::Evidence(RecoveryEvidence::Batch(ExecutionBatchState::Completed));
    let (_, action) = saga.step(stage, evidence);
    assert!(matches!(
        action,
        ArbitrageSagaAction::Finish(Ok(PaperArbitrageRun::AlreadyCompleted { batch_id }))
            if batch_id == held_batch
    ));
    let saga = DurablePaperSingleLegSaga::new(single(), true).unwrap();
    let (stage, _) = saga.run();
    let known = SingleLegInput::Existing { batch_id: held_batch, phase: committed };
    let (_, action) = saga.step(stage, known);
    assert!(matches!(
        action,
        SingleLegAction::Finish(Ok(PaperSingleLegRun::AlreadyTerminal { batch_id, .. }))
            if batch_id == held_batch
    ));
}

#[test]
fn recovery_evidence_decides_a_known_pair() {
    let decide = |phase, evidence| classify_pair(BATCH, phase, evidence);
    assert!(matches!(
        decide(
            PaperReservationPhase::Committed,
            RecoveryEvidence::Batch(ExecutionBatchState::Completed)
        ),
        Ok(PaperArbitrageRun::AlreadyCompleted { .. })
    ));
    let error = decide(PaperReservationPhase::Pending, RecoveryEvidence::Absent).unwrap_err();
    assert!(matches!(
        error,
        PaperArbitrageSagaError::RecoveryRequired {
            stage: PaperArbitrageRecoveryStage::ReservedOnly,
            ..
        }
    ));
    assert_eq!(
        error.message(""),
        "paper batch 0f3c807d-776f-4de4-85d0-93760a82dfcf requires ReservedOnly recovery; automatic retry is disabled"
    );
    assert!(matches!(
        decide(PaperReservationPhase::Pending, RecoveryEvidence::SnapshotTaskFailed),
        Err(PaperArbitrageSagaError::SnapshotTaskFailed)
    ));
}

fn position() -> Position {
    Position {
        exchange: "left".to_owned(),
        symbol: "BTC-USDC-PERP".to_owned(),
        market_type: MarketType::Perpetual,
        side: PositionSide::Long,
        quantity: number("2"),
        entry_price: Some(number("50")),
        mark_price: None,
        unrealized_pnl: number("0"),
        updated_at: Timestamp::from_parts(6, 0),
    }
}

#[test]
fn a_partial_failure_is_summed_up_within_its_bounds() {
    let request = pair();
    let first = &request.batch().intents[0];
    let failure = RuntimeFailure {
        text: "partial".to_owned(),
        partial: Some(PartialExecution {
            batch_id: BATCH,
            failed_index: 1,
            completed: (0..65).map(|_| receipt(first, "2", OrderStatus::Filled)).collect(),
            failed_intent: request.batch().intents[1].copy(),
            unattempted: Vec::new(),
            reconciliation: vec![
                ReconciliationObservation {
                    exchange: "right".to_owned(),
                    result: Err("x".repeat(3_000)),
                },
                ReconciliationObservation {
                    exchange: "left".to_owned(),
                    result: Ok(ReconciliationReceipt {
                        scope: "account".to_owned(),
                        observed_at: Timestamp::from_parts(7, 0),
                        orders: Vec::new(),
                        positions: (0..65).map(|_| position()).collect(),
                    }),
                },
            ],
            source: "timeout".to_owned(),
        }),
    };
    let (decision, summary) = execution_error_summary(&failure, BATCH);
    assert_eq!(decision, "execution_partial");
    match summary {
        ExecutionErrorSummary::Partial { completed, failed_intent, reconciliation, .. } => {
            match &reconciliation[0] {
                ReconciliationSummary::Failed { error, .. } => assert_eq!(error.len(), 2_048),
                other => panic!("{other:?}"),
            }
            match &reconciliation[1] {
                ReconciliationSummary::Found {
                    exchange,
                    scope,
                    observed_at,
                    positions,
                    positions_total,
                    positions_truncated,
                    ..
                } => {
                    assert_eq!((exchange.as_str(), scope.as_str()), ("left", "account"));
                    assert_eq!(*observed_at, Timestamp::from_parts(7, 0));
                    assert_eq!((positions.len(), *positions_total), (64, 65));
                    assert!(*positions_truncated);
                    assert_eq!(positions[0].quantity.to_text(), "2");
                    assert_eq!(positions[0].side, PositionSide::Long);
                }
                other => panic!("{other:?}"),
            }
            assert_eq!((completed.receipt_count, completed.receipts.len()), (65, 64));
            assert!(completed.receipts_truncated);
            assert_eq!(completed.filled, 65);
            assert_eq!(failed_intent.index, 1);
        }
        other => panic!("{other:?}"),
    }
}

#[test]
fn a_cancelled_operation_keeps_pending_capacity() {
    let (stage, action) = retain_cancelled_reservation();
    assert!(matches!(action, RetentionAction::ReadAccount));
    let (stage, action) = retention_step(
        false,
        stage,
        RetentionInput::Reservation(Some(PaperReservationPhase::Pending)),
    );
    assert!(matches!(action, RetentionAction::MarkUncertain));
    let (_, action) = retention_step(false, stage, RetentionInput::Marked(true));
    assert!(matches!(action, RetentionAction::Finish(Ok(true))));
    assert_eq!(discard_planned_admission(false, None), Ok(()));
    assert_eq!(discard_planned_admission(true, Some(true)), Ok(()));
    assert_eq!(
        discard_planned_admission(true, None),
        Err(PaperAdmissionCompensationError::AccountRisk)
    );
}
