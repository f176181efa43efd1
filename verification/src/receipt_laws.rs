//! What the receipts of a batch prove, and what becomes of its capacity.

use crate::capacity_retention::{first_mark, next_mark, ownership_of, retained_ids};
use crate::capacity_retention::{CapacityAction, OwnerKind};
use crate::decimal::representable;
use crate::domain::{same_intent, OrderIntent, OrderStatus, SubmissionDisposition, TradingReceipt};
use crate::grid_owner::OperationOutcome;
use crate::number_laws::{law_order_is_that_of_units, law_sign_is_that_of_units, units};
use crate::operation_run::{run_after, run_outcome, OperationRun, RunEvent};
use crate::operations::{belongs_to, prefix_of, sequence_of};
use crate::paper_account::{PaperAccountSnapshot, PaperReservation, PaperReservationPhase};
use crate::paper_admission::{phase_of, retention_next, PaperAdmissionCompensationError};
use crate::paper_admission::{RetentionAction, RetentionInput, RetentionStage};
use crate::paper_arbitrage_saga::{count_saying, is_receipt_summary, outcome_of, pair_flaw};
use crate::paper_arbitrage_saga::{pair_is_confirmed, recovery_result, ReceiptSummary};
use crate::paper_arbitrage_saga::{ExecutionBatchState, PaperArbitragePreservedOutcome};
use crate::paper_arbitrage_saga::{PaperArbitrageRun, RecoveryEvidence, RuntimeFailure};
use crate::paper_grid_task::{first_demand, pending_ids};
use crate::paper_single_leg_saga::{batch_is_confirmed, existing_result, receipt_confirms};
use crate::paper_single_leg_saga::{settled_result, single_leg_flaw, PaperSingleLegRun, Settlement};
use crate::requests::{ExecutionBatch, PaperReservationRequest, PaperReservationView};
use crate::saga_records::{plans, PlannedRecord};
use crate::text::starts_with;
use vstd::prelude::*;

verus! {

/// The receipt is of this order: it names the order's own identifier, venue,
/// instrument and side, over its quantity.
pub open spec fn is_of_order(intent: OrderIntent, receipt: TradingReceipt) -> bool {
    &&& receipt is Submitted
    &&& receipt->Submitted_order.intent.client_order_id == intent.client_order_id
    &&& receipt->Submitted_order.intent.exchange@ == intent.exchange@
    &&& receipt->Submitted_order.intent.symbol@ == intent.symbol@
    &&& receipt->Submitted_order.intent.market_type == intent.market_type
    &&& receipt->Submitted_order.intent.side == intent.side
    &&& units(receipt->Submitted_order.intent.quantity@) == units(intent.quantity@)
}

/// A fill is proven only by a receipt of the order that says it was filled,
/// with a filled order over the whole quantity.
pub proof fn law_fill_is_proven_over_the_whole_quantity(
    intent: OrderIntent,
    receipt: TradingReceipt,
)
    requires
        receipt_confirms(intent, receipt, SubmissionDisposition::Filled),
        representable(intent.quantity@),
        receipt is Submitted ==> representable(receipt->Submitted_order.filled_quantity@)
            && representable(receipt->Submitted_order.intent.quantity@),
    ensures
        is_of_order(intent, receipt),
        receipt->Submitted_disposition == SubmissionDisposition::Filled,
        receipt->Submitted_order.status == OrderStatus::Filled,
        units(receipt->Submitted_order.filled_quantity@) == units(intent.quantity@),
{
    let order = receipt->Submitted_order;
    law_order_is_that_of_units(order.filled_quantity@, intent.quantity@);
    law_order_is_that_of_units(order.intent.quantity@, intent.quantity@);
}

/// A cancel is proven only by a receipt of the order that says so, with a
/// cancelled order of which nothing was filled.
pub proof fn law_cancel_is_proven_without_a_fill(intent: OrderIntent, receipt: TradingReceipt)
    requires
        receipt_confirms(intent, receipt, SubmissionDisposition::Cancelled),
        representable(intent.quantity@),
        receipt is Submitted ==> representable(receipt->Submitted_order.intent.quantity@),
    ensures
        is_of_order(intent, receipt),
        receipt->Submitted_disposition == SubmissionDisposition::Cancelled,
        receipt->Submitted_order.status == OrderStatus::Cancelled,
        units(receipt->Submitted_order.filled_quantity@) == 0,
{
    let order = receipt->Submitted_order;
    law_sign_is_that_of_units(order.filled_quantity@);
    law_order_is_that_of_units(order.intent.quantity@, intent.quantity@);
}

/// The venue's own report of an order, filled whole or cancelled untouched, is
/// a proof of it.
pub proof fn law_true_report_is_a_proof(intent: OrderIntent, receipt: TradingReceipt)
    requires
        receipt is Submitted,
        same_intent(receipt->Submitted_order.intent, intent),
        representable(intent.quantity@),
        representable(receipt->Submitted_order.filled_quantity@),
    ensures
        receipt->Submitted_disposition == SubmissionDisposition::Filled
            && receipt->Submitted_order.status == OrderStatus::Filled && units(
            receipt->Submitted_order.filled_quantity@,
        ) == units(intent.quantity@) ==> receipt_confirms(
            intent,
            receipt,
            SubmissionDisposition::Filled,
        ),
        receipt->Submitted_disposition == SubmissionDisposition::Cancelled
            && receipt->Submitted_order.status == OrderStatus::Cancelled && units(
            receipt->Submitted_order.filled_quantity@,
        ) == 0 ==> receipt_confirms(intent, receipt, SubmissionDisposition::Cancelled),
{
    let order = receipt->Submitted_order;
    law_order_is_that_of_units(order.filled_quantity@, intent.quantity@);
    law_sign_is_that_of_units(order.filled_quantity@);
}

/// No receipt proves both a fill and a cancel, and nothing proves an order
/// that is open or was processed before.
pub proof fn law_receipt_proves_one_thing(intent: OrderIntent, receipt: TradingReceipt)
    ensures
        !(receipt_confirms(intent, receipt, SubmissionDisposition::Filled) && receipt_confirms(
            intent,
            receipt,
            SubmissionDisposition::Cancelled,
        )),
        !receipt_confirms(intent, receipt, SubmissionDisposition::Open),
        !receipt_confirms(intent, receipt, SubmissionDisposition::AlreadyProcessed),
{
}

/// A single order is proven by one receipt, no fewer and no more.
pub proof fn law_single_order_takes_one_receipt(
    batch: ExecutionBatch,
    receipts: Seq<TradingReceipt>,
    expected: SubmissionDisposition,
)
    ensures
        batch_is_confirmed(batch, receipts, expected) ==> receipts.len() == 1
            && batch.intents@.len() == 1 && receipt_confirms(
            batch.intents@[0],
            receipts[0],
            expected,
        ),
        receipts.len() != 1 ==> !batch_is_confirmed(batch, receipts, expected),
{
}

/// A pair is proven only where each of its two orders is proven, by a receipt
/// of its own.
pub proof fn law_pair_is_proven_leg_by_leg(
    batch: ExecutionBatch,
    receipts: Seq<TradingReceipt>,
    expected: SubmissionDisposition,
)
    requires
        pair_is_confirmed(batch, receipts, expected),
    ensures
        receipts.len() == 2,
        batch.intents@.len() == 2,
        (receipt_confirms(batch.intents@[0], receipts[0], expected) && receipt_confirms(
            batch.intents@[1],
            receipts[1],
            expected,
        )) || (receipt_confirms(batch.intents@[0], receipts[1], expected) && receipt_confirms(
            batch.intents@[1],
            receipts[0],
            expected,
        )),
{
}

/// The order in which the receipts of a pair come in does not matter.
pub proof fn law_receipts_of_a_pair_come_in_any_order(
    batch: ExecutionBatch,
    first: TradingReceipt,
    second: TradingReceipt,
    expected: SubmissionDisposition,
)
    ensures
        pair_is_confirmed(batch, seq![first, second], expected) <==> pair_is_confirmed(
            batch,
            seq![second, first],
            expected,
        ),
        !pair_is_confirmed(batch, seq![first], expected),
{
    let (a, b) = (seq![first, second], seq![second, first]);
    assert(a[0] == first && a[1] == second && b[0] == second && b[1] == first);
}

/// Two orders that differ, each proven by one receipt, make a proven pair.
pub proof fn law_two_proven_legs_make_a_pair(
    batch: ExecutionBatch,
    receipts: Seq<TradingReceipt>,
    expected: SubmissionDisposition,
)
    requires
        receipts.len() == 2,
        batch.intents@.len() == 2,
        batch.intents@[0].client_order_id != batch.intents@[1].client_order_id,
        receipt_confirms(batch.intents@[0], receipts[0], expected),
        receipt_confirms(batch.intents@[1], receipts[1], expected),
    ensures
        pair_is_confirmed(batch, receipts, expected),
{
    let (first, second) = (receipts[0]->Submitted_order.intent, receipts[1]->Submitted_order.intent);
    assert(same_intent(batch.intents@[0], first));
    assert(same_intent(batch.intents@[1], second));
}

/// An execution is completed exactly where both legs are proven filled; all
/// that came back is preserved either way.
pub proof fn law_outcome_keeps_what_came_back(
    batch: ExecutionBatch,
    result: Result<Vec<TradingReceipt>, RuntimeFailure>,
)
    ensures
        outcome_of(batch, result) is Completed <==> result is Ok && pair_is_confirmed(
            batch,
            result->Ok_0@,
            SubmissionDisposition::Filled,
        ),
        outcome_of(batch, result) is Failed <==> result is Err,
        outcome_of(batch, result) is Completed ==> outcome_of(batch, result)
            == PaperArbitragePreservedOutcome::Completed(result->Ok_0),
        outcome_of(batch, result) is Incomplete ==> outcome_of(batch, result)
            == PaperArbitragePreservedOutcome::Incomplete(result->Ok_0),
        outcome_of(batch, result) is Failed ==> outcome_of(batch, result)
            == PaperArbitragePreservedOutcome::Failed(result->Err_0),
{
}

/// Every receipt is counted under one disposition: a cancel receipt under the
/// cancelled ones, any other under the one that it says.
pub proof fn law_every_receipt_is_counted_once(receipts: Seq<TradingReceipt>)
    ensures
        count_saying(receipts, SubmissionDisposition::Open) + count_saying(
            receipts,
            SubmissionDisposition::Filled,
        ) + count_saying(receipts, SubmissionDisposition::Cancelled) + count_saying(
            receipts,
            SubmissionDisposition::AlreadyProcessed,
        ) == receipts.len(),
    decreases receipts.len(),
{
    if receipts.len() > 0 {
        law_every_receipt_is_counted_once(receipts.drop_last());
    }
}

/// One more receipt raises the count of its own disposition by one.
pub proof fn law_receipt_counts_for_what_it_says(
    receipts: Seq<TradingReceipt>,
    next: TradingReceipt,
    disposition: SubmissionDisposition,
)
    ensures
        count_saying(receipts.push(next), disposition) == count_saying(receipts, disposition) + if (
        next is Submitted && next->Submitted_disposition == disposition) || (next is Cancelled
            && disposition == SubmissionDisposition::Cancelled) {
            1int
        } else {
            0int
        },
{
    assert(receipts.push(next).drop_last() =~= receipts);
}

/// The counts of a summary add up to its receipts; it is cut off exactly where
/// it shows fewer than there were.
pub proof fn law_receipt_summary_adds_up(summary: ReceiptSummary, receipts: Seq<TradingReceipt>)
    requires
        is_receipt_summary(summary, receipts),
    ensures
        summary.open + summary.filled + summary.cancelled + summary.already_processed
            == summary.receipt_count,
        summary.receipt_count == receipts.len(),
        summary.receipts@.len() <= summary.receipt_count,
        summary.receipts_truncated <==> summary.receipts@.len() < summary.receipt_count,
{
    law_every_receipt_is_counted_once(receipts);
}

/// A single-leg request is coherent only where its one leg reserves for its
/// one order, under the number of its batch.
pub proof fn law_coherent_leg_mirrors_its_order(
    symbol: Seq<char>,
    batch: ExecutionBatch,
    reservation: PaperReservationRequest,
)
    ensures
        single_leg_flaw(symbol, batch, reservation) is None <==> {
            &&& batch.intents@.len() == 1
            &&& reservation.legs@.len() == 1
            &&& reservation.batch_id == batch.id
            &&& batch.intents@[0].symbol@ == symbol
            &&& reservation.legs@[0].index == 0
            &&& reservation.legs@[0].exchange@ == batch.intents@[0].exchange@
            &&& reservation.legs@[0].symbol@ == batch.intents@[0].symbol@
            &&& reservation.legs@[0].market_type == batch.intents@[0].market_type
            &&& reservation.legs@[0].side == batch.intents@[0].side
        },
{
}

/// A pair request is coherent only where it buys on one venue and sells on
/// another, in one symbol, and each leg reserves for the order of its place.
pub proof fn law_coherent_pair_is_hedged(
    symbol: Seq<char>,
    batch: ExecutionBatch,
    reservation: PaperReservationRequest,
)
    ensures
        pair_flaw(symbol, batch, reservation) is None <==> {
            &&& batch.intents@.len() == 2
            &&& reservation.legs@.len() == 2
            &&& reservation.batch_id == batch.id
            &&& batch.intents@[0].exchange@ != batch.intents@[1].exchange@
            &&& batch.intents@[0].side != batch.intents@[1].side
            &&& forall|i: int|
                0 <= i < 2 ==> (#[trigger] batch.intents@[i]).symbol@ == symbol
                    && reservation.legs@[i].index == i && reservation.legs@[i].exchange@
                    == batch.intents@[i].exchange@ && reservation.legs@[i].symbol@ == symbol
                    && reservation.legs@[i].market_type == batch.intents@[i].market_type
                    && reservation.legs@[i].side == batch.intents@[i].side
        },
{
    if pair_flaw(symbol, batch, reservation) is None {
        assert forall|i: int| 0 <= i < 2 implies (#[trigger] batch.intents@[i]).symbol@ == symbol
            && reservation.legs@[i].index == i && reservation.legs@[i].exchange@
            == batch.intents@[i].exchange@ && reservation.legs@[i].symbol@ == symbol
            && reservation.legs@[i].market_type == batch.intents@[i].market_type
            && reservation.legs@[i].side == batch.intents@[i].side by {
            assert(i == 0 || i == 1);
        }
    }
}

/// A known single-leg batch counts as over where its capacity was committed or
/// released; otherwise it needs recovery. Batch and phase are named as found.
pub proof fn law_known_leg_is_over_or_needs_recovery(batch_id: u128, phase: PaperReservationPhase)
    ensures
        existing_result(batch_id, phase) is Ok <==> phase == PaperReservationPhase::Committed
            || phase == PaperReservationPhase::Released,
        existing_result(batch_id, phase) is Ok ==> existing_result(batch_id, phase)->Ok_0 == (
        PaperSingleLegRun::AlreadyTerminal { batch_id, phase }),
        existing_result(batch_id, phase) is Err ==> existing_result(batch_id, phase)->Err_0
            is RecoveryRequired && existing_result(
            batch_id,
            phase,
        )->Err_0->RecoveryRequired_batch_id == batch_id && existing_result(
            batch_id,
            phase,
        )->Err_0->RecoveryRequired_phase == phase,
{
}

/// A known pair counts as completed only where the journal shows it completed
/// and the account has settled its capacity; everything else is an error.
pub proof fn law_known_pair_is_completed_in_both_books(
    batch_id: u128,
    phase: PaperReservationPhase,
    evidence: RecoveryEvidence,
)
    ensures
        recovery_result(batch_id, phase, evidence) is Ok <==> evidence == RecoveryEvidence::Batch(
            ExecutionBatchState::Completed,
        ) && (phase == PaperReservationPhase::Committed || phase
            == PaperReservationPhase::Released),
        recovery_result(batch_id, phase, evidence) is Ok ==> recovery_result(
            batch_id,
            phase,
            evidence,
        )->Ok_0 == (PaperArbitrageRun::AlreadyCompleted { batch_id }),
{
}

/// A settled leg is completed where its capacity was committed, cancelled
/// where it was released, and incomplete where it stays uncertain; all with
/// the receipts that came back.
pub proof fn law_settled_leg_is_what_its_capacity_says(
    settlement: Settlement,
    receipts: Vec<TradingReceipt>,
)
    ensures
        settlement is Commit <==> settled_result(settlement, Some(receipts)) is Ok
            && settled_result(settlement, Some(receipts))->Ok_0 == (PaperSingleLegRun::Completed {
            receipts,
        }),
        settlement is Release <==> settled_result(settlement, Some(receipts)) is Ok
            && settled_result(settlement, Some(receipts))->Ok_0 == (PaperSingleLegRun::Cancelled {
            receipts,
        }),
        settlement is MarkUncertain <==> settled_result(settlement, Some(receipts)) is Err,
        settled_result(settlement, None) is Err,
{
}

/// An operation goes on until it ends, unless a cancel was requested, account
/// risk may interrupt it and does, or its deadline is over; a requested stop
/// is remembered for its end.
pub proof fn law_operation_goes_on_until_it_must_end(
    run: OperationRun,
    event: RunEvent,
    task_id: Seq<char>,
)
    ensures
        run_outcome(run, event, task_id) is Some <==> {
            ||| event is Ended
            ||| event is Cancel && event->Cancel_requested
            ||| run.policy.risk && event is DirectivesUnavailable
            ||| run.policy.risk && event is Directives && first_demand(
                event->Directives_0@,
                task_id,
            ) is Some
            ||| run.policy.timed && event is Deadline
        },
        event is Cancel && event->Cancel_requested ==> run_outcome(run, event, task_id) == Some(
            OperationOutcome::Cancelled,
        ),
        event is Ended && event->Ended_0 is None ==> run_outcome(run, event, task_id) == Some(
            OperationOutcome::Completed { stop_requested: run.stop_requested },
        ),
        event is Ended && event->Ended_0 is Some ==> run_outcome(run, event, task_id) == Some(
            OperationOutcome::Failed(event->Ended_0->0),
        ),
        run_after(run, event).policy == run.policy,
        run_after(run, event).stop_requested <==> run.stop_requested || (event is Stop
            && event->Stop_requested),
{
}

/// An owner's pending reservations are kept, and no others: those under its
/// prefix, told apart as its kind numbers its operations.
pub proof fn law_pending_capacity_of_each_owner(
    reservations: Seq<PaperReservation>,
    next: PaperReservation,
    prefix: Seq<char>,
    kind: OwnerKind,
)
    ensures
        ({
            let ownership = ownership_of(kind);
            let own = match kind {
                OwnerKind::Grid => belongs_to(next.task_id@, prefix),
                OwnerKind::Arbitrage => sequence_of(next.task_id@, prefix) is Some,
                OwnerKind::VolumeMaker => starts_with(next.task_id@, prefix),
            };
            pending_ids(ownership, reservations.push(next), prefix) == if own && next.phase
                == PaperReservationPhase::Pending {
                pending_ids(ownership, reservations, prefix).push(next.reservation_id)
            } else {
                pending_ids(ownership, reservations, prefix)
            }
        }),
        pending_ids(ownership_of(kind), Seq::empty(), prefix).len() == 0,
{
    assert(reservations.push(next).drop_last() =~= reservations);
}

/// What is kept is read from the account; without it, nothing is known, nor
/// for a pair owner whose account failed to reconcile.
pub proof fn law_unread_account_keeps_nothing_known(
    kind: OwnerKind,
    account: Option<PaperAccountSnapshot>,
    task_id: Seq<char>,
)
    ensures
        retained_ids(kind, account, task_id) is Some <==> account is Some && !(kind
            == OwnerKind::Arbitrage && exists|i: int|
            0 <= i < account->0.reservations@.len()
                && #[trigger] account->0.reservations@[i].reconciliation_failed),
        retained_ids(kind, account, task_id) is Some ==> retained_ids(kind, account, task_id)->0
            == pending_ids(ownership_of(kind), account->0.reservations@, prefix_of(task_id)),
{
}

/// The phase of a reservation is that of the first with its number.
pub proof fn law_phase_is_the_first_reservations(
    reservations: Seq<PaperReservation>,
    i: int,
)
    requires
        crate::position_laws::stands_alone(reservations, i, reservations[i].reservation_id),
    ensures
        phase_of(reservations, reservations[i].reservation_id) == Some(reservations[i].phase),
{
    crate::position_laws::law_lone_reservation_is_found(
        reservations,
        i,
        reservations[i].reservation_id,
    );
}

/// A reservation that is found keeps its capacity: a pending one is marked as
/// uncertain first. Where none is found, an admission is cancelled, and an
/// admission that is already gone makes the owner look once more, and only
/// once.
pub proof fn law_found_reservation_keeps_its_capacity(
    admitted: bool,
    again: bool,
    found: Option<PaperReservationPhase>,
)
    ensures
        ({
            let step = retention_next(
                admitted,
                RetentionStage::Account { again },
                RetentionInput::Reservation(found),
            );
            &&& found == Some(PaperReservationPhase::Pending) <==> step.1
                == RetentionAction::MarkUncertain
            &&& found is Some && found->0 != PaperReservationPhase::Pending ==> step.1
                == RetentionAction::Finish(Ok(true))
            &&& found is None && again ==> step.1 == RetentionAction::Finish(
                Err(PaperAdmissionCompensationError::RecoveryRequired),
            )
            &&& found is None && !again && admitted ==> step.1 == RetentionAction::CancelAdmission
            &&& found is None && !again && !admitted ==> step.1 == RetentionAction::Finish(
                Ok(false),
            )
        }),
        retention_next(
            admitted,
            RetentionStage::Admission,
            RetentionInput::Cancelled(false),
        ).0 == (RetentionStage::Account { again: true }),
{
}

/// An owner marks its pending reservations one after the other, from the first
/// to the last, and frees its lane behind the last one. A refused mark stops a
/// pair owner alone; an account that could not be read keeps the lane of a
/// pair owner closed, and frees that of any other.
pub proof fn law_reservations_are_marked_in_a_row(
    kind: OwnerKind,
    ids: Seq<u128>,
    place: int,
    marked: bool,
)
    requires
        0 <= place < ids.len(),
    ensures
        ({
            let pair = kind == OwnerKind::Arbitrage;
            let next = next_mark(kind, ids, place, marked);
            &&& first_mark(kind, Some(ids)) == (CapacityAction::MarkUncertain {
                reservation_id: ids[0],
            })
            &&& first_mark(kind, Some(Seq::empty())) is ReleaseLane
            &&& first_mark(kind, None) is KeepLaneClosed <==> pair
            &&& first_mark(kind, None) is ReleaseLane <==> !pair
            &&& next is KeepLaneClosed <==> pair && !marked
            &&& (marked || !pair) && place + 1 < ids.len() ==> next == (
            CapacityAction::MarkUncertain { reservation_id: ids[place + 1] })
            &&& (marked || !pair) && place + 1 == ids.len() ==> next is ReleaseLane
        }),
{
}

/// A durable plan is that of its own batch and reservation: every order of the
/// batch stands in it at its place, and nothing else.
pub proof fn law_plan_is_of_its_batch_and_reservation(
    record: PlannedRecord,
    symbol: Seq<char>,
    batch: ExecutionBatch,
    reservation: PaperReservationView,
    i: int,
)
    requires
        plans(record, symbol, batch, reservation),
        0 <= i < batch.intents@.len() <= usize::MAX,
    ensures
        record.batch_id == batch.id,
        record.reservation_id == reservation.reservation_id,
        record.task_id@ == reservation.task_id@,
        record.idempotency_key@ == reservation.idempotency_key@,
        record.cost_model_version == reservation.cost_model.version,
        record.symbol@ == symbol,
        record.legs@.len() == batch.intents@.len(),
        record.legs@[i].intent == batch.intents@[i] && record.legs@[i].index == i,
{
}

} // verus!
