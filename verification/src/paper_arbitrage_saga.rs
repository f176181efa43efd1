//! Journal-first execution of one exact cross-exchange paper pair.
//!
//! Capacity is reserved first, the plan is made durable, and only then are the
//! two orders executed. A request that the account already knows is classified
//! from durable facts and never executed again.

use crate::decimal::decimal_in;
use crate::domain::{
    copy_orders, same_receipt, Order, OrderIntent, Position, SubmissionDisposition,
    TradingReceipt,
};
use crate::ids::{id_text, text_of_id};
use crate::paper_account::PaperReservationPhase;
use crate::paper_single_leg_saga::{
    bounded_error, receipt_confirming, receipt_confirms, Settlement, MAX_ERROR_SUMMARY_BYTES,
};
use crate::requests::{
    gross_notional, gross_of, leg_matches, leg_matching, ExecutionBatch, PaperReservationRequest,
    PaperReservationView,
};
use crate::saga_records::{planned_record, plans, OutcomeRecord, PlannedRecord};
use crate::text::{digits_of, is_longest_prefix_within, joined, padded_number, same_text};
use crate::timestamp::Timestamp;
use vstd::prelude::*;

verus! {

pub const PAPER_ARBITRAGE_SAGA_SCHEMA_VERSION: u16 = 1;

pub const EXACT_LEG_COUNT: usize = 2;

pub const MAX_RECEIPT_SUMMARY_RECEIPTS: usize = 64;

pub const MAX_RECONCILIATION_SUMMARY_ORDERS: usize = 64;

pub const MAX_RECONCILIATION_SUMMARY_POSITIONS: usize = 64;

/// What has to be reconciled before a known request can go on.
#[derive(Clone, Copy, Debug, PartialEq, Eq, Structural)]
pub enum PaperArbitrageRecoveryStage {
    ReservedOnly,
    OutcomeUnknown,
    Partial,
    Incomplete,
    Failed,
    AccountFinalizationRequired,
    Conflict,
}

/// The end of a saga that the pair's receipts prove.
#[derive(Debug)]
pub enum PaperArbitrageRun {
    Completed { receipts: Vec<TradingReceipt> },
    AlreadyCompleted { batch_id: u128 },
}

/// An outcome that is kept although its durable record or its settlement
/// failed.
#[derive(Debug)]
pub enum PaperArbitragePreservedOutcome {
    Completed(Vec<TradingReceipt>),
    Incomplete(Vec<TradingReceipt>),
    Failed(RuntimeFailure),
}

#[derive(Debug)]
pub enum PaperArbitrageSagaError {
    InvalidRequest(&'static str),
    RecoveryRequired { batch_id: u128, stage: PaperArbitrageRecoveryStage },
    Account,
    JournalRead,
    Projection,
    JournalWrite,
    Execution(RuntimeFailure),
    Incomplete(Vec<TradingReceipt>),
    OutcomeJournal { outcome: PaperArbitragePreservedOutcome },
    AccountFinalization { outcome: PaperArbitragePreservedOutcome },
    SnapshotTaskFailed,
}

/// What a reconciliation of one exchange found.
#[derive(Debug)]
pub struct ReconciliationReceipt {
    /// What the reconciliation covered, as it is recorded.
    pub scope: String,
    pub observed_at: Timestamp,
    pub orders: Vec<Order>,
    pub positions: Vec<Position>,
}

/// The reconciliation of one exchange: what it found, or the text of its error.
#[derive(Debug)]
pub struct ReconciliationObservation {
    pub exchange: String,
    pub result: Result<ReconciliationReceipt, String>,
}

/// A batch of which only some orders were executed.
#[derive(Debug)]
pub struct PartialExecution {
    pub batch_id: u128,
    pub failed_index: usize,
    pub completed: Vec<TradingReceipt>,
    pub failed_intent: OrderIntent,
    pub unattempted: Vec<OrderIntent>,
    pub reconciliation: Vec<ReconciliationObservation>,
    pub source: String,
}

/// Why an execution failed.
#[derive(Debug)]
pub struct RuntimeFailure {
    pub text: String,
    pub partial: Option<PartialExecution>,
}

/// One exact cross-exchange buy/sell pair bound to one reservation.
#[derive(Debug)]
pub struct PaperArbitrageRequest {
    symbol: String,
    batch: ExecutionBatch,
    reservation: PaperReservationRequest,
}

/// The leg at this place does not reserve capacity for the order there.
pub open spec fn leg_differs(
    symbol: Seq<char>,
    batch: ExecutionBatch,
    reservation: PaperReservationRequest,
    i: int,
) -> bool {
    !leg_matches(reservation.legs@[i], batch.intents@[i], i, symbol)
}

/// Why a request is not one exact and coherent pair, in the order in which it
/// is checked.
pub open spec fn pair_flaw(
    symbol: Seq<char>,
    batch: ExecutionBatch,
    reservation: PaperReservationRequest,
) -> Option<Seq<char>> {
    let intents = batch.intents@;
    if intents.len() != EXACT_LEG_COUNT || reservation.legs@.len() != EXACT_LEG_COUNT {
        Some("paper arbitrage saga requires exactly two legs"@)
    } else if reservation.batch_id != batch.id {
        Some("paper reservation batch id does not match execution batch"@)
    } else if intents[0].exchange@ == intents[1].exchange@ {
        Some("paper arbitrage legs must target distinct exchanges"@)
    } else if intents[0].side == intents[1].side {
        Some("paper arbitrage legs must contain one buy and one sell"@)
    } else if leg_differs(symbol, batch, reservation, 0) || leg_differs(
        symbol,
        batch,
        reservation,
        1,
    ) {
        Some("paper reservation legs do not match execution intents"@)
    } else {
        None
    }
}

fn find_flaw(symbol: &str, batch: &ExecutionBatch, reservation: &PaperReservationRequest) -> (r:
    Option<&'static str>)
    ensures
        match pair_flaw(symbol@, *batch, *reservation) {
            Some(flaw) => r is Some && r->0@ == flaw,
            None => r is None,
        },
{
    if batch.intents.len() != EXACT_LEG_COUNT || reservation.legs.len() != EXACT_LEG_COUNT {
        return Some("paper arbitrage saga requires exactly two legs");
    }
    if reservation.batch_id != batch.id {
        return Some("paper reservation batch id does not match execution batch");
    }
    if same_text(&batch.intents[0].exchange, &batch.intents[1].exchange) {
        return Some("paper arbitrage legs must target distinct exchanges");
    }
    if batch.intents[0].side == batch.intents[1].side {
        return Some("paper arbitrage legs must contain one buy and one sell");
    }
    if !leg_matching(&reservation.legs[0], &batch.intents[0], 0, symbol) || !leg_matching(
        &reservation.legs[1],
        &batch.intents[1],
        1,
        symbol,
    ) {
        return Some("paper reservation legs do not match execution intents");
    }
    None
}

impl PaperArbitrageRequest {
    pub closed spec fn symbol_view(self) -> Seq<char> {
        self.symbol@
    }

    pub closed spec fn batch_view(self) -> ExecutionBatch {
        self.batch
    }

    pub closed spec fn reservation_view(self) -> PaperReservationRequest {
        self.reservation
    }

    /// Every request is one exact and coherent pair.
    #[verifier::type_invariant]
    pub open spec fn is_coherent(self) -> bool {
        pair_flaw(self.symbol_view(), self.batch_view(), self.reservation_view()) is None
    }

    /// Creates one exact cross-exchange buy/sell pair bound to one reservation;
    /// `InvalidRequest` before any journal or account authority is selected
    /// where the pair is not exact or coherent.
    pub fn new(
        symbol: String,
        batch: ExecutionBatch,
        reservation: PaperReservationRequest,
    ) -> (r: Result<PaperArbitrageRequest, PaperArbitrageSagaError>)
        ensures
            match pair_flaw(symbol@, batch, reservation) {
                None => {
                    &&& r is Ok
                    &&& r->Ok_0.symbol_view() == symbol@
                    &&& r->Ok_0.batch_view() == batch
                    &&& r->Ok_0.reservation_view() == reservation
                },
                Some(flaw) => {
                    &&& r is Err
                    &&& r->Err_0 is InvalidRequest
                    &&& r->Err_0->InvalidRequest_0@ == flaw
                },
            },
    {
        match find_flaw(&symbol, &batch, &reservation) {
            Some(flaw) => Err(PaperArbitrageSagaError::InvalidRequest(flaw)),
            None => Ok(PaperArbitrageRequest { symbol, batch, reservation }),
        }
    }

    pub fn symbol(&self) -> (r: &str)
        ensures
            r@ == self.symbol_view(),
    {
        self.symbol.as_str()
    }

    pub fn batch(&self) -> (r: &ExecutionBatch)
        ensures
            *r == self.batch_view(),
    {
        &self.batch
    }

    pub fn reservation(&self) -> (r: &PaperReservationRequest)
        ensures
            *r == self.reservation_view(),
    {
        &self.reservation
    }
}

/// The place of the first order of the batch that the receipt is for.
pub open spec fn receipt_place(batch: ExecutionBatch, receipt: TradingReceipt) -> Option<int> {
    match receipt {
        TradingReceipt::Submitted { order, .. } => if crate::domain::same_intent(
            batch.intents@[0],
            order.intent,
        ) {
            Some(0int)
        } else if crate::domain::same_intent(batch.intents@[1], order.intent) {
            Some(1int)
        } else {
            None
        },
        TradingReceipt::Cancelled { .. } => None,
    }
}

/// The receipt proves the expected outcome of the order it is for.
pub open spec fn receipt_proves(
    batch: ExecutionBatch,
    receipt: TradingReceipt,
    expected: SubmissionDisposition,
) -> bool {
    receipt_place(batch, receipt) is Some && receipt_confirms(
        batch.intents@[receipt_place(batch, receipt)->0],
        receipt,
        expected,
    )
}

/// The two receipts prove the expected outcome of the two orders, each of a
/// different one, in either sequence.
pub open spec fn pair_is_confirmed(
    batch: ExecutionBatch,
    receipts: Seq<TradingReceipt>,
    expected: SubmissionDisposition,
) -> bool {
    &&& receipts.len() == EXACT_LEG_COUNT
    &&& batch.intents@.len() == EXACT_LEG_COUNT
    &&& receipt_proves(batch, receipts[0], expected)
    &&& receipt_proves(batch, receipts[1], expected)
    &&& receipt_place(batch, receipts[0]) != receipt_place(batch, receipts[1])
}

fn find_place(batch: &ExecutionBatch, receipt: &TradingReceipt) -> (r: Option<usize>)
    requires
        batch.intents@.len() == EXACT_LEG_COUNT,
    ensures
        match receipt_place(*batch, *receipt) {
            Some(place) => r is Some && r->0 == place,
            None => r is None,
        },
        r is Some ==> r->0 < EXACT_LEG_COUNT,
{
    match receipt {
        TradingReceipt::Submitted { order, .. } => {
            if batch.intents[0].equals(&order.intent) {
                Some(0)
            } else if batch.intents[1].equals(&order.intent) {
                Some(1)
            } else {
                None
            }
        },
        TradingReceipt::Cancelled { .. } => None,
    }
}

pub fn receipts_confirm_batch(
    batch: &ExecutionBatch,
    receipts: &Vec<TradingReceipt>,
    expected: SubmissionDisposition,
) -> (r: bool)
    ensures
        r == pair_is_confirmed(*batch, receipts@, expected),
{
    if receipts.len() != EXACT_LEG_COUNT || batch.intents.len() != EXACT_LEG_COUNT {
        return false;
    }
    match (find_place(batch, &receipts[0]), find_place(batch, &receipts[1])) {
        (Some(first), Some(second)) => first != second && receipt_confirming(
            &batch.intents[first],
            &receipts[0],
            expected,
        ) && receipt_confirming(&batch.intents[second], &receipts[1], expected),
        _ => false,
    }
}

/// The receipts that say a disposition; a receipt without one counts as
/// cancelled.
pub open spec fn says(receipt: TradingReceipt, disposition: SubmissionDisposition) -> bool {
    match receipt {
        TradingReceipt::Submitted { disposition: said, .. } => said == disposition,
        TradingReceipt::Cancelled { .. } => disposition == SubmissionDisposition::Cancelled,
    }
}

/// How many of the receipts say a disposition.
pub open spec fn count_saying(
    receipts: Seq<TradingReceipt>,
    disposition: SubmissionDisposition,
) -> nat
    decreases receipts.len(),
{
    if receipts.len() == 0 {
        0
    } else {
        count_saying(receipts.drop_last(), disposition) + if says(receipts.last(), disposition) {
            1nat
        } else {
            0nat
        }
    }
}

/// A bounded summary of receipts.
#[derive(Debug)]
pub struct ReceiptSummary {
    pub receipt_count: usize,
    pub receipts: Vec<TradingReceipt>,
    pub receipts_truncated: bool,
    pub open: usize,
    pub filled: usize,
    pub cancelled: usize,
    pub already_processed: usize,
}

/// The shorter of a length and a bound.
pub open spec fn bounded(len: nat, bound: usize) -> int {
    if len > bound {
        bound as int
    } else {
        len as int
    }
}

/// The first receipts, copied one by one.
pub open spec fn are_first_receipts(
    copies: Seq<TradingReceipt>,
    receipts: Seq<TradingReceipt>,
    bound: usize,
) -> bool {
    &&& copies.len() == bounded(receipts.len(), bound)
    &&& forall|i: int| 0 <= i < copies.len() ==> same_receipt(#[trigger] copies[i], receipts[i])
}

/// The summary counts every receipt once, and holds the first ones.
pub open spec fn is_receipt_summary(summary: ReceiptSummary, receipts: Seq<TradingReceipt>) -> bool {
    &&& summary.receipt_count == receipts.len()
    &&& are_first_receipts(summary.receipts@, receipts, MAX_RECEIPT_SUMMARY_RECEIPTS)
    &&& summary.receipts_truncated == (receipts.len() > MAX_RECEIPT_SUMMARY_RECEIPTS)
    &&& summary.open == count_saying(receipts, SubmissionDisposition::Open)
    &&& summary.filled == count_saying(receipts, SubmissionDisposition::Filled)
    &&& summary.cancelled == count_saying(receipts, SubmissionDisposition::Cancelled)
    &&& summary.already_processed == count_saying(
        receipts,
        SubmissionDisposition::AlreadyProcessed,
    )
}

/// Copies the first receipts.
pub fn first_receipts(receipts: &Vec<TradingReceipt>, bound: usize) -> (r: Vec<TradingReceipt>)
    ensures
        are_first_receipts(r@, receipts@, bound),
{
    let count: usize = if receipts.len() > bound {
        bound
    } else {
        receipts.len()
    };
    let mut out: Vec<TradingReceipt> = Vec::new();
    let mut i: usize = 0;
    while i < count
        invariant
            i <= count <= receipts@.len(),
            out@.len() == i,
            forall|j: int| 0 <= j < i ==> same_receipt(#[trigger] out@[j], receipts@[j]),
        decreases count - i,
    {
        out.push(receipts[i].copy());
        i = i + 1;
    }
    out
}

pub fn receipt_summary(receipts: &Vec<TradingReceipt>) -> (r: ReceiptSummary)
    ensures
        is_receipt_summary(r, receipts@),
{
    let mut open: usize = 0;
    let mut filled: usize = 0;
    let mut cancelled: usize = 0;
    let mut already_processed: usize = 0;
    let mut i: usize = 0;
    while i < receipts.len()
        invariant
            i <= receipts.len(),
            open <= i,
            filled <= i,
            cancelled <= i,
            already_processed <= i,
            open == count_saying(receipts@.take(i as int), SubmissionDisposition::Open),
            filled == count_saying(receipts@.take(i as int), SubmissionDisposition::Filled),
            cancelled == count_saying(receipts@.take(i as int), SubmissionDisposition::Cancelled),
            already_processed == count_saying(
                receipts@.take(i as int),
                SubmissionDisposition::AlreadyProcessed,
            ),
        decreases receipts.len() - i,
    {
        assert(receipts@.take(i + 1).drop_last() =~= receipts@.take(i as int));
        match &receipts[i] {
            TradingReceipt::Submitted { order, disposition } => match disposition {
                SubmissionDisposition::Open => {
                    open = open + 1;
                },
                SubmissionDisposition::Filled => {
                    filled = filled + 1;
                },
                SubmissionDisposition::Cancelled => {
                    cancelled = cancelled + 1;
                },
                SubmissionDisposition::AlreadyProcessed => {
                    already_processed = already_processed + 1;
                },
            },
            TradingReceipt::Cancelled { orders } => {
                cancelled = cancelled + 1;
            },
        }
        i = i + 1;
    }
    assert(receipts@.take(i as int) =~= receipts@);
    ReceiptSummary {
        receipt_count: receipts.len(),
        receipts: first_receipts(receipts, MAX_RECEIPT_SUMMARY_RECEIPTS),
        receipts_truncated: receipts.len() > MAX_RECEIPT_SUMMARY_RECEIPTS,
        open,
        filled,
        cancelled,
        already_processed,
    }
}

/// One order with its place in the batch.
#[derive(Debug)]
pub struct IntentSummary {
    pub index: usize,
    pub intent: OrderIntent,
}

pub fn intent_summary(index: usize, intent: &OrderIntent) -> (r: IntentSummary)
    ensures
        r == (IntentSummary { index, intent: *intent }),
{
    IntentSummary { index, intent: intent.copy() }
}

/// A bounded summary of the reconciliation of one exchange.
#[derive(Debug)]
pub enum ReconciliationSummary {
    Found {
        exchange: String,
        scope: String,
        observed_at: Timestamp,
        orders: Vec<Order>,
        orders_total: usize,
        orders_truncated: bool,
        positions: Vec<Position>,
        positions_total: usize,
        positions_truncated: bool,
    },
    Failed { exchange: String, error: String },
}

/// The summary holds the scope, the time and the first orders and positions of
/// what was found, or the bounded text of the error.
pub open spec fn is_reconciliation_summary(
    summary: ReconciliationSummary,
    observation: ReconciliationObservation,
) -> bool {
    match (observation.result, summary) {
        (
            Ok(receipt),
            ReconciliationSummary::Found {
                exchange,
                scope,
                observed_at,
                orders,
                orders_total,
                orders_truncated,
                positions,
                positions_total,
                positions_truncated,
            },
        ) => {
            &&& exchange == observation.exchange
            &&& scope == receipt.scope
            &&& observed_at == receipt.observed_at
            &&& orders@ == receipt.orders@.take(
                bounded(receipt.orders@.len(), MAX_RECONCILIATION_SUMMARY_ORDERS),
            )
            &&& orders_total == receipt.orders@.len()
            &&& orders_truncated == (receipt.orders@.len() > MAX_RECONCILIATION_SUMMARY_ORDERS)
            &&& positions@ == receipt.positions@.take(
                bounded(receipt.positions@.len(), MAX_RECONCILIATION_SUMMARY_POSITIONS),
            )
            &&& positions_total == receipt.positions@.len()
            &&& positions_truncated == (receipt.positions@.len()
                > MAX_RECONCILIATION_SUMMARY_POSITIONS)
        },
        (Err(text), ReconciliationSummary::Failed { exchange, error }) => {
            &&& exchange == observation.exchange
            &&& is_longest_prefix_within(text@, error@, MAX_ERROR_SUMMARY_BYTES as nat)
        },
        _ => false,
    }
}

fn first_positions(positions: &Vec<Position>, bound: usize) -> (r: Vec<Position>)
    ensures
        r@ == positions@.take(bounded(positions@.len(), bound)),
{
    let count: usize = if positions.len() > bound {
        bound
    } else {
        positions.len()
    };
    let mut out: Vec<Position> = Vec::new();
    let mut i: usize = 0;
    while i < count
        invariant
            i <= count <= positions@.len(),
            out@ == positions@.take(i as int),
        decreases count - i,
    {
        out.push(positions[i].copy());
        assert(out@ =~= positions@.take(i + 1));
        i = i + 1;
    }
    out
}

fn reconciliation_summary(observation: &ReconciliationObservation) -> (r: ReconciliationSummary)
    ensures
        is_reconciliation_summary(r, *observation),
{
    match &observation.result {
        Ok(receipt) => {
            let count: usize = if receipt.orders.len() > MAX_RECONCILIATION_SUMMARY_ORDERS {
                MAX_RECONCILIATION_SUMMARY_ORDERS
            } else {
                receipt.orders.len()
            };
            ReconciliationSummary::Found {
                exchange: observation.exchange.clone(),
                scope: receipt.scope.clone(),
                observed_at: receipt.observed_at,
                orders: copy_orders(&receipt.orders, count),
                orders_total: receipt.orders.len(),
                orders_truncated: receipt.orders.len() > MAX_RECONCILIATION_SUMMARY_ORDERS,
                positions: first_positions(
                    &receipt.positions,
                    MAX_RECONCILIATION_SUMMARY_POSITIONS,
                ),
                positions_total: receipt.positions.len(),
                positions_truncated: receipt.positions.len()
                    > MAX_RECONCILIATION_SUMMARY_POSITIONS,
            }
        },
        Err(text) => ReconciliationSummary::Failed {
            exchange: observation.exchange.clone(),
            error: bounded_error(text),
        },
    }
}

/// What is recorded of an execution that failed.
#[derive(Debug)]
pub enum ExecutionErrorSummary {
    Partial {
        batch_id: u128,
        expected_batch_id: u128,
        failed_index: usize,
        completed: ReceiptSummary,
        failed_intent: IntentSummary,
        unattempted: Vec<IntentSummary>,
        reconciliation: Vec<ReconciliationSummary>,
        source: String,
    },
    Failed { batch_id: u128, error: String },
}

/// The orders after the failed one, each at its own place in the batch.
pub open spec fn are_unattempted(
    summaries: Seq<IntentSummary>,
    partial: PartialExecution,
) -> bool {
    &&& summaries.len() == partial.unattempted@.len()
    &&& forall|i: int|
        0 <= i < summaries.len() ==> #[trigger] summaries[i] == (IntentSummary {
            index: (partial.failed_index + i + 1) as usize,
            intent: partial.unattempted@[i],
        })
}

/// The summary of a failed execution: all of a partial one, bounded, and the
/// bounded text of any other.
pub open spec fn is_error_summary(
    summary: ExecutionErrorSummary,
    failure: RuntimeFailure,
    expected_batch_id: u128,
) -> bool {
    match (failure.partial, summary) {
        (
            Some(partial),
            ExecutionErrorSummary::Partial {
                batch_id,
                expected_batch_id: expected,
                failed_index,
                completed,
                failed_intent,
                unattempted,
                reconciliation,
                source,
            },
        ) => {
            &&& batch_id == partial.batch_id
            &&& expected == expected_batch_id
            &&& failed_index == partial.failed_index
            &&& is_receipt_summary(completed, partial.completed@)
            &&& failed_intent == (IntentSummary {
                index: partial.failed_index,
                intent: partial.failed_intent,
            })
            &&& are_unattempted(unattempted@, partial)
            &&& reconciliation@.len() == partial.reconciliation@.len()
            &&& forall|i: int|
                0 <= i < reconciliation@.len() ==> is_reconciliation_summary(
                    #[trigger] reconciliation@[i],
                    partial.reconciliation@[i],
                )
            &&& is_longest_prefix_within(
                partial.source@,
                source@,
                MAX_ERROR_SUMMARY_BYTES as nat,
            )
        },
        (None, ExecutionErrorSummary::Failed { batch_id, error }) => {
            &&& batch_id == expected_batch_id
            &&& is_longest_prefix_within(
                failure.text@,
                error@,
                MAX_ERROR_SUMMARY_BYTES as nat,
            )
        },
        _ => false,
    }
}

/// The places of the orders after the failed one can be counted.
pub open spec fn places_fit(failure: RuntimeFailure) -> bool {
    match failure.partial {
        Some(partial) => partial.failed_index + partial.unattempted@.len() < usize::MAX,
        None => true,
    }
}

fn summarize_partial(partial: &PartialExecution, expected_batch_id: u128) -> (r:
    ExecutionErrorSummary)
    requires
        partial.failed_index + partial.unattempted@.len() < usize::MAX,
    ensures
        forall|failure: RuntimeFailure|
            failure.partial == Some(*partial) ==> is_error_summary(
                r,
                failure,
                expected_batch_id,
            ),
{
    let mut unattempted: Vec<IntentSummary> = Vec::new();
    let mut i: usize = 0;
    while i < partial.unattempted.len()
        invariant
            i <= partial.unattempted@.len(),
            partial.failed_index + partial.unattempted@.len() < usize::MAX,
            unattempted@.len() == i,
            forall|j: int|
                0 <= j < i ==> #[trigger] unattempted@[j] == (IntentSummary {
                    index: (partial.failed_index + j + 1) as usize,
                    intent: partial.unattempted@[j],
                }),
        decreases partial.unattempted.len() - i,
    {
        unattempted.push(intent_summary(partial.failed_index + i + 1, &partial.unattempted[i]));
        i = i + 1;
    }
    let mut reconciliation: Vec<ReconciliationSummary> = Vec::new();
    let mut k: usize = 0;
    while k < partial.reconciliation.len()
        invariant
            k <= partial.reconciliation@.len(),
            reconciliation@.len() == k,
            forall|j: int|
                0 <= j < k ==> is_reconciliation_summary(
                    #[trigger] reconciliation@[j],
                    partial.reconciliation@[j],
                ),
        decreases partial.reconciliation.len() - k,
    {
        reconciliation.push(reconciliation_summary(&partial.reconciliation[k]));
        k = k + 1;
    }
    ExecutionErrorSummary::Partial {
        batch_id: partial.batch_id,
        expected_batch_id,
        failed_index: partial.failed_index,
        completed: receipt_summary(&partial.completed),
        failed_intent: intent_summary(partial.failed_index, &partial.failed_intent),
        unattempted,
        reconciliation,
        source: bounded_error(&partial.source),
    }
}

/// The decision and the details that a failed execution is recorded under.
pub fn execution_error_summary(failure: &RuntimeFailure, expected_batch_id: u128) -> (r: (
    &'static str,
    ExecutionErrorSummary,
))
    requires
        places_fit(*failure),
    ensures
        r.0@ == if failure.partial is Some {
            "execution_partial"@
        } else {
            "execution_failed"@
        },
        is_error_summary(r.1, *failure, expected_batch_id),
{
    match &failure.partial {
        Some(partial) => ("execution_partial", summarize_partial(partial, expected_batch_id)),
        None => (
            "execution_failed",
            ExecutionErrorSummary::Failed {
                batch_id: expected_batch_id,
                error: bounded_error(&failure.text),
            },
        ),
    }
}

/// What the operator's read model says of a batch.
#[derive(Clone, Copy, Debug, PartialEq, Eq, Structural)]
pub enum ExecutionBatchState {
    OutcomeUnknown,
    Completed,
    Partial,
    Incomplete,
    Failed,
    Conflict,
}

/// What the journal says of a request that the account already knows.
#[derive(Clone, Copy, Debug, PartialEq, Eq, Structural)]
pub enum RecoveryEvidence {
    SnapshotTaskFailed,
    JournalUnreadable,
    ProjectionFailed,
    /// Only a part of the journal could be projected.
    Degraded,
    /// The batch does not occur in the journal.
    Absent,
    Batch(ExecutionBatchState),
}

/// What a known request comes to: completed where the journal and the account
/// both say so, and otherwise the stage that has to be reconciled.
pub open spec fn recovery_result(
    batch_id: u128,
    phase: PaperReservationPhase,
    evidence: RecoveryEvidence,
) -> Result<PaperArbitrageRun, PaperArbitrageSagaError> {
    let recovery = |stage: PaperArbitrageRecoveryStage|
        Err::<PaperArbitrageRun, _>(
            PaperArbitrageSagaError::RecoveryRequired { batch_id, stage },
        );
    match evidence {
        RecoveryEvidence::SnapshotTaskFailed => Err(PaperArbitrageSagaError::SnapshotTaskFailed),
        RecoveryEvidence::JournalUnreadable => Err(PaperArbitrageSagaError::JournalRead),
        RecoveryEvidence::ProjectionFailed => Err(PaperArbitrageSagaError::Projection),
        RecoveryEvidence::Degraded => recovery(PaperArbitrageRecoveryStage::Conflict),
        RecoveryEvidence::Absent => recovery(PaperArbitrageRecoveryStage::ReservedOnly),
        RecoveryEvidence::Batch(state) => match state {
            ExecutionBatchState::Completed => if phase == PaperReservationPhase::Committed || phase
                == PaperReservationPhase::Released {
                Ok(PaperArbitrageRun::AlreadyCompleted { batch_id })
            } else {
                recovery(PaperArbitrageRecoveryStage::AccountFinalizationRequired)
            },
            ExecutionBatchState::OutcomeUnknown => recovery(
                PaperArbitrageRecoveryStage::OutcomeUnknown,
            ),
            ExecutionBatchState::Partial => recovery(PaperArbitrageRecoveryStage::Partial),
            ExecutionBatchState::Incomplete => recovery(PaperArbitrageRecoveryStage::Incomplete),
            ExecutionBatchState::Failed => recovery(PaperArbitrageRecoveryStage::Failed),
            ExecutionBatchState::Conflict => recovery(PaperArbitrageRecoveryStage::Conflict),
        },
    }
}

fn recovery_error(batch_id: u128, stage: PaperArbitrageRecoveryStage) -> (r: Result<
    PaperArbitrageRun,
    PaperArbitrageSagaError,
>)
    ensures
        r == Err::<PaperArbitrageRun, _>(
            PaperArbitrageSagaError::RecoveryRequired { batch_id, stage },
        ),
{
    Err(PaperArbitrageSagaError::RecoveryRequired { batch_id, stage })
}

/// A known request is classified from durable facts.
pub fn classify_existing(
    batch_id: u128,
    phase: PaperReservationPhase,
    evidence: RecoveryEvidence,
) -> (r: Result<PaperArbitrageRun, PaperArbitrageSagaError>)
    ensures
        r == recovery_result(batch_id, phase, evidence),
{
    match evidence {
        RecoveryEvidence::SnapshotTaskFailed => Err(PaperArbitrageSagaError::SnapshotTaskFailed),
        RecoveryEvidence::JournalUnreadable => Err(PaperArbitrageSagaError::JournalRead),
        RecoveryEvidence::ProjectionFailed => Err(PaperArbitrageSagaError::Projection),
        RecoveryEvidence::Degraded => recovery_error(
            batch_id,
            PaperArbitrageRecoveryStage::Conflict,
        ),
        RecoveryEvidence::Absent => recovery_error(
            batch_id,
            PaperArbitrageRecoveryStage::ReservedOnly,
        ),
        RecoveryEvidence::Batch(state) => match state {
            ExecutionBatchState::Completed => {
                if phase == PaperReservationPhase::Committed || phase
                    == PaperReservationPhase::Released {
                    Ok(PaperArbitrageRun::AlreadyCompleted { batch_id })
                } else {
                    recovery_error(
                        batch_id,
                        PaperArbitrageRecoveryStage::AccountFinalizationRequired,
                    )
                }
            },
            ExecutionBatchState::OutcomeUnknown => recovery_error(
                batch_id,
                PaperArbitrageRecoveryStage::OutcomeUnknown,
            ),
            ExecutionBatchState::Partial => recovery_error(
                batch_id,
                PaperArbitrageRecoveryStage::Partial,
            ),
            ExecutionBatchState::Incomplete => recovery_error(
                batch_id,
                PaperArbitrageRecoveryStage::Incomplete,
            ),
            ExecutionBatchState::Failed => recovery_error(
                batch_id,
                PaperArbitrageRecoveryStage::Failed,
            ),
            ExecutionBatchState::Conflict => recovery_error(
                batch_id,
                PaperArbitrageRecoveryStage::Conflict,
            ),
        },
    }
}

/// What the saga waits for.
#[derive(Debug)]
pub enum ArbitrageSagaStage {
    Reservation,
    /// The evidence of the batch that the account holds a reservation of.
    Recovery { batch_id: u128, phase: PaperReservationPhase },
    PlanAppend { reservation_id: u128 },
    Execution { reservation_id: u128 },
    OutcomeAppend { reservation_id: u128, outcome: PaperArbitragePreservedOutcome },
    Settlement { settlement: Settlement, outcome: PaperArbitragePreservedOutcome },
    Finished,
}

/// What an outcome record holds.
#[derive(Debug)]
pub enum PairDetails {
    Completed { batch_id: u128, summary: ReceiptSummary },
    Incomplete { batch_id: u128, expected_receipt_count: usize, summary: ReceiptSummary },
    Failed(ExecutionErrorSummary),
}

/// What the saga asks for.
#[derive(Debug)]
pub enum ArbitrageSagaAction {
    /// The reservation of the request.
    Reserve { reservation_id: u128 },
    ReadRecoveryEvidence { batch_id: u128 },
    AppendPlanned(PlannedRecord),
    /// The batch of the request.
    Execute { batch_id: u128 },
    AppendOutcome(OutcomeRecord<PairDetails>),
    Settle { reservation_id: u128, settlement: Settlement },
    Finish(Result<PaperArbitrageRun, PaperArbitrageSagaError>),
}

/// What came of it.
#[derive(Debug)]
pub enum ArbitrageSagaInput {
    /// The reservation is new and durable, as the account holds it.
    Reserved(PaperReservationView),
    /// The account already holds the reservation, under this batch.
    Existing { batch_id: u128, phase: PaperReservationPhase },
    ReservationFailed,
    Evidence(RecoveryEvidence),
    Appended(bool),
    Executed(Result<Vec<TradingReceipt>, RuntimeFailure>),
    Settled(bool),
}

/// The next stage and what it asks for.
pub type ArbitrageSagaStep = (ArbitrageSagaStage, ArbitrageSagaAction);

/// The outcome that an execution came to.
pub open spec fn outcome_of(
    batch: ExecutionBatch,
    result: Result<Vec<TradingReceipt>, RuntimeFailure>,
) -> PaperArbitragePreservedOutcome {
    match result {
        Ok(receipts) => if pair_is_confirmed(batch, receipts@, SubmissionDisposition::Filled) {
            PaperArbitragePreservedOutcome::Completed(receipts)
        } else {
            PaperArbitragePreservedOutcome::Incomplete(receipts)
        },
        Err(failure) => PaperArbitragePreservedOutcome::Failed(failure),
    }
}

/// What becomes of the capacity once the outcome is durable: a proven pair
/// commits the gross notional of the reservation, a pair that was proven
/// cancelled without a fill releases it, and anything else keeps it. Nothing
/// where the amount to commit cannot be computed.
pub open spec fn pair_settlement(
    request: PaperArbitrageRequest,
    outcome: PaperArbitragePreservedOutcome,
) -> Option<Settlement> {
    match outcome {
        PaperArbitragePreservedOutcome::Completed(_) => match decimal_in(
            gross_of(request.reservation_view().legs@),
        ) {
            Some(amount) => Some(Settlement::Commit { amount }),
            None => None,
        },
        PaperArbitragePreservedOutcome::Incomplete(receipts) => if pair_is_confirmed(
            request.batch_view(),
            receipts@,
            SubmissionDisposition::Cancelled,
        ) {
            Some(Settlement::Release { reason: "all_legs_cancelled" })
        } else {
            Some(Settlement::MarkUncertain)
        },
        PaperArbitragePreservedOutcome::Failed(_) => Some(Settlement::MarkUncertain),
    }
}

fn settle(request: &PaperArbitrageRequest, outcome: &PaperArbitragePreservedOutcome) -> (r: Option<
    Settlement,
>)
    ensures
        r == pair_settlement(*request, *outcome),
{
    match outcome {
        PaperArbitragePreservedOutcome::Completed(_) => match gross_notional(
            request.reservation(),
        ) {
            Some(amount) => Some(Settlement::Commit { amount }),
            None => None,
        },
        PaperArbitragePreservedOutcome::Incomplete(receipts) => {
            if receipts_confirm_batch(
                request.batch(),
                receipts,
                SubmissionDisposition::Cancelled,
            ) {
                Some(Settlement::Release { reason: "all_legs_cancelled" })
            } else {
                Some(Settlement::MarkUncertain)
            }
        },
        PaperArbitragePreservedOutcome::Failed(_) => Some(Settlement::MarkUncertain),
    }
}

/// The decision that an outcome is recorded under.
pub open spec fn pair_decision(outcome: PaperArbitragePreservedOutcome) -> Seq<char> {
    match outcome {
        PaperArbitragePreservedOutcome::Completed(_) => "execution_completed"@,
        PaperArbitragePreservedOutcome::Incomplete(_) => "execution_incomplete"@,
        PaperArbitragePreservedOutcome::Failed(failure) => if failure.partial is Some {
            "execution_partial"@
        } else {
            "execution_failed"@
        },
    }
}

/// The details tell the outcome of the batch.
pub open spec fn are_pair_details(
    details: PairDetails,
    batch: ExecutionBatch,
    outcome: PaperArbitragePreservedOutcome,
) -> bool {
    match (details, outcome) {
        (
            PairDetails::Completed { batch_id, summary },
            PaperArbitragePreservedOutcome::Completed(receipts),
        ) => batch_id == batch.id && is_receipt_summary(summary, receipts@),
        (
            PairDetails::Incomplete { batch_id, expected_receipt_count, summary },
            PaperArbitragePreservedOutcome::Incomplete(receipts),
        ) => batch_id == batch.id && expected_receipt_count == EXACT_LEG_COUNT
            && is_receipt_summary(summary, receipts@),
        (
            PairDetails::Failed(summary),
            PaperArbitragePreservedOutcome::Failed(failure),
        ) => is_error_summary(summary, failure, batch.id),
        _ => false,
    }
}

/// An execution that failed can be summed up.
pub open spec fn can_be_taken(input: ArbitrageSagaInput) -> bool {
    match input {
        ArbitrageSagaInput::Executed(Err(failure)) => places_fit(failure),
        _ => true,
    }
}

/// The result once the outcome is durable and the capacity is settled.
pub open spec fn pair_result(outcome: PaperArbitragePreservedOutcome) -> Result<
    PaperArbitrageRun,
    PaperArbitrageSagaError,
> {
    match outcome {
        PaperArbitragePreservedOutcome::Completed(receipts) => Ok(
            PaperArbitrageRun::Completed { receipts },
        ),
        PaperArbitragePreservedOutcome::Incomplete(receipts) => Err(
            PaperArbitrageSagaError::Incomplete(receipts),
        ),
        PaperArbitragePreservedOutcome::Failed(failure) => Err(
            PaperArbitrageSagaError::Execution(failure),
        ),
    }
}

/// The saga is over.
pub open spec fn saga_finished(
    result: Result<PaperArbitrageRun, PaperArbitrageSagaError>,
) -> ArbitrageSagaStep {
    (ArbitrageSagaStage::Finished, ArbitrageSagaAction::Finish(result))
}

/// The stages that an input belongs to, and what follows. An outcome whose
/// record or settlement fails is kept in the error; any other input that a
/// stage does not wait for fails the saga.
pub open spec fn is_arbitrage_saga_step(
    request: PaperArbitrageRequest,
    stage: ArbitrageSagaStage,
    input: ArbitrageSagaInput,
    step: ArbitrageSagaStep,
) -> bool {
    match (stage, input) {
        (ArbitrageSagaStage::Reservation, ArbitrageSagaInput::Reserved(reservation)) => {
            &&& step.0 == (ArbitrageSagaStage::PlanAppend {
                reservation_id: reservation.reservation_id,
            })
            &&& step.1 is AppendPlanned
            &&& step.1->AppendPlanned_0.strategy@ == "arbitrage"@
            &&& step.1->AppendPlanned_0.saga@ == "paper_arbitrage_saga"@
            &&& step.1->AppendPlanned_0.schema_version == PAPER_ARBITRAGE_SAGA_SCHEMA_VERSION
            &&& plans(
                step.1->AppendPlanned_0,
                request.symbol_view(),
                request.batch_view(),
                reservation,
            )
        },
        (ArbitrageSagaStage::Reservation, ArbitrageSagaInput::Existing { batch_id, phase }) => step
            == (
            ArbitrageSagaStage::Recovery { batch_id, phase },
            ArbitrageSagaAction::ReadRecoveryEvidence { batch_id },
        ),
        (ArbitrageSagaStage::Reservation, ArbitrageSagaInput::ReservationFailed) => step
            == saga_finished(Err(PaperArbitrageSagaError::Account)),
        (
            ArbitrageSagaStage::Recovery { batch_id, phase },
            ArbitrageSagaInput::Evidence(evidence),
        ) => step == saga_finished(recovery_result(batch_id, phase, evidence)),
        (
            ArbitrageSagaStage::PlanAppend { reservation_id },
            ArbitrageSagaInput::Appended(true),
        ) => step == (
            ArbitrageSagaStage::Execution { reservation_id },
            ArbitrageSagaAction::Execute { batch_id: request.batch_view().id },
        ),
        (
            ArbitrageSagaStage::Execution { reservation_id },
            ArbitrageSagaInput::Executed(result),
        ) => {
            let outcome = outcome_of(request.batch_view(), result);
            &&& step.0 == (ArbitrageSagaStage::OutcomeAppend { reservation_id, outcome })
            &&& step.1 is AppendOutcome
            &&& step.1->AppendOutcome_0.strategy@ == "arbitrage"@
            &&& step.1->AppendOutcome_0.symbol@ == request.symbol_view()
            &&& step.1->AppendOutcome_0.decision@ == pair_decision(outcome)
            &&& are_pair_details(
                step.1->AppendOutcome_0.details,
                request.batch_view(),
                outcome,
            )
        },
        (
            ArbitrageSagaStage::OutcomeAppend { reservation_id, outcome },
            ArbitrageSagaInput::Appended(true),
        ) => {
            match pair_settlement(request, outcome) {
                Some(settlement) => step == (
                    ArbitrageSagaStage::Settlement { settlement, outcome },
                    ArbitrageSagaAction::Settle { reservation_id, settlement },
                ),
                None => step == saga_finished(Err(PaperArbitrageSagaError::Account)),
            }
        },
        (ArbitrageSagaStage::OutcomeAppend { outcome, .. }, _) => step == saga_finished(
            Err(PaperArbitrageSagaError::OutcomeJournal { outcome }),
        ),
        (
            ArbitrageSagaStage::Settlement { settlement, outcome },
            ArbitrageSagaInput::Settled(true),
        ) => step == saga_finished(pair_result(outcome)),
        (ArbitrageSagaStage::Settlement { settlement, outcome }, _) => step == saga_finished(
            Err(PaperArbitrageSagaError::AccountFinalization { outcome }),
        ),
        _ => step == saga_finished(Err(PaperArbitrageSagaError::JournalWrite)),
    }
}

fn finish(result: Result<PaperArbitrageRun, PaperArbitrageSagaError>) -> (r: ArbitrageSagaStep)
    ensures
        r == saga_finished(result),
{
    (ArbitrageSagaStage::Finished, ArbitrageSagaAction::Finish(result))
}

fn append_outcome(
    request: &PaperArbitrageRequest,
    reservation_id: u128,
    outcome: PaperArbitragePreservedOutcome,
    decision: &'static str,
    details: PairDetails,
) -> (r: ArbitrageSagaStep)
    ensures
        r.0 == (ArbitrageSagaStage::OutcomeAppend { reservation_id, outcome }),
        r.1 is AppendOutcome,
        r.1->AppendOutcome_0.strategy@ == "arbitrage"@,
        r.1->AppendOutcome_0.symbol@ == request.symbol_view(),
        r.1->AppendOutcome_0.decision == decision,
        r.1->AppendOutcome_0.details == details,
{
    (
        ArbitrageSagaStage::OutcomeAppend { reservation_id, outcome },
        ArbitrageSagaAction::AppendOutcome(
            OutcomeRecord {
                strategy: "arbitrage",
                symbol: request.symbol().to_owned(),
                decision,
                details,
            },
        ),
    )
}

fn consume_execution(
    request: &PaperArbitrageRequest,
    reservation_id: u128,
    result: Result<Vec<TradingReceipt>, RuntimeFailure>,
) -> (r: ArbitrageSagaStep)
    requires
        can_be_taken(ArbitrageSagaInput::Executed(result)),
    ensures
        is_arbitrage_saga_step(
            *request,
            ArbitrageSagaStage::Execution { reservation_id },
            ArbitrageSagaInput::Executed(result),
            r,
        ),
{
    let batch_id: u128 = request.batch().id;
    match result {
        Ok(receipts) => {
            let summary: ReceiptSummary = receipt_summary(&receipts);
            if receipts_confirm_batch(request.batch(), &receipts, SubmissionDisposition::Filled) {
                return append_outcome(
                    request,
                    reservation_id,
                    PaperArbitragePreservedOutcome::Completed(receipts),
                    "execution_completed",
                    PairDetails::Completed { batch_id, summary },
                );
            }
            append_outcome(
                request,
                reservation_id,
                PaperArbitragePreservedOutcome::Incomplete(receipts),
                "execution_incomplete",
                PairDetails::Incomplete {
                    batch_id,
                    expected_receipt_count: EXACT_LEG_COUNT,
                    summary,
                },
            )
        },
        Err(failure) => {
            let (decision, summary) = execution_error_summary(&failure, batch_id);
            append_outcome(
                request,
                reservation_id,
                PaperArbitragePreservedOutcome::Failed(failure),
                decision,
                PairDetails::Failed(summary),
            )
        },
    }
}

/// The end of a saga whose outcome is durable and whose capacity is settled.
fn finish_new(outcome: PaperArbitragePreservedOutcome) -> (r: Result<
    PaperArbitrageRun,
    PaperArbitrageSagaError,
>)
    ensures
        r == pair_result(outcome),
{
    match outcome {
        PaperArbitragePreservedOutcome::Completed(receipts) => Ok(
            PaperArbitrageRun::Completed { receipts },
        ),
        PaperArbitragePreservedOutcome::Incomplete(receipts) => Err(
            PaperArbitrageSagaError::Incomplete(receipts),
        ),
        PaperArbitragePreservedOutcome::Failed(failure) => Err(
            PaperArbitrageSagaError::Execution(failure),
        ),
    }
}

/// Journal-first owner for one exact paper pair.
#[derive(Debug)]
pub struct DurablePaperArbitrageSaga {
    request: PaperArbitrageRequest,
}

impl DurablePaperArbitrageSaga {
    pub closed spec fn request_view(self) -> PaperArbitrageRequest {
        self.request
    }

    /// Binds the saga to one pair. The account and the journal must be the same
    /// journal.
    pub fn new(request: PaperArbitrageRequest, same_journal: bool) -> (r: Result<
        DurablePaperArbitrageSaga,
        PaperArbitrageSagaError,
    >)
        ensures
            same_journal ==> r is Ok && r->Ok_0.request_view() == request,
            !same_journal ==> r is Err && r->Err_0 is InvalidRequest && r->Err_0->InvalidRequest_0@
                == "paper account and execution saga must share one journal"@,
    {
        if !same_journal {
            return Err(
                PaperArbitrageSagaError::InvalidRequest(
                    "paper account and execution saga must share one journal",
                ),
            );
        }
        Ok(DurablePaperArbitrageSaga { request })
    }

    pub fn request(&self) -> (r: &PaperArbitrageRequest)
        ensures
            *r == self.request_view(),
    {
        &self.request
    }

    /// Runs one journal-first exact-pair paper command: the first step reserves
    /// the capacity.
    pub fn run(&self) -> (r: ArbitrageSagaStep)
        ensures
            r == (
                ArbitrageSagaStage::Reservation,
                ArbitrageSagaAction::Reserve {
                    reservation_id: self.request_view().reservation_view().reservation_id,
                },
            ),
    {
        (
            ArbitrageSagaStage::Reservation,
            ArbitrageSagaAction::Reserve {
                reservation_id: self.request.reservation().reservation_id,
            },
        )
    }

    /// Takes what came of the last action and says what to do next.
    pub fn step(&self, stage: ArbitrageSagaStage, input: ArbitrageSagaInput) -> (r:
        ArbitrageSagaStep)
        requires
            can_be_taken(input),
        ensures
            is_arbitrage_saga_step(self.request_view(), stage, input, r),
    {
        match (stage, input) {
            (ArbitrageSagaStage::Reservation, ArbitrageSagaInput::Reserved(reservation)) => (
                ArbitrageSagaStage::PlanAppend { reservation_id: reservation.reservation_id },
                ArbitrageSagaAction::AppendPlanned(
                    planned_record(
                        "arbitrage",
                        "paper_arbitrage_saga",
                        PAPER_ARBITRAGE_SAGA_SCHEMA_VERSION,
                        self.request.symbol(),
                        self.request.batch(),
                        &reservation,
                    ),
                ),
            ),
            (ArbitrageSagaStage::Reservation, ArbitrageSagaInput::Existing { batch_id, phase }) => (
                ArbitrageSagaStage::Recovery { batch_id, phase },
                ArbitrageSagaAction::ReadRecoveryEvidence { batch_id },
            ),
            (ArbitrageSagaStage::Reservation, ArbitrageSagaInput::ReservationFailed) => finish(
                Err(PaperArbitrageSagaError::Account),
            ),
            (
                ArbitrageSagaStage::Recovery { batch_id, phase },
                ArbitrageSagaInput::Evidence(evidence),
            ) => finish(classify_existing(batch_id, phase, evidence)),
            (
                ArbitrageSagaStage::PlanAppend { reservation_id },
                ArbitrageSagaInput::Appended(true),
            ) => (
                ArbitrageSagaStage::Execution { reservation_id },
                ArbitrageSagaAction::Execute { batch_id: self.request.batch().id },
            ),
            (
                ArbitrageSagaStage::Execution { reservation_id },
                ArbitrageSagaInput::Executed(result),
            ) => consume_execution(&self.request, reservation_id, result),
            (
                ArbitrageSagaStage::OutcomeAppend { reservation_id, outcome },
                ArbitrageSagaInput::Appended(true),
            ) => {
                match settle(&self.request, &outcome) {
                    Some(settlement) => (
                        ArbitrageSagaStage::Settlement { settlement, outcome },
                        ArbitrageSagaAction::Settle { reservation_id, settlement },
                    ),
                    None => finish(Err(PaperArbitrageSagaError::Account)),
                }
            },
            (ArbitrageSagaStage::OutcomeAppend { outcome, .. }, _) => finish(
                Err(PaperArbitrageSagaError::OutcomeJournal { outcome }),
            ),
            (
                ArbitrageSagaStage::Settlement { settlement, outcome },
                ArbitrageSagaInput::Settled(true),
            ) => finish(finish_new(outcome)),
            (ArbitrageSagaStage::Settlement { settlement, outcome }, _) => finish(
                Err(PaperArbitrageSagaError::AccountFinalization { outcome }),
            ),
            _ => finish(Err(PaperArbitrageSagaError::JournalWrite)),
        }
    }
}

/// The text of a preserved outcome, without anything that it holds.
pub open spec fn preserved_text(outcome: PaperArbitragePreservedOutcome) -> Seq<char> {
    match outcome {
        PaperArbitragePreservedOutcome::Completed(receipts) => "completed outcome with "@
            + digits_of(receipts@.len()) + " receipt(s)"@,
        PaperArbitragePreservedOutcome::Incomplete(receipts) => "incomplete outcome with "@
            + digits_of(receipts@.len()) + " receipt(s)"@,
        PaperArbitragePreservedOutcome::Failed(_) => "failed outcome"@,
    }
}

fn counted(head: &str, count: usize, tail: &str) -> (r: String)
    ensures
        r@ == head@ + digits_of(count as nat) + tail@,
{
    let digits: String = padded_number(count as u64, 0);
    assert(digits@ =~= digits_of(count as nat));
    joined(&joined(head, &digits), tail)
}

impl PaperArbitragePreservedOutcome {
    /// The text of the outcome, without anything that it holds.
    pub fn safe_summary(&self) -> (r: String)
        ensures
            r@ == preserved_text(*self),
    {
        match self {
            PaperArbitragePreservedOutcome::Completed(receipts) => counted(
                "completed outcome with ",
                receipts.len(),
                " receipt(s)",
            ),
            PaperArbitragePreservedOutcome::Incomplete(receipts) => counted(
                "incomplete outcome with ",
                receipts.len(),
                " receipt(s)",
            ),
            PaperArbitragePreservedOutcome::Failed(_) => "failed outcome".to_owned(),
        }
    }
}

pub open spec fn recovery_stage_name(stage: PaperArbitrageRecoveryStage) -> Seq<char> {
    match stage {
        PaperArbitrageRecoveryStage::ReservedOnly => "ReservedOnly"@,
        PaperArbitrageRecoveryStage::OutcomeUnknown => "OutcomeUnknown"@,
        PaperArbitrageRecoveryStage::Partial => "Partial"@,
        PaperArbitrageRecoveryStage::Incomplete => "Incomplete"@,
        PaperArbitrageRecoveryStage::Failed => "Failed"@,
        PaperArbitrageRecoveryStage::AccountFinalizationRequired => "AccountFinalizationRequired"@,
        PaperArbitrageRecoveryStage::Conflict => "Conflict"@,
    }
}

impl PaperArbitrageRecoveryStage {
    pub fn name(self) -> (r: &'static str)
        ensures
            r@ == recovery_stage_name(self),
    {
        match self {
            PaperArbitrageRecoveryStage::ReservedOnly => "ReservedOnly",
            PaperArbitrageRecoveryStage::OutcomeUnknown => "OutcomeUnknown",
            PaperArbitrageRecoveryStage::Partial => "Partial",
            PaperArbitrageRecoveryStage::Incomplete => "Incomplete",
            PaperArbitrageRecoveryStage::Failed => "Failed",
            PaperArbitrageRecoveryStage::AccountFinalizationRequired => "AccountFinalizationRequired",
            PaperArbitrageRecoveryStage::Conflict => "Conflict",
        }
    }
}

/// The text of an error; `cause` is the text of what the account, the journal or
/// the projection said.
pub open spec fn arbitrage_saga_error_text(error: PaperArbitrageSagaError, cause: Seq<char>) -> Seq<
    char,
> {
    match error {
        PaperArbitrageSagaError::InvalidRequest(reason) => "invalid paper arbitrage request: "@
            + reason@,
        PaperArbitrageSagaError::RecoveryRequired { batch_id, stage } => "paper batch "@ + id_text(
            batch_id,
        ) + " requires "@ + recovery_stage_name(stage)
            + " recovery; automatic retry is disabled"@,
        PaperArbitrageSagaError::Account => cause,
        PaperArbitrageSagaError::JournalRead => cause,
        PaperArbitrageSagaError::Projection => cause,
        PaperArbitrageSagaError::JournalWrite => cause,
        PaperArbitrageSagaError::Execution(failure) => failure.text@,
        PaperArbitrageSagaError::Incomplete(receipts) => "paper arbitrage returned "@ + digits_of(
            receipts@.len(),
        ) + " receipt(s) for two legs; reconcile before any action"@,
        PaperArbitrageSagaError::OutcomeJournal { outcome } => "paper execution produced "@
            + preserved_text(outcome) + ", but its outcome journal failed: "@ + cause,
        PaperArbitrageSagaError::AccountFinalization { outcome } => "paper execution produced "@
            + preserved_text(outcome) + ", but account finalization failed: "@ + cause,
        PaperArbitrageSagaError::SnapshotTaskFailed => "paper recovery snapshot worker failed"@,
    }
}

impl PaperArbitrageSagaError {
    /// The text of the error; `cause` is the text of what the account, the
    /// journal or the projection said.
    pub fn message(&self, cause: &str) -> (r: String)
        ensures
            r@ == arbitrage_saga_error_text(*self, cause@),
    {
        match self {
            PaperArbitrageSagaError::InvalidRequest(reason) => joined(
                "invalid paper arbitrage request: ",
                reason,
            ),
            PaperArbitrageSagaError::RecoveryRequired { batch_id, stage } => {
                let head: String = joined(
                    &joined("paper batch ", &text_of_id(*batch_id)),
                    " requires ",
                );
                joined(&joined(&head, stage.name()), " recovery; automatic retry is disabled")
            },
            PaperArbitrageSagaError::Account | PaperArbitrageSagaError::JournalRead
            | PaperArbitrageSagaError::Projection | PaperArbitrageSagaError::JournalWrite =>
                cause.to_owned(),
            PaperArbitrageSagaError::Execution(failure) => failure.text.clone(),
            PaperArbitrageSagaError::Incomplete(receipts) => counted(
                "paper arbitrage returned ",
                receipts.len(),
                " receipt(s) for two legs; reconcile before any action",
            ),
            PaperArbitrageSagaError::OutcomeJournal { outcome } => {
                let head: String = joined("paper execution produced ", &outcome.safe_summary());
                joined(&joined(&head, ", but its outcome journal failed: "), cause)
            },
            PaperArbitrageSagaError::AccountFinalization { outcome } => {
                let head: String = joined("paper execution produced ", &outcome.safe_summary());
                joined(&joined(&head, ", but account finalization failed: "), cause)
            },
            PaperArbitrageSagaError::SnapshotTaskFailed =>
                "paper recovery snapshot worker failed".to_owned(),
        }
    }
}

} // verus!
