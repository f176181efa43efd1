//! Journal-first execution of one single-leg paper operation.
//!
//! Capacity is reserved first, the plan is made durable, and only then is the
//! order executed. What comes back decides the capacity: a proven fill commits
//! it, a proven cancel releases it, and anything else keeps it as uncertain.

use crate::decimal::{decimal_in, same_number, Decimal};
use crate::domain::{same_intent, OrderIntent, OrderStatus, SubmissionDisposition, TradingReceipt};
use crate::ids::{id_text, text_of_id};
use crate::paper_account::PaperReservationPhase;
use crate::paper_arbitrage_saga::{are_first_receipts, first_receipts};
use crate::replay::number_text;
use crate::requests::{
    gross_notional, gross_of, leg_matches, leg_matching, ExecutionBatch, PaperReservationRequest,
    PaperReservationView,
};
use crate::saga_records::{planned_record, plans, OutcomeRecord, PlannedRecord};
use crate::text::{is_longest_prefix_within, joined, padded_number, prefix_within};
use vstd::prelude::*;

verus! {

/// Stable version of the single-leg recovery context written to the journal.
pub const PAPER_SINGLE_LEG_SAGA_SCHEMA_VERSION: u16 = 1;

pub const MAX_ERROR_SUMMARY_BYTES: usize = 2_048;

/// Fail-closed errors for single-leg paper execution.
#[derive(Debug)]
pub enum PaperSingleLegSagaError {
    InvalidRequest(&'static str),
    RecoveryRequired { batch_id: u128, phase: PaperReservationPhase },
    Account,
    Journal,
    Execution,
    Incomplete(Vec<TradingReceipt>),
}

/// Terminal result of one single-leg saga run.
#[derive(Debug)]
pub enum PaperSingleLegRun {
    Completed { receipts: Vec<TradingReceipt> },
    Cancelled { receipts: Vec<TradingReceipt> },
    AlreadyTerminal { batch_id: u128, phase: PaperReservationPhase },
}

/// One independently identified single-leg paper operation.
#[derive(Debug)]
pub struct PaperSingleLegRequest {
    symbol: String,
    batch: ExecutionBatch,
    reservation: PaperReservationRequest,
}

/// Why a request is not one coherent single-leg operation, in the order in
/// which it is checked.
pub open spec fn single_leg_flaw(
    symbol: Seq<char>,
    batch: ExecutionBatch,
    reservation: PaperReservationRequest,
) -> Option<Seq<char>> {
    if batch.intents@.len() != 1 || reservation.legs@.len() != 1 {
        Some("single-leg paper saga requires exactly one leg"@)
    } else if reservation.batch_id != batch.id {
        Some("paper reservation batch id does not match execution batch"@)
    } else if !leg_matches(reservation.legs@[0], batch.intents@[0], 0, symbol) {
        Some("paper reservation leg does not match execution intent"@)
    } else {
        None
    }
}

fn find_flaw(symbol: &str, batch: &ExecutionBatch, reservation: &PaperReservationRequest) -> (r:
    Option<&'static str>)
    ensures
        match single_leg_flaw(symbol@, *batch, *reservation) {
            Some(flaw) => r is Some && r->0@ == flaw,
            None => r is None,
        },
{
    if batch.intents.len() != 1 || reservation.legs.len() != 1 {
        return Some("single-leg paper saga requires exactly one leg");
    }
    if reservation.batch_id != batch.id {
        return Some("paper reservation batch id does not match execution batch");
    }
    if !leg_matching(&reservation.legs[0], &batch.intents[0], 0, symbol) {
        return Some("paper reservation leg does not match execution intent");
    }
    None
}

impl PaperSingleLegRequest {
    pub closed spec fn symbol_view(self) -> Seq<char> {
        self.symbol@
    }

    pub closed spec fn batch_view(self) -> ExecutionBatch {
        self.batch
    }

    pub closed spec fn reservation_view(self) -> PaperReservationRequest {
        self.reservation
    }

    /// Every request is one coherent single-leg operation.
    #[verifier::type_invariant]
    pub open spec fn is_coherent(self) -> bool {
        single_leg_flaw(self.symbol_view(), self.batch_view(), self.reservation_view()) is None
    }

    /// Creates one coherent single-leg execution and reservation pair;
    /// `InvalidRequest` before any durable write where the batch is not exactly
    /// one leg or identities disagree.
    pub fn new(
        symbol: String,
        batch: ExecutionBatch,
        reservation: PaperReservationRequest,
    ) -> (r: Result<PaperSingleLegRequest, PaperSingleLegSagaError>)
        ensures
            match single_leg_flaw(symbol@, batch, reservation) {
                None => {
                    &&& r is Ok
                    &&& r->Ok_0.symbol_view() == symbol@
                    &&& r->Ok_0.batch_view() == batch
                    &&& r->Ok_0.reservation_view() == reservation
                },
                Some(flaw) => {
                    &&& r is Err
                    &&& r->Err_0 is InvalidRequest
                    &&& r->Err_0->InvalidRequest_0@ == flaw
                },
            },
    {
        match find_flaw(&symbol, &batch, &reservation) {
            Some(flaw) => Err(PaperSingleLegSagaError::InvalidRequest(flaw)),
            None => Ok(PaperSingleLegRequest { symbol, batch, reservation }),
        }
    }

    pub fn symbol(&self) -> (r: &str)
        ensures
            r@ == self.symbol_view(),
    {
        self.symbol.as_str()
    }

    pub fn batch(&self) -> (r: &ExecutionBatch)
        ensures
            *r == self.batch_view(),
    {
        &self.batch
    }

    pub fn reservation(&self) -> (r: &PaperReservationRequest)
        ensures
            *r == self.reservation_view(),
    {
        &self.reservation
    }
}

/// The receipt proves that the order was filled completely, or that it was
/// cancelled without any fill.
pub open spec fn receipt_confirms(
    intent: OrderIntent,
    receipt: TradingReceipt,
    expected: SubmissionDisposition,
) -> bool {
    match receipt {
        TradingReceipt::Submitted { order, disposition } => {
            &&& same_intent(order.intent, intent)
            &&& disposition == expected
            &&& match expected {
                SubmissionDisposition::Filled => order.status == OrderStatus::Filled && same_number(
                    order.filled_quantity@,
                    intent.quantity@,
                ),
                SubmissionDisposition::Cancelled => order.status == OrderStatus::Cancelled
                    && order.filled_quantity@.0 == 0,
                _ => false,
            }
        },
        TradingReceipt::Cancelled { .. } => false,
    }
}

pub fn receipt_confirming(
    intent: &OrderIntent,
    receipt: &TradingReceipt,
    expected: SubmissionDisposition,
) -> (r: bool)
    ensures
        r == receipt_confirms(*intent, *receipt, expected),
{
    match receipt {
        TradingReceipt::Submitted { order, disposition } => {
            if !order.intent.equals(intent) || *disposition != expected {
                return false;
            }
            match expected {
                SubmissionDisposition::Filled => order.status == OrderStatus::Filled
                    && order.filled_quantity.equals(intent.quantity),
                SubmissionDisposition::Cancelled => order.status == OrderStatus::Cancelled
                    && order.filled_quantity.is_zero(),
                _ => false,
            }
        },
        TradingReceipt::Cancelled { .. } => false,
    }
}

/// The one receipt proves the expected outcome of the one order.
pub open spec fn batch_is_confirmed(
    batch: ExecutionBatch,
    receipts: Seq<TradingReceipt>,
    expected: SubmissionDisposition,
) -> bool {
    batch.intents@.len() == 1 && receipts.len() == 1 && receipt_confirms(
        batch.intents@[0],
        receipts[0],
        expected,
    )
}

pub fn receipts_confirm_batch(
    batch: &ExecutionBatch,
    receipts: &Vec<TradingReceipt>,
    expected: SubmissionDisposition,
) -> (r: bool)
    ensures
        r == batch_is_confirmed(*batch, receipts@, expected),
{
    batch.intents.len() == 1 && receipts.len() == 1 && receipt_confirming(
        &batch.intents[0],
        &receipts[0],
        expected,
    )
}

/// The text of an error, cut to the summary's bound between two characters.
pub fn bounded_error(value: &str) -> (r: String)
    ensures
        is_longest_prefix_within(value@, r@, MAX_ERROR_SUMMARY_BYTES as nat),
{
    prefix_within(value, MAX_ERROR_SUMMARY_BYTES)
}

/// What the account does with the reserved capacity.
#[derive(Clone, Copy, Debug)]
pub enum Settlement {
    /// The amount is committed: the gross notional of the reservation.
    Commit { amount: Decimal },
    /// The capacity is released for this reason.
    Release { reason: &'static str },
    /// The capacity is kept until the outcome is reconciled.
    MarkUncertain,
}

/// What the saga waits for.
#[derive(Debug)]
pub enum SingleLegStage {
    Reservation,
    PlanAppend { reservation_id: u128 },
    Execution { reservation_id: u128 },
    OutcomeAppend { reservation_id: u128, receipts: Option<Vec<TradingReceipt>> },
    Settlement { settlement: Settlement, receipts: Option<Vec<TradingReceipt>> },
    Finished,
}

/// What an outcome record holds: all receipts, or the bounded text of the
/// failure.
#[derive(Debug)]
pub enum SingleLegDetails {
    Receipts { batch_id: u128, receipts: Vec<TradingReceipt> },
    Failed { batch_id: u128, error: String },
}

/// What the saga asks for.
#[derive(Debug)]
pub enum SingleLegAction {
    /// The reservation of the request.
    Reserve { reservation_id: u128 },
    AppendPlanned(PlannedRecord),
    /// The batch of the request.
    Execute { batch_id: u128 },
    AppendOutcome(OutcomeRecord<SingleLegDetails>),
    Settle { reservation_id: u128, settlement: Settlement },
    Finish(Result<PaperSingleLegRun, PaperSingleLegSagaError>),
}

/// What came of it.
#[derive(Debug)]
pub enum SingleLegInput {
    /// The reservation is new and durable, as the account holds it.
    Reserved(PaperReservationView),
    /// The account already holds the reservation, under this batch.
    Existing { batch_id: u128, phase: PaperReservationPhase },
    ReservationFailed,
    Appended(bool),
    /// The receipts of the execution, or the text of its failure.
    Executed(Result<Vec<TradingReceipt>, String>),
    Settled(bool),
}

/// The next stage and what it asks for.
pub type SingleLegStep = (SingleLegStage, SingleLegAction);

/// The receipts that an execution came back with.
pub open spec fn received(result: Result<Vec<TradingReceipt>, String>) -> Option<
    Vec<TradingReceipt>,
> {
    match result {
        Ok(receipts) => Some(receipts),
        Err(_) => None,
    }
}

/// The details tell the whole outcome of the batch.
pub open spec fn are_single_leg_details(
    details: SingleLegDetails,
    batch: ExecutionBatch,
    result: Result<Vec<TradingReceipt>, String>,
) -> bool {
    match (details, result) {
        (SingleLegDetails::Receipts { batch_id, receipts }, Ok(found)) => {
            &&& batch_id == batch.id
            &&& receipts@.len() == found@.len()
            &&& are_first_receipts(receipts@, found@, found.len())
        },
        (SingleLegDetails::Failed { batch_id, error }, Err(text)) => {
            &&& batch_id == batch.id
            &&& is_longest_prefix_within(text@, error@, MAX_ERROR_SUMMARY_BYTES as nat)
        },
        _ => false,
    }
}

/// The decision that an outcome is recorded under.
pub open spec fn outcome_decision(
    batch: ExecutionBatch,
    receipts: Option<Vec<TradingReceipt>>,
) -> Seq<char> {
    match receipts {
        None => "execution_failed"@,
        Some(found) => if batch_is_confirmed(batch, found@, SubmissionDisposition::Filled) {
            "execution_completed"@
        } else {
            "execution_incomplete"@
        },
    }
}

/// What becomes of the capacity once the outcome is durable: a proven fill
/// commits the gross notional of the reservation, a proven cancel releases it,
/// and anything else keeps it. Nothing where the amount to commit cannot be
/// computed.
pub open spec fn settlement_of(
    request: PaperSingleLegRequest,
    receipts: Option<Vec<TradingReceipt>>,
) -> Option<Settlement> {
    match receipts {
        None => Some(Settlement::MarkUncertain),
        Some(found) => if batch_is_confirmed(
            request.batch_view(),
            found@,
            SubmissionDisposition::Filled,
        ) {
            match decimal_in(gross_of(request.reservation_view().legs@)) {
                Some(amount) => Some(Settlement::Commit { amount }),
                None => None,
            }
        } else if batch_is_confirmed(
            request.batch_view(),
            found@,
            SubmissionDisposition::Cancelled,
        ) {
            Some(Settlement::Release { reason: "single_leg_cancelled" })
        } else {
            Some(Settlement::MarkUncertain)
        },
    }
}

/// The result once the capacity is settled.
pub open spec fn settled_result(
    settlement: Settlement,
    receipts: Option<Vec<TradingReceipt>>,
) -> Result<PaperSingleLegRun, PaperSingleLegSagaError> {
    match receipts {
        None => Err(PaperSingleLegSagaError::Execution),
        Some(found) => match settlement {
            Settlement::Commit { .. } => Ok(PaperSingleLegRun::Completed { receipts: found }),
            Settlement::Release { .. } => Ok(PaperSingleLegRun::Cancelled { receipts: found }),
            Settlement::MarkUncertain => Err(PaperSingleLegSagaError::Incomplete(found)),
        },
    }
}

/// What an existing reservation comes to: it is never executed again.
pub open spec fn existing_result(
    batch_id: u128,
    phase: PaperReservationPhase,
) -> Result<PaperSingleLegRun, PaperSingleLegSagaError> {
    match phase {
        PaperReservationPhase::Committed | PaperReservationPhase::Released => Ok(
            PaperSingleLegRun::AlreadyTerminal { batch_id, phase },
        ),
        _ => Err(PaperSingleLegSagaError::RecoveryRequired { batch_id, phase }),
    }
}

/// The stages that an input belongs to, and what follows; any other input
/// leaves the journal's word against the saga's and fails it.
pub open spec fn is_single_leg_step(
    request: PaperSingleLegRequest,
    stage: SingleLegStage,
    input: SingleLegInput,
    step: SingleLegStep,
) -> bool {
    match (stage, input) {
        (SingleLegStage::Reservation, SingleLegInput::Reserved(reservation)) => {
            &&& step.0 == (SingleLegStage::PlanAppend {
                reservation_id: reservation.reservation_id,
            })
            &&& step.1 is AppendPlanned
            &&& step.1->AppendPlanned_0.strategy@ == "grid"@
            &&& step.1->AppendPlanned_0.saga@ == "paper_single_leg_saga"@
            &&& step.1->AppendPlanned_0.schema_version == PAPER_SINGLE_LEG_SAGA_SCHEMA_VERSION
            &&& plans(
                step.1->AppendPlanned_0,
                request.symbol_view(),
                request.batch_view(),
                reservation,
            )
        },
        (SingleLegStage::Reservation, SingleLegInput::Existing { batch_id, phase }) => step == (
            SingleLegStage::Finished,
            SingleLegAction::Finish(existing_result(batch_id, phase)),
        ),
        (SingleLegStage::Reservation, SingleLegInput::ReservationFailed) => step == (
            SingleLegStage::Finished,
            SingleLegAction::Finish(Err(PaperSingleLegSagaError::Account)),
        ),
        (SingleLegStage::PlanAppend { reservation_id }, SingleLegInput::Appended(true)) => step == (
            SingleLegStage::Execution { reservation_id },
            SingleLegAction::Execute { batch_id: request.batch_view().id },
        ),
        (SingleLegStage::Execution { reservation_id }, SingleLegInput::Executed(result)) => {
            &&& step.0 == (SingleLegStage::OutcomeAppend {
                reservation_id,
                receipts: received(result),
            })
            &&& step.1 is AppendOutcome
            &&& step.1->AppendOutcome_0.strategy@ == "grid"@
            &&& step.1->AppendOutcome_0.symbol@ == request.symbol_view()
            &&& step.1->AppendOutcome_0.decision@ == outcome_decision(
                request.batch_view(),
                received(result),
            )
            &&& are_single_leg_details(
                step.1->AppendOutcome_0.details,
                request.batch_view(),
                result,
            )
        },
        (
            SingleLegStage::OutcomeAppend { reservation_id, receipts },
            SingleLegInput::Appended(true),
        ) => {
            match settlement_of(request, receipts) {
                Some(settlement) => step == (
                    SingleLegStage::Settlement { settlement, receipts },
                    SingleLegAction::Settle { reservation_id, settlement },
                ),
                None => step == (
                    SingleLegStage::Finished,
                    SingleLegAction::Finish(Err(PaperSingleLegSagaError::Account)),
                ),
            }
        },
        (
            SingleLegStage::Settlement { settlement, receipts },
            SingleLegInput::Settled(true),
        ) => step == (
            SingleLegStage::Finished,
            SingleLegAction::Finish(settled_result(settlement, receipts)),
        ),
        (SingleLegStage::Settlement { .. }, _) => step == (
            SingleLegStage::Finished,
            SingleLegAction::Finish(Err(PaperSingleLegSagaError::Account)),
        ),
        _ => step == (
            SingleLegStage::Finished,
            SingleLegAction::Finish(Err(PaperSingleLegSagaError::Journal)),
        ),
    }
}

fn finish(result: Result<PaperSingleLegRun, PaperSingleLegSagaError>) -> (r: SingleLegStep)
    ensures
        r == (SingleLegStage::Finished, SingleLegAction::Finish(result)),
{
    (SingleLegStage::Finished, SingleLegAction::Finish(result))
}

/// An existing reservation is classified from its durable phase.
pub fn classify_existing(batch_id: u128, phase: PaperReservationPhase) -> (r: Result<
    PaperSingleLegRun,
    PaperSingleLegSagaError,
>)
    ensures
        r == existing_result(batch_id, phase),
{
    match phase {
        PaperReservationPhase::Committed
        | PaperReservationPhase::Released => Ok(
            PaperSingleLegRun::AlreadyTerminal { batch_id, phase },
        ),
        _ => Err(PaperSingleLegSagaError::RecoveryRequired { batch_id, phase }),
    }
}

/// The outcome record of an execution, and the stage that waits for it.
fn consume_execution(
    request: &PaperSingleLegRequest,
    reservation_id: u128,
    result: Result<Vec<TradingReceipt>, String>,
) -> (r: SingleLegStep)
    ensures
        is_single_leg_step(
            *request,
            SingleLegStage::Execution { reservation_id },
            SingleLegInput::Executed(result),
            r,
        ),
{
    let batch: &ExecutionBatch = request.batch();
    match result {
        Err(text) => {
            let details: SingleLegDetails = SingleLegDetails::Failed {
                batch_id: batch.id,
                error: bounded_error(&text),
            };
            (
                SingleLegStage::OutcomeAppend { reservation_id, receipts: None },
                SingleLegAction::AppendOutcome(
                    OutcomeRecord {
                        strategy: "grid",
                        symbol: request.symbol().to_owned(),
                        decision: "execution_failed",
                        details,
                    },
                ),
            )
        },
        Ok(receipts) => {
            let decision: &'static str = if receipts_confirm_batch(
                batch,
                &receipts,
                SubmissionDisposition::Filled,
            ) {
                "execution_completed"
            } else {
                "execution_incomplete"
            };
            let details: SingleLegDetails = SingleLegDetails::Receipts {
                batch_id: batch.id,
                receipts: first_receipts(&receipts, receipts.len()),
            };
            (
                SingleLegStage::OutcomeAppend { reservation_id, receipts: Some(receipts) },
                SingleLegAction::AppendOutcome(
                    OutcomeRecord {
                        strategy: "grid",
                        symbol: request.symbol().to_owned(),
                        decision,
                        details,
                    },
                ),
            )
        },
    }
}

/// What becomes of the capacity once the outcome is durable.
fn settle(request: &PaperSingleLegRequest, receipts: &Option<Vec<TradingReceipt>>) -> (r: Option<
    Settlement,
>)
    ensures
        r == settlement_of(*request, *receipts),
{
    let batch: &ExecutionBatch = request.batch();
    match receipts {
        None => Some(Settlement::MarkUncertain),
        Some(found) => {
            if receipts_confirm_batch(batch, found, SubmissionDisposition::Filled) {
                match gross_notional(request.reservation()) {
                    Some(amount) => Some(Settlement::Commit { amount }),
                    None => None,
                }
            } else if receipts_confirm_batch(batch, found, SubmissionDisposition::Cancelled) {
                Some(Settlement::Release { reason: "single_leg_cancelled" })
            } else {
                Some(Settlement::MarkUncertain)
            }
        },
    }
}

/// The end of a saga whose capacity is settled.
fn finish_new(settlement: Settlement, receipts: Option<Vec<TradingReceipt>>) -> (r: Result<
    PaperSingleLegRun,
    PaperSingleLegSagaError,
>)
    ensures
        r == settled_result(settlement, receipts),
{
    match receipts {
        None => Err(PaperSingleLegSagaError::Execution),
        Some(found) => match settlement {
            Settlement::Commit { .. } => Ok(PaperSingleLegRun::Completed { receipts: found }),
            Settlement::Release { .. } => Ok(PaperSingleLegRun::Cancelled { receipts: found }),
            Settlement::MarkUncertain => Err(PaperSingleLegSagaError::Incomplete(found)),
        },
    }
}

/// Journal-first owner for one single-leg paper operation.
#[derive(Debug)]
pub struct DurablePaperSingleLegSaga {
    request: PaperSingleLegRequest,
}

impl DurablePaperSingleLegSaga {
    pub closed spec fn request_view(self) -> PaperSingleLegRequest {
        self.request
    }

    /// Binds the saga to one operation. The account and the journal must be the
    /// same journal.
    pub fn new(request: PaperSingleLegRequest, same_journal: bool) -> (r: Result<
        DurablePaperSingleLegSaga,
        PaperSingleLegSagaError,
    >)
        ensures
            same_journal ==> r is Ok && r->Ok_0.request_view() == request,
            !same_journal ==> r is Err && r->Err_0 is InvalidRequest && r->Err_0->InvalidRequest_0@
                == "paper account and single-leg saga must share one journal"@,
    {
        if !same_journal {
            return Err(
                PaperSingleLegSagaError::InvalidRequest(
                    "paper account and single-leg saga must share one journal",
                ),
            );
        }
        Ok(DurablePaperSingleLegSaga { request })
    }

    /// Runs one new operation or classifies an existing durable reservation:
    /// the first step reserves the capacity.
    pub fn run(&self) -> (r: SingleLegStep)
        ensures
            r == (
                SingleLegStage::Reservation,
                SingleLegAction::Reserve {
                    reservation_id: self.request_view().reservation_view().reservation_id,
                },
            ),
    {
        (
            SingleLegStage::Reservation,
            SingleLegAction::Reserve { reservation_id: self.request.reservation().reservation_id },
        )
    }

    pub fn request(&self) -> (r: &PaperSingleLegRequest)
        ensures
            *r == self.request_view(),
    {
        &self.request
    }

    /// Takes what came of the last action and says what to do next.
    pub fn step(&self, stage: SingleLegStage, input: SingleLegInput) -> (r: SingleLegStep)
        ensures
            is_single_leg_step(self.request_view(), stage, input, r),
    {
        match (stage, input) {
            (SingleLegStage::Reservation, SingleLegInput::Reserved(reservation)) => (
                SingleLegStage::PlanAppend { reservation_id: reservation.reservation_id },
                SingleLegAction::AppendPlanned(
                    planned_record(
                        "grid",
                        "paper_single_leg_saga",
                        PAPER_SINGLE_LEG_SAGA_SCHEMA_VERSION,
                        self.request.symbol(),
                        self.request.batch(),
                        &reservation,
                    ),
                ),
            ),
            (SingleLegStage::Reservation, SingleLegInput::Existing { batch_id, phase }) => finish(
                classify_existing(batch_id, phase),
            ),
            (SingleLegStage::Reservation, SingleLegInput::ReservationFailed) => finish(
                Err(PaperSingleLegSagaError::Account),
            ),
            (SingleLegStage::PlanAppend { reservation_id }, SingleLegInput::Appended(true)) => (
                SingleLegStage::Execution { reservation_id },
                SingleLegAction::Execute { batch_id: self.request.batch().id },
            ),
            (
                SingleLegStage::Execution { reservation_id },
                SingleLegInput::Executed(result),
            ) => consume_execution(&self.request, reservation_id, result),
            (
                SingleLegStage::OutcomeAppend { reservation_id, receipts },
                SingleLegInput::Appended(true),
            ) => {
                match settle(&self.request, &receipts) {
                    Some(settlement) => (
                        SingleLegStage::Settlement { settlement, receipts },
                        SingleLegAction::Settle { reservation_id, settlement },
                    ),
                    None => finish(Err(PaperSingleLegSagaError::Account)),
                }
            },
            (
                SingleLegStage::Settlement { settlement, receipts },
                SingleLegInput::Settled(true),
            ) => finish(finish_new(settlement, receipts)),
            (SingleLegStage::Settlement { .. }, _) => finish(Err(PaperSingleLegSagaError::Account)),
            _ => finish(Err(PaperSingleLegSagaError::Journal)),
        }
    }
}

pub open spec fn reservation_phase_name(phase: PaperReservationPhase) -> Seq<char> {
    match phase {
        PaperReservationPhase::Pending => "Pending"@,
        PaperReservationPhase::Committed => "Committed"@,
        PaperReservationPhase::Released => "Released"@,
        PaperReservationPhase::Uncertain => "Uncertain"@,
    }
}

/// The text of an error; `cause` is the text of what the account, the journal or
/// the execution said.
pub open spec fn single_leg_error_text(error: PaperSingleLegSagaError, cause: Seq<char>) -> Seq<
    char,
> {
    match error {
        PaperSingleLegSagaError::InvalidRequest(reason) => "invalid single-leg paper request: "@
            + reason@,
        PaperSingleLegSagaError::RecoveryRequired { batch_id, phase } =>
            "single-leg paper batch "@ + id_text(batch_id) + " is "@ + reservation_phase_name(phase)
            + "; reconciliation is required"@,
        PaperSingleLegSagaError::Account => cause,
        PaperSingleLegSagaError::Journal => cause,
        PaperSingleLegSagaError::Execution => cause,
        PaperSingleLegSagaError::Incomplete(receipts) =>
            "single-leg paper execution returned "@ + number_text(receipts@.len() as u64)
            + " unproven receipt(s)"@,
    }
}

impl PaperSingleLegSagaError {
    /// The text of the error; `cause` is the text of what the account, the
    /// journal or the execution said.
    pub fn message(&self, cause: &str) -> (r: String)
        ensures
            r@ == single_leg_error_text(*self, cause@),
    {
        match self {
            PaperSingleLegSagaError::InvalidRequest(reason) => joined(
                "invalid single-leg paper request: ",
                reason,
            ),
            PaperSingleLegSagaError::RecoveryRequired { batch_id, phase } => {
                let name: &str = match *phase {
                    PaperReservationPhase::Pending => "Pending",
                    PaperReservationPhase::Committed => "Committed",
                    PaperReservationPhase::Released => "Released",
                    PaperReservationPhase::Uncertain => "Uncertain",
                };
                let head: String = joined(
                    &joined("single-leg paper batch ", &text_of_id(*batch_id)),
                    " is ",
                );
                joined(&joined(&head, name), "; reconciliation is required")
            },
            PaperSingleLegSagaError::Account | PaperSingleLegSagaError::Journal
            | PaperSingleLegSagaError::Execution => cause.to_owned(),
            PaperSingleLegSagaError::Incomplete(receipts) => joined(
                &joined(
                    "single-leg paper execution returned ",
                    &padded_number(receipts.len() as u64, 1),
                ),
                " unproven receipt(s)",
            ),
        }
    }
}

} // verus!
