//! What the paper sagas write to the journal.

use crate::paper_arbitrage_saga::{intent_summary, IntentSummary};
use crate::requests::{ExecutionBatch, PaperReservationView};
use vstd::prelude::*;

verus! {

/// The plan of one batch: its orders, each at its place, and the reservation
/// that the account holds for them.
#[derive(Debug)]
pub struct PlannedRecord {
    pub strategy: &'static str,
    pub symbol: String,
    pub batch_id: u128,
    pub legs: Vec<IntentSummary>,
    /// The saga that recovers the batch, and the version of its context.
    pub saga: &'static str,
    pub schema_version: u16,
    pub reservation_id: u128,
    pub task_id: String,
    pub idempotency_key: String,
    pub cost_model_version: u32,
}

/// The outcome of one batch, under the decision that it is recorded by.
#[derive(Debug)]
pub struct OutcomeRecord<D> {
    pub strategy: &'static str,
    pub symbol: String,
    pub decision: &'static str,
    pub details: D,
}

/// The record plans exactly this batch under exactly this reservation.
pub open spec fn plans(
    record: PlannedRecord,
    symbol: Seq<char>,
    batch: ExecutionBatch,
    reservation: PaperReservationView,
) -> bool {
    &&& record.symbol@ == symbol
    &&& record.batch_id == batch.id
    &&& record.legs@.len() == batch.intents@.len()
    &&& forall|i: int|
        0 <= i < record.legs@.len() ==> #[trigger] record.legs@[i] == (IntentSummary {
            index: i as usize,
            intent: batch.intents@[i],
        })
    &&& record.reservation_id == reservation.reservation_id
    &&& record.task_id@ == reservation.task_id@
    &&& record.idempotency_key@ == reservation.idempotency_key@
    &&& record.cost_model_version == reservation.cost_model.version
}

pub fn planned_record(
    strategy: &'static str,
    saga: &'static str,
    schema_version: u16,
    symbol: &str,
    batch: &ExecutionBatch,
    reservation: &PaperReservationView,
) -> (r: PlannedRecord)
    ensures
        r.strategy == strategy,
        r.saga == saga,
        r.schema_version == schema_version,
        plans(r, symbol@, *batch, *reservation),
{
    let mut legs: Vec<IntentSummary> = Vec::new();
    let mut index: usize = 0;
    while index < batch.intents.len()
        invariant
            index <= batch.intents@.len(),
            legs@.len() == index,
            forall|i: int|
                0 <= i < index ==> #[trigger] legs@[i] == (IntentSummary {
                    index: i as usize,
                    intent: batch.intents@[i],
                }),
        decreases batch.intents.len() - index,
    {
        legs.push(intent_summary(index, &batch.intents[index]));
        index = index + 1;
    }
    PlannedRecord {
        strategy,
        symbol: symbol.to_owned(),
        batch_id: batch.id,
        legs,
        saga,
        schema_version,
        reservation_id: reservation.reservation_id,
        task_id: reservation.task_id.as_str().to_owned(),
        idempotency_key: reservation.idempotency_key.as_str().to_owned(),
        cost_model_version: reservation.cost_model.version,
    }
}

} // verus!
