//! The paper account as the owners see it: reservations and open lots.

use crate::decimal::Decimal;
use crate::domain::{MarketType, Side};
use vstd::prelude::*;

verus! {

/// Where a reservation of account capacity stands.
#[derive(Clone, Copy, Debug, PartialEq, Eq, Structural)]
pub enum PaperReservationPhase {
    Pending,
    Committed,
    Released,
    Uncertain,
}

/// One reservation of account capacity.
#[derive(Debug)]
pub struct PaperReservation {
    pub reservation_id: u128,
    pub task_id: String,
    pub phase: PaperReservationPhase,
    /// The last reconciliation of the reservation failed.
    pub reconciliation_failed: bool,
}

/// One open lot of the paper account.
#[derive(Debug)]
pub struct PaperLot {
    pub exchange: String,
    pub symbol: String,
    pub market_type: MarketType,
    pub side: Side,
    pub remaining_quantity: Decimal,
    pub source_reservation_id: u128,
}

/// The account at one point of its journal.
#[derive(Debug)]
pub struct PaperAccountSnapshot {
    /// The whole journal could be projected.
    pub projection_complete: bool,
    pub available: Decimal,
    /// The equity after realised results and fees.
    pub settled_equity_base: Decimal,
    pub pending_reserved: Decimal,
    pub uncertain_reserved: Decimal,
    pub committed_exposure: Decimal,
    pub reservations: Vec<PaperReservation>,
    pub open_lots: Vec<PaperLot>,
}

/// The outcome of the reservation's execution is not final.
pub open spec fn outcome_is_open(phase: PaperReservationPhase) -> bool {
    phase == PaperReservationPhase::Pending || phase == PaperReservationPhase::Uncertain
}

pub fn is_outcome_open(phase: PaperReservationPhase) -> (r: bool)
    ensures
        r == outcome_is_open(phase),
{
    phase == PaperReservationPhase::Pending || phase == PaperReservationPhase::Uncertain
}

/// Some reservation's outcome is not final.
pub open spec fn has_open_outcome(reservations: Seq<PaperReservation>) -> bool {
    exists|i: int| 0 <= i < reservations.len() && outcome_is_open(#[trigger] reservations[i].phase)
}

/// Some reservation's outcome is not final: no new operation may start.
pub fn any_open_outcome(reservations: &Vec<PaperReservation>) -> (r: bool)
    ensures
        r == has_open_outcome(reservations@),
{
    let mut i: usize = 0;
    while i < reservations.len()
        invariant
            i <= reservations.len(),
            forall|j: int| 0 <= j < i ==> !outcome_is_open(#[trigger] reservations@[j].phase),
        decreases reservations.len() - i,
    {
        if is_outcome_open(reservations[i].phase) {
            assert(outcome_is_open(reservations@[i as int].phase));
            return true;
        }
        i = i + 1;
    }
    false
}

/// Some reservation could not be reconciled.
pub open spec fn has_failed_reconciliation(reservations: Seq<PaperReservation>) -> bool {
    exists|i: int| 0 <= i < reservations.len() && #[trigger] reservations[i].reconciliation_failed
}

/// Some reservation could not be reconciled.
pub fn any_failed_reconciliation(reservations: &Vec<PaperReservation>) -> (r: bool)
    ensures
        r == has_failed_reconciliation(reservations@),
{
    let mut i: usize = 0;
    while i < reservations.len()
        invariant
            i <= reservations.len(),
            forall|j: int| 0 <= j < i ==> !(#[trigger] reservations@[j].reconciliation_failed),
        decreases reservations.len() - i,
    {
        if reservations[i].reconciliation_failed {
            assert(reservations@[i as int].reconciliation_failed);
            return true;
        }
        i = i + 1;
    }
    false
}

/// How many reservations carry the identifier.
pub open spec fn reservation_count(reservations: Seq<PaperReservation>, id: u128) -> nat
    decreases reservations.len(),
{
    if reservations.len() == 0 {
        0
    } else {
        reservation_count(reservations.drop_last(), id) + if reservations.last().reservation_id
            == id {
            1nat
        } else {
            0nat
        }
    }
}

/// The place of the first reservation with the identifier; the number of
/// reservations where there is none.
pub open spec fn reservation_place(reservations: Seq<PaperReservation>, id: u128) -> nat
    decreases reservations.len(),
{
    if reservations.len() == 0 {
        0
    } else {
        let before = reservation_place(reservations.drop_last(), id);
        if before < reservations.len() - 1 {
            before
        } else if reservations.last().reservation_id == id {
            (reservations.len() - 1) as nat
        } else {
            reservations.len()
        }
    }
}

/// The one reservation with the identifier; nothing where there is none or
/// more than one.
pub open spec fn sole_reservation(reservations: Seq<PaperReservation>, id: u128) -> Option<
    PaperReservation,
> {
    if reservation_count(reservations, id) == 1 {
        Some(reservations[reservation_place(reservations, id) as int])
    } else {
        None
    }
}

/// The place of the one reservation with the identifier.
pub fn find_sole_reservation(reservations: &Vec<PaperReservation>, id: u128) -> (r: Option<usize>)
    ensures
        r is Some <==> sole_reservation(reservations@, id) is Some,
        r is Some ==> r->0 < reservations@.len() && Some(reservations@[r->0 as int])
            == sole_reservation(reservations@, id),
{
    let mut place: usize = 0;
    let mut count: usize = 0;
    let mut i: usize = 0;
    while i < reservations.len()
        invariant
            i <= reservations.len(),
            count <= i,
            count == reservation_count(reservations@.take(i as int), id),
            count == 0 ==> reservation_place(reservations@.take(i as int), id) == i,
            count > 0 ==> place < i && place == reservation_place(
                reservations@.take(i as int),
                id,
            ),
        decreases reservations.len() - i,
    {
        assert(reservations@.take(i + 1).drop_last() =~= reservations@.take(i as int));
        if reservations[i].reservation_id == id {
            if count == 0 {
                place = i;
            }
            count = count + 1;
        }
        i = i + 1;
    }
    assert(reservations@.take(i as int) =~= reservations@);
    if count == 1 {
        Some(place)
    } else {
        None
    }
}

} // verus!
