//! Shared fail-closed compensation for the risk-admission/reservation seam.
//!
//! An operation that is cut off may have reserved capacity or not. What is
//! reserved and still pending is kept as uncertain; an admission that reached
//! no reservation is cancelled; a race that cannot be resolved needs recovery.

use crate::paper_account::{reservation_place, PaperReservation, PaperReservationPhase};
use vstd::prelude::*;

verus! {

#[derive(Clone, Copy, Debug, PartialEq, Eq, Structural)]
pub enum PaperAdmissionCompensationError {
    Account,
    AccountRisk,
    RecoveryRequired,
}

/// The phase of the first reservation with the identifier.
pub open spec fn phase_of(reservations: Seq<PaperReservation>, id: u128) -> Option<
    PaperReservationPhase,
> {
    let place = reservation_place(reservations, id) as int;
    if place < reservations.len() {
        Some(reservations[place].phase)
    } else {
        None
    }
}

/// The phase of the first reservation with the identifier.
pub fn reservation_phase(reservations: &Vec<PaperReservation>, id: u128) -> (r: Option<
    PaperReservationPhase,
>)
    ensures
        r == phase_of(reservations@, id),
{
    let mut i: usize = 0;
    while i < reservations.len()
        invariant
            i <= reservations.len(),
            reservation_place(reservations@.take(i as int), id) == i,
        decreases reservations.len() - i,
    {
        assert(reservations@.take(i + 1).drop_last() =~= reservations@.take(i as int));
        if reservations[i].reservation_id == id {
            proof {
                lemma_place_is_found(reservations@, id, i + 1);
            }
            return Some(reservations[i].phase);
        }
        i = i + 1;
    }
    assert(reservations@.take(i as int) =~= reservations@);
    None
}

/// A place that is found stays the place, whatever follows.
proof fn lemma_place_is_found(reservations: Seq<PaperReservation>, id: u128, n: int)
    requires
        0 <= n <= reservations.len(),
        reservation_place(reservations.take(n), id) < n,
    ensures
        reservation_place(reservations, id) == reservation_place(reservations.take(n), id),
    decreases reservations.len(),
{
    if n == reservations.len() {
        assert(reservations.take(n) =~= reservations);
    } else {
        assert(reservations.drop_last().take(n) =~= reservations.take(n));
        lemma_place_is_found(reservations.drop_last(), id, n);
    }
}

/// What the compensation waits for.
#[derive(Clone, Copy, Debug, PartialEq, Eq, Structural)]
pub enum RetentionStage {
    /// The account, read for the first time or again after a race.
    Account { again: bool },
    /// The pending reservation, marked as uncertain.
    Mark,
    /// The admission, cancelled.
    Admission,
    Finished,
}

/// What the compensation asks for.
#[derive(Clone, Copy, Debug, PartialEq, Eq)]
pub enum RetentionAction {
    ReadAccount,
    MarkUncertain,
    CancelAdmission,
    /// Whether reserved capacity was found and kept.
    Finish(Result<bool, PaperAdmissionCompensationError>),
}

/// What came of it.
#[derive(Clone, Copy, Debug, PartialEq, Eq, Structural)]
pub enum RetentionInput {
    /// The phase of the reservation, if the account holds it.
    Reservation(Option<PaperReservationPhase>),
    /// The reservation is marked, or could not be.
    Marked(bool),
    /// The admission was cancelled, or was no longer there to cancel.
    Cancelled(bool),
    /// The account or the risk authority could not be reached.
    Unavailable,
}

/// The next stage and what it asks for.
pub type RetentionStep = (RetentionStage, RetentionAction);

pub open spec fn retention_finished(
    result: Result<bool, PaperAdmissionCompensationError>,
) -> RetentionStep {
    (RetentionStage::Finished, RetentionAction::Finish(result))
}

/// One step of the compensation. `admitted` says that there is an admission
/// that may have to be cancelled.
pub open spec fn retention_next(
    admitted: bool,
    stage: RetentionStage,
    input: RetentionInput,
) -> RetentionStep {
    match (stage, input) {
        (RetentionStage::Account { again }, RetentionInput::Reservation(Some(phase))) => if phase
            == PaperReservationPhase::Pending {
            (RetentionStage::Mark, RetentionAction::MarkUncertain)
        } else {
            retention_finished(Ok(true))
        },
        (RetentionStage::Account { again }, RetentionInput::Reservation(None)) => if again {
            // The admission is gone and no reservation is there: unprovable.
            retention_finished(Err(PaperAdmissionCompensationError::RecoveryRequired))
        } else if admitted {
            (RetentionStage::Admission, RetentionAction::CancelAdmission)
        } else {
            retention_finished(Ok(false))
        },
        (RetentionStage::Mark, RetentionInput::Marked(true)) => retention_finished(Ok(true)),
        (RetentionStage::Admission, RetentionInput::Cancelled(true)) => retention_finished(
            Ok(false),
        ),
        (RetentionStage::Admission, RetentionInput::Cancelled(false)) => (
            RetentionStage::Account { again: true },
            RetentionAction::ReadAccount,
        ),
        (RetentionStage::Admission, _) => retention_finished(
            Err(PaperAdmissionCompensationError::AccountRisk),
        ),
        _ => retention_finished(Err(PaperAdmissionCompensationError::Account)),
    }
}

/// Retains uncertain capacity where cancellation races with a durable
/// reservation: the first step reads the account.
pub fn retain_cancelled_reservation() -> (r: RetentionStep)
    ensures
        r == (RetentionStage::Account { again: false }, RetentionAction::ReadAccount),
{
    (RetentionStage::Account { again: false }, RetentionAction::ReadAccount)
}

/// Takes what came of the last action and says what to do next.
pub fn retention_step(admitted: bool, stage: RetentionStage, input: RetentionInput) -> (r:
    RetentionStep)
    ensures
        r == retention_next(admitted, stage, input),
{
    match (stage, input) {
        (RetentionStage::Account { again }, RetentionInput::Reservation(Some(phase))) => {
            if phase == PaperReservationPhase::Pending {
                (RetentionStage::Mark, RetentionAction::MarkUncertain)
            } else {
                (RetentionStage::Finished, RetentionAction::Finish(Ok(true)))
            }
        },
        (RetentionStage::Account { again }, RetentionInput::Reservation(None)) => {
            if again {
                (
                    RetentionStage::Finished,
                    RetentionAction::Finish(Err(PaperAdmissionCompensationError::RecoveryRequired)),
                )
            } else if admitted {
                (RetentionStage::Admission, RetentionAction::CancelAdmission)
            } else {
                (RetentionStage::Finished, RetentionAction::Finish(Ok(false)))
            }
        },
        (RetentionStage::Mark, RetentionInput::Marked(true)) => (
            RetentionStage::Finished,
            RetentionAction::Finish(Ok(true)),
        ),
        (RetentionStage::Admission, RetentionInput::Cancelled(true)) => (
            RetentionStage::Finished,
            RetentionAction::Finish(Ok(false)),
        ),
        (RetentionStage::Admission, RetentionInput::Cancelled(false)) => (
            RetentionStage::Account { again: true },
            RetentionAction::ReadAccount,
        ),
        (RetentionStage::Admission, _) => (
            RetentionStage::Finished,
            RetentionAction::Finish(Err(PaperAdmissionCompensationError::AccountRisk)),
        ),
        _ => (
            RetentionStage::Finished,
            RetentionAction::Finish(Err(PaperAdmissionCompensationError::Account)),
        ),
    }
}

/// The outcome of discarding an admission that was planned but never reserved:
/// an admission that could not be cancelled needs recovery. `cancelled` is
/// nothing where the risk authority could not be reached.
pub fn discard_planned_admission(admitted: bool, cancelled: Option<bool>) -> (r: Result<
    (),
    PaperAdmissionCompensationError,
>)
    ensures
        r == if !admitted {
            Ok::<(), PaperAdmissionCompensationError>(())
        } else {
            match cancelled {
                Some(true) => Ok(()),
                Some(false) => Err(PaperAdmissionCompensationError::RecoveryRequired),
                None => Err(PaperAdmissionCompensationError::AccountRisk),
            }
        },
{
    if !admitted {
        return Ok(());
    }
    match cancelled {
        Some(true) => Ok(()),
        Some(false) => Err(PaperAdmissionCompensationError::RecoveryRequired),
        None => Err(PaperAdmissionCompensationError::AccountRisk),
    }
}

/// The stages, the actions and the inputs of one compensation, in order.
pub open spec fn is_retention(
    admitted: bool,
    stages: Seq<RetentionStage>,
    actions: Seq<RetentionAction>,
    inputs: Seq<RetentionInput>,
) -> bool {
    &&& stages.len() == actions.len()
    &&& stages.len() == inputs.len() + 1
    &&& stages[0] == (RetentionStage::Account { again: false })
    &&& actions[0] == RetentionAction::ReadAccount
    &&& forall|i: int|
        0 <= i < inputs.len() ==> #[trigger] retention_next(admitted, stages[i], inputs[i]) == (
            stages[i + 1],
            actions[i + 1],
        )
}

proof fn lemma_retention_places(
    admitted: bool,
    stages: Seq<RetentionStage>,
    actions: Seq<RetentionAction>,
    inputs: Seq<RetentionInput>,
    i: int,
)
    requires
        is_retention(admitted, stages, actions, inputs),
        0 <= i < stages.len(),
    ensures
        stages[i] is Account ==> stages[i]->again == (i == 2) && (i == 0 || i == 2),
        stages[i] is Admission ==> i == 1 && admitted && inputs[0] == RetentionInput::Reservation(
            None,
        ),
        stages[i] is Mark ==> i >= 1 && inputs[i - 1] == RetentionInput::Reservation(
            Some(PaperReservationPhase::Pending),
        ),
        i == 2 && stages[i] is Account ==> inputs[0] == RetentionInput::Reservation(None),
    decreases i,
{
    if i > 0 {
        lemma_retention_places(admitted, stages, actions, inputs, i - 1);
        let k = i - 1;
        assert(retention_next(admitted, stages[k], inputs[k]) == (stages[k + 1], actions[k + 1]));
    }
}

/// That no capacity is held is said only where the account showed no
/// reservation, and where an admission was cancelled if there was one.
pub proof fn law_nothing_is_released_unproven(
    admitted: bool,
    stages: Seq<RetentionStage>,
    actions: Seq<RetentionAction>,
    inputs: Seq<RetentionInput>,
    i: int,
)
    requires
        is_retention(admitted, stages, actions, inputs),
        0 <= i < actions.len(),
        actions[i] == RetentionAction::Finish(Ok(false)),
    ensures
        inputs[0] == RetentionInput::Reservation(None),
        admitted ==> i == 2 && inputs[1] == RetentionInput::Cancelled(true),
{
    let k = i - 1;
    assert(retention_next(admitted, stages[k], inputs[k]) == (stages[k + 1], actions[k + 1]));
    lemma_retention_places(admitted, stages, actions, inputs, k);
}

/// That capacity is held is said only where the account showed the reservation,
/// and a pending one was marked as uncertain before.
pub proof fn law_pending_capacity_is_kept(
    admitted: bool,
    stages: Seq<RetentionStage>,
    actions: Seq<RetentionAction>,
    inputs: Seq<RetentionInput>,
    i: int,
)
    requires
        is_retention(admitted, stages, actions, inputs),
        0 <= i < actions.len(),
        actions[i] == RetentionAction::Finish(Ok(true)),
    ensures
        i >= 1,
        inputs[i - 1] == RetentionInput::Marked(true) && i >= 2 && inputs[i - 2]
            == RetentionInput::Reservation(Some(PaperReservationPhase::Pending)) || (inputs[i
            - 1] is Reservation && inputs[i - 1]->Reservation_0 is Some && inputs[i
            - 1]->Reservation_0->0 != PaperReservationPhase::Pending),
{
    let k = i - 1;
    assert(retention_next(admitted, stages[k], inputs[k]) == (stages[k + 1], actions[k + 1]));
    lemma_retention_places(admitted, stages, actions, inputs, k);
}

} // verus!
