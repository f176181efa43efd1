//! What a grid owner does with each answer that it gets.

use crate::decimal::representable;
use crate::domain::{MarketDataEvent, MarketSnapshot, Side};
use crate::grid_owner::{crossing_in, owner_is_sound, owner_step, CrossingFound, ForcedClose};
use crate::grid_owner::{GridAction, GridDirective, GridInput, GridOwner, GridStage, OperationOutcome};
use crate::grid_owner::{same_signature, PositionFound, ProtectionSignature, RiskExit};
use crate::number_laws::{law_order_is_that_of_units, units};
use crate::operations::prefix_of;
use crate::owner_inputs::{grid_event_of, grid_position_of, grid_risk_of, RiskDemand};
use crate::paper_account::{PaperAccountSnapshot, PaperReservationPhase};
use crate::paper_grid_task::{account_close_plan, in_target, lot_is_own, GridPaperTaskConfig};
use crate::paper_grid_task::{GridPaperTaskError, GridPaperTaskExit, GridPaperTaskFailure};
use crate::paper_grid_task::{foreign_lot_of, GridPaperTaskPhase};
use vstd::prelude::*;

verus! {

/// The owner gives up: it stops its source first.
pub open spec fn gives_up(step: (GridOwner, GridAction), error: GridPaperTaskError) -> bool {
    &&& step.1 is StopSource
    &&& step.0.stage is FailingStop
    &&& step.0.stage->FailingStop_error == error
}

/// The owner gives up for want of a reconciliation.
pub open spec fn asks_for_recovery(step: (GridOwner, GridAction)) -> bool {
    gives_up(step, GridPaperTaskError::RecoveryRequired) && step.0.stage->FailingStop_failure
        == GridPaperTaskFailure::RecoveryRequired
}

/// The owner begins to stop with this exit: it records so first.
pub open spec fn begins_to_stop(step: (GridOwner, GridAction), exit: GridPaperTaskExit) -> bool {
    &&& step.0.stage == (GridStage::StoppingAppend { exit })
    &&& step.1 is AppendStatus
    &&& step.1->AppendStatus_phase == GridPaperTaskPhase::Stopping
    &&& step.1->AppendStatus_counts == step.0.status
}

/// A waiting owner stops on a signal, also where an event comes with one, and
/// counts no event on that account.
pub proof fn law_signal_stops_a_waiting_grid(owner: GridOwner, input: GridInput)
    requires
        owner.stage is Waiting,
        input is Signal || (input is Event && input->Event_signalled),
    ensures
        begins_to_stop(owner_step(owner, input), GridPaperTaskExit::StopRequested),
        owner_step(owner, input).0.status == owner.status,
{
}

/// An event is counted once: the figure that its checkpoint records is one
/// more than the one shown, and it is shown when the checkpoint is durable,
/// not before.
pub proof fn law_each_event_is_counted_once(owner: GridOwner, input: GridInput)
    requires
        owner.stage is Waiting || owner.stage is Checkpoint,
    ensures
        ({
            let step = owner_step(owner, input);
            &&& owner.stage is Waiting ==> step.0.status == owner.status
            &&& owner.stage is Waiting && input is Event && !input->Event_signalled
                && owner.status.processed_event_count < u64::MAX
                ==> step.0.next.processed_event_count == owner.status.processed_event_count + 1
            &&& owner.stage is Checkpoint && input is Done ==> step.0.status == owner.next
            &&& owner.stage is Checkpoint && !(input is Done) ==> step.1 is Finish
                && step.1->Finish_0 is Err
        }),
{
}

/// A checkpoint records the figures that the event led to.
#[verifier::spinoff_prover]
#[verifier::rlimit(60)]
pub proof fn law_checkpoint_records_the_next_figures(owner: GridOwner, input: GridInput)
    ensures
        owner_step(owner, input).1 is AppendCheckpoint ==> owner_step(
            owner,
            input,
        ).1->AppendCheckpoint_counts == owner_step(owner, input).0.next && owner_step(
            owner,
            input,
        ).0.stage is Checkpoint,
{
}

/// An observation of another instrument is never traded on.
pub proof fn law_foreign_observation_fails_the_grid(owner: GridOwner, input: GridInput)
    requires
        owner.stage is Waiting,
        owner.status.processed_event_count < u64::MAX,
        input is Event,
        !input->Event_signalled,
        input->Event_observation,
    ensures
        !input->Event_bound ==> gives_up(
            owner_step(owner, input),
            GridPaperTaskError::InvalidSourceBinding,
        ),
        input->Event_bound ==> owner_step(owner, input).1 is ApplyMarket,
{
}

/// Account risk is read after every applied observation where it is attached,
/// and a poll without it is nothing.
pub proof fn law_risk_is_read_before_anything_is_traded(owner: GridOwner, input: GridInput)
    requires
        owner.stage is Market && input is Done || owner.stage is Waiting && input is RiskPoll,
    ensures
        ({
            let step = owner_step(owner, input);
            &&& owner.risk <==> step.1 is ReadRiskExit
            &&& owner.stage is Waiting && !owner.risk ==> step.1 is Wait && step.0.stage is Waiting
            &&& step.1 is ReadRiskExit ==> step.0.stage == (GridStage::RiskExit {
                polled: owner.stage is Waiting,
            })
        }),
{
}

/// What account risk demands is done: a stop stops the owner, a close builds
/// the next operation to close the position, and otherwise the owner goes on.
pub proof fn law_risk_demand_is_obeyed(owner: GridOwner, polled: bool, demand: RiskExit)
    requires
        owner.stage == (GridStage::RiskExit { polled }),
    ensures
        ({
            let step = owner_step(owner, GridInput::Risk(demand));
            &&& demand == RiskExit::Stop ==> begins_to_stop(step, GridPaperTaskExit::StopRequested)
            &&& demand == RiskExit::Close && (owner.seen || !polled) && owner.sequence < u64::MAX
                ==> step.1 is BuildForcedClose && step.1->BuildForcedClose_sequence
                == owner.sequence + 1 && step.1->BuildForcedClose_purpose == if polled {
                ForcedClose::RiskOnPoll
            } else {
                ForcedClose::RiskOnEvent
            }
            &&& demand == RiskExit::Close && polled && !owner.seen ==> asks_for_recovery(step)
            &&& demand == RiskExit::Continue && polled ==> step.1 is Wait
            &&& demand == RiskExit::Continue && !polled && owner.observed && owner.protected
                ==> step.1 is ReadProtection
            &&& demand == RiskExit::Continue && !polled && !(owner.observed && owner.protected)
                ==> step.1 is TakeCrossings
        }),
{
}

/// A completed close counts only where the account shows nothing left;
/// whatever is left needs recovery, and a close that did not complete keeps
/// its capacity.
pub proof fn law_close_is_verified_flat(owner: GridOwner, purpose: ForcedClose, input: GridInput)
    requires
        owner.stage == (GridStage::CloseRun { purpose }) || owner.stage == (GridStage::CloseVerify {
            purpose,
        }),
    ensures
        ({
            let step = owner_step(owner, input);
            let running = owner.stage is CloseRun;
            &&& running && input is Outcome && input->Outcome_0 is Completed ==> step.1
                is VerifyClose
            &&& running && input is Outcome && (input->Outcome_0 is Cancelled || input->Outcome_0
                is TimedOut) ==> step.1 is Retain
            &&& running && !(input is Outcome) ==> asks_for_recovery(step)
            &&& !running && input == GridInput::Position(PositionFound::Open) ==> asks_for_recovery(
                step,
            )
            &&& !running && input == GridInput::Position(PositionFound::Flat) && owner.risk
                ==> step.1 is RecordPositionClosed
            &&& !running && input == GridInput::Position(PositionFound::Flat) && !owner.risk
                && purpose == ForcedClose::Reset ==> step.1 is RebuildGrid
            &&& !running && input == GridInput::Position(PositionFound::Flat) && !owner.risk
                && purpose != ForcedClose::Reset ==> begins_to_stop(
                step,
                GridPaperTaskExit::StopRequested,
            )
        }),
{
}

/// A protection directive is recorded before it is acted on, once for one
/// signature; a reset rebuilds the grid when the position is closed, an exit
/// stops the owner.
pub proof fn law_protection_is_recorded_and_obeyed(owner: GridOwner, directive: GridDirective)
    requires
        owner.stage is Protection,
    ensures
        ({
            let step = owner_step(owner, GridInput::Directive(directive));
            let known = directive is Hold && owner.last_protection is Some && same_signature(
                owner.last_protection->0,
                directive->Hold_0,
            );
            &&& directive is Continue ==> step.1 is TakeCrossings
            &&& directive is Hold && !known ==> step.1 is AppendProtection
                && step.0.last_protection == Some(directive->Hold_0) && step.0.stage == (
            GridStage::HoldAppend { scalp: directive->Hold_0 is Scalp })
            &&& known ==> !(step.1 is AppendProtection) && !(step.1 is TakeCrossings)
                && !(step.1 is CheckCrossing)
            &&& directive is ResetGrid ==> step.1 is AppendProtection && step.0.stage
                is ResetAppend
            &&& directive is ExitAll ==> step.1 is AppendProtection && step.0.stage is ExitAppend
        }),
{
}

/// A recorded reset closes the position to rebuild, a recorded exit closes it
/// to stop.
pub proof fn law_recorded_protection_reads_the_position(owner: GridOwner)
    requires
        owner.stage is ResetAppend || owner.stage is ExitAppend,
    ensures
        owner_step(owner, GridInput::Done).1 is ReadClosePlan,
        owner.stage is ResetAppend ==> owner_step(owner, GridInput::Done).0.stage == (
        GridStage::ClosePlan { purpose: ForcedClose::Reset }),
        owner.stage is ExitAppend ==> owner_step(owner, GridInput::Done).0.stage == (
        GridStage::ClosePlan { purpose: ForcedClose::Exit }),
{
}

/// A crossed level that is ready is built as the next operation, reducing
/// where it was found to reduce; entries ask account risk first where it is
/// attached. A lot of somebody else, and a signal, stop it.
pub proof fn law_ready_level_is_built(owner: GridOwner, found: CrossingFound)
    requires
        owner.stage is CrossCheck,
        owner.sequence < u64::MAX,
    ensures
        ({
            let step = owner_step(owner, GridInput::Crossing(found));
            let ready = found is Ready;
            let reduces = ready && found->Ready_reduce_only;
            &&& ready && owner.risk && !reduces ==> step.1 == (GridAction::AdmitCrossing {
                level: owner.taken,
            }) && step.0.sequence == owner.sequence
            &&& ready && (!owner.risk || reduces) ==> step.1 is BuildCrossing
                && step.1->BuildCrossing_level == owner.taken && step.1->BuildCrossing_sequence
                == owner.sequence + 1 && step.1->BuildCrossing_reduce_only == reduces
                && !step.1->BuildCrossing_admitted && step.0.sequence == owner.sequence + 1
            &&& !ready ==> step.1 is StopSource && step.0.sequence == owner.sequence
            &&& found is Foreign || found is Signalled ==> asks_for_recovery(step)
        }),
{
}

/// An admitted level is built with its admission; a refused one is passed over
/// without an operation, and counts as done.
pub proof fn law_refused_level_is_passed_over(owner: GridOwner, admitted: bool)
    requires
        owner.stage is CrossAdmit,
        owner_is_sound(owner),
        owner.sequence < u64::MAX,
    ensures
        ({
            let step = owner_step(owner, GridInput::Admitted(admitted));
            &&& admitted ==> step.1 is BuildCrossing && step.1->BuildCrossing_admitted
                && !step.1->BuildCrossing_reduce_only && step.1->BuildCrossing_level == owner.taken
                && step.1->BuildCrossing_sequence == owner.sequence + 1
            &&& !admitted ==> step.0.sequence == owner.sequence && step.0.taken == owner.taken + 1
                && step.0.completed == owner.completed + 1
            &&& !admitted && owner.taken + 1 < owner.crossings && !owner.stop_after ==> step.1 == (
            GridAction::CheckCrossing { level: (owner.taken + 1) as u64 })
        }),
{
}

/// A completed level moves the owner to the next one; no other outcome does,
/// and capacity that an unfinished one may hold is kept.
pub proof fn law_completed_level_leads_to_the_next(owner: GridOwner, outcome: OperationOutcome)
    requires
        owner.stage is CrossRun,
        owner_is_sound(owner),
    ensures
        ({
            let step = owner_step(owner, GridInput::Outcome(outcome));
            &&& outcome is Completed ==> step.0.taken == owner.taken + 1 && step.0.completed
                == owner.completed + 1
            &&& outcome is Completed && !owner.stop_after && !outcome->Completed_stop_requested
                && owner.taken + 1 < owner.crossings ==> step.1 == (GridAction::CheckCrossing {
                level: (owner.taken + 1) as u64,
            }) && step.0.next.operation_count == owner.sequence
            &&& outcome is Completed && outcome->Completed_stop_requested && owner.completed + 1
                < owner.crossings ==> asks_for_recovery(step)
            &&& !(outcome is Completed) ==> step.1 is Retain && step.0.taken == owner.taken
                && step.0.completed == owner.completed
        }),
{
}

/// A source that ended leaves the owner stopped where it is flat; a position
/// that is left needs recovery.
pub proof fn law_ended_source_needs_a_flat_account(owner: GridOwner, found: PositionFound)
    requires
        owner.stage is EndCheck,
    ensures
        found == PositionFound::Flat ==> begins_to_stop(
            owner_step(owner, GridInput::Position(found)),
            GridPaperTaskExit::SourceEnded,
        ),
        found == PositionFound::Open ==> asks_for_recovery(
            owner_step(owner, GridInput::Position(found)),
        ),
        found is Unread ==> gives_up(
            owner_step(owner, GridInput::Position(found)),
            found->Unread_0,
        ),
{
}

/// An owner that stops ends with the exit it set out with, and with a time-out
/// where its source did not stop in time; the end is durable before it counts.
pub proof fn law_grid_stop_keeps_its_exit(
    owner: GridOwner,
    exit: GridPaperTaskExit,
    timed_out: bool,
)
    requires
        owner.stage == (GridStage::StoppingAppend { exit }),
    ensures
        ({
            let stopping = owner_step(owner, GridInput::Done);
            let stopped = owner_step(stopping.0, GridInput::SourceStopped { timed_out });
            let end = owner_step(stopped.0, GridInput::Done);
            let kept = if timed_out {
                GridPaperTaskExit::ShutdownTimedOut
            } else {
                exit
            };
            &&& stopping.1 is StopSource
            &&& stopping.0.phase == GridPaperTaskPhase::Stopping
            &&& stopped.1 is AppendStatus
            &&& stopped.1->AppendStatus_phase == GridPaperTaskPhase::Stopped
            &&& stopped.1->AppendStatus_exit == Some(kept)
            &&& stopped.1->AppendStatus_failure is None
            &&& end.1 == GridAction::Finish(Ok(kept))
            &&& end.0.phase == GridPaperTaskPhase::Stopped
        }),
{
}

/// An owner that gives up records its failure and ends with its error.
pub proof fn law_grid_failure_ends_with_its_error(
    owner: GridOwner,
    failure: GridPaperTaskFailure,
    error: GridPaperTaskError,
    input: GridInput,
)
    requires
        owner.stage == (GridStage::FailingStop { failure, error }),
    ensures
        ({
            let recorded = owner_step(owner, input);
            let end = owner_step(recorded.0, GridInput::Done);
            &&& recorded.1 is AppendStatus
            &&& recorded.1->AppendStatus_phase == GridPaperTaskPhase::Failed
            &&& recorded.1->AppendStatus_failure == Some(failure)
            &&& recorded.1->AppendStatus_exit is None
            &&& end.1 == GridAction::Finish(Err(error))
            &&& end.0.phase == GridPaperTaskPhase::Failed
        }),
{
}

/// A level reduces the position exactly where it trades on the side that
/// closes the position; it is ready only where no operation is open and every
/// lot in the instrument is the owner's.
pub proof fn law_level_against_the_position_reduces_it(
    snapshot: PaperAccountSnapshot,
    config: GridPaperTaskConfig,
    symbol: Seq<char>,
    side: Side,
)
    requires
        crossing_in(snapshot, config, symbol, side) is Ready,
    ensures
        account_close_plan(snapshot, config, symbol) is Ok,
        ({
            let reduces = crossing_in(snapshot, config, symbol, side)->Ready_reduce_only;
            let plan = account_close_plan(snapshot, config, symbol)->Ok_0;
            &&& plan is None ==> !reduces
            &&& plan is Some ==> (reduces <==> (plan->0).0 == side)
        }),
        forall|i: int|
            0 <= i < snapshot.reservations@.len() ==> (#[trigger] snapshot.reservations@[i]).phase
                != PaperReservationPhase::Pending && snapshot.reservations@[i].phase
                != PaperReservationPhase::Uncertain,
        forall|i: int|
            0 <= i < snapshot.open_lots@.len() && in_target(
                #[trigger] snapshot.open_lots@[i],
                config.exchange_view(),
                symbol,
                config.market_type_view(),
            ) ==> lot_is_own(
                snapshot.reservations@,
                snapshot.open_lots@[i],
                prefix_of(config.task_id_view()),
            ) == Some(true),
{
    let lots = snapshot.open_lots@;
    let prefix = prefix_of(config.task_id_view());
    assert forall|i: int|
        0 <= i < lots.len() && in_target(
            #[trigger] lots[i],
            config.exchange_view(),
            symbol,
            config.market_type_view(),
        ) implies lot_is_own(snapshot.reservations@, lots[i], prefix) == Some(true) by {
        lemma_no_foreign_lot_at(
            lots,
            snapshot.reservations@,
            config.exchange_view(),
            symbol,
            config.market_type_view(),
            prefix,
            i,
        );
    }
    assert forall|i: int| 0 <= i < snapshot.reservations@.len() implies (#[trigger]
    snapshot.reservations@[i]).phase != PaperReservationPhase::Pending
        && snapshot.reservations@[i].phase != PaperReservationPhase::Uncertain by {
        assert(!crate::paper_account::outcome_is_open(snapshot.reservations@[i].phase));
    }
}

/// Where no foreign lot is seen, every lot of the instrument is the owner's.
proof fn lemma_no_foreign_lot_at(
    lots: Seq<crate::paper_account::PaperLot>,
    reservations: Seq<crate::paper_account::PaperReservation>,
    exchange: Seq<char>,
    symbol: Seq<char>,
    market_type: crate::domain::MarketType,
    prefix: Seq<char>,
    i: int,
)
    requires
        foreign_lot_of(lots, reservations, exchange, symbol, market_type, prefix) == Some(false),
        0 <= i < lots.len(),
        in_target(lots[i], exchange, symbol, market_type),
    ensures
        lot_is_own(reservations, lots[i], prefix) == Some(true),
    decreases lots.len(),
{
    if i > 0 {
        assert(lots.skip(1)[i - 1] == lots[i]);
        lemma_no_foreign_lot_at(
            lots.skip(1),
            reservations,
            exchange,
            symbol,
            market_type,
            prefix,
            i - 1,
        );
    }
}

/// An event counts as bound where it observes the owner's own instrument.
pub proof fn law_event_is_bound_to_its_instrument(
    config: GridPaperTaskConfig,
    symbol: Seq<char>,
    event: MarketDataEvent,
    signalled: bool,
)
    ensures
        ({
            let input = grid_event_of(config, symbol, event, signalled);
            let snapshot = event->Observation_snapshot;
            &&& input is Event
            &&& input->Event_observation <==> event is Observation
            &&& input->Event_bound <==> event is Observation && snapshot.exchange@
                == config.exchange_view() && snapshot.symbol@ == symbol && snapshot.market_type
                == config.market_type_view()
            &&& input->Event_signalled == signalled
        }),
{
}

/// A demand of account risk that is on record closes what the account shows:
/// a position is closed, a flat owner stops; a demand that is absent changes
/// nothing, and one that could not be read or recorded fails the owner.
pub proof fn law_recorded_demand_closes_what_is_held(
    demand: RiskDemand,
    account: Option<PaperAccountSnapshot>,
    config: GridPaperTaskConfig,
    symbol: Seq<char>,
    market: Option<MarketSnapshot>,
)
    ensures
        ({
            let input = grid_risk_of(demand, account, config, symbol, market);
            let recorded = demand == RiskDemand::Recorded;
            &&& input == GridInput::Risk(RiskExit::Continue) <==> demand == RiskDemand::Absent
            &&& input == GridInput::Risk(RiskExit::Close) ==> recorded && account is Some
                && market is Some && account_close_plan(account->0, config, symbol) is Ok
                && account_close_plan(account->0, config, symbol)->Ok_0 is Some
            &&& input == GridInput::Risk(RiskExit::Stop) ==> recorded && account is Some
                && account_close_plan(account->0, config, symbol) is Ok && account_close_plan(
                account->0,
                config,
                symbol,
            )->Ok_0 is None
            &&& recorded && account is None ==> input == GridInput::Failed(
                GridPaperTaskError::Account,
            )
            &&& demand == RiskDemand::Unavailable ==> input == GridInput::Failed(
                GridPaperTaskError::AccountRisk,
            )
            &&& demand == RiskDemand::Unrecorded ==> input == GridInput::Failed(
                GridPaperTaskError::Journal,
            )
        }),
{
}

/// A position is found open exactly where there is something to close, and
/// flat exactly where there is nothing.
pub proof fn law_open_position_is_one_to_close(
    account: PaperAccountSnapshot,
    config: GridPaperTaskConfig,
    symbol: Seq<char>,
)
    ensures
        ({
            let found = grid_position_of(Some(account), false, config, symbol);
            let plan = account_close_plan(account, config, symbol);
            &&& found == PositionFound::Open <==> plan is Ok && plan->Ok_0 is Some
            &&& found == PositionFound::Flat <==> plan is Ok && plan->Ok_0 is None
            &&& found is Unclear <==> plan is Err
        }),
        grid_position_of(None, true, config, symbol) is Unread,
        grid_position_of(None, false, config, symbol) is Unread,
{
}

/// A level that did not complete ends the owner: in recovery where capacity
/// was kept or the risk could not be read, with the stop that was asked for or
/// the failure of the operation where none was. Only an interruption by the
/// risk goes on, to its record. What is shown at the end counts the event and
/// every operation that was begun.
pub proof fn law_unfinished_level_ends_the_owner(owner: GridOwner, kept: bool)
    requires
        owner.stage is CrossRetain,
    ensures
        ({
            let step = owner_step(owner, GridInput::Retained(kept));
            let reason = owner.stage->CrossRetain_reason;
            &&& reason is RiskInterrupted ==> step.1 is AppendPendingRisk && step.0.status
                == owner.status
            &&& reason is Unavailable ==> asks_for_recovery(step)
            &&& kept && !(reason is RiskInterrupted) ==> asks_for_recovery(step)
            &&& !kept && reason is Cancelled ==> begins_to_stop(
                step,
                GridPaperTaskExit::StopRequested,
            )
            &&& !kept && reason is Failed ==> gives_up(
                step,
                GridPaperTaskError::Saga(reason->Failed_0),
            )
            &&& !(reason is RiskInterrupted) ==> step.0.status.operation_count == owner.sequence
                && step.0.status.processed_event_count == owner.next.processed_event_count
        }),
{
}

/// When the last level of an event completes and nothing asks for a stop, an
/// owner under account risk looks whether it is flat; any other records the
/// event, with every operation that was begun.
pub proof fn law_last_level_settles_the_event(owner: GridOwner)
    requires
        owner.stage is CrossRun,
        owner_is_sound(owner),
        owner.taken + 1 == owner.crossings,
        owner.completed + 1 == owner.crossings,
    ensures
        ({
            let step = owner_step(
                owner,
                GridInput::Outcome(OperationOutcome::Completed { stop_requested: false }),
            );
            &&& owner.risk ==> step.1 is CheckFlat && step.0.next.operation_count
                == owner.sequence
            &&& !owner.risk ==> step.1 is AppendCheckpoint
                && step.1->AppendCheckpoint_counts.operation_count == owner.sequence
                && step.1->AppendCheckpoint_counts.processed_event_count
                == owner.next.processed_event_count
        }),
{
}

/// An owner that finds itself flat records the closed position before the
/// event; one that holds a position records the event at once.
pub proof fn law_flat_owner_records_its_closed_position(owner: GridOwner)
    requires
        owner.stage is FlatCheck,
    ensures
        owner_step(owner, GridInput::Position(PositionFound::Flat)).1 is RecordPositionClosed,
        owner_step(owner, GridInput::Position(PositionFound::Open)).1 == (
        GridAction::AppendCheckpoint { counts: owner.next }),
{
}

/// A completed scalp takes no level, and its operation is counted; a failed
/// one gives up with its failure, and is counted too.
pub proof fn law_scalp_is_counted(owner: GridOwner, outcome: OperationOutcome)
    requires
        owner.stage is ScalpRun,
        owner_is_sound(owner),
    ensures
        ({
            let step = owner_step(owner, GridInput::Outcome(outcome));
            &&& outcome is Completed ==> step.1 is AppendCheckpoint && step.0.crossings == 0
                && step.1->AppendCheckpoint_counts.operation_count == owner.sequence
            &&& outcome is Completed ==> step.0.stop_after == (owner.stop_after
                || outcome->Completed_stop_requested)
            &&& outcome is Failed ==> gives_up(step, GridPaperTaskError::Saga(outcome->Failed_0))
                && step.0.status.operation_count == owner.sequence
        }),
{
}

/// Two directives ask for the same exactly where both freeze for one reason,
/// or both scalp on one side as much at the same price.
pub proof fn law_directives_alike_ask_for_the_same(a: ProtectionSignature, b: ProtectionSignature)
    requires
        a is Scalp ==> representable(a->quantity@) && representable(a->price@),
        b is Scalp ==> representable(b->quantity@) && representable(b->price@),
    ensures
        a is Freeze && b is Freeze ==> (same_signature(a, b) <==> a->reason@ == b->reason@),
        a is Scalp && b is Scalp ==> (same_signature(a, b) <==> a->side == b->side && units(
            a->quantity@,
        ) == units(b->quantity@) && units(a->price@) == units(b->price@)),
        a is Freeze != b is Freeze ==> !same_signature(a, b),
{
    if a is Scalp && b is Scalp {
        law_order_is_that_of_units(a->quantity@, b->quantity@);
        law_order_is_that_of_units(a->price@, b->price@);
    }
}

} // verus!
