//! What a pair owner does with each answer that it gets.

use crate::arbitrage_owner::{is_flat, owner_step, ArbitrageAction, ArbitrageInput, ArbitrageOwner};
use crate::arbitrage_owner::{ArbitrageStage, GateFound, PlanScope, SampleFound, StopPlan};
use crate::arbitrage_plan::ArbitrageState;
use crate::arbitrage_plan::ArbitrageDecisionKind;
use crate::paper_arbitrage_task::{ArbitragePaperTaskError, ArbitragePaperTaskExit};
use crate::paper_arbitrage_task::{ArbitragePaperTaskFailure, ArbitragePaperTaskPhase};
use crate::paper_arbitrage_task::{operation_error, OperationResult};
use vstd::prelude::*;

verus! {

/// The owner gives up with this error: it stops its sources first.
pub open spec fn gives_up(
    step: (ArbitrageOwner, ArbitrageAction),
    error: ArbitragePaperTaskError,
) -> bool {
    &&& step.1 is StopSources
    &&& step.0.stage is FailingStop
    &&& step.0.stage->FailingStop_error == error
    &&& step.0.in_flight is None
}

/// A signal stops a waiting owner with that exit. Where an operation is in
/// flight, a cancelling signal aborts it and any other asks first whether it
/// has reached its executor.
pub proof fn law_signal_stops_a_waiting_pair(owner: ArbitrageOwner, cancel: bool)
    requires
        owner.stage is Waiting,
    ensures
        ({
            let step = owner_step(owner, ArbitrageInput::Signal { cancel });
            let stop = StopPlan {
                exit: ArbitragePaperTaskExit::StopRequested,
                close: false,
                needs_recovery: false,
                timed_out: false,
            };
            &&& owner.in_flight is None ==> step.1 is AppendStatus && step.1->AppendStatus_phase
                == ArbitragePaperTaskPhase::Stopping && step.0.stage == (
            ArbitrageStage::StoppingAppend { stop })
            &&& owner.in_flight is Some && cancel ==> step.1 is AbortOperation && step.0.stage == (
            ArbitrageStage::StopAbort { stop })
            &&& owner.in_flight is Some && !cancel ==> step.1 is ProbeOperation && step.0.stage
                == (ArbitrageStage::StopProbe { stop })
            &&& step.0.in_flight == owner.in_flight
        }),
{
}

/// A completed operation moves the position to its target, a failed one leaves
/// it and keeps its capacity; one is in flight no longer either way.
pub proof fn law_completed_operation_moves_the_position(
    owner: ArbitrageOwner,
    result: OperationResult,
)
    requires
        owner.stage is Waiting,
        owner.in_flight is Some,
    ensures
        ({
            let step = owner_step(owner, ArbitrageInput::Operation(result));
            let target = owner.in_flight->0;
            let flat = target.position_quantity@.0 == 0;
            &&& step.0.in_flight is None
            &&& result is Completed ==> step.0.position == target
            &&& result is Completed && owner.risk && flat ==> step.1 is RecordPositionClosed
            &&& result is Completed && !(owner.risk && flat) ==> !step.0.leased && step.0.pending
                is None
            &&& result is Completed && !(owner.risk && flat) && owner.pending is Some ==> step.1
                is ReadGate && step.0.stage == (ArbitrageStage::Gate { scope: owner.pending->0 })
            &&& result is Completed && !(owner.risk && flat) && owner.pending is None ==> step.1
                is Wait
            &&& !(result is Completed) ==> step.0.position == owner.position && step.1
                is RetainOperation
        }),
{
}

/// An event is counted once; a pass that it triggers while an operation is in
/// flight is kept for later, an opportunity is counted and is not forgotten
/// for a lesser pass.
pub proof fn law_event_in_flight_is_coalesced(
    owner: ArbitrageOwner,
    scope: Option<PlanScope>,
    pair: bool,
)
    requires
        owner.stage is Monitor,
        owner.status.processed_event_count < u64::MAX,
        owner.status.coalesced_opportunity_count < u64::MAX,
    ensures
        ({
            let step = owner_step(
                owner,
                ArbitrageInput::Monitored { scope, pair, sample: SampleFound::Taken },
            );
            let busy = owner.in_flight is Some;
            &&& step.1 == (ArbitrageAction::AppendCheckpoint { counts: step.0.next })
            &&& step.0.stage == (ArbitrageStage::Checkpoint { scope })
            &&& step.0.next.processed_event_count == owner.status.processed_event_count + 1
            &&& step.0.next.coalesced_opportunity_count
                == owner.status.coalesced_opportunity_count + if busy && scope == Some(
                PlanScope::Full,
            ) {
                1int
            } else {
                0int
            }
            &&& step.0.status == owner.status
            &&& busy && scope == Some(PlanScope::Full) ==> step.0.pending == Some(PlanScope::Full)
            &&& busy && scope == Some(PlanScope::ReduceOnly) ==> step.0.pending is Some && (
            step.0.pending == Some(PlanScope::Full) <==> owner.pending == Some(PlanScope::Full))
            &&& !busy || scope is None ==> step.0.pending == owner.pending
            &&& step.0.pair_seen == (owner.pair_seen || pair)
        }),
{
}

/// A recorded event is shown, and account risk is read before anything is
/// planned; nothing is planned while an operation is in flight.
pub proof fn law_recorded_event_is_planned_on(owner: ArbitrageOwner)
    requires
        owner.stage is Checkpoint,
    ensures
        ({
            let step = owner_step(owner, ArbitrageInput::Done);
            let scope = owner.stage->Checkpoint_scope;
            &&& step.0.status == owner.next
            &&& owner.risk ==> step.1 == (ArbitrageAction::ReadRiskExit { polled: false })
            &&& !owner.risk && scope is Some && owner.in_flight is None ==> step.1 is ReadGate
                && step.0.stage == (ArbitrageStage::Gate { scope: scope->0 })
            &&& !owner.risk && (scope is None || owner.in_flight is Some) ==> step.1 is Wait
        }),
{
}

/// A demand of account risk stops the owner and closes what it holds; a
/// position on a pair that was never seen whole cannot be closed and needs
/// recovery.
pub proof fn law_risk_demand_closes_the_pair(owner: ArbitrageOwner, demanded: bool)
    requires
        owner.stage is RiskExit,
        owner.in_flight is None,
    ensures
        ({
            let step = owner_step(owner, ArbitrageInput::Risk(demanded));
            let flat = owner.position.position_quantity@.0 == 0;
            let polled = owner.stage->RiskExit_polled;
            let scope = owner.stage->RiskExit_scope;
            &&& demanded && !flat && !owner.pair_seen ==> gives_up(
                step,
                ArbitragePaperTaskError::RecoveryRequired,
            )
            &&& demanded && (flat || owner.pair_seen) ==> step.1 is AppendStatus
                && step.0.stage is StoppingAppend && step.0.stage->StoppingAppend_stop.close
                == owner.pair_seen && step.0.stage->StoppingAppend_stop.exit
                == ArbitragePaperTaskExit::StopRequested
            &&& !demanded && polled ==> step.1 is Wait
            &&& !demanded && !polled && scope is Some ==> step.1 is ReadGate && step.0.stage == (
            ArbitrageStage::Gate { scope: scope->0 })
            &&& !demanded && !polled && scope is None ==> step.1 is Wait
        }),
{
}

/// Only an open gate lets the strategy decide, under the scope of the pass.
pub proof fn law_only_an_open_gate_decides(owner: ArbitrageOwner, found: GateFound)
    requires
        owner.stage is Gate,
    ensures
        ({
            let step = owner_step(owner, ArbitrageInput::Gate(found));
            &&& step.1 is Decide <==> found == GateFound::Open
            &&& found == GateFound::Open ==> step.0.stage == (ArbitrageStage::Decide {
                scope: owner.stage->Gate_scope,
            })
            &&& found != GateFound::Open ==> step.1 is Wait
        }),
{
}

/// A pass that only reduces takes no other decision; what opens or increases
/// exposure asks account risk first where it is attached, a reduction never
/// does; the operation lane is taken before the account is read.
pub proof fn law_decision_is_taken_within_its_scope(
    owner: ArbitrageOwner,
    decided: Option<ArbitrageDecisionKind>,
)
    requires
        owner.stage is Decide,
        !owner.leased,
    ensures
        ({
            let step = owner_step(owner, ArbitrageInput::Decided(decided));
            let scope = owner.stage->Decide_scope;
            let allowed = decided is Some && (scope == PlanScope::Full || decided->0
                == ArbitrageDecisionKind::Reduce);
            let opens = decided is Some && (decided->0 == ArbitrageDecisionKind::Open || decided->0
                == ArbitrageDecisionKind::Increase);
            &&& !allowed ==> step.1 is Wait && !step.0.leased
            &&& allowed ==> step.0.leased
            &&& allowed && owner.risk && opens ==> step.1 is AdmitOperation
            &&& allowed && !(owner.risk && opens) ==> step.1 is ReadAccount && step.0.stage == (
            ArbitrageStage::Account { admitted: false })
        }),
{
}

/// A refused opening is passed over and frees the lane; an admitted one goes
/// on with its admission.
pub proof fn law_refused_pair_is_passed_over(owner: ArbitrageOwner, admitted: bool)
    requires
        owner.stage is Admit,
    ensures
        ({
            let step = owner_step(owner, ArbitrageInput::Admitted(admitted));
            &&& admitted ==> step.1 is ReadAccount && step.0.stage == (ArbitrageStage::Account {
                admitted: true,
            })
            &&& !admitted ==> step.1 is Wait && !step.0.leased && step.0.sequence
                == owner.sequence
        }),
{
}

/// A built operation is started under the next number towards its target; a
/// signal that overtook it drops it before it starts, with its admission.
pub proof fn law_built_operation_is_started(
    owner: ArbitrageOwner,
    target: ArbitrageState,
    signalled: bool,
)
    requires
        owner.stage is Build,
        owner.sequence < u64::MAX,
    ensures
        ({
            let step = owner_step(owner, ArbitrageInput::Built { target, signalled });
            let admitted = owner.stage->Build_admitted;
            &&& step.0.sequence == owner.sequence + 1
            &&& step.0.position == owner.position
            &&& !signalled ==> step.1 is StartOperation && step.0.in_flight == Some(target)
                && step.0.status.operation_count == owner.sequence + 1
            &&& signalled ==> step.0.in_flight == owner.in_flight && !(step.1 is StartOperation)
            &&& signalled && admitted ==> step.1 is DiscardAdmission
            &&& signalled && !admitted ==> step.1 is Wait
        }),
{
}

/// A stop that demands a close restores the position first, closes it where
/// something is held and stops where nothing is; a source that ended with a
/// position open needs recovery.
pub proof fn law_stop_closes_what_is_held(
    owner: ArbitrageOwner,
    stop: StopPlan,
    state: ArbitrageState,
)
    requires
        owner.stage == (ArbitrageStage::StopRestore { stop }),
        !stop.timed_out,
    ensures
        ({
            let step = owner_step(owner, ArbitrageInput::Restored(state));
            let flat = state.position_quantity@.0 == 0;
            &&& step.0.position == state
            &&& flat ==> step.1 is AppendStatus && step.1->AppendStatus_phase
                == ArbitragePaperTaskPhase::Stopped && step.1->AppendStatus_exit == Some(stop.exit)
            &&& !flat && stop.exit == ArbitragePaperTaskExit::SourceEnded ==> gives_up(
                step,
                ArbitragePaperTaskError::RecoveryRequired,
            )
            &&& !flat && stop.exit != ArbitragePaperTaskExit::SourceEnded && stop.close ==> step.1
                is ReadAccount && step.0.stage == (ArbitrageStage::CloseAccount { stop })
        }),
{
}

/// A forced close counts only where the account shows nothing left after it.
pub proof fn law_forced_close_is_verified_flat(
    owner: ArbitrageOwner,
    stop: StopPlan,
    state: ArbitrageState,
)
    requires
        owner.stage == (ArbitrageStage::CloseRestore { stop }),
        !stop.timed_out,
    ensures
        ({
            let step = owner_step(owner, ArbitrageInput::Restored(state));
            let flat = state.position_quantity@.0 == 0;
            &&& !flat ==> gives_up(step, ArbitragePaperTaskError::RecoveryRequired)
            &&& flat && owner.risk ==> step.1 is RecordPositionClosed
            &&& flat && !owner.risk ==> step.1 is AppendStatus && step.1->AppendStatus_phase
                == ArbitragePaperTaskPhase::Stopped && step.1->AppendStatus_exit == Some(stop.exit)
        }),
{
}

/// A forced close that completes is verified against the account; one that
/// does not needs recovery, and one that takes too long is aborted.
pub proof fn law_forced_close_must_complete(
    owner: ArbitrageOwner,
    stop: StopPlan,
    result: OperationResult,
)
    requires
        owner.stage == (ArbitrageStage::CloseRun { stop }),
        owner.in_flight is Some,
    ensures
        ({
            let step = owner_step(owner, ArbitrageInput::Operation(result));
            &&& result is Completed ==> step.1 is RestoreState && step.0.position
                == owner.in_flight->0 && step.0.in_flight is None
            &&& !(result is Completed) ==> gives_up(
                step,
                ArbitragePaperTaskError::RecoveryRequired,
            )
        }),
        owner_step(owner, ArbitrageInput::TimedOut).1 is AbortOperation,
{
}

/// Capacity that an aborted or failed operation still holds needs recovery.
pub proof fn law_kept_capacity_needs_recovery(owner: ArbitrageOwner, kept: bool)
    requires
        owner.stage is RetainFailed || owner.stage is Abort || owner.stage is StopAbort,
    ensures
        ({
            let step = owner_step(owner, ArbitrageInput::Retained(kept));
            &&& kept && !(owner.stage is StopAbort) ==> gives_up(
                step,
                ArbitragePaperTaskError::RecoveryRequired,
            )
            &&& !kept && owner.stage is RetainFailed ==> gives_up(
                step,
                owner.stage->RetainFailed_error,
            )
            &&& owner.stage is StopAbort ==> step.0.in_flight is None && !step.0.leased
                && step.0.stage is StoppingAppend && step.0.stage->StoppingAppend_stop.needs_recovery
                == kept
        }),
{
}

/// A stop whose aborted operation kept its capacity ends in recovery when the
/// sources have stopped; an operation still in flight is joined first.
pub proof fn law_stopped_sources_lead_to_the_end(
    owner: ArbitrageOwner,
    stop: StopPlan,
    timed_out: bool,
)
    requires
        owner.stage == (ArbitrageStage::SourceStop { stop }),
    ensures
        ({
            let step = owner_step(owner, ArbitrageInput::SourcesStopped { timed_out });
            let ends_source = stop.exit == ArbitragePaperTaskExit::SourceEnded;
            &&& stop.needs_recovery ==> gives_up(step, ArbitragePaperTaskError::RecoveryRequired)
            &&& !stop.needs_recovery && owner.in_flight is Some ==> step.1 == (
            ArbitrageAction::JoinOperation { bounded: stop.close || ends_source })
            &&& !stop.needs_recovery && owner.in_flight is None && !stop.close && !ends_source
                && timed_out ==> gives_up(step, ArbitragePaperTaskError::ShutdownTimedOut)
            &&& !stop.needs_recovery && owner.in_flight is None && !stop.close && !ends_source
                && !timed_out ==> step.1 is AppendStatus && step.1->AppendStatus_phase
                == ArbitragePaperTaskPhase::Stopped && step.1->AppendStatus_exit == Some(stop.exit)
            &&& !stop.needs_recovery && owner.in_flight is None && ends_source && !stop.close
                ==> step.1 is RestoreState
            &&& !stop.needs_recovery && owner.in_flight is None && stop.close && !owner.leased
                ==> step.1 is RestoreState && step.0.leased
        }),
{
}

/// An owner that gives up records its failure and ends with its error; one
/// that stops ends with its exit.
pub proof fn law_pair_ends_with_what_it_recorded(
    owner: ArbitrageOwner,
    failure: ArbitragePaperTaskFailure,
    error: ArbitragePaperTaskError,
    stop: StopPlan,
    input: ArbitrageInput,
)
    ensures
        owner.stage == (ArbitrageStage::FailingStop { failure, error }) ==> {
            let recorded = owner_step(owner, input);
            let end = owner_step(recorded.0, ArbitrageInput::Done);
            &&& recorded.1 is AppendStatus
            &&& recorded.1->AppendStatus_phase == ArbitragePaperTaskPhase::Failed
            &&& recorded.1->AppendStatus_failure == Some(failure)
            &&& end.1 == ArbitrageAction::Finish(Err(error))
            &&& end.0.phase == ArbitragePaperTaskPhase::Failed
        },
        owner.stage == (ArbitrageStage::StoppedAppend { stop }) ==> {
            let end = owner_step(owner, ArbitrageInput::Done);
            &&& end.1 == ArbitrageAction::Finish(Ok(stop.exit))
            &&& end.0.phase == ArbitragePaperTaskPhase::Stopped
        },
{
}

/// An operation that a stop waits for moves the position where it completed,
/// and what it leaves flat under account risk is recorded. One that did not
/// complete ends a demanded close in recovery, and any other stop with its
/// error.
pub proof fn law_drained_operation_settles_or_fails(
    owner: ArbitrageOwner,
    stop: StopPlan,
    result: OperationResult,
)
    requires
        owner.stage == (ArbitrageStage::Drain { stop }),
        owner.in_flight is Some,
    ensures
        ({
            let step = owner_step(owner, ArbitrageInput::Operation(result));
            let flat = is_flat(owner.in_flight->0);
            &&& operation_error(result) is None ==> step.0.position == owner.in_flight->0
                && step.0.in_flight is None
            &&& operation_error(result) is None && owner.risk && flat ==> step.1
                is RecordPositionClosed
            &&& operation_error(result) is None && !(owner.risk && flat) ==> !(step.1
                is RecordPositionClosed)
            &&& operation_error(result) is Some && stop.close ==> gives_up(
                step,
                ArbitragePaperTaskError::RecoveryRequired,
            )
            &&& operation_error(result) is Some && !stop.close ==> gives_up(
                step,
                operation_error(result)->0,
            )
            &&& operation_error(result) is Some ==> step.0.position == owner.position
        }),
{
}

/// A stop that waits too long for its operation aborts it.
pub proof fn law_drain_is_bounded(owner: ArbitrageOwner)
    requires
        owner.stage is Drain,
    ensures
        owner_step(owner, ArbitrageInput::TimedOut).1 is AbortOperation,
{
}

} // verus!
