//! What a volume-maker owner does with each answer that it gets.

use crate::number_laws::units;
use crate::decimal::representable;
use crate::cycle_laws::law_bound_is_reached_at_its_number;
use crate::paper_volume_maker_task::{consumed, CycleLimits, ObservedEvent, PlannedKind};
use crate::paper_volume_maker_task::{PlannedOperation, StandingQuote, StatisticsReason};
use crate::paper_volume_maker_task::{VolumeMakerPaperTaskError, VolumeMakerPaperTaskExit};
use crate::paper_volume_maker_task::{VolumeMakerPaperTaskFailure, VolumeMakerPaperTaskPhase};
use crate::paper_volume_maker_task::hour_volume;
use crate::paper_single_leg_saga::PaperSingleLegRun;
use crate::time_laws::{law_advancing_adds_the_time, nanos_of};
use crate::timestamp::{advanced, hour_bucket_of, is_leap, Timestamp};
use crate::volume_owner::{cycle_of, next_cycle, owner_step, VolumeAction, VolumeInput, VolumeOwner};
use crate::volume_owner::VolumeStage;
use vstd::prelude::*;

verus! {

/// The owner gives up with this error: it stops its source first.
pub open spec fn gives_up(
    step: (VolumeOwner, VolumeAction),
    error: VolumeMakerPaperTaskError,
) -> bool {
    &&& step.1 is StopSource
    &&& step.0.stage is FailingStop
    &&& step.0.stage->FailingStop_error == error
}

/// The owner begins to stop with this exit: it reports the open hour where
/// something happened in it, and otherwise records that it stops.
pub open spec fn begins_to_stop(
    before: VolumeOwner,
    step: (VolumeOwner, VolumeAction),
    exit: VolumeMakerPaperTaskExit,
) -> bool {
    let busy = before.bucket is Some && (before.bucket->0.completed_cycles > 0
        || before.bucket->0.rejected_entries > 0);
    &&& busy && hour_volume(before.bucket->0) is Some ==> step.1 == (
    VolumeAction::AppendStatistics { bucket: before.bucket->0, reason: StatisticsReason::Stop })
        && step.0.stage == (VolumeStage::StopStatistics { exit })
    &&& busy && hour_volume(before.bucket->0) is None ==> step.1 is Finish && step.1->Finish_0
        is Err
    &&& !busy ==> step.0.stage == (VolumeStage::StoppingAppend { exit }) && step.1 is AppendStatus
        && step.1->AppendStatus_phase == VolumeMakerPaperTaskPhase::Stopping
    &&& step.0.bucket is None
}

/// A waiting owner stops on a signal, and where its source ended; an event
/// that comes with a signal is not counted.
pub proof fn law_signal_stops_a_waiting_volume_maker(owner: VolumeOwner, input: VolumeInput)
    requires
        owner.stage is Waiting,
        input is Signal || input is SourceEnded || (input is Event && input->Event_signalled),
    ensures
        begins_to_stop(
            owner,
            owner_step(owner, input),
            if input is SourceEnded {
                VolumeMakerPaperTaskExit::SourceEnded
            } else {
                VolumeMakerPaperTaskExit::StopRequested
            },
        ),
        owner_step(owner, input).0.status == owner.status,
{
}

/// Every event is counted once and shown when its record is durable; an event
/// of another instrument fails the owner, and one that shows nothing is only
/// counted.
pub proof fn law_each_event_is_counted_once(
    owner: VolumeOwner,
    observed: ObservedEvent,
)
    requires
        owner.stage is Waiting,
        owner.status.processed_event_count < u64::MAX,
    ensures
        ({
            let step = owner_step(owner, VolumeInput::Event { observed, signalled: false });
            &&& step.0.next.processed_event_count == owner.status.processed_event_count + 1
            &&& step.0.next.completed_cycle_count == owner.status.completed_cycle_count
            &&& step.0.next.operation_count == owner.status.operation_count
            &&& step.0.status == owner.status
            &&& observed is Foreign ==> gives_up(
                step,
                VolumeMakerPaperTaskError::InvalidSourceBinding,
            )
            &&& observed is Gap ==> step.1 == (VolumeAction::AppendCheckpoint {
                counts: step.0.next,
            }) && step.0.stage is GapCheckpoint
            &&& observed is Observation ==> step.0.observed_at == observed->at
        }),
{
}

/// The hour is reported when an observation falls into a later one, and a new
/// hour is opened empty at the observation's own; within one hour its figures
/// go on.
pub proof fn law_hour_is_reported_when_it_is_over(owner: VolumeOwner, at: Timestamp)
    requires
        owner.stage is Waiting,
        owner.status.processed_event_count < u64::MAX,
    ensures
        ({
            let step = owner_step(
                owner,
                VolumeInput::Event { observed: ObservedEvent::Observation { at }, signalled: false },
            );
            let over = owner.bucket is Some && owner.bucket->0.hour_start.rank() < hour_bucket_of(
                at,
            ).rank();
            let after = owner_step(step.0, VolumeInput::Done);
            &&& over && hour_volume(owner.bucket->0) is Some ==> step.1 == (
            VolumeAction::AppendStatistics {
                bucket: owner.bucket->0,
                reason: StatisticsReason::HourRollover,
            }) && after.0.bucket is Some && after.0.bucket->0.hour_start == hour_bucket_of(at)
                && after.0.bucket->0.completed_cycles == 0 && after.0.bucket->0.rejected_entries
                == 0
            &&& !over ==> !(step.1 is AppendStatistics) && step.0.bucket is Some
            &&& !over && owner.bucket is Some ==> step.0.bucket == owner.bucket
            &&& owner.bucket is None ==> step.0.bucket->0.hour_start == hour_bucket_of(at)
                && step.0.bucket->0.completed_cycles == 0
            &&& !over ==> (step.1 is ReadRiskExit <==> owner.risk) && (step.1 is Plan
                <==> !owner.risk)
        }),
{
}

/// What account risk demands is done before a plan is made.
pub proof fn law_risk_demand_is_obeyed(owner: VolumeOwner, stop: bool)
    requires
        owner.stage is RiskExit,
    ensures
        !stop ==> owner_step(owner, VolumeInput::Risk(stop)).1 is Plan,
        stop ==> begins_to_stop(
            owner,
            owner_step(owner, VolumeInput::Risk(stop)),
            VolumeMakerPaperTaskExit::StopRequested,
        ),
{
}

/// An opening asks account risk first where it is attached; a close never
/// does, and a plan without an operation is only counted. The next operation
/// has the next number.
pub proof fn law_only_openings_are_admitted(
    owner: VolumeOwner,
    operation: Option<PlannedOperation>,
    quote: Option<StandingQuote>,
)
    requires
        owner.stage is Plan,
        owner.sequence < u64::MAX,
    ensures
        ({
            let step = owner_step(owner, VolumeInput::Planned { operation, quote });
            let opens = operation is Some && operation->0.kind == PlannedKind::Open;
            &&& step.0.quote == quote
            &&& step.0.planned == operation
            &&& operation is None ==> step.1 is AppendCheckpoint && step.0.sequence
                == owner.sequence
            &&& opens && owner.risk ==> step.1 is AdmitOpen && step.0.sequence == owner.sequence
            &&& operation is Some && !(opens && owner.risk) ==> step.1 == (
            VolumeAction::BuildRequest {
                sequence: (owner.sequence + 1) as u64,
                admitted: false,
            }) && step.0.sequence == owner.sequence + 1
        }),
{
}

/// A refused opening takes the quote away, is counted among the refused
/// entries of the hour and uses no number; an admitted one is built with its
/// admission.
pub proof fn law_refused_opening_is_counted(owner: VolumeOwner, admitted: bool)
    requires
        owner.stage is Admit,
        owner.sequence < u64::MAX,
    ensures
        ({
            let step = owner_step(owner, VolumeInput::Admitted(admitted));
            &&& admitted ==> step.1 == (VolumeAction::BuildRequest {
                sequence: (owner.sequence + 1) as u64,
                admitted: true,
            })
            &&& !admitted ==> step.0.sequence == owner.sequence && step.0.quote is None
                && step.0.planned is None && step.1 is AppendCheckpoint && step.0.position
                == owner.position
            &&& !admitted && owner.bucket is Some && owner.bucket->0.rejected_entries < u64::MAX
                ==> step.0.bucket is Some && step.0.bucket->0.rejected_entries
                == owner.bucket->0.rejected_entries + 1 && step.0.bucket->0.completed_cycles
                == owner.bucket->0.completed_cycles && step.0.bucket->0.realized_pnl
                == owner.bucket->0.realized_pnl
        }),
{
}

/// The next cycle may open when the interval has passed since the observation
/// that completed the last one, and not before.
pub proof fn law_next_cycle_waits_for_the_interval(limits: CycleLimits, observed_at: Timestamp)
    requires
        !is_leap(observed_at),
        advanced(
            observed_at,
            limits.interval_seconds * 1_000_000_000 + limits.interval_nanos,
        ) is Some,
    ensures
        nanos_of(next_cycle(limits, observed_at)) == nanos_of(observed_at)
            + limits.interval_seconds * 1_000_000_000 + limits.interval_nanos,
{
    law_advancing_adds_the_time(
        observed_at,
        limits.interval_seconds * 1_000_000_000 + limits.interval_nanos,
    );
}

/// A run moves the owner to the state that its cycle comes to; a completed
/// cycle is counted once, sets the time of the next one, and stops the owner
/// where the bound is reached.
pub proof fn law_completed_cycle_is_counted(
    owner: VolumeOwner,
    run: PaperSingleLegRun,
    stop_requested: bool,
)
    requires
        owner.stage is Run,
        owner.planned is Some,
        owner.bucket is Some,
        owner.next.completed_cycle_count < u64::MAX,
        consumed(cycle_of(owner, owner.bucket->0), owner.planned->0, run) is Ok,
    ensures
        ({
            let (cycle, completed) = consumed(
                cycle_of(owner, owner.bucket->0),
                owner.planned->0,
                run,
            )->Ok_0;
            let step = owner_step(owner, VolumeInput::Ran { run, stop_requested });
            &&& step.0.position == cycle.position
            &&& step.0.quote == cycle.quote
            &&& step.0.bucket == Some(cycle.bucket)
            &&& step.0.total_volume == cycle.total_volume
            &&& step.0.next.operation_count == owner.sequence
            &&& step.0.next.completed_cycle_count == owner.next.completed_cycle_count
                + if completed {
                1int
            } else {
                0int
            }
            &&& completed ==> step.0.next_cycle_at == Some(
                next_cycle(owner.limits, owner.observed_at),
            )
            &&& !completed ==> step.0.next_cycle_at == owner.next_cycle_at && step.1
                is AppendCheckpoint && step.0.stage is Checkpoint
            &&& completed && owner.risk ==> step.1 is RecordPositionClosed
            &&& step.0.stop_after == stop_requested
        }),
{
}

/// Where as many cycles were completed, or as much was traded, as the limits
/// name, the owner stops with that exit; below them it goes on.
pub proof fn law_owner_stops_at_its_bound(owner: VolumeOwner)
    requires
        owner.stage is RecordClosed,
        representable(owner.total_volume@),
        owner.limits.target_volume is Some ==> representable(owner.limits.target_volume->0@),
    ensures
        ({
            let step = owner_step(owner, VolumeInput::Done);
            let reached = (owner.limits.max_cycles is Some && owner.limits.max_cycles->0
                <= owner.next.completed_cycle_count) || (owner.limits.target_volume is Some
                && units(owner.limits.target_volume->0@) <= units(owner.total_volume@));
            let after = owner_step(step.0, VolumeInput::Done);
            &&& step.1 == (VolumeAction::AppendCheckpoint { counts: owner.next })
            &&& reached ==> begins_to_stop(
                step.0,
                after,
                VolumeMakerPaperTaskExit::BoundsReached,
            )
            &&& !reached && !owner.stop_after ==> after.1 is Wait && after.0.stage is Waiting
            &&& !reached && owner.stop_after ==> begins_to_stop(
                step.0,
                after,
                VolumeMakerPaperTaskExit::StopRequested,
            )
            &&& after.0.status == owner.next
        }),
{
    law_bound_is_reached_at_its_number(
        owner.limits,
        owner.next.completed_cycle_count,
        owner.total_volume@,
    );
}

/// Capacity that an unfinished operation still holds needs recovery; one that
/// holds none fails with its own error, or stops where it was cancelled.
pub proof fn law_kept_capacity_needs_recovery(owner: VolumeOwner, kept: bool)
    requires
        owner.stage is Retain,
    ensures
        ({
            let step = owner_step(owner, VolumeInput::Retained(kept));
            let reason = owner.stage->Retain_reason;
            &&& kept ==> gives_up(step, VolumeMakerPaperTaskError::RecoveryRequired)
            &&& !kept && reason is Failed ==> gives_up(
                step,
                VolumeMakerPaperTaskError::Saga(reason->Failed_0),
            )
            &&& !kept && reason is Cancelled ==> begins_to_stop(
                owner,
                step,
                VolumeMakerPaperTaskExit::StopRequested,
            )
        }),
{
}

/// An owner that stops ends with the exit it set out with, and with a time-out
/// where its source did not stop in time.
pub proof fn law_volume_stop_keeps_its_exit(
    owner: VolumeOwner,
    exit: VolumeMakerPaperTaskExit,
    timed_out: bool,
)
    requires
        owner.stage == (VolumeStage::StopStatistics { exit }),
    ensures
        ({
            let recording = owner_step(owner, VolumeInput::Done);
            let stopping = owner_step(recording.0, VolumeInput::Done);
            let stopped = owner_step(stopping.0, VolumeInput::SourceStopped { timed_out });
            let end = owner_step(stopped.0, VolumeInput::Done);
            let kept = if timed_out {
                VolumeMakerPaperTaskExit::ShutdownTimedOut
            } else {
                exit
            };
            &&& recording.1 is AppendStatus
            &&& stopping.1 is StopSource
            &&& stopping.0.phase == VolumeMakerPaperTaskPhase::Stopping
            &&& stopped.1 is AppendStatus
            &&& stopped.1->AppendStatus_phase == VolumeMakerPaperTaskPhase::Stopped
            &&& stopped.1->AppendStatus_exit == Some(kept)
            &&& end.1 == VolumeAction::Finish(Ok(kept))
            &&& end.0.phase == VolumeMakerPaperTaskPhase::Stopped
        }),
{
}

/// An owner that gives up records its failure and ends with its error.
pub proof fn law_volume_failure_ends_with_its_error(
    owner: VolumeOwner,
    failure: VolumeMakerPaperTaskFailure,
    error: VolumeMakerPaperTaskError,
    input: VolumeInput,
)
    requires
        owner.stage == (VolumeStage::FailingStop { failure, error }),
    ensures
        ({
            let recorded = owner_step(owner, input);
            let end = owner_step(recorded.0, VolumeInput::Done);
            &&& recorded.1 is AppendStatus
            &&& recorded.1->AppendStatus_phase == VolumeMakerPaperTaskPhase::Failed
            &&& recorded.1->AppendStatus_failure == Some(failure)
            &&& end.1 == VolumeAction::Finish(Err(error))
            &&& end.0.phase == VolumeMakerPaperTaskPhase::Failed
        }),
{
}

} // verus!
