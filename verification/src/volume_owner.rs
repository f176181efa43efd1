//! The loop of a volume-maker owner, step by step.
//!
//! The owner waits for its signals and its source. One observation is carried
//! through the hour's statistics, account risk, the plan and its operation
//! before the next event is taken. The owner asks for one action at a time and
//! is told what came of it.

use crate::paper_grid_task::SagaFailure;
use crate::paper_single_leg_saga::PaperSingleLegRun;
use crate::paper_volume_maker_task::{
    at_bound, bounds_reached, bucket_is_empty, classify_saga_error, consume_run, consumed,
    empty_bucket, hour_volume, volume_bucket, volume_saga_bucket, CycleLimits, CycleState,
    ObservedEvent, OpenPosition, PlannedKind, PlannedOperation, StandingQuote, StatisticsBucket,
    StatisticsReason, VolumeMakerPaperTaskError, VolumeMakerPaperTaskExit,
    VolumeMakerPaperTaskFailure, VolumeMakerPaperTaskPhase,
};
use crate::decimal::{decimal_of, Decimal};
use crate::timestamp::{advanced, hour_bucket_of, last_instant, Timestamp, NANOS_PER_SECOND};
use vstd::prelude::*;

verus! {

/// The part of the owner's status that its records show.
#[derive(Clone, Copy, Debug, PartialEq, Eq, Structural)]
pub struct VolumeCounts {
    pub processed_event_count: u64,
    pub operation_count: u64,
    pub completed_cycle_count: u64,
}

/// Why the capacity of an operation is retained.
#[derive(Clone, Copy, Debug, PartialEq, Eq, Structural)]
pub enum VolumeRetain {
    Failed(SagaFailure),
    Cancelled,
}

/// What the owner waits for.
#[derive(Clone, Copy, Debug, PartialEq, Eq, Structural)]
pub enum VolumeStage {
    /// A signal or the source.
    Waiting,
    /// The record of an event that shows nothing.
    GapCheckpoint,
    /// The statistics of the hour that ended.
    Rollover,
    /// The account-risk directives, read and recorded.
    RiskExit,
    /// The plan for the observation.
    Plan,
    Admit,
    Discard { overflow: bool, error: VolumeMakerPaperTaskError },
    Build,
    Run,
    Retain { reason: VolumeRetain },
    /// The closed position, recorded with account risk.
    RecordClosed,
    BoundsCheckpoint,
    Checkpoint,
    /// The statistics of the last, partial hour.
    StopStatistics { exit: VolumeMakerPaperTaskExit },
    StoppingAppend { exit: VolumeMakerPaperTaskExit },
    SourceStop { exit: VolumeMakerPaperTaskExit },
    StoppedAppend { exit: VolumeMakerPaperTaskExit },
    FailingStop { failure: VolumeMakerPaperTaskFailure, error: VolumeMakerPaperTaskError },
    FailedAppend { error: VolumeMakerPaperTaskError },
    Finished,
}

/// The state of the owner between two actions.
#[derive(Debug)]
pub struct VolumeOwner {
    /// An account-risk authority is attached.
    pub risk: bool,
    pub limits: CycleLimits,
    pub stage: VolumeStage,
    pub phase: VolumeMakerPaperTaskPhase,
    /// The counts that the status shows.
    pub status: VolumeCounts,
    /// The counts that the current event leads to.
    pub next: VolumeCounts,
    /// The number of the last operation.
    pub sequence: u64,
    /// When the current observation came in.
    pub observed_at: Timestamp,
    pub quote: Option<StandingQuote>,
    pub position: Option<OpenPosition>,
    pub bucket: Option<StatisticsBucket>,
    pub total_volume: Decimal,
    pub next_cycle_at: Option<Timestamp>,
    pub planned: Option<PlannedOperation>,
    /// The planned operation was admitted by account risk.
    pub admitted: bool,
    pub stop_after: bool,
}

/// What the owner asks for.
#[derive(Debug)]
pub enum VolumeAction {
    Wait,
    AppendStatistics { bucket: StatisticsBucket, reason: StatisticsReason },
    ReadRiskExit,
    Plan,
    AdmitOpen,
    DiscardAdmission,
    BuildRequest { sequence: u64, admitted: bool },
    RunOperation,
    Retain,
    RecordPositionClosed,
    AppendCheckpoint { counts: VolumeCounts },
    AppendStatus {
        phase: VolumeMakerPaperTaskPhase,
        counts: VolumeCounts,
        exit: Option<VolumeMakerPaperTaskExit>,
        failure: Option<VolumeMakerPaperTaskFailure>,
    },
    StopSource,
    Finish(Result<VolumeMakerPaperTaskExit, VolumeMakerPaperTaskError>),
}

/// What came of the last action.
#[derive(Debug)]
pub enum VolumeInput {
    Signal,
    /// An event of the source; `signalled` says that a signal is pending.
    Event { observed: ObservedEvent, signalled: bool },
    SourceEnded,
    SourceFailed,
    Done,
    Failed(VolumeMakerPaperTaskError),
    /// Whether account risk stops the owner.
    Risk(bool),
    Planned { operation: Option<PlannedOperation>, quote: Option<StandingQuote> },
    Admitted(bool),
    /// The saga ended; whether a stop was requested meanwhile.
    Ran { run: PaperSingleLegRun, stop_requested: bool },
    RunFailed(SagaFailure),
    RunCancelled,
    /// Whether reserved capacity was found and kept.
    Retained(bool),
    /// Whether the source's shutdown timed out.
    SourceStopped { timed_out: bool },
}

/// The next state and what it asks for.
pub type VolumeStep = (VolumeOwner, VolumeAction);

/// The owner goes on in a stage and asks for its action.
pub open spec fn asks(owner: VolumeOwner, stage: VolumeStage, action: VolumeAction) -> VolumeStep {
    (VolumeOwner { stage, ..owner }, action)
}

/// The owner is over.
pub open spec fn ends(
    owner: VolumeOwner,
    result: Result<VolumeMakerPaperTaskExit, VolumeMakerPaperTaskError>,
) -> VolumeStep {
    asks(owner, VolumeStage::Finished, VolumeAction::Finish(result))
}

/// The stopping record, once nothing is left to report.
pub open spec fn records_stopping(owner: VolumeOwner, exit: VolumeMakerPaperTaskExit) -> VolumeStep {
    asks(
        owner,
        VolumeStage::StoppingAppend { exit },
        VolumeAction::AppendStatus {
            phase: VolumeMakerPaperTaskPhase::Stopping,
            counts: owner.status,
            exit: None,
            failure: None,
        },
    )
}

/// The owner stops cleanly: the statistics of the last hour come first, if
/// anything happened in it.
pub open spec fn stops(owner: VolumeOwner, exit: VolumeMakerPaperTaskExit) -> VolumeStep {
    let taken = VolumeOwner { bucket: None, ..owner };
    match owner.bucket {
        Some(bucket) if !bucket_is_empty(bucket) => if hour_volume(bucket) is None {
            ends(taken, Err(VolumeMakerPaperTaskError::InvalidRequest))
        } else {
            asks(
                taken,
                VolumeStage::StopStatistics { exit },
                VolumeAction::AppendStatistics { bucket, reason: StatisticsReason::Stop },
            )
        },
        _ => records_stopping(taken, exit),
    }
}

/// The owner fails: the source is stopped first, then the failure is recorded.
pub open spec fn fails(
    owner: VolumeOwner,
    failure: VolumeMakerPaperTaskFailure,
    error: VolumeMakerPaperTaskError,
) -> VolumeStep {
    asks(owner, VolumeStage::FailingStop { failure, error }, VolumeAction::StopSource)
}

/// The owner fails closed: its durable state has to be reconciled.
pub open spec fn needs_recovery(owner: VolumeOwner) -> VolumeStep {
    fails(
        owner,
        VolumeMakerPaperTaskFailure::RecoveryRequired,
        VolumeMakerPaperTaskError::RecoveryRequired,
    )
}

/// The owner fails under the bucket of the error.
pub open spec fn fails_with(owner: VolumeOwner, error: VolumeMakerPaperTaskError) -> VolumeStep {
    fails(owner, volume_bucket(error), error)
}

/// The status shows the current event.
pub open spec fn shown(owner: VolumeOwner) -> VolumeOwner {
    VolumeOwner { status: owner.next, ..owner }
}

/// The status shows the current event and the last operation.
pub open spec fn published(owner: VolumeOwner) -> VolumeOwner {
    let next = VolumeCounts { operation_count: owner.sequence, ..owner.next };
    VolumeOwner { next, status: next, ..owner }
}

/// The owner records the event.
pub open spec fn checkpoints(owner: VolumeOwner) -> VolumeStep {
    asks(owner, VolumeStage::Checkpoint, VolumeAction::AppendCheckpoint { counts: owner.next })
}

/// The hour's statistics are open; account risk comes next, then the plan.
pub open spec fn opens_hour(owner: VolumeOwner) -> VolumeStep {
    let open = VolumeOwner {
        bucket: match owner.bucket {
            Some(bucket) => Some(bucket),
            None => Some(empty_bucket(hour_bucket_of(owner.observed_at))),
        },
        ..owner
    };
    if owner.risk {
        asks(open, VolumeStage::RiskExit, VolumeAction::ReadRiskExit)
    } else {
        asks(open, VolumeStage::Plan, VolumeAction::Plan)
    }
}

/// An event of the source came first.
pub open spec fn event_taken(owner: VolumeOwner, observed: ObservedEvent) -> VolumeStep {
    if owner.status.processed_event_count == u64::MAX {
        ends(owner, Err(VolumeMakerPaperTaskError::InvalidRequest))
    } else {
        let counted = VolumeOwner {
            next: VolumeCounts {
                processed_event_count: (owner.status.processed_event_count + 1) as u64,
                ..owner.status
            },
            planned: None,
            admitted: false,
            stop_after: false,
            ..owner
        };
        match observed {
            ObservedEvent::Foreign => fails(
                counted,
                VolumeMakerPaperTaskFailure::InvalidRequest,
                VolumeMakerPaperTaskError::InvalidSourceBinding,
            ),
            ObservedEvent::Gap => asks(
                counted,
                VolumeStage::GapCheckpoint,
                VolumeAction::AppendCheckpoint { counts: counted.next },
            ),
            ObservedEvent::Observation { at } => {
                let seen = VolumeOwner { observed_at: at, ..counted };
                match owner.bucket {
                    Some(bucket) if bucket.hour_start.rank() < hour_bucket_of(at).rank() => if hour_volume(
                        bucket,
                    ) is None {
                        fails(
                            seen,
                            VolumeMakerPaperTaskFailure::JournalUnavailable,
                            VolumeMakerPaperTaskError::InvalidRequest,
                        )
                    } else {
                        asks(
                            seen,
                            VolumeStage::Rollover,
                            VolumeAction::AppendStatistics {
                                bucket,
                                reason: StatisticsReason::HourRollover,
                            },
                        )
                    },
                    _ => opens_hour(seen),
                }
            },
        }
    }
}

/// A signal or the source came first.
pub open spec fn woken(owner: VolumeOwner, input: VolumeInput) -> VolumeStep {
    match input {
        VolumeInput::Signal => stops(owner, VolumeMakerPaperTaskExit::StopRequested),
        VolumeInput::SourceEnded => stops(owner, VolumeMakerPaperTaskExit::SourceEnded),
        VolumeInput::SourceFailed => fails(
            owner,
            VolumeMakerPaperTaskFailure::SourceContract,
            VolumeMakerPaperTaskError::Source,
        ),
        VolumeInput::Event { observed, signalled } => if signalled {
            stops(owner, VolumeMakerPaperTaskExit::StopRequested)
        } else {
            event_taken(owner, observed)
        },
        _ => needs_recovery(owner),
    }
}

/// The owner builds the planned operation under its next number.
pub open spec fn builds(owner: VolumeOwner, admitted: bool) -> VolumeStep {
    let marked = VolumeOwner { admitted, ..owner };
    if owner.sequence == u64::MAX {
        if admitted {
            asks(
                marked,
                VolumeStage::Discard {
                    overflow: true,
                    error: VolumeMakerPaperTaskError::InvalidRequest,
                },
                VolumeAction::DiscardAdmission,
            )
        } else {
            fails(
                marked,
                VolumeMakerPaperTaskFailure::InvalidRequest,
                VolumeMakerPaperTaskError::InvalidRequest,
            )
        }
    } else {
        let sequence = (owner.sequence + 1) as u64;
        asks(
            VolumeOwner { sequence, ..marked },
            VolumeStage::Build,
            VolumeAction::BuildRequest { sequence, admitted },
        )
    }
}

/// The hour counts one more rejected entry.
pub open spec fn one_more_rejected(bucket: Option<StatisticsBucket>) -> Option<StatisticsBucket> {
    match bucket {
        Some(open) => Some(
            StatisticsBucket {
                rejected_entries: if open.rejected_entries == u64::MAX {
                    u64::MAX
                } else {
                    (open.rejected_entries + 1) as u64
                },
                ..open
            },
        ),
        None => None,
    }
}

/// The plan, up to the operation that carries it out.
pub open spec fn plan_step(owner: VolumeOwner, input: VolumeInput) -> VolumeStep {
    match (owner.stage, input) {
        (VolumeStage::Rollover, VolumeInput::Done) => opens_hour(
            VolumeOwner { bucket: None, ..owner },
        ),
        (VolumeStage::Rollover, VolumeInput::Failed(error)) => fails(
            owner,
            VolumeMakerPaperTaskFailure::JournalUnavailable,
            error,
        ),
        (VolumeStage::RiskExit, VolumeInput::Risk(false)) => asks(
            owner,
            VolumeStage::Plan,
            VolumeAction::Plan,
        ),
        (VolumeStage::RiskExit, VolumeInput::Risk(true)) => stops(
            owner,
            VolumeMakerPaperTaskExit::StopRequested,
        ),
        (VolumeStage::RiskExit, VolumeInput::Failed(error)) => fails_with(owner, error),
        (VolumeStage::Plan, VolumeInput::Planned { operation, quote }) => {
            let quoted = VolumeOwner { quote, planned: operation, ..owner };
            match operation {
                None => checkpoints(quoted),
                Some(planned) => if planned.kind == PlannedKind::Open && owner.risk {
                    asks(quoted, VolumeStage::Admit, VolumeAction::AdmitOpen)
                } else {
                    builds(quoted, false)
                },
            }
        },
        (VolumeStage::Plan, VolumeInput::Failed(error)) => fails(
            owner,
            VolumeMakerPaperTaskFailure::InvalidRequest,
            error,
        ),
        (VolumeStage::Admit, VolumeInput::Admitted(true)) => builds(owner, true),
        // A durable rejection consumes the standing quote and skips the cycle.
        (VolumeStage::Admit, VolumeInput::Admitted(false)) => checkpoints(
            VolumeOwner {
                bucket: one_more_rejected(owner.bucket),
                quote: None,
                planned: None,
                ..owner
            },
        ),
        (VolumeStage::Admit, VolumeInput::Failed(error)) => fails_with(owner, error),
        (VolumeStage::Discard { overflow, error }, VolumeInput::Done) => fails(
            if overflow {
                owner
            } else {
                published(owner)
            },
            VolumeMakerPaperTaskFailure::InvalidRequest,
            error,
        ),
        (VolumeStage::Discard { .. }, VolumeInput::Failed(error)) => fails_with(owner, error),
        (VolumeStage::Build, VolumeInput::Done) => asks(
            owner,
            VolumeStage::Run,
            VolumeAction::RunOperation,
        ),
        (VolumeStage::Build, VolumeInput::Failed(error)) => if owner.admitted {
            asks(
                owner,
                VolumeStage::Discard { overflow: false, error },
                VolumeAction::DiscardAdmission,
            )
        } else {
            fails(published(owner), VolumeMakerPaperTaskFailure::InvalidRequest, error)
        },
        _ => needs_recovery(owner),
    }
}

/// When the next cycle may open: the configured time after the observation that
/// completed this one, or never where the clock does not reach that far.
pub open spec fn next_cycle(limits: CycleLimits, observed_at: Timestamp) -> Timestamp {
    match advanced(
        observed_at,
        limits.interval_seconds * NANOS_PER_SECOND + limits.interval_nanos,
    ) {
        Some(at) => at,
        None => last_instant(),
    }
}

/// A completed cycle is recorded: at a bound the owner stops after it.
pub open spec fn ends_cycle(owner: VolumeOwner) -> VolumeStep {
    if at_bound(owner.limits, owner.next.completed_cycle_count, owner.total_volume@) {
        asks(
            owner,
            VolumeStage::BoundsCheckpoint,
            VolumeAction::AppendCheckpoint { counts: owner.next },
        )
    } else {
        checkpoints(owner)
    }
}

/// The cycle that the owner is in.
pub open spec fn cycle_of(owner: VolumeOwner, bucket: StatisticsBucket) -> CycleState {
    CycleState {
        position: owner.position,
        quote: owner.quote,
        bucket,
        total_volume: owner.total_volume,
    }
}

/// The saga ended: its run is applied to the cycle.
pub open spec fn ran(owner: VolumeOwner, run: PaperSingleLegRun, stop_requested: bool) -> VolumeStep {
    let counted = VolumeOwner {
        next: VolumeCounts { operation_count: owner.sequence, ..owner.next },
        stop_after: stop_requested,
        ..owner
    };
    match (owner.planned, owner.bucket) {
        (Some(planned), Some(bucket)) => match consumed(cycle_of(owner, bucket), planned, run) {
            Err(error) => fails(
                shown(counted),
                VolumeMakerPaperTaskFailure::InvalidRequest,
                error,
            ),
            Ok((cycle, completed)) => {
                let moved = VolumeOwner {
                    position: cycle.position,
                    quote: cycle.quote,
                    bucket: Some(cycle.bucket),
                    total_volume: cycle.total_volume,
                    ..counted
                };
                if !completed {
                    checkpoints(moved)
                } else if owner.next.completed_cycle_count == u64::MAX {
                    ends(moved, Err(VolumeMakerPaperTaskError::InvalidRequest))
                } else {
                    let done = VolumeOwner {
                        next: VolumeCounts {
                            completed_cycle_count: (owner.next.completed_cycle_count + 1) as u64,
                            ..counted.next
                        },
                        next_cycle_at: Some(next_cycle(owner.limits, owner.observed_at)),
                        ..moved
                    };
                    if owner.risk {
                        asks(
                            done,
                            VolumeStage::RecordClosed,
                            VolumeAction::RecordPositionClosed,
                        )
                    } else {
                        ends_cycle(done)
                    }
                }
            },
        },
        _ => needs_recovery(owner),
    }
}

/// The operation, from its run to the record of the event.
pub open spec fn run_step(owner: VolumeOwner, input: VolumeInput) -> VolumeStep {
    match (owner.stage, input) {
        (VolumeStage::Run, VolumeInput::Ran { run, stop_requested }) => ran(
            owner,
            run,
            stop_requested,
        ),
        (VolumeStage::Run, VolumeInput::RunFailed(failure)) => asks(
            owner,
            VolumeStage::Retain { reason: VolumeRetain::Failed(failure) },
            VolumeAction::Retain,
        ),
        (VolumeStage::Run, VolumeInput::RunCancelled) => asks(
            owner,
            VolumeStage::Retain { reason: VolumeRetain::Cancelled },
            VolumeAction::Retain,
        ),
        (VolumeStage::Retain { .. }, VolumeInput::Retained(true)) => needs_recovery(
            published(owner),
        ),
        (VolumeStage::Retain { reason }, VolumeInput::Retained(false)) => match reason {
            VolumeRetain::Failed(failure) => fails(
                published(owner),
                volume_saga_bucket(failure),
                VolumeMakerPaperTaskError::Saga(failure),
            ),
            VolumeRetain::Cancelled => stops(
                published(owner),
                VolumeMakerPaperTaskExit::StopRequested,
            ),
        },
        (VolumeStage::Retain { .. }, VolumeInput::Failed(error)) => fails_with(owner, error),
        (VolumeStage::RecordClosed, VolumeInput::Done) => ends_cycle(owner),
        (VolumeStage::RecordClosed, VolumeInput::Failed(error)) => fails(
            shown(owner),
            VolumeMakerPaperTaskFailure::AccountContract,
            error,
        ),
        (VolumeStage::BoundsCheckpoint, VolumeInput::Done) => stops(
            shown(owner),
            VolumeMakerPaperTaskExit::BoundsReached,
        ),
        (VolumeStage::BoundsCheckpoint, VolumeInput::Failed(error)) => ends(owner, Err(error)),
        (VolumeStage::Checkpoint, VolumeInput::Done) => if owner.stop_after {
            stops(shown(owner), VolumeMakerPaperTaskExit::StopRequested)
        } else {
            asks(shown(owner), VolumeStage::Waiting, VolumeAction::Wait)
        },
        (VolumeStage::Checkpoint, VolumeInput::Failed(error)) => ends(owner, Err(error)),
        (VolumeStage::GapCheckpoint, VolumeInput::Done) => asks(
            shown(owner),
            VolumeStage::Waiting,
            VolumeAction::Wait,
        ),
        (VolumeStage::GapCheckpoint, VolumeInput::Failed(error)) => fails(
            owner,
            VolumeMakerPaperTaskFailure::JournalUnavailable,
            error,
        ),
        _ => needs_recovery(owner),
    }
}

/// The owner's way out.
pub open spec fn closing_step(owner: VolumeOwner, input: VolumeInput) -> VolumeStep {
    match (owner.stage, input) {
        (VolumeStage::StopStatistics { exit }, VolumeInput::Done) => records_stopping(owner, exit),
        (VolumeStage::StopStatistics { .. }, VolumeInput::Failed(error)) => ends(owner, Err(error)),
        (VolumeStage::StoppingAppend { exit }, VolumeInput::Done) => asks(
            VolumeOwner { phase: VolumeMakerPaperTaskPhase::Stopping, ..owner },
            VolumeStage::SourceStop { exit },
            VolumeAction::StopSource,
        ),
        (VolumeStage::StoppingAppend { .. }, VolumeInput::Failed(_)) => ends(
            owner,
            Err(VolumeMakerPaperTaskError::Journal),
        ),
        (VolumeStage::SourceStop { exit }, VolumeInput::SourceStopped { timed_out }) => {
            let ended = if timed_out {
                VolumeMakerPaperTaskExit::ShutdownTimedOut
            } else {
                exit
            };
            asks(
                owner,
                VolumeStage::StoppedAppend { exit: ended },
                VolumeAction::AppendStatus {
                    phase: VolumeMakerPaperTaskPhase::Stopped,
                    counts: owner.status,
                    exit: Some(ended),
                    failure: None,
                },
            )
        },
        (VolumeStage::SourceStop { .. }, VolumeInput::Failed(_)) => ends(
            owner,
            Err(VolumeMakerPaperTaskError::Source),
        ),
        (VolumeStage::StoppedAppend { exit }, VolumeInput::Done) => ends(
            VolumeOwner { phase: VolumeMakerPaperTaskPhase::Stopped, ..owner },
            Ok(exit),
        ),
        (VolumeStage::StoppedAppend { .. }, VolumeInput::Failed(_)) => ends(
            owner,
            Err(VolumeMakerPaperTaskError::Journal),
        ),
        (VolumeStage::FailingStop { failure, error }, _) => asks(
            owner,
            VolumeStage::FailedAppend { error },
            VolumeAction::AppendStatus {
                phase: VolumeMakerPaperTaskPhase::Failed,
                counts: owner.status,
                exit: None,
                failure: Some(failure),
            },
        ),
        (VolumeStage::FailedAppend { error }, VolumeInput::Done) => ends(
            VolumeOwner { phase: VolumeMakerPaperTaskPhase::Failed, ..owner },
            Err(error),
        ),
        (VolumeStage::FailedAppend { .. }, _) => ends(
            owner,
            Err(VolumeMakerPaperTaskError::Journal),
        ),
        (VolumeStage::Finished, _) => ends(owner, Err(VolumeMakerPaperTaskError::TaskCancelled)),
        _ => needs_recovery(owner),
    }
}

/// One step of the owner. An input that the stage does not wait for fails
/// closed.
pub open spec fn owner_step(owner: VolumeOwner, input: VolumeInput) -> VolumeStep {
    match owner.stage {
        VolumeStage::Waiting => woken(owner, input),
        VolumeStage::Rollover
        | VolumeStage::RiskExit
        | VolumeStage::Plan
        | VolumeStage::Admit
        | VolumeStage::Discard { .. }
        | VolumeStage::Build => plan_step(owner, input),
        VolumeStage::Run
        | VolumeStage::Retain { .. }
        | VolumeStage::RecordClosed
        | VolumeStage::BoundsCheckpoint
        | VolumeStage::Checkpoint
        | VolumeStage::GapCheckpoint => run_step(owner, input),
        _ => closing_step(owner, input),
    }
}

fn ask(owner: VolumeOwner, stage: VolumeStage, action: VolumeAction) -> (r: VolumeStep)
    ensures
        r == asks(owner, stage, action),
{
    let mut next: VolumeOwner = owner;
    next.stage = stage;
    (next, action)
}

fn end(
    owner: VolumeOwner,
    result: Result<VolumeMakerPaperTaskExit, VolumeMakerPaperTaskError>,
) -> (r: VolumeStep)
    ensures
        r == ends(owner, result),
{
    ask(owner, VolumeStage::Finished, VolumeAction::Finish(result))
}

fn record_stopping(owner: VolumeOwner, exit: VolumeMakerPaperTaskExit) -> (r: VolumeStep)
    ensures
        r == records_stopping(owner, exit),
{
    let counts: VolumeCounts = owner.status;
    ask(
        owner,
        VolumeStage::StoppingAppend { exit },
        VolumeAction::AppendStatus {
            phase: VolumeMakerPaperTaskPhase::Stopping,
            counts,
            exit: None,
            failure: None,
        },
    )
}

fn has_hour_volume(bucket: &StatisticsBucket) -> (r: bool)
    ensures
        r == hour_volume(*bucket) is Some,
{
    bucket.buy_volume.checked_add(bucket.sell_volume).is_some()
}

fn stop_owner(owner: VolumeOwner, exit: VolumeMakerPaperTaskExit) -> (r: VolumeStep)
    ensures
        r == stops(owner, exit),
{
    let bucket: Option<StatisticsBucket> = owner.bucket;
    let mut taken: VolumeOwner = owner;
    taken.bucket = None;
    match bucket {
        Some(bucket) => {
            if bucket.is_empty() {
                record_stopping(taken, exit)
            } else if !has_hour_volume(&bucket) {
                end(taken, Err(VolumeMakerPaperTaskError::InvalidRequest))
            } else {
                ask(
                    taken,
                    VolumeStage::StopStatistics { exit },
                    VolumeAction::AppendStatistics { bucket, reason: StatisticsReason::Stop },
                )
            }
        },
        None => record_stopping(taken, exit),
    }
}

fn fail_owner(
    owner: VolumeOwner,
    failure: VolumeMakerPaperTaskFailure,
    error: VolumeMakerPaperTaskError,
) -> (r: VolumeStep)
    ensures
        r == fails(owner, failure, error),
{
    ask(owner, VolumeStage::FailingStop { failure, error }, VolumeAction::StopSource)
}

fn fail_closed(owner: VolumeOwner) -> (r: VolumeStep)
    ensures
        r == needs_recovery(owner),
{
    fail_owner(
        owner,
        VolumeMakerPaperTaskFailure::RecoveryRequired,
        VolumeMakerPaperTaskError::RecoveryRequired,
    )
}

fn fail_with(owner: VolumeOwner, error: VolumeMakerPaperTaskError) -> (r: VolumeStep)
    ensures
        r == fails_with(owner, error),
{
    fail_owner(owner, error.failure_bucket(), error)
}

fn show(owner: VolumeOwner) -> (r: VolumeOwner)
    ensures
        r == shown(owner),
{
    let mut next: VolumeOwner = owner;
    next.status = next.next;
    next
}

fn publish(owner: VolumeOwner) -> (r: VolumeOwner)
    ensures
        r == published(owner),
{
    let mut next: VolumeOwner = owner;
    next.next.operation_count = next.sequence;
    next.status = next.next;
    next
}

fn checkpoint(owner: VolumeOwner) -> (r: VolumeStep)
    ensures
        r == checkpoints(owner),
{
    let counts: VolumeCounts = owner.next;
    ask(owner, VolumeStage::Checkpoint, VolumeAction::AppendCheckpoint { counts })
}

fn open_hour(owner: VolumeOwner) -> (r: VolumeStep)
    ensures
        r == opens_hour(owner),
{
    let mut open: VolumeOwner = owner;
    if open.bucket.is_none() {
        open.bucket = Some(StatisticsBucket::new(open.observed_at.hour_bucket()));
    }
    if open.risk {
        ask(open, VolumeStage::RiskExit, VolumeAction::ReadRiskExit)
    } else {
        ask(open, VolumeStage::Plan, VolumeAction::Plan)
    }
}

fn take_event(owner: VolumeOwner, observed: ObservedEvent) -> (r: VolumeStep)
    ensures
        r == event_taken(owner, observed),
{
    if owner.status.processed_event_count == u64::MAX {
        return end(owner, Err(VolumeMakerPaperTaskError::InvalidRequest));
    }
    let mut counted: VolumeOwner = owner;
    counted.next = counted.status;
    counted.next.processed_event_count = counted.status.processed_event_count + 1;
    counted.planned = None;
    counted.admitted = false;
    counted.stop_after = false;
    match observed {
        ObservedEvent::Foreign => fail_owner(
            counted,
            VolumeMakerPaperTaskFailure::InvalidRequest,
            VolumeMakerPaperTaskError::InvalidSourceBinding,
        ),
        ObservedEvent::Gap => {
            let counts: VolumeCounts = counted.next;
            ask(counted, VolumeStage::GapCheckpoint, VolumeAction::AppendCheckpoint { counts })
        },
        ObservedEvent::Observation { at } => {
            counted.observed_at = at;
            let hour: Timestamp = at.hour_bucket();
            if let Some(bucket) = counted.bucket {
                if bucket.hour_start.is_before(hour) {
                    if !has_hour_volume(&bucket) {
                        return fail_owner(
                            counted,
                            VolumeMakerPaperTaskFailure::JournalUnavailable,
                            VolumeMakerPaperTaskError::InvalidRequest,
                        );
                    }
                    return ask(
                        counted,
                        VolumeStage::Rollover,
                        VolumeAction::AppendStatistics {
                            bucket,
                            reason: StatisticsReason::HourRollover,
                        },
                    );
                }
            }
            open_hour(counted)
        },
    }
}

fn wake(owner: VolumeOwner, input: VolumeInput) -> (r: VolumeStep)
    ensures
        r == woken(owner, input),
{
    match input {
        VolumeInput::Signal => stop_owner(owner, VolumeMakerPaperTaskExit::StopRequested),
        VolumeInput::SourceEnded => stop_owner(owner, VolumeMakerPaperTaskExit::SourceEnded),
        VolumeInput::SourceFailed => fail_owner(
            owner,
            VolumeMakerPaperTaskFailure::SourceContract,
            VolumeMakerPaperTaskError::Source,
        ),
        VolumeInput::Event { observed, signalled } => {
            if signalled {
                stop_owner(owner, VolumeMakerPaperTaskExit::StopRequested)
            } else {
                take_event(owner, observed)
            }
        },
        _ => fail_closed(owner),
    }
}

fn build(owner: VolumeOwner, admitted: bool) -> (r: VolumeStep)
    ensures
        r == builds(owner, admitted),
{
    let mut marked: VolumeOwner = owner;
    marked.admitted = admitted;
    if marked.sequence == u64::MAX {
        if admitted {
            return ask(
                marked,
                VolumeStage::Discard {
                    overflow: true,
                    error: VolumeMakerPaperTaskError::InvalidRequest,
                },
                VolumeAction::DiscardAdmission,
            );
        }
        return fail_owner(
            marked,
            VolumeMakerPaperTaskFailure::InvalidRequest,
            VolumeMakerPaperTaskError::InvalidRequest,
        );
    }
    let sequence: u64 = marked.sequence + 1;
    marked.sequence = sequence;
    ask(marked, VolumeStage::Build, VolumeAction::BuildRequest { sequence, admitted })
}

fn count_rejected(bucket: Option<StatisticsBucket>) -> (r: Option<StatisticsBucket>)
    ensures
        r == one_more_rejected(bucket),
{
    match bucket {
        Some(open) => {
            let mut counted: StatisticsBucket = open;
            counted.rejected_entries = counted.rejected_entries.saturating_add(1);
            Some(counted)
        },
        None => None,
    }
}

fn run_plan(owner: VolumeOwner, input: VolumeInput) -> (r: VolumeStep)
    ensures
        r == plan_step(owner, input),
{
    match (owner.stage, input) {
        (VolumeStage::Rollover, VolumeInput::Done) => {
            let mut flushed: VolumeOwner = owner;
            flushed.bucket = None;
            open_hour(flushed)
        },
        (VolumeStage::Rollover, VolumeInput::Failed(error)) => fail_owner(
            owner,
            VolumeMakerPaperTaskFailure::JournalUnavailable,
            error,
        ),
        (VolumeStage::RiskExit, VolumeInput::Risk(stop)) => {
            if stop {
                stop_owner(owner, VolumeMakerPaperTaskExit::StopRequested)
            } else {
                ask(owner, VolumeStage::Plan, VolumeAction::Plan)
            }
        },
        (VolumeStage::RiskExit, VolumeInput::Failed(error)) => fail_with(owner, error),
        (VolumeStage::Plan, VolumeInput::Planned { operation, quote }) => {
            let open: Option<bool> = match &operation {
                None => None,
                Some(planned) => Some(planned.kind == PlannedKind::Open),
            };
            let mut quoted: VolumeOwner = owner;
            quoted.quote = quote;
            quoted.planned = operation;
            match open {
                None => checkpoint(quoted),
                Some(open) => {
                    if open && quoted.risk {
                        ask(quoted, VolumeStage::Admit, VolumeAction::AdmitOpen)
                    } else {
                        build(quoted, false)
                    }
                },
            }
        },
        (VolumeStage::Plan, VolumeInput::Failed(error)) => fail_owner(
            owner,
            VolumeMakerPaperTaskFailure::InvalidRequest,
            error,
        ),
        (VolumeStage::Admit, VolumeInput::Admitted(admitted)) => {
            if admitted {
                return build(owner, true);
            }
            let mut skipped: VolumeOwner = owner;
            skipped.bucket = count_rejected(skipped.bucket);
            skipped.quote = None;
            skipped.planned = None;
            checkpoint(skipped)
        },
        (VolumeStage::Admit, VolumeInput::Failed(error)) => fail_with(owner, error),
        (VolumeStage::Discard { overflow, error }, VolumeInput::Done) => {
            let left: VolumeOwner = if overflow {
                owner
            } else {
                publish(owner)
            };
            fail_owner(left, VolumeMakerPaperTaskFailure::InvalidRequest, error)
        },
        (VolumeStage::Discard { .. }, VolumeInput::Failed(error)) => fail_with(owner, error),
        (VolumeStage::Build, VolumeInput::Done) => ask(
            owner,
            VolumeStage::Run,
            VolumeAction::RunOperation,
        ),
        (VolumeStage::Build, VolumeInput::Failed(error)) => {
            if owner.admitted {
                ask(
                    owner,
                    VolumeStage::Discard { overflow: false, error },
                    VolumeAction::DiscardAdmission,
                )
            } else {
                fail_owner(publish(owner), VolumeMakerPaperTaskFailure::InvalidRequest, error)
            }
        },
        _ => fail_closed(owner),
    }
}

fn time_of_next_cycle(limits: CycleLimits, observed_at: Timestamp) -> (r: Timestamp)
    ensures
        r == next_cycle(limits, observed_at),
{
    match observed_at.checked_advance(limits.interval_seconds, limits.interval_nanos) {
        Some(at) => at,
        None => Timestamp::end_of_time(),
    }
}

fn end_cycle(owner: VolumeOwner) -> (r: VolumeStep)
    ensures
        r == ends_cycle(owner),
{
    if bounds_reached(owner.limits, owner.next.completed_cycle_count, owner.total_volume) {
        let counts: VolumeCounts = owner.next;
        ask(owner, VolumeStage::BoundsCheckpoint, VolumeAction::AppendCheckpoint { counts })
    } else {
        checkpoint(owner)
    }
}

fn apply_run(owner: VolumeOwner, run: PaperSingleLegRun, stop_requested: bool) -> (r: VolumeStep)
    ensures
        r == ran(owner, run, stop_requested),
{
    let applied: Result<(CycleState, bool), VolumeMakerPaperTaskError> = match (
        &owner.planned,
        owner.bucket,
    ) {
        (Some(planned), Some(bucket)) => {
            let cycle: CycleState = CycleState {
                position: owner.position,
                quote: owner.quote,
                bucket,
                total_volume: owner.total_volume,
            };
            consume_run(cycle, planned, &run)
        },
        _ => return fail_closed(owner),
    };
    let mut moved: VolumeOwner = owner;
    moved.next.operation_count = moved.sequence;
    moved.stop_after = stop_requested;
    match applied {
        Err(error) => fail_owner(show(moved), VolumeMakerPaperTaskFailure::InvalidRequest, error),
        Ok((cycle, completed)) => {
            moved.position = cycle.position;
            moved.quote = cycle.quote;
            moved.bucket = Some(cycle.bucket);
            moved.total_volume = cycle.total_volume;
            if !completed {
                return checkpoint(moved);
            }
            if moved.next.completed_cycle_count == u64::MAX {
                return end(moved, Err(VolumeMakerPaperTaskError::InvalidRequest));
            }
            moved.next.completed_cycle_count = moved.next.completed_cycle_count + 1;
            moved.next_cycle_at = Some(time_of_next_cycle(moved.limits, moved.observed_at));
            if moved.risk {
                ask(moved, VolumeStage::RecordClosed, VolumeAction::RecordPositionClosed)
            } else {
                end_cycle(moved)
            }
        },
    }
}

fn run_operation(owner: VolumeOwner, input: VolumeInput) -> (r: VolumeStep)
    ensures
        r == run_step(owner, input),
{
    match (owner.stage, input) {
        (VolumeStage::Run, VolumeInput::Ran { run, stop_requested }) => apply_run(
            owner,
            run,
            stop_requested,
        ),
        (VolumeStage::Run, VolumeInput::RunFailed(failure)) => ask(
            owner,
            VolumeStage::Retain { reason: VolumeRetain::Failed(failure) },
            VolumeAction::Retain,
        ),
        (VolumeStage::Run, VolumeInput::RunCancelled) => ask(
            owner,
            VolumeStage::Retain { reason: VolumeRetain::Cancelled },
            VolumeAction::Retain,
        ),
        (VolumeStage::Retain { reason }, VolumeInput::Retained(retained)) => {
            if retained {
                return fail_closed(publish(owner));
            }
            match reason {
                VolumeRetain::Failed(failure) => fail_owner(
                    publish(owner),
                    classify_saga_error(failure),
                    VolumeMakerPaperTaskError::Saga(failure),
                ),
                VolumeRetain::Cancelled => stop_owner(
                    publish(owner),
                    VolumeMakerPaperTaskExit::StopRequested,
                ),
            }
        },
        (VolumeStage::Retain { .. }, VolumeInput::Failed(error)) => fail_with(owner, error),
        (VolumeStage::RecordClosed, VolumeInput::Done) => end_cycle(owner),
        (VolumeStage::RecordClosed, VolumeInput::Failed(error)) => fail_owner(
            show(owner),
            VolumeMakerPaperTaskFailure::AccountContract,
            error,
        ),
        (VolumeStage::BoundsCheckpoint, VolumeInput::Done) => stop_owner(
            show(owner),
            VolumeMakerPaperTaskExit::BoundsReached,
        ),
        (VolumeStage::BoundsCheckpoint, VolumeInput::Failed(error)) => end(owner, Err(error)),
        (VolumeStage::Checkpoint, VolumeInput::Done) => {
            if owner.stop_after {
                stop_owner(show(owner), VolumeMakerPaperTaskExit::StopRequested)
            } else {
                ask(show(owner), VolumeStage::Waiting, VolumeAction::Wait)
            }
        },
        (VolumeStage::Checkpoint, VolumeInput::Failed(error)) => end(owner, Err(error)),
        (VolumeStage::GapCheckpoint, VolumeInput::Done) => ask(
            show(owner),
            VolumeStage::Waiting,
            VolumeAction::Wait,
        ),
        (VolumeStage::GapCheckpoint, VolumeInput::Failed(error)) => fail_owner(
            owner,
            VolumeMakerPaperTaskFailure::JournalUnavailable,
            error,
        ),
        _ => fail_closed(owner),
    }
}

fn close_down(owner: VolumeOwner, input: VolumeInput) -> (r: VolumeStep)
    ensures
        r == closing_step(owner, input),
{
    let counts: VolumeCounts = owner.status;
    match (owner.stage, input) {
        (VolumeStage::StopStatistics { exit }, VolumeInput::Done) => record_stopping(owner, exit),
        (VolumeStage::StopStatistics { .. }, VolumeInput::Failed(error)) => end(owner, Err(error)),
        (VolumeStage::StoppingAppend { exit }, VolumeInput::Done) => {
            let mut stopping: VolumeOwner = owner;
            stopping.phase = VolumeMakerPaperTaskPhase::Stopping;
            ask(stopping, VolumeStage::SourceStop { exit }, VolumeAction::StopSource)
        },
        (VolumeStage::StoppingAppend { .. }, VolumeInput::Failed(_)) => end(
            owner,
            Err(VolumeMakerPaperTaskError::Journal),
        ),
        (VolumeStage::SourceStop { exit }, VolumeInput::SourceStopped { timed_out }) => {
            let ended: VolumeMakerPaperTaskExit = if timed_out {
                VolumeMakerPaperTaskExit::ShutdownTimedOut
            } else {
                exit
            };
            ask(
                owner,
                VolumeStage::StoppedAppend { exit: ended },
                VolumeAction::AppendStatus {
                    phase: VolumeMakerPaperTaskPhase::Stopped,
                    counts,
                    exit: Some(ended),
                    failure: None,
                },
            )
        },
        (VolumeStage::SourceStop { .. }, VolumeInput::Failed(_)) => end(
            owner,
            Err(VolumeMakerPaperTaskError::Source),
        ),
        (VolumeStage::StoppedAppend { exit }, VolumeInput::Done) => {
            let mut stopped: VolumeOwner = owner;
            stopped.phase = VolumeMakerPaperTaskPhase::Stopped;
            end(stopped, Ok(exit))
        },
        (VolumeStage::StoppedAppend { .. }, VolumeInput::Failed(_)) => end(
            owner,
            Err(VolumeMakerPaperTaskError::Journal),
        ),
        (VolumeStage::FailingStop { failure, error }, _) => ask(
            owner,
            VolumeStage::FailedAppend { error },
            VolumeAction::AppendStatus {
                phase: VolumeMakerPaperTaskPhase::Failed,
                counts,
                exit: None,
                failure: Some(failure),
            },
        ),
        (VolumeStage::FailedAppend { error }, VolumeInput::Done) => {
            let mut failed: VolumeOwner = owner;
            failed.phase = VolumeMakerPaperTaskPhase::Failed;
            end(failed, Err(error))
        },
        (VolumeStage::FailedAppend { .. }, _) => end(
            owner,
            Err(VolumeMakerPaperTaskError::Journal),
        ),
        (VolumeStage::Finished, _) => end(owner, Err(VolumeMakerPaperTaskError::TaskCancelled)),
        _ => fail_closed(owner),
    }
}

impl VolumeOwner {
    /// The owner of a volume maker that continues from an operation number and
    /// waits for its first event.
    pub fn start(risk: bool, limits: CycleLimits, sequence: u64) -> (r: VolumeOwner)
        ensures
            r.risk == risk,
            r.limits == limits,
            r.sequence == sequence,
            r.stage == VolumeStage::Waiting,
            r.phase == VolumeMakerPaperTaskPhase::Running,
            r.status == (VolumeCounts {
                processed_event_count: 0,
                operation_count: sequence,
                completed_cycle_count: 0,
            }),
            r.next == r.status,
            r.quote is None,
            r.position is None,
            r.bucket is None,
            r.total_volume == decimal_of((0i128, 0u32)),
            r.next_cycle_at is None,
            r.planned is None,
            !r.admitted,
            !r.stop_after,
    {
        let counts: VolumeCounts = VolumeCounts {
            processed_event_count: 0,
            operation_count: sequence,
            completed_cycle_count: 0,
        };
        VolumeOwner {
            risk,
            limits,
            stage: VolumeStage::Waiting,
            phase: VolumeMakerPaperTaskPhase::Running,
            status: counts,
            next: counts,
            sequence,
            observed_at: Timestamp { seconds: 0, subsec: 0 },
            quote: None,
            position: None,
            bucket: None,
            total_volume: Decimal::zero(),
            next_cycle_at: None,
            planned: None,
            admitted: false,
            stop_after: false,
        }
    }

    /// Takes what came of the last action and says what to do next.
    pub fn step(self, input: VolumeInput) -> (r: VolumeStep)
        ensures
            r == owner_step(self, input),
    {
        match self.stage {
            VolumeStage::Waiting => wake(self, input),
            VolumeStage::Rollover
            | VolumeStage::RiskExit
            | VolumeStage::Plan
            | VolumeStage::Admit
            | VolumeStage::Discard { .. }
            | VolumeStage::Build => run_plan(self, input),
            VolumeStage::Run
            | VolumeStage::Retain { .. }
            | VolumeStage::RecordClosed
            | VolumeStage::BoundsCheckpoint
            | VolumeStage::Checkpoint
            | VolumeStage::GapCheckpoint => run_operation(self, input),
            _ => close_down(self, input),
        }
    }
}

} // verus!
