//! The loop of a grid owner, step by step.
//!
//! The owner waits for its signals, its risk poll and its source; one event is
//! carried through account risk, grid protection and the crossed levels before
//! the next one is taken. It asks for one action at a time and is told what
//! came of it.

use crate::decimal::{same_number, Decimal};
use crate::domain::Side;
use crate::operations::prefix_of;
use crate::paper_account::{any_open_outcome, has_open_outcome, PaperAccountSnapshot};
use crate::paper_grid_task::{
    account_close_plan, classify_saga_error, foreign_lot_of, grid_bucket, saga_bucket,
    target_instrument_close_plan, target_instrument_has_foreign_lots, GridPaperTaskConfig,
    GridPaperTaskError, GridPaperTaskExit, GridPaperTaskFailure, GridPaperTaskPhase, SagaFailure,
};
use crate::text::same_text;
use vstd::prelude::*;

verus! {

/// The part of the owner's status that its records show.
#[derive(Clone, Copy, Debug, PartialEq, Eq, Structural)]
pub struct GridCounts {
    pub processed_event_count: u64,
    pub operation_count: u64,
}

/// Deduplication signature so steady-state directives journal once per change.
#[derive(Debug)]
pub enum ProtectionSignature {
    Freeze { reason: String },
    Scalp { side: Side, quantity: Decimal, price: Decimal },
}

/// The directives ask for the same.
pub open spec fn same_signature(a: ProtectionSignature, b: ProtectionSignature) -> bool {
    match (a, b) {
        (
            ProtectionSignature::Freeze { reason: x },
            ProtectionSignature::Freeze { reason: y },
        ) => x@ == y@,
        (
            ProtectionSignature::Scalp { side: s, quantity: q, price: p },
            ProtectionSignature::Scalp { side: t, quantity: u, price: v },
        ) => s == t && same_number(q@, u@) && same_number(p@, v@),
        _ => false,
    }
}

impl ProtectionSignature {
    pub fn equals(&self, other: &ProtectionSignature) -> (r: bool)
        ensures
            r == same_signature(*self, *other),
    {
        match (self, other) {
            (
                ProtectionSignature::Freeze { reason: x },
                ProtectionSignature::Freeze { reason: y },
            ) => same_text(x, y),
            (
                ProtectionSignature::Scalp { side: s, quantity: q, price: p },
                ProtectionSignature::Scalp { side: t, quantity: u, price: v },
            ) => *s == *t && q.equals(*u) && p.equals(*v),
            _ => false,
        }
    }
}

/// What the grid protection asks for.
#[derive(Debug)]
pub enum GridDirective {
    Continue,
    /// Freeze entries or scalp, told apart by their signature.
    Hold(ProtectionSignature),
    ResetGrid,
    ExitAll,
}

/// Why the owner closes its whole position.
#[derive(Clone, Copy, Debug, PartialEq, Eq, Structural)]
pub enum ForcedClose {
    /// Account risk demanded it on an event.
    RiskOnEvent,
    /// Account risk demanded it between events.
    RiskOnPoll,
    /// The grid is reset at a new price.
    Reset,
    /// The grid protection ends the owner.
    Exit,
}

pub open spec fn close_trigger_text(purpose: ForcedClose) -> Seq<char> {
    match purpose {
        ForcedClose::RiskOnEvent => "risk-close"@,
        ForcedClose::RiskOnPoll => "risk-close"@,
        ForcedClose::Reset => "protection-close"@,
        ForcedClose::Exit => "protection-close"@,
    }
}

impl ForcedClose {
    /// What the close is recorded and numbered under.
    pub fn trigger(self) -> (r: &'static str)
        ensures
            r@ == close_trigger_text(self),
    {
        match self {
            ForcedClose::RiskOnEvent | ForcedClose::RiskOnPoll => "risk-close",
            ForcedClose::Reset | ForcedClose::Exit => "protection-close",
        }
    }
}

/// What account risk asks for.
#[derive(Clone, Copy, Debug, PartialEq, Eq, Structural)]
pub enum RiskExit {
    Continue,
    Stop,
    Close,
}

/// What an operation came to.
#[derive(Clone, Copy, Debug, PartialEq, Eq, Structural)]
pub enum OperationOutcome {
    Completed { stop_requested: bool },
    Failed(SagaFailure),
    Cancelled,
    RiskInterrupted,
    RiskUnavailable,
    TimedOut,
}

/// Why the capacity of an operation is retained.
#[derive(Clone, Copy, Debug, PartialEq, Eq, Structural)]
pub enum RetainReason {
    Failed(SagaFailure),
    Cancelled,
    RiskInterrupted,
    Unavailable,
}

/// What the owner waits for.
#[derive(Clone, Copy, Debug, PartialEq, Eq, Structural)]
pub enum GridStage {
    /// A signal, the risk poll or the source.
    Waiting,
    /// The observation, applied to the execution adapter.
    Market,
    /// The account-risk directives, read and recorded.
    RiskExit { polled: bool },
    /// The position, for a close that protection demands.
    ClosePlan { purpose: ForcedClose },
    /// The forced close, built, recorded and executed.
    CloseBuild { purpose: ForcedClose },
    CloseAppend { purpose: ForcedClose },
    CloseRun { purpose: ForcedClose },
    /// What is left of the position after it.
    CloseVerify { purpose: ForcedClose },
    CloseRecord { purpose: ForcedClose },
    CloseRetain { purpose: ForcedClose },
    /// The directive of the grid protection.
    Protection,
    HoldAppend { scalp: bool },
    ResetAppend,
    ExitAppend,
    Rebuild,
    ScalpBuild,
    ScalpRun,
    ScalpRetain { interrupted: bool },
    /// The levels that the observation crossed.
    Crossings,
    CrossCheck,
    CrossAdmit,
    CrossDiscard { overflow: bool, error: GridPaperTaskError },
    CrossBuild { reduce_only: bool, admitted: bool },
    CrossRun { admitted: bool },
    CrossRetain { reason: RetainReason },
    /// A pending risk directive, recorded before the owner fails.
    PendingRisk,
    FlatCheck,
    FlatRecord,
    Checkpoint,
    /// The position, where the source ended.
    EndCheck,
    StoppingAppend { exit: GridPaperTaskExit },
    SourceStop { exit: GridPaperTaskExit },
    StoppedAppend { exit: GridPaperTaskExit },
    FailingStop { failure: GridPaperTaskFailure, error: GridPaperTaskError },
    FailedAppend { error: GridPaperTaskError },
    Finished,
}

/// The state of the owner between two actions.
#[derive(Debug)]
pub struct GridOwner {
    /// An account-risk authority is attached.
    pub risk: bool,
    /// A grid-protection machine is attached.
    pub protected: bool,
    pub stage: GridStage,
    pub phase: GridPaperTaskPhase,
    /// The counts that the status shows.
    pub status: GridCounts,
    /// The counts that the current event leads to.
    pub next: GridCounts,
    /// The number of the last operation.
    pub sequence: u64,
    /// The current event is an observation.
    pub observed: bool,
    /// Some event was an observation.
    pub seen: bool,
    pub last_protection: Option<ProtectionSignature>,
    pub crossings: u64,
    pub taken: u64,
    pub completed: u64,
    pub stop_after: bool,
}

/// What the owner asks for.
#[derive(Debug)]
pub enum GridAction {
    Wait,
    ApplyMarket,
    ReadRiskExit { with_market: bool },
    ReadClosePlan,
    BuildForcedClose { purpose: ForcedClose, sequence: u64 },
    AppendForcedClose { purpose: ForcedClose, sequence: u64 },
    RunForcedClose,
    VerifyClose,
    RecordPositionClosed,
    Retain,
    ReadProtection,
    AppendProtection,
    BuildScalp { sequence: u64 },
    RunOperation,
    AppendPendingRisk,
    RebuildGrid,
    TakeCrossings,
    /// What stands in the way of the level at this place among the crossed ones.
    CheckCrossing { level: u64 },
    AdmitCrossing { level: u64 },
    DiscardAdmission,
    /// The operation of the level at this place, under this number.
    BuildCrossing { level: u64, sequence: u64, reduce_only: bool, admitted: bool },
    CheckFlat,
    AppendCheckpoint { counts: GridCounts },
    AppendStatus {
        phase: GridPaperTaskPhase,
        counts: GridCounts,
        exit: Option<GridPaperTaskExit>,
        failure: Option<GridPaperTaskFailure>,
    },
    StopSource,
    Finish(Result<GridPaperTaskExit, GridPaperTaskError>),
}

/// What the owner's position in its instrument was found to be.
#[derive(Clone, Copy, Debug, PartialEq, Eq, Structural)]
pub enum PositionFound {
    /// The account could not be read.
    Unread(GridPaperTaskError),
    /// The account's lots do not make a position.
    Unclear(GridPaperTaskError),
    Flat,
    Open,
}

/// What stands in the way of one crossed level.
#[derive(Clone, Copy, Debug, PartialEq, Eq, Structural)]
pub enum CrossingFound {
    /// A stop or cancel signal came in.
    Signalled,
    Unread(GridPaperTaskError),
    /// The instrument holds lots of others.
    Foreign,
    Unclear(GridPaperTaskError),
    Ready { reduce_only: bool },
}

/// What stands in the way of a crossed level, read from the account: foreign
/// lots in the instrument, or lots that make no position. An order against the
/// position reduces it.
pub open spec fn crossing_in(
    snapshot: PaperAccountSnapshot,
    config: GridPaperTaskConfig,
    symbol: Seq<char>,
    side: Side,
) -> CrossingFound {
    if has_open_outcome(snapshot.reservations@) {
        CrossingFound::Unread(GridPaperTaskError::RecoveryRequired)
    } else if foreign_lot_of(
        snapshot.open_lots@,
        snapshot.reservations@,
        config.exchange_view(),
        symbol,
        config.market_type_view(),
        prefix_of(config.task_id_view()),
    ) != Some(false) {
        CrossingFound::Foreign
    } else {
        match account_close_plan(snapshot, config, symbol) {
            Err(error) => CrossingFound::Unclear(error),
            Ok(None) => CrossingFound::Ready { reduce_only: false },
            Ok(Some(close)) => CrossingFound::Ready { reduce_only: close.0 == side },
        }
    }
}

/// What stands in the way of a crossed level.
pub fn check_crossing(
    snapshot: &PaperAccountSnapshot,
    config: &GridPaperTaskConfig,
    symbol: &str,
    side: Side,
) -> (r: CrossingFound)
    ensures
        r == crossing_in(*snapshot, *config, symbol@, side),
{
    if any_open_outcome(&snapshot.reservations) {
        return CrossingFound::Unread(GridPaperTaskError::RecoveryRequired);
    }
    match target_instrument_has_foreign_lots(snapshot, config, symbol) {
        Ok(false) => {},
        _ => return CrossingFound::Foreign,
    }
    match target_instrument_close_plan(snapshot, config, symbol) {
        Err(error) => CrossingFound::Unclear(error),
        Ok(None) => CrossingFound::Ready { reduce_only: false },
        Ok(Some(close)) => CrossingFound::Ready { reduce_only: close.0 == side },
    }
}

/// What came of the last action.
#[derive(Debug)]
pub enum GridInput {
    Signal,
    RiskPoll,
    /// An event of the source; `bound` says that an observation is one of the
    /// owner's instrument, `signalled` that a signal is pending.
    Event { observation: bool, bound: bool, signalled: bool },
    SourceEnded,
    SourceFailed,
    Done,
    Failed(GridPaperTaskError),
    Risk(RiskExit),
    Directive(GridDirective),
    Crossed(u64),
    Position(PositionFound),
    Crossing(CrossingFound),
    Admitted(bool),
    Outcome(OperationOutcome),
    /// Whether reserved capacity was found and kept.
    Retained(bool),
    /// Whether the source's shutdown timed out.
    SourceStopped { timed_out: bool },
}

/// The next state and what it asks for.
pub type GridStep = (GridOwner, GridAction);

/// The owner goes on in a stage and asks for its action.
pub open spec fn asks(owner: GridOwner, stage: GridStage, action: GridAction) -> GridStep {
    (GridOwner { stage, ..owner }, action)
}

/// The owner is over.
pub open spec fn ends(
    owner: GridOwner,
    result: Result<GridPaperTaskExit, GridPaperTaskError>,
) -> GridStep {
    asks(owner, GridStage::Finished, GridAction::Finish(result))
}

/// The owner stops cleanly: the stopping record comes first.
pub open spec fn stops(owner: GridOwner, exit: GridPaperTaskExit) -> GridStep {
    asks(
        owner,
        GridStage::StoppingAppend { exit },
        GridAction::AppendStatus {
            phase: GridPaperTaskPhase::Stopping,
            counts: owner.status,
            exit: None,
            failure: None,
        },
    )
}

/// The owner fails: the source is stopped first, then the failure is recorded.
pub open spec fn fails(
    owner: GridOwner,
    failure: GridPaperTaskFailure,
    error: GridPaperTaskError,
) -> GridStep {
    asks(owner, GridStage::FailingStop { failure, error }, GridAction::StopSource)
}

/// The owner fails closed: its durable state has to be reconciled.
pub open spec fn needs_recovery(owner: GridOwner) -> GridStep {
    fails(owner, GridPaperTaskFailure::RecoveryRequired, GridPaperTaskError::RecoveryRequired)
}

/// The owner fails under the bucket of the error.
pub open spec fn fails_with(owner: GridOwner, error: GridPaperTaskError) -> GridStep {
    fails(owner, grid_bucket(error), error)
}

/// The status shows the current event and the last operation.
pub open spec fn published(owner: GridOwner) -> GridOwner {
    let next = GridCounts { operation_count: owner.sequence, ..owner.next };
    GridOwner { next, status: next, ..owner }
}

/// The owner reads the protection's directive, or goes on to the crossings.
pub open spec fn protects(owner: GridOwner) -> GridStep {
    if owner.observed && owner.protected {
        asks(owner, GridStage::Protection, GridAction::ReadProtection)
    } else {
        crosses(owner)
    }
}

/// The owner takes the levels that the event crossed.
pub open spec fn crosses(owner: GridOwner) -> GridStep {
    asks(
        if owner.observed {
            GridOwner { last_protection: None, ..owner }
        } else {
            owner
        },
        GridStage::Crossings,
        GridAction::TakeCrossings,
    )
}

/// The owner turns to the next crossed level, or to what follows the last one.
/// Levels that it did not get to need recovery.
pub open spec fn next_crossing(owner: GridOwner) -> GridStep {
    if owner.taken < owner.crossings && !owner.stop_after {
        asks(owner, GridStage::CrossCheck, GridAction::CheckCrossing { level: owner.taken })
    } else if owner.completed < owner.crossings {
        needs_recovery(published(owner))
    } else if owner.risk && owner.crossings > 0 {
        asks(owner, GridStage::FlatCheck, GridAction::CheckFlat)
    } else {
        checkpoints(owner)
    }
}

/// The owner records the event.
pub open spec fn checkpoints(owner: GridOwner) -> GridStep {
    asks(owner, GridStage::Checkpoint, GridAction::AppendCheckpoint { counts: owner.next })
}

/// The event crosses this many levels, of which none is taken yet.
pub open spec fn with_crossings(owner: GridOwner, crossings: u64) -> GridOwner {
    GridOwner { crossings, taken: 0, completed: 0, ..owner }
}

/// The owner builds a forced close under its next number.
pub open spec fn builds_close(owner: GridOwner, purpose: ForcedClose) -> GridStep {
    if owner.sequence == u64::MAX {
        needs_recovery(owner)
    } else {
        asks(
            owner,
            GridStage::CloseBuild { purpose },
            GridAction::BuildForcedClose { purpose, sequence: (owner.sequence + 1) as u64 },
        )
    }
}

/// The position is closed, or was flat: the owner goes on as the purpose says.
pub open spec fn closed(owner: GridOwner, purpose: ForcedClose) -> GridStep {
    match purpose {
        ForcedClose::RiskOnEvent => stops(published(owner), GridPaperTaskExit::StopRequested),
        ForcedClose::RiskOnPoll => stops(owner, GridPaperTaskExit::StopRequested),
        ForcedClose::Reset => asks(published(owner), GridStage::Rebuild, GridAction::RebuildGrid),
        ForcedClose::Exit => stops(published(owner), GridPaperTaskExit::StopRequested),
    }
}

/// Account risk demanded the close.
pub open spec fn by_risk(purpose: ForcedClose) -> bool {
    purpose == ForcedClose::RiskOnEvent || purpose == ForcedClose::RiskOnPoll
}

/// The forced close failed with an error of its own.
pub open spec fn close_failed(
    owner: GridOwner,
    purpose: ForcedClose,
    error: GridPaperTaskError,
) -> GridStep {
    if by_risk(purpose) {
        needs_recovery(owner)
    } else {
        fails(owner, GridPaperTaskFailure::RecoveryRequired, error)
    }
}

/// A signal, the risk poll or the source came first.
pub open spec fn woken(owner: GridOwner, input: GridInput) -> GridStep {
    match input {
        GridInput::Signal => stops(owner, GridPaperTaskExit::StopRequested),
        GridInput::SourceEnded => asks(owner, GridStage::EndCheck, GridAction::CheckFlat),
        GridInput::SourceFailed => fails(
            owner,
            GridPaperTaskFailure::SourceContract,
            GridPaperTaskError::Source,
        ),
        GridInput::RiskPoll => if owner.risk {
            asks(
                owner,
                GridStage::RiskExit { polled: true },
                GridAction::ReadRiskExit { with_market: owner.seen },
            )
        } else {
            asks(owner, GridStage::Waiting, GridAction::Wait)
        },
        GridInput::Event { observation, bound, signalled } => if signalled {
            stops(owner, GridPaperTaskExit::StopRequested)
        } else if owner.status.processed_event_count == u64::MAX {
            ends(owner, Err(GridPaperTaskError::InvalidRequest))
        } else {
            let counted = GridOwner {
                next: GridCounts {
                    processed_event_count: (owner.status.processed_event_count + 1) as u64,
                    ..owner.status
                },
                observed: observation,
                crossings: 0,
                taken: 0,
                completed: 0,
                stop_after: false,
                ..owner
            };
            if observation && !bound {
                fails(
                    counted,
                    GridPaperTaskFailure::InvalidRequest,
                    GridPaperTaskError::InvalidSourceBinding,
                )
            } else if observation {
                asks(counted, GridStage::Market, GridAction::ApplyMarket)
            } else {
                crosses(counted)
            }
        },
        _ => needs_recovery(owner),
    }
}

/// What account risk asks for, on an event or between two.
pub open spec fn risk_answered(owner: GridOwner, polled: bool, input: GridInput) -> GridStep {
    match input {
        GridInput::Risk(RiskExit::Stop) => stops(owner, GridPaperTaskExit::StopRequested),
        GridInput::Risk(RiskExit::Continue) => if polled {
            asks(owner, GridStage::Waiting, GridAction::Wait)
        } else {
            protects(owner)
        },
        GridInput::Risk(RiskExit::Close) => if polled && !owner.seen {
            needs_recovery(owner)
        } else if owner.sequence == u64::MAX {
            needs_recovery(owner)
        } else {
            builds_close(
                owner,
                if polled {
                    ForcedClose::RiskOnPoll
                } else {
                    ForcedClose::RiskOnEvent
                },
            )
        },
        GridInput::Failed(error) => fails_with(owner, error),
        _ => needs_recovery(owner),
    }
}

/// The forced close, from its plan to what is left after it.
pub open spec fn close_step(owner: GridOwner, purpose: ForcedClose, input: GridInput) -> GridStep {
    match (owner.stage, input) {
        (GridStage::ClosePlan { .. }, GridInput::Position(found)) => match found {
            PositionFound::Flat => closed(owner, purpose),
            PositionFound::Open => builds_close(owner, purpose),
            PositionFound::Unread(error) | PositionFound::Unclear(error) => close_failed(
                owner,
                purpose,
                error,
            ),
        },
        (GridStage::CloseBuild { .. }, GridInput::Done) => if owner.sequence == u64::MAX {
            needs_recovery(owner)
        } else {
            let sequence = (owner.sequence + 1) as u64;
            asks(
                GridOwner {
                    sequence,
                    status: GridCounts { operation_count: sequence, ..owner.status },
                    ..owner
                },
                GridStage::CloseAppend { purpose },
                GridAction::AppendForcedClose { purpose, sequence },
            )
        },
        (GridStage::CloseBuild { .. }, GridInput::Failed(error)) => close_failed(
            owner,
            purpose,
            error,
        ),
        (GridStage::CloseAppend { .. }, GridInput::Done) => asks(
            owner,
            GridStage::CloseRun { purpose },
            GridAction::RunForcedClose,
        ),
        (GridStage::CloseAppend { .. }, GridInput::Failed(error)) => if by_risk(purpose) {
            fails(owner, GridPaperTaskFailure::JournalUnavailable, error)
        } else {
            fails(owner, GridPaperTaskFailure::RecoveryRequired, error)
        },
        (GridStage::CloseRun { .. }, GridInput::Outcome(outcome)) => match outcome {
            OperationOutcome::Completed { .. } => asks(
                owner,
                GridStage::CloseVerify { purpose },
                GridAction::VerifyClose,
            ),
            OperationOutcome::Cancelled | OperationOutcome::TimedOut => asks(
                owner,
                GridStage::CloseRetain { purpose },
                GridAction::Retain,
            ),
            _ => needs_recovery(owner),
        },
        (GridStage::CloseRetain { .. }, GridInput::Failed(error)) => if by_risk(purpose) {
            fails_with(owner, error)
        } else {
            fails(owner, GridPaperTaskFailure::RecoveryRequired, error)
        },
        (GridStage::CloseVerify { .. }, GridInput::Position(found)) => match found {
            PositionFound::Flat => if owner.risk {
                asks(owner, GridStage::CloseRecord { purpose }, GridAction::RecordPositionClosed)
            } else {
                closed(owner, purpose)
            },
            PositionFound::Open => needs_recovery(owner),
            PositionFound::Unread(error) => close_failed(owner, purpose, error),
            PositionFound::Unclear(error) => if by_risk(purpose) {
                ends(owner, Err(error))
            } else {
                fails(owner, GridPaperTaskFailure::RecoveryRequired, error)
            },
        },
        (GridStage::CloseRecord { .. }, GridInput::Done) => closed(owner, purpose),
        _ => needs_recovery(owner),
    }
}

/// The directive of the grid protection.
pub open spec fn directive_answered(owner: GridOwner, input: GridInput) -> GridStep {
    match input {
        GridInput::Directive(GridDirective::Continue) => crosses(owner),
        GridInput::Directive(GridDirective::Hold(signature)) => if owner.last_protection is Some
            && same_signature(owner.last_protection->0, signature) {
            next_crossing(with_crossings(owner, 0))
        } else {
            asks(
                GridOwner { last_protection: Some(signature), ..owner },
                GridStage::HoldAppend { scalp: signature is Scalp },
                GridAction::AppendProtection,
            )
        },
        GridInput::Directive(GridDirective::ResetGrid) => asks(
            GridOwner { last_protection: None, ..owner },
            GridStage::ResetAppend,
            GridAction::AppendProtection,
        ),
        GridInput::Directive(GridDirective::ExitAll) => asks(
            owner,
            GridStage::ExitAppend,
            GridAction::AppendProtection,
        ),
        GridInput::Failed(error) => fails_with(owner, error),
        _ => needs_recovery(owner),
    }
}

/// The scalp, from its record to its outcome.
pub open spec fn scalp_step(owner: GridOwner, input: GridInput) -> GridStep {
    match (owner.stage, input) {
        (GridStage::HoldAppend { scalp }, GridInput::Done) => if !scalp {
            next_crossing(with_crossings(owner, 0))
        } else if owner.sequence == u64::MAX {
            ends(owner, Err(GridPaperTaskError::InvalidRequest))
        } else {
            let sequence = (owner.sequence + 1) as u64;
            asks(
                GridOwner { sequence, ..owner },
                GridStage::ScalpBuild,
                GridAction::BuildScalp { sequence },
            )
        },
        (GridStage::HoldAppend { .. }, GridInput::Failed(_)) => fails(
            owner,
            GridPaperTaskFailure::JournalUnavailable,
            GridPaperTaskError::Journal,
        ),
        (GridStage::ScalpBuild, GridInput::Done) => asks(
            owner,
            GridStage::ScalpRun,
            GridAction::RunOperation,
        ),
        (GridStage::ScalpBuild, GridInput::Failed(error)) => fails(
            published(owner),
            GridPaperTaskFailure::InvalidRequest,
            error,
        ),
        (GridStage::ScalpRun, GridInput::Outcome(outcome)) => match outcome {
            OperationOutcome::Completed { stop_requested } => next_crossing(
                with_crossings(
                    GridOwner {
                        next: GridCounts { operation_count: owner.sequence, ..owner.next },
                        stop_after: owner.stop_after || stop_requested,
                        ..owner
                    },
                    0,
                ),
            ),
            OperationOutcome::Failed(failure) => fails(
                published(owner),
                saga_bucket(failure),
                GridPaperTaskError::Saga(failure),
            ),
            _ => asks(
                owner,
                GridStage::ScalpRetain { interrupted: outcome == OperationOutcome::RiskInterrupted },
                GridAction::Retain,
            ),
        },
        (GridStage::ScalpRetain { interrupted }, GridInput::Retained(_)) => if interrupted {
            asks(owner, GridStage::PendingRisk, GridAction::AppendPendingRisk)
        } else {
            needs_recovery(published(owner))
        },
        (GridStage::ScalpRetain { .. }, GridInput::Failed(error)) => fails_with(owner, error),
        _ => needs_recovery(owner),
    }
}

/// One crossed level, from its check to its outcome.
pub open spec fn crossing_step(owner: GridOwner, input: GridInput) -> GridStep {
    match (owner.stage, input) {
        (GridStage::Crossings, GridInput::Crossed(count)) => next_crossing(
            with_crossings(owner, count),
        ),
        (GridStage::Crossings, GridInput::Failed(error)) => fails(
            owner,
            GridPaperTaskFailure::InvalidRequest,
            error,
        ),
        (GridStage::CrossCheck, GridInput::Crossing(found)) => match found {
            CrossingFound::Signalled => needs_recovery(published(owner)),
            CrossingFound::Unread(error) => fails_with(owner, error),
            CrossingFound::Foreign => needs_recovery(owner),
            CrossingFound::Unclear(error) => fails(
                owner,
                GridPaperTaskFailure::RecoveryRequired,
                error,
            ),
            CrossingFound::Ready { reduce_only } => if owner.risk && !reduce_only {
                asks(
                    owner,
                    GridStage::CrossAdmit,
                    GridAction::AdmitCrossing { level: owner.taken },
                )
            } else {
                builds_crossing(owner, reduce_only, false)
            },
        },
        (GridStage::CrossAdmit, GridInput::Admitted(admitted)) => if admitted {
            builds_crossing(owner, false, true)
        } else {
            // A durable rejection skips the level without failing.
            next_crossing(
                GridOwner {
                    taken: (owner.taken + 1) as u64,
                    completed: (owner.completed + 1) as u64,
                    ..owner
                },
            )
        },
        (GridStage::CrossAdmit, GridInput::Failed(error)) => fails_with(published(owner), error),
        (GridStage::CrossDiscard { overflow, error }, GridInput::Done) => fails(
            if overflow {
                owner
            } else {
                published(owner)
            },
            GridPaperTaskFailure::InvalidRequest,
            error,
        ),
        (GridStage::CrossDiscard { .. }, GridInput::Failed(error)) => fails_with(owner, error),
        (GridStage::CrossBuild { admitted, .. }, GridInput::Done) => asks(
            owner,
            GridStage::CrossRun { admitted },
            GridAction::RunOperation,
        ),
        (GridStage::CrossBuild { admitted, .. }, GridInput::Failed(error)) => if admitted {
            asks(
                owner,
                GridStage::CrossDiscard { overflow: false, error },
                GridAction::DiscardAdmission,
            )
        } else {
            fails(published(owner), GridPaperTaskFailure::InvalidRequest, error)
        },
        (GridStage::CrossRun { .. }, GridInput::Outcome(outcome)) => match outcome {
            OperationOutcome::Completed { stop_requested } => next_crossing(
                GridOwner {
                    taken: (owner.taken + 1) as u64,
                    completed: (owner.completed + 1) as u64,
                    next: GridCounts { operation_count: owner.sequence, ..owner.next },
                    stop_after: owner.stop_after || stop_requested,
                    ..owner
                },
            ),
            OperationOutcome::Failed(failure) => asks(
                owner,
                GridStage::CrossRetain { reason: RetainReason::Failed(failure) },
                GridAction::Retain,
            ),
            OperationOutcome::Cancelled => asks(
                owner,
                GridStage::CrossRetain { reason: RetainReason::Cancelled },
                GridAction::Retain,
            ),
            OperationOutcome::RiskInterrupted => asks(
                owner,
                GridStage::CrossRetain { reason: RetainReason::RiskInterrupted },
                GridAction::Retain,
            ),
            OperationOutcome::RiskUnavailable | OperationOutcome::TimedOut => asks(
                owner,
                GridStage::CrossRetain { reason: RetainReason::Unavailable },
                GridAction::Retain,
            ),
        },
        (GridStage::CrossRetain { reason }, GridInput::Retained(kept)) => match reason {
            RetainReason::Failed(failure) => if kept {
                needs_recovery(published(owner))
            } else {
                fails(published(owner), saga_bucket(failure), GridPaperTaskError::Saga(failure))
            },
            RetainReason::Cancelled => if kept {
                needs_recovery(published(owner))
            } else {
                stops(published(owner), GridPaperTaskExit::StopRequested)
            },
            RetainReason::RiskInterrupted => asks(
                owner,
                GridStage::PendingRisk,
                GridAction::AppendPendingRisk,
            ),
            RetainReason::Unavailable => needs_recovery(published(owner)),
        },
        (GridStage::CrossRetain { .. }, GridInput::Failed(error)) => fails_with(owner, error),
        _ => needs_recovery(owner),
    }
}

/// The owner builds the operation of a crossed level under its next number; an
/// admission that reaches no operation is discarded first.
pub open spec fn builds_crossing(owner: GridOwner, reduce_only: bool, admitted: bool) -> GridStep {
    if owner.sequence == u64::MAX {
        if admitted {
            asks(
                owner,
                GridStage::CrossDiscard {
                    overflow: true,
                    error: GridPaperTaskError::InvalidRequest,
                },
                GridAction::DiscardAdmission,
            )
        } else {
            fails(owner, GridPaperTaskFailure::InvalidRequest, GridPaperTaskError::InvalidRequest)
        }
    } else {
        let sequence = (owner.sequence + 1) as u64;
        asks(
            GridOwner { sequence, ..owner },
            GridStage::CrossBuild { reduce_only, admitted },
            GridAction::BuildCrossing { level: owner.taken, sequence, reduce_only, admitted },
        )
    }
}

/// What follows the crossed levels, and the end of the owner.
pub open spec fn closing_step(owner: GridOwner, input: GridInput) -> GridStep {
    match (owner.stage, input) {
        (GridStage::PendingRisk, GridInput::Done) => needs_recovery(published(owner)),
        (GridStage::PendingRisk, GridInput::Failed(error)) => fails(
            owner,
            GridPaperTaskFailure::JournalUnavailable,
            error,
        ),
        (GridStage::FlatCheck, GridInput::Position(found)) => match found {
            PositionFound::Flat => asks(
                owner,
                GridStage::FlatRecord,
                GridAction::RecordPositionClosed,
            ),
            PositionFound::Open => checkpoints(owner),
            PositionFound::Unread(error) => fails(
                published(owner),
                GridPaperTaskFailure::AccountContract,
                error,
            ),
            PositionFound::Unclear(error) => fails(
                published(owner),
                GridPaperTaskFailure::RecoveryRequired,
                error,
            ),
        },
        (GridStage::FlatRecord, GridInput::Done) => checkpoints(owner),
        (GridStage::FlatRecord, GridInput::Failed(_)) => fails(
            published(owner),
            GridPaperTaskFailure::AccountContract,
            GridPaperTaskError::AccountRisk,
        ),
        (GridStage::Checkpoint, GridInput::Done) => {
            let shown = GridOwner { status: owner.next, ..owner };
            if owner.stop_after {
                stops(shown, GridPaperTaskExit::StopRequested)
            } else {
                asks(shown, GridStage::Waiting, GridAction::Wait)
            }
        },
        (GridStage::Checkpoint, _) => ends(owner, Err(GridPaperTaskError::Journal)),
        (GridStage::EndCheck, GridInput::Position(found)) => match found {
            PositionFound::Flat => stops(owner, GridPaperTaskExit::SourceEnded),
            PositionFound::Unread(error) => fails(
                owner,
                GridPaperTaskFailure::AccountContract,
                error,
            ),
            _ => needs_recovery(owner),
        },
        (GridStage::StoppingAppend { exit }, GridInput::Done) => asks(
            GridOwner { phase: GridPaperTaskPhase::Stopping, ..owner },
            GridStage::SourceStop { exit },
            GridAction::StopSource,
        ),
        (GridStage::StoppingAppend { .. }, _) => ends(owner, Err(GridPaperTaskError::Journal)),
        (GridStage::SourceStop { exit }, GridInput::SourceStopped { timed_out }) => {
            let end = if timed_out {
                GridPaperTaskExit::ShutdownTimedOut
            } else {
                exit
            };
            asks(
                owner,
                GridStage::StoppedAppend { exit: end },
                GridAction::AppendStatus {
                    phase: GridPaperTaskPhase::Stopped,
                    counts: owner.status,
                    exit: Some(end),
                    failure: None,
                },
            )
        },
        (GridStage::SourceStop { .. }, _) => ends(owner, Err(GridPaperTaskError::Source)),
        (GridStage::StoppedAppend { exit }, GridInput::Done) => ends(
            GridOwner { phase: GridPaperTaskPhase::Stopped, ..owner },
            Ok(exit),
        ),
        (GridStage::StoppedAppend { .. }, _) => ends(owner, Err(GridPaperTaskError::Journal)),
        (GridStage::FailingStop { failure, error }, _) => asks(
            owner,
            GridStage::FailedAppend { error },
            GridAction::AppendStatus {
                phase: GridPaperTaskPhase::Failed,
                counts: owner.status,
                exit: None,
                failure: Some(failure),
            },
        ),
        (GridStage::FailedAppend { error }, GridInput::Done) => ends(
            GridOwner { phase: GridPaperTaskPhase::Failed, ..owner },
            Err(error),
        ),
        (GridStage::FailedAppend { .. }, _) => ends(owner, Err(GridPaperTaskError::Journal)),
        (GridStage::Finished, _) => ends(owner, Err(GridPaperTaskError::TaskCancelled)),
        _ => needs_recovery(owner),
    }
}

/// One step of the owner. An input that the stage does not wait for fails
/// closed.
pub open spec fn owner_step(owner: GridOwner, input: GridInput) -> GridStep {
    match owner.stage {
        GridStage::Waiting => woken(owner, input),
        GridStage::Market => match input {
            GridInput::Done => {
                let seen = GridOwner { seen: true, ..owner };
                if owner.risk {
                    asks(
                        seen,
                        GridStage::RiskExit { polled: false },
                        GridAction::ReadRiskExit { with_market: true },
                    )
                } else {
                    protects(seen)
                }
            },
            GridInput::Failed(error) => fails(owner, GridPaperTaskFailure::ExecutionFailed, error),
            _ => needs_recovery(owner),
        },
        GridStage::RiskExit { polled } => risk_answered(owner, polled, input),
        GridStage::ClosePlan { purpose }
        | GridStage::CloseBuild { purpose }
        | GridStage::CloseAppend { purpose }
        | GridStage::CloseRun { purpose }
        | GridStage::CloseVerify { purpose }
        | GridStage::CloseRecord { purpose }
        | GridStage::CloseRetain { purpose } => close_step(owner, purpose, input),
        GridStage::Protection => directive_answered(owner, input),
        GridStage::ResetAppend | GridStage::ExitAppend => match input {
            GridInput::Done => asks(
                owner,
                GridStage::ClosePlan {
                    purpose: if owner.stage == GridStage::ResetAppend {
                        ForcedClose::Reset
                    } else {
                        ForcedClose::Exit
                    },
                },
                GridAction::ReadClosePlan,
            ),
            GridInput::Failed(_) => fails(
                owner,
                GridPaperTaskFailure::JournalUnavailable,
                GridPaperTaskError::Journal,
            ),
            _ => needs_recovery(owner),
        },
        GridStage::Rebuild => match input {
            GridInput::Done => next_crossing(with_crossings(owner, 0)),
            GridInput::Failed(error) => fails(owner, GridPaperTaskFailure::InvalidRequest, error),
            _ => needs_recovery(owner),
        },
        GridStage::HoldAppend { .. }
        | GridStage::ScalpBuild
        | GridStage::ScalpRun
        | GridStage::ScalpRetain { .. } => scalp_step(owner, input),
        GridStage::Crossings
        | GridStage::CrossCheck
        | GridStage::CrossAdmit
        | GridStage::CrossDiscard { .. }
        | GridStage::CrossBuild { .. }
        | GridStage::CrossRun { .. }
        | GridStage::CrossRetain { .. } => crossing_step(owner, input),
        _ => closing_step(owner, input),
    }
}

fn ask(owner: GridOwner, stage: GridStage, action: GridAction) -> (r: GridStep)
    ensures
        r == asks(owner, stage, action),
{
    let mut next: GridOwner = owner;
    next.stage = stage;
    (next, action)
}

fn end(owner: GridOwner, result: Result<GridPaperTaskExit, GridPaperTaskError>) -> (r: GridStep)
    ensures
        r == ends(owner, result),
{
    ask(owner, GridStage::Finished, GridAction::Finish(result))
}

fn stop_owner(owner: GridOwner, exit: GridPaperTaskExit) -> (r: GridStep)
    ensures
        r == stops(owner, exit),
{
    let counts: GridCounts = owner.status;
    ask(
        owner,
        GridStage::StoppingAppend { exit },
        GridAction::AppendStatus {
            phase: GridPaperTaskPhase::Stopping,
            counts,
            exit: None,
            failure: None,
        },
    )
}

fn fail_owner(
    owner: GridOwner,
    failure: GridPaperTaskFailure,
    error: GridPaperTaskError,
) -> (r: GridStep)
    ensures
        r == fails(owner, failure, error),
{
    ask(owner, GridStage::FailingStop { failure, error }, GridAction::StopSource)
}

fn fail_closed(owner: GridOwner) -> (r: GridStep)
    ensures
        r == needs_recovery(owner),
{
    fail_owner(owner, GridPaperTaskFailure::RecoveryRequired, GridPaperTaskError::RecoveryRequired)
}

fn fail_with(owner: GridOwner, error: GridPaperTaskError) -> (r: GridStep)
    ensures
        r == fails_with(owner, error),
{
    fail_owner(owner, error.failure_bucket(), error)
}

fn publish(owner: GridOwner) -> (r: GridOwner)
    ensures
        r == published(owner),
{
    let mut shown: GridOwner = owner;
    shown.next.operation_count = shown.sequence;
    shown.status = shown.next;
    shown
}

fn protect(owner: GridOwner) -> (r: GridStep)
    ensures
        r == protects(owner),
{
    if owner.observed && owner.protected {
        ask(owner, GridStage::Protection, GridAction::ReadProtection)
    } else {
        cross(owner)
    }
}

fn cross(owner: GridOwner) -> (r: GridStep)
    ensures
        r == crosses(owner),
{
    let mut next: GridOwner = owner;
    if next.observed {
        next.last_protection = None;
    }
    ask(next, GridStage::Crossings, GridAction::TakeCrossings)
}

fn checkpoint(owner: GridOwner) -> (r: GridStep)
    ensures
        r == checkpoints(owner),
{
    let counts: GridCounts = owner.next;
    ask(owner, GridStage::Checkpoint, GridAction::AppendCheckpoint { counts })
}

fn turn_to_crossing(owner: GridOwner) -> (r: GridStep)
    ensures
        r == next_crossing(owner),
{
    if owner.taken < owner.crossings && !owner.stop_after {
        let level: u64 = owner.taken;
        ask(owner, GridStage::CrossCheck, GridAction::CheckCrossing { level })
    } else if owner.completed < owner.crossings {
        fail_closed(publish(owner))
    } else if owner.risk && owner.crossings > 0 {
        ask(owner, GridStage::FlatCheck, GridAction::CheckFlat)
    } else {
        checkpoint(owner)
    }
}

fn set_crossings(owner: GridOwner, crossings: u64) -> (r: GridOwner)
    ensures
        r == with_crossings(owner, crossings),
{
    let mut next: GridOwner = owner;
    next.crossings = crossings;
    next.taken = 0;
    next.completed = 0;
    next
}

fn build_close(owner: GridOwner, purpose: ForcedClose) -> (r: GridStep)
    ensures
        r == builds_close(owner, purpose),
{
    if owner.sequence == u64::MAX {
        return fail_closed(owner);
    }
    let sequence: u64 = owner.sequence + 1;
    ask(
        owner,
        GridStage::CloseBuild { purpose },
        GridAction::BuildForcedClose { purpose, sequence },
    )
}

fn go_on_closed(owner: GridOwner, purpose: ForcedClose) -> (r: GridStep)
    ensures
        r == closed(owner, purpose),
{
    match purpose {
        ForcedClose::RiskOnEvent => stop_owner(publish(owner), GridPaperTaskExit::StopRequested),
        ForcedClose::RiskOnPoll => stop_owner(owner, GridPaperTaskExit::StopRequested),
        ForcedClose::Reset => ask(publish(owner), GridStage::Rebuild, GridAction::RebuildGrid),
        ForcedClose::Exit => stop_owner(publish(owner), GridPaperTaskExit::StopRequested),
    }
}

fn is_by_risk(purpose: ForcedClose) -> (r: bool)
    ensures
        r == by_risk(purpose),
{
    purpose == ForcedClose::RiskOnEvent || purpose == ForcedClose::RiskOnPoll
}

fn fail_close(owner: GridOwner, purpose: ForcedClose, error: GridPaperTaskError) -> (r: GridStep)
    ensures
        r == close_failed(owner, purpose, error),
{
    if is_by_risk(purpose) {
        fail_closed(owner)
    } else {
        fail_owner(owner, GridPaperTaskFailure::RecoveryRequired, error)
    }
}

fn wake(owner: GridOwner, input: GridInput) -> (r: GridStep)
    ensures
        r == woken(owner, input),
{
    match input {
        GridInput::Signal => stop_owner(owner, GridPaperTaskExit::StopRequested),
        GridInput::SourceEnded => ask(owner, GridStage::EndCheck, GridAction::CheckFlat),
        GridInput::SourceFailed => fail_owner(
            owner,
            GridPaperTaskFailure::SourceContract,
            GridPaperTaskError::Source,
        ),
        GridInput::RiskPoll => {
            if owner.risk {
                let with_market: bool = owner.seen;
                ask(
                    owner,
                    GridStage::RiskExit { polled: true },
                    GridAction::ReadRiskExit { with_market },
                )
            } else {
                ask(owner, GridStage::Waiting, GridAction::Wait)
            }
        },
        GridInput::Event { observation, bound, signalled } => {
            if signalled {
                return stop_owner(owner, GridPaperTaskExit::StopRequested);
            }
            if owner.status.processed_event_count == u64::MAX {
                return end(owner, Err(GridPaperTaskError::InvalidRequest));
            }
            let mut counted: GridOwner = owner;
            counted.next = counted.status;
            counted.next.processed_event_count = counted.status.processed_event_count + 1;
            counted.observed = observation;
            counted.crossings = 0;
            counted.taken = 0;
            counted.completed = 0;
            counted.stop_after = false;
            if observation && !bound {
                return fail_owner(
                    counted,
                    GridPaperTaskFailure::InvalidRequest,
                    GridPaperTaskError::InvalidSourceBinding,
                );
            }
            if observation {
                ask(counted, GridStage::Market, GridAction::ApplyMarket)
            } else {
                cross(counted)
            }
        },
        _ => fail_closed(owner),
    }
}

fn account_risk_exit(owner: GridOwner, polled: bool, input: GridInput) -> (r: GridStep)
    ensures
        r == risk_answered(owner, polled, input),
{
    match input {
        GridInput::Risk(RiskExit::Stop) => stop_owner(owner, GridPaperTaskExit::StopRequested),
        GridInput::Risk(RiskExit::Continue) => {
            if polled {
                ask(owner, GridStage::Waiting, GridAction::Wait)
            } else {
                protect(owner)
            }
        },
        GridInput::Risk(RiskExit::Close) => {
            if polled && !owner.seen {
                return fail_closed(owner);
            }
            if owner.sequence == u64::MAX {
                return fail_closed(owner);
            }
            let purpose: ForcedClose = if polled {
                ForcedClose::RiskOnPoll
            } else {
                ForcedClose::RiskOnEvent
            };
            build_close(owner, purpose)
        },
        GridInput::Failed(error) => fail_with(owner, error),
        _ => fail_closed(owner),
    }
}

fn close_target_instrument_position(
    owner: GridOwner,
    purpose: ForcedClose,
    input: GridInput,
) -> (r: GridStep)
    ensures
        r == close_step(owner, purpose, input),
{
    match (owner.stage, input) {
        (GridStage::ClosePlan { .. }, GridInput::Position(found)) => match found {
            PositionFound::Flat => go_on_closed(owner, purpose),
            PositionFound::Open => build_close(owner, purpose),
            PositionFound::Unread(error) | PositionFound::Unclear(error) => fail_close(
                owner,
                purpose,
                error,
            ),
        },
        (GridStage::CloseBuild { .. }, GridInput::Done) => {
            if owner.sequence == u64::MAX {
                return fail_closed(owner);
            }
            let mut next: GridOwner = owner;
            let sequence: u64 = next.sequence + 1;
            next.sequence = sequence;
            next.status.operation_count = sequence;
            ask(
                next,
                GridStage::CloseAppend { purpose },
                GridAction::AppendForcedClose { purpose, sequence },
            )
        },
        (GridStage::CloseBuild { .. }, GridInput::Failed(error)) => fail_close(
            owner,
            purpose,
            error,
        ),
        (GridStage::CloseAppend { .. }, GridInput::Done) => ask(
            owner,
            GridStage::CloseRun { purpose },
            GridAction::RunForcedClose,
        ),
        (GridStage::CloseAppend { .. }, GridInput::Failed(error)) => {
            if is_by_risk(purpose) {
                fail_owner(owner, GridPaperTaskFailure::JournalUnavailable, error)
            } else {
                fail_owner(owner, GridPaperTaskFailure::RecoveryRequired, error)
            }
        },
        (GridStage::CloseRun { .. }, GridInput::Outcome(outcome)) => match outcome {
            OperationOutcome::Completed { .. } => ask(
                owner,
                GridStage::CloseVerify { purpose },
                GridAction::VerifyClose,
            ),
            OperationOutcome::Cancelled | OperationOutcome::TimedOut => ask(
                owner,
                GridStage::CloseRetain { purpose },
                GridAction::Retain,
            ),
            _ => fail_closed(owner),
        },
        (GridStage::CloseRetain { .. }, GridInput::Failed(error)) => {
            if is_by_risk(purpose) {
                fail_with(owner, error)
            } else {
                fail_owner(owner, GridPaperTaskFailure::RecoveryRequired, error)
            }
        },
        (GridStage::CloseVerify { .. }, GridInput::Position(found)) => match found {
            PositionFound::Flat => {
                if owner.risk {
                    ask(
                        owner,
                        GridStage::CloseRecord { purpose },
                        GridAction::RecordPositionClosed,
                    )
                } else {
                    go_on_closed(owner, purpose)
                }
            },
            PositionFound::Open => fail_closed(owner),
            PositionFound::Unread(error) => fail_close(owner, purpose, error),
            PositionFound::Unclear(error) => {
                if is_by_risk(purpose) {
                    end(owner, Err(error))
                } else {
                    fail_owner(owner, GridPaperTaskFailure::RecoveryRequired, error)
                }
            },
        },
        (GridStage::CloseRecord { .. }, GridInput::Done) => go_on_closed(owner, purpose),
        _ => fail_closed(owner),
    }
}

fn consume_directive(owner: GridOwner, input: GridInput) -> (r: GridStep)
    ensures
        r == directive_answered(owner, input),
{
    match input {
        GridInput::Directive(GridDirective::Continue) => cross(owner),
        GridInput::Directive(GridDirective::Hold(signature)) => {
            let repeated: bool = match &owner.last_protection {
                Some(last) => last.equals(&signature),
                None => false,
            };
            if repeated {
                return turn_to_crossing(set_crossings(owner, 0));
            }
            let scalp: bool = match &signature {
                ProtectionSignature::Freeze { .. } => false,
                ProtectionSignature::Scalp { .. } => true,
            };
            let mut next: GridOwner = owner;
            next.last_protection = Some(signature);
            ask(next, GridStage::HoldAppend { scalp }, GridAction::AppendProtection)
        },
        GridInput::Directive(GridDirective::ResetGrid) => {
            let mut next: GridOwner = owner;
            next.last_protection = None;
            ask(next, GridStage::ResetAppend, GridAction::AppendProtection)
        },
        GridInput::Directive(GridDirective::ExitAll) => ask(
            owner,
            GridStage::ExitAppend,
            GridAction::AppendProtection,
        ),
        GridInput::Failed(error) => fail_with(owner, error),
        _ => fail_closed(owner),
    }
}

fn run_scalp(owner: GridOwner, input: GridInput) -> (r: GridStep)
    ensures
        r == scalp_step(owner, input),
{
    match (owner.stage, input) {
        (GridStage::HoldAppend { scalp }, GridInput::Done) => {
            if !scalp {
                return turn_to_crossing(set_crossings(owner, 0));
            }
            if owner.sequence == u64::MAX {
                return end(owner, Err(GridPaperTaskError::InvalidRequest));
            }
            let mut next: GridOwner = owner;
            let sequence: u64 = next.sequence + 1;
            next.sequence = sequence;
            ask(next, GridStage::ScalpBuild, GridAction::BuildScalp { sequence })
        },
        (GridStage::HoldAppend { .. }, GridInput::Failed(_)) => fail_owner(
            owner,
            GridPaperTaskFailure::JournalUnavailable,
            GridPaperTaskError::Journal,
        ),
        (GridStage::ScalpBuild, GridInput::Done) => ask(
            owner,
            GridStage::ScalpRun,
            GridAction::RunOperation,
        ),
        (GridStage::ScalpBuild, GridInput::Failed(error)) => fail_owner(
            publish(owner),
            GridPaperTaskFailure::InvalidRequest,
            error,
        ),
        (GridStage::ScalpRun, GridInput::Outcome(outcome)) => match outcome {
            OperationOutcome::Completed { stop_requested } => {
                let mut next: GridOwner = owner;
                next.next.operation_count = next.sequence;
                next.stop_after = next.stop_after || stop_requested;
                turn_to_crossing(set_crossings(next, 0))
            },
            OperationOutcome::Failed(failure) => fail_owner(
                publish(owner),
                classify_saga_error(failure),
                GridPaperTaskError::Saga(failure),
            ),
            _ => {
                let interrupted: bool = outcome == OperationOutcome::RiskInterrupted;
                ask(owner, GridStage::ScalpRetain { interrupted }, GridAction::Retain)
            },
        },
        (GridStage::ScalpRetain { interrupted }, GridInput::Retained(_)) => {
            if interrupted {
                ask(owner, GridStage::PendingRisk, GridAction::AppendPendingRisk)
            } else {
                fail_closed(publish(owner))
            }
        },
        (GridStage::ScalpRetain { .. }, GridInput::Failed(error)) => fail_with(owner, error),
        _ => fail_closed(owner),
    }
}

fn build_crossing(owner: GridOwner, reduce_only: bool, admitted: bool) -> (r: GridStep)
    ensures
        r == builds_crossing(owner, reduce_only, admitted),
{
    if owner.sequence == u64::MAX {
        if admitted {
            return ask(
                owner,
                GridStage::CrossDiscard {
                    overflow: true,
                    error: GridPaperTaskError::InvalidRequest,
                },
                GridAction::DiscardAdmission,
            );
        }
        return fail_owner(
            owner,
            GridPaperTaskFailure::InvalidRequest,
            GridPaperTaskError::InvalidRequest,
        );
    }
    let mut next: GridOwner = owner;
    let sequence: u64 = next.sequence + 1;
    next.sequence = sequence;
    let level: u64 = next.taken;
    ask(
        next,
        GridStage::CrossBuild { reduce_only, admitted },
        GridAction::BuildCrossing { level, sequence, reduce_only, admitted },
    )
}

fn retained_crossing(owner: GridOwner, reason: RetainReason, kept: bool) -> (r: GridStep)
    ensures
        owner.stage == (GridStage::CrossRetain { reason }) ==> r == crossing_step(
            owner,
            GridInput::Retained(kept),
        ),
{
    match reason {
        RetainReason::Failed(failure) => {
            if kept {
                fail_closed(publish(owner))
            } else {
                fail_owner(
                    publish(owner),
                    classify_saga_error(failure),
                    GridPaperTaskError::Saga(failure),
                )
            }
        },
        RetainReason::Cancelled => {
            if kept {
                fail_closed(publish(owner))
            } else {
                stop_owner(publish(owner), GridPaperTaskExit::StopRequested)
            }
        },
        RetainReason::RiskInterrupted => ask(
            owner,
            GridStage::PendingRisk,
            GridAction::AppendPendingRisk,
        ),
        RetainReason::Unavailable => fail_closed(publish(owner)),
    }
}

fn run_crossing(owner: GridOwner, input: GridInput) -> (r: GridStep)
    requires
        owner_is_sound(owner),
    ensures
        r == crossing_step(owner, input),
{
    match (owner.stage, input) {
        (GridStage::Crossings, GridInput::Crossed(count)) => turn_to_crossing(
            set_crossings(owner, count),
        ),
        (GridStage::Crossings, GridInput::Failed(error)) => fail_owner(
            owner,
            GridPaperTaskFailure::InvalidRequest,
            error,
        ),
        (GridStage::CrossCheck, GridInput::Crossing(found)) => match found {
            CrossingFound::Signalled => fail_closed(publish(owner)),
            CrossingFound::Unread(error) => fail_with(owner, error),
            CrossingFound::Foreign => fail_closed(owner),
            CrossingFound::Unclear(error) => fail_owner(
                owner,
                GridPaperTaskFailure::RecoveryRequired,
                error,
            ),
            CrossingFound::Ready { reduce_only } => {
                if owner.risk && !reduce_only {
                    let level: u64 = owner.taken;
                    ask(owner, GridStage::CrossAdmit, GridAction::AdmitCrossing { level })
                } else {
                    build_crossing(owner, reduce_only, false)
                }
            },
        },
        (GridStage::CrossAdmit, GridInput::Admitted(admitted)) => {
            if admitted {
                return build_crossing(owner, false, true);
            }
            let mut next: GridOwner = owner;
            next.taken = next.taken + 1;
            next.completed = next.completed + 1;
            turn_to_crossing(next)
        },
        (GridStage::CrossAdmit, GridInput::Failed(error)) => fail_with(publish(owner), error),
        (GridStage::CrossDiscard { overflow, error }, GridInput::Done) => {
            if overflow {
                fail_owner(owner, GridPaperTaskFailure::InvalidRequest, error)
            } else {
                fail_owner(publish(owner), GridPaperTaskFailure::InvalidRequest, error)
            }
        },
        (GridStage::CrossDiscard { .. }, GridInput::Failed(error)) => fail_with(owner, error),
        (GridStage::CrossBuild { admitted, .. }, GridInput::Done) => ask(
            owner,
            GridStage::CrossRun { admitted },
            GridAction::RunOperation,
        ),
        (GridStage::CrossBuild { admitted, .. }, GridInput::Failed(error)) => {
            if admitted {
                ask(
                    owner,
                    GridStage::CrossDiscard { overflow: false, error },
                    GridAction::DiscardAdmission,
                )
            } else {
                fail_owner(publish(owner), GridPaperTaskFailure::InvalidRequest, error)
            }
        },
        (GridStage::CrossRun { .. }, GridInput::Outcome(outcome)) => match outcome {
            OperationOutcome::Completed { stop_requested } => {
                let mut next: GridOwner = owner;
                next.taken = next.taken + 1;
                next.completed = next.completed + 1;
                next.next.operation_count = next.sequence;
                next.stop_after = next.stop_after || stop_requested;
                turn_to_crossing(next)
            },
            OperationOutcome::Failed(failure) => ask(
                owner,
                GridStage::CrossRetain { reason: RetainReason::Failed(failure) },
                GridAction::Retain,
            ),
            OperationOutcome::Cancelled => ask(
                owner,
                GridStage::CrossRetain { reason: RetainReason::Cancelled },
                GridAction::Retain,
            ),
            OperationOutcome::RiskInterrupted => ask(
                owner,
                GridStage::CrossRetain { reason: RetainReason::RiskInterrupted },
                GridAction::Retain,
            ),
            OperationOutcome::RiskUnavailable | OperationOutcome::TimedOut => ask(
                owner,
                GridStage::CrossRetain { reason: RetainReason::Unavailable },
                GridAction::Retain,
            ),
        },
        (GridStage::CrossRetain { reason }, GridInput::Retained(kept)) => retained_crossing(
            owner,
            reason,
            kept,
        ),
        (GridStage::CrossRetain { .. }, GridInput::Failed(error)) => fail_with(owner, error),
        _ => fail_closed(owner),
    }
}

fn close_down(owner: GridOwner, input: GridInput) -> (r: GridStep)
    ensures
        r == closing_step(owner, input),
{
    match (owner.stage, input) {
        (GridStage::PendingRisk, GridInput::Done) => fail_closed(publish(owner)),
        (GridStage::PendingRisk, GridInput::Failed(error)) => fail_owner(
            owner,
            GridPaperTaskFailure::JournalUnavailable,
            error,
        ),
        (GridStage::FlatCheck, GridInput::Position(found)) => match found {
            PositionFound::Flat => ask(
                owner,
                GridStage::FlatRecord,
                GridAction::RecordPositionClosed,
            ),
            PositionFound::Open => checkpoint(owner),
            PositionFound::Unread(error) => fail_owner(
                publish(owner),
                GridPaperTaskFailure::AccountContract,
                error,
            ),
            PositionFound::Unclear(error) => fail_owner(
                publish(owner),
                GridPaperTaskFailure::RecoveryRequired,
                error,
            ),
        },
        (GridStage::FlatRecord, GridInput::Done) => checkpoint(owner),
        (GridStage::FlatRecord, GridInput::Failed(_)) => fail_owner(
            publish(owner),
            GridPaperTaskFailure::AccountContract,
            GridPaperTaskError::AccountRisk,
        ),
        (GridStage::Checkpoint, GridInput::Done) => {
            let mut shown: GridOwner = owner;
            shown.status = shown.next;
            if shown.stop_after {
                stop_owner(shown, GridPaperTaskExit::StopRequested)
            } else {
                ask(shown, GridStage::Waiting, GridAction::Wait)
            }
        },
        (GridStage::Checkpoint, _) => end(owner, Err(GridPaperTaskError::Journal)),
        (GridStage::EndCheck, GridInput::Position(found)) => match found {
            PositionFound::Flat => stop_owner(owner, GridPaperTaskExit::SourceEnded),
            PositionFound::Unread(error) => fail_owner(
                owner,
                GridPaperTaskFailure::AccountContract,
                error,
            ),
            _ => fail_closed(owner),
        },
        (GridStage::StoppingAppend { exit }, GridInput::Done) => {
            let mut next: GridOwner = owner;
            next.phase = GridPaperTaskPhase::Stopping;
            ask(next, GridStage::SourceStop { exit }, GridAction::StopSource)
        },
        (GridStage::StoppingAppend { .. }, _) => end(owner, Err(GridPaperTaskError::Journal)),
        (GridStage::SourceStop { exit }, GridInput::SourceStopped { timed_out }) => {
            let reached: GridPaperTaskExit = if timed_out {
                GridPaperTaskExit::ShutdownTimedOut
            } else {
                exit
            };
            let counts: GridCounts = owner.status;
            ask(
                owner,
                GridStage::StoppedAppend { exit: reached },
                GridAction::AppendStatus {
                    phase: GridPaperTaskPhase::Stopped,
                    counts,
                    exit: Some(reached),
                    failure: None,
                },
            )
        },
        (GridStage::SourceStop { .. }, _) => end(owner, Err(GridPaperTaskError::Source)),
        (GridStage::StoppedAppend { exit }, GridInput::Done) => {
            let mut next: GridOwner = owner;
            next.phase = GridPaperTaskPhase::Stopped;
            end(next, Ok(exit))
        },
        (GridStage::StoppedAppend { .. }, _) => end(owner, Err(GridPaperTaskError::Journal)),
        (GridStage::FailingStop { failure, error }, _) => {
            let counts: GridCounts = owner.status;
            ask(
                owner,
                GridStage::FailedAppend { error },
                GridAction::AppendStatus {
                    phase: GridPaperTaskPhase::Failed,
                    counts,
                    exit: None,
                    failure: Some(failure),
                },
            )
        },
        (GridStage::FailedAppend { error }, GridInput::Done) => {
            let mut next: GridOwner = owner;
            next.phase = GridPaperTaskPhase::Failed;
            end(next, Err(error))
        },
        (GridStage::FailedAppend { .. }, _) => end(owner, Err(GridPaperTaskError::Journal)),
        (GridStage::Finished, _) => end(owner, Err(GridPaperTaskError::TaskCancelled)),
        _ => fail_closed(owner),
    }
}

/// An owner counts no more crossed levels than it was given.
pub open spec fn owner_is_sound(owner: GridOwner) -> bool {
    &&& owner.completed <= owner.taken <= owner.crossings
    &&& owner.stage is CrossCheck || owner.stage is CrossAdmit || owner.stage is CrossBuild
        || owner.stage is CrossRun ==> owner.taken < owner.crossings
}

proof fn lemma_woken_sound(owner: GridOwner, input: GridInput)
    requires
        owner_is_sound(owner),
    ensures
        owner_is_sound(woken(owner, input).0),
{
}

proof fn lemma_risk_sound(owner: GridOwner, polled: bool, input: GridInput)
    requires
        owner_is_sound(owner),
    ensures
        owner_is_sound(risk_answered(owner, polled, input).0),
{
}

proof fn lemma_close_sound(owner: GridOwner, purpose: ForcedClose, input: GridInput)
    requires
        owner_is_sound(owner),
    ensures
        owner_is_sound(close_step(owner, purpose, input).0),
{
}

proof fn lemma_directive_sound(owner: GridOwner, input: GridInput)
    requires
        owner_is_sound(owner),
    ensures
        owner_is_sound(directive_answered(owner, input).0),
{
}

proof fn lemma_scalp_sound(owner: GridOwner, input: GridInput)
    requires
        owner_is_sound(owner),
    ensures
        owner_is_sound(scalp_step(owner, input).0),
{
}

proof fn lemma_crossing_sound(owner: GridOwner, input: GridInput)
    requires
        owner_is_sound(owner),
    ensures
        owner_is_sound(crossing_step(owner, input).0),
{
}

proof fn lemma_closing_sound(owner: GridOwner, input: GridInput)
    requires
        owner_is_sound(owner),
    ensures
        owner_is_sound(closing_step(owner, input).0),
{
}

/// Every step keeps an owner sound.
#[verifier::rlimit(60)]
pub proof fn law_owner_stays_sound(owner: GridOwner, input: GridInput)
    requires
        owner_is_sound(owner),
    ensures
        owner_is_sound(owner_step(owner, input).0),
{
    match owner.stage {
        GridStage::Waiting => lemma_woken_sound(owner, input),
        GridStage::Market => {},
        GridStage::RiskExit { polled } => lemma_risk_sound(owner, polled, input),
        GridStage::ClosePlan { purpose }
        | GridStage::CloseBuild { purpose }
        | GridStage::CloseAppend { purpose }
        | GridStage::CloseRun { purpose }
        | GridStage::CloseVerify { purpose }
        | GridStage::CloseRecord { purpose }
        | GridStage::CloseRetain { purpose } => lemma_close_sound(owner, purpose, input),
        GridStage::Protection => lemma_directive_sound(owner, input),
        GridStage::ResetAppend | GridStage::ExitAppend | GridStage::Rebuild => {},
        GridStage::HoldAppend { .. }
        | GridStage::ScalpBuild
        | GridStage::ScalpRun
        | GridStage::ScalpRetain { .. } => lemma_scalp_sound(owner, input),
        GridStage::Crossings
        | GridStage::CrossCheck
        | GridStage::CrossAdmit
        | GridStage::CrossDiscard { .. }
        | GridStage::CrossBuild { .. }
        | GridStage::CrossRun { .. }
        | GridStage::CrossRetain { .. } => lemma_crossing_sound(owner, input),
        _ => lemma_closing_sound(owner, input),
    }
}

impl GridOwner {
    /// The owner of a grid that continues from an operation number and waits
    /// for its first event.
    pub fn start(risk: bool, protected: bool, sequence: u64) -> (r: GridOwner)
        ensures
            r.risk == risk,
            r.protected == protected,
            r.sequence == sequence,
            r.stage == GridStage::Waiting,
            r.phase == GridPaperTaskPhase::Running,
            r.status == (GridCounts { processed_event_count: 0, operation_count: sequence }),
            r.next == r.status,
            !r.seen,
            !r.stop_after,
            r.last_protection is None,
            owner_is_sound(r),
    {
        let counts: GridCounts = GridCounts { processed_event_count: 0, operation_count: sequence };
        GridOwner {
            risk,
            protected,
            stage: GridStage::Waiting,
            phase: GridPaperTaskPhase::Running,
            status: counts,
            next: counts,
            sequence,
            observed: false,
            seen: false,
            last_protection: None,
            crossings: 0,
            taken: 0,
            completed: 0,
            stop_after: false,
        }
    }

    /// Takes what came of the last action and says what to do next.
    #[verifier::rlimit(60)]
    pub fn step(self, input: GridInput) -> (r: GridStep)
        requires
            owner_is_sound(self),
        ensures
            r == owner_step(self, input),
            owner_is_sound(r.0),
    {
        let step: GridStep = match self.stage {
            GridStage::Waiting => wake(self, input),
            GridStage::Market => match input {
                GridInput::Done => {
                    let mut seen: GridOwner = self;
                    seen.seen = true;
                    if seen.risk {
                        ask(
                            seen,
                            GridStage::RiskExit { polled: false },
                            GridAction::ReadRiskExit { with_market: true },
                        )
                    } else {
                        protect(seen)
                    }
                },
                GridInput::Failed(error) => fail_owner(
                    self,
                    GridPaperTaskFailure::ExecutionFailed,
                    error,
                ),
                _ => fail_closed(self),
            },
            GridStage::RiskExit { polled } => account_risk_exit(self, polled, input),
            GridStage::ClosePlan { purpose }
            | GridStage::CloseBuild { purpose }
            | GridStage::CloseAppend { purpose }
            | GridStage::CloseRun { purpose }
            | GridStage::CloseVerify { purpose }
            | GridStage::CloseRecord { purpose }
            | GridStage::CloseRetain { purpose } => close_target_instrument_position(
                self,
                purpose,
                input,
            ),
            GridStage::Protection => consume_directive(self, input),
            GridStage::ResetAppend | GridStage::ExitAppend => match input {
                GridInput::Done => {
                    let purpose: ForcedClose = if self.stage == GridStage::ResetAppend {
                        ForcedClose::Reset
                    } else {
                        ForcedClose::Exit
                    };
                    ask(self, GridStage::ClosePlan { purpose }, GridAction::ReadClosePlan)
                },
                GridInput::Failed(_) => fail_owner(
                    self,
                    GridPaperTaskFailure::JournalUnavailable,
                    GridPaperTaskError::Journal,
                ),
                _ => fail_closed(self),
            },
            GridStage::Rebuild => match input {
                GridInput::Done => turn_to_crossing(set_crossings(self, 0)),
                GridInput::Failed(error) => fail_owner(
                    self,
                    GridPaperTaskFailure::InvalidRequest,
                    error,
                ),
                _ => fail_closed(self),
            },
            GridStage::HoldAppend { .. }
            | GridStage::ScalpBuild
            | GridStage::ScalpRun
            | GridStage::ScalpRetain { .. } => run_scalp(self, input),
            GridStage::Crossings
            | GridStage::CrossCheck
            | GridStage::CrossAdmit
            | GridStage::CrossDiscard { .. }
            | GridStage::CrossBuild { .. }
            | GridStage::CrossRun { .. }
            | GridStage::CrossRetain { .. } => run_crossing(self, input),
            _ => close_down(self, input),
        };
        proof {
            law_owner_stays_sound(self, input);
        }
        step
    }
}

} // verus!
