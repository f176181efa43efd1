//! The loop of an arbitrage owner, step by step.
//!
//! The owner waits for its signals, its risk poll, its one operation in flight
//! and its two sources. What the pair shows while an operation is in flight is
//! coalesced into one later plan. The owner asks for one action at a time and
//! is told what came of it.

use crate::arbitrage_plan::{ArbitrageDecisionKind, ArbitrageState};
use crate::decimal::Decimal;
use crate::paper_arbitrage_task::{
    arbitrage_bucket, complete_operation, operation_error, opens_exposure, ArbitragePaperTaskError,
    ArbitragePaperTaskExit, ArbitragePaperTaskFailure, ArbitragePaperTaskPhase, OperationResult,
};
use vstd::prelude::*;

verus! {

/// The part of the owner's status that its records show.
#[derive(Clone, Copy, Debug, PartialEq, Eq, Structural)]
pub struct ArbitrageCounts {
    pub processed_event_count: u64,
    pub operation_count: u64,
    pub coalesced_opportunity_count: u64,
}

/// Bounds which strategy decisions a planning pass may turn into an operation.
#[derive(Clone, Copy, Debug, PartialEq, Eq, Structural)]
pub enum PlanScope {
    /// Opportunity-triggered pass: any strategy decision may execute.
    Full,
    /// Convergence-triggered pass: only reducing decisions may execute.
    ReduceOnly,
}

/// What follows an operation that was cut off.
#[derive(Clone, Copy, Debug, PartialEq, Eq, Structural)]
pub enum AfterAbort {
    /// The owner fails and records it.
    Fail { failure: ArbitragePaperTaskFailure, error: ArbitragePaperTaskError },
    /// The journal is gone: the owner ends without a record.
    JournalGone,
}

/// How the owner stops.
#[derive(Clone, Copy, Debug, PartialEq, Eq, Structural)]
pub struct StopPlan {
    pub exit: ArbitragePaperTaskExit,
    /// Account risk demands that the position is closed on the last pair.
    pub close: bool,
    /// An operation that was cut off left capacity behind.
    pub needs_recovery: bool,
    /// The shutdown of a source timed out.
    pub timed_out: bool,
}

/// What the owner waits for.
#[allow(inconsistent_fields)]
#[derive(Clone, Copy, Debug, PartialEq, Eq, Structural)]
pub enum ArbitrageStage {
    /// The position, read from the account.
    Restore,
    /// A signal, the risk poll, the operation in flight or a source.
    Waiting,
    /// The event, applied to the execution adapter.
    Observe,
    /// The event, taken by the monitor.
    Monitor,
    /// The records of the event.
    Checkpoint { scope: Option<PlanScope> },
    /// The account-risk directives, read and recorded.
    RiskExit { polled: bool, scope: Option<PlanScope> },
    /// The gates before a plan.
    Gate { scope: PlanScope },
    /// The strategy's decision.
    Decide { scope: PlanScope },
    Admit,
    Account { admitted: bool },
    Build { admitted: bool },
    Discard { error: ArbitragePaperTaskError },
    /// The admission of a plan that a signal overtook.
    DropPlan,
    Start,
    /// The closed position, recorded with account risk.
    RecordClosed,
    RetainFailed { error: ArbitragePaperTaskError },
    Abort { after: AfterAbort },
    /// Whether the operation in flight has reached its executor.
    StopProbe { stop: StopPlan },
    StopAbort { stop: StopPlan },
    StoppingAppend { stop: StopPlan },
    SourceStop { stop: StopPlan },
    Drain { stop: StopPlan },
    DrainAbort,
    DrainRecord { stop: StopPlan },
    StopRestore { stop: StopPlan },
    CloseAccount { stop: StopPlan },
    CloseBuild { stop: StopPlan },
    CloseRun { stop: StopPlan },
    CloseAbort,
    CloseRestore { stop: StopPlan },
    CloseRecord { stop: StopPlan },
    StoppedAppend { stop: StopPlan },
    JournalStop,
    FailingStop { failure: ArbitragePaperTaskFailure, error: ArbitragePaperTaskError },
    FailedAppend { error: ArbitragePaperTaskError },
    Finished,
}

/// The state of the owner between two actions.
#[derive(Debug)]
pub struct ArbitrageOwner {
    /// An account-risk authority is attached.
    pub risk: bool,
    pub stage: ArbitrageStage,
    pub phase: ArbitragePaperTaskPhase,
    /// The counts that the status shows.
    pub status: ArbitrageCounts,
    pub runtime_failure: Option<ArbitragePaperTaskFailure>,
    /// The counts that the current event leads to.
    pub next: ArbitrageCounts,
    /// The number of the last operation.
    pub sequence: u64,
    /// The position that the owner holds.
    pub position: ArbitrageState,
    /// The position that the operation in flight leads to.
    pub in_flight: Option<ArbitrageState>,
    /// The account's operation lane is registered to the owner.
    pub leased: bool,
    /// What was coalesced while an operation was in flight.
    pub pending: Option<PlanScope>,
    /// Some pair was observed whole.
    pub pair_seen: bool,
}

/// What the owner asks for.
#[derive(Debug)]
pub enum ArbitrageAction {
    RestoreState,
    Wait,
    ObserveEvent,
    ProcessEvent,
    AppendCheckpoint { counts: ArbitrageCounts },
    /// The directives at the present time where the poll asks, and otherwise at
    /// the time of the monitored event.
    ReadRiskExit { polled: bool },
    ReadGate,
    Decide,
    AdmitOperation,
    ReadAccount,
    BuildOperation { sequence: u64, admitted: bool },
    DiscardAdmission,
    StartOperation,
    /// The position is closed at the present time.
    RecordPositionClosed,
    RetainOperation,
    AbortOperation,
    ProbeOperation,
    JoinOperation { bounded: bool },
    BuildForcedClose { sequence: u64 },
    RunForcedClose,
    AppendStatus {
        phase: ArbitragePaperTaskPhase,
        counts: ArbitrageCounts,
        exit: Option<ArbitragePaperTaskExit>,
        failure: Option<ArbitragePaperTaskFailure>,
    },
    StopSources,
    Finish(Result<ArbitragePaperTaskExit, ArbitragePaperTaskError>),
}

/// What the monitor's event was to the history machine.
#[derive(Clone, Copy, Debug, PartialEq, Eq, Structural)]
pub enum SampleFound {
    /// No machine is attached, the event carries no spread, or the machine took
    /// the sample.
    Taken,
    /// The machine refused the sample.
    Refused,
    /// The spread cannot be expressed in basis points.
    Overflow,
}

/// What stands before a plan.
#[derive(Clone, Copy, Debug, PartialEq, Eq, Structural)]
pub enum GateFound {
    /// A stop or cancel signal came in.
    Signalled,
    Closed,
    Open,
}

/// What came of the last action.
#[derive(Debug)]
pub enum ArbitrageInput {
    Restored(ArbitrageState),
    Signal { cancel: bool },
    RiskPoll,
    Operation(OperationResult),
    /// An event of a source; `signalled` says that a signal is pending.
    Event { signalled: bool },
    SourceEnded,
    SourceFailed,
    Done,
    Failed(ArbitragePaperTaskError),
    /// The monitor took the event: the pass that it triggers, whether the pair
    /// is whole, and what the history machine made of it.
    Monitored { scope: Option<PlanScope>, pair: bool, sample: SampleFound },
    /// Whether account risk demands a close.
    Risk(bool),
    Gate(GateFound),
    /// The strategy's decision; nothing where it has no orders.
    Decided(Option<ArbitrageDecisionKind>),
    Admitted(bool),
    /// The operation is built; whether a signal came in meanwhile.
    Built { target: ArbitrageState, signalled: bool },
    /// Whether reserved capacity was found and kept.
    Retained(bool),
    /// Whether the operation has reached its executor.
    Started(bool),
    TimedOut,
    /// Whether the shutdown of a source timed out.
    SourcesStopped { timed_out: bool },
}

/// The next state and what it asks for.
pub type ArbitrageStep = (ArbitrageOwner, ArbitrageAction);

/// The position is flat.
pub open spec fn is_flat(state: ArbitrageState) -> bool {
    state.position_quantity@.0 == 0
}

/// The owner goes on in a stage and asks for its action.
pub open spec fn asks(
    owner: ArbitrageOwner,
    stage: ArbitrageStage,
    action: ArbitrageAction,
) -> ArbitrageStep {
    (ArbitrageOwner { stage, ..owner }, action)
}

/// The owner waits for what comes next.
pub open spec fn waits(owner: ArbitrageOwner) -> ArbitrageStep {
    asks(owner, ArbitrageStage::Waiting, ArbitrageAction::Wait)
}

/// The owner is over.
pub open spec fn ends(
    owner: ArbitrageOwner,
    result: Result<ArbitragePaperTaskExit, ArbitragePaperTaskError>,
) -> ArbitrageStep {
    asks(owner, ArbitrageStage::Finished, ArbitrageAction::Finish(result))
}

/// The owner fails: the sources are stopped first, then the failure is
/// recorded. What is in flight is dropped.
pub open spec fn fails(
    owner: ArbitrageOwner,
    failure: ArbitragePaperTaskFailure,
    error: ArbitragePaperTaskError,
) -> ArbitrageStep {
    asks(
        ArbitrageOwner { in_flight: None, ..owner },
        ArbitrageStage::FailingStop { failure, error },
        ArbitrageAction::StopSources,
    )
}

/// The owner fails closed: its durable state has to be reconciled.
pub open spec fn needs_recovery(owner: ArbitrageOwner) -> ArbitrageStep {
    fails(
        owner,
        ArbitragePaperTaskFailure::RecoveryRequired,
        ArbitragePaperTaskError::RecoveryRequired,
    )
}

/// The owner fails under the bucket of the error.
pub open spec fn fails_with(owner: ArbitrageOwner, error: ArbitragePaperTaskError) -> ArbitrageStep {
    fails(owner, arbitrage_bucket(error), error)
}

/// The owner goes on after its operation was cut off.
pub open spec fn goes_on(owner: ArbitrageOwner, after: AfterAbort) -> ArbitrageStep {
    match after {
        AfterAbort::Fail { failure, error } => fails(owner, failure, error),
        AfterAbort::JournalGone => asks(
            ArbitrageOwner { in_flight: None, ..owner },
            ArbitrageStage::JournalStop,
            ArbitrageAction::StopSources,
        ),
    }
}

/// The operation in flight is cut off and its capacity kept, if there is one;
/// the owner goes on as said.
pub open spec fn aborts(owner: ArbitrageOwner, after: AfterAbort) -> ArbitrageStep {
    if owner.in_flight is Some {
        asks(owner, ArbitrageStage::Abort { after }, ArbitrageAction::AbortOperation)
    } else {
        goes_on(owner, after)
    }
}

/// The owner fails after its operation is cut off.
pub open spec fn aborts_and_fails(
    owner: ArbitrageOwner,
    failure: ArbitragePaperTaskFailure,
    error: ArbitragePaperTaskError,
) -> ArbitrageStep {
    aborts(owner, AfterAbort::Fail { failure, error })
}

/// The stopping record.
pub open spec fn records_stopping(owner: ArbitrageOwner, stop: StopPlan) -> ArbitrageStep {
    asks(
        owner,
        ArbitrageStage::StoppingAppend { stop },
        ArbitrageAction::AppendStatus {
            phase: ArbitragePaperTaskPhase::Stopping,
            counts: owner.status,
            exit: None,
            failure: None,
        },
    )
}

/// The owner stops. An operation that a cancel meets, or that has not reached
/// its executor, is cut off first.
pub open spec fn stops(
    owner: ArbitrageOwner,
    exit: ArbitragePaperTaskExit,
    cancel: bool,
    close: bool,
) -> ArbitrageStep {
    let stop = StopPlan { exit, close, needs_recovery: false, timed_out: false };
    if owner.in_flight is None {
        records_stopping(owner, stop)
    } else if cancel {
        asks(owner, ArbitrageStage::StopAbort { stop }, ArbitrageAction::AbortOperation)
    } else {
        asks(owner, ArbitrageStage::StopProbe { stop }, ArbitrageAction::ProbeOperation)
    }
}

/// A signal, the risk poll, the operation in flight or a source came first.
pub open spec fn woken(owner: ArbitrageOwner, input: ArbitrageInput) -> ArbitrageStep {
    match input {
        ArbitrageInput::Signal { cancel } => stops(
            owner,
            ArbitragePaperTaskExit::StopRequested,
            cancel,
            false,
        ),
        ArbitrageInput::RiskPoll => if owner.risk {
            asks(
                owner,
                ArbitrageStage::RiskExit { polled: true, scope: None },
                ArbitrageAction::ReadRiskExit { polled: true },
            )
        } else {
            waits(owner)
        },
        ArbitrageInput::Operation(result) => match owner.in_flight {
            None => ends(owner, Err(ArbitragePaperTaskError::TaskCancelled)),
            Some(target) => match operation_error(result) {
                None => {
                    let settled = ArbitrageOwner { position: target, in_flight: None, ..owner };
                    if owner.risk && is_flat(target) {
                        asks(
                            settled,
                            ArbitrageStage::RecordClosed,
                            ArbitrageAction::RecordPositionClosed,
                        )
                    } else {
                        reevaluates(settled)
                    }
                },
                Some(error) => asks(
                    ArbitrageOwner { in_flight: None, ..owner },
                    ArbitrageStage::RetainFailed { error },
                    ArbitrageAction::RetainOperation,
                ),
            },
        },
        ArbitrageInput::Event { signalled } => if signalled {
            waits(owner)
        } else {
            asks(owner, ArbitrageStage::Observe, ArbitrageAction::ObserveEvent)
        },
        ArbitrageInput::SourceEnded => stops(
            owner,
            ArbitragePaperTaskExit::SourceEnded,
            false,
            false,
        ),
        ArbitrageInput::SourceFailed => aborts_and_fails(
            owner,
            ArbitragePaperTaskFailure::SourceContract,
            ArbitragePaperTaskError::Source,
        ),
        _ => needs_recovery(owner),
    }
}

/// The operation is settled and the lane free: what was coalesced meanwhile is
/// planned.
pub open spec fn reevaluates(owner: ArbitrageOwner) -> ArbitrageStep {
    let free = ArbitrageOwner { leased: false, pending: None, ..owner };
    match owner.pending {
        Some(scope) => asks(free, ArbitrageStage::Gate { scope }, ArbitrageAction::ReadGate),
        None => waits(free),
    }
}

/// What is coalesced while an operation is in flight: a full pass is never
/// narrowed.
pub open spec fn coalesced(pending: Option<PlanScope>, scope: PlanScope) -> PlanScope {
    if pending == Some(PlanScope::Full) {
        PlanScope::Full
    } else {
        scope
    }
}

/// The monitor took the event.
pub open spec fn monitored(
    owner: ArbitrageOwner,
    scope: Option<PlanScope>,
    pair: bool,
    sample: SampleFound,
) -> ArbitrageStep {
    let seen = ArbitrageOwner { pair_seen: owner.pair_seen || pair, ..owner };
    if sample == SampleFound::Refused {
        aborts_and_fails(
            seen,
            ArbitragePaperTaskFailure::InvalidRequest,
            ArbitragePaperTaskError::Strategy,
        )
    } else if sample == SampleFound::Overflow || owner.status.processed_event_count == u64::MAX {
        aborts_and_fails(
            seen,
            ArbitragePaperTaskFailure::MonitorContract,
            ArbitragePaperTaskError::InvalidRequest,
        )
    } else {
        let opportunity = scope == Some(PlanScope::Full) && owner.in_flight is Some;
        let marked = ArbitrageOwner {
            pending: if scope is Some && owner.in_flight is Some {
                Some(coalesced(owner.pending, scope->0))
            } else {
                owner.pending
            },
            next: ArbitrageCounts {
                processed_event_count: (owner.status.processed_event_count + 1) as u64,
                ..owner.status
            },
            ..seen
        };
        if opportunity && owner.status.coalesced_opportunity_count == u64::MAX {
            fails(
                marked,
                ArbitragePaperTaskFailure::MonitorContract,
                ArbitragePaperTaskError::InvalidRequest,
            )
        } else {
            let counted = ArbitrageOwner {
                next: ArbitrageCounts {
                    coalesced_opportunity_count: if opportunity {
                        (owner.status.coalesced_opportunity_count + 1) as u64
                    } else {
                        owner.status.coalesced_opportunity_count
                    },
                    ..marked.next
                },
                ..marked
            };
            asks(
                counted,
                ArbitrageStage::Checkpoint { scope },
                ArbitrageAction::AppendCheckpoint { counts: counted.next },
            )
        }
    }
}

/// A pass is planned where it was triggered and nothing is in flight.
pub open spec fn plans(owner: ArbitrageOwner, scope: Option<PlanScope>) -> ArbitrageStep {
    match scope {
        Some(pass) if owner.in_flight is None => asks(
            owner,
            ArbitrageStage::Gate { scope: pass },
            ArbitrageAction::ReadGate,
        ),
        _ => waits(owner),
    }
}

/// What account risk asks for, on an event or between two.
pub open spec fn risk_answered(
    owner: ArbitrageOwner,
    polled: bool,
    scope: Option<PlanScope>,
    input: ArbitrageInput,
) -> ArbitrageStep {
    match input {
        ArbitrageInput::Risk(false) => if polled {
            waits(owner)
        } else {
            plans(owner, scope)
        },
        ArbitrageInput::Risk(true) => if !is_flat(owner.position) && !owner.pair_seen {
            aborts_and_fails(
                owner,
                ArbitragePaperTaskFailure::RecoveryRequired,
                ArbitragePaperTaskError::RecoveryRequired,
            )
        } else {
            stops(owner, ArbitragePaperTaskExit::StopRequested, false, owner.pair_seen)
        },
        ArbitrageInput::Failed(error) => aborts_and_fails(owner, arbitrage_bucket(error), error),
        _ => needs_recovery(owner),
    }
}

/// The event, up to its records and the account-risk directives.
pub open spec fn event_step(owner: ArbitrageOwner, input: ArbitrageInput) -> ArbitrageStep {
    match (owner.stage, input) {
        (ArbitrageStage::Restore, ArbitrageInput::Restored(state)) => waits(
            ArbitrageOwner { position: state, ..owner },
        ),
        (ArbitrageStage::Restore, ArbitrageInput::Failed(error)) => fails_with(owner, error),
        (ArbitrageStage::Observe, ArbitrageInput::Done) => asks(
            owner,
            ArbitrageStage::Monitor,
            ArbitrageAction::ProcessEvent,
        ),
        (ArbitrageStage::Observe, ArbitrageInput::Failed(error)) => aborts_and_fails(
            owner,
            ArbitragePaperTaskFailure::ExecutionFailed,
            error,
        ),
        (ArbitrageStage::Monitor, ArbitrageInput::Monitored { scope, pair, sample }) => monitored(
            owner,
            scope,
            pair,
            sample,
        ),
        (ArbitrageStage::Monitor, ArbitrageInput::Failed(error)) => aborts_and_fails(
            owner,
            ArbitragePaperTaskFailure::MonitorContract,
            error,
        ),
        (ArbitrageStage::Checkpoint { scope }, ArbitrageInput::Done) => {
            let shown = ArbitrageOwner { status: owner.next, runtime_failure: None, ..owner };
            if owner.risk {
                asks(
                    shown,
                    ArbitrageStage::RiskExit { polled: false, scope },
                    ArbitrageAction::ReadRiskExit { polled: false },
                )
            } else {
                plans(shown, scope)
            }
        },
        (ArbitrageStage::Checkpoint { .. }, ArbitrageInput::Failed(_)) => aborts(
            owner,
            AfterAbort::JournalGone,
        ),
        (ArbitrageStage::RiskExit { polled, scope }, _) => risk_answered(
            owner,
            polled,
            scope,
            input,
        ),
        _ => needs_recovery(owner),
    }
}

/// The plan fails; what was admitted for it is discarded first, and the lane is
/// free again.
pub open spec fn plan_fails(
    owner: ArbitrageOwner,
    admitted: bool,
    error: ArbitragePaperTaskError,
) -> ArbitrageStep {
    if admitted {
        asks(
            owner,
            ArbitrageStage::Discard { error },
            ArbitrageAction::DiscardAdmission,
        )
    } else {
        fails_with(ArbitrageOwner { leased: false, ..owner }, error)
    }
}

/// The plan, from its gates to the operation that carries it out.
pub open spec fn plan_step(owner: ArbitrageOwner, input: ArbitrageInput) -> ArbitrageStep {
    match (owner.stage, input) {
        (ArbitrageStage::Gate { scope }, ArbitrageInput::Gate(found)) => match found {
            GateFound::Open => asks(
                owner,
                ArbitrageStage::Decide { scope },
                ArbitrageAction::Decide,
            ),
            _ => waits(owner),
        },
        (ArbitrageStage::Gate { .. }, ArbitrageInput::Failed(error)) => fails(
            owner,
            ArbitragePaperTaskFailure::InvalidRequest,
            error,
        ),
        (ArbitrageStage::Decide { scope }, ArbitrageInput::Decided(decided)) => match decided {
            None => waits(owner),
            Some(kind) => if scope == PlanScope::ReduceOnly && kind
                != ArbitrageDecisionKind::Reduce {
                waits(owner)
            } else if owner.leased {
                needs_recovery(owner)
            } else {
                let held = ArbitrageOwner { leased: true, ..owner };
                if owner.risk && opens_exposure(kind) {
                    asks(held, ArbitrageStage::Admit, ArbitrageAction::AdmitOperation)
                } else {
                    asks(
                        held,
                        ArbitrageStage::Account { admitted: false },
                        ArbitrageAction::ReadAccount,
                    )
                }
            },
        },
        (ArbitrageStage::Decide { .. }, ArbitrageInput::Failed(error)) => fails_with(owner, error),
        (ArbitrageStage::Admit, ArbitrageInput::Admitted(true)) => asks(
            owner,
            ArbitrageStage::Account { admitted: true },
            ArbitrageAction::ReadAccount,
        ),
        // A durable rejection skips the opportunity.
        (ArbitrageStage::Admit, ArbitrageInput::Admitted(false)) => waits(
            ArbitrageOwner { leased: false, ..owner },
        ),
        (ArbitrageStage::Admit, ArbitrageInput::Failed(error)) => plan_fails(owner, false, error),
        (ArbitrageStage::Account { admitted }, ArbitrageInput::Done) => if owner.sequence
            == u64::MAX {
            plan_fails(owner, admitted, ArbitragePaperTaskError::InvalidRequest)
        } else {
            asks(
                owner,
                ArbitrageStage::Build { admitted },
                ArbitrageAction::BuildOperation {
                    sequence: (owner.sequence + 1) as u64,
                    admitted,
                },
            )
        },
        (ArbitrageStage::Account { admitted }, ArbitrageInput::Failed(error)) => plan_fails(
            owner,
            admitted,
            error,
        ),
        (
            ArbitrageStage::Build { admitted },
            ArbitrageInput::Built { target, signalled },
        ) => if owner.sequence == u64::MAX {
            needs_recovery(owner)
        } else {
            let numbered = ArbitrageOwner { sequence: (owner.sequence + 1) as u64, ..owner };
            if signalled {
                // A signal overtook the plan: it is dropped before it starts.
                if admitted {
                    asks(numbered, ArbitrageStage::DropPlan, ArbitrageAction::DiscardAdmission)
                } else {
                    waits(numbered)
                }
            } else {
                asks(
                    ArbitrageOwner {
                        in_flight: Some(target),
                        status: ArbitrageCounts {
                            operation_count: numbered.sequence,
                            ..owner.status
                        },
                        ..numbered
                    },
                    ArbitrageStage::Start,
                    ArbitrageAction::StartOperation,
                )
            }
        },
        (ArbitrageStage::Build { admitted }, ArbitrageInput::Failed(error)) => plan_fails(
            owner,
            admitted,
            error,
        ),
        (ArbitrageStage::Discard { error }, ArbitrageInput::Done) => fails_with(
            ArbitrageOwner { leased: false, ..owner },
            error,
        ),
        (ArbitrageStage::Discard { .. }, ArbitrageInput::Failed(error)) => fails_with(
            ArbitrageOwner { leased: false, ..owner },
            error,
        ),
        (ArbitrageStage::DropPlan, ArbitrageInput::Done) => waits(owner),
        (ArbitrageStage::DropPlan, ArbitrageInput::Failed(error)) => fails_with(owner, error),
        (ArbitrageStage::Start, ArbitrageInput::Done) => waits(owner),
        _ => needs_recovery(owner),
    }
}

/// The operation in flight, settled or cut off.
pub open spec fn settle_step(owner: ArbitrageOwner, input: ArbitrageInput) -> ArbitrageStep {
    match (owner.stage, input) {
        (ArbitrageStage::RecordClosed, ArbitrageInput::Done) => reevaluates(owner),
        (ArbitrageStage::RecordClosed, ArbitrageInput::Failed(error)) => fails(
            owner,
            ArbitragePaperTaskFailure::AccountContract,
            error,
        ),
        (ArbitrageStage::RetainFailed { error }, ArbitrageInput::Retained(false)) => fails_with(
            owner,
            error,
        ),
        (ArbitrageStage::RetainFailed { .. }, ArbitrageInput::Retained(true)) => needs_recovery(
            owner,
        ),
        (ArbitrageStage::RetainFailed { .. }, ArbitrageInput::Failed(error)) => fails_with(
            owner,
            error,
        ),
        (ArbitrageStage::Abort { after }, ArbitrageInput::Retained(false)) => goes_on(owner, after),
        (ArbitrageStage::Abort { .. }, ArbitrageInput::Retained(true)) => needs_recovery(owner),
        (ArbitrageStage::Abort { .. }, ArbitrageInput::Failed(error)) => fails_with(owner, error),
        (ArbitrageStage::DrainAbort, _) => needs_recovery(owner),
        (ArbitrageStage::CloseAbort, _) => needs_recovery(owner),
        _ => needs_recovery(owner),
    }
}

/// The sources are stopped and nothing is in flight: the position is read from
/// the account again where it decides how the owner ends.
pub open spec fn drained(owner: ArbitrageOwner, stop: StopPlan) -> ArbitrageStep {
    if stop.close {
        if owner.leased {
            needs_recovery(owner)
        } else {
            asks(
                ArbitrageOwner { leased: true, ..owner },
                ArbitrageStage::StopRestore { stop },
                ArbitrageAction::RestoreState,
            )
        }
    } else if stop.exit == ArbitragePaperTaskExit::SourceEnded {
        asks(owner, ArbitrageStage::StopRestore { stop }, ArbitrageAction::RestoreState)
    } else {
        concludes(owner, stop)
    }
}

/// Nothing is left to do but the stopped record.
pub open spec fn concludes(owner: ArbitrageOwner, stop: StopPlan) -> ArbitrageStep {
    let free = ArbitrageOwner {
        leased: if stop.close {
            false
        } else {
            owner.leased
        },
        ..owner
    };
    if stop.timed_out {
        fails(
            free,
            ArbitragePaperTaskFailure::RecoveryRequired,
            ArbitragePaperTaskError::ShutdownTimedOut,
        )
    } else {
        asks(
            free,
            ArbitrageStage::StoppedAppend { stop },
            ArbitrageAction::AppendStatus {
                phase: ArbitragePaperTaskPhase::Stopped,
                counts: owner.status,
                exit: Some(stop.exit),
                failure: None,
            },
        )
    }
}

/// The operation that was drained is settled.
pub open spec fn drain_settled(owner: ArbitrageOwner, stop: StopPlan) -> ArbitrageStep {
    drained(ArbitrageOwner { leased: false, ..owner }, stop)
}

/// The owner's way to a stop, up to the drained operation.
pub open spec fn stop_step(owner: ArbitrageOwner, input: ArbitrageInput) -> ArbitrageStep {
    match (owner.stage, input) {
        (ArbitrageStage::StopProbe { stop }, ArbitrageInput::Started(started)) => if started {
            records_stopping(owner, stop)
        } else {
            asks(owner, ArbitrageStage::StopAbort { stop }, ArbitrageAction::AbortOperation)
        },
        (ArbitrageStage::StopAbort { stop }, ArbitrageInput::Retained(kept)) => records_stopping(
            ArbitrageOwner { in_flight: None, leased: false, ..owner },
            StopPlan { needs_recovery: kept, ..stop },
        ),
        (ArbitrageStage::StopAbort { .. }, ArbitrageInput::Failed(error)) => fails_with(
            owner,
            error,
        ),
        (ArbitrageStage::StoppingAppend { stop }, ArbitrageInput::Done) => asks(
            ArbitrageOwner {
                phase: ArbitragePaperTaskPhase::Stopping,
                runtime_failure: None,
                ..owner
            },
            ArbitrageStage::SourceStop { stop },
            ArbitrageAction::StopSources,
        ),
        (ArbitrageStage::StoppingAppend { .. }, ArbitrageInput::Failed(_)) => aborts(
            owner,
            AfterAbort::JournalGone,
        ),
        (ArbitrageStage::SourceStop { stop }, ArbitrageInput::SourcesStopped { timed_out }) => {
            let stopped = StopPlan { timed_out, ..stop };
            if stop.needs_recovery {
                needs_recovery(owner)
            } else if owner.in_flight is Some {
                asks(
                    owner,
                    ArbitrageStage::Drain { stop: stopped },
                    ArbitrageAction::JoinOperation {
                        bounded: stop.close || stop.exit == ArbitragePaperTaskExit::SourceEnded,
                    },
                )
            } else {
                drained(owner, stopped)
            }
        },
        (ArbitrageStage::SourceStop { .. }, ArbitrageInput::Failed(_)) => aborts_and_fails(
            owner,
            ArbitragePaperTaskFailure::SourceContract,
            ArbitragePaperTaskError::SourceContract,
        ),
        (ArbitrageStage::Drain { .. }, ArbitrageInput::TimedOut) => asks(
            owner,
            ArbitrageStage::DrainAbort,
            ArbitrageAction::AbortOperation,
        ),
        (ArbitrageStage::Drain { stop }, ArbitrageInput::Operation(result)) => match owner.in_flight {
            None => needs_recovery(owner),
            Some(target) => match operation_error(result) {
                None => {
                    let settled = ArbitrageOwner { position: target, in_flight: None, ..owner };
                    if owner.risk && is_flat(target) {
                        asks(
                            settled,
                            ArbitrageStage::DrainRecord { stop },
                            ArbitrageAction::RecordPositionClosed,
                        )
                    } else {
                        drain_settled(settled, stop)
                    }
                },
                Some(error) => if stop.close {
                    needs_recovery(owner)
                } else {
                    fails_with(owner, error)
                },
            },
        },
        (ArbitrageStage::DrainRecord { stop }, ArbitrageInput::Done) => drain_settled(owner, stop),
        (ArbitrageStage::DrainRecord { .. }, ArbitrageInput::Failed(error)) => fails(
            owner,
            ArbitragePaperTaskFailure::AccountContract,
            error,
        ),
        _ => needs_recovery(owner),
    }
}

/// The owner's way to a stop, from the restored position on.
pub open spec fn close_step(owner: ArbitrageOwner, input: ArbitrageInput) -> ArbitrageStep {
    match (owner.stage, input) {
        (ArbitrageStage::StopRestore { stop }, ArbitrageInput::Restored(state)) => {
            let restored = ArbitrageOwner { position: state, ..owner };
            if is_flat(state) {
                concludes(restored, stop)
            } else if stop.exit == ArbitragePaperTaskExit::SourceEnded {
                needs_recovery(restored)
            } else if stop.close {
                asks(
                    restored,
                    ArbitrageStage::CloseAccount { stop },
                    ArbitrageAction::ReadAccount,
                )
            } else {
                concludes(restored, stop)
            }
        },
        (ArbitrageStage::CloseAccount { stop }, ArbitrageInput::Done) => if owner.sequence
            == u64::MAX {
            needs_recovery(owner)
        } else {
            asks(
                owner,
                ArbitrageStage::CloseBuild { stop },
                ArbitrageAction::BuildForcedClose { sequence: (owner.sequence + 1) as u64 },
            )
        },
        (ArbitrageStage::CloseAccount { .. }, ArbitrageInput::Failed(error)) => fails_with(
            owner,
            error,
        ),
        (ArbitrageStage::CloseBuild { stop }, ArbitrageInput::Built { target, .. }) => if owner.sequence
            == u64::MAX {
            needs_recovery(owner)
        } else {
            let sequence = (owner.sequence + 1) as u64;
            asks(
                ArbitrageOwner {
                    sequence,
                    in_flight: Some(target),
                    status: ArbitrageCounts { operation_count: sequence, ..owner.status },
                    ..owner
                },
                ArbitrageStage::CloseRun { stop },
                ArbitrageAction::RunForcedClose,
            )
        },
        (ArbitrageStage::CloseRun { .. }, ArbitrageInput::TimedOut) => asks(
            owner,
            ArbitrageStage::CloseAbort,
            ArbitrageAction::AbortOperation,
        ),
        (ArbitrageStage::CloseRun { stop }, ArbitrageInput::Operation(result)) => match owner.in_flight {
            Some(target) if operation_error(result) is None => asks(
                ArbitrageOwner { position: target, in_flight: None, ..owner },
                ArbitrageStage::CloseRestore { stop },
                ArbitrageAction::RestoreState,
            ),
            _ => needs_recovery(owner),
        },
        (ArbitrageStage::CloseRestore { stop }, ArbitrageInput::Restored(state)) => {
            let restored = ArbitrageOwner { position: state, ..owner };
            if !is_flat(state) {
                needs_recovery(restored)
            } else if owner.risk {
                asks(
                    restored,
                    ArbitrageStage::CloseRecord { stop },
                    ArbitrageAction::RecordPositionClosed,
                )
            } else {
                concludes(restored, stop)
            }
        },
        (ArbitrageStage::CloseRecord { stop }, ArbitrageInput::Done) => concludes(owner, stop),
        (ArbitrageStage::CloseRecord { .. }, ArbitrageInput::Failed(error)) => fails(
            owner,
            ArbitragePaperTaskFailure::AccountContract,
            error,
        ),
        _ => needs_recovery(owner),
    }
}

/// The owner's last records.
pub open spec fn final_step(owner: ArbitrageOwner, input: ArbitrageInput) -> ArbitrageStep {
    match (owner.stage, input) {
        (ArbitrageStage::StoppedAppend { stop }, ArbitrageInput::Done) => ends(
            ArbitrageOwner {
                phase: ArbitragePaperTaskPhase::Stopped,
                runtime_failure: None,
                ..owner
            },
            Ok(stop.exit),
        ),
        (ArbitrageStage::StoppedAppend { .. }, _) => ends(
            owner,
            Err(ArbitragePaperTaskError::Journal),
        ),
        (ArbitrageStage::JournalStop, _) => ends(
            ArbitrageOwner {
                runtime_failure: Some(ArbitragePaperTaskFailure::JournalUnavailable),
                ..owner
            },
            Err(ArbitragePaperTaskError::Journal),
        ),
        (ArbitrageStage::FailingStop { failure, error }, _) => asks(
            owner,
            ArbitrageStage::FailedAppend { error },
            ArbitrageAction::AppendStatus {
                phase: ArbitragePaperTaskPhase::Failed,
                counts: owner.status,
                exit: None,
                failure: Some(failure),
            },
        ),
        (ArbitrageStage::FailedAppend { error }, ArbitrageInput::Done) => ends(
            ArbitrageOwner {
                phase: ArbitragePaperTaskPhase::Failed,
                runtime_failure: None,
                ..owner
            },
            Err(error),
        ),
        (ArbitrageStage::FailedAppend { .. }, _) => ends(
            ArbitrageOwner {
                runtime_failure: Some(ArbitragePaperTaskFailure::JournalUnavailable),
                ..owner
            },
            Err(ArbitragePaperTaskError::Journal),
        ),
        _ => ends(owner, Err(ArbitragePaperTaskError::TaskCancelled)),
    }
}

/// One step of the owner. An input that the stage does not wait for fails
/// closed.
pub open spec fn owner_step(owner: ArbitrageOwner, input: ArbitrageInput) -> ArbitrageStep {
    match owner.stage {
        ArbitrageStage::Waiting => woken(owner, input),
        ArbitrageStage::Restore
        | ArbitrageStage::Observe
        | ArbitrageStage::Monitor
        | ArbitrageStage::Checkpoint { .. }
        | ArbitrageStage::RiskExit { .. } => event_step(owner, input),
        ArbitrageStage::Gate { .. }
        | ArbitrageStage::Decide { .. }
        | ArbitrageStage::Admit
        | ArbitrageStage::Account { .. }
        | ArbitrageStage::Build { .. }
        | ArbitrageStage::Discard { .. }
        | ArbitrageStage::DropPlan
        | ArbitrageStage::Start => plan_step(owner, input),
        ArbitrageStage::RecordClosed
        | ArbitrageStage::RetainFailed { .. }
        | ArbitrageStage::Abort { .. }
        | ArbitrageStage::DrainAbort
        | ArbitrageStage::CloseAbort => settle_step(owner, input),
        ArbitrageStage::StopProbe { .. }
        | ArbitrageStage::StopAbort { .. }
        | ArbitrageStage::StoppingAppend { .. }
        | ArbitrageStage::SourceStop { .. }
        | ArbitrageStage::Drain { .. }
        | ArbitrageStage::DrainRecord { .. } => stop_step(owner, input),
        ArbitrageStage::StopRestore { .. }
        | ArbitrageStage::CloseAccount { .. }
        | ArbitrageStage::CloseBuild { .. }
        | ArbitrageStage::CloseRun { .. }
        | ArbitrageStage::CloseRestore { .. }
        | ArbitrageStage::CloseRecord { .. } => close_step(owner, input),
        _ => final_step(owner, input),
    }
}

fn is_position_flat(state: &ArbitrageState) -> (r: bool)
    ensures
        r == is_flat(*state),
{
    state.position_quantity.is_zero()
}

fn ask(owner: ArbitrageOwner, stage: ArbitrageStage, action: ArbitrageAction) -> (r: ArbitrageStep)
    ensures
        r == asks(owner, stage, action),
{
    let mut next: ArbitrageOwner = owner;
    next.stage = stage;
    (next, action)
}

fn wait(owner: ArbitrageOwner) -> (r: ArbitrageStep)
    ensures
        r == waits(owner),
{
    ask(owner, ArbitrageStage::Waiting, ArbitrageAction::Wait)
}

fn end(
    owner: ArbitrageOwner,
    result: Result<ArbitragePaperTaskExit, ArbitragePaperTaskError>,
) -> (r: ArbitrageStep)
    ensures
        r == ends(owner, result),
{
    ask(owner, ArbitrageStage::Finished, ArbitrageAction::Finish(result))
}

fn fail_owner(
    owner: ArbitrageOwner,
    failure: ArbitragePaperTaskFailure,
    error: ArbitragePaperTaskError,
) -> (r: ArbitrageStep)
    ensures
        r == fails(owner, failure, error),
{
    let mut failing: ArbitrageOwner = owner;
    failing.in_flight = None;
    ask(failing, ArbitrageStage::FailingStop { failure, error }, ArbitrageAction::StopSources)
}

fn fail_closed(owner: ArbitrageOwner) -> (r: ArbitrageStep)
    ensures
        r == needs_recovery(owner),
{
    fail_owner(
        owner,
        ArbitragePaperTaskFailure::RecoveryRequired,
        ArbitragePaperTaskError::RecoveryRequired,
    )
}

fn fail_with(owner: ArbitrageOwner, error: ArbitragePaperTaskError) -> (r: ArbitrageStep)
    ensures
        r == fails_with(owner, error),
{
    fail_owner(owner, error.failure_bucket(), error)
}

fn go_on(owner: ArbitrageOwner, after: AfterAbort) -> (r: ArbitrageStep)
    ensures
        r == goes_on(owner, after),
{
    match after {
        AfterAbort::Fail { failure, error } => fail_owner(owner, failure, error),
        AfterAbort::JournalGone => {
            let mut ending: ArbitrageOwner = owner;
            ending.in_flight = None;
            ask(ending, ArbitrageStage::JournalStop, ArbitrageAction::StopSources)
        },
    }
}

fn abort_inflight(owner: ArbitrageOwner, after: AfterAbort) -> (r: ArbitrageStep)
    ensures
        r == aborts(owner, after),
{
    if owner.in_flight.is_some() {
        ask(owner, ArbitrageStage::Abort { after }, ArbitrageAction::AbortOperation)
    } else {
        go_on(owner, after)
    }
}

fn abort_and_fail(
    owner: ArbitrageOwner,
    failure: ArbitragePaperTaskFailure,
    error: ArbitragePaperTaskError,
) -> (r: ArbitrageStep)
    ensures
        r == aborts_and_fails(owner, failure, error),
{
    abort_inflight(owner, AfterAbort::Fail { failure, error })
}

fn record_stopping(owner: ArbitrageOwner, stop: StopPlan) -> (r: ArbitrageStep)
    ensures
        r == records_stopping(owner, stop),
{
    let counts: ArbitrageCounts = owner.status;
    ask(
        owner,
        ArbitrageStage::StoppingAppend { stop },
        ArbitrageAction::AppendStatus {
            phase: ArbitragePaperTaskPhase::Stopping,
            counts,
            exit: None,
            failure: None,
        },
    )
}

fn stop_owner(
    owner: ArbitrageOwner,
    exit: ArbitragePaperTaskExit,
    cancel: bool,
    close: bool,
) -> (r: ArbitrageStep)
    ensures
        r == stops(owner, exit, cancel, close),
{
    let stop: StopPlan = StopPlan { exit, close, needs_recovery: false, timed_out: false };
    if owner.in_flight.is_none() {
        record_stopping(owner, stop)
    } else if cancel {
        ask(owner, ArbitrageStage::StopAbort { stop }, ArbitrageAction::AbortOperation)
    } else {
        ask(owner, ArbitrageStage::StopProbe { stop }, ArbitrageAction::ProbeOperation)
    }
}

fn reevaluate(owner: ArbitrageOwner) -> (r: ArbitrageStep)
    ensures
        r == reevaluates(owner),
{
    let pending: Option<PlanScope> = owner.pending;
    let mut free: ArbitrageOwner = owner;
    free.leased = false;
    free.pending = None;
    match pending {
        Some(scope) => ask(free, ArbitrageStage::Gate { scope }, ArbitrageAction::ReadGate),
        None => wait(free),
    }
}

/// Takes the operation out of flight and moves the position to its target.
fn settle(owner: ArbitrageOwner) -> (r: (ArbitrageOwner, bool))
    requires
        owner.in_flight is Some,
    ensures
        r.0 == (ArbitrageOwner { position: owner.in_flight->0, in_flight: None, ..owner }),
        r.1 == is_flat(owner.in_flight->0),
{
    let mut settled: ArbitrageOwner = owner;
    let target: Option<ArbitrageState> = settled.in_flight;
    settled.in_flight = None;
    if let Some(target) = target {
        settled.position = target;
    }
    let flat: bool = is_position_flat(&settled.position);
    (settled, flat)
}

fn wake(owner: ArbitrageOwner, input: ArbitrageInput) -> (r: ArbitrageStep)
    ensures
        r == woken(owner, input),
{
    match input {
        ArbitrageInput::Signal { cancel } => stop_owner(
            owner,
            ArbitragePaperTaskExit::StopRequested,
            cancel,
            false,
        ),
        ArbitrageInput::RiskPoll => {
            if owner.risk {
                ask(
                    owner,
                    ArbitrageStage::RiskExit { polled: true, scope: None },
                    ArbitrageAction::ReadRiskExit { polled: true },
                )
            } else {
                wait(owner)
            }
        },
        ArbitrageInput::Operation(result) => {
            if owner.in_flight.is_none() {
                return end(owner, Err(ArbitragePaperTaskError::TaskCancelled));
            }
            match complete_operation(result) {
                Ok(()) => {
                    let (settled, flat): (ArbitrageOwner, bool) = settle(owner);
                    if settled.risk && flat {
                        ask(
                            settled,
                            ArbitrageStage::RecordClosed,
                            ArbitrageAction::RecordPositionClosed,
                        )
                    } else {
                        reevaluate(settled)
                    }
                },
                Err(error) => {
                    let mut failed: ArbitrageOwner = owner;
                    failed.in_flight = None;
                    ask(
                        failed,
                        ArbitrageStage::RetainFailed { error },
                        ArbitrageAction::RetainOperation,
                    )
                },
            }
        },
        ArbitrageInput::Event { signalled } => {
            if signalled {
                wait(owner)
            } else {
                ask(owner, ArbitrageStage::Observe, ArbitrageAction::ObserveEvent)
            }
        },
        ArbitrageInput::SourceEnded => stop_owner(
            owner,
            ArbitragePaperTaskExit::SourceEnded,
            false,
            false,
        ),
        ArbitrageInput::SourceFailed => abort_and_fail(
            owner,
            ArbitragePaperTaskFailure::SourceContract,
            ArbitragePaperTaskError::Source,
        ),
        _ => fail_closed(owner),
    }
}

fn coalesce(pending: Option<PlanScope>, scope: PlanScope) -> (r: PlanScope)
    ensures
        r == coalesced(pending, scope),
{
    match pending {
        Some(PlanScope::Full) => PlanScope::Full,
        _ => scope,
    }
}

fn take_monitored(
    owner: ArbitrageOwner,
    scope: Option<PlanScope>,
    pair: bool,
    sample: SampleFound,
) -> (r: ArbitrageStep)
    ensures
        r == monitored(owner, scope, pair, sample),
{
    let mut seen: ArbitrageOwner = owner;
    seen.pair_seen = seen.pair_seen || pair;
    if sample == SampleFound::Refused {
        return abort_and_fail(
            seen,
            ArbitragePaperTaskFailure::InvalidRequest,
            ArbitragePaperTaskError::Strategy,
        );
    }
    if sample == SampleFound::Overflow || seen.status.processed_event_count == u64::MAX {
        return abort_and_fail(
            seen,
            ArbitragePaperTaskFailure::MonitorContract,
            ArbitragePaperTaskError::InvalidRequest,
        );
    }
    let busy: bool = seen.in_flight.is_some();
    let opportunity: bool = match scope {
        Some(PlanScope::Full) => busy,
        _ => false,
    };
    seen.next = seen.status;
    seen.next.processed_event_count = seen.status.processed_event_count + 1;
    if let Some(scope) = scope {
        if busy {
            seen.pending = Some(coalesce(seen.pending, scope));
        }
    }
    if opportunity {
        if seen.status.coalesced_opportunity_count == u64::MAX {
            return fail_owner(
                seen,
                ArbitragePaperTaskFailure::MonitorContract,
                ArbitragePaperTaskError::InvalidRequest,
            );
        }
        seen.next.coalesced_opportunity_count = seen.status.coalesced_opportunity_count + 1;
    }
    let counts: ArbitrageCounts = seen.next;
    ask(seen, ArbitrageStage::Checkpoint { scope }, ArbitrageAction::AppendCheckpoint { counts })
}

fn plan(owner: ArbitrageOwner, scope: Option<PlanScope>) -> (r: ArbitrageStep)
    ensures
        r == plans(owner, scope),
{
    match scope {
        Some(pass) => {
            if owner.in_flight.is_none() {
                ask(owner, ArbitrageStage::Gate { scope: pass }, ArbitrageAction::ReadGate)
            } else {
                wait(owner)
            }
        },
        None => wait(owner),
    }
}

fn handle_account_risk_directive(
    owner: ArbitrageOwner,
    polled: bool,
    scope: Option<PlanScope>,
    input: ArbitrageInput,
) -> (r: ArbitrageStep)
    ensures
        r == risk_answered(owner, polled, scope, input),
{
    match input {
        ArbitrageInput::Risk(demanded) => {
            if !demanded {
                if polled {
                    return wait(owner);
                }
                return plan(owner, scope);
            }
            if !is_position_flat(&owner.position) && !owner.pair_seen {
                return abort_and_fail(
                    owner,
                    ArbitragePaperTaskFailure::RecoveryRequired,
                    ArbitragePaperTaskError::RecoveryRequired,
                );
            }
            let close: bool = owner.pair_seen;
            stop_owner(owner, ArbitragePaperTaskExit::StopRequested, false, close)
        },
        ArbitrageInput::Failed(error) => abort_and_fail(owner, error.failure_bucket(), error),
        _ => fail_closed(owner),
    }
}

fn run_event(owner: ArbitrageOwner, input: ArbitrageInput) -> (r: ArbitrageStep)
    ensures
        r == event_step(owner, input),
{
    match (owner.stage, input) {
        (ArbitrageStage::Restore, ArbitrageInput::Restored(state)) => {
            let mut restored: ArbitrageOwner = owner;
            restored.position = state;
            wait(restored)
        },
        (ArbitrageStage::Restore, ArbitrageInput::Failed(error)) => fail_with(owner, error),
        (ArbitrageStage::Observe, ArbitrageInput::Done) => ask(
            owner,
            ArbitrageStage::Monitor,
            ArbitrageAction::ProcessEvent,
        ),
        (ArbitrageStage::Observe, ArbitrageInput::Failed(error)) => abort_and_fail(
            owner,
            ArbitragePaperTaskFailure::ExecutionFailed,
            error,
        ),
        (ArbitrageStage::Monitor, ArbitrageInput::Monitored { scope, pair, sample }) => take_monitored(
            owner,
            scope,
            pair,
            sample,
        ),
        (ArbitrageStage::Monitor, ArbitrageInput::Failed(error)) => abort_and_fail(
            owner,
            ArbitragePaperTaskFailure::MonitorContract,
            error,
        ),
        (ArbitrageStage::Checkpoint { scope }, ArbitrageInput::Done) => {
            let mut shown: ArbitrageOwner = owner;
            shown.status = shown.next;
            shown.runtime_failure = None;
            if shown.risk {
                ask(
                    shown,
                    ArbitrageStage::RiskExit { polled: false, scope },
                    ArbitrageAction::ReadRiskExit { polled: false },
                )
            } else {
                plan(shown, scope)
            }
        },
        (ArbitrageStage::Checkpoint { .. }, ArbitrageInput::Failed(_)) => abort_inflight(
            owner,
            AfterAbort::JournalGone,
        ),
        (ArbitrageStage::RiskExit { polled, scope }, input) => handle_account_risk_directive(
            owner,
            polled,
            scope,
            input,
        ),
        _ => fail_closed(owner),
    }
}

fn free_lane(owner: ArbitrageOwner) -> (r: ArbitrageOwner)
    ensures
        r == (ArbitrageOwner { leased: false, ..owner }),
{
    let mut free: ArbitrageOwner = owner;
    free.leased = false;
    free
}

fn fail_plan(owner: ArbitrageOwner, admitted: bool, error: ArbitragePaperTaskError) -> (r:
    ArbitrageStep)
    ensures
        r == plan_fails(owner, admitted, error),
{
    if admitted {
        ask(owner, ArbitrageStage::Discard { error }, ArbitrageAction::DiscardAdmission)
    } else {
        fail_with(free_lane(owner), error)
    }
}

fn take_decision(owner: ArbitrageOwner, scope: PlanScope, kind: ArbitrageDecisionKind) -> (r:
    ArbitrageStep)
    ensures
        r == plan_step(
            ArbitrageOwner { stage: ArbitrageStage::Decide { scope }, ..owner },
            ArbitrageInput::Decided(Some(kind)),
        ),
{
    if scope == PlanScope::ReduceOnly && kind != ArbitrageDecisionKind::Reduce {
        return wait(owner);
    }
    if owner.leased {
        return fail_closed(owner);
    }
    let mut held: ArbitrageOwner = owner;
    held.leased = true;
    let opens: bool = kind == ArbitrageDecisionKind::Open || kind == ArbitrageDecisionKind::Increase;
    if held.risk && opens {
        ask(held, ArbitrageStage::Admit, ArbitrageAction::AdmitOperation)
    } else {
        ask(held, ArbitrageStage::Account { admitted: false }, ArbitrageAction::ReadAccount)
    }
}

fn start_built(
    owner: ArbitrageOwner,
    admitted: bool,
    target: ArbitrageState,
    signalled: bool,
) -> (r: ArbitrageStep)
    ensures
        r == plan_step(
            ArbitrageOwner { stage: ArbitrageStage::Build { admitted }, ..owner },
            ArbitrageInput::Built { target, signalled },
        ),
{
    if owner.sequence == u64::MAX {
        return fail_closed(owner);
    }
    let mut numbered: ArbitrageOwner = owner;
    numbered.sequence = numbered.sequence + 1;
    if signalled {
        if admitted {
            return ask(numbered, ArbitrageStage::DropPlan, ArbitrageAction::DiscardAdmission);
        }
        return wait(numbered);
    }
    numbered.in_flight = Some(target);
    numbered.status.operation_count = numbered.sequence;
    ask(numbered, ArbitrageStage::Start, ArbitrageAction::StartOperation)
}

fn plan_latest_operation(owner: ArbitrageOwner, input: ArbitrageInput) -> (r: ArbitrageStep)
    ensures
        r == plan_step(owner, input),
{
    match (owner.stage, input) {
        (ArbitrageStage::Gate { scope }, ArbitrageInput::Gate(found)) => match found {
            GateFound::Open => ask(owner, ArbitrageStage::Decide { scope }, ArbitrageAction::Decide),
            _ => wait(owner),
        },
        (ArbitrageStage::Gate { .. }, ArbitrageInput::Failed(error)) => fail_owner(
            owner,
            ArbitragePaperTaskFailure::InvalidRequest,
            error,
        ),
        (ArbitrageStage::Decide { scope }, ArbitrageInput::Decided(decided)) => match decided {
            None => wait(owner),
            Some(kind) => take_decision(owner, scope, kind),
        },
        (ArbitrageStage::Decide { .. }, ArbitrageInput::Failed(error)) => fail_with(owner, error),
        (ArbitrageStage::Admit, ArbitrageInput::Admitted(admitted)) => {
            if admitted {
                ask(owner, ArbitrageStage::Account { admitted: true }, ArbitrageAction::ReadAccount)
            } else {
                wait(free_lane(owner))
            }
        },
        (ArbitrageStage::Admit, ArbitrageInput::Failed(error)) => fail_plan(owner, false, error),
        (ArbitrageStage::Account { admitted }, ArbitrageInput::Done) => {
            if owner.sequence == u64::MAX {
                return fail_plan(owner, admitted, ArbitragePaperTaskError::InvalidRequest);
            }
            let sequence: u64 = owner.sequence + 1;
            ask(
                owner,
                ArbitrageStage::Build { admitted },
                ArbitrageAction::BuildOperation { sequence, admitted },
            )
        },
        (ArbitrageStage::Account { admitted }, ArbitrageInput::Failed(error)) => fail_plan(
            owner,
            admitted,
            error,
        ),
        (
            ArbitrageStage::Build { admitted },
            ArbitrageInput::Built { target, signalled },
        ) => start_built(owner, admitted, target, signalled),
        (ArbitrageStage::Build { admitted }, ArbitrageInput::Failed(error)) => fail_plan(
            owner,
            admitted,
            error,
        ),
        (ArbitrageStage::Discard { error }, ArbitrageInput::Done) => fail_with(
            free_lane(owner),
            error,
        ),
        (ArbitrageStage::Discard { .. }, ArbitrageInput::Failed(error)) => fail_with(
            free_lane(owner),
            error,
        ),
        (ArbitrageStage::DropPlan, ArbitrageInput::Done) => wait(owner),
        (ArbitrageStage::DropPlan, ArbitrageInput::Failed(error)) => fail_with(owner, error),
        (ArbitrageStage::Start, ArbitrageInput::Done) => wait(owner),
        _ => fail_closed(owner),
    }
}

fn settle_operation(owner: ArbitrageOwner, input: ArbitrageInput) -> (r: ArbitrageStep)
    ensures
        r == settle_step(owner, input),
{
    match (owner.stage, input) {
        (ArbitrageStage::RecordClosed, ArbitrageInput::Done) => reevaluate(owner),
        (ArbitrageStage::RecordClosed, ArbitrageInput::Failed(error)) => fail_owner(
            owner,
            ArbitragePaperTaskFailure::AccountContract,
            error,
        ),
        (ArbitrageStage::RetainFailed { error }, ArbitrageInput::Retained(kept)) => {
            if kept {
                fail_closed(owner)
            } else {
                fail_with(owner, error)
            }
        },
        (ArbitrageStage::RetainFailed { .. }, ArbitrageInput::Failed(error)) => fail_with(
            owner,
            error,
        ),
        (ArbitrageStage::Abort { after }, ArbitrageInput::Retained(kept)) => {
            if kept {
                fail_closed(owner)
            } else {
                go_on(owner, after)
            }
        },
        (ArbitrageStage::Abort { .. }, ArbitrageInput::Failed(error)) => fail_with(owner, error),
        _ => fail_closed(owner),
    }
}

fn conclude(owner: ArbitrageOwner, stop: StopPlan) -> (r: ArbitrageStep)
    ensures
        r == concludes(owner, stop),
{
    let counts: ArbitrageCounts = owner.status;
    let mut free: ArbitrageOwner = owner;
    if stop.close {
        free.leased = false;
    }
    if stop.timed_out {
        return fail_owner(
            free,
            ArbitragePaperTaskFailure::RecoveryRequired,
            ArbitragePaperTaskError::ShutdownTimedOut,
        );
    }
    ask(
        free,
        ArbitrageStage::StoppedAppend { stop },
        ArbitrageAction::AppendStatus {
            phase: ArbitragePaperTaskPhase::Stopped,
            counts,
            exit: Some(stop.exit),
            failure: None,
        },
    )
}

fn go_on_drained(owner: ArbitrageOwner, stop: StopPlan) -> (r: ArbitrageStep)
    ensures
        r == drained(owner, stop),
{
    if stop.close {
        if owner.leased {
            return fail_closed(owner);
        }
        let mut held: ArbitrageOwner = owner;
        held.leased = true;
        return ask(held, ArbitrageStage::StopRestore { stop }, ArbitrageAction::RestoreState);
    }
    if stop.exit == ArbitragePaperTaskExit::SourceEnded {
        return ask(owner, ArbitrageStage::StopRestore { stop }, ArbitrageAction::RestoreState);
    }
    conclude(owner, stop)
}

fn drain_operation(owner: ArbitrageOwner, input: ArbitrageInput) -> (r: ArbitrageStep)
    ensures
        r == stop_step(owner, input),
{
    match (owner.stage, input) {
        (ArbitrageStage::StopProbe { stop }, ArbitrageInput::Started(started)) => {
            if started {
                record_stopping(owner, stop)
            } else {
                ask(owner, ArbitrageStage::StopAbort { stop }, ArbitrageAction::AbortOperation)
            }
        },
        (ArbitrageStage::StopAbort { stop }, ArbitrageInput::Retained(kept)) => {
            let mut cut: ArbitrageOwner = owner;
            cut.in_flight = None;
            cut.leased = false;
            let mut after: StopPlan = stop;
            after.needs_recovery = kept;
            record_stopping(cut, after)
        },
        (ArbitrageStage::StopAbort { .. }, ArbitrageInput::Failed(error)) => fail_with(owner, error),
        (ArbitrageStage::StoppingAppend { stop }, ArbitrageInput::Done) => {
            let mut stopping: ArbitrageOwner = owner;
            stopping.phase = ArbitragePaperTaskPhase::Stopping;
            stopping.runtime_failure = None;
            ask(stopping, ArbitrageStage::SourceStop { stop }, ArbitrageAction::StopSources)
        },
        (ArbitrageStage::StoppingAppend { .. }, ArbitrageInput::Failed(_)) => abort_inflight(
            owner,
            AfterAbort::JournalGone,
        ),
        (ArbitrageStage::SourceStop { stop }, ArbitrageInput::SourcesStopped { timed_out }) => {
            if stop.needs_recovery {
                return fail_closed(owner);
            }
            let mut stopped: StopPlan = stop;
            stopped.timed_out = timed_out;
            if owner.in_flight.is_some() {
                let bounded: bool = stop.close || stop.exit == ArbitragePaperTaskExit::SourceEnded;
                ask(
                    owner,
                    ArbitrageStage::Drain { stop: stopped },
                    ArbitrageAction::JoinOperation { bounded },
                )
            } else {
                go_on_drained(owner, stopped)
            }
        },
        (ArbitrageStage::SourceStop { .. }, ArbitrageInput::Failed(_)) => abort_and_fail(
            owner,
            ArbitragePaperTaskFailure::SourceContract,
            ArbitragePaperTaskError::SourceContract,
        ),
        (ArbitrageStage::Drain { .. }, ArbitrageInput::TimedOut) => ask(
            owner,
            ArbitrageStage::DrainAbort,
            ArbitrageAction::AbortOperation,
        ),
        (ArbitrageStage::Drain { stop }, ArbitrageInput::Operation(result)) => {
            if owner.in_flight.is_none() {
                return fail_closed(owner);
            }
            match complete_operation(result) {
                Ok(()) => {
                    let (settled, flat): (ArbitrageOwner, bool) = settle(owner);
                    if settled.risk && flat {
                        ask(
                            settled,
                            ArbitrageStage::DrainRecord { stop },
                            ArbitrageAction::RecordPositionClosed,
                        )
                    } else {
                        go_on_drained(free_lane(settled), stop)
                    }
                },
                Err(error) => {
                    if stop.close {
                        fail_closed(owner)
                    } else {
                        fail_with(owner, error)
                    }
                },
            }
        },
        (ArbitrageStage::DrainRecord { stop }, ArbitrageInput::Done) => go_on_drained(
            free_lane(owner),
            stop,
        ),
        (ArbitrageStage::DrainRecord { .. }, ArbitrageInput::Failed(error)) => fail_owner(
            owner,
            ArbitragePaperTaskFailure::AccountContract,
            error,
        ),
        _ => fail_closed(owner),
    }
}

fn close_position(owner: ArbitrageOwner, input: ArbitrageInput) -> (r: ArbitrageStep)
    ensures
        r == close_step(owner, input),
{
    match (owner.stage, input) {
        (ArbitrageStage::StopRestore { stop }, ArbitrageInput::Restored(state)) => {
            let flat: bool = is_position_flat(&state);
            let mut restored: ArbitrageOwner = owner;
            restored.position = state;
            if flat {
                conclude(restored, stop)
            } else if stop.exit == ArbitragePaperTaskExit::SourceEnded {
                fail_closed(restored)
            } else if stop.close {
                ask(restored, ArbitrageStage::CloseAccount { stop }, ArbitrageAction::ReadAccount)
            } else {
                conclude(restored, stop)
            }
        },
        (ArbitrageStage::CloseAccount { stop }, ArbitrageInput::Done) => {
            if owner.sequence == u64::MAX {
                return fail_closed(owner);
            }
            let sequence: u64 = owner.sequence + 1;
            ask(
                owner,
                ArbitrageStage::CloseBuild { stop },
                ArbitrageAction::BuildForcedClose { sequence },
            )
        },
        (ArbitrageStage::CloseAccount { .. }, ArbitrageInput::Failed(error)) => fail_with(
            owner,
            error,
        ),
        (ArbitrageStage::CloseBuild { stop }, ArbitrageInput::Built { target, .. }) => {
            if owner.sequence == u64::MAX {
                return fail_closed(owner);
            }
            let mut closing: ArbitrageOwner = owner;
            closing.sequence = closing.sequence + 1;
            closing.in_flight = Some(target);
            closing.status.operation_count = closing.sequence;
            ask(closing, ArbitrageStage::CloseRun { stop }, ArbitrageAction::RunForcedClose)
        },
        (ArbitrageStage::CloseRun { .. }, ArbitrageInput::TimedOut) => ask(
            owner,
            ArbitrageStage::CloseAbort,
            ArbitrageAction::AbortOperation,
        ),
        (ArbitrageStage::CloseRun { stop }, ArbitrageInput::Operation(result)) => {
            if owner.in_flight.is_none() || complete_operation(result).is_err() {
                return fail_closed(owner);
            }
            let (settled, _): (ArbitrageOwner, bool) = settle(owner);
            ask(settled, ArbitrageStage::CloseRestore { stop }, ArbitrageAction::RestoreState)
        },
        (ArbitrageStage::CloseRestore { stop }, ArbitrageInput::Restored(state)) => {
            let flat: bool = is_position_flat(&state);
            let mut restored: ArbitrageOwner = owner;
            restored.position = state;
            if !flat {
                fail_closed(restored)
            } else if restored.risk {
                ask(
                    restored,
                    ArbitrageStage::CloseRecord { stop },
                    ArbitrageAction::RecordPositionClosed,
                )
            } else {
                conclude(restored, stop)
            }
        },
        (ArbitrageStage::CloseRecord { stop }, ArbitrageInput::Done) => conclude(owner, stop),
        (ArbitrageStage::CloseRecord { .. }, ArbitrageInput::Failed(error)) => fail_owner(
            owner,
            ArbitragePaperTaskFailure::AccountContract,
            error,
        ),
        _ => fail_closed(owner),
    }
}

fn record_end(owner: ArbitrageOwner, input: ArbitrageInput) -> (r: ArbitrageStep)
    ensures
        r == final_step(owner, input),
{
    let counts: ArbitrageCounts = owner.status;
    let mut ended: ArbitrageOwner = owner;
    match (ended.stage, input) {
        (ArbitrageStage::StoppedAppend { stop }, ArbitrageInput::Done) => {
            ended.phase = ArbitragePaperTaskPhase::Stopped;
            ended.runtime_failure = None;
            end(ended, Ok(stop.exit))
        },
        (ArbitrageStage::StoppedAppend { .. }, _) => end(
            ended,
            Err(ArbitragePaperTaskError::Journal),
        ),
        (ArbitrageStage::JournalStop, _) => {
            ended.runtime_failure = Some(ArbitragePaperTaskFailure::JournalUnavailable);
            end(ended, Err(ArbitragePaperTaskError::Journal))
        },
        (ArbitrageStage::FailingStop { failure, error }, _) => ask(
            ended,
            ArbitrageStage::FailedAppend { error },
            ArbitrageAction::AppendStatus {
                phase: ArbitragePaperTaskPhase::Failed,
                counts,
                exit: None,
                failure: Some(failure),
            },
        ),
        (ArbitrageStage::FailedAppend { error }, ArbitrageInput::Done) => {
            ended.phase = ArbitragePaperTaskPhase::Failed;
            ended.runtime_failure = None;
            end(ended, Err(error))
        },
        (ArbitrageStage::FailedAppend { .. }, _) => {
            ended.runtime_failure = Some(ArbitragePaperTaskFailure::JournalUnavailable);
            end(ended, Err(ArbitragePaperTaskError::Journal))
        },
        _ => end(ended, Err(ArbitragePaperTaskError::TaskCancelled)),
    }
}

impl ArbitrageOwner {
    /// The owner of a pair that continues from an operation number; its first
    /// action reads its position from the account.
    pub fn start(risk: bool, sequence: u64) -> (r: ArbitrageStep)
        ensures
            r.0.risk == risk,
            r.0.sequence == sequence,
            r.0.stage == ArbitrageStage::Restore,
            r.0.phase == ArbitragePaperTaskPhase::Running,
            r.0.status == (ArbitrageCounts {
                processed_event_count: 0,
                operation_count: sequence,
                coalesced_opportunity_count: 0,
            }),
            r.0.next == r.0.status,
            r.0.runtime_failure is None,
            is_flat(r.0.position),
            r.0.in_flight is None,
            !r.0.leased,
            r.0.pending is None,
            !r.0.pair_seen,
            r.1 is RestoreState,
    {
        let counts: ArbitrageCounts = ArbitrageCounts {
            processed_event_count: 0,
            operation_count: sequence,
            coalesced_opportunity_count: 0,
        };
        let owner: ArbitrageOwner = ArbitrageOwner {
            risk,
            stage: ArbitrageStage::Restore,
            phase: ArbitragePaperTaskPhase::Running,
            status: counts,
            runtime_failure: None,
            next: counts,
            sequence,
            position: ArbitrageState { position_quantity: Decimal::zero(), direction: None },
            in_flight: None,
            leased: false,
            pending: None,
            pair_seen: false,
        };
        (owner, ArbitrageAction::RestoreState)
    }

    /// Takes what came of the last action and says what to do next.
    pub fn step(self, input: ArbitrageInput) -> (r: ArbitrageStep)
        ensures
            r == owner_step(self, input),
    {
        match self.stage {
            ArbitrageStage::Waiting => wake(self, input),
            ArbitrageStage::Restore
            | ArbitrageStage::Observe
            | ArbitrageStage::Monitor
            | ArbitrageStage::Checkpoint { .. }
            | ArbitrageStage::RiskExit { .. } => run_event(self, input),
            ArbitrageStage::Gate { .. }
            | ArbitrageStage::Decide { .. }
            | ArbitrageStage::Admit
            | ArbitrageStage::Account { .. }
            | ArbitrageStage::Build { .. }
            | ArbitrageStage::Discard { .. }
            | ArbitrageStage::DropPlan
            | ArbitrageStage::Start => plan_latest_operation(self, input),
            ArbitrageStage::RecordClosed
            | ArbitrageStage::RetainFailed { .. }
            | ArbitrageStage::Abort { .. }
            | ArbitrageStage::DrainAbort
            | ArbitrageStage::CloseAbort => settle_operation(self, input),
            ArbitrageStage::StopProbe { .. }
            | ArbitrageStage::StopAbort { .. }
            | ArbitrageStage::StoppingAppend { .. }
            | ArbitrageStage::SourceStop { .. }
            | ArbitrageStage::Drain { .. }
            | ArbitrageStage::DrainRecord { .. } => drain_operation(self, input),
            ArbitrageStage::StopRestore { .. }
            | ArbitrageStage::CloseAccount { .. }
            | ArbitrageStage::CloseBuild { .. }
            | ArbitrageStage::CloseRun { .. }
            | ArbitrageStage::CloseRestore { .. }
            | ArbitrageStage::CloseRecord { .. } => close_position(self, input),
            _ => record_end(self, input),
        }
    }
}

} // verus!
