//! The run of one live campaign, step by step.
//!
//! The run asks for one action at a time: a fact to append, a request to the
//! venue, a pause, or the end. What came of the action is the next input. A
//! fresh run makes its plan durable before anything else and submits once; a
//! run that finds a durable plan queries first and never submits.

use crate::domain::{ExchangeError, Order, OrderIntent, OrderStatus};
use crate::live_lifecycle::{
    active_status, defers_confirmation, foreign_count, has_observation_query_budget,
    is_active_status, notional_of, observation_budget_left, observation_matches, refusal_for,
    refusal_label, should_defer_cancel_confirmation, valid_order, validate_order, weigh_admission,
    AdmissionFact, CancelReason, LiveAdmissionRefusal, LiveAdmissionTruth, LiveLifecycleConfig,
    LiveLifecycleError, LiveLifecycleObservation, LiveLifecycleSettings,
};
use crate::ids::id_text;
use crate::live_projection::{decision_label, LifecycleDecision, ProjectedCampaign};
use crate::text::same_text;
use crate::timestamp::Timestamp;
use vstd::prelude::*;

verus! {

/// Why the owner asks for the state of its order.
#[derive(Clone, Copy, Debug, PartialEq, Eq, Structural)]
pub enum QueryPurpose {
    Recovery,
    SubmitRecovery,
    PostSubmit,
    Observation,
    PostCancel,
}

pub open spec fn purpose_label(purpose: QueryPurpose) -> Seq<char> {
    match purpose {
        QueryPurpose::Recovery => "recovery_query"@,
        QueryPurpose::SubmitRecovery => "submit_recovery_query"@,
        QueryPurpose::PostSubmit => "post_submit_query"@,
        QueryPurpose::Observation => "observation_query"@,
        QueryPurpose::PostCancel => "post_cancel_query"@,
    }
}

impl QueryPurpose {
    pub fn label(self) -> (r: &'static str)
        ensures
            r@ == purpose_label(self),
    {
        match self {
            QueryPurpose::Recovery => "recovery_query",
            QueryPurpose::SubmitRecovery => "submit_recovery_query",
            QueryPurpose::PostSubmit => "post_submit_query",
            QueryPurpose::Observation => "observation_query",
            QueryPurpose::PostCancel => "post_cancel_query",
        }
    }
}

/// Which request left its outcome open.
#[derive(Clone, Copy, Debug, PartialEq, Eq, Structural)]
pub enum OpenPhase {
    SubmitDispatch,
    CancelDispatch,
    CancelConfirmation,
    Query(QueryPurpose),
}

pub open spec fn open_phase_label(phase: OpenPhase) -> Seq<char> {
    match phase {
        OpenPhase::SubmitDispatch => "submit_dispatch"@,
        OpenPhase::CancelDispatch => "cancel_dispatch"@,
        OpenPhase::CancelConfirmation => "cancel_confirmation"@,
        OpenPhase::Query(purpose) => purpose_label(purpose),
    }
}

impl OpenPhase {
    pub fn label(self) -> (r: &'static str)
        ensures
            r@ == open_phase_label(self),
    {
        match self {
            OpenPhase::SubmitDispatch => "submit_dispatch",
            OpenPhase::CancelDispatch => "cancel_dispatch",
            OpenPhase::CancelConfirmation => "cancel_confirmation",
            OpenPhase::Query(purpose) => purpose.label(),
        }
    }
}

/// Why a campaign is recorded as failed.
#[derive(Clone, Copy, Debug, PartialEq, Eq, Structural)]
pub enum LifecycleFailure {
    AdmissionReadFailed,
    Refused(LiveAdmissionRefusal),
    SubmitRejected,
    ObservationNotReached,
    UnexpectedTerminalOrder,
    CancelledBeforeCleanup,
    TerminalBeforeCancel,
    TerminalDuringCancel,
}

pub open spec fn failure_label(failure: LifecycleFailure) -> Seq<char> {
    match failure {
        LifecycleFailure::AdmissionReadFailed => "admission_read_failed"@,
        LifecycleFailure::Refused(refusal) => refusal_label(refusal),
        LifecycleFailure::SubmitRejected => "submit_rejected"@,
        LifecycleFailure::ObservationNotReached => "expected_observation_not_reached"@,
        LifecycleFailure::UnexpectedTerminalOrder => "unexpected_terminal_order"@,
        LifecycleFailure::CancelledBeforeCleanup => "order_cancelled_before_owner_cleanup"@,
        LifecycleFailure::TerminalBeforeCancel => "order_terminal_before_cancel"@,
        LifecycleFailure::TerminalDuringCancel => "order_terminal_during_cancel"@,
    }
}

impl LifecycleFailure {
    pub fn label(self) -> (r: &'static str)
        ensures
            r@ == failure_label(self),
    {
        match self {
            LifecycleFailure::AdmissionReadFailed => "admission_read_failed",
            LifecycleFailure::Refused(refusal) => refusal.label(),
            LifecycleFailure::SubmitRejected => "submit_rejected",
            LifecycleFailure::ObservationNotReached => "expected_observation_not_reached",
            LifecycleFailure::UnexpectedTerminalOrder => "unexpected_terminal_order",
            LifecycleFailure::CancelledBeforeCleanup => "order_cancelled_before_owner_cleanup",
            LifecycleFailure::TerminalBeforeCancel => "order_terminal_before_cancel",
            LifecycleFailure::TerminalDuringCancel => "order_terminal_during_cancel",
        }
    }
}

/// One durable fact of the campaign.
#[allow(inconsistent_fields)]
#[derive(Debug)]
pub enum LifecycleFact {
    Planned,
    Resumed,
    AdmissionObserved(AdmissionFact),
    QueryPlanned { purpose: QueryPurpose, query_sequence: u32 },
    SubmitObserved { order: Order },
    QueryObserved { purpose: QueryPurpose, order: Order, query_sequence: u32 },
    CancelPlanned { server_order_id: String, reason: CancelReason },
    CancelObserved { order: Order },
    OutcomeUnknown { phase: OpenPhase, error: ExchangeError },
    QueryBudgetExhausted { phase: OpenPhase, query_count: u32 },
    CancelNotTerminal { server_order_id: String, status: OrderStatus },
    Completed { order: Order },
    Failed {
        failure: LifecycleFailure,
        order: Option<Order>,
        exchange_failure: Option<ExchangeError>,
    },
    KillSwitchEngaged { failure: LifecycleFailure },
}

/// The kind of a fact.
pub open spec fn fact_decision(fact: LifecycleFact) -> LifecycleDecision {
    match fact {
        LifecycleFact::Planned => LifecycleDecision::Planned,
        LifecycleFact::Resumed => LifecycleDecision::Resumed,
        LifecycleFact::AdmissionObserved(_) => LifecycleDecision::AdmissionObserved,
        LifecycleFact::QueryPlanned { .. } => LifecycleDecision::QueryPlanned,
        LifecycleFact::SubmitObserved { .. } => LifecycleDecision::SubmitObserved,
        LifecycleFact::QueryObserved { .. } => LifecycleDecision::QueryObserved,
        LifecycleFact::CancelPlanned { .. } => LifecycleDecision::CancelPlanned,
        LifecycleFact::CancelObserved { .. } => LifecycleDecision::CancelObserved,
        LifecycleFact::OutcomeUnknown { .. } => LifecycleDecision::OutcomeUnknown,
        LifecycleFact::QueryBudgetExhausted { .. } => LifecycleDecision::OutcomeUnknown,
        LifecycleFact::CancelNotTerminal { .. } => LifecycleDecision::OutcomeUnknown,
        LifecycleFact::Completed { .. } => LifecycleDecision::Completed,
        LifecycleFact::Failed { .. } => LifecycleDecision::Failed,
        LifecycleFact::KillSwitchEngaged { .. } => LifecycleDecision::KillSwitchEngaged,
    }
}

/// The phase that a fact is recorded under.
pub open spec fn fact_phase(fact: LifecycleFact) -> Seq<char> {
    match fact {
        LifecycleFact::Planned => "planned"@,
        LifecycleFact::Resumed => "recovery_started"@,
        LifecycleFact::AdmissionObserved(_) => "admission"@,
        LifecycleFact::QueryPlanned { purpose, .. } => purpose_label(purpose),
        LifecycleFact::SubmitObserved { .. } => "submitted"@,
        LifecycleFact::QueryObserved { purpose, .. } => purpose_label(purpose),
        LifecycleFact::CancelPlanned { .. } => "cancel_planned"@,
        LifecycleFact::CancelObserved { .. } => "cancel_observed"@,
        LifecycleFact::OutcomeUnknown { phase, .. } => open_phase_label(phase),
        LifecycleFact::QueryBudgetExhausted { phase, .. } => open_phase_label(phase),
        LifecycleFact::CancelNotTerminal { .. } => "cancel_not_terminal"@,
        LifecycleFact::Completed { .. } => "completed"@,
        LifecycleFact::Failed { .. } => "failed"@,
        LifecycleFact::KillSwitchEngaged { .. } => "kill_switch_engaged"@,
    }
}

impl LifecycleFact {
    /// The label of the fact's kind.
    pub fn decision(&self) -> (r: &'static str)
        ensures
            r@ == decision_label(fact_decision(*self)),
    {
        let decision: LifecycleDecision = match self {
            LifecycleFact::Planned => LifecycleDecision::Planned,
            LifecycleFact::Resumed => LifecycleDecision::Resumed,
            LifecycleFact::AdmissionObserved(_) => LifecycleDecision::AdmissionObserved,
            LifecycleFact::QueryPlanned { .. } => LifecycleDecision::QueryPlanned,
            LifecycleFact::SubmitObserved { .. } => LifecycleDecision::SubmitObserved,
            LifecycleFact::QueryObserved { .. } => LifecycleDecision::QueryObserved,
            LifecycleFact::CancelPlanned { .. } => LifecycleDecision::CancelPlanned,
            LifecycleFact::CancelObserved { .. } => LifecycleDecision::CancelObserved,
            LifecycleFact::OutcomeUnknown { .. } => LifecycleDecision::OutcomeUnknown,
            LifecycleFact::QueryBudgetExhausted { .. } => LifecycleDecision::OutcomeUnknown,
            LifecycleFact::CancelNotTerminal { .. } => LifecycleDecision::OutcomeUnknown,
            LifecycleFact::Completed { .. } => LifecycleDecision::Completed,
            LifecycleFact::Failed { .. } => LifecycleDecision::Failed,
            LifecycleFact::KillSwitchEngaged { .. } => LifecycleDecision::KillSwitchEngaged,
        };
        decision.label()
    }

    /// The phase that the fact is recorded under.
    pub fn phase(&self) -> (r: &'static str)
        ensures
            r@ == fact_phase(*self),
    {
        match self {
            LifecycleFact::Planned => "planned",
            LifecycleFact::Resumed => "recovery_started",
            LifecycleFact::AdmissionObserved(_) => "admission",
            LifecycleFact::QueryPlanned { purpose, .. } => purpose.label(),
            LifecycleFact::SubmitObserved { .. } => "submitted",
            LifecycleFact::QueryObserved { purpose, .. } => purpose.label(),
            LifecycleFact::CancelPlanned { .. } => "cancel_planned",
            LifecycleFact::CancelObserved { .. } => "cancel_observed",
            LifecycleFact::OutcomeUnknown { phase, .. } => phase.label(),
            LifecycleFact::QueryBudgetExhausted { phase, .. } => phase.label(),
            LifecycleFact::CancelNotTerminal { .. } => "cancel_not_terminal",
            LifecycleFact::Completed { .. } => "completed",
            LifecycleFact::Failed { .. } => "failed",
            LifecycleFact::KillSwitchEngaged { .. } => "kill_switch_engaged",
        }
    }
}

/// Durable proof returned only after a final query observes cancellation.
#[derive(Debug)]
pub struct LiveLifecycleReport {
    pub campaign_id: String,
    pub client_order_id: u128,
    pub server_order_id: String,
    pub expected_observation: LiveLifecycleObservation,
    pub final_status: OrderStatus,
    pub query_count: u32,
    pub recovered: bool,
}

/// What the run waits for.
#[derive(Debug)]
pub enum LifecycleStage {
    PlanAppend,
    ResumeAppend,
    Admission,
    AdmissionAppend { refusal: Option<LiveAdmissionRefusal> },
    FilterCheck { refusal: Option<LiveAdmissionRefusal> },
    Submit,
    SubmitAppend,
    SubmitUnknownAppend,
    QueryPlanAppend(QueryPurpose),
    Query(QueryPurpose),
    QueryAppend(QueryPurpose),
    Pause,
    CancelPlanAppend,
    Cancel,
    CancelAppend,
    CancelUnknownAppend { deferred: bool },
    CompleteAppend,
    UnsafeAppend { failure: LifecycleFailure, status: OrderStatus },
    LastAppend(LiveLifecycleError),
    Finished,
}

/// The state of a run.
#[derive(Debug)]
pub struct LifecycleRun {
    pub stage: LifecycleStage,
    pub recovered: bool,
    pub query_count: u32,
    /// The reason of a cancel plan that an earlier run made durable.
    pub cancel_reason: Option<CancelReason>,
    pub observation_satisfied: bool,
    /// The order that the run acts on.
    pub order: Option<Order>,
    /// The order of the query that is about to be recorded.
    pub latest: Option<Order>,
    /// The reason of the cleanup that the run is in.
    pub cleanup: Option<CancelReason>,
}

/// What the run asks for.
#[derive(Debug)]
pub enum LifecycleAction {
    Append(LifecycleFact),
    SampleAdmission,
    /// The venue's filters are asked about this order.
    CheckFilters { intent: OrderIntent },
    /// This order is submitted.
    Submit { intent: OrderIntent },
    /// The one order with this symbol and this identifier is queried.
    Query { symbol: String, client_order_id: u128 },
    Cancel { order_id: String },
    /// The next query waits for this long.
    Pause { nanos: u128 },
    Finish(Result<LiveLifecycleReport, LiveLifecycleError>),
}

/// What came of the action.
#[derive(Debug)]
pub enum LifecycleInput {
    /// The fact is durable, or could not be made so.
    Appended(bool),
    Admission(Result<LiveAdmissionTruth, ExchangeError>),
    /// The venue's filters pass the order, or refuse it.
    Filters(Result<(), ExchangeError>),
    /// What the venue answered to the submit, the query or the cancel.
    Answered(Result<Order, ExchangeError>),
    Paused,
}

/// The next state and what it asks for.
pub type LifecycleStep = (LifecycleRun, LifecycleAction);

pub open spec fn report_of(
    settings: LiveLifecycleSettings,
    order: Order,
    query_count: u32,
    recovered: bool,
) -> LiveLifecycleReport {
    LiveLifecycleReport {
        campaign_id: settings.campaign_id,
        client_order_id: settings.intent.client_order_id,
        server_order_id: order.id,
        expected_observation: settings.expected_observation,
        final_status: order.status,
        query_count,
        recovered,
    }
}

pub fn report(
    config: &LiveLifecycleConfig,
    order: &Order,
    query_count: u32,
    recovered: bool,
) -> (r: LiveLifecycleReport)
    ensures
        r == report_of(config@, *order, query_count, recovered),
{
    LiveLifecycleReport {
        campaign_id: config.owned_campaign_id(),
        client_order_id: config.intent().client_order_id,
        server_order_id: order.id.clone(),
        expected_observation: config.expected_observation(),
        final_status: order.status,
        query_count,
        recovered,
    }
}

/// The run is over.
pub open spec fn finished(
    run: LifecycleRun,
    result: Result<LiveLifecycleReport, LiveLifecycleError>,
) -> LifecycleStep {
    (LifecycleRun { stage: LifecycleStage::Finished, ..run }, LifecycleAction::Finish(result))
}

/// The run appends a fact and then goes on in `stage`.
pub open spec fn appending(
    run: LifecycleRun,
    stage: LifecycleStage,
    fact: LifecycleFact,
) -> LifecycleStep {
    (LifecycleRun { stage, ..run }, LifecycleAction::Append(fact))
}

/// The run ends with `error` once `fact` is durable.
pub open spec fn failing(
    run: LifecycleRun,
    fact: LifecycleFact,
    error: LiveLifecycleError,
) -> LifecycleStep {
    appending(run, LifecycleStage::LastAppend(error), fact)
}

/// The run records a terminal state that it did not bring about, and latches
/// the journal after that.
pub open spec fn unsafe_terminal(
    run: LifecycleRun,
    failure: LifecycleFailure,
    order: Order,
) -> LifecycleStep {
    appending(
        run,
        LifecycleStage::UnsafeAppend { failure, status: order.status },
        LifecycleFact::Failed { failure, order: Some(order), exchange_failure: None },
    )
}

/// The run plans its next query, unless the budget is used up.
pub open spec fn query_planned(
    settings: LiveLifecycleSettings,
    run: LifecycleRun,
    purpose: QueryPurpose,
) -> LifecycleStep {
    if run.query_count >= settings.maximum_queries {
        failing(
            run,
            LifecycleFact::QueryBudgetExhausted {
                phase: OpenPhase::Query(purpose),
                query_count: run.query_count,
            },
            LiveLifecycleError::QueryBudgetExhausted,
        )
    } else {
        appending(
            run,
            LifecycleStage::QueryPlanAppend(purpose),
            LifecycleFact::QueryPlanned {
                purpose,
                query_sequence: (run.query_count + 1) as u32,
            },
        )
    }
}

/// The cancel is confirmed: the campaign is completed, or failed where its
/// observation was not reached.
pub open spec fn confirmed(run: LifecycleRun, order: Order) -> LifecycleStep {
    match run.cleanup {
        Some(CancelReason::ObservationSatisfied) => appending(
            LifecycleRun { order: Some(order), ..run },
            LifecycleStage::CompleteAppend,
            LifecycleFact::Completed { order },
        ),
        _ => failing(
            run,
            LifecycleFact::Failed {
                failure: LifecycleFailure::ObservationNotReached,
                order: Some(order),
                exchange_failure: None,
            },
            LiveLifecycleError::ObservationNotReached,
        ),
    }
}

/// The run cleans its order up: it cancels an active order once, and takes a
/// terminal one as the end it planned or as an unsafe one.
pub open spec fn cleaning_up(
    settings: LiveLifecycleSettings,
    run: LifecycleRun,
    already_planned: bool,
    reason: CancelReason,
) -> LifecycleStep {
    let next = LifecycleRun { cleanup: Some(reason), ..run };
    match run.order {
        None => finished(next, Err(LiveLifecycleError::ProtocolViolation)),
        Some(order) => if !valid_order(settings, order, None) {
            finished(next, Err(LiveLifecycleError::ProtocolViolation))
        } else if order.status == OrderStatus::Cancelled {
            if already_planned {
                confirmed(next, order)
            } else {
                unsafe_terminal(next, LifecycleFailure::CancelledBeforeCleanup, order)
            }
        } else if !active_status(order.status) {
            unsafe_terminal(next, LifecycleFailure::TerminalBeforeCancel, order)
        } else if run.query_count >= settings.maximum_queries {
            failing(
                next,
                LifecycleFact::QueryBudgetExhausted {
                    phase: OpenPhase::CancelConfirmation,
                    query_count: run.query_count,
                },
                LiveLifecycleError::QueryBudgetExhausted,
            )
        } else if !already_planned {
            appending(
                next,
                LifecycleStage::CancelPlanAppend,
                LifecycleFact::CancelPlanned { server_order_id: order.id, reason },
            )
        } else {
            (
                LifecycleRun { stage: LifecycleStage::Cancel, ..next },
                LifecycleAction::Cancel { order_id: order.id },
            )
        },
    }
}

/// The run looks at its order: it polls on, cleans up, or finds the
/// observation missed.
pub open spec fn observing(settings: LiveLifecycleSettings, run: LifecycleRun) -> LifecycleStep {
    match run.order {
        None => finished(run, Err(LiveLifecycleError::ProtocolViolation)),
        Some(order) => if run.observation_satisfied {
            cleaning_up(settings, run, false, CancelReason::ObservationSatisfied)
        } else if !active_status(order.status) {
            unsafe_terminal(run, LifecycleFailure::UnexpectedTerminalOrder, order)
        } else if observation_budget_left(settings, run.query_count) {
            (
                LifecycleRun { stage: LifecycleStage::Pause, ..run },
                LifecycleAction::Pause { nanos: settings.poll_interval_nanos },
            )
        } else {
            cleaning_up(settings, run, false, CancelReason::ObservationNotReached)
        },
    }
}

/// The run has its order and goes on: with the cleanup that an earlier run
/// planned, with the first query after a submit, or with its observation.
pub open spec fn established(settings: LiveLifecycleSettings, run: LifecycleRun) -> LifecycleStep {
    match run.cancel_reason {
        Some(reason) => cleaning_up(settings, run, true, reason),
        None => if !run.recovered && run.query_count == 0 {
            query_planned(settings, run, QueryPurpose::PostSubmit)
        } else {
            observing(settings, run)
        },
    }
}

/// The run has recorded a query, whose order is the latest one.
pub open spec fn query_recorded(
    settings: LiveLifecycleSettings,
    run: LifecycleRun,
    purpose: QueryPurpose,
) -> LifecycleStep {
    match (run.latest, run.order) {
        (None, _) => finished(run, Err(LiveLifecycleError::ProtocolViolation)),
        (Some(latest), current) => match purpose {
            QueryPurpose::PostCancel => if current is None || current->0.id@ != latest.id@ {
                finished(run, Err(LiveLifecycleError::ProtocolViolation))
            } else if latest.status == OrderStatus::Cancelled {
                confirmed(run, latest)
            } else if active_status(latest.status) {
                failing(
                    run,
                    LifecycleFact::CancelNotTerminal {
                        server_order_id: latest.id,
                        status: latest.status,
                    },
                    LiveLifecycleError::OutcomeUnknown,
                )
            } else {
                unsafe_terminal(run, LifecycleFailure::TerminalDuringCancel, latest)
            },
            _ => {
                let next = LifecycleRun {
                    order: Some(latest),
                    latest: None,
                    observation_satisfied: run.observation_satisfied || observation_matches(
                        settings.expected_observation,
                        latest.status,
                    ),
                    ..run
                };
                if purpose == QueryPurpose::Recovery || purpose == QueryPurpose::SubmitRecovery {
                    established(settings, next)
                } else {
                    observing(settings, next)
                }
            },
        },
    }
}

/// What follows once the fact that the stage waits for is durable.
pub open spec fn after_append(settings: LiveLifecycleSettings, run: LifecycleRun) -> LifecycleStep {
    match run.stage {
        LifecycleStage::PlanAppend => (
            LifecycleRun { stage: LifecycleStage::Admission, ..run },
            LifecycleAction::SampleAdmission,
        ),
        LifecycleStage::ResumeAppend => query_planned(settings, run, QueryPurpose::Recovery),
        LifecycleStage::AdmissionAppend { refusal } => (
            LifecycleRun { stage: LifecycleStage::FilterCheck { refusal }, ..run },
            LifecycleAction::CheckFilters { intent: settings.intent },
        ),
        LifecycleStage::SubmitAppend => established(settings, run),
        LifecycleStage::SubmitUnknownAppend => query_planned(
            settings,
            run,
            QueryPurpose::SubmitRecovery,
        ),
        LifecycleStage::QueryPlanAppend(purpose) => if run.query_count == u32::MAX {
            finished(run, Err(LiveLifecycleError::CounterOverflow))
        } else {
            (
                LifecycleRun {
                    stage: LifecycleStage::Query(purpose),
                    query_count: (run.query_count + 1) as u32,
                    ..run
                },
                LifecycleAction::Query {
                    symbol: settings.intent.symbol,
                    client_order_id: settings.intent.client_order_id,
                },
            )
        },
        LifecycleStage::QueryAppend(purpose) => query_recorded(settings, run, purpose),
        LifecycleStage::CancelPlanAppend => match run.order {
            Some(order) => (
                LifecycleRun { stage: LifecycleStage::Cancel, ..run },
                LifecycleAction::Cancel { order_id: order.id },
            ),
            None => finished(run, Err(LiveLifecycleError::ProtocolViolation)),
        },
        LifecycleStage::CancelAppend => query_planned(settings, run, QueryPurpose::PostCancel),
        LifecycleStage::CancelUnknownAppend { deferred } => if deferred {
            finished(run, Err(LiveLifecycleError::OutcomeUnknown))
        } else {
            query_planned(settings, run, QueryPurpose::PostCancel)
        },
        LifecycleStage::CompleteAppend => match run.order {
            Some(order) => finished(
                run,
                Ok(report_of(settings, order, run.query_count, run.recovered)),
            ),
            None => finished(run, Err(LiveLifecycleError::ProtocolViolation)),
        },
        LifecycleStage::UnsafeAppend { failure, status } => failing(
            run,
            LifecycleFact::KillSwitchEngaged { failure },
            LiveLifecycleError::UnsafeTerminal(status),
        ),
        LifecycleStage::LastAppend(error) => finished(run, Err(error)),
        _ => finished(run, Err(LiveLifecycleError::ProtocolViolation)),
    }
}

/// The venue answered the submit.
pub open spec fn submit_answered(
    settings: LiveLifecycleSettings,
    run: LifecycleRun,
    answer: Result<Order, ExchangeError>,
) -> LifecycleStep {
    match answer {
        Ok(order) => if !valid_order(settings, order, None) {
            finished(run, Err(LiveLifecycleError::ProtocolViolation))
        } else {
            appending(
                LifecycleRun { order: Some(order), ..run },
                LifecycleStage::SubmitAppend,
                LifecycleFact::SubmitObserved { order },
            )
        },
        Err(error) => if error is AmbiguousOutcome {
            appending(
                run,
                LifecycleStage::SubmitUnknownAppend,
                LifecycleFact::OutcomeUnknown { phase: OpenPhase::SubmitDispatch, error },
            )
        } else {
            failing(
                run,
                LifecycleFact::Failed {
                    failure: LifecycleFailure::SubmitRejected,
                    order: None,
                    exchange_failure: Some(error),
                },
                LiveLifecycleError::Exchange(error),
            )
        },
    }
}

/// The venue answered a query.
pub open spec fn query_answered(
    settings: LiveLifecycleSettings,
    run: LifecycleRun,
    purpose: QueryPurpose,
    answer: Result<Order, ExchangeError>,
) -> LifecycleStep {
    match answer {
        Ok(order) => if !valid_order(settings, order, None) {
            finished(run, Err(LiveLifecycleError::ProtocolViolation))
        } else {
            appending(
                LifecycleRun { latest: Some(order), ..run },
                LifecycleStage::QueryAppend(purpose),
                LifecycleFact::QueryObserved { purpose, order, query_sequence: run.query_count },
            )
        },
        Err(error) => failing(
            run,
            LifecycleFact::OutcomeUnknown { phase: OpenPhase::Query(purpose), error },
            LiveLifecycleError::OutcomeUnknown,
        ),
    }
}

/// The venue answered the cancel.
pub open spec fn cancel_answered(
    settings: LiveLifecycleSettings,
    run: LifecycleRun,
    answer: Result<Order, ExchangeError>,
) -> LifecycleStep {
    match answer {
        Ok(order) => if run.order is None || !valid_order(
            settings,
            order,
            Some(run.order->0.id@),
        ) {
            finished(run, Err(LiveLifecycleError::ProtocolViolation))
        } else {
            appending(run, LifecycleStage::CancelAppend, LifecycleFact::CancelObserved { order })
        },
        Err(error) => appending(
            run,
            LifecycleStage::CancelUnknownAppend { deferred: defers_confirmation(error) },
            LifecycleFact::OutcomeUnknown { phase: OpenPhase::CancelDispatch, error },
        ),
    }
}

/// What admission records of the venue truth.
pub open spec fn is_admission_fact(
    settings: LiveLifecycleSettings,
    truth: LiveAdmissionTruth,
    fact: AdmissionFact,
) -> bool {
    &&& Some(fact.notional@) == notional_of(settings.intent)
    &&& fact.free_base_quantity == truth.free_base_quantity
    &&& fact.free_quote_amount == truth.free_quote_amount
    &&& fact.open_orders_on_symbol == truth.open_order_client_ids@.len()
    &&& fact.foreign_open_orders == foreign_count(
        truth.open_order_client_ids@,
        id_text(settings.intent.client_order_id),
    )
}

/// The venue truth was sampled, or could not be.
pub open spec fn admission_answered(
    settings: LiveLifecycleSettings,
    run: LifecycleRun,
    answer: Result<LiveAdmissionTruth, ExchangeError>,
    step: LifecycleStep,
) -> bool {
    match answer {
        Ok(truth) => {
            &&& step.0 == LifecycleRun {
                stage: LifecycleStage::AdmissionAppend { refusal: refusal_for(settings, truth) },
                ..run
            }
            &&& step.1 is Append
            &&& step.1->Append_0 is AdmissionObserved
            &&& is_admission_fact(settings, truth, step.1->Append_0->AdmissionObserved_0)
        },
        Err(error) => step == failing(
            run,
            LifecycleFact::Failed {
                failure: LifecycleFailure::AdmissionReadFailed,
                order: None,
                exchange_failure: Some(error),
            },
            LiveLifecycleError::Exchange(error),
        ),
    }
}

/// The venue's filters were checked.
pub open spec fn filters_answered(
    settings: LiveLifecycleSettings,
    run: LifecycleRun,
    refusal: Option<LiveAdmissionRefusal>,
    answer: Result<(), ExchangeError>,
) -> LifecycleStep {
    match answer {
        Err(error) => failing(
            run,
            LifecycleFact::Failed {
                failure: LifecycleFailure::Refused(LiveAdmissionRefusal::FiltersViolated),
                order: None,
                exchange_failure: Some(error),
            },
            LiveLifecycleError::AdmissionRefused(LiveAdmissionRefusal::FiltersViolated),
        ),
        Ok(_) => match refusal {
            Some(refused) => failing(
                run,
                LifecycleFact::Failed {
                    failure: LifecycleFailure::Refused(refused),
                    order: None,
                    exchange_failure: None,
                },
                LiveLifecycleError::AdmissionRefused(refused),
            ),
            None => (
                LifecycleRun { stage: LifecycleStage::Submit, ..run },
                LifecycleAction::Submit { intent: settings.intent },
            ),
        },
    }
}

/// One step of a run: what it does next, given what came of its last action.
/// An input that the stage does not wait for ends the run.
pub open spec fn is_step(
    settings: LiveLifecycleSettings,
    run: LifecycleRun,
    input: LifecycleInput,
    step: LifecycleStep,
) -> bool {
    match input {
        LifecycleInput::Appended(durable) => step == if durable {
            after_append(settings, run)
        } else {
            finished(run, Err(LiveLifecycleError::HistoryWrite))
        },
        LifecycleInput::Admission(answer) => if run.stage is Admission {
            admission_answered(settings, run, answer, step)
        } else {
            step == finished(run, Err(LiveLifecycleError::ProtocolViolation))
        },
        LifecycleInput::Filters(answer) => step == match run.stage {
            LifecycleStage::FilterCheck { refusal } => filters_answered(
                settings,
                run,
                refusal,
                answer,
            ),
            _ => finished(run, Err(LiveLifecycleError::ProtocolViolation)),
        },
        LifecycleInput::Answered(answer) => step == match run.stage {
            LifecycleStage::Submit => submit_answered(settings, run, answer),
            LifecycleStage::Query(purpose) => query_answered(settings, run, purpose, answer),
            LifecycleStage::Cancel => cancel_answered(settings, run, answer),
            _ => finished(run, Err(LiveLifecycleError::ProtocolViolation)),
        },
        LifecycleInput::Paused => step == match run.stage {
            LifecycleStage::Pause => query_planned(settings, run, QueryPurpose::Observation),
            _ => finished(run, Err(LiveLifecycleError::ProtocolViolation)),
        },
    }
}

/// The first step of a run over the durable state of its campaign: a completed
/// campaign is reported again, a failed, conflicting or deferred one is
/// refused, and a latched journal refuses only a campaign without a plan.
pub open spec fn is_first_step(
    settings: LiveLifecycleSettings,
    projected: ProjectedCampaign,
    now: Timestamp,
    kill_switch_latched: bool,
    step: LifecycleStep,
) -> bool {
    let run = step.0;
    let refused = |error: LiveLifecycleError|
        run.stage is Finished && step.1 == LifecycleAction::Finish(Err(error));
    &&& run.recovered == projected.planned
    &&& run.query_count == projected.query_count
    &&& run.cancel_reason == projected.cancel_reason
    &&& run.observation_satisfied == projected.observation_satisfied
    &&& run.order is None
    &&& run.latest is None
    &&& run.cleanup is None
    &&& if projected.completed is Some {
        run.stage is Finished && step.1 == LifecycleAction::Finish(
            Ok(report_of(settings, projected.completed->0, projected.query_count, true)),
        )
    } else if projected.failed {
        refused(LiveLifecycleError::PreviouslyFailed)
    } else if projected.wire_symbol is Some && projected.wire_symbol->0@ != settings.wire_symbol@ {
        refused(LiveLifecycleError::ConfigConflict)
    } else if projected.retry_not_before is Some && projected.retry_not_before->0.rank()
        > now.rank() {
        refused(
            LiveLifecycleError::RetryDeferred { not_before: projected.retry_not_before->0 },
        )
    } else if !projected.planned && kill_switch_latched {
        refused(LiveLifecycleError::KillSwitchLatched)
    } else if projected.planned {
        run.stage is ResumeAppend && step.1 == LifecycleAction::Append(LifecycleFact::Resumed)
    } else {
        run.stage is PlanAppend && step.1 == LifecycleAction::Append(LifecycleFact::Planned)
    }
}

fn finish(
    run: LifecycleRun,
    result: Result<LiveLifecycleReport, LiveLifecycleError>,
) -> (r: LifecycleStep)
    ensures
        r == finished(run, result),
{
    let mut next: LifecycleRun = run;
    next.stage = LifecycleStage::Finished;
    (next, LifecycleAction::Finish(result))
}

fn append(run: LifecycleRun, stage: LifecycleStage, fact: LifecycleFact) -> (r: LifecycleStep)
    ensures
        r == appending(run, stage, fact),
{
    let mut next: LifecycleRun = run;
    next.stage = stage;
    (next, LifecycleAction::Append(fact))
}

fn append_failed(run: LifecycleRun, fact: LifecycleFact, error: LiveLifecycleError) -> (r:
    LifecycleStep)
    ensures
        r == failing(run, fact, error),
{
    append(run, LifecycleStage::LastAppend(error), fact)
}

/// Records the failure first; the journal's kill fact follows once it is
/// durable.
fn append_failed_unsafe_terminal(
    run: LifecycleRun,
    failure: LifecycleFailure,
    order: Order,
) -> (r: LifecycleStep)
    ensures
        r == unsafe_terminal(run, failure, order),
{
    let status: OrderStatus = order.status;
    append(
        run,
        LifecycleStage::UnsafeAppend { failure, status },
        LifecycleFact::Failed { failure, order: Some(order), exchange_failure: None },
    )
}

fn plan_query(
    config: &LiveLifecycleConfig,
    run: LifecycleRun,
    purpose: QueryPurpose,
) -> (r: LifecycleStep)
    ensures
        r == query_planned(config@, run, purpose),
{
    let query_count: u32 = run.query_count;
    if query_count >= config.maximum_queries() as u32 {
        return append_failed(
            run,
            LifecycleFact::QueryBudgetExhausted { phase: OpenPhase::Query(purpose), query_count },
            LiveLifecycleError::QueryBudgetExhausted,
        );
    }
    append(
        run,
        LifecycleStage::QueryPlanAppend(purpose),
        LifecycleFact::QueryPlanned { purpose, query_sequence: query_count + 1 },
    )
}

fn finish_planned_cleanup(run: LifecycleRun, order: Order) -> (r: LifecycleStep)
    ensures
        r == confirmed(run, order),
{
    let satisfied: bool = match run.cleanup {
        Some(reason) => reason == CancelReason::ObservationSatisfied,
        None => false,
    };
    if satisfied {
        let mut next: LifecycleRun = run;
        next.order = Some(order.copy());
        append(next, LifecycleStage::CompleteAppend, LifecycleFact::Completed { order })
    } else {
        append_failed(
            run,
            LifecycleFact::Failed {
                failure: LifecycleFailure::ObservationNotReached,
                order: Some(order),
                exchange_failure: None,
            },
            LiveLifecycleError::ObservationNotReached,
        )
    }
}

/// The one cancel of a run, and what stands in its way.
fn cancel_and_confirm(
    config: &LiveLifecycleConfig,
    run: LifecycleRun,
    already_planned: bool,
    reason: CancelReason,
) -> (r: LifecycleStep)
    ensures
        r == cleaning_up(config@, run, already_planned, reason),
{
    let query_count: u32 = run.query_count;
    let mut next: LifecycleRun = run;
    next.cleanup = Some(reason);
    let order: Order = match &next.order {
        None => return finish(next, Err(LiveLifecycleError::ProtocolViolation)),
        Some(order) => order.copy(),
    };
    if !validate_order(config, &order, None) {
        return finish(next, Err(LiveLifecycleError::ProtocolViolation));
    }
    if order.status == OrderStatus::Cancelled {
        if already_planned {
            return finish_planned_cleanup(next, order);
        }
        return append_failed_unsafe_terminal(next, LifecycleFailure::CancelledBeforeCleanup, order);
    }
    if !is_active_status(order.status) {
        return append_failed_unsafe_terminal(next, LifecycleFailure::TerminalBeforeCancel, order);
    }
    if query_count >= config.maximum_queries() as u32 {
        return append_failed(
            next,
            LifecycleFact::QueryBudgetExhausted {
                phase: OpenPhase::CancelConfirmation,
                query_count,
            },
            LiveLifecycleError::QueryBudgetExhausted,
        );
    }
    let server_order_id: String = order.id;
    if !already_planned {
        return append(
            next,
            LifecycleStage::CancelPlanAppend,
            LifecycleFact::CancelPlanned { server_order_id, reason },
        );
    }
    next.stage = LifecycleStage::Cancel;
    (next, LifecycleAction::Cancel { order_id: server_order_id })
}

fn observe(config: &LiveLifecycleConfig, run: LifecycleRun) -> (r: LifecycleStep)
    ensures
        r == observing(config@, run),
{
    let order: Order = match &run.order {
        None => return finish(run, Err(LiveLifecycleError::ProtocolViolation)),
        Some(order) => order.copy(),
    };
    if run.observation_satisfied {
        return cancel_and_confirm(config, run, false, CancelReason::ObservationSatisfied);
    }
    if !is_active_status(order.status) {
        return append_failed_unsafe_terminal(run, LifecycleFailure::UnexpectedTerminalOrder, order);
    }
    if has_observation_query_budget(config, run.query_count) {
        let mut next: LifecycleRun = run;
        next.stage = LifecycleStage::Pause;
        return (next, LifecycleAction::Pause { nanos: config.poll_interval_nanos() });
    }
    cancel_and_confirm(config, run, false, CancelReason::ObservationNotReached)
}

fn finish_active_lifecycle(config: &LiveLifecycleConfig, run: LifecycleRun) -> (r: LifecycleStep)
    ensures
        r == established(config@, run),
{
    match run.cancel_reason {
        Some(reason) => cancel_and_confirm(config, run, true, reason),
        None => if !run.recovered && run.query_count == 0 {
            plan_query(config, run, QueryPurpose::PostSubmit)
        } else {
            observe(config, run)
        },
    }
}

fn consume_query(
    config: &LiveLifecycleConfig,
    run: LifecycleRun,
    purpose: QueryPurpose,
) -> (r: LifecycleStep)
    ensures
        r == query_recorded(config@, run, purpose),
{
    let latest: Order = match &run.latest {
        None => return finish(run, Err(LiveLifecycleError::ProtocolViolation)),
        Some(order) => order.copy(),
    };
    if purpose == QueryPurpose::PostCancel {
        let same_order: bool = match &run.order {
            Some(current) => same_text(&current.id, &latest.id),
            None => false,
        };
        if !same_order {
            return finish(run, Err(LiveLifecycleError::ProtocolViolation));
        }
        if latest.status == OrderStatus::Cancelled {
            return finish_planned_cleanup(run, latest);
        }
        if is_active_status(latest.status) {
            let status: OrderStatus = latest.status;
            return append_failed(
                run,
                LifecycleFact::CancelNotTerminal { server_order_id: latest.id, status },
                LiveLifecycleError::OutcomeUnknown,
            );
        }
        return append_failed_unsafe_terminal(run, LifecycleFailure::TerminalDuringCancel, latest);
    }
    let mut next: LifecycleRun = run;
    if config.expected_observation().matches(latest.status) {
        next.observation_satisfied = true;
    }
    next.order = Some(latest);
    next.latest = None;
    if purpose == QueryPurpose::Recovery || purpose == QueryPurpose::SubmitRecovery {
        finish_active_lifecycle(config, next)
    } else {
        observe(config, next)
    }
}

fn consume_append(config: &LiveLifecycleConfig, run: LifecycleRun) -> (r: LifecycleStep)
    ensures
        r == after_append(config@, run),
{
    let mut next: LifecycleRun = run;
    let mut stage: LifecycleStage = LifecycleStage::Finished;
    std::mem::swap(&mut next.stage, &mut stage);
    match stage {
        LifecycleStage::PlanAppend => {
            next.stage = LifecycleStage::Admission;
            (next, LifecycleAction::SampleAdmission)
        },
        LifecycleStage::ResumeAppend => plan_query(config, next, QueryPurpose::Recovery),
        LifecycleStage::AdmissionAppend { refusal } => {
            next.stage = LifecycleStage::FilterCheck { refusal };
            (next, LifecycleAction::CheckFilters { intent: config.intent().copy() })
        },
        LifecycleStage::SubmitAppend => finish_active_lifecycle(config, next),
        LifecycleStage::SubmitUnknownAppend => plan_query(
            config,
            next,
            QueryPurpose::SubmitRecovery,
        ),
        LifecycleStage::QueryPlanAppend(purpose) => {
            if next.query_count == u32::MAX {
                return finish(next, Err(LiveLifecycleError::CounterOverflow));
            }
            next.stage = LifecycleStage::Query(purpose);
            next.query_count = next.query_count + 1;
            (
                next,
                LifecycleAction::Query {
                    symbol: config.intent().symbol.clone(),
                    client_order_id: config.intent().client_order_id,
                },
            )
        },
        LifecycleStage::QueryAppend(purpose) => consume_query(config, next, purpose),
        LifecycleStage::CancelPlanAppend => {
            let order_id: String = match &next.order {
                Some(order) => order.id.clone(),
                None => return finish(next, Err(LiveLifecycleError::ProtocolViolation)),
            };
            next.stage = LifecycleStage::Cancel;
            (next, LifecycleAction::Cancel { order_id })
        },
        LifecycleStage::CancelAppend => plan_query(config, next, QueryPurpose::PostCancel),
        LifecycleStage::CancelUnknownAppend { deferred } => {
            if deferred {
                return finish(next, Err(LiveLifecycleError::OutcomeUnknown));
            }
            plan_query(config, next, QueryPurpose::PostCancel)
        },
        LifecycleStage::CompleteAppend => {
            let proof_of_cleanup: LiveLifecycleReport = match &next.order {
                Some(order) => report(config, order, next.query_count, next.recovered),
                None => return finish(next, Err(LiveLifecycleError::ProtocolViolation)),
            };
            finish(next, Ok(proof_of_cleanup))
        },
        LifecycleStage::UnsafeAppend { failure, status } => append_failed(
            next,
            LifecycleFact::KillSwitchEngaged { failure },
            LiveLifecycleError::UnsafeTerminal(status),
        ),
        LifecycleStage::LastAppend(error) => finish(next, Err(error)),
        _ => finish(next, Err(LiveLifecycleError::ProtocolViolation)),
    }
}

fn consume_admission(
    config: &LiveLifecycleConfig,
    run: LifecycleRun,
    answer: Result<LiveAdmissionTruth, ExchangeError>,
) -> (r: LifecycleStep)
    ensures
        admission_answered(config@, run, answer, r),
{
    match answer {
        Ok(truth) => {
            let (fact, refusal) = weigh_admission(config, &truth);
            append(
                run,
                LifecycleStage::AdmissionAppend { refusal },
                LifecycleFact::AdmissionObserved(fact),
            )
        },
        Err(error) => {
            let shown: ExchangeError = error.copy();
            append_failed(
                run,
                LifecycleFact::Failed {
                    failure: LifecycleFailure::AdmissionReadFailed,
                    order: None,
                    exchange_failure: Some(shown),
                },
                LiveLifecycleError::Exchange(error),
            )
        },
    }
}

/// The last gate before the one submit of a fresh campaign.
fn admit_fresh_submission(
    config: &LiveLifecycleConfig,
    run: LifecycleRun,
    refusal: Option<LiveAdmissionRefusal>,
    answer: Result<(), ExchangeError>,
) -> (r: LifecycleStep)
    ensures
        r == filters_answered(config@, run, refusal, answer),
{
    match answer {
        Err(error) => append_failed(
            run,
            LifecycleFact::Failed {
                failure: LifecycleFailure::Refused(LiveAdmissionRefusal::FiltersViolated),
                order: None,
                exchange_failure: Some(error),
            },
            LiveLifecycleError::AdmissionRefused(LiveAdmissionRefusal::FiltersViolated),
        ),
        Ok(_) => match refusal {
            Some(refused) => append_failed(
                run,
                LifecycleFact::Failed {
                    failure: LifecycleFailure::Refused(refused),
                    order: None,
                    exchange_failure: None,
                },
                LiveLifecycleError::AdmissionRefused(refused),
            ),
            None => {
                let mut next: LifecycleRun = run;
                next.stage = LifecycleStage::Submit;
                (next, LifecycleAction::Submit { intent: config.intent().copy() })
            },
        },
    }
}

fn consume_submit(
    config: &LiveLifecycleConfig,
    run: LifecycleRun,
    answer: Result<Order, ExchangeError>,
) -> (r: LifecycleStep)
    ensures
        r == submit_answered(config@, run, answer),
{
    match answer {
        Ok(order) => {
            if !validate_order(config, &order, None) {
                return finish(run, Err(LiveLifecycleError::ProtocolViolation));
            }
            let mut next: LifecycleRun = run;
            next.order = Some(order.copy());
            append(next, LifecycleStage::SubmitAppend, LifecycleFact::SubmitObserved { order })
        },
        Err(error) => {
            let ambiguous: bool = match &error {
                ExchangeError::AmbiguousOutcome => true,
                _ => false,
            };
            if ambiguous {
                return append(
                    run,
                    LifecycleStage::SubmitUnknownAppend,
                    LifecycleFact::OutcomeUnknown { phase: OpenPhase::SubmitDispatch, error },
                );
            }
            let shown: ExchangeError = error.copy();
            append_failed(
                run,
                LifecycleFact::Failed {
                    failure: LifecycleFailure::SubmitRejected,
                    order: None,
                    exchange_failure: Some(shown),
                },
                LiveLifecycleError::Exchange(error),
            )
        },
    }
}

fn query_and_record(
    config: &LiveLifecycleConfig,
    run: LifecycleRun,
    purpose: QueryPurpose,
    answer: Result<Order, ExchangeError>,
) -> (r: LifecycleStep)
    ensures
        r == query_answered(config@, run, purpose, answer),
{
    match answer {
        Ok(order) => {
            if !validate_order(config, &order, None) {
                return finish(run, Err(LiveLifecycleError::ProtocolViolation));
            }
            let query_sequence: u32 = run.query_count;
            let mut next: LifecycleRun = run;
            next.latest = Some(order.copy());
            append(
                next,
                LifecycleStage::QueryAppend(purpose),
                LifecycleFact::QueryObserved { purpose, order, query_sequence },
            )
        },
        Err(error) => append_failed(
            run,
            LifecycleFact::OutcomeUnknown { phase: OpenPhase::Query(purpose), error },
            LiveLifecycleError::OutcomeUnknown,
        ),
    }
}

fn consume_cancel(
    config: &LiveLifecycleConfig,
    run: LifecycleRun,
    answer: Result<Order, ExchangeError>,
) -> (r: LifecycleStep)
    ensures
        r == cancel_answered(config@, run, answer),
{
    match answer {
        Ok(order) => {
            let valid: bool = match &run.order {
                Some(current) => validate_order(config, &order, Some(current.id.as_str())),
                None => false,
            };
            if !valid {
                return finish(run, Err(LiveLifecycleError::ProtocolViolation));
            }
            append(run, LifecycleStage::CancelAppend, LifecycleFact::CancelObserved { order })
        },
        Err(error) => {
            let deferred: bool = should_defer_cancel_confirmation(&error);
            append(
                run,
                LifecycleStage::CancelUnknownAppend { deferred },
                LifecycleFact::OutcomeUnknown { phase: OpenPhase::CancelDispatch, error },
            )
        },
    }
}

impl LifecycleRun {
    /// Takes what came of the last action and says what to do next.
    pub fn step(self, config: &LiveLifecycleConfig, input: LifecycleInput) -> (r: LifecycleStep)
        ensures
            is_step(config@, self, input, r),
    {
        match input {
            LifecycleInput::Appended(durable) => {
                if !durable {
                    return finish(self, Err(LiveLifecycleError::HistoryWrite));
                }
                consume_append(config, self)
            },
            LifecycleInput::Admission(answer) => match self.stage {
                LifecycleStage::Admission => consume_admission(config, self, answer),
                _ => finish(self, Err(LiveLifecycleError::ProtocolViolation)),
            },
            LifecycleInput::Filters(answer) => match self.stage {
                LifecycleStage::FilterCheck { refusal } => admit_fresh_submission(
                    config,
                    self,
                    refusal,
                    answer,
                ),
                _ => finish(self, Err(LiveLifecycleError::ProtocolViolation)),
            },
            LifecycleInput::Answered(answer) => match self.stage {
                LifecycleStage::Submit => consume_submit(config, self, answer),
                LifecycleStage::Query(purpose) => query_and_record(config, self, purpose, answer),
                LifecycleStage::Cancel => consume_cancel(config, self, answer),
                _ => finish(self, Err(LiveLifecycleError::ProtocolViolation)),
            },
            LifecycleInput::Paused => match self.stage {
                LifecycleStage::Pause => plan_query(config, self, QueryPurpose::Observation),
                _ => finish(self, Err(LiveLifecycleError::ProtocolViolation)),
            },
        }
    }
}

/// Runs or recovers one submit-query-cancel-query mainnet Spot lifecycle: the
/// first step over what the journal says of the campaign. A later step is
/// taken with `LifecycleRun::step`.
pub fn run_live_lifecycle(
    config: &LiveLifecycleConfig,
    projected: ProjectedCampaign,
    now: Timestamp,
    kill_switch_latched: bool,
) -> (r: LifecycleStep)
    ensures
        is_first_step(config@, projected, now, kill_switch_latched, r),
{
    let run: LifecycleRun = LifecycleRun {
        stage: LifecycleStage::Finished,
        recovered: projected.planned,
        query_count: projected.query_count,
        cancel_reason: projected.cancel_reason,
        observation_satisfied: projected.observation_satisfied,
        order: None,
        latest: None,
        cleanup: None,
    };
    if let Some(order) = &projected.completed {
        let earlier: LiveLifecycleReport = report(config, order, projected.query_count, true);
        return finish(run, Ok(earlier));
    }
    if projected.failed {
        return finish(run, Err(LiveLifecycleError::PreviouslyFailed));
    }
    let conflicting: bool = match &projected.wire_symbol {
        Some(symbol) => !same_text(symbol, config.wire_symbol()),
        None => false,
    };
    if conflicting {
        return finish(run, Err(LiveLifecycleError::ConfigConflict));
    }
    if let Some(not_before) = projected.retry_not_before {
        if now.is_before(not_before) {
            return finish(run, Err(LiveLifecycleError::RetryDeferred { not_before }));
        }
    }
    if !projected.planned && kill_switch_latched {
        return finish(run, Err(LiveLifecycleError::KillSwitchLatched));
    }
    if projected.planned {
        append(run, LifecycleStage::ResumeAppend, LifecycleFact::Resumed)
    } else {
        append(run, LifecycleStage::PlanAppend, LifecycleFact::Planned)
    }
}

} // verus!
