//! Durable continuous owner for one single-source volume maker.
//!
//! A cycle opens one position and closes it again. This module holds the
//! owner's identity, what one observation asks it to execute, what a finished
//! operation does to the cycle, and its statistics; the loop itself is in
//! `volume_owner`.

use crate::decimal::{decimal_of, difference_of, less_than, product_of, sum_of, text_of, Decimal};
use crate::domain::{
    is_instrument, touch_price, MarketDataEvent, MarketSnapshot, MarketType, OrderIntent, Side,
    TradingReceipt,
};
use crate::json::text_in;
use crate::operations::{account_preflight, preflight_of, Ownership};
use crate::paper_account::PaperAccountSnapshot;
use crate::paper_admission::PaperAdmissionCompensationError;
use crate::paper_grid_task::SagaFailure;
use crate::paper_single_leg_saga::{PaperSingleLegRequest, PaperSingleLegRun};
use crate::paper_task::{
    earlier_task_is_settled, earlier_task_settled, is_plain_identity, is_task_identity,
    is_task_record, lifecycle_record, valid_plain_identity, valid_task_identity, EarlierTask,
    TaskRecord,
};
use crate::requests::{
    is_candidate, is_limit_intent, is_single_leg_operation, limit_intent, risk_candidate,
    single_leg_operation, AccountRiskCandidate, FreshIds, OperationFlaw, PaperCostModel,
};
use crate::text::{joined, same_text, trim_of, trimmed};
use crate::timestamp::{instant_text, later_of, Timestamp};
use vstd::prelude::*;

verus! {

/// Stable version of the process-local volume-maker owner status.
pub const VOLUME_MAKER_PAPER_TASK_STATUS_SCHEMA_VERSION: u16 = 1;

/// Stable version of the durable `volume_maker_statistics` fact.
pub const VOLUME_MAKER_STATISTICS_SCHEMA_VERSION: u16 = 1;

pub const VOLUME_TASK_KIND: &'static str = "volume_maker";

pub const VOLUME_MAKER_STRATEGY: &'static str = "volume_maker";

/// Durable aggregate lifecycle phase.
#[derive(Clone, Copy, Debug, PartialEq, Eq, Structural)]
pub enum VolumeMakerPaperTaskPhase {
    Running,
    Stopping,
    Stopped,
    Failed,
}

impl VolumeMakerPaperTaskPhase {
    pub fn is_terminal(self) -> (r: bool)
        ensures
            r == (self == VolumeMakerPaperTaskPhase::Stopped || self == VolumeMakerPaperTaskPhase::Failed),
    {
        matches!(self, VolumeMakerPaperTaskPhase::Stopped | VolumeMakerPaperTaskPhase::Failed)
    }
}

/// Bounded normal terminal reason.
#[derive(Clone, Copy, Debug, PartialEq, Eq, Structural)]
pub enum VolumeMakerPaperTaskExit {
    StopRequested,
    SourceEnded,
    ShutdownTimedOut,
    /// A bound on the cycles or on the volume was reached.
    BoundsReached,
}

/// Bounded task failure suitable for the durable task projection.
#[derive(Clone, Copy, Debug, PartialEq, Eq, Structural)]
pub enum VolumeMakerPaperTaskFailure {
    StartupFailed,
    SourceContract,
    JournalUnavailable,
    TaskPanicked,
    TaskCancelled,
    InvalidRequest,
    RecoveryRequired,
    AccountContract,
    ExecutionIncomplete,
    ExecutionFailed,
}

/// Typed owner failures.
#[derive(Clone, Copy, Debug, PartialEq, Eq, Structural)]
pub enum VolumeMakerPaperTaskError {
    InvalidConfig,
    InvalidSourceBinding,
    InvalidRequest,
    RecoveryRequired,
    ShutdownTimedOut,
    SnapshotTaskFailed,
    Journal,
    JournalRead,
    Projection,
    Account,
    AccountRisk,
    Source,
    Strategy,
    Runtime,
    Saga(SagaFailure),
    TaskPanicked,
    TaskCancelled,
    PreviouslyFailed(VolumeMakerPaperTaskFailure),
}

pub open spec fn volume_phase_text(phase: VolumeMakerPaperTaskPhase) -> Seq<char> {
    match phase {
        VolumeMakerPaperTaskPhase::Running => "running"@,
        VolumeMakerPaperTaskPhase::Stopping => "stopping"@,
        VolumeMakerPaperTaskPhase::Stopped => "stopped"@,
        VolumeMakerPaperTaskPhase::Failed => "failed"@,
    }
}

pub fn task_phase_label(phase: VolumeMakerPaperTaskPhase) -> (r: &'static str)
    ensures
        r@ == volume_phase_text(phase),
{
    match phase {
        VolumeMakerPaperTaskPhase::Running => "running",
        VolumeMakerPaperTaskPhase::Stopping => "stopping",
        VolumeMakerPaperTaskPhase::Stopped => "stopped",
        VolumeMakerPaperTaskPhase::Failed => "failed",
    }
}

/// The decision that a status of this phase is recorded under.
pub fn phase_decision(phase: VolumeMakerPaperTaskPhase) -> (r: &'static str)
    ensures
        r@ == (match phase {
            VolumeMakerPaperTaskPhase::Running => "task_running"@,
            VolumeMakerPaperTaskPhase::Stopping => "task_stopping"@,
            VolumeMakerPaperTaskPhase::Stopped => "task_stopped"@,
            VolumeMakerPaperTaskPhase::Failed => "task_failed"@,
        }),
{
    match phase {
        VolumeMakerPaperTaskPhase::Running => "task_running",
        VolumeMakerPaperTaskPhase::Stopping => "task_stopping",
        VolumeMakerPaperTaskPhase::Stopped => "task_stopped",
        VolumeMakerPaperTaskPhase::Failed => "task_failed",
    }
}

pub open spec fn volume_exit_text(exit: VolumeMakerPaperTaskExit) -> Seq<char> {
    match exit {
        VolumeMakerPaperTaskExit::StopRequested => "stop_requested"@,
        VolumeMakerPaperTaskExit::SourceEnded => "source_ended"@,
        VolumeMakerPaperTaskExit::ShutdownTimedOut => "shutdown_timed_out"@,
        VolumeMakerPaperTaskExit::BoundsReached => "completed"@,
    }
}

pub fn task_exit_label(exit: VolumeMakerPaperTaskExit) -> (r: &'static str)
    ensures
        r@ == volume_exit_text(exit),
{
    match exit {
        VolumeMakerPaperTaskExit::StopRequested => "stop_requested",
        VolumeMakerPaperTaskExit::SourceEnded => "source_ended",
        VolumeMakerPaperTaskExit::ShutdownTimedOut => "shutdown_timed_out",
        VolumeMakerPaperTaskExit::BoundsReached => "completed",
    }
}

pub open spec fn volume_failure_text(failure: VolumeMakerPaperTaskFailure) -> Seq<char> {
    match failure {
        VolumeMakerPaperTaskFailure::StartupFailed => "startup_failed"@,
        VolumeMakerPaperTaskFailure::SourceContract => "source_contract"@,
        VolumeMakerPaperTaskFailure::JournalUnavailable => "journal_unavailable"@,
        VolumeMakerPaperTaskFailure::TaskPanicked => "task_panicked"@,
        VolumeMakerPaperTaskFailure::TaskCancelled => "task_cancelled"@,
        VolumeMakerPaperTaskFailure::InvalidRequest => "invalid_request"@,
        VolumeMakerPaperTaskFailure::RecoveryRequired => "recovery_required"@,
        VolumeMakerPaperTaskFailure::AccountContract => "account_contract"@,
        VolumeMakerPaperTaskFailure::ExecutionIncomplete => "execution_incomplete"@,
        VolumeMakerPaperTaskFailure::ExecutionFailed => "execution_failed"@,
    }
}

pub fn task_failure_label(failure: VolumeMakerPaperTaskFailure) -> (r: &'static str)
    ensures
        r@ == volume_failure_text(failure),
{
    match failure {
        VolumeMakerPaperTaskFailure::StartupFailed => "startup_failed",
        VolumeMakerPaperTaskFailure::SourceContract => "source_contract",
        VolumeMakerPaperTaskFailure::JournalUnavailable => "journal_unavailable",
        VolumeMakerPaperTaskFailure::TaskPanicked => "task_panicked",
        VolumeMakerPaperTaskFailure::TaskCancelled => "task_cancelled",
        VolumeMakerPaperTaskFailure::InvalidRequest => "invalid_request",
        VolumeMakerPaperTaskFailure::RecoveryRequired => "recovery_required",
        VolumeMakerPaperTaskFailure::AccountContract => "account_contract",
        VolumeMakerPaperTaskFailure::ExecutionIncomplete => "execution_incomplete",
        VolumeMakerPaperTaskFailure::ExecutionFailed => "execution_failed",
    }
}

pub open spec fn volume_saga_bucket(failure: SagaFailure) -> VolumeMakerPaperTaskFailure {
    match failure {
        SagaFailure::RecoveryRequired => VolumeMakerPaperTaskFailure::RecoveryRequired,
        SagaFailure::Account => VolumeMakerPaperTaskFailure::AccountContract,
        SagaFailure::Journal => VolumeMakerPaperTaskFailure::JournalUnavailable,
        SagaFailure::Execution => VolumeMakerPaperTaskFailure::ExecutionFailed,
        SagaFailure::Incomplete => VolumeMakerPaperTaskFailure::ExecutionIncomplete,
        SagaFailure::InvalidRequest => VolumeMakerPaperTaskFailure::InvalidRequest,
    }
}

pub fn classify_saga_error(failure: SagaFailure) -> (r: VolumeMakerPaperTaskFailure)
    ensures
        r == volume_saga_bucket(failure),
{
    match failure {
        SagaFailure::RecoveryRequired => VolumeMakerPaperTaskFailure::RecoveryRequired,
        SagaFailure::Account => VolumeMakerPaperTaskFailure::AccountContract,
        SagaFailure::Journal => VolumeMakerPaperTaskFailure::JournalUnavailable,
        SagaFailure::Execution => VolumeMakerPaperTaskFailure::ExecutionFailed,
        SagaFailure::Incomplete => VolumeMakerPaperTaskFailure::ExecutionIncomplete,
        SagaFailure::InvalidRequest => VolumeMakerPaperTaskFailure::InvalidRequest,
    }
}

/// The bucket that an owner failure is recorded under.
pub open spec fn volume_bucket(error: VolumeMakerPaperTaskError) -> VolumeMakerPaperTaskFailure {
    match error {
        VolumeMakerPaperTaskError::InvalidConfig
        | VolumeMakerPaperTaskError::InvalidSourceBinding
        | VolumeMakerPaperTaskError::InvalidRequest
        | VolumeMakerPaperTaskError::Strategy
        | VolumeMakerPaperTaskError::Runtime => VolumeMakerPaperTaskFailure::InvalidRequest,
        VolumeMakerPaperTaskError::RecoveryRequired
        | VolumeMakerPaperTaskError::ShutdownTimedOut => VolumeMakerPaperTaskFailure::RecoveryRequired,
        VolumeMakerPaperTaskError::Journal
        | VolumeMakerPaperTaskError::JournalRead
        | VolumeMakerPaperTaskError::Projection => VolumeMakerPaperTaskFailure::JournalUnavailable,
        VolumeMakerPaperTaskError::Account
        | VolumeMakerPaperTaskError::AccountRisk => VolumeMakerPaperTaskFailure::AccountContract,
        VolumeMakerPaperTaskError::Source => VolumeMakerPaperTaskFailure::SourceContract,
        VolumeMakerPaperTaskError::Saga(failure) => volume_saga_bucket(failure),
        VolumeMakerPaperTaskError::TaskPanicked => VolumeMakerPaperTaskFailure::TaskPanicked,
        VolumeMakerPaperTaskError::TaskCancelled
        | VolumeMakerPaperTaskError::SnapshotTaskFailed => VolumeMakerPaperTaskFailure::TaskCancelled,
        VolumeMakerPaperTaskError::PreviouslyFailed(failure) => failure,
    }
}

/// The name of a failure in an error text.
pub open spec fn volume_failure_name(failure: VolumeMakerPaperTaskFailure) -> Seq<char> {
    match failure {
        VolumeMakerPaperTaskFailure::StartupFailed => "StartupFailed"@,
        VolumeMakerPaperTaskFailure::SourceContract => "SourceContract"@,
        VolumeMakerPaperTaskFailure::JournalUnavailable => "JournalUnavailable"@,
        VolumeMakerPaperTaskFailure::TaskPanicked => "TaskPanicked"@,
        VolumeMakerPaperTaskFailure::TaskCancelled => "TaskCancelled"@,
        VolumeMakerPaperTaskFailure::InvalidRequest => "InvalidRequest"@,
        VolumeMakerPaperTaskFailure::RecoveryRequired => "RecoveryRequired"@,
        VolumeMakerPaperTaskFailure::AccountContract => "AccountContract"@,
        VolumeMakerPaperTaskFailure::ExecutionIncomplete => "ExecutionIncomplete"@,
        VolumeMakerPaperTaskFailure::ExecutionFailed => "ExecutionFailed"@,
    }
}

fn failure_name(failure: VolumeMakerPaperTaskFailure) -> (r: &'static str)
    ensures
        r@ == volume_failure_name(failure),
{
    match failure {
        VolumeMakerPaperTaskFailure::StartupFailed => "StartupFailed",
        VolumeMakerPaperTaskFailure::SourceContract => "SourceContract",
        VolumeMakerPaperTaskFailure::JournalUnavailable => "JournalUnavailable",
        VolumeMakerPaperTaskFailure::TaskPanicked => "TaskPanicked",
        VolumeMakerPaperTaskFailure::TaskCancelled => "TaskCancelled",
        VolumeMakerPaperTaskFailure::InvalidRequest => "InvalidRequest",
        VolumeMakerPaperTaskFailure::RecoveryRequired => "RecoveryRequired",
        VolumeMakerPaperTaskFailure::AccountContract => "AccountContract",
        VolumeMakerPaperTaskFailure::ExecutionIncomplete => "ExecutionIncomplete",
        VolumeMakerPaperTaskFailure::ExecutionFailed => "ExecutionFailed",
    }
}

/// The text of an owner failure. A failure that something else caused shows the
/// text of that cause.
pub open spec fn volume_error_text(error: VolumeMakerPaperTaskError, cause: Seq<char>) -> Seq<char> {
    match error {
        VolumeMakerPaperTaskError::InvalidConfig => "invalid volume-maker task configuration"@,
        VolumeMakerPaperTaskError::InvalidSourceBinding =>
            "volume-maker source does not match its exact owner binding"@,
        VolumeMakerPaperTaskError::InvalidRequest => "volume-maker operation is invalid"@,
        VolumeMakerPaperTaskError::RecoveryRequired => "volume-maker durable state requires reconciliation"@,
        VolumeMakerPaperTaskError::ShutdownTimedOut =>
            "volume-maker shutdown timed out; recovery is required"@,
        VolumeMakerPaperTaskError::SnapshotTaskFailed => "volume-maker snapshot worker failed"@,
        VolumeMakerPaperTaskError::TaskPanicked => "volume-maker task panicked"@,
        VolumeMakerPaperTaskError::TaskCancelled => "volume-maker task was cancelled"@,
        VolumeMakerPaperTaskError::PreviouslyFailed(failure) => "volume-maker task already failed: "@
            + volume_failure_name(failure),
        _ => cause,
    }
}

impl VolumeMakerPaperTaskError {
    pub fn failure_bucket(self) -> (r: VolumeMakerPaperTaskFailure)
        ensures
            r == volume_bucket(self),
    {
        match self {
            VolumeMakerPaperTaskError::InvalidConfig
            | VolumeMakerPaperTaskError::InvalidSourceBinding
            | VolumeMakerPaperTaskError::InvalidRequest
            | VolumeMakerPaperTaskError::Strategy
            | VolumeMakerPaperTaskError::Runtime => VolumeMakerPaperTaskFailure::InvalidRequest,
            VolumeMakerPaperTaskError::RecoveryRequired
            | VolumeMakerPaperTaskError::ShutdownTimedOut => VolumeMakerPaperTaskFailure::RecoveryRequired,
            VolumeMakerPaperTaskError::Journal
            | VolumeMakerPaperTaskError::JournalRead
            | VolumeMakerPaperTaskError::Projection => VolumeMakerPaperTaskFailure::JournalUnavailable,
            VolumeMakerPaperTaskError::Account
            | VolumeMakerPaperTaskError::AccountRisk => VolumeMakerPaperTaskFailure::AccountContract,
            VolumeMakerPaperTaskError::Source => VolumeMakerPaperTaskFailure::SourceContract,
            VolumeMakerPaperTaskError::Saga(failure) => classify_saga_error(failure),
            VolumeMakerPaperTaskError::TaskPanicked => VolumeMakerPaperTaskFailure::TaskPanicked,
            VolumeMakerPaperTaskError::TaskCancelled
            | VolumeMakerPaperTaskError::SnapshotTaskFailed => VolumeMakerPaperTaskFailure::TaskCancelled,
            VolumeMakerPaperTaskError::PreviouslyFailed(failure) => failure,
        }
    }

    /// The text of the failure; `cause` is the text of what caused it.
    pub fn message(self, cause: &str) -> (r: String)
        ensures
            r@ == volume_error_text(self, cause@),
    {
        let text: &str = match self {
            VolumeMakerPaperTaskError::InvalidConfig => "invalid volume-maker task configuration",
            VolumeMakerPaperTaskError::InvalidSourceBinding =>
                "volume-maker source does not match its exact owner binding",
            VolumeMakerPaperTaskError::InvalidRequest => "volume-maker operation is invalid",
            VolumeMakerPaperTaskError::RecoveryRequired =>
                "volume-maker durable state requires reconciliation",
            VolumeMakerPaperTaskError::ShutdownTimedOut =>
                "volume-maker shutdown timed out; recovery is required",
            VolumeMakerPaperTaskError::SnapshotTaskFailed => "volume-maker snapshot worker failed",
            VolumeMakerPaperTaskError::TaskPanicked => "volume-maker task panicked",
            VolumeMakerPaperTaskError::TaskCancelled => "volume-maker task was cancelled",
            VolumeMakerPaperTaskError::PreviouslyFailed(failure) => {
                return joined("volume-maker task already failed: ", failure_name(failure));
            },
            _ => cause,
        };
        text.to_owned()
    }

    /// The owner failure of a compensation that failed.
    pub fn from_compensation(error: PaperAdmissionCompensationError) -> (r: VolumeMakerPaperTaskError)
        ensures
            r == volume_compensation_error(error),
    {
        match error {
            PaperAdmissionCompensationError::Account => VolumeMakerPaperTaskError::Account,
            PaperAdmissionCompensationError::AccountRisk => VolumeMakerPaperTaskError::AccountRisk,
            PaperAdmissionCompensationError::RecoveryRequired =>
                VolumeMakerPaperTaskError::RecoveryRequired,
        }
    }
}

pub open spec fn volume_compensation_error(error: PaperAdmissionCompensationError) -> VolumeMakerPaperTaskError {
    match error {
        PaperAdmissionCompensationError::Account => VolumeMakerPaperTaskError::Account,
        PaperAdmissionCompensationError::AccountRisk => VolumeMakerPaperTaskError::AccountRisk,
        PaperAdmissionCompensationError::RecoveryRequired => VolumeMakerPaperTaskError::RecoveryRequired,
    }
}

/// How the strategy opens a cycle.
#[derive(Clone, Copy, Debug, PartialEq, Eq, Structural)]
pub enum VolumeMakerMode {
    /// One quote on each side; the side that the book crosses opens the cycle.
    LimitBoth,
    /// A market order on the side that the book's depth favours.
    MarketImbalance,
}

/// The instrument, the mode and the order size of the strategy.
#[derive(Debug)]
pub struct VolumeMakerStrategyConfig {
    pub exchange: String,
    pub symbol: String,
    pub market_type: MarketType,
    pub mode: VolumeMakerMode,
    pub order_quantity: Decimal,
}

/// The bounds and the pace of the cycles.
#[derive(Clone, Copy, Debug)]
pub struct CycleLimits {
    /// The shortest time between a completed cycle and the next open leg.
    pub interval_seconds: u64,
    pub interval_nanos: u32,
    pub max_cycles: Option<u64>,
    pub target_volume: Option<Decimal>,
}

/// Validated owner configuration. The pure strategy owns instrument identity
/// and per-cycle decisions; this type owns execution and lifecycle identity.
#[derive(Debug)]
pub struct VolumeMakerPaperTaskConfig {
    task_id: String,
    strategy: VolumeMakerStrategyConfig,
    cost_model: PaperCostModel,
    account_risk: bool,
    limits: CycleLimits,
}

impl VolumeMakerPaperTaskConfig {
    pub closed spec fn task_id_view(self) -> Seq<char> {
        self.task_id@
    }

    pub closed spec fn strategy_view(self) -> VolumeMakerStrategyConfig {
        self.strategy
    }

    pub closed spec fn cost_model_view(self) -> PaperCostModel {
        self.cost_model
    }

    pub closed spec fn account_risk_view(self) -> bool {
        self.account_risk
    }

    pub closed spec fn limits_view(self) -> CycleLimits {
        self.limits
    }

    /// Every configuration has safe identities.
    #[verifier::type_invariant]
    pub open spec fn is_safe(self) -> bool {
        &&& is_task_identity(self.task_id_view())
        &&& is_plain_identity(trim_of(self.strategy_view().exchange@))
    }

    /// Creates a bounded single-source volume-maker owner configuration;
    /// `InvalidConfig` for unsafe identities. White space round the owner's
    /// identity is dropped.
    pub fn new(
        task_id: &str,
        strategy: VolumeMakerStrategyConfig,
        cost_model: PaperCostModel,
    ) -> (r: Result<VolumeMakerPaperTaskConfig, VolumeMakerPaperTaskError>)
        ensures
            if is_task_identity(trim_of(task_id@)) && is_plain_identity(trim_of(strategy.exchange@)) {
                &&& r is Ok
                &&& r->Ok_0.task_id_view() == trim_of(task_id@)
                &&& r->Ok_0.strategy_view() == strategy
                &&& r->Ok_0.cost_model_view() == cost_model
                &&& !r->Ok_0.account_risk_view()
                &&& r->Ok_0.limits_view() == (CycleLimits {
                    interval_seconds: 0,
                    interval_nanos: 0,
                    max_cycles: None,
                    target_volume: None,
                })
            } else {
                r == Err::<VolumeMakerPaperTaskConfig, _>(VolumeMakerPaperTaskError::InvalidConfig)
            },
    {
        let task: String = trimmed(task_id);
        let venue: String = trimmed(&strategy.exchange);
        if !valid_task_identity(&task) || !valid_plain_identity(&venue) {
            return Err(VolumeMakerPaperTaskError::InvalidConfig);
        }
        Ok(
            VolumeMakerPaperTaskConfig {
                task_id: task,
                strategy,
                cost_model,
                account_risk: false,
                limits: CycleLimits {
                    interval_seconds: 0,
                    interval_nanos: 0,
                    max_cycles: None,
                    target_volume: None,
                },
            },
        )
    }

    /// Attaches the durable account-level risk authority. Open legs must pass
    /// its admission before any reservation is created; its close directives
    /// stop the owner.
    pub fn with_account_risk(self) -> (r: VolumeMakerPaperTaskConfig)
        ensures
            r.account_risk_view(),
            r.task_id_view() == self.task_id_view(),
            r.strategy_view() == self.strategy_view(),
            r.cost_model_view() == self.cost_model_view(),
            r.limits_view() == self.limits_view(),
    {
        proof {
            use_type_invariant(&self);
        }
        VolumeMakerPaperTaskConfig {
            task_id: self.task_id,
            strategy: self.strategy,
            cost_model: self.cost_model,
            account_risk: true,
            limits: self.limits,
        }
    }

    fn with_limits(self, limits: CycleLimits) -> (r: VolumeMakerPaperTaskConfig)
        ensures
            r.limits_view() == limits,
            r.task_id_view() == self.task_id_view(),
            r.strategy_view() == self.strategy_view(),
            r.cost_model_view() == self.cost_model_view(),
            r.account_risk_view() == self.account_risk_view(),
    {
        proof {
            use_type_invariant(&self);
        }
        VolumeMakerPaperTaskConfig {
            task_id: self.task_id,
            strategy: self.strategy,
            cost_model: self.cost_model,
            account_risk: self.account_risk,
            limits,
        }
    }

    /// Minimum event-time distance between one completed cycle and the next
    /// open leg.
    pub fn with_cycle_interval(self, seconds: u64, nanos: u32) -> (r: VolumeMakerPaperTaskConfig)
        ensures
            r.limits_view() == (CycleLimits {
                interval_seconds: seconds,
                interval_nanos: nanos,
                ..self.limits_view()
            }),
            r.task_id_view() == self.task_id_view(),
            r.strategy_view() == self.strategy_view(),
            r.cost_model_view() == self.cost_model_view(),
            r.account_risk_view() == self.account_risk_view(),
    {
        let mut limits: CycleLimits = self.limits;
        limits.interval_seconds = seconds;
        limits.interval_nanos = nanos;
        self.with_limits(limits)
    }

    /// Stops the owner cleanly once this many cycles have completed.
    pub fn with_max_cycles(self, max_cycles: u64) -> (r: VolumeMakerPaperTaskConfig)
        ensures
            r.limits_view() == (CycleLimits { max_cycles: Some(max_cycles), ..self.limits_view() }),
            r.task_id_view() == self.task_id_view(),
            r.strategy_view() == self.strategy_view(),
            r.cost_model_view() == self.cost_model_view(),
            r.account_risk_view() == self.account_risk_view(),
    {
        let mut limits: CycleLimits = self.limits;
        limits.max_cycles = Some(max_cycles);
        self.with_limits(limits)
    }

    /// Stops the owner cleanly once accumulated open-leg base volume reaches
    /// this bound.
    pub fn with_target_volume(self, target_volume: Decimal) -> (r: VolumeMakerPaperTaskConfig)
        ensures
            r.limits_view() == (CycleLimits {
                target_volume: Some(target_volume),
                ..self.limits_view()
            }),
            r.task_id_view() == self.task_id_view(),
            r.strategy_view() == self.strategy_view(),
            r.cost_model_view() == self.cost_model_view(),
            r.account_risk_view() == self.account_risk_view(),
    {
        let mut limits: CycleLimits = self.limits;
        limits.target_volume = Some(target_volume);
        self.with_limits(limits)
    }

    pub fn task_id(&self) -> (r: &str)
        ensures
            r@ == self.task_id_view(),
    {
        self.task_id.as_str()
    }

    pub fn exchange(&self) -> (r: &str)
        ensures
            r@ == self.strategy_view().exchange@,
    {
        self.strategy.exchange.as_str()
    }

    pub fn symbol(&self) -> (r: &str)
        ensures
            r@ == self.strategy_view().symbol@,
    {
        self.strategy.symbol.as_str()
    }

    pub fn strategy(&self) -> (r: &VolumeMakerStrategyConfig)
        ensures
            *r == self.strategy_view(),
    {
        &self.strategy
    }

    pub fn has_account_risk(&self) -> (r: bool)
        ensures
            r == self.account_risk_view(),
    {
        self.account_risk
    }

    pub fn cost_model(&self) -> (r: PaperCostModel)
        ensures
            r == self.cost_model_view(),
    {
        self.cost_model
    }

    pub fn limits(&self) -> (r: CycleLimits)
        ensures
            r == self.limits_view(),
    {
        self.limits
    }
}

/// Latest durable lifecycle status plus operation and cycle counts.
#[derive(Clone, Debug)]
pub struct VolumeMakerPaperTaskStatus {
    pub schema_version: u16,
    pub task_id: String,
    pub phase: VolumeMakerPaperTaskPhase,
    pub processed_event_count: u64,
    pub operation_count: u64,
    pub completed_cycle_count: u64,
    pub last_recorded_at: Option<Timestamp>,
    pub exit: Option<VolumeMakerPaperTaskExit>,
    pub failure: Option<VolumeMakerPaperTaskFailure>,
    pub runtime_failure: Option<VolumeMakerPaperTaskFailure>,
}

pub open spec fn volume_exit_label(exit: Option<VolumeMakerPaperTaskExit>) -> Option<Seq<char>> {
    match exit {
        Some(found) => Some(volume_exit_text(found)),
        None => None,
    }
}

pub open spec fn volume_failure_label(failure: Option<VolumeMakerPaperTaskFailure>) -> Option<
    Seq<char>,
> {
    match failure {
        Some(found) => Some(volume_failure_text(found)),
        None => None,
    }
}

/// The lifecycle record of a status under a decision.
pub fn status_record(
    status: &VolumeMakerPaperTaskStatus,
    decision: &'static str,
    recorded_at: Timestamp,
) -> (r: TaskRecord)
    ensures
        is_task_record(
            r,
            status.task_id@,
            VOLUME_TASK_KIND@,
            decision@,
            volume_phase_text(status.phase),
            status.processed_event_count,
            volume_exit_label(status.exit),
            volume_failure_label(status.failure),
            recorded_at,
        ),
{
    let exit: Option<&'static str> = match status.exit {
        Some(found) => Some(task_exit_label(found)),
        None => None,
    };
    let failure: Option<&'static str> = match status.failure {
        Some(found) => Some(task_failure_label(found)),
        None => None,
    };
    lifecycle_record(
        &status.task_id,
        VOLUME_TASK_KIND,
        decision,
        task_phase_label(status.phase),
        status.processed_event_count,
        exit,
        failure,
        recorded_at,
    )
}

/// The status of an owner that something outside it ended: failed, with
/// nothing left of an exit or a runtime failure, and never recorded earlier
/// than before.
pub fn external_failure_status(
    status: VolumeMakerPaperTaskStatus,
    failure: VolumeMakerPaperTaskFailure,
    now: Timestamp,
) -> (r: VolumeMakerPaperTaskStatus)
    ensures
        r == (VolumeMakerPaperTaskStatus {
            phase: VolumeMakerPaperTaskPhase::Failed,
            failure: Some(failure),
            exit: None,
            runtime_failure: None,
            last_recorded_at: Some(
                match status.last_recorded_at {
                    Some(before) => later_of(now, before),
                    None => now,
                },
            ),
            ..status
        }),
{
    let mut failed: VolumeMakerPaperTaskStatus = status;
    failed.phase = VolumeMakerPaperTaskPhase::Failed;
    failed.failure = Some(failure);
    failed.exit = None;
    failed.runtime_failure = None;
    failed.last_recorded_at = Some(
        match failed.last_recorded_at {
            Some(before) => now.later(before),
            None => now,
        },
    );
    failed
}

/// The number that a new owner continues from; `RecoveryRequired` where the
/// account has to be reconciled or an earlier owner is not settled.
pub fn recovery_preflight(
    task_id: &str,
    snapshot: &PaperAccountSnapshot,
    earlier: Option<EarlierTask>,
) -> (r: Result<u64, VolumeMakerPaperTaskError>)
    ensures
        r == match preflight_of(Ownership::Prefix, *snapshot, task_id@) {
            Some(sequence) if earlier_task_is_settled(earlier) => Ok::<
                u64,
                VolumeMakerPaperTaskError,
            >(sequence),
            _ => Err(VolumeMakerPaperTaskError::RecoveryRequired),
        },
{
    match account_preflight(Ownership::Prefix, snapshot, task_id) {
        None => Err(VolumeMakerPaperTaskError::RecoveryRequired),
        Some(sequence) => {
            if earlier_task_settled(earlier) {
                Ok(sequence)
            } else {
                Err(VolumeMakerPaperTaskError::RecoveryRequired)
            }
        },
    }
}

/// The owner's source fits its configuration: the account and the owner share
/// a journal, the strategy names an instrument, and the source is the owner's
/// exchange.
pub fn source_is_bound(
    config: &VolumeMakerPaperTaskConfig,
    same_journal: bool,
    source_id: &str,
) -> (r: bool)
    ensures
        r == (same_journal && trim_of(config.strategy_view().symbol@).len() > 0 && source_id@
            == config.strategy_view().exchange@),
{
    same_journal && !trimmed(config.symbol()).as_str().is_empty() && same_text(
        source_id,
        config.exchange(),
    )
}

/// What an event is to the owner.
#[derive(Clone, Copy, Debug, PartialEq, Eq, Structural)]
pub enum ObservedEvent {
    /// A gap or an outage of the source.
    Gap,
    /// An observation of another instrument.
    Foreign,
    /// An observation of the owner's instrument.
    Observation { at: Timestamp },
}

/// What an event is to the owner.
pub open spec fn observed_event(strategy: VolumeMakerStrategyConfig, event: MarketDataEvent) -> ObservedEvent {
    match event {
        MarketDataEvent::Observation { snapshot, received_at, .. } => if is_instrument(
            snapshot,
            strategy.exchange@,
            strategy.symbol@,
            strategy.market_type,
        ) {
            ObservedEvent::Observation { at: received_at }
        } else {
            ObservedEvent::Foreign
        },
        _ => ObservedEvent::Gap,
    }
}

/// What an event is to the owner.
pub fn observation_view(config: &VolumeMakerPaperTaskConfig, event: &MarketDataEvent) -> (r:
    ObservedEvent)
    ensures
        r == observed_event(config.strategy_view(), *event),
{
    match event {
        MarketDataEvent::Observation { snapshot, received_at, .. } => {
            if snapshot.matches(config.exchange(), config.symbol(), config.strategy().market_type) {
                ObservedEvent::Observation { at: *received_at }
            } else {
                ObservedEvent::Foreign
            }
        },
        MarketDataEvent::SourceGap { .. } | MarketDataEvent::SourceUnavailable { .. } => ObservedEvent::Gap,
    }
}

/// One standing virtual maker quote awaiting a crossing observation.
#[derive(Clone, Copy, Debug)]
pub struct StandingQuote {
    pub bid: Decimal,
    pub ask: Decimal,
}

/// Position opened by the current cycle, awaiting its reduce-only close.
#[derive(Clone, Copy, Debug)]
pub struct OpenPosition {
    pub side: Side,
    pub quantity: Decimal,
    pub open_price: Decimal,
}

/// One bounded per-hour statistics accumulator.
#[derive(Clone, Copy, Debug)]
pub struct StatisticsBucket {
    pub hour_start: Timestamp,
    pub completed_cycles: u64,
    pub buy_volume: Decimal,
    pub sell_volume: Decimal,
    pub realized_pnl: Decimal,
    pub rejected_entries: u64,
}

/// The accumulator of an hour in which nothing happened yet.
pub open spec fn empty_bucket(hour_start: Timestamp) -> StatisticsBucket {
    let zero = decimal_of((0i128, 0u32));
    StatisticsBucket {
        hour_start,
        completed_cycles: 0,
        buy_volume: zero,
        sell_volume: zero,
        realized_pnl: zero,
        rejected_entries: 0,
    }
}

/// Nothing happened in the hour.
pub open spec fn bucket_is_empty(bucket: StatisticsBucket) -> bool {
    bucket.completed_cycles == 0 && bucket.rejected_entries == 0
}

impl StatisticsBucket {
    pub fn new(hour_start: Timestamp) -> (r: StatisticsBucket)
        ensures
            r == empty_bucket(hour_start),
            bucket_is_empty(r),
    {
        StatisticsBucket {
            hour_start,
            completed_cycles: 0,
            buy_volume: Decimal::zero(),
            sell_volume: Decimal::zero(),
            realized_pnl: Decimal::zero(),
            rejected_entries: 0,
        }
    }

    pub fn is_empty(&self) -> (r: bool)
        ensures
            r == bucket_is_empty(*self),
    {
        self.completed_cycles == 0 && self.rejected_entries == 0
    }
}

/// Which leg of a cycle an operation is.
#[derive(Clone, Copy, Debug, PartialEq, Eq, Structural)]
pub enum PlannedKind {
    Open,
    Close,
}

/// What one observation asks the owner to execute.
#[derive(Debug)]
pub struct PlannedOperation {
    pub intent: OrderIntent,
    pub kind: PlannedKind,
    pub reference_price: Decimal,
}

/// What the strategy is asked about.
#[derive(Clone, Copy, Debug)]
pub enum VolumeMakerState {
    Flat,
    Open { side: Side, quantity: Decimal },
}

/// What the strategy answered.
#[derive(Debug)]
pub enum StrategyAnswer {
    Intents(Vec<OrderIntent>),
    /// The book shows no depth.
    MissingMarketData,
    Failed,
}

/// What an observation comes to before the strategy is asked.
#[derive(Debug)]
pub enum PlanStep {
    /// Nothing is executed.
    Rest,
    Execute(PlannedOperation),
    Evaluate(VolumeMakerState),
}

/// What an observation comes to: a position closes first; after a cycle the
/// owner keeps its pace; a standing quote opens a cycle where the book crosses
/// it, the bid first; else the strategy is asked.
#[derive(Clone, Copy, Debug)]
pub enum PlanOutline {
    Rest,
    Cross { side: Side, price: Decimal },
    EvaluateOpen { side: Side, quantity: Decimal },
    EvaluateFlat,
}

pub open spec fn plan_of(
    mode: VolumeMakerMode,
    position: Option<OpenPosition>,
    quote: Option<StandingQuote>,
    next_cycle_at: Option<Timestamp>,
    snapshot: MarketSnapshot,
    observed_at: Timestamp,
) -> PlanOutline {
    if position is Some {
        PlanOutline::EvaluateOpen { side: position->0.side, quantity: position->0.quantity }
    } else if next_cycle_at is Some && observed_at.rank() < next_cycle_at->0.rank() {
        PlanOutline::Rest
    } else if mode == VolumeMakerMode::LimitBoth && quote is Some && !less_than(
        quote->0.bid@,
        snapshot.ask@,
    ) {
        PlanOutline::Cross { side: Side::Buy, price: quote->0.bid }
    } else if mode == VolumeMakerMode::LimitBoth && quote is Some && !less_than(
        snapshot.bid@,
        quote->0.ask@,
    ) {
        PlanOutline::Cross { side: Side::Sell, price: quote->0.ask }
    } else {
        PlanOutline::EvaluateFlat
    }
}

/// The step carries the outline out: the quote that the book crossed becomes
/// an open leg at its own price.
pub open spec fn is_plan(
    step: PlanStep,
    outline: PlanOutline,
    strategy: VolumeMakerStrategyConfig,
    client_order_id: u128,
) -> bool {
    match outline {
        PlanOutline::Rest => step is Rest,
        PlanOutline::EvaluateFlat => step is Evaluate && step->Evaluate_0 is Flat,
        PlanOutline::EvaluateOpen { side, quantity } => step == PlanStep::Evaluate(
            VolumeMakerState::Open { side, quantity },
        ),
        PlanOutline::Cross { side, price } => {
            &&& step is Execute
            &&& step->Execute_0.kind == PlannedKind::Open
            &&& step->Execute_0.reference_price == price
            &&& step->Execute_0.intent.client_order_id == client_order_id
            &&& is_limit_intent(
                step->Execute_0.intent,
                strategy.exchange@,
                strategy.symbol@,
                strategy.market_type,
                side,
                strategy.order_quantity,
                price,
                false,
            )
        },
    }
}

fn open_at(
    config: &VolumeMakerPaperTaskConfig,
    side: Side,
    price: Decimal,
    client_order_id: u128,
) -> (r: PlanStep)
    ensures
        is_plan(r, PlanOutline::Cross { side, price }, config.strategy_view(), client_order_id),
{
    let strategy: &VolumeMakerStrategyConfig = config.strategy();
    let intent: OrderIntent = limit_intent(
        client_order_id,
        config.exchange(),
        config.symbol(),
        strategy.market_type,
        side,
        strategy.order_quantity,
        price,
        false,
    );
    PlanStep::Execute(PlannedOperation { intent, kind: PlannedKind::Open, reference_price: price })
}

/// Decides what this observation executes, as far as that can be said without
/// the strategy.
pub fn plan_operation(
    config: &VolumeMakerPaperTaskConfig,
    position: Option<OpenPosition>,
    quote: Option<StandingQuote>,
    next_cycle_at: Option<Timestamp>,
    snapshot: &MarketSnapshot,
    observed_at: Timestamp,
    client_order_id: u128,
) -> (r: PlanStep)
    ensures
        is_plan(
            r,
            plan_of(
                config.strategy_view().mode,
                position,
                quote,
                next_cycle_at,
                *snapshot,
                observed_at,
            ),
            config.strategy_view(),
            client_order_id,
        ),
{
    if let Some(open) = position {
        return PlanStep::Evaluate(
            VolumeMakerState::Open { side: open.side, quantity: open.quantity },
        );
    }
    if let Some(at) = next_cycle_at {
        if observed_at.is_before(at) {
            return PlanStep::Rest;
        }
    }
    if config.strategy().mode == VolumeMakerMode::LimitBoth {
        if let Some(standing) = quote {
            if !standing.bid.is_less_than(snapshot.ask) {
                return open_at(config, Side::Buy, standing.bid, client_order_id);
            }
            if !snapshot.bid.is_less_than(standing.ask) {
                return open_at(config, Side::Sell, standing.ask, client_order_id);
            }
        }
    }
    PlanStep::Evaluate(VolumeMakerState::Flat)
}

/// The price of the first order on a side, where there is one with a price.
pub open spec fn first_price(intents: Seq<OrderIntent>, side: Side) -> Option<Decimal>
    decreases intents.len(),
{
    if intents.len() == 0 {
        None
    } else if intents[0].side == side {
        intents[0].price
    } else {
        first_price(intents.skip(1), side)
    }
}

fn find_price(intents: &Vec<OrderIntent>, side: Side) -> (r: Option<Decimal>)
    ensures
        r == first_price(intents@, side),
{
    let mut i: usize = 0;
    assert(intents@.skip(0) =~= intents@);
    while i < intents.len()
        invariant
            i <= intents.len(),
            first_price(intents@, side) == first_price(intents@.skip(i as int), side),
        decreases intents.len() - i,
    {
        assert(intents@.skip(i as int)[0] == intents@[i as int]);
        assert(intents@.skip(i as int).skip(1) =~= intents@.skip(i + 1));
        if intents[i].side == side {
            return intents[i].price;
        }
        i = i + 1;
    }
    None
}

/// Consumes the strategy's flat-plan quote pair into one standing quote;
/// `InvalidRequest` where a side is missing.
pub fn standing_quote(intents: &Vec<OrderIntent>) -> (r: Result<
    StandingQuote,
    VolumeMakerPaperTaskError,
>)
    ensures
        r == match (first_price(intents@, Side::Buy), first_price(intents@, Side::Sell)) {
            (Some(bid), Some(ask)) => Ok::<StandingQuote, VolumeMakerPaperTaskError>(
                StandingQuote { bid, ask },
            ),
            _ => Err(VolumeMakerPaperTaskError::InvalidRequest),
        },
{
    match (find_price(intents, Side::Buy), find_price(intents, Side::Sell)) {
        (Some(bid), Some(ask)) => Ok(StandingQuote { bid, ask }),
        _ => Err(VolumeMakerPaperTaskError::InvalidRequest),
    }
}

/// What the strategy's answer comes to: the operation, if any, and the quote
/// that stands from now on.
pub open spec fn evaluated_plan(
    mode: VolumeMakerMode,
    state: VolumeMakerState,
    quote: Option<StandingQuote>,
    snapshot: MarketSnapshot,
    answer: StrategyAnswer,
) -> Result<(Option<PlannedOperation>, Option<StandingQuote>), VolumeMakerPaperTaskError> {
    match (state, answer) {
        (VolumeMakerState::Open { .. }, StrategyAnswer::Intents(intents)) => Ok(
            (first_operation(intents@, PlannedKind::Close, snapshot), quote),
        ),
        (VolumeMakerState::Open { .. }, _) => Err(VolumeMakerPaperTaskError::Strategy),
        (VolumeMakerState::Flat, StrategyAnswer::Intents(intents)) => match mode {
            VolumeMakerMode::LimitBoth => match (
                first_price(intents@, Side::Buy),
                first_price(intents@, Side::Sell),
            ) {
                (Some(bid), Some(ask)) => Ok((None, Some(StandingQuote { bid, ask }))),
                _ => Err(VolumeMakerPaperTaskError::InvalidRequest),
            },
            VolumeMakerMode::MarketImbalance => Ok(
                (first_operation(intents@, PlannedKind::Open, snapshot), quote),
            ),
        },
        (VolumeMakerState::Flat, StrategyAnswer::MissingMarketData) => match mode {
            VolumeMakerMode::LimitBoth => Err(VolumeMakerPaperTaskError::Strategy),
            // A book without depth skips a cycle.
            VolumeMakerMode::MarketImbalance => Ok((None, quote)),
        },
        (VolumeMakerState::Flat, StrategyAnswer::Failed) => Err(VolumeMakerPaperTaskError::Strategy),
    }
}

/// The first order as an operation at the touch price of its side.
pub open spec fn first_operation(
    intents: Seq<OrderIntent>,
    kind: PlannedKind,
    snapshot: MarketSnapshot,
) -> Option<PlannedOperation> {
    if intents.len() == 0 {
        None
    } else {
        Some(
            PlannedOperation {
                intent: intents[0],
                kind,
                reference_price: touch_price(snapshot, intents[0].side),
            },
        )
    }
}

fn take_first(intents: Vec<OrderIntent>, kind: PlannedKind, snapshot: &MarketSnapshot) -> (r: Option<
    PlannedOperation,
>)
    ensures
        r == first_operation(intents@, kind, *snapshot),
{
    let mut left: Vec<OrderIntent> = intents;
    if left.len() == 0 {
        return None;
    }
    let intent: OrderIntent = left.remove(0);
    let reference_price: Decimal = snapshot.touch(intent.side);
    Some(PlannedOperation { intent, kind, reference_price })
}

/// Decides what this observation executes, once the strategy has answered.
pub fn plan_evaluated(
    mode: VolumeMakerMode,
    state: VolumeMakerState,
    quote: Option<StandingQuote>,
    snapshot: &MarketSnapshot,
    answer: StrategyAnswer,
) -> (r: Result<
    (Option<PlannedOperation>, Option<StandingQuote>),
    VolumeMakerPaperTaskError,
>)
    ensures
        r == evaluated_plan(mode, state, quote, *snapshot, answer),
{
    match (state, answer) {
        (VolumeMakerState::Open { .. }, StrategyAnswer::Intents(intents)) => Ok(
            (take_first(intents, PlannedKind::Close, snapshot), quote),
        ),
        (VolumeMakerState::Open { .. }, _) => Err(VolumeMakerPaperTaskError::Strategy),
        (VolumeMakerState::Flat, StrategyAnswer::Intents(intents)) => match mode {
            VolumeMakerMode::LimitBoth => match standing_quote(&intents) {
                Ok(standing) => Ok((None, Some(standing))),
                Err(error) => Err(error),
            },
            VolumeMakerMode::MarketImbalance => Ok(
                (take_first(intents, PlannedKind::Open, snapshot), quote),
            ),
        },
        (VolumeMakerState::Flat, StrategyAnswer::MissingMarketData) => match mode {
            VolumeMakerMode::LimitBoth => Err(VolumeMakerPaperTaskError::Strategy),
            VolumeMakerMode::MarketImbalance => Ok((None, quote)),
        },
        (VolumeMakerState::Flat, StrategyAnswer::Failed) => Err(VolumeMakerPaperTaskError::Strategy),
    }
}

/// The notional that an open leg asks account risk for.
pub fn open_notional(operation: &PlannedOperation) -> (r: Result<Decimal, VolumeMakerPaperTaskError>)
    ensures
        match product_of(operation.reference_price@, operation.intent.quantity@) {
            Some(notional) => r is Ok && r->Ok_0@ == notional,
            None => r == Err::<Decimal, _>(VolumeMakerPaperTaskError::InvalidRequest),
        },
{
    match operation.reference_price.checked_mul(operation.intent.quantity) {
        Some(notional) => Ok(notional),
        None => Err(VolumeMakerPaperTaskError::InvalidRequest),
    }
}

/// What account risk is asked about an open leg; `InvalidRequest` where its
/// notional cannot be computed.
pub fn open_candidate(config: &VolumeMakerPaperTaskConfig, operation: &PlannedOperation) -> (r:
    Result<AccountRiskCandidate, VolumeMakerPaperTaskError>)
    ensures
        match product_of(operation.reference_price@, operation.intent.quantity@) {
            Some(notional) => r is Ok && is_candidate(
                r->Ok_0,
                config.task_id_view(),
                config.strategy_view().symbol@,
                notional,
            ),
            None => r == Err::<AccountRiskCandidate, _>(VolumeMakerPaperTaskError::InvalidRequest),
        },
{
    match open_notional(operation) {
        Ok(notional) => Ok(risk_candidate(config.task_id(), config.symbol(), notional)),
        Err(error) => Err(error),
    }
}

/// Builds the operation of one leg, reserved at its reference price. The
/// reservation names no admission. `InvalidRequest` where its notional cannot be
/// computed, and a saga failure where the order is not one for the owner's
/// symbol.
pub fn build_request(
    config: &VolumeMakerPaperTaskConfig,
    operation: &PlannedOperation,
    operation_sequence: u64,
    ids: FreshIds,
) -> (r: Result<PaperSingleLegRequest, VolumeMakerPaperTaskError>)
    ensures
        if product_of(operation.reference_price@, operation.intent.quantity@) is None {
            r == Err::<PaperSingleLegRequest, _>(VolumeMakerPaperTaskError::InvalidRequest)
        } else if operation.intent.symbol@ != config.strategy_view().symbol@ {
            r == Err::<PaperSingleLegRequest, _>(
                VolumeMakerPaperTaskError::Saga(SagaFailure::InvalidRequest),
            )
        } else {
            r is Ok && is_single_leg_operation(
                r->Ok_0,
                config.task_id_view(),
                "volume"@,
                operation_sequence,
                operation.intent,
                operation.reference_price,
                ids,
                config.cost_model_view(),
                None,
                None,
            )
        },
{
    match single_leg_operation(
        config.task_id(),
        "volume",
        operation_sequence,
        config.symbol(),
        operation.intent.copy(),
        operation.reference_price,
        ids,
        config.cost_model(),
        None,
        None,
    ) {
        Ok(request) => Ok(request),
        Err(OperationFlaw::Notional) => Err(VolumeMakerPaperTaskError::InvalidRequest),
        Err(OperationFlaw::OtherSymbol) => Err(
            VolumeMakerPaperTaskError::Saga(SagaFailure::InvalidRequest),
        ),
    }
}

/// The price that the first receipt was filled at, or the fallback.
pub open spec fn fill_price_of(receipts: Seq<TradingReceipt>, fallback: Decimal) -> Decimal {
    if receipts.len() == 0 {
        fallback
    } else {
        match receipts[0] {
            TradingReceipt::Submitted { order, .. } => match order.average_fill_price {
                Some(price) => price,
                None => fallback,
            },
            TradingReceipt::Cancelled { .. } => fallback,
        }
    }
}

pub fn receipt_fill_price(receipts: &Vec<TradingReceipt>, fallback: Decimal) -> (r: Decimal)
    ensures
        r == fill_price_of(receipts@, fallback),
{
    if receipts.len() == 0 {
        return fallback;
    }
    match &receipts[0] {
        TradingReceipt::Submitted { order, .. } => match order.average_fill_price {
            Some(price) => price,
            None => fallback,
        },
        TradingReceipt::Cancelled { .. } => fallback,
    }
}

/// Where the current cycle stands, with the hour's statistics.
#[derive(Clone, Copy, Debug)]
pub struct CycleState {
    pub position: Option<OpenPosition>,
    pub quote: Option<StandingQuote>,
    pub bucket: StatisticsBucket,
    pub total_volume: Decimal,
}

/// What closing the position earns: a bought position realizes close minus
/// open, a sold one open minus close, on the whole quantity.
pub open spec fn realized(open: OpenPosition, fill: (i128, u32)) -> Option<(i128, u32)> {
    let per_unit = match open.side {
        Side::Buy => difference_of(fill, open.open_price@),
        Side::Sell => difference_of(open.open_price@, fill),
    };
    match per_unit {
        Some(unit) => product_of(unit, open.quantity@),
        None => None,
    }
}

/// The volume that the hour has on a side.
pub open spec fn side_volume(bucket: StatisticsBucket, side: Side) -> Decimal {
    match side {
        Side::Buy => bucket.buy_volume,
        Side::Sell => bucket.sell_volume,
    }
}

/// The cycle after its close: what it earned and its open leg's quantity are
/// counted, the latter on the side that opened it.
pub open spec fn closed_cycle(cycle: CycleState, open: OpenPosition, fill: (i128, u32)) -> Option<
    CycleState,
> {
    let earned = match realized(open, fill) {
        Some(pnl) => sum_of(cycle.bucket.realized_pnl@, pnl),
        None => None,
    };
    let volume = sum_of(side_volume(cycle.bucket, open.side)@, open.quantity@);
    let total = sum_of(cycle.total_volume@, open.quantity@);
    if earned is None || volume is None || total is None {
        None
    } else {
        let counted = decimal_of(volume->0);
        Some(
            CycleState {
                position: None,
                quote: cycle.quote,
                bucket: StatisticsBucket {
                    realized_pnl: decimal_of(earned->0),
                    buy_volume: if open.side == Side::Buy {
                        counted
                    } else {
                        cycle.bucket.buy_volume
                    },
                    sell_volume: if open.side == Side::Sell {
                        counted
                    } else {
                        cycle.bucket.sell_volume
                    },
                    completed_cycles: if cycle.bucket.completed_cycles == u64::MAX {
                        u64::MAX
                    } else {
                        (cycle.bucket.completed_cycles + 1) as u64
                    },
                    ..cycle.bucket
                },
                total_volume: decimal_of(total->0),
            },
        )
    }
}

/// What a finished operation does to the cycle, and whether it completes it.
pub open spec fn consumed(
    cycle: CycleState,
    operation: PlannedOperation,
    run: PaperSingleLegRun,
) -> Result<(CycleState, bool), VolumeMakerPaperTaskError> {
    match run {
        PaperSingleLegRun::Completed { receipts } => {
            let fill = fill_price_of(receipts@, operation.reference_price);
            match operation.kind {
                PlannedKind::Open => Ok(
                    (
                        CycleState {
                            position: Some(
                                OpenPosition {
                                    side: operation.intent.side,
                                    quantity: operation.intent.quantity,
                                    open_price: fill,
                                },
                            ),
                            quote: None,
                            ..cycle
                        },
                        false,
                    ),
                ),
                PlannedKind::Close => match cycle.position {
                    None => Err(VolumeMakerPaperTaskError::InvalidRequest),
                    Some(open) => match closed_cycle(cycle, open, fill@) {
                        Some(closed) => Ok((closed, true)),
                        None => Err(VolumeMakerPaperTaskError::InvalidRequest),
                    },
                },
            }
        },
        // A confirmed cancel releases the reservation; the cycle retries on a
        // later observation.
        PaperSingleLegRun::Cancelled { .. } => Ok(
            (
                if operation.kind == PlannedKind::Open {
                    CycleState { quote: None, ..cycle }
                } else {
                    cycle
                },
                false,
            ),
        ),
        PaperSingleLegRun::AlreadyTerminal { .. } => Err(
            VolumeMakerPaperTaskError::RecoveryRequired,
        ),
    }
}

fn close_cycle(cycle: CycleState, open: OpenPosition, fill: Decimal) -> (r: Option<CycleState>)
    ensures
        r == closed_cycle(cycle, open, fill@),
{
    let per_unit: Option<Decimal> = match open.side {
        Side::Buy => fill.checked_sub(open.open_price),
        Side::Sell => open.open_price.checked_sub(fill),
    };
    let pnl: Decimal = match per_unit {
        None => return None,
        Some(unit) => match unit.checked_mul(open.quantity) {
            None => return None,
            Some(pnl) => pnl,
        },
    };
    let mut bucket: StatisticsBucket = cycle.bucket;
    bucket.realized_pnl = match bucket.realized_pnl.checked_add(pnl) {
        None => return None,
        Some(earned) => earned,
    };
    match open.side {
        Side::Buy => {
            bucket.buy_volume = match bucket.buy_volume.checked_add(open.quantity) {
                None => return None,
                Some(volume) => volume,
            };
        },
        Side::Sell => {
            bucket.sell_volume = match bucket.sell_volume.checked_add(open.quantity) {
                None => return None,
                Some(volume) => volume,
            };
        },
    }
    let total_volume: Decimal = match cycle.total_volume.checked_add(open.quantity) {
        None => return None,
        Some(total) => total,
    };
    bucket.completed_cycles = bucket.completed_cycles.saturating_add(1);
    Some(CycleState { position: None, quote: cycle.quote, bucket, total_volume })
}

/// Applies one terminal saga run to the owner's cycle state and statistics, and
/// says whether it completed the cycle.
pub fn consume_run(
    cycle: CycleState,
    operation: &PlannedOperation,
    run: &PaperSingleLegRun,
) -> (r: Result<(CycleState, bool), VolumeMakerPaperTaskError>)
    ensures
        r == consumed(cycle, *operation, *run),
{
    match run {
        PaperSingleLegRun::Completed { receipts } => {
            let fill: Decimal = receipt_fill_price(receipts, operation.reference_price);
            match operation.kind {
                PlannedKind::Open => {
                    let mut opened: CycleState = cycle;
                    opened.position = Some(
                        OpenPosition {
                            side: operation.intent.side,
                            quantity: operation.intent.quantity,
                            open_price: fill,
                        },
                    );
                    opened.quote = None;
                    Ok((opened, false))
                },
                PlannedKind::Close => match cycle.position {
                    None => Err(VolumeMakerPaperTaskError::InvalidRequest),
                    Some(open) => match close_cycle(cycle, open, fill) {
                        Some(closed) => Ok((closed, true)),
                        None => Err(VolumeMakerPaperTaskError::InvalidRequest),
                    },
                },
            }
        },
        PaperSingleLegRun::Cancelled { .. } => {
            let mut released: CycleState = cycle;
            if operation.kind == PlannedKind::Open {
                released.quote = None;
            }
            Ok((released, false))
        },
        PaperSingleLegRun::AlreadyTerminal { .. } => Err(
            VolumeMakerPaperTaskError::RecoveryRequired,
        ),
    }
}

/// A bound on the cycles or on the volume is reached.
pub open spec fn at_bound(limits: CycleLimits, completed_cycles: u64, total_volume: (i128, u32)) -> bool {
    ||| limits.max_cycles is Some && completed_cycles >= limits.max_cycles->0
    ||| limits.target_volume is Some && !less_than(total_volume, limits.target_volume->0@)
}

pub fn bounds_reached(limits: CycleLimits, completed_cycles: u64, total_volume: Decimal) -> (r: bool)
    ensures
        r == at_bound(limits, completed_cycles, total_volume@),
{
    if let Some(max_cycles) = limits.max_cycles {
        if completed_cycles >= max_cycles {
            return true;
        }
    }
    if let Some(target) = limits.target_volume {
        if !total_volume.is_less_than(target) {
            return true;
        }
    }
    false
}

/// Why a statistics fact is written.
#[derive(Clone, Copy, Debug, PartialEq, Eq, Structural)]
pub enum StatisticsReason {
    HourRollover,
    Stop,
}

pub open spec fn statistics_reason_text(reason: StatisticsReason) -> Seq<char> {
    match reason {
        StatisticsReason::HourRollover => "hour_rollover"@,
        StatisticsReason::Stop => "stop"@,
    }
}

/// One bounded durable statistics fact.
#[derive(Debug)]
pub struct StatisticsRecord {
    pub recorded_at: Timestamp,
    pub strategy: &'static str,
    pub symbol: String,
    pub decision: &'static str,
    pub schema_version: u16,
    pub task_id: String,
    pub task_kind: &'static str,
    pub bucket_start: Option<String>,
    pub completed_cycles: u64,
    pub buy_volume: String,
    pub sell_volume: String,
    pub total_volume: String,
    pub realized_pnl: String,
    pub rejected_entries: u64,
    pub reason: &'static str,
}

/// The volume of the hour on both sides.
pub open spec fn hour_volume(bucket: StatisticsBucket) -> Option<(i128, u32)> {
    sum_of(bucket.buy_volume@, bucket.sell_volume@)
}

/// The statistics fact of one hour, written out.
pub open spec fn is_statistics_record(
    record: StatisticsRecord,
    config: VolumeMakerPaperTaskConfig,
    bucket: StatisticsBucket,
    reason: StatisticsReason,
    recorded_at: Timestamp,
) -> bool {
    &&& record.recorded_at == recorded_at
    &&& record.strategy@ == VOLUME_MAKER_STRATEGY@
    &&& record.symbol@ == config.strategy_view().symbol@
    &&& record.decision@ == "volume_maker_statistics"@
    &&& record.schema_version == VOLUME_MAKER_STATISTICS_SCHEMA_VERSION
    &&& record.task_id@ == config.task_id_view()
    &&& record.task_kind@ == VOLUME_TASK_KIND@
    &&& text_in(record.bucket_start) == instant_text(bucket.hour_start)
    &&& record.completed_cycles == bucket.completed_cycles
    &&& record.buy_volume@ == text_of(bucket.buy_volume@)
    &&& record.sell_volume@ == text_of(bucket.sell_volume@)
    &&& record.total_volume@ == text_of(hour_volume(bucket)->0)
    &&& record.realized_pnl@ == text_of(bucket.realized_pnl@)
    &&& record.rejected_entries == bucket.rejected_entries
    &&& record.reason@ == statistics_reason_text(reason)
}

/// The statistics fact of one hour; `InvalidRequest` where its volume cannot be
/// computed.
pub fn statistics_record(
    config: &VolumeMakerPaperTaskConfig,
    bucket: &StatisticsBucket,
    reason: StatisticsReason,
    recorded_at: Timestamp,
) -> (r: Result<StatisticsRecord, VolumeMakerPaperTaskError>)
    ensures
        hour_volume(*bucket) is None ==> r == Err::<StatisticsRecord, _>(
            VolumeMakerPaperTaskError::InvalidRequest,
        ),
        hour_volume(*bucket) is Some ==> r is Ok && is_statistics_record(
            r->Ok_0,
            *config,
            *bucket,
            reason,
            recorded_at,
        ),
{
    let total: Decimal = match bucket.buy_volume.checked_add(bucket.sell_volume) {
        Some(total) => total,
        None => return Err(VolumeMakerPaperTaskError::InvalidRequest),
    };
    Ok(
        StatisticsRecord {
            recorded_at,
            strategy: VOLUME_MAKER_STRATEGY,
            symbol: config.symbol().to_owned(),
            decision: "volume_maker_statistics",
            schema_version: VOLUME_MAKER_STATISTICS_SCHEMA_VERSION,
            task_id: config.task_id().to_owned(),
            task_kind: VOLUME_TASK_KIND,
            bucket_start: bucket.hour_start.to_rfc3339(),
            completed_cycles: bucket.completed_cycles,
            buy_volume: bucket.buy_volume.to_text(),
            sell_volume: bucket.sell_volume.to_text(),
            total_volume: total.to_text(),
            realized_pnl: bucket.realized_pnl.to_text(),
            rejected_entries: bucket.rejected_entries,
            reason: match reason {
                StatisticsReason::HourRollover => "hour_rollover",
                StatisticsReason::Stop => "stop",
            },
        },
    )
}

} // verus!
