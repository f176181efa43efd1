//! Durable continuous owner for one exact cross-exchange pair.
//!
//! Every planned decision becomes one two-leg saga operation. This module
//! holds the owner's identity, what it reads from the account, and the
//! operations it builds; the loop itself is in `arbitrage_owner`.

use crate::arbitrage_plan::ArbitrageDecisionKind;
use crate::decimal::{number_in, parsed_number, product_of, Decimal};
use crate::json::text_in;
use crate::monitor::{
    ArbitrageMonitorEvent, ArbitrageMonitorOutcome, MarketInstrument, MeasuredSpread,
};
use crate::paper_admission::PaperAdmissionCompensationError;
use crate::paper_arbitrage_saga::PaperArbitrageSagaError;
use crate::paper_task::{
    is_task_identity, is_task_record, lifecycle_record, valid_task_identity, TaskRecord,
};
use crate::requests::PaperCostModel;
use crate::text::{joined, same_text, trim_of, trimmed};
use crate::timestamp::{later_of, Timestamp};
use vstd::prelude::*;

verus! {

/// Stable version of the process-local arbitrage owner status.
pub const ARBITRAGE_PAPER_TASK_STATUS_SCHEMA_VERSION: u16 = 1;

pub const ARBITRAGE_TASK_KIND: &'static str = "arbitrage_paper";

/// Durable aggregate lifecycle phase.
#[derive(Clone, Copy, Debug, PartialEq, Eq, Structural)]
pub enum ArbitragePaperTaskPhase {
    Running,
    Stopping,
    Stopped,
    Failed,
}

impl ArbitragePaperTaskPhase {
    pub fn is_terminal(self) -> (r: bool)
        ensures
            r == (self == ArbitragePaperTaskPhase::Stopped || self == ArbitragePaperTaskPhase::Failed),
    {
        matches!(self, ArbitragePaperTaskPhase::Stopped | ArbitragePaperTaskPhase::Failed)
    }
}

/// Bounded normal terminal reason.
#[derive(Clone, Copy, Debug, PartialEq, Eq, Structural)]
pub enum ArbitragePaperTaskExit {
    StopRequested,
    SourceEnded,
    ShutdownTimedOut,
}

/// Bounded task failure suitable for the durable task projection.
#[derive(Clone, Copy, Debug, PartialEq, Eq, Structural)]
pub enum ArbitragePaperTaskFailure {
    StartupFailed,
    SourceContract,
    MonitorContract,
    JournalUnavailable,
    TaskPanicked,
    TaskCancelled,
    InvalidRequest,
    RecoveryRequired,
    AccountContract,
    ExecutionIncomplete,
    ExecutionFailed,
}

/// What a failed saga comes to.
#[derive(Clone, Copy, Debug, PartialEq, Eq, Structural)]
pub enum ArbitrageSagaFailure {
    InvalidRequest,
    RecoveryRequired,
    Account,
    Journal,
    Execution,
    Incomplete,
    SnapshotTaskFailed,
}

/// Typed owner failures.
#[derive(Clone, Copy, Debug, PartialEq, Eq, Structural)]
pub enum ArbitragePaperTaskError {
    InvalidConfig,
    InvalidSourceBinding,
    InvalidRequest,
    LiquidityRejected,
    RiskRejected,
    RecoveryRequired,
    ShutdownTimedOut,
    SnapshotTaskFailed,
    Journal,
    JournalRead,
    Projection,
    Account,
    AccountRisk,
    Source,
    SourceContract,
    Monitor,
    Market,
    Strategy,
    Runtime,
    Saga(ArbitrageSagaFailure),
    TaskPanicked,
    TaskCancelled,
    PreviouslyFailed(ArbitragePaperTaskFailure),
}

pub open spec fn arbitrage_phase_text(phase: ArbitragePaperTaskPhase) -> Seq<char> {
    match phase {
        ArbitragePaperTaskPhase::Running => "running"@,
        ArbitragePaperTaskPhase::Stopping => "stopping"@,
        ArbitragePaperTaskPhase::Stopped => "stopped"@,
        ArbitragePaperTaskPhase::Failed => "failed"@,
    }
}

pub fn task_phase_label(phase: ArbitragePaperTaskPhase) -> (r: &'static str)
    ensures
        r@ == arbitrage_phase_text(phase),
{
    match phase {
        ArbitragePaperTaskPhase::Running => "running",
        ArbitragePaperTaskPhase::Stopping => "stopping",
        ArbitragePaperTaskPhase::Stopped => "stopped",
        ArbitragePaperTaskPhase::Failed => "failed",
    }
}

/// The decision that a status of this phase is recorded under.
pub fn phase_decision(phase: ArbitragePaperTaskPhase) -> (r: &'static str)
    ensures
        r@ == (match phase {
            ArbitragePaperTaskPhase::Running => "task_running"@,
            ArbitragePaperTaskPhase::Stopping => "task_stopping"@,
            ArbitragePaperTaskPhase::Stopped => "task_stopped"@,
            ArbitragePaperTaskPhase::Failed => "task_failed"@,
        }),
{
    match phase {
        ArbitragePaperTaskPhase::Running => "task_running",
        ArbitragePaperTaskPhase::Stopping => "task_stopping",
        ArbitragePaperTaskPhase::Stopped => "task_stopped",
        ArbitragePaperTaskPhase::Failed => "task_failed",
    }
}

pub open spec fn arbitrage_exit_text(exit: ArbitragePaperTaskExit) -> Seq<char> {
    match exit {
        ArbitragePaperTaskExit::StopRequested => "stop_requested"@,
        ArbitragePaperTaskExit::SourceEnded => "source_ended"@,
        ArbitragePaperTaskExit::ShutdownTimedOut => "shutdown_timed_out"@,
    }
}

pub fn task_exit_label(exit: ArbitragePaperTaskExit) -> (r: &'static str)
    ensures
        r@ == arbitrage_exit_text(exit),
{
    match exit {
        ArbitragePaperTaskExit::StopRequested => "stop_requested",
        ArbitragePaperTaskExit::SourceEnded => "source_ended",
        ArbitragePaperTaskExit::ShutdownTimedOut => "shutdown_timed_out",
    }
}

pub open spec fn arbitrage_failure_text(failure: ArbitragePaperTaskFailure) -> Seq<char> {
    match failure {
        ArbitragePaperTaskFailure::StartupFailed => "startup_failed"@,
        ArbitragePaperTaskFailure::SourceContract => "source_contract"@,
        ArbitragePaperTaskFailure::MonitorContract => "monitor_contract"@,
        ArbitragePaperTaskFailure::JournalUnavailable => "journal_unavailable"@,
        ArbitragePaperTaskFailure::TaskPanicked => "task_panicked"@,
        ArbitragePaperTaskFailure::TaskCancelled => "task_cancelled"@,
        ArbitragePaperTaskFailure::InvalidRequest => "invalid_request"@,
        ArbitragePaperTaskFailure::RecoveryRequired => "recovery_required"@,
        ArbitragePaperTaskFailure::AccountContract => "account_contract"@,
        ArbitragePaperTaskFailure::ExecutionIncomplete => "execution_incomplete"@,
        ArbitragePaperTaskFailure::ExecutionFailed => "execution_failed"@,
    }
}

pub fn task_failure_label(failure: ArbitragePaperTaskFailure) -> (r: &'static str)
    ensures
        r@ == arbitrage_failure_text(failure),
{
    match failure {
        ArbitragePaperTaskFailure::StartupFailed => "startup_failed",
        ArbitragePaperTaskFailure::SourceContract => "source_contract",
        ArbitragePaperTaskFailure::MonitorContract => "monitor_contract",
        ArbitragePaperTaskFailure::JournalUnavailable => "journal_unavailable",
        ArbitragePaperTaskFailure::TaskPanicked => "task_panicked",
        ArbitragePaperTaskFailure::TaskCancelled => "task_cancelled",
        ArbitragePaperTaskFailure::InvalidRequest => "invalid_request",
        ArbitragePaperTaskFailure::RecoveryRequired => "recovery_required",
        ArbitragePaperTaskFailure::AccountContract => "account_contract",
        ArbitragePaperTaskFailure::ExecutionIncomplete => "execution_incomplete",
        ArbitragePaperTaskFailure::ExecutionFailed => "execution_failed",
    }
}

pub open spec fn saga_failure_of(error: PaperArbitrageSagaError) -> ArbitrageSagaFailure {
    match error {
        PaperArbitrageSagaError::InvalidRequest(_) => ArbitrageSagaFailure::InvalidRequest,
        PaperArbitrageSagaError::RecoveryRequired { .. } => ArbitrageSagaFailure::RecoveryRequired,
        PaperArbitrageSagaError::Account
        | PaperArbitrageSagaError::AccountFinalization { .. } => ArbitrageSagaFailure::Account,
        PaperArbitrageSagaError::JournalRead
        | PaperArbitrageSagaError::Projection
        | PaperArbitrageSagaError::JournalWrite
        | PaperArbitrageSagaError::OutcomeJournal { .. } => ArbitrageSagaFailure::Journal,
        PaperArbitrageSagaError::Execution(_) => ArbitrageSagaFailure::Execution,
        PaperArbitrageSagaError::Incomplete(_) => ArbitrageSagaFailure::Incomplete,
        PaperArbitrageSagaError::SnapshotTaskFailed => ArbitrageSagaFailure::SnapshotTaskFailed,
    }
}

/// What a failed saga comes to.
pub fn saga_failure(error: &PaperArbitrageSagaError) -> (r: ArbitrageSagaFailure)
    ensures
        r == saga_failure_of(*error),
{
    match error {
        PaperArbitrageSagaError::InvalidRequest(_) => ArbitrageSagaFailure::InvalidRequest,
        PaperArbitrageSagaError::RecoveryRequired { .. } => ArbitrageSagaFailure::RecoveryRequired,
        PaperArbitrageSagaError::Account
        | PaperArbitrageSagaError::AccountFinalization { .. } => ArbitrageSagaFailure::Account,
        PaperArbitrageSagaError::JournalRead
        | PaperArbitrageSagaError::Projection
        | PaperArbitrageSagaError::JournalWrite
        | PaperArbitrageSagaError::OutcomeJournal { .. } => ArbitrageSagaFailure::Journal,
        PaperArbitrageSagaError::Execution(_) => ArbitrageSagaFailure::Execution,
        PaperArbitrageSagaError::Incomplete(_) => ArbitrageSagaFailure::Incomplete,
        PaperArbitrageSagaError::SnapshotTaskFailed => ArbitrageSagaFailure::SnapshotTaskFailed,
    }
}

pub open spec fn arbitrage_saga_bucket(failure: ArbitrageSagaFailure) -> ArbitragePaperTaskFailure {
    match failure {
        ArbitrageSagaFailure::RecoveryRequired => ArbitragePaperTaskFailure::RecoveryRequired,
        ArbitrageSagaFailure::Account => ArbitragePaperTaskFailure::AccountContract,
        ArbitrageSagaFailure::Journal => ArbitragePaperTaskFailure::JournalUnavailable,
        ArbitrageSagaFailure::Execution => ArbitragePaperTaskFailure::ExecutionFailed,
        ArbitrageSagaFailure::Incomplete => ArbitragePaperTaskFailure::ExecutionIncomplete,
        ArbitrageSagaFailure::InvalidRequest => ArbitragePaperTaskFailure::InvalidRequest,
        ArbitrageSagaFailure::SnapshotTaskFailed => ArbitragePaperTaskFailure::TaskCancelled,
    }
}

pub fn classify_saga_error(failure: ArbitrageSagaFailure) -> (r: ArbitragePaperTaskFailure)
    ensures
        r == arbitrage_saga_bucket(failure),
{
    match failure {
        ArbitrageSagaFailure::RecoveryRequired => ArbitragePaperTaskFailure::RecoveryRequired,
        ArbitrageSagaFailure::Account => ArbitragePaperTaskFailure::AccountContract,
        ArbitrageSagaFailure::Journal => ArbitragePaperTaskFailure::JournalUnavailable,
        ArbitrageSagaFailure::Execution => ArbitragePaperTaskFailure::ExecutionFailed,
        ArbitrageSagaFailure::Incomplete => ArbitragePaperTaskFailure::ExecutionIncomplete,
        ArbitrageSagaFailure::InvalidRequest => ArbitragePaperTaskFailure::InvalidRequest,
        ArbitrageSagaFailure::SnapshotTaskFailed => ArbitragePaperTaskFailure::TaskCancelled,
    }
}

/// The bucket that an owner failure is recorded under.
pub open spec fn arbitrage_bucket(error: ArbitragePaperTaskError) -> ArbitragePaperTaskFailure {
    match error {
        ArbitragePaperTaskError::InvalidConfig
        | ArbitragePaperTaskError::InvalidSourceBinding
        | ArbitragePaperTaskError::InvalidRequest
        | ArbitragePaperTaskError::LiquidityRejected
        | ArbitragePaperTaskError::RiskRejected
        | ArbitragePaperTaskError::Market
        | ArbitragePaperTaskError::Strategy
        | ArbitragePaperTaskError::Runtime => ArbitragePaperTaskFailure::InvalidRequest,
        ArbitragePaperTaskError::RecoveryRequired
        | ArbitragePaperTaskError::ShutdownTimedOut => ArbitragePaperTaskFailure::RecoveryRequired,
        ArbitragePaperTaskError::Journal
        | ArbitragePaperTaskError::JournalRead
        | ArbitragePaperTaskError::Projection => ArbitragePaperTaskFailure::JournalUnavailable,
        ArbitragePaperTaskError::Account
        | ArbitragePaperTaskError::AccountRisk => ArbitragePaperTaskFailure::AccountContract,
        ArbitragePaperTaskError::Source
        | ArbitragePaperTaskError::SourceContract => ArbitragePaperTaskFailure::SourceContract,
        ArbitragePaperTaskError::Monitor => ArbitragePaperTaskFailure::MonitorContract,
        ArbitragePaperTaskError::Saga(failure) => arbitrage_saga_bucket(failure),
        ArbitragePaperTaskError::TaskPanicked => ArbitragePaperTaskFailure::TaskPanicked,
        ArbitragePaperTaskError::TaskCancelled
        | ArbitragePaperTaskError::SnapshotTaskFailed => ArbitragePaperTaskFailure::TaskCancelled,
        ArbitragePaperTaskError::PreviouslyFailed(failure) => failure,
    }
}

/// The name of a failure in an error text.
pub open spec fn arbitrage_failure_name(failure: ArbitragePaperTaskFailure) -> Seq<char> {
    match failure {
        ArbitragePaperTaskFailure::StartupFailed => "StartupFailed"@,
        ArbitragePaperTaskFailure::SourceContract => "SourceContract"@,
        ArbitragePaperTaskFailure::MonitorContract => "MonitorContract"@,
        ArbitragePaperTaskFailure::JournalUnavailable => "JournalUnavailable"@,
        ArbitragePaperTaskFailure::TaskPanicked => "TaskPanicked"@,
        ArbitragePaperTaskFailure::TaskCancelled => "TaskCancelled"@,
        ArbitragePaperTaskFailure::InvalidRequest => "InvalidRequest"@,
        ArbitragePaperTaskFailure::RecoveryRequired => "RecoveryRequired"@,
        ArbitragePaperTaskFailure::AccountContract => "AccountContract"@,
        ArbitragePaperTaskFailure::ExecutionIncomplete => "ExecutionIncomplete"@,
        ArbitragePaperTaskFailure::ExecutionFailed => "ExecutionFailed"@,
    }
}

fn failure_name(failure: ArbitragePaperTaskFailure) -> (r: &'static str)
    ensures
        r@ == arbitrage_failure_name(failure),
{
    match failure {
        ArbitragePaperTaskFailure::StartupFailed => "StartupFailed",
        ArbitragePaperTaskFailure::SourceContract => "SourceContract",
        ArbitragePaperTaskFailure::MonitorContract => "MonitorContract",
        ArbitragePaperTaskFailure::JournalUnavailable => "JournalUnavailable",
        ArbitragePaperTaskFailure::TaskPanicked => "TaskPanicked",
        ArbitragePaperTaskFailure::TaskCancelled => "TaskCancelled",
        ArbitragePaperTaskFailure::InvalidRequest => "InvalidRequest",
        ArbitragePaperTaskFailure::RecoveryRequired => "RecoveryRequired",
        ArbitragePaperTaskFailure::AccountContract => "AccountContract",
        ArbitragePaperTaskFailure::ExecutionIncomplete => "ExecutionIncomplete",
        ArbitragePaperTaskFailure::ExecutionFailed => "ExecutionFailed",
    }
}

/// The text of an owner failure. A failure that something else caused shows the
/// text of that cause.
pub open spec fn arbitrage_error_text(error: ArbitragePaperTaskError, cause: Seq<char>) -> Seq<char> {
    match error {
        ArbitragePaperTaskError::InvalidConfig => "invalid arbitrage paper task configuration"@,
        ArbitragePaperTaskError::InvalidSourceBinding =>
            "arbitrage paper sources do not match the exact pair"@,
        ArbitragePaperTaskError::InvalidRequest => "arbitrage paper operation is invalid"@,
        ArbitragePaperTaskError::LiquidityRejected =>
            "arbitrage paper top-of-book liquidity rejected the operation"@,
        ArbitragePaperTaskError::RiskRejected =>
            "arbitrage paper risk rejected the operation: "@ + cause,
        ArbitragePaperTaskError::SourceContract => "arbitrage paper source contract failed"@,
        ArbitragePaperTaskError::RecoveryRequired =>
            "arbitrage paper durable state requires reconciliation"@,
        ArbitragePaperTaskError::ShutdownTimedOut =>
            "arbitrage paper shutdown timed out; recovery is required"@,
        ArbitragePaperTaskError::SnapshotTaskFailed => "arbitrage paper snapshot worker failed"@,
        ArbitragePaperTaskError::TaskPanicked => "arbitrage paper task panicked"@,
        ArbitragePaperTaskError::TaskCancelled => "arbitrage paper task was cancelled"@,
        ArbitragePaperTaskError::PreviouslyFailed(failure) => "arbitrage paper task already failed: "@
            + arbitrage_failure_name(failure),
        _ => cause,
    }
}

impl ArbitragePaperTaskError {
    pub fn failure_bucket(self) -> (r: ArbitragePaperTaskFailure)
        ensures
            r == arbitrage_bucket(self),
    {
        match self {
            ArbitragePaperTaskError::InvalidConfig
            | ArbitragePaperTaskError::InvalidSourceBinding
            | ArbitragePaperTaskError::InvalidRequest
            | ArbitragePaperTaskError::LiquidityRejected
            | ArbitragePaperTaskError::RiskRejected
            | ArbitragePaperTaskError::Market
            | ArbitragePaperTaskError::Strategy
            | ArbitragePaperTaskError::Runtime => ArbitragePaperTaskFailure::InvalidRequest,
            ArbitragePaperTaskError::RecoveryRequired
            | ArbitragePaperTaskError::ShutdownTimedOut => ArbitragePaperTaskFailure::RecoveryRequired,
            ArbitragePaperTaskError::Journal
            | ArbitragePaperTaskError::JournalRead
            | ArbitragePaperTaskError::Projection => ArbitragePaperTaskFailure::JournalUnavailable,
            ArbitragePaperTaskError::Account
            | ArbitragePaperTaskError::AccountRisk => ArbitragePaperTaskFailure::AccountContract,
            ArbitragePaperTaskError::Source
        | ArbitragePaperTaskError::SourceContract => ArbitragePaperTaskFailure::SourceContract,
        ArbitragePaperTaskError::Monitor => ArbitragePaperTaskFailure::MonitorContract,
            ArbitragePaperTaskError::Saga(failure) => classify_saga_error(failure),
            ArbitragePaperTaskError::TaskPanicked => ArbitragePaperTaskFailure::TaskPanicked,
            ArbitragePaperTaskError::TaskCancelled
            | ArbitragePaperTaskError::SnapshotTaskFailed => ArbitragePaperTaskFailure::TaskCancelled,
            ArbitragePaperTaskError::PreviouslyFailed(failure) => failure,
        }
    }

    /// The text of the failure; `cause` is the text of what caused it.
    pub fn message(self, cause: &str) -> (r: String)
        ensures
            r@ == arbitrage_error_text(self, cause@),
    {
        let text: &str = match self {
            ArbitragePaperTaskError::InvalidConfig => "invalid arbitrage paper task configuration",
            ArbitragePaperTaskError::InvalidSourceBinding =>
                "arbitrage paper sources do not match the exact pair",
            ArbitragePaperTaskError::InvalidRequest => "arbitrage paper operation is invalid",
            ArbitragePaperTaskError::LiquidityRejected =>
                "arbitrage paper top-of-book liquidity rejected the operation",
            ArbitragePaperTaskError::RiskRejected => {
                return joined("arbitrage paper risk rejected the operation: ", cause);
            },
            ArbitragePaperTaskError::SourceContract => "arbitrage paper source contract failed",
            ArbitragePaperTaskError::RecoveryRequired =>
                "arbitrage paper durable state requires reconciliation",
            ArbitragePaperTaskError::ShutdownTimedOut =>
                "arbitrage paper shutdown timed out; recovery is required",
            ArbitragePaperTaskError::SnapshotTaskFailed => "arbitrage paper snapshot worker failed",
            ArbitragePaperTaskError::TaskPanicked => "arbitrage paper task panicked",
            ArbitragePaperTaskError::TaskCancelled => "arbitrage paper task was cancelled",
            ArbitragePaperTaskError::PreviouslyFailed(failure) => {
                return joined("arbitrage paper task already failed: ", failure_name(failure));
            },
            _ => cause,
        };
        text.to_owned()
    }

    /// The owner failure of a compensation that failed.
    pub fn from_compensation(error: PaperAdmissionCompensationError) -> (r: ArbitragePaperTaskError)
        ensures
            r == arbitrage_compensation_error(error),
    {
        match error {
            PaperAdmissionCompensationError::Account => ArbitragePaperTaskError::Account,
            PaperAdmissionCompensationError::AccountRisk => ArbitragePaperTaskError::AccountRisk,
            PaperAdmissionCompensationError::RecoveryRequired =>
                ArbitragePaperTaskError::RecoveryRequired,
        }
    }
}

pub open spec fn arbitrage_compensation_error(error: PaperAdmissionCompensationError) -> ArbitragePaperTaskError {
    match error {
        PaperAdmissionCompensationError::Account => ArbitragePaperTaskError::Account,
        PaperAdmissionCompensationError::AccountRisk => ArbitragePaperTaskError::AccountRisk,
        PaperAdmissionCompensationError::RecoveryRequired => ArbitragePaperTaskError::RecoveryRequired,
    }
}

/// The optional history gate of a configuration.
#[derive(Debug)]
pub enum HistoryDecisionConfig {
    Disabled,
    /// The history is asked: whether its settings are valid, and where the
    /// dedicated spread history is, if there is one.
    Enabled { valid: bool, spread_history_path: Option<String> },
}

/// Validated execution, risk, lifecycle, and reservation policy.
#[derive(Debug)]
pub struct ArbitragePaperTaskConfig {
    task_id: String,
    max_position_value: Decimal,
    history_gated: bool,
    spread_history_path: Option<String>,
    cost_model: PaperCostModel,
    account_risk: Option<String>,
}

impl ArbitragePaperTaskConfig {
    pub closed spec fn task_id_view(self) -> Seq<char> {
        self.task_id@
    }

    pub closed spec fn max_position_value_view(self) -> Decimal {
        self.max_position_value
    }

    pub closed spec fn history_gated_view(self) -> bool {
        self.history_gated
    }

    pub closed spec fn spread_history_path_view(self) -> Option<Seq<char>> {
        text_in(self.spread_history_path)
    }

    pub closed spec fn cost_model_view(self) -> PaperCostModel {
        self.cost_model
    }

    /// The scope of the attached account-risk authority.
    pub closed spec fn risk_scope_view(self) -> Option<Seq<char>> {
        text_in(self.account_risk)
    }

    pub open spec fn account_risk_view(self) -> bool {
        self.risk_scope_view() is Some
    }

    /// Every configuration has a safe identity.
    #[verifier::type_invariant]
    pub open spec fn is_safe(self) -> bool {
        is_task_identity(self.task_id_view())
    }

    /// Creates one operator-scoped continuous arbitrage owner configuration.
    /// An unsafe identity and unbounded risk are invalid configurations; a
    /// strategy, risk engine or history gate that does not accept its settings
    /// is a strategy failure. White space round the identity is dropped.
    pub fn new(
        task_id: &str,
        strategy_valid: bool,
        max_position_value: Option<Decimal>,
        risk_valid: bool,
        history: HistoryDecisionConfig,
        cost_model: PaperCostModel,
    ) -> (r: Result<ArbitragePaperTaskConfig, ArbitragePaperTaskError>)
        ensures
            if !is_task_identity(trim_of(task_id@)) {
                r == Err::<ArbitragePaperTaskConfig, _>(ArbitragePaperTaskError::InvalidConfig)
            } else if !strategy_valid {
                r == Err::<ArbitragePaperTaskConfig, _>(ArbitragePaperTaskError::Strategy)
            } else if max_position_value is None {
                r == Err::<ArbitragePaperTaskConfig, _>(ArbitragePaperTaskError::InvalidConfig)
            } else if !risk_valid || (history is Enabled && !history->valid) {
                r == Err::<ArbitragePaperTaskConfig, _>(ArbitragePaperTaskError::Strategy)
            } else {
                &&& r is Ok
                &&& r->Ok_0.task_id_view() == trim_of(task_id@)
                &&& r->Ok_0.max_position_value_view() == max_position_value->0
                &&& r->Ok_0.history_gated_view() == history is Enabled
                &&& r->Ok_0.spread_history_path_view() == match history {
                    HistoryDecisionConfig::Disabled => None::<Seq<char>>,
                    HistoryDecisionConfig::Enabled { spread_history_path, .. } => text_in(
                        spread_history_path,
                    ),
                }
                &&& r->Ok_0.cost_model_view() == cost_model
                &&& !r->Ok_0.account_risk_view()
            },
    {
        let task: String = trimmed(task_id);
        if !valid_task_identity(&task) {
            return Err(ArbitragePaperTaskError::InvalidConfig);
        }
        if !strategy_valid {
            return Err(ArbitragePaperTaskError::Strategy);
        }
        let max_position_value: Decimal = match max_position_value {
            Some(value) => value,
            None => return Err(ArbitragePaperTaskError::InvalidConfig),
        };
        if !risk_valid {
            return Err(ArbitragePaperTaskError::Strategy);
        }
        let (history_gated, spread_history_path): (bool, Option<String>) = match history {
            HistoryDecisionConfig::Disabled => (false, None),
            HistoryDecisionConfig::Enabled { valid, spread_history_path } => {
                if !valid {
                    return Err(ArbitragePaperTaskError::Strategy);
                }
                (true, spread_history_path)
            },
        };
        Ok(
            ArbitragePaperTaskConfig {
                task_id: task,
                max_position_value,
                history_gated,
                spread_history_path,
                cost_model,
                account_risk: None,
            },
        )
    }

    /// Attaches the durable account-level risk authority. Opening decisions
    /// must pass its admission before any reservation is created; its close
    /// directives stop the owner fail-closed.
    pub fn with_account_risk(self, scope_id: String) -> (r: ArbitragePaperTaskConfig)
        ensures
            r.risk_scope_view() == Some(scope_id@),
            r.cost_model_view() == self.cost_model_view(),
            r.task_id_view() == self.task_id_view(),
            r.max_position_value_view() == self.max_position_value_view(),
            r.history_gated_view() == self.history_gated_view(),
            r.spread_history_path_view() == self.spread_history_path_view(),
    {
        proof {
            use_type_invariant(&self);
        }
        ArbitragePaperTaskConfig {
            task_id: self.task_id,
            max_position_value: self.max_position_value,
            history_gated: self.history_gated,
            spread_history_path: self.spread_history_path,
            cost_model: self.cost_model,
            account_risk: Some(scope_id),
        }
    }

    pub fn task_id(&self) -> (r: &str)
        ensures
            r@ == self.task_id_view(),
    {
        self.task_id.as_str()
    }

    pub fn max_position_value(&self) -> (r: Decimal)
        ensures
            r == self.max_position_value_view(),
    {
        self.max_position_value
    }

    pub fn is_history_gated(&self) -> (r: bool)
        ensures
            r == self.history_gated_view(),
    {
        self.history_gated
    }

    pub fn has_account_risk(&self) -> (r: bool)
        ensures
            r == self.account_risk_view(),
    {
        self.account_risk.is_some()
    }

    /// The scope of the attached account-risk authority.
    pub fn risk_scope(&self) -> (r: Option<&str>)
        ensures
            match r {
                Some(scope_id) => self.risk_scope_view() == Some(scope_id@),
                None => self.risk_scope_view() is None,
            },
    {
        match &self.account_risk {
            Some(scope_id) => Some(scope_id.as_str()),
            None => None,
        }
    }

    pub fn cost_model(&self) -> (r: PaperCostModel)
        ensures
            r == self.cost_model_view(),
    {
        self.cost_model
    }
}

/// Latest durable lifecycle status plus bounded process-local owner counters.
#[derive(Clone, Debug)]
pub struct ArbitragePaperTaskStatus {
    pub schema_version: u16,
    pub task_id: String,
    pub phase: ArbitragePaperTaskPhase,
    pub processed_event_count: u64,
    pub operation_count: u64,
    pub coalesced_opportunity_count: u64,
    pub last_recorded_at: Option<Timestamp>,
    pub exit: Option<ArbitragePaperTaskExit>,
    pub failure: Option<ArbitragePaperTaskFailure>,
    pub runtime_failure: Option<ArbitragePaperTaskFailure>,
}

pub open spec fn arbitrage_exit_label(exit: Option<ArbitragePaperTaskExit>) -> Option<Seq<char>> {
    match exit {
        Some(found) => Some(arbitrage_exit_text(found)),
        None => None,
    }
}

pub open spec fn arbitrage_failure_label(failure: Option<ArbitragePaperTaskFailure>) -> Option<
    Seq<char>,
> {
    match failure {
        Some(found) => Some(arbitrage_failure_text(found)),
        None => None,
    }
}

/// The lifecycle record of a status under a decision.
pub fn status_record(
    status: &ArbitragePaperTaskStatus,
    decision: &'static str,
    recorded_at: Timestamp,
) -> (r: TaskRecord)
    ensures
        is_task_record(
            r,
            status.task_id@,
            ARBITRAGE_TASK_KIND@,
            decision@,
            arbitrage_phase_text(status.phase),
            status.processed_event_count,
            arbitrage_exit_label(status.exit),
            arbitrage_failure_label(status.failure),
            recorded_at,
        ),
{
    let exit: Option<&'static str> = match status.exit {
        Some(found) => Some(task_exit_label(found)),
        None => None,
    };
    let failure: Option<&'static str> = match status.failure {
        Some(found) => Some(task_failure_label(found)),
        None => None,
    };
    lifecycle_record(
        &status.task_id,
        ARBITRAGE_TASK_KIND,
        decision,
        task_phase_label(status.phase),
        status.processed_event_count,
        exit,
        failure,
        recorded_at,
    )
}

/// The status of an owner that something outside it ended: failed, with
/// nothing left of an exit or a runtime failure, and never recorded earlier
/// than before.
pub fn external_failure_status(
    status: ArbitragePaperTaskStatus,
    failure: ArbitragePaperTaskFailure,
    now: Timestamp,
) -> (r: ArbitragePaperTaskStatus)
    ensures
        r == (ArbitragePaperTaskStatus {
            phase: ArbitragePaperTaskPhase::Failed,
            failure: Some(failure),
            exit: None,
            runtime_failure: None,
            last_recorded_at: Some(
                match status.last_recorded_at {
                    Some(before) => later_of(now, before),
                    None => now,
                },
            ),
            ..status
        }),
{
    let mut failed: ArbitragePaperTaskStatus = status;
    failed.phase = ArbitragePaperTaskPhase::Failed;
    failed.failure = Some(failure);
    failed.exit = None;
    failed.runtime_failure = None;
    failed.last_recorded_at = Some(
        match failed.last_recorded_at {
            Some(before) => now.later(before),
            None => now,
        },
    );
    failed
}

/// The owner's sources fit its pair: the account and the owner share a journal,
/// both legs trade one symbol, and the two distinct sources are the exchanges
/// of the legs.
pub fn sources_are_bound(
    same_journal: bool,
    left: &MarketInstrument,
    right: &MarketInstrument,
    left_source: &str,
    right_source: &str,
) -> (r: bool)
    ensures
        r == (same_journal && left.symbol@ == right.symbol@ && left_source@ != right_source@
            && left_source@ == left.exchange@ && right_source@ == right.exchange@),
{
    same_journal && same_text(&left.symbol, &right.symbol) && !same_text(left_source, right_source)
        && same_text(left_source, &left.exchange) && same_text(right_source, &right.exchange)
}

/// One spread as the history machine observes it.
#[derive(Debug)]
pub struct SpreadSample {
    pub timestamp: Timestamp,
    pub buy_exchange: String,
    pub sell_exchange: String,
    pub buy_price: Decimal,
    pub sell_price: Decimal,
    pub spread_bps: Decimal,
    pub funding_rate_buy: Option<Decimal>,
    pub funding_rate_sell: Option<Decimal>,
}

/// The spread that an outcome carries.
pub open spec fn spread_in(outcome: ArbitrageMonitorOutcome) -> Option<MeasuredSpread> {
    match outcome {
        ArbitrageMonitorOutcome::NoOpportunity(measured) => Some(measured),
        ArbitrageMonitorOutcome::Opportunity(measured) => Some(measured),
        _ => None,
    }
}

/// The strategy spread sample of a monitor event: its spread in basis points,
/// or nothing where the event carries no spread.
pub open spec fn is_history_sample(
    r: Result<Option<SpreadSample>, ()>,
    event: ArbitrageMonitorEvent,
) -> bool {
    match spread_in(event.outcome) {
        None => r is Ok && r->Ok_0 is None,
        Some(measured) => match product_of(measured.spread.percent@, (100i128, 0u32)) {
            None => r is Err,
            Some(bps) => {
                &&& r is Ok
                &&& r->Ok_0 is Some
                &&& r->Ok_0->0.timestamp == event.recorded_at
                &&& r->Ok_0->0.buy_exchange@ == measured.spread.buy_exchange@
                &&& r->Ok_0->0.sell_exchange@ == measured.spread.sell_exchange@
                &&& r->Ok_0->0.buy_price == measured.spread.buy_price
                &&& r->Ok_0->0.sell_price == measured.spread.sell_price
                &&& r->Ok_0->0.spread_bps@ == bps
                &&& r->Ok_0->0.funding_rate_buy is None
                &&& r->Ok_0->0.funding_rate_sell is None
            },
        },
    }
}

/// Projects one spread-bearing monitor outcome into a strategy spread sample,
/// its spread in basis points. Waiting and rejected outcomes carry none. An
/// overflow is a failure. The funding rates stay empty.
pub fn history_sample_of(event: &ArbitrageMonitorEvent) -> (r: Result<Option<SpreadSample>, ()>)
    ensures
        is_history_sample(r, *event),
{
    let measured: &MeasuredSpread = match &event.outcome {
        ArbitrageMonitorOutcome::NoOpportunity(measured) => measured,
        ArbitrageMonitorOutcome::Opportunity(measured) => measured,
        ArbitrageMonitorOutcome::Waiting { .. }
        | ArbitrageMonitorOutcome::AnalysisRejected { .. } => return Ok(None),
    };
    match measured.spread.percent.checked_mul(Decimal::from_u64(100)) {
        None => Err(()),
        Some(spread_bps) => Ok(
            Some(
                SpreadSample {
                    timestamp: event.recorded_at,
                    buy_exchange: measured.spread.buy_exchange.clone(),
                    sell_exchange: measured.spread.sell_exchange.clone(),
                    buy_price: measured.spread.buy_price,
                    sell_price: measured.spread.sell_price,
                    spread_bps,
                    funding_rate_buy: None,
                    funding_rate_sell: None,
                },
            ),
        ),
    }
}

/// What the history machine judges of a spread.
#[derive(Clone, Copy, Debug, PartialEq, Eq, Structural)]
pub enum HistoryDecisionKind {
    InsufficientHistory,
    Hold,
    Open,
}

/// Applies the optional history gate: without it every opportunity passes; with
/// it an opportunity becomes an operation only after the machine judges `Open`
/// of a sample that was observed. Without a sample nothing is judged.
pub fn history_gate(gated: bool, judged: Option<HistoryDecisionKind>) -> (r: bool)
    ensures
        r == (!gated || judged == Some(HistoryDecisionKind::Open)),
{
    if !gated {
        return true;
    }
    match judged {
        None => false,
        Some(kind) => kind == HistoryDecisionKind::Open,
    }
}

/// One spread as the dedicated history shows it.
#[derive(Debug)]
pub struct SpreadHistorySampleView {
    pub timestamp: Timestamp,
    pub exchange_buy: String,
    pub exchange_sell: String,
    pub price_buy: String,
    pub price_sell: String,
    pub spread_bps: String,
    pub funding_rate_buy: Option<String>,
    pub funding_rate_sell: Option<String>,
}

/// The number in an optional text; an outer nothing where it holds none.
pub open spec fn optional_number(text: Option<Seq<char>>) -> Option<Option<(i128, u32)>> {
    match text {
        None => Some(None),
        Some(found) => match parsed_number(found) {
            None => None,
            Some(number) => Some(Some(number)),
        },
    }
}

/// All numbers of the sample can be read.
pub open spec fn sample_is_readable(view: SpreadHistorySampleView) -> bool {
    &&& parsed_number(view.price_buy@) is Some
    &&& parsed_number(view.price_sell@) is Some
    &&& parsed_number(view.spread_bps@) is Some
    &&& optional_number(text_in(view.funding_rate_buy)) is Some
    &&& optional_number(text_in(view.funding_rate_sell)) is Some
}

/// The sample holds what the view shows.
pub open spec fn is_sample_of(sample: SpreadSample, view: SpreadHistorySampleView) -> bool {
    &&& sample.timestamp == view.timestamp
    &&& sample.buy_exchange@ == view.exchange_buy@
    &&& sample.sell_exchange@ == view.exchange_sell@
    &&& Some(sample.buy_price@) == parsed_number(view.price_buy@)
    &&& Some(sample.sell_price@) == parsed_number(view.price_sell@)
    &&& Some(sample.spread_bps@) == parsed_number(view.spread_bps@)
    &&& Some(number_in(sample.funding_rate_buy)) == optional_number(text_in(view.funding_rate_buy))
    &&& Some(number_in(sample.funding_rate_sell)) == optional_number(text_in(view.funding_rate_sell))
}

fn parse_optional(text: &Option<String>) -> (r: Option<Option<Decimal>>)
    ensures
        match optional_number(text_in(*text)) {
            None => r is None,
            Some(number) => r is Some && number_in(r->0) == number,
        },
{
    match text {
        None => Some(None),
        Some(found) => match Decimal::parse(found) {
            None => None,
            Some(number) => Some(Some(number)),
        },
    }
}

/// Reads a sample of the dedicated history; `RecoveryRequired` where one of its
/// numbers cannot be read.
pub fn history_sample_from_view(view: &SpreadHistorySampleView) -> (r: Result<
    SpreadSample,
    ArbitragePaperTaskError,
>)
    ensures
        sample_is_readable(*view) ==> r is Ok && is_sample_of(r->Ok_0, *view),
        !sample_is_readable(*view) ==> r == Err::<SpreadSample, _>(
            ArbitragePaperTaskError::RecoveryRequired,
        ),
{
    let (buy_price, sell_price, spread_bps): (Decimal, Decimal, Decimal) = match (
        Decimal::parse(&view.price_buy),
        Decimal::parse(&view.price_sell),
        Decimal::parse(&view.spread_bps),
    ) {
        (Some(buy_price), Some(sell_price), Some(spread_bps)) => (buy_price, sell_price, spread_bps),
        _ => return Err(ArbitragePaperTaskError::RecoveryRequired),
    };
    match (parse_optional(&view.funding_rate_buy), parse_optional(&view.funding_rate_sell)) {
        (Some(funding_rate_buy), Some(funding_rate_sell)) => Ok(
            SpreadSample {
                timestamp: view.timestamp,
                buy_exchange: view.exchange_buy.clone(),
                sell_exchange: view.exchange_sell.clone(),
                buy_price,
                sell_price,
                spread_bps,
                funding_rate_buy,
                funding_rate_sell,
            },
        ),
        _ => Err(ArbitragePaperTaskError::RecoveryRequired),
    }
}

/// The samples are in the order of their times.
pub open spec fn in_time_order(samples: Seq<SpreadHistorySampleView>) -> bool {
    forall|i: int, j: int|
        0 <= i <= j < samples.len() ==> (#[trigger] samples[i]).timestamp.rank() <= (
        #[trigger] samples[j]).timestamp.rank()
}

/// The samples of one instant, in their order.
pub open spec fn samples_at(samples: Seq<SpreadHistorySampleView>, at: Timestamp) -> Seq<
    SpreadHistorySampleView,
>
    decreases samples.len(),
{
    if samples.len() == 0 {
        Seq::empty()
    } else {
        let before = samples_at(samples.drop_last(), at);
        if samples.last().timestamp == at {
            before.push(samples.last())
        } else {
            before
        }
    }
}

/// A sample behind the others of its own time and before all later ones leaves
/// the order of each instant alone.
proof fn lemma_samples_inserted(
    samples: Seq<SpreadHistorySampleView>,
    place: int,
    sample: SpreadHistorySampleView,
    at: Timestamp,
)
    requires
        0 <= place <= samples.len(),
        forall|i: int|
            place <= i < samples.len() ==> (#[trigger] samples[i]).timestamp.rank()
                > sample.timestamp.rank(),
    ensures
        samples_at(samples.insert(place, sample), at) == if sample.timestamp == at {
            samples_at(samples, at).push(sample)
        } else {
            samples_at(samples, at)
        },
    decreases samples.len() - place,
{
    let after = samples.insert(place, sample);
    if place == samples.len() {
        assert(after.drop_last() =~= samples);
        assert(after.last() == sample);
    } else {
        assert(after.last() == samples.last());
        assert(after.drop_last() =~= samples.drop_last().insert(place, sample));
        assert forall|i: int| place <= i < samples.drop_last().len() implies (
        #[trigger] samples.drop_last()[i]).timestamp.rank() > sample.timestamp.rank() by {
            assert(samples.drop_last()[i] == samples[i]);
        }
        lemma_samples_inserted(samples.drop_last(), place, sample, at);
        assert(samples[samples.len() - 1].timestamp.rank() > sample.timestamp.rank());
    }
}

/// Puts a sample behind the last one that is not later.
fn insert_in_order(samples: &mut Vec<SpreadHistorySampleView>, sample: SpreadHistorySampleView)
    requires
        in_time_order(old(samples)@),
    ensures
        in_time_order(final(samples)@),
        forall|at: Timestamp| #[trigger]
            samples_at(final(samples)@, at) == if sample.timestamp == at {
                samples_at(old(samples)@, at).push(sample)
            } else {
                samples_at(old(samples)@, at)
            },
{
    let ghost before = samples@;
    let mut place: usize = samples.len();
    while place > 0 && sample.timestamp.is_before(samples[place - 1].timestamp)
        invariant
            place <= samples@.len(),
            samples@ == before,
            before == old(samples)@,
            in_time_order(before),
            forall|i: int|
                place <= i < before.len() ==> (#[trigger] before[i]).timestamp.rank()
                    > sample.timestamp.rank(),
        decreases place,
    {
        place = place - 1;
    }
    samples.insert(place, sample);
    proof {
        assert forall|at: Timestamp| #[trigger]
            samples_at(samples@, at) == if sample.timestamp == at {
                samples_at(before, at).push(sample)
            } else {
                samples_at(before, at)
            } by {
            lemma_samples_inserted(before, place as int, sample, at);
        }
        assert forall|i: int, j: int| 0 <= i <= j < samples@.len() implies (
        #[trigger] samples@[i]).timestamp.rank() <= (#[trigger] samples@[j]).timestamp.rank() by {
            let a = if i < place {
                i
            } else {
                i - 1
            };
            let b = if j < place {
                j
            } else {
                j - 1
            };
            if i != place && j != place {
                assert(before[a].timestamp.rank() <= before[b].timestamp.rank());
            } else if i == place && j > place {
                assert(before[b].timestamp.rank() > sample.timestamp.rank());
            } else if j == place && i < place {
                assert(before[a].timestamp.rank() <= before[place - 1].timestamp.rank());
            }
        }
    }
}

/// The samples in the order of their times; those of one instant stay in their
/// order.
pub fn sort_by_time(samples: Vec<SpreadHistorySampleView>) -> (r: Vec<SpreadHistorySampleView>)
    ensures
        in_time_order(r@),
        forall|at: Timestamp| #[trigger] samples_at(r@, at) == samples_at(samples@, at),
{
    let ghost all = samples@;
    let mut left: Vec<SpreadHistorySampleView> = samples;
    let mut sorted: Vec<SpreadHistorySampleView> = Vec::new();
    let ghost mut taken: int = 0;
    while left.len() > 0
        invariant
            0 <= taken <= all.len(),
            left@ =~= all.skip(taken),
            in_time_order(sorted@),
            forall|at: Timestamp| #[trigger]
                samples_at(sorted@, at) == samples_at(all.take(taken), at),
        decreases left.len(),
    {
        let ghost before = sorted@;
        let sample: SpreadHistorySampleView = left.remove(0);
        assert(sample == all[taken]);
        insert_in_order(&mut sorted, sample);
        proof {
            assert(all.take(taken + 1).drop_last() =~= all.take(taken));
            assert(all.take(taken + 1).last() == sample);
            assert forall|at: Timestamp| #[trigger]
                samples_at(sorted@, at) == samples_at(all.take(taken + 1), at) by {
                assert(samples_at(before, at) == samples_at(all.take(taken), at));
            }
            taken = taken + 1;
        }
    }
    assert(all.take(taken) =~= all);
    sorted
}

/// The samples that a cold start feeds to the history machine, in the order of
/// their times; `RecoveryRequired` where the history is not completely readable,
/// so that a damaged one never seeds the machine.
pub fn backfill_samples(complete: bool, window: Vec<SpreadHistorySampleView>) -> (r: Result<
    Vec<SpreadSample>,
    ArbitragePaperTaskError,
>)
    ensures
        !complete ==> r == Err::<Vec<SpreadSample>, _>(ArbitragePaperTaskError::RecoveryRequired),
        complete ==> exists|sorted: Seq<SpreadHistorySampleView>|
            {
                &&& #[trigger] in_time_order(sorted)
                &&& forall|at: Timestamp| #[trigger]
                    samples_at(sorted, at) == samples_at(window@, at)
                &&& if forall|i: int|
                    0 <= i < sorted.len() ==> sample_is_readable(#[trigger] sorted[i]) {
                    &&& r is Ok
                    &&& r->Ok_0@.len() == sorted.len()
                    &&& forall|i: int|
                        0 <= i < sorted.len() ==> is_sample_of(
                            #[trigger] r->Ok_0@[i],
                            sorted[i],
                        )
                } else {
                    r == Err::<Vec<SpreadSample>, _>(ArbitragePaperTaskError::RecoveryRequired)
                }
            },
{
    if !complete {
        return Err(ArbitragePaperTaskError::RecoveryRequired);
    }
    let ghost all = window@;
    let sorted: Vec<SpreadHistorySampleView> = sort_by_time(window);
    let mut samples: Vec<SpreadSample> = Vec::new();
    let mut i: usize = 0;
    while i < sorted.len()
        invariant
            i <= sorted.len(),
            complete,
            all == window@,
            in_time_order(sorted@),
            forall|at: Timestamp| #[trigger] samples_at(sorted@, at) == samples_at(all, at),
            samples@.len() == i,
            forall|k: int| 0 <= k < i ==> sample_is_readable(#[trigger] sorted@[k]),
            forall|k: int| 0 <= k < i ==> is_sample_of(#[trigger] samples@[k], sorted@[k]),
        decreases sorted.len() - i,
    {
        match history_sample_from_view(&sorted[i]) {
            Err(error) => {
                assert(!sample_is_readable(sorted@[i as int]));
                return Err(error);
            },
            Ok(sample) => {
                samples.push(sample);
            },
        }
        i = i + 1;
    }
    assert(in_time_order(sorted@));
    Ok(samples)
}

/// What the saga of an operation came to.
#[derive(Clone, Copy, Debug, PartialEq, Eq, Structural)]
pub enum OperationResult {
    Completed,
    AlreadyCompleted,
    Failed(ArbitrageSagaFailure),
    Panicked,
    Cancelled,
}

/// What is wrong with an operation that did not complete.
pub open spec fn operation_error(result: OperationResult) -> Option<ArbitragePaperTaskError> {
    match result {
        OperationResult::Completed => None,
        OperationResult::AlreadyCompleted => Some(ArbitragePaperTaskError::RecoveryRequired),
        OperationResult::Failed(failure) => Some(ArbitragePaperTaskError::Saga(failure)),
        OperationResult::Panicked => Some(ArbitragePaperTaskError::TaskPanicked),
        OperationResult::Cancelled => Some(ArbitragePaperTaskError::TaskCancelled),
    }
}

/// What is wrong with an operation that did not complete.
pub fn complete_operation(result: OperationResult) -> (r: Result<(), ArbitragePaperTaskError>)
    ensures
        r == match operation_error(result) {
            None => Ok::<(), ArbitragePaperTaskError>(()),
            Some(error) => Err(error),
        },
{
    match result {
        OperationResult::Completed => Ok(()),
        OperationResult::AlreadyCompleted => Err(ArbitragePaperTaskError::RecoveryRequired),
        OperationResult::Failed(failure) => Err(ArbitragePaperTaskError::Saga(failure)),
        OperationResult::Panicked => Err(ArbitragePaperTaskError::TaskPanicked),
        OperationResult::Cancelled => Err(ArbitragePaperTaskError::TaskCancelled),
    }
}

/// The decision adds to the position.
pub open spec fn opens_exposure(kind: ArbitrageDecisionKind) -> bool {
    kind == ArbitrageDecisionKind::Open || kind == ArbitrageDecisionKind::Increase
}

} // verus!
