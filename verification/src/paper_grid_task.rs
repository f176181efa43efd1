//! Durable continuous owner for one single-source virtual paper grid.
//!
//! Every crossed grid level becomes one independent single-leg saga operation.
//! This module holds the owner's identity, what it reads from the account, and
//! the operations it builds; the loop itself is in `grid_owner`.

use crate::decimal::{difference_of, less_than, product_of, sum_of, text_of, Decimal};
use crate::domain::{
    is_instrument, reference_price_of, side_label, touch_price, MarketDataEvent, MarketSnapshot,
    MarketType, Side,
};
use crate::operations::{
    account_preflight, belongs_to, operation_prefix, operation_task_belongs_to_owner, preflight_of,
    prefix_of, Ownership,
};
use crate::paper_account::{
    find_sole_reservation, sole_reservation, PaperAccountSnapshot, PaperLot, PaperReservation,
};
use crate::paper_admission::PaperAdmissionCompensationError;
use crate::paper_single_leg_saga::{PaperSingleLegRequest, PaperSingleLegSagaError};
use crate::paper_task::{
    earlier_task_is_settled, earlier_task_settled, is_plain_identity, is_task_identity,
    is_task_record, lifecycle_record, valid_plain_identity, valid_task_identity, EarlierTask,
    TaskRecord,
};
use crate::requests::{
    is_candidate, is_limit_intent, is_single_leg_operation, limit_intent, risk_candidate,
    single_leg_operation, AccountRiskCandidate, FreshIds, PaperCostModel,
};
use crate::text::{joined, same_text, trim_of, trimmed};
use crate::timestamp::Timestamp;
use vstd::prelude::*;

verus! {

/// Stable version of the process-local grid owner status.
pub const GRID_PAPER_TASK_STATUS_SCHEMA_VERSION: u16 = 1;

pub const GRID_TASK_KIND: &'static str = "grid_paper";

/// Durable aggregate lifecycle phase.
#[derive(Clone, Copy, Debug, PartialEq, Eq, Structural)]
pub enum GridPaperTaskPhase {
    Running,
    Stopping,
    Stopped,
    Failed,
}

impl GridPaperTaskPhase {
    pub fn is_terminal(self) -> (r: bool)
        ensures
            r == (self == GridPaperTaskPhase::Stopped || self == GridPaperTaskPhase::Failed),
    {
        matches!(self, GridPaperTaskPhase::Stopped | GridPaperTaskPhase::Failed)
    }
}

/// Bounded normal terminal reason.
#[derive(Clone, Copy, Debug, PartialEq, Eq, Structural)]
pub enum GridPaperTaskExit {
    StopRequested,
    SourceEnded,
    ShutdownTimedOut,
}

/// Bounded task failure suitable for the durable task projection.
#[derive(Clone, Copy, Debug, PartialEq, Eq, Structural)]
pub enum GridPaperTaskFailure {
    StartupFailed,
    SourceContract,
    JournalUnavailable,
    TaskPanicked,
    TaskCancelled,
    InvalidRequest,
    RecoveryRequired,
    AccountContract,
    ExecutionIncomplete,
    ExecutionFailed,
}

/// What a failed saga comes to.
#[derive(Clone, Copy, Debug, PartialEq, Eq, Structural)]
pub enum SagaFailure {
    InvalidRequest,
    RecoveryRequired,
    Account,
    Journal,
    Execution,
    Incomplete,
}

/// Typed owner failures.
#[derive(Clone, Copy, Debug, PartialEq, Eq, Structural)]
pub enum GridPaperTaskError {
    InvalidConfig,
    InvalidSourceBinding,
    InvalidRequest,
    RecoveryRequired,
    ShutdownTimedOut,
    SnapshotTaskFailed,
    Journal,
    JournalRead,
    Projection,
    Account,
    AccountRisk,
    Source,
    Strategy,
    Runtime,
    Saga(SagaFailure),
    TaskPanicked,
    TaskCancelled,
    PreviouslyFailed(GridPaperTaskFailure),
}

pub open spec fn grid_phase_text(phase: GridPaperTaskPhase) -> Seq<char> {
    match phase {
        GridPaperTaskPhase::Running => "running"@,
        GridPaperTaskPhase::Stopping => "stopping"@,
        GridPaperTaskPhase::Stopped => "stopped"@,
        GridPaperTaskPhase::Failed => "failed"@,
    }
}

pub fn task_phase_label(phase: GridPaperTaskPhase) -> (r: &'static str)
    ensures
        r@ == grid_phase_text(phase),
{
    match phase {
        GridPaperTaskPhase::Running => "running",
        GridPaperTaskPhase::Stopping => "stopping",
        GridPaperTaskPhase::Stopped => "stopped",
        GridPaperTaskPhase::Failed => "failed",
    }
}

/// The decision that a status of this phase is recorded under.
pub fn phase_decision(phase: GridPaperTaskPhase) -> (r: &'static str)
    ensures
        r@ == (match phase {
            GridPaperTaskPhase::Running => "task_running"@,
            GridPaperTaskPhase::Stopping => "task_stopping"@,
            GridPaperTaskPhase::Stopped => "task_stopped"@,
            GridPaperTaskPhase::Failed => "task_failed"@,
        }),
{
    match phase {
        GridPaperTaskPhase::Running => "task_running",
        GridPaperTaskPhase::Stopping => "task_stopping",
        GridPaperTaskPhase::Stopped => "task_stopped",
        GridPaperTaskPhase::Failed => "task_failed",
    }
}

pub open spec fn grid_exit_text(exit: GridPaperTaskExit) -> Seq<char> {
    match exit {
        GridPaperTaskExit::StopRequested => "stop_requested"@,
        GridPaperTaskExit::SourceEnded => "source_ended"@,
        GridPaperTaskExit::ShutdownTimedOut => "shutdown_timed_out"@,
    }
}

pub fn task_exit_label(exit: GridPaperTaskExit) -> (r: &'static str)
    ensures
        r@ == grid_exit_text(exit),
{
    match exit {
        GridPaperTaskExit::StopRequested => "stop_requested",
        GridPaperTaskExit::SourceEnded => "source_ended",
        GridPaperTaskExit::ShutdownTimedOut => "shutdown_timed_out",
    }
}

pub open spec fn grid_failure_text(failure: GridPaperTaskFailure) -> Seq<char> {
    match failure {
        GridPaperTaskFailure::StartupFailed => "startup_failed"@,
        GridPaperTaskFailure::SourceContract => "source_contract"@,
        GridPaperTaskFailure::JournalUnavailable => "journal_unavailable"@,
        GridPaperTaskFailure::TaskPanicked => "task_panicked"@,
        GridPaperTaskFailure::TaskCancelled => "task_cancelled"@,
        GridPaperTaskFailure::InvalidRequest => "invalid_request"@,
        GridPaperTaskFailure::RecoveryRequired => "recovery_required"@,
        GridPaperTaskFailure::AccountContract => "account_contract"@,
        GridPaperTaskFailure::ExecutionIncomplete => "execution_incomplete"@,
        GridPaperTaskFailure::ExecutionFailed => "execution_failed"@,
    }
}

pub fn task_failure_label(failure: GridPaperTaskFailure) -> (r: &'static str)
    ensures
        r@ == grid_failure_text(failure),
{
    match failure {
        GridPaperTaskFailure::StartupFailed => "startup_failed",
        GridPaperTaskFailure::SourceContract => "source_contract",
        GridPaperTaskFailure::JournalUnavailable => "journal_unavailable",
        GridPaperTaskFailure::TaskPanicked => "task_panicked",
        GridPaperTaskFailure::TaskCancelled => "task_cancelled",
        GridPaperTaskFailure::InvalidRequest => "invalid_request",
        GridPaperTaskFailure::RecoveryRequired => "recovery_required",
        GridPaperTaskFailure::AccountContract => "account_contract",
        GridPaperTaskFailure::ExecutionIncomplete => "execution_incomplete",
        GridPaperTaskFailure::ExecutionFailed => "execution_failed",
    }
}

pub open spec fn saga_failure_of(error: PaperSingleLegSagaError) -> SagaFailure {
    match error {
        PaperSingleLegSagaError::InvalidRequest(_) => SagaFailure::InvalidRequest,
        PaperSingleLegSagaError::RecoveryRequired { .. } => SagaFailure::RecoveryRequired,
        PaperSingleLegSagaError::Account => SagaFailure::Account,
        PaperSingleLegSagaError::Journal => SagaFailure::Journal,
        PaperSingleLegSagaError::Execution => SagaFailure::Execution,
        PaperSingleLegSagaError::Incomplete(_) => SagaFailure::Incomplete,
    }
}

/// What a failed saga comes to.
pub fn saga_failure(error: &PaperSingleLegSagaError) -> (r: SagaFailure)
    ensures
        r == saga_failure_of(*error),
{
    match error {
        PaperSingleLegSagaError::InvalidRequest(_) => SagaFailure::InvalidRequest,
        PaperSingleLegSagaError::RecoveryRequired { .. } => SagaFailure::RecoveryRequired,
        PaperSingleLegSagaError::Account => SagaFailure::Account,
        PaperSingleLegSagaError::Journal => SagaFailure::Journal,
        PaperSingleLegSagaError::Execution => SagaFailure::Execution,
        PaperSingleLegSagaError::Incomplete(_) => SagaFailure::Incomplete,
    }
}

pub open spec fn saga_bucket(failure: SagaFailure) -> GridPaperTaskFailure {
    match failure {
        SagaFailure::RecoveryRequired => GridPaperTaskFailure::RecoveryRequired,
        SagaFailure::Account => GridPaperTaskFailure::AccountContract,
        SagaFailure::Journal => GridPaperTaskFailure::JournalUnavailable,
        SagaFailure::Execution => GridPaperTaskFailure::ExecutionFailed,
        SagaFailure::Incomplete => GridPaperTaskFailure::ExecutionIncomplete,
        SagaFailure::InvalidRequest => GridPaperTaskFailure::InvalidRequest,
    }
}

pub fn classify_saga_error(failure: SagaFailure) -> (r: GridPaperTaskFailure)
    ensures
        r == saga_bucket(failure),
{
    match failure {
        SagaFailure::RecoveryRequired => GridPaperTaskFailure::RecoveryRequired,
        SagaFailure::Account => GridPaperTaskFailure::AccountContract,
        SagaFailure::Journal => GridPaperTaskFailure::JournalUnavailable,
        SagaFailure::Execution => GridPaperTaskFailure::ExecutionFailed,
        SagaFailure::Incomplete => GridPaperTaskFailure::ExecutionIncomplete,
        SagaFailure::InvalidRequest => GridPaperTaskFailure::InvalidRequest,
    }
}

/// The bucket that an owner failure is recorded under.
pub open spec fn grid_bucket(error: GridPaperTaskError) -> GridPaperTaskFailure {
    match error {
        GridPaperTaskError::InvalidConfig
        | GridPaperTaskError::InvalidSourceBinding
        | GridPaperTaskError::InvalidRequest
        | GridPaperTaskError::Strategy
        | GridPaperTaskError::Runtime => GridPaperTaskFailure::InvalidRequest,
        GridPaperTaskError::RecoveryRequired
        | GridPaperTaskError::ShutdownTimedOut => GridPaperTaskFailure::RecoveryRequired,
        GridPaperTaskError::Journal
        | GridPaperTaskError::JournalRead
        | GridPaperTaskError::Projection => GridPaperTaskFailure::JournalUnavailable,
        GridPaperTaskError::Account
        | GridPaperTaskError::AccountRisk => GridPaperTaskFailure::AccountContract,
        GridPaperTaskError::Source => GridPaperTaskFailure::SourceContract,
        GridPaperTaskError::Saga(failure) => saga_bucket(failure),
        GridPaperTaskError::TaskPanicked => GridPaperTaskFailure::TaskPanicked,
        GridPaperTaskError::TaskCancelled
        | GridPaperTaskError::SnapshotTaskFailed => GridPaperTaskFailure::TaskCancelled,
        GridPaperTaskError::PreviouslyFailed(failure) => failure,
    }
}

/// The name of a failure in an error text.
pub open spec fn grid_failure_name(failure: GridPaperTaskFailure) -> Seq<char> {
    match failure {
        GridPaperTaskFailure::StartupFailed => "StartupFailed"@,
        GridPaperTaskFailure::SourceContract => "SourceContract"@,
        GridPaperTaskFailure::JournalUnavailable => "JournalUnavailable"@,
        GridPaperTaskFailure::TaskPanicked => "TaskPanicked"@,
        GridPaperTaskFailure::TaskCancelled => "TaskCancelled"@,
        GridPaperTaskFailure::InvalidRequest => "InvalidRequest"@,
        GridPaperTaskFailure::RecoveryRequired => "RecoveryRequired"@,
        GridPaperTaskFailure::AccountContract => "AccountContract"@,
        GridPaperTaskFailure::ExecutionIncomplete => "ExecutionIncomplete"@,
        GridPaperTaskFailure::ExecutionFailed => "ExecutionFailed"@,
    }
}

fn failure_name(failure: GridPaperTaskFailure) -> (r: &'static str)
    ensures
        r@ == grid_failure_name(failure),
{
    match failure {
        GridPaperTaskFailure::StartupFailed => "StartupFailed",
        GridPaperTaskFailure::SourceContract => "SourceContract",
        GridPaperTaskFailure::JournalUnavailable => "JournalUnavailable",
        GridPaperTaskFailure::TaskPanicked => "TaskPanicked",
        GridPaperTaskFailure::TaskCancelled => "TaskCancelled",
        GridPaperTaskFailure::InvalidRequest => "InvalidRequest",
        GridPaperTaskFailure::RecoveryRequired => "RecoveryRequired",
        GridPaperTaskFailure::AccountContract => "AccountContract",
        GridPaperTaskFailure::ExecutionIncomplete => "ExecutionIncomplete",
        GridPaperTaskFailure::ExecutionFailed => "ExecutionFailed",
    }
}

/// The text of an owner failure. A failure that something else caused shows the
/// text of that cause.
pub open spec fn grid_error_text(error: GridPaperTaskError, cause: Seq<char>) -> Seq<char> {
    match error {
        GridPaperTaskError::InvalidConfig => "invalid grid paper task configuration"@,
        GridPaperTaskError::InvalidSourceBinding =>
            "grid paper source does not match its exact owner binding"@,
        GridPaperTaskError::InvalidRequest => "grid paper operation is invalid"@,
        GridPaperTaskError::RecoveryRequired => "grid paper durable state requires reconciliation"@,
        GridPaperTaskError::ShutdownTimedOut =>
            "grid paper shutdown timed out; recovery is required"@,
        GridPaperTaskError::SnapshotTaskFailed => "grid paper snapshot worker failed"@,
        GridPaperTaskError::TaskPanicked => "grid paper task panicked"@,
        GridPaperTaskError::TaskCancelled => "grid paper task was cancelled"@,
        GridPaperTaskError::PreviouslyFailed(failure) => "grid paper task already failed: "@
            + grid_failure_name(failure),
        _ => cause,
    }
}

impl GridPaperTaskError {
    pub fn failure_bucket(self) -> (r: GridPaperTaskFailure)
        ensures
            r == grid_bucket(self),
    {
        match self {
            GridPaperTaskError::InvalidConfig
            | GridPaperTaskError::InvalidSourceBinding
            | GridPaperTaskError::InvalidRequest
            | GridPaperTaskError::Strategy
            | GridPaperTaskError::Runtime => GridPaperTaskFailure::InvalidRequest,
            GridPaperTaskError::RecoveryRequired
            | GridPaperTaskError::ShutdownTimedOut => GridPaperTaskFailure::RecoveryRequired,
            GridPaperTaskError::Journal
            | GridPaperTaskError::JournalRead
            | GridPaperTaskError::Projection => GridPaperTaskFailure::JournalUnavailable,
            GridPaperTaskError::Account
            | GridPaperTaskError::AccountRisk => GridPaperTaskFailure::AccountContract,
            GridPaperTaskError::Source => GridPaperTaskFailure::SourceContract,
            GridPaperTaskError::Saga(failure) => classify_saga_error(failure),
            GridPaperTaskError::TaskPanicked => GridPaperTaskFailure::TaskPanicked,
            GridPaperTaskError::TaskCancelled
            | GridPaperTaskError::SnapshotTaskFailed => GridPaperTaskFailure::TaskCancelled,
            GridPaperTaskError::PreviouslyFailed(failure) => failure,
        }
    }

    /// The text of the failure; `cause` is the text of what caused it.
    pub fn message(self, cause: &str) -> (r: String)
        ensures
            r@ == grid_error_text(self, cause@),
    {
        let text: &str = match self {
            GridPaperTaskError::InvalidConfig => "invalid grid paper task configuration",
            GridPaperTaskError::InvalidSourceBinding =>
                "grid paper source does not match its exact owner binding",
            GridPaperTaskError::InvalidRequest => "grid paper operation is invalid",
            GridPaperTaskError::RecoveryRequired =>
                "grid paper durable state requires reconciliation",
            GridPaperTaskError::ShutdownTimedOut =>
                "grid paper shutdown timed out; recovery is required",
            GridPaperTaskError::SnapshotTaskFailed => "grid paper snapshot worker failed",
            GridPaperTaskError::TaskPanicked => "grid paper task panicked",
            GridPaperTaskError::TaskCancelled => "grid paper task was cancelled",
            GridPaperTaskError::PreviouslyFailed(failure) => {
                return joined("grid paper task already failed: ", failure_name(failure));
            },
            _ => cause,
        };
        text.to_owned()
    }

    /// The owner failure of a compensation that failed.
    pub fn from_compensation(error: PaperAdmissionCompensationError) -> (r: GridPaperTaskError)
        ensures
            r == compensation_error(error),
    {
        match error {
            PaperAdmissionCompensationError::Account => GridPaperTaskError::Account,
            PaperAdmissionCompensationError::AccountRisk => GridPaperTaskError::AccountRisk,
            PaperAdmissionCompensationError::RecoveryRequired =>
                GridPaperTaskError::RecoveryRequired,
        }
    }
}

pub open spec fn compensation_error(error: PaperAdmissionCompensationError) -> GridPaperTaskError {
    match error {
        PaperAdmissionCompensationError::Account => GridPaperTaskError::Account,
        PaperAdmissionCompensationError::AccountRisk => GridPaperTaskError::AccountRisk,
        PaperAdmissionCompensationError::RecoveryRequired => GridPaperTaskError::RecoveryRequired,
    }
}

/// Validated owner configuration. The virtual grid itself owns symbol and
/// geometry; this type owns execution and lifecycle identity.
#[derive(Debug)]
pub struct GridPaperTaskConfig {
    task_id: String,
    exchange: String,
    market_type: MarketType,
    quantity: Decimal,
    cost_model: PaperCostModel,
    protected: bool,
    account_risk: Option<String>,
}

impl GridPaperTaskConfig {
    pub closed spec fn task_id_view(self) -> Seq<char> {
        self.task_id@
    }

    pub closed spec fn exchange_view(self) -> Seq<char> {
        self.exchange@
    }

    pub closed spec fn market_type_view(self) -> MarketType {
        self.market_type
    }

    pub closed spec fn quantity_view(self) -> Decimal {
        self.quantity
    }

    pub closed spec fn protected_view(self) -> bool {
        self.protected
    }

    pub closed spec fn cost_model_view(self) -> PaperCostModel {
        self.cost_model
    }

    /// The scope of the attached account-risk authority.
    pub closed spec fn risk_scope_view(self) -> Option<Seq<char>> {
        crate::json::text_in(self.account_risk)
    }

    pub open spec fn account_risk_view(self) -> bool {
        self.risk_scope_view() is Some
    }

    /// Every configuration has safe identities and a positive quantity.
    #[verifier::type_invariant]
    pub open spec fn is_safe(self) -> bool {
        &&& is_task_identity(self.task_id_view())
        &&& is_plain_identity(self.exchange_view())
        &&& self.quantity_view()@.0 > 0
    }

    /// Creates a bounded single-source grid owner configuration;
    /// `InvalidConfig` for unsafe identities or a non-positive quantity. White
    /// space round an identity is dropped.
    pub fn new(
        task_id: &str,
        exchange: &str,
        market_type: MarketType,
        quantity: Decimal,
        cost_model: PaperCostModel,
    ) -> (r: Result<GridPaperTaskConfig, GridPaperTaskError>)
        ensures
            ({
                let task = trim_of(task_id@);
                let venue = trim_of(exchange@);
                if is_task_identity(task) && is_plain_identity(venue) && quantity@.0 > 0 {
                    &&& r is Ok
                    &&& r->Ok_0.task_id_view() == task
                    &&& r->Ok_0.exchange_view() == venue
                    &&& r->Ok_0.market_type_view() == market_type
                    &&& r->Ok_0.quantity_view() == quantity
                    &&& r->Ok_0.cost_model_view() == cost_model
                    &&& !r->Ok_0.protected_view()
                    &&& !r->Ok_0.account_risk_view()
                } else {
                    r == Err::<GridPaperTaskConfig, _>(GridPaperTaskError::InvalidConfig)
                }
            }),
    {
        let task: String = trimmed(task_id);
        let venue: String = trimmed(exchange);
        if !valid_task_identity(&task) || !valid_plain_identity(&venue) || !quantity.is_positive() {
            return Err(GridPaperTaskError::InvalidConfig);
        }
        Ok(
            GridPaperTaskConfig {
                task_id: task,
                exchange: venue,
                market_type,
                quantity,
                cost_model,
                protected: false,
                account_risk: None,
            },
        )
    }

    /// Attaches the pure grid-protection arbitration machine. The owner
    /// translates its directives into durable `grid_protection` facts and
    /// bounded paper actions.
    pub fn with_protection(self) -> (r: GridPaperTaskConfig)
        ensures
            r.protected_view(),
            r.task_id_view() == self.task_id_view(),
            r.exchange_view() == self.exchange_view(),
            r.market_type_view() == self.market_type_view(),
            r.quantity_view() == self.quantity_view(),
            r.cost_model_view() == self.cost_model_view(),
            r.risk_scope_view() == self.risk_scope_view(),
    {
        proof {
            use_type_invariant(&self);
        }
        GridPaperTaskConfig {
            task_id: self.task_id,
            exchange: self.exchange,
            market_type: self.market_type,
            quantity: self.quantity,
            cost_model: self.cost_model,
            protected: true,
            account_risk: self.account_risk,
        }
    }

    /// Attaches the durable account-level risk authority. Entry-side operations
    /// must pass its admission before any reservation is created; its close
    /// directives are consumed like grid-protection exits.
    pub fn with_account_risk(self, scope_id: String) -> (r: GridPaperTaskConfig)
        ensures
            r.risk_scope_view() == Some(scope_id@),
            r.cost_model_view() == self.cost_model_view(),
            r.task_id_view() == self.task_id_view(),
            r.exchange_view() == self.exchange_view(),
            r.market_type_view() == self.market_type_view(),
            r.quantity_view() == self.quantity_view(),
            r.protected_view() == self.protected_view(),
    {
        proof {
            use_type_invariant(&self);
        }
        GridPaperTaskConfig {
            task_id: self.task_id,
            exchange: self.exchange,
            market_type: self.market_type,
            quantity: self.quantity,
            cost_model: self.cost_model,
            protected: self.protected,
            account_risk: Some(scope_id),
        }
    }

    pub fn task_id(&self) -> (r: &str)
        ensures
            r@ == self.task_id_view(),
    {
        self.task_id.as_str()
    }

    pub fn exchange(&self) -> (r: &str)
        ensures
            r@ == self.exchange_view(),
    {
        self.exchange.as_str()
    }

    pub fn market_type(&self) -> (r: MarketType)
        ensures
            r == self.market_type_view(),
    {
        self.market_type
    }

    pub fn quantity(&self) -> (r: Decimal)
        ensures
            r == self.quantity_view(),
    {
        self.quantity
    }

    pub fn is_protected(&self) -> (r: bool)
        ensures
            r == self.protected_view(),
    {
        self.protected
    }

    pub fn has_account_risk(&self) -> (r: bool)
        ensures
            r == self.account_risk_view(),
    {
        self.account_risk.is_some()
    }

    /// The scope of the attached account-risk authority.
    pub fn risk_scope(&self) -> (r: Option<&str>)
        ensures
            match r {
                Some(scope_id) => self.risk_scope_view() == Some(scope_id@),
                None => self.risk_scope_view() is None,
            },
    {
        match &self.account_risk {
            Some(scope_id) => Some(scope_id.as_str()),
            None => None,
        }
    }

    pub fn cost_model(&self) -> (r: PaperCostModel)
        ensures
            r == self.cost_model_view(),
    {
        self.cost_model
    }
}

/// The lot lies in the instrument that the owner trades.
pub open spec fn in_target(
    lot: PaperLot,
    exchange: Seq<char>,
    symbol: Seq<char>,
    market_type: MarketType,
) -> bool {
    lot.exchange@ == exchange && lot.symbol@ == symbol && lot.market_type == market_type
}

pub fn lot_in_target(lot: &PaperLot, exchange: &str, symbol: &str, market_type: MarketType) -> (r:
    bool)
    ensures
        r == in_target(*lot, exchange@, symbol@, market_type),
{
    same_text(&lot.exchange, exchange) && same_text(&lot.symbol, symbol) && lot.market_type
        == market_type
}

/// Whether the owner's own operation opened the lot; nothing where the lot's
/// reservation is missing or not the only one of its kind.
pub open spec fn lot_is_own(
    reservations: Seq<PaperReservation>,
    lot: PaperLot,
    prefix: Seq<char>,
) -> Option<bool> {
    match sole_reservation(reservations, lot.source_reservation_id) {
        Some(source) => Some(belongs_to(source.task_id@, prefix)),
        None => None,
    }
}

fn own_lot(reservations: &Vec<PaperReservation>, lot: &PaperLot, prefix: &str) -> (r: Option<bool>)
    ensures
        r == lot_is_own(reservations@, *lot, prefix@),
{
    match find_sole_reservation(reservations, lot.source_reservation_id) {
        Some(place) => Some(
            operation_task_belongs_to_owner(&reservations[place].task_id, prefix),
        ),
        None => None,
    }
}

/// What the open lots of the target instrument add up to.
pub struct LotTotals {
    pub buy: (i128, u32),
    pub sell: (i128, u32),
    pub own: bool,
    pub foreign: bool,
}

/// Whose lots the target instrument holds, and how much of each side is the
/// owner's; nothing where a lot cannot be told or a sum overflows.
pub open spec fn lot_totals(
    lots: Seq<PaperLot>,
    reservations: Seq<PaperReservation>,
    exchange: Seq<char>,
    symbol: Seq<char>,
    market_type: MarketType,
    prefix: Seq<char>,
) -> Option<LotTotals>
    decreases lots.len(),
{
    if lots.len() == 0 {
        Some(LotTotals { buy: (0, 0), sell: (0, 0), own: false, foreign: false })
    } else {
        let lot = lots.last();
        match lot_totals(lots.drop_last(), reservations, exchange, symbol, market_type, prefix) {
            None => None,
            Some(before) => if !in_target(lot, exchange, symbol, market_type) {
                Some(before)
            } else {
                match lot_is_own(reservations, lot, prefix) {
                    None => None,
                    Some(false) => Some(LotTotals { foreign: true, ..before }),
                    Some(true) => match lot.side {
                        Side::Buy => match sum_of(before.buy, lot.remaining_quantity@) {
                            Some(sum) => Some(LotTotals { own: true, buy: sum, ..before }),
                            None => None,
                        },
                        Side::Sell => match sum_of(before.sell, lot.remaining_quantity@) {
                            Some(sum) => Some(LotTotals { own: true, sell: sum, ..before }),
                            None => None,
                        },
                    },
                }
            },
        }
    }
}

/// What closes the owner's position in the target instrument: a reducing order
/// on the other side for the whole quantity, or nothing for a flat book.
/// Recovery is required where a lot cannot be told, where the owner's lots
/// share the instrument with others, and where the owner holds both sides.
pub open spec fn close_plan_of(totals: Option<LotTotals>) -> Result<
    Option<(Side, (i128, u32))>,
    GridPaperTaskError,
> {
    match totals {
        None => Err(GridPaperTaskError::RecoveryRequired),
        Some(found) => if found.own && found.foreign {
            Err(GridPaperTaskError::RecoveryRequired)
        } else if !found.own {
            Ok(None)
        } else if found.buy.0 > 0 && found.sell.0 > 0 {
            Err(GridPaperTaskError::RecoveryRequired)
        } else if found.buy.0 > 0 {
            Ok(Some((Side::Sell, found.buy)))
        } else if found.sell.0 > 0 {
            Ok(Some((Side::Buy, found.sell)))
        } else {
            Ok(None)
        },
    }
}

/// The close plan of the account, for the instrument of the owner.
pub open spec fn account_close_plan(
    snapshot: PaperAccountSnapshot,
    config: GridPaperTaskConfig,
    symbol: Seq<char>,
) -> Result<Option<(Side, (i128, u32))>, GridPaperTaskError> {
    close_plan_of(
        lot_totals(
            snapshot.open_lots@,
            snapshot.reservations@,
            config.exchange_view(),
            symbol,
            config.market_type_view(),
            prefix_of(config.task_id_view()),
        ),
    )
}

/// The numbers in a close plan.
pub open spec fn plan_view(
    plan: Result<Option<(Side, Decimal)>, GridPaperTaskError>,
) -> Result<Option<(Side, (i128, u32))>, GridPaperTaskError> {
    match plan {
        Err(error) => Err(error),
        Ok(None) => Ok(None),
        Ok(Some(close)) => Ok(Some((close.0, close.1@))),
    }
}

proof fn lemma_totals_stay_none(
    lots: Seq<PaperLot>,
    reservations: Seq<PaperReservation>,
    exchange: Seq<char>,
    symbol: Seq<char>,
    market_type: MarketType,
    prefix: Seq<char>,
    k: int,
)
    requires
        0 <= k <= lots.len(),
        lot_totals(lots.take(k), reservations, exchange, symbol, market_type, prefix) is None,
    ensures
        lot_totals(lots, reservations, exchange, symbol, market_type, prefix) is None,
    decreases lots.len(),
{
    if k == lots.len() {
        assert(lots.take(k) =~= lots);
    } else {
        assert(lots.drop_last().take(k) =~= lots.take(k));
        lemma_totals_stay_none(
            lots.drop_last(),
            reservations,
            exchange,
            symbol,
            market_type,
            prefix,
            k,
        );
    }
}

pub fn target_instrument_close_plan(
    snapshot: &PaperAccountSnapshot,
    config: &GridPaperTaskConfig,
    symbol: &str,
) -> (r: Result<Option<(Side, Decimal)>, GridPaperTaskError>)
    ensures
        plan_view(r) == account_close_plan(*snapshot, *config, symbol@),
{
    let prefix: String = operation_prefix(config.task_id());
    let exchange: &str = config.exchange();
    let market_type: MarketType = config.market_type();
    let lots: &Vec<PaperLot> = &snapshot.open_lots;
    let mut buy: Decimal = Decimal::zero();
    let mut sell: Decimal = Decimal::zero();
    let mut own: bool = false;
    let mut foreign: bool = false;
    let mut i: usize = 0;
    while i < lots.len()
        invariant
            i <= lots.len(),
            lots == &snapshot.open_lots,
            prefix@ == prefix_of(config.task_id_view()),
            exchange@ == config.exchange_view(),
            market_type == config.market_type_view(),
            lot_totals(
                lots@.take(i as int),
                snapshot.reservations@,
                exchange@,
                symbol@,
                market_type,
                prefix@,
            ) == Some(LotTotals { buy: buy@, sell: sell@, own, foreign }),
        decreases lots.len() - i,
    {
        let lot: &PaperLot = &lots[i];
        assert(lots@.take(i + 1).drop_last() =~= lots@.take(i as int));
        let mut told: bool = true;
        if lot_in_target(lot, exchange, symbol, market_type) {
            match own_lot(&snapshot.reservations, lot, &prefix) {
                None => {
                    told = false;
                },
                Some(false) => {
                    foreign = true;
                },
                Some(true) => {
                    own = true;
                    let sum: Option<Decimal> = match lot.side {
                        Side::Buy => buy.checked_add(lot.remaining_quantity),
                        Side::Sell => sell.checked_add(lot.remaining_quantity),
                    };
                    match sum {
                        None => {
                            told = false;
                        },
                        Some(total) => match lot.side {
                            Side::Buy => {
                                buy = total;
                            },
                            Side::Sell => {
                                sell = total;
                            },
                        },
                    }
                },
            }
        }
        if !told {
            proof {
                lemma_totals_stay_none(
                    lots@,
                    snapshot.reservations@,
                    exchange@,
                    symbol@,
                    market_type,
                    prefix@,
                    i + 1,
                );
            }
            return Err(GridPaperTaskError::RecoveryRequired);
        }
        i = i + 1;
    }
    assert(lots@.take(i as int) =~= lots@);
    if own && foreign {
        // Reduce-only settlement consumes the instrument's lots in order. With
        // a foreign lot in the same queue, no order can prove that it reduces
        // only this owner's exposure.
        return Err(GridPaperTaskError::RecoveryRequired);
    }
    if !own {
        return Ok(None);
    }
    let buy_open: bool = buy.is_positive();
    let sell_open: bool = sell.is_positive();
    if buy_open && sell_open {
        return Err(GridPaperTaskError::RecoveryRequired);
    }
    if buy_open {
        return Ok(Some((Side::Sell, buy)));
    }
    if sell_open {
        return Ok(Some((Side::Buy, sell)));
    }
    Ok(None)
}

/// Whether one of the first lots of the instrument that can be told is not the
/// owner's; nothing where a lot before it cannot be told.
pub open spec fn foreign_lot_of(
    lots: Seq<PaperLot>,
    reservations: Seq<PaperReservation>,
    exchange: Seq<char>,
    symbol: Seq<char>,
    market_type: MarketType,
    prefix: Seq<char>,
) -> Option<bool>
    decreases lots.len(),
{
    if lots.len() == 0 {
        Some(false)
    } else {
        let lot = lots[0];
        let rest = foreign_lot_of(
            lots.skip(1),
            reservations,
            exchange,
            symbol,
            market_type,
            prefix,
        );
        if !in_target(lot, exchange, symbol, market_type) {
            rest
        } else {
            match lot_is_own(reservations, lot, prefix) {
                None => None,
                Some(false) => Some(true),
                Some(true) => rest,
            }
        }
    }
}

pub fn target_instrument_has_foreign_lots(
    snapshot: &PaperAccountSnapshot,
    config: &GridPaperTaskConfig,
    symbol: &str,
) -> (r: Result<bool, GridPaperTaskError>)
    ensures
        r == match foreign_lot_of(
            snapshot.open_lots@,
            snapshot.reservations@,
            config.exchange_view(),
            symbol@,
            config.market_type_view(),
            prefix_of(config.task_id_view()),
        ) {
            Some(foreign) => Ok::<bool, GridPaperTaskError>(foreign),
            None => Err(GridPaperTaskError::RecoveryRequired),
        },
{
    let prefix: String = operation_prefix(config.task_id());
    let exchange: &str = config.exchange();
    let market_type: MarketType = config.market_type();
    let lots: &Vec<PaperLot> = &snapshot.open_lots;
    let ghost all = foreign_lot_of(
        lots@,
        snapshot.reservations@,
        exchange@,
        symbol@,
        market_type,
        prefix@,
    );
    let mut i: usize = 0;
    assert(lots@.skip(0) =~= lots@);
    while i < lots.len()
        invariant
            i <= lots.len(),
            lots == &snapshot.open_lots,
            prefix@ == prefix_of(config.task_id_view()),
            exchange@ == config.exchange_view(),
            market_type == config.market_type_view(),
            all == foreign_lot_of(
                lots@.skip(i as int),
                snapshot.reservations@,
                exchange@,
                symbol@,
                market_type,
                prefix@,
            ),
            all == foreign_lot_of(
                snapshot.open_lots@,
                snapshot.reservations@,
                config.exchange_view(),
                symbol@,
                config.market_type_view(),
                prefix_of(config.task_id_view()),
            ),
        decreases lots.len() - i,
    {
        let lot: &PaperLot = &lots[i];
        assert(lots@.skip(i as int)[0] == lots@[i as int]);
        assert(lots@.skip(i as int).skip(1) =~= lots@.skip(i + 1));
        if lot_in_target(lot, exchange, symbol, market_type) {
            match own_lot(&snapshot.reservations, lot, &prefix) {
                None => return Err(GridPaperTaskError::RecoveryRequired),
                Some(false) => return Ok(true),
                Some(true) => {},
            }
        }
        i = i + 1;
    }
    Ok(false)
}

/// A close plan names a positive quantity, and it is given only where every
/// open lot of the instrument is the owner's.
pub proof fn law_close_plan_touches_only_own_lots(
    lots: Seq<PaperLot>,
    reservations: Seq<PaperReservation>,
    exchange: Seq<char>,
    symbol: Seq<char>,
    market_type: MarketType,
    prefix: Seq<char>,
    i: int,
)
    requires
        ({
            let plan = close_plan_of(
                lot_totals(lots, reservations, exchange, symbol, market_type, prefix),
            );
            plan is Ok && plan->Ok_0 is Some
        }),
        0 <= i < lots.len(),
        in_target(lots[i], exchange, symbol, market_type),
    ensures
        lot_is_own(reservations, lots[i], prefix) == Some(true),
        ({
            let plan = close_plan_of(
                lot_totals(lots, reservations, exchange, symbol, market_type, prefix),
            );
            let (side, quantity) = plan->Ok_0->0;
            quantity.0 > 0
        }),
{
    lemma_no_foreign_lot(lots, reservations, exchange, symbol, market_type, prefix, i);
}

/// Where there is nothing to close, the owner's open lots of the instrument add
/// up to no quantity on either side.
pub proof fn law_flat_plan_leaves_no_quantity(
    snapshot: PaperAccountSnapshot,
    config: GridPaperTaskConfig,
    symbol: Seq<char>,
)
    requires
        account_close_plan(snapshot, config, symbol) == Ok::<_, GridPaperTaskError>(
            None::<(Side, (i128, u32))>,
        ),
    ensures
        ({
            let totals = lot_totals(
                snapshot.open_lots@,
                snapshot.reservations@,
                config.exchange_view(),
                symbol,
                config.market_type_view(),
                prefix_of(config.task_id_view()),
            );
            &&& totals is Some
            &&& totals->0.buy.0 <= 0
            &&& totals->0.sell.0 <= 0
        }),
{
    lemma_no_own_lot(
        snapshot.open_lots@,
        snapshot.reservations@,
        config.exchange_view(),
        symbol,
        config.market_type_view(),
        prefix_of(config.task_id_view()),
    );
}

proof fn lemma_no_own_lot(
    lots: Seq<PaperLot>,
    reservations: Seq<PaperReservation>,
    exchange: Seq<char>,
    symbol: Seq<char>,
    market_type: MarketType,
    prefix: Seq<char>,
)
    ensures
        ({
            let totals = lot_totals(lots, reservations, exchange, symbol, market_type, prefix);
            totals is Some && !totals->0.own ==> totals->0.buy.0 == 0 && totals->0.sell.0 == 0
        }),
    decreases lots.len(),
{
    if lots.len() > 0 {
        lemma_no_own_lot(lots.drop_last(), reservations, exchange, symbol, market_type, prefix);
    }
}

proof fn lemma_no_foreign_lot(
    lots: Seq<PaperLot>,
    reservations: Seq<PaperReservation>,
    exchange: Seq<char>,
    symbol: Seq<char>,
    market_type: MarketType,
    prefix: Seq<char>,
    i: int,
)
    requires
        ({
            let totals = lot_totals(lots, reservations, exchange, symbol, market_type, prefix);
            totals is Some && !totals->0.foreign
        }),
        0 <= i < lots.len(),
        in_target(lots[i], exchange, symbol, market_type),
    ensures
        lot_is_own(reservations, lots[i], prefix) == Some(true),
    decreases lots.len(),
{
    if i < lots.len() - 1 {
        assert(lots.drop_last()[i] == lots[i]);
        lemma_no_foreign_lot(
            lots.drop_last(),
            reservations,
            exchange,
            symbol,
            market_type,
            prefix,
            i,
        );
    }
}

/// Latest durable lifecycle status plus operation count.
#[derive(Clone, Debug)]
pub struct GridPaperTaskStatus {
    pub schema_version: u16,
    pub task_id: String,
    pub phase: GridPaperTaskPhase,
    pub processed_event_count: u64,
    pub operation_count: u64,
    pub last_recorded_at: Option<Timestamp>,
    pub exit: Option<GridPaperTaskExit>,
    pub failure: Option<GridPaperTaskFailure>,
    pub runtime_failure: Option<GridPaperTaskFailure>,
}

pub open spec fn exit_label_of(exit: Option<GridPaperTaskExit>) -> Option<Seq<char>> {
    match exit {
        Some(found) => Some(grid_exit_text(found)),
        None => None,
    }
}

pub open spec fn failure_label_of(failure: Option<GridPaperTaskFailure>) -> Option<Seq<char>> {
    match failure {
        Some(found) => Some(grid_failure_text(found)),
        None => None,
    }
}

/// The lifecycle record of a status under a decision.
pub fn status_record(
    status: &GridPaperTaskStatus,
    decision: &'static str,
    recorded_at: Timestamp,
) -> (r: TaskRecord)
    ensures
        is_task_record(
            r,
            status.task_id@,
            GRID_TASK_KIND@,
            decision@,
            grid_phase_text(status.phase),
            status.processed_event_count,
            exit_label_of(status.exit),
            failure_label_of(status.failure),
            recorded_at,
        ),
{
    let exit: Option<&'static str> = match status.exit {
        Some(found) => Some(task_exit_label(found)),
        None => None,
    };
    let failure: Option<&'static str> = match status.failure {
        Some(found) => Some(task_failure_label(found)),
        None => None,
    };
    lifecycle_record(
        &status.task_id,
        GRID_TASK_KIND,
        decision,
        task_phase_label(status.phase),
        status.processed_event_count,
        exit,
        failure,
        recorded_at,
    )
}

/// The status of an owner that something outside it ended: failed, with
/// nothing left of an exit or a runtime failure, and never recorded earlier
/// than before.
pub fn external_failure_status(
    status: GridPaperTaskStatus,
    failure: GridPaperTaskFailure,
    now: Timestamp,
) -> (r: GridPaperTaskStatus)
    ensures
        r == (GridPaperTaskStatus {
            phase: GridPaperTaskPhase::Failed,
            failure: Some(failure),
            exit: None,
            runtime_failure: None,
            last_recorded_at: Some(
                match status.last_recorded_at {
                    Some(before) => crate::timestamp::later_of(now, before),
                    None => now,
                },
            ),
            ..status
        }),
{
    let mut failed: GridPaperTaskStatus = status;
    failed.phase = GridPaperTaskPhase::Failed;
    failed.failure = Some(failure);
    failed.exit = None;
    failed.runtime_failure = None;
    failed.last_recorded_at = Some(
        match failed.last_recorded_at {
            Some(before) => now.later(before),
            None => now,
        },
    );
    failed
}

/// The number that a new owner continues from; `RecoveryRequired` where the
/// account has to be reconciled or an earlier owner is not settled.
pub fn recovery_preflight(
    task_id: &str,
    snapshot: &PaperAccountSnapshot,
    earlier: Option<EarlierTask>,
) -> (r: Result<u64, GridPaperTaskError>)
    ensures
        r == match preflight_of(Ownership::Digits, *snapshot, task_id@) {
            Some(sequence) if earlier_task_is_settled(earlier) => Ok::<u64, GridPaperTaskError>(
                sequence,
            ),
            _ => Err(GridPaperTaskError::RecoveryRequired),
        },
{
    match account_preflight(Ownership::Digits, snapshot, task_id) {
        None => Err(GridPaperTaskError::RecoveryRequired),
        Some(sequence) => {
            if earlier_task_settled(earlier) {
                Ok(sequence)
            } else {
                Err(GridPaperTaskError::RecoveryRequired)
            }
        },
    }
}

/// The owner's source and grid fit its configuration: the account and the
/// owner share a journal, the grid names an instrument, and the source is the
/// owner's exchange.
pub fn source_is_bound(
    config: &GridPaperTaskConfig,
    same_journal: bool,
    symbol: &str,
    source_id: &str,
) -> (r: bool)
    ensures
        r == (same_journal && trim_of(symbol@).len() > 0 && source_id@ == config.exchange_view()),
{
    same_journal && !trimmed(symbol).as_str().is_empty() && same_text(source_id, config.exchange())
}

/// What an event shows of an instrument: its price and when it came in, or
/// nothing for a gap.
pub open spec fn observed_price(
    event: MarketDataEvent,
    exchange: Seq<char>,
    symbol: Seq<char>,
    market_type: MarketType,
) -> Result<Option<(Decimal, Timestamp)>, GridPaperTaskError> {
    match event {
        MarketDataEvent::Observation { snapshot, received_at, .. } => if is_instrument(
            snapshot,
            exchange,
            symbol,
            market_type,
        ) {
            Ok(Some((reference_price_of(snapshot), received_at)))
        } else {
            Err(GridPaperTaskError::InvalidSourceBinding)
        },
        _ => Ok(None),
    }
}

/// What an event shows of the owner's instrument: its price and when it came
/// in, or nothing for a gap; `InvalidSourceBinding` for another instrument.
pub fn observation_view(
    config: &GridPaperTaskConfig,
    symbol: &str,
    event: &MarketDataEvent,
) -> (r: Result<Option<(Decimal, Timestamp)>, GridPaperTaskError>)
    ensures
        r == observed_price(
            *event,
            config.exchange_view(),
            symbol@,
            config.market_type_view(),
        ),
{
    match event {
        MarketDataEvent::Observation { snapshot, received_at, .. } => {
            if !snapshot.matches(config.exchange(), symbol, config.market_type()) {
                return Err(GridPaperTaskError::InvalidSourceBinding);
            }
            Ok(Some((snapshot.reference_price(), *received_at)))
        },
        MarketDataEvent::SourceGap { .. } | MarketDataEvent::SourceUnavailable { .. } => Ok(None),
    }
}

/// The price that the reservation of a crossing is made at: the trigger price,
/// or the touch price where that is higher.
pub open spec fn reservation_price_of(
    event: MarketDataEvent,
    side: Side,
    trigger_price: Decimal,
) -> Decimal {
    match event {
        MarketDataEvent::Observation { snapshot, .. } => if less_than(
            trigger_price@,
            touch_price(snapshot, side)@,
        ) {
            touch_price(snapshot, side)
        } else {
            trigger_price
        },
        _ => trigger_price,
    }
}

pub fn conservative_reservation_price(
    event: &MarketDataEvent,
    side: Side,
    trigger_price: Decimal,
) -> (r: Decimal)
    ensures
        r == reservation_price_of(*event, side, trigger_price),
        !less_than(r@, trigger_price@),
{
    proof {
        lemma_not_less_than_itself(trigger_price@);
    }
    match event {
        MarketDataEvent::Observation { snapshot, .. } => {
            let touch: Decimal = snapshot.touch(side);
            if trigger_price.is_less_than(touch) {
                touch
            } else {
                trigger_price
            }
        },
        _ => trigger_price,
    }
}

proof fn lemma_not_less_than_itself(a: (i128, u32))
    ensures
        !less_than(a, a),
{
}

/// What the account-risk authority directs.
#[derive(Debug)]
pub enum AccountRiskDirective {
    CloseAllPositions { reason: String },
    ClosePosition { task_id: String },
}

/// The close demand that a directive makes of this owner.
pub open spec fn demand_of(directive: AccountRiskDirective, task_id: Seq<char>) -> Option<Seq<char>> {
    match directive {
        AccountRiskDirective::CloseAllPositions { reason } => Some(reason@),
        AccountRiskDirective::ClosePosition { task_id: target } => if target@ == task_id {
            Some("position_duration_exceeded"@)
        } else {
            None
        },
    }
}

/// The first close demand that applies to this owner.
pub open spec fn first_demand(directives: Seq<AccountRiskDirective>, task_id: Seq<char>) -> Option<
    Seq<char>,
>
    decreases directives.len(),
{
    if directives.len() == 0 {
        None
    } else if demand_of(directives[0], task_id) is Some {
        demand_of(directives[0], task_id)
    } else {
        first_demand(directives.skip(1), task_id)
    }
}

/// Extracts the first close demand that applies to this owner.
pub fn account_risk_exit_reason(directives: &Vec<AccountRiskDirective>, task_id: &str) -> (r: Option<
    String,
>)
    ensures
        crate::json::text_in(r) == first_demand(directives@, task_id@),
{
    let mut i: usize = 0;
    assert(directives@.skip(0) =~= directives@);
    while i < directives.len()
        invariant
            i <= directives.len(),
            first_demand(directives@, task_id@) == first_demand(
                directives@.skip(i as int),
                task_id@,
            ),
        decreases directives.len() - i,
    {
        assert(directives@.skip(i as int)[0] == directives@[i as int]);
        assert(directives@.skip(i as int).skip(1) =~= directives@.skip(i + 1));
        match &directives[i] {
            AccountRiskDirective::CloseAllPositions { reason } => {
                return Some(reason.clone());
            },
            AccountRiskDirective::ClosePosition { task_id: target } => {
                if same_text(target, task_id) {
                    return Some("position_duration_exceeded".to_owned());
                }
            },
        }
        i = i + 1;
    }
    None
}

/// What an owner does about a close demand.
#[derive(Clone, Copy, Debug)]
pub enum AccountRiskExitAction {
    /// The book is flat.
    Stop,
    Close { side: Side, quantity: Decimal, price: Decimal },
}

/// What a close demand comes to: a flat book stops the owner, an open position
/// is closed at the touch price. Recovery is required while some outcome is
/// open, where the position is unclear, and where no market was seen.
pub open spec fn risk_exit_of(
    snapshot: PaperAccountSnapshot,
    config: GridPaperTaskConfig,
    symbol: Seq<char>,
    market: Option<MarketSnapshot>,
) -> Result<Option<(Side, (i128, u32), Decimal)>, GridPaperTaskError> {
    if crate::paper_account::has_open_outcome(snapshot.reservations@) {
        Err(GridPaperTaskError::RecoveryRequired)
    } else {
        match account_close_plan(snapshot, config, symbol) {
            Err(error) => Err(error),
            Ok(None) => Ok(None),
            Ok(Some(close)) => match market {
                None => Err(GridPaperTaskError::RecoveryRequired),
                Some(seen) => Ok(Some((close.0, close.1, touch_price(seen, close.0)))),
            },
        }
    }
}

/// What a close demand comes to.
pub fn account_risk_exit(
    snapshot: &PaperAccountSnapshot,
    config: &GridPaperTaskConfig,
    symbol: &str,
    market: Option<&MarketSnapshot>,
) -> (r: Result<AccountRiskExitAction, GridPaperTaskError>)
    ensures
        match risk_exit_of(
            *snapshot,
            *config,
            symbol@,
            match market {
                Some(seen) => Some(*seen),
                None => None,
            },
        ) {
            Err(error) => r == Err::<AccountRiskExitAction, _>(error),
            Ok(None) => r == Ok::<_, GridPaperTaskError>(AccountRiskExitAction::Stop),
            Ok(Some(close)) => r is Ok && r->Ok_0 is Close && r->Ok_0->side == close.0
                && r->Ok_0->quantity@ == close.1 && r->Ok_0->price == close.2,
        },
{
    if crate::paper_account::any_open_outcome(&snapshot.reservations) {
        return Err(GridPaperTaskError::RecoveryRequired);
    }
    match target_instrument_close_plan(snapshot, config, symbol) {
        Err(error) => Err(error),
        Ok(None) => Ok(AccountRiskExitAction::Stop),
        Ok(Some(close)) => match market {
            None => Err(GridPaperTaskError::RecoveryRequired),
            Some(seen) => Ok(
                AccountRiskExitAction::Close {
                    side: close.0,
                    quantity: close.1,
                    price: seen.touch(close.0),
                },
            ),
        },
    }
}

/// The text of the reference price, or that there is none.
pub open spec fn reference_text(market: Option<MarketSnapshot>) -> Seq<char> {
    match market {
        Some(seen) => text_of(reference_price_of(seen)@),
        None => "unavailable"@,
    }
}

pub fn reference_price_text(market: Option<&MarketSnapshot>) -> (r: String)
    ensures
        r@ == reference_text(
            match market {
                Some(seen) => Some(*seen),
                None => None,
            },
        ),
{
    match market {
        Some(seen) => seen.reference_price().to_text(),
        None => "unavailable".to_owned(),
    }
}

/// One bounded durable fact naming the consumed account-risk directive.
#[derive(Debug)]
pub struct AccountRiskDirectiveRecord {
    pub recorded_at: Timestamp,
    pub strategy: &'static str,
    pub symbol: String,
    pub decision: &'static str,
    pub schema_version: u16,
    pub task_id: String,
    pub task_kind: &'static str,
    pub reason: String,
    pub price: String,
}

pub fn account_risk_directive_record(
    task_id: &str,
    task_kind: &'static str,
    symbol: &str,
    reason: &str,
    price: &str,
    recorded_at: Timestamp,
) -> (r: AccountRiskDirectiveRecord)
    ensures
        r.recorded_at == recorded_at,
        r.strategy@ == "account_risk"@,
        r.symbol@ == symbol@,
        r.decision@ == "account_risk_directive_exit"@,
        r.schema_version == 1,
        r.task_id@ == task_id@,
        r.task_kind == task_kind,
        r.reason@ == reason@,
        r.price@ == price@,
{
    AccountRiskDirectiveRecord {
        recorded_at,
        strategy: "account_risk",
        symbol: symbol.to_owned(),
        decision: "account_risk_directive_exit",
        schema_version: 1,
        task_id: task_id.to_owned(),
        task_kind,
        reason: reason.to_owned(),
        price: price.to_owned(),
    }
}

/// The durable plan of a forced close.
#[derive(Debug)]
pub struct ForcedCloseRecord {
    pub recorded_at: Timestamp,
    pub strategy: &'static str,
    pub symbol: String,
    pub decision: &'static str,
    pub schema_version: u16,
    pub task_id: String,
    pub task_kind: &'static str,
    pub trigger: &'static str,
    pub side: &'static str,
    pub quantity: String,
    pub price: String,
    pub operation_sequence: u64,
    pub operation_count: u64,
}

pub fn forced_close_record(
    config: &GridPaperTaskConfig,
    symbol: &str,
    trigger: &'static str,
    side: Side,
    quantity: Decimal,
    price: Decimal,
    operation_sequence: u64,
    recorded_at: Timestamp,
) -> (r: ForcedCloseRecord)
    ensures
        r.recorded_at == recorded_at,
        r.strategy@ == "grid"@,
        r.symbol@ == symbol@,
        r.decision@ == "grid_forced_close_planned"@,
        r.schema_version == 1,
        r.task_id@ == config.task_id_view(),
        r.task_kind@ == GRID_TASK_KIND@,
        r.trigger == trigger,
        r.side@ == side_label(side),
        r.quantity@ == text_of(quantity@),
        r.price@ == text_of(price@),
        r.operation_sequence == operation_sequence,
        r.operation_count == operation_sequence,
{
    ForcedCloseRecord {
        recorded_at,
        strategy: "grid",
        symbol: symbol.to_owned(),
        decision: "grid_forced_close_planned",
        schema_version: 1,
        task_id: config.task_id().to_owned(),
        task_kind: GRID_TASK_KIND,
        trigger,
        side: side.label(),
        quantity: quantity.to_text(),
        price: price.to_text(),
        operation_sequence,
        operation_count: operation_sequence,
    }
}

/// The scalp that a protection directive names.
#[derive(Clone, Copy, Debug)]
pub struct ScalpOrder {
    pub side: Side,
    pub quantity: Decimal,
    pub take_profit_price: Decimal,
}

/// One durable `grid_protection` fact naming the directive and its reason.
#[derive(Debug)]
pub struct ProtectionRecord {
    pub recorded_at: Timestamp,
    pub strategy: &'static str,
    pub symbol: String,
    pub decision: String,
    pub schema_version: u16,
    pub task_id: String,
    pub task_kind: &'static str,
    pub reason: Option<String>,
    pub price: String,
    pub side: Option<&'static str>,
    pub quantity: Option<String>,
    pub take_profit_price: Option<String>,
}

/// The fact of a directive under its label; a scalp also names its order.
pub fn protection_record(
    task_id: &str,
    symbol: &str,
    directive_label: &str,
    reason: Option<String>,
    scalp: Option<ScalpOrder>,
    price: Decimal,
    recorded_at: Timestamp,
) -> (r: ProtectionRecord)
    ensures
        r.recorded_at == recorded_at,
        r.strategy@ == "grid_protection"@,
        r.symbol@ == symbol@,
        r.decision@ == directive_label@,
        r.schema_version == 1,
        r.task_id@ == task_id@,
        r.task_kind@ == GRID_TASK_KIND@,
        r.reason == reason,
        r.price@ == text_of(price@),
        match scalp {
            None => r.side is None && r.quantity is None && r.take_profit_price is None,
            Some(order) => {
                &&& r.side is Some && r.side->0@ == side_label(order.side)
                &&& r.quantity is Some && r.quantity->0@ == text_of(order.quantity@)
                &&& r.take_profit_price is Some && r.take_profit_price->0@ == text_of(
                    order.take_profit_price@,
                )
            },
        },
{
    let (side, quantity, take_profit_price): (
        Option<&'static str>,
        Option<String>,
        Option<String>,
    ) = match scalp {
        None => (None, None, None),
        Some(order) => (
            Some(order.side.label()),
            Some(order.quantity.to_text()),
            Some(order.take_profit_price.to_text()),
        ),
    };
    ProtectionRecord {
        recorded_at,
        strategy: "grid_protection",
        symbol: symbol.to_owned(),
        decision: directive_label.to_owned(),
        schema_version: 1,
        task_id: task_id.to_owned(),
        task_kind: GRID_TASK_KIND,
        reason,
        price: price.to_text(),
        side,
        quantity,
        take_profit_price,
    }
}

/// What the protection machine observes besides the price and the time.
#[derive(Clone, Copy, Debug)]
pub struct ProtectionInputs {
    /// The owner's position; negative for a short one.
    pub position_quantity: Decimal,
    pub current_collateral: Decimal,
    pub cycles_per_hour: Decimal,
}

/// The chain of sums of four decimals.
pub open spec fn sum_of_four(
    a: (i128, u32),
    b: (i128, u32),
    c: (i128, u32),
    d: (i128, u32),
) -> Option<(i128, u32)> {
    match sum_of(a, b) {
        Some(ab) => match sum_of(ab, c) {
            Some(abc) => sum_of(abc, d),
            None => None,
        },
        None => None,
    }
}

/// What a close plan says of the position: its quantity, negative where it is
/// closed by a buy.
pub open spec fn position_of(plan: Option<(Side, (i128, u32))>) -> Option<(i128, u32)> {
    match plan {
        None => Some((0i128, 0u32)),
        Some(close) => match close.0 {
            Side::Sell => Some(close.1),
            Side::Buy => difference_of((0i128, 0u32), close.1),
        },
    }
}

/// What the protection machine observes: the signed position, all that the
/// account holds, and the cycles of ten minutes taken for an hour. Nothing is
/// observed while an operation is open.
pub open spec fn is_protection_of(
    r: Result<ProtectionInputs, GridPaperTaskError>,
    snapshot: PaperAccountSnapshot,
    config: GridPaperTaskConfig,
    symbol: Seq<char>,
    recent_cycles: u64,
) -> bool {
    let plan = account_close_plan(snapshot, config, symbol);
    let collateral = sum_of_four(
        snapshot.available@,
        snapshot.pending_reserved@,
        snapshot.uncertain_reserved@,
        snapshot.committed_exposure@,
    );
    let hourly = product_of((recent_cycles as i128, 0u32), (6i128, 0u32));
    if crate::paper_account::has_open_outcome(snapshot.reservations@) {
        r == Err::<ProtectionInputs, _>(GridPaperTaskError::RecoveryRequired)
    } else if collateral is None {
        r == Err::<ProtectionInputs, _>(GridPaperTaskError::InvalidRequest)
    } else if plan is Err {
        r == Err::<ProtectionInputs, _>(plan->Err_0)
    } else if position_of(plan->Ok_0) is None || hourly is None {
        r == Err::<ProtectionInputs, _>(GridPaperTaskError::InvalidRequest)
    } else {
        &&& r is Ok
        &&& Some(r->Ok_0.position_quantity@) == position_of(plan->Ok_0)
        &&& Some(r->Ok_0.current_collateral@) == collateral
        &&& Some(r->Ok_0.cycles_per_hour@) == hourly
    }
}

/// Reads what the protection machine observes from the account and from the
/// cycles that the grid closed in the last ten minutes.
pub fn protection_inputs(
    snapshot: &PaperAccountSnapshot,
    config: &GridPaperTaskConfig,
    symbol: &str,
    recent_cycles: u64,
) -> (r: Result<ProtectionInputs, GridPaperTaskError>)
    ensures
        is_protection_of(r, *snapshot, *config, symbol@, recent_cycles),
{
    if crate::paper_account::any_open_outcome(&snapshot.reservations) {
        return Err(GridPaperTaskError::RecoveryRequired);
    }
    let settled: Option<Decimal> = match snapshot.available.checked_add(snapshot.pending_reserved) {
        Some(sum) => match sum.checked_add(snapshot.uncertain_reserved) {
            Some(more) => more.checked_add(snapshot.committed_exposure),
            None => None,
        },
        None => None,
    };
    let current_collateral: Decimal = match settled {
        Some(total) => total,
        None => return Err(GridPaperTaskError::InvalidRequest),
    };
    let position: Option<Decimal> = match target_instrument_close_plan(snapshot, config, symbol) {
        Err(error) => return Err(error),
        Ok(None) => Some(Decimal::zero()),
        Ok(Some(close)) => match close.0 {
            Side::Sell => Some(close.1),
            Side::Buy => Decimal::zero().checked_sub(close.1),
        },
    };
    let position_quantity: Decimal = match position {
        Some(quantity) => quantity,
        None => return Err(GridPaperTaskError::InvalidRequest),
    };
    match Decimal::from_u64(recent_cycles).checked_mul(Decimal::from_u64(6)) {
        Some(cycles_per_hour) => Ok(
            ProtectionInputs { position_quantity, current_collateral, cycles_per_hour },
        ),
        None => Err(GridPaperTaskError::InvalidRequest),
    }
}

/// The notional that an entry asks account risk for.
pub fn entry_notional(config: &GridPaperTaskConfig, reservation_price: Decimal) -> (r: Result<
    Decimal,
    GridPaperTaskError,
>)
    ensures
        match product_of(reservation_price@, config.quantity_view()@) {
            Some(notional) => r is Ok && r->Ok_0@ == notional,
            None => r == Err::<Decimal, _>(GridPaperTaskError::InvalidRequest),
        },
{
    match reservation_price.checked_mul(config.quantity()) {
        Some(notional) => Ok(notional),
        None => Err(GridPaperTaskError::InvalidRequest),
    }
}

/// What account risk is asked about an entry at the reservation price;
/// `InvalidRequest` where its notional cannot be computed.
pub fn entry_candidate(
    config: &GridPaperTaskConfig,
    symbol: &str,
    reservation_price: Decimal,
) -> (r: Result<AccountRiskCandidate, GridPaperTaskError>)
    ensures
        match product_of(reservation_price@, config.quantity_view()@) {
            Some(notional) => r is Ok && is_candidate(
                r->Ok_0,
                config.task_id_view(),
                symbol@,
                notional,
            ),
            None => r == Err::<AccountRiskCandidate, _>(GridPaperTaskError::InvalidRequest),
        },
{
    match entry_notional(config, reservation_price) {
        Ok(notional) => Ok(risk_candidate(config.task_id(), symbol, notional)),
        Err(error) => Err(error),
    }
}

/// The operation of one crossed level: a limit order at the trigger price over
/// the owner's quantity, reserved at the reservation price.
pub open spec fn is_level_operation(
    request: PaperSingleLegRequest,
    config: GridPaperTaskConfig,
    symbol: Seq<char>,
    side: Side,
    trigger_price: Decimal,
    reduce_only: bool,
    reservation_price: Decimal,
    operation_sequence: u64,
    ids: FreshIds,
    ticket: Option<u128>,
) -> bool {
    let intent = request.batch_view().intents@[0];
    &&& request.batch_view().intents@.len() == 1
    &&& is_limit_intent(
        intent,
        config.exchange_view(),
        symbol,
        config.market_type_view(),
        side,
        config.quantity_view(),
        trigger_price,
        reduce_only,
    )
    &&& is_single_leg_operation(
        request,
        config.task_id_view(),
        "grid"@,
        operation_sequence,
        intent,
        reservation_price,
        ids,
        config.cost_model_view(),
        config.risk_scope_view(),
        ticket,
    )
}

/// Builds the operation of one crossed level: a limit order at the trigger
/// price whose reservation is made at the reservation price, under the admission
/// with this ticket where an authority is attached.
pub fn build_operation(
    config: &GridPaperTaskConfig,
    symbol: &str,
    side: Side,
    trigger_price: Decimal,
    reduce_only: bool,
    reservation_price: Decimal,
    operation_sequence: u64,
    client_order_id: u128,
    ids: FreshIds,
    ticket: Option<u128>,
) -> (r: Result<PaperSingleLegRequest, GridPaperTaskError>)
    ensures
        product_of(reservation_price@, config.quantity_view()@) is None ==> r == Err::<
            PaperSingleLegRequest,
            _,
        >(GridPaperTaskError::InvalidRequest),
        product_of(reservation_price@, config.quantity_view()@) is Some ==> r is Ok
            && is_level_operation(
            r->Ok_0,
            *config,
            symbol@,
            side,
            trigger_price,
            reduce_only,
            reservation_price,
            operation_sequence,
            ids,
            ticket,
        ),
{
    let intent: crate::domain::OrderIntent = limit_intent(
        client_order_id,
        config.exchange(),
        symbol,
        config.market_type(),
        side,
        config.quantity(),
        trigger_price,
        reduce_only,
    );
    match single_leg_operation(
        config.task_id(),
        "grid",
        operation_sequence,
        symbol,
        intent,
        reservation_price,
        ids,
        config.cost_model(),
        config.risk_scope(),
        ticket,
    ) {
        Ok(request) => Ok(request),
        Err(_) => Err(GridPaperTaskError::InvalidRequest),
    }
}

/// The operation is one limit order at a price, reserved at that price.
pub open spec fn is_priced_operation(
    request: PaperSingleLegRequest,
    config: GridPaperTaskConfig,
    symbol: Seq<char>,
    kind: Seq<char>,
    side: Side,
    quantity: Decimal,
    price: Decimal,
    reduce_only: bool,
    operation_sequence: u64,
    ids: FreshIds,
) -> bool {
    let intent = request.batch_view().intents@[0];
    &&& request.batch_view().intents@.len() == 1
    &&& is_limit_intent(
        intent,
        config.exchange_view(),
        symbol,
        config.market_type_view(),
        side,
        quantity,
        price,
        reduce_only,
    )
    &&& is_single_leg_operation(
        request,
        config.task_id_view(),
        kind,
        operation_sequence,
        intent,
        price,
        ids,
        config.cost_model_view(),
        config.risk_scope_view(),
        None,
    )
}

fn build_priced_operation(
    config: &GridPaperTaskConfig,
    symbol: &str,
    kind: &str,
    side: Side,
    quantity: Decimal,
    price: Decimal,
    reduce_only: bool,
    operation_sequence: u64,
    client_order_id: u128,
    ids: FreshIds,
) -> (r: Result<PaperSingleLegRequest, GridPaperTaskError>)
    ensures
        product_of(price@, quantity@) is None ==> r == Err::<PaperSingleLegRequest, _>(
            GridPaperTaskError::InvalidRequest,
        ),
        product_of(price@, quantity@) is Some ==> r is Ok && is_priced_operation(
            r->Ok_0,
            *config,
            symbol@,
            kind@,
            side,
            quantity,
            price,
            reduce_only,
            operation_sequence,
            ids,
        ),
{
    let intent: crate::domain::OrderIntent = limit_intent(
        client_order_id,
        config.exchange(),
        symbol,
        config.market_type(),
        side,
        quantity,
        price,
        reduce_only,
    );
    match single_leg_operation(
        config.task_id(),
        kind,
        operation_sequence,
        symbol,
        intent,
        price,
        ids,
        config.cost_model(),
        config.risk_scope(),
        None,
    ) {
        Ok(request) => Ok(request),
        Err(_) => Err(GridPaperTaskError::InvalidRequest),
    }
}

/// Builds the single reduce-side scalp take-profit operation.
pub fn build_protection_operation(
    config: &GridPaperTaskConfig,
    symbol: &str,
    side: Side,
    quantity: Decimal,
    price: Decimal,
    operation_sequence: u64,
    client_order_id: u128,
    ids: FreshIds,
) -> (r: Result<PaperSingleLegRequest, GridPaperTaskError>)
    ensures
        product_of(price@, quantity@) is None ==> r == Err::<PaperSingleLegRequest, _>(
            GridPaperTaskError::InvalidRequest,
        ),
        product_of(price@, quantity@) is Some ==> r is Ok && is_priced_operation(
            r->Ok_0,
            *config,
            symbol@,
            "scalp"@,
            side,
            quantity,
            price,
            false,
            operation_sequence,
            ids,
        ),
{
    build_priced_operation(
        config,
        symbol,
        "scalp",
        side,
        quantity,
        price,
        false,
        operation_sequence,
        client_order_id,
        ids,
    )
}

/// Builds the reduce-only operation that closes the owner's position, under
/// the trigger that demands it.
pub fn build_target_instrument_close_operation(
    config: &GridPaperTaskConfig,
    symbol: &str,
    trigger: &str,
    side: Side,
    quantity: Decimal,
    price: Decimal,
    operation_sequence: u64,
    client_order_id: u128,
    ids: FreshIds,
) -> (r: Result<PaperSingleLegRequest, GridPaperTaskError>)
    ensures
        product_of(price@, quantity@) is None ==> r == Err::<PaperSingleLegRequest, _>(
            GridPaperTaskError::InvalidRequest,
        ),
        product_of(price@, quantity@) is Some ==> r is Ok && is_priced_operation(
            r->Ok_0,
            *config,
            symbol@,
            trigger@,
            side,
            quantity,
            price,
            true,
            operation_sequence,
            ids,
        ),
{
    build_priced_operation(
        config,
        symbol,
        trigger,
        side,
        quantity,
        price,
        true,
        operation_sequence,
        client_order_id,
        ids,
    )
}

/// The pending reservations of the owner, in the order of the account: what an
/// owner that was cut off has to keep as uncertain.
pub open spec fn pending_ids(
    ownership: Ownership,
    reservations: Seq<PaperReservation>,
    prefix: Seq<char>,
) -> Seq<u128>
    decreases reservations.len(),
{
    if reservations.len() == 0 {
        Seq::empty()
    } else {
        let before = pending_ids(ownership, reservations.drop_last(), prefix);
        let last = reservations.last();
        if crate::operations::is_owned(ownership, last.task_id@, prefix) && last.phase
            == crate::paper_account::PaperReservationPhase::Pending {
            before.push(last.reservation_id)
        } else {
            before
        }
    }
}

/// The pending reservations that an owner which was cut off has to keep.
pub fn retain_active_capacity(
    ownership: Ownership,
    reservations: &Vec<PaperReservation>,
    task_id: &str,
) -> (r: Vec<u128>)
    ensures
        r@ == pending_ids(ownership, reservations@, prefix_of(task_id@)),
{
    let prefix: String = operation_prefix(task_id);
    let mut ids: Vec<u128> = Vec::new();
    let mut i: usize = 0;
    while i < reservations.len()
        invariant
            i <= reservations.len(),
            prefix@ == prefix_of(task_id@),
            ids@ == pending_ids(ownership, reservations@.take(i as int), prefix@),
        decreases reservations.len() - i,
    {
        assert(reservations@.take(i + 1).drop_last() =~= reservations@.take(i as int));
        if crate::operations::owned(ownership, &reservations[i].task_id, &prefix)
            && reservations[i].phase == crate::paper_account::PaperReservationPhase::Pending {
            ids.push(reservations[i].reservation_id);
        }
        i = i + 1;
    }
    assert(reservations@.take(i as int) =~= reservations@);
    ids
}

} // verus!
