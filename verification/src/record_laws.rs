//! What owners write down, how they begin, and how they are configured.

use crate::arbitrage_owner::{is_flat, ArbitrageAction, ArbitrageOwner};
use crate::decimal::{text_of, Decimal};
use crate::domain::{MarketType, Side};
use crate::grid_owner::GridOwner;
use crate::paper_arbitrage_task::{ArbitragePaperTaskConfig, ArbitragePaperTaskError};
use crate::paper_arbitrage_task::{ArbitragePaperTaskFailure, ArbitragePaperTaskPhase};
use crate::paper_arbitrage_task::{ArbitragePaperTaskStatus, HistoryDecisionConfig};
use crate::paper_grid_task::{forced_close_record, protection_record, ForcedCloseRecord};
use crate::paper_grid_task::{GridPaperTaskConfig, GridPaperTaskError, GridPaperTaskFailure};
use crate::paper_grid_task::{GridPaperTaskPhase, GridPaperTaskStatus, ProtectionRecord, ScalpOrder};
use crate::paper_profile::{ArbitragePaperProfile, GridPaperProfile, PaperProfileCatalog};
use crate::paper_profile::{PaperProfileError, PaperProfileKind, ProfileLoadError, SubmitCommand};
use crate::paper_task::{registered_record, startup_failure_record, TaskRecord};
use crate::paper_volume_maker_task::{CycleLimits, VolumeMakerPaperTaskConfig};
use crate::paper_volume_maker_task::{VolumeMakerPaperTaskError, VolumeMakerPaperTaskFailure};
use crate::paper_volume_maker_task::{VolumeMakerPaperTaskPhase, VolumeMakerPaperTaskStatus};
use crate::paper_volume_maker_task::VolumeMakerStrategyConfig;
use crate::requests::PaperCostModel;
use crate::text::trim_of;
use crate::timestamp::Timestamp;
use crate::volume_owner::VolumeOwner;
use vstd::prelude::*;

verus! {

/// A failure that is found from outside fails the owner: it keeps its identity
/// and its counts, has no exit, and its time never goes back.
pub proof fn law_grid_failure_from_outside_keeps_the_counts(
    status: GridPaperTaskStatus,
    failure: GridPaperTaskFailure,
    now: Timestamp,
    r: GridPaperTaskStatus,
)
    requires
        call_ensures(crate::paper_grid_task::external_failure_status, (status, failure, now), r),
    ensures
        r.phase == GridPaperTaskPhase::Failed && r.failure == Some(failure) && r.exit is None,
        r.runtime_failure is None,
        r.task_id == status.task_id,
        r.processed_event_count == status.processed_event_count,
        r.operation_count == status.operation_count,
        r.last_recorded_at is Some && r.last_recorded_at->0.rank() >= now.rank(),
        status.last_recorded_at is Some ==> r.last_recorded_at->0.rank()
            >= status.last_recorded_at->0.rank(),
        r.last_recorded_at == Some(now) || r.last_recorded_at == status.last_recorded_at,
{
}

/// The same of a volume owner.
pub proof fn law_volume_failure_from_outside_keeps_the_counts(
    status: VolumeMakerPaperTaskStatus,
    failure: VolumeMakerPaperTaskFailure,
    now: Timestamp,
    r: VolumeMakerPaperTaskStatus,
)
    requires
        call_ensures(
            crate::paper_volume_maker_task::external_failure_status,
            (status, failure, now),
            r,
        ),
    ensures
        r.phase == VolumeMakerPaperTaskPhase::Failed && r.failure == Some(failure),
        r.exit is None && r.runtime_failure is None,
        r.task_id == status.task_id,
        r.processed_event_count == status.processed_event_count,
        r.operation_count == status.operation_count,
        r.completed_cycle_count == status.completed_cycle_count,
        r.last_recorded_at is Some && r.last_recorded_at->0.rank() >= now.rank(),
        status.last_recorded_at is Some ==> r.last_recorded_at->0.rank()
            >= status.last_recorded_at->0.rank(),
        r.last_recorded_at == Some(now) || r.last_recorded_at == status.last_recorded_at,
{
}

/// The same of a pair owner.
pub proof fn law_pair_failure_from_outside_keeps_the_counts(
    status: ArbitragePaperTaskStatus,
    failure: ArbitragePaperTaskFailure,
    now: Timestamp,
    r: ArbitragePaperTaskStatus,
)
    requires
        call_ensures(
            crate::paper_arbitrage_task::external_failure_status,
            (status, failure, now),
            r,
        ),
    ensures
        r.phase == ArbitragePaperTaskPhase::Failed && r.failure == Some(failure),
        r.exit is None && r.runtime_failure is None,
        r.task_id == status.task_id,
        r.processed_event_count == status.processed_event_count,
        r.operation_count == status.operation_count,
        r.coalesced_opportunity_count == status.coalesced_opportunity_count,
        r.last_recorded_at is Some && r.last_recorded_at->0.rank() >= now.rank(),
        status.last_recorded_at is Some ==> r.last_recorded_at->0.rank()
            >= status.last_recorded_at->0.rank(),
        r.last_recorded_at == Some(now) || r.last_recorded_at == status.last_recorded_at,
{
}

/// The record of a status shows that status: whose it is, how much it has
/// processed, an exit where there is one and a failure where there is one.
pub proof fn law_record_shows_its_status(
    grid: &GridPaperTaskStatus,
    volume: &VolumeMakerPaperTaskStatus,
    pair: &ArbitragePaperTaskStatus,
    decision: &'static str,
    recorded_at: Timestamp,
    a: TaskRecord,
    b: TaskRecord,
    c: TaskRecord,
)
    requires
        call_ensures(crate::paper_grid_task::status_record, (grid, decision, recorded_at), a),
        call_ensures(
            crate::paper_volume_maker_task::status_record,
            (volume, decision, recorded_at),
            b,
        ),
        call_ensures(crate::paper_arbitrage_task::status_record, (pair, decision, recorded_at), c),
    ensures
        a.task_id@ == grid.task_id@ && b.task_id@ == volume.task_id@ && c.task_id@ == pair.task_id@,
        a.processed_event_count == grid.processed_event_count,
        b.processed_event_count == volume.processed_event_count,
        c.processed_event_count == pair.processed_event_count,
        a.exit is Some <==> grid.exit is Some,
        b.exit is Some <==> volume.exit is Some,
        c.exit is Some <==> pair.exit is Some,
        a.failure is Some <==> grid.failure is Some,
        b.failure is Some <==> volume.failure is Some,
        c.failure is Some <==> pair.failure is Some,
        a.recorded_at == recorded_at && b.recorded_at == recorded_at && c.recorded_at
            == recorded_at,
        a.decision@ == decision@ && b.decision@ == decision@ && c.decision@ == decision@,
        a.strategy@ == b.strategy@ && b.strategy@ == c.strategy@,
        a.schema_version == b.schema_version && b.schema_version == c.schema_version,
{
}

/// A start that failed is recorded as the registered task's, at no earlier
/// time than its registration; neither record has processed anything.
pub proof fn law_failed_start_is_recorded_after_its_registration(
    task_id: &str,
    task_kind: &'static str,
    registered_at: Timestamp,
    now: Timestamp,
    registered: TaskRecord,
    failed: TaskRecord,
)
    requires
        call_ensures(registered_record, (task_id, task_kind, registered_at), registered),
        call_ensures(startup_failure_record, (task_id, task_kind, now, registered_at), failed),
    ensures
        registered.task_id@ == task_id@ && failed.task_id@ == task_id@,
        registered.task_kind@ == failed.task_kind@,
        registered.recorded_at == registered_at,
        failed.recorded_at.rank() >= registered_at.rank() && failed.recorded_at.rank()
            >= now.rank(),
        failed.recorded_at == now || failed.recorded_at == registered_at,
        registered.processed_event_count == 0 && failed.processed_event_count == 0,
        registered.failure is None && failed.failure is Some,
        registered.exit is None && failed.exit is None,
{
}

/// A forced close is recorded with what it will order, under its own number.
pub proof fn law_forced_close_is_recorded_as_ordered(
    config: &GridPaperTaskConfig,
    symbol: &str,
    trigger: &'static str,
    side: Side,
    quantity: Decimal,
    price: Decimal,
    sequence: u64,
    recorded_at: Timestamp,
    r: ForcedCloseRecord,
    other: ForcedCloseRecord,
)
    requires
        call_ensures(
            forced_close_record,
            (config, symbol, trigger, side, quantity, price, sequence, recorded_at),
            r,
        ),
        call_ensures(
            forced_close_record,
            (config, symbol, trigger, side, price, quantity, sequence, recorded_at),
            other,
        ),
    ensures
        r.task_id@ == config.task_id_view(),
        r.symbol@ == symbol@,
        r.quantity@ == text_of(quantity@) && r.price@ == text_of(price@),
        r.quantity@ == other.price@ && r.price@ == other.quantity@,
        r.operation_sequence == sequence && r.operation_count == sequence,
        r.trigger@ == trigger@,
        side == Side::Buy ==> r.side@ == "buy"@,
        side == Side::Sell ==> r.side@ == "sell"@,
        r.recorded_at == recorded_at,
{
}

/// A directive's record shows an order exactly where the directive scalps.
pub proof fn law_only_a_scalp_is_recorded_with_an_order(
    task_id: &str,
    symbol: &str,
    label: &str,
    reason: Option<String>,
    scalp: Option<ScalpOrder>,
    price: Decimal,
    recorded_at: Timestamp,
    r: ProtectionRecord,
)
    requires
        call_ensures(
            protection_record,
            (task_id, symbol, label, reason, scalp, price, recorded_at),
            r,
        ),
    ensures
        r.side is Some <==> scalp is Some,
        r.quantity is Some <==> scalp is Some,
        r.take_profit_price is Some <==> scalp is Some,
        scalp is Some ==> r.quantity->0@ == text_of(scalp->0.quantity@) && r.take_profit_price->0@
            == text_of(scalp->0.take_profit_price@),
        scalp is Some && scalp->0.side == Side::Buy ==> r.side->0@ == "buy"@,
        scalp is Some && scalp->0.side == Side::Sell ==> r.side->0@ == "sell"@,
        r.price@ == text_of(price@),
        r.task_id@ == task_id@ && r.symbol@ == symbol@,
        r.reason == reason,
{
}

/// Every owner begins with no event processed and at the number of the last
/// operation that the account knows, holding nothing.
pub proof fn law_owners_begin_where_the_account_is(
    risk: bool,
    protected: bool,
    limits: CycleLimits,
    sequence: u64,
    grid: GridOwner,
    volume: VolumeOwner,
    pair: (ArbitrageOwner, ArbitrageAction),
)
    requires
        call_ensures(GridOwner::start, (risk, protected, sequence), grid),
        call_ensures(VolumeOwner::start, (risk, limits, sequence), volume),
        call_ensures(ArbitrageOwner::start, (risk, sequence), pair),
    ensures
        grid.sequence == sequence && volume.sequence == sequence && pair.0.sequence == sequence,
        grid.status.operation_count == sequence && volume.status.operation_count == sequence,
        pair.0.status.operation_count == sequence,
        grid.status.processed_event_count == 0 && volume.status.processed_event_count == 0,
        pair.0.status.processed_event_count == 0,
        grid.risk == risk && volume.risk == risk && pair.0.risk == risk,
        grid.protected == protected && volume.limits == limits,
        volume.position is None && is_flat(pair.0.position) && pair.0.in_flight is None,
        volume.status.completed_cycle_count == 0,
        grid.stage is Waiting && volume.stage is Waiting && pair.1 is RestoreState,
{
}

/// A grid is configured with an identity and a venue without blanks at their
/// ends and with a quantity above zero, and unprotected; protecting it changes
/// nothing else.
pub proof fn law_grid_configuration_is_what_was_given(
    task_id: &str,
    exchange: &str,
    market_type: MarketType,
    quantity: Decimal,
    cost_model: PaperCostModel,
    r: Result<GridPaperTaskConfig, GridPaperTaskError>,
    protected: GridPaperTaskConfig,
)
    requires
        call_ensures(
            GridPaperTaskConfig::new,
            (task_id, exchange, market_type, quantity, cost_model),
            r,
        ),
        r is Ok,
        call_ensures(GridPaperTaskConfig::with_protection, (r->Ok_0,), protected),
    ensures
        r->Ok_0.task_id_view() == trim_of(task_id@) && r->Ok_0.exchange_view() == trim_of(exchange@),
        r->Ok_0.task_id_view().len() > 0 && r->Ok_0.exchange_view().len() > 0,
        quantity@.0 > 0 && r->Ok_0.quantity_view() == quantity,
        r->Ok_0.market_type_view() == market_type,
        !r->Ok_0.protected_view() && protected.protected_view(),
        protected.task_id_view() == r->Ok_0.task_id_view(),
        protected.exchange_view() == r->Ok_0.exchange_view(),
        protected.quantity_view() == quantity && protected.market_type_view() == market_type,
        protected.risk_scope_view() == r->Ok_0.risk_scope_view(),
{
}

/// The three bounds of a volume owner are set one by one: each keeps the other
/// two, so they may be set in any order.
pub proof fn law_cycle_bounds_are_set_one_by_one(
    config: VolumeMakerPaperTaskConfig,
    cycles: u64,
    volume: Decimal,
    a: VolumeMakerPaperTaskConfig,
    ab: VolumeMakerPaperTaskConfig,
    b: VolumeMakerPaperTaskConfig,
    ba: VolumeMakerPaperTaskConfig,
)
    requires
        call_ensures(VolumeMakerPaperTaskConfig::with_max_cycles, (config, cycles), a),
        call_ensures(VolumeMakerPaperTaskConfig::with_target_volume, (a, volume), ab),
        call_ensures(VolumeMakerPaperTaskConfig::with_target_volume, (config, volume), b),
        call_ensures(VolumeMakerPaperTaskConfig::with_max_cycles, (b, cycles), ba),
    ensures
        ab.limits_view() == ba.limits_view(),
        ab.limits_view().max_cycles == Some(cycles),
        ab.limits_view().target_volume == Some(volume),
        ab.limits_view().interval_seconds == config.limits_view().interval_seconds,
        ab.limits_view().interval_nanos == config.limits_view().interval_nanos,
        ab.task_id_view() == config.task_id_view() && ab.strategy_view() == config.strategy_view(),
{
}

/// A new volume owner is unbounded and rests between no cycles.
pub proof fn law_new_volume_owner_is_unbounded(
    task_id: &str,
    strategy: VolumeMakerStrategyConfig,
    cost_model: PaperCostModel,
    r: Result<VolumeMakerPaperTaskConfig, VolumeMakerPaperTaskError>,
    seconds: u64,
    nanos: u32,
    rested: VolumeMakerPaperTaskConfig,
)
    requires
        call_ensures(VolumeMakerPaperTaskConfig::new, (task_id, strategy, cost_model), r),
        r is Ok,
        call_ensures(
            VolumeMakerPaperTaskConfig::with_cycle_interval,
            (r->Ok_0, seconds, nanos),
            rested,
        ),
    ensures
        r->Ok_0.limits_view().max_cycles is None && r->Ok_0.limits_view().target_volume is None,
        r->Ok_0.limits_view().interval_seconds == 0 && r->Ok_0.limits_view().interval_nanos == 0,
        rested.limits_view().interval_seconds == seconds,
        rested.limits_view().interval_nanos == nanos,
        rested.limits_view().max_cycles is None && rested.limits_view().target_volume is None,
        r->Ok_0.task_id_view() == trim_of(task_id@) && rested.task_id_view() == trim_of(task_id@),
        r->Ok_0.strategy_view() == strategy,
{
}

/// A pair owner is never configured without a bound on its position, and is
/// gated exactly where its history decides.
pub proof fn law_pair_configuration_is_bounded(
    task_id: &str,
    strategy_valid: bool,
    max_position_value: Option<Decimal>,
    risk_valid: bool,
    history: HistoryDecisionConfig,
    cost_model: PaperCostModel,
    r: Result<ArbitragePaperTaskConfig, ArbitragePaperTaskError>,
)
    requires
        call_ensures(
            ArbitragePaperTaskConfig::new,
            (task_id, strategy_valid, max_position_value, risk_valid, history, cost_model),
            r,
        ),
    ensures
        r is Ok ==> max_position_value == Some(r->Ok_0.max_position_value_view()),
        r is Ok ==> strategy_valid && risk_valid && (history is Enabled ==> history->valid),
        r is Ok ==> r->Ok_0.history_gated_view() == history is Enabled,
        r is Ok ==> r->Ok_0.task_id_view() == trim_of(task_id@),
        max_position_value is None ==> r is Err,
        !strategy_valid || !risk_valid ==> r is Err,
{
}

/// Two profiles of one catalog never share a task, and the catalog holds
/// exactly what was given; one that could not be loaded leaves no catalog.
pub proof fn law_catalog_keeps_its_profiles_apart(
    grid: Option<Result<GridPaperProfile, ProfileLoadError>>,
    arbitrage: Option<Result<ArbitragePaperProfile, ProfileLoadError>>,
    r: Result<PaperProfileCatalog, ProfileLoadError>,
)
    requires
        call_ensures(PaperProfileCatalog::new, (grid, arbitrage), r),
    ensures
        r is Ok ==> (r->Ok_0.grid_view() is Some <==> grid is Some),
        r is Ok ==> (r->Ok_0.arbitrage_view() is Some <==> arbitrage is Some),
        r is Ok && grid is Some ==> grid->0 is Ok && r->Ok_0.grid_view()->0 == grid->0->Ok_0,
        r is Ok && arbitrage is Some ==> arbitrage->0 is Ok && r->Ok_0.arbitrage_view()->0
            == arbitrage->0->Ok_0,
        r is Ok && grid is Some && arbitrage is Some ==> grid->0->Ok_0.task_view()
            != arbitrage->0->Ok_0.task_view(),
        grid is Some && grid->0 is Err ==> r == Err::<PaperProfileCatalog, _>(grid->0->Err_0),
{
}

/// A command starts the profile of its own kind, and only under that profile's
/// task; no other command starts anything.
pub proof fn law_command_starts_what_it_names(
    catalog: &PaperProfileCatalog,
    target: &str,
    command: &SubmitCommand,
    r: Result<PaperProfileKind, PaperProfileError>,
)
    requires
        call_ensures(PaperProfileCatalog::start_matching, (catalog, target, command), r),
    ensures
        r is Ok && r->Ok_0 is Grid ==> command is StartPaperGrid && catalog.grid_identity() is Some
            && (catalog.grid_identity()->0).0 == target@,
        r is Ok && r->Ok_0 is Arbitrage ==> command is StartPaperArbitrage
            && catalog.arbitrage_identity() is Some && (catalog.arbitrage_identity()->0).0
            == target@,
        command is Other ==> r is Err && r->Err_0 is UnsupportedCommand,
{
}

} // verus!
