//! How the owners read their market, their account and the account-risk
//! directives: what an owner is told of each of them.

use vstd::prelude::*;

use crate::arbitrage_owner::{ArbitrageInput, GateFound, PlanScope, SampleFound};
use crate::arbitrage_plan::ArbitrageDecisionKind;
use crate::decimal::text_of;
use crate::domain::{is_instrument, MarketDataEvent, MarketSnapshot, Side};
use crate::grid_owner::{
    check_crossing, crossing_in, CrossingFound, GridInput, PositionFound, RiskExit,
};
use crate::monitor::{ArbitrageMonitorOutcome, MarketInstrument};
use crate::paper_account::{any_open_outcome, has_open_outcome, PaperAccountSnapshot};
use crate::paper_arbitrage_task::{
    history_gate, ArbitragePaperTaskConfig, ArbitragePaperTaskError, HistoryDecisionKind,
    SpreadSample, ARBITRAGE_TASK_KIND,
};
use crate::paper_grid_task::{
    account_close_plan, account_risk_directive_record, account_risk_exit,
    account_risk_exit_reason, first_demand, observation_view as grid_observation,
    reference_price_text, reference_text, risk_exit_of, target_instrument_close_plan,
    AccountRiskDirective, AccountRiskDirectiveRecord, AccountRiskExitAction, GridPaperTaskConfig,
    GridPaperTaskError, GRID_TASK_KIND,
};
use crate::paper_volume_maker_task::{
    VolumeMakerPaperTaskConfig, VolumeMakerPaperTaskError, VOLUME_TASK_KIND,
};
use crate::timestamp::Timestamp;
use crate::volume_owner::VolumeInput;

verus! {

/// What reading the account-risk directives came to.
#[derive(Clone, Copy, Debug, PartialEq, Eq, Structural)]
pub enum RiskDemand {
    /// Nothing is demanded of the owner.
    Absent,
    /// A close is demanded, and the demand is in the journal.
    Recorded,
    /// The directives could not be read.
    Unavailable,
    /// A close is demanded, but the demand is not in the journal.
    Unrecorded,
}

/// What the reading waits for.
#[derive(Clone, Copy, Debug, PartialEq, Eq, Structural)]
pub enum DemandStage {
    Directives,
    Append,
    Finished,
}

/// What the reading asks for.
#[derive(Debug)]
pub enum DemandAction {
    ReadDirectives,
    /// To record the directive with its reason.
    AppendDirective { reason: String },
    Finish(RiskDemand),
}

/// What came of it.
#[derive(Debug)]
pub enum DemandInput {
    /// The directives; nothing where they could not be read.
    Directives(Option<Vec<AccountRiskDirective>>),
    Appended(bool),
}

/// The next stage and what it asks for.
pub type DemandStep = (DemandStage, DemandAction);

/// The demand is over.
pub open spec fn demand_ends(demand: RiskDemand) -> DemandStep {
    (DemandStage::Finished, DemandAction::Finish(demand))
}

/// One step of the reading. A demand counts only once it is in the journal; an
/// input that the stage does not wait for leaves it unread.
pub open spec fn is_demand_step(
    task_id: Seq<char>,
    stage: DemandStage,
    input: DemandInput,
    step: DemandStep,
) -> bool {
    match (stage, input) {
        (DemandStage::Directives, DemandInput::Directives(Some(directives))) => match first_demand(
            directives@,
            task_id,
        ) {
            None => step == demand_ends(RiskDemand::Absent),
            Some(reason) => {
                &&& step.0 == DemandStage::Append
                &&& step.1 is AppendDirective
                &&& step.1->reason@ == reason
            },
        },
        (DemandStage::Append, DemandInput::Appended(true)) => step == demand_ends(
            RiskDemand::Recorded,
        ),
        (DemandStage::Append, DemandInput::Appended(false)) => step == demand_ends(
            RiskDemand::Unrecorded,
        ),
        _ => step == demand_ends(RiskDemand::Unavailable),
    }
}

/// The first step reads the directives.
pub fn read_demand() -> (r: DemandStep)
    ensures
        r == (DemandStage::Directives, DemandAction::ReadDirectives),
{
    (DemandStage::Directives, DemandAction::ReadDirectives)
}

/// Takes what came of the last action and says what to do next.
pub fn demand_step(task_id: &str, stage: DemandStage, input: DemandInput) -> (r: DemandStep)
    ensures
        is_demand_step(task_id@, stage, input, r),
{
    match (stage, input) {
        (
            DemandStage::Directives,
            DemandInput::Directives(Some(directives)),
        ) => match account_risk_exit_reason(&directives, task_id) {
            None => (DemandStage::Finished, DemandAction::Finish(RiskDemand::Absent)),
            Some(reason) => (DemandStage::Append, DemandAction::AppendDirective { reason }),
        },
        (DemandStage::Append, DemandInput::Appended(durable)) => if durable {
            (DemandStage::Finished, DemandAction::Finish(RiskDemand::Recorded))
        } else {
            (DemandStage::Finished, DemandAction::Finish(RiskDemand::Unrecorded))
        },
        _ => (DemandStage::Finished, DemandAction::Finish(RiskDemand::Unavailable)),
    }
}

/// The reading finds a recorded demand only after the directives held one that
/// names this owner and its record was appended.
pub proof fn law_demand_is_recorded_before_it_counts(
    task_id: Seq<char>,
    first: DemandInput,
    middle: DemandStep,
    second: DemandInput,
    last: DemandStep,
)
    requires
        is_demand_step(task_id, DemandStage::Directives, first, middle),
        is_demand_step(task_id, middle.0, second, last),
        middle.1 is AppendDirective,
        last.1 == DemandAction::Finish(RiskDemand::Recorded),
    ensures
        second == DemandInput::Appended(true),
        first is Directives,
        first->Directives_0 is Some,
        first_demand(first->Directives_0->0@, task_id) is Some,
        middle.1->reason@ == first_demand(first->Directives_0->0@, task_id)->0,
{
}

/// What an event is to a grid owner; `signalled` says that a stop or a cancel is
/// pending.
pub open spec fn grid_event_of(
    config: GridPaperTaskConfig,
    symbol: Seq<char>,
    event: MarketDataEvent,
    signalled: bool,
) -> GridInput {
    GridInput::Event {
        observation: event is Observation,
        bound: event is Observation && is_instrument(
            event->Observation_snapshot,
            config.exchange_view(),
            symbol,
            config.market_type_view(),
        ),
        signalled,
    }
}

/// What an event is to a grid owner.
pub fn grid_event(
    config: &GridPaperTaskConfig,
    symbol: &str,
    event: &MarketDataEvent,
    signalled: bool,
) -> (r: GridInput)
    ensures
        r == grid_event_of(*config, symbol@, *event, signalled),
{
    let observation: bool = match event {
        MarketDataEvent::Observation { .. } => true,
        _ => false,
    };
    let bound: bool = match grid_observation(config, symbol, event) {
        Ok(Some(_)) => true,
        _ => false,
    };
    GridInput::Event { observation, bound, signalled }
}

/// What a grid owner is told of the directives; a demand on an account that
/// could not be read is a failure of the account.
pub open spec fn grid_risk_of(
    demand: RiskDemand,
    account: Option<PaperAccountSnapshot>,
    config: GridPaperTaskConfig,
    symbol: Seq<char>,
    market: Option<MarketSnapshot>,
) -> GridInput {
    match demand {
        RiskDemand::Absent => GridInput::Risk(RiskExit::Continue),
        RiskDemand::Unavailable => GridInput::Failed(GridPaperTaskError::AccountRisk),
        RiskDemand::Unrecorded => GridInput::Failed(GridPaperTaskError::Journal),
        RiskDemand::Recorded => match account {
            None => GridInput::Failed(GridPaperTaskError::Account),
            Some(snapshot) => match risk_exit_of(snapshot, config, symbol, market) {
                Err(error) => GridInput::Failed(error),
                Ok(None) => GridInput::Risk(RiskExit::Stop),
                Ok(Some(_)) => GridInput::Risk(RiskExit::Close),
            },
        },
    }
}

/// What a grid owner is told of the directives, and the order that closes its
/// position where it has to be closed.
pub fn grid_risk(
    demand: RiskDemand,
    account: Option<&PaperAccountSnapshot>,
    config: &GridPaperTaskConfig,
    symbol: &str,
    market: Option<&MarketSnapshot>,
) -> (r: (GridInput, Option<AccountRiskExitAction>))
    ensures
        r.0 == grid_risk_of(
            demand,
            match account {
                Some(snapshot) => Some(*snapshot),
                None => None,
            },
            *config,
            symbol@,
            match market {
                Some(seen) => Some(*seen),
                None => None,
            },
        ),
        r.1 is Some <==> r.0 == GridInput::Risk(RiskExit::Close),
        r.1 is Some ==> {
            let found = risk_exit_of(
                *account->0,
                *config,
                symbol@,
                match market {
                    Some(seen) => Some(*seen),
                    None => None,
                },
            );
            &&& found is Ok && found->Ok_0 is Some
            &&& match r.1 {
                Some(AccountRiskExitAction::Close { side, quantity, price }) => found->Ok_0
                    == Some((side, quantity@, price)),
                _ => false,
            }
        },
{
    match demand {
        RiskDemand::Absent => (GridInput::Risk(RiskExit::Continue), None),
        RiskDemand::Unavailable => (GridInput::Failed(GridPaperTaskError::AccountRisk), None),
        RiskDemand::Unrecorded => (GridInput::Failed(GridPaperTaskError::Journal), None),
        RiskDemand::Recorded => match account {
            None => (GridInput::Failed(GridPaperTaskError::Account), None),
            Some(snapshot) => match account_risk_exit(snapshot, config, symbol, market) {
                Err(error) => (GridInput::Failed(error), None),
                Ok(exit) => match exit {
                    AccountRiskExitAction::Stop => (GridInput::Risk(RiskExit::Stop), None),
                    AccountRiskExitAction::Close { .. } => (
                        GridInput::Risk(RiskExit::Close),
                        Some(exit),
                    ),
                },
            },
        },
    }
}

/// What a grid owner is told of its position. Where only a settled account
/// counts, one with an open outcome is not read.
pub open spec fn grid_position_of(
    account: Option<PaperAccountSnapshot>,
    settled_only: bool,
    config: GridPaperTaskConfig,
    symbol: Seq<char>,
) -> PositionFound {
    match account {
        None => PositionFound::Unread(GridPaperTaskError::Account),
        Some(snapshot) => if settled_only && has_open_outcome(snapshot.reservations@) {
            PositionFound::Unread(GridPaperTaskError::RecoveryRequired)
        } else {
            match account_close_plan(snapshot, config, symbol) {
                Err(error) => PositionFound::Unclear(error),
                Ok(None) => PositionFound::Flat,
                Ok(Some(_)) => PositionFound::Open,
            }
        },
    }
}

/// What a grid owner is told of its position.
pub fn grid_position(
    account: Option<&PaperAccountSnapshot>,
    settled_only: bool,
    config: &GridPaperTaskConfig,
    symbol: &str,
) -> (r: PositionFound)
    ensures
        r == grid_position_of(
            match account {
                Some(snapshot) => Some(*snapshot),
                None => None,
            },
            settled_only,
            *config,
            symbol@,
        ),
{
    match account {
        None => PositionFound::Unread(GridPaperTaskError::Account),
        Some(snapshot) => {
            if settled_only && any_open_outcome(&snapshot.reservations) {
                return PositionFound::Unread(GridPaperTaskError::RecoveryRequired);
            }
            match target_instrument_close_plan(snapshot, config, symbol) {
                Err(error) => PositionFound::Unclear(error),
                Ok(None) => PositionFound::Flat,
                Ok(Some(_)) => PositionFound::Open,
            }
        },
    }
}

/// What a grid owner is told of a crossed level; a pending signal comes first.
pub fn grid_crossing(
    signalled: bool,
    account: Option<&PaperAccountSnapshot>,
    config: &GridPaperTaskConfig,
    symbol: &str,
    side: Side,
) -> (r: CrossingFound)
    ensures
        r == if signalled {
            CrossingFound::Signalled
        } else {
            match account {
                None => CrossingFound::Unread(GridPaperTaskError::Account),
                Some(snapshot) => crossing_in(*snapshot, *config, symbol@, side),
            }
        },
{
    if signalled {
        return CrossingFound::Signalled;
    }
    match account {
        None => CrossingFound::Unread(GridPaperTaskError::Account),
        Some(snapshot) => check_crossing(snapshot, config, symbol, side),
    }
}

/// What a volume maker is told of the directives.
pub fn volume_risk(demand: RiskDemand) -> (r: VolumeInput)
    ensures
        r == match demand {
            RiskDemand::Absent => VolumeInput::Risk(false),
            RiskDemand::Recorded => VolumeInput::Risk(true),
            RiskDemand::Unavailable => VolumeInput::Failed(VolumeMakerPaperTaskError::AccountRisk),
            RiskDemand::Unrecorded => VolumeInput::Failed(VolumeMakerPaperTaskError::Journal),
        },
{
    match demand {
        RiskDemand::Absent => VolumeInput::Risk(false),
        RiskDemand::Recorded => VolumeInput::Risk(true),
        RiskDemand::Unavailable => VolumeInput::Failed(VolumeMakerPaperTaskError::AccountRisk),
        RiskDemand::Unrecorded => VolumeInput::Failed(VolumeMakerPaperTaskError::Journal),
    }
}

/// What an arbitrage owner is told of the directives.
pub fn arbitrage_risk(demand: RiskDemand) -> (r: ArbitrageInput)
    ensures
        r == match demand {
            RiskDemand::Absent => ArbitrageInput::Risk(false),
            RiskDemand::Recorded => ArbitrageInput::Risk(true),
            RiskDemand::Unavailable => ArbitrageInput::Failed(ArbitragePaperTaskError::AccountRisk),
            RiskDemand::Unrecorded => ArbitrageInput::Failed(ArbitragePaperTaskError::Journal),
        },
{
    match demand {
        RiskDemand::Absent => ArbitrageInput::Risk(false),
        RiskDemand::Recorded => ArbitrageInput::Risk(true),
        RiskDemand::Unavailable => ArbitrageInput::Failed(ArbitragePaperTaskError::AccountRisk),
        RiskDemand::Unrecorded => ArbitrageInput::Failed(ArbitragePaperTaskError::Journal),
    }
}

/// The pass that an outcome of the monitor triggers: an opportunity any decision,
/// a converged spread a reduction only. Waiting and rejected outcomes carry no
/// coherent pair and trigger nothing.
pub open spec fn scope_of(outcome: ArbitrageMonitorOutcome) -> Option<PlanScope> {
    match outcome {
        ArbitrageMonitorOutcome::Opportunity(_) => Some(PlanScope::Full),
        ArbitrageMonitorOutcome::NoOpportunity(_) => Some(PlanScope::ReduceOnly),
        ArbitrageMonitorOutcome::Waiting { .. } => None,
        ArbitrageMonitorOutcome::AnalysisRejected { .. } => None,
    }
}

/// The pass that an outcome of the monitor triggers.
pub fn event_plan_scope(outcome: &ArbitrageMonitorOutcome) -> (r: Option<PlanScope>)
    ensures
        r == scope_of(*outcome),
{
    match outcome {
        ArbitrageMonitorOutcome::Opportunity(_) => Some(PlanScope::Full),
        ArbitrageMonitorOutcome::NoOpportunity(_) => Some(PlanScope::ReduceOnly),
        _ => None,
    }
}

/// What an arbitrage owner is told of an event that its monitor took: the pass it
/// triggers, whether the pair is current, and what became of its sample. Without
/// the history mode no sample is taken. `observed` says that the history machine
/// took the sample.
pub fn arbitrage_monitored(
    outcome: &ArbitrageMonitorOutcome,
    pair_is_current: bool,
    gated: bool,
    sample: &Result<Option<SpreadSample>, ()>,
    observed: bool,
) -> (r: ArbitrageInput)
    ensures
        r == (ArbitrageInput::Monitored {
            scope: scope_of(*outcome),
            pair: pair_is_current,
            sample: if gated && *sample is Err {
                SampleFound::Overflow
            } else if gated && (*sample)->Ok_0 is Some && !observed {
                SampleFound::Refused
            } else {
                SampleFound::Taken
            },
        }),
{
    let found: SampleFound = if !gated {
        SampleFound::Taken
    } else {
        match sample {
            Err(_) => SampleFound::Overflow,
            Ok(None) => SampleFound::Taken,
            Ok(Some(_)) => if observed {
                SampleFound::Taken
            } else {
                SampleFound::Refused
            },
        }
    };
    ArbitrageInput::Monitored {
        scope: event_plan_scope(outcome),
        pair: pair_is_current,
        sample: found,
    }
}

/// What an arbitrage owner is told before it plans a pass; a pending signal comes
/// first.
pub fn arbitrage_gate(signalled: bool, gated: bool, judged: Option<HistoryDecisionKind>) -> (r:
    GateFound)
    ensures
        r == if signalled {
            GateFound::Signalled
        } else if !gated || judged == Some(HistoryDecisionKind::Open) {
            GateFound::Open
        } else {
            GateFound::Closed
        },
{
    if signalled {
        return GateFound::Signalled;
    }
    if history_gate(gated, judged) {
        GateFound::Open
    } else {
        GateFound::Closed
    }
}

/// What an arbitrage owner is told of the strategy's decision; one without orders
/// is none.
pub fn arbitrage_decided(kind: ArbitrageDecisionKind, order_count: usize) -> (r: ArbitrageInput)
    ensures
        r == ArbitrageInput::Decided(
            if order_count == 0 {
                None
            } else {
                Some(kind)
            },
        ),
{
    if order_count == 0 {
        ArbitrageInput::Decided(None)
    } else {
        ArbitrageInput::Decided(Some(kind))
    }
}

/// The record is that of a directive, with these facts.
pub open spec fn names_directive(
    record: AccountRiskDirectiveRecord,
    task_id: Seq<char>,
    task_kind: Seq<char>,
    symbol: Seq<char>,
    reason: Seq<char>,
    price: Seq<char>,
    recorded_at: Timestamp,
) -> bool {
    &&& record.recorded_at == recorded_at
    &&& record.strategy@ == "account_risk"@
    &&& record.symbol@ == symbol
    &&& record.decision@ == "account_risk_directive_exit"@
    &&& record.schema_version == 1
    &&& record.task_id@ == task_id
    &&& record.task_kind@ == task_kind
    &&& record.reason@ == reason
    &&& record.price@ == price
}

/// The directive that a grid owner consumed, with the price that it last saw.
pub fn grid_directive_record(
    config: &GridPaperTaskConfig,
    symbol: &str,
    market: Option<&MarketSnapshot>,
    reason: &str,
    recorded_at: Timestamp,
) -> (r: AccountRiskDirectiveRecord)
    ensures
        names_directive(
            r,
            config.task_id_view(),
            GRID_TASK_KIND@,
            symbol@,
            reason@,
            reference_text(
                match market {
                    Some(seen) => Some(*seen),
                    None => None,
                },
            ),
            recorded_at,
        ),
{
    let price: String = reference_price_text(market);
    account_risk_directive_record(
        config.task_id(),
        GRID_TASK_KIND,
        symbol,
        reason,
        price.as_str(),
        recorded_at,
    )
}

/// The directive that a volume maker consumed, with the middle of the book that
/// it saw.
pub fn volume_directive_record(
    config: &VolumeMakerPaperTaskConfig,
    market: &MarketSnapshot,
    reason: &str,
    recorded_at: Timestamp,
) -> (r: AccountRiskDirectiveRecord)
    ensures
        names_directive(
            r,
            config.task_id_view(),
            VOLUME_TASK_KIND@,
            config.strategy_view().symbol@,
            reason@,
            text_of(market.mid_price@),
            recorded_at,
        ),
{
    let price: String = market.mid_price.to_text();
    account_risk_directive_record(
        config.task_id(),
        VOLUME_TASK_KIND,
        config.symbol(),
        reason,
        price.as_str(),
        recorded_at,
    )
}

/// The directive that an arbitrage owner consumed. It is filed under the symbol
/// of the left leg, and shows no price.
pub fn arbitrage_directive_record(
    config: &ArbitragePaperTaskConfig,
    left: &MarketInstrument,
    reason: &str,
    recorded_at: Timestamp,
) -> (r: AccountRiskDirectiveRecord)
    ensures
        names_directive(
            r,
            config.task_id_view(),
            ARBITRAGE_TASK_KIND@,
            left.symbol@,
            reason@,
            ""@,
            recorded_at,
        ),
{
    account_risk_directive_record(
        config.task_id(),
        ARBITRAGE_TASK_KIND,
        left.symbol.as_str(),
        reason,
        "",
        recorded_at,
    )
}

} // verus!
