//! What holds of every call of a function that decides, whatever it is given.

use crate::arbitrage_owner::{ArbitrageInput, GateFound};
use crate::arbitrage_plan::ArbitrageDecisionKind;
use crate::decimal::{representable, Decimal};
use crate::domain::{ExchangeError, MarketDataEvent, MarketType, Order, OrderIntent, OrderType};
use crate::domain::TradingReceipt;
use crate::live_lifecycle::{cancelled_order, outcome_unknown_details, spot_symbol_assets};
use crate::live_lifecycle::{submitted_order, LiveLifecycleError, OutcomeUnknownDetails};
use crate::live_lifecycle::{LiveLifecycleConfig, LiveLifecycleObservation, LiveLifecycleSettings};
use crate::live_order_laws::law_cap_bounds_the_notional;
use crate::monitor::{ArbitrageMonitorError, ArbitrageMonitorOutcome, MarketInstrument};
use crate::monitor::{ReadOnlyArbitrageMonitor, ReplayMarketDataClock};
use crate::number_laws::{law_sign_is_that_of_units, multiplies_exactly, unit_count, units};
use crate::owner_inputs::{arbitrage_decided, arbitrage_gate, arbitrage_monitored, arbitrage_risk};
use crate::owner_inputs::{volume_risk, RiskDemand};
use crate::paper_admission::{discard_planned_admission, PaperAdmissionCompensationError};
use crate::paper_arbitrage_task::{history_gate, ArbitragePaperTaskError, HistoryDecisionKind};
use crate::paper_arbitrage_task::SpreadSample;
use crate::paper_task::{durable_task_view, is_absent, is_first_task, DurableTask};
use crate::paper_volume_maker_task::VolumeMakerPaperTaskError;
use crate::replay_mirror::{execution_policy, is_priced, MirroredReplaySource, MirroredReplayState};
use crate::replay_mirror::{ReplayExecutionError, ReplayExecutionPolicy, SourceEventTimeRollback};
use crate::shutdown::{install_shutdown_signal, is_first_failed, registered_signals, signal_name};
use crate::shutdown::{ShutdownPlatform, ShutdownSignal, ShutdownSignalError, ShutdownSignalStage};
use crate::shutdown::{ShutdownWait, SignalOutcome};
use crate::volume_owner::VolumeInput;
use vstd::prelude::*;

verus! {

/// Without a history to judge by, every opportunity goes through. With one,
/// only an `Open` judgement lets it through, and what is not judged stays
/// behind.
pub proof fn law_history_gate_only_narrows(
    judged: Option<HistoryDecisionKind>,
    gated: bool,
    ungated: bool,
)
    requires
        call_ensures(history_gate, (true, judged), gated),
        call_ensures(history_gate, (false, judged), ungated),
    ensures
        ungated,
        judged is None ==> !gated,
        judged is Some ==> (gated <==> judged->0 is Open),
{
}

/// A pending signal is told before anything else; without one the pass is open
/// exactly where the history gate lets it through.
pub proof fn law_signal_comes_before_the_gate(
    signalled: bool,
    gated: bool,
    judged: Option<HistoryDecisionKind>,
    found: GateFound,
    passes: bool,
)
    requires
        call_ensures(arbitrage_gate, (signalled, gated, judged), found),
        call_ensures(history_gate, (gated, judged), passes),
    ensures
        found is Signalled <==> signalled,
        found is Open <==> !signalled && passes,
        found is Closed <==> !signalled && !passes,
{
}

/// A decision without orders is none; any other is told as it was taken.
pub proof fn law_decision_without_orders_is_none(
    kind: ArbitrageDecisionKind,
    order_count: usize,
    told: ArbitrageInput,
)
    requires
        call_ensures(arbitrage_decided, (kind, order_count), told),
    ensures
        told is Decided,
        order_count > 0 <==> told->Decided_0 is Some,
        told->Decided_0 is Some ==> told->Decided_0->0 == kind,
{
}

/// A sample matters only behind a history gate: without one it is always
/// taken. Behind one, a sample that overflows is told so, and one that the
/// machine did not observe is refused.
pub proof fn law_sample_matters_behind_a_gate(
    outcome: &ArbitrageMonitorOutcome,
    pair_is_current: bool,
    sample: &Result<Option<SpreadSample>, ()>,
    observed: bool,
    ungated: ArbitrageInput,
    gated: ArbitrageInput,
)
    requires
        call_ensures(
            arbitrage_monitored,
            (outcome, pair_is_current, false, sample, observed),
            ungated,
        ),
        call_ensures(arbitrage_monitored, (outcome, pair_is_current, true, sample, observed), gated),
    ensures
        ungated is Monitored && gated is Monitored,
        ungated->sample is Taken,
        gated->sample is Overflow <==> *sample is Err,
        gated->sample is Refused <==> *sample is Ok && (*sample)->Ok_0 is Some && !observed,
        ungated->scope == gated->scope,
        ungated->pair == pair_is_current && gated->pair == pair_is_current,
{
}

/// Both owners are told of a demand of the account risk alike: a recorded one
/// is one, an absent one none. What could not be read or recorded fails them.
pub proof fn law_owners_are_told_of_risk_alike(
    demand: RiskDemand,
    volume: VolumeInput,
    pair: ArbitrageInput,
)
    requires
        call_ensures(volume_risk, (demand,), volume),
        call_ensures(arbitrage_risk, (demand,), pair),
    ensures
        volume is Risk <==> pair is Risk,
        volume is Risk <==> demand is Absent || demand is Recorded,
        volume is Risk ==> volume->Risk_0 == pair->Risk_0 && volume->Risk_0 == demand is Recorded,
        demand is Unavailable ==> volume == VolumeInput::Failed(
            VolumeMakerPaperTaskError::AccountRisk,
        ) && pair == ArbitrageInput::Failed(ArbitragePaperTaskError::AccountRisk),
        demand is Unrecorded ==> volume == VolumeInput::Failed(VolumeMakerPaperTaskError::Journal)
            && pair == ArbitrageInput::Failed(ArbitragePaperTaskError::Journal),
{
}

/// One receipt never shows both an order submitted and an order cancelled. A
/// submission shows its order; a cancellation shows one exactly where it is
/// the only one.
pub proof fn law_receipt_shows_one_kind_of_order(
    receipt: TradingReceipt,
    submitted: Result<Order, ExchangeError>,
    cancelled: Result<Order, ExchangeError>,
)
    requires
        call_ensures(submitted_order, (receipt,), submitted),
        call_ensures(cancelled_order, (receipt,), cancelled),
    ensures
        !(submitted is Ok && cancelled is Ok),
        submitted is Ok <==> receipt is Submitted,
        submitted is Ok ==> submitted->Ok_0 == receipt->order,
        cancelled is Ok <==> receipt is Cancelled && receipt->orders@.len() == 1,
        cancelled is Ok ==> receipt->orders@.contains(cancelled->Ok_0),
        submitted is Err ==> submitted->Err_0 is InvalidRequest,
        cancelled is Err ==> cancelled->Err_0 is InvalidRequest,
{
    if cancelled is Ok {
        assert(receipt->orders@[0] == cancelled->Ok_0);
    }
}

/// What a venue reported with its failure is recorded as reported; any other
/// error is recorded without a report.
pub proof fn law_reported_failure_is_recorded_as_reported(
    error: &ExchangeError,
    details: OutcomeUnknownDetails,
)
    requires
        call_ensures(outcome_unknown_details, (error,), details),
    ensures
        error is RemoteFailure ==> {
            &&& details.http_status == error->RemoteFailure_0.status
            &&& details.exchange_code == error->RemoteFailure_0.exchange_code
            &&& details.retry_after == error->RemoteFailure_0.retry_after
            &&& details.server_time == error->RemoteFailure_0.server_time
        },
        !(error is RemoteFailure) ==> details.http_status is None && details.exchange_code is None
            && details.retry_after is None && details.server_time is None,
{
}

/// Two spot symbols with the same assets are the same symbol.
pub proof fn law_assets_make_up_the_symbol(
    a: &str,
    b: &str,
    first: Result<(String, String), LiveLifecycleError>,
    second: Result<(String, String), LiveLifecycleError>,
)
    requires
        call_ensures(spot_symbol_assets, (a,), first),
        call_ensures(spot_symbol_assets, (b,), second),
    ensures
        a@ == b@ ==> (first is Ok <==> second is Ok),
        first is Ok && second is Ok && first->Ok_0.0@ == second->Ok_0.0@ && first->Ok_0.1@
            == second->Ok_0.1@ ==> a@ == b@,
        first is Ok ==> a@.len() == first->Ok_0.0@.len() + first->Ok_0.1@.len() + 6,
{
    reveal_strlit("SPOT");
}

/// A refused entry has nothing to discard. An admitted one is discarded only
/// where its planned record was there to cancel; otherwise it is not known
/// what became of it.
pub proof fn law_only_a_cancelled_plan_is_discarded(
    admitted: bool,
    cancelled: Option<bool>,
    r: Result<(), PaperAdmissionCompensationError>,
)
    requires
        call_ensures(discard_planned_admission, (admitted, cancelled), r),
    ensures
        r is Ok <==> !admitted || cancelled == Some(true),
        admitted && cancelled is None ==> r->Err_0 is AccountRisk,
        admitted && cancelled == Some(false) ==> r->Err_0 is RecoveryRequired,
{
}

/// A complete history shows a task exactly where some record has its identity,
/// at the first such place; an incomplete one shows nothing.
pub proof fn law_durable_task_is_found_where_it_first_stands(
    complete: bool,
    task_ids: &Vec<String>,
    task_id: &str,
    found: DurableTask,
    i: int,
)
    requires
        call_ensures(durable_task_view, (complete, task_ids, task_id), found),
        0 <= i < task_ids@.len(),
    ensures
        !complete ==> found is RecoveryRequired,
        complete && task_ids@[i]@ == task_id@ ==> found is Found && found->Found_0 <= i,
        found is Found ==> task_ids@[found->Found_0 as int]@ == task_id@,
{
    if complete && task_ids@[i]@ == task_id@ {
        assert(!is_absent(task_ids@, task_id@));
        assert(is_first_task(task_ids@, task_id@, found->Found_0 as int));
    }
}

/// A shutdown can be waited for exactly where every handler was registered;
/// otherwise the first that was not is named, with its own cause.
pub proof fn law_first_failed_handler_is_named(
    platform: ShutdownPlatform,
    registrations: &Vec<Result<(), String>>,
    r: Result<ShutdownWait, ShutdownSignalError>,
    failed: int,
)
    requires
        registrations@.len() == registered_signals(platform).len(),
        call_ensures(install_shutdown_signal, (platform, registrations), r),
        is_first_failed(registrations@, failed),
    ensures
        r is Err,
        r->Err_0.signal_view() == signal_name(registered_signals(platform)[failed]),
        r->Err_0.stage_view() == ShutdownSignalStage::Register,
        r->Err_0.source_view() == registrations@[failed]->Err_0@,
{
}

/// Only a received signal ends the wait well, and it is the one that came; a
/// failed or ended wait is an error of that signal.
pub proof fn law_received_signal_is_handed_on(
    wait: ShutdownWait,
    signal: ShutdownSignal,
    outcome: &SignalOutcome,
    r: Result<ShutdownSignal, ShutdownSignalError>,
)
    requires
        call_ensures(ShutdownWait::receive, (wait, signal, outcome), r),
    ensures
        r is Ok <==> *outcome is Received,
        r is Ok ==> r->Ok_0 == signal,
        r is Err ==> r->Err_0.signal_view() == signal_name(signal) && r->Err_0.stage_view()
            == ShutdownSignalStage::Receive,
        *outcome is Failed ==> r->Err_0.source_view() == outcome->Failed_0@,
{
}

/// A monitor begins before its first event, on two different legs that the
/// book holds, and with a threshold from zero up; it is refused otherwise.
pub proof fn law_monitor_watches_two_legs(
    left: MarketInstrument,
    right: MarketInstrument,
    left_in_book: bool,
    right_in_book: bool,
    threshold: Decimal,
    r: Result<ReadOnlyArbitrageMonitor, ArbitrageMonitorError>,
)
    requires
        representable(threshold@),
        call_ensures(
            ReadOnlyArbitrageMonitor::new,
            (left, right, left_in_book, right_in_book, threshold),
            r,
        ),
    ensures
        r is Ok <==> units(threshold@) >= 0 && left_in_book && right_in_book && !(left.exchange@
            == right.exchange@ && left.symbol@ == right.symbol@ && left.market_type
            == right.market_type),
        r is Ok ==> r->Ok_0.left_view() == left && r->Ok_0.right_view() == right
            && r->Ok_0.threshold_view() == threshold && r->Ok_0.sequence_view() == 0,
{
    law_sign_is_that_of_units(threshold@);
}

/// An event that the exchanges took is handed on as it is; one that they
/// refused is reported under its source.
pub proof fn law_refused_event_is_reported(
    source: &MirroredReplaySource,
    event: MarketDataEvent,
    taken: bool,
    r: Result<MarketDataEvent, SourceEventTimeRollback>,
)
    requires
        call_ensures(MirroredReplaySource::published, (source, event, taken), r),
    ensures
        r is Ok <==> taken,
        r is Ok ==> r->Ok_0 == event,
        r is Err ==> r->Err_0.exchange == source.source_id,
{
}

/// A batch is executed at the replay's own time, and only where every order
/// has a snapshot and is for the executing exchange; the first order without
/// one is named.
pub proof fn law_batch_is_executed_at_the_replayed_time(
    exchange: Option<&str>,
    clock: &ReplayMarketDataClock,
    latest: &MirroredReplayState,
    intents: &Vec<OrderIntent>,
    r: Result<ReplayExecutionPolicy, ReplayExecutionError>,
    i: int,
)
    requires
        call_ensures(execution_policy, (exchange, clock, latest, intents), r),
        0 <= i < intents@.len(),
    ensures
        r is Ok ==> r->Ok_0.now == clock.now_view(),
        r is Ok ==> is_priced(latest.latest_view(), intents@[i]),
        r is Ok && exchange is Some ==> intents@[i].exchange@ == exchange->0@,
        r is Err && r->Err_0 is UnknownExchange ==> exchange is Some && is_priced(
            latest.latest_view(),
            intents@[i],
        ),
        !is_priced(latest.latest_view(), intents@[i]) ==> r is Err && r->Err_0
            is MissingMarketData,
{
}

/// A campaign is configured exactly as given, and only where it is safe and
/// its order is worth no more than its cap.
pub proof fn law_campaign_is_configured_as_given(
    campaign_id: String,
    intent: OrderIntent,
    wire_symbol: String,
    observation: LiveLifecycleObservation,
    poll_nanos: u128,
    maximum_queries: u16,
    max_notional: Decimal,
    allow_foreign_orders: bool,
    r: Result<LiveLifecycleConfig, LiveLifecycleError>,
)
    requires
        call_ensures(
            LiveLifecycleConfig::new,
            (
                campaign_id,
                intent,
                wire_symbol,
                observation,
                poll_nanos,
                maximum_queries,
                max_notional,
                allow_foreign_orders,
            ),
            r,
        ),
        representable(max_notional@),
        representable(intent.quantity@),
        intent.price is Some ==> representable(intent.price->0@) && multiplies_exactly(
            intent.price->0@,
            intent.quantity@,
        ),
    ensures
        r is Ok ==> {
            let settings = r->Ok_0@;
            &&& settings.campaign_id == campaign_id && settings.intent == intent
            &&& settings.wire_symbol == wire_symbol && settings.maximum_queries == maximum_queries
            &&& settings.poll_interval_nanos == poll_nanos && settings.max_notional == max_notional
            &&& settings.expected_observation == observation
            &&& settings.allow_foreign_orders == allow_foreign_orders
        },
        r is Ok ==> {
            &&& intent.price is Some && intent.order_type == OrderType::Limit
            &&& intent.market_type == MarketType::Spot && !intent.reduce_only
            &&& poll_nanos > 0 && max_notional@.0 > 0
            &&& units(intent.price->0@) * units(intent.quantity@) <= units(max_notional@)
                * unit_count()
        },
        r is Err && r->Err_0 is NotionalExceedsCap ==> intent.price is Some && units(
            intent.price->0@,
        ) * units(intent.quantity@) > units(max_notional@) * unit_count(),
{
    let settings = LiveLifecycleSettings {
        campaign_id,
        intent,
        wire_symbol,
        expected_observation: observation,
        poll_interval_nanos: poll_nanos,
        maximum_queries,
        max_notional,
        allow_foreign_orders,
    };
    if intent.price is Some {
        law_cap_bounds_the_notional(settings);
    }
}

} // verus!
