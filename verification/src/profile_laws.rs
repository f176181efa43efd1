//! What a profile makes of its configuration, and what the figures that are
//! read from the account and the monitor stand for.

use crate::decimal::{difference_of, product_of, quotient_of, representable, sum_of, text_of, Decimal};
use crate::domain::{shows_quotes, MarketDataEvent, MarketSnapshot, MarketType, Side};
use crate::live_lifecycle::{is_admission_truth, refusal_for, AssetBalance, ForeignOpenOrder};
use crate::live_lifecycle::{LiveAdmissionRefusal, LiveAdmissionTruth, LiveLifecycleSettings};
use crate::live_lifecycle::OwnOpenOrder;
use crate::live_order_laws::{law_free_balance_is_the_first_entrys, law_sell_is_held_against_the_base_balance};
use crate::monitor::{ArbitrageMonitorEvent, ArbitrageMonitorOutcome, MeasuredSpread};
use crate::number_laws::{adds_exactly, divides_exactly, law_difference_subtracts};
use crate::number_laws::{law_product_multiplies, law_quotient_divides, law_sign_is_that_of_units};
use crate::number_laws::{law_sum_adds, multiplies_exactly, subtracts_exactly, unit_count, units};
use crate::paper_account::PaperAccountSnapshot;
use crate::paper_arbitrage_task::{is_history_sample, spread_in, SpreadSample};
use crate::paper_grid_task::{account_close_plan, is_level_operation, is_protection_of, observed_price};
use crate::paper_grid_task::{GridPaperTaskConfig, GridPaperTaskError, ProtectionInputs};
use crate::paper_profile::{arbitrage_account_id, belongs_to_source, first_snapshot, grid_account_id};
use crate::paper_profile::{grid_has_geometry, is_geometry_of, is_pair_start, market_type_of_symbol};
use crate::paper_profile::{midpoint_of, pair_flaw, percent_of, start_answer, ArbitrageStartPlan};
use crate::paper_profile::{GridGeometry, GridGeometryError, GridProfileConfig, PaperProfileError};
use crate::paper_profile::PaperProfileKind;
use crate::paper_single_leg_saga::PaperSingleLegRequest;
use crate::paper_volume_maker_task::{hour_volume, is_statistics_record, StatisticsBucket};
use crate::paper_volume_maker_task::{StatisticsReason, StatisticsRecord, VolumeMakerPaperTaskConfig};
use crate::position_laws::{law_four_numbers_add_up, law_position_is_signed_by_its_plan};
use crate::requests::FreshIds;
use crate::text::equal_ignoring_case;
use crate::timestamp::Timestamp;
use vstd::prelude::*;

verus! {

/// Where nothing is rounded, the midpoint is as far from the one price as from
/// the other.
pub proof fn law_midpoint_is_half_way(lower: (i128, u32), upper: (i128, u32))
    requires
        representable(lower),
        representable(upper),
        adds_exactly(lower, upper),
        divides_exactly(sum_of(lower, upper)->0, (2i128, 0u32)),
    ensures
        midpoint_of(lower, upper) is Some,
        units(midpoint_of(lower, upper)->0) - units(lower) == units(upper) - units(
            midpoint_of(lower, upper)->0,
        ),
{
    law_sum_adds(lower, upper);
    let sum = sum_of(lower, upper)->0;
    let two = (2i128, 0u32);
    law_quotient_divides(sum, two);
    let w = unit_count();
    assert(units(two) == 2 * w);
    crate::decimal::lemma_pow10_positive(28);
    let (m, t) = (units(quotient_of(sum, two)->0), units(sum));
    assert(2 * m == t) by (nonlinear_arith)
        requires
            m * (2 * w) == t * w,
            w >= 1,
    ;
}

/// The division behind a percentage and its multiplication need no rounding.
pub open spec fn takes_percent_exactly(part: (i128, u32), whole: (i128, u32)) -> bool {
    &&& divides_exactly(part, whole)
    &&& representable(quotient_of(part, whole)->0)
    &&& multiplies_exactly(quotient_of(part, whole)->0, (100i128, 0u32))
}

/// Where nothing is rounded, a percentage of the whole is a hundred times the
/// part.
pub proof fn law_percentage_is_of_the_whole(part: (i128, u32), whole: (i128, u32))
    requires
        representable(part),
        representable(whole),
        takes_percent_exactly(part, whole),
    ensures
        percent_of(part, whole) is Some,
        units(percent_of(part, whole)->0) * units(whole) == 100 * unit_count() * units(part),
{
    law_quotient_divides(part, whole);
    let ratio = quotient_of(part, whole)->0;
    let hundred = (100i128, 0u32);
    law_product_multiplies(ratio, hundred);
    let percent = product_of(ratio, hundred)->0;
    let (u, w, s, a, d) = (units(percent), unit_count(), units(ratio), units(whole), units(part));
    assert(units(hundred) == 100 * w);
    crate::decimal::lemma_pow10_positive(28);
    assert(u == 100 * s) by (nonlinear_arith)
        requires
            u * w == s * (100 * w),
            w >= 1,
    ;
    assert(u * a == 100 * w * d) by (nonlinear_arith)
        requires
            u == 100 * s,
            s * a == d * w,
    ;
}

/// A grid starts half way between its two prices; its width is what the upper
/// price is above the lower one and its interval is the configured one, both
/// in percent of the price that it starts at.
pub proof fn law_grid_lies_around_its_midpoint(
    geometry: GridGeometry,
    lower: Decimal,
    upper: Decimal,
    interval: Decimal,
)
    requires
        is_geometry_of(Ok(geometry), Some(lower), Some(upper), interval),
        representable(lower@),
        representable(upper@),
        representable(interval@),
        adds_exactly(lower@, upper@),
        subtracts_exactly(upper@, lower@),
        divides_exactly(sum_of(lower@, upper@)->0, (2i128, 0u32)),
        representable(geometry.initial_price@),
        takes_percent_exactly(difference_of(upper@, lower@)->0, geometry.initial_price@),
        takes_percent_exactly(interval@, geometry.initial_price@),
    ensures
        ({
            let start = units(geometry.initial_price@);
            &&& start > 0
            &&& start - units(lower@) == units(upper@) - start
            &&& units(geometry.grid_width_percent@) * start == 100 * unit_count() * (units(upper@)
                - units(lower@))
            &&& units(geometry.grid_interval_percent@) * start == 100 * unit_count() * units(
                interval@,
            )
        }),
{
    law_midpoint_is_half_way(lower@, upper@);
    law_difference_subtracts(upper@, lower@);
    law_percentage_is_of_the_whole(
        difference_of(upper@, lower@)->0,
        geometry.initial_price@,
    );
    law_percentage_is_of_the_whole(interval@, geometry.initial_price@);
    law_sign_is_that_of_units(geometry.initial_price@);
}

/// A missing price is named as the one that is missing, the lower one first;
/// a grid exists only where both are there.
pub proof fn law_missing_price_is_named(
    r: Result<GridGeometry, GridGeometryError>,
    config: GridProfileConfig,
)
    requires
        is_geometry_of(r, config.lower_price, config.upper_price, config.grid_interval),
    ensures
        config.lower_price is None <==> r == Err::<GridGeometry, _>(
            GridGeometryError::MissingLowerPrice,
        ),
        config.lower_price is Some && config.upper_price is None <==> r == Err::<GridGeometry, _>(
            GridGeometryError::MissingUpperPrice,
        ),
        r is Ok ==> grid_has_geometry(config),
        grid_has_geometry(config) ==> r is Ok,
{
}

/// Each leg of a pair gets events of its own exchange alone, and the clock
/// starts at the first observation of the replay.
pub proof fn law_pair_legs_get_their_own_events(
    plan: ArbitrageStartPlan,
    left: Seq<char>,
    right: Seq<char>,
    symbol: Seq<char>,
    events: Seq<MarketDataEvent>,
    i: int,
)
    requires
        is_pair_start(plan, left, right, symbol, events),
    ensures
        0 <= i < plan.left_events@.len() && plan.left_events@[i] is Observation
            ==> plan.left_events@[i]->Observation_snapshot.exchange@ == plan.left.exchange@
            && plan.left_events@[i]->Observation_snapshot.symbol@ == plan.left.symbol@,
        0 <= i < plan.right_events@.len() && plan.right_events@[i] is Observation
            ==> plan.right_events@[i]->Observation_snapshot.exchange@ == plan.right.exchange@
            && plan.right_events@[i]->Observation_snapshot.symbol@ == plan.right.symbol@,
        plan.left.exchange@ == left && plan.right.exchange@ == right,
        plan.left.symbol@ == plan.right.symbol@,
        plan.left.market_type == plan.right.market_type,
{
    let own_left = |event: MarketDataEvent| belongs_to_source(event, left, symbol);
    let own_right = |event: MarketDataEvent| belongs_to_source(event, right, symbol);
    assert forall|j: int| 0 <= j < plan.left_events@.len() implies own_left(
        #[trigger] plan.left_events@[j],
    ) by {
        events.filter_lemma(own_left);
        assert(own_left(events.filter(own_left)[j]));
    }
    assert forall|j: int| 0 <= j < plan.right_events@.len() implies own_right(
        #[trigger] plan.right_events@[j],
    ) by {
        events.filter_lemma(own_right);
        assert(own_right(events.filter(own_right)[j]));
    }
    if 0 <= i < plan.left_events@.len() {
        assert(own_left(plan.left_events@[i]));
    }
    if 0 <= i < plan.right_events@.len() {
        assert(own_right(plan.right_events@[i]));
    }
}

/// The first snapshot is that of the first observation.
pub proof fn law_first_snapshot_is_the_first_observations(events: Seq<MarketDataEvent>, i: int)
    requires
        0 <= i < events.len(),
        events[i] is Observation,
        forall|j: int| 0 <= j < i ==> !(#[trigger] events[j] is Observation),
    ensures
        first_snapshot(events) == Some(events[i]->Observation_snapshot),
    decreases i,
{
    if i > 0 {
        let rest = events.skip(1);
        assert(rest[i - 1] == events[i]);
        assert forall|j: int| 0 <= j < i - 1 implies !(#[trigger] rest[j] is Observation) by {
            assert(rest[j] == events[j + 1]);
        }
        assert(!(events[0] is Observation));
        law_first_snapshot_is_the_first_observations(rest, i - 1);
    }
}

/// A symbol is spot where it says so at its end, and perpetual otherwise.
pub proof fn law_symbol_ending_tells_its_market(base: Seq<char>)
    ensures
        market_type_of_symbol(base + "-SPOT"@) == MarketType::Spot,
        base.len() < 5 ==> market_type_of_symbol(base) == MarketType::Perpetual,
{
    reveal_strlit("-SPOT");
    let symbol = base + "-SPOT"@;
    assert(symbol.skip(symbol.len() - "-SPOT"@.len()) =~= "-SPOT"@);
}

/// A pair can be loaded only where the strategy and the monitor name one
/// symbol and the same two exchanges, which differ.
pub proof fn law_pair_names_one_symbol_on_two_exchanges(
    symbols: Seq<String>,
    exchanges: Seq<String>,
    monitored_symbols: Seq<String>,
    monitored_exchanges: Seq<String>,
)
    ensures
        pair_flaw(symbols, exchanges, monitored_symbols, monitored_exchanges) is None <==> {
            &&& symbols.len() == 1 && monitored_symbols.len() == 1
            &&& symbols[0]@ == monitored_symbols[0]@
            &&& exchanges.len() == 2 && monitored_exchanges.len() == 2
            &&& exchanges[0]@ == monitored_exchanges[0]@
            &&& exchanges[1]@ == monitored_exchanges[1]@
            &&& exchanges[0]@ != exchanges[1]@
        },
{
    if symbols.len() == 1 && exchanges.len() == 2 && monitored_exchanges.len() == 2 {
        if crate::paper_profile::same_texts(exchanges, monitored_exchanges) {
            assert(exchanges[0]@ == monitored_exchanges[0]@);
            assert(exchanges[1]@ == monitored_exchanges[1]@);
        }
        if exchanges[0]@ == monitored_exchanges[0]@ && exchanges[1]@ == monitored_exchanges[1]@ {
            assert forall|i: int| 0 <= i < exchanges.len() implies (#[trigger] exchanges[i])@
                == monitored_exchanges[i]@ by {
                assert(i == 0 || i == 1);
            }
        }
    }
}

/// A command starts a profile exactly where it names the profile's own task,
/// strategy and revision; another task is unknown, whatever else it names.
pub proof fn law_command_starts_its_own_profile(
    kind: PaperProfileKind,
    task: Seq<char>,
    strategy: Seq<char>,
    revision: Seq<char>,
    target_task_id: Seq<char>,
    strategy_id: Seq<char>,
    strategy_revision: Seq<char>,
)
    ensures
        ({
            let answer = start_answer(
                kind,
                Some((task, strategy, revision)),
                target_task_id,
                strategy_id,
                strategy_revision,
            );
            let same_task = target_task_id == task;
            let same_strategy = strategy_id == strategy && strategy_revision == revision;
            &&& answer is Ok <==> same_task && same_strategy
            &&& answer is Ok ==> answer->Ok_0 == kind
            &&& !same_task ==> answer == Err::<PaperProfileKind, _>(PaperProfileError::UnknownTask)
            &&& same_task && !same_strategy ==> answer == Err::<PaperProfileKind, _>(
                PaperProfileError::StrategyMismatch,
            )
        }),
        start_answer(kind, None, target_task_id, strategy_id, strategy_revision) == Err::<
            PaperProfileKind,
            _,
        >(PaperProfileError::UnknownTask),
{
}

/// Every task has an account of its own: accounts of one kind differ where the
/// tasks do, and a grid and a pair never share one.
pub proof fn law_tasks_share_no_account(a: Seq<char>, b: Seq<char>)
    ensures
        grid_account_id(a) == grid_account_id(b) ==> a == b,
        arbitrage_account_id(a) == arbitrage_account_id(b) ==> a == b,
        grid_account_id(a) != arbitrage_account_id(b),
{
    reveal_strlit("paper-grid:");
    reveal_strlit("paper-arbitrage:");
    let (grid, pair) = ("paper-grid:"@, "paper-arbitrage:"@);
    if grid_account_id(a) == grid_account_id(b) {
        assert(grid_account_id(a).skip(grid.len() as int) =~= a);
        assert(grid_account_id(b).skip(grid.len() as int) =~= b);
    }
    if arbitrage_account_id(a) == arbitrage_account_id(b) {
        assert(arbitrage_account_id(a).skip(pair.len() as int) =~= a);
        assert(arbitrage_account_id(b).skip(pair.len() as int) =~= b);
    }
    assert(grid_account_id(a)[6] == 'g');
    assert(arbitrage_account_id(b)[6] == 'a');
}

/// What the venue shows of the base asset decides a sell: it is refused for
/// its base balance exactly where its quantity is beyond the balance of the
/// first entry of that asset.
pub proof fn law_sell_is_held_against_the_base_asset(
    settings: LiveLifecycleSettings,
    truth: LiveAdmissionTruth,
    symbol: Seq<char>,
    base_asset: Seq<char>,
    quote_asset: Seq<char>,
    balances: Seq<AssetBalance>,
    orders: Seq<OwnOpenOrder>,
    foreign_orders: Seq<ForeignOpenOrder>,
    i: int,
)
    requires
        is_admission_truth(
            truth,
            symbol,
            base_asset,
            quote_asset,
            balances,
            orders,
            foreign_orders,
        ),
        settings.intent.side == Side::Sell,
        representable(settings.intent.quantity@),
        0 <= i < balances.len(),
        representable(balances[i].available_balance@),
        equal_ignoring_case(balances[i].asset@, base_asset),
        forall|j: int|
            0 <= j < i ==> !equal_ignoring_case(#[trigger] balances[j].asset@, base_asset),
    ensures
        refusal_for(settings, truth) == Some(LiveAdmissionRefusal::InsufficientBaseBalance) <==>
            units(settings.intent.quantity@) > units(balances[i].available_balance@),
{
    law_free_balance_is_the_first_entrys(balances, base_asset, i);
    law_sell_is_held_against_the_base_balance(settings, truth);
}

/// What the venue shows of the quote asset is what a buy may spend.
pub proof fn law_buy_spends_the_quote_asset(
    truth: LiveAdmissionTruth,
    symbol: Seq<char>,
    base_asset: Seq<char>,
    quote_asset: Seq<char>,
    balances: Seq<AssetBalance>,
    orders: Seq<OwnOpenOrder>,
    foreign_orders: Seq<ForeignOpenOrder>,
    i: int,
)
    requires
        is_admission_truth(
            truth,
            symbol,
            base_asset,
            quote_asset,
            balances,
            orders,
            foreign_orders,
        ),
        0 <= i < balances.len(),
        equal_ignoring_case(balances[i].asset@, quote_asset),
        forall|j: int|
            0 <= j < i ==> !equal_ignoring_case(#[trigger] balances[j].asset@, quote_asset),
    ensures
        truth.free_quote_amount@ == balances[i].available_balance@,
{
    law_free_balance_is_the_first_entrys(balances, quote_asset, i);
}

/// The protection machine sees a long position as positive and a short one as
/// negative, all that the account holds, and six times the cycles of ten
/// minutes.
pub proof fn law_protection_sees_the_whole_account(
    inputs: ProtectionInputs,
    snapshot: PaperAccountSnapshot,
    config: GridPaperTaskConfig,
    symbol: Seq<char>,
    recent_cycles: u64,
)
    requires
        is_protection_of(Ok(inputs), snapshot, config, symbol, recent_cycles),
        representable(snapshot.available@),
        representable(snapshot.pending_reserved@),
        representable(snapshot.uncertain_reserved@),
        representable(snapshot.committed_exposure@),
        adds_exactly(snapshot.available@, snapshot.pending_reserved@),
        adds_exactly(
            sum_of(snapshot.available@, snapshot.pending_reserved@)->0,
            snapshot.uncertain_reserved@,
        ),
        adds_exactly(
            sum_of(
                sum_of(snapshot.available@, snapshot.pending_reserved@)->0,
                snapshot.uncertain_reserved@,
            )->0,
            snapshot.committed_exposure@,
        ),
        account_close_plan(snapshot, config, symbol) is Ok
            && account_close_plan(snapshot, config, symbol)->Ok_0 is Some ==> representable(
            (account_close_plan(snapshot, config, symbol)->Ok_0->0).1,
        ),
    ensures
        units(inputs.current_collateral@) == units(snapshot.available@) + units(
            snapshot.pending_reserved@,
        ) + units(snapshot.uncertain_reserved@) + units(snapshot.committed_exposure@),
        units(inputs.cycles_per_hour@) == 6 * recent_cycles * unit_count(),
        ({
            let plan = account_close_plan(snapshot, config, symbol)->Ok_0;
            &&& plan is None ==> units(inputs.position_quantity@) == 0
            &&& plan is Some && (plan->0).0 == Side::Sell ==> units(inputs.position_quantity@)
                == units((plan->0).1)
            &&& plan is Some && (plan->0).0 == Side::Buy ==> units(inputs.position_quantity@)
                == -units((plan->0).1)
        }),
{
    law_four_numbers_add_up(
        snapshot.available@,
        snapshot.pending_reserved@,
        snapshot.uncertain_reserved@,
        snapshot.committed_exposure@,
    );
    let plan = account_close_plan(snapshot, config, symbol)->Ok_0;
    if plan is Some {
        law_position_is_signed_by_its_plan((plan->0).0, (plan->0).1);
    }
    law_sign_is_that_of_units((0i128, 0u32));
    let (count, six) = ((recent_cycles as i128, 0u32), (6i128, 0u32));
    law_product_multiplies(count, six);
    let w = unit_count();
    crate::decimal::lemma_pow10_positive(28);
    let (h, n) = (units(inputs.cycles_per_hour@), recent_cycles as int);
    assert(units(count) == n * w && units(six) == 6 * w);
    assert(h == 6 * n * w) by (nonlinear_arith)
        requires
            h * w == (n * w) * (6 * w),
            w >= 1,
    ;
}

/// The operation of a level orders at the crossed price, over the owner's
/// quantity, and reserves at the reservation price.
pub proof fn law_level_orders_at_its_price(
    request: PaperSingleLegRequest,
    config: GridPaperTaskConfig,
    symbol: Seq<char>,
    side: Side,
    trigger_price: Decimal,
    reduce_only: bool,
    reservation_price: Decimal,
    operation_sequence: u64,
    ids: FreshIds,
    ticket: Option<u128>,
)
    requires
        is_level_operation(
            request,
            config,
            symbol,
            side,
            trigger_price,
            reduce_only,
            reservation_price,
            operation_sequence,
            ids,
            ticket,
        ),
        representable(reservation_price@),
        representable(config.quantity_view()@),
        multiplies_exactly(reservation_price@, config.quantity_view()@),
    ensures
        ({
            let intent = request.batch_view().intents@[0];
            let leg = request.reservation_view().legs@[0];
            &&& intent.price == Some(trigger_price)
            &&& intent.side == side
            &&& intent.quantity == config.quantity_view()
            &&& intent.symbol@ == symbol
            &&& intent.reduce_only == reduce_only
            &&& leg.side == side
            &&& units(leg.notional@) * unit_count() == units(reservation_price@) * units(
                config.quantity_view()@,
            )
        }),
{
    law_product_multiplies(reservation_price@, config.quantity_view()@);
}

/// An observation of the owner's instrument shows the last price where there
/// is one and the middle otherwise, at the time it was received.
pub proof fn law_observed_price_is_the_last_one(
    event: MarketDataEvent,
    exchange: Seq<char>,
    symbol: Seq<char>,
    market_type: MarketType,
)
    ensures
        ({
            let shown = observed_price(event, exchange, symbol, market_type);
            let snapshot = event->Observation_snapshot;
            let own = event is Observation && snapshot.exchange@ == exchange && snapshot.symbol@
                == symbol && snapshot.market_type == market_type;
            &&& shown is Ok && shown->Ok_0 is Some <==> own
            &&& own && snapshot.last is Some ==> shown->Ok_0->0 == (
                snapshot.last->0,
                event->Observation_received_at,
            )
            &&& own && snapshot.last is None ==> shown->Ok_0->0 == (
                snapshot.mid_price,
                event->Observation_received_at,
            )
            &&& event is Observation && !own ==> shown == Err::<
                Option<(Decimal, Timestamp)>,
                _,
            >(GridPaperTaskError::InvalidSourceBinding)
        }),
{
}

/// A sample carries a measured spread in basis points, a hundred to the
/// percent, with each price on its side.
pub proof fn law_sample_is_in_basis_points(
    sample: SpreadSample,
    event: ArbitrageMonitorEvent,
    measured: MeasuredSpread,
)
    requires
        is_history_sample(Ok(Some(sample)), event),
        event.outcome == ArbitrageMonitorOutcome::Opportunity(measured) || event.outcome
            == ArbitrageMonitorOutcome::NoOpportunity(measured),
        representable(measured.spread.percent@),
        multiplies_exactly(measured.spread.percent@, (100i128, 0u32)),
    ensures
        units(sample.spread_bps@) == 100 * units(measured.spread.percent@),
        sample.buy_price == measured.spread.buy_price,
        sample.sell_price == measured.spread.sell_price,
        sample.buy_exchange@ == measured.spread.buy_exchange@,
        sample.sell_exchange@ == measured.spread.sell_exchange@,
        sample.timestamp == event.recorded_at,
{
    assert(spread_in(event.outcome) == Some(measured));
    let hundred = (100i128, 0u32);
    law_product_multiplies(measured.spread.percent@, hundred);
    let w = unit_count();
    crate::decimal::lemma_pow10_positive(28);
    assert(units(hundred) == 100 * w);
    let (b, p) = (units(sample.spread_bps@), units(measured.spread.percent@));
    assert(b == 100 * p) by (nonlinear_arith)
        requires
            b * w == p * (100 * w),
            w >= 1,
    ;
}

/// The record of an hour writes out its two volumes, each on its side, and
/// their sum.
pub proof fn law_hour_record_writes_both_volumes(
    record: StatisticsRecord,
    config: VolumeMakerPaperTaskConfig,
    bucket: StatisticsBucket,
    reason: StatisticsReason,
    recorded_at: Timestamp,
)
    requires
        is_statistics_record(record, config, bucket, reason, recorded_at),
        representable(bucket.buy_volume@),
        representable(bucket.sell_volume@),
        adds_exactly(bucket.buy_volume@, bucket.sell_volume@),
    ensures
        record.buy_volume@ == text_of(bucket.buy_volume@),
        record.sell_volume@ == text_of(bucket.sell_volume@),
        exists|total: (i128, u32)|
            record.total_volume@ == #[trigger] text_of(total) && units(total) == units(
                bucket.buy_volume@,
            ) + units(bucket.sell_volume@),
        record.realized_pnl@ == text_of(bucket.realized_pnl@),
        record.completed_cycles == bucket.completed_cycles,
        record.rejected_entries == bucket.rejected_entries,
{
    law_sum_adds(bucket.buy_volume@, bucket.sell_volume@);
    let total = hour_volume(bucket)->0;
    assert(record.total_volume@ == text_of(total));
}

/// A quoted book keeps each side on its side, and its middle lies between the
/// two prices.
pub proof fn law_quoted_book_keeps_its_sides(
    snapshot: MarketSnapshot,
    bid: Decimal,
    ask: Decimal,
    bid_quantity: Option<Decimal>,
    ask_quantity: Option<Decimal>,
)
    requires
        shows_quotes(snapshot, bid, ask, bid_quantity, ask_quantity),
        representable(bid@),
        representable(ask@),
        adds_exactly(bid@, ask@),
        divides_exactly(sum_of(bid@, ask@)->0, (2i128, 0u32)),
        units(bid@) <= units(ask@),
    ensures
        units(snapshot.bid@) == units(bid@),
        units(snapshot.ask@) == units(ask@),
        units(bid@) <= units(snapshot.mid_price@) <= units(ask@),
        units(snapshot.mid_price@) - units(bid@) == units(ask@) - units(snapshot.mid_price@),
        snapshot.bid_quantity == bid_quantity,
        snapshot.ask_quantity == ask_quantity,
{
    law_midpoint_is_half_way(bid@, ask@);
}

} // verus!
