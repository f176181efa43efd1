//! What the cycles of a volume maker earn, count and wait for.

use crate::decimal::{difference_of, lemma_decimal_of, product_of, representable, sum_of, Decimal};
use crate::domain::{MarketDataEvent, MarketSnapshot, OrderIntent, Side, TradingReceipt};
use crate::number_laws::{adds_exactly, law_difference_subtracts, law_order_is_that_of_units};
use crate::number_laws::{law_product_multiplies, law_sign_is_that_of_units, law_sum_adds};
use crate::number_laws::{multiplies_exactly, subtracts_exactly, unit_count, units};
use crate::paper_single_leg_saga::PaperSingleLegRun;
use crate::paper_volume_maker_task::{at_bound, closed_cycle, consumed, evaluated_plan, fill_price_of};
use crate::paper_volume_maker_task::{empty_bucket, first_price, hour_volume, observed_event, plan_of};
use crate::paper_volume_maker_task::{realized, CycleLimits, CycleState, ObservedEvent, OpenPosition};
use crate::paper_volume_maker_task::{PlanOutline, PlannedKind, PlannedOperation, StandingQuote};
use crate::paper_volume_maker_task::{StatisticsBucket, StrategyAnswer, VolumeMakerMode};
use crate::paper_volume_maker_task::{VolumeMakerPaperTaskError, VolumeMakerState};
use crate::paper_volume_maker_task::VolumeMakerStrategyConfig;
use crate::timestamp::Timestamp;
use vstd::prelude::*;

verus! {

/// Going from one price to another on this quantity is computed without
/// rounding.
pub open spec fn gains_exactly(from: (i128, u32), to: (i128, u32), quantity: (i128, u32)) -> bool {
    &&& subtracts_exactly(to, from)
    &&& multiplies_exactly(difference_of(to, from)->0, quantity)
}

/// What going from one price to another brings on this quantity.
pub open spec fn gain_of(from: (i128, u32), to: (i128, u32), quantity: (i128, u32)) -> (i128, u32) {
    product_of(difference_of(to, from)->0, quantity)->0
}

/// Nothing is rounded in closing the position at this price, whichever way it
/// is valued, and in adding it to what the cycle holds.
pub open spec fn closes_exactly(cycle: CycleState, open: OpenPosition, fill: (i128, u32)) -> bool {
    let (price, quantity) = (open.open_price@, open.quantity@);
    &&& representable(price) && representable(quantity) && representable(fill)
    &&& representable(cycle.bucket.realized_pnl@) && representable(cycle.total_volume@)
    &&& representable(cycle.bucket.buy_volume@) && representable(cycle.bucket.sell_volume@)
    &&& gains_exactly(price, fill, quantity)
    &&& gains_exactly(fill, price, quantity)
    &&& adds_exactly(cycle.bucket.realized_pnl@, gain_of(price, fill, quantity))
    &&& adds_exactly(cycle.bucket.realized_pnl@, gain_of(fill, price, quantity))
    &&& adds_exactly(cycle.bucket.buy_volume@, quantity)
    &&& adds_exactly(cycle.bucket.sell_volume@, quantity)
    &&& adds_exactly(cycle.total_volume@, quantity)
}

/// A gain is the difference of the prices times the quantity.
proof fn lemma_gain(from: (i128, u32), to: (i128, u32), quantity: (i128, u32))
    requires
        representable(from),
        representable(to),
        representable(quantity),
        gains_exactly(from, to, quantity),
    ensures
        representable(gain_of(from, to, quantity)),
        product_of(difference_of(to, from)->0, quantity) is Some,
        difference_of(to, from) is Some,
        units(gain_of(from, to, quantity)) * unit_count() == (units(to) - units(from)) * units(
            quantity,
        ),
{
    law_difference_subtracts(to, from);
    law_product_multiplies(difference_of(to, from)->0, quantity);
}

/// Closing a bought position earns what the price rose by, on the quantity;
/// closing a sold one earns what the price fell by. The result of the hour
/// changes by exactly that.
pub proof fn law_cycle_earns_the_price_move(
    cycle: CycleState,
    open: OpenPosition,
    fill: (i128, u32),
)
    requires
        closes_exactly(cycle, open, fill),
    ensures
        closed_cycle(cycle, open, fill) is Some,
        ({
            let closed = closed_cycle(cycle, open, fill)->0;
            let change = units(closed.bucket.realized_pnl@) - units(cycle.bucket.realized_pnl@);
            let rise = units(fill) - units(open.open_price@);
            &&& open.side == Side::Buy ==> change * unit_count() == rise * units(open.quantity@)
            &&& open.side == Side::Sell ==> change * unit_count() == (-rise) * units(
                open.quantity@,
            )
        }),
{
    let (price, quantity) = (open.open_price@, open.quantity@);
    lemma_gain(price, fill, quantity);
    lemma_gain(fill, price, quantity);
    let pnl = cycle.bucket.realized_pnl@;
    let gain = if open.side == Side::Buy {
        gain_of(price, fill, quantity)
    } else {
        gain_of(fill, price, quantity)
    };
    law_sum_adds(pnl, gain);
    law_sum_adds(cycle.bucket.buy_volume@, quantity);
    law_sum_adds(cycle.bucket.sell_volume@, quantity);
    law_sum_adds(cycle.total_volume@, quantity);
    assert(realized(open, fill) == Some(gain));
    lemma_decimal_of(sum_of(pnl, gain)->0, cycle.bucket.realized_pnl);
    assert(units(fill) - units(price) == -(units(price) - units(fill)));
}

/// A cycle opened by a sell gains where the fill is below the opening price
/// and loses where it is above; a cycle opened by a buy does the opposite, and
/// a fill at the opening price changes nothing.
pub proof fn law_falling_price_pays_the_seller(
    cycle: CycleState,
    open: OpenPosition,
    fill: (i128, u32),
)
    requires
        closes_exactly(cycle, open, fill),
        units(open.quantity@) > 0,
    ensures
        ({
            let before = units(cycle.bucket.realized_pnl@);
            let after = units(closed_cycle(cycle, open, fill)->0.bucket.realized_pnl@);
            let (opened_at, closed_at) = (units(open.open_price@), units(fill));
            &&& open.side == Side::Sell ==> (closed_at < opened_at <==> after > before)
            &&& open.side == Side::Sell ==> (closed_at > opened_at <==> after < before)
            &&& open.side == Side::Buy ==> (closed_at > opened_at <==> after > before)
            &&& open.side == Side::Buy ==> (closed_at < opened_at <==> after < before)
            &&& closed_at == opened_at <==> after == before
        }),
{
    law_cycle_earns_the_price_move(cycle, open, fill);
    let change = units(closed_cycle(cycle, open, fill)->0.bucket.realized_pnl@) - units(
        cycle.bucket.realized_pnl@,
    );
    let rise = units(fill) - units(open.open_price@);
    let q = units(open.quantity@);
    let w = unit_count();
    crate::decimal::lemma_pow10_positive(28);
    let moved = if open.side == Side::Buy {
        rise
    } else {
        -rise
    };
    assert((moved > 0 <==> change > 0) && (moved < 0 <==> change < 0)) by (nonlinear_arith)
        requires
            change * w == moved * q,
            q > 0,
            w >= 1,
    ;
}

/// Selling first and buying back earns what buying at the second price and
/// selling at the first one does.
pub proof fn law_sold_cycle_mirrors_the_bought_one(sold: OpenPosition, bought: OpenPosition)
    requires
        sold.side == Side::Sell,
        bought.side == Side::Buy,
        sold.quantity == bought.quantity,
    ensures
        realized(sold, bought.open_price@) == realized(bought, sold.open_price@),
{
}

/// Closing a cycle counts it once, adds its quantity to the volume of the side
/// that opened it and to the total, and leaves the other side, the refused
/// entries and the hour as they are; nothing stays open.
pub proof fn law_cycle_counts_its_quantity_once(
    cycle: CycleState,
    open: OpenPosition,
    fill: (i128, u32),
)
    requires
        closes_exactly(cycle, open, fill),
        cycle.bucket.completed_cycles < u64::MAX,
    ensures
        ({
            let closed = closed_cycle(cycle, open, fill)->0;
            let quantity = units(open.quantity@);
            &&& closed.position is None
            &&& closed.quote == cycle.quote
            &&& closed.bucket.completed_cycles == cycle.bucket.completed_cycles + 1
            &&& closed.bucket.rejected_entries == cycle.bucket.rejected_entries
            &&& closed.bucket.hour_start == cycle.bucket.hour_start
            &&& units(closed.total_volume@) == units(cycle.total_volume@) + quantity
            &&& open.side == Side::Buy ==> units(closed.bucket.buy_volume@) == units(
                cycle.bucket.buy_volume@,
            ) + quantity && closed.bucket.sell_volume == cycle.bucket.sell_volume
            &&& open.side == Side::Sell ==> units(closed.bucket.sell_volume@) == units(
                cycle.bucket.sell_volume@,
            ) + quantity && closed.bucket.buy_volume == cycle.bucket.buy_volume
        }),
{
    law_cycle_earns_the_price_move(cycle, open, fill);
    let quantity = open.quantity@;
    law_sum_adds(cycle.bucket.buy_volume@, quantity);
    law_sum_adds(cycle.bucket.sell_volume@, quantity);
    law_sum_adds(cycle.total_volume@, quantity);
    lemma_decimal_of(sum_of(cycle.bucket.buy_volume@, quantity)->0, open.quantity);
    lemma_decimal_of(sum_of(cycle.bucket.sell_volume@, quantity)->0, open.quantity);
    lemma_decimal_of(sum_of(cycle.total_volume@, quantity)->0, open.quantity);
}

/// The volume of an hour is that of its two sides together, and an hour starts
/// with none.
pub proof fn law_hour_volume_is_both_sides(bucket: StatisticsBucket, hour_start: Timestamp)
    requires
        representable(bucket.buy_volume@),
        representable(bucket.sell_volume@),
        adds_exactly(bucket.buy_volume@, bucket.sell_volume@),
    ensures
        hour_volume(bucket) is Some,
        units(hour_volume(bucket)->0) == units(bucket.buy_volume@) + units(bucket.sell_volume@),
        units(empty_bucket(hour_start).buy_volume@) == 0,
        units(empty_bucket(hour_start).sell_volume@) == 0,
        units(empty_bucket(hour_start).realized_pnl@) == 0,
        empty_bucket(hour_start).completed_cycles == 0,
        empty_bucket(hour_start).rejected_entries == 0,
        empty_bucket(hour_start).hour_start == hour_start,
{
    law_sum_adds(bucket.buy_volume@, bucket.sell_volume@);
    lemma_decimal_of((0i128, 0u32), bucket.buy_volume);
    law_sign_is_that_of_units((0i128, 0u32));
}

/// The price of a fill is the average that the venue reports for the first
/// order, and the reference price where it reports none.
pub proof fn law_fill_price_is_what_the_venue_reports(
    receipts: Seq<TradingReceipt>,
    fallback: Decimal,
)
    ensures
        receipts.len() > 0 && receipts[0] is Submitted
            && receipts[0]->Submitted_order.average_fill_price is Some ==> Some(
            fill_price_of(receipts, fallback),
        ) == receipts[0]->Submitted_order.average_fill_price,
        !(receipts.len() > 0 && receipts[0] is Submitted
            && receipts[0]->Submitted_order.average_fill_price is Some) ==> fill_price_of(
            receipts,
            fallback,
        ) == fallback,
{
}

/// An opening fill makes a position of its order at the fill price and earns
/// nothing; a cancelled order changes no position and no figure; only a closed
/// position completes a cycle.
pub proof fn law_only_a_close_completes_a_cycle(
    cycle: CycleState,
    operation: PlannedOperation,
    run: PaperSingleLegRun,
)
    requires
        consumed(cycle, operation, run) is Ok,
    ensures
        ({
            let (next, completed) = consumed(cycle, operation, run)->Ok_0;
            &&& !(run is AlreadyTerminal)
            &&& completed <==> run is Completed && operation.kind == PlannedKind::Close
            &&& !completed ==> next.bucket == cycle.bucket && next.total_volume
                == cycle.total_volume
            &&& run is Completed && operation.kind == PlannedKind::Open ==> next.position is Some
                && next.position->0.side == operation.intent.side && next.position->0.quantity
                == operation.intent.quantity && next.position->0.open_price == fill_price_of(
                run->Completed_receipts@,
                operation.reference_price,
            ) && next.quote is None
            &&& run is Cancelled ==> next.position == cycle.position
            &&& operation.kind == PlannedKind::Open && run is Cancelled ==> next.quote is None
            &&& operation.kind == PlannedKind::Close && run is Cancelled ==> next == cycle
            &&& completed ==> cycle.position is Some && Some(next) == closed_cycle(
                cycle,
                cycle.position->0,
                fill_price_of(run->Completed_receipts@, operation.reference_price)@,
            )
        }),
{
}

/// Opening at one fill and closing at another, one run after the other, earns
/// the move between the two fills on the opened quantity.
pub proof fn law_round_trip_earns_between_its_fills(
    cycle: CycleState,
    opening: PlannedOperation,
    opened: PaperSingleLegRun,
    closing: PlannedOperation,
    closed: PaperSingleLegRun,
)
    requires
        opening.kind == PlannedKind::Open,
        opened is Completed,
        closing.kind == PlannedKind::Close,
        closed is Completed,
        ({
            let open = OpenPosition {
                side: opening.intent.side,
                quantity: opening.intent.quantity,
                open_price: fill_price_of(opened->Completed_receipts@, opening.reference_price),
            };
            closes_exactly(
                cycle,
                open,
                fill_price_of(closed->Completed_receipts@, closing.reference_price)@,
            )
        }),
    ensures
        consumed(cycle, opening, opened) is Ok,
        ({
            let held = (consumed(cycle, opening, opened)->Ok_0).0;
            let from = fill_price_of(opened->Completed_receipts@, opening.reference_price);
            let to = fill_price_of(closed->Completed_receipts@, closing.reference_price);
            &&& consumed(held, closing, closed) is Ok
            &&& ({
                let flat = (consumed(held, closing, closed)->Ok_0).0;
                let change = units(flat.bucket.realized_pnl@) - units(cycle.bucket.realized_pnl@);
                let rise = units(to@) - units(from@);
                let quantity = units(opening.intent.quantity@);
                &&& flat.position is None
                &&& opening.intent.side == Side::Buy ==> change * unit_count() == rise * quantity
                &&& opening.intent.side == Side::Sell ==> change * unit_count() == (-rise)
                    * quantity
            })
        }),
{
    let held = (consumed(cycle, opening, opened)->Ok_0).0;
    let open = held.position->0;
    let to = fill_price_of(closed->Completed_receipts@, closing.reference_price)@;
    law_cycle_earns_the_price_move(held, open, to);
}

/// The cycles are at their bound exactly where as many were completed, or as
/// much was traded, as the limits name.
pub proof fn law_bound_is_reached_at_its_number(
    limits: CycleLimits,
    completed_cycles: u64,
    total_volume: (i128, u32),
)
    requires
        representable(total_volume),
        limits.target_volume is Some ==> representable(limits.target_volume->0@),
    ensures
        at_bound(limits, completed_cycles, total_volume) <==> (limits.max_cycles is Some
            && limits.max_cycles->0 <= completed_cycles) || (limits.target_volume is Some && units(
            limits.target_volume->0@,
        ) <= units(total_volume)),
{
    if limits.target_volume is Some {
        law_order_is_that_of_units(total_volume, limits.target_volume->0@);
    }
}

/// Cycles that are at their bound stay there as more is done.
pub proof fn law_bound_stays_reached(
    limits: CycleLimits,
    completed_cycles: u64,
    more_cycles: u64,
    total_volume: (i128, u32),
    more_volume: (i128, u32),
)
    requires
        representable(total_volume),
        representable(more_volume),
        limits.target_volume is Some ==> representable(limits.target_volume->0@),
        at_bound(limits, completed_cycles, total_volume),
        completed_cycles <= more_cycles,
        units(total_volume) <= units(more_volume),
    ensures
        at_bound(limits, more_cycles, more_volume),
{
    law_bound_is_reached_at_its_number(limits, completed_cycles, total_volume);
    law_bound_is_reached_at_its_number(limits, more_cycles, more_volume);
}

/// A standing quote is crossed where the market reaches it: its bid is bought
/// where the best ask is not above it, its ask is sold where the best bid is
/// not below it. An open position goes first, and a pause before its end.
pub proof fn law_quote_is_filled_when_reached(
    mode: VolumeMakerMode,
    position: Option<OpenPosition>,
    quote: Option<StandingQuote>,
    next_cycle_at: Option<Timestamp>,
    snapshot: MarketSnapshot,
    observed_at: Timestamp,
)
    requires
        representable(snapshot.bid@),
        representable(snapshot.ask@),
        quote is Some ==> representable(quote->0.bid@) && representable(quote->0.ask@),
    ensures
        ({
            let plan = plan_of(mode, position, quote, next_cycle_at, snapshot, observed_at);
            let resting = next_cycle_at is Some && observed_at.rank() < next_cycle_at->0.rank();
            let asked = mode == VolumeMakerMode::LimitBoth && position is None && !resting
                && quote is Some;
            let reached_bid = asked && units(snapshot.ask@) <= units(quote->0.bid@);
            let reached_ask = asked && units(snapshot.bid@) >= units(quote->0.ask@);
            &&& position is Some <==> plan is EvaluateOpen
            &&& plan is EvaluateOpen ==> plan == (PlanOutline::EvaluateOpen {
                side: position->0.side,
                quantity: position->0.quantity,
            })
            &&& plan is Rest <==> position is None && resting
            &&& plan is Cross <==> reached_bid || reached_ask
            &&& reached_bid ==> plan == (PlanOutline::Cross {
                side: Side::Buy,
                price: quote->0.bid,
            })
            &&& !reached_bid && reached_ask ==> plan == (PlanOutline::Cross {
                side: Side::Sell,
                price: quote->0.ask,
            })
        }),
{
    if quote is Some {
        law_order_is_that_of_units(quote->0.bid@, snapshot.ask@);
        law_order_is_that_of_units(snapshot.bid@, quote->0.ask@);
    }
}

/// The price that counts for a side is that of its first order.
pub proof fn law_first_order_of_a_side_prices_it(intents: Seq<OrderIntent>, side: Side, i: int)
    requires
        0 <= i < intents.len(),
        intents[i].side == side,
        forall|j: int| 0 <= j < i ==> (#[trigger] intents[j]).side != side,
    ensures
        first_price(intents, side) == intents[i].price,
    decreases i,
{
    if i > 0 {
        let rest = intents.skip(1);
        assert(rest[i - 1] == intents[i]);
        assert forall|j: int| 0 <= j < i - 1 implies (#[trigger] rest[j]).side != side by {
            assert(rest[j] == intents[j + 1]);
        }
        assert(intents[0].side != side);
        law_first_order_of_a_side_prices_it(rest, side, i - 1);
    }
}

/// An answer to an open position closes it with its first order; an answer to
/// a flat book leaves quotes in one mode, with the buy's price as the bid and
/// the sell's as the ask, and opens with its first order in the other. An
/// order is referred to the price that it would be filled at.
pub proof fn law_answer_is_acted_on(
    mode: VolumeMakerMode,
    state: VolumeMakerState,
    quote: Option<StandingQuote>,
    snapshot: MarketSnapshot,
    answer: StrategyAnswer,
)
    requires
        evaluated_plan(mode, state, quote, snapshot, answer) is Ok,
    ensures
        ({
            let (planned, standing) = evaluated_plan(mode, state, quote, snapshot, answer)->Ok_0;
            let flat_quotes = state is Flat && mode == VolumeMakerMode::LimitBoth;
            &&& planned is Some ==> answer is Intents && answer->Intents_0@.len() > 0
                && planned->0.intent == answer->Intents_0@[0]
            &&& planned is Some && planned->0.intent.side == Side::Buy
                ==> planned->0.reference_price == snapshot.ask
            &&& planned is Some && planned->0.intent.side == Side::Sell
                ==> planned->0.reference_price == snapshot.bid
            &&& planned is Some ==> (planned->0.kind == PlannedKind::Close <==> state is Open)
            &&& flat_quotes ==> planned is None && standing is Some && Some(standing->0.bid)
                == first_price(answer->Intents_0@, Side::Buy) && Some(standing->0.ask)
                == first_price(answer->Intents_0@, Side::Sell)
            &&& !flat_quotes ==> standing == quote
            &&& !flat_quotes && answer is Intents && answer->Intents_0@.len() > 0 ==> planned
                is Some
        }),
{
}

/// An event counts for a strategy where it observes the strategy's own
/// instrument, at the time it was received.
pub proof fn law_own_instrument_is_observed(
    strategy: VolumeMakerStrategyConfig,
    event: MarketDataEvent,
)
    ensures
        observed_event(strategy, event) is Observation <==> event is Observation
            && event->Observation_snapshot.exchange@ == strategy.exchange@
            && event->Observation_snapshot.symbol@ == strategy.symbol@
            && event->Observation_snapshot.market_type == strategy.market_type,
        observed_event(strategy, event) matches ObservedEvent::Observation { at } ==> at
            == event->Observation_received_at,
        observed_event(strategy, event) is Gap <==> !(event is Observation),
{
}

/// A run that was already over is never counted.
pub proof fn law_settled_run_is_not_counted_again(
    cycle: CycleState,
    operation: PlannedOperation,
    run: PaperSingleLegRun,
)
    requires
        run is AlreadyTerminal,
    ensures
        consumed(cycle, operation, run) == Err::<(CycleState, bool), _>(
            VolumeMakerPaperTaskError::RecoveryRequired,
        ),
{
}

} // verus!
