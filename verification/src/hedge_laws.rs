//! What a pair owner holds by its account, and when a spread is worth a trade.

use crate::arbitrage_account::{earlier_owner_is_settled, first_on, foreign_lots, held_on};
use crate::arbitrage_account::{is_isolated, lot_is_owned, owned_lots, position_in};
use crate::arbitrage_account::{released_operations, state_holds, EarlierArbitrageTask};
use crate::arbitrage_account::{account_is_settled, shares_a_queue, HedgedPosition};
use crate::arbitrage_owner::PlanScope;
use crate::arbitrage_plan::ArbitrageState;
use crate::decimal::{parsed_number, representable, text_of, Decimal};
use crate::domain::{OrderIntent, Side};
use crate::monitor::{is_opportunity, monitored_event, outcome_of, sequence_after, shows_outcome};
use crate::monitor::{ArbitrageMonitorError, ArbitrageMonitorEvent, ArbitrageMonitorOutcome};
use crate::monitor::{MarketDataUpdate, MarketInstrument, OutcomeDetails, PairAnalysis};
use crate::number_laws::{add_up_at, law_order_is_that_of_units, law_sign_is_that_of_units};
use crate::number_laws::{law_sum_at_a_scale_adds, lemma_add_up_at_parts, units, units_total};
use crate::operations::sequence_of;
use crate::owner_inputs::scope_of;
use crate::paper_account::{PaperAccountSnapshot, PaperLot, PaperReservation, PaperReservationPhase};
use crate::paper_arbitrage_task::{is_sample_of, operation_error, samples_at, OperationResult};
use crate::paper_arbitrage_task::{SpreadHistorySampleView, SpreadSample};
use crate::position_laws::{law_found_reservation_stands_alone, law_lone_reservation_is_found};
use crate::position_laws::stands_alone;
use crate::timestamp::Timestamp;
use vstd::prelude::*;

verus! {

/// A spread is worth reporting exactly where it is above zero and not below
/// the threshold.
pub proof fn law_opportunity_starts_at_the_threshold(percent: (i128, u32), threshold: (i128, u32))
    requires
        representable(percent),
        representable(threshold),
    ensures
        is_opportunity(percent, threshold) <==> units(percent) > 0 && units(percent) >= units(
            threshold,
        ),
{
    law_sign_is_that_of_units(percent);
    law_order_is_that_of_units(percent, threshold);
}

/// A measured spread comes out as it was measured, as an opportunity exactly
/// where it reaches the threshold; positions are opened on opportunities
/// alone, and a spread below the threshold only lets them be reduced.
pub proof fn law_only_opportunities_open_positions(analysis: PairAnalysis, threshold: Decimal)
    requires
        analysis is Spread,
        representable(analysis->Spread_0.percent@),
        representable(threshold@),
    ensures
        outcome_of(analysis, threshold) is Some,
        ({
            let outcome = outcome_of(analysis, threshold)->0;
            let spread = analysis->Spread_0;
            let reached = units(spread.percent@) > 0 && units(spread.percent@) >= units(
                threshold@,
            );
            &&& outcome is Opportunity <==> reached
            &&& outcome is NoOpportunity <==> !reached
            &&& reached ==> outcome->Opportunity_0.spread == spread
                && outcome->Opportunity_0.threshold_percent == threshold
            &&& !reached ==> outcome->NoOpportunity_0.spread == spread
                && outcome->NoOpportunity_0.threshold_percent == threshold
            &&& scope_of(outcome) == Some(PlanScope::Full) <==> reached
            &&& scope_of(outcome) == Some(PlanScope::ReduceOnly) <==> !reached
        }),
{
    law_opportunity_starts_at_the_threshold(analysis->Spread_0.percent@, threshold@);
}

/// What was not measured is never planned on: a leg that is not ready and a
/// rejected analysis give no scope, and a failed one no outcome.
pub proof fn law_unmeasured_pair_is_never_planned_on(analysis: PairAnalysis, threshold: Decimal)
    requires
        !(analysis is Spread),
    ensures
        analysis is Failed <==> outcome_of(analysis, threshold) is None,
        outcome_of(analysis, threshold) is Some ==> scope_of(outcome_of(analysis, threshold)->0)
            is None,
        analysis is NotReady ==> outcome_of(analysis, threshold)->0 is Waiting,
        analysis is Rejected ==> outcome_of(analysis, threshold)->0 is AnalysisRejected,
{
}

/// The lot came out of one committed, numbered operation of the owner.
pub open spec fn is_hedge_lot(
    reservations: Seq<PaperReservation>,
    lot: PaperLot,
    prefix: Seq<char>,
) -> bool {
    exists|i: int|
        stands_alone(reservations, i, lot.source_reservation_id) && sequence_of(
            #[trigger] reservations[i].task_id@,
            prefix,
        ) is Some && reservations[i].phase == PaperReservationPhase::Committed
}

/// A lot is the owner's exactly where it came out of one of its committed
/// operations; it is somebody else's exactly where its one source is not an
/// operation of the owner.
pub proof fn law_hedge_lot_comes_from_a_committed_operation(
    reservations: Seq<PaperReservation>,
    lot: PaperLot,
    prefix: Seq<char>,
)
    ensures
        lot_is_owned(reservations, lot, prefix) == Some(true) <==> is_hedge_lot(
            reservations,
            lot,
            prefix,
        ),
        lot_is_owned(reservations, lot, prefix) == Some(false) <==> (exists|i: int|
            stands_alone(reservations, i, lot.source_reservation_id) && sequence_of(
                #[trigger] reservations[i].task_id@,
                prefix,
            ) is None),
{
    let id = lot.source_reservation_id;
    if crate::paper_account::sole_reservation(reservations, id) is Some {
        let i = law_found_reservation_stands_alone(reservations, id);
        assert(stands_alone(reservations, i, id));
        let task = reservations[i].task_id@;
        assert forall|k: int| #[trigger] stands_alone(reservations, k, id) implies k == i by {
            assert(reservations[k].reservation_id == id);
        }
        assert(sequence_of(task, prefix) is Some || sequence_of(task, prefix) is None);
    } else {
        assert forall|i: int| !#[trigger] stands_alone(reservations, i, id) by {
            if stands_alone(reservations, i, id) {
                law_lone_reservation_is_found(reservations, i, id);
            }
        }
    }
}

/// The owner's lots are all of its own and no others, in order; the other lots
/// are those of somebody else.
pub proof fn law_lots_are_sorted_by_their_owner(
    reservations: Seq<PaperReservation>,
    lots: Seq<PaperLot>,
    next: PaperLot,
    prefix: Seq<char>,
)
    requires
        owned_lots(reservations, lots, prefix) is Some,
    ensures
        owned_lots(reservations, Seq::empty(), prefix) == Some(Seq::<PaperLot>::empty()),
        is_hedge_lot(reservations, next, prefix) ==> owned_lots(
            reservations,
            lots.push(next),
            prefix,
        ) == Some(owned_lots(reservations, lots, prefix)->0.push(next)) && foreign_lots(
            reservations,
            lots.push(next),
            prefix,
        ) == foreign_lots(reservations, lots, prefix),
        lot_is_owned(reservations, next, prefix) == Some(false) ==> owned_lots(
            reservations,
            lots.push(next),
            prefix,
        ) == owned_lots(reservations, lots, prefix) && foreign_lots(
            reservations,
            lots.push(next),
            prefix,
        ) == foreign_lots(reservations, lots, prefix).push(next),
        lot_is_owned(reservations, next, prefix) is None ==> owned_lots(
            reservations,
            lots.push(next),
            prefix,
        ) is None,
{
    assert(lots.push(next).drop_last() =~= lots);
    law_hedge_lot_comes_from_a_committed_operation(reservations, next, prefix);
}

/// What remains of the lots of one side.
pub open spec fn remaining_on(lots: Seq<PaperLot>, side: Side) -> Seq<(i128, u32)>
    decreases lots.len(),
{
    if lots.len() == 0 {
        Seq::empty()
    } else {
        let before = remaining_on(lots.drop_last(), side);
        if lots.last().side == side {
            before.push(lots.last().remaining_quantity@)
        } else {
            before
        }
    }
}

/// What is held on a side is what remains of all its lots together.
pub proof fn law_held_quantity_adds_every_lot(lots: Seq<PaperLot>, side: Side, scale: u32)
    requires
        add_up_at(remaining_on(lots, side), scale),
    ensures
        held_on(lots, side) is Some,
        representable(held_on(lots, side)->0),
        (held_on(lots, side)->0).0 >= 0,
        (held_on(lots, side)->0).1 <= scale,
        units(held_on(lots, side)->0) == units_total(remaining_on(lots, side)),
    decreases lots.len(),
{
    if lots.len() == 0 {
        law_sign_is_that_of_units((0i128, 0u32));
    } else {
        let numbers = remaining_on(lots, side);
        let before = remaining_on(lots.drop_last(), side);
        if lots.last().side == side {
            assert(numbers.drop_last() =~= before);
            assert(numbers.last() == numbers[numbers.len() - 1]);
            lemma_add_up_at_parts(numbers, scale);
            law_held_quantity_adds_every_lot(lots.drop_last(), side, scale);
            law_sum_at_a_scale_adds(
                held_on(lots.drop_last(), side)->0,
                lots.last().remaining_quantity@,
                scale,
            );
        } else {
            law_held_quantity_adds_every_lot(lots.drop_last(), side, scale);
        }
    }
}

/// The first lot of a side is one of that side.
proof fn lemma_first_on(lots: Seq<PaperLot>, side: Side)
    ensures
        first_on(lots, side) is Some ==> first_on(lots, side)->0.side == side && lots.contains(
            first_on(lots, side)->0,
        ),
        first_on(lots, side) is None ==> forall|i: int|
            0 <= i < lots.len() ==> (#[trigger] lots[i]).side != side,
    decreases lots.len(),
{
    if lots.len() > 0 {
        let before = lots.drop_last();
        lemma_first_on(before, side);
        assert(lots.last() == lots[lots.len() - 1]);
        if first_on(before, side) is Some {
            let lot = first_on(before, side)->0;
            let i = choose|i: int| 0 <= i < before.len() && before[i] == lot;
            assert(lots[i] == lot);
        } else {
            assert forall|i: int| 0 <= i < lots.len() - 1 implies (#[trigger] lots[i]).side
                != side by {
                assert(before[i] == lots[i]);
            }
        }
    }
}

/// A restored position is hedged: as much of it was bought on one venue as was
/// sold on the other, in one symbol, and that is its quantity. Every lot of
/// the owner belongs to one of its two legs.
pub proof fn law_restored_position_is_hedged(
    snapshot: PaperAccountSnapshot,
    prefix: Seq<char>,
    scale: u32,
)
    requires
        position_in(snapshot, prefix) is Some,
        position_in(snapshot, prefix)->0 is Some,
        ({
            let own = owned_lots(snapshot.reservations@, snapshot.open_lots@, prefix)->0;
            add_up_at(remaining_on(own, Side::Buy), scale) && add_up_at(
                remaining_on(own, Side::Sell),
                scale,
            )
        }),
    ensures
        ({
            let own = owned_lots(snapshot.reservations@, snapshot.open_lots@, prefix)->0;
            let position = position_in(snapshot, prefix)->0->0;
            &&& units_total(remaining_on(own, Side::Buy)) == units_total(
                remaining_on(own, Side::Sell),
            )
            &&& units(position.quantity) == units_total(remaining_on(own, Side::Buy))
            &&& units(position.quantity) > 0
            &&& position.buy.side == Side::Buy && position.sell.side == Side::Sell
            &&& position.buy.symbol@ == position.sell.symbol@
            &&& position.buy.exchange@ != position.sell.exchange@
            &&& forall|i: int|
                0 <= i < own.len() && (#[trigger] own[i]).side == Side::Buy ==> own[i].exchange@
                    == position.buy.exchange@ && own[i].symbol@ == position.buy.symbol@
                    && own[i].market_type == position.buy.market_type
            &&& forall|i: int|
                0 <= i < own.len() && (#[trigger] own[i]).side == Side::Sell ==> own[i].exchange@
                    == position.sell.exchange@ && own[i].symbol@ == position.sell.symbol@
                    && own[i].market_type == position.sell.market_type
        }),
{
    let own = owned_lots(snapshot.reservations@, snapshot.open_lots@, prefix)->0;
    law_held_quantity_adds_every_lot(own, Side::Buy, scale);
    law_held_quantity_adds_every_lot(own, Side::Sell, scale);
    let (bought, sold) = (held_on(own, Side::Buy)->0, held_on(own, Side::Sell)->0);
    law_order_is_that_of_units(bought, sold);
    law_sign_is_that_of_units(bought);
    lemma_first_on(own, Side::Buy);
    lemma_first_on(own, Side::Sell);
}

/// Where nothing is the owner's, it holds no position, and where something is,
/// on one side alone, nothing can be restored.
pub proof fn law_one_sided_lots_restore_nothing(snapshot: PaperAccountSnapshot, prefix: Seq<char>)
    requires
        owned_lots(snapshot.reservations@, snapshot.open_lots@, prefix) is Some,
    ensures
        ({
            let own = owned_lots(snapshot.reservations@, snapshot.open_lots@, prefix)->0;
            &&& own.len() == 0 <==> position_in(snapshot, prefix) == Some(None::<HedgedPosition>)
            &&& own.len() > 0 && (forall|i: int|
                0 <= i < own.len() ==> (#[trigger] own[i]).side == Side::Buy) ==> position_in(
                snapshot,
                prefix,
            ) is None
            &&& own.len() > 0 && (forall|i: int|
                0 <= i < own.len() ==> (#[trigger] own[i]).side == Side::Sell) ==> position_in(
                snapshot,
                prefix,
            ) is None
        }),
{
    let own = owned_lots(snapshot.reservations@, snapshot.open_lots@, prefix)->0;
    lemma_first_on(own, Side::Buy);
    lemma_first_on(own, Side::Sell);
    if first_on(own, Side::Sell) is Some {
        let lot = first_on(own, Side::Sell)->0;
        let i = choose|i: int| 0 <= i < own.len() && own[i] == lot;
        assert(own[i].side == Side::Sell);
    }
    if first_on(own, Side::Buy) is Some {
        let lot = first_on(own, Side::Buy)->0;
        let i = choose|i: int| 0 <= i < own.len() && own[i] == lot;
        assert(own[i].side == Side::Buy);
    }
}

/// A state that holds a restored position buys where the account is long and
/// sells where it is short.
pub proof fn law_state_points_the_way_the_account_lies(
    state: ArbitrageState,
    snapshot: PaperAccountSnapshot,
    prefix: Seq<char>,
    i: int,
)
    requires
        position_in(snapshot, prefix) is Some,
        state_holds(state, position_in(snapshot, prefix)->0),
        ({
            let own = owned_lots(snapshot.reservations@, snapshot.open_lots@, prefix)->0;
            0 <= i < own.len()
        }),
    ensures
        ({
            let lot = owned_lots(snapshot.reservations@, snapshot.open_lots@, prefix)->0[i];
            &&& state.direction is Some
            &&& lot.side == Side::Buy ==> state.direction->0.buy_exchange@ == lot.exchange@
                && state.direction->0.buy_symbol@ == lot.symbol@
                && state.direction->0.buy_market_type == lot.market_type
            &&& lot.side == Side::Sell ==> state.direction->0.sell_exchange@ == lot.exchange@
                && state.direction->0.sell_symbol@ == lot.symbol@
                && state.direction->0.sell_market_type == lot.market_type
            &&& state.position_quantity@.0 > 0
        }),
{
}

/// Orders are isolated only where every open lot that meets one of them is the
/// owner's.
pub proof fn law_foreign_lot_breaks_the_isolation(
    snapshot: PaperAccountSnapshot,
    prefix: Seq<char>,
    intents: Seq<OrderIntent>,
    i: int,
    j: int,
)
    requires
        0 <= i < intents.len(),
        0 <= j < snapshot.open_lots@.len(),
        snapshot.open_lots@[j].exchange@ == intents[i].exchange@,
        snapshot.open_lots@[j].symbol@ == intents[i].symbol@,
        snapshot.open_lots@[j].market_type == intents[i].market_type,
        is_isolated(snapshot, prefix, intents),
    ensures
        is_hedge_lot(snapshot.reservations@, snapshot.open_lots@[j], prefix),
{
    assert(crate::arbitrage_account::lot_meets_order(snapshot.open_lots@[j], intents[i]));
    law_hedge_lot_comes_from_a_committed_operation(
        snapshot.reservations@,
        snapshot.open_lots@[j],
        prefix,
    );
}

/// An account is settled exactly where its journal was read to the end, no
/// operation is still open and no reconciliation failed.
pub proof fn law_settled_account_has_nothing_open(snapshot: PaperAccountSnapshot)
    ensures
        account_is_settled(snapshot) <==> snapshot.projection_complete && forall|i: int|
            0 <= i < snapshot.reservations@.len() ==> (#[trigger] snapshot.reservations@[i]).phase
                != PaperReservationPhase::Pending && snapshot.reservations@[i].phase
                != PaperReservationPhase::Uncertain
                && !snapshot.reservations@[i].reconciliation_failed,
{
    let reservations = snapshot.reservations@;
    if account_is_settled(snapshot) {
        assert forall|i: int| 0 <= i < reservations.len() implies (#[trigger]
        reservations[i]).phase != PaperReservationPhase::Pending && reservations[i].phase
            != PaperReservationPhase::Uncertain && !reservations[i].reconciliation_failed by {
            assert(!crate::paper_account::outcome_is_open(reservations[i].phase));
        }
    }
}

/// Released operations are counted only where every operation of the owner was
/// released; the count is the highest number among them.
pub proof fn law_released_count_is_the_highest_number(
    reservations: Seq<PaperReservation>,
    prefix: Seq<char>,
    i: int,
)
    requires
        released_operations(reservations, prefix) is Some,
        0 <= i < reservations.len(),
        sequence_of(reservations[i].task_id@, prefix) is Some,
    ensures
        reservations[i].phase == PaperReservationPhase::Released,
        sequence_of(reservations[i].task_id@, prefix)->0 <= released_operations(
            reservations,
            prefix,
        )->0,
    decreases reservations.len(),
{
    let before = reservations.drop_last();
    assert(reservations.last() == reservations[reservations.len() - 1]);
    if i < before.len() {
        assert(before[i] == reservations[i]);
        law_released_count_is_the_highest_number(before, prefix, i);
    }
}

/// The count of released operations is a number that one of them has, or zero.
pub proof fn law_released_count_is_a_number(
    reservations: Seq<PaperReservation>,
    prefix: Seq<char>,
)
    requires
        released_operations(reservations, prefix) is Some,
    ensures
        released_operations(reservations, prefix)->0 == 0 || exists|i: int|
            0 <= i < reservations.len() && sequence_of(#[trigger] reservations[i].task_id@, prefix)
                == released_operations(reservations, prefix),
    decreases reservations.len(),
{
    if reservations.len() > 0 {
        let before = reservations.drop_last();
        law_released_count_is_a_number(before, prefix);
        assert(reservations.last() == reservations[reservations.len() - 1]);
        let count = released_operations(reservations, prefix);
        if released_operations(before, prefix) == count && count->0 != 0 {
            let i = choose|i: int|
                0 <= i < before.len() && sequence_of(#[trigger] before[i].task_id@, prefix)
                    == released_operations(before, prefix);
            assert(sequence_of(reservations[i].task_id@, prefix) == count);
        }
    }
}

/// An owner takes over from an earlier one only where that one stopped, left
/// nothing to recover and read the same two sources in the same order.
pub proof fn law_earlier_owner_left_nothing_behind(
    earlier: EarlierArbitrageTask,
    left: Seq<char>,
    right: Seq<char>,
)
    requires
        earlier_owner_is_settled(Some(earlier), left, right),
    ensures
        earlier.arbitrage,
        earlier.stopped,
        !earlier.needs_recovery,
        earlier.source_ids@.len() == 2,
        earlier.source_ids@[0]@ == left,
        earlier.source_ids@[1]@ == right,
        left != right ==> !earlier_owner_is_settled(Some(earlier), right, left),
{
}

/// A sample keeps each figure on its side: what was bought at is the buy
/// price, what was sold at the sell price.
pub proof fn law_sample_keeps_its_sides(sample: SpreadSample, view: SpreadHistorySampleView)
    requires
        is_sample_of(sample, view),
    ensures
        sample.buy_exchange@ == view.exchange_buy@,
        sample.sell_exchange@ == view.exchange_sell@,
        parsed_number(view.price_buy@) == Some(sample.buy_price@),
        parsed_number(view.price_sell@) == Some(sample.sell_price@),
        parsed_number(view.spread_bps@) == Some(sample.spread_bps@),
        view.funding_rate_buy is None <==> sample.funding_rate_buy is None,
        view.funding_rate_sell is None <==> sample.funding_rate_sell is None,
        view.funding_rate_buy is Some ==> parsed_number(view.funding_rate_buy->0@) == Some(
            sample.funding_rate_buy->0@,
        ),
        view.funding_rate_sell is Some ==> parsed_number(view.funding_rate_sell->0@) == Some(
            sample.funding_rate_sell->0@,
        ),
        sample.timestamp == view.timestamp,
{
}

/// The samples of an instant are all that carry it, in order.
pub proof fn law_samples_of_an_instant_are_all_of_it(
    samples: Seq<SpreadHistorySampleView>,
    next: SpreadHistorySampleView,
    at: Timestamp,
)
    ensures
        samples_at(Seq::empty(), at).len() == 0,
        samples_at(samples.push(next), at) == if next.timestamp == at {
            samples_at(samples, at).push(next)
        } else {
            samples_at(samples, at)
        },
{
    assert(samples.push(next).drop_last() =~= samples);
}

/// Only an operation that was completed now counts as one; every other result
/// is an error, and a failure keeps its kind.
pub proof fn law_only_a_fresh_completion_passes(result: OperationResult)
    ensures
        operation_error(result) is None <==> result is Completed,
        result is Failed ==> operation_error(result)->0 is Saga && operation_error(
            result,
        )->0->Saga_0 == result->Failed_0,
{
}

/// No other owner's lot lies in the queue of either leg of a restored
/// position.
pub proof fn law_restored_position_shares_no_queue(
    snapshot: PaperAccountSnapshot,
    prefix: Seq<char>,
    i: int,
)
    requires
        position_in(snapshot, prefix) is Some,
        position_in(snapshot, prefix)->0 is Some,
        0 <= i < foreign_lots(snapshot.reservations@, snapshot.open_lots@, prefix).len(),
    ensures
        ({
            let position = position_in(snapshot, prefix)->0->0;
            let lot = foreign_lots(snapshot.reservations@, snapshot.open_lots@, prefix)[i];
            &&& !(lot.side == Side::Buy && lot.exchange@ == position.buy.exchange@ && lot.symbol@
                == position.buy.symbol@ && lot.market_type == position.buy.market_type)
            &&& !(lot.side == Side::Sell && lot.exchange@ == position.sell.exchange@
                && lot.symbol@ == position.sell.symbol@ && lot.market_type
                == position.sell.market_type)
        }),
{
    let own = owned_lots(snapshot.reservations@, snapshot.open_lots@, prefix)->0;
    lemma_first_on(own, Side::Buy);
    lemma_first_on(own, Side::Sell);
    let foreign = foreign_lots(snapshot.reservations@, snapshot.open_lots@, prefix);
    let position = position_in(snapshot, prefix)->0->0;
    assert(!shares_a_queue(foreign[i], position.buy, position.sell));
}

/// Events are numbered in a row, one for each update that was applied, also
/// where the pair could not be analysed; an update that was not applied takes
/// no number. An event says when it was seen and is about the monitored legs.
pub proof fn law_monitor_numbers_what_it_applies(
    left: MarketInstrument,
    right: MarketInstrument,
    threshold: Decimal,
    sequence: u64,
    applied: Option<MarketDataUpdate>,
    observed_at: Timestamp,
    generation: u64,
    analysis: PairAnalysis,
)
    requires
        sequence < u64::MAX,
    ensures
        ({
            let r = monitored_event(
                left,
                right,
                threshold,
                sequence,
                applied,
                observed_at,
                generation,
                analysis,
            );
            let next = sequence_after(sequence, applied);
            &&& next == sequence + (if applied is Some {
                1int
            } else {
                0
            })
            &&& r is Ok <==> applied is Some && outcome_of(analysis, threshold) is Some
            &&& r is Ok ==> r->Ok_0.sequence == next && r->Ok_0.recorded_at == observed_at
                && r->Ok_0.market_generation == generation && r->Ok_0.market_update == applied->0
            &&& r is Ok ==> r->Ok_0.left == left && r->Ok_0.right == right && Some(
                r->Ok_0.outcome,
            ) == outcome_of(analysis, threshold)
            &&& r is Err ==> r->Err_0 is Market
        }),
        sequence_after(u64::MAX, applied) == u64::MAX,
        applied is Some ==> monitored_event(
            left,
            right,
            threshold,
            u64::MAX,
            applied,
            observed_at,
            generation,
            analysis,
        ) == Err::<ArbitrageMonitorEvent, _>(ArbitrageMonitorError::SequenceExhausted),
{
}

/// The record of an event shows each leg's own price and exchange, and the
/// spread between them.
pub proof fn law_spread_is_recorded_leg_by_leg(
    details: OutcomeDetails,
    outcome: ArbitrageMonitorOutcome,
)
    requires
        shows_outcome(details, outcome),
        outcome is Opportunity || outcome is NoOpportunity,
    ensures
        details is Spread,
        ({
            let measured = if outcome is Opportunity {
                outcome->Opportunity_0
            } else {
                outcome->NoOpportunity_0
            };
            let shown = details->Spread_0;
            &&& shown.buy_exchange@ == measured.spread.buy_exchange@
            &&& shown.sell_exchange@ == measured.spread.sell_exchange@
            &&& shown.buy_price@ == text_of(measured.spread.buy_price@)
            &&& shown.sell_price@ == text_of(measured.spread.sell_price@)
            &&& shown.absolute_spread@ == text_of(measured.spread.absolute@)
            &&& shown.spread_percent@ == text_of(measured.spread.percent@)
            &&& shown.threshold_percent@ == text_of(measured.threshold_percent@)
        }),
{
}

} // verus!
