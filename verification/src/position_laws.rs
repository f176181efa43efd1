//! What an owner holds, and what it takes to close it.

use crate::decimal::{representable, sum_of};
use crate::domain::{MarketDataEvent, MarketSnapshot, MarketType, Side};
use crate::number_laws::{add_up_at, adds_exactly, law_difference_subtracts};
use crate::number_laws::{law_order_is_that_of_units, law_product_multiplies};
use crate::number_laws::{law_sign_is_that_of_units, law_sum_adds, law_sum_at_a_scale_adds};
use crate::number_laws::{lemma_add_up_at_parts, multiplies_exactly, unit_count, units, units_total};
use crate::operations::belongs_to;
use crate::paper_account::{reservation_count, reservation_place, sole_reservation};
use crate::paper_account::{PaperAccountSnapshot, PaperLot, PaperReservation, PaperReservationPhase};
use crate::paper_grid_task::{account_close_plan, close_plan_of, demand_of, first_demand};
use crate::paper_grid_task::{foreign_lot_of, in_target, is_priced_operation, lot_is_own, lot_totals};
use crate::paper_grid_task::{pending_ids, position_of, reservation_price_of, risk_exit_of};
use crate::paper_grid_task::{sum_of_four, GridPaperTaskConfig, GridPaperTaskError};
use crate::paper_single_leg_saga::PaperSingleLegRequest;
use crate::operations::Ownership;
use crate::requests::{gross_of, FreshIds, PaperReservationLeg};
use vstd::prelude::*;

verus! {

/// The reservation at this place is the only one with its number.
pub open spec fn stands_alone(reservations: Seq<PaperReservation>, i: int, id: u128) -> bool {
    &&& 0 <= i < reservations.len()
    &&& reservations[i].reservation_id == id
    &&& forall|j: int|
        0 <= j < reservations.len() && j != i ==> #[trigger] reservations[j].reservation_id != id
}

/// Where no reservation has the number, none is counted or placed.
proof fn lemma_no_reservation(reservations: Seq<PaperReservation>, id: u128)
    requires
        forall|j: int|
            0 <= j < reservations.len() ==> #[trigger] reservations[j].reservation_id != id,
    ensures
        reservation_count(reservations, id) == 0,
        reservation_place(reservations, id) == reservations.len(),
    decreases reservations.len(),
{
    if reservations.len() > 0 {
        let before = reservations.drop_last();
        assert forall|j: int| 0 <= j < before.len() implies #[trigger] before[j].reservation_id
            != id by {
            assert(before[j] == reservations[j]);
        }
        lemma_no_reservation(before, id);
        assert(reservations.last() == reservations[reservations.len() - 1]);
    }
}

/// A reservation that stands alone is counted once, and is found.
pub proof fn law_lone_reservation_is_found(
    reservations: Seq<PaperReservation>,
    i: int,
    id: u128,
)
    requires
        stands_alone(reservations, i, id),
    ensures
        reservation_count(reservations, id) == 1,
        reservation_place(reservations, id) == i,
        sole_reservation(reservations, id) == Some(reservations[i]),
    decreases reservations.len(),
{
    let before = reservations.drop_last();
    assert(reservations.last() == reservations[reservations.len() - 1]);
    if i == reservations.len() - 1 {
        assert forall|j: int| 0 <= j < before.len() implies #[trigger] before[j].reservation_id
            != id by {
            assert(before[j] == reservations[j]);
        }
        lemma_no_reservation(before, id);
    } else {
        assert(stands_alone(before, i, id)) by {
            assert(before[i] == reservations[i]);
            assert forall|j: int| 0 <= j < before.len() && j != i implies #[trigger]
            before[j].reservation_id != id by {
                assert(before[j] == reservations[j]);
            }
        }
        law_lone_reservation_is_found(before, i, id);
    }
}

/// A number that two reservations carry, or none, finds no reservation.
pub proof fn law_found_reservation_stands_alone(reservations: Seq<PaperReservation>, id: u128) -> (i:
    int)
    requires
        sole_reservation(reservations, id) is Some,
    ensures
        stands_alone(reservations, i, id),
        sole_reservation(reservations, id) == Some(reservations[i]),
    decreases reservations.len(),
{
    let before = reservations.drop_last();
    assert(reservations.last() == reservations[reservations.len() - 1]);
    if reservations.last().reservation_id == id {
        let i = reservations.len() - 1;
        if exists|j: int| 0 <= j < before.len() && #[trigger] before[j].reservation_id == id {
            let j = choose|j: int|
                0 <= j < before.len() && #[trigger] before[j].reservation_id == id;
            lemma_counted(before, j, id);
            assert(false);
        }
        assert forall|j: int| 0 <= j < reservations.len() && j != i implies #[trigger]
        reservations[j].reservation_id != id by {
            assert(before[j] == reservations[j]);
        }
        law_lone_reservation_is_found(reservations, i, id);
        i
    } else {
        let i = law_found_reservation_stands_alone(before, id);
        assert(before[i] == reservations[i]);
        assert forall|j: int| 0 <= j < reservations.len() && j != i implies #[trigger]
        reservations[j].reservation_id != id by {
            if j < before.len() {
                assert(before[j] == reservations[j]);
            }
        }
        law_lone_reservation_is_found(reservations, i, id);
        i
    }
}

/// A reservation with the number is counted.
proof fn lemma_counted(reservations: Seq<PaperReservation>, i: int, id: u128)
    requires
        0 <= i < reservations.len(),
        reservations[i].reservation_id == id,
    ensures
        reservation_count(reservations, id) > 0,
    decreases reservations.len(),
{
    if i < reservations.len() - 1 {
        assert(reservations.drop_last()[i] == reservations[i]);
        lemma_counted(reservations.drop_last(), i, id);
    }
}

/// The lot stands in this instrument and came out of one operation of the
/// owner.
pub open spec fn is_own_lot(
    lot: PaperLot,
    reservations: Seq<PaperReservation>,
    exchange: Seq<char>,
    symbol: Seq<char>,
    market_type: MarketType,
    prefix: Seq<char>,
) -> bool {
    &&& lot.exchange@ == exchange
    &&& lot.symbol@ == symbol
    &&& lot.market_type == market_type
    &&& exists|i: int|
        stands_alone(reservations, i, lot.source_reservation_id) && belongs_to(
            #[trigger] reservations[i].task_id@,
            prefix,
        )
}

/// A lot in the instrument is the owner's exactly where it came out of one
/// operation of the owner.
pub proof fn law_own_lot_comes_from_own_operation(
    lot: PaperLot,
    reservations: Seq<PaperReservation>,
    exchange: Seq<char>,
    symbol: Seq<char>,
    market_type: MarketType,
    prefix: Seq<char>,
)
    ensures
        is_own_lot(lot, reservations, exchange, symbol, market_type, prefix) <==> in_target(
            lot,
            exchange,
            symbol,
            market_type,
        ) && lot_is_own(reservations, lot, prefix) == Some(true),
{
    let id = lot.source_reservation_id;
    if is_own_lot(lot, reservations, exchange, symbol, market_type, prefix) {
        let i = choose|i: int|
            stands_alone(reservations, i, id) && belongs_to(
                #[trigger] reservations[i].task_id@,
                prefix,
            );
        law_lone_reservation_is_found(reservations, i, id);
    }
    if lot_is_own(reservations, lot, prefix) == Some(true) {
        let i = law_found_reservation_stands_alone(reservations, id);
        assert(belongs_to(reservations[i].task_id@, prefix));
    }
}

/// What remains of the owner's lots of one side in an instrument.
pub open spec fn own_quantities(
    lots: Seq<PaperLot>,
    reservations: Seq<PaperReservation>,
    exchange: Seq<char>,
    symbol: Seq<char>,
    market_type: MarketType,
    prefix: Seq<char>,
    side: Side,
) -> Seq<(i128, u32)>
    decreases lots.len(),
{
    if lots.len() == 0 {
        Seq::empty()
    } else {
        let before = own_quantities(
            lots.drop_last(),
            reservations,
            exchange,
            symbol,
            market_type,
            prefix,
            side,
        );
        if is_own_lot(lots.last(), reservations, exchange, symbol, market_type, prefix)
            && lots.last().side == side {
            before.push(lots.last().remaining_quantity@)
        } else {
            before
        }
    }
}

/// What the two sides of the owner's lots add up to.
pub proof fn law_totals_add_every_own_lot(
    lots: Seq<PaperLot>,
    reservations: Seq<PaperReservation>,
    exchange: Seq<char>,
    symbol: Seq<char>,
    market_type: MarketType,
    prefix: Seq<char>,
    scale: u32,
)
    requires
        lot_totals(lots, reservations, exchange, symbol, market_type, prefix) is Some,
        add_up_at(
            own_quantities(
                lots,
                reservations,
                exchange,
                symbol,
                market_type,
                prefix,
                Side::Buy,
            ),
            scale,
        ),
        add_up_at(
            own_quantities(
                lots,
                reservations,
                exchange,
                symbol,
                market_type,
                prefix,
                Side::Sell,
            ),
            scale,
        ),
    ensures
        ({
            let totals = lot_totals(lots, reservations, exchange, symbol, market_type, prefix)->0;
            &&& representable(totals.buy) && totals.buy.0 >= 0 && totals.buy.1 <= scale
            &&& representable(totals.sell) && totals.sell.0 >= 0 && totals.sell.1 <= scale
            &&& units(totals.buy) == units_total(
                own_quantities(
                    lots,
                    reservations,
                    exchange,
                    symbol,
                    market_type,
                    prefix,
                    Side::Buy,
                ),
            )
            &&& units(totals.sell) == units_total(
                own_quantities(
                    lots,
                    reservations,
                    exchange,
                    symbol,
                    market_type,
                    prefix,
                    Side::Sell,
                ),
            )
        }),
    decreases lots.len(),
{
    if lots.len() == 0 {
        law_sign_is_that_of_units((0i128, 0u32));
    } else {
        let lot = lots.last();
        let first = lots.drop_last();
        law_own_lot_comes_from_own_operation(
            lot,
            reservations,
            exchange,
            symbol,
            market_type,
            prefix,
        );
        let buys = own_quantities(
            lots,
            reservations,
            exchange,
            symbol,
            market_type,
            prefix,
            Side::Buy,
        );
        let sells = own_quantities(
            lots,
            reservations,
            exchange,
            symbol,
            market_type,
            prefix,
            Side::Sell,
        );
        let buys_before = own_quantities(
            first,
            reservations,
            exchange,
            symbol,
            market_type,
            prefix,
            Side::Buy,
        );
        let sells_before = own_quantities(
            first,
            reservations,
            exchange,
            symbol,
            market_type,
            prefix,
            Side::Sell,
        );
        let own = is_own_lot(lot, reservations, exchange, symbol, market_type, prefix);
        if own && lot.side == Side::Buy {
            assert(buys.drop_last() =~= buys_before);
            assert(buys.last() == buys[buys.len() - 1]);
            lemma_add_up_at_parts(buys, scale);
        }
        if own && lot.side == Side::Sell {
            assert(sells.drop_last() =~= sells_before);
            assert(sells.last() == sells[sells.len() - 1]);
            lemma_add_up_at_parts(sells, scale);
        }
        law_totals_add_every_own_lot(
            first,
            reservations,
            exchange,
            symbol,
            market_type,
            prefix,
            scale,
        );
        let before = lot_totals(first, reservations, exchange, symbol, market_type, prefix)->0;
        if own && lot.side == Side::Buy {
            law_sum_at_a_scale_adds(before.buy, lot.remaining_quantity@, scale);
        }
        if own && lot.side == Side::Sell {
            law_sum_at_a_scale_adds(before.sell, lot.remaining_quantity@, scale);
        }
    }
}

/// A close plan closes all of it: a selling plan names what the owner's bought
/// lots add up to, a buying plan what the sold ones do, and the other side
/// holds nothing.
pub proof fn law_close_plan_closes_every_own_lot(
    lots: Seq<PaperLot>,
    reservations: Seq<PaperReservation>,
    exchange: Seq<char>,
    symbol: Seq<char>,
    market_type: MarketType,
    prefix: Seq<char>,
    scale: u32,
    side: Side,
    quantity: (i128, u32),
)
    requires
        close_plan_of(lot_totals(lots, reservations, exchange, symbol, market_type, prefix))
            == Ok::<_, GridPaperTaskError>(Some((side, quantity))),
        add_up_at(
            own_quantities(
                lots,
                reservations,
                exchange,
                symbol,
                market_type,
                prefix,
                Side::Buy,
            ),
            scale,
        ),
        add_up_at(
            own_quantities(
                lots,
                reservations,
                exchange,
                symbol,
                market_type,
                prefix,
                Side::Sell,
            ),
            scale,
        ),
    ensures
        ({
            let bought = units_total(
                own_quantities(
                    lots,
                    reservations,
                    exchange,
                    symbol,
                    market_type,
                    prefix,
                    Side::Buy,
                ),
            );
            let sold = units_total(
                own_quantities(
                    lots,
                    reservations,
                    exchange,
                    symbol,
                    market_type,
                    prefix,
                    Side::Sell,
                ),
            );
            &&& side == Side::Sell ==> units(quantity) == bought && sold == 0
            &&& side == Side::Buy ==> units(quantity) == sold && bought == 0
            &&& units(quantity) > 0
        }),
{
    law_totals_add_every_own_lot(
        lots,
        reservations,
        exchange,
        symbol,
        market_type,
        prefix,
        scale,
    );
    let totals = lot_totals(lots, reservations, exchange, symbol, market_type, prefix)->0;
    law_sign_is_that_of_units(totals.buy);
    law_sign_is_that_of_units(totals.sell);
}

/// One more lot of the owner, of the side that a plan closes, raises the
/// plan's quantity by what remains of the lot, whichever side that is.
pub proof fn law_one_more_lot_raises_the_plan(
    lots: Seq<PaperLot>,
    lot: PaperLot,
    reservations: Seq<PaperReservation>,
    exchange: Seq<char>,
    symbol: Seq<char>,
    market_type: MarketType,
    prefix: Seq<char>,
    side: Side,
    quantity: (i128, u32),
)
    requires
        close_plan_of(lot_totals(lots, reservations, exchange, symbol, market_type, prefix))
            == Ok::<_, GridPaperTaskError>(Some((side, quantity))),
        is_own_lot(lot, reservations, exchange, symbol, market_type, prefix),
        lot.side != side,
        representable(quantity),
        representable(lot.remaining_quantity@),
        units(lot.remaining_quantity@) >= 0,
        adds_exactly(quantity, lot.remaining_quantity@),
    ensures
        ({
            let plan = close_plan_of(
                lot_totals(
                    lots.push(lot),
                    reservations,
                    exchange,
                    symbol,
                    market_type,
                    prefix,
                ),
            );
            &&& plan is Ok && plan->Ok_0 is Some
            &&& (plan->Ok_0->0).0 == side
            &&& units((plan->Ok_0->0).1) == units(quantity) + units(lot.remaining_quantity@)
        }),
{
    assert(lots.push(lot).drop_last() =~= lots);
    law_own_lot_comes_from_own_operation(lot, reservations, exchange, symbol, market_type, prefix);
    law_sum_adds(quantity, lot.remaining_quantity@);
    let sum = sum_of(quantity, lot.remaining_quantity@)->0;
    law_sign_is_that_of_units(quantity);
    law_sign_is_that_of_units(sum);
}

/// The first lot of an owner is closed by an order of the other side, over
/// what remains of it.
pub proof fn law_single_lot_is_closed_by_the_other_side(
    lot: PaperLot,
    reservations: Seq<PaperReservation>,
    exchange: Seq<char>,
    symbol: Seq<char>,
    market_type: MarketType,
    prefix: Seq<char>,
)
    requires
        is_own_lot(lot, reservations, exchange, symbol, market_type, prefix),
        units(lot.remaining_quantity@) > 0,
    ensures
        close_plan_of(lot_totals(seq![lot], reservations, exchange, symbol, market_type, prefix))
            == Ok::<_, GridPaperTaskError>(
            Some(
                (
                    if lot.side == Side::Buy {
                        Side::Sell
                    } else {
                        Side::Buy
                    },
                    lot.remaining_quantity@,
                ),
            ),
        ),
{
    let lots = seq![lot];
    reveal_with_fuel(lot_totals, 2);
    assert(lots.last() == lot);
    assert(lots.drop_last() =~= Seq::<PaperLot>::empty());
    law_own_lot_comes_from_own_operation(lot, reservations, exchange, symbol, market_type, prefix);
    law_sign_is_that_of_units(lot.remaining_quantity@);
}

/// A lot of another instrument leaves the plan as it is; a lot of somebody
/// else in the instrument, and one of the owner on the other side, leave no
/// plan.
pub proof fn law_other_lots_never_change_the_quantity(
    lots: Seq<PaperLot>,
    lot: PaperLot,
    reservations: Seq<PaperReservation>,
    exchange: Seq<char>,
    symbol: Seq<char>,
    market_type: MarketType,
    prefix: Seq<char>,
    side: Side,
    quantity: (i128, u32),
)
    requires
        close_plan_of(lot_totals(lots, reservations, exchange, symbol, market_type, prefix))
            == Ok::<_, GridPaperTaskError>(Some((side, quantity))),
    ensures
        ({
            let plan = close_plan_of(
                lot_totals(
                    lots.push(lot),
                    reservations,
                    exchange,
                    symbol,
                    market_type,
                    prefix,
                ),
            );
            let elsewhere = lot.exchange@ != exchange || lot.symbol@ != symbol || lot.market_type
                != market_type;
            &&& elsewhere ==> plan == Ok::<_, GridPaperTaskError>(Some((side, quantity)))
            &&& !elsewhere && !is_own_lot(
                lot,
                reservations,
                exchange,
                symbol,
                market_type,
                prefix,
            ) ==> plan == Err::<Option<(Side, (i128, u32))>, _>(
                GridPaperTaskError::RecoveryRequired,
            )
        }),
{
    assert(lots.push(lot).drop_last() =~= lots);
    law_own_lot_comes_from_own_operation(lot, reservations, exchange, symbol, market_type, prefix);
}

/// Lots of the owner on both sides leave nothing to close.
pub proof fn law_lots_on_both_sides_need_recovery(
    lots: Seq<PaperLot>,
    lot: PaperLot,
    reservations: Seq<PaperReservation>,
    exchange: Seq<char>,
    symbol: Seq<char>,
    market_type: MarketType,
    prefix: Seq<char>,
    scale: u32,
    side: Side,
    quantity: (i128, u32),
)
    requires
        close_plan_of(lot_totals(lots, reservations, exchange, symbol, market_type, prefix))
            == Ok::<_, GridPaperTaskError>(Some((side, quantity))),
        add_up_at(
            own_quantities(
                lots,
                reservations,
                exchange,
                symbol,
                market_type,
                prefix,
                Side::Buy,
            ),
            scale,
        ),
        add_up_at(
            own_quantities(
                lots,
                reservations,
                exchange,
                symbol,
                market_type,
                prefix,
                Side::Sell,
            ),
            scale,
        ),
        is_own_lot(lot, reservations, exchange, symbol, market_type, prefix),
        lot.side == side,
        units(lot.remaining_quantity@) > 0,
    ensures
        close_plan_of(
            lot_totals(lots.push(lot), reservations, exchange, symbol, market_type, prefix),
        ) == Err::<Option<(Side, (i128, u32))>, _>(GridPaperTaskError::RecoveryRequired),
{
    assert(lots.push(lot).drop_last() =~= lots);
    law_own_lot_comes_from_own_operation(lot, reservations, exchange, symbol, market_type, prefix);
    law_totals_add_every_own_lot(
        lots,
        reservations,
        exchange,
        symbol,
        market_type,
        prefix,
        scale,
    );
    law_close_plan_closes_every_own_lot(
        lots,
        reservations,
        exchange,
        symbol,
        market_type,
        prefix,
        scale,
        side,
        quantity,
    );
    let totals = lot_totals(lots, reservations, exchange, symbol, market_type, prefix)->0;
    law_sign_is_that_of_units(totals.buy);
    law_sign_is_that_of_units(totals.sell);
    law_sign_is_that_of_units(lot.remaining_quantity@);
}

/// The lot stands in this instrument and is not the owner's.
pub open spec fn is_foreign_lot(
    lot: PaperLot,
    reservations: Seq<PaperReservation>,
    exchange: Seq<char>,
    symbol: Seq<char>,
    market_type: MarketType,
    prefix: Seq<char>,
) -> bool {
    lot.exchange@ == exchange && lot.symbol@ == symbol && lot.market_type == market_type
        && !is_own_lot(lot, reservations, exchange, symbol, market_type, prefix)
}

/// A lot of somebody else in the instrument is seen exactly where there is
/// one, while every lot in the instrument has a known origin.
pub proof fn law_foreign_lot_is_seen(
    lots: Seq<PaperLot>,
    reservations: Seq<PaperReservation>,
    exchange: Seq<char>,
    symbol: Seq<char>,
    market_type: MarketType,
    prefix: Seq<char>,
)
    requires
        forall|i: int|
            0 <= i < lots.len() && in_target(#[trigger] lots[i], exchange, symbol, market_type)
                ==> sole_reservation(reservations, lots[i].source_reservation_id) is Some,
    ensures
        foreign_lot_of(lots, reservations, exchange, symbol, market_type, prefix) == Some(
            exists|i: int|
                0 <= i < lots.len() && is_foreign_lot(
                    #[trigger] lots[i],
                    reservations,
                    exchange,
                    symbol,
                    market_type,
                    prefix,
                ),
        ),
    decreases lots.len(),
{
    if lots.len() > 0 {
        let rest = lots.skip(1);
        assert forall|i: int|
            0 <= i < rest.len() && in_target(
                #[trigger] rest[i],
                exchange,
                symbol,
                market_type,
            ) implies sole_reservation(reservations, rest[i].source_reservation_id) is Some by {
            assert(rest[i] == lots[i + 1]);
        }
        law_foreign_lot_is_seen(rest, reservations, exchange, symbol, market_type, prefix);
        law_own_lot_comes_from_own_operation(
            lots[0],
            reservations,
            exchange,
            symbol,
            market_type,
            prefix,
        );
        let seen = exists|i: int|
            0 <= i < rest.len() && is_foreign_lot(
                #[trigger] rest[i],
                reservations,
                exchange,
                symbol,
                market_type,
                prefix,
            );
        if seen {
            let i = choose|i: int|
                0 <= i < rest.len() && is_foreign_lot(
                    #[trigger] rest[i],
                    reservations,
                    exchange,
                    symbol,
                    market_type,
                    prefix,
                );
            assert(lots[i + 1] == rest[i]);
        }
        assert forall|i: int|
            0 < i < lots.len() && is_foreign_lot(
                #[trigger] lots[i],
                reservations,
                exchange,
                symbol,
                market_type,
                prefix,
            ) implies seen by {
            assert(rest[i - 1] == lots[i]);
        }
    }
}

/// A risk exit is priced where it can be filled: a sale at the best bid, a
/// purchase at the best ask, over all that the plan closes.
pub proof fn law_risk_exit_takes_the_other_side(
    snapshot: PaperAccountSnapshot,
    config: GridPaperTaskConfig,
    symbol: Seq<char>,
    market: MarketSnapshot,
)
    requires
        risk_exit_of(snapshot, config, symbol, Some(market)) is Ok,
        risk_exit_of(snapshot, config, symbol, Some(market))->Ok_0 is Some,
    ensures
        ({
            let (side, quantity, price) = risk_exit_of(
                snapshot,
                config,
                symbol,
                Some(market),
            )->Ok_0->0;
            &&& side == Side::Sell ==> price == market.bid
            &&& side == Side::Buy ==> price == market.ask
            &&& account_close_plan(snapshot, config, symbol) == Ok::<_, GridPaperTaskError>(
                Some((side, quantity)),
            )
            &&& forall|i: int|
                0 <= i < snapshot.reservations@.len() ==> (#[trigger] snapshot.reservations@[i]).phase
                    != PaperReservationPhase::Pending && snapshot.reservations@[i].phase
                    != PaperReservationPhase::Uncertain
        }),
{
}

/// A reservation is priced at no less than the level that was crossed and at
/// no less than the price the order would be filled at, and at one of the two.
pub proof fn law_reservation_price_covers_both(
    snapshot: MarketSnapshot,
    event: MarketDataEvent,
    side: Side,
    trigger_price: crate::decimal::Decimal,
)
    requires
        event is Observation,
        event->Observation_snapshot == snapshot,
        representable(trigger_price@),
        representable(snapshot.bid@),
        representable(snapshot.ask@),
    ensures
        ({
            let price = reservation_price_of(event, side, trigger_price);
            let fill = if side == Side::Buy {
                snapshot.ask
            } else {
                snapshot.bid
            };
            &&& units(price@) >= units(trigger_price@)
            &&& units(price@) >= units(fill@)
            &&& price == trigger_price || price == fill
        }),
{
    law_order_is_that_of_units(trigger_price@, snapshot.ask@);
    law_order_is_that_of_units(trigger_price@, snapshot.bid@);
}

/// The directive that counts is the first that demands something of the task.
pub proof fn law_first_demand_counts(
    directives: Seq<crate::paper_grid_task::AccountRiskDirective>,
    task_id: Seq<char>,
    i: int,
)
    requires
        0 <= i < directives.len(),
        demand_of(directives[i], task_id) is Some,
        forall|j: int| 0 <= j < i ==> demand_of(#[trigger] directives[j], task_id) is None,
    ensures
        first_demand(directives, task_id) == demand_of(directives[i], task_id),
    decreases i,
{
    if i > 0 {
        let rest = directives.skip(1);
        assert(rest[i - 1] == directives[i]);
        assert forall|j: int| 0 <= j < i - 1 implies demand_of(#[trigger] rest[j], task_id)
            is None by {
            assert(rest[j] == directives[j + 1]);
        }
        assert(demand_of(directives[0], task_id) is None);
        law_first_demand_counts(rest, task_id, i - 1);
    }
}

/// A directive to close everything concerns every task; one to close a
/// position concerns the task that it names, and no other.
pub proof fn law_directive_concerns_its_own_task(
    directive: crate::paper_grid_task::AccountRiskDirective,
    task_id: Seq<char>,
    other_id: Seq<char>,
)
    requires
        task_id != other_id,
    ensures
        directive is CloseAllPositions ==> demand_of(directive, task_id) is Some && demand_of(
            directive,
            task_id,
        ) == demand_of(directive, other_id),
        directive is ClosePosition ==> demand_of(directive, task_id) is None || demand_of(
            directive,
            other_id,
        ) is None,
        directive is ClosePosition && directive->ClosePosition_task_id@ == task_id ==> demand_of(
            directive,
            task_id,
        ) is Some,
{
}

/// A position that has to be sold is held, one that has to be bought is owed:
/// the signed quantity is the plan's, and its opposite.
pub proof fn law_position_is_signed_by_its_plan(side: Side, quantity: (i128, u32))
    requires
        representable(quantity),
    ensures
        position_of(None) == Some((0i128, 0u32)),
        position_of(Some((side, quantity))) is Some,
        side == Side::Sell ==> units(position_of(Some((side, quantity)))->0) == units(quantity),
        side == Side::Buy ==> units(position_of(Some((side, quantity)))->0) == -units(quantity),
{
    let zero = (0i128, 0u32);
    law_sign_is_that_of_units(zero);
    law_difference_subtracts(zero, quantity);
}

/// Where nothing is rounded, four numbers add up to their sum.
pub proof fn law_four_numbers_add_up(
    a: (i128, u32),
    b: (i128, u32),
    c: (i128, u32),
    d: (i128, u32),
)
    requires
        representable(a) && representable(b) && representable(c) && representable(d),
        adds_exactly(a, b),
        adds_exactly(sum_of(a, b)->0, c),
        adds_exactly(sum_of(sum_of(a, b)->0, c)->0, d),
    ensures
        sum_of_four(a, b, c, d) is Some,
        units(sum_of_four(a, b, c, d)->0) == units(a) + units(b) + units(c) + units(d),
{
    law_sum_adds(a, b);
    law_sum_adds(sum_of(a, b)->0, c);
    law_sum_adds(sum_of(sum_of(a, b)->0, c)->0, d);
}

/// The pending operations are the owner's own reservations in that phase, all
/// of them and in order.
pub proof fn law_pending_operations_are_the_owners(
    reservations: Seq<PaperReservation>,
    next: PaperReservation,
    prefix: Seq<char>,
)
    ensures
        pending_ids(Ownership::Digits, Seq::empty(), prefix).len() == 0,
        pending_ids(Ownership::Digits, reservations.push(next), prefix) == if belongs_to(
            next.task_id@,
            prefix,
        ) && next.phase == PaperReservationPhase::Pending {
            pending_ids(Ownership::Digits, reservations, prefix).push(next.reservation_id)
        } else {
            pending_ids(Ownership::Digits, reservations, prefix)
        },
{
    assert(reservations.push(next).drop_last() =~= reservations);
}

/// An operation reserves its price times its quantity, for the one order that
/// it places.
pub proof fn law_operation_reserves_price_times_quantity(
    request: PaperSingleLegRequest,
    config: GridPaperTaskConfig,
    symbol: Seq<char>,
    kind: Seq<char>,
    side: Side,
    quantity: crate::decimal::Decimal,
    price: crate::decimal::Decimal,
    reduce_only: bool,
    operation_sequence: u64,
    ids: FreshIds,
)
    requires
        is_priced_operation(
            request,
            config,
            symbol,
            kind,
            side,
            quantity,
            price,
            reduce_only,
            operation_sequence,
            ids,
        ),
        representable(quantity@),
        representable(price@),
        multiplies_exactly(price@, quantity@),
    ensures
        ({
            let intent = request.batch_view().intents@[0];
            let leg = request.reservation_view().legs@[0];
            &&& units(leg.notional@) * unit_count() == units(price@) * units(quantity@)
            &&& intent.side == side && leg.side == side
            &&& intent.quantity == quantity
            &&& intent.price == Some(price)
            &&& intent.symbol@ == symbol && leg.symbol@ == symbol
            &&& leg.exchange@ == intent.exchange@
            &&& intent.reduce_only == reduce_only
        }),
{
    law_product_multiplies(price@, quantity@);
}

/// One more leg raises the gross of a reservation by its notional.
pub proof fn law_gross_grows_by_each_leg(
    legs: Seq<PaperReservationLeg>,
    next: PaperReservationLeg,
)
    requires
        gross_of(legs) is Some,
        representable(gross_of(legs)->0),
        representable(next.notional@),
        adds_exactly(gross_of(legs)->0, next.notional@),
    ensures
        gross_of(Seq::empty()) == Some((0i128, 0u32)),
        gross_of(legs.push(next)) is Some,
        units(gross_of(legs.push(next))->0) == units(gross_of(legs)->0) + units(next.notional@),
{
    assert(legs.push(next).drop_last() =~= legs);
    law_sum_adds(gross_of(legs)->0, next.notional@);
}

} // verus!
