//! What the books of two markets have to hold for a batch of orders, and what
//! opening and closing a pair does to them.

use crate::arbitrage_plan::{are_positions, buy_market, closes_position};
use crate::arbitrage_plan::{crosses_book, execution_price_of, liquidity_flaw, market_for};
use crate::arbitrage_plan::{notional_of, operation_flaw, order_flaw, orders_flaw};
use crate::arbitrage_plan::{queue_is_deep_enough, queue_total, same_queue, sell_market, spread_of};
use crate::arbitrage_account::{account_is_settled, is_isolated};
use crate::arbitrage_plan::{asks_about, is_forced_close, is_pair_operation, preparation_flaw};
use crate::arbitrage_plan::{total_notional, ArbitrageState, ForcedClosePlan, ObservedMarketPair};
use crate::arbitrage_plan::RiskQuestion;
use crate::decimal::{difference_of, product_of, quotient_of, representable};
use crate::domain::{mid_of, MarketSnapshot, OrderIntent, OrderType, Position};
use crate::domain::{PositionSide, Side};
use crate::number_laws::{add_up_at, adds_exactly, divides_exactly, law_difference_subtracts};
use crate::number_laws::{law_order_is_that_of_units, law_product_multiplies, law_quotient_divides};
use crate::number_laws::{law_sign_is_that_of_units, law_sum_adds, law_sum_at_a_scale_adds};
use crate::number_laws::{lemma_add_up_at_parts, multiplies_exactly, subtracts_exactly, unit_count};
use crate::number_laws::{units, units_total};
use crate::operations::prefix_of;
use crate::paper_account::PaperAccountSnapshot;
use crate::paper_arbitrage_saga::PaperArbitrageRequest;
use crate::paper_arbitrage_task::ArbitragePaperTaskError;
use crate::requests::{FreshIds, PaperCostModel};
use vstd::prelude::*;

verus! {

/// The order names this market.
pub open spec fn trades_on(intent: OrderIntent, market: MarketSnapshot) -> bool {
    market.exchange@ == intent.exchange@ && market.symbol@ == intent.symbol@ && market.market_type
        == intent.market_type
}

/// The market of the pair that an order trades on: the left one where it names
/// that, else the right one.
pub open spec fn is_traded_market(
    pair: ObservedMarketPair,
    intent: OrderIntent,
    market: MarketSnapshot,
) -> bool {
    ||| market == pair.left && trades_on(intent, pair.left)
    ||| market == pair.right && trades_on(intent, pair.right) && !trades_on(intent, pair.left)
}

/// The quantities of all orders of one side on one market.
pub open spec fn quantities_on(
    intents: Seq<OrderIntent>,
    market: MarketSnapshot,
    side: Side,
) -> Seq<(i128, u32)>
    decreases intents.len(),
{
    if intents.len() == 0 {
        Seq::empty()
    } else {
        let before = quantities_on(intents.drop_last(), market, side);
        if trades_on(intents.last(), market) && intents.last().side == side {
            before.push(intents.last().quantity@)
        } else {
            before
        }
    }
}

/// The quantity that the best level of the book offers to an order of this
/// side: a buy takes from the asks, a sell from the bids.
pub open spec fn offered_to(side: Side, market: MarketSnapshot, quantity: int) -> bool {
    match side {
        Side::Buy => market.ask_quantity is Some && units(market.ask_quantity->0@) == quantity,
        Side::Sell => market.bid_quantity is Some && units(market.bid_quantity->0@) == quantity,
    }
}

/// The order takes what stands in the book: it names no price, or one that
/// reaches the best price of the other side.
pub open spec fn takes_from_book(intent: OrderIntent, market: MarketSnapshot) -> bool {
    intent.order_type == OrderType::Market || (intent.price is Some && match intent.side {
        Side::Buy => units(intent.price->0@) >= units(market.ask@),
        Side::Sell => units(intent.price->0@) <= units(market.bid@),
    })
}

/// The numbers that the orders and the books name are decimals.
pub open spec fn is_numbered(market: MarketSnapshot) -> bool {
    &&& representable(market.bid@)
    &&& representable(market.ask@)
    &&& market.bid_quantity is Some ==> representable(market.bid_quantity->0@)
    &&& market.ask_quantity is Some ==> representable(market.ask_quantity->0@)
}

/// The total that one order's queue needs is the sum of the quantities of all
/// orders of its side on its market.
pub proof fn law_queue_total_adds_every_order(
    intents: Seq<OrderIntent>,
    of: OrderIntent,
    market: MarketSnapshot,
    scale: u32,
)
    requires
        trades_on(of, market),
        add_up_at(quantities_on(intents, market, of.side), scale),
    ensures
        queue_total(intents, of) is Some,
        representable(queue_total(intents, of)->0),
        (queue_total(intents, of)->0).0 >= 0,
        (queue_total(intents, of)->0).1 <= scale,
        units(queue_total(intents, of)->0) == units_total(quantities_on(intents, market, of.side)),
    decreases intents.len(),
{
    if intents.len() == 0 {
        law_sign_is_that_of_units((0i128, 0u32));
    } else {
        let numbers = quantities_on(intents, market, of.side);
        let before = quantities_on(intents.drop_last(), market, of.side);
        if same_queue(intents.last(), of) {
            assert(numbers.drop_last() =~= before);
            assert(numbers.last() == numbers[numbers.len() - 1]);
            lemma_add_up_at_parts(numbers, scale);
            law_queue_total_adds_every_order(intents.drop_last(), of, market, scale);
            law_sum_at_a_scale_adds(
                queue_total(intents.drop_last(), of)->0,
                intents.last().quantity@,
                scale,
            );
        } else {
            law_queue_total_adds_every_order(intents.drop_last(), of, market, scale);
        }
    }
}

/// Accepted orders have no flaw at any of their positions.
proof fn lemma_no_flaw_at(pair: ObservedMarketPair, intents: Seq<OrderIntent>, i: int)
    requires
        orders_flaw(pair, intents) is None,
        0 <= i < intents.len(),
    ensures
        order_flaw(pair, intents.take(i + 1)) is None,
    decreases intents.len(),
{
    if i == intents.len() - 1 {
        assert(intents.take(i + 1) =~= intents);
    } else {
        lemma_no_flaw_at(pair, intents.drop_last(), i);
        assert(intents.drop_last().take(i + 1) =~= intents.take(i + 1));
    }
}

/// Orders without a flaw at any position have none.
proof fn lemma_no_flaw(pair: ObservedMarketPair, intents: Seq<OrderIntent>)
    requires
        forall|i: int|
            0 <= i < intents.len() ==> order_flaw(pair, #[trigger] intents.take(i + 1)) is None,
    ensures
        orders_flaw(pair, intents) is None,
    decreases intents.len(),
{
    if intents.len() > 0 {
        let before = intents.drop_last();
        assert forall|i: int| 0 <= i < before.len() implies order_flaw(
            pair,
            #[trigger] before.take(i + 1),
        ) is None by {
            assert(before.take(i + 1) =~= intents.take(i + 1));
        }
        lemma_no_flaw(pair, before);
        assert(intents.take(intents.len() - 1 + 1) =~= intents);
    }
}

/// Where the orders are accepted, the quantities of all buys on one market add
/// up to no more than the quantity at its best ask, and those of all sells to
/// no more than the quantity at its best bid.
pub proof fn law_accepted_orders_fit_the_book(
    pair: ObservedMarketPair,
    intents: Seq<OrderIntent>,
    i: int,
    market: MarketSnapshot,
    scale: u32,
)
    requires
        liquidity_flaw(pair, intents) is None,
        0 <= i < intents.len(),
        is_traded_market(pair, intents[i], market),
        is_numbered(market),
        add_up_at(quantities_on(intents, market, intents[i].side), scale),
    ensures
        intents[i].side == Side::Buy ==> market.ask_quantity is Some && units_total(
            quantities_on(intents, market, Side::Buy),
        ) <= units(market.ask_quantity->0@),
        intents[i].side == Side::Sell ==> market.bid_quantity is Some && units_total(
            quantities_on(intents, market, Side::Sell),
        ) <= units(market.bid_quantity->0@),
{
    let intent = intents[i];
    assert(queue_is_deep_enough(pair, intents, intents[i]));
    law_queue_total_adds_every_order(intents, intent, market, scale);
    let needed = queue_total(intents, intent)->0;
    if intent.side == Side::Buy {
        law_order_is_that_of_units(market.ask_quantity->0@, needed);
    } else {
        law_order_is_that_of_units(market.bid_quantity->0@, needed);
    }
}

/// Where the orders are accepted, each of them trades on a market of the pair
/// and reaches the best price of the other side.
pub proof fn law_accepted_orders_take_from_the_book(
    pair: ObservedMarketPair,
    intents: Seq<OrderIntent>,
    i: int,
)
    requires
        liquidity_flaw(pair, intents) is None,
        0 <= i < intents.len(),
        is_numbered(pair.left),
        is_numbered(pair.right),
        intents[i].price is Some ==> representable(intents[i].price->0@),
    ensures
        trades_on(intents[i], pair.left) || trades_on(intents[i], pair.right),
        trades_on(intents[i], pair.left) ==> takes_from_book(intents[i], pair.left),
        !trades_on(intents[i], pair.left) ==> takes_from_book(intents[i], pair.right),
{
    lemma_no_flaw_at(pair, intents, i);
    assert(intents.take(i + 1).last() == intents[i]);
    let market = market_for(pair, intents[i])->0;
    if intents[i].price is Some {
        law_order_is_that_of_units(intents[i].price->0@, market.ask@);
        law_order_is_that_of_units(market.bid@, intents[i].price->0@);
    }
}

/// Every order trades on a market of the pair, takes from its book, and finds
/// its side of the book deep enough for all orders of its queue.
pub open spec fn book_fills_all(
    pair: ObservedMarketPair,
    intents: Seq<OrderIntent>,
    markets: Seq<MarketSnapshot>,
    depths: Seq<int>,
    scales: Seq<u32>,
) -> bool {
    &&& markets.len() == intents.len()
    &&& depths.len() == intents.len()
    &&& scales.len() == intents.len()
    &&& forall|i: int| #![trigger intents[i]]
        0 <= i < intents.len() ==> {
            &&& is_traded_market(pair, intents[i], markets[i])
            &&& is_numbered(markets[i])
            &&& intents[i].price is Some ==> representable(intents[i].price->0@)
            &&& takes_from_book(intents[i], markets[i])
            &&& offered_to(intents[i].side, markets[i], depths[i])
            &&& add_up_at(quantities_on(intents, markets[i], intents[i].side), scales[i])
            &&& units_total(quantities_on(intents, markets[i], intents[i].side)) <= depths[i]
        }
}

/// The quantities of the first orders are a part of those of all orders.
proof fn lemma_quantities_of_first(
    intents: Seq<OrderIntent>,
    market: MarketSnapshot,
    side: Side,
    n: int,
    scale: u32,
)
    requires
        0 <= n <= intents.len(),
        add_up_at(quantities_on(intents, market, side), scale),
    ensures
        add_up_at(quantities_on(intents.take(n), market, side), scale),
    decreases intents.len(),
{
    if n == intents.len() {
        assert(intents.take(n) =~= intents);
    } else {
        let numbers = quantities_on(intents, market, side);
        let before = quantities_on(intents.drop_last(), market, side);
        if trades_on(intents.last(), market) && intents.last().side == side {
            assert(numbers.drop_last() =~= before);
            lemma_add_up_at_parts(numbers, scale);
        }
        lemma_quantities_of_first(intents.drop_last(), market, side, n, scale);
        assert(intents.drop_last().take(n) =~= intents.take(n));
    }
}

/// Orders that take from the book, within the quantities that it offers, are
/// accepted.
pub proof fn law_orders_within_the_book_are_accepted(
    pair: ObservedMarketPair,
    intents: Seq<OrderIntent>,
    markets: Seq<MarketSnapshot>,
    depths: Seq<int>,
    scales: Seq<u32>,
)
    requires
        book_fills_all(pair, intents, markets, depths, scales),
        forall|i: int|
            0 <= i < intents.len() ==> (#[trigger] intents[i]).order_type == OrderType::Market
                || intents[i].order_type == OrderType::Limit,
    ensures
        liquidity_flaw(pair, intents) is None,
{
    assert forall|i: int| 0 <= i < intents.len() implies order_flaw(
        pair,
        #[trigger] intents.take(i + 1),
    ) is None by {
        let first = intents.take(i + 1);
        let intent = intents[i];
        let market = markets[i];
        assert(first.last() == intent);
        lemma_quantities_of_first(intents, market, intent.side, i + 1, scales[i]);
        law_queue_total_adds_every_order(first, intent, market, scales[i]);
        if intent.price is Some {
            law_order_is_that_of_units(intent.price->0@, market.ask@);
            law_order_is_that_of_units(market.bid@, intent.price->0@);
        }
    }
    lemma_no_flaw(pair, intents);
    assert forall|i: int| 0 <= i < intents.len() implies #[trigger] queue_is_deep_enough(
        pair,
        intents,
        intents[i],
    ) by {
        let intent = intents[i];
        let market = markets[i];
        law_queue_total_adds_every_order(intents, intent, market, scales[i]);
        let needed = queue_total(intents, intent)->0;
        if intent.side == Side::Buy {
            law_order_is_that_of_units(market.ask_quantity->0@, needed);
        } else {
            law_order_is_that_of_units(market.bid_quantity->0@, needed);
        }
    }
}

/// Orders that the book cannot fill are refused for want of liquidity, where
/// nothing else is wrong with them.
pub proof fn law_orders_beyond_the_book_are_rejected(
    pair: ObservedMarketPair,
    intents: Seq<OrderIntent>,
    i: int,
    market: MarketSnapshot,
    depth: int,
    scale: u32,
)
    requires
        orders_flaw(pair, intents) is None,
        0 <= i < intents.len(),
        is_traded_market(pair, intents[i], market),
        is_numbered(market),
        offered_to(intents[i].side, market, depth),
        add_up_at(quantities_on(intents, market, intents[i].side), scale),
        units_total(quantities_on(intents, market, intents[i].side)) > depth,
    ensures
        liquidity_flaw(pair, intents) == Some(ArbitragePaperTaskError::LiquidityRejected),
{
    let intent = intents[i];
    law_queue_total_adds_every_order(intents, intent, market, scale);
    let needed = queue_total(intents, intent)->0;
    if intent.side == Side::Buy {
        law_order_is_that_of_units(market.ask_quantity->0@, needed);
    } else {
        law_order_is_that_of_units(market.bid_quantity->0@, needed);
    }
    assert(!queue_is_deep_enough(pair, intents, intents[i]));
}

/// The price of an order is the one it names; without one, a buy pays the best
/// ask and a sell gets the best bid.
pub proof fn law_order_without_price_takes_the_other_side(
    intent: OrderIntent,
    market: MarketSnapshot,
)
    ensures
        intent.price is Some ==> execution_price_of(intent, market) == intent.price->0,
        intent.price is None && intent.side == Side::Buy ==> execution_price_of(intent, market)
            == market.ask,
        intent.price is None && intent.side == Side::Sell ==> execution_price_of(intent, market)
            == market.bid,
{
}

/// A notional is the price of the order times its quantity.
pub proof fn law_notional_is_price_times_quantity(
    pair: ObservedMarketPair,
    intent: OrderIntent,
    market: MarketSnapshot,
)
    requires
        is_traded_market(pair, intent, market),
        representable(intent.quantity@),
        representable(execution_price_of(intent, market)@),
        multiplies_exactly(execution_price_of(intent, market)@, intent.quantity@),
    ensures
        notional_of(pair, intent) is Some,
        representable(notional_of(pair, intent)->0),
        units(notional_of(pair, intent)->0) * unit_count() == units(
            execution_price_of(intent, market)@,
        ) * units(intent.quantity@),
{
    law_product_multiplies(execution_price_of(intent, market)@, intent.quantity@);
}

/// One more order raises the total notional by its own notional.
pub proof fn law_total_notional_grows_by_each_order(
    pair: ObservedMarketPair,
    intents: Seq<OrderIntent>,
    next: OrderIntent,
)
    requires
        total_notional(pair, intents) is Some,
        notional_of(pair, next) is Some,
        representable(total_notional(pair, intents)->0),
        representable(notional_of(pair, next)->0),
        adds_exactly(total_notional(pair, intents)->0, notional_of(pair, next)->0),
    ensures
        total_notional(pair, Seq::empty()) == Some((0i128, 0u32)),
        total_notional(pair, intents.push(next)) is Some,
        units(total_notional(pair, intents.push(next))->0) == units(
            total_notional(pair, intents)->0,
        ) + units(notional_of(pair, next)->0),
{
    assert(intents.push(next).drop_last() =~= intents);
    law_sum_adds(total_notional(pair, intents)->0, notional_of(pair, next)->0);
}

/// Closing a pair sells what was bought where it was bought, buys back what
/// was sold where it was sold, and each order takes from the book it is priced
/// by.
pub proof fn law_closing_orders_undo_the_pair(
    intents: Seq<OrderIntent>,
    state: ArbitrageState,
    pair: ObservedMarketPair,
    buy_order_id: u128,
    sell_order_id: u128,
)
    requires
        closes_position(intents, state, pair, buy_order_id, sell_order_id),
        state.direction is Some,
        buy_market(state.direction->0, pair) is Some,
        sell_market(state.direction->0, pair) is Some,
    ensures
        intents.len() == 2,
        ({
            let direction = state.direction->0;
            &&& intents[0].exchange@ == direction.sell_exchange@
            &&& intents[0].symbol@ == direction.sell_symbol@
            &&& intents[0].market_type == direction.sell_market_type
            &&& intents[0].side == Side::Buy
            &&& intents[1].exchange@ == direction.buy_exchange@
            &&& intents[1].symbol@ == direction.buy_symbol@
            &&& intents[1].market_type == direction.buy_market_type
            &&& intents[1].side == Side::Sell
        }),
        intents[0].quantity == state.position_quantity,
        intents[1].quantity == state.position_quantity,
        intents[0].reduce_only && intents[1].reduce_only,
        crosses_book(intents[0], sell_market(state.direction->0, pair)->0) == Some(true),
        crosses_book(intents[1], buy_market(state.direction->0, pair)->0) == Some(true),
{
}

/// A pair in the book is held long where it was bought and short where it was
/// sold, with one quantity, each marked at its own market's middle.
pub proof fn law_positions_mirror_the_pair(
    positions: Seq<Position>,
    state: ArbitrageState,
    pair: ObservedMarketPair,
)
    requires
        are_positions(positions, state, pair),
        state.position_quantity@.0 != 0,
        state.direction is Some,
    ensures
        positions.len() == 2,
        positions[0].side == PositionSide::Long,
        positions[0].exchange@ == state.direction->0.buy_exchange@,
        positions[1].side == PositionSide::Short,
        positions[1].exchange@ == state.direction->0.sell_exchange@,
        positions[0].quantity == positions[1].quantity,
        positions[0].quantity == state.position_quantity,
        forall|i: int| 0 <= i < 2 ==> {
            let position = #[trigger] positions[i];
            (position.mark_price == Some(pair.left.mid_price) && pair.left.exchange@
                == position.exchange@ && pair.left.symbol@ == position.symbol@) || (
            position.mark_price == Some(pair.right.mid_price) && pair.right.exchange@
                == position.exchange@ && pair.right.symbol@ == position.symbol@)
        },
{
}

/// The spread of a pair is what a sale at the one market brings beyond what
/// the purchase at the other costs; its percentage is taken of that cost.
pub proof fn law_spread_is_sale_less_cost(bought: MarketSnapshot, sold: MarketSnapshot)
    requires
        representable(bought.ask@),
        representable(sold.bid@),
        subtracts_exactly(sold.bid@, bought.ask@),
        divides_exactly(difference_of(sold.bid@, bought.ask@)->0, bought.ask@),
        representable(
            quotient_of(difference_of(sold.bid@, bought.ask@)->0, bought.ask@)->0,
        ),
        multiplies_exactly(
            quotient_of(difference_of(sold.bid@, bought.ask@)->0, bought.ask@)->0,
            (100i128, 0u32),
        ),
    ensures
        spread_of(bought, sold) is Some,
        units((spread_of(bought, sold)->0).0) == units(sold.bid@) - units(bought.ask@),
        units((spread_of(bought, sold)->0).1) * units(bought.ask@) == 100 * unit_count() * (units(
            sold.bid@,
        ) - units(bought.ask@)),
{
    law_difference_subtracts(sold.bid@, bought.ask@);
    let absolute = difference_of(sold.bid@, bought.ask@)->0;
    law_quotient_divides(absolute, bought.ask@);
    let share = quotient_of(absolute, bought.ask@)->0;
    let hundred = (100i128, 0u32);
    law_product_multiplies(share, hundred);
    let percent = product_of(share, hundred)->0;
    let (u, w, s, a, d) = (
        units(percent),
        unit_count(),
        units(share),
        units(bought.ask@),
        units(absolute),
    );
    assert(units(hundred) == 100 * w);
    crate::decimal::lemma_pow10_positive(28);
    assert(u == 100 * s) by (nonlinear_arith)
        requires
            u * w == s * (100 * w),
            w >= 1,
    ;
    assert(u * a == 100 * w * d) by (nonlinear_arith)
        requires
            u == 100 * s,
            s * a == d * w,
    ;
}

/// The middle of a book is as far from its bid as from its ask.
pub proof fn law_middle_is_half_way(market: MarketSnapshot, mid: (i128, u32))
    requires
        representable(market.bid@),
        representable(market.ask@),
        adds_exactly(market.bid@, market.ask@),
        mid_of(market.bid, market.ask) == Some(mid),
        divides_exactly(crate::decimal::sum_of(market.bid@, market.ask@)->0, (2i128, 0u32)),
    ensures
        units(mid) - units(market.bid@) == units(market.ask@) - units(mid),
        units(market.bid@) <= units(market.ask@) ==> units(market.bid@) <= units(mid) <= units(
            market.ask@,
        ),
{
    law_sum_adds(market.bid@, market.ask@);
    let sum = crate::decimal::sum_of(market.bid@, market.ask@)->0;
    let two = (2i128, 0u32);
    law_quotient_divides(sum, two);
    let w = unit_count();
    assert(units(two) == 2 * w);
    crate::decimal::lemma_pow10_positive(28);
    let (m, t) = (units(mid), units(sum));
    assert(2 * m == t) by (nonlinear_arith)
        requires
            m * (2 * w) == t * w,
            w >= 1,
    ;
}

/// An operation goes ahead only where the account is settled, the risk gate
/// agreed and the two orders trade one symbol on two venues, one of them
/// buying and the other selling; nothing is accepted that the book cannot
/// fill.
pub proof fn law_accepted_operation_is_a_hedged_pair(
    owner: Seq<char>,
    pair: ObservedMarketPair,
    state: ArbitrageState,
    account: PaperAccountSnapshot,
    intents: Seq<OrderIntent>,
    authorized: bool,
    scope: Option<Seq<char>>,
    ticket: Option<u128>,
)
    requires
        operation_flaw(owner, pair, state, account, intents, authorized, scope, ticket) is None,
    ensures
        authorized,
        intents.len() == 2,
        intents[0].symbol@ == intents[1].symbol@,
        intents[0].exchange@ != intents[1].exchange@,
        intents[0].side == Side::Buy <==> intents[1].side == Side::Sell,
        liquidity_flaw(pair, intents) is None,
        ticket is Some ==> scope is Some,
        notional_of(pair, intents[0]) is Some && notional_of(pair, intents[1]) is Some,
{
}

/// The market that is found for an order is the one that it trades on.
pub proof fn law_found_market_is_the_traded_one(
    pair: ObservedMarketPair,
    intent: OrderIntent,
    market: MarketSnapshot,
)
    ensures
        market_for(pair, intent) == Some(market) <==> is_traded_market(pair, intent, market),
        market_for(pair, intent) is None <==> !trades_on(intent, pair.left) && !trades_on(
            intent,
            pair.right,
        ),
{
}

/// Risk is asked about the account as it stands: its settled equity and what
/// is available, at the time of the pair; about the orders themselves and the
/// two markets that they trade on.
pub proof fn law_risk_is_asked_about_what_stands(
    question: RiskQuestion,
    pair: ObservedMarketPair,
    state: ArbitrageState,
    account: PaperAccountSnapshot,
    intents: Seq<OrderIntent>,
)
    requires
        asks_about(question, pair, state, account, intents),
    ensures
        question.account.equity == account.settled_equity_base,
        question.account.available_balance == account.available,
        !question.account.kill_switch,
        question.account.timestamp == pair.observed_at,
        question.intents@ == intents,
        question.markets@.len() == 2,
        question.markets@[0] == pair.left,
        question.markets@[1] == pair.right,
        question.observed_at == pair.observed_at,
        state.position_quantity@.0 == 0 <==> question.positions@.len() == 0,
{
}

/// A pair operation reserves for each order its own notional, under the number
/// and the identifiers it was given.
pub proof fn law_pair_operation_reserves_each_leg(
    request: PaperArbitrageRequest,
    owner: Seq<char>,
    sequence: u64,
    intents: Seq<OrderIntent>,
    pair: ObservedMarketPair,
    ids: FreshIds,
    cost_model: PaperCostModel,
    scope: Option<Seq<char>>,
    ticket: Option<u128>,
    i: int,
    market: MarketSnapshot,
)
    requires
        is_pair_operation(
            request,
            owner,
            sequence,
            intents,
            pair,
            ids,
            cost_model,
            scope,
            ticket,
        ),
        0 <= i < 2,
        intents.len() == 2,
        is_traded_market(pair, intents[i], market),
        representable(intents[i].quantity@),
        representable(execution_price_of(intents[i], market)@),
        multiplies_exactly(execution_price_of(intents[i], market)@, intents[i].quantity@),
    ensures
        ({
            let leg = request.reservation_view().legs@[i];
            &&& units(leg.notional@) * unit_count() == units(
                execution_price_of(intents[i], market)@,
            ) * units(intents[i].quantity@)
            &&& leg.side == intents[i].side
            &&& leg.exchange@ == intents[i].exchange@
            &&& leg.symbol@ == intents[i].symbol@
            &&& leg.index == i
        }),
        request.batch_view().intents@ == intents,
        request.reservation_view().batch_id == request.batch_view().id,
        request.reservation_view().task_id@ == crate::operations::operation_id_of(owner, sequence),
        request.reservation_view().cost_model == cost_model,
        request.reservation_view().admission is Some <==> scope is Some && ticket is Some,
        request.reservation_view().admission is Some
            ==> request.reservation_view().admission->0.ticket == ticket->0
            && request.reservation_view().admission->0.scope_id@ == scope->0,
{
    law_notional_is_price_times_quantity(pair, intents[i], market);
    assert(i == 0 || i == 1);
}

/// A pair is prepared only on a settled account, as one symbol on two venues,
/// away from the lots of others, with the position it starts from on the
/// observed markets; each refusal says which of these fails, the account's and
/// the lots' as a need for recovery.
pub proof fn law_preparation_refuses_what_it_names(
    owner: Seq<char>,
    pair: ObservedMarketPair,
    state: ArbitrageState,
    account: PaperAccountSnapshot,
    intents: Seq<OrderIntent>,
)
    ensures
        ({
            let flaw = preparation_flaw(owner, pair, state, account, intents);
            let exact = intents.len() == 2 && intents[0].symbol@ == intents[1].symbol@
                && intents[0].exchange@ != intents[1].exchange@;
            &&& flaw is None ==> account_is_settled(account) && exact && is_isolated(
                account,
                prefix_of(owner),
                intents,
            )
            &&& !account_is_settled(account) ==> flaw == Some(
                ArbitragePaperTaskError::RecoveryRequired,
            )
            &&& account_is_settled(account) && !exact ==> flaw == Some(
                ArbitragePaperTaskError::InvalidRequest,
            )
            &&& account_is_settled(account) && exact && !is_isolated(
                account,
                prefix_of(owner),
                intents,
            ) ==> flaw == Some(ArbitragePaperTaskError::RecoveryRequired)
            &&& flaw is None && state.position_quantity@.0 != 0 ==> state.direction is Some
                && state.position_quantity@.0 > 0
        }),
{
}

/// A forced close reduces the whole position to nothing: its two orders undo
/// the pair, and what is left has neither quantity nor direction.
pub proof fn law_forced_close_leaves_nothing(
    plan: ForcedClosePlan,
    owner: Seq<char>,
    sequence: u64,
    state: ArbitrageState,
    pair: ObservedMarketPair,
    ids: FreshIds,
    cost_model: PaperCostModel,
)
    requires
        is_forced_close(plan, owner, sequence, state, pair, ids, cost_model),
        state.direction is Some,
        buy_market(state.direction->0, pair) is Some,
        sell_market(state.direction->0, pair) is Some,
    ensures
        ({
            let intents = plan.decision.intents@;
            let direction = state.direction->0;
            &&& intents.len() == 2
            &&& intents[0].side == Side::Buy && intents[0].exchange@ == direction.sell_exchange@
            &&& intents[1].side == Side::Sell && intents[1].exchange@ == direction.buy_exchange@
            &&& intents[0].quantity == state.position_quantity
            &&& intents[1].quantity == state.position_quantity
            &&& intents[0].reduce_only && intents[1].reduce_only
            &&& units(plan.decision.target.position_quantity@) == 0
            &&& plan.decision.target.direction is None
            &&& plan.decision.delta_quantity == state.position_quantity
            &&& plan.decision.spread.buy_price == buy_market(direction, pair)->0.ask
            &&& plan.decision.spread.sell_price == sell_market(direction, pair)->0.bid
            &&& plan.decision.spread.buy_exchange@ == direction.buy_exchange@
            &&& plan.decision.spread.sell_exchange@ == direction.sell_exchange@
        }),
{
    law_sign_is_that_of_units((0i128, 0u32));
}

} // verus!
