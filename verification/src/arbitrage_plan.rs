//! What an arbitrage owner plans: the pair it decides on, the liquidity that a
//! decision needs, and the two-leg operations that carry decisions out.

use crate::arbitrage_account::{
    account_is_settled, ensure_operation_fifo_isolation, is_account_settled, is_isolated,
};
use crate::decimal::{difference_of, less_than, product_of, quotient_of, sum_of, Decimal};
use crate::domain::{
    is_instrument, touch_price, MarketSnapshot, MarketType, OrderIntent, OrderType, Position,
    PositionSide, Side,
};
use crate::operations::{
    idempotency_key, idempotency_key_of, operation_id, operation_id_of, prefix_of,
};
use crate::paper_account::PaperAccountSnapshot;
use crate::paper_arbitrage_saga::PaperArbitrageRequest;
use crate::paper_arbitrage_task::{
    ArbitragePaperTaskConfig, ArbitragePaperTaskError, ArbitrageSagaFailure,
};
use crate::requests::{
    admission_for, is_admission, is_candidate, is_limit_intent, leg_for, leg_matches,
    limit_intent, risk_candidate, AccountRiskCandidate, ExecutionBatch, FreshIds, PaperCostModel, PaperReservationLeg,
    PaperReservationRequest,
};
use crate::text::same_text;
use crate::timestamp::Timestamp;
use vstd::prelude::*;

verus! {

/// Both legs of the pair as they were observed together.
#[derive(Debug)]
pub struct ObservedMarketPair {
    pub left: MarketSnapshot,
    pub right: MarketSnapshot,
    pub observed_at: Timestamp,
}

/// Which leg of the pair is bought and which is sold.
#[derive(Debug)]
pub struct ArbitrageDirection {
    pub buy_exchange: String,
    pub sell_exchange: String,
    pub buy_symbol: String,
    pub sell_symbol: String,
    pub buy_market_type: MarketType,
    pub sell_market_type: MarketType,
}

/// The position that the owner holds, and its direction.
#[derive(Debug)]
pub struct ArbitrageState {
    pub position_quantity: Decimal,
    pub direction: Option<ArbitrageDirection>,
}

/// What a decision does to the position.
#[derive(Clone, Copy, Debug, PartialEq, Eq, Structural)]
pub enum ArbitrageDecisionKind {
    Hold,
    Open,
    Increase,
    Reduce,
}

/// The spread that a decision was made on.
#[derive(Debug)]
pub struct SpreadQuote {
    pub buy_exchange: String,
    pub sell_exchange: String,
    pub buy_symbol: String,
    pub sell_symbol: String,
    pub buy_market_type: MarketType,
    pub sell_market_type: MarketType,
    pub buy_price: Decimal,
    pub sell_price: Decimal,
    pub absolute: Decimal,
    pub percent: Decimal,
}

/// One decision of the strategy.
#[derive(Debug)]
pub struct ArbitrageDecision {
    pub kind: ArbitrageDecisionKind,
    pub segment: u32,
    pub delta_quantity: Decimal,
    pub spread: SpreadQuote,
    /// The position that the decision leads to.
    pub target: ArbitrageState,
    pub intents: Vec<OrderIntent>,
}

/// The market of an instrument in the pair, the left one first.
pub open spec fn market_of(
    pair: ObservedMarketPair,
    exchange: Seq<char>,
    symbol: Seq<char>,
    market_type: MarketType,
) -> Option<MarketSnapshot> {
    if is_instrument(pair.left, exchange, symbol, market_type) {
        Some(pair.left)
    } else if is_instrument(pair.right, exchange, symbol, market_type) {
        Some(pair.right)
    } else {
        None
    }
}

/// The market that an order trades on.
pub open spec fn market_for(pair: ObservedMarketPair, intent: OrderIntent) -> Option<MarketSnapshot> {
    market_of(pair, intent.exchange@, intent.symbol@, intent.market_type)
}

/// The market of an instrument in the pair.
pub fn matching_snapshot<'a>(
    pair: &'a ObservedMarketPair,
    exchange: &str,
    symbol: &str,
    market_type: MarketType,
) -> (r: Option<&'a MarketSnapshot>)
    ensures
        match market_of(*pair, exchange@, symbol@, market_type) {
            Some(market) => r is Some && *r->0 == market,
            None => r is None,
        },
{
    if pair.left.matches(exchange, symbol, market_type) {
        Some(&pair.left)
    } else if pair.right.matches(exchange, symbol, market_type) {
        Some(&pair.right)
    } else {
        None
    }
}

/// The market that an order trades on.
pub fn matching_market<'a>(pair: &'a ObservedMarketPair, intent: &OrderIntent) -> (r: Option<
    &'a MarketSnapshot,
>)
    ensures
        match market_for(*pair, *intent) {
            Some(market) => r is Some && *r->0 == market,
            None => r is None,
        },
{
    matching_snapshot(pair, &intent.exchange, &intent.symbol, intent.market_type)
}

/// The price that an order executes at: its own, or the touch price.
pub open spec fn execution_price_of(intent: OrderIntent, market: MarketSnapshot) -> Decimal {
    match intent.price {
        Some(price) => price,
        None => touch_price(market, intent.side),
    }
}

fn execution_price(intent: &OrderIntent, market: &MarketSnapshot) -> (r: Decimal)
    ensures
        r == execution_price_of(*intent, *market),
{
    match intent.price {
        Some(price) => price,
        None => market.touch(intent.side),
    }
}

/// The notional of an order on the pair, where its market is there and the
/// product can be computed.
pub open spec fn notional_of(pair: ObservedMarketPair, intent: OrderIntent) -> Option<(i128, u32)> {
    match market_for(pair, intent) {
        Some(market) => product_of(execution_price_of(intent, market)@, intent.quantity@),
        None => None,
    }
}

/// The notional of all orders together, added up in their order.
pub open spec fn total_notional(pair: ObservedMarketPair, intents: Seq<OrderIntent>) -> Option<
    (i128, u32),
>
    decreases intents.len(),
{
    if intents.len() == 0 {
        Some((0i128, 0u32))
    } else {
        match (total_notional(pair, intents.drop_last()), notional_of(pair, intents.last())) {
            (Some(before), Some(notional)) => sum_of(before, notional),
            _ => None,
        }
    }
}

proof fn lemma_total_stays_none(pair: ObservedMarketPair, intents: Seq<OrderIntent>, k: int)
    requires
        0 <= k <= intents.len(),
        total_notional(pair, intents.take(k)) is None,
    ensures
        total_notional(pair, intents) is None,
    decreases intents.len(),
{
    if k == intents.len() {
        assert(intents.take(k) =~= intents);
    } else {
        assert(intents.drop_last().take(k) =~= intents.take(k));
        lemma_total_stays_none(pair, intents.drop_last(), k);
    }
}

/// The notional that an opening decision asks account risk for;
/// `InvalidRequest` where it cannot be computed.
pub fn admission_notional(pair: &ObservedMarketPair, intents: &Vec<OrderIntent>) -> (r: Result<
    Decimal,
    ArbitragePaperTaskError,
>)
    ensures
        match total_notional(*pair, intents@) {
            Some(total) => r is Ok && r->Ok_0@ == total,
            None => r == Err::<Decimal, _>(ArbitragePaperTaskError::InvalidRequest),
        },
{
    let mut notional: Decimal = Decimal::zero();
    let mut i: usize = 0;
    while i < intents.len()
        invariant
            i <= intents.len(),
            total_notional(*pair, intents@.take(i as int)) == Some(notional@),
        decreases intents.len() - i,
    {
        assert(intents@.take(i + 1).drop_last() =~= intents@.take(i as int));
        let value: Option<Decimal> = match matching_market(pair, &intents[i]) {
            None => None,
            Some(market) => execution_price(&intents[i], market).checked_mul(intents[i].quantity),
        };
        let total: Option<Decimal> = match value {
            None => None,
            Some(value) => notional.checked_add(value),
        };
        match total {
            None => {
                proof {
                    lemma_total_stays_none(*pair, intents@, i + 1);
                }
                return Err(ArbitragePaperTaskError::InvalidRequest);
            },
            Some(sum) => {
                notional = sum;
            },
        }
        i = i + 1;
    }
    assert(intents@.take(i as int) =~= intents@);
    Ok(notional)
}

/// What account risk is asked about an opening decision: the symbol of its
/// first order and the notional of all; `InvalidRequest` where that cannot be
/// computed.
pub fn admission_candidate(
    config: &ArbitragePaperTaskConfig,
    pair: &ObservedMarketPair,
    intents: &Vec<OrderIntent>,
) -> (r: Result<AccountRiskCandidate, ArbitragePaperTaskError>)
    requires
        intents@.len() > 0,
    ensures
        match total_notional(*pair, intents@) {
            Some(total) => r is Ok && is_candidate(
                r->Ok_0,
                config.task_id_view(),
                intents@[0].symbol@,
                total,
            ),
            None => r == Err::<AccountRiskCandidate, _>(ArbitragePaperTaskError::InvalidRequest),
        },
{
    match admission_notional(pair, intents) {
        Ok(notional) => Ok(risk_candidate(config.task_id(), &intents[0].symbol, notional)),
        Err(error) => Err(error),
    }
}

/// The two orders take from the same queue: one instrument, one side.
pub open spec fn same_queue(a: OrderIntent, b: OrderIntent) -> bool {
    a.exchange@ == b.exchange@ && a.symbol@ == b.symbol@ && a.market_type == b.market_type
        && a.side == b.side
}

fn is_same_queue(a: &OrderIntent, b: &OrderIntent) -> (r: bool)
    ensures
        r == same_queue(*a, *b),
{
    same_text(&a.exchange, &b.exchange) && same_text(&a.symbol, &b.symbol) && a.market_type
        == b.market_type && a.side == b.side
}

/// What the orders take together from the queue of one of them.
pub open spec fn queue_total(intents: Seq<OrderIntent>, of: OrderIntent) -> Option<(i128, u32)>
    decreases intents.len(),
{
    if intents.len() == 0 {
        Some((0i128, 0u32))
    } else {
        match queue_total(intents.drop_last(), of) {
            None => None,
            Some(before) => if same_queue(intents.last(), of) {
                sum_of(before, intents.last().quantity@)
            } else {
                Some(before)
            },
        }
    }
}

proof fn lemma_queue_total_stays_none(intents: Seq<OrderIntent>, of: OrderIntent, k: int)
    requires
        0 <= k <= intents.len(),
        queue_total(intents.take(k), of) is None,
    ensures
        queue_total(intents, of) is None,
    decreases intents.len(),
{
    if k == intents.len() {
        assert(intents.take(k) =~= intents);
    } else {
        assert(intents.drop_last().take(k) =~= intents.take(k));
        lemma_queue_total_stays_none(intents.drop_last(), of, k);
    }
}

/// Adds up what the first `n` orders take from the queue of one of them.
fn add_up_queue(intents: &Vec<OrderIntent>, n: usize, of: &OrderIntent) -> (r: Option<Decimal>)
    requires
        n <= intents@.len(),
    ensures
        crate::decimal::number_in(r) == queue_total(intents@.take(n as int), *of),
{
    let mut total: Decimal = Decimal::zero();
    let mut i: usize = 0;
    while i < n
        invariant
            i <= n <= intents@.len(),
            queue_total(intents@.take(i as int), *of) == Some(total@),
        decreases n - i,
    {
        assert(intents@.take(i + 1).drop_last() =~= intents@.take(i as int));
        if is_same_queue(&intents[i], of) {
            match total.checked_add(intents[i].quantity) {
                None => {
                    proof {
                        assert(intents@.take(n as int).take(i + 1) =~= intents@.take(i + 1));
                        lemma_queue_total_stays_none(intents@.take(n as int), *of, i + 1);
                    }
                    return None;
                },
                Some(sum) => {
                    total = sum;
                },
            }
        }
        i = i + 1;
    }
    Some(total)
}

/// A limit order crosses the book, a market order always does; nothing where a
/// limit order has no price.
pub open spec fn crosses_book(intent: OrderIntent, market: MarketSnapshot) -> Option<bool> {
    match intent.order_type {
        OrderType::Market => Some(true),
        OrderType::Limit => match intent.price {
            None => None,
            Some(price) => Some(
                match intent.side {
                    Side::Buy => !less_than(price@, market.ask@),
                    Side::Sell => !less_than(market.bid@, price@),
                },
            ),
        },
    }
}

/// Why an order cannot be taken up with those before it.
pub open spec fn order_flaw(pair: ObservedMarketPair, intents: Seq<OrderIntent>) -> Option<
    ArbitragePaperTaskError,
>
    recommends
        intents.len() > 0,
{
    let intent = intents.last();
    match market_for(pair, intent) {
        None => Some(ArbitragePaperTaskError::InvalidRequest),
        Some(market) => match crosses_book(intent, market) {
            None => Some(ArbitragePaperTaskError::InvalidRequest),
            Some(false) => Some(ArbitragePaperTaskError::LiquidityRejected),
            Some(true) => if queue_total(intents, intent) is None {
                Some(ArbitragePaperTaskError::InvalidRequest)
            } else {
                None
            },
        },
    }
}

/// Why the orders cannot be taken up one by one: the flaw of the first that has
/// one.
pub open spec fn orders_flaw(pair: ObservedMarketPair, intents: Seq<OrderIntent>) -> Option<
    ArbitragePaperTaskError,
>
    decreases intents.len(),
{
    if intents.len() == 0 {
        None
    } else {
        match orders_flaw(pair, intents.drop_last()) {
            Some(error) => Some(error),
            None => order_flaw(pair, intents),
        }
    }
}

proof fn lemma_orders_flaw_stays(pair: ObservedMarketPair, intents: Seq<OrderIntent>, k: int)
    requires
        0 <= k <= intents.len(),
        orders_flaw(pair, intents.take(k)) is Some,
    ensures
        orders_flaw(pair, intents) == orders_flaw(pair, intents.take(k)),
    decreases intents.len(),
{
    if k == intents.len() {
        assert(intents.take(k) =~= intents);
    } else {
        assert(intents.drop_last().take(k) =~= intents.take(k));
        lemma_orders_flaw_stays(pair, intents.drop_last(), k);
    }
}

/// The quantity that the book shows on the side that the order takes from.
pub open spec fn depth_of(intent: OrderIntent, market: MarketSnapshot) -> Option<Decimal> {
    match intent.side {
        Side::Buy => market.ask_quantity,
        Side::Sell => market.bid_quantity,
    }
}

/// The top of the book holds what all the orders take from the queue of this
/// one.
pub open spec fn queue_is_deep_enough(
    pair: ObservedMarketPair,
    intents: Seq<OrderIntent>,
    intent: OrderIntent,
) -> bool {
    match (market_for(pair, intent), queue_total(intents, intent)) {
        (Some(market), Some(needed)) => depth_of(intent, market) is Some && !less_than(
            depth_of(intent, market)->0@,
            needed,
        ),
        _ => false,
    }
}

/// Why the top of the book does not carry the orders out at once.
pub open spec fn liquidity_flaw(pair: ObservedMarketPair, intents: Seq<OrderIntent>) -> Option<
    ArbitragePaperTaskError,
> {
    if orders_flaw(pair, intents) is Some {
        orders_flaw(pair, intents)
    } else if exists|i: int|
        0 <= i < intents.len() && !#[trigger] queue_is_deep_enough(pair, intents, intents[i]) {
        Some(ArbitragePaperTaskError::LiquidityRejected)
    } else {
        None
    }
}

/// The orders execute at once on the top of the book: each crosses it, and the
/// book shows what they take from each queue together.
pub fn validate_liquidity(pair: &ObservedMarketPair, intents: &Vec<OrderIntent>) -> (r: Result<
    (),
    ArbitragePaperTaskError,
>)
    ensures
        r == match liquidity_flaw(*pair, intents@) {
            None => Ok::<(), ArbitragePaperTaskError>(()),
            Some(error) => Err(error),
        },
{
    let mut i: usize = 0;
    while i < intents.len()
        invariant
            i <= intents.len(),
            orders_flaw(*pair, intents@.take(i as int)) is None,
        decreases intents.len() - i,
    {
        proof {
            assert(intents@.take(i + 1).drop_last() =~= intents@.take(i as int));
            if orders_flaw(*pair, intents@.take(i + 1)) is Some {
                lemma_orders_flaw_stays(*pair, intents@, i + 1);
            }
        }
        let intent: &OrderIntent = &intents[i];
        let market: &MarketSnapshot = match matching_market(pair, intent) {
            Some(market) => market,
            None => return Err(ArbitragePaperTaskError::InvalidRequest),
        };
        let executable: bool = match intent.order_type {
            OrderType::Market => true,
            OrderType::Limit => match intent.price {
                None => return Err(ArbitragePaperTaskError::InvalidRequest),
                Some(price) => match intent.side {
                    Side::Buy => !price.is_less_than(market.ask),
                    Side::Sell => !market.bid.is_less_than(price),
                },
            },
        };
        if !executable {
            return Err(ArbitragePaperTaskError::LiquidityRejected);
        }
        if add_up_queue(intents, i + 1, intent).is_none() {
            return Err(ArbitragePaperTaskError::InvalidRequest);
        }
        i = i + 1;
    }
    assert(intents@.take(i as int) =~= intents@);
    let mut j: usize = 0;
    while j < intents.len()
        invariant
            j <= intents.len(),
            orders_flaw(*pair, intents@) is None,
            forall|k: int| 0 <= k < j ==> #[trigger] queue_is_deep_enough(*pair, intents@, intents@[k]),
        decreases intents.len() - j,
    {
        let intent: &OrderIntent = &intents[j];
        assert(intents@.take(intents@.len() as int) =~= intents@);
        let needed: Option<Decimal> = add_up_queue(intents, intents.len(), intent);
        let depth: Option<Decimal> = match matching_market(pair, intent) {
            None => None,
            Some(market) => match intent.side {
                Side::Buy => market.ask_quantity,
                Side::Sell => market.bid_quantity,
            },
        };
        let enough: bool = match (depth, needed) {
            (Some(depth), Some(needed)) => !depth.is_less_than(needed),
            _ => false,
        };
        if !enough {
            assert(!queue_is_deep_enough(*pair, intents@, intents@[j as int]));
            return Err(ArbitragePaperTaskError::LiquidityRejected);
        }
        j = j + 1;
    }
    Ok(())
}

/// The leg as the risk engine sees it: marked at the mid price of its market,
/// without an entry price and without a profit or loss.
pub open spec fn is_leg_position(
    position: Position,
    exchange: Seq<char>,
    symbol: Seq<char>,
    market_type: MarketType,
    side: PositionSide,
    quantity: Decimal,
    pair: ObservedMarketPair,
) -> bool {
    &&& position.exchange@ == exchange
    &&& position.symbol@ == symbol
    &&& position.market_type == market_type
    &&& position.side == side
    &&& position.quantity == quantity
    &&& market_of(pair, exchange, symbol, market_type) is Some
    &&& position.entry_price is None
    &&& position.mark_price == Some(market_of(pair, exchange, symbol, market_type)->0.mid_price)
    &&& position.unrealized_pnl@ == (0i128, 0u32)
    &&& position.updated_at == pair.observed_at
}

/// The position can be laid out on the pair: it is flat, or positive with both
/// its legs in the pair.
pub open spec fn positions_exist(state: ArbitrageState, pair: ObservedMarketPair) -> bool {
    state.position_quantity@.0 == 0 || (state.direction is Some && state.position_quantity@.0 > 0
        && buy_market(state.direction->0, pair) is Some && sell_market(state.direction->0, pair)
        is Some)
}

/// The market of the leg that was bought.
pub open spec fn buy_market(direction: ArbitrageDirection, pair: ObservedMarketPair) -> Option<
    MarketSnapshot,
> {
    market_of(pair, direction.buy_exchange@, direction.buy_symbol@, direction.buy_market_type)
}

/// The market of the leg that was sold.
pub open spec fn sell_market(direction: ArbitrageDirection, pair: ObservedMarketPair) -> Option<
    MarketSnapshot,
> {
    market_of(pair, direction.sell_exchange@, direction.sell_symbol@, direction.sell_market_type)
}

/// The positions are those of the state: none, or the long and the short leg.
pub open spec fn are_positions(
    positions: Seq<Position>,
    state: ArbitrageState,
    pair: ObservedMarketPair,
) -> bool {
    if state.position_quantity@.0 == 0 {
        positions.len() == 0
    } else {
        let direction = state.direction->0;
        &&& positions.len() == 2
        &&& is_leg_position(
            positions[0],
            direction.buy_exchange@,
            direction.buy_symbol@,
            direction.buy_market_type,
            PositionSide::Long,
            state.position_quantity,
            pair,
        )
        &&& is_leg_position(
            positions[1],
            direction.sell_exchange@,
            direction.sell_symbol@,
            direction.sell_market_type,
            PositionSide::Short,
            state.position_quantity,
            pair,
        )
    }
}

/// Lays the position out on the pair; `InvalidRequest` where that cannot be
/// done.
pub fn strategy_positions(state: &ArbitrageState, pair: &ObservedMarketPair) -> (r: Result<
    Vec<Position>,
    ArbitragePaperTaskError,
>)
    ensures
        positions_exist(*state, *pair) ==> r is Ok && are_positions(r->Ok_0@, *state, *pair),
        !positions_exist(*state, *pair) ==> r == Err::<Vec<Position>, _>(
            ArbitragePaperTaskError::InvalidRequest,
        ),
{
    let mut positions: Vec<Position> = Vec::new();
    if state.position_quantity.is_zero() {
        return Ok(positions);
    }
    let direction: &ArbitrageDirection = match &state.direction {
        Some(direction) => direction,
        None => return Err(ArbitragePaperTaskError::InvalidRequest),
    };
    if !state.position_quantity.is_positive() {
        return Err(ArbitragePaperTaskError::InvalidRequest);
    }
    let bought: &MarketSnapshot = match matching_snapshot(
        pair,
        &direction.buy_exchange,
        &direction.buy_symbol,
        direction.buy_market_type,
    ) {
        Some(market) => market,
        None => return Err(ArbitragePaperTaskError::InvalidRequest),
    };
    let sold: &MarketSnapshot = match matching_snapshot(
        pair,
        &direction.sell_exchange,
        &direction.sell_symbol,
        direction.sell_market_type,
    ) {
        Some(market) => market,
        None => return Err(ArbitragePaperTaskError::InvalidRequest),
    };
    positions.push(
        Position {
            exchange: direction.buy_exchange.clone(),
            symbol: direction.buy_symbol.clone(),
            market_type: direction.buy_market_type,
            side: PositionSide::Long,
            quantity: state.position_quantity,
            entry_price: None,
            mark_price: Some(bought.mid_price),
            unrealized_pnl: Decimal::zero(),
            updated_at: pair.observed_at,
        },
    );
    positions.push(
        Position {
            exchange: direction.sell_exchange.clone(),
            symbol: direction.sell_symbol.clone(),
            market_type: direction.sell_market_type,
            side: PositionSide::Short,
            quantity: state.position_quantity,
            entry_price: None,
            mark_price: Some(sold.mid_price),
            unrealized_pnl: Decimal::zero(),
            updated_at: pair.observed_at,
        },
    );
    Ok(positions)
}

/// The same orders once more.
pub fn copy_intents(intents: &Vec<OrderIntent>) -> (r: Vec<OrderIntent>)
    ensures
        r@ == intents@,
{
    let mut copied: Vec<OrderIntent> = Vec::new();
    let mut i: usize = 0;
    while i < intents.len()
        invariant
            i <= intents.len(),
            copied@ =~= intents@.take(i as int),
        decreases intents.len() - i,
    {
        copied.push(intents[i].copy());
        i = i + 1;
    }
    assert(intents@.take(i as int) =~= intents@);
    copied
}

/// The decision trades one symbol on two exchanges.
pub open spec fn is_exact_pair(intents: Seq<OrderIntent>) -> bool {
    intents.len() == 2 && intents[0].symbol@ == intents[1].symbol@ && intents[0].exchange@
        != intents[1].exchange@
}

fn has_exact_pair(intents: &Vec<OrderIntent>) -> (r: bool)
    ensures
        r == is_exact_pair(intents@),
{
    intents.len() == 2 && same_text(&intents[0].symbol, &intents[1].symbol) && !same_text(
        &intents[0].exchange,
        &intents[1].exchange,
    )
}

/// The notional of both orders can be computed.
pub open spec fn notionals_exist(pair: ObservedMarketPair, intents: Seq<OrderIntent>) -> bool {
    notional_of(pair, intents[0]) is Some && notional_of(pair, intents[1]) is Some
}

/// The request executes the two orders and reserves the notional of each, under
/// the owner's operation.
pub open spec fn is_pair_operation(
    request: PaperArbitrageRequest,
    owner: Seq<char>,
    sequence: u64,
    intents: Seq<OrderIntent>,
    pair: ObservedMarketPair,
    ids: FreshIds,
    cost_model: PaperCostModel,
    scope: Option<Seq<char>>,
    ticket: Option<u128>,
) -> bool {
    let batch = request.batch_view();
    let reservation = request.reservation_view();
    &&& request.symbol_view() == intents[0].symbol@
    &&& batch.id == ids.batch_id
    &&& batch.intents@ == intents
    &&& reservation.reservation_id == ids.reservation_id
    &&& reservation.task_id@ == operation_id_of(owner, sequence)
    &&& reservation.idempotency_key@ == idempotency_key_of("arbitrage"@, sequence)
    &&& reservation.batch_id == ids.batch_id
    &&& reservation.legs@.len() == 2
    &&& leg_matches(reservation.legs@[0], intents[0], 0, intents[0].symbol@)
    &&& leg_matches(reservation.legs@[1], intents[1], 1, intents[0].symbol@)
    &&& Some(reservation.legs@[0].notional@) == notional_of(pair, intents[0])
    &&& Some(reservation.legs@[1].notional@) == notional_of(pair, intents[1])
    &&& reservation.cost_model == cost_model
    &&& is_admission(reservation.admission, scope, ticket)
}

fn order_notional(pair: &ObservedMarketPair, intent: &OrderIntent) -> (r: Option<Decimal>)
    ensures
        crate::decimal::number_in(r) == notional_of(*pair, *intent),
{
    match matching_market(pair, intent) {
        None => None,
        Some(market) => execution_price(intent, market).checked_mul(intent.quantity),
    }
}

/// Binds two orders of one symbol on two exchanges to one reservation; the
/// overflow error where a notional cannot be computed, and a saga failure where
/// both orders are on one side.
fn pair_operation(
    owner: &str,
    sequence: u64,
    intents: &Vec<OrderIntent>,
    pair: &ObservedMarketPair,
    ids: FreshIds,
    cost_model: PaperCostModel,
    scope: Option<&str>,
    ticket: Option<u128>,
    overflow: ArbitragePaperTaskError,
) -> (r: Result<PaperArbitrageRequest, ArbitragePaperTaskError>)
    requires
        is_exact_pair(intents@),
    ensures
        if !notionals_exist(*pair, intents@) {
            r == Err::<PaperArbitrageRequest, _>(overflow)
        } else if intents@[0].side == intents@[1].side {
            r == Err::<PaperArbitrageRequest, _>(
                ArbitragePaperTaskError::Saga(ArbitrageSagaFailure::InvalidRequest),
            )
        } else {
            r is Ok && is_pair_operation(
                r->Ok_0,
                owner@,
                sequence,
                intents@,
                *pair,
                ids,
                cost_model,
                match scope {
                    Some(scope_id) => Some(scope_id@),
                    None => None,
                },
                ticket,
            )
        },
{
    let (first, second): (Decimal, Decimal) = match (
        order_notional(pair, &intents[0]),
        order_notional(pair, &intents[1]),
    ) {
        (Some(first), Some(second)) => (first, second),
        _ => return Err(overflow),
    };
    let mut legs: Vec<PaperReservationLeg> = Vec::new();
    legs.push(leg_for(0, &intents[0], first));
    legs.push(leg_for(1, &intents[1], second));
    let batch: ExecutionBatch = ExecutionBatch {
        id: ids.batch_id,
        intents: copy_intents(intents),
    };
    let reservation: PaperReservationRequest = PaperReservationRequest {
        reservation_id: ids.reservation_id,
        task_id: operation_id(owner, sequence),
        idempotency_key: idempotency_key("arbitrage", sequence),
        batch_id: ids.batch_id,
        cost_model,
        legs,
        admission: admission_for(scope, ticket),
    };
    match PaperArbitrageRequest::new(intents[0].symbol.clone(), batch, reservation) {
        Ok(request) => Ok(request),
        Err(_) => Err(ArbitragePaperTaskError::Saga(ArbitrageSagaFailure::InvalidRequest)),
    }
}

/// Why a decision cannot be handed to the risk engine, in the order in which it
/// is checked.
pub open spec fn preparation_flaw(
    owner: Seq<char>,
    pair: ObservedMarketPair,
    state: ArbitrageState,
    account: PaperAccountSnapshot,
    intents: Seq<OrderIntent>,
) -> Option<ArbitragePaperTaskError> {
    if !account_is_settled(account) {
        Some(ArbitragePaperTaskError::RecoveryRequired)
    } else if !is_exact_pair(intents) {
        Some(ArbitragePaperTaskError::InvalidRequest)
    } else if !is_isolated(account, prefix_of(owner), intents) {
        Some(ArbitragePaperTaskError::RecoveryRequired)
    } else if !positions_exist(state, pair) {
        Some(ArbitragePaperTaskError::InvalidRequest)
    } else {
        None
    }
}

/// The account as the risk engine sees it.
#[derive(Clone, Copy, Debug)]
pub struct AccountRiskSnapshot {
    pub equity: Decimal,
    pub available_balance: Decimal,
    pub kill_switch: bool,
    pub timestamp: Timestamp,
}

/// The account that stands behind an operation on the pair. Its equity is the
/// settled one, not what the account started with, so that opening authority
/// shrinks after realised losses and fees.
pub open spec fn risk_account_of(
    account: PaperAccountSnapshot,
    pair: ObservedMarketPair,
) -> AccountRiskSnapshot {
    AccountRiskSnapshot {
        equity: account.settled_equity_base,
        available_balance: account.available,
        kill_switch: false,
        timestamp: pair.observed_at,
    }
}

pub fn account_risk_snapshot(account: &PaperAccountSnapshot, pair: &ObservedMarketPair) -> (r:
    AccountRiskSnapshot)
    ensures
        r == risk_account_of(*account, *pair),
{
    AccountRiskSnapshot {
        equity: account.settled_equity_base,
        available_balance: account.available,
        kill_switch: false,
        timestamp: pair.observed_at,
    }
}

/// An account that has less settled equity has less equity to open with,
/// whatever it started with and whatever else it holds.
pub proof fn law_opening_equity_shrinks_with_settled_equity(
    before: PaperAccountSnapshot,
    after: PaperAccountSnapshot,
    pair: ObservedMarketPair,
    later: ObservedMarketPair,
)
    ensures
        less_than(after.settled_equity_base@, before.settled_equity_base@) <==> less_than(
            risk_account_of(after, later).equity@,
            risk_account_of(before, pair).equity@,
        ),
{
}

/// What the risk engine is asked: whether it authorises the orders on these
/// positions and markets.
#[derive(Debug)]
pub struct RiskQuestion {
    pub intents: Vec<OrderIntent>,
    pub account: AccountRiskSnapshot,
    pub positions: Vec<Position>,
    /// The left and the right market.
    pub markets: Vec<MarketSnapshot>,
    pub observed_at: Timestamp,
}

/// The question puts exactly these orders, with the account, the position and
/// the markets as they stand.
pub open spec fn asks_about(
    question: RiskQuestion,
    pair: ObservedMarketPair,
    state: ArbitrageState,
    account: PaperAccountSnapshot,
    intents: Seq<OrderIntent>,
) -> bool {
    &&& question.intents@ == intents
    &&& question.account == risk_account_of(account, pair)
    &&& are_positions(question.positions@, state, pair)
    &&& question.markets@ == seq![pair.left, pair.right]
    &&& question.observed_at == pair.observed_at
}

/// Holds a decision against the account and puts it to the risk engine.
pub fn prepare_operation(
    owner: &str,
    pair: &ObservedMarketPair,
    state: &ArbitrageState,
    account: &PaperAccountSnapshot,
    intents: &Vec<OrderIntent>,
) -> (r: Result<RiskQuestion, ArbitragePaperTaskError>)
    ensures
        match preparation_flaw(owner@, *pair, *state, *account, intents@) {
            Some(error) => r == Err::<RiskQuestion, _>(error),
            None => r is Ok && asks_about(r->Ok_0, *pair, *state, *account, intents@),
        },
{
    if !is_account_settled(account) {
        return Err(ArbitragePaperTaskError::RecoveryRequired);
    }
    if !has_exact_pair(intents) {
        return Err(ArbitragePaperTaskError::InvalidRequest);
    }
    match ensure_operation_fifo_isolation(account, owner, intents) {
        Ok(()) => {},
        Err(error) => return Err(error),
    }
    let positions: Vec<Position> = match strategy_positions(state, pair) {
        Ok(positions) => positions,
        Err(error) => return Err(error),
    };
    let mut markets: Vec<MarketSnapshot> = Vec::new();
    markets.push(pair.left.copy());
    markets.push(pair.right.copy());
    assert(markets@ =~= seq![pair.left, pair.right]);
    Ok(
        RiskQuestion {
            intents: copy_intents(intents),
            account: account_risk_snapshot(account, pair),
            positions,
            markets,
            observed_at: pair.observed_at,
        },
    )
}

/// Why a decision does not become an operation, in the order in which it is
/// checked.
pub open spec fn operation_flaw(
    owner: Seq<char>,
    pair: ObservedMarketPair,
    state: ArbitrageState,
    account: PaperAccountSnapshot,
    intents: Seq<OrderIntent>,
    authorized: bool,
    scope: Option<Seq<char>>,
    ticket: Option<u128>,
) -> Option<ArbitragePaperTaskError> {
    if preparation_flaw(owner, pair, state, account, intents) is Some {
        preparation_flaw(owner, pair, state, account, intents)
    } else if !authorized {
        Some(ArbitragePaperTaskError::RiskRejected)
    } else if liquidity_flaw(pair, intents) is Some {
        liquidity_flaw(pair, intents)
    } else if !notionals_exist(pair, intents) {
        Some(ArbitragePaperTaskError::InvalidRequest)
    } else if ticket is Some && scope is None {
        Some(ArbitragePaperTaskError::RecoveryRequired)
    } else if intents[0].side == intents[1].side {
        Some(ArbitragePaperTaskError::Saga(ArbitrageSagaFailure::InvalidRequest))
    } else {
        None
    }
}

/// Builds the operation that carries a decision out; `authorized` is what the
/// risk engine said of it, `ticket` the admission that account risk gave.
pub fn build_operation(
    config: &ArbitragePaperTaskConfig,
    pair: &ObservedMarketPair,
    state: &ArbitrageState,
    account: &PaperAccountSnapshot,
    intents: &Vec<OrderIntent>,
    authorized: bool,
    ticket: Option<u128>,
    operation_sequence: u64,
    ids: FreshIds,
) -> (r: Result<PaperArbitrageRequest, ArbitragePaperTaskError>)
    ensures
        match operation_flaw(
            config.task_id_view(),
            *pair,
            *state,
            *account,
            intents@,
            authorized,
            config.risk_scope_view(),
            ticket,
        ) {
            Some(error) => r == Err::<PaperArbitrageRequest, _>(error),
            None => r is Ok && is_pair_operation(
                r->Ok_0,
                config.task_id_view(),
                operation_sequence,
                intents@,
                *pair,
                ids,
                config.cost_model_view(),
                config.risk_scope_view(),
                ticket,
            ),
        },
{
    match prepare_operation(config.task_id(), pair, state, account, intents) {
        Ok(_) => {},
        Err(error) => return Err(error),
    }
    if !authorized {
        return Err(ArbitragePaperTaskError::RiskRejected);
    }
    match validate_liquidity(pair, intents) {
        Ok(()) => {},
        Err(error) => return Err(error),
    }
    if ticket.is_some() && !config.has_account_risk() {
        if order_notional(pair, &intents[0]).is_none() || order_notional(
            pair,
            &intents[1],
        ).is_none() {
            return Err(ArbitragePaperTaskError::InvalidRequest);
        }
        return Err(ArbitragePaperTaskError::RecoveryRequired);
    }
    pair_operation(
        config.task_id(),
        operation_sequence,
        intents,
        pair,
        ids,
        config.cost_model(),
        config.risk_scope(),
        ticket,
        ArbitragePaperTaskError::InvalidRequest,
    )
}

/// A forced close and the decision that it carries out.
#[derive(Debug)]
pub struct ForcedClosePlan {
    pub request: PaperArbitrageRequest,
    pub decision: ArbitrageDecision,
}

/// The orders that close a position: the sold leg is bought back at its ask,
/// the bought leg is sold at its bid, both reducing only.
pub open spec fn are_closing_orders(
    intents: Seq<OrderIntent>,
    quantity: Decimal,
    bought: MarketSnapshot,
    sold: MarketSnapshot,
) -> bool {
    &&& intents.len() == 2
    &&& is_limit_intent(
        intents[0],
        sold.exchange@,
        sold.symbol@,
        sold.market_type,
        Side::Buy,
        quantity,
        sold.ask,
        true,
    )
    &&& is_limit_intent(
        intents[1],
        bought.exchange@,
        bought.symbol@,
        bought.market_type,
        Side::Sell,
        quantity,
        bought.bid,
        true,
    )
}

/// The orders, under these identifiers, close the state's whole position on the
/// pair.
pub open spec fn closes_position(
    intents: Seq<OrderIntent>,
    state: ArbitrageState,
    pair: ObservedMarketPair,
    buy_order_id: u128,
    sell_order_id: u128,
) -> bool {
    &&& are_closing_orders(
        intents,
        state.position_quantity,
        buy_market(state.direction->0, pair)->0,
        sell_market(state.direction->0, pair)->0,
    )
    &&& intents[0].client_order_id == buy_order_id
    &&& intents[1].client_order_id == sell_order_id
}

/// The spread between the two legs: what the sold leg pays above what the
/// bought leg costs, and the same in percent of the latter.
pub open spec fn spread_of(bought: MarketSnapshot, sold: MarketSnapshot) -> Option<
    ((i128, u32), (i128, u32)),
> {
    match difference_of(sold.bid@, bought.ask@) {
        None => None,
        Some(absolute) => match quotient_of(absolute, bought.ask@) {
            None => None,
            Some(share) => match product_of(share, (100i128, 0u32)) {
                None => None,
                Some(percent) => Some((absolute, percent)),
            },
        },
    }
}

/// The spread names the two legs of the direction.
pub open spec fn spread_names(spread: SpreadQuote, direction: ArbitrageDirection) -> bool {
    &&& spread.buy_exchange@ == direction.buy_exchange@
    &&& spread.sell_exchange@ == direction.sell_exchange@
    &&& spread.buy_symbol@ == direction.buy_symbol@
    &&& spread.sell_symbol@ == direction.sell_symbol@
    &&& spread.buy_market_type == direction.buy_market_type
    &&& spread.sell_market_type == direction.sell_market_type
}

/// The close of a whole position at the given orders.
pub open spec fn is_forced_close(
    plan: ForcedClosePlan,
    owner: Seq<char>,
    sequence: u64,
    state: ArbitrageState,
    pair: ObservedMarketPair,
    ids: FreshIds,
    cost_model: PaperCostModel,
) -> bool {
    let direction = state.direction->0;
    let bought = buy_market(direction, pair)->0;
    let sold = sell_market(direction, pair)->0;
    let decision = plan.decision;
    &&& are_closing_orders(decision.intents@, state.position_quantity, bought, sold)
    &&& is_pair_operation(
        plan.request,
        owner,
        sequence,
        decision.intents@,
        pair,
        ids,
        cost_model,
        None,
        None,
    )
    &&& decision.kind == ArbitrageDecisionKind::Reduce
    &&& decision.segment == 0
    &&& decision.delta_quantity == state.position_quantity
    &&& decision.target.position_quantity@ == (0i128, 0u32)
    &&& decision.target.direction is None
    &&& spread_names(decision.spread, direction)
    &&& decision.spread.buy_price == bought.ask
    &&& decision.spread.sell_price == sold.bid
    &&& spread_of(bought, sold) == Some((decision.spread.absolute@, decision.spread.percent@))
}

/// The position can be closed on the pair: the account is settled, the position
/// is positive and both its legs are in the pair, its spread can be computed.
pub open spec fn can_be_closed(
    state: ArbitrageState,
    pair: ObservedMarketPair,
    account: PaperAccountSnapshot,
) -> bool {
    account_is_settled(account) && state.direction is Some && state.position_quantity@.0 > 0
        && buy_market(state.direction->0, pair) is Some && sell_market(state.direction->0, pair)
        is Some
}

/// Builds the operation that closes the whole position at once, without asking
/// account risk or the strategy. `RecoveryRequired` where the position cannot
/// be closed on the pair; the flaw of its orders where the book does not carry
/// them out.
pub fn build_forced_close_operation(
    owner: &str,
    cost_model: PaperCostModel,
    pair: &ObservedMarketPair,
    state: &ArbitrageState,
    account: &PaperAccountSnapshot,
    operation_sequence: u64,
    buy_order_id: u128,
    sell_order_id: u128,
    ids: FreshIds,
) -> (r: Result<ForcedClosePlan, ArbitragePaperTaskError>)
    ensures
        !can_be_closed(*state, *pair, *account) ==> r == Err::<ForcedClosePlan, _>(
            ArbitragePaperTaskError::RecoveryRequired,
        ),
        can_be_closed(*state, *pair, *account) ==> exists|intents: Seq<OrderIntent>|
            {
                &&& #[trigger] closes_position(intents, *state, *pair, buy_order_id, sell_order_id)
                &&& if liquidity_flaw(*pair, intents) is Some {
                    r == Err::<ForcedClosePlan, _>(liquidity_flaw(*pair, intents)->0)
                } else if spread_of(
                    buy_market(state.direction->0, *pair)->0,
                    sell_market(state.direction->0, *pair)->0,
                ) is None || !notionals_exist(*pair, intents) {
                    r == Err::<ForcedClosePlan, _>(ArbitragePaperTaskError::RecoveryRequired)
                } else if !is_exact_pair(intents) {
                    r == Err::<ForcedClosePlan, _>(
                        ArbitragePaperTaskError::Saga(ArbitrageSagaFailure::InvalidRequest),
                    )
                } else {
                    r is Ok && r->Ok_0.decision.intents@ == intents && is_forced_close(
                        r->Ok_0,
                        owner@,
                        operation_sequence,
                        *state,
                        *pair,
                        ids,
                        cost_model,
                    )
                }
            },
{
    if !is_account_settled(account) {
        return Err(ArbitragePaperTaskError::RecoveryRequired);
    }
    let direction: &ArbitrageDirection = match &state.direction {
        Some(direction) => direction,
        None => return Err(ArbitragePaperTaskError::RecoveryRequired),
    };
    let quantity: Decimal = state.position_quantity;
    if !quantity.is_positive() {
        return Err(ArbitragePaperTaskError::RecoveryRequired);
    }
    let bought: &MarketSnapshot = match matching_snapshot(
        pair,
        &direction.buy_exchange,
        &direction.buy_symbol,
        direction.buy_market_type,
    ) {
        Some(market) => market,
        None => return Err(ArbitragePaperTaskError::RecoveryRequired),
    };
    let sold: &MarketSnapshot = match matching_snapshot(
        pair,
        &direction.sell_exchange,
        &direction.sell_symbol,
        direction.sell_market_type,
    ) {
        Some(market) => market,
        None => return Err(ArbitragePaperTaskError::RecoveryRequired),
    };
    let mut intents: Vec<OrderIntent> = Vec::new();
    intents.push(
        limit_intent(
            buy_order_id,
            &sold.exchange,
            &sold.symbol,
            sold.market_type,
            Side::Buy,
            quantity,
            sold.ask,
            true,
        ),
    );
    intents.push(
        limit_intent(
            sell_order_id,
            &bought.exchange,
            &bought.symbol,
            bought.market_type,
            Side::Sell,
            quantity,
            bought.bid,
            true,
        ),
    );
    assert(closes_position(intents@, *state, *pair, buy_order_id, sell_order_id));
    match validate_liquidity(pair, &intents) {
        Ok(()) => {},
        Err(error) => return Err(error),
    }
    let absolute: Decimal = match sold.bid.checked_sub(bought.ask) {
        Some(absolute) => absolute,
        None => return Err(ArbitragePaperTaskError::RecoveryRequired),
    };
    let percent: Decimal = match absolute.checked_div(bought.ask) {
        None => return Err(ArbitragePaperTaskError::RecoveryRequired),
        Some(share) => match share.checked_mul(Decimal::from_u64(100)) {
            None => return Err(ArbitragePaperTaskError::RecoveryRequired),
            Some(percent) => percent,
        },
    };
    if order_notional(pair, &intents[0]).is_none() || order_notional(pair, &intents[1]).is_none() {
        return Err(ArbitragePaperTaskError::RecoveryRequired);
    }
    if !has_exact_pair(&intents) {
        return Err(ArbitragePaperTaskError::Saga(ArbitrageSagaFailure::InvalidRequest));
    }
    let request: PaperArbitrageRequest = match pair_operation(
        owner,
        operation_sequence,
        &intents,
        pair,
        ids,
        cost_model,
        None,
        None,
        ArbitragePaperTaskError::RecoveryRequired,
    ) {
        Ok(request) => request,
        Err(error) => return Err(error),
    };
    Ok(
        ForcedClosePlan {
            request,
            decision: ArbitrageDecision {
                kind: ArbitrageDecisionKind::Reduce,
                segment: 0,
                delta_quantity: quantity,
                spread: SpreadQuote {
                    buy_exchange: direction.buy_exchange.clone(),
                    sell_exchange: direction.sell_exchange.clone(),
                    buy_symbol: direction.buy_symbol.clone(),
                    sell_symbol: direction.sell_symbol.clone(),
                    buy_market_type: direction.buy_market_type,
                    sell_market_type: direction.sell_market_type,
                    buy_price: bought.ask,
                    sell_price: sold.bid,
                    absolute,
                    percent,
                },
                target: ArbitrageState { position_quantity: Decimal::zero(), direction: None },
                intents,
            },
        },
    )
}

} // verus!
