//! The orders, receipts and failures that the owners decide on.

use crate::decimal::{
    lemma_same_number_transitive, less_than, quotient_of, same_number, sum_of, Decimal,
};
use crate::text::same_text;
use crate::timestamp::Timestamp;
use vstd::prelude::*;

verus! {

/// The direction of an order or a position.
#[derive(Clone, Copy, Debug, PartialEq, Eq, Structural)]
pub enum Side {
    Buy,
    Sell,
}

/// The kind of market that an instrument trades on.
#[derive(Clone, Copy, Debug, PartialEq, Eq, Structural)]
pub enum MarketType {
    Spot,
    Perpetual,
}

/// How an order is priced.
#[derive(Clone, Copy, Debug, PartialEq, Eq, Structural)]
pub enum OrderType {
    Market,
    Limit,
}

/// How long an order stays on the book.
#[derive(Clone, Copy, Debug, PartialEq, Eq, Structural)]
pub enum TimeInForce {
    Gtc,
    Ioc,
    Fok,
    PostOnly,
}

/// Where an order stands at the venue.
#[derive(Clone, Copy, Debug, PartialEq, Eq, Structural)]
pub enum OrderStatus {
    Pending,
    Open,
    PartiallyFilled,
    Filled,
    Cancelled,
    Rejected,
}

/// What the submission of an order came to.
#[derive(Clone, Copy, Debug, PartialEq, Eq, Structural)]
pub enum SubmissionDisposition {
    Open,
    Filled,
    Cancelled,
    AlreadyProcessed,
}

/// One order as it is handed to a venue.
#[derive(Debug)]
pub struct OrderIntent {
    pub client_order_id: u128,
    pub exchange: String,
    pub symbol: String,
    pub market_type: MarketType,
    pub side: Side,
    pub order_type: OrderType,
    pub quantity: Decimal,
    pub price: Option<Decimal>,
    pub time_in_force: TimeInForce,
    pub reduce_only: bool,
}

/// One order as a venue reports it.
#[derive(Debug)]
pub struct Order {
    pub id: String,
    pub intent: OrderIntent,
    pub status: OrderStatus,
    pub filled_quantity: Decimal,
    pub average_fill_price: Option<Decimal>,
}

/// What a venue answers to one command.
#[derive(Debug)]
pub enum TradingReceipt {
    Submitted { order: Order, disposition: SubmissionDisposition },
    Cancelled { orders: Vec<Order> },
}

/// When a venue allows the next request.
#[derive(Clone, Copy, Debug, PartialEq, Eq, Structural)]
pub enum RemoteRetryAfter {
    Seconds(u64),
    At(Timestamp),
}

/// What a venue said of a request that failed there.
#[derive(Debug)]
pub struct RemoteFailure {
    pub status: Option<u16>,
    pub exchange_code: Option<String>,
    pub retry_after: Option<RemoteRetryAfter>,
    pub server_time: Option<Timestamp>,
}

/// Why a request to a venue failed.
#[derive(Debug)]
pub enum ExchangeError {
    InvalidRequest,
    Rejected,
    Unsupported,
    Backpressure,
    ResourceLimit,
    AmbiguousOutcome,
    Unavailable,
    InvalidResponse,
    RemoteFailure(RemoteFailure),
    SubscriptionLagged,
    InvariantViolation,
}

/// One side's best prices of an instrument at one instant.
#[derive(Debug)]
pub struct MarketSnapshot {
    pub exchange: String,
    pub symbol: String,
    pub market_type: MarketType,
    pub bid: Decimal,
    pub ask: Decimal,
    pub last: Option<Decimal>,
    /// The price half way between the best bid and the best ask.
    pub mid_price: Decimal,
    pub bid_quantity: Option<Decimal>,
    pub ask_quantity: Option<Decimal>,
    pub timestamp: Timestamp,
}

/// The best prices are prices, and the book is not crossed.
pub open spec fn is_quoted(bid: Decimal, ask: Decimal) -> bool {
    bid@.0 > 0 && ask@.0 > 0 && !less_than(ask@, bid@)
}

/// The price half way between the best bid and the best ask.
pub open spec fn mid_of(bid: Decimal, ask: Decimal) -> Option<(i128, u32)> {
    match sum_of(bid@, ask@) {
        Some(sum) => quotient_of(sum, (2i128, 0u32)),
        None => None,
    }
}

/// The snapshot holds the two sides of the book as they were quoted, with its
/// middle.
pub open spec fn shows_quotes(
    snapshot: MarketSnapshot,
    bid: Decimal,
    ask: Decimal,
    bid_quantity: Option<Decimal>,
    ask_quantity: Option<Decimal>,
) -> bool {
    &&& Some(snapshot.mid_price@) == mid_of(bid, ask)
    &&& snapshot.bid == bid
    &&& snapshot.ask == ask
    &&& snapshot.bid_quantity == bid_quantity
    &&& snapshot.ask_quantity == ask_quantity
}

/// The snapshot of these quotes; nothing where a price is not one, the book is
/// crossed or its middle cannot be computed.
pub fn quoted_snapshot(
    exchange: String,
    symbol: String,
    market_type: MarketType,
    bid: Decimal,
    ask: Decimal,
    last: Option<Decimal>,
    bid_quantity: Option<Decimal>,
    ask_quantity: Option<Decimal>,
    timestamp: Timestamp,
) -> (r: Option<MarketSnapshot>)
    ensures
        r is Some <==> is_quoted(bid, ask) && mid_of(bid, ask) is Some,
        r is Some ==> shows_quotes(r->0, bid, ask, bid_quantity, ask_quantity),
        r is Some ==> {
            &&& r->0 == MarketSnapshot {
                exchange,
                symbol,
                market_type,
                bid,
                ask,
                last,
                mid_price: r->0.mid_price,
                bid_quantity,
                ask_quantity,
                timestamp,
            }
        },
{
    if !bid.is_positive() || !ask.is_positive() || ask.is_less_than(bid) {
        return None;
    }
    let mid_price: Decimal = match bid.checked_add(ask) {
        None => return None,
        Some(sum) => match sum.checked_div(Decimal::from_u64(2)) {
            None => return None,
            Some(mid_price) => mid_price,
        },
    };
    Some(
        MarketSnapshot {
            exchange,
            symbol,
            market_type,
            bid,
            ask,
            last,
            mid_price,
            bid_quantity,
            ask_quantity,
            timestamp,
        },
    )
}

/// Which way a position points.
#[derive(Clone, Copy, Debug, PartialEq, Eq, Structural)]
pub enum PositionSide {
    Long,
    Short,
}

/// One position on an exchange.
#[derive(Debug)]
pub struct Position {
    pub exchange: String,
    pub symbol: String,
    pub market_type: MarketType,
    pub side: PositionSide,
    pub quantity: Decimal,
    pub entry_price: Option<Decimal>,
    pub mark_price: Option<Decimal>,
    pub unrealized_pnl: Decimal,
    pub updated_at: Timestamp,
}

impl Position {
    pub fn copy(&self) -> (r: Position)
        ensures
            r == *self,
    {
        Position {
            exchange: self.exchange.clone(),
            symbol: self.symbol.clone(),
            market_type: self.market_type,
            side: self.side,
            quantity: self.quantity,
            entry_price: self.entry_price,
            mark_price: self.mark_price,
            unrealized_pnl: self.unrealized_pnl,
            updated_at: self.updated_at,
        }
    }
}

/// What a market source reports.
#[derive(Debug)]
pub enum MarketDataEvent {
    /// A snapshot, which revision of its instrument it is, and when it came in.
    Observation { snapshot: MarketSnapshot, revision: u64, received_at: Timestamp },
    SourceGap { exchange: String, observed_at: Timestamp },
    SourceUnavailable { exchange: String, observed_at: Timestamp },
}

impl MarketDataEvent {
    pub fn copy(&self) -> (r: MarketDataEvent)
        ensures
            r == *self,
    {
        match self {
            MarketDataEvent::Observation {
                snapshot,
                revision,
                received_at,
            } => MarketDataEvent::Observation {
                snapshot: snapshot.copy(),
                revision: *revision,
                received_at: *received_at,
            },
            MarketDataEvent::SourceGap { exchange, observed_at } => MarketDataEvent::SourceGap {
                exchange: exchange.clone(),
                observed_at: *observed_at,
            },
            MarketDataEvent::SourceUnavailable { exchange, observed_at } =>
                MarketDataEvent::SourceUnavailable {
                exchange: exchange.clone(),
                observed_at: *observed_at,
            },
        }
    }
}

/// Why a strategy could not decide.
#[derive(Debug)]
pub enum StrategyError {
    InvalidConfig(String),
    SnapshotMismatch(String),
    MissingMarketData(String),
    InvalidFinancialValue(String),
}

impl StrategyError {
    pub fn copy(&self) -> (r: StrategyError)
        ensures
            r == *self,
    {
        match self {
            StrategyError::InvalidConfig(text) => StrategyError::InvalidConfig(text.clone()),
            StrategyError::SnapshotMismatch(text) => StrategyError::SnapshotMismatch(text.clone()),
            StrategyError::MissingMarketData(text) => StrategyError::MissingMarketData(
                text.clone(),
            ),
            StrategyError::InvalidFinancialValue(text) => StrategyError::InvalidFinancialValue(
                text.clone(),
            ),
        }
    }
}

/// The snapshot is one of this instrument.
pub open spec fn is_instrument(
    market: MarketSnapshot,
    exchange: Seq<char>,
    symbol: Seq<char>,
    market_type: MarketType,
) -> bool {
    market.exchange@ == exchange && market.symbol@ == symbol && market.market_type == market_type
}

/// The last traded price, or the mid price without one.
pub open spec fn reference_price_of(market: MarketSnapshot) -> Decimal {
    match market.last {
        Some(price) => price,
        None => market.mid_price,
    }
}

/// The price that an order on this side meets at once: the ask for a buy, the
/// bid for a sell.
pub open spec fn touch_price(market: MarketSnapshot, side: Side) -> Decimal {
    match side {
        Side::Buy => market.ask,
        Side::Sell => market.bid,
    }
}

impl MarketSnapshot {
    pub fn copy(&self) -> (r: MarketSnapshot)
        ensures
            r == *self,
    {
        MarketSnapshot {
            exchange: self.exchange.clone(),
            symbol: self.symbol.clone(),
            market_type: self.market_type,
            bid: self.bid,
            ask: self.ask,
            last: self.last,
            mid_price: self.mid_price,
            bid_quantity: self.bid_quantity,
            ask_quantity: self.ask_quantity,
            timestamp: self.timestamp,
        }
    }

    /// The snapshot is one of this instrument.
    pub fn matches(&self, exchange: &str, symbol: &str, market_type: MarketType) -> (r: bool)
        ensures
            r == is_instrument(*self, exchange@, symbol@, market_type),
    {
        same_text(&self.exchange, exchange) && same_text(&self.symbol, symbol) && self.market_type
            == market_type
    }

    /// The last traded price, or the mid price without one.
    pub fn reference_price(&self) -> (r: Decimal)
        ensures
            r == reference_price_of(*self),
    {
        match self.last {
            Some(price) => price,
            None => self.mid_price,
        }
    }

    /// The price that an order on this side meets at once.
    pub fn touch(&self, side: Side) -> (r: Decimal)
        ensures
            r == touch_price(*self, side),
    {
        match side {
            Side::Buy => self.ask,
            Side::Sell => self.bid,
        }
    }
}

/// The other side.
pub open spec fn opposite_of(side: Side) -> Side {
    match side {
        Side::Buy => Side::Sell,
        Side::Sell => Side::Buy,
    }
}

impl Side {
    /// The other side.
    pub fn opposite(self) -> (r: Side)
        ensures
            r == opposite_of(self),
    {
        match self {
            Side::Buy => Side::Sell,
            Side::Sell => Side::Buy,
        }
    }

    pub fn label(self) -> (r: &'static str)
        ensures
            r@ == side_label(self),
    {
        match self {
            Side::Buy => "buy",
            Side::Sell => "sell",
        }
    }
}

pub open spec fn side_label(side: Side) -> Seq<char> {
    match side {
        Side::Buy => "buy"@,
        Side::Sell => "sell"@,
    }
}

/// Both prices are there and equal as numbers, or both are missing.
pub open spec fn same_price(a: Option<Decimal>, b: Option<Decimal>) -> bool {
    match (a, b) {
        (Some(x), Some(y)) => same_number(x@, y@),
        (None, None) => true,
        _ => false,
    }
}

/// The two intents ask for the same order.
pub open spec fn same_intent(a: OrderIntent, b: OrderIntent) -> bool {
    &&& a.client_order_id == b.client_order_id
    &&& a.exchange@ == b.exchange@
    &&& a.symbol@ == b.symbol@
    &&& a.market_type == b.market_type
    &&& a.side == b.side
    &&& a.order_type == b.order_type
    &&& same_number(a.quantity@, b.quantity@)
    &&& same_price(a.price, b.price)
    &&& a.time_in_force == b.time_in_force
    &&& a.reduce_only == b.reduce_only
}

/// Intents that ask for the same order as a third one ask for the same order.
pub proof fn lemma_same_intent_transitive(a: OrderIntent, b: OrderIntent, c: OrderIntent)
    requires
        same_intent(a, b),
        same_intent(b, c),
    ensures
        same_intent(a, c),
{
    lemma_same_number_transitive(a.quantity@, b.quantity@, c.quantity@);
    if a.price is Some {
        lemma_same_number_transitive(a.price->0@, b.price->0@, c.price->0@);
    }
}

impl OrderIntent {
    /// The same intent once more.
    pub fn copy(&self) -> (r: OrderIntent)
        ensures
            r == *self,
    {
        OrderIntent {
            client_order_id: self.client_order_id,
            exchange: self.exchange.clone(),
            symbol: self.symbol.clone(),
            market_type: self.market_type,
            side: self.side,
            order_type: self.order_type,
            quantity: self.quantity,
            price: self.price,
            time_in_force: self.time_in_force,
            reduce_only: self.reduce_only,
        }
    }

    /// The two intents ask for the same order.
    pub fn equals(&self, other: &OrderIntent) -> (r: bool)
        ensures
            r == same_intent(*self, *other),
    {
        let same_prices: bool = match (self.price, other.price) {
            (Some(a), Some(b)) => a.equals(b),
            (None, None) => true,
            _ => false,
        };
        self.client_order_id == other.client_order_id && same_text(&self.exchange, &other.exchange)
            && same_text(&self.symbol, &other.symbol) && self.market_type == other.market_type
            && self.side == other.side && self.order_type == other.order_type
            && self.quantity.equals(other.quantity) && same_prices && self.time_in_force
            == other.time_in_force && self.reduce_only == other.reduce_only
    }
}

impl Order {
    /// The same order once more.
    pub fn copy(&self) -> (r: Order)
        ensures
            r == *self,
    {
        Order {
            id: self.id.clone(),
            intent: self.intent.copy(),
            status: self.status,
            filled_quantity: self.filled_quantity,
            average_fill_price: self.average_fill_price,
        }
    }
}

impl TradingReceipt {
    /// The same receipt once more.
    pub fn copy(&self) -> (r: TradingReceipt)
        ensures
            same_receipt(r, *self),
    {
        match self {
            TradingReceipt::Submitted { order, disposition } => TradingReceipt::Submitted {
                order: order.copy(),
                disposition: *disposition,
            },
            TradingReceipt::Cancelled { orders } => {
                assert(orders@.take(orders@.len() as int) =~= orders@);
                TradingReceipt::Cancelled { orders: copy_orders(orders, orders.len()) }
            },
        }
    }
}

/// The receipts say the same.
pub open spec fn same_receipt(a: TradingReceipt, b: TradingReceipt) -> bool {
    match (a, b) {
        (
            TradingReceipt::Submitted { order: x, disposition: d },
            TradingReceipt::Submitted { order: y, disposition: e },
        ) => x == y && d == e,
        (
            TradingReceipt::Cancelled { orders: x },
            TradingReceipt::Cancelled { orders: y },
        ) => x@ == y@,
        _ => false,
    }
}

/// The first `count` orders once more.
pub fn copy_orders(orders: &Vec<Order>, count: usize) -> (r: Vec<Order>)
    requires
        count <= orders@.len(),
    ensures
        r@ == orders@.take(count as int),
{
    let mut out: Vec<Order> = Vec::new();
    let mut i: usize = 0;
    while i < count
        invariant
            i <= count <= orders@.len(),
            out@ == orders@.take(i as int),
        decreases count - i,
    {
        out.push(orders[i].copy());
        assert(out@ =~= orders@.take(i + 1));
        i = i + 1;
    }
    out
}

impl ExchangeError {
    /// The same failure once more.
    pub fn copy(&self) -> (r: ExchangeError)
        ensures
            r == *self,
    {
        match self {
            ExchangeError::InvalidRequest => ExchangeError::InvalidRequest,
            ExchangeError::Rejected => ExchangeError::Rejected,
            ExchangeError::Unsupported => ExchangeError::Unsupported,
            ExchangeError::Backpressure => ExchangeError::Backpressure,
            ExchangeError::ResourceLimit => ExchangeError::ResourceLimit,
            ExchangeError::AmbiguousOutcome => ExchangeError::AmbiguousOutcome,
            ExchangeError::Unavailable => ExchangeError::Unavailable,
            ExchangeError::InvalidResponse => ExchangeError::InvalidResponse,
            ExchangeError::RemoteFailure(remote) => ExchangeError::RemoteFailure(
                RemoteFailure {
                    status: remote.status,
                    exchange_code: match &remote.exchange_code {
                        Some(code) => Some(code.clone()),
                        None => None,
                    },
                    retry_after: remote.retry_after,
                    server_time: remote.server_time,
                },
            ),
            ExchangeError::SubscriptionLagged => ExchangeError::SubscriptionLagged,
            ExchangeError::InvariantViolation => ExchangeError::InvariantViolation,
        }
    }
}

} // verus!
