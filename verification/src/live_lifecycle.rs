//! One human-authorized mainnet Spot round trip: submit, query, cancel, query.
//!
//! This module holds the campaign's identity and caps, the facts that its
//! owner makes durable, and the admission of its one submit.

use crate::decimal::{less_than, product_of, text_of, Decimal};
use crate::domain::{ExchangeError, MarketType, Order, OrderIntent, OrderStatus, OrderType, Side};
use crate::domain::{same_intent, TimeInForce, TradingReceipt};
use crate::ids::{id_text, text_of_id};
use crate::json::text_in;
use crate::text::{byte_len, byte_length, characters, equal_ignoring_case, same_ignoring_case};
use crate::text::{is_digit, joined, same_text};
use crate::timestamp::Timestamp;
use vstd::prelude::*;
use vstd::string::StrSliceExecFns;

verus! {

pub const LIVE_LIFECYCLE_SCHEMA_VERSION: u16 = 1;

pub const LIVE_LIFECYCLE_ACKNOWLEDGEMENT: &'static str =
    "I AUTHORIZE BINANCE MAINNET SPOT ORDER LIFECYCLE";

pub const STRATEGY: &'static str = "binance_live_lifecycle";

pub const MAX_CAMPAIGN_ID_BYTES: usize = 128;

pub const MAX_WIRE_SYMBOL_BYTES: usize = 64;

pub const MAX_QUERY_ATTEMPTS_PER_CAMPAIGN: u16 = 1_000;

pub const MIN_QUERY_ATTEMPTS_PER_CAMPAIGN: u16 = 3;

pub const CLEANUP_QUERY_RESERVE: u32 = 2;

/// Sixty seconds.
pub const MAX_POLL_INTERVAL_NANOS: u128 = 60_000_000_000;

/// Venue-truth inputs required before a mainnet submit is admitted.
#[derive(Debug)]
pub struct LiveAdmissionTruth {
    /// Free (available) base-asset balance from the signed account snapshot.
    pub free_base_quantity: Decimal,
    /// Free (available) quote-asset balance from the signed account snapshot.
    pub free_quote_amount: Decimal,
    /// Client order ids of every open order on the campaign symbol; `None`
    /// entries are venue orders whose client id could not be read.
    pub open_order_client_ids: Vec<Option<String>>,
}

/// Observation that must be proven by a single-order query before cleanup.
#[derive(Clone, Copy, Debug, PartialEq, Eq, Structural)]
pub enum LiveLifecycleObservation {
    Open,
    PartiallyFilled,
}

/// Why the owner cancels its order.
#[derive(Clone, Copy, Debug, PartialEq, Eq, Structural)]
pub enum CancelReason {
    ObservationSatisfied,
    ObservationNotReached,
}

/// Specific pre-submit refusal recorded as a durable failed fact.
#[derive(Clone, Copy, Debug, PartialEq, Eq, Structural)]
pub enum LiveAdmissionRefusal {
    FiltersViolated,
    InsufficientBaseBalance,
    InsufficientQuoteBalance,
    ForeignOpenOrders,
}

/// Bounded lifecycle failure. Its text excludes remote bodies and credentials.
#[derive(Debug)]
pub enum LiveLifecycleError {
    InvalidConfig,
    NotionalExceedsCap { notional: Decimal, max_notional: Decimal },
    AdmissionRefused(LiveAdmissionRefusal),
    KillSwitchLatched,
    ConfigConflict,
    HistoryProbe,
    HistoryRead,
    HistoryWrite,
    CorruptHistory,
    Exchange(ExchangeError),
    ObservationNotReached,
    UnsafeTerminal(OrderStatus),
    OutcomeUnknown,
    RetryDeferred { not_before: Timestamp },
    QueryBudgetExhausted,
    PreviouslyFailed,
    ProtocolViolation,
    CounterOverflow,
}

pub open spec fn observation_label(observation: LiveLifecycleObservation) -> Seq<char> {
    match observation {
        LiveLifecycleObservation::Open => "open"@,
        LiveLifecycleObservation::PartiallyFilled => "partially_filled"@,
    }
}

/// The status proves the observation.
pub open spec fn observation_matches(
    observation: LiveLifecycleObservation,
    status: OrderStatus,
) -> bool {
    match observation {
        LiveLifecycleObservation::Open => status == OrderStatus::Open,
        LiveLifecycleObservation::PartiallyFilled => status == OrderStatus::PartiallyFilled,
    }
}

impl LiveLifecycleObservation {
    pub fn label(self) -> (r: &'static str)
        ensures
            r@ == observation_label(self),
    {
        match self {
            LiveLifecycleObservation::Open => "open",
            LiveLifecycleObservation::PartiallyFilled => "partially_filled",
        }
    }

    pub fn matches(self, status: OrderStatus) -> (r: bool)
        ensures
            r == observation_matches(self, status),
    {
        match self {
            LiveLifecycleObservation::Open => status == OrderStatus::Open,
            LiveLifecycleObservation::PartiallyFilled => status == OrderStatus::PartiallyFilled,
        }
    }

    /// The observation with this label.
    pub fn parse(value: &str) -> (r: Option<LiveLifecycleObservation>)
        ensures
            r == parsed_observation(value@),
    {
        if same_text(value, "open") {
            Some(LiveLifecycleObservation::Open)
        } else if same_text(value, "partially_filled") {
            Some(LiveLifecycleObservation::PartiallyFilled)
        } else {
            None
        }
    }
}

pub open spec fn parsed_observation(value: Seq<char>) -> Option<LiveLifecycleObservation> {
    if value == "open"@ {
        Some(LiveLifecycleObservation::Open)
    } else if value == "partially_filled"@ {
        Some(LiveLifecycleObservation::PartiallyFilled)
    } else {
        None
    }
}

/// Reading the label of an observation gives the observation back.
pub proof fn law_observation_label_reads_back(observation: LiveLifecycleObservation)
    ensures
        parsed_observation(observation_label(observation)) == Some(observation),
{
    reveal_strlit("open");
    reveal_strlit("partially_filled");
    assert("open"@.len() != "partially_filled"@.len());
}

pub open spec fn cancel_reason_label(reason: CancelReason) -> Seq<char> {
    match reason {
        CancelReason::ObservationSatisfied => "observation_satisfied"@,
        CancelReason::ObservationNotReached => "observation_not_reached"@,
    }
}

pub open spec fn parsed_cancel_reason(value: Seq<char>) -> Option<CancelReason> {
    if value == "observation_satisfied"@ {
        Some(CancelReason::ObservationSatisfied)
    } else if value == "observation_not_reached"@ {
        Some(CancelReason::ObservationNotReached)
    } else {
        None
    }
}

impl CancelReason {
    pub fn label(self) -> (r: &'static str)
        ensures
            r@ == cancel_reason_label(self),
    {
        match self {
            CancelReason::ObservationSatisfied => "observation_satisfied",
            CancelReason::ObservationNotReached => "observation_not_reached",
        }
    }

    /// The reason with this label.
    pub fn parse(value: &str) -> (r: Option<CancelReason>)
        ensures
            r == parsed_cancel_reason(value@),
    {
        if same_text(value, "observation_satisfied") {
            Some(CancelReason::ObservationSatisfied)
        } else if same_text(value, "observation_not_reached") {
            Some(CancelReason::ObservationNotReached)
        } else {
            None
        }
    }
}

/// Reading the label of a cancel reason gives the reason back.
pub proof fn law_cancel_reason_label_reads_back(reason: CancelReason)
    ensures
        parsed_cancel_reason(cancel_reason_label(reason)) == Some(reason),
{
    reveal_strlit("observation_satisfied");
    reveal_strlit("observation_not_reached");
    assert("observation_satisfied"@.len() != "observation_not_reached"@.len());
}

pub open spec fn refusal_label(refusal: LiveAdmissionRefusal) -> Seq<char> {
    match refusal {
        LiveAdmissionRefusal::FiltersViolated => "admission_filters_violated"@,
        LiveAdmissionRefusal::InsufficientBaseBalance =>
            "admission_sell_exceeds_free_base_balance"@,
        LiveAdmissionRefusal::InsufficientQuoteBalance =>
            "admission_buy_exceeds_free_quote_balance"@,
        LiveAdmissionRefusal::ForeignOpenOrders => "admission_foreign_open_orders"@,
    }
}

impl LiveAdmissionRefusal {
    pub fn label(self) -> (r: &'static str)
        ensures
            r@ == refusal_label(self),
    {
        match self {
            LiveAdmissionRefusal::FiltersViolated => "admission_filters_violated",
            LiveAdmissionRefusal::InsufficientBaseBalance =>
                "admission_sell_exceeds_free_base_balance",
            LiveAdmissionRefusal::InsufficientQuoteBalance =>
                "admission_buy_exceeds_free_quote_balance",
            LiveAdmissionRefusal::ForeignOpenOrders => "admission_foreign_open_orders",
        }
    }
}

pub open spec fn status_label(status: OrderStatus) -> Seq<char> {
    match status {
        OrderStatus::Pending => "pending"@,
        OrderStatus::Open => "open"@,
        OrderStatus::PartiallyFilled => "partially_filled"@,
        OrderStatus::Filled => "filled"@,
        OrderStatus::Cancelled => "cancelled"@,
        OrderStatus::Rejected => "rejected"@,
    }
}

pub fn order_status_label(status: OrderStatus) -> (r: &'static str)
    ensures
        r@ == status_label(status),
{
    match status {
        OrderStatus::Pending => "pending",
        OrderStatus::Open => "open",
        OrderStatus::PartiallyFilled => "partially_filled",
        OrderStatus::Filled => "filled",
        OrderStatus::Cancelled => "cancelled",
        OrderStatus::Rejected => "rejected",
    }
}

/// The order can still change at the venue.
pub open spec fn active_status(status: OrderStatus) -> bool {
    status == OrderStatus::Pending || status == OrderStatus::Open || status
        == OrderStatus::PartiallyFilled
}

pub fn is_active_status(status: OrderStatus) -> (r: bool)
    ensures
        r == active_status(status),
{
    status == OrderStatus::Pending || status == OrderStatus::Open || status
        == OrderStatus::PartiallyFilled
}

/// The characters of a campaign identity.
pub open spec fn is_campaign_char(c: char) -> bool {
    ('a' <= c && c <= 'z') || ('A' <= c && c <= 'Z') || is_digit(c) || c == '-' || c == '_' || c
        == '.' || c == ':'
}

/// A campaign identity: not empty, bounded, and made of plain characters.
pub open spec fn is_campaign_id(value: Seq<char>) -> bool {
    &&& value.len() > 0
    &&& byte_length(value) <= MAX_CAMPAIGN_ID_BYTES
    &&& forall|i: int| 0 <= i < value.len() ==> is_campaign_char(#[trigger] value[i])
}

pub fn valid_campaign_id(value: &str) -> (r: bool)
    ensures
        r == is_campaign_id(value@),
{
    let chars: Vec<char> = characters(value);
    if chars.len() == 0 || byte_len(value) > MAX_CAMPAIGN_ID_BYTES {
        return false;
    }
    let mut i: usize = 0;
    while i < chars.len()
        invariant
            i <= chars.len(),
            chars@ == value@,
            forall|j: int| 0 <= j < i ==> is_campaign_char(#[trigger] value@[j]),
        decreases chars.len() - i,
    {
        let c: char = chars[i];
        if !(('a' <= c && c <= 'z') || ('A' <= c && c <= 'Z') || ('0' <= c && c <= '9') || c == '-'
            || c == '_' || c == '.' || c == ':') {
            assert(!is_campaign_char(value@[i as int]));
            return false;
        }
        i = i + 1;
    }
    true
}

/// A wire symbol: not empty, bounded, upper-case letters and digits.
pub open spec fn is_wire_symbol(value: Seq<char>) -> bool {
    &&& value.len() > 0
    &&& byte_length(value) <= MAX_WIRE_SYMBOL_BYTES
    &&& forall|i: int|
        0 <= i < value.len() ==> ('A' <= #[trigger] value[i] <= 'Z') || is_digit(value[i])
}

pub fn valid_wire_symbol(value: &str) -> (r: bool)
    ensures
        r == is_wire_symbol(value@),
{
    let chars: Vec<char> = characters(value);
    if chars.len() == 0 || byte_len(value) > MAX_WIRE_SYMBOL_BYTES {
        return false;
    }
    let mut i: usize = 0;
    while i < chars.len()
        invariant
            i <= chars.len(),
            chars@ == value@,
            forall|j: int|
                0 <= j < i ==> ('A' <= #[trigger] value@[j] <= 'Z') || is_digit(value@[j]),
        decreases chars.len() - i,
    {
        let c: char = chars[i];
        if !(('A' <= c && c <= 'Z') || ('0' <= c && c <= '9')) {
            assert(!(('A' <= value@[i as int] <= 'Z') || is_digit(value@[i as int])));
            return false;
        }
        i = i + 1;
    }
    true
}

/// The price of the order times its quantity, as far as both are there.
pub open spec fn notional_of(intent: OrderIntent) -> Option<(i128, u32)> {
    match intent.price {
        Some(price) => product_of(price@, intent.quantity@),
        None => None,
    }
}

/// The notional of an intent.
pub fn intent_notional(intent: &OrderIntent) -> (r: Result<Decimal, LiveLifecycleError>)
    ensures
        intent.price is None ==> r == Err::<Decimal, _>(LiveLifecycleError::InvalidConfig),
        intent.price is Some && notional_of(*intent) is None ==> r == Err::<Decimal, _>(
            LiveLifecycleError::CounterOverflow,
        ),
        notional_of(*intent) is Some ==> r is Ok && Some(r->Ok_0@) == notional_of(*intent),
{
    match intent.price {
        None => Err(LiveLifecycleError::InvalidConfig),
        Some(price) => match price.checked_mul(intent.quantity) {
            Some(notional) => Ok(notional),
            None => Err(LiveLifecycleError::CounterOverflow),
        },
    }
}

/// Immutable identity, admission caps, and bounded polling policy for one
/// human-authorized mainnet Spot round trip.
#[derive(Debug)]
pub struct LiveLifecycleConfig {
    campaign_id: String,
    intent: OrderIntent,
    wire_symbol: String,
    expected_observation: LiveLifecycleObservation,
    poll_interval_nanos: u128,
    maximum_queries: u16,
    max_notional: Decimal,
    allow_foreign_orders: bool,
}

/// The plain contents of a configuration.
pub struct LiveLifecycleSettings {
    pub campaign_id: String,
    pub intent: OrderIntent,
    pub wire_symbol: String,
    pub expected_observation: LiveLifecycleObservation,
    pub poll_interval_nanos: u128,
    pub maximum_queries: u16,
    pub max_notional: Decimal,
    pub allow_foreign_orders: bool,
}

impl View for LiveLifecycleConfig {
    type V = LiveLifecycleSettings;

    closed spec fn view(&self) -> LiveLifecycleSettings {
        LiveLifecycleSettings {
            campaign_id: self.campaign_id,
            intent: self.intent,
            wire_symbol: self.wire_symbol,
            expected_observation: self.expected_observation,
            poll_interval_nanos: self.poll_interval_nanos,
            maximum_queries: self.maximum_queries,
            max_notional: self.max_notional,
            allow_foreign_orders: self.allow_foreign_orders,
        }
    }
}

/// The identity, the order, the cap and the polling bounds are safe.
pub open spec fn safe_settings(settings: LiveLifecycleSettings) -> bool {
    &&& is_campaign_id(settings.campaign_id@)
    &&& is_wire_symbol(settings.wire_symbol@)
    &&& equal_ignoring_case(settings.intent.exchange@, "binance"@)
    &&& settings.intent.market_type == MarketType::Spot
    &&& !settings.intent.reduce_only
    &&& settings.intent.client_order_id != 0
    &&& settings.intent.order_type == OrderType::Limit
    &&& settings.intent.price is Some
    &&& settings.intent.quantity@.0 != 0
    &&& settings.intent.time_in_force == TimeInForce::Gtc || settings.intent.time_in_force
        == TimeInForce::PostOnly
    &&& 0 < settings.poll_interval_nanos <= MAX_POLL_INTERVAL_NANOS
    &&& MIN_QUERY_ATTEMPTS_PER_CAMPAIGN <= settings.maximum_queries
        <= MAX_QUERY_ATTEMPTS_PER_CAMPAIGN
    &&& settings.max_notional@.0 > 0
}

/// The notional of the order can be computed and does not exceed the cap.
pub open spec fn within_cap(settings: LiveLifecycleSettings) -> bool {
    match notional_of(settings.intent) {
        Some(notional) => !less_than(settings.max_notional@, notional),
        None => false,
    }
}

impl LiveLifecycleConfig {
    /// Every configuration is safe and within its own cap.
    #[verifier::type_invariant]
    pub open spec fn inv(self) -> bool {
        safe_settings(self@) && within_cap(self@)
    }

    /// Builds one recovery-safe mainnet lifecycle configuration.
    ///
    /// `InvalidConfig` unless the campaign identity, the Binance Spot limit
    /// order with its identifier, the cap, and the polling bounds are safe;
    /// `CounterOverflow` where the notional cannot be computed;
    /// `NotionalExceedsCap` where it exceeds `max_notional`.
    pub fn new(
        campaign_id: String,
        intent: OrderIntent,
        wire_symbol: String,
        expected_observation: LiveLifecycleObservation,
        poll_interval_nanos: u128,
        maximum_queries: u16,
        max_notional: Decimal,
        allow_foreign_orders: bool,
    ) -> (r: Result<LiveLifecycleConfig, LiveLifecycleError>)
        ensures
            ({
                let settings = LiveLifecycleSettings {
                    campaign_id,
                    intent,
                    wire_symbol,
                    expected_observation,
                    poll_interval_nanos,
                    maximum_queries,
                    max_notional,
                    allow_foreign_orders,
                };
                if !safe_settings(settings) {
                    r matches Err(error) && error is InvalidConfig
                } else if notional_of(intent) is None {
                    r matches Err(error) && error is CounterOverflow
                } else if !within_cap(settings) {
                    r matches Err(error) && error is NotionalExceedsCap && Some(
                        error->notional@,
                    ) == notional_of(intent) && error->max_notional == max_notional
                } else {
                    r matches Ok(config) && config@ == settings
                }
            }),
    {
        let price_missing: bool = intent.price.is_none();
        if !valid_campaign_id(&campaign_id) || !valid_wire_symbol(&wire_symbol)
            || !same_ignoring_case(&intent.exchange, "binance") || intent.market_type
            != MarketType::Spot || intent.reduce_only || intent.client_order_id == 0
            || intent.order_type != OrderType::Limit || price_missing || intent.quantity.is_zero()
            || !(intent.time_in_force == TimeInForce::Gtc || intent.time_in_force
            == TimeInForce::PostOnly) || poll_interval_nanos == 0 || poll_interval_nanos
            > MAX_POLL_INTERVAL_NANOS || maximum_queries < MIN_QUERY_ATTEMPTS_PER_CAMPAIGN
            || maximum_queries > MAX_QUERY_ATTEMPTS_PER_CAMPAIGN || !max_notional.is_positive() {
            return Err(LiveLifecycleError::InvalidConfig);
        }
        let notional: Decimal = match intent_notional(&intent) {
            Ok(notional) => notional,
            Err(error) => return Err(error),
        };
        if max_notional.is_less_than(notional) {
            return Err(LiveLifecycleError::NotionalExceedsCap { notional, max_notional });
        }
        Ok(
            LiveLifecycleConfig {
                campaign_id,
                intent,
                wire_symbol,
                expected_observation,
                poll_interval_nanos,
                maximum_queries,
                max_notional,
                allow_foreign_orders,
            },
        )
    }

    pub fn campaign_id(&self) -> (r: &str)
        ensures
            r@ == self@.campaign_id@,
    {
        self.campaign_id.as_str()
    }

    pub(crate) fn owned_campaign_id(&self) -> (r: String)
        ensures
            r == self@.campaign_id,
    {
        self.campaign_id.clone()
    }

    pub fn intent(&self) -> (r: &OrderIntent)
        ensures
            *r == self@.intent,
    {
        &self.intent
    }

    pub fn wire_symbol(&self) -> (r: &str)
        ensures
            r@ == self@.wire_symbol@,
    {
        self.wire_symbol.as_str()
    }

    pub fn max_notional(&self) -> (r: Decimal)
        ensures
            r == self@.max_notional,
    {
        self.max_notional
    }

    pub fn expected_observation(&self) -> (r: LiveLifecycleObservation)
        ensures
            r == self@.expected_observation,
    {
        self.expected_observation
    }

    pub fn maximum_queries(&self) -> (r: u16)
        ensures
            r == self@.maximum_queries,
    {
        self.maximum_queries
    }

    pub fn allow_foreign_orders(&self) -> (r: bool)
        ensures
            r == self@.allow_foreign_orders,
    {
        self.allow_foreign_orders
    }

    pub fn poll_interval_nanos(&self) -> (r: u128)
        ensures
            r == self@.poll_interval_nanos,
    {
        self.poll_interval_nanos
    }

    /// The polling interval in whole milliseconds.
    pub fn poll_interval_millis(&self) -> (r: u64)
        ensures
            r == poll_millis(self@),
    {
        proof {
            use_type_invariant(self);
        }
        (self.poll_interval_nanos / 1_000_000) as u64
    }

    /// Rebinds a caller-supplied mapping to the exact durable recovery symbol;
    /// `InvalidConfig` for an invalid Binance wire symbol.
    pub fn with_wire_symbol(self, wire_symbol: String) -> (r: Result<
        LiveLifecycleConfig,
        LiveLifecycleError,
    >)
        ensures
            !is_wire_symbol(wire_symbol@) ==> r == Err::<LiveLifecycleConfig, _>(
                LiveLifecycleError::InvalidConfig,
            ),
            is_wire_symbol(wire_symbol@) ==> r is Ok && r->Ok_0@ == (LiveLifecycleSettings {
                wire_symbol,
                ..self@
            }),
    {
        proof {
            use_type_invariant(&self);
        }
        if !valid_wire_symbol(&wire_symbol) {
            return Err(LiveLifecycleError::InvalidConfig);
        }
        Ok(
            LiveLifecycleConfig {
                campaign_id: self.campaign_id,
                intent: self.intent,
                wire_symbol,
                expected_observation: self.expected_observation,
                poll_interval_nanos: self.poll_interval_nanos,
                maximum_queries: self.maximum_queries,
                max_notional: self.max_notional,
                allow_foreign_orders: self.allow_foreign_orders,
            },
        )
    }
}

/// The polling interval in whole milliseconds.
pub open spec fn poll_millis(settings: LiveLifecycleSettings) -> int {
    settings.poll_interval_nanos as int / 1_000_000
}

/// Another observation query leaves the cleanup its reserve.
pub open spec fn observation_budget_left(settings: LiveLifecycleSettings, query_count: u32) -> bool {
    query_count + CLEANUP_QUERY_RESERVE < settings.maximum_queries
}

pub fn has_observation_query_budget(config: &LiveLifecycleConfig, query_count: u32) -> (r: bool)
    ensures
        r == observation_budget_left(config@, query_count),
{
    query_count.saturating_add(CLEANUP_QUERY_RESERVE) < (config.maximum_queries() as u32)
}

/// The order is that of the campaign and carries a server identity, the
/// expected one where there is one.
pub open spec fn valid_order(
    settings: LiveLifecycleSettings,
    order: Order,
    expected_server_id: Option<Seq<char>>,
) -> bool {
    &&& order.id@.len() > 0
    &&& same_intent(order.intent, settings.intent)
    &&& expected_server_id is Some ==> expected_server_id->0 == order.id@
}

/// Checks the identity of a reported order.
pub fn validate_order(
    config: &LiveLifecycleConfig,
    order: &Order,
    expected_server_id: Option<&str>,
) -> (r: bool)
    ensures
        r == valid_order(
            config@,
            *order,
            match expected_server_id {
                Some(id) => Some(id@),
                None => None,
            },
        ),
{
    let id_matches: bool = match expected_server_id {
        Some(expected) => same_text(expected, &order.id),
        None => true,
    };
    !order.id.as_str().is_empty() && order.intent.equals(config.intent()) && id_matches
}

/// The order in the receipt of a submit; nothing for any other receipt.
pub fn submitted_order(receipt: TradingReceipt) -> (r: Result<Order, ExchangeError>)
    ensures
        match receipt {
            TradingReceipt::Submitted { order, disposition } => r == Ok::<Order, ExchangeError>(
                order,
            ),
            TradingReceipt::Cancelled { orders } => r == Err::<Order, _>(
                ExchangeError::InvalidRequest,
            ),
        },
{
    match receipt {
        TradingReceipt::Submitted { order, disposition } => Ok(order),
        TradingReceipt::Cancelled { orders } => Err(ExchangeError::InvalidRequest),
    }
}

/// The one order in the receipt of a cancel; a failure for any other receipt.
pub fn cancelled_order(receipt: TradingReceipt) -> (r: Result<Order, ExchangeError>)
    ensures
        match receipt {
            TradingReceipt::Submitted { order, disposition } => r == Err::<Order, _>(
                ExchangeError::InvalidRequest,
            ),
            TradingReceipt::Cancelled { orders } => if orders@.len() == 1 {
                r == Ok::<Order, ExchangeError>(orders@[0])
            } else {
                r == Err::<Order, _>(ExchangeError::InvalidRequest)
            },
        },
{
    match receipt {
        TradingReceipt::Submitted { order, disposition } => Err(ExchangeError::InvalidRequest),
        TradingReceipt::Cancelled { orders } => {
            let mut left: Vec<Order> = orders;
            if left.len() != 1 {
                return Err(ExchangeError::InvalidRequest);
            }
            match left.pop() {
                Some(order) => Ok(order),
                None => Err(ExchangeError::InvalidRequest),
            }
        },
    }
}

/// The bucket that a venue failure is recorded under.
pub open spec fn failure_bucket_label(error: ExchangeError) -> Seq<char> {
    match error {
        ExchangeError::InvalidRequest => "invalid_request"@,
        ExchangeError::Rejected => "rejected"@,
        ExchangeError::Unsupported => "unsupported"@,
        ExchangeError::Backpressure => "backpressure"@,
        ExchangeError::ResourceLimit => "resource_limit"@,
        ExchangeError::AmbiguousOutcome => "ambiguous_outcome"@,
        ExchangeError::Unavailable => "unavailable"@,
        ExchangeError::InvalidResponse => "invalid_response"@,
        ExchangeError::RemoteFailure(_) => "remote_failure"@,
        ExchangeError::SubscriptionLagged => "subscription_lagged"@,
        ExchangeError::InvariantViolation => "invariant_violation"@,
    }
}

pub fn exchange_failure_bucket(error: &ExchangeError) -> (r: &'static str)
    ensures
        r@ == failure_bucket_label(*error),
{
    match error {
        ExchangeError::InvalidRequest => "invalid_request",
        ExchangeError::Rejected => "rejected",
        ExchangeError::Unsupported => "unsupported",
        ExchangeError::Backpressure => "backpressure",
        ExchangeError::ResourceLimit => "resource_limit",
        ExchangeError::AmbiguousOutcome => "ambiguous_outcome",
        ExchangeError::Unavailable => "unavailable",
        ExchangeError::InvalidResponse => "invalid_response",
        ExchangeError::RemoteFailure(_) => "remote_failure",
        ExchangeError::SubscriptionLagged => "subscription_lagged",
        ExchangeError::InvariantViolation => "invariant_violation",
    }
}

/// The venue asked for a pause, or answered that it is rate limiting.
pub open spec fn defers_confirmation(error: ExchangeError) -> bool {
    match error {
        ExchangeError::RemoteFailure(remote) => remote.retry_after is Some || remote.status == Some(
            418u16,
        ) || remote.status == Some(429u16),
        _ => false,
    }
}

pub fn should_defer_cancel_confirmation(error: &ExchangeError) -> (r: bool)
    ensures
        r == defers_confirmation(*error),
{
    match error {
        ExchangeError::RemoteFailure(remote) => {
            let limited: bool = match remote.status {
                Some(status) => status == 418 || status == 429,
                None => false,
            };
            remote.retry_after.is_some() || limited
        },
        _ => false,
    }
}

/// The details recorded with an outcome that is not known.
#[derive(Debug)]
pub struct OutcomeUnknownDetails {
    pub failure: &'static str,
    pub http_status: Option<u16>,
    pub exchange_code: Option<String>,
    pub retry_after: Option<crate::domain::RemoteRetryAfter>,
    pub server_time: Option<Timestamp>,
}

/// What is recorded of a failure: its bucket, and of a remote failure also
/// what the venue said.
pub fn outcome_unknown_details(error: &ExchangeError) -> (r: OutcomeUnknownDetails)
    ensures
        r.failure@ == failure_bucket_label(*error),
        match *error {
            ExchangeError::RemoteFailure(remote) => {
                &&& r.http_status == remote.status
                &&& r.exchange_code == remote.exchange_code
                &&& r.retry_after == remote.retry_after
                &&& r.server_time == remote.server_time
            },
            _ => {
                &&& r.http_status is None
                &&& r.exchange_code is None
                &&& r.retry_after is None
                &&& r.server_time is None
            },
        },
{
    let failure: &'static str = exchange_failure_bucket(error);
    match error {
        ExchangeError::RemoteFailure(remote) => OutcomeUnknownDetails {
            failure,
            http_status: remote.status,
            exchange_code: match &remote.exchange_code {
                Some(code) => Some(code.clone()),
                None => None,
            },
            retry_after: remote.retry_after,
            server_time: remote.server_time,
        },
        _ => OutcomeUnknownDetails {
            failure,
            http_status: None,
            exchange_code: None,
            retry_after: None,
            server_time: None,
        },
    }
}

/// The symbol has the shape `BASE-QUOTE-SPOT`, with its dashes at `i` and `j`.
pub open spec fn spot_symbol_at(symbol: Seq<char>, i: int, j: int) -> bool {
    &&& 0 < i
    &&& i + 1 < j < symbol.len()
    &&& symbol[i] == '-'
    &&& symbol[j] == '-'
    &&& forall|k: int| 0 <= k < symbol.len() && k != i && k != j ==> #[trigger] symbol[k] != '-'
    &&& symbol.skip(j + 1) == "SPOT"@
}

/// The symbol has the shape `BASE-QUOTE-SPOT`.
pub open spec fn is_spot_symbol(symbol: Seq<char>) -> bool {
    exists|i: int, j: int| #![trigger symbol[i], symbol[j]] spot_symbol_at(symbol, i, j)
}

/// The base and the quote asset of a Spot symbol; `InvalidConfig` for a symbol
/// of any other shape.
pub fn spot_symbol_assets(symbol: &str) -> (r: Result<(String, String), LiveLifecycleError>)
    ensures
        r is Ok <==> is_spot_symbol(symbol@),
        r is Ok ==> symbol@ == r->Ok_0.0@ + seq!['-'] + r->Ok_0.1@ + seq!['-'] + "SPOT"@,
        r is Ok ==> !r->Ok_0.0@.contains('-') && !r->Ok_0.1@.contains('-'),
        r is Err ==> r == Err::<(String, String), _>(LiveLifecycleError::InvalidConfig),
{
    let chars: Vec<char> = characters(symbol);
    let mut dashes: Vec<usize> = Vec::new();
    let mut k: usize = 0;
    while k < chars.len()
        invariant
            k <= chars.len(),
            chars@ == symbol@,
            forall|d: int| 0 <= d < dashes@.len() ==> dashes@[d] < k && chars@[#[trigger] dashes@[d] as int] == '-',
            forall|a: int, b: int| 0 <= a < b < dashes@.len() ==> dashes@[a] < dashes@[b],
            forall|m: int|
                0 <= m < k && #[trigger] chars@[m] == '-' ==> dashes@.contains(m as usize),
        decreases chars.len() - k,
    {
        if chars[k] == '-' {
            let ghost before = dashes@;
            dashes.push(k);
            assert forall|m: int| 0 <= m < k + 1 && #[trigger] chars@[m] == '-' implies dashes@.contains(
                m as usize,
            ) by {
                if m < k {
                    let d = choose|d: int| 0 <= d < before.len() && before[d] == m as usize;
                    assert(dashes@[d] == m as usize);
                } else {
                    assert(dashes@[before.len() as int] == m as usize);
                }
            }
        }
        k = k + 1;
    }
    if dashes.len() != 2 {
        assert(!is_spot_symbol(symbol@)) by {
            if is_spot_symbol(symbol@) {
                let (i, j) = choose|i: int, j: int| #![trigger symbol@[i], symbol@[j]]
                    spot_symbol_at(symbol@, i, j);
                assert(dashes@.contains(i as usize) && dashes@.contains(j as usize));
                let a = choose|d: int| 0 <= d < dashes@.len() && dashes@[d] == i as usize;
                let b = choose|d: int| 0 <= d < dashes@.len() && dashes@[d] == j as usize;
                if dashes@.len() > 2 {
                    assert(0 <= 0 < dashes@.len() && 0 <= 1 < dashes@.len() && 0 <= 2 < dashes@.len());
                    assert(chars@[dashes@[0] as int] == '-');
                    assert(chars@[dashes@[1] as int] == '-');
                    assert(chars@[dashes@[2] as int] == '-');
                    assert(false);
                }
            }
        }
        return Err(LiveLifecycleError::InvalidConfig);
    }
    let i: usize = dashes[0];
    let j: usize = dashes[1];
    assert(forall|m: int| 0 <= m < symbol@.len() && m != i && m != j ==> #[trigger] symbol@[m] != '-') by {
        assert forall|m: int| 0 <= m < symbol@.len() && m != i && m != j implies #[trigger] symbol@[m] != '-' by {
            if chars@[m] == '-' {
                assert(dashes@.contains(m as usize));
                let d = choose|d: int| 0 <= d < dashes@.len() && dashes@[d] == m as usize;
                assert(d == 0 || d == 1);
            }
        }
    }
    let base: String = symbol.substring_char(0, i).to_owned();
    let quote: String = symbol.substring_char(i + 1, j).to_owned();
    let last: String = symbol.substring_char(j + 1, chars.len()).to_owned();
    assert(last@ =~= symbol@.skip(j + 1));
    assert(chars@[dashes@[0] as int] == '-' && chars@[dashes@[1] as int] == '-');
    let good: bool = i > 0 && i + 1 < j && same_text(&last, "SPOT");
    if !good {
        assert(!is_spot_symbol(symbol@)) by {
            if is_spot_symbol(symbol@) {
                let (a, b) = choose|a: int, b: int| #![trigger symbol@[a], symbol@[b]]
                    spot_symbol_at(symbol@, a, b);
                assert(symbol@[a] == '-' && symbol@[b] == '-');
                assert(a == i && b == j);
            }
        }
        return Err(LiveLifecycleError::InvalidConfig);
    }
    assert(spot_symbol_at(symbol@, i as int, j as int));
    assert(symbol@ =~= base@ + seq!['-'] + quote@ + seq!['-'] + "SPOT"@);
    assert(!base@.contains('-'));
    assert(!quote@.contains('-'));
    Ok((base, quote))
}

/// One asset balance of the account snapshot.
#[derive(Debug)]
pub struct AssetBalance {
    pub asset: String,
    pub available_balance: Decimal,
}

/// One open order that carries one of this system's identifiers.
#[derive(Debug)]
pub struct OwnOpenOrder {
    pub symbol: String,
    pub client_order_id: u128,
}

/// One open order of anybody else.
#[derive(Debug)]
pub struct ForeignOpenOrder {
    pub symbol: String,
    pub client_order_id: Option<String>,
}

/// The available balance of the first entry for the asset, in whatever case it
/// is written; zero without one.
pub open spec fn free_balance(balances: Seq<AssetBalance>, asset: Seq<char>) -> (i128, u32)
    decreases balances.len(),
{
    if balances.len() == 0 {
        (0, 0)
    } else if equal_ignoring_case(balances[0].asset@, asset) {
        balances[0].available_balance@
    } else {
        free_balance(balances.skip(1), asset)
    }
}

/// The client ids of the system's own open orders on the symbol.
pub open spec fn own_open_ids(orders: Seq<OwnOpenOrder>, symbol: Seq<char>) -> Seq<
    Option<Seq<char>>,
>
    decreases orders.len(),
{
    if orders.len() == 0 {
        Seq::empty()
    } else {
        let before = own_open_ids(orders.drop_last(), symbol);
        if orders.last().symbol@ == symbol {
            before.push(Some(id_text(orders.last().client_order_id)))
        } else {
            before
        }
    }
}

/// The client ids of everybody else's open orders on the symbol.
pub open spec fn foreign_open_ids(orders: Seq<ForeignOpenOrder>, symbol: Seq<char>) -> Seq<
    Option<Seq<char>>,
>
    decreases orders.len(),
{
    if orders.len() == 0 {
        Seq::empty()
    } else {
        let before = foreign_open_ids(orders.drop_last(), symbol);
        if orders.last().symbol@ == symbol {
            before.push(text_in(orders.last().client_order_id))
        } else {
            before
        }
    }
}

/// The characters of each optional text.
pub open spec fn texts_in(values: Seq<Option<String>>) -> Seq<Option<Seq<char>>> {
    values.map_values(|value: Option<String>| text_in(value))
}

fn available(balances: &Vec<AssetBalance>, asset: &str) -> (r: Decimal)
    ensures
        r@ == free_balance(balances@, asset@),
{
    let mut i: usize = 0;
    assert(balances@.skip(0) =~= balances@);
    while i < balances.len()
        invariant
            i <= balances.len(),
            free_balance(balances@, asset@) == free_balance(balances@.skip(i as int), asset@),
        decreases balances.len() - i,
    {
        assert(balances@.skip(i as int)[0] == balances@[i as int]);
        if same_ignoring_case(&balances[i].asset, asset) {
            return balances[i].available_balance;
        }
        assert(balances@.skip(i as int).skip(1) =~= balances@.skip(i + 1));
        i = i + 1;
    }
    Decimal::zero()
}

/// The venue truth for one symbol: the free balance of either asset, and the
/// client order ids of every open order on the symbol.
pub open spec fn is_admission_truth(
    truth: LiveAdmissionTruth,
    symbol: Seq<char>,
    base_asset: Seq<char>,
    quote_asset: Seq<char>,
    balances: Seq<AssetBalance>,
    orders: Seq<OwnOpenOrder>,
    foreign_orders: Seq<ForeignOpenOrder>,
) -> bool {
    &&& truth.free_base_quantity@ == free_balance(balances, base_asset)
    &&& truth.free_quote_amount@ == free_balance(balances, quote_asset)
    &&& texts_in(truth.open_order_client_ids@) == own_open_ids(orders, symbol) + foreign_open_ids(
        foreign_orders,
        symbol,
    )
}

/// The venue truth for one symbol, taken from the signed account snapshot.
pub fn admission_truth(
    symbol: &str,
    base_asset: &str,
    quote_asset: &str,
    balances: &Vec<AssetBalance>,
    orders: &Vec<OwnOpenOrder>,
    foreign_orders: &Vec<ForeignOpenOrder>,
) -> (r: LiveAdmissionTruth)
    ensures
        is_admission_truth(
            r,
            symbol@,
            base_asset@,
            quote_asset@,
            balances@,
            orders@,
            foreign_orders@,
        ),
{
    let mut ids: Vec<Option<String>> = Vec::new();
    let mut i: usize = 0;
    while i < orders.len()
        invariant
            i <= orders.len(),
            texts_in(ids@) =~= own_open_ids(orders@.take(i as int), symbol@),
        decreases orders.len() - i,
    {
        assert(orders@.take(i + 1).drop_last() =~= orders@.take(i as int));
        if same_text(&orders[i].symbol, symbol) {
            let ghost before = ids@;
            ids.push(Some(text_of_id(orders[i].client_order_id)));
            assert(texts_in(ids@) =~= texts_in(before).push(text_in(ids@.last())));
        }
        i = i + 1;
    }
    assert(orders@.take(i as int) =~= orders@);
    let mut j: usize = 0;
    while j < foreign_orders.len()
        invariant
            j <= foreign_orders.len(),
            texts_in(ids@) =~= own_open_ids(orders@, symbol@) + foreign_open_ids(
                foreign_orders@.take(j as int),
                symbol@,
            ),
        decreases foreign_orders.len() - j,
    {
        assert(foreign_orders@.take(j + 1).drop_last() =~= foreign_orders@.take(j as int));
        if same_text(&foreign_orders[j].symbol, symbol) {
            let ghost before = ids@;
            let id: Option<String> = match &foreign_orders[j].client_order_id {
                Some(text) => Some(text.clone()),
                None => None,
            };
            ids.push(id);
            assert(texts_in(ids@) =~= texts_in(before).push(text_in(ids@.last())));
        }
        j = j + 1;
    }
    assert(foreign_orders@.take(j as int) =~= foreign_orders@);
    LiveAdmissionTruth {
        free_base_quantity: available(balances, base_asset),
        free_quote_amount: available(balances, quote_asset),
        open_order_client_ids: ids,
    }
}

/// How many of the open orders do not carry the campaign's own identifier.
pub open spec fn foreign_count(ids: Seq<Option<String>>, own: Seq<char>) -> nat
    decreases ids.len(),
{
    if ids.len() == 0 {
        0
    } else {
        foreign_count(ids.drop_last(), own) + if text_in(ids.last()) == Some(own) {
            0nat
        } else {
            1nat
        }
    }
}

fn count_foreign(ids: &Vec<Option<String>>, own: &str) -> (r: u64)
    ensures
        r == foreign_count(ids@, own@),
{
    let mut count: u64 = 0;
    let mut i: usize = 0;
    while i < ids.len()
        invariant
            i <= ids.len(),
            count == foreign_count(ids@.take(i as int), own@),
            count <= i,
        decreases ids.len() - i,
    {
        assert(ids@.take(i + 1).drop_last() =~= ids@.take(i as int));
        let is_own: bool = match &ids[i] {
            Some(text) => same_text(text, own),
            None => false,
        };
        if !is_own {
            count = count + 1;
        }
        i = i + 1;
    }
    assert(ids@.take(i as int) =~= ids@);
    count
}

/// The durable fact of what admission saw.
#[derive(Debug)]
pub struct AdmissionFact {
    pub notional: Decimal,
    pub free_base_quantity: Decimal,
    pub free_quote_amount: Decimal,
    pub open_orders_on_symbol: u64,
    pub foreign_open_orders: u64,
}

/// Why the venue truth refuses the order, apart from the venue's own filters:
/// a sell beyond the free base balance, a buy beyond the free quote balance,
/// or open orders of others that the campaign does not allow.
pub open spec fn refusal_for(
    settings: LiveLifecycleSettings,
    truth: LiveAdmissionTruth,
) -> Option<LiveAdmissionRefusal> {
    if settings.intent.side == Side::Sell && less_than(
        truth.free_base_quantity@,
        settings.intent.quantity@,
    ) {
        Some(LiveAdmissionRefusal::InsufficientBaseBalance)
    } else if settings.intent.side == Side::Buy && less_than(
        truth.free_quote_amount@,
        notional_of(settings.intent)->0,
    ) {
        Some(LiveAdmissionRefusal::InsufficientQuoteBalance)
    } else if foreign_count(
        truth.open_order_client_ids@,
        id_text(settings.intent.client_order_id),
    ) > 0 && !settings.allow_foreign_orders {
        Some(LiveAdmissionRefusal::ForeignOpenOrders)
    } else {
        None
    }
}

/// Holds the venue truth against the order: the fact to record, and the
/// refusal that follows if the venue's own filters pass.
pub fn weigh_admission(config: &LiveLifecycleConfig, truth: &LiveAdmissionTruth) -> (r: (
    AdmissionFact,
    Option<LiveAdmissionRefusal>,
))
    ensures
        Some(r.0.notional@) == notional_of(config@.intent),
        r.0.free_base_quantity == truth.free_base_quantity,
        r.0.free_quote_amount == truth.free_quote_amount,
        r.0.open_orders_on_symbol == truth.open_order_client_ids@.len(),
        r.0.foreign_open_orders == foreign_count(
            truth.open_order_client_ids@,
            id_text(config@.intent.client_order_id),
        ),
        r.1 == refusal_for(config@, *truth),
{
    proof {
        use_type_invariant(config);
    }
    let own: String = text_of_id(config.intent().client_order_id);
    let foreign: u64 = count_foreign(&truth.open_order_client_ids, &own);
    let notional: Decimal = match intent_notional(config.intent()) {
        Ok(notional) => notional,
        Err(_) => Decimal::zero(),
    };
    let fact: AdmissionFact = AdmissionFact {
        notional,
        free_base_quantity: truth.free_base_quantity,
        free_quote_amount: truth.free_quote_amount,
        open_orders_on_symbol: truth.open_order_client_ids.len() as u64,
        foreign_open_orders: foreign,
    };
    let refusal: Option<LiveAdmissionRefusal> = if config.intent().side == Side::Sell
        && truth.free_base_quantity.is_less_than(config.intent().quantity) {
        Some(LiveAdmissionRefusal::InsufficientBaseBalance)
    } else if config.intent().side == Side::Buy && truth.free_quote_amount.is_less_than(notional) {
        Some(LiveAdmissionRefusal::InsufficientQuoteBalance)
    } else if foreign > 0 && !config.allow_foreign_orders() {
        Some(LiveAdmissionRefusal::ForeignOpenOrders)
    } else {
        None
    };
    (fact, refusal)
}

/// The text of a lifecycle failure.
pub open spec fn lifecycle_error_text(error: LiveLifecycleError) -> Seq<char> {
    match error {
        LiveLifecycleError::NotionalExceedsCap { notional, max_notional } =>
            "the planned live order notional "@ + text_of(notional@) + " exceeds --max-notional "@
                + text_of(max_notional@),
        LiveLifecycleError::AdmissionRefused(refusal) =>
            "mainnet venue-truth admission refused the live order before submit: "@
                + refusal_label(refusal),
        LiveLifecycleError::InvalidConfig => "invalid Binance live lifecycle configuration"@,
        LiveLifecycleError::KillSwitchLatched =>
            "the live lifecycle kill switch is latched in this journal; review the account and start a fresh journal before any new lifecycle"@,
        LiveLifecycleError::ConfigConflict =>
            "the durable live lifecycle identity conflicts with this configuration"@,
        LiveLifecycleError::HistoryProbe => "unable to inspect the live lifecycle journal"@,
        LiveLifecycleError::HistoryRead => "unable to read bounded live lifecycle evidence"@,
        LiveLifecycleError::HistoryWrite => "unable to make the live lifecycle fact durable"@,
        LiveLifecycleError::CorruptHistory => "live lifecycle evidence violates its fact contract"@,
        LiveLifecycleError::Exchange(_) =>
            "Binance mainnet returned a definite lifecycle failure"@,
        LiveLifecycleError::ObservationNotReached =>
            "the expected live order observation was not reached before cleanup"@,
        LiveLifecycleError::UnsafeTerminal(_) =>
            "the live order reached an unexpected terminal state; the kill switch is now latched"@,
        LiveLifecycleError::OutcomeUnknown =>
            "the live lifecycle outcome is unresolved; rerun the same campaign to query first"@,
        LiveLifecycleError::RetryDeferred { not_before } =>
            "the durable Binance retry-after deadline has not elapsed"@,
        LiveLifecycleError::QueryBudgetExhausted =>
            "the durable live lifecycle query budget is exhausted; reconcile manually"@,
        LiveLifecycleError::PreviouslyFailed => "the live lifecycle campaign is already failed"@,
        LiveLifecycleError::ProtocolViolation =>
            "the live lifecycle response violated its identity contract"@,
        LiveLifecycleError::CounterOverflow => "the live lifecycle evidence counter overflowed"@,
    }
}

impl LiveLifecycleError {
    /// The text of the failure.
    pub fn message(&self) -> (r: String)
        ensures
            r@ == lifecycle_error_text(*self),
    {
        let text: &'static str = match self {
            LiveLifecycleError::NotionalExceedsCap { notional, max_notional } => {
                let head: String = joined(
                    "the planned live order notional ",
                    &notional.to_text(),
                );
                let cap: String = joined(" exceeds --max-notional ", &max_notional.to_text());
                let whole: String = joined(&head, &cap);
                assert(whole@ =~= lifecycle_error_text(*self));
                return whole;
            },
            LiveLifecycleError::AdmissionRefused(refusal) => {
                return joined(
                    "mainnet venue-truth admission refused the live order before submit: ",
                    refusal.label(),
                );
            },
            LiveLifecycleError::InvalidConfig => "invalid Binance live lifecycle configuration",
            LiveLifecycleError::KillSwitchLatched =>
                "the live lifecycle kill switch is latched in this journal; review the account and start a fresh journal before any new lifecycle",
            LiveLifecycleError::ConfigConflict =>
                "the durable live lifecycle identity conflicts with this configuration",
            LiveLifecycleError::HistoryProbe => "unable to inspect the live lifecycle journal",
            LiveLifecycleError::HistoryRead => "unable to read bounded live lifecycle evidence",
            LiveLifecycleError::HistoryWrite => "unable to make the live lifecycle fact durable",
            LiveLifecycleError::CorruptHistory =>
                "live lifecycle evidence violates its fact contract",
            LiveLifecycleError::Exchange(_) =>
                "Binance mainnet returned a definite lifecycle failure",
            LiveLifecycleError::ObservationNotReached =>
                "the expected live order observation was not reached before cleanup",
            LiveLifecycleError::UnsafeTerminal(_) =>
                "the live order reached an unexpected terminal state; the kill switch is now latched",
            LiveLifecycleError::OutcomeUnknown =>
                "the live lifecycle outcome is unresolved; rerun the same campaign to query first",
            LiveLifecycleError::RetryDeferred { not_before } =>
                "the durable Binance retry-after deadline has not elapsed",
            LiveLifecycleError::QueryBudgetExhausted =>
                "the durable live lifecycle query budget is exhausted; reconcile manually",
            LiveLifecycleError::PreviouslyFailed =>
                "the live lifecycle campaign is already failed",
            LiveLifecycleError::ProtocolViolation =>
                "the live lifecycle response violated its identity contract",
            LiveLifecycleError::CounterOverflow =>
                "the live lifecycle evidence counter overflowed",
        };
        text.to_owned()
    }
}

} // verus!
