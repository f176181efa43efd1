//! Read-only continuous arbitrage analysis over the bounded market-data plane.
//!
//! This module projects spread facts only. It has no exchange handle, execution
//! policy or order router, and nothing in it can submit an order.

use crate::decimal::{less_than, text_of, Decimal};
use crate::domain::{MarketType, StrategyError};
use crate::text::same_text;
use crate::timestamp::{later_of, Timestamp};
use vstd::prelude::*;

verus! {

/// Stable schema version for journaled read-only arbitrage monitor events.
pub const ARBITRAGE_MONITOR_EVENT_SCHEMA_VERSION: u16 = 1;

/// Maximum bytes accepted by the deterministic JSONL replay adapter.
pub const MAX_MONITOR_REPLAY_BYTES: u64 = 8_388_608;

/// Maximum bytes accepted for one replay snapshot record.
pub const MAX_MONITOR_REPLAY_RECORD_BYTES: usize = 65_536;

pub const MAX_MONITOR_REPLAY_SYMBOL_BYTES: usize = 128;

/// Deterministic high-water clock used by finite replay.
///
/// There is one clock for one replay: it cannot be cloned or copied. Every
/// source advances that clock through `&mut`, and every reader borrows it, so
/// all of them see the latest instant that any source has reached.
#[derive(Debug)]
pub struct ReplayMarketDataClock {
    now: Timestamp,
}

impl ReplayMarketDataClock {
    /// The instant that the clock shows.
    pub closed spec fn now_view(self) -> Timestamp {
        self.now
    }

    pub fn new(now: Timestamp) -> (r: ReplayMarketDataClock)
        ensures
            r.now_view() == now,
    {
        ReplayMarketDataClock { now }
    }

    /// Advances to the supplied event time without ever moving backwards.
    pub fn advance(&mut self, candidate: Timestamp)
        ensures
            final(self).now_view() == later_of(old(self).now_view(), candidate),
            final(self).now_view().rank() >= old(self).now_view().rank(),
            final(self).now_view().rank() >= candidate.rank(),
    {
        self.now = self.now.later(candidate);
    }

    pub fn now(&self) -> (r: Timestamp)
        ensures
            r == self.now_view(),
    {
        self.now
    }
}

/// The clock after it was advanced to each of the instants.
pub open spec fn clock_after(now: Timestamp, candidates: Seq<Timestamp>) -> Timestamp
    decreases candidates.len(),
{
    if candidates.len() == 0 {
        now
    } else {
        later_of(clock_after(now, candidates.drop_last()), candidates.last())
    }
}

/// However the clock is advanced, it shows the latest of its start and of all
/// the instants it was advanced to: it never moves back, and it never runs
/// ahead of them.
pub proof fn law_clock_shows_the_latest(now: Timestamp, candidates: Seq<Timestamp>)
    ensures
        clock_after(now, candidates).rank() >= now.rank(),
        forall|i: int|
            0 <= i < candidates.len() ==> clock_after(now, candidates).rank() >= (
            #[trigger] candidates[i]).rank(),
        clock_after(now, candidates) == now || candidates.contains(clock_after(now, candidates)),
    decreases candidates.len(),
{
    if candidates.len() > 0 {
        let before = candidates.drop_last();
        law_clock_shows_the_latest(now, before);
        assert forall|i: int| 0 <= i < candidates.len() implies clock_after(now, candidates).rank()
            >= (#[trigger] candidates[i]).rank() by {
            if i < before.len() {
                assert(before[i] == candidates[i]);
            }
        }
        if before.contains(clock_after(now, before)) {
            let i = choose|i: int| 0 <= i < before.len() && before[i] == clock_after(now, before);
            assert(candidates[i] == clock_after(now, before));
        }
        assert(candidates[candidates.len() - 1] == candidates.last());
    }
}

/// The order of the advances does not matter: a clock that was advanced to the
/// same instants, in whatever order and however often, shows the same instant.
pub proof fn law_order_of_advances_does_not_matter(
    now: Timestamp,
    candidates: Seq<Timestamp>,
    reordered: Seq<Timestamp>,
)
    requires
        forall|at: Timestamp| candidates.contains(at) <==> reordered.contains(at),
    ensures
        clock_after(now, candidates) == clock_after(now, reordered),
{
    law_clock_shows_the_latest(now, candidates);
    law_clock_shows_the_latest(now, reordered);
    let (a, b) = (clock_after(now, candidates), clock_after(now, reordered));
    if candidates.contains(a) {
        assert(reordered.contains(a));
        let i = choose|i: int| 0 <= i < reordered.len() && reordered[i] == a;
        assert(b.rank() >= reordered[i].rank());
    }
    if reordered.contains(b) {
        assert(candidates.contains(b));
        let i = choose|i: int| 0 <= i < candidates.len() && candidates[i] == b;
        assert(a.rank() >= candidates[i].rank());
    }
    assert(a.rank() == b.rank());
}

/// One exact instrument.
#[derive(Debug)]
pub struct MarketInstrument {
    pub exchange: String,
    pub symbol: String,
    pub market_type: MarketType,
}

/// The two name the same instrument.
pub open spec fn same_instrument(a: MarketInstrument, b: MarketInstrument) -> bool {
    a.exchange@ == b.exchange@ && a.symbol@ == b.symbol@ && a.market_type == b.market_type
}

impl MarketInstrument {
    pub fn equals(&self, other: &MarketInstrument) -> (r: bool)
        ensures
            r == same_instrument(*self, *other),
    {
        same_text(&self.exchange, &other.exchange) && same_text(&self.symbol, &other.symbol)
            && self.market_type == other.market_type
    }

    pub fn copy(&self) -> (r: MarketInstrument)
        ensures
            r == *self,
    {
        MarketInstrument {
            exchange: self.exchange.clone(),
            symbol: self.symbol.clone(),
            market_type: self.market_type,
        }
    }
}

/// Stable, non-secret classification of a pure analysis rejection.
#[derive(Clone, Copy, Debug, PartialEq, Eq, Structural)]
pub enum MonitorAnalysisFailure {
    InvalidConfig,
    SnapshotMismatch,
    MissingMarketData,
    InvalidFinancialValue,
}

pub open spec fn analysis_failure_text(failure: MonitorAnalysisFailure) -> Seq<char> {
    match failure {
        MonitorAnalysisFailure::InvalidConfig => "invalid_config"@,
        MonitorAnalysisFailure::SnapshotMismatch => "snapshot_mismatch"@,
        MonitorAnalysisFailure::MissingMarketData => "missing_market_data"@,
        MonitorAnalysisFailure::InvalidFinancialValue => "invalid_financial_value"@,
    }
}

pub open spec fn failure_of(error: StrategyError) -> MonitorAnalysisFailure {
    match error {
        StrategyError::InvalidConfig(_) => MonitorAnalysisFailure::InvalidConfig,
        StrategyError::SnapshotMismatch(_) => MonitorAnalysisFailure::SnapshotMismatch,
        StrategyError::MissingMarketData(_) => MonitorAnalysisFailure::MissingMarketData,
        StrategyError::InvalidFinancialValue(_) => MonitorAnalysisFailure::InvalidFinancialValue,
    }
}

impl MonitorAnalysisFailure {
    pub fn as_str(self) -> (r: &'static str)
        ensures
            r@ == analysis_failure_text(self),
    {
        match self {
            MonitorAnalysisFailure::InvalidConfig => "invalid_config",
            MonitorAnalysisFailure::SnapshotMismatch => "snapshot_mismatch",
            MonitorAnalysisFailure::MissingMarketData => "missing_market_data",
            MonitorAnalysisFailure::InvalidFinancialValue => "invalid_financial_value",
        }
    }

    /// The class of a strategy failure; its text is left behind.
    pub fn from_error(error: &StrategyError) -> (r: MonitorAnalysisFailure)
        ensures
            r == failure_of(*error),
    {
        match error {
            StrategyError::InvalidConfig(_) => MonitorAnalysisFailure::InvalidConfig,
            StrategyError::SnapshotMismatch(_) => MonitorAnalysisFailure::SnapshotMismatch,
            StrategyError::MissingMarketData(_) => MonitorAnalysisFailure::MissingMarketData,
            StrategyError::InvalidFinancialValue(_) => MonitorAnalysisFailure::InvalidFinancialValue,
        }
    }
}

/// What the book made of a source event.
#[derive(Clone, Copy, Debug, PartialEq, Eq, Structural)]
pub enum MarketDataUpdate {
    Accepted,
    AcceptedWithGap,
    IgnoredDuplicate,
    IgnoredOutOfOrder,
    IgnoredDuplicateTimestamp,
    IgnoredOutOfOrderTimestamp,
    IgnoredOutOfOrderReceipt,
    SourceDegraded,
}

pub open spec fn market_update_text(update: MarketDataUpdate) -> Seq<char> {
    match update {
        MarketDataUpdate::Accepted => "accepted"@,
        MarketDataUpdate::AcceptedWithGap => "accepted_with_gap"@,
        MarketDataUpdate::IgnoredDuplicate => "ignored_duplicate"@,
        MarketDataUpdate::IgnoredOutOfOrder => "ignored_out_of_order"@,
        MarketDataUpdate::IgnoredDuplicateTimestamp => "ignored_duplicate_timestamp"@,
        MarketDataUpdate::IgnoredOutOfOrderTimestamp => "ignored_out_of_order_timestamp"@,
        MarketDataUpdate::IgnoredOutOfOrderReceipt => "ignored_out_of_order_receipt"@,
        MarketDataUpdate::SourceDegraded => "source_degraded"@,
    }
}

pub fn market_update_label(update: MarketDataUpdate) -> (r: &'static str)
    ensures
        r@ == market_update_text(update),
{
    match update {
        MarketDataUpdate::Accepted => "accepted",
        MarketDataUpdate::AcceptedWithGap => "accepted_with_gap",
        MarketDataUpdate::IgnoredDuplicate => "ignored_duplicate",
        MarketDataUpdate::IgnoredOutOfOrder => "ignored_out_of_order",
        MarketDataUpdate::IgnoredDuplicateTimestamp => "ignored_duplicate_timestamp",
        MarketDataUpdate::IgnoredOutOfOrderTimestamp => "ignored_out_of_order_timestamp",
        MarketDataUpdate::IgnoredOutOfOrderReceipt => "ignored_out_of_order_receipt",
        MarketDataUpdate::SourceDegraded => "source_degraded",
    }
}

/// The best spread of a pair.
#[derive(Debug)]
pub struct Spread {
    pub buy_exchange: String,
    pub sell_exchange: String,
    pub buy_price: Decimal,
    pub sell_price: Decimal,
    pub absolute: Decimal,
    pub percent: Decimal,
}

/// What the book shows of the pair.
#[derive(Debug)]
pub enum PairAnalysis {
    /// Both legs are current; the spread between them.
    Spread(Spread),
    /// Both legs are current, but have no spread.
    Rejected(StrategyError),
    /// One leg is not ready.
    NotReady { instrument: MarketInstrument, freshness: String, continuity: String },
    /// The book cannot be read.
    Failed,
}

/// The spread of an outcome, with the threshold that it was held against.
#[derive(Debug)]
pub struct MeasuredSpread {
    pub spread: Spread,
    pub threshold_percent: Decimal,
}

/// Outcome projected for an operator; no variant contains order intents.
#[derive(Debug)]
pub enum ArbitrageMonitorOutcome {
    Waiting { instrument: MarketInstrument, freshness: String, continuity: String },
    NoOpportunity(MeasuredSpread),
    Opportunity(MeasuredSpread),
    AnalysisRejected { failure: MonitorAnalysisFailure },
}

pub open spec fn decision_label_of(outcome: ArbitrageMonitorOutcome) -> Seq<char> {
    match outcome {
        ArbitrageMonitorOutcome::Waiting { .. } => "monitor_waiting"@,
        ArbitrageMonitorOutcome::NoOpportunity(_) => "monitor_no_opportunity"@,
        ArbitrageMonitorOutcome::Opportunity(_) => "monitor_opportunity"@,
        ArbitrageMonitorOutcome::AnalysisRejected { .. } => "monitor_analysis_rejected"@,
    }
}

/// One event emitted after every accepted source event.
#[derive(Debug)]
pub struct ArbitrageMonitorEvent {
    pub schema_version: u16,
    pub sequence: u64,
    pub recorded_at: Timestamp,
    pub market_generation: u64,
    pub market_update: MarketDataUpdate,
    pub left: MarketInstrument,
    pub right: MarketInstrument,
    pub outcome: ArbitrageMonitorOutcome,
}

/// Fatal contract failures for one bound monitor stream.
#[derive(Clone, Copy, Debug, PartialEq, Eq, Structural)]
pub enum ArbitrageMonitorError {
    NegativeThreshold,
    DuplicateLeg,
    SequenceExhausted,
    Market,
}

pub open spec fn monitor_error_text(error: ArbitrageMonitorError, cause: Seq<char>) -> Seq<char> {
    match error {
        ArbitrageMonitorError::NegativeThreshold =>
            "arbitrage monitor spread threshold must not be negative"@,
        ArbitrageMonitorError::DuplicateLeg =>
            "arbitrage monitor needs two distinct exact instruments"@,
        ArbitrageMonitorError::SequenceExhausted => "arbitrage monitor sequence is exhausted"@,
        ArbitrageMonitorError::Market => cause,
    }
}

impl ArbitrageMonitorError {
    /// The text of the failure; `cause` is the text of what the book said.
    pub fn message(self, cause: &str) -> (r: String)
        ensures
            r@ == monitor_error_text(self, cause@),
    {
        let text: &str = match self {
            ArbitrageMonitorError::NegativeThreshold =>
                "arbitrage monitor spread threshold must not be negative",
            ArbitrageMonitorError::DuplicateLeg =>
                "arbitrage monitor needs two distinct exact instruments",
            ArbitrageMonitorError::SequenceExhausted => "arbitrage monitor sequence is exhausted",
            ArbitrageMonitorError::Market => cause,
        };
        text.to_owned()
    }
}

/// The number of the last event, once this update was handed in.
pub open spec fn sequence_after(sequence: u64, applied: Option<MarketDataUpdate>) -> u64 {
    if applied is Some && sequence < u64::MAX {
        (sequence + 1) as u64
    } else {
        sequence
    }
}

/// The event that an update gives: one that was not applied gives none, nor
/// does one behind the last number, nor a pair that cannot be analysed.
pub open spec fn monitored_event(
    left: MarketInstrument,
    right: MarketInstrument,
    threshold: Decimal,
    sequence: u64,
    applied: Option<MarketDataUpdate>,
    observed_at: Timestamp,
    market_generation: u64,
    analysis: PairAnalysis,
) -> Result<ArbitrageMonitorEvent, ArbitrageMonitorError> {
    if applied is None {
        Err(ArbitrageMonitorError::Market)
    } else if sequence == u64::MAX {
        Err(ArbitrageMonitorError::SequenceExhausted)
    } else {
        match outcome_of(analysis, threshold) {
            None => Err(ArbitrageMonitorError::Market),
            Some(outcome) => Ok(
                ArbitrageMonitorEvent {
                    schema_version: ARBITRAGE_MONITOR_EVENT_SCHEMA_VERSION,
                    sequence: (sequence + 1) as u64,
                    recorded_at: observed_at,
                    market_generation,
                    market_update: applied->0,
                    left,
                    right,
                    outcome,
                },
            ),
        }
    }
}

/// One continuous, read-only arbitrage evaluator bound to an exact pair.
#[derive(Debug)]
pub struct ReadOnlyArbitrageMonitor {
    left: MarketInstrument,
    right: MarketInstrument,
    threshold_percent: Decimal,
    sequence: u64,
}

/// The spread is worth reporting: positive and at least the threshold.
pub open spec fn is_opportunity(percent: (i128, u32), threshold: (i128, u32)) -> bool {
    percent.0 > 0 && !less_than(percent, threshold)
}

/// The outcome of an analysis; nothing where the book cannot be read.
pub open spec fn outcome_of(analysis: PairAnalysis, threshold_percent: Decimal) -> Option<
    ArbitrageMonitorOutcome,
> {
    match analysis {
        PairAnalysis::Spread(spread) => Some(
            if is_opportunity(spread.percent@, threshold_percent@) {
                ArbitrageMonitorOutcome::Opportunity(MeasuredSpread { spread, threshold_percent })
            } else {
                ArbitrageMonitorOutcome::NoOpportunity(MeasuredSpread { spread, threshold_percent })
            },
        ),
        PairAnalysis::Rejected(error) => Some(
            ArbitrageMonitorOutcome::AnalysisRejected { failure: failure_of(error) },
        ),
        PairAnalysis::NotReady { instrument, freshness, continuity } => Some(
            ArbitrageMonitorOutcome::Waiting { instrument, freshness, continuity },
        ),
        PairAnalysis::Failed => None,
    }
}

impl ReadOnlyArbitrageMonitor {
    pub closed spec fn left_view(self) -> MarketInstrument {
        self.left
    }

    pub closed spec fn right_view(self) -> MarketInstrument {
        self.right
    }

    pub closed spec fn threshold_view(self) -> Decimal {
        self.threshold_percent
    }

    /// The number of the last event.
    pub closed spec fn sequence_view(self) -> u64 {
        self.sequence
    }

    /// Every monitor is bound to two distinct instruments, with a threshold
    /// that is not negative.
    #[verifier::type_invariant]
    pub open spec fn is_bound(self) -> bool {
        !same_instrument(self.left_view(), self.right_view()) && self.threshold_view()@.0 >= 0
    }

    /// Binds a monitor to two distinct instruments already present in the
    /// book; whether each is there is given.
    pub fn new(
        left: MarketInstrument,
        right: MarketInstrument,
        left_in_book: bool,
        right_in_book: bool,
        threshold_percent: Decimal,
    ) -> (r: Result<ReadOnlyArbitrageMonitor, ArbitrageMonitorError>)
        ensures
            if threshold_percent@.0 < 0 {
                r == Err::<ReadOnlyArbitrageMonitor, _>(ArbitrageMonitorError::NegativeThreshold)
            } else if same_instrument(left, right) {
                r == Err::<ReadOnlyArbitrageMonitor, _>(ArbitrageMonitorError::DuplicateLeg)
            } else if !left_in_book || !right_in_book {
                r == Err::<ReadOnlyArbitrageMonitor, _>(ArbitrageMonitorError::Market)
            } else {
                &&& r is Ok
                &&& r->Ok_0.left_view() == left
                &&& r->Ok_0.right_view() == right
                &&& r->Ok_0.threshold_view() == threshold_percent
                &&& r->Ok_0.sequence_view() == 0
            },
    {
        if threshold_percent.mantissa() < 0 {
            return Err(ArbitrageMonitorError::NegativeThreshold);
        }
        if left.equals(&right) {
            return Err(ArbitrageMonitorError::DuplicateLeg);
        }
        if !left_in_book || !right_in_book {
            return Err(ArbitrageMonitorError::Market);
        }
        Ok(ReadOnlyArbitrageMonitor { left, right, threshold_percent, sequence: 0 })
    }

    /// Returns the exact ordered pair bound to this monitor.
    pub fn legs(&self) -> (r: (&MarketInstrument, &MarketInstrument))
        ensures
            *r.0 == self.left_view(),
            *r.1 == self.right_view(),
    {
        (&self.left, &self.right)
    }

    /// Takes one source event, given what the book made of it and what the
    /// book shows of the pair then, and emits exactly one operator-visible
    /// monitor event. A leg that is not ready becomes a waiting outcome rather
    /// than being hidden.
    pub fn process(
        &mut self,
        applied: Option<MarketDataUpdate>,
        observed_at: Timestamp,
        market_generation: u64,
        analysis: PairAnalysis,
    ) -> (r: Result<ArbitrageMonitorEvent, ArbitrageMonitorError>)
        ensures
            final(self).left_view() == old(self).left_view(),
            final(self).right_view() == old(self).right_view(),
            final(self).threshold_view() == old(self).threshold_view(),
            r == monitored_event(
                old(self).left_view(),
                old(self).right_view(),
                old(self).threshold_view(),
                old(self).sequence_view(),
                applied,
                observed_at,
                market_generation,
                analysis,
            ),
            final(self).sequence_view() == sequence_after(old(self).sequence_view(), applied),
    {
        proof {
            use_type_invariant(&*self);
        }
        let market_update: MarketDataUpdate = match applied {
            Some(update) => update,
            None => return Err(ArbitrageMonitorError::Market),
        };
        if self.sequence == u64::MAX {
            return Err(ArbitrageMonitorError::SequenceExhausted);
        }
        self.sequence = self.sequence + 1;
        let threshold_percent: Decimal = self.threshold_percent;
        let outcome: ArbitrageMonitorOutcome = match analysis {
            PairAnalysis::Spread(spread) => {
                if spread.percent.is_positive() && !spread.percent.is_less_than(threshold_percent) {
                    ArbitrageMonitorOutcome::Opportunity(
                        MeasuredSpread { spread, threshold_percent },
                    )
                } else {
                    ArbitrageMonitorOutcome::NoOpportunity(
                        MeasuredSpread { spread, threshold_percent },
                    )
                }
            },
            PairAnalysis::Rejected(error) => ArbitrageMonitorOutcome::AnalysisRejected {
                failure: MonitorAnalysisFailure::from_error(&error),
            },
            PairAnalysis::NotReady { instrument, freshness, continuity } =>
                ArbitrageMonitorOutcome::Waiting { instrument, freshness, continuity },
            PairAnalysis::Failed => return Err(ArbitrageMonitorError::Market),
        };
        Ok(
            ArbitrageMonitorEvent {
                schema_version: ARBITRAGE_MONITOR_EVENT_SCHEMA_VERSION,
                sequence: self.sequence,
                recorded_at: observed_at,
                market_generation,
                market_update,
                left: self.left.copy(),
                right: self.right.copy(),
                outcome,
            },
        )
    }
}

/// The instrument as a record shows it.
#[derive(Debug)]
pub struct InstrumentDetails {
    pub exchange: String,
    pub symbol: String,
    pub market_type: &'static str,
}

pub open spec fn market_type_text(market_type: MarketType) -> Seq<char> {
    match market_type {
        MarketType::Spot => "spot"@,
        MarketType::Perpetual => "perpetual"@,
    }
}

pub open spec fn shows_instrument(details: InstrumentDetails, instrument: MarketInstrument) -> bool {
    &&& details.exchange@ == instrument.exchange@
    &&& details.symbol@ == instrument.symbol@
    &&& details.market_type@ == market_type_text(instrument.market_type)
}

pub fn instrument_details(instrument: &MarketInstrument) -> (r: InstrumentDetails)
    ensures
        shows_instrument(r, *instrument),
{
    InstrumentDetails {
        exchange: instrument.exchange.clone(),
        symbol: instrument.symbol.clone(),
        market_type: match instrument.market_type {
            MarketType::Spot => "spot",
            MarketType::Perpetual => "perpetual",
        },
    }
}

/// The spread as a record shows it.
#[derive(Debug)]
pub struct SpreadDetails {
    pub kind: &'static str,
    pub buy_exchange: String,
    pub sell_exchange: String,
    pub buy_price: String,
    pub sell_price: String,
    pub absolute_spread: String,
    pub spread_percent: String,
    pub threshold_percent: String,
}

pub open spec fn shows_spread(
    details: SpreadDetails,
    kind: Seq<char>,
    measured: MeasuredSpread,
) -> bool {
    &&& details.kind@ == kind
    &&& details.buy_exchange@ == measured.spread.buy_exchange@
    &&& details.sell_exchange@ == measured.spread.sell_exchange@
    &&& details.buy_price@ == text_of(measured.spread.buy_price@)
    &&& details.sell_price@ == text_of(measured.spread.sell_price@)
    &&& details.absolute_spread@ == text_of(measured.spread.absolute@)
    &&& details.spread_percent@ == text_of(measured.spread.percent@)
    &&& details.threshold_percent@ == text_of(measured.threshold_percent@)
}

pub fn spread_details(kind: &'static str, measured: &MeasuredSpread) -> (r: SpreadDetails)
    ensures
        shows_spread(r, kind@, *measured),
{
    SpreadDetails {
        kind,
        buy_exchange: measured.spread.buy_exchange.clone(),
        sell_exchange: measured.spread.sell_exchange.clone(),
        buy_price: measured.spread.buy_price.to_text(),
        sell_price: measured.spread.sell_price.to_text(),
        absolute_spread: measured.spread.absolute.to_text(),
        spread_percent: measured.spread.percent.to_text(),
        threshold_percent: measured.threshold_percent.to_text(),
    }
}

/// The outcome as a record shows it.
#[derive(Debug)]
pub enum OutcomeDetails {
    Waiting {
        kind: &'static str,
        instrument: InstrumentDetails,
        freshness: String,
        continuity: String,
    },
    Spread(SpreadDetails),
    AnalysisRejected { kind: &'static str, failure: &'static str },
}

pub open spec fn shows_outcome(details: OutcomeDetails, outcome: ArbitrageMonitorOutcome) -> bool {
    match outcome {
        ArbitrageMonitorOutcome::Waiting { instrument, freshness, continuity } => {
            &&& details is Waiting
            &&& details->Waiting_kind@ == "waiting"@
            &&& shows_instrument(details->Waiting_instrument, instrument)
            &&& details->Waiting_freshness@ == freshness@
            &&& details->Waiting_continuity@ == continuity@
        },
        ArbitrageMonitorOutcome::NoOpportunity(measured) => details is Spread && shows_spread(
            details->Spread_0,
            "no_opportunity"@,
            measured,
        ),
        ArbitrageMonitorOutcome::Opportunity(measured) => details is Spread && shows_spread(
            details->Spread_0,
            "opportunity"@,
            measured,
        ),
        ArbitrageMonitorOutcome::AnalysisRejected { failure } => {
            &&& details is AnalysisRejected
            &&& details->AnalysisRejected_kind@ == "analysis_rejected"@
            &&& details->AnalysisRejected_failure@ == analysis_failure_text(failure)
        },
    }
}

impl ArbitrageMonitorOutcome {
    pub fn decision_label(&self) -> (r: &'static str)
        ensures
            r@ == decision_label_of(*self),
    {
        match self {
            ArbitrageMonitorOutcome::Waiting { .. } => "monitor_waiting",
            ArbitrageMonitorOutcome::NoOpportunity(_) => "monitor_no_opportunity",
            ArbitrageMonitorOutcome::Opportunity(_) => "monitor_opportunity",
            ArbitrageMonitorOutcome::AnalysisRejected { .. } => "monitor_analysis_rejected",
        }
    }

    pub fn details(&self) -> (r: OutcomeDetails)
        ensures
            shows_outcome(r, *self),
    {
        match self {
            ArbitrageMonitorOutcome::Waiting { instrument, freshness, continuity } =>
                OutcomeDetails::Waiting {
                    kind: "waiting",
                    instrument: instrument_details(instrument),
                    freshness: freshness.clone(),
                    continuity: continuity.clone(),
                },
            ArbitrageMonitorOutcome::NoOpportunity(measured) => OutcomeDetails::Spread(
                spread_details("no_opportunity", measured),
            ),
            ArbitrageMonitorOutcome::Opportunity(measured) => OutcomeDetails::Spread(
                spread_details("opportunity", measured),
            ),
            ArbitrageMonitorOutcome::AnalysisRejected { failure } =>
                OutcomeDetails::AnalysisRejected {
                    kind: "analysis_rejected",
                    failure: failure.as_str(),
                },
        }
    }
}

/// The symbol that both legs trade, or that they trade different ones.
pub open spec fn pair_symbol(left: MarketInstrument, right: MarketInstrument) -> Seq<char> {
    if left.symbol@ == right.symbol@ {
        left.symbol@
    } else {
        "cross-symbol-pair"@
    }
}

pub fn monitor_symbol(left: &MarketInstrument, right: &MarketInstrument) -> (r: String)
    ensures
        r@ == pair_symbol(*left, *right),
{
    if same_text(&left.symbol, &right.symbol) {
        left.symbol.clone()
    } else {
        "cross-symbol-pair".to_owned()
    }
}

/// One journal record of a monitor event.
#[derive(Debug)]
pub struct MonitorRecord {
    pub recorded_at: Timestamp,
    pub strategy: &'static str,
    pub symbol: String,
    pub decision: &'static str,
    pub schema_version: u16,
    pub sequence: u64,
    pub market_generation: u64,
    pub market_update: &'static str,
    pub left: InstrumentDetails,
    pub right: InstrumentDetails,
    pub outcome: OutcomeDetails,
}

impl ArbitrageMonitorEvent {
    /// Projects the typed event into the bounded append-only journal.
    pub fn to_record(&self) -> (r: MonitorRecord)
        ensures
            r.recorded_at == self.recorded_at,
            r.strategy@ == "arbitrage_monitor"@,
            r.symbol@ == pair_symbol(self.left, self.right),
            r.decision@ == decision_label_of(self.outcome),
            r.schema_version == self.schema_version,
            r.sequence == self.sequence,
            r.market_generation == self.market_generation,
            r.market_update@ == market_update_text(self.market_update),
            shows_instrument(r.left, self.left),
            shows_instrument(r.right, self.right),
            shows_outcome(r.outcome, self.outcome),
    {
        MonitorRecord {
            recorded_at: self.recorded_at,
            strategy: "arbitrage_monitor",
            symbol: monitor_symbol(&self.left, &self.right),
            decision: self.outcome.decision_label(),
            schema_version: self.schema_version,
            sequence: self.sequence,
            market_generation: self.market_generation,
            market_update: market_update_label(self.market_update),
            left: instrument_details(&self.left),
            right: instrument_details(&self.right),
            outcome: self.outcome.details(),
        }
    }
}

} // verus!
