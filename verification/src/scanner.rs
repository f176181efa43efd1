//! Deterministic, offline ranking of virtual grids.
//!
//! One bounded operation: validated price observations are replayed through
//! virtual grids, the results are ranked, and a report comes out only once the
//! record of the whole ranking is in the journal. Nothing here can reach an
//! exchange.

use vstd::prelude::*;

use crate::decimal::Decimal;
use crate::domain::{MarketType, StrategyError};
use crate::monitor::{same_instrument, MarketInstrument};
use crate::text::{
    all_identity_chars, byte_len, byte_length, characters, is_digit, is_text_before,
    lemma_text_not_before_itself, lemma_text_not_before_transitive, lemma_text_order_is_asymmetric,
    lemma_text_order_is_total, safe_identity, same_text, text_before, trim_of, trimmed,
};
use crate::timestamp::{seconds_between, Timestamp};

verus! {

/// Stable schema version for one durable scanner ranking fact.
pub const VIRTUAL_GRID_SCAN_RECORD_SCHEMA_VERSION: u16 = 1;

/// Maximum exact instruments evaluated by one bounded scan.
pub const MAX_VIRTUAL_GRID_SCAN_CANDIDATES: usize = 128;

/// Maximum price observations accepted for one instrument.
pub const MAX_VIRTUAL_GRID_SCAN_OBSERVATIONS_PER_CANDIDATE: usize = 8_192;

/// Maximum price observations accepted across one scan.
pub const MAX_VIRTUAL_GRID_SCAN_OBSERVATIONS: usize = 65_536;

/// Maximum ranked rows persisted by one scan.
pub const MAX_VIRTUAL_GRID_SCAN_ROWS: usize = 128;

/// Maximum configured APR window in seconds: 366 days.
pub const MAX_VIRTUAL_GRID_SCAN_WINDOW_SECONDS: u32 = 31_622_400;

/// Maximum length of a run identity or a market identity in bytes.
pub const MAX_SCAN_IDENTITY_BYTES: usize = 128;

/// The window in which recent cycles are counted.
pub const RECENT_WINDOW_SECONDS: u32 = 300;

/// Explicit display priority of a candidate.
#[derive(Clone, Copy, Debug, PartialEq, Eq, Structural)]
pub enum ScannerPriority {
    Benchmark,
    Standard,
}

pub open spec fn priority_rank(priority: ScannerPriority) -> u8 {
    match priority {
        ScannerPriority::Benchmark => 0,
        ScannerPriority::Standard => 1,
    }
}

pub open spec fn priority_text(priority: ScannerPriority) -> Seq<char> {
    match priority {
        ScannerPriority::Benchmark => "benchmark"@,
        ScannerPriority::Standard => "standard"@,
    }
}

impl ScannerPriority {
    /// Lower ranks come first.
    pub fn rank(self) -> (r: u8)
        ensures
            r == priority_rank(self),
    {
        match self {
            ScannerPriority::Benchmark => 0,
            ScannerPriority::Standard => 1,
        }
    }

    pub fn as_str(self) -> (r: &'static str)
        ensures
            r@ == priority_text(self),
    {
        match self {
            ScannerPriority::Benchmark => "benchmark",
            ScannerPriority::Standard => "standard",
        }
    }
}

/// Whether one projected row was evaluated from observed prices.
#[derive(Clone, Copy, Debug, PartialEq, Eq, Structural)]
pub enum ScannerActivity {
    Active,
}

/// Stable, presentation-safe rating grade.
#[derive(Clone, Copy, Debug, PartialEq, Eq, Structural)]
pub enum ScannerRatingGrade {
    S,
    A,
    B,
    C,
    D,
}

pub open spec fn grade_text(grade: ScannerRatingGrade) -> Seq<char> {
    match grade {
        ScannerRatingGrade::S => "s"@,
        ScannerRatingGrade::A => "a"@,
        ScannerRatingGrade::B => "b"@,
        ScannerRatingGrade::C => "c"@,
        ScannerRatingGrade::D => "d"@,
    }
}

impl ScannerRatingGrade {
    /// The lower-case letter of the grade.
    pub fn as_str(self) -> (r: &'static str)
        ensures
            r@ == grade_text(self),
    {
        match self {
            ScannerRatingGrade::S => "s",
            ScannerRatingGrade::A => "a",
            ScannerRatingGrade::B => "b",
            ScannerRatingGrade::C => "c",
            ScannerRatingGrade::D => "d",
        }
    }
}

/// Bounded failure surface for deterministic scanner callers.
#[derive(Debug)]
#[allow(inconsistent_fields)]
pub enum VirtualGridScannerError {
    InvalidRunId,
    InvalidInstrumentIdentity,
    InvalidAprWindow { seconds: u32 },
    InvalidRowLimit { rows: usize, limit: usize },
    MissingCandidates,
    TooManyCandidates { count: usize, limit: usize },
    MissingObservations { instrument: MarketInstrument },
    TooManyCandidateObservations { instrument: MarketInstrument, count: usize, limit: usize },
    TooManyObservations { count: usize, limit: usize },
    InvalidObservationSequence { expected: u64, observed: u64 },
    NonMonotonicObservationTime { instrument: MarketInstrument, sequence: u64 },
    EvaluationPrecedesObservation { instrument: MarketInstrument },
    DuplicateInstrument { instrument: MarketInstrument },
    NegativeVolume { instrument: MarketInstrument },
    CountOverflow,
    Strategy(StrategyError),
    /// The record of the ranking could not be appended.
    Journal,
}

/// One explicit, ordered historical price observation.
#[derive(Clone, Copy, Debug)]
pub struct VirtualGridScanObservation {
    pub sequence: u64,
    pub price: Decimal,
    pub observed_at: Timestamp,
}

impl VirtualGridScanObservation {
    /// One source observation; the sequence starts at one.
    pub fn new(sequence: u64, price: Decimal, observed_at: Timestamp) -> (r: Result<
        VirtualGridScanObservation,
        VirtualGridScannerError,
    >)
        ensures
            r == if sequence == 0 {
                Err::<VirtualGridScanObservation, VirtualGridScannerError>(
                    VirtualGridScannerError::InvalidObservationSequence {
                        expected: 1,
                        observed: 0,
                    },
                )
            } else {
                Ok(VirtualGridScanObservation { sequence, price, observed_at })
            },
    {
        if sequence == 0 {
            return Err(
                VirtualGridScannerError::InvalidObservationSequence {
                    expected: 1,
                    observed: sequence,
                },
            );
        }
        Ok(VirtualGridScanObservation { sequence, price, observed_at })
    }
}

/// The observation stands where it belongs: its sequence counts the
/// observations, and it is not earlier than the one before it.
pub open spec fn observation_fits(
    observations: Seq<VirtualGridScanObservation>,
    index: int,
) -> bool {
    &&& observations[index].sequence == index + 1
    &&& index > 0 ==> observations[index].observed_at.rank() >= observations[index
        - 1].observed_at.rank()
}

/// The observations are contiguous from sequence one and never go back in time.
pub open spec fn observations_fit(observations: Seq<VirtualGridScanObservation>) -> bool {
    forall|i: int| 0 <= i < observations.len() ==> #[trigger] observation_fits(observations, i)
}

/// The first observation that does not stand where it belongs is this one.
pub open spec fn is_first_misfit(
    observations: Seq<VirtualGridScanObservation>,
    index: int,
) -> bool {
    &&& 0 <= index < observations.len()
    &&& !observation_fits(observations, index)
    &&& forall|i: int| 0 <= i < index ==> #[trigger] observation_fits(observations, i)
}

/// A market identity of canonical ASCII.
pub open spec fn is_market_identity(value: Seq<char>) -> bool {
    value.len() > 0 && byte_length(value) <= MAX_SCAN_IDENTITY_BYTES && all_identity_chars(value)
}

/// A market identity of canonical ASCII.
pub fn valid_market_identity_text(value: &str) -> (r: bool)
    ensures
        r == is_market_identity(value@),
{
    characters(value).len() > 0 && byte_len(value) <= MAX_SCAN_IDENTITY_BYTES && safe_identity(
        value,
    )
}

/// One exact scanner candidate and its complete deterministic replay.
#[derive(Debug)]
pub struct VirtualGridScanCandidate {
    instrument: MarketInstrument,
    grid_width_percent: Decimal,
    grid_interval_percent: Decimal,
    volume_24h_usdc: Decimal,
    price_change_24h_percent: Option<Decimal>,
    priority: ScannerPriority,
    observations: Vec<VirtualGridScanObservation>,
}

/// What a candidate can be asked for before its grid is tried; nothing where it
/// is in order.
pub open spec fn is_candidate_error(
    error: VirtualGridScannerError,
    instrument: MarketInstrument,
    volume: Decimal,
    observations: Seq<VirtualGridScanObservation>,
) -> bool {
    if !is_market_identity(instrument.exchange@) || !is_market_identity(instrument.symbol@) {
        error is InvalidInstrumentIdentity
    } else if volume@.0 < 0 {
        error == VirtualGridScannerError::NegativeVolume { instrument }
    } else if observations.len() == 0 {
        error == VirtualGridScannerError::MissingObservations { instrument }
    } else if observations.len() > MAX_VIRTUAL_GRID_SCAN_OBSERVATIONS_PER_CANDIDATE {
        error == VirtualGridScannerError::TooManyCandidateObservations {
            instrument,
            count: observations.len() as usize,
            limit: MAX_VIRTUAL_GRID_SCAN_OBSERVATIONS_PER_CANDIDATE,
        }
    } else {
        exists|index: int| #[trigger]
            is_first_misfit(observations, index) && error == if observations[index].sequence
                != index + 1 {
                VirtualGridScannerError::InvalidObservationSequence {
                    expected: (index + 1) as u64,
                    observed: observations[index].sequence,
                }
            } else {
                VirtualGridScannerError::NonMonotonicObservationTime {
                    instrument,
                    sequence: observations[index].sequence,
                }
            }
    }
}

/// The candidate is in order before its grid is tried.
pub open spec fn candidate_is_sound(
    instrument: MarketInstrument,
    volume: Decimal,
    observations: Seq<VirtualGridScanObservation>,
) -> bool {
    &&& is_market_identity(instrument.exchange@)
    &&& is_market_identity(instrument.symbol@)
    &&& volume@.0 >= 0
    &&& 1 <= observations.len() <= MAX_VIRTUAL_GRID_SCAN_OBSERVATIONS_PER_CANDIDATE
    &&& observations_fit(observations)
}

impl VirtualGridScanCandidate {
    #[verifier::type_invariant]
    pub closed spec fn is_sound(self) -> bool {
        candidate_is_sound(self.instrument, self.volume_24h_usdc, self.observations@)
    }

    pub closed spec fn instrument_view(self) -> MarketInstrument {
        self.instrument
    }

    pub closed spec fn width_view(self) -> Decimal {
        self.grid_width_percent
    }

    pub closed spec fn interval_view(self) -> Decimal {
        self.grid_interval_percent
    }

    pub closed spec fn volume_view(self) -> Decimal {
        self.volume_24h_usdc
    }

    pub closed spec fn price_change_view(self) -> Option<Decimal> {
        self.price_change_24h_percent
    }

    pub closed spec fn priority_view(self) -> ScannerPriority {
        self.priority
    }

    pub closed spec fn observations_view(self) -> Seq<VirtualGridScanObservation> {
        self.observations@
    }

    /// Validates one candidate before it can enter a scan request.
    ///
    /// `probe` is what a grid of this geometry says of a unit price (see
    /// [`grid_probe`]); it counts only where everything else is in order.
    pub fn new(
        instrument: MarketInstrument,
        grid_width_percent: Decimal,
        grid_interval_percent: Decimal,
        volume_24h_usdc: Decimal,
        price_change_24h_percent: Option<Decimal>,
        priority: ScannerPriority,
        observations: Vec<VirtualGridScanObservation>,
        probe: Result<(), StrategyError>,
    ) -> (r: Result<VirtualGridScanCandidate, VirtualGridScannerError>)
        ensures
            candidate_is_sound(instrument, volume_24h_usdc, observations@) ==> match probe {
                Ok(()) => {
                    &&& r is Ok
                    &&& r->Ok_0.instrument_view() == instrument
                    &&& r->Ok_0.width_view() == grid_width_percent
                    &&& r->Ok_0.interval_view() == grid_interval_percent
                    &&& r->Ok_0.volume_view() == volume_24h_usdc
                    &&& r->Ok_0.price_change_view() == price_change_24h_percent
                    &&& r->Ok_0.priority_view() == priority
                    &&& r->Ok_0.observations_view() == observations@
                },
                Err(error) => r == Err::<VirtualGridScanCandidate, VirtualGridScannerError>(
                    VirtualGridScannerError::Strategy(error),
                ),
            },
            !candidate_is_sound(instrument, volume_24h_usdc, observations@) ==> {
                &&& r is Err
                &&& is_candidate_error(r->Err_0, instrument, volume_24h_usdc, observations@)
            },
    {
        if !valid_market_identity_text(&instrument.exchange) || !valid_market_identity_text(
            &instrument.symbol,
        ) {
            return Err(VirtualGridScannerError::InvalidInstrumentIdentity);
        }
        if volume_24h_usdc.mantissa() < 0 {
            return Err(VirtualGridScannerError::NegativeVolume { instrument });
        }
        if observations.len() == 0 {
            return Err(VirtualGridScannerError::MissingObservations { instrument });
        }
        if observations.len() > MAX_VIRTUAL_GRID_SCAN_OBSERVATIONS_PER_CANDIDATE {
            return Err(
                VirtualGridScannerError::TooManyCandidateObservations {
                    instrument,
                    count: observations.len(),
                    limit: MAX_VIRTUAL_GRID_SCAN_OBSERVATIONS_PER_CANDIDATE,
                },
            );
        }
        let mut index: usize = 0;
        while index < observations.len()
            invariant
                index <= observations@.len(),
                1 <= observations@.len() <= MAX_VIRTUAL_GRID_SCAN_OBSERVATIONS_PER_CANDIDATE,
                is_market_identity(instrument.exchange@),
                is_market_identity(instrument.symbol@),
                volume_24h_usdc@.0 >= 0,
                forall|i: int|
                    0 <= i < index ==> #[trigger] observation_fits(observations@, i),
            decreases observations.len() - index,
        {
            let expected: u64 = index as u64 + 1;
            if observations[index].sequence != expected {
                assert(is_first_misfit(observations@, index as int));
                return Err(
                    VirtualGridScannerError::InvalidObservationSequence {
                        expected,
                        observed: observations[index].sequence,
                    },
                );
            }
            if index > 0 && observations[index].observed_at.is_before(
                observations[index - 1].observed_at,
            ) {
                assert(is_first_misfit(observations@, index as int));
                return Err(
                    VirtualGridScannerError::NonMonotonicObservationTime {
                        instrument,
                        sequence: observations[index].sequence,
                    },
                );
            }
            index = index + 1;
        }
        match probe {
            Err(error) => Err(VirtualGridScannerError::Strategy(error)),
            Ok(()) => Ok(
                VirtualGridScanCandidate {
                    instrument,
                    grid_width_percent,
                    grid_interval_percent,
                    volume_24h_usdc,
                    price_change_24h_percent,
                    priority,
                    observations,
                },
            ),
        }
    }
}

pub open spec fn market_rank(market_type: MarketType) -> u8 {
    match market_type {
        MarketType::Spot => 0,
        MarketType::Perpetual => 1,
    }
}

/// The order of instruments: by exchange, by symbol, by market type.
pub open spec fn instrument_before(a: MarketInstrument, b: MarketInstrument) -> bool {
    ||| text_before(a.exchange@, b.exchange@)
    ||| a.exchange@ == b.exchange@ && text_before(a.symbol@, b.symbol@)
    ||| a.exchange@ == b.exchange@ && a.symbol@ == b.symbol@ && market_rank(a.market_type)
        < market_rank(b.market_type)
}

/// No instrument comes before itself.
pub proof fn lemma_instrument_not_before_itself(a: MarketInstrument, b: MarketInstrument)
    requires
        same_instrument(a, b),
    ensures
        !instrument_before(a, b),
{
    lemma_text_not_before_itself(a.exchange@);
    lemma_text_not_before_itself(a.symbol@);
}

/// Of two different instruments one comes before the other.
pub proof fn lemma_instrument_order_is_total(a: MarketInstrument, b: MarketInstrument)
    requires
        !instrument_before(a, b),
        !instrument_before(b, a),
    ensures
        same_instrument(a, b),
{
    lemma_text_order_is_total(a.exchange@, b.exchange@);
    lemma_text_order_is_total(a.symbol@, b.symbol@);
}

/// Of two instruments at most one comes before the other.
pub proof fn lemma_instrument_order_is_asymmetric(a: MarketInstrument, b: MarketInstrument)
    requires
        instrument_before(a, b),
    ensures
        !instrument_before(b, a),
{
    if instrument_before(b, a) {
        lemma_text_order_is_asymmetric(a.exchange@, b.exchange@);
        lemma_text_order_is_asymmetric(a.symbol@, b.symbol@);
    }
}

/// An instrument that does not come before a second one, which does not come
/// before a third one, does not come before the third.
pub proof fn lemma_instrument_not_before_transitive(
    a: MarketInstrument,
    b: MarketInstrument,
    c: MarketInstrument,
)
    requires
        !instrument_before(a, b),
        !instrument_before(b, c),
    ensures
        !instrument_before(a, c),
{
    lemma_text_not_before_transitive(a.exchange@, b.exchange@, c.exchange@);
    if a.exchange@ == c.exchange@ {
        if a.exchange@ != b.exchange@ {
            if text_before(b.exchange@, a.exchange@) {
            } else {
                lemma_text_order_is_total(a.exchange@, b.exchange@);
            }
        }
        lemma_text_not_before_transitive(a.symbol@, b.symbol@, c.symbol@);
        if a.symbol@ == c.symbol@ && a.symbol@ != b.symbol@ {
            if text_before(b.symbol@, a.symbol@) {
            } else {
                lemma_text_order_is_total(a.symbol@, b.symbol@);
            }
        }
    }
}

/// The first instrument comes before the second.
pub fn is_instrument_before(a: &MarketInstrument, b: &MarketInstrument) -> (r: bool)
    ensures
        r == instrument_before(*a, *b),
{
    if is_text_before(&a.exchange, &b.exchange) {
        return true;
    }
    if !same_text(&a.exchange, &b.exchange) {
        return false;
    }
    if is_text_before(&a.symbol, &b.symbol) {
        return true;
    }
    if !same_text(&a.symbol, &b.symbol) {
        return false;
    }
    match (a.market_type, b.market_type) {
        (MarketType::Spot, MarketType::Perpetual) => true,
        _ => false,
    }
}

/// The characters that an identity of a run may hold.
pub open spec fn is_run_char(c: char) -> bool {
    ('a' <= c && c <= 'z') || ('A' <= c && c <= 'Z') || is_digit(c) || c == '-' || c == '_' || c
        == '.' || c == ':'
}

/// An identity of a run.
pub open spec fn is_run_id(value: Seq<char>) -> bool {
    &&& value.len() > 0
    &&& byte_length(value) <= MAX_SCAN_IDENTITY_BYTES
    &&& forall|i: int| 0 <= i < value.len() ==> is_run_char(#[trigger] value[i])
}

/// An identity of a run.
pub fn valid_run_id(value: &str) -> (r: bool)
    ensures
        r == is_run_id(value@),
{
    let chars: Vec<char> = characters(value);
    if chars.len() == 0 || byte_len(value) > MAX_SCAN_IDENTITY_BYTES {
        return false;
    }
    let mut i: usize = 0;
    while i < chars.len()
        invariant
            i <= chars.len(),
            chars@ == value@,
            chars@.len() > 0,
            byte_length(value@) <= MAX_SCAN_IDENTITY_BYTES,
            forall|j: int| 0 <= j < i ==> is_run_char(#[trigger] chars@[j]),
        decreases chars.len() - i,
    {
        let c: char = chars[i];
        if !(('a' <= c && c <= 'z') || ('A' <= c && c <= 'Z') || ('0' <= c && c <= '9') || c == '-'
            || c == '_' || c == '.' || c == ':') {
            assert(!is_run_char(value@[i as int]));
            return false;
        }
        i = i + 1;
    }
    true
}

/// Two of the candidates are of this instrument.
pub open spec fn is_duplicated(
    candidates: Seq<VirtualGridScanCandidate>,
    instrument: MarketInstrument,
) -> bool {
    exists|i: int, j: int|
        #![trigger candidates[i], candidates[j]]
        0 <= i < j < candidates.len() && same_instrument(
            candidates[i].instrument_view(),
            instrument,
        ) && same_instrument(candidates[j].instrument_view(), instrument)
}

/// No two candidates are of one instrument.
pub open spec fn instruments_are_distinct(candidates: Seq<VirtualGridScanCandidate>) -> bool {
    forall|i: int, j: int|
        #![trigger candidates[i], candidates[j]]
        0 <= i < j < candidates.len() ==> !same_instrument(
            candidates[i].instrument_view(),
            candidates[j].instrument_view(),
        )
}

/// Of the instruments with more than one candidate this one comes first.
pub open spec fn is_first_duplicate(
    candidates: Seq<VirtualGridScanCandidate>,
    instrument: MarketInstrument,
) -> bool {
    &&& is_duplicated(candidates, instrument)
    &&& forall|other: MarketInstrument| #[trigger]
        is_duplicated(candidates, other) ==> !instrument_before(other, instrument)
}

/// The time of the last observation of a candidate.
pub open spec fn last_observed(candidate: VirtualGridScanCandidate) -> Timestamp {
    candidate.observations_view().last().observed_at
}

/// The number of observations of all candidates.
pub open spec fn observations_in(candidates: Seq<VirtualGridScanCandidate>) -> nat
    decreases candidates.len(),
{
    if candidates.len() == 0 {
        0
    } else {
        observations_in(candidates.drop_last()) + candidates.last().observations_view().len()
    }
}

/// No candidate was observed after the evaluation.
pub open spec fn all_observed_by(
    candidates: Seq<VirtualGridScanCandidate>,
    evaluated_at: Timestamp,
) -> bool {
    forall|i: int|
        0 <= i < candidates.len() ==> last_observed(#[trigger] candidates[i]).rank()
            <= evaluated_at.rank()
}

/// This candidate is the first that was observed after the evaluation.
pub open spec fn is_first_observed_later(
    candidates: Seq<VirtualGridScanCandidate>,
    evaluated_at: Timestamp,
    index: int,
) -> bool {
    &&& 0 <= index < candidates.len()
    &&& last_observed(candidates[index]).rank() > evaluated_at.rank()
    &&& all_observed_by(candidates.take(index), evaluated_at)
}

/// The request is in order.
pub open spec fn request_is_sound(
    run_id: Seq<char>,
    evaluated_at: Timestamp,
    apr_window_seconds: u32,
    row_limit: usize,
    candidates: Seq<VirtualGridScanCandidate>,
) -> bool {
    &&& is_run_id(run_id)
    &&& 1 <= apr_window_seconds <= MAX_VIRTUAL_GRID_SCAN_WINDOW_SECONDS
    &&& 1 <= row_limit <= MAX_VIRTUAL_GRID_SCAN_ROWS
    &&& 1 <= candidates.len() <= MAX_VIRTUAL_GRID_SCAN_CANDIDATES
    &&& instruments_are_distinct(candidates)
    &&& all_observed_by(candidates, evaluated_at)
    &&& observations_in(candidates) <= MAX_VIRTUAL_GRID_SCAN_OBSERVATIONS
}

/// What is wrong with a request that is not in order.
pub open spec fn is_request_error(
    error: VirtualGridScannerError,
    run_id: Seq<char>,
    evaluated_at: Timestamp,
    apr_window_seconds: u32,
    row_limit: usize,
    candidates: Seq<VirtualGridScanCandidate>,
) -> bool {
    if !is_run_id(run_id) {
        error is InvalidRunId
    } else if apr_window_seconds == 0 || apr_window_seconds > MAX_VIRTUAL_GRID_SCAN_WINDOW_SECONDS {
        error == (VirtualGridScannerError::InvalidAprWindow { seconds: apr_window_seconds })
    } else if row_limit == 0 || row_limit > MAX_VIRTUAL_GRID_SCAN_ROWS {
        error == (VirtualGridScannerError::InvalidRowLimit {
            rows: row_limit,
            limit: MAX_VIRTUAL_GRID_SCAN_ROWS,
        })
    } else if candidates.len() == 0 {
        error is MissingCandidates
    } else if candidates.len() > MAX_VIRTUAL_GRID_SCAN_CANDIDATES {
        error == (VirtualGridScannerError::TooManyCandidates {
            count: candidates.len() as usize,
            limit: MAX_VIRTUAL_GRID_SCAN_CANDIDATES,
        })
    } else if !instruments_are_distinct(candidates) {
        error is DuplicateInstrument && is_first_duplicate(
            candidates,
            error->DuplicateInstrument_instrument,
        )
    } else if !all_observed_by(candidates, evaluated_at) {
        exists|index: int| #[trigger]
            is_first_observed_later(candidates, evaluated_at, index) && error == (
            VirtualGridScannerError::EvaluationPrecedesObservation {
                instrument: candidates[index].instrument_view(),
            })
    } else {
        error == (VirtualGridScannerError::TooManyObservations {
            count: observations_in(candidates) as usize,
            limit: MAX_VIRTUAL_GRID_SCAN_OBSERVATIONS,
        })
    }
}

/// Of the instruments with more than one candidate the one that comes first.
fn first_duplicate(candidates: &Vec<VirtualGridScanCandidate>) -> (r: Option<MarketInstrument>)
    ensures
        match r {
            None => instruments_are_distinct(candidates@),
            Some(instrument) => !instruments_are_distinct(candidates@) && is_first_duplicate(
                candidates@,
                instrument,
            ),
        },
{
    let mut first: Option<usize> = None;
    let mut j: usize = 0;
    while j < candidates.len()
        invariant
            j <= candidates@.len(),
            match first {
                None => forall|a: int, b: int|
                    #![trigger candidates@[a], candidates@[b]]
                    0 <= a < b < j ==> !same_instrument(
                        candidates@[a].instrument_view(),
                        candidates@[b].instrument_view(),
                    ),
                Some(f) => {
                    &&& f < j
                    &&& is_duplicated(candidates@, candidates@[f as int].instrument_view())
                    &&& forall|a: int, b: int|
                        #![trigger candidates@[a], candidates@[b]]
                        0 <= a < b < j && same_instrument(
                            candidates@[a].instrument_view(),
                            candidates@[b].instrument_view(),
                        ) ==> !instrument_before(
                            candidates@[b].instrument_view(),
                            candidates@[f as int].instrument_view(),
                        )
                },
            },
        decreases candidates.len() - j,
    {
        let mut i: usize = 0;
        let mut repeated: bool = false;
        while i < j
            invariant
                i <= j < candidates@.len(),
                repeated ==> exists|a: int|
                    0 <= a < i && same_instrument(
                        (#[trigger] candidates@[a]).instrument_view(),
                        candidates@[j as int].instrument_view(),
                    ),
                !repeated ==> forall|a: int|
                    0 <= a < i ==> !same_instrument(
                        (#[trigger] candidates@[a]).instrument_view(),
                        candidates@[j as int].instrument_view(),
                    ),
            decreases j - i,
        {
            if candidates[i].instrument.equals(&candidates[j].instrument) {
                repeated = true;
            }
            i = i + 1;
        }
        if repeated {
            assert(is_duplicated(candidates@, candidates@[j as int].instrument_view())) by {
                let a = choose|a: int|
                    0 <= a < j && same_instrument(
                        (#[trigger] candidates@[a]).instrument_view(),
                        candidates@[j as int].instrument_view(),
                    );
                assert(candidates@[a] == candidates@[a]);
                assert(candidates@[j as int] == candidates@[j as int]);
            }
            proof {
                lemma_instrument_not_before_itself(
                    candidates@[j as int].instrument_view(),
                    candidates@[j as int].instrument_view(),
                );
            }
            let ghost previous = first;
            let replaces: bool = match first {
                None => true,
                Some(f) => is_instrument_before(
                    &candidates[j].instrument,
                    &candidates[f].instrument,
                ),
            };
            if replaces {
                proof {
                    if let Some(f) = previous {
                        let old_first = candidates@[f as int].instrument_view();
                        let new_first = candidates@[j as int].instrument_view();
                        assert forall|a: int, b: int|
                            #![trigger candidates@[a], candidates@[b]]
                            0 <= a < b < j && same_instrument(
                                candidates@[a].instrument_view(),
                                candidates@[b].instrument_view(),
                            ) implies !instrument_before(
                            candidates@[b].instrument_view(),
                            new_first,
                        ) by {
                            let other = candidates@[b].instrument_view();
                            lemma_instrument_order_is_asymmetric(new_first, old_first);
                            lemma_instrument_not_before_transitive(other, old_first, new_first);
                        }
                    }
                }
                first = Some(j);
            }
        }
        j = j + 1;
    }
    match first {
        None => None,
        Some(f) => {
            proof {
                let found = candidates@[f as int].instrument_view();
                assert forall|other: MarketInstrument| #[trigger]
                    is_duplicated(candidates@, other) implies !instrument_before(other, found) by {
                    let (a, b) = choose|a: int, b: int|
                        #![trigger candidates@[a], candidates@[b]]
                        0 <= a < b < candidates@.len() && same_instrument(
                            candidates@[a].instrument_view(),
                            other,
                        ) && same_instrument(candidates@[b].instrument_view(), other);
                    assert(!instrument_before(candidates@[b].instrument_view(), found));
                }
            }
            Some(candidates[f].instrument.copy())
        },
    }
}

/// Complete bounded input for one deterministic ranking fact.
#[derive(Debug)]
pub struct VirtualGridScanRequest {
    run_id: String,
    evaluated_at: Timestamp,
    apr_window_seconds: u32,
    min_complete_cycles: u64,
    row_limit: usize,
    candidates: Vec<VirtualGridScanCandidate>,
}

impl VirtualGridScanRequest {
    #[verifier::type_invariant]
    pub closed spec fn is_sound(self) -> bool {
        request_is_sound(
            self.run_id@,
            self.evaluated_at,
            self.apr_window_seconds,
            self.row_limit,
            self.candidates@,
        )
    }

    pub closed spec fn run_id_view(self) -> Seq<char> {
        self.run_id@
    }

    pub closed spec fn evaluated_at_view(self) -> Timestamp {
        self.evaluated_at
    }

    pub closed spec fn window_view(self) -> u32 {
        self.apr_window_seconds
    }

    pub closed spec fn min_cycles_view(self) -> u64 {
        self.min_complete_cycles
    }

    pub closed spec fn row_limit_view(self) -> usize {
        self.row_limit
    }

    pub closed spec fn candidates_view(self) -> Seq<VirtualGridScanCandidate> {
        self.candidates@
    }

    /// Creates a complete scan request with no ambient clock or hidden input.
    pub fn new(
        run_id: &str,
        evaluated_at: Timestamp,
        apr_window_seconds: u32,
        min_complete_cycles: u64,
        row_limit: usize,
        candidates: Vec<VirtualGridScanCandidate>,
    ) -> (r: Result<VirtualGridScanRequest, VirtualGridScannerError>)
        ensures
            request_is_sound(
                trim_of(run_id@),
                evaluated_at,
                apr_window_seconds,
                row_limit,
                candidates@,
            ) ==> {
                &&& r is Ok
                &&& r->Ok_0.run_id_view() == trim_of(run_id@)
                &&& r->Ok_0.evaluated_at_view() == evaluated_at
                &&& r->Ok_0.window_view() == apr_window_seconds
                &&& r->Ok_0.min_cycles_view() == min_complete_cycles
                &&& r->Ok_0.row_limit_view() == row_limit
                &&& r->Ok_0.candidates_view() == candidates@
            },
            !request_is_sound(
                trim_of(run_id@),
                evaluated_at,
                apr_window_seconds,
                row_limit,
                candidates@,
            ) ==> {
                &&& r is Err
                &&& is_request_error(
                    r->Err_0,
                    trim_of(run_id@),
                    evaluated_at,
                    apr_window_seconds,
                    row_limit,
                    candidates@,
                )
            },
    {
        let identity: String = trimmed(run_id);
        if !valid_run_id(&identity) {
            return Err(VirtualGridScannerError::InvalidRunId);
        }
        if apr_window_seconds == 0 || apr_window_seconds > MAX_VIRTUAL_GRID_SCAN_WINDOW_SECONDS {
            return Err(VirtualGridScannerError::InvalidAprWindow { seconds: apr_window_seconds });
        }
        if row_limit == 0 || row_limit > MAX_VIRTUAL_GRID_SCAN_ROWS {
            return Err(
                VirtualGridScannerError::InvalidRowLimit {
                    rows: row_limit,
                    limit: MAX_VIRTUAL_GRID_SCAN_ROWS,
                },
            );
        }
        if candidates.len() == 0 {
            return Err(VirtualGridScannerError::MissingCandidates);
        }
        if candidates.len() > MAX_VIRTUAL_GRID_SCAN_CANDIDATES {
            return Err(
                VirtualGridScannerError::TooManyCandidates {
                    count: candidates.len(),
                    limit: MAX_VIRTUAL_GRID_SCAN_CANDIDATES,
                },
            );
        }
        if let Some(instrument) = first_duplicate(&candidates) {
            return Err(VirtualGridScannerError::DuplicateInstrument { instrument });
        }
        let mut count: usize = 0;
        let mut index: usize = 0;
        assert(candidates@.take(0) =~= Seq::empty());
        while index < candidates.len()
            invariant
                index <= candidates@.len() <= MAX_VIRTUAL_GRID_SCAN_CANDIDATES,
                candidates@.len() >= 1,
                identity@ == trim_of(run_id@),
                is_run_id(identity@),
                1 <= apr_window_seconds <= MAX_VIRTUAL_GRID_SCAN_WINDOW_SECONDS,
                1 <= row_limit <= MAX_VIRTUAL_GRID_SCAN_ROWS,
                instruments_are_distinct(candidates@),
                count == observations_in(candidates@.take(index as int)),
                count <= index * MAX_VIRTUAL_GRID_SCAN_OBSERVATIONS_PER_CANDIDATE,
                all_observed_by(candidates@.take(index as int), evaluated_at),
            decreases candidates.len() - index,
        {
            let candidate: &VirtualGridScanCandidate = &candidates[index];
            proof {
                use_type_invariant(candidate);
                let more = candidates@.take(index + 1);
                assert(more.drop_last() =~= candidates@.take(index as int));
                assert(more.last() == candidate);
            }
            let last: VirtualGridScanObservation = candidate.observations[candidate.observations.len()
                - 1];
            if evaluated_at.is_before(last.observed_at) {
                assert(is_first_observed_later(candidates@, evaluated_at, index as int));
                assert(!all_observed_by(candidates@, evaluated_at)) by {
                    assert(last_observed(candidates@[index as int]).rank() > evaluated_at.rank());
                }
                return Err(
                    VirtualGridScannerError::EvaluationPrecedesObservation {
                        instrument: candidate.instrument.copy(),
                    },
                );
            }
            count = count + candidate.observations.len();
            proof {
                let more = candidates@.take(index + 1);
                assert forall|i: int| 0 <= i < more.len() implies last_observed(
                    #[trigger] more[i],
                ).rank() <= evaluated_at.rank() by {
                    if i < index {
                        assert(candidates@.take(index as int)[i] == more[i]);
                    }
                }
            }
            index = index + 1;
        }
        assert(candidates@.take(index as int) =~= candidates@);
        if count > MAX_VIRTUAL_GRID_SCAN_OBSERVATIONS {
            return Err(
                VirtualGridScannerError::TooManyObservations {
                    count,
                    limit: MAX_VIRTUAL_GRID_SCAN_OBSERVATIONS,
                },
            );
        }
        Ok(
            VirtualGridScanRequest {
                run_id: identity,
                evaluated_at,
                apr_window_seconds,
                min_complete_cycles,
                row_limit,
                candidates,
            },
        )
    }

    /// The number of candidates.
    pub fn candidate_count(&self) -> (r: usize)
        ensures
            r == self.candidates_view().len(),
            1 <= r <= MAX_VIRTUAL_GRID_SCAN_CANDIDATES,
    {
        proof {
            use_type_invariant(self);
        }
        self.candidates.len()
    }
}

/// A price that a grid is moved to.
#[derive(Clone, Copy, Debug)]
pub struct PriceUpdate {
    pub price: Decimal,
    pub observed_at: Timestamp,
}

/// What a virtual grid is made from, moved through and asked for.
#[derive(Debug)]
pub struct GridReplay {
    pub symbol: String,
    pub initial_price: Decimal,
    pub grid_width_percent: Decimal,
    pub grid_interval_percent: Decimal,
    pub started_at: Timestamp,
    /// The prices after the first one, in order.
    pub updates: Vec<PriceUpdate>,
    pub evaluated_at: Timestamp,
    /// The window over which the APR is calculated.
    pub apr_window_seconds: u32,
    /// The window in which recent cycles are counted.
    pub recent_window_seconds: u32,
    /// The volume that the rating takes.
    pub volume_24h_usdc: Decimal,
}

/// The grid that tries a geometry on a unit price.
#[derive(Debug)]
pub struct GridProbe {
    pub symbol: String,
    pub initial_price: Decimal,
    pub grid_width_percent: Decimal,
    pub grid_interval_percent: Decimal,
    pub started_at: Timestamp,
}

/// The grid with which a candidate's geometry is tried. A unit price shows a
/// defect of the percentages that a concrete first price could hide.
pub fn grid_probe(
    instrument: &MarketInstrument,
    grid_width_percent: Decimal,
    grid_interval_percent: Decimal,
) -> (r: GridProbe)
    ensures
        r.symbol@ == instrument.symbol@,
        r.initial_price@ == (1i128, 0u32),
        r.grid_width_percent == grid_width_percent,
        r.grid_interval_percent == grid_interval_percent,
        r.started_at == (Timestamp { seconds: 0, subsec: 0 }),
{
    GridProbe {
        symbol: instrument.symbol.clone(),
        initial_price: Decimal::from_u64(1),
        grid_width_percent,
        grid_interval_percent,
        started_at: Timestamp { seconds: 0, subsec: 0 },
    }
}

/// The replay of a candidate: the grid starts with the first observation and is
/// moved through all the others.
pub open spec fn is_replay_of(
    replay: GridReplay,
    candidate: VirtualGridScanCandidate,
    evaluated_at: Timestamp,
    apr_window_seconds: u32,
) -> bool {
    let observations = candidate.observations_view();
    &&& replay.symbol@ == candidate.instrument_view().symbol@
    &&& replay.initial_price == observations[0].price
    &&& replay.grid_width_percent == candidate.width_view()
    &&& replay.grid_interval_percent == candidate.interval_view()
    &&& replay.started_at == observations[0].observed_at
    &&& replay.updates@.len() == observations.len() - 1
    &&& forall|i: int|
        0 <= i < replay.updates@.len() ==> (#[trigger] replay.updates@[i]) == (PriceUpdate {
            price: observations[i + 1].price,
            observed_at: observations[i + 1].observed_at,
        })
    &&& replay.evaluated_at == evaluated_at
    &&& replay.apr_window_seconds == apr_window_seconds
    &&& replay.recent_window_seconds == RECENT_WINDOW_SECONDS
    &&& replay.volume_24h_usdc == candidate.volume_view()
}

/// What the grid and the rating said of one replay.
#[derive(Clone, Copy, Debug)]
pub struct GridEvaluation {
    pub current_price: Decimal,
    pub lower_price: Decimal,
    pub upper_price: Decimal,
    pub pending_buy_price: Decimal,
    pub pending_sell_price: Decimal,
    pub grid_count: u32,
    pub buy_crosses: u64,
    pub sell_crosses: u64,
    pub complete_cycles: u64,
    pub recent_cycles: usize,
    pub cycles_per_hour: Decimal,
    pub estimated_apr: Decimal,
    pub rating_grade: ScannerRatingGrade,
    pub rating_score: Decimal,
}

/// One fully evaluated read-only candidate; its rank is zero until the rows are
/// ranked.
#[derive(Debug)]
pub struct VirtualGridScanRow {
    pub rank: usize,
    pub instrument: MarketInstrument,
    pub priority: ScannerPriority,
    pub started_at: Timestamp,
    pub last_observed_at: Timestamp,
    pub evaluated_at: Timestamp,
    pub observation_count: usize,
    pub last_observation_sequence: u64,
    pub current_price: Decimal,
    pub lower_price: Decimal,
    pub upper_price: Decimal,
    pub pending_buy_price: Decimal,
    pub pending_sell_price: Decimal,
    pub grid_width_percent: Decimal,
    pub grid_interval_percent: Decimal,
    pub grid_count: u32,
    pub running_seconds: u128,
    pub buy_crosses: u64,
    pub sell_crosses: u64,
    pub total_crosses: u64,
    pub complete_cycles: u64,
    pub recent_five_minute_cycles: usize,
    pub cycles_per_hour: Decimal,
    pub estimated_apr: Decimal,
    pub volume_24h_usdc: Decimal,
    pub price_change_24h_percent: Option<Decimal>,
    pub rating_grade: ScannerRatingGrade,
    pub rating_score: Decimal,
}

impl VirtualGridScanRow {
    pub fn rank(&self) -> (r: usize)
        ensures
            r == self.rank,
    {
        self.rank
    }

    pub fn activity(&self) -> (r: ScannerActivity)
        ensures
            r == ScannerActivity::Active,
    {
        ScannerActivity::Active
    }

    pub fn instrument(&self) -> (r: &MarketInstrument)
        ensures
            *r == self.instrument,
    {
        &self.instrument
    }

    pub fn is_benchmark(&self) -> (r: bool)
        ensures
            r == (self.priority is Benchmark),
    {
        match self.priority {
            ScannerPriority::Benchmark => true,
            ScannerPriority::Standard => false,
        }
    }

    pub fn estimated_apr(&self) -> (r: Decimal)
        ensures
            r == self.estimated_apr,
    {
        self.estimated_apr
    }

    pub fn buy_crosses(&self) -> (r: u64)
        ensures
            r == self.buy_crosses,
    {
        self.buy_crosses
    }

    pub fn sell_crosses(&self) -> (r: u64)
        ensures
            r == self.sell_crosses,
    {
        self.sell_crosses
    }

    pub fn total_crosses(&self) -> (r: u64)
        ensures
            r == self.total_crosses,
    {
        self.total_crosses
    }

    pub fn complete_cycles(&self) -> (r: u64)
        ensures
            r == self.complete_cycles,
    {
        self.complete_cycles
    }

    pub fn recent_five_minute_cycles(&self) -> (r: usize)
        ensures
            r == self.recent_five_minute_cycles,
    {
        self.recent_five_minute_cycles
    }

    pub fn cycles_per_hour(&self) -> (r: Decimal)
        ensures
            r == self.cycles_per_hour,
    {
        self.cycles_per_hour
    }

    pub fn rating_grade(&self) -> (r: ScannerRatingGrade)
        ensures
            r == self.rating_grade,
    {
        self.rating_grade
    }

    pub fn rating_score(&self) -> (r: Decimal)
        ensures
            r == self.rating_score,
    {
        self.rating_score
    }

    pub fn last_observation_sequence(&self) -> (r: u64)
        ensures
            r == self.last_observation_sequence,
    {
        self.last_observation_sequence
    }

    pub fn last_observed_at(&self) -> (r: Timestamp)
        ensures
            r == self.last_observed_at,
    {
        self.last_observed_at
    }

    pub fn evaluated_at(&self) -> (r: Timestamp)
        ensures
            r == self.evaluated_at,
    {
        self.evaluated_at
    }
}

/// The row of a candidate whose grid was evaluated.
pub open spec fn row_of(
    candidate: VirtualGridScanCandidate,
    evaluation: GridEvaluation,
    evaluated_at: Timestamp,
) -> VirtualGridScanRow {
    let observations = candidate.observations_view();
    VirtualGridScanRow {
        rank: 0,
        instrument: candidate.instrument_view(),
        priority: candidate.priority_view(),
        started_at: observations[0].observed_at,
        last_observed_at: observations.last().observed_at,
        evaluated_at,
        observation_count: observations.len() as usize,
        last_observation_sequence: observations.last().sequence,
        current_price: evaluation.current_price,
        lower_price: evaluation.lower_price,
        upper_price: evaluation.upper_price,
        pending_buy_price: evaluation.pending_buy_price,
        pending_sell_price: evaluation.pending_sell_price,
        grid_width_percent: candidate.width_view(),
        grid_interval_percent: candidate.interval_view(),
        grid_count: evaluation.grid_count,
        running_seconds: seconds_between(observations[0].observed_at, evaluated_at) as u128,
        buy_crosses: evaluation.buy_crosses,
        sell_crosses: evaluation.sell_crosses,
        total_crosses: (evaluation.buy_crosses + evaluation.sell_crosses) as u64,
        complete_cycles: evaluation.complete_cycles,
        recent_five_minute_cycles: evaluation.recent_cycles,
        cycles_per_hour: evaluation.cycles_per_hour,
        estimated_apr: evaluation.estimated_apr,
        volume_24h_usdc: candidate.volume_view(),
        price_change_24h_percent: candidate.price_change_view(),
        rating_grade: evaluation.rating_grade,
        rating_score: evaluation.rating_score,
    }
}

/// What is wrong with an evaluation that gives no row.
pub open spec fn evaluation_error(evaluation: Result<GridEvaluation, StrategyError>) -> Option<
    VirtualGridScannerError,
> {
    match evaluation {
        Err(error) => Some(VirtualGridScannerError::Strategy(error)),
        Ok(evaluation) => if evaluation.buy_crosses + evaluation.sell_crosses > u64::MAX {
            Some(VirtualGridScannerError::CountOverflow)
        } else {
            None
        },
    }
}

/// The observations never go back in time.
proof fn lemma_observations_ascend(observations: Seq<VirtualGridScanObservation>, i: int, j: int)
    requires
        observations_fit(observations),
        0 <= i <= j < observations.len(),
    ensures
        observations[i].observed_at.rank() <= observations[j].observed_at.rank(),
    decreases j - i,
{
    if i < j {
        lemma_observations_ascend(observations, i, j - 1);
        assert(observation_fits(observations, j));
    }
}

impl VirtualGridScanCandidate {
    /// What the candidate's grid is made from, moved through and asked for.
    pub fn replay(&self, evaluated_at: Timestamp, apr_window_seconds: u32) -> (r: GridReplay)
        ensures
            is_replay_of(r, *self, evaluated_at, apr_window_seconds),
    {
        proof {
            use_type_invariant(self);
        }
        let mut updates: Vec<PriceUpdate> = Vec::new();
        let mut i: usize = 1;
        while i < self.observations.len()
            invariant
                1 <= i <= self.observations@.len(),
                updates@.len() == i - 1,
                forall|k: int|
                    0 <= k < updates@.len() ==> (#[trigger] updates@[k]) == (PriceUpdate {
                        price: self.observations@[k + 1].price,
                        observed_at: self.observations@[k + 1].observed_at,
                    }),
            decreases self.observations.len() - i,
        {
            updates.push(
                PriceUpdate {
                    price: self.observations[i].price,
                    observed_at: self.observations[i].observed_at,
                },
            );
            i = i + 1;
        }
        GridReplay {
            symbol: self.instrument.symbol.clone(),
            initial_price: self.observations[0].price,
            grid_width_percent: self.grid_width_percent,
            grid_interval_percent: self.grid_interval_percent,
            started_at: self.observations[0].observed_at,
            updates,
            evaluated_at,
            apr_window_seconds,
            recent_window_seconds: RECENT_WINDOW_SECONDS,
            volume_24h_usdc: self.volume_24h_usdc,
        }
    }

    /// The row of the candidate, from what its grid and its rating said of its
    /// replay.
    pub fn evaluate(
        &self,
        evaluated_at: Timestamp,
        evaluation: &Result<GridEvaluation, StrategyError>,
    ) -> (r: Result<VirtualGridScanRow, VirtualGridScannerError>)
        requires
            last_observed(*self).rank() <= evaluated_at.rank(),
        ensures
            r == match evaluation_error(*evaluation) {
                Some(error) => Err::<VirtualGridScanRow, VirtualGridScannerError>(error),
                None => Ok(row_of(*self, evaluation->Ok_0, evaluated_at)),
            },
    {
        proof {
            use_type_invariant(self);
            lemma_observations_ascend(self.observations@, 0, self.observations@.len() - 1);
        }
        let grid: GridEvaluation = match evaluation {
            Err(error) => {
                return Err(VirtualGridScannerError::Strategy(error.copy()));
            },
            Ok(grid) => *grid,
        };
        let first: VirtualGridScanObservation = self.observations[0];
        let last: VirtualGridScanObservation = self.observations[self.observations.len() - 1];
        let total_crosses: u64 = match grid.buy_crosses.checked_add(grid.sell_crosses) {
            None => {
                return Err(VirtualGridScannerError::CountOverflow);
            },
            Some(total) => total,
        };
        Ok(
            VirtualGridScanRow {
                rank: 0,
                instrument: self.instrument.copy(),
                priority: self.priority,
                started_at: first.observed_at,
                last_observed_at: last.observed_at,
                evaluated_at,
                observation_count: self.observations.len(),
                last_observation_sequence: last.sequence,
                current_price: grid.current_price,
                lower_price: grid.lower_price,
                upper_price: grid.upper_price,
                pending_buy_price: grid.pending_buy_price,
                pending_sell_price: grid.pending_sell_price,
                grid_width_percent: self.grid_width_percent,
                grid_interval_percent: self.grid_interval_percent,
                grid_count: grid.grid_count,
                running_seconds: evaluated_at.seconds_since(first.observed_at),
                buy_crosses: grid.buy_crosses,
                sell_crosses: grid.sell_crosses,
                total_crosses,
                complete_cycles: grid.complete_cycles,
                recent_five_minute_cycles: grid.recent_cycles,
                cycles_per_hour: grid.cycles_per_hour,
                estimated_apr: grid.estimated_apr,
                volume_24h_usdc: self.volume_24h_usdc,
                price_change_24h_percent: self.price_change_24h_percent,
                rating_grade: grid.rating_grade,
                rating_score: grid.rating_score,
            },
        )
    }
}

impl VirtualGridScanRequest {
    /// What the grid of one candidate is made from, moved through and asked for.
    pub fn replay(&self, index: usize) -> (r: GridReplay)
        requires
            index < self.candidates_view().len(),
        ensures
            is_replay_of(
                r,
                self.candidates_view()[index as int],
                self.evaluated_at_view(),
                self.window_view(),
            ),
    {
        self.candidates[index].replay(self.evaluated_at, self.apr_window_seconds)
    }

    /// The row of one candidate, from what its grid and its rating said.
    pub fn evaluate(
        &self,
        index: usize,
        evaluation: &Result<GridEvaluation, StrategyError>,
    ) -> (r: Result<VirtualGridScanRow, VirtualGridScannerError>)
        requires
            index < self.candidates_view().len(),
        ensures
            r == match evaluation_error(*evaluation) {
                Some(error) => Err::<VirtualGridScanRow, VirtualGridScannerError>(error),
                None => Ok(
                    row_of(
                        self.candidates_view()[index as int],
                        evaluation->Ok_0,
                        self.evaluated_at_view(),
                    ),
                ),
            },
    {
        proof {
            use_type_invariant(self);
        }
        self.candidates[index].evaluate(self.evaluated_at, evaluation)
    }

    pub fn run_id(&self) -> (r: &str)
        ensures
            r@ == self.run_id_view(),
    {
        &self.run_id
    }

    pub fn evaluated_at(&self) -> (r: Timestamp)
        ensures
            r == self.evaluated_at_view(),
    {
        self.evaluated_at
    }

    pub fn apr_window_seconds(&self) -> (r: u32)
        ensures
            r == self.window_view(),
    {
        self.apr_window_seconds
    }

    pub fn min_complete_cycles(&self) -> (r: u64)
        ensures
            r == self.min_cycles_view(),
    {
        self.min_complete_cycles
    }

    pub fn row_limit(&self) -> (r: usize)
        ensures
            r == self.row_limit_view(),
            1 <= r <= MAX_VIRTUAL_GRID_SCAN_ROWS,
    {
        proof {
            use_type_invariant(self);
        }
        self.row_limit
    }
}

} // verus!
