//! Replay-backed paper task profiles: what makes a profile safe to load, and
//! which one a command starts.

use vstd::prelude::*;

use crate::decimal::{difference_of, product_of, quotient_of, sum_of, Decimal};
use crate::domain::{is_instrument, MarketDataEvent, MarketSnapshot, MarketType};
use crate::monitor::MarketInstrument;
use crate::paper_arbitrage_task::ArbitragePaperTaskError;
use crate::paper_grid_task::GridPaperTaskError;
use crate::requests::PaperCostModel;
use crate::task_handle::{ArbitragePaperTask, GridPaperTask};
use crate::text::{
    byte_len, byte_length, ends_with, has_control, has_suffix, holds_control, joined, same_text,
    trim_of, trimmed,
};
use crate::timestamp::Timestamp;

verus! {

/// Maximum length of an identity of a profile in bytes.
pub const MAX_PROFILE_IDENTITY_BYTES: usize = 128;

/// The costs that every profile assumes, in basis points.
pub const DEFAULT_COST_FEE_BPS: u32 = 10;

pub const DEFAULT_COST_FUNDING_BUFFER_BPS: u32 = 5;

pub const DEFAULT_COST_SLIPPAGE_BPS: u32 = 15;

/// What the account of a grid profile starts with.
pub const DEFAULT_GRID_INITIAL_AVAILABLE: u64 = 10_000;

/// What the account of an arbitrage profile starts with.
pub const DEFAULT_ARBITRAGE_INITIAL_AVAILABLE: u64 = 100_000;

/// The events that a mirrored exchange keeps.
pub const DEFAULT_EVENT_CAPACITY: usize = 256;

/// The oldest market that an order is executed against.
pub const DEFAULT_MAX_MARKET_AGE_SECONDS: u64 = 30;

#[derive(Debug)]
pub struct GridPaperProfileInput {
    pub task_id: String,
    pub strategy_id: String,
    pub strategy_revision: String,
    pub config_path: String,
    pub replay_path: String,
    pub shutdown_grace_nanos: u128,
}

#[derive(Debug)]
pub struct ArbitragePaperProfileInput {
    pub task_id: String,
    pub strategy_id: String,
    pub strategy_revision: String,
    pub arbitrage_config_path: String,
    pub monitor_config_path: String,
    pub replay_path: String,
    pub shutdown_grace_nanos: u128,
}

#[derive(Debug)]
pub struct PaperProfileCatalogInput {
    pub grid: Option<GridPaperProfileInput>,
    pub arbitrage: Option<ArbitragePaperProfileInput>,
}

/// The files of a profile.
#[derive(Clone, Copy, Debug, PartialEq, Eq, Structural)]
pub enum ProfileFile {
    GridConfig,
    GridReplay,
    ArbitrageConfig,
    MonitorConfig,
    ArbitrageReplay,
}

pub open spec fn profile_file_text(file: ProfileFile) -> Seq<char> {
    match file {
        ProfileFile::GridConfig => "grid config "@,
        ProfileFile::GridReplay => "grid replay "@,
        ProfileFile::ArbitrageConfig => "arbitrage config "@,
        ProfileFile::MonitorConfig => "monitor config "@,
        ProfileFile::ArbitrageReplay => "arbitrage replay "@,
    }
}

/// Why the profiles cannot be loaded.
#[derive(Debug)]
pub enum ProfileLoadError {
    InvalidIdentity { label: String },
    Unreadable { file: ProfileFile, path: String },
    Unloadable { file: ProfileFile, path: String },
    GridNotFixedLong,
    GridReplayEmpty,
    GridReplayNotObservations,
    GridReplayDrifted { exchange: String, symbol: String, market_type: MarketType },
    ExecutionControls,
    MissingSymbol,
    NoSharedSymbol,
    NotTwoExchanges,
    DifferentExchanges,
    EqualExchanges,
    ArbitrageReplayEmpty,
    ArbitrageReplayNotObservations,
    ArbitrageReplayDrifted,
    ArbitrageReplayOneSided,
    SymbolNotExecutable { symbol: String },
    SharedTaskIdentity,
}

pub open spec fn market_type_name(market_type: MarketType) -> Seq<char> {
    match market_type {
        MarketType::Spot => "Spot"@,
        MarketType::Perpetual => "Perpetual"@,
    }
}

/// The text of a failure; `cause` is the text of what the execution controls
/// said.
pub open spec fn load_error_text(error: ProfileLoadError, cause: Seq<char>) -> Seq<char> {
    match error {
        ProfileLoadError::InvalidIdentity { label } => label@
            + " must be a non-empty, trimmed, control-free identity of at most 128 bytes"@,
        ProfileLoadError::Unreadable { file, path } => "failed to read "@ + profile_file_text(file)
            + path@,
        ProfileLoadError::Unloadable { file, path } => "failed to load "@ + profile_file_text(file)
            + path@,
        ProfileLoadError::GridNotFixedLong =>
            "grid paper write mode currently supports only fixed long configs"@,
        ProfileLoadError::GridReplayEmpty => "grid replay must contain at least one event"@,
        ProfileLoadError::GridReplayNotObservations =>
            "grid replay must contain only observation events"@,
        ProfileLoadError::GridReplayDrifted { exchange, symbol, market_type } =>
            "grid replay source identity drifted from "@ + exchange@ + "/"@ + symbol@ + "/"@
            + market_type_name(market_type),
        ProfileLoadError::ExecutionControls => cause,
        ProfileLoadError::MissingSymbol => "arbitrage profile requires one configured symbol"@,
        ProfileLoadError::NoSharedSymbol =>
            "arbitrage paper write mode requires exactly one shared symbol"@,
        ProfileLoadError::NotTwoExchanges =>
            "arbitrage paper write mode requires exactly two configured exchanges"@,
        ProfileLoadError::DifferentExchanges =>
            "arbitrage strategy and monitor must use the same ordered exact-pair exchanges"@,
        ProfileLoadError::EqualExchanges =>
            "arbitrage paper write mode requires two distinct exchanges"@,
        ProfileLoadError::ArbitrageReplayEmpty =>
            "arbitrage replay must contain at least one event"@,
        ProfileLoadError::ArbitrageReplayNotObservations =>
            "arbitrage replay must contain only observation events"@,
        ProfileLoadError::ArbitrageReplayDrifted =>
            "arbitrage replay source identity drifted outside the configured exact pair"@,
        ProfileLoadError::ArbitrageReplayOneSided =>
            "arbitrage replay must contain observations for both exact-pair exchanges"@,
        ProfileLoadError::SymbolNotExecutable { symbol } => "arbitrage symbol "@ + symbol@
            + " is not executable"@,
        ProfileLoadError::SharedTaskIdentity =>
            "grid and arbitrage paper profiles must use distinct task identities"@,
    }
}

impl ProfileFile {
    fn text(self) -> (r: &'static str)
        ensures
            r@ == profile_file_text(self),
    {
        match self {
            ProfileFile::GridConfig => "grid config ",
            ProfileFile::GridReplay => "grid replay ",
            ProfileFile::ArbitrageConfig => "arbitrage config ",
            ProfileFile::MonitorConfig => "monitor config ",
            ProfileFile::ArbitrageReplay => "arbitrage replay ",
        }
    }
}

impl ProfileLoadError {
    /// The text of the failure; `cause` is the text of what the execution
    /// controls said.
    pub fn message(&self, cause: &str) -> (r: String)
        ensures
            r@ == load_error_text(*self, cause@),
    {
        let text: &str = match self {
            ProfileLoadError::InvalidIdentity { label } => {
                return joined(
                    label,
                    " must be a non-empty, trimmed, control-free identity of at most 128 bytes",
                );
            },
            ProfileLoadError::Unreadable { file, path } => {
                return joined(&joined("failed to read ", file.text()), path);
            },
            ProfileLoadError::Unloadable { file, path } => {
                return joined(&joined("failed to load ", file.text()), path);
            },
            ProfileLoadError::GridReplayDrifted { exchange, symbol, market_type } => {
                let name: &str = match *market_type {
                    MarketType::Spot => "Spot",
                    MarketType::Perpetual => "Perpetual",
                };
                let head: String = joined(
                    &joined("grid replay source identity drifted from ", exchange),
                    "/",
                );
                return joined(&joined(&joined(&head, symbol), "/"), name);
            },
            ProfileLoadError::SymbolNotExecutable { symbol } => {
                return joined(&joined("arbitrage symbol ", symbol), " is not executable");
            },
            ProfileLoadError::GridNotFixedLong =>
                "grid paper write mode currently supports only fixed long configs",
            ProfileLoadError::GridReplayEmpty => "grid replay must contain at least one event",
            ProfileLoadError::GridReplayNotObservations =>
                "grid replay must contain only observation events",
            ProfileLoadError::ExecutionControls => cause,
            ProfileLoadError::MissingSymbol => "arbitrage profile requires one configured symbol",
            ProfileLoadError::NoSharedSymbol =>
                "arbitrage paper write mode requires exactly one shared symbol",
            ProfileLoadError::NotTwoExchanges =>
                "arbitrage paper write mode requires exactly two configured exchanges",
            ProfileLoadError::DifferentExchanges =>
                "arbitrage strategy and monitor must use the same ordered exact-pair exchanges",
            ProfileLoadError::EqualExchanges =>
                "arbitrage paper write mode requires two distinct exchanges",
            ProfileLoadError::ArbitrageReplayEmpty =>
                "arbitrage replay must contain at least one event",
            ProfileLoadError::ArbitrageReplayNotObservations =>
                "arbitrage replay must contain only observation events",
            ProfileLoadError::ArbitrageReplayDrifted =>
                "arbitrage replay source identity drifted outside the configured exact pair",
            ProfileLoadError::ArbitrageReplayOneSided =>
                "arbitrage replay must contain observations for both exact-pair exchanges",
            ProfileLoadError::SharedTaskIdentity =>
                "grid and arbitrage paper profiles must use distinct task identities",
        };
        text.to_owned()
    }
}

/// An identity of a profile: not empty, bounded, without white space at its ends
/// and without control characters.
pub open spec fn is_profile_identity(value: Seq<char>) -> bool {
    &&& value.len() > 0
    &&& byte_length(value) <= MAX_PROFILE_IDENTITY_BYTES
    &&& trim_of(value) == value
    &&& !holds_control(value)
}

/// The error of an identity with this label.
pub open spec fn is_identity_error(error: ProfileLoadError, label: Seq<char>) -> bool {
    error is InvalidIdentity && error->InvalidIdentity_label@ == label
}

/// Checks one identity of a profile.
pub fn validate_profile_identity(value: &str, label: &str) -> (r: Result<(), ProfileLoadError>)
    ensures
        is_profile_identity(value@) ==> r is Ok,
        !is_profile_identity(value@) ==> r is Err && is_identity_error(r->Err_0, label@),
{
    if value.is_empty() || byte_len(value) > MAX_PROFILE_IDENTITY_BYTES || !same_text(
        &trimmed(value),
        value,
    ) || has_control(value) {
        return Err(ProfileLoadError::InvalidIdentity { label: label.to_owned() });
    }
    Ok(())
}

/// A symbol with this ending is a spot symbol.
pub open spec fn market_type_of_symbol(symbol: Seq<char>) -> MarketType {
    if ends_with(symbol, "-SPOT"@) {
        MarketType::Spot
    } else {
        MarketType::Perpetual
    }
}

pub fn market_type_for_symbol(symbol: &str) -> (r: MarketType)
    ensures
        r == market_type_of_symbol(symbol@),
{
    if has_suffix(symbol, "-SPOT") {
        MarketType::Spot
    } else {
        MarketType::Perpetual
    }
}

/// The event is an observation of this instrument.
pub open spec fn observes(
    event: MarketDataEvent,
    exchange: Seq<char>,
    symbol: Seq<char>,
    market_type: MarketType,
) -> bool {
    event is Observation && is_instrument(
        event->Observation_snapshot,
        exchange,
        symbol,
        market_type,
    )
}

/// The first event that is no observation of this instrument is this one.
pub open spec fn is_first_stray(
    events: Seq<MarketDataEvent>,
    exchange: Seq<char>,
    symbol: Seq<char>,
    market_type: MarketType,
    index: int,
) -> bool {
    &&& 0 <= index < events.len()
    &&& !observes(events[index], exchange, symbol, market_type)
    &&& all_observe(events.take(index), exchange, symbol, market_type)
}

/// Every event is an observation of this instrument.
pub open spec fn all_observe(
    events: Seq<MarketDataEvent>,
    exchange: Seq<char>,
    symbol: Seq<char>,
    market_type: MarketType,
) -> bool {
    forall|i: int|
        0 <= i < events.len() ==> observes(#[trigger] events[i], exchange, symbol, market_type)
}

/// What is wrong with a grid replay.
pub open spec fn is_grid_replay_error(
    error: ProfileLoadError,
    events: Seq<MarketDataEvent>,
    exchange: Seq<char>,
    symbol: Seq<char>,
    market_type: MarketType,
) -> bool {
    if events.len() == 0 {
        error is GridReplayEmpty
    } else {
        exists|index: int|
            {
                &&& #[trigger] is_first_stray(events, exchange, symbol, market_type, index)
                &&& match error {
                    ProfileLoadError::GridReplayNotObservations => !(events[index] is Observation),
                    ProfileLoadError::GridReplayDrifted {
                        exchange: named,
                        symbol: traded,
                        market_type: kind,
                    } => events[index] is Observation && named@ == exchange && traded@ == symbol
                        && kind == market_type,
                    _ => false,
                }
            }
    }
}

/// Checks that a grid replay holds observations of one instrument only.
pub fn validate_grid_replay(
    events: &Vec<MarketDataEvent>,
    exchange: &str,
    symbol: &str,
    market_type: MarketType,
) -> (r: Result<(), ProfileLoadError>)
    ensures
        r is Ok <==> events@.len() > 0 && all_observe(
            events@,
            exchange@,
            symbol@,
            market_type,
        ),
        r is Err ==> is_grid_replay_error(
            r->Err_0,
            events@,
            exchange@,
            symbol@,
            market_type,
        ),
{
    if events.len() == 0 {
        return Err(ProfileLoadError::GridReplayEmpty);
    }
    let mut i: usize = 0;
    while i < events.len()
        invariant
            i <= events@.len(),
            events@.len() > 0,
            forall|k: int|
                0 <= k < i ==> observes(#[trigger] events@[k], exchange@, symbol@, market_type),
        decreases events.len() - i,
    {
        match &events[i] {
            MarketDataEvent::Observation { snapshot, .. } => {
                if !snapshot.matches(exchange, symbol, market_type) {
                    assert(is_first_stray(events@, exchange@, symbol@, market_type, i as int));
                    return Err(
                        ProfileLoadError::GridReplayDrifted {
                            exchange: exchange.to_owned(),
                            symbol: symbol.to_owned(),
                            market_type,
                        },
                    );
                }
            },
            _ => {
                assert(is_first_stray(events@, exchange@, symbol@, market_type, i as int));
                return Err(ProfileLoadError::GridReplayNotObservations);
            },
        }
        i = i + 1;
    }
    Ok(())
}

/// The event is an observation of the symbol at one of the two exchanges.
pub open spec fn observes_pair(
    event: MarketDataEvent,
    left: Seq<char>,
    right: Seq<char>,
    symbol: Seq<char>,
    market_type: MarketType,
) -> bool {
    observes(event, left, symbol, market_type) || observes(event, right, symbol, market_type)
}

/// One of the events was observed at this exchange.
pub open spec fn shows_exchange(events: Seq<MarketDataEvent>, exchange: Seq<char>) -> bool {
    exists|i: int|
        0 <= i < events.len() && (#[trigger] events[i]) is Observation
            && events[i]->Observation_snapshot.exchange@ == exchange
}

/// Every event is an observation of the symbol at one of the two exchanges.
pub open spec fn all_observe_pair(
    events: Seq<MarketDataEvent>,
    left: Seq<char>,
    right: Seq<char>,
    symbol: Seq<char>,
    market_type: MarketType,
) -> bool {
    forall|i: int|
        0 <= i < events.len() ==> observes_pair(
            #[trigger] events[i],
            left,
            right,
            symbol,
            market_type,
        )
}

/// The first event that is no observation of the pair is this one.
pub open spec fn is_first_pair_stray(
    events: Seq<MarketDataEvent>,
    left: Seq<char>,
    right: Seq<char>,
    symbol: Seq<char>,
    market_type: MarketType,
    index: int,
) -> bool {
    &&& 0 <= index < events.len()
    &&& !observes_pair(events[index], left, right, symbol, market_type)
    &&& all_observe_pair(events.take(index), left, right, symbol, market_type)
}

/// The replay is one of both exchanges of the pair and of nothing else.
pub open spec fn is_pair_replay(
    events: Seq<MarketDataEvent>,
    left: Seq<char>,
    right: Seq<char>,
    symbol: Seq<char>,
    market_type: MarketType,
) -> bool {
    &&& all_observe_pair(events, left, right, symbol, market_type)
    &&& shows_exchange(events, left)
    &&& shows_exchange(events, right)
}

/// What is wrong with an arbitrage replay.
pub open spec fn is_arbitrage_replay_error(
    error: ProfileLoadError,
    events: Seq<MarketDataEvent>,
    left: Seq<char>,
    right: Seq<char>,
    symbol: Seq<char>,
    market_type: MarketType,
) -> bool {
    if events.len() == 0 {
        error is ArbitrageReplayEmpty
    } else if all_observe_pair(events, left, right, symbol, market_type) {
        error is ArbitrageReplayOneSided
    } else {
        exists|index: int| #[trigger]
            is_first_pair_stray(events, left, right, symbol, market_type, index) && if events[index] is Observation {
                error is ArbitrageReplayDrifted
            } else {
                error is ArbitrageReplayNotObservations
            }
    }
}

/// Checks that an arbitrage replay holds observations of both exchanges of the
/// pair and of nothing else. An exchange makes no pair with itself.
pub fn validate_arbitrage_replay(
    events: &Vec<MarketDataEvent>,
    left: &str,
    right: &str,
    symbol: &str,
    market_type: MarketType,
) -> (r: Result<(), ProfileLoadError>)
    ensures
        r is Ok <==> left@ != right@ && is_pair_replay(
            events@,
            left@,
            right@,
            symbol@,
            market_type,
        ),
        r is Err ==> is_arbitrage_replay_error(
            r->Err_0,
            events@,
            left@,
            right@,
            symbol@,
            market_type,
        ),
{
    if events.len() == 0 {
        return Err(ProfileLoadError::ArbitrageReplayEmpty);
    }
    let mut left_seen: bool = false;
    let mut right_seen: bool = false;
    let mut i: usize = 0;
    while i < events.len()
        invariant
            i <= events@.len(),
            events@.len() > 0,
            forall|k: int|
                0 <= k < i ==> observes_pair(
                    #[trigger] events@[k],
                    left@,
                    right@,
                    symbol@,
                    market_type,
                ),
            left_seen == shows_exchange(events@.take(i as int), left@),
            right_seen == (left@ != right@ && shows_exchange(events@.take(i as int), right@)),
        decreases events.len() - i,
    {
        proof {
            lemma_shows_exchange_next(events@, i as int, left@);
            lemma_shows_exchange_next(events@, i as int, right@);
        }
        match &events[i] {
            MarketDataEvent::Observation { snapshot, .. } => {
                if snapshot.matches(left, symbol, market_type) {
                    left_seen = true;
                } else if snapshot.matches(right, symbol, market_type) {
                    right_seen = true;
                } else {
                    assert(is_first_pair_stray(
                        events@,
                        left@,
                        right@,
                        symbol@,
                        market_type,
                        i as int,
                    ));
                    assert(!observes_pair(events@[i as int], left@, right@, symbol@, market_type));
                    return Err(ProfileLoadError::ArbitrageReplayDrifted);
                }
            },
            _ => {
                assert(is_first_pair_stray(
                        events@,
                        left@,
                        right@,
                        symbol@,
                        market_type,
                        i as int,
                    ));
                assert(!observes_pair(events@[i as int], left@, right@, symbol@, market_type));
                return Err(ProfileLoadError::ArbitrageReplayNotObservations);
            },
        }
        i = i + 1;
    }
    assert(events@.take(i as int) =~= events@);
    if !left_seen || !right_seen {
        return Err(ProfileLoadError::ArbitrageReplayOneSided);
    }
    Ok(())
}

/// One more event shows its own exchange, and what was shown before.
proof fn lemma_shows_exchange_next(events: Seq<MarketDataEvent>, i: int, exchange: Seq<char>)
    requires
        0 <= i < events.len(),
    ensures
        shows_exchange(events.take(i + 1), exchange) == (shows_exchange(events.take(i), exchange)
            || (events[i] is Observation && events[i]->Observation_snapshot.exchange@ == exchange)),
{
    let (shorter, longer) = (events.take(i), events.take(i + 1));
    if shows_exchange(shorter, exchange) {
        let k = choose|k: int|
            0 <= k < shorter.len() && (#[trigger] shorter[k]) is Observation
                && shorter[k]->Observation_snapshot.exchange@ == exchange;
        assert(longer[k] == shorter[k]);
    }
    if shows_exchange(longer, exchange) {
        let k = choose|k: int|
            0 <= k < longer.len() && (#[trigger] longer[k]) is Observation
                && longer[k]->Observation_snapshot.exchange@ == exchange;
        if k < i {
            assert(shorter[k] == longer[k]);
        }
    }
    assert(longer[i] == events[i]);
}

/// The first snapshot of a replay.
pub open spec fn first_snapshot(events: Seq<MarketDataEvent>) -> Option<MarketSnapshot>
    decreases events.len(),
{
    if events.len() == 0 {
        None
    } else if events[0] is Observation {
        Some(events[0]->Observation_snapshot)
    } else {
        first_snapshot(events.skip(1))
    }
}

/// The first snapshot of a replay.
pub fn first_observation(events: &Vec<MarketDataEvent>) -> (r: Option<MarketSnapshot>)
    ensures
        r == first_snapshot(events@),
{
    let mut i: usize = 0;
    assert(events@.skip(0) =~= events@);
    while i < events.len()
        invariant
            i <= events@.len(),
            first_snapshot(events@) == first_snapshot(events@.skip(i as int)),
        decreases events.len() - i,
    {
        assert(events@.skip(i as int)[0] == events@[i as int]);
        assert(events@.skip(i as int).skip(1) =~= events@.skip(i + 1));
        match &events[i] {
            MarketDataEvent::Observation { snapshot, .. } => {
                return Some(snapshot.copy());
            },
            _ => {},
        }
        i = i + 1;
    }
    None
}

/// The event belongs to the source of this exchange and symbol.
pub open spec fn belongs_to_source(
    event: MarketDataEvent,
    exchange: Seq<char>,
    symbol: Seq<char>,
) -> bool {
    match event {
        MarketDataEvent::Observation { snapshot, .. } => snapshot.exchange@ == exchange
            && snapshot.symbol@ == symbol,
        MarketDataEvent::SourceGap { exchange: named, .. } => named@ == exchange,
        MarketDataEvent::SourceUnavailable { exchange: named, .. } => named@ == exchange,
    }
}

/// The events of one source, in order.
pub fn filter_events(events: &Vec<MarketDataEvent>, exchange: &str, symbol: &str) -> (r: Vec<
    MarketDataEvent,
>)
    ensures
        r@ == events@.filter(
            |event: MarketDataEvent| belongs_to_source(event, exchange@, symbol@),
        ),
{
    let ghost keep = |event: MarketDataEvent| belongs_to_source(event, exchange@, symbol@);
    let mut kept: Vec<MarketDataEvent> = Vec::new();
    let mut i: usize = 0;
    proof {
        reveal(Seq::filter);
        assert(events@.take(0).filter(keep) =~= Seq::<MarketDataEvent>::empty());
    }
    while i < events.len()
        invariant
            i <= events@.len(),
            keep == (|event: MarketDataEvent| belongs_to_source(event, exchange@, symbol@)),
            kept@ == events@.take(i as int).filter(keep),
        decreases events.len() - i,
    {
        proof {
            reveal(Seq::filter);
            let longer = events@.take(i + 1);
            assert(longer.drop_last() =~= events@.take(i as int));
            assert(longer.last() == events@[i as int]);
        }
        let belongs: bool = match &events[i] {
            MarketDataEvent::Observation { snapshot, .. } => same_text(&snapshot.exchange, exchange)
                && same_text(&snapshot.symbol, symbol),
            MarketDataEvent::SourceGap { exchange: named, .. } => same_text(named, exchange),
            MarketDataEvent::SourceUnavailable { exchange: named, .. } => same_text(
                named,
                exchange,
            ),
        };
        if belongs {
            kept.push(events[i].copy());
        }
        i = i + 1;
    }
    assert(events@.take(i as int) =~= events@);
    kept
}

/// The two sources of a pair share no event: each event of a replay goes to one
/// source at most.
pub proof fn law_pair_sources_share_no_event(
    event: MarketDataEvent,
    left: Seq<char>,
    right: Seq<char>,
    symbol: Seq<char>,
)
    requires
        left != right,
    ensures
        !(belongs_to_source(event, left, symbol) && belongs_to_source(event, right, symbol)),
{
}

/// A replay that passed as one of a pair gives both sources something, and every
/// event of it goes to exactly one of them.
pub proof fn law_pair_replay_feeds_both_sources(
    events: Seq<MarketDataEvent>,
    left: Seq<char>,
    right: Seq<char>,
    symbol: Seq<char>,
    market_type: MarketType,
)
    requires
        left != right,
        is_pair_replay(events, left, right, symbol, market_type),
    ensures
        forall|i: int|
            0 <= i < events.len() ==> (belongs_to_source(#[trigger] events[i], left, symbol)
                != belongs_to_source(events[i], right, symbol)),
        exists|i: int|
            0 <= i < events.len() && belongs_to_source(#[trigger] events[i], left, symbol),
        exists|i: int|
            0 <= i < events.len() && belongs_to_source(#[trigger] events[i], right, symbol),
        first_snapshot(events) is Some,
{
    assert forall|i: int| 0 <= i < events.len() implies (belongs_to_source(
        #[trigger] events[i],
        left,
        symbol,
    ) != belongs_to_source(events[i], right, symbol)) by {
        assert(observes_pair(events[i], left, right, symbol, market_type));
    }
    let a = choose|a: int|
        0 <= a < events.len() && (#[trigger] events[a]) is Observation
            && events[a]->Observation_snapshot.exchange@ == left;
    assert(observes_pair(events[a], left, right, symbol, market_type));
    assert(belongs_to_source(events[a], left, symbol));
    let b = choose|b: int|
        0 <= b < events.len() && (#[trigger] events[b]) is Observation
            && events[b]->Observation_snapshot.exchange@ == right;
    assert(observes_pair(events[b], left, right, symbol, market_type));
    assert(belongs_to_source(events[b], right, symbol));
    assert(observes_pair(events[0], left, right, symbol, market_type));
}

/// The geometry of a virtual grid.
#[derive(Clone, Copy, Debug)]
pub struct GridGeometry {
    pub initial_price: Decimal,
    pub grid_width_percent: Decimal,
    pub grid_interval_percent: Decimal,
}

/// Why a grid profile has no geometry.
#[derive(Clone, Copy, Debug, PartialEq, Eq, Structural)]
pub enum GridGeometryError {
    MissingLowerPrice,
    MissingUpperPrice,
    MidpointNotPositive,
    /// A number of the geometry cannot be expressed.
    OutOfRange,
}

pub open spec fn geometry_error_text(error: GridGeometryError) -> Seq<char> {
    match error {
        GridGeometryError::MissingLowerPrice => "grid paper profile requires lower_price"@,
        GridGeometryError::MissingUpperPrice => "grid paper profile requires upper_price"@,
        GridGeometryError::MidpointNotPositive => "grid midpoint must be positive"@,
        GridGeometryError::OutOfRange => "grid geometry is out of range"@,
    }
}

impl GridGeometryError {
    pub fn message(self) -> (r: &'static str)
        ensures
            r@ == geometry_error_text(self),
    {
        match self {
            GridGeometryError::MissingLowerPrice => "grid paper profile requires lower_price",
            GridGeometryError::MissingUpperPrice => "grid paper profile requires upper_price",
            GridGeometryError::MidpointNotPositive => "grid midpoint must be positive",
            GridGeometryError::OutOfRange => "grid geometry is out of range",
        }
    }
}

/// The price half way between two prices.
pub open spec fn midpoint_of(lower: (i128, u32), upper: (i128, u32)) -> Option<(i128, u32)> {
    match sum_of(lower, upper) {
        None => None,
        Some(sum) => quotient_of(sum, (2, 0)),
    }
}

/// A part of a whole in percent.
pub open spec fn percent_of(part: (i128, u32), whole: (i128, u32)) -> Option<(i128, u32)> {
    match quotient_of(part, whole) {
        None => None,
        Some(ratio) => product_of(ratio, (100, 0)),
    }
}

/// The price half way between two prices.
pub fn midpoint_price(lower: Decimal, upper: Decimal) -> (r: Result<Decimal, GridGeometryError>)
    ensures
        match midpoint_of(lower@, upper@) {
            None => r == Err::<Decimal, _>(GridGeometryError::OutOfRange),
            Some(midpoint) => if midpoint.0 > 0 {
                r is Ok && r->Ok_0@ == midpoint
            } else {
                r == Err::<Decimal, _>(GridGeometryError::MidpointNotPositive)
            },
        },
{
    let sum: Decimal = match lower.checked_add(upper) {
        None => {
            return Err(GridGeometryError::OutOfRange);
        },
        Some(sum) => sum,
    };
    match sum.checked_div(Decimal::from_u64(2)) {
        None => Err(GridGeometryError::OutOfRange),
        Some(midpoint) => if midpoint.is_positive() {
            Ok(midpoint)
        } else {
            Err(GridGeometryError::MidpointNotPositive)
        },
    }
}

fn percent(part: Decimal, whole: Decimal) -> (r: Option<Decimal>)
    ensures
        match percent_of(part@, whole@) {
            None => r is None,
            Some(number) => r is Some && r->0@ == number,
        },
{
    match part.checked_div(whole) {
        None => None,
        Some(ratio) => ratio.checked_mul(Decimal::from_u64(100)),
    }
}

/// The geometry of a grid between two prices, or why there is none.
pub open spec fn is_geometry_of(
    r: Result<GridGeometry, GridGeometryError>,
    lower_price: Option<Decimal>,
    upper_price: Option<Decimal>,
    grid_interval: Decimal,
) -> bool {
    match (lower_price, upper_price) {
        (None, _) => r == Err::<GridGeometry, _>(GridGeometryError::MissingLowerPrice),
        (Some(_), None) => r == Err::<GridGeometry, _>(GridGeometryError::MissingUpperPrice),
        (Some(lower), Some(upper)) => match midpoint_of(lower@, upper@) {
            None => r == Err::<GridGeometry, _>(GridGeometryError::OutOfRange),
            Some(midpoint) => if midpoint.0 <= 0 {
                r == Err::<GridGeometry, _>(GridGeometryError::MidpointNotPositive)
            } else {
                match (difference_of(upper@, lower@), percent_of(grid_interval@, midpoint)) {
                    (Some(width), Some(interval)) => match percent_of(width, midpoint) {
                        None => r == Err::<GridGeometry, _>(GridGeometryError::OutOfRange),
                        Some(width_percent) => {
                            &&& r is Ok
                            &&& r->Ok_0.initial_price@ == midpoint
                            &&& r->Ok_0.grid_width_percent@ == width_percent
                            &&& r->Ok_0.grid_interval_percent@ == interval
                        },
                    },
                    _ => r == Err::<GridGeometry, _>(GridGeometryError::OutOfRange),
                }
            },
        },
    }
}

/// The geometry of a grid between two prices: it starts half way between them,
/// and its width and its interval are percentages of that price.
pub fn grid_geometry(
    lower_price: Option<Decimal>,
    upper_price: Option<Decimal>,
    grid_interval: Decimal,
) -> (r: Result<GridGeometry, GridGeometryError>)
    ensures
        is_geometry_of(r, lower_price, upper_price, grid_interval),
{
    let lower: Decimal = match lower_price {
        None => {
            return Err(GridGeometryError::MissingLowerPrice);
        },
        Some(lower) => lower,
    };
    let upper: Decimal = match upper_price {
        None => {
            return Err(GridGeometryError::MissingUpperPrice);
        },
        Some(upper) => upper,
    };
    let midpoint: Decimal = match midpoint_price(lower, upper) {
        Err(error) => {
            return Err(error);
        },
        Ok(midpoint) => midpoint,
    };
    let width: Decimal = match upper.checked_sub(lower) {
        None => {
            return Err(GridGeometryError::OutOfRange);
        },
        Some(width) => width,
    };
    match (percent(width, midpoint), percent(grid_interval, midpoint)) {
        (Some(grid_width_percent), Some(grid_interval_percent)) => Ok(
            GridGeometry { initial_price: midpoint, grid_width_percent, grid_interval_percent },
        ),
        _ => Err(GridGeometryError::OutOfRange),
    }
}

/// Why a file gave no configuration.
#[derive(Clone, Copy, Debug, PartialEq, Eq, Structural)]
pub enum ConfigFailure {
    Unreadable,
    Unloadable,
}

/// The ways in which a grid can be configured.
#[derive(Clone, Copy, Debug, PartialEq, Eq, Structural)]
pub enum GridMode {
    FixedLong,
    Other,
}

/// What a grid profile takes from its configuration.
#[derive(Debug)]
pub struct GridProfileConfig {
    pub mode: GridMode,
    pub exchange: String,
    pub symbol: String,
    pub market_type: MarketType,
    pub order_amount: Decimal,
    pub lower_price: Option<Decimal>,
    pub upper_price: Option<Decimal>,
    pub grid_interval: Decimal,
}

/// One loaded grid profile.
#[derive(Debug)]
pub struct GridPaperProfile {
    task_id: String,
    strategy_id: String,
    strategy_revision: String,
    config: GridProfileConfig,
    replay_events: Vec<MarketDataEvent>,
    shutdown_grace_nanos: u128,
}

/// The profile is safe to start: its identities are in order, and its replay
/// holds observations of its instrument only.
pub open spec fn grid_profile_is_safe(
    task_id: Seq<char>,
    strategy_id: Seq<char>,
    strategy_revision: Seq<char>,
    config: GridProfileConfig,
    events: Seq<MarketDataEvent>,
) -> bool {
    &&& is_profile_identity(task_id)
    &&& is_profile_identity(strategy_id)
    &&& is_profile_identity(strategy_revision)
    &&& config.mode is FixedLong
    &&& events.len() > 0
    &&& all_observe(events, config.exchange@, config.symbol@, config.market_type)
}

impl GridPaperProfile {
    #[verifier::type_invariant]
    pub closed spec fn is_safe(self) -> bool {
        grid_profile_is_safe(
            self.task_id@,
            self.strategy_id@,
            self.strategy_revision@,
            self.config,
            self.replay_events@,
        )
    }

    pub closed spec fn task_view(self) -> Seq<char> {
        self.task_id@
    }

    pub closed spec fn strategy_view(self) -> Seq<char> {
        self.strategy_id@
    }

    pub closed spec fn revision_view(self) -> Seq<char> {
        self.strategy_revision@
    }

    pub closed spec fn config_view(self) -> GridProfileConfig {
        self.config
    }

    pub closed spec fn events_view(self) -> Seq<MarketDataEvent> {
        self.replay_events@
    }

    pub closed spec fn grace_view(self) -> u128 {
        self.shutdown_grace_nanos
    }
}

/// The error of a file that gave no configuration.
pub open spec fn is_config_error(
    error: ProfileLoadError,
    failure: ConfigFailure,
    file: ProfileFile,
    path: String,
) -> bool {
    match failure {
        ConfigFailure::Unreadable => error == (ProfileLoadError::Unreadable { file, path }),
        ConfigFailure::Unloadable => error == (ProfileLoadError::Unloadable { file, path }),
    }
}

fn config_error(failure: ConfigFailure, file: ProfileFile, path: String) -> (r: ProfileLoadError)
    ensures
        is_config_error(r, failure, file, path),
{
    match failure {
        ConfigFailure::Unreadable => ProfileLoadError::Unreadable { file, path },
        ConfigFailure::Unloadable => ProfileLoadError::Unloadable { file, path },
    }
}

/// What loading a grid profile comes to.
pub open spec fn is_grid_load(
    r: Result<GridPaperProfile, ProfileLoadError>,
    input: GridPaperProfileInput,
    config: Result<GridProfileConfig, ConfigFailure>,
    replay: Option<Seq<MarketDataEvent>>,
) -> bool {
    if !is_profile_identity(input.task_id@) {
        r is Err && is_identity_error(r->Err_0, "grid task_id"@)
    } else if !is_profile_identity(input.strategy_id@) {
        r is Err && is_identity_error(r->Err_0, "grid strategy_id"@)
    } else if !is_profile_identity(input.strategy_revision@) {
        r is Err && is_identity_error(r->Err_0, "grid strategy_revision"@)
    } else {
        match config {
            Err(failure) => r is Err && is_config_error(
                r->Err_0,
                failure,
                ProfileFile::GridConfig,
                input.config_path,
            ),
            Ok(config) => if !(config.mode is FixedLong) {
                r == Err::<GridPaperProfile, _>(ProfileLoadError::GridNotFixedLong)
            } else {
                match replay {
                    None => r == Err::<GridPaperProfile, _>(
                        ProfileLoadError::Unloadable {
                            file: ProfileFile::GridReplay,
                            path: input.replay_path,
                        },
                    ),
                    Some(events) => if events.len() > 0 && all_observe(
                        events,
                        config.exchange@,
                        config.symbol@,
                        config.market_type,
                    ) {
                        &&& r is Ok
                        &&& r->Ok_0.task_view() == input.task_id@
                        &&& r->Ok_0.strategy_view() == input.strategy_id@
                        &&& r->Ok_0.revision_view() == input.strategy_revision@
                        &&& r->Ok_0.config_view() == config
                        &&& r->Ok_0.events_view() == events
                        &&& r->Ok_0.grace_view() == input.shutdown_grace_nanos
                    } else {
                        r is Err && is_grid_replay_error(
                            r->Err_0,
                            events,
                            config.exchange@,
                            config.symbol@,
                            config.market_type,
                        )
                    },
                }
            },
        }
    }
}

pub open spec fn events_in(replay: Option<Vec<MarketDataEvent>>) -> Option<Seq<MarketDataEvent>> {
    match replay {
        None => None,
        Some(events) => Some(events@),
    }
}

/// Loads a grid profile from what its configuration and its replay gave.
pub fn load_grid_profile(
    input: GridPaperProfileInput,
    config: Result<GridProfileConfig, ConfigFailure>,
    replay: Option<Vec<MarketDataEvent>>,
) -> (r: Result<GridPaperProfile, ProfileLoadError>)
    ensures
        is_grid_load(r, input, config, events_in(replay)),
{
    if let Err(error) = validate_profile_identity(&input.task_id, "grid task_id") {
        return Err(error);
    }
    if let Err(error) = validate_profile_identity(&input.strategy_id, "grid strategy_id") {
        return Err(error);
    }
    if let Err(error) = validate_profile_identity(
        &input.strategy_revision,
        "grid strategy_revision",
    ) {
        return Err(error);
    }
    let config: GridProfileConfig = match config {
        Err(failure) => {
            return Err(config_error(failure, ProfileFile::GridConfig, input.config_path));
        },
        Ok(config) => config,
    };
    match config.mode {
        GridMode::FixedLong => {},
        GridMode::Other => {
            return Err(ProfileLoadError::GridNotFixedLong);
        },
    }
    let events: Vec<MarketDataEvent> = match replay {
        None => {
            return Err(
                ProfileLoadError::Unloadable {
                    file: ProfileFile::GridReplay,
                    path: input.replay_path,
                },
            );
        },
        Some(events) => events,
    };
    if let Err(error) = validate_grid_replay(
        &events,
        &config.exchange,
        &config.symbol,
        config.market_type,
    ) {
        return Err(error);
    }
    Ok(
        GridPaperProfile {
            task_id: input.task_id,
            strategy_id: input.strategy_id,
            strategy_revision: input.strategy_revision,
            config,
            replay_events: events,
            shutdown_grace_nanos: input.shutdown_grace_nanos,
        },
    )
}

/// What an arbitrage profile takes from its strategy configuration.
#[derive(Debug)]
pub struct PairProfileConfig {
    pub symbols: Vec<String>,
    pub exchanges: Vec<String>,
}

/// What an arbitrage profile takes from its monitor configuration.
#[derive(Debug)]
pub struct MonitorProfileConfig {
    pub symbols: Vec<String>,
    pub exchanges: Vec<String>,
    pub data_timeout_seconds: u64,
    pub min_spread_pct: Decimal,
}

/// The two exchanges of a pair.
#[derive(Debug)]
pub struct ExchangePair {
    pub left: String,
    pub right: String,
}

/// Two lists of the same texts.
pub open spec fn same_texts(a: Seq<String>, b: Seq<String>) -> bool {
    a.len() == b.len() && forall|i: int| 0 <= i < a.len() ==> (#[trigger] a[i])@ == b[i]@
}

/// What is wrong with the symbols and exchanges of a pair.
pub open spec fn pair_flaw(
    symbols: Seq<String>,
    exchanges: Seq<String>,
    monitored_symbols: Seq<String>,
    monitored_exchanges: Seq<String>,
) -> Option<ProfileLoadError> {
    if symbols.len() == 0 {
        Some(ProfileLoadError::MissingSymbol)
    } else if symbols.len() != 1 || monitored_symbols.len() != 1 || monitored_symbols[0]@
        != symbols[0]@ {
        Some(ProfileLoadError::NoSharedSymbol)
    } else if exchanges.len() != 2 || monitored_exchanges.len() != 2 {
        Some(ProfileLoadError::NotTwoExchanges)
    } else if !same_texts(exchanges, monitored_exchanges) {
        Some(ProfileLoadError::DifferentExchanges)
    } else if exchanges[0]@ == exchanges[1]@ {
        Some(ProfileLoadError::EqualExchanges)
    } else {
        None
    }
}

/// Checks that strategy and monitor name one symbol and the same two distinct
/// exchanges.
pub fn validate_pair(strategy: &PairProfileConfig, monitor: &MonitorProfileConfig) -> (r: Result<
    (),
    ProfileLoadError,
>)
    ensures
        r == match pair_flaw(
            strategy.symbols@,
            strategy.exchanges@,
            monitor.symbols@,
            monitor.exchanges@,
        ) {
            Some(error) => Err::<(), ProfileLoadError>(error),
            None => Ok(()),
        },
{
    if strategy.symbols.len() == 0 {
        return Err(ProfileLoadError::MissingSymbol);
    }
    if strategy.symbols.len() != 1 || monitor.symbols.len() != 1 || !same_text(
        &monitor.symbols[0],
        &strategy.symbols[0],
    ) {
        return Err(ProfileLoadError::NoSharedSymbol);
    }
    if strategy.exchanges.len() != 2 || monitor.exchanges.len() != 2 {
        return Err(ProfileLoadError::NotTwoExchanges);
    }
    if !same_text(&strategy.exchanges[0], &monitor.exchanges[0]) || !same_text(
        &strategy.exchanges[1],
        &monitor.exchanges[1],
    ) {
        assert(strategy.exchanges@[0]@ != monitor.exchanges@[0]@ || strategy.exchanges@[1]@
            != monitor.exchanges@[1]@);
        return Err(ProfileLoadError::DifferentExchanges);
    }
    assert(same_texts(strategy.exchanges@, monitor.exchanges@));
    if same_text(&strategy.exchanges[0], &strategy.exchanges[1]) {
        return Err(ProfileLoadError::EqualExchanges);
    }
    Ok(())
}

/// One loaded arbitrage profile.
#[derive(Debug)]
pub struct ArbitragePaperProfile {
    task_id: String,
    strategy_id: String,
    strategy_revision: String,
    symbol: String,
    left_exchange: String,
    right_exchange: String,
    data_timeout_seconds: u64,
    min_spread_pct: Decimal,
    replay_events: Vec<MarketDataEvent>,
    shutdown_grace_nanos: u128,
}

impl ArbitragePaperProfile {
    #[verifier::type_invariant]
    pub closed spec fn is_safe(self) -> bool {
        &&& is_profile_identity(self.task_id@)
        &&& is_profile_identity(self.strategy_id@)
        &&& is_profile_identity(self.strategy_revision@)
        &&& first_snapshot(self.replay_events@) is Some
    }

    pub closed spec fn task_view(self) -> Seq<char> {
        self.task_id@
    }

    pub closed spec fn strategy_view(self) -> Seq<char> {
        self.strategy_id@
    }

    pub closed spec fn revision_view(self) -> Seq<char> {
        self.strategy_revision@
    }

    pub closed spec fn symbol_view(self) -> Seq<char> {
        self.symbol@
    }

    pub closed spec fn left_view(self) -> Seq<char> {
        self.left_exchange@
    }

    pub closed spec fn right_view(self) -> Seq<char> {
        self.right_exchange@
    }

    pub closed spec fn timeout_view(self) -> u64 {
        self.data_timeout_seconds
    }

    pub closed spec fn min_spread_view(self) -> Decimal {
        self.min_spread_pct
    }

    pub closed spec fn events_view(self) -> Seq<MarketDataEvent> {
        self.replay_events@
    }

    pub closed spec fn grace_view(self) -> u128 {
        self.shutdown_grace_nanos
    }
}

/// What loading an arbitrage profile comes to once its configurations are read.
pub open spec fn is_pair_load(
    r: Result<ArbitragePaperProfile, ProfileLoadError>,
    input: ArbitragePaperProfileInput,
    strategy: PairProfileConfig,
    monitor: MonitorProfileConfig,
    replay: Option<Seq<MarketDataEvent>>,
    resolved: Option<ExchangePair>,
) -> bool {
    match pair_flaw(
        strategy.symbols@,
        strategy.exchanges@,
        monitor.symbols@,
        monitor.exchanges@,
    ) {
        Some(error) => r == Err::<ArbitragePaperProfile, _>(error),
        None => match replay {
            None => r == Err::<ArbitragePaperProfile, _>(
                ProfileLoadError::Unloadable {
                    file: ProfileFile::ArbitrageReplay,
                    path: input.replay_path,
                },
            ),
            Some(events) => {
                let symbol = strategy.symbols@[0]@;
                let (left, right) = (monitor.exchanges@[0]@, monitor.exchanges@[1]@);
                let market_type = market_type_of_symbol(symbol);
                if !is_pair_replay(events, left, right, symbol, market_type) {
                    r is Err && is_arbitrage_replay_error(
                        r->Err_0,
                        events,
                        left,
                        right,
                        symbol,
                        market_type,
                    )
                } else {
                    match resolved {
                        None => {
                            &&& r is Err
                            &&& r->Err_0 is SymbolNotExecutable
                            &&& r->Err_0->SymbolNotExecutable_symbol@ == symbol
                        },
                        Some(pair) => {
                            &&& r is Ok
                            &&& r->Ok_0.task_view() == input.task_id@
                            &&& r->Ok_0.strategy_view() == input.strategy_id@
                            &&& r->Ok_0.revision_view() == input.strategy_revision@
                            &&& r->Ok_0.symbol_view() == symbol
                            &&& r->Ok_0.left_view() == pair.left@
                            &&& r->Ok_0.right_view() == pair.right@
                            &&& r->Ok_0.timeout_view() == monitor.data_timeout_seconds
                            &&& r->Ok_0.min_spread_view() == monitor.min_spread_pct
                            &&& r->Ok_0.events_view() == events
                            &&& r->Ok_0.grace_view() == input.shutdown_grace_nanos
                        },
                    }
                }
            },
        },
    }
}

/// What loading an arbitrage profile comes to.
pub open spec fn is_arbitrage_load(
    r: Result<ArbitragePaperProfile, ProfileLoadError>,
    input: ArbitragePaperProfileInput,
    strategy: Result<PairProfileConfig, ConfigFailure>,
    monitor: Result<MonitorProfileConfig, ConfigFailure>,
    controls_are_valid: bool,
    replay: Option<Seq<MarketDataEvent>>,
    resolved: Option<ExchangePair>,
) -> bool {
    if !is_profile_identity(input.task_id@) {
        r is Err && is_identity_error(r->Err_0, "arbitrage task_id"@)
    } else if !is_profile_identity(input.strategy_id@) {
        r is Err && is_identity_error(r->Err_0, "arbitrage strategy_id"@)
    } else if !is_profile_identity(input.strategy_revision@) {
        r is Err && is_identity_error(r->Err_0, "arbitrage strategy_revision"@)
    } else {
        match (strategy, monitor) {
            (Err(failure), _) => r is Err && is_config_error(
                r->Err_0,
                failure,
                ProfileFile::ArbitrageConfig,
                input.arbitrage_config_path,
            ),
            (Ok(_), Err(failure)) => r is Err && is_config_error(
                r->Err_0,
                failure,
                ProfileFile::MonitorConfig,
                input.monitor_config_path,
            ),
            (Ok(strategy), Ok(monitor)) => if !controls_are_valid {
                r == Err::<ArbitragePaperProfile, _>(ProfileLoadError::ExecutionControls)
            } else {
                is_pair_load(r, input, strategy, monitor, replay, resolved)
            },
        }
    }
}

/// Loads an arbitrage profile from what its configurations and its replay gave,
/// from what the execution controls said of the strategy, and from the pair that
/// the strategy resolves its symbol to.
pub fn load_arbitrage_profile(
    input: ArbitragePaperProfileInput,
    strategy: Result<PairProfileConfig, ConfigFailure>,
    monitor: Result<MonitorProfileConfig, ConfigFailure>,
    controls_are_valid: bool,
    replay: Option<Vec<MarketDataEvent>>,
    resolved: Option<ExchangePair>,
) -> (r: Result<ArbitragePaperProfile, ProfileLoadError>)
    ensures
        is_arbitrage_load(
            r,
            input,
            strategy,
            monitor,
            controls_are_valid,
            events_in(replay),
            resolved,
        ),
{
    if let Err(error) = validate_profile_identity(&input.task_id, "arbitrage task_id") {
        return Err(error);
    }
    if let Err(error) = validate_profile_identity(&input.strategy_id, "arbitrage strategy_id") {
        return Err(error);
    }
    if let Err(error) = validate_profile_identity(
        &input.strategy_revision,
        "arbitrage strategy_revision",
    ) {
        return Err(error);
    }
    let strategy: PairProfileConfig = match strategy {
        Err(failure) => {
            return Err(
                config_error(failure, ProfileFile::ArbitrageConfig, input.arbitrage_config_path),
            );
        },
        Ok(strategy) => strategy,
    };
    let monitor: MonitorProfileConfig = match monitor {
        Err(failure) => {
            return Err(
                config_error(failure, ProfileFile::MonitorConfig, input.monitor_config_path),
            );
        },
        Ok(monitor) => monitor,
    };
    if !controls_are_valid {
        return Err(ProfileLoadError::ExecutionControls);
    }
    if let Err(error) = validate_pair(&strategy, &monitor) {
        return Err(error);
    }
    let events: Vec<MarketDataEvent> = match replay {
        None => {
            return Err(
                ProfileLoadError::Unloadable {
                    file: ProfileFile::ArbitrageReplay,
                    path: input.replay_path,
                },
            );
        },
        Some(events) => events,
    };
    let symbol: &String = &strategy.symbols[0];
    let market_type: MarketType = market_type_for_symbol(symbol);
    proof {
        assert(monitor.exchanges@[0]@ == strategy.exchanges@[0]@);
        assert(monitor.exchanges@[1]@ == strategy.exchanges@[1]@);
    }
    if let Err(error) = validate_arbitrage_replay(
        &events,
        &monitor.exchanges[0],
        &monitor.exchanges[1],
        symbol,
        market_type,
    ) {
        return Err(error);
    }
    proof {
        law_pair_replay_feeds_both_sources(
            events@,
            monitor.exchanges@[0]@,
            monitor.exchanges@[1]@,
            symbol@,
            market_type,
        );
    }
    match resolved {
        None => Err(ProfileLoadError::SymbolNotExecutable { symbol: symbol.clone() }),
        Some(pair) => Ok(
            ArbitragePaperProfile {
                task_id: input.task_id,
                strategy_id: input.strategy_id,
                strategy_revision: input.strategy_revision,
                symbol: symbol.clone(),
                left_exchange: pair.left,
                right_exchange: pair.right,
                data_timeout_seconds: monitor.data_timeout_seconds,
                min_spread_pct: monitor.min_spread_pct,
                replay_events: events,
                shutdown_grace_nanos: input.shutdown_grace_nanos,
            },
        ),
    }
}

/// The costs that every profile assumes.
pub open spec fn default_costs() -> PaperCostModel {
    PaperCostModel {
        version: 1,
        fee_bps: DEFAULT_COST_FEE_BPS,
        funding_buffer_bps: DEFAULT_COST_FUNDING_BUFFER_BPS,
        slippage_bps: DEFAULT_COST_SLIPPAGE_BPS,
    }
}

pub fn default_cost_model() -> (r: PaperCostModel)
    ensures
        r == default_costs(),
{
    PaperCostModel::v1(
        DEFAULT_COST_FEE_BPS,
        DEFAULT_COST_FUNDING_BUFFER_BPS,
        DEFAULT_COST_SLIPPAGE_BPS,
    )
}

/// What a grid profile starts its task with.
#[derive(Debug)]
pub struct GridStartPlan {
    /// Where the replay's clock stands at first.
    pub clock_start: Timestamp,
    pub account_id: String,
    pub initial_available: Decimal,
    pub cost_model: PaperCostModel,
    pub geometry: GridGeometry,
}

/// The account of a grid task.
pub open spec fn grid_account_id(task_id: Seq<char>) -> Seq<char> {
    "paper-grid:"@ + task_id
}

/// The account of an arbitrage task.
pub open spec fn arbitrage_account_id(task_id: Seq<char>) -> Seq<char> {
    "paper-arbitrage:"@ + task_id
}

/// A replay of observations has a first snapshot.
proof fn lemma_observed_replay_has_a_snapshot(
    events: Seq<MarketDataEvent>,
    exchange: Seq<char>,
    symbol: Seq<char>,
    market_type: MarketType,
)
    requires
        events.len() > 0,
        all_observe(events, exchange, symbol, market_type),
    ensures
        first_snapshot(events) is Some,
{
    assert(observes(events[0], exchange, symbol, market_type));
}

impl GridPaperProfile {
    pub fn task_id(&self) -> (r: &str)
        ensures
            r@ == self.task_view(),
    {
        &self.task_id
    }

    pub fn config(&self) -> (r: &GridProfileConfig)
        ensures
            *r == self.config_view(),
    {
        &self.config
    }

    pub fn replay_events(&self) -> (r: &Vec<MarketDataEvent>)
        ensures
            r@ == self.events_view(),
    {
        &self.replay_events
    }

    pub fn shutdown_grace_nanos(&self) -> (r: u128)
        ensures
            r == self.grace_view(),
    {
        self.shutdown_grace_nanos
    }

    /// What the task is started with: the clock stands at the first snapshot of
    /// the replay, and the grid lies between the configured prices.
    pub fn start_plan(&self) -> (r: Result<GridStartPlan, GridGeometryError>)
        ensures
            first_snapshot(self.events_view()) is Some,
            r is Ok ==> {
                let plan = r->Ok_0;
                let config = self.config_view();
                &&& plan.clock_start == first_snapshot(self.events_view())->0.timestamp
                &&& plan.account_id@ == grid_account_id(self.task_view())
                &&& plan.initial_available@ == (DEFAULT_GRID_INITIAL_AVAILABLE as i128, 0u32)
                &&& plan.cost_model == default_costs()
                &&& config.lower_price is Some
                &&& config.upper_price is Some
                &&& Some(plan.geometry.initial_price@) == midpoint_of(
                    config.lower_price->0@,
                    config.upper_price->0@,
                )
                &&& plan.geometry.initial_price@.0 > 0
                &&& Some(plan.geometry.grid_interval_percent@) == percent_of(
                    config.grid_interval@,
                    plan.geometry.initial_price@,
                )
                &&& match difference_of(config.upper_price->0@, config.lower_price->0@) {
                    Some(width) => Some(plan.geometry.grid_width_percent@) == percent_of(
                        width,
                        plan.geometry.initial_price@,
                    ),
                    None => false,
                }
            },
            r is Err ==> r->Err_0 == match (
                self.config_view().lower_price,
                self.config_view().upper_price,
            ) {
                (None, _) => GridGeometryError::MissingLowerPrice,
                (Some(_), None) => GridGeometryError::MissingUpperPrice,
                (Some(lower), Some(upper)) => match midpoint_of(lower@, upper@) {
                    Some(midpoint) if midpoint.0 <= 0 => GridGeometryError::MidpointNotPositive,
                    _ => GridGeometryError::OutOfRange,
                },
            },
            r is Ok <==> grid_has_geometry(self.config_view()),
            r is Ok ==> is_geometry_of(
                Ok(r->Ok_0.geometry),
                self.config_view().lower_price,
                self.config_view().upper_price,
                self.config_view().grid_interval,
            ),
    {
        proof {
            use_type_invariant(self);
            lemma_observed_replay_has_a_snapshot(
                self.replay_events@,
                self.config.exchange@,
                self.config.symbol@,
                self.config.market_type,
            );
        }
        let geometry: GridGeometry = match grid_geometry(
            self.config.lower_price,
            self.config.upper_price,
            self.config.grid_interval,
        ) {
            Err(error) => {
                return Err(error);
            },
            Ok(geometry) => geometry,
        };
        match first_observation(&self.replay_events) {
            None => Err(GridGeometryError::OutOfRange),
            Some(snapshot) => Ok(
                GridStartPlan {
                    clock_start: snapshot.timestamp,
                    account_id: joined("paper-grid:", &self.task_id),
                    initial_available: Decimal::from_u64(DEFAULT_GRID_INITIAL_AVAILABLE),
                    cost_model: default_cost_model(),
                    geometry,
                },
            ),
        }
    }
}

/// The configured prices give a grid: both are there, the price half way between
/// them is positive, and every number of the geometry can be expressed.
pub open spec fn grid_has_geometry(config: GridProfileConfig) -> bool {
    match (config.lower_price, config.upper_price) {
        (Some(lower), Some(upper)) => match (
            midpoint_of(lower@, upper@),
            difference_of(upper@, lower@),
        ) {
            (Some(midpoint), Some(width)) => {
                &&& midpoint.0 > 0
                &&& percent_of(width, midpoint) is Some
                &&& percent_of(config.grid_interval@, midpoint) is Some
            },
            _ => false,
        },
        _ => false,
    }
}

/// What an arbitrage profile starts its task with.
#[derive(Debug)]
pub struct ArbitrageStartPlan {
    /// Where the replay's clock stands at first.
    pub clock_start: Timestamp,
    pub account_id: String,
    pub initial_available: Decimal,
    pub cost_model: PaperCostModel,
    pub left: MarketInstrument,
    pub right: MarketInstrument,
    pub left_events: Vec<MarketDataEvent>,
    pub right_events: Vec<MarketDataEvent>,
    /// The age up to which market data counts as fresh.
    pub data_timeout_seconds: i64,
    pub min_spread_pct: Decimal,
}

/// The legs of a pair stand on its two exchanges, and each gets the events of
/// its own.
pub open spec fn is_pair_start(
    plan: ArbitrageStartPlan,
    left: Seq<char>,
    right: Seq<char>,
    symbol: Seq<char>,
    events: Seq<MarketDataEvent>,
) -> bool {
    &&& first_snapshot(events) is Some
    &&& plan.clock_start == first_snapshot(events)->0.timestamp
    &&& plan.left.exchange@ == left
    &&& plan.left.symbol@ == symbol
    &&& plan.left.market_type == market_type_of_symbol(symbol)
    &&& plan.right.exchange@ == right
    &&& plan.right.symbol@ == symbol
    &&& plan.right.market_type == market_type_of_symbol(symbol)
    &&& plan.left_events@ == events.filter(
        |event: MarketDataEvent| belongs_to_source(event, left, symbol),
    )
    &&& plan.right_events@ == events.filter(
        |event: MarketDataEvent| belongs_to_source(event, right, symbol),
    )
}

impl ArbitragePaperProfile {
    pub fn task_id(&self) -> (r: &str)
        ensures
            r@ == self.task_view(),
    {
        &self.task_id
    }

    pub fn shutdown_grace_nanos(&self) -> (r: u128)
        ensures
            r == self.grace_view(),
    {
        self.shutdown_grace_nanos
    }

    /// What the task is started with: the clock stands at the first snapshot of
    /// the replay, and each source gets the events of its own exchange.
    pub fn start_plan(&self) -> (r: ArbitrageStartPlan)
        ensures
            first_snapshot(self.events_view()) is Some,
            r.clock_start == first_snapshot(self.events_view())->0.timestamp,
            r.account_id@ == arbitrage_account_id(self.task_view()),
            r.initial_available@ == (DEFAULT_ARBITRAGE_INITIAL_AVAILABLE as i128, 0u32),
            r.cost_model == default_costs(),
            is_pair_start(
                r,
                self.left_view(),
                self.right_view(),
                self.symbol_view(),
                self.events_view(),
            ),
            r.data_timeout_seconds == if self.timeout_view() > i64::MAX {
                i64::MAX as int
            } else {
                self.timeout_view() as int
            },
            r.min_spread_pct == self.min_spread_view(),
    {
        proof {
            use_type_invariant(self);
        }
        let market_type: MarketType = market_type_for_symbol(&self.symbol);
        let clock_start: Timestamp = match first_observation(&self.replay_events) {
            None => Timestamp { seconds: 0, subsec: 0 },
            Some(snapshot) => snapshot.timestamp,
        };
        ArbitrageStartPlan {
            clock_start,
            account_id: joined("paper-arbitrage:", &self.task_id),
            initial_available: Decimal::from_u64(DEFAULT_ARBITRAGE_INITIAL_AVAILABLE),
            cost_model: default_cost_model(),
            left: MarketInstrument {
                exchange: self.left_exchange.clone(),
                symbol: self.symbol.clone(),
                market_type,
            },
            right: MarketInstrument {
                exchange: self.right_exchange.clone(),
                symbol: self.symbol.clone(),
                market_type,
            },
            left_events: filter_events(&self.replay_events, &self.left_exchange, &self.symbol),
            right_events: filter_events(&self.replay_events, &self.right_exchange, &self.symbol),
            data_timeout_seconds: if self.data_timeout_seconds > i64::MAX as u64 {
                i64::MAX
            } else {
                self.data_timeout_seconds as i64
            },
            min_spread_pct: self.min_spread_pct,
        }
    }
}

/// The loaded profiles.
#[derive(Debug)]
pub struct PaperProfileCatalog {
    grid: Option<GridPaperProfile>,
    arbitrage: Option<ArbitragePaperProfile>,
}

/// A command that reaches the catalog.
#[derive(Debug)]
pub enum SubmitCommand {
    StartPaperGrid { strategy_id: String, strategy_revision: String },
    StartPaperArbitrage { strategy_id: String, strategy_revision: String },
    /// Every other command.
    Other,
}

/// Which of the profiles a command starts.
#[derive(Clone, Copy, Debug, PartialEq, Eq, Structural)]
pub enum PaperProfileKind {
    Grid,
    Arbitrage,
}

/// A task that was started.
#[derive(Debug)]
pub enum StartedPaperTask {
    Grid(GridPaperTask),
    Arbitrage(ArbitragePaperTask),
}

/// Why no task was started.
#[derive(Clone, Copy, Debug, PartialEq, Eq, Structural)]
pub enum PaperProfileError {
    UnknownTask,
    UnsupportedCommand,
    StrategyMismatch,
    GridStart(GridPaperTaskError),
    ArbitrageStart(ArbitragePaperTaskError),
}

/// The start was refused before anything could have changed; the other failures
/// leave it open what was written.
pub open spec fn is_refusal(error: PaperProfileError) -> bool {
    match error {
        PaperProfileError::UnknownTask => true,
        PaperProfileError::UnsupportedCommand => true,
        PaperProfileError::StrategyMismatch => true,
        PaperProfileError::GridStart(error) => !(error is SnapshotTaskFailed || error is Journal
            || error is JournalRead || error is Projection || error is AccountRisk
            || error is TaskPanicked),
        PaperProfileError::ArbitrageStart(error) => !(error is SnapshotTaskFailed
            || error is Journal || error is JournalRead || error is Projection
            || error is AccountRisk || error is TaskPanicked),
    }
}

impl PaperProfileError {
    /// The start was refused.
    pub fn is_rejected(&self) -> (r: bool)
        ensures
            r == is_refusal(*self),
    {
        match self {
            PaperProfileError::UnknownTask | PaperProfileError::UnsupportedCommand
            | PaperProfileError::StrategyMismatch => true,
            PaperProfileError::GridStart(error) => match error {
                GridPaperTaskError::SnapshotTaskFailed | GridPaperTaskError::Journal
                | GridPaperTaskError::JournalRead | GridPaperTaskError::Projection
                | GridPaperTaskError::AccountRisk | GridPaperTaskError::TaskPanicked => false,
                _ => true,
            },
            PaperProfileError::ArbitrageStart(error) => match error {
                ArbitragePaperTaskError::SnapshotTaskFailed | ArbitragePaperTaskError::Journal
                | ArbitragePaperTaskError::JournalRead | ArbitragePaperTaskError::Projection
                | ArbitragePaperTaskError::AccountRisk | ArbitragePaperTaskError::TaskPanicked =>
                    false,
                _ => true,
            },
        }
    }
}

/// What a start command for a profile of this kind comes to.
pub open spec fn start_answer(
    kind: PaperProfileKind,
    profile: Option<(Seq<char>, Seq<char>, Seq<char>)>,
    target_task_id: Seq<char>,
    strategy_id: Seq<char>,
    strategy_revision: Seq<char>,
) -> Result<PaperProfileKind, PaperProfileError> {
    match profile {
        None => Err(PaperProfileError::UnknownTask),
        Some((task, strategy, revision)) => if target_task_id != task {
            Err(PaperProfileError::UnknownTask)
        } else if strategy_id != strategy || strategy_revision != revision {
            Err(PaperProfileError::StrategyMismatch)
        } else {
            Ok(kind)
        },
    }
}

impl PaperProfileCatalog {
    /// The two profiles have different tasks.
    #[verifier::type_invariant]
    pub closed spec fn is_sound(self) -> bool {
        self.grid is Some && self.arbitrage is Some ==> self.grid->0.task_view()
            != self.arbitrage->0.task_view()
    }

    pub closed spec fn grid_view(self) -> Option<GridPaperProfile> {
        self.grid
    }

    pub closed spec fn arbitrage_view(self) -> Option<ArbitragePaperProfile> {
        self.arbitrage
    }

    /// The identities of the grid profile: its task, its strategy, its revision.
    pub open spec fn grid_identity(self) -> Option<(Seq<char>, Seq<char>, Seq<char>)> {
        match self.grid_view() {
            None => None,
            Some(profile) => Some(
                (profile.task_view(), profile.strategy_view(), profile.revision_view()),
            ),
        }
    }

    /// The identities of the arbitrage profile: its task, its strategy, its
    /// revision.
    pub open spec fn arbitrage_identity(self) -> Option<(Seq<char>, Seq<char>, Seq<char>)> {
        match self.arbitrage_view() {
            None => None,
            Some(profile) => Some(
                (profile.task_view(), profile.strategy_view(), profile.revision_view()),
            ),
        }
    }

    /// The catalog of the profiles that were asked for, from what loading each of
    /// them came to.
    pub fn new(
        grid: Option<Result<GridPaperProfile, ProfileLoadError>>,
        arbitrage: Option<Result<ArbitragePaperProfile, ProfileLoadError>>,
    ) -> (r: Result<PaperProfileCatalog, ProfileLoadError>)
        ensures
            match (grid, arbitrage) {
                (Some(Err(error)), _) => r == Err::<PaperProfileCatalog, _>(error),
                (_, Some(Err(error))) => r == Err::<PaperProfileCatalog, _>(error),
                (Some(Ok(first)), Some(Ok(second))) => if first.task_view()
                    == second.task_view() {
                    r == Err::<PaperProfileCatalog, _>(ProfileLoadError::SharedTaskIdentity)
                } else {
                    r is Ok && r->Ok_0.grid_view() == Some(first) && r->Ok_0.arbitrage_view()
                        == Some(second)
                },
                (Some(Ok(first)), None) => r is Ok && r->Ok_0.grid_view() == Some(first)
                    && r->Ok_0.arbitrage_view() is None,
                (None, Some(Ok(second))) => r is Ok && r->Ok_0.grid_view() is None
                    && r->Ok_0.arbitrage_view() == Some(second),
                (None, None) => r is Ok && r->Ok_0.grid_view() is None
                    && r->Ok_0.arbitrage_view() is None,
            },
    {
        let grid: Option<GridPaperProfile> = match grid {
            None => None,
            Some(Err(error)) => {
                return Err(error);
            },
            Some(Ok(profile)) => Some(profile),
        };
        let arbitrage: Option<ArbitragePaperProfile> = match arbitrage {
            None => None,
            Some(Err(error)) => {
                return Err(error);
            },
            Some(Ok(profile)) => Some(profile),
        };
        if let (Some(first), Some(second)) = (&grid, &arbitrage) {
            if same_text(&first.task_id, &second.task_id) {
                return Err(ProfileLoadError::SharedTaskIdentity);
            }
        }
        Ok(PaperProfileCatalog { grid, arbitrage })
    }

    pub fn is_empty(&self) -> (r: bool)
        ensures
            r == (self.grid_view() is None && self.arbitrage_view() is None),
    {
        self.grid.is_none() && self.arbitrage.is_none()
    }

    /// The tasks of the profiles: that of the grid, then that of the arbitrage.
    pub fn task_ids(&self) -> (r: Vec<String>)
        ensures
            match (self.grid_identity(), self.arbitrage_identity()) {
                (None, None) => r@.len() == 0,
                (Some(grid), None) => r@.len() == 1 && r@[0]@ == grid.0,
                (None, Some(arbitrage)) => r@.len() == 1 && r@[0]@ == arbitrage.0,
                (Some(grid), Some(arbitrage)) => {
                    &&& r@.len() == 2
                    &&& r@[0]@ == grid.0
                    &&& r@[1]@ == arbitrage.0
                    &&& r@[0]@ != r@[1]@
                },
            },
    {
        proof {
            use_type_invariant(self);
        }
        let mut task_ids: Vec<String> = Vec::new();
        if let Some(grid) = &self.grid {
            task_ids.push(grid.task_id.clone());
        }
        if let Some(arbitrage) = &self.arbitrage {
            task_ids.push(arbitrage.task_id.clone());
        }
        task_ids
    }

    pub fn grid(&self) -> (r: Option<&GridPaperProfile>)
        ensures
            r is Some <==> self.grid_view() is Some,
            r is Some ==> *r->0 == self.grid_view()->0,
    {
        match &self.grid {
            None => None,
            Some(profile) => Some(profile),
        }
    }

    pub fn arbitrage(&self) -> (r: Option<&ArbitragePaperProfile>)
        ensures
            r is Some <==> self.arbitrage_view() is Some,
            r is Some ==> *r->0 == self.arbitrage_view()->0,
    {
        match &self.arbitrage {
            None => None,
            Some(profile) => Some(profile),
        }
    }

    /// The one configured profile that exactly matches a command.
    pub fn start_matching(&self, target_task_id: &str, command: &SubmitCommand) -> (r: Result<
        PaperProfileKind,
        PaperProfileError,
    >)
        ensures
            r == match *command {
                SubmitCommand::StartPaperGrid { strategy_id, strategy_revision } => start_answer(
                    PaperProfileKind::Grid,
                    self.grid_identity(),
                    target_task_id@,
                    strategy_id@,
                    strategy_revision@,
                ),
                SubmitCommand::StartPaperArbitrage { strategy_id, strategy_revision } =>
                    start_answer(
                    PaperProfileKind::Arbitrage,
                    self.arbitrage_identity(),
                    target_task_id@,
                    strategy_id@,
                    strategy_revision@,
                ),
                SubmitCommand::Other => Err::<PaperProfileKind, PaperProfileError>(
                    PaperProfileError::UnsupportedCommand,
                ),
            },
    {
        match command {
            SubmitCommand::StartPaperGrid { strategy_id, strategy_revision } => {
                match &self.grid {
                    None => Err(PaperProfileError::UnknownTask),
                    Some(profile) => {
                        if !same_text(target_task_id, &profile.task_id) {
                            return Err(PaperProfileError::UnknownTask);
                        }
                        if !same_text(strategy_id, &profile.strategy_id) || !same_text(
                            strategy_revision,
                            &profile.strategy_revision,
                        ) {
                            return Err(PaperProfileError::StrategyMismatch);
                        }
                        Ok(PaperProfileKind::Grid)
                    },
                }
            },
            SubmitCommand::StartPaperArbitrage { strategy_id, strategy_revision } => {
                match &self.arbitrage {
                    None => Err(PaperProfileError::UnknownTask),
                    Some(profile) => {
                        if !same_text(target_task_id, &profile.task_id) {
                            return Err(PaperProfileError::UnknownTask);
                        }
                        if !same_text(strategy_id, &profile.strategy_id) || !same_text(
                            strategy_revision,
                            &profile.strategy_revision,
                        ) {
                            return Err(PaperProfileError::StrategyMismatch);
                        }
                        Ok(PaperProfileKind::Arbitrage)
                    },
                }
            },
            SubmitCommand::Other => Err(PaperProfileError::UnsupportedCommand),
        }
    }
}

} // verus!
