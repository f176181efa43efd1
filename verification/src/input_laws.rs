//! What is asked of what comes in: identities, candidates, requests, profiles.

use crate::decimal::{representable, Decimal};
use crate::domain::{is_quoted, opposite_of, MarketDataEvent, Side};
use crate::domain::StrategyError;
use crate::live_lifecycle::{is_spot_symbol, spot_symbol_at};
use crate::monitor::MarketInstrument;
use crate::number_laws::{law_order_is_that_of_units, law_sign_is_that_of_units, units};
use crate::paper_profile::{is_grid_load, is_profile_identity, ConfigFailure};
use crate::paper_profile::{GridPaperProfile, GridPaperProfileInput, GridProfileConfig};
use crate::paper_profile::{is_arbitrage_load, ArbitragePaperProfile, ArbitragePaperProfileInput};
use crate::paper_profile::{ExchangePair, MonitorProfileConfig, PairProfileConfig, ProfileLoadError};
use crate::paper_task::{is_plain_identity, is_task_identity};
use crate::scan_report::first_evaluation_error;
use crate::scanner::{candidate_is_sound, evaluation_error, instruments_are_distinct};
use crate::scanner::{is_candidate_error, is_duplicated, is_request_error};
use crate::scanner::{is_run_char, observation_fits, observations_in};
use crate::scanner::{request_is_sound, GridEvaluation, VirtualGridScanCandidate};
use crate::scanner::{VirtualGridScanObservation, VirtualGridScannerError};
use crate::text::{all_identity_chars, is_control_char, is_digit, is_identity_char};
use crate::text::is_white_space;
use crate::timestamp::Timestamp;
use vstd::prelude::*;

verus! {

/// An identity is made of printing ASCII without a blank, and what may stand
/// in the identity of a run may stand in any, but for the two signs of a path.
pub proof fn law_identity_is_plain_text(c: char)
    ensures
        is_identity_char(c) ==> !is_white_space(c) && !is_control_char(c) && '!' < c && c < '~',
        is_identity_char(c) <==> is_run_char(c) || c == '/' || c == '@',
        is_run_char(c) ==> c != '/' && c != '@',
        ('a' <= c && c <= 'z') || ('A' <= c && c <= 'Z') || is_digit(c) ==> is_run_char(c),
{
}

/// A text is made of identity characters exactly where both its parts are.
pub proof fn law_identity_is_checked_in_every_part(a: Seq<char>, b: Seq<char>)
    ensures
        all_identity_chars(a + b) <==> all_identity_chars(a) && all_identity_chars(b),
{
    let whole = a + b;
    if all_identity_chars(whole) {
        assert forall|i: int| 0 <= i < a.len() implies is_identity_char(#[trigger] a[i]) by {
            assert(whole[i] == a[i]);
        }
        assert forall|i: int| 0 <= i < b.len() implies is_identity_char(#[trigger] b[i]) by {
            assert(whole[a.len() + i] == b[i]);
        }
    }
}

/// An owner's identity would do for an exchange or a source too.
pub proof fn law_owner_identity_is_a_plain_one(value: Seq<char>)
    requires
        is_task_identity(value),
    ensures
        is_plain_identity(value),
{
}

/// The other side is another one, and the other side of that is the side
/// itself.
pub proof fn law_sides_are_two(side: Side)
    ensures
        opposite_of(side) != side,
        opposite_of(opposite_of(side)) == side,
{
}

/// A book is quoted where it has a bid, and asks for no less than that.
pub proof fn law_quoted_book_is_not_crossed(bid: Decimal, ask: Decimal)
    requires
        representable(bid@),
        representable(ask@),
    ensures
        is_quoted(bid, ask) <==> units(bid@) > 0 && units(ask@) >= units(bid@),
{
    law_order_is_that_of_units(ask@, bid@);
    law_sign_is_that_of_units(bid@);
    law_sign_is_that_of_units(ask@);
}

/// Any two assets without dashes make up a spot symbol.
pub proof fn law_two_assets_make_a_spot_symbol(base: Seq<char>, quote: Seq<char>)
    requires
        base.len() > 0,
        quote.len() > 0,
        !base.contains('-'),
        !quote.contains('-'),
    ensures
        is_spot_symbol(base + seq!['-'] + quote + seq!['-'] + "SPOT"@),
{
    reveal_strlit("SPOT");
    let symbol = base + seq!['-'] + quote + seq!['-'] + "SPOT"@;
    let i = base.len() as int;
    let j = i + 1 + quote.len();
    assert(symbol[i] == '-' && symbol[j] == '-');
    assert(symbol.skip(j + 1) =~= "SPOT"@);
    assert forall|k: int| 0 <= k < symbol.len() && k != i && k != j implies #[trigger] symbol[k]
        != '-' by {
        if k < i {
            assert(symbol[k] == base[k]);
            assert(base.contains(base[k]));
        } else if k < j {
            assert(symbol[k] == quote[k - i - 1]);
            assert(quote.contains(quote[k - i - 1]));
        } else {
            assert(symbol[k] == "SPOT"@[k - j - 1]);
        }
    }
    assert(spot_symbol_at(symbol, i, j));
}

/// A candidate in order is refused with no error, and one that is refused is
/// told what is wrong with it.
pub proof fn law_candidate_is_in_order_or_refused(
    instrument: MarketInstrument,
    volume: Decimal,
    observations: Seq<VirtualGridScanObservation>,
    error: VirtualGridScannerError,
)
    requires
        is_candidate_error(error, instrument, volume, observations),
    ensures
        !candidate_is_sound(instrument, volume, observations),
        error is NegativeVolume ==> volume@.0 < 0,
        error is MissingObservations ==> observations.len() == 0,
        error is TooManyCandidateObservations ==> observations.len() > 8192
            && error->TooManyCandidateObservations_count == observations.len() as usize,
        error is InvalidObservationSequence ==> error->observed != error->expected,
{
}

/// Any volume from zero up will do, and a candidate stays in order without its
/// last observations, down to one.
pub proof fn law_candidate_stays_in_order(
    instrument: MarketInstrument,
    volume: Decimal,
    other: Decimal,
    observations: Seq<VirtualGridScanObservation>,
    kept: int,
)
    requires
        candidate_is_sound(instrument, volume, observations),
        representable(other@),
        representable(volume@),
        0 < kept <= observations.len(),
    ensures
        units(volume@) >= 0,
        candidate_is_sound(instrument, other, observations.take(kept)) <==> units(other@) >= 0,
{
    law_sign_is_that_of_units(other@);
    law_sign_is_that_of_units(volume@);
    let fewer = observations.take(kept);
    assert forall|i: int| 0 <= i < fewer.len() implies #[trigger] observation_fits(fewer, i) by {
        assert(observation_fits(observations, i));
    }
}

/// Candidates are distinct exactly where no instrument has two of them.
pub proof fn law_distinct_candidates_have_no_duplicate(
    candidates: Seq<VirtualGridScanCandidate>,
    instrument: MarketInstrument,
)
    requires
        instruments_are_distinct(candidates),
    ensures
        !is_duplicated(candidates, instrument),
{
}

/// Every observation of every candidate is counted.
pub proof fn law_observations_of_all_are_counted(
    candidates: Seq<VirtualGridScanCandidate>,
    next: VirtualGridScanCandidate,
)
    ensures
        observations_in(Seq::<VirtualGridScanCandidate>::empty()) == 0,
        observations_in(candidates.push(next)) == observations_in(candidates)
            + next.observations_view().len(),
{
    assert(candidates.push(next).drop_last() =~= candidates);
}

/// A smaller request than one in order is in order too, down to a window of one
/// second and one row. One below that is told the bound that it breaks.
pub proof fn law_request_is_in_order_or_refused(
    run_id: Seq<char>,
    evaluated_at: Timestamp,
    apr_window_seconds: u32,
    row_limit: usize,
    candidates: Seq<VirtualGridScanCandidate>,
    window: u32,
    rows: usize,
    error: VirtualGridScannerError,
)
    requires
        request_is_sound(run_id, evaluated_at, apr_window_seconds, row_limit, candidates),
        window <= apr_window_seconds,
        rows <= row_limit,
    ensures
        request_is_sound(run_id, evaluated_at, window, rows, candidates) <==> window > 0 && rows
            > 0,
        window == 0 ==> (is_request_error(error, run_id, evaluated_at, window, rows, candidates)
            <==> error == (VirtualGridScannerError::InvalidAprWindow { seconds: 0 })),
        window > 0 && rows == 0 ==> (is_request_error(
            error,
            run_id,
            evaluated_at,
            window,
            rows,
            candidates,
        ) <==> error is InvalidRowLimit && error->rows == 0 && error->InvalidRowLimit_limit
            == 128),
{
}

/// A run fails with the error of the first evaluation that has one, and with
/// none where none has.
pub proof fn law_first_failed_evaluation_is_named(
    evaluations: Seq<Result<GridEvaluation, StrategyError>>,
    n: int,
    i: int,
)
    requires
        0 <= i < n,
    ensures
        first_evaluation_error(evaluations, n) is None ==> evaluation_error(evaluations[i]) is None,
        first_evaluation_error(evaluations, i) is None && evaluation_error(evaluations[i]) is Some
            ==> first_evaluation_error(evaluations, n) == evaluation_error(evaluations[i]),
        first_evaluation_error(evaluations, i) is Some ==> first_evaluation_error(evaluations, n)
            == first_evaluation_error(evaluations, i),
    decreases n,
{
    if i < n - 1 {
        law_first_failed_evaluation_is_named(evaluations, n - 1, i);
    }
}

/// An evaluation gives a row unless the strategy failed or its crosses cannot
/// be counted together.
pub proof fn law_counted_evaluation_gives_a_row(evaluation: Result<GridEvaluation, StrategyError>)
    ensures
        evaluation is Err ==> evaluation_error(evaluation) == Some(
            VirtualGridScannerError::Strategy(evaluation->Err_0),
        ),
        evaluation is Ok ==> (evaluation_error(evaluation) is None <==> evaluation->Ok_0.buy_crosses
            + evaluation->Ok_0.sell_crosses <= 0xffff_ffff_ffff_ffff),
{
}

/// A grid profile loads exactly where its three identities, its configuration
/// and its replay are in order, whatever else stands beside it; every event of
/// its replay is then an observation of the configured instrument, and the
/// profile carries what it was loaded from.
pub proof fn law_grid_profile_loads_what_is_in_order(
    r: Result<GridPaperProfile, ProfileLoadError>,
    input: GridPaperProfileInput,
    config: Result<GridProfileConfig, ConfigFailure>,
    replay: Option<Seq<MarketDataEvent>>,
)
    requires
        is_grid_load(r, input, config, replay),
    ensures
        r is Ok ==> config is Ok && replay is Some && replay->0.len() > 0,
        r is Ok ==> is_profile_identity(input.task_id@) && is_profile_identity(input.strategy_id@)
            && is_profile_identity(input.strategy_revision@) && config->Ok_0.mode is FixedLong,
        r is Ok ==> forall|i: int|
            0 <= i < replay->0.len() ==> {
                let event = #[trigger] replay->0[i];
                &&& event is Observation
                &&& event->Observation_snapshot.exchange@ == config->Ok_0.exchange@
                &&& event->Observation_snapshot.symbol@ == config->Ok_0.symbol@
                &&& event->Observation_snapshot.market_type == config->Ok_0.market_type
            },
        r is Ok ==> r->Ok_0.task_view() == input.task_id@ && r->Ok_0.strategy_view()
            == input.strategy_id@ && r->Ok_0.events_view() == replay->0,
        r is Ok ==> r->Ok_0.revision_view() == input.strategy_revision@ && r->Ok_0.config_view()
            == config->Ok_0 && r->Ok_0.grace_view() == input.shutdown_grace_nanos,
        r is Err && is_profile_identity(input.task_id@) && is_profile_identity(input.strategy_id@)
            && is_profile_identity(input.strategy_revision@) && config is Ok
            && config->Ok_0.mode is FixedLong && replay is Some && replay->0.len() > 0 ==> exists|
            i: int,
        |
            0 <= i < replay->0.len() && {
                let event = #[trigger] replay->0[i];
                ||| !(event is Observation)
                ||| event->Observation_snapshot.exchange@ != config->Ok_0.exchange@
                ||| event->Observation_snapshot.symbol@ != config->Ok_0.symbol@
                ||| event->Observation_snapshot.market_type != config->Ok_0.market_type
            },
{
}

/// A pair profile loads only with three identities, both configurations,
/// controls and a replay in order: every event is then an observation of the
/// one symbol on one of the two exchanges, and the profile carries what it was
/// loaded from.
pub proof fn law_pair_profile_loads_what_is_in_order(
    r: Result<ArbitragePaperProfile, ProfileLoadError>,
    input: ArbitragePaperProfileInput,
    strategy: Result<PairProfileConfig, ConfigFailure>,
    monitor: Result<MonitorProfileConfig, ConfigFailure>,
    controls_are_valid: bool,
    replay: Option<Seq<MarketDataEvent>>,
    resolved: Option<ExchangePair>,
    i: int,
)
    requires
        is_arbitrage_load(r, input, strategy, monitor, controls_are_valid, replay, resolved),
        r is Ok,
        0 <= i < replay->0.len(),
    ensures
        is_profile_identity(input.task_id@) && is_profile_identity(input.strategy_id@),
        is_profile_identity(input.strategy_revision@),
        strategy is Ok && monitor is Ok && controls_are_valid && replay is Some && resolved is Some,
        ({
            let event = replay->0[i];
            let (left, right) = (monitor->Ok_0.exchanges@[0]@, monitor->Ok_0.exchanges@[1]@);
            &&& event is Observation
            &&& event->Observation_snapshot.symbol@ == strategy->Ok_0.symbols@[0]@
            &&& event->Observation_snapshot.exchange@ == left
                || event->Observation_snapshot.exchange@ == right
        }),
        r->Ok_0.task_view() == input.task_id@,
        r->Ok_0.strategy_view() == input.strategy_id@,
        r->Ok_0.revision_view() == input.strategy_revision@,
        r->Ok_0.symbol_view() == strategy->Ok_0.symbols@[0]@,
        r->Ok_0.left_view() == resolved->0.left@ && r->Ok_0.right_view() == resolved->0.right@,
        r->Ok_0.timeout_view() == monitor->Ok_0.data_timeout_seconds,
        r->Ok_0.min_spread_view() == monitor->Ok_0.min_spread_pct,
        r->Ok_0.events_view() == replay->0,
        r->Ok_0.grace_view() == input.shutdown_grace_nanos,
{
}

} // verus!
