//! What the rows of a scan say of the grids that were evaluated.

use crate::decimal::{normalized_of, representable, text_of};
use crate::domain::StrategyError;
use crate::number_laws::{law_order_is_that_of_units, units};
use crate::scan_report::{are_ranked, eligible_rows, in_rank_order, is_report_of, row_before};
use crate::scan_report::{shows_report, ScanRecord, VirtualGridScanReport};
use crate::scanner::{all_observed_by, is_replay_of, observation_fits, observations_fit, row_of};
use crate::scanner::{last_observed, GridEvaluation, GridReplay, ScannerPriority};
use crate::scanner::{VirtualGridScanCandidate, VirtualGridScanObservation, VirtualGridScanRequest};
use crate::scanner::VirtualGridScanRow;
use crate::time_laws::{law_time_between_is_the_difference, nanos_of};
use crate::timestamp::{is_leap, Timestamp};
use vstd::prelude::*;

verus! {

/// The prices of the row are those of the grid.
pub open spec fn shows_grid_prices(row: VirtualGridScanRow, evaluation: GridEvaluation) -> bool {
    &&& row.lower_price == evaluation.lower_price
    &&& row.upper_price == evaluation.upper_price
    &&& row.current_price == evaluation.current_price
    &&& row.pending_buy_price == evaluation.pending_buy_price
    &&& row.pending_sell_price == evaluation.pending_sell_price
}

/// The figures of the row are those of the grid.
pub open spec fn shows_grid_figures(row: VirtualGridScanRow, evaluation: GridEvaluation) -> bool {
    &&& row.grid_count == evaluation.grid_count
    &&& row.buy_crosses == evaluation.buy_crosses
    &&& row.sell_crosses == evaluation.sell_crosses
    &&& row.complete_cycles == evaluation.complete_cycles
    &&& row.recent_five_minute_cycles == evaluation.recent_cycles
    &&& row.cycles_per_hour == evaluation.cycles_per_hour
    &&& row.estimated_apr == evaluation.estimated_apr
    &&& row.rating_grade == evaluation.rating_grade
    &&& row.rating_score == evaluation.rating_score
}

/// The row is about the candidate, over its observations from the first to the
/// last.
pub open spec fn shows_candidate(row: VirtualGridScanRow, candidate: VirtualGridScanCandidate) -> bool {
    let observations = candidate.observations_view();
    &&& row.instrument == candidate.instrument_view()
    &&& row.priority == candidate.priority_view()
    &&& row.grid_width_percent == candidate.width_view()
    &&& row.grid_interval_percent == candidate.interval_view()
    &&& row.volume_24h_usdc == candidate.volume_view()
    &&& row.price_change_24h_percent == candidate.price_change_view()
    &&& row.started_at == observations[0].observed_at
    &&& row.last_observed_at == observations[observations.len() - 1].observed_at
    &&& row.last_observation_sequence == observations[observations.len() - 1].sequence
}

/// The row shows the candidate at this place and what its grid came to.
pub open spec fn reports_on(
    row: VirtualGridScanRow,
    candidates: Seq<VirtualGridScanCandidate>,
    evaluations: Seq<Result<GridEvaluation, StrategyError>>,
    c: int,
) -> bool {
    &&& 0 <= c < candidates.len()
    &&& shows_candidate(row, candidates[c])
    &&& shows_grid_prices(row, evaluations[c]->Ok_0)
    &&& shows_grid_figures(row, evaluations[c]->Ok_0)
}

/// The candidate takes part in the ranking: it is a benchmark, or its grid has
/// completed enough cycles.
pub open spec fn takes_part(
    candidate: VirtualGridScanCandidate,
    evaluation: GridEvaluation,
    min_complete_cycles: u64,
) -> bool {
    candidate.priority_view() == ScannerPriority::Benchmark || min_complete_cycles
        <= evaluation.complete_cycles
}

/// Every eligible row reports on one of the first candidates, which takes
/// part.
proof fn lemma_eligible_row_reports(
    candidates: Seq<VirtualGridScanCandidate>,
    evaluations: Seq<Result<GridEvaluation, StrategyError>>,
    evaluated_at: Timestamp,
    min_complete_cycles: u64,
    n: int,
    k: int,
) -> (c: int)
    requires
        0 <= n <= candidates.len(),
        0 <= k < eligible_rows(
            candidates,
            evaluations,
            evaluated_at,
            min_complete_cycles,
            n,
        ).len(),
    ensures
        ({
            let row = eligible_rows(
                candidates,
                evaluations,
                evaluated_at,
                min_complete_cycles,
                n,
            )[k];
            &&& 0 <= c < n
            &&& reports_on(row, candidates, evaluations, c)
            &&& takes_part(candidates[c], evaluations[c]->Ok_0, min_complete_cycles)
            &&& row.evaluated_at == evaluated_at
        }),
    decreases n,
{
    let before = eligible_rows(
        candidates,
        evaluations,
        evaluated_at,
        min_complete_cycles,
        n - 1,
    );
    if k < before.len() {
        lemma_eligible_row_reports(
            candidates,
            evaluations,
            evaluated_at,
            min_complete_cycles,
            n - 1,
            k,
        )
    } else {
        n - 1
    }
}

/// The listing that a report ranks.
proof fn lemma_ordered_rows(
    report: VirtualGridScanReport,
    request: VirtualGridScanRequest,
    evaluations: Seq<Result<GridEvaluation, StrategyError>>,
) -> (ordered: Seq<VirtualGridScanRow>)
    requires
        is_report_of(report, request, evaluations),
    ensures
        in_rank_order(ordered),
        are_ranked(report.rows@, ordered),
        ordered.to_multiset() == eligible_rows(
            request.candidates_view(),
            evaluations,
            request.evaluated_at_view(),
            request.min_cycles_view(),
            request.candidates_view().len() as int,
        ).to_multiset(),
{
    let candidates = request.candidates_view();
    let eligible = eligible_rows(
        candidates,
        evaluations,
        request.evaluated_at_view(),
        request.min_cycles_view(),
        candidates.len() as int,
    );
    choose|ordered: Seq<VirtualGridScanRow>|
        {
            &&& #[trigger] in_rank_order(ordered)
            &&& ordered.to_multiset() == eligible.to_multiset()
            &&& are_ranked(report.rows@, ordered)
        }
}

/// Every row of a report shows one candidate of the request and the prices and
/// the figures of that candidate's own grid: its lower price is that grid's
/// lower price, its upper price the upper one, and so on.
pub proof fn law_row_shows_its_own_grid(
    report: VirtualGridScanReport,
    request: VirtualGridScanRequest,
    evaluations: Seq<Result<GridEvaluation, StrategyError>>,
    i: int,
) -> (c: int)
    requires
        is_report_of(report, request, evaluations),
        0 <= i < report.rows@.len(),
    ensures
        reports_on(report.rows@[i], request.candidates_view(), evaluations, c),
        takes_part(
            request.candidates_view()[c],
            evaluations[c]->Ok_0,
            request.min_cycles_view(),
        ),
        report.rows@[i].evaluated_at == request.evaluated_at_view(),
{
    broadcast use vstd::seq_lib::group_to_multiset_ensures;

    let candidates = request.candidates_view();
    let eligible = eligible_rows(
        candidates,
        evaluations,
        request.evaluated_at_view(),
        request.min_cycles_view(),
        candidates.len() as int,
    );
    let ordered = lemma_ordered_rows(report, request, evaluations);
    let row = ordered[i];
    assert(ordered.contains(row));
    assert(ordered.to_multiset().count(row) > 0);
    assert(eligible.contains(row));
    let k = choose|k: int| 0 <= k < eligible.len() && eligible[k] == row;
    assert(report.rows@[i] == (VirtualGridScanRow { rank: (i + 1) as usize, ..ordered[i] }));
    lemma_eligible_row_reports(
        candidates,
        evaluations,
        request.evaluated_at_view(),
        request.min_cycles_view(),
        candidates.len() as int,
        k,
    )
}

/// Where every grid stands between its bounds, so does every row of the
/// report.
pub proof fn law_rows_stand_between_their_bounds(
    report: VirtualGridScanReport,
    request: VirtualGridScanRequest,
    evaluations: Seq<Result<GridEvaluation, StrategyError>>,
    i: int,
)
    requires
        is_report_of(report, request, evaluations),
        0 <= i < report.rows@.len(),
        forall|c: int|
            0 <= c < request.candidates_view().len() ==> units(
                (#[trigger] evaluations[c])->Ok_0.lower_price@,
            ) <= units(evaluations[c]->Ok_0.current_price@) <= units(
                evaluations[c]->Ok_0.upper_price@,
            ),
    ensures
        units(report.rows@[i].lower_price@) <= units(report.rows@[i].current_price@) <= units(
            report.rows@[i].upper_price@,
        ),
{
    let c = law_row_shows_its_own_grid(report, request, evaluations, i);
    assert(units(evaluations[c]->Ok_0.lower_price@) <= units(
        evaluations[c]->Ok_0.current_price@,
    ));
}

/// A candidate that takes part has a row among the eligible ones.
proof fn lemma_taking_part_is_eligible(
    candidates: Seq<VirtualGridScanCandidate>,
    evaluations: Seq<Result<GridEvaluation, StrategyError>>,
    evaluated_at: Timestamp,
    min_complete_cycles: u64,
    n: int,
    c: int,
) -> (k: int)
    requires
        0 <= c < n <= candidates.len(),
        takes_part(candidates[c], evaluations[c]->Ok_0, min_complete_cycles),
    ensures
        ({
            let eligible = eligible_rows(
                candidates,
                evaluations,
                evaluated_at,
                min_complete_cycles,
                n,
            );
            0 <= k < eligible.len() && eligible[k] == row_of(
                candidates[c],
                evaluations[c]->Ok_0,
                evaluated_at,
            )
        }),
    decreases n,
{
    let before = eligible_rows(
        candidates,
        evaluations,
        evaluated_at,
        min_complete_cycles,
        n - 1,
    );
    if c == n - 1 {
        before.len() as int
    } else {
        lemma_taking_part_is_eligible(
            candidates,
            evaluations,
            evaluated_at,
            min_complete_cycles,
            n - 1,
            c,
        )
    }
}

/// A report that was not cut off shows every candidate that takes part.
pub proof fn law_uncut_report_shows_all_that_take_part(
    report: VirtualGridScanReport,
    request: VirtualGridScanRequest,
    evaluations: Seq<Result<GridEvaluation, StrategyError>>,
    c: int,
) -> (i: int)
    requires
        is_report_of(report, request, evaluations),
        !report.truncated,
        0 <= c < request.candidates_view().len(),
        takes_part(
            request.candidates_view()[c],
            evaluations[c]->Ok_0,
            request.min_cycles_view(),
        ),
    ensures
        0 <= i < report.rows@.len(),
        reports_on(report.rows@[i], request.candidates_view(), evaluations, c),
{
    broadcast use vstd::seq_lib::group_to_multiset_ensures;

    let candidates = request.candidates_view();
    let eligible = eligible_rows(
        candidates,
        evaluations,
        request.evaluated_at_view(),
        request.min_cycles_view(),
        candidates.len() as int,
    );
    let ordered = lemma_ordered_rows(report, request, evaluations);
    let k = lemma_taking_part_is_eligible(
        candidates,
        evaluations,
        request.evaluated_at_view(),
        request.min_cycles_view(),
        candidates.len() as int,
        c,
    );
    let row = eligible[k];
    assert(eligible.contains(row));
    assert(eligible.to_multiset().count(row) > 0);
    assert(ordered.contains(row));
    assert(ordered.len() == ordered.to_multiset().len());
    assert(eligible.len() == eligible.to_multiset().len());
    let i = choose|i: int| 0 <= i < ordered.len() && ordered[i] == row;
    assert(report.rows@[i] == (VirtualGridScanRow { rank: (i + 1) as usize, ..ordered[i] }));
    i
}

/// Of two rows of one priority the upper one has no lower APR, and where the
/// APRs are one number, the instruments stand in their order; a benchmark
/// stands above every other row.
pub proof fn law_rows_stand_by_priority_and_apr(
    report: VirtualGridScanReport,
    request: VirtualGridScanRequest,
    evaluations: Seq<Result<GridEvaluation, StrategyError>>,
    upper: int,
    lower: int,
)
    requires
        is_report_of(report, request, evaluations),
        0 <= upper < lower < report.rows@.len(),
        representable(report.rows@[upper].estimated_apr@),
        representable(report.rows@[lower].estimated_apr@),
    ensures
        report.rows@[upper].priority == ScannerPriority::Standard ==> report.rows@[lower].priority
            == ScannerPriority::Standard,
        report.rows@[upper].priority == report.rows@[lower].priority ==> units(
            report.rows@[upper].estimated_apr@,
        ) >= units(report.rows@[lower].estimated_apr@),
        report.rows@[upper].rank < report.rows@[lower].rank || report.rows@.len() > usize::MAX,
{
    let ordered = lemma_ordered_rows(report, request, evaluations);
    let (a, b) = (ordered[upper], ordered[lower]);
    assert(!row_before(b, a));
    assert(report.rows@[upper] == (VirtualGridScanRow { rank: (upper + 1) as usize, ..a }));
    assert(report.rows@[lower] == (VirtualGridScanRow { rank: (lower + 1) as usize, ..b }));
    law_order_is_that_of_units(a.estimated_apr@, b.estimated_apr@);
}

/// The crosses of a row are those of both sides together.
pub proof fn law_crosses_are_those_of_both_sides(
    candidate: VirtualGridScanCandidate,
    evaluation: GridEvaluation,
    evaluated_at: Timestamp,
)
    requires
        evaluation.buy_crosses + evaluation.sell_crosses <= u64::MAX,
    ensures
        row_of(candidate, evaluation, evaluated_at).total_crosses == evaluation.buy_crosses
            + evaluation.sell_crosses,
{
}

/// The record of a report writes out, for every row, the prices of that
/// candidate's own grid.
pub proof fn law_record_writes_each_grids_prices(
    record: ScanRecord,
    report: VirtualGridScanReport,
    request: VirtualGridScanRequest,
    evaluations: Seq<Result<GridEvaluation, StrategyError>>,
    i: int,
) -> (c: int)
    requires
        shows_report(record, report),
        is_report_of(report, request, evaluations),
        0 <= i < record.rows@.len(),
    ensures
        0 <= c < request.candidates_view().len(),
        ({
            let grid = evaluations[c]->Ok_0;
            let candidate = request.candidates_view()[c];
            let row = record.rows@[i];
            &&& row.rank == report.rows@[i].rank
            &&& row.lower_price@ == text_of(normalized_of(grid.lower_price@))
            &&& row.current_price@ == text_of(normalized_of(grid.current_price@))
            &&& row.upper_price@ == text_of(normalized_of(grid.upper_price@))
            &&& row.pending_buy_price@ == text_of(normalized_of(grid.pending_buy_price@))
            &&& row.pending_sell_price@ == text_of(normalized_of(grid.pending_sell_price@))
            &&& row.estimated_apr@ == text_of(normalized_of(grid.estimated_apr@))
            &&& row.cycles_per_hour@ == text_of(normalized_of(grid.cycles_per_hour@))
            &&& row.rating_score@ == text_of(normalized_of(grid.rating_score@))
            &&& row.complete_cycles == grid.complete_cycles
            &&& row.buy_crosses == grid.buy_crosses
            &&& row.sell_crosses == grid.sell_crosses
            &&& row.volume_24h_usdc@ == text_of(normalized_of(candidate.volume_view()@))
            &&& row.grid_width_percent@ == text_of(normalized_of(candidate.width_view()@))
            &&& row.grid_interval_percent@ == text_of(normalized_of(candidate.interval_view()@))
            &&& row.started_at == candidate.observations_view()[0].observed_at
        }),
{
    assert(crate::scan_report::shows_row(record.rows@[i], report.rows@[i]));
    law_row_shows_its_own_grid(report, request, evaluations, i)
}

/// Fitting observations never go back in time.
proof fn lemma_observations_ascend(
    observations: Seq<VirtualGridScanObservation>,
    i: int,
    j: int,
)
    requires
        observations_fit(observations),
        0 <= i <= j < observations.len(),
    ensures
        observations[i].observed_at.rank() <= observations[j].observed_at.rank(),
    decreases j - i,
{
    if i < j {
        lemma_observations_ascend(observations, i, j - 1);
        assert(observation_fits(observations, j));
    }
}

/// A grid is taken through the observations of its candidate, all of them and
/// in order: it starts at the first price, each later observation moves it
/// once, and none of them is later than the time of the evaluation.
pub proof fn law_replay_goes_through_every_observation(
    replay: GridReplay,
    candidates: Seq<VirtualGridScanCandidate>,
    c: int,
    evaluated_at: Timestamp,
    apr_window_seconds: u32,
    i: int,
    j: int,
)
    requires
        0 <= c < candidates.len(),
        is_replay_of(replay, candidates[c], evaluated_at, apr_window_seconds),
        observations_fit(candidates[c].observations_view()),
        all_observed_by(candidates, evaluated_at),
        0 <= i <= j < replay.updates@.len(),
    ensures
        ({
            let observations = candidates[c].observations_view();
            &&& replay.updates@.len() + 1 == observations.len()
            &&& replay.initial_price == observations[0].price
            &&& replay.updates@[i].price == observations[i + 1].price
            &&& observations[i + 1].sequence == i + 2
            &&& replay.started_at.rank() <= replay.updates@[i].observed_at.rank()
            &&& replay.updates@[i].observed_at.rank() <= replay.updates@[j].observed_at.rank()
            &&& replay.updates@[j].observed_at.rank() <= replay.evaluated_at.rank()
        }),
{
    let observations = candidates[c].observations_view();
    assert(replay.updates@[i].price == observations[i + 1].price);
    assert(replay.updates@[j].price == observations[j + 1].price);
    assert(observation_fits(observations, i + 1));
    lemma_observations_ascend(observations, 0, i + 1);
    lemma_observations_ascend(observations, i + 1, j + 1);
    lemma_observations_ascend(observations, j + 1, observations.len() - 1);
}

/// A row tells how long its grid has been running: the full seconds from its
/// first observation to the evaluation, and how many observations it took.
pub proof fn law_row_tells_how_long_its_grid_ran(
    candidate: VirtualGridScanCandidate,
    evaluation: GridEvaluation,
    evaluated_at: Timestamp,
)
    requires
        candidate.observations_view().len() > 0,
        candidate.observations_view().len() <= usize::MAX,
        !is_leap(candidate.observations_view()[0].observed_at),
        !is_leap(evaluated_at),
        nanos_of(candidate.observations_view()[0].observed_at) <= nanos_of(evaluated_at),
    ensures
        ({
            let row = row_of(candidate, evaluation, evaluated_at);
            let ran = nanos_of(evaluated_at) - nanos_of(
                candidate.observations_view()[0].observed_at,
            );
            &&& row.running_seconds * 1_000_000_000 <= ran < (row.running_seconds + 1)
                * 1_000_000_000
            &&& row.observation_count == candidate.observations_view().len()
        }),
{
    law_time_between_is_the_difference(
        candidate.observations_view()[0].observed_at,
        evaluated_at,
    );
}

/// A scan may be evaluated at the very instant of the latest observation, or
/// at any later one, and at none before it.
pub proof fn law_scan_is_evaluated_from_the_latest_observation(
    candidates: Seq<VirtualGridScanCandidate>,
    latest: int,
    evaluated_at: Timestamp,
)
    requires
        0 <= latest < candidates.len(),
        forall|i: int|
            0 <= i < candidates.len() ==> last_observed(#[trigger] candidates[i]).rank()
                <= last_observed(candidates[latest]).rank(),
    ensures
        all_observed_by(candidates, evaluated_at) <==> evaluated_at.rank() >= last_observed(
            candidates[latest],
        ).rank(),
{
    assert(last_observed(candidates[latest]).rank() <= last_observed(candidates[latest]).rank());
}

} // verus!
