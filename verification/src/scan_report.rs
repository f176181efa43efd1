//! The ranking of evaluated candidates and its record.
//!
//! Benchmarks come first, then the higher APR, then the order of the
//! instruments. The report leaves [`UnrecordedScan`] only once its record is in
//! the journal.

use vstd::prelude::*;

use crate::decimal::{lemma_not_less_transitive, less_than, normalized_of, text_of, Decimal};
use crate::domain::StrategyError;
use crate::json::text_in;
use crate::monitor::{instrument_details, same_instrument, shows_instrument, InstrumentDetails};
use crate::replay::number_text;
use crate::scanner::{
    evaluation_error, grade_text, instrument_before, instruments_are_distinct, is_instrument_before,
    lemma_instrument_not_before_transitive, lemma_instrument_order_is_total, priority_rank,
    priority_text, row_of, GridEvaluation, VirtualGridScanCandidate, VirtualGridScanRequest,
    VirtualGridScanRow, VirtualGridScannerError, MAX_VIRTUAL_GRID_SCAN_CANDIDATES,
    VIRTUAL_GRID_SCAN_RECORD_SCHEMA_VERSION,
};
use crate::text::{joined, padded_number};
use crate::timestamp::Timestamp;

verus! {

/// The order of the rows: by priority, by APR from the highest down, by
/// instrument.
pub open spec fn row_before(a: VirtualGridScanRow, b: VirtualGridScanRow) -> bool {
    ||| priority_rank(a.priority) < priority_rank(b.priority)
    ||| a.priority == b.priority && less_than(b.estimated_apr@, a.estimated_apr@)
    ||| a.priority == b.priority && !less_than(a.estimated_apr@, b.estimated_apr@)
        && instrument_before(a.instrument, b.instrument)
}

/// A row that does not come before a second one, which does not come before a
/// third one, does not come before the third.
pub proof fn lemma_row_not_before_transitive(
    a: VirtualGridScanRow,
    b: VirtualGridScanRow,
    c: VirtualGridScanRow,
)
    requires
        !row_before(a, b),
        !row_before(b, c),
    ensures
        !row_before(a, c),
{
    if row_before(a, c) {
        let (x, y, z) = (a.estimated_apr@, b.estimated_apr@, c.estimated_apr@);
        assert(a.priority == b.priority && b.priority == c.priority);
        // The rates do not rise from `c` over `b` to `a`.
        assert(!less_than(y, x));
        assert(!less_than(z, y));
        lemma_not_less_transitive(z, y, x);
        assert(!less_than(x, z));
        lemma_not_less_transitive(x, z, y);
        lemma_not_less_transitive(y, x, z);
        lemma_instrument_not_before_transitive(a.instrument, b.instrument, c.instrument);
    }
}

/// Of two rows at most one comes before the other.
pub proof fn lemma_row_order_is_asymmetric(a: VirtualGridScanRow, b: VirtualGridScanRow)
    requires
        row_before(a, b),
    ensures
        !row_before(b, a),
{
    if row_before(b, a) {
        crate::scanner::lemma_instrument_order_is_asymmetric(a.instrument, b.instrument);
    }
}

/// Two rows of which neither comes before the other are of one instrument.
pub proof fn lemma_row_order_is_total(a: VirtualGridScanRow, b: VirtualGridScanRow)
    requires
        !row_before(a, b),
        !row_before(b, a),
    ensures
        same_instrument(a.instrument, b.instrument),
{
    lemma_instrument_order_is_total(a.instrument, b.instrument);
}

/// The first row comes before the second.
pub fn is_row_before(a: &VirtualGridScanRow, b: &VirtualGridScanRow) -> (r: bool)
    ensures
        r == row_before(*a, *b),
{
    if a.priority.rank() != b.priority.rank() {
        return a.priority.rank() < b.priority.rank();
    }
    if b.estimated_apr.is_less_than(a.estimated_apr) {
        return true;
    }
    if a.estimated_apr.is_less_than(b.estimated_apr) {
        return false;
    }
    is_instrument_before(&a.instrument, &b.instrument)
}

/// No row comes before one that stands in front of it.
pub open spec fn in_rank_order(rows: Seq<VirtualGridScanRow>) -> bool {
    forall|i: int, j: int|
        #![trigger rows[i], rows[j]]
        0 <= i <= j < rows.len() ==> !row_before(rows[j], rows[i])
}

/// Puts a row where it belongs.
fn insert_in_rank_order(rows: &mut Vec<VirtualGridScanRow>, row: VirtualGridScanRow)
    requires
        in_rank_order(old(rows)@),
    ensures
        in_rank_order(final(rows)@),
        final(rows)@.to_multiset() == old(rows)@.to_multiset().insert(row),
{
    let ghost before = rows@;
    let mut place: usize = rows.len();
    while place > 0 && is_row_before(&row, &rows[place - 1])
        invariant
            place <= rows@.len(),
            rows@ == before,
            before == old(rows)@,
            in_rank_order(before),
            forall|i: int| place <= i < before.len() ==> row_before(row, #[trigger] before[i]),
        decreases place,
    {
        place = place - 1;
    }
    rows.insert(place, row);
    proof {
        vstd::seq_lib::to_multiset_insert(before, place as int, row);
        assert forall|i: int, j: int|
            #![trigger rows@[i], rows@[j]]
            0 <= i <= j < rows@.len() implies !row_before(rows@[j], rows@[i]) by {
            let a = if i < place {
                i
            } else {
                i - 1
            };
            let b = if j < place {
                j
            } else {
                j - 1
            };
            if i != place && j != place {
                assert(!row_before(before[b], before[a]));
            } else if i == place && j > place {
                assert(row_before(row, before[b]));
                lemma_row_order_is_asymmetric(row, before[b]);
            } else if j == place && i < place {
                assert(!row_before(row, before[place - 1]));
                assert(!row_before(before[place - 1], before[a]));
                lemma_row_not_before_transitive(row, before[place - 1], before[a]);
            } else {
                if row_before(row, row) {
                    lemma_row_order_is_asymmetric(row, row);
                }
            }
        }
    }
}

/// The row counts where it has completed enough cycles; a benchmark always does.
pub open spec fn is_eligible(row: VirtualGridScanRow, min_complete_cycles: u64) -> bool {
    row.complete_cycles >= min_complete_cycles || row.priority is Benchmark
}

/// The eligible rows of the first `n` candidates, in the order of the request.
pub open spec fn eligible_rows(
    candidates: Seq<VirtualGridScanCandidate>,
    evaluations: Seq<Result<GridEvaluation, StrategyError>>,
    evaluated_at: Timestamp,
    min_complete_cycles: u64,
    n: int,
) -> Seq<VirtualGridScanRow>
    decreases n,
{
    if n <= 0 {
        Seq::empty()
    } else {
        let rows = eligible_rows(
            candidates,
            evaluations,
            evaluated_at,
            min_complete_cycles,
            n - 1,
        );
        let row = row_of(candidates[n - 1], evaluations[n - 1]->Ok_0, evaluated_at);
        if is_eligible(row, min_complete_cycles) {
            rows.push(row)
        } else {
            rows
        }
    }
}

/// What is wrong with the first of the first `n` candidates that gives no row.
pub open spec fn first_evaluation_error(
    evaluations: Seq<Result<GridEvaluation, StrategyError>>,
    n: int,
) -> Option<VirtualGridScannerError>
    decreases n,
{
    if n <= 0 {
        None
    } else {
        match first_evaluation_error(evaluations, n - 1) {
            Some(error) => Some(error),
            None => evaluation_error(evaluations[n - 1]),
        }
    }
}

/// The rows carry their places, counted from one, and are otherwise these.
pub open spec fn are_ranked(
    rows: Seq<VirtualGridScanRow>,
    ordered: Seq<VirtualGridScanRow>,
) -> bool {
    &&& rows.len() <= ordered.len()
    &&& forall|i: int|
        0 <= i < rows.len() ==> (#[trigger] rows[i]) == (VirtualGridScanRow {
            rank: (i + 1) as usize,
            ..ordered[i]
        })
}

/// The rows are the best of these, as many as the limit lets through.
pub open spec fn is_ranking(
    rows: Seq<VirtualGridScanRow>,
    eligible: Seq<VirtualGridScanRow>,
    row_limit: usize,
) -> bool {
    exists|ordered: Seq<VirtualGridScanRow>|
        {
            &&& #[trigger] in_rank_order(ordered)
            &&& ordered.to_multiset() == eligible.to_multiset()
            &&& are_ranked(rows, ordered)
            &&& rows.len() == if eligible.len() > row_limit {
                row_limit as nat
            } else {
                eligible.len()
            }
        }
}

/// Durable report returned only after its full ranking record is synced.
#[derive(Debug)]
pub struct VirtualGridScanReport {
    pub run_id: String,
    pub evaluated_at: Timestamp,
    pub apr_window_seconds: u32,
    pub min_complete_cycles: u64,
    pub row_limit: usize,
    pub candidate_count: usize,
    pub eligible_count: usize,
    pub filtered_by_cycles_count: usize,
    pub truncated: bool,
    pub rows: Vec<VirtualGridScanRow>,
}

/// The report on a request whose grids were evaluated.
pub open spec fn is_report_of(
    report: VirtualGridScanReport,
    request: VirtualGridScanRequest,
    evaluations: Seq<Result<GridEvaluation, StrategyError>>,
) -> bool {
    let candidates = request.candidates_view();
    let eligible = eligible_rows(
        candidates,
        evaluations,
        request.evaluated_at_view(),
        request.min_cycles_view(),
        candidates.len() as int,
    );
    &&& report.run_id@ == request.run_id_view()
    &&& report.evaluated_at == request.evaluated_at_view()
    &&& report.apr_window_seconds == request.window_view()
    &&& report.min_complete_cycles == request.min_cycles_view()
    &&& report.row_limit == request.row_limit_view()
    &&& report.candidate_count == candidates.len()
    &&& report.eligible_count == eligible.len()
    &&& report.filtered_by_cycles_count == candidates.len() - eligible.len()
    &&& report.truncated == (eligible.len() > request.row_limit_view())
    &&& is_ranking(report.rows@, eligible, request.row_limit_view())
}

/// Gives the rows their places, and drops those beyond the limit.
fn rank_rows(ordered: Vec<VirtualGridScanRow>, row_limit: usize) -> (r: Vec<VirtualGridScanRow>)
    ensures
        are_ranked(r@, ordered@),
        r@.len() == if ordered@.len() > row_limit {
            row_limit as nat
        } else {
            ordered@.len()
        },
{
    let mut left: Vec<VirtualGridScanRow> = ordered;
    let mut rows: Vec<VirtualGridScanRow> = Vec::new();
    while left.len() > 0 && rows.len() < row_limit
        invariant
            rows@.len() <= ordered@.len(),
            rows@.len() <= row_limit,
            left@ =~= ordered@.skip(rows@.len() as int),
            are_ranked(rows@, ordered@),
        decreases left.len(),
    {
        let mut row: VirtualGridScanRow = left.remove(0);
        assert(row == ordered@[rows@.len() as int]);
        row.rank = rows.len() + 1;
        rows.push(row);
    }
    rows
}

/// Stateless owner of the replay, ranking, and journal-first publication.
#[derive(Clone, Copy, Debug, PartialEq, Eq, Structural)]
pub struct DeterministicVirtualGridScanner;

/// A report whose record is not in the journal yet. Nothing but the record can
/// be read from it.
#[derive(Debug)]
pub struct UnrecordedScan {
    report: VirtualGridScanReport,
}

impl UnrecordedScan {
    pub closed spec fn report_view(self) -> VirtualGridScanReport {
        self.report
    }
}

impl DeterministicVirtualGridScanner {
    /// Ranks the candidates of a request from what the grids said of their
    /// replays, candidate by candidate. The report comes out of
    /// [`UnrecordedScan::publish`].
    pub fn run(
        request: &VirtualGridScanRequest,
        evaluations: &Vec<Result<GridEvaluation, StrategyError>>,
    ) -> (r: Result<UnrecordedScan, VirtualGridScannerError>)
        requires
            evaluations@.len() == request.candidates_view().len(),
        ensures
            match first_evaluation_error(evaluations@, evaluations@.len() as int) {
                Some(error) => r == Err::<UnrecordedScan, VirtualGridScannerError>(error),
                None => r is Ok && is_report_of(r->Ok_0.report_view(), *request, evaluations@),
            },
    {
        let candidate_count: usize = request.candidate_count();
        let min_complete_cycles: u64 = request.min_complete_cycles();
        let mut ordered: Vec<VirtualGridScanRow> = Vec::new();
        let mut filtered: usize = 0;
        let mut index: usize = 0;
        while index < candidate_count
            invariant
                index <= candidate_count,
                candidate_count == request.candidates_view().len(),
                candidate_count <= MAX_VIRTUAL_GRID_SCAN_CANDIDATES,
                evaluations@.len() == candidate_count,
                min_complete_cycles == request.min_cycles_view(),
                first_evaluation_error(evaluations@, index as int) is None,
                in_rank_order(ordered@),
                ordered@.to_multiset() == eligible_rows(
                    request.candidates_view(),
                    evaluations@,
                    request.evaluated_at_view(),
                    min_complete_cycles,
                    index as int,
                ).to_multiset(),
                filtered == index - eligible_rows(
                    request.candidates_view(),
                    evaluations@,
                    request.evaluated_at_view(),
                    min_complete_cycles,
                    index as int,
                ).len(),
                filtered <= index,
            decreases candidate_count - index,
        {
            match request.evaluate(index, &evaluations[index]) {
                Err(error) => {
                    proof {
                        lemma_first_error_stays(
                            evaluations@,
                            index + 1,
                            evaluations@.len() as int,
                        );
                    }
                    return Err(error);
                },
                Ok(row) => {
                    let ghost before = eligible_rows(
                        request.candidates_view(),
                        evaluations@,
                        request.evaluated_at_view(),
                        min_complete_cycles,
                        index as int,
                    );
                    if row.complete_cycles < min_complete_cycles && !row.is_benchmark() {
                        filtered = filtered + 1;
                    } else {
                        proof {
                            vstd::seq_lib::to_multiset_build(before, row);
                        }
                        insert_in_rank_order(&mut ordered, row);
                    }
                },
            }
            index = index + 1;
        }
        let eligible_count: usize = ordered.len();
        let row_limit: usize = request.row_limit();
        proof {
            let eligible = eligible_rows(
                request.candidates_view(),
                evaluations@,
                request.evaluated_at_view(),
                min_complete_cycles,
                candidate_count as int,
            );
            vstd::seq_lib::to_multiset_len(ordered@);
            vstd::seq_lib::to_multiset_len(eligible);
        }
        let ghost all = ordered@;
        let rows: Vec<VirtualGridScanRow> = rank_rows(ordered, row_limit);
        assert(in_rank_order(all));
        Ok(
            UnrecordedScan {
                report: VirtualGridScanReport {
                    run_id: request.run_id().to_owned(),
                    evaluated_at: request.evaluated_at(),
                    apr_window_seconds: request.apr_window_seconds(),
                    min_complete_cycles,
                    row_limit,
                    candidate_count,
                    eligible_count,
                    filtered_by_cycles_count: filtered,
                    truncated: eligible_count > row_limit,
                    rows,
                },
            },
        )
    }
}

/// The first error is that of every longer stretch.
proof fn lemma_first_error_stays(
    evaluations: Seq<Result<GridEvaluation, StrategyError>>,
    n: int,
    m: int,
)
    requires
        0 <= n <= m,
        first_evaluation_error(evaluations, n) is Some,
    ensures
        first_evaluation_error(evaluations, m) == first_evaluation_error(evaluations, n),
    decreases m - n,
{
    if n < m {
        lemma_first_error_stays(evaluations, n, m - 1);
    }
}

/// The digits of a number without zeros at the end.
pub open spec fn plain_text(value: Decimal) -> Seq<char> {
    text_of(normalized_of(value@))
}

/// The digits of a number without zeros at the end.
pub fn decimal_text(value: Decimal) -> (r: String)
    ensures
        r@ == plain_text(value),
{
    value.normalized().to_text()
}

/// One row as the record shows it.
#[derive(Debug)]
pub struct ScanRowDetails {
    pub rank: usize,
    pub activity: &'static str,
    pub priority: &'static str,
    pub instrument: InstrumentDetails,
    pub started_at: Timestamp,
    pub last_observed_at: Timestamp,
    pub observation_count: usize,
    pub last_observation_sequence: u64,
    pub current_price: String,
    pub lower_price: String,
    pub upper_price: String,
    pub pending_buy_price: String,
    pub pending_sell_price: String,
    pub grid_width_percent: String,
    pub grid_interval_percent: String,
    pub grid_count: u32,
    pub running_seconds: u128,
    pub buy_crosses: u64,
    pub sell_crosses: u64,
    pub total_crosses: u64,
    pub complete_cycles: u64,
    pub recent_five_minute_cycles: usize,
    pub cycles_per_hour: String,
    pub estimated_apr: String,
    pub volume_24h_usdc: String,
    pub price_change_24h_percent: Option<String>,
    pub rating_grade: &'static str,
    pub rating_score: String,
}

pub open spec fn shows_row(details: ScanRowDetails, row: VirtualGridScanRow) -> bool {
    &&& details.rank == row.rank
    &&& details.activity@ == "active"@
    &&& details.priority@ == priority_text(row.priority)
    &&& shows_instrument(details.instrument, row.instrument)
    &&& details.started_at == row.started_at
    &&& details.last_observed_at == row.last_observed_at
    &&& details.observation_count == row.observation_count
    &&& details.last_observation_sequence == row.last_observation_sequence
    &&& details.current_price@ == plain_text(row.current_price)
    &&& details.lower_price@ == plain_text(row.lower_price)
    &&& details.upper_price@ == plain_text(row.upper_price)
    &&& details.pending_buy_price@ == plain_text(row.pending_buy_price)
    &&& details.pending_sell_price@ == plain_text(row.pending_sell_price)
    &&& details.grid_width_percent@ == plain_text(row.grid_width_percent)
    &&& details.grid_interval_percent@ == plain_text(row.grid_interval_percent)
    &&& details.grid_count == row.grid_count
    &&& details.running_seconds == row.running_seconds
    &&& details.buy_crosses == row.buy_crosses
    &&& details.sell_crosses == row.sell_crosses
    &&& details.total_crosses == row.total_crosses
    &&& details.complete_cycles == row.complete_cycles
    &&& details.recent_five_minute_cycles == row.recent_five_minute_cycles
    &&& details.cycles_per_hour@ == plain_text(row.cycles_per_hour)
    &&& details.estimated_apr@ == plain_text(row.estimated_apr)
    &&& details.volume_24h_usdc@ == plain_text(row.volume_24h_usdc)
    &&& text_in(details.price_change_24h_percent) == match row.price_change_24h_percent {
        Some(change) => Some(plain_text(change)),
        None => None,
    }
    &&& details.rating_grade@ == grade_text(row.rating_grade)
    &&& details.rating_score@ == plain_text(row.rating_score)
}

/// The row as the record shows it.
pub fn row_value(row: &VirtualGridScanRow) -> (r: ScanRowDetails)
    ensures
        shows_row(r, *row),
{
    ScanRowDetails {
        rank: row.rank,
        activity: "active",
        priority: row.priority.as_str(),
        instrument: instrument_details(&row.instrument),
        started_at: row.started_at,
        last_observed_at: row.last_observed_at,
        observation_count: row.observation_count,
        last_observation_sequence: row.last_observation_sequence,
        current_price: decimal_text(row.current_price),
        lower_price: decimal_text(row.lower_price),
        upper_price: decimal_text(row.upper_price),
        pending_buy_price: decimal_text(row.pending_buy_price),
        pending_sell_price: decimal_text(row.pending_sell_price),
        grid_width_percent: decimal_text(row.grid_width_percent),
        grid_interval_percent: decimal_text(row.grid_interval_percent),
        grid_count: row.grid_count,
        running_seconds: row.running_seconds,
        buy_crosses: row.buy_crosses,
        sell_crosses: row.sell_crosses,
        total_crosses: row.total_crosses,
        complete_cycles: row.complete_cycles,
        recent_five_minute_cycles: row.recent_five_minute_cycles,
        cycles_per_hour: decimal_text(row.cycles_per_hour),
        estimated_apr: decimal_text(row.estimated_apr),
        volume_24h_usdc: decimal_text(row.volume_24h_usdc),
        price_change_24h_percent: match row.price_change_24h_percent {
            Some(change) => Some(decimal_text(change)),
            None => None,
        },
        rating_grade: row.rating_grade.as_str(),
        rating_score: decimal_text(row.rating_score),
    }
}

/// The record of one ranking.
#[derive(Debug)]
pub struct ScanRecord {
    pub timestamp: Timestamp,
    pub strategy: &'static str,
    pub symbol: &'static str,
    pub decision: &'static str,
    pub schema_version: u16,
    pub run_id: String,
    pub ranking_policy: &'static str,
    pub apr_window_seconds: u32,
    pub min_complete_cycles: u64,
    pub row_limit: usize,
    pub candidate_count: usize,
    pub eligible_count: usize,
    pub filtered_by_cycles_count: usize,
    pub truncated: bool,
    pub rows: Vec<ScanRowDetails>,
}

/// The record shows the whole report.
pub open spec fn shows_report(record: ScanRecord, report: VirtualGridScanReport) -> bool {
    &&& record.timestamp == report.evaluated_at
    &&& record.strategy@ == "virtual_grid_scanner"@
    &&& record.symbol@ == "control-plane"@
    &&& record.decision@ == "scanner_ranked"@
    &&& record.schema_version == VIRTUAL_GRID_SCAN_RECORD_SCHEMA_VERSION
    &&& record.run_id@ == report.run_id@
    &&& record.ranking_policy@ == "explicit_benchmark_then_apr_desc"@
    &&& record.apr_window_seconds == report.apr_window_seconds
    &&& record.min_complete_cycles == report.min_complete_cycles
    &&& record.row_limit == report.row_limit
    &&& record.candidate_count == report.candidate_count
    &&& record.eligible_count == report.eligible_count
    &&& record.filtered_by_cycles_count == report.filtered_by_cycles_count
    &&& record.truncated == report.truncated
    &&& record.rows@.len() == report.rows@.len()
    &&& forall|i: int|
        0 <= i < record.rows@.len() ==> shows_row(#[trigger] record.rows@[i], report.rows@[i])
}

impl VirtualGridScanReport {
    /// The record of the report.
    pub fn to_record(&self) -> (r: ScanRecord)
        ensures
            shows_report(r, *self),
    {
        let mut rows: Vec<ScanRowDetails> = Vec::new();
        let mut i: usize = 0;
        while i < self.rows.len()
            invariant
                i <= self.rows@.len(),
                rows@.len() == i,
                forall|k: int|
                    0 <= k < rows@.len() ==> shows_row(#[trigger] rows@[k], self.rows@[k]),
            decreases self.rows.len() - i,
        {
            rows.push(row_value(&self.rows[i]));
            i = i + 1;
        }
        ScanRecord {
            timestamp: self.evaluated_at,
            strategy: "virtual_grid_scanner",
            symbol: "control-plane",
            decision: "scanner_ranked",
            schema_version: VIRTUAL_GRID_SCAN_RECORD_SCHEMA_VERSION,
            run_id: self.run_id.clone(),
            ranking_policy: "explicit_benchmark_then_apr_desc",
            apr_window_seconds: self.apr_window_seconds,
            min_complete_cycles: self.min_complete_cycles,
            row_limit: self.row_limit,
            candidate_count: self.candidate_count,
            eligible_count: self.eligible_count,
            filtered_by_cycles_count: self.filtered_by_cycles_count,
            truncated: self.truncated,
            rows,
        }
    }
}

impl UnrecordedScan {
    /// The record to append before the report may come out.
    pub fn record(&self) -> (r: ScanRecord)
        ensures
            shows_report(r, self.report_view()),
    {
        self.report.to_record()
    }

    /// The report, once its record was appended; without that it is lost.
    pub fn publish(self, appended: bool) -> (r: Result<
        VirtualGridScanReport,
        VirtualGridScannerError,
    >)
        ensures
            r == if appended {
                Ok::<VirtualGridScanReport, VirtualGridScannerError>(self.report_view())
            } else {
                Err(VirtualGridScannerError::Journal)
            },
    {
        if appended {
            Ok(self.report)
        } else {
            Err(VirtualGridScannerError::Journal)
        }
    }
}

/// No two rows are of one instrument.
pub open spec fn rows_are_distinct(rows: Seq<VirtualGridScanRow>) -> bool {
    forall|i: int, j: int|
        #![trigger rows[i], rows[j]]
        0 <= i < j < rows.len() ==> !same_instrument(rows[i].instrument, rows[j].instrument)
}

/// The ranking is deterministic: however the rows of distinct instruments were
/// listed, there is one order for them.
pub proof fn law_ranking_ignores_the_listing(
    first: Seq<VirtualGridScanRow>,
    second: Seq<VirtualGridScanRow>,
)
    requires
        in_rank_order(first),
        in_rank_order(second),
        first.to_multiset() == second.to_multiset(),
        rows_are_distinct(first),
    ensures
        first == second,
    decreases first.len(),
{
    broadcast use vstd::seq_lib::group_to_multiset_ensures;

    assert(first.len() == second.len()) by {
        vstd::seq_lib::to_multiset_len(first);
        vstd::seq_lib::to_multiset_len(second);
    }
    if first.len() > 0 {
        assert(second.to_multiset().count(second[0]) > 0) by {
            assert(second.contains(second[0]));
        }
        assert(first.contains(second[0]));
        let j = choose|j: int| 0 <= j < first.len() && first[j] == second[0];
        assert(first.to_multiset().count(first[0]) > 0) by {
            assert(first.contains(first[0]));
        }
        assert(second.contains(first[0]));
        let k = choose|k: int| 0 <= k < second.len() && second[k] == first[0];
        assert(!row_before(first[j], first[0]));
        assert(!row_before(second[k], second[0]));
        lemma_row_order_is_total(first[0], second[0]);
        assert(j == 0);
        assert(first[0] == second[0]);
        let (rest, others) = (first.remove(0), second.remove(0));
        assert(rest.to_multiset() == others.to_multiset());
        assert forall|x: int, y: int|
            #![trigger rest[x], rest[y]]
            0 <= x <= y < rest.len() implies !row_before(rest[y], rest[x]) by {
            assert(!row_before(first[y + 1], first[x + 1]));
        }
        assert forall|x: int, y: int|
            #![trigger others[x], others[y]]
            0 <= x <= y < others.len() implies !row_before(others[y], others[x]) by {
            assert(!row_before(second[y + 1], second[x + 1]));
        }
        assert forall|x: int, y: int|
            #![trigger rest[x], rest[y]]
            0 <= x < y < rest.len() implies !same_instrument(
            rest[x].instrument,
            rest[y].instrument,
        ) by {
            assert(!same_instrument(first[x + 1].instrument, first[y + 1].instrument));
        }
        law_ranking_ignores_the_listing(rest, others);
        assert(first =~= seq![first[0]] + rest);
        assert(second =~= seq![second[0]] + others);
    } else {
        assert(first =~= second);
    }
}

/// The eligible rows of a request in order are of distinct instruments.
pub proof fn lemma_eligible_rows_are_distinct(
    candidates: Seq<VirtualGridScanCandidate>,
    evaluations: Seq<Result<GridEvaluation, StrategyError>>,
    evaluated_at: Timestamp,
    min_complete_cycles: u64,
    n: int,
)
    requires
        instruments_are_distinct(candidates),
        0 <= n <= candidates.len(),
    ensures
        rows_are_distinct(
            eligible_rows(candidates, evaluations, evaluated_at, min_complete_cycles, n),
        ),
        forall|i: int|
            0 <= i < eligible_rows(
                candidates,
                evaluations,
                evaluated_at,
                min_complete_cycles,
                n,
            ).len() ==> comes_from(
                candidates,
                n,
                #[trigger] eligible_rows(
                    candidates,
                    evaluations,
                    evaluated_at,
                    min_complete_cycles,
                    n,
                )[i],
            ),
    decreases n,
{
    if n > 0 {
        lemma_eligible_rows_are_distinct(
            candidates,
            evaluations,
            evaluated_at,
            min_complete_cycles,
            n - 1,
        );
        let before = eligible_rows(
            candidates,
            evaluations,
            evaluated_at,
            min_complete_cycles,
            n - 1,
        );
        let row = row_of(candidates[n - 1], evaluations[n - 1]->Ok_0, evaluated_at);
        assert forall|i: int| 0 <= i < before.len() implies !same_instrument(
            (#[trigger] before[i]).instrument,
            row.instrument,
        ) && comes_from(candidates, n, before[i]) by {
            assert(comes_from(candidates, n - 1, before[i]));
            let c = choose|c: int|
                0 <= c < n - 1 && (#[trigger] candidates[c]).instrument_view()
                    == before[i].instrument;
            assert(!same_instrument(
                candidates[c].instrument_view(),
                candidates[n - 1].instrument_view(),
            ));
        }
        assert(comes_from(candidates, n, row)) by {
            assert(candidates[n - 1].instrument_view() == row.instrument);
        }
    }
}

/// The row is of one of the first `n` candidates.
pub open spec fn comes_from(
    candidates: Seq<VirtualGridScanCandidate>,
    n: int,
    row: VirtualGridScanRow,
) -> bool {
    exists|c: int|
        0 <= c < n && (#[trigger] candidates[c]).instrument_view() == row.instrument
}

/// A report holds no more rows than its limit; their ranks count them from one;
/// its counts add up to the candidates; and it is cut off exactly where eligible
/// rows are missing.
pub proof fn law_report_is_bounded(
    report: VirtualGridScanReport,
    request: VirtualGridScanRequest,
    evaluations: Seq<Result<GridEvaluation, StrategyError>>,
)
    requires
        is_report_of(report, request, evaluations),
    ensures
        report.rows@.len() <= report.row_limit,
        report.eligible_count + report.filtered_by_cycles_count == report.candidate_count,
        report.truncated == (report.rows@.len() < report.eligible_count),
        forall|i: int|
            0 <= i < report.rows@.len() ==> (#[trigger] report.rows@[i]).rank == (i + 1) as usize,
{
}

/// In a report no standard row stands above a benchmark, and of two rows of one
/// priority the upper one has no lower APR.
pub proof fn law_benchmarks_lead(
    report: VirtualGridScanReport,
    request: VirtualGridScanRequest,
    evaluations: Seq<Result<GridEvaluation, StrategyError>>,
    upper: int,
    lower: int,
)
    requires
        is_report_of(report, request, evaluations),
        0 <= upper < lower < report.rows@.len(),
    ensures
        report.rows@[lower].priority is Benchmark ==> report.rows@[upper].priority is Benchmark,
        report.rows@[upper].priority == report.rows@[lower].priority ==> !less_than(
            report.rows@[upper].estimated_apr@,
            report.rows@[lower].estimated_apr@,
        ),
{
    let candidates = request.candidates_view();
    let eligible = eligible_rows(
        candidates,
        evaluations,
        request.evaluated_at_view(),
        request.min_cycles_view(),
        candidates.len() as int,
    );
    let ordered = choose|ordered: Seq<VirtualGridScanRow>|
        {
            &&& #[trigger] in_rank_order(ordered)
            &&& ordered.to_multiset() == eligible.to_multiset()
            &&& are_ranked(report.rows@, ordered)
            &&& report.rows@.len() == if eligible.len() > request.row_limit_view() {
                request.row_limit_view() as nat
            } else {
                eligible.len()
            }
        };
    assert(report.rows@[upper].priority == ordered[upper].priority);
    assert(report.rows@[lower].priority == ordered[lower].priority);
    assert(!row_before(ordered[lower], ordered[upper]));
}

/// Listing distinct rows otherwise leaves them distinct.
proof fn lemma_distinct_rows_stay_distinct(
    rows: Seq<VirtualGridScanRow>,
    listed: Seq<VirtualGridScanRow>,
)
    requires
        rows_are_distinct(rows),
        rows.to_multiset() == listed.to_multiset(),
    ensures
        rows_are_distinct(listed),
{
    broadcast use vstd::seq_lib::group_to_multiset_ensures;

    assert(rows.no_duplicates()) by {
        assert forall|i: int, j: int| 0 <= i < rows.len() && 0 <= j < rows.len() && i
            != j implies rows[i] != rows[j] by {
            if i < j {
                assert(!same_instrument(rows[i].instrument, rows[j].instrument));
            } else {
                assert(!same_instrument(rows[j].instrument, rows[i].instrument));
            }
        }
    }
    rows.lemma_multiset_has_no_duplicates();
    listed.lemma_multiset_has_no_duplicates_conv();
    assert forall|i: int, j: int|
        #![trigger listed[i], listed[j]]
        0 <= i < j < listed.len() implies !same_instrument(
        listed[i].instrument,
        listed[j].instrument,
    ) by {
        let (a, b) = (listed[i], listed[j]);
        assert(a != b);
        assert(listed.contains(a) && listed.contains(b));
        assert(listed.to_multiset().count(a) > 0);
        assert(listed.to_multiset().count(b) > 0);
        assert(rows.contains(a) && rows.contains(b));
        let x = choose|x: int| 0 <= x < rows.len() && rows[x] == a;
        let y = choose|y: int| 0 <= y < rows.len() && rows[y] == b;
        if x < y {
            assert(!same_instrument(rows[x].instrument, rows[y].instrument));
        } else {
            assert(!same_instrument(rows[y].instrument, rows[x].instrument));
        }
    }
}

/// One request and one set of evaluations have one ranking.
pub proof fn law_report_is_deterministic(
    first: VirtualGridScanReport,
    second: VirtualGridScanReport,
    request: VirtualGridScanRequest,
    evaluations: Seq<Result<GridEvaluation, StrategyError>>,
)
    requires
        is_report_of(first, request, evaluations),
        is_report_of(second, request, evaluations),
        instruments_are_distinct(request.candidates_view()),
    ensures
        first.rows@ == second.rows@,
{
    let candidates = request.candidates_view();
    let eligible = eligible_rows(
        candidates,
        evaluations,
        request.evaluated_at_view(),
        request.min_cycles_view(),
        candidates.len() as int,
    );
    lemma_eligible_rows_are_distinct(
        candidates,
        evaluations,
        request.evaluated_at_view(),
        request.min_cycles_view(),
        candidates.len() as int,
    );
    let a = choose|ordered: Seq<VirtualGridScanRow>|
        {
            &&& #[trigger] in_rank_order(ordered)
            &&& ordered.to_multiset() == eligible.to_multiset()
            &&& are_ranked(first.rows@, ordered)
        };
    let b = choose|ordered: Seq<VirtualGridScanRow>|
        {
            &&& #[trigger] in_rank_order(ordered)
            &&& ordered.to_multiset() == eligible.to_multiset()
            &&& are_ranked(second.rows@, ordered)
        };
    lemma_distinct_rows_stay_distinct(eligible, a);
    law_ranking_ignores_the_listing(a, b);
    assert(first.rows@ =~= second.rows@);
}

/// The text of a failure. `detail` is the text of the instrument that it names,
/// or of what the strategy or the journal said.
pub open spec fn scanner_error_text(error: VirtualGridScannerError, detail: Seq<char>) -> Seq<
    char,
> {
    match error {
        VirtualGridScannerError::InvalidRunId => "scanner run id is invalid"@,
        VirtualGridScannerError::InvalidInstrumentIdentity =>
            "scanner instrument identity is not canonical ASCII"@,
        VirtualGridScannerError::InvalidAprWindow { seconds } => "scanner APR window "@
            + number_text(seconds as u64) + "s is invalid"@,
        VirtualGridScannerError::InvalidRowLimit { rows, limit } => ("scanner row limit "@
            + number_text(rows as u64) + " exceeds 1..="@) + number_text(limit as u64),
        VirtualGridScannerError::MissingCandidates => "scanner requires at least one candidate"@,
        VirtualGridScannerError::TooManyCandidates { count, limit } => ("scanner has "@
            + number_text(count as u64) + " candidates; maximum is "@) + number_text(limit as u64),
        VirtualGridScannerError::MissingObservations { .. } => "scanner candidate "@ + detail
            + " has no observations"@,
        VirtualGridScannerError::TooManyCandidateObservations { count, limit, .. } => ((
        "scanner candidate "@ + detail + " has "@) + number_text(count as u64)
            + " observations; maximum is "@) + number_text(limit as u64),
        VirtualGridScannerError::TooManyObservations { count, limit } => ("scanner has "@
            + number_text(count as u64) + " observations; maximum is "@) + number_text(limit as u64),
        VirtualGridScannerError::InvalidObservationSequence { expected, observed } => (
        "scanner observation sequence "@ + number_text(observed) + " does not match expected "@)
            + number_text(expected),
        VirtualGridScannerError::NonMonotonicObservationTime { sequence, .. } => (
        "scanner candidate "@ + detail + " rolls time back at sequence "@) + number_text(sequence),
        VirtualGridScannerError::EvaluationPrecedesObservation { .. } =>
            "scanner evaluation time precedes the last observation for "@ + detail,
        VirtualGridScannerError::DuplicateInstrument { .. } => "scanner instrument "@ + detail
            + " is duplicated"@,
        VirtualGridScannerError::NegativeVolume { .. } => "scanner volume for "@ + detail
            + " is negative"@,
        VirtualGridScannerError::CountOverflow => "scanner count overflowed"@,
        VirtualGridScannerError::Strategy(_) => "scanner strategy failed: "@ + detail,
        VirtualGridScannerError::Journal => "scanner journal failed: "@ + detail,
    }
}

fn around(head: &str, middle: &str, tail: &str) -> (r: String)
    ensures
        r@ == head@ + middle@ + tail@,
{
    joined(&joined(head, middle), tail)
}

fn ended_by_number(head: &str, number: u64) -> (r: String)
    ensures
        r@ == head@ + number_text(number),
{
    joined(head, &padded_number(number, 1))
}

fn with_number(head: &str, number: u64, tail: &str) -> (r: String)
    ensures
        r@ == head@ + number_text(number) + tail@,
{
    joined(&joined(head, &padded_number(number, 1)), tail)
}

impl VirtualGridScannerError {
    /// The text of the failure. `detail` is the text of the instrument that it
    /// names, or of what the strategy or the journal said.
    pub fn message(&self, detail: &str) -> (r: String)
        ensures
            r@ == scanner_error_text(*self, detail@),
    {
        match self {
            VirtualGridScannerError::InvalidRunId => "scanner run id is invalid".to_owned(),
            VirtualGridScannerError::InvalidInstrumentIdentity =>
                "scanner instrument identity is not canonical ASCII".to_owned(),
            VirtualGridScannerError::InvalidAprWindow { seconds } => with_number(
                "scanner APR window ",
                *seconds as u64,
                "s is invalid",
            ),
            VirtualGridScannerError::InvalidRowLimit { rows, limit } => ended_by_number(
                &with_number("scanner row limit ", *rows as u64, " exceeds 1..="),
                *limit as u64,
            ),
            VirtualGridScannerError::MissingCandidates =>
                "scanner requires at least one candidate".to_owned(),
            VirtualGridScannerError::TooManyCandidates { count, limit } => ended_by_number(
                &with_number("scanner has ", *count as u64, " candidates; maximum is "),
                *limit as u64,
            ),
            VirtualGridScannerError::MissingObservations { .. } => around(
                "scanner candidate ",
                detail,
                " has no observations",
            ),
            VirtualGridScannerError::TooManyCandidateObservations { count, limit, .. } =>
                ended_by_number(
                &with_number(
                    &around("scanner candidate ", detail, " has "),
                    *count as u64,
                    " observations; maximum is ",
                ),
                *limit as u64,
            ),
            VirtualGridScannerError::TooManyObservations { count, limit } => ended_by_number(
                &with_number("scanner has ", *count as u64, " observations; maximum is "),
                *limit as u64,
            ),
            VirtualGridScannerError::InvalidObservationSequence { expected, observed } =>
                ended_by_number(
                &with_number(
                    "scanner observation sequence ",
                    *observed,
                    " does not match expected ",
                ),
                *expected,
            ),
            VirtualGridScannerError::NonMonotonicObservationTime { sequence, .. } => ended_by_number(
                &around("scanner candidate ", detail, " rolls time back at sequence "),
                *sequence,
            ),
            VirtualGridScannerError::EvaluationPrecedesObservation { .. } => joined(
                "scanner evaluation time precedes the last observation for ",
                detail,
            ),
            VirtualGridScannerError::DuplicateInstrument { .. } => around(
                "scanner instrument ",
                detail,
                " is duplicated",
            ),
            VirtualGridScannerError::NegativeVolume { .. } => around(
                "scanner volume for ",
                detail,
                " is negative",
            ),
            VirtualGridScannerError::CountOverflow => "scanner count overflowed".to_owned(),
            VirtualGridScannerError::Strategy(_) => joined("scanner strategy failed: ", detail),
            VirtualGridScannerError::Journal => joined("scanner journal failed: ", detail),
        }
    }
}

} // verus!
