//! How a replay is cut into records, what the mirror shows of them, and what a
//! bar strategy does with its bars.

use crate::decimal::{representable, Decimal};
use crate::domain::{is_instrument, MarketDataEvent, MarketSnapshot, MarketType, OrderIntent, Side};
use crate::domain::StrategyError;
use crate::number_laws::{law_order_is_that_of_units, units};
use crate::paper_bar_task::{action_between, bars_ascend, continues, decision_on, follows};
use crate::paper_bar_task::{history_after, target_after, Bar, PaperBarAction, PaperBarDecision};
use crate::paper_bar_task::PaperBarTaskError;
use crate::paper_task::{earlier_task_is_settled, EarlierTask};
use crate::replay::{file_flaw, first_unknown, instrument_of, instruments_of, is_replay_field};
use crate::replay::{line_feeds, next_observation, next_record_of, object_keys, record_at, record_end};
use crate::replay::{record_start, revision_in, times_seen, InstrumentRevision, NextRecord};
use crate::replay_mirror::{are_snapshots_for, snapshot_of};
use vstd::prelude::*;

verus! {

/// A record ends at the first line feed behind its start, and at the end of
/// the bytes where there is none.
pub proof fn law_record_ends_at_the_first_line_feed(bytes: Seq<u8>, from: int)
    requires
        0 <= from <= bytes.len(),
    ensures
        from <= record_end(bytes, from) <= bytes.len(),
        record_end(bytes, from) < bytes.len() ==> bytes[record_end(bytes, from)] == 10,
        forall|k: int| from <= k < record_end(bytes, from) ==> #[trigger] bytes[k] != 10,
    decreases bytes.len() - from,
{
    if from < bytes.len() && bytes[from] != 10 {
        law_record_ends_at_the_first_line_feed(bytes, from + 1);
    }
}

/// A record is the text of its line: what stands between its start and the
/// line feed, without a carriage return at its end. It holds no line feed.
pub proof fn law_record_is_the_text_of_its_line(bytes: Seq<u8>, from: int)
    requires
        0 <= from <= bytes.len(),
    ensures
        ({
            let end = record_end(bytes, from);
            let record = record_at(bytes, from);
            let returned = from < end && bytes[end - 1] == 13;
            &&& record.len() == end - from - if returned {
                1int
            } else {
                0int
            }
            &&& forall|k: int|
                0 <= k < record.len() ==> #[trigger] record[k] == bytes[from + k] && record[k] != 10
        }),
{
    law_record_ends_at_the_first_line_feed(bytes, from);
    let record = record_at(bytes, from);
    assert forall|k: int| 0 <= k < record.len() implies #[trigger] record[k] == bytes[from + k]
        && record[k] != 10 by {
        assert(bytes[from + k] != 10);
    }
}

/// The records of a file follow one another: each starts right behind the line
/// feed of the one before, and the first one at the first byte.
pub proof fn law_records_follow_one_another(bytes: Seq<u8>, place: int)
    requires
        place >= 0,
        record_start(bytes, place) < bytes.len(),
    ensures
        record_start(bytes, 0) == 0,
        record_start(bytes, place) >= 0,
        record_start(bytes, place + 1) > record_start(bytes, place),
        record_start(bytes, place + 1) <= bytes.len() ==> bytes[record_start(bytes, place + 1) - 1]
            == 10,
        forall|k: int|
            record_start(bytes, place) <= k < record_start(bytes, place + 1) - 1 ==> #[trigger]
            bytes[k] != 10,
{
    lemma_record_start_is_a_place(bytes, place);
    law_record_ends_at_the_first_line_feed(bytes, record_start(bytes, place));
}

/// No record starts before the first byte.
proof fn lemma_record_start_is_a_place(bytes: Seq<u8>, place: int)
    ensures
        record_start(bytes, place) >= 0,
    decreases place,
{
    if place > 0 {
        lemma_record_start_is_a_place(bytes, place - 1);
        let start = record_start(bytes, place - 1);
        if start <= bytes.len() {
            law_record_ends_at_the_first_line_feed(bytes, start);
        }
    }
}

/// One more byte is one more line where it is a line feed.
pub proof fn law_line_feeds_are_counted(bytes: Seq<u8>, next: u8)
    ensures
        line_feeds(Seq::empty()) == 0,
        line_feeds(bytes.push(next)) == line_feeds(bytes) + if next == 10 {
            1int
        } else {
            0int
        },
{
    assert(bytes.push(next).drop_last() =~= bytes);
}

/// The unknown field that is named is the first one, and where none is named,
/// all of them are known.
pub proof fn law_first_unknown_field_is_named(fields: Seq<Seq<char>>)
    ensures
        first_unknown(fields) is None <==> forall|i: int|
            0 <= i < fields.len() ==> is_replay_field(#[trigger] fields[i]),
        first_unknown(fields) is Some ==> exists|i: int|
            0 <= i < fields.len() && #[trigger] fields[i] == first_unknown(fields)->0
                && !is_replay_field(fields[i]) && forall|j: int|
                0 <= j < i ==> is_replay_field(#[trigger] fields[j]),
    decreases fields.len(),
{
    if fields.len() > 0 {
        let rest = fields.skip(1);
        law_first_unknown_field_is_named(rest);
        if !is_replay_field(fields[0]) {
            assert(fields[0] == first_unknown(fields)->0);
        } else if first_unknown(rest) is Some {
            let i = choose|i: int|
                0 <= i < rest.len() && #[trigger] rest[i] == first_unknown(rest)->0
                    && !is_replay_field(rest[i]) && forall|j: int|
                    0 <= j < i ==> is_replay_field(#[trigger] rest[j]);
            assert(fields[i + 1] == rest[i]);
            assert forall|j: int| 0 <= j < i + 1 implies is_replay_field(#[trigger] fields[j]) by {
                if j > 0 {
                    assert(fields[j] == rest[j - 1]);
                }
            }
        } else {
            assert forall|i: int| 0 <= i < fields.len() implies is_replay_field(
                #[trigger] fields[i],
            ) by {
                if i > 0 {
                    assert(fields[i] == rest[i - 1]);
                }
            }
        }
    }
}

/// A record is accepted only where it is the line at its place, is not empty
/// or too long, finds room among the events, and is an object of known fields
/// alone.
pub proof fn law_accepted_record_is_whole_and_known(
    bytes: Seq<u8>,
    from: int,
    accepted: int,
    maximum: u64,
)
    requires
        next_record_of(bytes, from, accepted, maximum) is Record,
    ensures
        ({
            let record = next_record_of(bytes, from, accepted, maximum)->Record_0;
            &&& from < bytes.len()
            &&& record == record_at(bytes, from)
            &&& record.len() > 0
            &&& accepted < maximum
            &&& object_keys(record) is Some
            &&& object_keys(record)->0 is Some
            &&& forall|i: int|
                0 <= i < object_keys(record)->0->0.len() ==> is_replay_field(
                    #[trigger] object_keys(record)->0->0[i],
                )
        }),
        next_record_of(bytes, from, accepted, maximum) != NextRecord::End,
{
    let record = next_record_of(bytes, from, accepted, maximum)->Record_0;
    law_first_unknown_field_is_named(object_keys(record)->0->0);
}

/// A file is read only where it is as long as it was said to be, is not empty
/// and ends with a whole line.
pub proof fn law_sound_file_ends_with_a_whole_line(length: u64, bytes: Seq<u8>)
    requires
        file_flaw(length, bytes) is None,
    ensures
        bytes.len() == length,
        bytes.len() > 0,
        bytes.last() == 10,
{
}

/// A snapshot becomes an observation of itself, numbered one beyond the
/// snapshots of its instrument that came before, at its own time.
pub proof fn law_snapshot_is_observed_as_it_is(
    events: Seq<MarketDataEvent>,
    snapshot: MarketSnapshot,
)
    requires
        times_seen(instruments_of(events), events.len() as int, instrument_of(snapshot))
            < u64::MAX,
        times_seen(instruments_of(events), events.len() as int, instrument_of(snapshot)) >= 0,
    ensures
        ({
            let event = next_observation(events, snapshot);
            &&& event is Observation
            &&& event->Observation_snapshot == snapshot
            &&& event->Observation_received_at == snapshot.timestamp
            &&& event->Observation_revision == times_seen(
                instruments_of(events),
                events.len() as int,
                instrument_of(snapshot),
            ) + 1
        }),
        instrument_of(snapshot).exchange == snapshot.exchange,
        instrument_of(snapshot).symbol == snapshot.symbol,
        instrument_of(snapshot).market_type == snapshot.market_type,
{
}

/// The revision of an instrument is that of its first entry, and zero where it
/// has none.
pub proof fn law_revision_is_the_first_entrys(
    revisions: Seq<InstrumentRevision>,
    instrument: crate::monitor::MarketInstrument,
    i: int,
)
    requires
        0 <= i < revisions.len(),
        crate::monitor::same_instrument(revisions[i].instrument, instrument),
        forall|j: int|
            0 <= j < i ==> !crate::monitor::same_instrument(
                (#[trigger] revisions[j]).instrument,
                instrument,
            ),
    ensures
        revision_in(revisions, instrument) == revisions[i].revision,
        revision_in(Seq::empty(), instrument) == 0,
    decreases i,
{
    if i > 0 {
        let rest = revisions.skip(1);
        assert(rest[i - 1] == revisions[i]);
        assert forall|j: int| 0 <= j < i - 1 implies !crate::monitor::same_instrument(
            (#[trigger] rest[j]).instrument,
            instrument,
        ) by {
            assert(rest[j] == revisions[j + 1]);
        }
        assert(!crate::monitor::same_instrument(revisions[0].instrument, instrument));
        law_revision_is_the_first_entrys(rest, instrument, i - 1);
    }
}

/// A newer snapshot of an instrument is what is found of it, and leaves what is
/// found of every other one.
pub proof fn law_newest_snapshot_is_found(
    snapshots: Seq<MarketSnapshot>,
    newest: MarketSnapshot,
    exchange: Seq<char>,
    symbol: Seq<char>,
    market_type: MarketType,
)
    ensures
        snapshot_of(Seq::empty(), exchange, symbol, market_type) is None,
        newest.exchange@ == exchange && newest.symbol@ == symbol && newest.market_type
            == market_type ==> snapshot_of(snapshots.push(newest), exchange, symbol, market_type)
            == Some(newest),
        !(newest.exchange@ == exchange && newest.symbol@ == symbol && newest.market_type
            == market_type) ==> snapshot_of(
            snapshots.push(newest),
            exchange,
            symbol,
            market_type,
        ) == snapshot_of(snapshots, exchange, symbol, market_type),
{
    assert(snapshots.push(newest).drop_last() =~= snapshots);
}

/// The snapshots that a batch is executed on show each of its orders the
/// latest that is known of the order's own instrument.
pub proof fn law_batch_sees_the_latest_of_each_instrument(
    selected: Seq<MarketSnapshot>,
    latest: Seq<MarketSnapshot>,
    intents: Seq<OrderIntent>,
    i: int,
)
    requires
        are_snapshots_for(selected, latest, intents),
        0 <= i < intents.len(),
        snapshot_of(latest, intents[i].exchange@, intents[i].symbol@, intents[i].market_type)
            is Some,
    ensures
        ({
            let found = snapshot_of(
                latest,
                intents[i].exchange@,
                intents[i].symbol@,
                intents[i].market_type,
            )->0;
            &&& selected.contains(found)
            &&& is_instrument(
                found,
                intents[i].exchange@,
                intents[i].symbol@,
                intents[i].market_type,
            )
        }),
{
    lemma_found_is_among(
        selected,
        intents[i].exchange@,
        intents[i].symbol@,
        intents[i].market_type,
    );
}

/// What is found is one of the snapshots, of the instrument that was asked for.
proof fn lemma_found_is_among(
    snapshots: Seq<MarketSnapshot>,
    exchange: Seq<char>,
    symbol: Seq<char>,
    market_type: MarketType,
)
    ensures
        snapshot_of(snapshots, exchange, symbol, market_type) is Some ==> snapshots.contains(
            snapshot_of(snapshots, exchange, symbol, market_type)->0,
        ) && is_instrument(
            snapshot_of(snapshots, exchange, symbol, market_type)->0,
            exchange,
            symbol,
            market_type,
        ),
    decreases snapshots.len(),
{
    if snapshots.len() > 0 {
        let before = snapshots.drop_last();
        lemma_found_is_among(before, exchange, symbol, market_type);
        assert(snapshots.last() == snapshots[snapshots.len() - 1]);
        if !is_instrument(snapshots.last(), exchange, symbol, market_type) && snapshot_of(
            before,
            exchange,
            symbol,
            market_type,
        ) is Some {
            let found = snapshot_of(before, exchange, symbol, market_type)->0;
            let i = choose|i: int| 0 <= i < before.len() && before[i] == found;
            assert(snapshots[i] == found);
        }
    }
}

/// A higher target is bought towards, a lower one sold towards, and the same
/// number, however written, is held.
pub proof fn law_rebalance_goes_towards_the_target(current: Decimal, next: Decimal)
    requires
        representable(current@),
        representable(next@),
    ensures
        action_between(current, next) == (PaperBarAction::Rebalance {
            side: Side::Buy,
            target: next,
        }) <==> units(next@) > units(current@),
        action_between(current, next) == (PaperBarAction::Rebalance {
            side: Side::Sell,
            target: next,
        }) <==> units(next@) < units(current@),
        action_between(current, next) == PaperBarAction::Hold <==> units(next@) == units(
            current@,
        ),
{
    law_order_is_that_of_units(current@, next@);
    law_order_is_that_of_units(next@, current@);
}

/// A bar follows another where it opens after the other has closed; a history
/// that is only continued by such bars never overlaps.
pub proof fn law_continued_history_never_overlaps(history: Seq<Bar>, bar: Bar)
    requires
        bars_ascend(history),
        continues(history, bar),
        forall|i: int|
            0 <= i < history.len() ==> (#[trigger] history[i]).open_time.rank()
                <= history[i].close_time.rank(),
    ensures
        bars_ascend(history.push(bar)),
        forall|i: int|
            0 <= i < history.len() ==> (#[trigger] history[i]).close_time.rank()
                < bar.open_time.rank(),
{
    let longer = history.push(bar);
    let last = history.len() - 1;
    assert forall|i: int| 0 <= i < history.len() implies follows(bar, #[trigger] history[i]) by {
        if i < last {
            assert(follows(history[last], history[i]));
            assert(history[last].open_time.rank() <= history[last].close_time.rank());
        }
    }
    assert forall|i: int, j: int|
        #![trigger longer[i], longer[j]]
        0 <= i < j < longer.len() implies follows(longer[j], longer[i]) by {
        assert(longer[i] == history[i]);
        if j < history.len() {
            assert(longer[j] == history[j]);
            assert(follows(history[j], history[i]));
        } else {
            assert(follows(bar, history[i]));
        }
    }
}

/// A task is taken over only where the earlier one stopped and left nothing to
/// recover; without an earlier one there is nothing in the way.
pub proof fn law_earlier_task_left_nothing_behind(earlier: EarlierTask)
    ensures
        earlier_task_is_settled(Some(earlier)) <==> earlier.stopped && !earlier.needs_recovery,
        earlier_task_is_settled(None),
{
}

/// A bar that does not follow the last one changes nothing and is refused,
/// whatever the strategy would say. One that follows is numbered by its place
/// in the history and decided at its close; the target moves to the strategy's
/// answer, and stays where the strategy fails.
pub proof fn law_bar_is_decided_at_its_close(
    history: Seq<Bar>,
    target: Decimal,
    bar: Bar,
    answer: Result<Decimal, StrategyError>,
)
    requires
        history.len() < usize::MAX,
    ensures
        ({
            let r = decision_on(history, target, bar, answer);
            let after = history_after(history, bar);
            let next = target_after(history, target, bar, answer);
            &&& after.len() == history.len() || after.len() == history.len() + 1
            &&& after.len() == history.len() ==> after == history && next == target && r == Err::<
                PaperBarDecision,
                _,
            >(PaperBarTaskError::InvalidBarSequence)
            &&& after.len() > history.len() ==> after.last() == bar && after.drop_last()
                =~= history
            &&& r is Ok <==> after.len() > history.len() && answer is Ok
            &&& r is Ok ==> after[r->Ok_0.bar_index as int] == bar && r->Ok_0.decided_at
                == bar.close_time && r->Ok_0.target == answer->Ok_0 && next == answer->Ok_0
            &&& r is Ok ==> r->Ok_0.action == action_between(target, next)
            &&& answer is Err ==> next == target
            &&& answer is Err && after.len() > history.len() ==> r == Err::<PaperBarDecision, _>(
                PaperBarTaskError::Strategy(answer->Err_0),
            )
        }),
{
}

/// Events are taken up to the maximum and no further: a record that would be
/// accepted under a higher maximum is refused for its number exactly where the
/// maximum is reached.
pub proof fn law_events_are_taken_up_to_the_maximum(
    bytes: Seq<u8>,
    from: int,
    accepted: int,
    maximum: u64,
    higher: u64,
)
    requires
        next_record_of(bytes, from, accepted, higher) is Record,
    ensures
        next_record_of(bytes, from, accepted, maximum) == if accepted < maximum {
            next_record_of(bytes, from, accepted, higher)
        } else {
            NextRecord::TooManyEvents
        },
{
}

/// A replay ends where its bytes end, whatever the maximum, and only there.
pub proof fn law_replay_ends_with_its_bytes(bytes: Seq<u8>, from: int, accepted: int, maximum: u64)
    ensures
        next_record_of(bytes, from, accepted, maximum) is End <==> from >= bytes.len(),
        from < bytes.len() ==> (next_record_of(bytes, from, accepted, maximum) is EmptyRecord
            <==> record_at(bytes, from).len() == 0),
{
}

} // verus!
