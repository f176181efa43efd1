//! The strict, bounded JSONL replay of market snapshots.
//!
//! The loader frames the records of a file, holds each against its bounds and
//! its allowed fields, and turns the snapshot that each is read as into one
//! observation, with the revisions of the instruments in the order of the file.
//! Between two records a [`MarketSnapshotReplay`] is all there is; while a
//! record waits for its snapshot, a [`PendingRecord`] is.

use crate::domain::{MarketDataEvent, MarketSnapshot};
use crate::monitor::{
    same_instrument, MarketInstrument, MAX_MONITOR_REPLAY_BYTES, MAX_MONITOR_REPLAY_RECORD_BYTES,
    MAX_MONITOR_REPLAY_SYMBOL_BYTES,
};
use crate::text::{byte_len, byte_length, digits_of, joined, padded_number, same_text, zero_padded};
use crate::timestamp::Timestamp;
use vstd::prelude::*;

verus! {

/// Why a replay is refused.
#[derive(Debug)]
pub enum ReplayError {
    TooLarge { bytes: u64 },
    ReadLimitExceeded,
    Changed,
    Empty,
    PartialFinalRecord,
    EmptyRecord { record: u64 },
    RecordTooLarge { record: u64 },
    TooManyEvents { maximum: u64 },
    InvalidJson { record: u64 },
    NotAnObject { record: u64 },
    UnknownField { field: String, record: u64 },
    InvalidRecord { record: u64 },
    SymbolTooLong { record: u64 },
    InvalidIdentity { record: u64 },
    RevisionExhausted,
}

/// The keys of the object that a JSON document holds, in the order of its map:
/// nothing where the document is no JSON, and an inner nothing where it holds
/// something other than an object.
pub uninterp spec fn object_keys(document: Seq<u8>) -> Option<Option<Seq<Seq<char>>>>;

/// The characters of each text.
pub open spec fn texts_of(texts: Seq<String>) -> Seq<Seq<char>> {
    texts.map_values(|text: String| text@)
}

/// The characters of each text, where there are any.
pub open spec fn keys_in(keys: Option<Option<Vec<String>>>) -> Option<Option<Seq<Seq<char>>>> {
    match keys {
        None => None,
        Some(None) => Some(None),
        Some(Some(found)) => Some(Some(texts_of(found@))),
    }
}

/// Reads the document with `serde_json::from_slice`, takes the object out with
/// `Value::as_object` and lists its keys with `Map::keys`. What comes out is
/// named.
#[verifier::external_body]
fn document_keys(document: &Vec<u8>) -> (r: Option<Option<Vec<String>>>)
    ensures
        keys_in(r) == object_keys(document@),
{
    let value = serde_json::from_slice::<serde_json::Value>(document).ok()?;
    Some(value.as_object().map(|object| object.keys().cloned().collect()))
}

/// The fields that a record may have.
pub open spec fn is_replay_field(field: Seq<char>) -> bool {
    field == "exchange"@ || field == "symbol"@ || field == "market_type"@ || field == "bid"@
        || field == "ask"@ || field == "last"@ || field == "bid_quantity"@ || field
        == "ask_quantity"@ || field == "timestamp"@
}

fn is_known_field(field: &str) -> (r: bool)
    ensures
        r == is_replay_field(field@),
{
    same_text(field, "exchange") || same_text(field, "symbol") || same_text(field, "market_type")
        || same_text(field, "bid") || same_text(field, "ask") || same_text(field, "last")
        || same_text(field, "bid_quantity") || same_text(field, "ask_quantity") || same_text(
        field,
        "timestamp",
    )
}

/// The place of the first field that a record may not have.
pub open spec fn first_unknown(fields: Seq<Seq<char>>) -> Option<Seq<char>>
    decreases fields.len(),
{
    if fields.len() == 0 {
        None
    } else if !is_replay_field(fields[0]) {
        Some(fields[0])
    } else {
        first_unknown(fields.skip(1))
    }
}

fn find_unknown(fields: &Vec<String>) -> (r: Option<String>)
    ensures
        crate::json::text_in(r) == first_unknown(texts_of(fields@)),
{
    let ghost all = texts_of(fields@);
    let mut i: usize = 0;
    assert(all.skip(0) =~= all);
    while i < fields.len()
        invariant
            i <= fields.len(),
            all == texts_of(fields@),
            first_unknown(all) == first_unknown(all.skip(i as int)),
        decreases fields.len() - i,
    {
        assert(all.skip(i as int)[0] == fields@[i as int]@);
        assert(all.skip(i as int).skip(1) =~= all.skip(i + 1));
        if !is_known_field(&fields[i]) {
            return Some(fields[i].clone());
        }
        i = i + 1;
    }
    None
}

/// The place of the line feed that ends the record which starts at `from`; the
/// end of the file where there is none.
pub open spec fn record_end(bytes: Seq<u8>, from: int) -> int
    decreases bytes.len() - from,
{
    if from < 0 || from >= bytes.len() {
        bytes.len() as int
    } else if bytes[from] == 10 {
        from
    } else {
        record_end(bytes, from + 1)
    }
}

/// The record that starts at `from`, without its line end.
pub open spec fn record_at(bytes: Seq<u8>, from: int) -> Seq<u8> {
    let end = record_end(bytes, from);
    if from < end && bytes[end - 1] == 13 {
        bytes.subrange(from, end - 1)
    } else {
        bytes.subrange(from, end)
    }
}

fn find_record_end(bytes: &Vec<u8>, from: usize) -> (r: usize)
    requires
        from <= bytes@.len(),
    ensures
        r == record_end(bytes@, from as int),
        from <= r <= bytes@.len(),
{
    let mut end: usize = from;
    while end < bytes.len() && bytes[end] != 10
        invariant
            from <= end <= bytes@.len(),
            record_end(bytes@, from as int) == record_end(bytes@, end as int),
        decreases bytes@.len() - end,
    {
        end = end + 1;
    }
    end
}

fn copy_bytes(bytes: &Vec<u8>, from: usize, to: usize) -> (r: Vec<u8>)
    requires
        from <= to <= bytes@.len(),
    ensures
        r@ == bytes@.subrange(from as int, to as int),
{
    let mut copied: Vec<u8> = Vec::new();
    let mut i: usize = from;
    while i < to
        invariant
            from <= i <= to <= bytes@.len(),
            copied@ =~= bytes@.subrange(from as int, i as int),
        decreases to - i,
    {
        copied.push(bytes[i]);
        i = i + 1;
    }
    copied
}

/// The last revision of an instrument.
#[derive(Debug)]
pub struct InstrumentRevision {
    pub instrument: MarketInstrument,
    pub revision: u64,
}

/// The last revision of the instrument; zero before the first.
pub open spec fn revision_in(
    revisions: Seq<InstrumentRevision>,
    instrument: MarketInstrument,
) -> u64
    decreases revisions.len(),
{
    if revisions.len() == 0 {
        0
    } else if same_instrument(revisions[0].instrument, instrument) {
        revisions[0].revision
    } else {
        revision_in(revisions.skip(1), instrument)
    }
}

proof fn lemma_revision_of_later(
    revisions: Seq<InstrumentRevision>,
    instrument: MarketInstrument,
    k: int,
)
    requires
        0 <= k <= revisions.len(),
        forall|i: int|
            0 <= i < k ==> !same_instrument(#[trigger] revisions[i].instrument, instrument),
    ensures
        revision_in(revisions, instrument) == revision_in(revisions.skip(k), instrument),
    decreases k,
{
    if k == 0 {
        assert(revisions.skip(0) =~= revisions);
    } else {
        assert(!same_instrument(revisions[0].instrument, instrument));
        let rest = revisions.skip(1);
        assert forall|i: int| 0 <= i < k - 1 implies !same_instrument(
            #[trigger] rest[i].instrument,
            instrument,
        ) by {
            assert(rest[i] == revisions[i + 1]);
        }
        lemma_revision_of_later(rest, instrument, k - 1);
        assert(rest.skip(k - 1) =~= revisions.skip(k));
    }
}

/// Changing one entry changes the revision of its instrument alone.
proof fn lemma_revision_updated(
    before: Seq<InstrumentRevision>,
    after: Seq<InstrumentRevision>,
    place: int,
    other: MarketInstrument,
)
    requires
        0 <= place < before.len(),
        after.len() == before.len(),
        forall|i: int| 0 <= i < before.len() && i != place ==> #[trigger] after[i] == before[i],
        after[place].instrument == before[place].instrument,
        !same_instrument(before[place].instrument, other),
    ensures
        revision_in(after, other) == revision_in(before, other),
    decreases before.len(),
{
    if place > 0 && !same_instrument(before[0].instrument, other) {
        assert(after[0] == before[0]);
        assert forall|i: int|
            0 <= i < before.skip(1).len() && i != place - 1 implies #[trigger] after.skip(1)[i]
            == before.skip(1)[i] by {
            assert(after[i + 1] == before[i + 1]);
        }
        lemma_revision_updated(before.skip(1), after.skip(1), place - 1, other);
    } else if place > 0 {
        assert(after[0] == before[0]);
    } else {
        assert(after.skip(1) =~= before.skip(1)) by {
            assert forall|i: int| 0 <= i < before.skip(1).len() implies after.skip(1)[i]
                == before.skip(1)[i] by {
                assert(after[i + 1] == before[i + 1]);
            }
        }
    }
}

/// The instrument has a revision.
spec fn is_listed(revisions: Seq<InstrumentRevision>, instrument: MarketInstrument) -> bool
    decreases revisions.len(),
{
    revisions.len() > 0 && (same_instrument(revisions[0].instrument, instrument) || is_listed(
        revisions.skip(1),
        instrument,
    ))
}

proof fn lemma_unlisted(revisions: Seq<InstrumentRevision>, instrument: MarketInstrument)
    requires
        forall|i: int|
            0 <= i < revisions.len() ==> !same_instrument(
                #[trigger] revisions[i].instrument,
                instrument,
            ),
    ensures
        !is_listed(revisions, instrument),
    decreases revisions.len(),
{
    if revisions.len() > 0 {
        let rest = revisions.skip(1);
        assert(!same_instrument(revisions[0].instrument, instrument));
        assert forall|i: int| 0 <= i < rest.len() implies !same_instrument(
            #[trigger] rest[i].instrument,
            instrument,
        ) by {
            assert(rest[i] == revisions[i + 1]);
        }
        lemma_unlisted(rest, instrument);
    }
}

proof fn lemma_listed_alike(
    revisions: Seq<InstrumentRevision>,
    a: MarketInstrument,
    b: MarketInstrument,
)
    requires
        same_instrument(a, b),
    ensures
        is_listed(revisions, a) == is_listed(revisions, b),
    decreases revisions.len(),
{
    if revisions.len() > 0 {
        lemma_listed_alike(revisions.skip(1), a, b);
    }
}

/// A new entry behind all others gives a revision to its instrument alone, if
/// that had none.
proof fn lemma_revision_pushed(
    before: Seq<InstrumentRevision>,
    entry: InstrumentRevision,
    other: MarketInstrument,
)
    ensures
        is_listed(before, other) ==> revision_in(before.push(entry), other) == revision_in(
            before,
            other,
        ),
        !is_listed(before, other) ==> revision_in(before, other) == 0 && revision_in(
            before.push(entry),
            other,
        ) == if same_instrument(entry.instrument, other) {
            entry.revision
        } else {
            0
        },
    decreases before.len(),
{
    let after = before.push(entry);
    if before.len() == 0 {
        assert(after[0] == entry);
        assert(after.skip(1) =~= before);
        assert(revision_in(after.skip(1), other) == 0);
    } else {
        assert(after[0] == before[0]);
        assert(after.skip(1) =~= before.skip(1).push(entry));
        lemma_revision_pushed(before.skip(1), entry, other);
    }
}

/// One instrument's revision grew by one; every other stayed.
pub open spec fn is_next_revision(
    before: Seq<InstrumentRevision>,
    after: Seq<InstrumentRevision>,
    instrument: MarketInstrument,
) -> bool {
    forall|other: MarketInstrument| #[trigger]
        revision_in(after, other) == if same_instrument(instrument, other) {
            revision_in(before, other) + 1
        } else {
            revision_in(before, other) as int
        }
}

/// Counts one more revision of the instrument; nothing where the counter is
/// exhausted.
fn count_revision(revisions: &mut Vec<InstrumentRevision>, instrument: MarketInstrument) -> (r:
    Option<u64>)
    ensures
        revision_in(old(revisions)@, instrument) == u64::MAX ==> r is None && final(revisions)@
            == old(revisions)@,
        revision_in(old(revisions)@, instrument) < u64::MAX ==> {
            &&& r == Some((revision_in(old(revisions)@, instrument) + 1) as u64)
            &&& is_next_revision(old(revisions)@, final(revisions)@, instrument)
        },
{
    let ghost before = revisions@;
    let mut i: usize = 0;
    while i < revisions.len()
        invariant
            i <= revisions.len(),
            revisions@ == before,
            before == old(revisions)@,
            forall|k: int|
                0 <= k < i ==> !same_instrument(#[trigger] before[k].instrument, instrument),
        decreases revisions.len() - i,
    {
        if revisions[i].instrument.equals(&instrument) {
            proof {
                lemma_revision_of_later(before, instrument, i as int);
                assert(before.skip(i as int)[0] == before[i as int]);
            }
            if revisions[i].revision == u64::MAX {
                return None;
            }
            let revision: u64 = revisions[i].revision + 1;
            let kept: MarketInstrument = revisions[i].instrument.copy();
            revisions.set(i, InstrumentRevision { instrument: kept, revision });
            proof {
                let after = revisions@;
                assert forall|other: MarketInstrument| #[trigger]
                    revision_in(after, other) == if same_instrument(instrument, other) {
                        revision_in(before, other) + 1
                    } else {
                        revision_in(before, other) as int
                    } by {
                    if same_instrument(instrument, other) {
                        lemma_revision_of_later(before, other, i as int);
                        assert(before.skip(i as int)[0] == before[i as int]);
                        assert forall|k: int| 0 <= k < i implies !same_instrument(
                            #[trigger] after[k].instrument,
                            other,
                        ) by {
                            assert(after[k] == before[k]);
                        }
                        lemma_revision_of_later(after, other, i as int);
                        assert(after.skip(i as int)[0] == after[i as int]);
                    } else {
                        lemma_revision_updated(before, after, i as int, other);
                    }
                }
            }
            return Some(revision);
        }
        i = i + 1;
    }
    proof {
        lemma_revision_of_later(before, instrument, before.len() as int);
        assert(before.skip(before.len() as int) =~= Seq::<InstrumentRevision>::empty());
    }
    let entry: InstrumentRevision = InstrumentRevision { instrument, revision: 1 };
    revisions.push(entry);
    proof {
        let after = revisions@;
        assert forall|other: MarketInstrument| #[trigger]
            revision_in(after, other) == if same_instrument(instrument, other) {
                revision_in(before, other) + 1
            } else {
                revision_in(before, other) as int
            } by {
            lemma_revision_pushed(before, entry, other);
            lemma_unlisted(before, instrument);
            if same_instrument(instrument, other) {
                lemma_listed_alike(before, instrument, other);
            }
        }
    }
    Some(1)
}

/// How many of the first `n` instruments are this one.
pub open spec fn times_seen(
    instruments: Seq<MarketInstrument>,
    n: int,
    instrument: MarketInstrument,
) -> int
    decreases n,
{
    if n <= 0 {
        0
    } else {
        times_seen(instruments, n - 1, instrument) + if same_instrument(
            instruments[n - 1],
            instrument,
        ) {
            1int
        } else {
            0int
        }
    }
}

/// Only the first `n` instruments count.
proof fn lemma_times_seen_alike(
    a: Seq<MarketInstrument>,
    b: Seq<MarketInstrument>,
    n: int,
    instrument: MarketInstrument,
)
    requires
        n <= a.len(),
        n <= b.len(),
        forall|k: int| 0 <= k < n ==> #[trigger] a[k] == b[k],
    ensures
        times_seen(a, n, instrument) == times_seen(b, n, instrument),
        0 <= times_seen(a, n, instrument),
        n >= 0 ==> times_seen(a, n, instrument) <= n,
    decreases n,
{
    if n > 0 {
        assert(a[n - 1] == b[n - 1]);
        lemma_times_seen_alike(a, b, n - 1, instrument);
    }
}

/// The instrument that a snapshot is of.
pub open spec fn instrument_of(snapshot: MarketSnapshot) -> MarketInstrument {
    MarketInstrument {
        exchange: snapshot.exchange,
        symbol: snapshot.symbol,
        market_type: snapshot.market_type,
    }
}

/// The instruments that the events are observations of.
pub open spec fn instruments_of(events: Seq<MarketDataEvent>) -> Seq<MarketInstrument> {
    events.map_values(|event: MarketDataEvent| instrument_of(event->Observation_snapshot))
}

/// The observation that a snapshot becomes behind these events: its revision
/// is one more than the number of snapshots of its instrument among them, and
/// it counts as received when it was taken.
pub open spec fn next_observation(
    events: Seq<MarketDataEvent>,
    snapshot: MarketSnapshot,
) -> MarketDataEvent {
    MarketDataEvent::Observation {
        snapshot,
        revision: (1 + times_seen(
            instruments_of(events),
            events.len() as int,
            instrument_of(snapshot),
        )) as u64,
        received_at: snapshot.timestamp,
    }
}

/// The event at this place is the observation of a snapshot: received when it
/// was taken, with one revision more than its instrument has had before it, and
/// under a symbol that is not too long.
pub open spec fn is_observation_at(events: Seq<MarketDataEvent>, i: int) -> bool {
    let snapshot = events[i]->Observation_snapshot;
    &&& events[i] is Observation
    &&& events[i]->Observation_revision == 1 + times_seen(
        instruments_of(events),
        i,
        instrument_of(snapshot),
    )
    &&& events[i]->Observation_received_at == snapshot.timestamp
    &&& byte_length(snapshot.symbol@) <= MAX_MONITOR_REPLAY_SYMBOL_BYTES
}

/// The revisions of an instrument number its observations: the first one has
/// revision one, and each later one has one more than the last one before it.
pub proof fn law_revisions_count_the_snapshots(events: Seq<MarketDataEvent>, i: int, j: int)
    requires
        0 <= i < j < events.len(),
        is_observation_at(events, i),
        is_observation_at(events, j),
        same_instrument(instruments_of(events)[i], instruments_of(events)[j]),
        forall|k: int|
            i < k < j ==> !same_instrument(
                #[trigger] instruments_of(events)[k],
                instruments_of(events)[j],
            ),
    ensures
        events[j]->Observation_revision == events[i]->Observation_revision + 1,
        (forall|k: int|
            0 <= k < i ==> !same_instrument(
                #[trigger] instruments_of(events)[k],
                instruments_of(events)[j],
            )) ==> events[i]->Observation_revision == 1,
{
    let instruments = instruments_of(events);
    let instrument = instruments[j];
    lemma_times_seen_of_alike(instruments, i, instruments[i], instrument);
    lemma_unseen_between(instruments, i + 1, j, instrument);
    assert(times_seen(instruments, i + 1, instrument) == times_seen(instruments, i, instrument)
        + 1);
    if forall|k: int|
        0 <= k < i ==> !same_instrument(#[trigger] instruments[k], instrument) {
        lemma_unseen_between(instruments, 0, i, instrument);
    }
}

proof fn lemma_times_seen_of_alike(
    instruments: Seq<MarketInstrument>,
    n: int,
    a: MarketInstrument,
    b: MarketInstrument,
)
    requires
        same_instrument(a, b),
    ensures
        times_seen(instruments, n, a) == times_seen(instruments, n, b),
    decreases n,
{
    if n > 0 {
        lemma_times_seen_of_alike(instruments, n - 1, a, b);
    }
}

proof fn lemma_unseen_between(
    instruments: Seq<MarketInstrument>,
    from: int,
    to: int,
    instrument: MarketInstrument,
)
    requires
        0 <= from <= to <= instruments.len(),
        forall|k: int| from <= k < to ==> !same_instrument(#[trigger] instruments[k], instrument),
    ensures
        times_seen(instruments, to, instrument) == times_seen(instruments, from, instrument),
    decreases to - from,
{
    if from < to {
        lemma_unseen_between(instruments, from, to - 1, instrument);
        assert(!same_instrument(instruments[to - 1], instrument));
    }
}

/// The digits of a number.
pub open spec fn number_text(n: u64) -> Seq<char> {
    zero_padded(digits_of(n as nat), 1)
}

/// The text of a refusal.
pub open spec fn replay_error_text(error: ReplayError) -> Seq<char> {
    match error {
        ReplayError::TooLarge { bytes } => "monitor replay has "@ + number_text(bytes)
            + " bytes; maximum is 8388608"@,
        ReplayError::ReadLimitExceeded => "monitor replay exceeded the 8388608-byte read limit"@,
        ReplayError::Changed => "monitor replay changed while it was being read"@,
        ReplayError::Empty => "monitor replay must contain at least one snapshot"@,
        ReplayError::PartialFinalRecord => "monitor replay has a partial final record"@,
        ReplayError::EmptyRecord { record } => "monitor replay record "@ + number_text(record)
            + " is empty"@,
        ReplayError::RecordTooLarge { record } => "monitor replay record "@ + number_text(record)
            + " exceeds 65536 bytes"@,
        ReplayError::TooManyEvents { maximum } => "monitor replay exceeds "@ + number_text(maximum)
            + " events"@,
        ReplayError::InvalidJson { record } => "monitor replay record "@ + number_text(record)
            + " is invalid JSON"@,
        ReplayError::NotAnObject { record } => "monitor replay record "@ + number_text(record)
            + " must be an object"@,
        ReplayError::UnknownField { field, record } => ("unknown replay field "@ + field@
            + " at record "@) + number_text(record),
        ReplayError::InvalidRecord { record } => "monitor replay record "@ + number_text(record)
            + " is invalid"@,
        ReplayError::SymbolTooLong { record } => "monitor replay symbol at record "@ + number_text(
            record,
        ) + " exceeds 128 bytes"@,
        ReplayError::InvalidIdentity { record } => "monitor replay record "@ + number_text(record)
            + " has invalid identity"@,
        ReplayError::RevisionExhausted => "monitor replay revision counter is exhausted"@,
    }
}

fn numbered(head: &str, n: u64, tail: &str) -> (r: String)
    ensures
        r@ == head@ + number_text(n) + tail@,
{
    joined(&joined(head, &padded_number(n, 1)), tail)
}

impl ReplayError {
    pub fn message(&self) -> (r: String)
        ensures
            r@ == replay_error_text(*self),
    {
        match self {
            ReplayError::TooLarge { bytes } => numbered(
                "monitor replay has ",
                *bytes,
                " bytes; maximum is 8388608",
            ),
            ReplayError::ReadLimitExceeded =>
                "monitor replay exceeded the 8388608-byte read limit".to_owned(),
            ReplayError::Changed => "monitor replay changed while it was being read".to_owned(),
            ReplayError::Empty => "monitor replay must contain at least one snapshot".to_owned(),
            ReplayError::PartialFinalRecord => "monitor replay has a partial final record".to_owned(),
            ReplayError::EmptyRecord { record } => numbered(
                "monitor replay record ",
                *record,
                " is empty",
            ),
            ReplayError::RecordTooLarge { record } => numbered(
                "monitor replay record ",
                *record,
                " exceeds 65536 bytes",
            ),
            ReplayError::TooManyEvents { maximum } => numbered(
                "monitor replay exceeds ",
                *maximum,
                " events",
            ),
            ReplayError::InvalidJson { record } => numbered(
                "monitor replay record ",
                *record,
                " is invalid JSON",
            ),
            ReplayError::NotAnObject { record } => numbered(
                "monitor replay record ",
                *record,
                " must be an object",
            ),
            ReplayError::UnknownField { field, record } => joined(
                &joined(&joined("unknown replay field ", field), " at record "),
                &padded_number(*record, 1),
            ),
            ReplayError::InvalidRecord { record } => numbered(
                "monitor replay record ",
                *record,
                " is invalid",
            ),
            ReplayError::SymbolTooLong { record } => numbered(
                "monitor replay symbol at record ",
                *record,
                " exceeds 128 bytes",
            ),
            ReplayError::InvalidIdentity { record } => numbered(
                "monitor replay record ",
                *record,
                " has invalid identity",
            ),
            ReplayError::RevisionExhausted =>
                "monitor replay revision counter is exhausted".to_owned(),
        }
    }
}

/// What the next record comes to.
pub enum NextRecord {
    End,
    EmptyRecord,
    RecordTooLarge,
    TooManyEvents,
    InvalidJson,
    NotAnObject,
    UnknownField(Seq<char>),
    Record(Seq<u8>),
}

/// What the record that starts at `from` comes to.
pub open spec fn next_record_of(bytes: Seq<u8>, from: int, accepted: int, maximum: u64) -> NextRecord {
    let record = record_at(bytes, from);
    if from >= bytes.len() {
        NextRecord::End
    } else if record.len() == 0 {
        NextRecord::EmptyRecord
    } else if record.len() + 1 > MAX_MONITOR_REPLAY_RECORD_BYTES {
        NextRecord::RecordTooLarge
    } else if accepted >= maximum {
        NextRecord::TooManyEvents
    } else {
        match object_keys(record) {
            None => NextRecord::InvalidJson,
            Some(None) => NextRecord::NotAnObject,
            Some(Some(fields)) => match first_unknown(fields) {
                Some(field) => NextRecord::UnknownField(field),
                None => NextRecord::Record(record),
            },
        }
    }
}

/// Where the record at this place, counted from zero, starts.
pub open spec fn record_start(bytes: Seq<u8>, place: int) -> int
    decreases place,
{
    if place <= 0 {
        0
    } else {
        record_end(bytes, record_start(bytes, place - 1)) + 1
    }
}

/// How many line feeds the bytes hold.
pub open spec fn line_feeds(bytes: Seq<u8>) -> int
    decreases bytes.len(),
{
    if bytes.len() == 0 {
        0
    } else {
        line_feeds(bytes.drop_last()) + if bytes.last() == 10 {
            1int
        } else {
            0int
        }
    }
}

/// The record at this place is within its bounds and has none but the allowed
/// fields.
pub open spec fn is_record_at(bytes: Seq<u8>, place: int, maximum: u64) -> bool {
    next_record_of(bytes, record_start(bytes, place), place, maximum) is Record
}

/// The events are those of the records before `position`: one for each, in the
/// order of the file.
pub open spec fn are_replayed(
    bytes: Seq<u8>,
    maximum: u64,
    events: Seq<MarketDataEvent>,
    position: int,
) -> bool {
    &&& position == record_start(bytes, events.len() as int)
    &&& forall|i: int| 0 <= i < events.len() ==> #[trigger] is_observation_at(events, i)
    &&& forall|i: int| 0 <= i < events.len() ==> #[trigger] is_record_at(bytes, i, maximum)
}

/// The events are those of the whole file: it is not empty, within its bound
/// and ends with a line feed; every line of it is a record, and becomes the
/// observation at its own place.
pub open spec fn is_whole_replay(
    bytes: Seq<u8>,
    maximum: u64,
    events: Seq<MarketDataEvent>,
) -> bool {
    &&& 0 < bytes.len() <= MAX_MONITOR_REPLAY_BYTES
    &&& bytes.last() == 10
    &&& events.len() == line_feeds(bytes)
    &&& events.len() <= maximum
    &&& forall|i: int| 0 <= i < events.len() ==> #[trigger] is_observation_at(events, i)
    &&& forall|i: int| 0 <= i < events.len() ==> #[trigger] is_record_at(bytes, i, maximum)
}

/// In a file that ends with a line feed every record ends with one.
proof fn lemma_record_ends(bytes: Seq<u8>, from: int)
    requires
        0 <= from < bytes.len(),
        bytes[bytes.len() - 1] == 10,
    ensures
        from <= record_end(bytes, from) < bytes.len(),
    decreases bytes.len() - from,
{
    if bytes[from] != 10 {
        lemma_record_ends(bytes, from + 1);
    }
}

/// Up to the end of a record there is one line feed more than before it.
proof fn lemma_line_feeds_in_record(bytes: Seq<u8>, from: int, to: int)
    requires
        0 <= from <= to <= record_end(bytes, from),
        record_end(bytes, from) < bytes.len(),
    ensures
        line_feeds(bytes.take(to)) == line_feeds(bytes.take(from)),
        bytes[record_end(bytes, from)] == 10,
        to < record_end(bytes, from) ==> bytes[to] != 10,
    decreases to - from,
{
    lemma_within_record(bytes, from, to);
    if from < to {
        lemma_line_feeds_in_record(bytes, from, to - 1);
        assert(bytes.take(to).drop_last() =~= bytes.take(to - 1));
        assert(bytes.take(to).last() == bytes[to - 1]);
    }
}

proof fn lemma_end_not_before(bytes: Seq<u8>, from: int)
    requires
        0 <= from <= bytes.len(),
    ensures
        from <= record_end(bytes, from),
    decreases bytes.len() - from,
{
    if from < bytes.len() && bytes[from] != 10 {
        lemma_end_not_before(bytes, from + 1);
    }
}

/// Of a record only its end is a line feed.
proof fn lemma_within_record(bytes: Seq<u8>, from: int, to: int)
    requires
        0 <= from <= to <= record_end(bytes, from),
        record_end(bytes, from) < bytes.len(),
    ensures
        bytes[record_end(bytes, from)] == 10,
        to < record_end(bytes, from) ==> bytes[to] != 10,
    decreases bytes.len() - from,
{
    if from < bytes.len() && bytes[from] != 10 {
        if from < to {
            lemma_within_record(bytes, from + 1, to);
        } else {
            lemma_end_not_before(bytes, from + 1);
            lemma_within_record(bytes, from + 1, from + 1);
        }
    }
}

/// Before each record there are as many line feeds as records.
proof fn lemma_records_before(bytes: Seq<u8>, maximum: u64, n: int)
    requires
        n >= 0,
        bytes.len() > 0,
        bytes.last() == 10,
        forall|i: int| 0 <= i < n ==> #[trigger] is_record_at(bytes, i, maximum),
    ensures
        n <= record_start(bytes, n) <= bytes.len(),
        line_feeds(bytes.take(record_start(bytes, n))) == n,
        n > 0 ==> n <= maximum,
    decreases n,
{
    if n == 0 {
        assert(bytes.take(0) =~= Seq::<u8>::empty());
    } else {
        lemma_records_before(bytes, maximum, n - 1);
        assert(is_record_at(bytes, n - 1, maximum));
        let from = record_start(bytes, n - 1);
        let end = record_end(bytes, from);
        lemma_record_ends(bytes, from);
        lemma_line_feeds_in_record(bytes, from, end);
        assert(bytes.take(end + 1).drop_last() =~= bytes.take(end));
        assert(bytes.take(end + 1).last() == bytes[end]);
    }
}

/// A replay that has come to the end of its file has one event for each line
/// of it, in the order of the file, each numbered among those of its
/// instrument.
pub proof fn law_replay_has_one_event_for_each_line(
    bytes: Seq<u8>,
    maximum: u64,
    events: Seq<MarketDataEvent>,
)
    requires
        0 < bytes.len() <= MAX_MONITOR_REPLAY_BYTES,
        bytes.last() == 10,
        are_replayed(bytes, maximum, events, bytes.len() as int),
    ensures
        is_whole_replay(bytes, maximum, events),
{
    lemma_records_before(bytes, maximum, events.len() as int);
    assert(bytes.take(bytes.len() as int) =~= bytes);
}

/// A snapshot that is accepted continues the replay.
proof fn lemma_next_is_replayed(
    bytes: Seq<u8>,
    maximum: u64,
    events: Seq<MarketDataEvent>,
    position: int,
    snapshot: MarketSnapshot,
)
    requires
        are_replayed(bytes, maximum, events, position),
        is_record_at(bytes, events.len() as int, maximum),
        byte_length(snapshot.symbol@) <= MAX_MONITOR_REPLAY_SYMBOL_BYTES,
        events.len() < u64::MAX,
    ensures
        are_replayed(
            bytes,
            maximum,
            events.push(next_observation(events, snapshot)),
            record_end(bytes, position) + 1,
        ),
        instruments_of(events.push(next_observation(events, snapshot))) == instruments_of(
            events,
        ).push(instrument_of(snapshot)),
{
    let after = events.push(next_observation(events, snapshot));
    let (old_list, new_list) = (instruments_of(events), instruments_of(after));
    assert(new_list =~= old_list.push(instrument_of(snapshot)));
    assert forall|i: int| 0 <= i < after.len() implies #[trigger] is_observation_at(after, i) by {
        let instrument = instrument_of(after[i]->Observation_snapshot);
        lemma_times_seen_alike(old_list, new_list, i, instrument);
        if i < events.len() {
            assert(is_observation_at(events, i));
        }
    }
    assert forall|i: int| 0 <= i < after.len() implies #[trigger] is_record_at(
        bytes,
        i,
        maximum,
    ) by {}
}

/// The table holds the number of snapshots of each instrument.
spec fn counts_all(
    revisions: Seq<InstrumentRevision>,
    instruments: Seq<MarketInstrument>,
) -> bool {
    forall|instrument: MarketInstrument| #[trigger]
        revision_in(revisions, instrument) == times_seen(
            instruments,
            instruments.len() as int,
            instrument,
        )
}

proof fn lemma_counts_next(
    before: Seq<InstrumentRevision>,
    after: Seq<InstrumentRevision>,
    instruments: Seq<MarketInstrument>,
    instrument: MarketInstrument,
)
    requires
        counts_all(before, instruments),
        is_next_revision(before, after, instrument),
    ensures
        counts_all(after, instruments.push(instrument)),
{
    let longer = instruments.push(instrument);
    let n = instruments.len() as int;
    assert forall|other: MarketInstrument| #[trigger]
        revision_in(after, other) == times_seen(longer, longer.len() as int, other) by {
        lemma_times_seen_alike(instruments, longer, n, other);
        assert(revision_in(before, other) == times_seen(instruments, n, other));
        assert(longer[n] == instrument);
        assert(times_seen(longer, n + 1, other) == times_seen(longer, n, other)
            + if same_instrument(instrument, other) {
            1int
        } else {
            0int
        });
    }
}

/// A replay between two records.
#[derive(Debug)]
pub struct MarketSnapshotReplay {
    bytes: Vec<u8>,
    position: usize,
    maximum: u64,
    events: Vec<MarketDataEvent>,
    revisions: Vec<InstrumentRevision>,
}

/// A replay whose next record waits for the snapshot that it is read as.
#[derive(Debug)]
pub struct PendingRecord {
    replay: MarketSnapshotReplay,
    line: Vec<u8>,
}

/// What a replay goes on with.
#[derive(Debug)]
pub enum ReplayProgress {
    /// The file is over; these are its events.
    Finished(Vec<MarketDataEvent>),
    /// The next record.
    Record(PendingRecord),
}

impl MarketSnapshotReplay {
    pub closed spec fn bytes_view(self) -> Seq<u8> {
        self.bytes@
    }

    /// Where the next record starts.
    pub closed spec fn position_view(self) -> int {
        self.position as int
    }

    pub closed spec fn maximum_view(self) -> u64 {
        self.maximum
    }

    /// The events so far.
    pub closed spec fn events_view(self) -> Seq<MarketDataEvent> {
        self.events@
    }

    /// A replay stands between two records of a file that is not empty and ends
    /// with a line feed. It has one event for each record before it, and counts
    /// the snapshots of each instrument.
    #[verifier::type_invariant]
    pub closed spec fn is_framed(self) -> bool {
        &&& 0 < self.bytes@.len() <= MAX_MONITOR_REPLAY_BYTES
        &&& self.bytes@.last() == 10
        &&& self.position <= self.bytes@.len()
        &&& are_replayed(self.bytes@, self.maximum, self.events@, self.position as int)
        &&& counts_all(self.revisions@, instruments_of(self.events@))
    }

    /// What comes next of the file: the events once it is over, or its next
    /// record, once that is within its bounds and has none but the allowed
    /// fields.
    pub fn next_record(self) -> (r: Result<ReplayProgress, ReplayError>)
        ensures
            ({
                let record = (self.events_view().len() + 1) as u64;
                match next_record_of(
                    self.bytes_view(),
                    self.position_view(),
                    self.events_view().len() as int,
                    self.maximum_view(),
                ) {
                    NextRecord::End => {
                        &&& r is Ok
                        &&& r->Ok_0 is Finished
                        &&& r->Ok_0->Finished_0@ == self.events_view()
                        &&& is_whole_replay(
                            self.bytes_view(),
                            self.maximum_view(),
                            self.events_view(),
                        )
                    },
                    NextRecord::Record(line) => {
                        &&& r is Ok
                        &&& r->Ok_0 is Record
                        &&& r->Ok_0->Record_0.replay_view() == self
                        &&& r->Ok_0->Record_0.line_view() == line
                    },
                    NextRecord::EmptyRecord => r == Err::<ReplayProgress, _>(
                        ReplayError::EmptyRecord { record },
                    ),
                    NextRecord::RecordTooLarge => r == Err::<ReplayProgress, _>(
                        ReplayError::RecordTooLarge { record },
                    ),
                    NextRecord::TooManyEvents => r == Err::<ReplayProgress, _>(
                        ReplayError::TooManyEvents { maximum: self.maximum_view() },
                    ),
                    NextRecord::InvalidJson => r == Err::<ReplayProgress, _>(
                        ReplayError::InvalidJson { record },
                    ),
                    NextRecord::NotAnObject => r == Err::<ReplayProgress, _>(
                        ReplayError::NotAnObject { record },
                    ),
                    NextRecord::UnknownField(field) => {
                        &&& r is Err
                        &&& r->Err_0 is UnknownField
                        &&& r->Err_0->UnknownField_field@ == field
                        &&& r->Err_0->UnknownField_record == record
                    },
                }
            }),
    {
        proof {
            use_type_invariant(&self);
            lemma_records_before(self.bytes@, self.maximum, self.events@.len() as int);
        }
        if self.position == self.bytes.len() {
            proof {
                law_replay_has_one_event_for_each_line(self.bytes@, self.maximum, self.events@);
            }
            return Ok(ReplayProgress::Finished(self.events));
        }
        let from: usize = self.position;
        let end: usize = find_record_end(&self.bytes, from);
        proof {
            lemma_record_ends(self.bytes@, from as int);
        }
        let record: u64 = self.events.len() as u64 + 1;
        let line: Vec<u8> = if from < end && self.bytes[end - 1] == 13 {
            copy_bytes(&self.bytes, from, end - 1)
        } else {
            copy_bytes(&self.bytes, from, end)
        };
        if line.len() == 0 {
            return Err(ReplayError::EmptyRecord { record });
        }
        if line.len() >= MAX_MONITOR_REPLAY_RECORD_BYTES {
            return Err(ReplayError::RecordTooLarge { record });
        }
        if self.events.len() as u64 >= self.maximum {
            return Err(ReplayError::TooManyEvents { maximum: self.maximum });
        }
        match document_keys(&line) {
            None => Err(ReplayError::InvalidJson { record }),
            Some(None) => Err(ReplayError::NotAnObject { record }),
            Some(Some(fields)) => match find_unknown(&fields) {
                Some(field) => Err(ReplayError::UnknownField { field, record }),
                None => Ok(ReplayProgress::Record(PendingRecord { replay: self, line })),
            },
        }
    }
}

impl PendingRecord {
    /// The replay before the record.
    pub closed spec fn replay_view(self) -> MarketSnapshotReplay {
        self.replay
    }

    /// The record, without its line end.
    pub closed spec fn line_view(self) -> Seq<u8> {
        self.line@
    }

    /// The record is the next one of its replay.
    #[verifier::type_invariant]
    pub closed spec fn is_next(self) -> bool {
        next_record_of(
            self.replay.bytes@,
            self.replay.position as int,
            self.replay.events@.len() as int,
            self.replay.maximum,
        ) == NextRecord::Record(self.line@)
    }

    /// The record, without its line end.
    pub fn line(&self) -> (r: &Vec<u8>)
        ensures
            r@ == self.line_view(),
    {
        &self.line
    }

    /// Takes the snapshot that the record is read as, or nothing where it is
    /// none, and whether the snapshot's identity is valid. The snapshot becomes
    /// the replay's next event; a symbol that is too long is refused before an
    /// identity that is not valid.
    pub fn accept(self, snapshot: Option<MarketSnapshot>, valid_identity: bool) -> (r: Result<
        MarketSnapshotReplay,
        ReplayError,
    >)
        ensures
            ({
                let before = self.replay_view();
                let record = (before.events_view().len() + 1) as u64;
                match snapshot {
                    None => r == Err::<MarketSnapshotReplay, _>(
                        ReplayError::InvalidRecord { record },
                    ),
                    Some(found) => if byte_length(found.symbol@)
                        > MAX_MONITOR_REPLAY_SYMBOL_BYTES {
                        r == Err::<MarketSnapshotReplay, _>(ReplayError::SymbolTooLong { record })
                    } else if !valid_identity {
                        r == Err::<MarketSnapshotReplay, _>(
                            ReplayError::InvalidIdentity { record },
                        )
                    } else {
                        &&& r is Ok
                        &&& r->Ok_0.bytes_view() == before.bytes_view()
                        &&& r->Ok_0.maximum_view() == before.maximum_view()
                        &&& r->Ok_0.position_view() == record_end(
                            before.bytes_view(),
                            before.position_view(),
                        ) + 1
                        &&& r->Ok_0.events_view() == before.events_view().push(
                            next_observation(before.events_view(), found),
                        )
                    },
                }
            }),
    {
        proof {
            use_type_invariant(&self);
            use_type_invariant(&self.replay);
            lemma_records_before(
                self.replay.bytes@,
                self.replay.maximum,
                self.replay.events@.len() as int,
            );
        }
        let MarketSnapshotReplay { bytes, position, maximum, mut events, mut revisions } =
            self.replay;
        let ghost before = events@;
        let ghost table = revisions@;
        let record: u64 = events.len() as u64 + 1;
        let snapshot: MarketSnapshot = match snapshot {
            Some(snapshot) => snapshot,
            None => return Err(ReplayError::InvalidRecord { record }),
        };
        if byte_len(&snapshot.symbol) > MAX_MONITOR_REPLAY_SYMBOL_BYTES {
            return Err(ReplayError::SymbolTooLong { record });
        }
        if !valid_identity {
            return Err(ReplayError::InvalidIdentity { record });
        }
        let end: usize = find_record_end(&bytes, position);
        let instrument: MarketInstrument = MarketInstrument {
            exchange: snapshot.exchange.clone(),
            symbol: snapshot.symbol.clone(),
            market_type: snapshot.market_type,
        };
        proof {
            lemma_record_ends(bytes@, position as int);
            lemma_next_is_replayed(bytes@, maximum, before, position as int, snapshot);
            let instruments = instruments_of(before);
            lemma_times_seen_alike(
                instruments,
                instruments,
                instruments.len() as int,
                instrument,
            );
            assert(instrument == instrument_of(snapshot));
            assert(revision_in(table, instrument) == times_seen(
                instruments,
                instruments.len() as int,
                instrument,
            ));
        }
        match count_revision(&mut revisions, instrument) {
            None => Err(ReplayError::RevisionExhausted),
            Some(revision) => {
                proof {
                    lemma_counts_next(table, revisions@, instruments_of(before), instrument);
                }
                let received_at: Timestamp = snapshot.timestamp;
                events.push(MarketDataEvent::Observation { snapshot, revision, received_at });
                assert(events@ == before.push(next_observation(before, snapshot)));
                Ok(MarketSnapshotReplay { bytes, position: end + 1, maximum, events, revisions })
            },
        }
    }
}

/// Why a file is no replay, given its length before it was read.
pub open spec fn file_flaw(length: u64, bytes: Seq<u8>) -> Option<ReplayError> {
    if length > MAX_MONITOR_REPLAY_BYTES {
        Some(ReplayError::TooLarge { bytes: length })
    } else if bytes.len() > MAX_MONITOR_REPLAY_BYTES {
        Some(ReplayError::ReadLimitExceeded)
    } else if bytes.len() != length {
        Some(ReplayError::Changed)
    } else if bytes.len() == 0 {
        Some(ReplayError::Empty)
    } else if bytes[bytes.len() - 1] != 10 {
        Some(ReplayError::PartialFinalRecord)
    } else {
        None
    }
}

/// Starts the replay of a file, given its length before it was read and the
/// most events that it may hold.
pub fn load_market_snapshot_replay(length: u64, bytes: Vec<u8>, maximum: u64) -> (r: Result<
    MarketSnapshotReplay,
    ReplayError,
>)
    ensures
        match file_flaw(length, bytes@) {
            Some(error) => r == Err::<MarketSnapshotReplay, _>(error),
            None => {
                &&& r is Ok
                &&& r->Ok_0.bytes_view() == bytes@
                &&& r->Ok_0.position_view() == 0
                &&& r->Ok_0.maximum_view() == maximum
                &&& r->Ok_0.events_view() == Seq::<MarketDataEvent>::empty()
            },
        },
{
    if length > MAX_MONITOR_REPLAY_BYTES {
        return Err(ReplayError::TooLarge { bytes: length });
    }
    if bytes.len() as u64 > MAX_MONITOR_REPLAY_BYTES {
        return Err(ReplayError::ReadLimitExceeded);
    }
    if bytes.len() as u64 != length {
        return Err(ReplayError::Changed);
    }
    if bytes.len() == 0 {
        return Err(ReplayError::Empty);
    }
    if bytes[bytes.len() - 1] != 10 {
        return Err(ReplayError::PartialFinalRecord);
    }
    Ok(
        MarketSnapshotReplay {
            bytes,
            position: 0,
            maximum,
            events: Vec::new(),
            revisions: Vec::new(),
        },
    )
}

} // verus!
