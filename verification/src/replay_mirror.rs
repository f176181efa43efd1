//! The mirror of a replay: the latest snapshot of every instrument, and the
//! source that feeds it event by event.

use vstd::prelude::*;

use crate::domain::{is_instrument, MarketDataEvent, MarketSnapshot, MarketType, OrderIntent};
use crate::monitor::ReplayMarketDataClock;
use crate::paper_profile::DEFAULT_MAX_MARKET_AGE_SECONDS;
use crate::text::same_text;
use crate::timestamp::{later_of, Timestamp};

verus! {

/// The snapshot of an instrument among these; each instrument has one at most.
pub open spec fn snapshot_of(
    snapshots: Seq<MarketSnapshot>,
    exchange: Seq<char>,
    symbol: Seq<char>,
    market_type: MarketType,
) -> Option<MarketSnapshot>
    decreases snapshots.len(),
{
    if snapshots.len() == 0 {
        None
    } else if is_instrument(snapshots.last(), exchange, symbol, market_type) {
        Some(snapshots.last())
    } else {
        snapshot_of(snapshots.drop_last(), exchange, symbol, market_type)
    }
}

/// The two snapshots are of one instrument.
pub open spec fn is_same_market(a: MarketSnapshot, b: MarketSnapshot) -> bool {
    is_instrument(a, b.exchange@, b.symbol@, b.market_type)
}

/// No two snapshots are of one instrument.
pub open spec fn markets_are_distinct(snapshots: Seq<MarketSnapshot>) -> bool {
    forall|i: int, j: int|
        #![trigger snapshots[i], snapshots[j]]
        0 <= i < j < snapshots.len() ==> !is_same_market(snapshots[i], snapshots[j])
}

/// The snapshot at a place is the one of its instrument.
proof fn lemma_snapshot_at(
    snapshots: Seq<MarketSnapshot>,
    index: int,
    exchange: Seq<char>,
    symbol: Seq<char>,
    market_type: MarketType,
)
    requires
        markets_are_distinct(snapshots),
        0 <= index < snapshots.len(),
        is_instrument(snapshots[index], exchange, symbol, market_type),
    ensures
        snapshot_of(snapshots, exchange, symbol, market_type) == Some(snapshots[index]),
    decreases snapshots.len(),
{
    if index < snapshots.len() - 1 {
        let shorter = snapshots.drop_last();
        assert(!is_same_market(snapshots[index], snapshots[snapshots.len() - 1]));
        assert forall|i: int, j: int|
            #![trigger shorter[i], shorter[j]]
            0 <= i < j < shorter.len() implies !is_same_market(shorter[i], shorter[j]) by {
            assert(!is_same_market(snapshots[i], snapshots[j]));
        }
        assert(shorter[index] == snapshots[index]);
        lemma_snapshot_at(shorter, index, exchange, symbol, market_type);
    }
}

/// An instrument without a snapshot has none.
proof fn lemma_no_snapshot(
    snapshots: Seq<MarketSnapshot>,
    exchange: Seq<char>,
    symbol: Seq<char>,
    market_type: MarketType,
)
    requires
        forall|i: int|
            0 <= i < snapshots.len() ==> !is_instrument(
                #[trigger] snapshots[i],
                exchange,
                symbol,
                market_type,
            ),
    ensures
        snapshot_of(snapshots, exchange, symbol, market_type) is None,
    decreases snapshots.len(),
{
    if snapshots.len() > 0 {
        let shorter = snapshots.drop_last();
        assert forall|i: int| 0 <= i < shorter.len() implies !is_instrument(
            #[trigger] shorter[i],
            exchange,
            symbol,
            market_type,
        ) by {
            assert(shorter[i] == snapshots[i]);
        }
        assert(!is_instrument(
            snapshots[snapshots.len() - 1],
            exchange,
            symbol,
            market_type,
        ));
        lemma_no_snapshot(shorter, exchange, symbol, market_type);
    }
}

/// The place of the snapshot of an instrument.
fn place_of(
    snapshots: &Vec<MarketSnapshot>,
    exchange: &str,
    symbol: &str,
    market_type: MarketType,
) -> (r: Option<usize>)
    requires
        markets_are_distinct(snapshots@),
    ensures
        match r {
            None => {
                &&& snapshot_of(snapshots@, exchange@, symbol@, market_type) is None
                &&& forall|i: int|
                    0 <= i < snapshots@.len() ==> !is_instrument(
                        #[trigger] snapshots@[i],
                        exchange@,
                        symbol@,
                        market_type,
                    )
            },
            Some(index) => {
                &&& index < snapshots@.len()
                &&& is_instrument(snapshots@[index as int], exchange@, symbol@, market_type)
                &&& snapshot_of(snapshots@, exchange@, symbol@, market_type) == Some(
                    snapshots@[index as int],
                )
            },
        },
{
    let mut i: usize = 0;
    while i < snapshots.len()
        invariant
            i <= snapshots@.len(),
            markets_are_distinct(snapshots@),
            forall|k: int|
                0 <= k < i ==> !is_instrument(
                    #[trigger] snapshots@[k],
                    exchange@,
                    symbol@,
                    market_type,
                ),
        decreases snapshots.len() - i,
    {
        if snapshots[i].matches(exchange, symbol, market_type) {
            proof {
                lemma_snapshot_at(snapshots@, i as int, exchange@, symbol@, market_type);
            }
            return Some(i);
        }
        i = i + 1;
    }
    proof {
        lemma_no_snapshot(snapshots@, exchange@, symbol@, market_type);
    }
    None
}

/// An order without a snapshot of its instrument.
#[derive(Debug)]
pub struct MissingMarketData {
    pub exchange: String,
    pub symbol: String,
    pub market_type: MarketType,
}

/// The latest snapshot of every instrument of a replay.
#[derive(Debug)]
pub struct MirroredReplayState {
    latest: Vec<MarketSnapshot>,
}

/// The order's instrument has a snapshot.
pub open spec fn is_priced(snapshots: Seq<MarketSnapshot>, intent: OrderIntent) -> bool {
    snapshot_of(snapshots, intent.exchange@, intent.symbol@, intent.market_type) is Some
}

/// The first order without a snapshot is this one.
pub open spec fn is_first_unpriced(
    snapshots: Seq<MarketSnapshot>,
    intents: Seq<OrderIntent>,
    index: int,
) -> bool {
    &&& 0 <= index < intents.len()
    &&& !is_priced(snapshots, intents[index])
    &&& forall|i: int| 0 <= i < index ==> is_priced(snapshots, #[trigger] intents[i])
}

/// The snapshot is the latest of the instrument of one of the orders.
pub open spec fn is_wanted(
    latest: Seq<MarketSnapshot>,
    intents: Seq<OrderIntent>,
    snapshot: MarketSnapshot,
) -> bool {
    exists|i: int|
        0 <= i < intents.len() && snapshot_of(
            latest,
            (#[trigger] intents[i]).exchange@,
            intents[i].symbol@,
            intents[i].market_type,
        ) == Some(snapshot)
}

/// The snapshots are the latest ones of the instruments of the orders, each
/// instrument once.
pub open spec fn are_snapshots_for(
    selected: Seq<MarketSnapshot>,
    latest: Seq<MarketSnapshot>,
    intents: Seq<OrderIntent>,
) -> bool {
    &&& markets_are_distinct(selected)
    &&& forall|i: int|
        0 <= i < intents.len() ==> snapshot_of(
            selected,
            (#[trigger] intents[i]).exchange@,
            intents[i].symbol@,
            intents[i].market_type,
        ) == snapshot_of(
            latest,
            intents[i].exchange@,
            intents[i].symbol@,
            intents[i].market_type,
        )
    &&& forall|k: int|
        0 <= k < selected.len() ==> is_wanted(latest, intents, #[trigger] selected[k])
}

impl MirroredReplayState {
    #[verifier::type_invariant]
    pub closed spec fn is_sound(self) -> bool {
        markets_are_distinct(self.latest@)
    }

    /// The latest snapshots.
    pub closed spec fn latest_view(self) -> Seq<MarketSnapshot> {
        self.latest@
    }

    /// A mirror that has seen nothing.
    pub fn new() -> (r: MirroredReplayState)
        ensures
            r.latest_view() == Seq::<MarketSnapshot>::empty(),
    {
        MirroredReplayState { latest: Vec::new() }
    }

    /// Makes a snapshot the latest of its instrument.
    pub fn update(&mut self, snapshot: MarketSnapshot)
        ensures
            forall|exchange: Seq<char>, symbol: Seq<char>, market_type: MarketType| #[trigger]
                snapshot_of(final(self).latest_view(), exchange, symbol, market_type)
                    == if is_instrument(snapshot, exchange, symbol, market_type) {
                    Some(snapshot)
                } else {
                    snapshot_of(old(self).latest_view(), exchange, symbol, market_type)
                },
    {
        proof {
            use_type_invariant(&*self);
        }
        let ghost before = self.latest@;
        let mut latest: Vec<MarketSnapshot> = Vec::new();
        std::mem::swap(&mut latest, &mut self.latest);
        let place: Option<usize> = place_of(
            &latest,
            &snapshot.exchange,
            &snapshot.symbol,
            snapshot.market_type,
        );
        match place {
            None => {
                latest.push(snapshot);
                proof {
                    assert forall|i: int, j: int|
                        #![trigger latest@[i], latest@[j]]
                        0 <= i < j < latest@.len() implies !is_same_market(
                        latest@[i],
                        latest@[j],
                    ) by {
                        if j == before.len() {
                            assert(!is_instrument(
                                before[i],
                                snapshot.exchange@,
                                snapshot.symbol@,
                                snapshot.market_type,
                            ));
                        } else {
                            assert(!is_same_market(before[i], before[j]));
                        }
                    }
                    assert(latest@.drop_last() =~= before);
                }
            },
            Some(index) => {
                latest.set(index, snapshot);
                proof {
                    lemma_replaced(before, index as int, snapshot);
                }
            },
        }
        self.latest = latest;
    }

    /// The latest snapshots of the instruments of a batch of orders, each
    /// instrument once; the first order without one is the error.
    pub fn snapshots_for_batch(&self, intents: &Vec<OrderIntent>) -> (r: Result<
        Vec<MarketSnapshot>,
        MissingMarketData,
    >)
        ensures
            r is Ok <==> forall|i: int|
                0 <= i < intents@.len() ==> is_priced(self.latest_view(), #[trigger] intents@[i]),
            r is Ok ==> are_snapshots_for(r->Ok_0@, self.latest_view(), intents@),
            r is Err ==> exists|index: int| #[trigger]
                is_first_unpriced(self.latest_view(), intents@, index) && {
                    &&& r->Err_0.exchange@ == intents@[index].exchange@
                    &&& r->Err_0.symbol@ == intents@[index].symbol@
                    &&& r->Err_0.market_type == intents@[index].market_type
                },
    {
        proof {
            use_type_invariant(self);
        }
        let mut selected: Vec<MarketSnapshot> = Vec::new();
        let mut i: usize = 0;
        assert(intents@.take(0) =~= Seq::empty());
        while i < intents.len()
            invariant
                i <= intents@.len(),
                markets_are_distinct(self.latest@),
                forall|k: int|
                    0 <= k < i ==> is_priced(self.latest_view(), #[trigger] intents@[k]),
                are_snapshots_for(selected@, self.latest@, intents@.take(i as int)),
            decreases intents.len() - i,
        {
            let intent: &OrderIntent = &intents[i];
            match place_of(&self.latest, &intent.exchange, &intent.symbol, intent.market_type) {
                None => {
                    assert(is_first_unpriced(self.latest_view(), intents@, i as int));
                    return Err(
                        MissingMarketData {
                            exchange: intent.exchange.clone(),
                            symbol: intent.symbol.clone(),
                            market_type: intent.market_type,
                        },
                    );
                },
                Some(index) => {
                    let ghost before = selected@;
                    let held: Option<usize> = place_of(
                        &selected,
                        &intent.exchange,
                        &intent.symbol,
                        intent.market_type,
                    );
                    if held.is_none() {
                        selected.push(self.latest[index].copy());
                    }
                    proof {
                        lemma_selected(
                            before,
                            self.latest@,
                            intents@,
                            i as int,
                            index as int,
                            held,
                            selected@,
                        );
                    }
                },
            }
            i = i + 1;
        }
        assert(intents@.take(i as int) =~= intents@);
        Ok(selected)
    }
}

/// Replacing the snapshot of an instrument changes that instrument only.
proof fn lemma_replaced(before: Seq<MarketSnapshot>, index: int, snapshot: MarketSnapshot)
    requires
        markets_are_distinct(before),
        0 <= index < before.len(),
        is_same_market(before[index], snapshot),
    ensures
        markets_are_distinct(before.update(index, snapshot)),
        forall|exchange: Seq<char>, symbol: Seq<char>, market_type: MarketType| #[trigger]
            snapshot_of(before.update(index, snapshot), exchange, symbol, market_type)
                == if is_instrument(snapshot, exchange, symbol, market_type) {
                Some(snapshot)
            } else {
                snapshot_of(before, exchange, symbol, market_type)
            },
{
    let after = before.update(index, snapshot);
    assert forall|i: int, j: int|
        #![trigger after[i], after[j]]
        0 <= i < j < after.len() implies !is_same_market(after[i], after[j]) by {
        assert(!is_same_market(before[i], before[j]));
    }
    assert forall|exchange: Seq<char>, symbol: Seq<char>, market_type: MarketType| #[trigger]
        snapshot_of(after, exchange, symbol, market_type) == if is_instrument(
            snapshot,
            exchange,
            symbol,
            market_type,
        ) {
            Some(snapshot)
        } else {
            snapshot_of(before, exchange, symbol, market_type)
        } by {
        if is_instrument(snapshot, exchange, symbol, market_type) {
            lemma_snapshot_at(after, index, exchange, symbol, market_type);
        } else {
            lemma_other_snapshots_stay(before, index, snapshot, exchange, symbol, market_type);
        }
    }
}

/// An instrument that neither the old nor the new snapshot is of keeps its own.
proof fn lemma_other_snapshots_stay(
    before: Seq<MarketSnapshot>,
    index: int,
    snapshot: MarketSnapshot,
    exchange: Seq<char>,
    symbol: Seq<char>,
    market_type: MarketType,
)
    requires
        0 <= index < before.len(),
        !is_instrument(before[index], exchange, symbol, market_type),
        !is_instrument(snapshot, exchange, symbol, market_type),
    ensures
        snapshot_of(before.update(index, snapshot), exchange, symbol, market_type) == snapshot_of(
            before,
            exchange,
            symbol,
            market_type,
        ),
    decreases before.len(),
{
    let after = before.update(index, snapshot);
    if index < before.len() - 1 {
        lemma_other_snapshots_stay(
            before.drop_last(),
            index,
            snapshot,
            exchange,
            symbol,
            market_type,
        );
        assert(after.drop_last() =~= before.drop_last().update(index, snapshot));
    } else {
        assert(after.drop_last() =~= before.drop_last());
    }
}

/// One more order adds the snapshot of its instrument, unless it is there.
proof fn lemma_selected(
    before: Seq<MarketSnapshot>,
    latest: Seq<MarketSnapshot>,
    intents: Seq<OrderIntent>,
    i: int,
    index: int,
    held: Option<usize>,
    after: Seq<MarketSnapshot>,
)
    requires
        0 <= i < intents.len(),
        markets_are_distinct(latest),
        are_snapshots_for(before, latest, intents.take(i)),
        0 <= index < latest.len(),
        is_instrument(
            latest[index],
            intents[i].exchange@,
            intents[i].symbol@,
            intents[i].market_type,
        ),
        snapshot_of(latest, intents[i].exchange@, intents[i].symbol@, intents[i].market_type)
            == Some(latest[index]),
        match held {
            Some(place) => {
                &&& after == before
                &&& place < before.len()
                &&& is_instrument(
                    before[place as int],
                    intents[i].exchange@,
                    intents[i].symbol@,
                    intents[i].market_type,
                )
                &&& snapshot_of(
                    before,
                    intents[i].exchange@,
                    intents[i].symbol@,
                    intents[i].market_type,
                ) == Some(before[place as int])
            },
            None => {
                &&& after == before.push(latest[index])
                &&& forall|k: int|
                    0 <= k < before.len() ==> !is_instrument(
                        #[trigger] before[k],
                        intents[i].exchange@,
                        intents[i].symbol@,
                        intents[i].market_type,
                    )
            },
        },
    ensures
        are_snapshots_for(after, latest, intents.take(i + 1)),
{
    let (shorter, longer) = (intents.take(i), intents.take(i + 1));
    assert(longer[i] == intents[i]);
    assert forall|k: int| 0 <= k < after.len() implies is_wanted(
        latest,
        longer,
        #[trigger] after[k],
    ) by {
        if k < before.len() {
            assert(is_wanted(latest, shorter, before[k]));
            let c = choose|c: int|
                0 <= c < shorter.len() && snapshot_of(
                    latest,
                    (#[trigger] shorter[c]).exchange@,
                    shorter[c].symbol@,
                    shorter[c].market_type,
                ) == Some(before[k]);
            assert(longer[c] == shorter[c]);
        } else {
            assert(longer[i] == intents[i]);
        }
    }
    match held {
        Some(place) => {
            let kept = before[place as int];
            assert(is_wanted(latest, shorter, kept));
            let c = choose|c: int|
                0 <= c < shorter.len() && snapshot_of(
                    latest,
                    (#[trigger] shorter[c]).exchange@,
                    shorter[c].symbol@,
                    shorter[c].market_type,
                ) == Some(kept);
            lemma_found_is_instrument(
                latest,
                shorter[c].exchange@,
                shorter[c].symbol@,
                shorter[c].market_type,
            );
        },
        None => {
            assert(after.drop_last() =~= before);
            assert forall|a: int, b: int|
                #![trigger after[a], after[b]]
                0 <= a < b < after.len() implies !is_same_market(after[a], after[b]) by {
                if b < before.len() {
                    assert(!is_same_market(before[a], before[b]));
                } else {
                    assert(!is_instrument(
                        before[a],
                        intents[i].exchange@,
                        intents[i].symbol@,
                        intents[i].market_type,
                    ));
                }
            }
        },
    }
    assert forall|k: int| 0 <= k < longer.len() implies snapshot_of(
        after,
        (#[trigger] longer[k]).exchange@,
        longer[k].symbol@,
        longer[k].market_type,
    ) == snapshot_of(
        latest,
        longer[k].exchange@,
        longer[k].symbol@,
        longer[k].market_type,
    ) by {
        if k < i {
            assert(shorter[k] == longer[k]);
        }
    }
}

/// The snapshot of an instrument is of that instrument.
proof fn lemma_found_is_instrument(
    snapshots: Seq<MarketSnapshot>,
    exchange: Seq<char>,
    symbol: Seq<char>,
    market_type: MarketType,
)
    requires
        snapshot_of(snapshots, exchange, symbol, market_type) is Some,
    ensures
        is_instrument(
            snapshot_of(snapshots, exchange, symbol, market_type)->0,
            exchange,
            symbol,
            market_type,
        ),
    decreases snapshots.len(),
{
    if !is_instrument(snapshots.last(), exchange, symbol, market_type) {
        lemma_found_is_instrument(snapshots.drop_last(), exchange, symbol, market_type);
    }
}

/// All orders of a batch are for this exchange.
pub open spec fn are_for_exchange(intents: Seq<OrderIntent>, exchange: Seq<char>) -> bool {
    forall|i: int| 0 <= i < intents.len() ==> (#[trigger] intents[i]).exchange@ == exchange
}

/// All orders of a batch are for the one exchange that executes it.
pub fn serves_batch(exchange: &str, intents: &Vec<OrderIntent>) -> (r: bool)
    ensures
        r == are_for_exchange(intents@, exchange@),
{
    let mut i: usize = 0;
    while i < intents.len()
        invariant
            i <= intents@.len(),
            forall|k: int| 0 <= k < i ==> (#[trigger] intents@[k]).exchange@ == exchange@,
        decreases intents.len() - i,
    {
        if !same_text(&intents[i].exchange, exchange) {
            return false;
        }
        i = i + 1;
    }
    true
}

/// What a mirrored exchange executes a batch against.
#[derive(Debug)]
pub struct ReplayExecutionPolicy {
    pub now: Timestamp,
    pub max_market_age_seconds: u64,
    pub snapshots: Vec<MarketSnapshot>,
}

/// Why a batch is not handed to the mirrored exchanges.
#[derive(Debug)]
pub enum ReplayExecutionError {
    MissingMarketData(MissingMarketData),
    /// Some order is not for the one exchange that executes the batch.
    UnknownExchange { exchange: String },
}

/// Every order has a snapshot of its instrument.
pub open spec fn are_priced(snapshots: Seq<MarketSnapshot>, intents: Seq<OrderIntent>) -> bool {
    forall|i: int| 0 <= i < intents.len() ==> is_priced(snapshots, #[trigger] intents[i])
}

/// What a batch is executed against: the clock's time, and the latest snapshots
/// of its instruments. `exchange` is the one exchange that executes it, where
/// there is only one. An order without a snapshot is found before an order for
/// another exchange.
pub fn execution_policy(
    exchange: Option<&str>,
    clock: &ReplayMarketDataClock,
    latest: &MirroredReplayState,
    intents: &Vec<OrderIntent>,
) -> (r: Result<ReplayExecutionPolicy, ReplayExecutionError>)
    ensures
        if !are_priced(latest.latest_view(), intents@) {
            &&& r is Err
            &&& r->Err_0 is MissingMarketData
            &&& exists|index: int| #[trigger]
                is_first_unpriced(latest.latest_view(), intents@, index) && {
                    let missing = r->Err_0->MissingMarketData_0;
                    &&& missing.exchange@ == intents@[index].exchange@
                    &&& missing.symbol@ == intents@[index].symbol@
                    &&& missing.market_type == intents@[index].market_type
                }
        } else if exchange is Some && !are_for_exchange(intents@, exchange->0@) {
            &&& r is Err
            &&& r->Err_0 is UnknownExchange
            &&& r->Err_0->exchange@ == exchange->0@
        } else {
            &&& r is Ok
            &&& r->Ok_0.now == clock.now_view()
            &&& r->Ok_0.max_market_age_seconds == DEFAULT_MAX_MARKET_AGE_SECONDS
            &&& are_snapshots_for(r->Ok_0.snapshots@, latest.latest_view(), intents@)
        },
{
    let snapshots: Vec<MarketSnapshot> = match latest.snapshots_for_batch(intents) {
        Ok(snapshots) => snapshots,
        Err(missing) => return Err(ReplayExecutionError::MissingMarketData(missing)),
    };
    if let Some(name) = exchange {
        if !serves_batch(name, intents) {
            return Err(ReplayExecutionError::UnknownExchange { exchange: name.to_owned() });
        }
    }
    Ok(
        ReplayExecutionPolicy {
            now: clock.now(),
            max_market_age_seconds: DEFAULT_MAX_MARKET_AGE_SECONDS,
            snapshots,
        },
    )
}

/// One source of a replay.
#[derive(Debug)]
pub struct MirroredReplaySource {
    pub source_id: String,
    /// The events that are still to come.
    pub events: Vec<MarketDataEvent>,
}

/// What the source comes to next.
#[derive(Debug)]
pub enum NextReplayEvent {
    /// Nothing is left; the source stays silent.
    Pending,
    /// To publish the snapshot to the mirrored exchanges before the event goes on.
    Publish(MarketDataEvent),
    Deliver(MarketDataEvent),
}

/// An exchange did not take a snapshot.
#[derive(Debug)]
pub struct SourceEventTimeRollback {
    pub exchange: String,
}

impl MirroredReplaySource {
    /// Takes the next event out: the clock is advanced to it, and a snapshot
    /// becomes the latest of its instrument.
    pub fn next_event(
        &mut self,
        clock: &mut ReplayMarketDataClock,
        latest: &mut MirroredReplayState,
    ) -> (r: NextReplayEvent)
        ensures
            final(self).source_id == old(self).source_id,
            old(self).events@.len() == 0 ==> {
                &&& r is Pending
                &&& final(self).events@ == old(self).events@
                &&& *final(clock) == *old(clock)
                &&& *final(latest) == *old(latest)
            },
            old(self).events@.len() > 0 ==> {
                &&& final(self).events@ == old(self).events@.skip(1)
                &&& match old(self).events@[0] {
                    MarketDataEvent::Observation { snapshot, received_at, .. } => {
                        &&& r == NextReplayEvent::Publish(old(self).events@[0])
                        &&& final(clock).now_view() == later_of(old(clock).now_view(), received_at)
                        &&& forall|
                            exchange: Seq<char>,
                            symbol: Seq<char>,
                            market_type: MarketType,
                        | #[trigger]
                            snapshot_of(final(latest).latest_view(), exchange, symbol, market_type)
                                == if is_instrument(snapshot, exchange, symbol, market_type) {
                                Some(snapshot)
                            } else {
                                snapshot_of(
                                    old(latest).latest_view(),
                                    exchange,
                                    symbol,
                                    market_type,
                                )
                            }
                    },
                    MarketDataEvent::SourceGap { observed_at, .. } => {
                        &&& r == NextReplayEvent::Deliver(old(self).events@[0])
                        &&& final(clock).now_view() == later_of(old(clock).now_view(), observed_at)
                        &&& *final(latest) == *old(latest)
                    },
                    MarketDataEvent::SourceUnavailable { observed_at, .. } => {
                        &&& r == NextReplayEvent::Deliver(old(self).events@[0])
                        &&& final(clock).now_view() == later_of(old(clock).now_view(), observed_at)
                        &&& *final(latest) == *old(latest)
                    },
                }
            },
    {
        if self.events.len() == 0 {
            return NextReplayEvent::Pending;
        }
        let event: MarketDataEvent = self.events.remove(0);
        assert(self.events@ =~= old(self).events@.skip(1));
        match &event {
            MarketDataEvent::Observation { snapshot, received_at, .. } => {
                clock.advance(*received_at);
                latest.update(snapshot.copy());
                NextReplayEvent::Publish(event)
            },
            MarketDataEvent::SourceGap { observed_at, .. }
            | MarketDataEvent::SourceUnavailable { observed_at, .. } => {
                clock.advance(*observed_at);
                NextReplayEvent::Deliver(event)
            },
        }
    }

    /// What becomes of an event whose snapshot was offered to the exchanges.
    pub fn published(&self, event: MarketDataEvent, taken: bool) -> (r: Result<
        MarketDataEvent,
        SourceEventTimeRollback,
    >)
        ensures
            r == if taken {
                Ok::<MarketDataEvent, SourceEventTimeRollback>(event)
            } else {
                Err(SourceEventTimeRollback { exchange: self.source_id })
            },
    {
        if taken {
            Ok(event)
        } else {
            Err(SourceEventTimeRollback { exchange: self.source_id.clone() })
        }
    }
}

} // verus!
