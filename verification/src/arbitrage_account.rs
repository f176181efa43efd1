//! What an arbitrage owner reads from the paper account: which lots are its
//! own, whether an instrument is free of others, and the position it holds.

use crate::arbitrage_plan::{ArbitrageDirection, ArbitrageState};
use crate::decimal::{same_number, sum_of, Decimal};
use crate::domain::{OrderIntent, Side};
use crate::operations::{operation_prefix, owner_operation_sequence, prefix_of, sequence_of};
use crate::paper_account::{
    any_failed_reconciliation, any_open_outcome, find_sole_reservation, has_failed_reconciliation,
    has_open_outcome, sole_reservation, PaperAccountSnapshot, PaperLot, PaperReservation,
    PaperReservationPhase,
};
use crate::paper_arbitrage_task::ArbitragePaperTaskError;
use crate::text::same_text;
use vstd::prelude::*;

verus! {

/// Whether one of the owner's own settled operations opened the lot; nothing
/// where its reservation is missing, not the only one of its kind, or the
/// owner's but not committed.
pub open spec fn lot_is_owned(
    reservations: Seq<PaperReservation>,
    lot: PaperLot,
    prefix: Seq<char>,
) -> Option<bool> {
    match sole_reservation(reservations, lot.source_reservation_id) {
        None => None,
        Some(source) => {
            let own = sequence_of(source.task_id@, prefix) is Some;
            if own && source.phase != PaperReservationPhase::Committed {
                None
            } else {
                Some(own)
            }
        },
    }
}

/// Whether one of the owner's own settled operations opened the lot.
pub fn lot_source_is_owned_by(
    reservations: &Vec<PaperReservation>,
    lot: &PaperLot,
    owner_prefix: &str,
) -> (r: Option<bool>)
    ensures
        r == lot_is_owned(reservations@, *lot, owner_prefix@),
{
    match find_sole_reservation(reservations, lot.source_reservation_id) {
        None => None,
        Some(place) => {
            let own: bool = owner_operation_sequence(
                &reservations[place].task_id,
                owner_prefix,
            ).is_some();
            if own && reservations[place].phase != PaperReservationPhase::Committed {
                None
            } else {
                Some(own)
            }
        },
    }
}

/// The lot lies in the instrument that the order trades.
pub open spec fn lot_meets_order(lot: PaperLot, intent: OrderIntent) -> bool {
    lot.exchange@ == intent.exchange@ && lot.symbol@ == intent.symbol@ && lot.market_type
        == intent.market_type
}

/// No lot of another owner, and none of unclear origin, lies in an instrument
/// that the orders trade.
pub open spec fn is_isolated(
    snapshot: PaperAccountSnapshot,
    prefix: Seq<char>,
    intents: Seq<OrderIntent>,
) -> bool {
    forall|i: int, j: int|
        0 <= i < intents.len() && 0 <= j < snapshot.open_lots@.len() && #[trigger] lot_meets_order(
            snapshot.open_lots@[j],
            intents[i],
        ) ==> lot_is_owned(snapshot.reservations@, snapshot.open_lots@[j], prefix) == Some(true)
}

/// The orders trade instruments that no other owner holds lots in. Settlement
/// consumes the lots of an instrument in one queue, whoever opened them, so a
/// foreign lot on either side would leave the owners mixed.
pub fn ensure_operation_fifo_isolation(
    snapshot: &PaperAccountSnapshot,
    owner_task_id: &str,
    intents: &Vec<OrderIntent>,
) -> (r: Result<(), ArbitragePaperTaskError>)
    ensures
        r == if is_isolated(*snapshot, prefix_of(owner_task_id@), intents@) {
            Ok::<(), ArbitragePaperTaskError>(())
        } else {
            Err(ArbitragePaperTaskError::RecoveryRequired)
        },
{
    let prefix: String = operation_prefix(owner_task_id);
    let mut i: usize = 0;
    while i < intents.len()
        invariant
            i <= intents.len(),
            prefix@ == prefix_of(owner_task_id@),
            forall|k: int, j: int|
                0 <= k < i && 0 <= j < snapshot.open_lots@.len() && #[trigger] lot_meets_order(
                    snapshot.open_lots@[j],
                    intents@[k],
                ) ==> lot_is_owned(snapshot.reservations@, snapshot.open_lots@[j], prefix@) == Some(
                    true,
                ),
        decreases intents.len() - i,
    {
        let intent: &OrderIntent = &intents[i];
        let mut n: usize = 0;
        while n < snapshot.open_lots.len()
            invariant
                n <= snapshot.open_lots.len(),
                i < intents@.len(),
                *intent == intents@[i as int],
                prefix@ == prefix_of(owner_task_id@),
                forall|j: int|
                    0 <= j < n && #[trigger] lot_meets_order(
                        snapshot.open_lots@[j],
                        *intent,
                    ) ==> lot_is_owned(snapshot.reservations@, snapshot.open_lots@[j], prefix@)
                        == Some(true),
            decreases snapshot.open_lots.len() - n,
        {
            let lot: &PaperLot = &snapshot.open_lots[n];
            let meets: bool = same_text(&lot.exchange, &intent.exchange) && same_text(
                &lot.symbol,
                &intent.symbol,
            ) && lot.market_type == intent.market_type;
            assert(meets == lot_meets_order(snapshot.open_lots@[n as int], intents@[i as int]));
            if meets {
                match lot_source_is_owned_by(&snapshot.reservations, lot, &prefix) {
                    Some(true) => {},
                    _ => return Err(ArbitragePaperTaskError::RecoveryRequired),
                }
            }
            n = n + 1;
        }
        i = i + 1;
    }
    Ok(())
}

/// The account can be decided on: its projection is complete, every outcome is
/// final and no reconciliation failed.
pub open spec fn account_is_settled(snapshot: PaperAccountSnapshot) -> bool {
    snapshot.projection_complete && !has_open_outcome(snapshot.reservations@)
        && !has_failed_reconciliation(snapshot.reservations@)
}

pub fn is_account_settled(snapshot: &PaperAccountSnapshot) -> (r: bool)
    ensures
        r == account_is_settled(*snapshot),
{
    snapshot.projection_complete && !any_open_outcome(&snapshot.reservations)
        && !any_failed_reconciliation(&snapshot.reservations)
}

/// The lots that the owner's own operations opened, in the account's order;
/// nothing where some lot is of unclear origin.
pub open spec fn owned_lots(
    reservations: Seq<PaperReservation>,
    lots: Seq<PaperLot>,
    prefix: Seq<char>,
) -> Option<Seq<PaperLot>>
    decreases lots.len(),
{
    if lots.len() == 0 {
        Some(Seq::empty())
    } else {
        match (
            owned_lots(reservations, lots.drop_last(), prefix),
            lot_is_owned(reservations, lots.last(), prefix),
        ) {
            (Some(before), Some(own)) => Some(
                if own {
                    before.push(lots.last())
                } else {
                    before
                },
            ),
            _ => None,
        }
    }
}

/// The lots that others opened, in the account's order.
pub open spec fn foreign_lots(
    reservations: Seq<PaperReservation>,
    lots: Seq<PaperLot>,
    prefix: Seq<char>,
) -> Seq<PaperLot>
    decreases lots.len(),
{
    if lots.len() == 0 {
        Seq::empty()
    } else {
        let before = foreign_lots(reservations, lots.drop_last(), prefix);
        if lot_is_owned(reservations, lots.last(), prefix) == Some(false) {
            before.push(lots.last())
        } else {
            before
        }
    }
}

proof fn lemma_owned_stays_none(
    reservations: Seq<PaperReservation>,
    lots: Seq<PaperLot>,
    prefix: Seq<char>,
    k: int,
)
    requires
        0 <= k <= lots.len(),
        owned_lots(reservations, lots.take(k), prefix) is None,
    ensures
        owned_lots(reservations, lots, prefix) is None,
    decreases lots.len(),
{
    if k == lots.len() {
        assert(lots.take(k) =~= lots);
    } else {
        assert(lots.drop_last().take(k) =~= lots.take(k));
        lemma_owned_stays_none(reservations, lots.drop_last(), prefix, k);
    }
}

/// The first lot on a side.
pub open spec fn first_on(lots: Seq<PaperLot>, side: Side) -> Option<PaperLot>
    decreases lots.len(),
{
    if lots.len() == 0 {
        None
    } else {
        match first_on(lots.drop_last(), side) {
            Some(lot) => Some(lot),
            None => if lots.last().side == side {
                Some(lots.last())
            } else {
                None
            },
        }
    }
}

/// What the lots on a side hold together.
pub open spec fn held_on(lots: Seq<PaperLot>, side: Side) -> Option<(i128, u32)>
    decreases lots.len(),
{
    if lots.len() == 0 {
        Some((0i128, 0u32))
    } else {
        match held_on(lots.drop_last(), side) {
            None => None,
            Some(before) => if lots.last().side == side {
                sum_of(before, lots.last().remaining_quantity@)
            } else {
                Some(before)
            },
        }
    }
}

/// The lots lie in one instrument.
pub open spec fn same_instrument(a: PaperLot, b: PaperLot) -> bool {
    a.exchange@ == b.exchange@ && a.symbol@ == b.symbol@ && a.market_type == b.market_type
}

fn is_same_instrument(a: &PaperLot, b: &PaperLot) -> (r: bool)
    ensures
        r == same_instrument(*a, *b),
{
    same_text(&a.exchange, &b.exchange) && same_text(&a.symbol, &b.symbol) && a.market_type
        == b.market_type
}

/// Every lot lies in the instrument of the first one on its side.
pub open spec fn one_instrument_a_side(lots: Seq<PaperLot>, buy: PaperLot, sell: PaperLot) -> bool {
    forall|i: int|
        0 <= i < lots.len() ==> same_instrument(
            #[trigger] lots[i],
            if lots[i].side == Side::Buy {
                buy
            } else {
                sell
            },
        )
}

/// A foreign lot waits in the same queue as one of the two.
pub open spec fn shares_a_queue(foreign: PaperLot, buy: PaperLot, sell: PaperLot) -> bool {
    ||| same_instrument(foreign, buy) && foreign.side == buy.side
    ||| same_instrument(foreign, sell) && foreign.side == sell.side
}

/// The two legs and the size of a hedged position.
pub struct HedgedPosition {
    pub buy: PaperLot,
    pub sell: PaperLot,
    pub quantity: (i128, u32),
}

/// The position that the owner's lots make up: none, or one hedged pair of
/// equal size on two exchanges whose queues no other owner shares. Nothing
/// where they make up neither.
pub open spec fn position_in(snapshot: PaperAccountSnapshot, prefix: Seq<char>) -> Option<
    Option<HedgedPosition>,
> {
    match owned_lots(snapshot.reservations@, snapshot.open_lots@, prefix) {
        None => None,
        Some(own) => if own.len() == 0 {
            Some(None)
        } else {
            match (
                first_on(own, Side::Buy),
                first_on(own, Side::Sell),
                held_on(own, Side::Buy),
                held_on(own, Side::Sell),
            ) {
                (Some(buy), Some(sell), Some(bought), Some(sold)) => {
                    let foreign = foreign_lots(snapshot.reservations@, snapshot.open_lots@, prefix);
                    if one_instrument_a_side(own, buy, sell) && buy.symbol@ == sell.symbol@
                        && same_number(bought, sold) && bought.0 > 0 && buy.exchange@
                        != sell.exchange@ && (forall|i: int|
                        0 <= i < foreign.len() ==> !shares_a_queue(
                            #[trigger] foreign[i],
                            buy,
                            sell,
                        )) {
                        Some(Some(HedgedPosition { buy, sell, quantity: bought }))
                    } else {
                        None
                    }
                },
                _ => None,
            }
        },
    }
}

/// The state holds the position.
pub open spec fn state_holds(state: ArbitrageState, position: Option<HedgedPosition>) -> bool {
    match position {
        None => state.position_quantity@ == (0i128, 0u32) && state.direction is None,
        Some(hedged) => {
            &&& state.position_quantity@ == hedged.quantity
            &&& state.direction is Some
            &&& state.direction->0.buy_exchange@ == hedged.buy.exchange@
            &&& state.direction->0.sell_exchange@ == hedged.sell.exchange@
            &&& state.direction->0.buy_symbol@ == hedged.buy.symbol@
            &&& state.direction->0.sell_symbol@ == hedged.sell.symbol@
            &&& state.direction->0.buy_market_type == hedged.buy.market_type
            &&& state.direction->0.sell_market_type == hedged.sell.market_type
        },
    }
}

/// The lots at these places.
pub open spec fn lots_at(lots: Seq<PaperLot>, places: Seq<usize>) -> Seq<PaperLot> {
    places.map_values(|place: usize| lots[place as int])
}

/// Every place is one of a lot.
pub open spec fn places_fit(lots: Seq<PaperLot>, places: Seq<usize>) -> bool {
    forall|i: int| 0 <= i < places.len() ==> #[trigger] places[i] < lots.len()
}

/// The places of the owner's lots and of all others.
struct LotSplit {
    own: Vec<usize>,
    foreign: Vec<usize>,
}

fn split_lots(snapshot: &PaperAccountSnapshot, prefix: &str) -> (r: Option<LotSplit>)
    ensures
        match owned_lots(snapshot.reservations@, snapshot.open_lots@, prefix@) {
            None => r is None,
            Some(own) => {
                &&& r is Some
                &&& places_fit(snapshot.open_lots@, r->0.own@)
                &&& places_fit(snapshot.open_lots@, r->0.foreign@)
                &&& lots_at(snapshot.open_lots@, r->0.own@) == own
                &&& lots_at(snapshot.open_lots@, r->0.foreign@) == foreign_lots(
                    snapshot.reservations@,
                    snapshot.open_lots@,
                    prefix@,
                )
            },
        },
{
    let lots: &Vec<PaperLot> = &snapshot.open_lots;
    let mut own: Vec<usize> = Vec::new();
    let mut foreign: Vec<usize> = Vec::new();
    let mut i: usize = 0;
    while i < lots.len()
        invariant
            i <= lots.len(),
            lots@ == snapshot.open_lots@,
            places_fit(lots@, own@),
            places_fit(lots@, foreign@),
            owned_lots(snapshot.reservations@, lots@.take(i as int), prefix@) == Some(
                lots_at(lots@, own@),
            ),
            foreign_lots(snapshot.reservations@, lots@.take(i as int), prefix@) == lots_at(
                lots@,
                foreign@,
            ),
        decreases lots.len() - i,
    {
        assert(lots@.take(i + 1).drop_last() =~= lots@.take(i as int));
        match lot_source_is_owned_by(&snapshot.reservations, &lots[i], prefix) {
            None => {
                proof {
                    lemma_owned_stays_none(snapshot.reservations@, lots@, prefix@, i + 1);
                }
                return None;
            },
            Some(true) => {
                let ghost before = own@;
                own.push(i);
                assert(lots_at(lots@, own@) =~= lots_at(lots@, before).push(lots@[i as int]));
            },
            Some(false) => {
                let ghost before = foreign@;
                foreign.push(i);
                assert(lots_at(lots@, foreign@) =~= lots_at(lots@, before).push(lots@[i as int]));
            },
        }
        i = i + 1;
    }
    assert(lots@.take(i as int) =~= lots@);
    Some(LotSplit { own, foreign })
}

/// The place of the first lot on a side.
fn find_first(lots: &Vec<PaperLot>, places: &Vec<usize>, side: Side) -> (r: Option<usize>)
    requires
        places_fit(lots@, places@),
    ensures
        match first_on(lots_at(lots@, places@), side) {
            None => r is None,
            Some(lot) => r is Some && r->0 < lots@.len() && lots@[r->0 as int] == lot,
        },
{
    let mut found: Option<usize> = None;
    let mut i: usize = 0;
    while i < places.len()
        invariant
            i <= places.len(),
            places_fit(lots@, places@),
            match first_on(lots_at(lots@, places@.take(i as int)), side) {
                None => found is None,
                Some(lot) => found is Some && found->0 < lots@.len() && lots@[found->0 as int] == lot,
            },
        decreases places.len() - i,
    {
        assert(lots_at(lots@, places@.take(i + 1)).drop_last() =~= lots_at(
            lots@,
            places@.take(i as int),
        ));
        assert(places@[i as int] < lots@.len());
        if found.is_none() && lots[places[i]].side == side {
            found = Some(places[i]);
        }
        i = i + 1;
    }
    assert(places@.take(i as int) =~= places@);
    found
}

proof fn lemma_held_stays_none(lots: Seq<PaperLot>, side: Side, k: int)
    requires
        0 <= k <= lots.len(),
        held_on(lots.take(k), side) is None,
    ensures
        held_on(lots, side) is None,
    decreases lots.len(),
{
    if k == lots.len() {
        assert(lots.take(k) =~= lots);
    } else {
        assert(lots.drop_last().take(k) =~= lots.take(k));
        lemma_held_stays_none(lots.drop_last(), side, k);
    }
}

/// What the lots on a side hold together.
fn add_up_held(lots: &Vec<PaperLot>, places: &Vec<usize>, side: Side) -> (r: Option<Decimal>)
    requires
        places_fit(lots@, places@),
    ensures
        crate::decimal::number_in(r) == held_on(lots_at(lots@, places@), side),
{
    let mut held: Decimal = Decimal::zero();
    let mut i: usize = 0;
    while i < places.len()
        invariant
            i <= places.len(),
            places_fit(lots@, places@),
            held_on(lots_at(lots@, places@.take(i as int)), side) == Some(held@),
        decreases places.len() - i,
    {
        assert(lots_at(lots@, places@.take(i + 1)).drop_last() =~= lots_at(
            lots@,
            places@.take(i as int),
        ));
        assert(places@[i as int] < lots@.len());
        let lot: &PaperLot = &lots[places[i]];
        if lot.side == side {
            match held.checked_add(lot.remaining_quantity) {
                None => {
                    proof {
                        assert(lots_at(lots@, places@).take(i + 1) =~= lots_at(
                            lots@,
                            places@.take(i + 1),
                        ));
                        lemma_held_stays_none(lots_at(lots@, places@), side, i + 1);
                    }
                    return None;
                },
                Some(sum) => {
                    held = sum;
                },
            }
        }
        i = i + 1;
    }
    assert(places@.take(i as int) =~= places@);
    Some(held)
}

/// Every lot lies in the instrument of the first one on its side.
fn has_one_instrument_a_side(
    lots: &Vec<PaperLot>,
    places: &Vec<usize>,
    buy: &PaperLot,
    sell: &PaperLot,
) -> (r: bool)
    requires
        places_fit(lots@, places@),
    ensures
        r == one_instrument_a_side(lots_at(lots@, places@), *buy, *sell),
{
    let ghost own = lots_at(lots@, places@);
    let mut i: usize = 0;
    while i < places.len()
        invariant
            i <= places.len(),
            places_fit(lots@, places@),
            own == lots_at(lots@, places@),
            forall|k: int|
                0 <= k < i ==> same_instrument(
                    #[trigger] own[k],
                    if own[k].side == Side::Buy {
                        *buy
                    } else {
                        *sell
                    },
                ),
        decreases places.len() - i,
    {
        assert(places@[i as int] < lots@.len());
        let lot: &PaperLot = &lots[places[i]];
        assert(own[i as int] == *lot);
        let fits: bool = match lot.side {
            Side::Buy => is_same_instrument(lot, buy),
            Side::Sell => is_same_instrument(lot, sell),
        };
        if !fits {
            return false;
        }
        i = i + 1;
    }
    true
}

/// Some foreign lot waits in the same queue as one of the two.
fn any_shares_a_queue(
    lots: &Vec<PaperLot>,
    places: &Vec<usize>,
    buy: &PaperLot,
    sell: &PaperLot,
) -> (r: bool)
    requires
        places_fit(lots@, places@),
    ensures
        !r == (forall|i: int|
            0 <= i < places@.len() ==> !shares_a_queue(
                #[trigger] lots_at(lots@, places@)[i],
                *buy,
                *sell,
            )),
{
    let ghost foreign = lots_at(lots@, places@);
    let mut i: usize = 0;
    while i < places.len()
        invariant
            i <= places.len(),
            places_fit(lots@, places@),
            foreign == lots_at(lots@, places@),
            forall|k: int| 0 <= k < i ==> !shares_a_queue(#[trigger] foreign[k], *buy, *sell),
        decreases places.len() - i,
    {
        assert(places@[i as int] < lots@.len());
        let lot: &PaperLot = &lots[places[i]];
        assert(foreign[i as int] == *lot);
        if (is_same_instrument(lot, buy) && lot.side == buy.side) || (is_same_instrument(lot, sell)
            && lot.side == sell.side) {
            assert(shares_a_queue(foreign[i as int], *buy, *sell));
            return true;
        }
        i = i + 1;
    }
    false
}

/// Restores the owner's position from its open lots; `RecoveryRequired` where
/// some reconciliation failed or the lots make up no hedged position.
pub fn restore_state(snapshot: &PaperAccountSnapshot, owner_task_id: &str) -> (r: Result<
    ArbitrageState,
    ArbitragePaperTaskError,
>)
    ensures
        ({
            let position = position_in(*snapshot, prefix_of(owner_task_id@));
            if has_failed_reconciliation(snapshot.reservations@) || position is None {
                r == Err::<ArbitrageState, _>(ArbitragePaperTaskError::RecoveryRequired)
            } else {
                r is Ok && state_holds(r->Ok_0, position->0)
            }
        }),
{
    if any_failed_reconciliation(&snapshot.reservations) {
        return Err(ArbitragePaperTaskError::RecoveryRequired);
    }
    let prefix: String = operation_prefix(owner_task_id);
    let split: LotSplit = match split_lots(snapshot, &prefix) {
        None => return Err(ArbitragePaperTaskError::RecoveryRequired),
        Some(split) => split,
    };
    let own: Vec<usize> = split.own;
    let foreign: Vec<usize> = split.foreign;
    let lots: &Vec<PaperLot> = &snapshot.open_lots;
    assert(lots_at(lots@, own@).len() == own@.len());
    assert(lots_at(lots@, foreign@).len() == foreign@.len());
    if own.len() == 0 {
        return Ok(ArbitrageState { position_quantity: Decimal::zero(), direction: None });
    }
    let (buy, sell): (&PaperLot, &PaperLot) = match (
        find_first(lots, &own, Side::Buy),
        find_first(lots, &own, Side::Sell),
    ) {
        (Some(buy), Some(sell)) => (&lots[buy], &lots[sell]),
        _ => return Err(ArbitragePaperTaskError::RecoveryRequired),
    };
    let (bought, sold): (Decimal, Decimal) = match (
        add_up_held(lots, &own, Side::Buy),
        add_up_held(lots, &own, Side::Sell),
    ) {
        (Some(bought), Some(sold)) => (bought, sold),
        _ => return Err(ArbitragePaperTaskError::RecoveryRequired),
    };
    if !has_one_instrument_a_side(lots, &own, buy, sell) || !same_text(&buy.symbol, &sell.symbol)
        || !bought.equals(sold) || !bought.is_positive() || same_text(
        &buy.exchange,
        &sell.exchange,
    ) {
        return Err(ArbitragePaperTaskError::RecoveryRequired);
    }
    if any_shares_a_queue(lots, &foreign, buy, sell) {
        return Err(ArbitragePaperTaskError::RecoveryRequired);
    }
    Ok(
        ArbitrageState {
            position_quantity: bought,
            direction: Some(
                ArbitrageDirection {
                    buy_exchange: buy.exchange.clone(),
                    sell_exchange: sell.exchange.clone(),
                    buy_symbol: buy.symbol.clone(),
                    sell_symbol: sell.symbol.clone(),
                    buy_market_type: buy.market_type,
                    sell_market_type: sell.market_type,
                },
            ),
        },
    )
}

/// The number that a new owner continues from: the largest of its operations,
/// all of which have to be released. Nothing where one is not.
pub open spec fn released_operations(reservations: Seq<PaperReservation>, prefix: Seq<char>) -> Option<
    u64,
>
    decreases reservations.len(),
{
    if reservations.len() == 0 {
        Some(0)
    } else {
        let last = reservations.last();
        match (
            released_operations(reservations.drop_last(), prefix),
            sequence_of(last.task_id@, prefix),
        ) {
            (None, _) => None,
            (Some(before), None) => Some(before),
            (Some(before), Some(sequence)) => if last.phase != PaperReservationPhase::Released {
                None
            } else if sequence > before {
                Some(sequence)
            } else {
                Some(before)
            },
        }
    }
}

proof fn lemma_released_stays_none(
    reservations: Seq<PaperReservation>,
    prefix: Seq<char>,
    k: int,
)
    requires
        0 <= k <= reservations.len(),
        released_operations(reservations.take(k), prefix) is None,
    ensures
        released_operations(reservations, prefix) is None,
    decreases reservations.len(),
{
    if k == reservations.len() {
        assert(reservations.take(k) =~= reservations);
    } else {
        assert(reservations.drop_last().take(k) =~= reservations.take(k));
        lemma_released_stays_none(reservations.drop_last(), prefix, k);
    }
}

/// An earlier owner of the same identity, as the journal shows it.
#[derive(Debug)]
pub struct EarlierArbitrageTask {
    /// The owner was an arbitrage owner.
    pub arbitrage: bool,
    pub stopped: bool,
    pub needs_recovery: bool,
    pub source_ids: Vec<String>,
}

/// The earlier owner ended well and traded the same two sources.
pub open spec fn earlier_owner_is_settled(
    earlier: Option<EarlierArbitrageTask>,
    left: Seq<char>,
    right: Seq<char>,
) -> bool {
    match earlier {
        None => true,
        Some(task) => task.arbitrage && task.stopped && !task.needs_recovery
            && task.source_ids@.len() == 2 && task.source_ids@[0]@ == left
            && task.source_ids@[1]@ == right,
    }
}

/// The number that a new owner continues from; `RecoveryRequired` where the
/// account has to be reconciled or an earlier owner is not settled.
pub fn recovery_preflight(
    task_id: &str,
    left_source: &str,
    right_source: &str,
    snapshot: &PaperAccountSnapshot,
    earlier: &Option<EarlierArbitrageTask>,
) -> (r: Result<u64, ArbitragePaperTaskError>)
    ensures
        r == match released_operations(snapshot.reservations@, prefix_of(task_id@)) {
            Some(sequence) if !has_failed_reconciliation(snapshot.reservations@)
                && earlier_owner_is_settled(*earlier, left_source@, right_source@) => Ok::<
                u64,
                ArbitragePaperTaskError,
            >(sequence),
            _ => Err(ArbitragePaperTaskError::RecoveryRequired),
        },
{
    if any_failed_reconciliation(&snapshot.reservations) {
        return Err(ArbitragePaperTaskError::RecoveryRequired);
    }
    let prefix: String = operation_prefix(task_id);
    let reservations: &Vec<PaperReservation> = &snapshot.reservations;
    let mut last: u64 = 0;
    let mut i: usize = 0;
    while i < reservations.len()
        invariant
            i <= reservations.len(),
            reservations@ == snapshot.reservations@,
            prefix@ == prefix_of(task_id@),
            released_operations(reservations@.take(i as int), prefix@) == Some(last),
        decreases reservations.len() - i,
    {
        assert(reservations@.take(i + 1).drop_last() =~= reservations@.take(i as int));
        match owner_operation_sequence(&reservations[i].task_id, &prefix) {
            None => {},
            Some(sequence) => {
                if reservations[i].phase != PaperReservationPhase::Released {
                    proof {
                        lemma_released_stays_none(reservations@, prefix@, i + 1);
                    }
                    return Err(ArbitragePaperTaskError::RecoveryRequired);
                }
                if sequence > last {
                    last = sequence;
                }
            },
        }
        i = i + 1;
    }
    assert(reservations@.take(i as int) =~= reservations@);
    let settled: bool = match earlier {
        None => true,
        Some(task) => task.arbitrage && task.stopped && !task.needs_recovery
            && task.source_ids.len() == 2 && same_text(&task.source_ids[0], left_source)
            && same_text(&task.source_ids[1], right_source),
    };
    if settled {
        Ok(last)
    } else {
        Err(ArbitragePaperTaskError::RecoveryRequired)
    }
}

/// No decision is taken on an account with a failed reconciliation.
pub fn account_decision_snapshot(snapshot: &PaperAccountSnapshot) -> (r: Result<
    (),
    ArbitragePaperTaskError,
>)
    ensures
        r == if has_failed_reconciliation(snapshot.reservations@) {
            Err::<(), _>(ArbitragePaperTaskError::RecoveryRequired)
        } else {
            Ok(())
        },
{
    if any_failed_reconciliation(&snapshot.reservations) {
        return Err(ArbitragePaperTaskError::RecoveryRequired);
    }
    Ok(())
}

} // verus!
