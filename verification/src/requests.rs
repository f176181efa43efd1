//! Execution batches and the reservations of account capacity for them.

use crate::decimal::{decimal_in, product_of, sum_of, Decimal};
use crate::domain::{MarketType, OrderIntent, OrderType, Side, TimeInForce};
use crate::operations::{idempotency_key, idempotency_key_of, operation_id, operation_id_of};
use crate::paper_single_leg_saga::PaperSingleLegRequest;
use crate::text::same_text;
use vstd::prelude::*;

verus! {

/// Orders that are executed together.
#[derive(Debug)]
pub struct ExecutionBatch {
    pub id: u128,
    pub intents: Vec<OrderIntent>,
}

/// The capacity that one order of a batch takes.
#[derive(Debug)]
pub struct PaperReservationLeg {
    pub index: usize,
    pub exchange: String,
    pub symbol: String,
    pub market_type: MarketType,
    pub side: Side,
    pub notional: Decimal,
}

/// The costs that a paper account assumes of every order, in basis points.
#[derive(Clone, Copy, Debug, PartialEq, Eq, Structural)]
pub struct PaperCostModel {
    pub version: u32,
    pub fee_bps: u32,
    pub funding_buffer_bps: u32,
    pub slippage_bps: u32,
}

impl PaperCostModel {
    /// The first version of the model, at these rates. Which rates an account
    /// accepts is for the account to say.
    pub fn v1(fee_bps: u32, funding_buffer_bps: u32, slippage_bps: u32) -> (r: PaperCostModel)
        ensures
            r == (PaperCostModel { version: 1, fee_bps, funding_buffer_bps, slippage_bps }),
    {
        PaperCostModel { version: 1, fee_bps, funding_buffer_bps, slippage_bps }
    }
}

/// What account risk is asked to admit.
#[derive(Debug)]
pub struct AccountRiskCandidate {
    pub task_id: String,
    pub symbol: String,
    pub notional: Decimal,
}

/// The candidate of an owner on a symbol.
pub open spec fn is_candidate(
    candidate: AccountRiskCandidate,
    owner: Seq<char>,
    symbol: Seq<char>,
    notional: (i128, u32),
) -> bool {
    candidate.task_id@ == owner && candidate.symbol@ == symbol && candidate.notional@ == notional
}

pub fn risk_candidate(owner: &str, symbol: &str, notional: Decimal) -> (r: AccountRiskCandidate)
    ensures
        is_candidate(r, owner@, symbol@, notional@),
{
    AccountRiskCandidate { task_id: owner.to_owned(), symbol: symbol.to_owned(), notional }
}

/// The account-risk admission that a reservation uses: the scope of the
/// authority that gave it, and its own identity.
#[derive(Debug)]
pub struct AccountRiskAdmission {
    pub scope_id: String,
    pub ticket: u128,
}

/// The admission with this ticket, under the scope of the attached authority;
/// none where either is missing.
pub open spec fn is_admission(
    admission: Option<AccountRiskAdmission>,
    scope: Option<Seq<char>>,
    ticket: Option<u128>,
) -> bool {
    match (scope, ticket) {
        (Some(scope_id), Some(given)) => {
            &&& admission is Some
            &&& admission->0.scope_id@ == scope_id
            &&& admission->0.ticket == given
        },
        _ => admission is None,
    }
}

pub fn admission_for(scope: Option<&str>, ticket: Option<u128>) -> (r: Option<AccountRiskAdmission>)
    ensures
        is_admission(
            r,
            match scope {
                Some(scope_id) => Some(scope_id@),
                None => None,
            },
            ticket,
        ),
{
    match (scope, ticket) {
        (Some(scope_id), Some(ticket)) => Some(
            AccountRiskAdmission { scope_id: scope_id.to_owned(), ticket },
        ),
        _ => None,
    }
}

/// The capacity that a batch asks for.
#[derive(Debug)]
pub struct PaperReservationRequest {
    pub reservation_id: u128,
    pub task_id: String,
    pub idempotency_key: String,
    pub batch_id: u128,
    pub cost_model: PaperCostModel,
    pub legs: Vec<PaperReservationLeg>,
    /// The account-risk admission that the reservation uses.
    pub admission: Option<AccountRiskAdmission>,
}

/// A reservation as the account holds it.
#[derive(Debug)]
pub struct PaperReservationView {
    pub reservation_id: u128,
    pub task_id: String,
    pub idempotency_key: String,
    pub cost_model: PaperCostModel,
}

/// The checked sum of what the legs take, from the first to the last; nothing
/// where it cannot be computed.
pub open spec fn gross_of(legs: Seq<PaperReservationLeg>) -> Option<(i128, u32)>
    decreases legs.len(),
{
    if legs.len() == 0 {
        Some((0i128, 0u32))
    } else {
        match gross_of(legs.drop_last()) {
            Some(sum) => sum_of(sum, legs.last().notional@),
            None => None,
        }
    }
}

proof fn lemma_no_gross_after(legs: Seq<PaperReservationLeg>, n: int)
    requires
        0 <= n <= legs.len(),
        gross_of(legs.take(n)) is None,
    ensures
        gross_of(legs) is None,
    decreases legs.len() - n,
{
    if n < legs.len() {
        assert(legs.take(n + 1).drop_last() =~= legs.take(n));
        lemma_no_gross_after(legs, n + 1);
    } else {
        assert(legs.take(n) =~= legs);
    }
}

/// The gross notional of the reservation: the checked sum of what its legs
/// take.
pub fn gross_notional(reservation: &PaperReservationRequest) -> (r: Option<Decimal>)
    ensures
        r == decimal_in(gross_of(reservation.legs@)),
        r is Some ==> Some(r->0@) == gross_of(reservation.legs@),
{
    let ghost legs = reservation.legs@;
    let mut sum: Decimal = Decimal::zero();
    let mut i: usize = 0;
    assert(legs.take(0) =~= Seq::<PaperReservationLeg>::empty());
    while i < reservation.legs.len()
        invariant
            i <= reservation.legs.len(),
            legs == reservation.legs@,
            gross_of(legs.take(i as int)) == Some(sum@),
            Some(sum) == decimal_in(gross_of(legs.take(i as int))),
        decreases reservation.legs.len() - i,
    {
        assert(legs.take(i + 1).drop_last() =~= legs.take(i as int));
        match sum.checked_add(reservation.legs[i].notional) {
            Some(next) => {
                sum = next;
            },
            None => {
                proof {
                    lemma_no_gross_after(legs, i + 1);
                }
                return None;
            },
        }
        i = i + 1;
    }
    assert(legs.take(i as int) =~= legs);
    Some(sum)
}

/// The leg reserves capacity for the order at its place.
pub open spec fn leg_matches(
    leg: PaperReservationLeg,
    intent: OrderIntent,
    index: int,
    symbol: Seq<char>,
) -> bool {
    &&& intent.symbol@ == symbol
    &&& leg.index == index
    &&& leg.exchange@ == intent.exchange@
    &&& leg.symbol@ == intent.symbol@
    &&& leg.market_type == intent.market_type
    &&& leg.side == intent.side
}

pub fn leg_matching(
    leg: &PaperReservationLeg,
    intent: &OrderIntent,
    index: usize,
    symbol: &str,
) -> (r: bool)
    ensures
        r == leg_matches(*leg, *intent, index as int, symbol@),
{
    same_text(&intent.symbol, symbol) && leg.index == index && same_text(
        &leg.exchange,
        &intent.exchange,
    ) && same_text(&leg.symbol, &intent.symbol) && leg.market_type == intent.market_type
        && leg.side == intent.side
}

/// The leg for an order at its place in the batch.
pub fn leg_for(index: usize, intent: &OrderIntent, notional: Decimal) -> (r: PaperReservationLeg)
    ensures
        leg_matches(r, *intent, index as int, intent.symbol@),
        r.notional == notional,
{
    PaperReservationLeg {
        index,
        exchange: intent.exchange.clone(),
        symbol: intent.symbol.clone(),
        market_type: intent.market_type,
        side: intent.side,
        notional,
    }
}

/// A resting order at a price.
pub open spec fn is_limit_intent(
    intent: OrderIntent,
    exchange: Seq<char>,
    symbol: Seq<char>,
    market_type: MarketType,
    side: Side,
    quantity: Decimal,
    price: Decimal,
    reduce_only: bool,
) -> bool {
    &&& intent.exchange@ == exchange
    &&& intent.symbol@ == symbol
    &&& intent.market_type == market_type
    &&& intent.side == side
    &&& intent.order_type == OrderType::Limit
    &&& intent.quantity == quantity
    &&& intent.price == Some(price)
    &&& intent.time_in_force == TimeInForce::Gtc
    &&& intent.reduce_only == reduce_only
}

/// The order at a price, under a fresh identifier.
pub fn limit_intent(
    client_order_id: u128,
    exchange: &str,
    symbol: &str,
    market_type: MarketType,
    side: Side,
    quantity: Decimal,
    price: Decimal,
    reduce_only: bool,
) -> (r: OrderIntent)
    ensures
        r.client_order_id == client_order_id,
        is_limit_intent(
            r,
            exchange@,
            symbol@,
            market_type,
            side,
            quantity,
            price,
            reduce_only,
        ),
{
    OrderIntent {
        client_order_id,
        exchange: exchange.to_owned(),
        symbol: symbol.to_owned(),
        market_type,
        side,
        order_type: OrderType::Limit,
        quantity,
        price: Some(price),
        time_in_force: TimeInForce::Gtc,
        reduce_only,
    }
}

/// The fresh identifiers of one operation.
#[derive(Clone, Copy, Debug, PartialEq, Eq, Structural)]
pub struct FreshIds {
    pub batch_id: u128,
    pub reservation_id: u128,
}

/// Why an order does not become an operation.
#[derive(Clone, Copy, Debug, PartialEq, Eq, Structural)]
pub enum OperationFlaw {
    /// Its notional cannot be computed.
    Notional,
    /// It is not an order for the symbol of the operation.
    OtherSymbol,
}

/// The request executes the one order and reserves its notional at the
/// reservation price, under the owner's next operation.
pub open spec fn is_single_leg_operation(
    request: PaperSingleLegRequest,
    owner: Seq<char>,
    kind: Seq<char>,
    sequence: u64,
    intent: OrderIntent,
    reservation_price: Decimal,
    ids: FreshIds,
    cost_model: PaperCostModel,
    scope: Option<Seq<char>>,
    ticket: Option<u128>,
) -> bool {
    let batch = request.batch_view();
    let reservation = request.reservation_view();
    &&& request.symbol_view() == intent.symbol@
    &&& batch.id == ids.batch_id
    &&& batch.intents@ == seq![intent]
    &&& reservation.reservation_id == ids.reservation_id
    &&& reservation.task_id@ == operation_id_of(owner, sequence)
    &&& reservation.idempotency_key@ == idempotency_key_of(kind, sequence)
    &&& reservation.batch_id == ids.batch_id
    &&& reservation.legs@.len() == 1
    &&& leg_matches(reservation.legs@[0], intent, 0, intent.symbol@)
    &&& Some(reservation.legs@[0].notional@) == product_of(reservation_price@, intent.quantity@)
    &&& reservation.cost_model == cost_model
    &&& is_admission(reservation.admission, scope, ticket)
}

/// Why an order does not become an operation of the symbol, in the order in
/// which it is checked.
pub open spec fn operation_flaw(
    symbol: Seq<char>,
    intent: OrderIntent,
    reservation_price: Decimal,
) -> Option<OperationFlaw> {
    if product_of(reservation_price@, intent.quantity@) is None {
        Some(OperationFlaw::Notional)
    } else if intent.symbol@ != symbol {
        Some(OperationFlaw::OtherSymbol)
    } else {
        None
    }
}

/// The operation of a symbol for one order, under the admission with this
/// ticket where an authority is attached.
pub fn single_leg_operation(
    owner: &str,
    kind: &str,
    sequence: u64,
    symbol: &str,
    intent: OrderIntent,
    reservation_price: Decimal,
    ids: FreshIds,
    cost_model: PaperCostModel,
    scope: Option<&str>,
    ticket: Option<u128>,
) -> (r: Result<PaperSingleLegRequest, OperationFlaw>)
    ensures
        match operation_flaw(symbol@, intent, reservation_price) {
            Some(flaw) => r == Err::<PaperSingleLegRequest, _>(flaw),
            None => r is Ok && is_single_leg_operation(
                r->Ok_0,
                owner@,
                kind@,
                sequence,
                intent,
                reservation_price,
                ids,
                cost_model,
                match scope {
                    Some(scope_id) => Some(scope_id@),
                    None => None,
                },
                ticket,
            ),
        },
{
    let notional: Decimal = match reservation_price.checked_mul(intent.quantity) {
        Some(notional) => notional,
        None => return Err(OperationFlaw::Notional),
    };
    let leg: PaperReservationLeg = leg_for(0, &intent, notional);
    let mut legs: Vec<PaperReservationLeg> = Vec::new();
    legs.push(leg);
    let mut intents: Vec<OrderIntent> = Vec::new();
    intents.push(intent);
    let reservation: PaperReservationRequest = PaperReservationRequest {
        reservation_id: ids.reservation_id,
        task_id: operation_id(owner, sequence),
        idempotency_key: idempotency_key(kind, sequence),
        batch_id: ids.batch_id,
        cost_model,
        legs,
        admission: admission_for(scope, ticket),
    };
    let batch: ExecutionBatch = ExecutionBatch { id: ids.batch_id, intents };
    assert(batch.intents@ =~= seq![intent]);
    match PaperSingleLegRequest::new(symbol.to_owned(), batch, reservation) {
        Ok(request) => Ok(request),
        Err(_) => Err(OperationFlaw::OtherSymbol),
    }
}

} // verus!
