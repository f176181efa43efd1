//! What an owner's operation orders and reserves, and what the account risk is
//! asked about it.

use crate::decimal::{representable, Decimal};
use crate::domain::{MarketSnapshot, Side};
use crate::number_laws::{law_order_is_that_of_units, law_product_multiplies, multiplies_exactly};
use crate::number_laws::{unit_count, units};
use crate::operations::operation_id_of;
use crate::paper_grid_task::{build_protection_operation, build_target_instrument_close_operation};
use crate::paper_grid_task::{entry_candidate, GridPaperTaskConfig, GridPaperTaskError};
use crate::paper_single_leg_saga::PaperSingleLegRequest;
use crate::paper_volume_maker_task::{build_request, open_candidate, plan_operation};
use crate::paper_volume_maker_task::{OpenPosition, PlanStep, PlannedOperation, StandingQuote};
use crate::paper_volume_maker_task::{VolumeMakerPaperTaskConfig, VolumeMakerPaperTaskError};
use crate::requests::{admission_for, AccountRiskAdmission, AccountRiskCandidate, FreshIds};
use crate::timestamp::Timestamp;
use vstd::prelude::*;

verus! {

/// The request orders this much, on this side at this price, and reserves the
/// product of the two under the owner's operation.
pub open spec fn orders_and_reserves(
    request: PaperSingleLegRequest,
    owner: Seq<char>,
    sequence: u64,
    side: Side,
    quantity: Decimal,
    price: Decimal,
) -> bool {
    let batch = request.batch_view();
    let reservation = request.reservation_view();
    &&& batch.intents@.len() == 1 && reservation.legs@.len() == 1
    &&& batch.intents@[0].side == side && reservation.legs@[0].side == side
    &&& batch.intents@[0].quantity == quantity
    &&& batch.intents@[0].price == Some(price)
    &&& units(reservation.legs@[0].notional@) * unit_count() == units(price@) * units(quantity@)
    &&& reservation.task_id@ == operation_id_of(owner, sequence)
    &&& reservation.batch_id == batch.id
}

/// A scalp and a forced close of the same size order the same on the owner's
/// instrument; only the close must reduce, and each reserves what it orders.
pub proof fn law_scalp_may_open_what_a_close_may_not(
    config: &GridPaperTaskConfig,
    symbol: &str,
    trigger: &str,
    side: Side,
    quantity: Decimal,
    price: Decimal,
    sequence: u64,
    client_order_id: u128,
    ids: FreshIds,
    scalp: Result<PaperSingleLegRequest, GridPaperTaskError>,
    close: Result<PaperSingleLegRequest, GridPaperTaskError>,
)
    requires
        call_ensures(
            build_protection_operation,
            (config, symbol, side, quantity, price, sequence, client_order_id, ids),
            scalp,
        ),
        call_ensures(
            build_target_instrument_close_operation,
            (config, symbol, trigger, side, quantity, price, sequence, client_order_id, ids),
            close,
        ),
        representable(price@),
        representable(quantity@),
        multiplies_exactly(price@, quantity@),
    ensures
        scalp is Ok && close is Ok,
        orders_and_reserves(scalp->Ok_0, config.task_id_view(), sequence, side, quantity, price),
        orders_and_reserves(close->Ok_0, config.task_id_view(), sequence, side, quantity, price),
        ({
            let first = scalp->Ok_0.batch_view().intents@[0];
            let second = close->Ok_0.batch_view().intents@[0];
            &&& !first.reduce_only && second.reduce_only
            &&& first.exchange@ == config.exchange_view() && second.exchange@
                == config.exchange_view()
            &&& first.symbol@ == symbol@ && second.symbol@ == symbol@
            &&& first.market_type == config.market_type_view() && second.market_type
                == config.market_type_view()
        }),
{
    law_product_multiplies(price@, quantity@);
}

/// A quote that the book crossed becomes an entry of the configured size at
/// the quote's own price: the bid is bought where the market asks no more, the
/// ask is sold where it bids no less.
pub proof fn law_crossed_quote_is_entered_at_its_price(
    config: &VolumeMakerPaperTaskConfig,
    position: Option<OpenPosition>,
    quote: Option<StandingQuote>,
    next_cycle_at: Option<Timestamp>,
    snapshot: &MarketSnapshot,
    observed_at: Timestamp,
    client_order_id: u128,
    step: PlanStep,
)
    requires
        call_ensures(
            plan_operation,
            (config, position, quote, next_cycle_at, snapshot, observed_at, client_order_id),
            step,
        ),
        representable(snapshot.ask@),
        representable(snapshot.bid@),
        quote is Some ==> representable(quote->0.bid@) && representable(quote->0.ask@),
    ensures
        step is Execute ==> {
            let intent = step->Execute_0.intent;
            &&& position is None && quote is Some
            &&& next_cycle_at is Some ==> next_cycle_at->0.rank() <= observed_at.rank()
            &&& intent.quantity == config.strategy_view().order_quantity
            &&& intent.symbol@ == config.strategy_view().symbol@
            &&& intent.exchange@ == config.strategy_view().exchange@
            &&& intent.client_order_id == client_order_id
            &&& !intent.reduce_only
            &&& intent.price == Some(step->Execute_0.reference_price)
            &&& intent.side == Side::Buy ==> intent.price == Some(quote->0.bid) && units(
                snapshot.ask@,
            ) <= units(quote->0.bid@)
            &&& intent.side == Side::Sell ==> intent.price == Some(quote->0.ask) && units(
                snapshot.bid@,
            ) >= units(quote->0.ask@)
        },
        position is Some ==> step is Evaluate,
        position is None && next_cycle_at is Some && observed_at.rank() < next_cycle_at->0.rank()
            ==> step is Rest,
{
    if quote is Some {
        law_order_is_that_of_units(quote->0.bid@, snapshot.ask@);
        law_order_is_that_of_units(snapshot.bid@, quote->0.ask@);
    }
}

/// A cycle's operation orders its one intent as it was planned, and reserves
/// what it is worth at the reference price; the account risk is asked about
/// that same amount.
pub proof fn law_cycle_reserves_what_the_risk_was_asked(
    config: &VolumeMakerPaperTaskConfig,
    operation: &PlannedOperation,
    sequence: u64,
    ids: FreshIds,
    request: Result<PaperSingleLegRequest, VolumeMakerPaperTaskError>,
    candidate: Result<AccountRiskCandidate, VolumeMakerPaperTaskError>,
)
    requires
        call_ensures(build_request, (config, operation, sequence, ids), request),
        call_ensures(open_candidate, (config, operation), candidate),
        representable(operation.reference_price@),
        representable(operation.intent.quantity@),
        multiplies_exactly(operation.reference_price@, operation.intent.quantity@),
        operation.intent.symbol@ == config.strategy_view().symbol@,
    ensures
        request is Ok && candidate is Ok,
        request->Ok_0.batch_view().intents@ == seq![operation.intent],
        request->Ok_0.reservation_view().legs@[0].notional@ == candidate->Ok_0.notional@,
        units(candidate->Ok_0.notional@) * unit_count() == units(operation.reference_price@)
            * units(operation.intent.quantity@),
        candidate->Ok_0.task_id@ == config.task_id_view(),
        candidate->Ok_0.symbol@ == operation.intent.symbol@,
        request->Ok_0.reservation_view().task_id@ == operation_id_of(
            config.task_id_view(),
            sequence,
        ),
{
    law_product_multiplies(operation.reference_price@, operation.intent.quantity@);
}

/// The account risk is asked about what a level is worth at the price that is
/// reserved.
pub proof fn law_level_asks_for_its_worth(
    config: &GridPaperTaskConfig,
    symbol: &str,
    reservation_price: Decimal,
    candidate: Result<AccountRiskCandidate, GridPaperTaskError>,
)
    requires
        call_ensures(entry_candidate, (config, symbol, reservation_price), candidate),
        representable(reservation_price@),
        representable(config.quantity_view()@),
        multiplies_exactly(reservation_price@, config.quantity_view()@),
    ensures
        candidate is Ok,
        candidate->Ok_0.task_id@ == config.task_id_view(),
        candidate->Ok_0.symbol@ == symbol@,
        units(candidate->Ok_0.notional@) * unit_count() == units(reservation_price@) * units(
            config.quantity_view()@,
        ),
{
    law_product_multiplies(reservation_price@, config.quantity_view()@);
}

/// An operation carries an admission exactly where an authority is attached
/// and gave a ticket, and it is that ticket under that authority.
pub proof fn law_admission_needs_scope_and_ticket(
    scope: Option<&str>,
    ticket: Option<u128>,
    admission: Option<AccountRiskAdmission>,
)
    requires
        call_ensures(admission_for, (scope, ticket), admission),
    ensures
        admission is Some <==> scope is Some && ticket is Some,
        admission is Some ==> admission->0.ticket == ticket->0 && admission->0.scope_id@
            == scope->0@,
{
}

} // verus!
