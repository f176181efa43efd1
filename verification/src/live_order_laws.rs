//! What the venue truth decides about the one order of a live campaign.

use crate::decimal::representable;
use crate::domain::{ExchangeError, Order, OrderStatus, Side};
use crate::ids::id_text;
use crate::json::text_in;
use crate::live_laws::is_run;
use crate::live_lifecycle::{foreign_count, notional_of, refusal_for, within_cap};
use crate::live_lifecycle::{free_balance, own_open_ids, AssetBalance, OwnOpenOrder};
use crate::live_lifecycle::{foreign_open_ids, ForeignOpenOrder};
use crate::live_lifecycle::{CancelReason, LiveAdmissionRefusal, LiveAdmissionTruth};
use crate::live_lifecycle::{LiveLifecycleError, LiveLifecycleObservation};
use crate::live_lifecycle::{defers_confirmation, valid_order, LiveLifecycleSettings, STRATEGY};
use crate::live_projection::{after_unknown, decision_label, engages_kill_switch};
use crate::live_projection::{law_decision_label_reads_back, LifecycleDecision, LifecycleEvent};
use crate::live_projection::ProjectedCampaign;
use crate::live_run::{
    fact_decision, is_first_step, is_step, LifecycleAction, LifecycleFact, LifecycleFailure,
    LifecycleInput, LifecycleRun, LifecycleStage, LifecycleStep, QueryPurpose,
};
use crate::number_laws::{law_order_is_that_of_units, law_product_multiplies, multiplies_exactly};
use crate::number_laws::{unit_count, units};
use crate::text::equal_ignoring_case;
use crate::timestamp::Timestamp;
use vstd::prelude::*;

verus! {

/// Some open order does not carry this identifier.
pub open spec fn holds_another_order(ids: Seq<Option<String>>, own: Seq<char>) -> bool {
    exists|i: int| 0 <= i < ids.len() && !(#[trigger] ids[i] is Some && ids[i]->0@ == own)
}

/// The count of foreign orders starts at zero and grows by one with every open
/// order that is not the campaign's own, and with no other.
pub proof fn law_foreign_count_counts_the_others(
    ids: Seq<Option<String>>,
    next: Option<String>,
    own: Seq<char>,
)
    ensures
        foreign_count(Seq::empty(), own) == 0,
        next is Some && next->0@ == own ==> foreign_count(ids.push(next), own) == foreign_count(
            ids,
            own,
        ),
        !(next is Some && next->0@ == own) ==> foreign_count(ids.push(next), own)
            == foreign_count(ids, own) + 1,
{
    assert(ids.push(next).drop_last() =~= ids);
}

/// There is a foreign order exactly where some open order is not the
/// campaign's own.
pub proof fn law_foreign_count_is_zero_without_others(ids: Seq<Option<String>>, own: Seq<char>)
    ensures
        foreign_count(ids, own) > 0 <==> holds_another_order(ids, own),
        foreign_count(ids, own) <= ids.len(),
    decreases ids.len(),
{
    if ids.len() > 0 {
        let before = ids.drop_last();
        law_foreign_count_is_zero_without_others(before, own);
        if holds_another_order(before, own) {
            let i = choose|i: int|
                0 <= i < before.len() && !(#[trigger] before[i] is Some && before[i]->0@ == own);
            assert(before[i] == ids[i]);
        }
        if holds_another_order(ids, own) && !holds_another_order(before, own) {
            let i = choose|i: int|
                0 <= i < ids.len() && !(#[trigger] ids[i] is Some && ids[i]->0@ == own);
            assert(i < before.len() ==> before[i] == ids[i]);
        }
        assert(ids.last() == ids[ids.len() - 1]);
    }
}

/// A sell is refused for its base balance exactly where its quantity is larger
/// than the free base quantity, and never for its quote balance.
pub proof fn law_sell_is_held_against_the_base_balance(
    settings: LiveLifecycleSettings,
    truth: LiveAdmissionTruth,
)
    requires
        settings.intent.side == Side::Sell,
        representable(settings.intent.quantity@),
        representable(truth.free_base_quantity@),
    ensures
        refusal_for(settings, truth) == Some(LiveAdmissionRefusal::InsufficientBaseBalance) <==>
            units(settings.intent.quantity@) > units(truth.free_base_quantity@),
        refusal_for(settings, truth) != Some(LiveAdmissionRefusal::InsufficientQuoteBalance),
{
    law_order_is_that_of_units(truth.free_base_quantity@, settings.intent.quantity@);
}

/// A sell whose quantity is there, with no open order but its own, is
/// admitted, whatever its price and whatever the quote balance.
pub proof fn law_covered_sell_is_admitted_at_any_price(
    settings: LiveLifecycleSettings,
    truth: LiveAdmissionTruth,
)
    requires
        settings.intent.side == Side::Sell,
        representable(settings.intent.quantity@),
        representable(truth.free_base_quantity@),
        units(settings.intent.quantity@) <= units(truth.free_base_quantity@),
        !holds_another_order(
            truth.open_order_client_ids@,
            id_text(settings.intent.client_order_id),
        ),
    ensures
        refusal_for(settings, truth) is None,
{
    law_sell_is_held_against_the_base_balance(settings, truth);
    law_foreign_count_is_zero_without_others(
        truth.open_order_client_ids@,
        id_text(settings.intent.client_order_id),
    );
}

/// Two sells of one quantity under one identifier are answered alike, whatever
/// they ask for and whatever quote balance is free.
pub proof fn law_sell_is_judged_without_its_price(
    one: LiveLifecycleSettings,
    other: LiveLifecycleSettings,
    truth: LiveAdmissionTruth,
    other_truth: LiveAdmissionTruth,
)
    requires
        one.intent.side == Side::Sell,
        other.intent.side == Side::Sell,
        one.intent.quantity == other.intent.quantity,
        one.intent.client_order_id == other.intent.client_order_id,
        one.allow_foreign_orders == other.allow_foreign_orders,
        truth.free_base_quantity == other_truth.free_base_quantity,
        truth.open_order_client_ids@ == other_truth.open_order_client_ids@,
    ensures
        refusal_for(one, truth) == refusal_for(other, other_truth),
{
}

/// A buy is refused for its quote balance exactly where the price times the
/// quantity is larger than the free quote amount, and never for its base
/// balance.
pub proof fn law_buy_is_held_against_the_quote_balance(
    settings: LiveLifecycleSettings,
    truth: LiveAdmissionTruth,
)
    requires
        settings.intent.side == Side::Buy,
        settings.intent.price is Some,
        representable(settings.intent.price->0@),
        representable(settings.intent.quantity@),
        representable(truth.free_quote_amount@),
        multiplies_exactly(settings.intent.price->0@, settings.intent.quantity@),
    ensures
        refusal_for(settings, truth) == Some(LiveAdmissionRefusal::InsufficientQuoteBalance) <==>
            units(settings.intent.price->0@) * units(settings.intent.quantity@) > units(
            truth.free_quote_amount@,
        ) * unit_count(),
        refusal_for(settings, truth) != Some(LiveAdmissionRefusal::InsufficientBaseBalance),
{
    let notional = notional_of(settings.intent)->0;
    law_product_multiplies(settings.intent.price->0@, settings.intent.quantity@);
    law_order_is_that_of_units(truth.free_quote_amount@, notional);
    lemma_units_scale(units(truth.free_quote_amount@), units(notional));
}

/// A comparison survives multiplication by the unit count.
proof fn lemma_units_scale(a: int, b: int)
    ensures
        a < b <==> a * unit_count() < b * unit_count(),
{
    crate::decimal::lemma_pow10_positive(28);
    let p = unit_count();
    assert(a < b ==> a * p < b * p) by (nonlinear_arith)
        requires
            p >= 1,
    ;
    assert(b <= a ==> b * p <= a * p) by (nonlinear_arith)
        requires
            p >= 1,
    ;
}

/// A buy is judged without regard to the free base quantity, and where it is
/// admitted, a larger quote balance admits it too.
pub proof fn law_more_quote_never_refuses_a_buy(
    settings: LiveLifecycleSettings,
    truth: LiveAdmissionTruth,
    richer: LiveAdmissionTruth,
)
    requires
        settings.intent.side == Side::Buy,
        notional_of(settings.intent) is Some,
        representable(notional_of(settings.intent)->0),
        representable(truth.free_quote_amount@),
        representable(richer.free_quote_amount@),
        units(truth.free_quote_amount@) <= units(richer.free_quote_amount@),
        truth.open_order_client_ids@ == richer.open_order_client_ids@,
        refusal_for(settings, truth) is None,
    ensures
        refusal_for(settings, richer) is None,
{
    let notional = notional_of(settings.intent)->0;
    law_order_is_that_of_units(truth.free_quote_amount@, notional);
    law_order_is_that_of_units(richer.free_quote_amount@, notional);
}

/// An order that its balance covers is refused exactly where another open
/// order stands on the symbol and the campaign does not allow that; the
/// refusal of the venue's filters is not given here.
pub proof fn law_covered_order_is_refused_for_others_alone(
    settings: LiveLifecycleSettings,
    truth: LiveAdmissionTruth,
)
    requires
        refusal_for(settings, truth) != Some(LiveAdmissionRefusal::InsufficientBaseBalance),
        refusal_for(settings, truth) != Some(LiveAdmissionRefusal::InsufficientQuoteBalance),
    ensures
        refusal_for(settings, truth) == Some(LiveAdmissionRefusal::ForeignOpenOrders) <==>
            !settings.allow_foreign_orders && holds_another_order(
            truth.open_order_client_ids@,
            id_text(settings.intent.client_order_id),
        ),
        refusal_for(settings, truth) is None || refusal_for(settings, truth) == Some(
            LiveAdmissionRefusal::ForeignOpenOrders,
        ),
{
    law_foreign_count_is_zero_without_others(
        truth.open_order_client_ids@,
        id_text(settings.intent.client_order_id),
    );
}

/// A missing balance is named before foreign orders are: allowing them does
/// not make an uncovered order pass.
pub proof fn law_allowing_others_keeps_balance_refusals(
    strict: LiveLifecycleSettings,
    lenient: LiveLifecycleSettings,
    truth: LiveAdmissionTruth,
)
    requires
        strict.intent == lenient.intent,
        !strict.allow_foreign_orders,
        lenient.allow_foreign_orders,
    ensures
        refusal_for(lenient, truth) != Some(LiveAdmissionRefusal::ForeignOpenOrders),
        refusal_for(strict, truth) != Some(LiveAdmissionRefusal::ForeignOpenOrders) ==> refusal_for(
            strict,
            truth,
        ) == refusal_for(lenient, truth),
        refusal_for(strict, truth) is None ==> refusal_for(lenient, truth) is None,
{
}

/// An order is within its cap exactly where the price times the quantity is
/// not larger than the cap.
pub proof fn law_cap_bounds_the_notional(settings: LiveLifecycleSettings)
    requires
        settings.intent.price is Some,
        representable(settings.intent.price->0@),
        representable(settings.intent.quantity@),
        representable(settings.max_notional@),
        multiplies_exactly(settings.intent.price->0@, settings.intent.quantity@),
    ensures
        within_cap(settings) <==> units(settings.intent.price->0@) * units(
            settings.intent.quantity@,
        ) <= units(settings.max_notional@) * unit_count(),
{
    let notional = notional_of(settings.intent)->0;
    law_product_multiplies(settings.intent.price->0@, settings.intent.quantity@);
    law_order_is_that_of_units(settings.max_notional@, notional);
    lemma_units_scale(units(settings.max_notional@), units(notional));
}

/// The run from its first step to the submit, one stage after the other.
proof fn lemma_road_to_submit(
    settings: LiveLifecycleSettings,
    projected: ProjectedCampaign,
    now: Timestamp,
    kill_switch_latched: bool,
    states: Seq<LifecycleRun>,
    actions: Seq<LifecycleAction>,
    inputs: Seq<LifecycleInput>,
    i: int,
)
    requires
        is_run(settings, projected, now, kill_switch_latched, states, actions, inputs),
        0 <= i < states.len(),
    ensures
        states[i].stage is PlanAppend ==> i == 0,
        states[i].stage is Admission ==> i == 1,
        states[i].stage matches LifecycleStage::AdmissionAppend { refusal } ==> i == 2
            && inputs[1] is Admission && inputs[1]->Admission_0 is Ok && refusal == refusal_for(
            settings,
            inputs[1]->Admission_0->Ok_0,
        ),
        states[i].stage matches LifecycleStage::FilterCheck { refusal } ==> i == 3
            && inputs[1] is Admission && inputs[1]->Admission_0 is Ok && refusal == refusal_for(
            settings,
            inputs[1]->Admission_0->Ok_0,
        ) && inputs[2] == LifecycleInput::Appended(true) && actions[2] is Append
            && actions[2]->Append_0 is AdmissionObserved,
        states[i].stage is AdmissionAppend ==> actions[i] is Append && actions[i]->Append_0
            is AdmissionObserved,
    decreases i,
{
    if i > 0 {
        let k = i - 1;
        assert(is_step(settings, states[k], inputs[k], (states[k + 1], actions[k + 1])));
        lemma_road_to_submit(
            settings,
            projected,
            now,
            kill_switch_latched,
            states,
            actions,
            inputs,
            k,
        );
    }
}

/// Nothing is submitted but after a venue truth that covers the order was
/// sampled and made durable, and the venue's filters passed.
pub proof fn law_submit_follows_a_covering_truth(
    settings: LiveLifecycleSettings,
    projected: ProjectedCampaign,
    now: Timestamp,
    kill_switch_latched: bool,
    states: Seq<LifecycleRun>,
    actions: Seq<LifecycleAction>,
    inputs: Seq<LifecycleInput>,
    i: int,
)
    requires
        is_run(settings, projected, now, kill_switch_latched, states, actions, inputs),
        0 <= i < actions.len(),
        actions[i] is Submit,
    ensures
        i == 4,
        actions[i] == (LifecycleAction::Submit { intent: settings.intent }),
        inputs[1] is Admission,
        inputs[1]->Admission_0 is Ok,
        refusal_for(settings, inputs[1]->Admission_0->Ok_0) is None,
        actions[2] is Append && actions[2]->Append_0 is AdmissionObserved,
        inputs[2] == LifecycleInput::Appended(true),
        inputs[3] is Filters && inputs[3]->Filters_0 is Ok,
{
    assert(i > 0);
    let k = i - 1;
    assert(is_step(settings, states[k], inputs[k], (states[k + 1], actions[k + 1])));
    lemma_road_to_submit(
        settings,
        projected,
        now,
        kill_switch_latched,
        states,
        actions,
        inputs,
        k,
    );
}

/// A submitted sell was covered by the sampled base balance: its quantity is
/// not larger than what was free.
pub proof fn law_submitted_sell_is_covered(
    settings: LiveLifecycleSettings,
    projected: ProjectedCampaign,
    now: Timestamp,
    kill_switch_latched: bool,
    states: Seq<LifecycleRun>,
    actions: Seq<LifecycleAction>,
    inputs: Seq<LifecycleInput>,
    i: int,
)
    requires
        is_run(settings, projected, now, kill_switch_latched, states, actions, inputs),
        0 <= i < actions.len(),
        actions[i] is Submit,
        settings.intent.side == Side::Sell,
        representable(settings.intent.quantity@),
        representable(inputs[1]->Admission_0->Ok_0.free_base_quantity@),
    ensures
        units(settings.intent.quantity@) <= units(
            inputs[1]->Admission_0->Ok_0.free_base_quantity@,
        ),
{
    law_submit_follows_a_covering_truth(
        settings,
        projected,
        now,
        kill_switch_latched,
        states,
        actions,
        inputs,
        i,
    );
    law_sell_is_held_against_the_base_balance(settings, inputs[1]->Admission_0->Ok_0);
}

/// Where the filters pass and the truth refuses, the run records that refusal
/// and goes on to end with it; where the filters do not pass, with theirs.
pub proof fn law_refusal_ends_the_run(
    settings: LiveLifecycleSettings,
    run: LifecycleRun,
    input: LifecycleInput,
    step: LifecycleStep,
    end: LifecycleStep,
)
    requires
        is_step(settings, run, input, step),
        run.stage is FilterCheck,
        input is Filters,
        input->Filters_0 is Err || run.stage->FilterCheck_refusal is Some,
        is_step(settings, step.0, LifecycleInput::Appended(true), end),
    ensures
        step.1 is Append,
        step.1->Append_0 is Failed,
        end.1 is Finish,
        end.1->Finish_0 is Err,
        end.1->Finish_0->Err_0 is AdmissionRefused,
        input->Filters_0 is Err ==> end.1->Finish_0->Err_0->AdmissionRefused_0
            == LiveAdmissionRefusal::FiltersViolated,
        input->Filters_0 is Ok ==> Some(end.1->Finish_0->Err_0->AdmissionRefused_0)
            == run.stage->FilterCheck_refusal,
{
}

/// A run pauses between observations only while two queries beyond the next
/// one remain, and for the campaign's own interval.
pub proof fn law_watching_leaves_queries_for_the_cleanup(
    settings: LiveLifecycleSettings,
    run: LifecycleRun,
    input: LifecycleInput,
    step: LifecycleStep,
)
    requires
        is_step(settings, run, input, step),
        step.1 is Pause,
    ensures
        step.0.query_count + 1 + 2 <= settings.maximum_queries,
        step.1 == (LifecycleAction::Pause { nanos: settings.poll_interval_nanos }),
        !step.0.observation_satisfied,
{
}

/// Every query asks for the campaign's own order on its own symbol, and
/// raises the count of queries by one; no other step changes that count.
pub proof fn law_every_query_is_counted(
    settings: LiveLifecycleSettings,
    run: LifecycleRun,
    input: LifecycleInput,
    step: LifecycleStep,
)
    requires
        is_step(settings, run, input, step),
    ensures
        step.1 is Query ==> step.0.query_count == run.query_count + 1 && step.1 == (
        LifecycleAction::Query {
            symbol: settings.intent.symbol,
            client_order_id: settings.intent.client_order_id,
        }),
        !(step.1 is Query) ==> step.0.query_count == run.query_count,
{
}

/// A cancel goes to the order that the run knows, which is still active.
pub proof fn law_cancel_names_the_known_order(
    settings: LiveLifecycleSettings,
    run: LifecycleRun,
    input: LifecycleInput,
    step: LifecycleStep,
)
    requires
        is_step(settings, run, input, step),
        step.1 is Cancel,
    ensures
        step.0.order is Some,
        step.1 == (LifecycleAction::Cancel { order_id: step.0.order->0.id }),
{
}

/// A named pause never brings the next attempt forward: the deadline that a
/// new unknown outcome leaves is not before the one that stood.
pub proof fn law_retry_deadline_never_moves_forward(
    recorded_at: Timestamp,
    event: LifecycleEvent,
    campaign: ProjectedCampaign,
)
    requires
        after_unknown(recorded_at, event, campaign) is Ok,
    ensures
        ({
            let next = after_unknown(recorded_at, event, campaign)->Ok_0;
            &&& campaign.retry_not_before is Some ==> next.retry_not_before is Some
                && next.retry_not_before->0.rank() >= campaign.retry_not_before->0.rank()
            &&& event.retry_after is Some && event.retry_after->0.kind is Some
                && event.retry_after->0.kind->0@ == "at"@ ==> next.retry_not_before is Some
                && event.retry_after->0.at is Some && next.retry_not_before->0.rank()
                >= event.retry_after->0.at->0.rank()
            &&& event.retry_after is None ==> next == campaign
            &&& next.query_count == campaign.query_count
            &&& next.completed == campaign.completed
            &&& next.failed == campaign.failed
        }),
{
    reveal_strlit("at");
    reveal_strlit("seconds");
    assert("at"@.len() != "seconds"@.len());
}

/// The free balance of an asset is that of the first entry which names the
/// asset, in any case of letters, and zero where none does.
pub proof fn law_free_balance_is_the_first_entrys(
    balances: Seq<AssetBalance>,
    asset: Seq<char>,
    i: int,
)
    requires
        0 <= i < balances.len(),
        equal_ignoring_case(balances[i].asset@, asset),
        forall|j: int|
            0 <= j < i ==> !equal_ignoring_case(#[trigger] balances[j].asset@, asset),
    ensures
        free_balance(balances, asset) == balances[i].available_balance@,
    decreases i,
{
    if i > 0 {
        let rest = balances.skip(1);
        assert(rest[i - 1] == balances[i]);
        assert forall|j: int| 0 <= j < i - 1 implies !equal_ignoring_case(
            #[trigger] rest[j].asset@,
            asset,
        ) by {
            assert(rest[j] == balances[j + 1]);
        }
        assert(!equal_ignoring_case(balances[0].asset@, asset));
        law_free_balance_is_the_first_entrys(rest, asset, i - 1);
    }
}

/// Without an entry for the asset, nothing is free.
pub proof fn law_no_entry_means_no_free_balance(balances: Seq<AssetBalance>, asset: Seq<char>)
    requires
        forall|j: int|
            0 <= j < balances.len() ==> !equal_ignoring_case(#[trigger] balances[j].asset@, asset),
    ensures
        units(free_balance(balances, asset)) == 0,
    decreases balances.len(),
{
    crate::number_laws::law_sign_is_that_of_units((0i128, 0u32));
    if balances.len() > 0 {
        let rest = balances.skip(1);
        assert forall|j: int| 0 <= j < rest.len() implies !equal_ignoring_case(
            #[trigger] rest[j].asset@,
            asset,
        ) by {
            assert(rest[j] == balances[j + 1]);
        }
        assert(!equal_ignoring_case(balances[0].asset@, asset));
        law_no_entry_means_no_free_balance(rest, asset);
    }
}

/// The open orders on a symbol are all of those, in order, and no others.
pub proof fn law_open_orders_are_those_on_the_symbol(
    own: Seq<OwnOpenOrder>,
    own_next: OwnOpenOrder,
    foreign: Seq<ForeignOpenOrder>,
    foreign_next: ForeignOpenOrder,
    symbol: Seq<char>,
)
    ensures
        own_open_ids(Seq::empty(), symbol).len() == 0,
        own_open_ids(own.push(own_next), symbol) == if own_next.symbol@ == symbol {
            own_open_ids(own, symbol).push(Some(id_text(own_next.client_order_id)))
        } else {
            own_open_ids(own, symbol)
        },
        foreign_open_ids(Seq::empty(), symbol).len() == 0,
        foreign_open_ids(foreign.push(foreign_next), symbol) == if foreign_next.symbol@
            == symbol {
            foreign_open_ids(foreign, symbol).push(text_in(foreign_next.client_order_id))
        } else {
            foreign_open_ids(foreign, symbol)
        },
{
    assert(own.push(own_next).drop_last() =~= own);
    assert(foreign.push(foreign_next).drop_last() =~= foreign);
}

/// A submit whose outcome is ambiguous is never taken for a failure: it is
/// recorded as unknown and the venue is queried for the order. Any other error
/// fails the campaign with that error.
pub proof fn law_ambiguous_submit_is_queried(
    settings: LiveLifecycleSettings,
    run: LifecycleRun,
    error: ExchangeError,
    step: LifecycleStep,
    next: LifecycleStep,
)
    requires
        run.stage is Submit,
        is_step(settings, run, LifecycleInput::Answered(Err(error)), step),
        is_step(settings, step.0, LifecycleInput::Appended(true), next),
        run.query_count < settings.maximum_queries,
    ensures
        step.1 is Append,
        error is AmbiguousOutcome ==> step.1->Append_0 is OutcomeUnknown && next.1 is Append
            && next.1->Append_0 is QueryPlanned,
        !(error is AmbiguousOutcome) ==> step.1->Append_0 is Failed && next.1
            == LifecycleAction::Finish(Err(LiveLifecycleError::Exchange(error))),
{
}

/// An answer about another order is never recorded: the campaign stops where
/// the reported order is not its own, or a cancel not of the order it knows.
pub proof fn law_answers_must_be_about_the_own_order(
    settings: LiveLifecycleSettings,
    run: LifecycleRun,
    order: Order,
    step: LifecycleStep,
)
    requires
        run.stage is Submit || run.stage is Query || run.stage is Cancel,
        is_step(settings, run, LifecycleInput::Answered(Ok(order)), step),
    ensures
        step.1 is Append || step.1 == LifecycleAction::Finish(
            Err(LiveLifecycleError::ProtocolViolation),
        ),
        step.1 is Append ==> order.intent.client_order_id == settings.intent.client_order_id
            && order.intent.symbol@ == settings.intent.symbol@ && order.intent.side
            == settings.intent.side && order.id@.len() > 0,
        step.1 is Append && run.stage is Cancel ==> run.order is Some && order.id@
            == run.order->0.id@,
        step.1 is Append && run.stage is Submit ==> step.1->Append_0 == (
        LifecycleFact::SubmitObserved { order }) && step.0.order == Some(order),
        step.1 is Append && run.stage is Cancel ==> step.1->Append_0 == (
        LifecycleFact::CancelObserved { order }),
        step.1 is Append && run.stage is Query ==> step.1->Append_0 == (
        LifecycleFact::QueryObserved {
            purpose: run.stage->Query_0,
            order,
            query_sequence: run.query_count,
        }) && step.0.latest == Some(order),
{
}

/// A campaign starts where its journal left it: a completed one is reported
/// again, a failed one is refused, one that the venue asked to wait is refused
/// until then and no longer, and a latched kill switch refuses new campaigns
/// alone.
pub proof fn law_campaign_starts_where_its_journal_left_it(
    settings: LiveLifecycleSettings,
    projected: ProjectedCampaign,
    now: Timestamp,
    kill_switch_latched: bool,
    step: LifecycleStep,
)
    requires
        is_first_step(settings, projected, now, kill_switch_latched, step),
        projected.wire_symbol is Some ==> projected.wire_symbol->0@ == settings.wire_symbol@,
    ensures
        ({
            let over = projected.completed is Some;
            let failed = !over && projected.failed;
            let waits = projected.retry_not_before is Some && now.rank()
                < projected.retry_not_before->0.rank();
            let open = !over && !failed;
            &&& over ==> step.1 is Finish && step.1->Finish_0 is Ok
                && step.1->Finish_0->Ok_0.final_status == projected.completed->0.status
                && step.1->Finish_0->Ok_0.query_count == projected.query_count
                && step.1->Finish_0->Ok_0.recovered
            &&& failed ==> step.1 == LifecycleAction::Finish(
                Err(LiveLifecycleError::PreviouslyFailed),
            )
            &&& open && waits ==> step.1 is Finish && step.1->Finish_0 is Err
            &&& open && !waits && projected.planned ==> step.1 == LifecycleAction::Append(
                LifecycleFact::Resumed,
            )
            &&& open && !waits && !projected.planned && kill_switch_latched ==> step.1
                == LifecycleAction::Finish(Err(LiveLifecycleError::KillSwitchLatched))
            &&& open && !waits && !projected.planned && !kill_switch_latched ==> step.1
                == LifecycleAction::Append(LifecycleFact::Planned)
            &&& step.0.query_count == projected.query_count
            &&& step.0.recovered == projected.planned
        }),
{
}

/// A report is about the campaign's own order, with the status, the count of
/// queries and the recovery that its run came to.
pub proof fn law_report_is_about_the_own_order(
    settings: LiveLifecycleSettings,
    run: LifecycleRun,
    step: LifecycleStep,
)
    requires
        run.stage is CompleteAppend,
        is_step(settings, run, LifecycleInput::Appended(true), step),
        run.order is Some,
    ensures
        step.1 is Finish,
        step.1->Finish_0 is Ok,
        step.1->Finish_0->Ok_0.campaign_id == settings.campaign_id,
        step.1->Finish_0->Ok_0.client_order_id == settings.intent.client_order_id,
        step.1->Finish_0->Ok_0.server_order_id == run.order->0.id,
        step.1->Finish_0->Ok_0.final_status == run.order->0.status,
        step.1->Finish_0->Ok_0.query_count == run.query_count,
        step.1->Finish_0->Ok_0.recovered == run.recovered,
        step.1->Finish_0->Ok_0.expected_observation == settings.expected_observation,
{
}

/// What a query after the cancel shows decides: a cancelled order confirms it,
/// an active one leaves it unknown, and any other end is unsafe.
pub proof fn law_confirming_query_decides_the_end(
    settings: LiveLifecycleSettings,
    run: LifecycleRun,
    step: LifecycleStep,
)
    requires
        run.stage == LifecycleStage::QueryAppend(QueryPurpose::PostCancel),
        is_step(settings, run, LifecycleInput::Appended(true), step),
        run.latest is Some,
        run.order is Some,
        run.order->0.id@ == run.latest->0.id@,
    ensures
        ({
            let status = run.latest->0.status;
            let satisfied = run.cleanup == Some(CancelReason::ObservationSatisfied);
            &&& step.1 is Append
            &&& status == OrderStatus::Cancelled && satisfied ==> step.1->Append_0 == (
            LifecycleFact::Completed { order: run.latest->0 })
            &&& status == OrderStatus::Cancelled && !satisfied ==> step.1->Append_0 is Failed
                && step.1->Append_0->Failed_failure == LifecycleFailure::ObservationNotReached
                && step.0.stage == LifecycleStage::LastAppend(
                LiveLifecycleError::ObservationNotReached,
            )
            &&& status == OrderStatus::Open || status == OrderStatus::PartiallyFilled || status
                == OrderStatus::Pending ==> step.1->Append_0 is CancelNotTerminal
            &&& status == OrderStatus::Filled || status == OrderStatus::Rejected
                ==> step.1->Append_0 is Failed && step.0.stage is UnsafeAppend
        }),
{
}

/// After its first look at a new order a run watches it: a satisfied
/// observation, an order that is over, or a used-up budget end the watch.
pub proof fn law_watch_ends_with_what_was_seen(
    settings: LiveLifecycleSettings,
    run: LifecycleRun,
    step: LifecycleStep,
)
    requires
        run.stage == LifecycleStage::QueryAppend(QueryPurpose::Observation),
        is_step(settings, run, LifecycleInput::Appended(true), step),
        run.latest is Some,
    ensures
        ({
            let status = run.latest->0.status;
            let satisfied = run.observation_satisfied || (settings.expected_observation
                == LiveLifecycleObservation::Open && status == OrderStatus::Open) || (
            settings.expected_observation == LiveLifecycleObservation::PartiallyFilled && status
                == OrderStatus::PartiallyFilled);
            &&& step.0.order == run.latest || step.1 is Finish
            &&& step.0.observation_satisfied == satisfied
            &&& step.1 is Pause ==> !satisfied
            &&& !satisfied && (status == OrderStatus::Filled || status == OrderStatus::Cancelled
                || status == OrderStatus::Rejected) ==> step.0.stage is UnsafeAppend
            &&& step.1 is Append && step.1->Append_0 is CancelPlanned ==> (
            step.1->Append_0->CancelPlanned_reason == CancelReason::ObservationSatisfied
                <==> satisfied) && step.1->Append_0->CancelPlanned_server_order_id
                == run.latest->0.id
        }),
{
}

/// A run whose submit is recorded asks the venue for the order first, as its
/// first query.
pub proof fn law_first_query_follows_the_submit(
    settings: LiveLifecycleSettings,
    run: LifecycleRun,
    step: LifecycleStep,
)
    requires
        run.stage is SubmitAppend,
        !run.recovered,
        run.cancel_reason is None,
        run.query_count == 0,
        settings.maximum_queries > 0,
        is_step(settings, run, LifecycleInput::Appended(true), step),
    ensures
        step.1 == LifecycleAction::Append(
            LifecycleFact::QueryPlanned { purpose: QueryPurpose::PostSubmit, query_sequence: 1 },
        ),
{
}

/// A recovered run resumes the cleanup that was planned before it: it cancels
/// the order that the venue shows, where that is still active and its own.
pub proof fn law_planned_cleanup_is_resumed(
    settings: LiveLifecycleSettings,
    run: LifecycleRun,
    step: LifecycleStep,
)
    requires
        run.stage == LifecycleStage::QueryAppend(QueryPurpose::Recovery),
        is_step(settings, run, LifecycleInput::Appended(true), step),
        run.latest is Some,
        run.cancel_reason is Some,
        valid_order(settings, run.latest->0, None),
        run.query_count < settings.maximum_queries,
    ensures
        run.latest->0.status == OrderStatus::Open || run.latest->0.status
            == OrderStatus::PartiallyFilled || run.latest->0.status == OrderStatus::Pending
            ==> step.1 == (LifecycleAction::Cancel { order_id: run.latest->0.id })
            && step.0.cleanup == run.cancel_reason,
        run.latest->0.status == OrderStatus::Cancelled && run.cancel_reason == Some(
            CancelReason::ObservationSatisfied,
        ) ==> step.1 == LifecycleAction::Append(LifecycleFact::Completed { order: run.latest->0 }),
        run.latest->0.status == OrderStatus::Filled || run.latest->0.status
            == OrderStatus::Rejected ==> step.0.stage is UnsafeAppend,
{
}

/// A cancel that is not answered is recorded as unknown. It is confirmed by a
/// query at once, unless the venue asked for a pause: the run ends there, with
/// the outcome unknown. An answered cancel is confirmed by a query too.
pub proof fn law_every_cancel_is_confirmed_by_a_query(
    settings: LiveLifecycleSettings,
    run: LifecycleRun,
    answer: Result<Order, ExchangeError>,
    step: LifecycleStep,
    next: LifecycleStep,
)
    requires
        run.stage is Cancel,
        run.query_count < settings.maximum_queries,
        is_step(settings, run, LifecycleInput::Answered(answer), step),
        is_step(settings, step.0, LifecycleInput::Appended(true), next),
        step.1 is Append,
    ensures
        answer is Err ==> step.1->Append_0 is OutcomeUnknown,
        answer is Ok ==> step.1->Append_0 == (LifecycleFact::CancelObserved { order: answer->Ok_0 }),
        answer is Err && defers_confirmation(answer->Err_0) ==> next.1 == LifecycleAction::Finish(
            Err(LiveLifecycleError::OutcomeUnknown),
        ),
        answer is Ok || !defers_confirmation(answer->Err_0) ==> next.1 == LifecycleAction::Append(
            LifecycleFact::QueryPlanned {
                purpose: QueryPurpose::PostCancel,
                query_sequence: (run.query_count + 1) as u32,
            },
        ),
{
}

/// Of all facts that a campaign writes, the kill fact alone engages the
/// switch, whatever campaign wrote it.
pub proof fn law_only_the_kill_fact_engages_the_switch(event: LifecycleEvent, fact: LifecycleFact)
    requires
        event.strategy is Some,
        event.strategy->0@ == STRATEGY@,
        event.decision is Some,
        event.decision->0@ == decision_label(fact_decision(fact)),
    ensures
        engages_kill_switch(event) <==> fact is KillSwitchEngaged,
{
    law_decision_label_reads_back(fact_decision(fact));
    law_decision_label_reads_back(LifecycleDecision::KillSwitchEngaged);
}

} // verus!
