//! The journal of a live campaign can be read back at every point of a run.
//!
//! Whatever fact a run has just made durable, the projection of the journal
//! accepts it and knows what the run knows. So a run that stops anywhere can
//! be taken up again: the plan is seen, the queries are counted, and a planned
//! cancel is carried on.

use crate::domain::{
    lemma_same_intent_transitive, same_intent, ExchangeError, Order, OrderStatus, RemoteRetryAfter,
};
use crate::decimal::same_number;
use crate::live_laws::is_run;
use crate::live_lifecycle::{
    cancel_reason_label, law_cancel_reason_label_reads_back, law_observation_label_reads_back,
    observation_label, poll_millis, safe_settings, valid_order, CancelReason, LiveLifecycleSettings,
    LIVE_LIFECYCLE_SCHEMA_VERSION, STRATEGY,
};
use crate::live_projection::{
    after_event, decision_label, in_progress, law_decision_label_reads_back, LifecycleDecision,
    LifecycleEvent, ProjectedCampaign, Projection, RecordedEvent,
};
use crate::live_run::{
    after_append, fact_decision, is_first_step, is_step, LifecycleAction, LifecycleFact,
    LifecycleInput, LifecycleRun, LifecycleStage, LifecycleStep, QueryPurpose,
};
use crate::timestamp::{advanced, Timestamp, NANOS_PER_SECOND};
use vstd::prelude::*;

verus! {

/// The two orders are the same order in the same state.
pub open spec fn same_order(a: Order, b: Order) -> bool {
    a.id@ == b.id@ && a.status == b.status && same_intent(a.intent, b.intent)
}

/// The event carries an order that is the same as `order`.
pub open spec fn carries_order(event: LifecycleEvent, order: Order) -> bool {
    event.order is Some && same_order(event.order->0, order)
}

/// The pause that a venue asked for, if the failure names one.
pub open spec fn named_pause(error: ExchangeError) -> Option<RemoteRetryAfter> {
    match error {
        ExchangeError::RemoteFailure(remote) => remote.retry_after,
        _ => None,
    }
}

/// The event carries the pause that a venue asked for, and no other.
pub open spec fn carries_pause(event: LifecycleEvent, pause: Option<RemoteRetryAfter>) -> bool {
    match pause {
        None => event.retry_after is None,
        Some(RemoteRetryAfter::Seconds(seconds)) => {
            &&& event.retry_after is Some
            &&& event.retry_after->0.kind is Some
            &&& event.retry_after->0.kind->0@ == "seconds"@
            &&& event.retry_after->0.seconds == Some(seconds)
        },
        Some(RemoteRetryAfter::At(deadline)) => {
            &&& event.retry_after is Some
            &&& event.retry_after->0.kind is Some
            &&& event.retry_after->0.kind->0@ == "at"@
            &&& event.retry_after->0.at == Some(deadline)
        },
    }
}

/// The event holds what the fact was written with.
pub open spec fn reads_as(
    settings: LiveLifecycleSettings,
    event: LifecycleEvent,
    fact: LifecycleFact,
) -> bool {
    &&& event.strategy is Some
    &&& event.strategy->0@ == STRATEGY@
    &&& event.has_details
    &&& event.campaign_id is Some
    &&& event.campaign_id->0@ == settings.campaign_id@
    &&& event.schema_version == Some(LIVE_LIFECYCLE_SCHEMA_VERSION as u64)
    &&& event.client_order_id == Some(settings.intent.client_order_id)
    &&& event.decision is Some
    &&& event.decision->0@ == decision_label(fact_decision(fact))
    &&& match fact {
        LifecycleFact::Planned => {
            &&& event.intent is Some
            &&& same_intent(event.intent->0, settings.intent)
            &&& event.expected_observation is Some
            &&& event.expected_observation->0@ == observation_label(settings.expected_observation)
            &&& event.wire_symbol is Some
            &&& event.wire_symbol->0@ == settings.wire_symbol@
            &&& event.poll_interval_ms is Some
            &&& event.poll_interval_ms->0 == poll_millis(settings)
            &&& event.maximum_queries == Some(settings.maximum_queries as u64)
            &&& event.max_notional is Some
            &&& same_number(event.max_notional->0@, settings.max_notional@)
            &&& event.allow_foreign_orders == Some(settings.allow_foreign_orders)
        },
        LifecycleFact::QueryPlanned { query_sequence, .. } => event.query_sequence == Some(
            query_sequence as u64,
        ),
        LifecycleFact::SubmitObserved { order } => carries_order(event, order),
        LifecycleFact::QueryObserved { order, query_sequence, .. } => carries_order(event, order)
            && event.query_sequence == Some(query_sequence as u64),
        LifecycleFact::CancelPlanned { server_order_id, reason } => {
            &&& event.server_order_id is Some
            &&& event.server_order_id->0@ == server_order_id@
            &&& event.reason is Some
            &&& event.reason->0@ == cancel_reason_label(reason)
        },
        LifecycleFact::CancelObserved { order } => carries_order(event, order),
        LifecycleFact::OutcomeUnknown { error, .. } => carries_pause(event, named_pause(error)),
        LifecycleFact::QueryBudgetExhausted { .. } => carries_pause(event, None),
        LifecycleFact::CancelNotTerminal { .. } => carries_pause(event, None),
        LifecycleFact::Completed { order } => carries_order(event, order),
        _ => true,
    }
}

/// The end of the pause that the fact names lies within the clock.
pub open spec fn pause_fits(recorded_at: Timestamp, fact: LifecycleFact) -> bool {
    match fact {
        LifecycleFact::OutcomeUnknown { error, .. } => match named_pause(error) {
            Some(RemoteRetryAfter::Seconds(seconds)) => advanced(
                recorded_at,
                seconds * NANOS_PER_SECOND,
            ) is Some,
            _ => true,
        },
        _ => true,
    }
}

/// What every journal that can be read says of a campaign.
pub open spec fn campaign_is_sound(
    settings: LiveLifecycleSettings,
    campaign: ProjectedCampaign,
) -> bool {
    &&& campaign.query_count <= settings.maximum_queries
    &&& campaign.planned ==> campaign.wire_symbol is Some
    &&& campaign.last_observed_query_sequence is Some ==> campaign.last_observed_query_sequence->0
        <= campaign.query_count
    &&& campaign.cancel_reason == Some(CancelReason::ObservationSatisfied)
        ==> campaign.observation_satisfied
    &&& campaign.cancel_reason is Some ==> campaign.server_order_id is Some
    &&& campaign.completed is Some ==> campaign.completed->0.status == OrderStatus::Cancelled
    &&& !campaign.planned ==> campaign.cancel_reason is None && !campaign.observation_satisfied
        && campaign.server_order_id is None && campaign.query_count == 0
        && campaign.last_observed_query_sequence is None && campaign.completed is None
        && !campaign.failed && campaign.wire_symbol is None
}

/// Reading one more event keeps a campaign sound.
pub proof fn law_projection_keeps_campaigns_sound(
    settings: LiveLifecycleSettings,
    recorded_at: Timestamp,
    event: LifecycleEvent,
    campaign: ProjectedCampaign,
)
    requires
        campaign_is_sound(settings, campaign),
        after_event(settings, recorded_at, event, campaign) is Ok,
    ensures
        campaign_is_sound(settings, after_event(settings, recorded_at, event, campaign)->Ok_0),
{
}

/// The cancel plan that is durable while the run is in this stage.
pub open spec fn durable_cancel(run: LifecycleRun) -> Option<CancelReason> {
    if run.cancel_reason is Some {
        run.cancel_reason
    } else {
        match run.stage {
            LifecycleStage::Cancel
            | LifecycleStage::CancelAppend
            | LifecycleStage::CancelUnknownAppend { .. }
            | LifecycleStage::CompleteAppend => run.cleanup,
            LifecycleStage::QueryPlanAppend(purpose)
            | LifecycleStage::Query(purpose)
            | LifecycleStage::QueryAppend(purpose) => if purpose == QueryPurpose::PostCancel {
                run.cleanup
            } else {
                None
            },
            _ => None,
        }
    }
}

/// The stage lies before the answer to the submit is durable.
pub open spec fn before_submit_is_known(stage: LifecycleStage) -> bool {
    stage is Admission || stage is AdmissionAppend || stage is FilterCheck || stage is Submit
        || stage is SubmitAppend || stage is SubmitUnknownAppend
}

/// The run watches its order for the expected observation.
pub open spec fn watches(stage: LifecycleStage) -> bool {
    match stage {
        LifecycleStage::Pause => true,
        LifecycleStage::QueryPlanAppend(purpose)
        | LifecycleStage::Query(purpose)
        | LifecycleStage::QueryAppend(purpose) => purpose == QueryPurpose::PostSubmit || purpose
            == QueryPurpose::Observation,
        _ => false,
    }
}

/// The journal knows the order under its server identity.
pub open spec fn order_is_known(campaign: ProjectedCampaign, order: Order) -> bool {
    campaign.server_order_id is Some && campaign.server_order_id->0@ == order.id@
}

/// The journal and the run agree, while the run is between its plan and its
/// end.
pub open spec fn ongoing(
    settings: LiveLifecycleSettings,
    run: LifecycleRun,
    campaign: ProjectedCampaign,
) -> bool {
    &&& in_progress(campaign)
    &&& campaign.wire_symbol is Some
    &&& campaign.wire_symbol->0@ == settings.wire_symbol@
    &&& campaign.cancel_reason == durable_cancel(run)
    &&& campaign.cancel_reason is None ==> campaign.observation_satisfied
        == run.observation_satisfied
    &&& run.order is Some ==> valid_order(settings, run.order->0, None)
    &&& run.order is Some && !(run.stage is SubmitAppend) ==> order_is_known(campaign, run.order->0)
    &&& watches(run.stage) ==> run.cancel_reason is None
    &&& before_submit_is_known(run.stage) ==> campaign.server_order_id is None && run.query_count
        == 0 && run.cancel_reason is None && !run.observation_satisfied && !run.recovered
        && campaign.last_observed_query_sequence is None
}

/// The run cleans up an order that it knows, for a reason that fits.
pub open spec fn cleans_up(run: LifecycleRun) -> bool {
    run.order is Some && run.cleanup is Some && (run.cancel_reason is Some ==> run.cancel_reason
        == run.cleanup)
}

/// The journal and the run agree, and the fact that the run is about to append
/// is the one of its stage.
pub open spec fn journal_agrees(
    settings: LiveLifecycleSettings,
    run: LifecycleRun,
    action: LifecycleAction,
    campaign: ProjectedCampaign,
) -> bool {
    let fact = action->Append_0;
    &&& campaign_is_sound(settings, campaign)
    &&& campaign.query_count == run.query_count
    &&& match run.stage {
        LifecycleStage::Finished => true,
        LifecycleStage::PlanAppend => {
            &&& !campaign.planned
            &&& action == LifecycleAction::Append(LifecycleFact::Planned)
            &&& run.order is None
            &&& !run.recovered
            &&& run.cancel_reason is None
            &&& !run.observation_satisfied
        },
        LifecycleStage::LastAppend(_) => {
            &&& action is Append
            &&& campaign.planned
            &&& fact is KillSwitchEngaged || (in_progress(campaign) && (fact is Failed
                || fact is OutcomeUnknown || fact is QueryBudgetExhausted
                || fact is CancelNotTerminal))
        },
        LifecycleStage::UnsafeAppend { .. } => in_progress(campaign) && action is Append
            && fact is Failed,
        LifecycleStage::ResumeAppend => ongoing(settings, run, campaign) && action
            == LifecycleAction::Append(LifecycleFact::Resumed) && run.recovered,
        LifecycleStage::AdmissionAppend { .. } => ongoing(settings, run, campaign) && action
            is Append && fact is AdmissionObserved,
        LifecycleStage::SubmitAppend => ongoing(settings, run, campaign) && run.order is Some
            && action == LifecycleAction::Append(
            LifecycleFact::SubmitObserved { order: run.order->0 },
        ),
        LifecycleStage::SubmitUnknownAppend => ongoing(settings, run, campaign) && action is Append
            && fact is OutcomeUnknown && run.order is None,
        LifecycleStage::QueryPlanAppend(purpose) => {
            &&& ongoing(settings, run, campaign)
            &&& run.query_count < settings.maximum_queries
            &&& action == LifecycleAction::Append(
                LifecycleFact::QueryPlanned {
                    purpose,
                    query_sequence: (run.query_count + 1) as u32,
                },
            )
            &&& purpose == QueryPurpose::PostCancel ==> cleans_up(run)
        },
        LifecycleStage::Query(purpose) => {
            &&& ongoing(settings, run, campaign)
            &&& run.query_count > 0
            &&& campaign.last_observed_query_sequence is Some
                ==> campaign.last_observed_query_sequence->0 < run.query_count
            &&& purpose == QueryPurpose::PostCancel ==> cleans_up(run)
        },
        LifecycleStage::QueryAppend(purpose) => {
            &&& ongoing(settings, run, campaign)
            &&& run.query_count > 0
            &&& campaign.last_observed_query_sequence is Some
                ==> campaign.last_observed_query_sequence->0 < run.query_count
            &&& run.latest is Some
            &&& valid_order(settings, run.latest->0, None)
            &&& campaign.server_order_id is Some ==> order_is_known(campaign, run.latest->0)
            &&& action == LifecycleAction::Append(
                LifecycleFact::QueryObserved {
                    purpose,
                    order: run.latest->0,
                    query_sequence: run.query_count,
                },
            )
            &&& purpose == QueryPurpose::PostCancel ==> cleans_up(run)
        },
        LifecycleStage::CancelPlanAppend => {
            &&& ongoing(settings, run, campaign)
            &&& cleans_up(run)
            &&& run.cancel_reason is None
            &&& (run.cleanup == Some(CancelReason::ObservationSatisfied))
                == run.observation_satisfied
            &&& action == LifecycleAction::Append(
                LifecycleFact::CancelPlanned {
                    server_order_id: run.order->0.id,
                    reason: run.cleanup->0,
                },
            )
        },
        LifecycleStage::Cancel => ongoing(settings, run, campaign) && cleans_up(run),
        LifecycleStage::CancelAppend => {
            &&& ongoing(settings, run, campaign)
            &&& cleans_up(run)
            &&& action is Append
            &&& fact is CancelObserved
            &&& valid_order(settings, fact->CancelObserved_order, Some(run.order->0.id@))
        },
        LifecycleStage::CancelUnknownAppend { .. } => ongoing(settings, run, campaign) && cleans_up(
            run,
        ) && action is Append && fact is OutcomeUnknown,
        LifecycleStage::CompleteAppend => {
            &&& ongoing(settings, run, campaign)
            &&& cleans_up(run)
            &&& run.cleanup == Some(CancelReason::ObservationSatisfied)
            &&& run.order->0.status == OrderStatus::Cancelled
            &&& action == LifecycleAction::Append(
                LifecycleFact::Completed { order: run.order->0 },
            )
        },
        _ => ongoing(settings, run, campaign),
    }
}

/// The fact that the run is about to append is accepted by the projection,
/// and the journal agrees with the run that goes on from there.
pub open spec fn append_is_read_back(
    settings: LiveLifecycleSettings,
    run: LifecycleRun,
    campaign: ProjectedCampaign,
    event: LifecycleEvent,
    recorded_at: Timestamp,
) -> bool {
    let next = after_event(settings, recorded_at, event, campaign);
    let step = after_append(settings, run);
    next is Ok && journal_agrees(settings, step.0, step.1, next->Ok_0)
}

proof fn lemma_orders_read_back(
    settings: LiveLifecycleSettings,
    event: LifecycleEvent,
    order: Order,
    expected: Option<Seq<char>>,
)
    requires
        carries_order(event, order),
        valid_order(settings, order, expected),
    ensures
        valid_order(settings, event.order->0, None),
        event.order->0.id@ == order.id@,
        event.order->0.status == order.status,
{
    lemma_same_intent_transitive(event.order->0.intent, order.intent, settings.intent);
}

#[verifier::rlimit(50)]
proof fn lemma_plan_read_back(
    settings: LiveLifecycleSettings,
    run: LifecycleRun,
    action: LifecycleAction,
    campaign: ProjectedCampaign,
    event: LifecycleEvent,
    recorded_at: Timestamp,
)
    requires
        safe_settings(settings),
        journal_agrees(settings, run, action, campaign),
        action is Append,
        reads_as(settings, event, action->Append_0),
        run.stage is PlanAppend,
    ensures
        append_is_read_back(settings, run, campaign, event, recorded_at),
{
    law_decision_label_reads_back(LifecycleDecision::Planned);
    law_observation_label_reads_back(settings.expected_observation);
}

#[verifier::rlimit(50)]
proof fn lemma_notes_read_back(
    settings: LiveLifecycleSettings,
    run: LifecycleRun,
    action: LifecycleAction,
    campaign: ProjectedCampaign,
    event: LifecycleEvent,
    recorded_at: Timestamp,
)
    requires
        safe_settings(settings),
        journal_agrees(settings, run, action, campaign),
        action is Append,
        reads_as(settings, event, action->Append_0),
        pause_fits(recorded_at, action->Append_0),
        run.stage is ResumeAppend || run.stage is AdmissionAppend || run.stage
            is SubmitUnknownAppend || run.stage is CancelUnknownAppend || run.stage is UnsafeAppend
            || run.stage is LastAppend,
    ensures
        append_is_read_back(settings, run, campaign, event, recorded_at),
{
    law_decision_label_reads_back(fact_decision(action->Append_0));
    reveal_strlit("seconds");
    reveal_strlit("at");
    assert("seconds"@.len() != "at"@.len());
}

#[verifier::rlimit(50)]
proof fn lemma_query_plan_read_back(
    settings: LiveLifecycleSettings,
    run: LifecycleRun,
    action: LifecycleAction,
    campaign: ProjectedCampaign,
    event: LifecycleEvent,
    recorded_at: Timestamp,
)
    requires
        safe_settings(settings),
        journal_agrees(settings, run, action, campaign),
        action is Append,
        reads_as(settings, event, action->Append_0),
        run.stage is QueryPlanAppend || run.stage is CancelPlanAppend,
    ensures
        append_is_read_back(settings, run, campaign, event, recorded_at),
{
    law_decision_label_reads_back(fact_decision(action->Append_0));
    if run.stage is CancelPlanAppend {
        law_cancel_reason_label_reads_back(run.cleanup->0);
    }
}

#[verifier::rlimit(80)]
proof fn lemma_order_read_back(
    settings: LiveLifecycleSettings,
    run: LifecycleRun,
    action: LifecycleAction,
    campaign: ProjectedCampaign,
    event: LifecycleEvent,
    recorded_at: Timestamp,
)
    requires
        safe_settings(settings),
        journal_agrees(settings, run, action, campaign),
        action is Append,
        reads_as(settings, event, action->Append_0),
        run.stage is SubmitAppend || run.stage is CancelAppend || run.stage is CompleteAppend,
    ensures
        append_is_read_back(settings, run, campaign, event, recorded_at),
{
    law_decision_label_reads_back(fact_decision(action->Append_0));
    if run.stage is SubmitAppend {
        lemma_orders_read_back(settings, event, run.order->0, None);
    } else if run.stage is CancelAppend {
        lemma_orders_read_back(
            settings,
            event,
            action->Append_0->CancelObserved_order,
            Some(run.order->0.id@),
        );
    } else {
        lemma_orders_read_back(settings, event, run.order->0, None);
    }
}

#[verifier::rlimit(100)]
proof fn lemma_query_read_back(
    settings: LiveLifecycleSettings,
    run: LifecycleRun,
    action: LifecycleAction,
    campaign: ProjectedCampaign,
    event: LifecycleEvent,
    recorded_at: Timestamp,
)
    requires
        safe_settings(settings),
        journal_agrees(settings, run, action, campaign),
        action is Append,
        reads_as(settings, event, action->Append_0),
        run.stage is QueryAppend,
    ensures
        append_is_read_back(settings, run, campaign, event, recorded_at),
{
    law_decision_label_reads_back(fact_decision(action->Append_0));
    lemma_orders_read_back(settings, event, run.latest->0, None);
}

/// Whatever fact a run appends, the projection of the journal accepts it, and
/// the journal agrees with what the run then knows. The one fact left out
/// names a pause that ends beyond the clock.
pub proof fn law_appended_facts_are_read_back(
    settings: LiveLifecycleSettings,
    run: LifecycleRun,
    action: LifecycleAction,
    campaign: ProjectedCampaign,
    event: LifecycleEvent,
    recorded_at: Timestamp,
)
    requires
        safe_settings(settings),
        journal_agrees(settings, run, action, campaign),
        action is Append,
        reads_as(settings, event, action->Append_0),
        pause_fits(recorded_at, action->Append_0),
        stage_appends(run.stage),
    ensures
        append_is_read_back(settings, run, campaign, event, recorded_at),
{
    match run.stage {
        LifecycleStage::PlanAppend => lemma_plan_read_back(
            settings,
            run,
            action,
            campaign,
            event,
            recorded_at,
        ),
        LifecycleStage::QueryPlanAppend(_)
        | LifecycleStage::CancelPlanAppend => lemma_query_plan_read_back(
            settings,
            run,
            action,
            campaign,
            event,
            recorded_at,
        ),
        LifecycleStage::SubmitAppend
        | LifecycleStage::CancelAppend
        | LifecycleStage::CompleteAppend => lemma_order_read_back(
            settings,
            run,
            action,
            campaign,
            event,
            recorded_at,
        ),
        LifecycleStage::QueryAppend(_) => lemma_query_read_back(
            settings,
            run,
            action,
            campaign,
            event,
            recorded_at,
        ),
        _ => lemma_notes_read_back(settings, run, action, campaign, event, recorded_at),
    }
}

/// The stage waits for a fact to become durable.
pub open spec fn stage_appends(stage: LifecycleStage) -> bool {
    match stage {
        LifecycleStage::Admission
        | LifecycleStage::FilterCheck { .. }
        | LifecycleStage::Submit
        | LifecycleStage::Query(_)
        | LifecycleStage::Pause
        | LifecycleStage::Cancel
        | LifecycleStage::Finished => false,
        _ => true,
    }
}

/// The venue reports its order under the one identity that the journal knows.
pub open spec fn answer_is_consistent(campaign: ProjectedCampaign, input: LifecycleInput) -> bool {
    match input {
        LifecycleInput::Answered(Ok(order)) => campaign.server_order_id is Some ==> order_is_known(
            campaign,
            order,
        ),
        _ => true,
    }
}

/// A step that appends nothing leaves the journal and the run in agreement.
#[verifier::rlimit(100)]
pub proof fn law_other_steps_keep_the_journal_in_agreement(
    settings: LiveLifecycleSettings,
    run: LifecycleRun,
    action: LifecycleAction,
    campaign: ProjectedCampaign,
    input: LifecycleInput,
    step: LifecycleStep,
)
    requires
        safe_settings(settings),
        journal_agrees(settings, run, action, campaign),
        is_step(settings, run, input, step),
        input != LifecycleInput::Appended(true),
        answer_is_consistent(campaign, input),
    ensures
        journal_agrees(settings, step.0, step.1, campaign),
{
}

/// The first step of a run starts in agreement with the journal.
pub proof fn law_first_step_agrees_with_the_journal(
    settings: LiveLifecycleSettings,
    campaign: ProjectedCampaign,
    now: Timestamp,
    kill_switch_latched: bool,
    step: LifecycleStep,
)
    requires
        campaign_is_sound(settings, campaign),
        is_first_step(settings, campaign, now, kill_switch_latched, step),
    ensures
        journal_agrees(settings, step.0, step.1, campaign),
{
}

/// The run made the fact of its `i`-th action durable.
pub open spec fn fact_is_durable(
    actions: Seq<LifecycleAction>,
    inputs: Seq<LifecycleInput>,
    i: int,
) -> bool {
    actions[i] is Append && inputs[i] == LifecycleInput::Appended(true)
}

/// What the journal says of the campaign after the first `n` inputs of a run:
/// the journal before the run, and every fact that became durable since, each
/// read from its own event.
pub open spec fn journal_after(
    settings: LiveLifecycleSettings,
    before: ProjectedCampaign,
    actions: Seq<LifecycleAction>,
    inputs: Seq<LifecycleInput>,
    events: Seq<RecordedEvent>,
    n: int,
) -> Projection
    decreases n,
{
    if n <= 0 {
        Ok(before)
    } else {
        match journal_after(settings, before, actions, inputs, events, n - 1) {
            Err(error) => Err(error),
            Ok(campaign) => if fact_is_durable(actions, inputs, n - 1) {
                after_event(
                    settings,
                    events[n - 1].recorded_at,
                    events[n - 1].event,
                    campaign,
                )
            } else {
                Ok(campaign)
            },
        }
    }
}

/// The events are those of the facts, the venue reports one order, and the
/// durability of a fact is reported only where one was asked for.
pub open spec fn is_faithful(
    settings: LiveLifecycleSettings,
    before: ProjectedCampaign,
    actions: Seq<LifecycleAction>,
    inputs: Seq<LifecycleInput>,
    events: Seq<RecordedEvent>,
) -> bool {
    &&& events.len() == inputs.len()
    &&& forall|i: int|
        0 <= i < inputs.len() ==> (#[trigger] inputs[i] == LifecycleInput::Appended(true)
            ==> actions[i] is Append && reads_as(settings, events[i].event, actions[i]->Append_0)
            && pause_fits(events[i].recorded_at, actions[i]->Append_0))
    &&& forall|i: int|
        0 <= i < inputs.len() && journal_after(
            settings,
            before,
            actions,
            inputs,
            events,
            i,
        ) is Ok ==> answer_is_consistent(
            journal_after(settings, before, actions, inputs, events, i)->Ok_0,
            #[trigger] inputs[i],
        )
}

/// A run waits for durability exactly where it asked for an append.
proof fn lemma_append_comes_from_an_append_stage(
    settings: LiveLifecycleSettings,
    projected: ProjectedCampaign,
    now: Timestamp,
    latched: bool,
    states: Seq<LifecycleRun>,
    actions: Seq<LifecycleAction>,
    inputs: Seq<LifecycleInput>,
    i: int,
)
    requires
        is_run(settings, projected, now, latched, states, actions, inputs),
        0 <= i < states.len(),
    ensures
        actions[i] is Append <==> stage_appends(states[i].stage),
{
    if i > 0 {
        let k = i - 1;
        assert(is_step(settings, states[k], inputs[k], (states[k + 1], actions[k + 1])));
        lemma_append_stage(settings, states[k], inputs[k], (states[k + 1], actions[k + 1]));
    }
}

#[verifier::rlimit(50)]
proof fn lemma_append_stage(
    settings: LiveLifecycleSettings,
    run: LifecycleRun,
    input: LifecycleInput,
    step: LifecycleStep,
)
    requires
        is_step(settings, run, input, step),
    ensures
        step.1 is Append <==> stage_appends(step.0.stage),
{
}

/// At every point of a run the journal can be read: no fact that the run made
/// durable is out of place, the journal knows the plan as soon as it is
/// durable, and it counts the queries that the run counts.
pub proof fn law_journal_stays_readable(
    settings: LiveLifecycleSettings,
    before: ProjectedCampaign,
    now: Timestamp,
    kill_switch_latched: bool,
    states: Seq<LifecycleRun>,
    actions: Seq<LifecycleAction>,
    inputs: Seq<LifecycleInput>,
    events: Seq<RecordedEvent>,
    n: int,
)
    requires
        safe_settings(settings),
        campaign_is_sound(settings, before),
        is_run(settings, before, now, kill_switch_latched, states, actions, inputs),
        is_faithful(settings, before, actions, inputs, events),
        0 <= n < states.len(),
    ensures
        ({
            let journal = journal_after(settings, before, actions, inputs, events, n);
            &&& journal is Ok
            &&& journal_agrees(settings, states[n], actions[n], journal->Ok_0)
            &&& journal->Ok_0.query_count == states[n].query_count
            &&& n > 0 && inputs[0] == LifecycleInput::Appended(true) ==> journal->Ok_0.planned
        }),
    decreases n,
{
    if n == 0 {
        law_first_step_agrees_with_the_journal(
            settings,
            before,
            now,
            kill_switch_latched,
            (states[0], actions[0]),
        );
    } else {
        let k = n - 1;
        law_journal_stays_readable(
            settings,
            before,
            now,
            kill_switch_latched,
            states,
            actions,
            inputs,
            events,
            k,
        );
        let campaign = journal_after(settings, before, actions, inputs, events, k)->Ok_0;
        assert(is_step(settings, states[k], inputs[k], (states[k + 1], actions[k + 1])));
        assert(answer_is_consistent(campaign, inputs[k]));
        if inputs[k] == LifecycleInput::Appended(true) {
            lemma_append_comes_from_an_append_stage(
                settings,
                before,
                now,
                kill_switch_latched,
                states,
                actions,
                inputs,
                k,
            );
            law_appended_facts_are_read_back(
                settings,
                states[k],
                actions[k],
                campaign,
                events[k].event,
                events[k].recorded_at,
            );
            lemma_append_is_the_step(
                settings,
                states[k],
                inputs[k],
                (states[k + 1], actions[k + 1]),
            );
            lemma_plan_stays(settings, events[k].recorded_at, events[k].event, campaign);
            lemma_first_plan(
                settings,
                states[k],
                actions[k],
                campaign,
                events[k].event,
                events[k].recorded_at,
            );
        } else {
            law_other_steps_keep_the_journal_in_agreement(
                settings,
                states[k],
                actions[k],
                campaign,
                inputs[k],
                (states[k + 1], actions[k + 1]),
            );
        }
    }
}

proof fn lemma_append_is_the_step(
    settings: LiveLifecycleSettings,
    run: LifecycleRun,
    input: LifecycleInput,
    step: LifecycleStep,
)
    requires
        is_step(settings, run, input, step),
        input == LifecycleInput::Appended(true),
    ensures
        step == after_append(settings, run),
{
}

/// A campaign that the journal knows as planned stays so.
proof fn lemma_plan_stays(
    settings: LiveLifecycleSettings,
    recorded_at: Timestamp,
    event: LifecycleEvent,
    campaign: ProjectedCampaign,
)
    ensures
        campaign.planned && after_event(settings, recorded_at, event, campaign) is Ok
            ==> after_event(settings, recorded_at, event, campaign)->Ok_0.planned,
{
}

/// Whatever fact becomes durable in agreement with the journal, the journal
/// knows a plan after it.
proof fn lemma_first_plan(
    settings: LiveLifecycleSettings,
    run: LifecycleRun,
    action: LifecycleAction,
    campaign: ProjectedCampaign,
    event: LifecycleEvent,
    recorded_at: Timestamp,
)
    requires
        journal_agrees(settings, run, action, campaign),
        stage_appends(run.stage),
        action is Append,
        reads_as(settings, event, action->Append_0),
        after_event(settings, recorded_at, event, campaign) is Ok,
    ensures
        after_event(settings, recorded_at, event, campaign)->Ok_0.planned,
{
    law_decision_label_reads_back(fact_decision(action->Append_0));
}

} // verus!
