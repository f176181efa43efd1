//! What the journal says of one live campaign.
//!
//! A campaign is read back from its durable facts, one after the other. A fact
//! that the owner could not have written in that place makes the history
//! corrupt; a plan that differs from the configuration is a conflict.

use crate::decimal::{number_in, parsed_number, same_number, Decimal};
use crate::domain::{same_intent, Order, OrderIntent, OrderStatus};
use crate::ids::{parse_id, parsed_id};
use crate::json::{document_member, flag_member, instant_document, number_member, text_member};
use crate::json::{json_flag, json_instant, json_member, json_number, json_text, text_in};
use crate::live_lifecycle::{
    is_wire_symbol, observation_matches, parsed_cancel_reason, parsed_observation, poll_millis,
    valid_order, valid_wire_symbol, validate_order, CancelReason, LiveLifecycleConfig,
    LiveLifecycleError, LiveLifecycleObservation, LiveLifecycleSettings,
    LIVE_LIFECYCLE_SCHEMA_VERSION, STRATEGY,
};
use crate::text::same_text;
use crate::timestamp::{advanced, instant_at, later_of, Timestamp, NANOS_PER_SECOND};
use vstd::prelude::*;

verus! {

/// The kinds of fact that a campaign leaves in the journal.
#[derive(Clone, Copy, Debug, PartialEq, Eq, Structural)]
pub enum LifecycleDecision {
    Planned,
    Resumed,
    AdmissionObserved,
    QueryPlanned,
    SubmitObserved,
    QueryObserved,
    CancelPlanned,
    CancelObserved,
    OutcomeUnknown,
    Completed,
    Failed,
    KillSwitchEngaged,
}

pub open spec fn decision_label(decision: LifecycleDecision) -> Seq<char> {
    match decision {
        LifecycleDecision::Planned => "live_lifecycle_planned"@,
        LifecycleDecision::Resumed => "live_lifecycle_resumed"@,
        LifecycleDecision::AdmissionObserved => "live_lifecycle_admission_observed"@,
        LifecycleDecision::QueryPlanned => "live_lifecycle_query_planned"@,
        LifecycleDecision::SubmitObserved => "live_lifecycle_submit_observed"@,
        LifecycleDecision::QueryObserved => "live_lifecycle_query_observed"@,
        LifecycleDecision::CancelPlanned => "live_lifecycle_cancel_planned"@,
        LifecycleDecision::CancelObserved => "live_lifecycle_cancel_observed"@,
        LifecycleDecision::OutcomeUnknown => "live_lifecycle_outcome_unknown"@,
        LifecycleDecision::Completed => "live_lifecycle_completed"@,
        LifecycleDecision::Failed => "live_lifecycle_failed"@,
        LifecycleDecision::KillSwitchEngaged => "live_lifecycle_kill_switch_engaged"@,
    }
}

/// The kind of fact with this label.
pub open spec fn parsed_decision(value: Seq<char>) -> Option<LifecycleDecision> {
    if value == "live_lifecycle_planned"@ {
        Some(LifecycleDecision::Planned)
    } else if value == "live_lifecycle_resumed"@ {
        Some(LifecycleDecision::Resumed)
    } else if value == "live_lifecycle_admission_observed"@ {
        Some(LifecycleDecision::AdmissionObserved)
    } else if value == "live_lifecycle_query_planned"@ {
        Some(LifecycleDecision::QueryPlanned)
    } else if value == "live_lifecycle_submit_observed"@ {
        Some(LifecycleDecision::SubmitObserved)
    } else if value == "live_lifecycle_query_observed"@ {
        Some(LifecycleDecision::QueryObserved)
    } else if value == "live_lifecycle_cancel_planned"@ {
        Some(LifecycleDecision::CancelPlanned)
    } else if value == "live_lifecycle_cancel_observed"@ {
        Some(LifecycleDecision::CancelObserved)
    } else if value == "live_lifecycle_outcome_unknown"@ {
        Some(LifecycleDecision::OutcomeUnknown)
    } else if value == "live_lifecycle_completed"@ {
        Some(LifecycleDecision::Completed)
    } else if value == "live_lifecycle_failed"@ {
        Some(LifecycleDecision::Failed)
    } else if value == "live_lifecycle_kill_switch_engaged"@ {
        Some(LifecycleDecision::KillSwitchEngaged)
    } else {
        None
    }
}

impl LifecycleDecision {
    pub fn label(self) -> (r: &'static str)
        ensures
            r@ == decision_label(self),
    {
        match self {
            LifecycleDecision::Planned => "live_lifecycle_planned",
            LifecycleDecision::Resumed => "live_lifecycle_resumed",
            LifecycleDecision::AdmissionObserved => "live_lifecycle_admission_observed",
            LifecycleDecision::QueryPlanned => "live_lifecycle_query_planned",
            LifecycleDecision::SubmitObserved => "live_lifecycle_submit_observed",
            LifecycleDecision::QueryObserved => "live_lifecycle_query_observed",
            LifecycleDecision::CancelPlanned => "live_lifecycle_cancel_planned",
            LifecycleDecision::CancelObserved => "live_lifecycle_cancel_observed",
            LifecycleDecision::OutcomeUnknown => "live_lifecycle_outcome_unknown",
            LifecycleDecision::Completed => "live_lifecycle_completed",
            LifecycleDecision::Failed => "live_lifecycle_failed",
            LifecycleDecision::KillSwitchEngaged => "live_lifecycle_kill_switch_engaged",
        }
    }

    /// The kind of fact with this label.
    pub fn parse(value: &str) -> (r: Option<LifecycleDecision>)
        ensures
            r == parsed_decision(value@),
    {
        if same_text(value, "live_lifecycle_planned") {
            Some(LifecycleDecision::Planned)
        } else if same_text(value, "live_lifecycle_resumed") {
            Some(LifecycleDecision::Resumed)
        } else if same_text(value, "live_lifecycle_admission_observed") {
            Some(LifecycleDecision::AdmissionObserved)
        } else if same_text(value, "live_lifecycle_query_planned") {
            Some(LifecycleDecision::QueryPlanned)
        } else if same_text(value, "live_lifecycle_submit_observed") {
            Some(LifecycleDecision::SubmitObserved)
        } else if same_text(value, "live_lifecycle_query_observed") {
            Some(LifecycleDecision::QueryObserved)
        } else if same_text(value, "live_lifecycle_cancel_planned") {
            Some(LifecycleDecision::CancelPlanned)
        } else if same_text(value, "live_lifecycle_cancel_observed") {
            Some(LifecycleDecision::CancelObserved)
        } else if same_text(value, "live_lifecycle_outcome_unknown") {
            Some(LifecycleDecision::OutcomeUnknown)
        } else if same_text(value, "live_lifecycle_completed") {
            Some(LifecycleDecision::Completed)
        } else if same_text(value, "live_lifecycle_failed") {
            Some(LifecycleDecision::Failed)
        } else if same_text(value, "live_lifecycle_kill_switch_engaged") {
            Some(LifecycleDecision::KillSwitchEngaged)
        } else {
            None
        }
    }
}

/// Reading the label of a kind of fact gives the kind back.
pub proof fn law_decision_label_reads_back(decision: LifecycleDecision)
    ensures
        parsed_decision(decision_label(decision)) == Some(decision),
{
    reveal_strlit("live_lifecycle_planned");
    reveal_strlit("live_lifecycle_resumed");
    reveal_strlit("live_lifecycle_admission_observed");
    reveal_strlit("live_lifecycle_query_planned");
    reveal_strlit("live_lifecycle_submit_observed");
    reveal_strlit("live_lifecycle_query_observed");
    reveal_strlit("live_lifecycle_cancel_planned");
    reveal_strlit("live_lifecycle_cancel_observed");
    reveal_strlit("live_lifecycle_outcome_unknown");
    reveal_strlit("live_lifecycle_completed");
    reveal_strlit("live_lifecycle_failed");
    reveal_strlit("live_lifecycle_kill_switch_engaged");
    assert("live_lifecycle_planned"@[15] == 'p' && "live_lifecycle_planned"@.len() == 22);
    assert("live_lifecycle_resumed"@[15] == 'r' && "live_lifecycle_resumed"@.len() == 22);
    assert("live_lifecycle_admission_observed"@[15] == 'a' && "live_lifecycle_admission_observed"@.len() == 33);
    assert("live_lifecycle_query_planned"@[15] == 'q' && "live_lifecycle_query_planned"@.len() == 28);
    assert("live_lifecycle_submit_observed"@[15] == 's' && "live_lifecycle_submit_observed"@.len() == 30);
    assert("live_lifecycle_query_observed"@[15] == 'q' && "live_lifecycle_query_observed"@.len() == 29);
    assert("live_lifecycle_cancel_planned"@[15] == 'c' && "live_lifecycle_cancel_planned"@.len() == 29);
    assert("live_lifecycle_cancel_observed"@[15] == 'c' && "live_lifecycle_cancel_observed"@.len() == 30);
    assert("live_lifecycle_outcome_unknown"@[15] == 'o' && "live_lifecycle_outcome_unknown"@.len() == 30);
    assert("live_lifecycle_completed"@[15] == 'c' && "live_lifecycle_completed"@.len() == 24);
    assert("live_lifecycle_failed"@[15] == 'f' && "live_lifecycle_failed"@.len() == 21);
    assert("live_lifecycle_kill_switch_engaged"@[15] == 'k' && "live_lifecycle_kill_switch_engaged"@.len() == 34);
}

/// When the venue allows the next request, as a fact says it.
#[derive(Debug)]
pub struct RetryAfterFact {
    pub kind: Option<String>,
    pub seconds: Option<u64>,
    pub at: Option<Timestamp>,
}

/// One journal event, as far as the projection reads it.
#[derive(Debug)]
pub struct LifecycleEvent {
    pub strategy: Option<String>,
    pub decision: Option<String>,
    pub has_details: bool,
    pub campaign_id: Option<String>,
    pub schema_version: Option<u64>,
    pub client_order_id: Option<u128>,
    pub intent: Option<OrderIntent>,
    pub expected_observation: Option<String>,
    pub wire_symbol: Option<String>,
    pub poll_interval_ms: Option<u64>,
    pub maximum_queries: Option<u64>,
    pub max_notional: Option<Decimal>,
    pub allow_foreign_orders: Option<bool>,
    pub retry_after: Option<RetryAfterFact>,
    pub query_sequence: Option<u64>,
    pub server_order_id: Option<String>,
    pub reason: Option<String>,
    pub order: Option<Order>,
}

/// The document that the event's details make up; an empty text where the
/// event has none.
pub open spec fn details_of(payload: Seq<char>) -> Seq<char> {
    match json_member(payload, "details"@) {
        Some(details) => details,
        None => Seq::empty(),
    }
}

/// The identifier that a text stands for, where there is one.
pub open spec fn id_in(text: Option<Seq<char>>) -> Option<u128> {
    match text {
        Some(id) => parsed_id(id),
        None => None,
    }
}

/// The decimal that a text stands for, where there is one.
pub open spec fn decimal_text_in(text: Option<Seq<char>>) -> Option<(i128, u32)> {
    match text {
        Some(number) => parsed_number(number),
        None => None,
    }
}

/// The instant that a JSON document holds, where there is one.
pub open spec fn instant_in(document: Option<Seq<char>>) -> Option<Timestamp> {
    match document {
        Some(text) => match json_instant(text) {
            Some(parts) => Some(instant_at(parts.0, parts.1)),
            None => None,
        },
        None => None,
    }
}

fn read_decimal(details: &str, key: &str) -> (r: Option<Decimal>)
    ensures
        number_in(r) == decimal_text_in(json_text(details@, key@)),
{
    match text_member(details, key) {
        Some(text) => Decimal::parse(&text),
        None => None,
    }
}

fn read_retry_after(details: &str) -> (r: Option<RetryAfterFact>)
    ensures
        match json_member(details@, "retry_after"@) {
            Some(retry) => {
                &&& r is Some
                &&& text_in(r->0.kind) == json_text(retry, "kind"@)
                &&& r->0.seconds == json_number(retry, "seconds"@)
                &&& r->0.at == instant_in(json_member(retry, "at"@))
            },
            None => r is None,
        },
{
    match document_member(details, "retry_after") {
        Some(retry) => {
            let at: Option<Timestamp> = match document_member(&retry, "at") {
                Some(text) => match instant_document(&text) {
                    Some(parts) => Some(Timestamp::from_parts(parts.0, parts.1)),
                    None => None,
                },
                None => None,
            };
            Some(
                RetryAfterFact {
                    kind: text_member(&retry, "kind"),
                    seconds: number_member(&retry, "seconds"),
                    at,
                },
            )
        },
        None => None,
    }
}

/// Reads what the projection needs from the JSON payload of a journal event.
/// The order intent and the order of the details are handed in as the journal
/// reader made them out, where it did.
pub fn read_lifecycle_event(
    payload: &str,
    intent: Option<OrderIntent>,
    order: Option<Order>,
) -> (r: LifecycleEvent)
    ensures
        text_in(r.strategy) == json_text(payload@, "strategy"@),
        text_in(r.decision) == json_text(payload@, "decision"@),
        r.has_details == (json_member(payload@, "details"@) is Some),
        ({
            let details = details_of(payload@);
            &&& text_in(r.campaign_id) == json_text(details, "campaign_id"@)
            &&& r.schema_version == json_number(details, "schema_version"@)
            &&& r.client_order_id == id_in(json_text(details, "client_order_id"@))
            &&& text_in(r.expected_observation) == json_text(details, "expected_observation"@)
            &&& text_in(r.wire_symbol) == json_text(details, "wire_symbol"@)
            &&& r.poll_interval_ms == json_number(details, "poll_interval_ms"@)
            &&& r.maximum_queries == json_number(details, "maximum_queries"@)
            &&& number_in(r.max_notional) == decimal_text_in(json_text(details, "max_notional"@))
            &&& r.allow_foreign_orders == json_flag(details, "allow_foreign_orders"@)
            &&& r.query_sequence == json_number(details, "query_sequence"@)
            &&& text_in(r.server_order_id) == json_text(details, "server_order_id"@)
            &&& text_in(r.reason) == json_text(details, "reason"@)
            &&& match json_member(details, "retry_after"@) {
                Some(retry) => {
                    &&& r.retry_after is Some
                    &&& text_in(r.retry_after->0.kind) == json_text(retry, "kind"@)
                    &&& r.retry_after->0.seconds == json_number(retry, "seconds"@)
                    &&& r.retry_after->0.at == instant_in(json_member(retry, "at"@))
                },
                None => r.retry_after is None,
            }
        }),
        r.intent == intent,
        r.order == order,
{
    let (has_details, details): (bool, String) = match document_member(payload, "details") {
        Some(details) => (true, details),
        None => (false, String::new()),
    };
    assert(details@ =~= details_of(payload@));
    let client_order_id: Option<u128> = match text_member(&details, "client_order_id") {
        Some(text) => parse_id(&text),
        None => None,
    };
    LifecycleEvent {
        strategy: text_member(payload, "strategy"),
        decision: text_member(payload, "decision"),
        has_details,
        campaign_id: text_member(&details, "campaign_id"),
        schema_version: number_member(&details, "schema_version"),
        client_order_id,
        intent,
        expected_observation: text_member(&details, "expected_observation"),
        wire_symbol: text_member(&details, "wire_symbol"),
        poll_interval_ms: number_member(&details, "poll_interval_ms"),
        maximum_queries: number_member(&details, "maximum_queries"),
        max_notional: read_decimal(&details, "max_notional"),
        allow_foreign_orders: flag_member(&details, "allow_foreign_orders"),
        retry_after: read_retry_after(&details),
        query_sequence: number_member(&details, "query_sequence"),
        server_order_id: text_member(&details, "server_order_id"),
        reason: text_member(&details, "reason"),
        order,
    }
}

/// The durable state of one campaign.
#[derive(Debug)]
pub struct ProjectedCampaign {
    pub planned: bool,
    pub wire_symbol: Option<String>,
    pub cancel_reason: Option<CancelReason>,
    pub observation_satisfied: bool,
    pub failed: bool,
    pub completed: Option<Order>,
    pub server_order_id: Option<String>,
    pub query_count: u32,
    pub last_observed_query_sequence: Option<u32>,
    pub retry_not_before: Option<Timestamp>,
}

/// A campaign of which the journal says nothing.
pub open spec fn unplanned_campaign() -> ProjectedCampaign {
    ProjectedCampaign {
        planned: false,
        wire_symbol: None,
        cancel_reason: None,
        observation_satisfied: false,
        failed: false,
        completed: None,
        server_order_id: None,
        query_count: 0,
        last_observed_query_sequence: None,
        retry_not_before: None,
    }
}

impl Default for ProjectedCampaign {
    fn default() -> (r: ProjectedCampaign)
        ensures
            r == unplanned_campaign(),
    {
        ProjectedCampaign {
            planned: false,
            wire_symbol: None,
            cancel_reason: None,
            observation_satisfied: false,
            failed: false,
            completed: None,
            server_order_id: None,
            query_count: 0,
            last_observed_query_sequence: None,
            retry_not_before: None,
        }
    }
}

/// What one fact makes of a campaign.
pub type Projection = Result<ProjectedCampaign, LiveLifecycleError>;

/// The history holds a fact that the owner could not have written there.
pub open spec fn corrupt() -> Projection {
    Err(LiveLifecycleError::CorruptHistory)
}

/// The campaign is planned and neither completed nor failed.
pub open spec fn in_progress(campaign: ProjectedCampaign) -> bool {
    campaign.planned && campaign.completed is None && !campaign.failed
}

/// The plan holds every value it has to hold, each in its own form.
pub open spec fn plan_is_readable(event: LifecycleEvent) -> bool {
    &&& event.intent is Some
    &&& event.expected_observation is Some
    &&& parsed_observation(event.expected_observation->0@) is Some
    &&& event.wire_symbol is Some
    &&& is_wire_symbol(event.wire_symbol->0@)
    &&& event.poll_interval_ms is Some
    &&& event.maximum_queries is Some
    &&& event.maximum_queries->0 <= u16::MAX
    &&& event.max_notional is Some
    &&& event.allow_foreign_orders is Some
}

/// The plan is the one that the configuration would write, but for the wire
/// symbol.
pub open spec fn plan_agrees(settings: LiveLifecycleSettings, event: LifecycleEvent) -> bool {
    &&& same_intent(event.intent->0, settings.intent)
    &&& parsed_observation(event.expected_observation->0@) == Some(settings.expected_observation)
    &&& event.poll_interval_ms->0 == poll_millis(settings)
    &&& event.maximum_queries->0 == settings.maximum_queries
    &&& same_number(event.max_notional->0@, settings.max_notional@)
    &&& event.allow_foreign_orders->0 == settings.allow_foreign_orders
}

pub open spec fn after_plan(
    settings: LiveLifecycleSettings,
    event: LifecycleEvent,
    campaign: ProjectedCampaign,
) -> Projection {
    if campaign.planned || !plan_is_readable(event) {
        corrupt()
    } else if !plan_agrees(settings, event) {
        Err(LiveLifecycleError::ConfigConflict)
    } else {
        Ok(ProjectedCampaign { planned: true, wire_symbol: event.wire_symbol, ..campaign })
    }
}

/// The instant that a retry fact names, counted from when it was recorded.
pub open spec fn retry_instant(recorded_at: Timestamp, retry: RetryAfterFact) -> Option<Timestamp> {
    match retry.kind {
        None => None,
        Some(kind) => if kind@ == "seconds"@ {
            match retry.seconds {
                Some(seconds) => advanced(recorded_at, seconds * NANOS_PER_SECOND),
                None => None,
            }
        } else if kind@ == "at"@ {
            retry.at
        } else {
            None
        },
    }
}

pub open spec fn after_unknown(
    recorded_at: Timestamp,
    event: LifecycleEvent,
    campaign: ProjectedCampaign,
) -> Projection {
    if !in_progress(campaign) {
        corrupt()
    } else {
        match event.retry_after {
            None => Ok(campaign),
            Some(retry) => match retry_instant(recorded_at, retry) {
                None => corrupt(),
                Some(not_before) => Ok(
                    ProjectedCampaign {
                        retry_not_before: Some(
                            match campaign.retry_not_before {
                                Some(existing) => later_of(existing, not_before),
                                None => not_before,
                            },
                        ),
                        ..campaign
                    },
                ),
            },
        }
    }
}

pub open spec fn after_query_plan(
    settings: LiveLifecycleSettings,
    event: LifecycleEvent,
    campaign: ProjectedCampaign,
) -> Projection {
    if !in_progress(campaign) || event.query_sequence is None || event.query_sequence->0
        > u32::MAX {
        corrupt()
    } else if campaign.query_count == u32::MAX {
        Err(LiveLifecycleError::CounterOverflow)
    } else if event.query_sequence->0 != campaign.query_count + 1 || event.query_sequence->0
        > settings.maximum_queries {
        corrupt()
    } else {
        Ok(ProjectedCampaign { query_count: event.query_sequence->0 as u32, ..campaign })
    }
}

pub open spec fn after_cancel_plan(
    event: LifecycleEvent,
    campaign: ProjectedCampaign,
) -> Projection {
    if !campaign.planned || campaign.cancel_reason is Some || event.server_order_id is None
        || campaign.server_order_id is None || campaign.server_order_id->0@
        != event.server_order_id->0@ || event.reason is None || parsed_cancel_reason(
        event.reason->0@,
    ) is None || (parsed_cancel_reason(event.reason->0@) == Some(
        CancelReason::ObservationSatisfied,
    )) != campaign.observation_satisfied {
        corrupt()
    } else {
        Ok(
            ProjectedCampaign {
                cancel_reason: parsed_cancel_reason(event.reason->0@),
                ..campaign
            },
        )
    }
}

/// An observed query carries a planned number that is later than the last one.
pub open spec fn query_number_fits(event: LifecycleEvent, campaign: ProjectedCampaign) -> bool {
    &&& event.query_sequence is Some
    &&& 0 < event.query_sequence->0 <= campaign.query_count
    &&& campaign.last_observed_query_sequence is Some ==> event.query_sequence->0
        > campaign.last_observed_query_sequence->0
}

pub open spec fn after_order(
    settings: LiveLifecycleSettings,
    decision: LifecycleDecision,
    event: LifecycleEvent,
    campaign: ProjectedCampaign,
) -> Projection {
    let needs_cancel = decision == LifecycleDecision::CancelObserved || decision
        == LifecycleDecision::Completed;
    if !in_progress(campaign) || (needs_cancel && campaign.cancel_reason is None)
        || event.order is None {
        corrupt()
    } else if !valid_order(settings, event.order->0, None) {
        Err(LiveLifecycleError::ProtocolViolation)
    } else if campaign.server_order_id is Some && campaign.server_order_id->0@
        != event.order->0.id@ {
        corrupt()
    } else {
        let seen = ProjectedCampaign {
            retry_not_before: None,
            server_order_id: Some(event.order->0.id),
            ..campaign
        };
        if decision == LifecycleDecision::QueryObserved {
            if !query_number_fits(event, campaign) {
                corrupt()
            } else {
                Ok(
                    ProjectedCampaign {
                        last_observed_query_sequence: Some(event.query_sequence->0 as u32),
                        observation_satisfied: campaign.observation_satisfied
                            || observation_matches(
                            settings.expected_observation,
                            event.order->0.status,
                        ),
                        ..seen
                    },
                )
            }
        } else if decision == LifecycleDecision::Completed {
            if event.order->0.status != OrderStatus::Cancelled || campaign.cancel_reason != Some(
                CancelReason::ObservationSatisfied,
            ) || !campaign.observation_satisfied {
                corrupt()
            } else {
                Ok(ProjectedCampaign { completed: event.order, ..seen })
            }
        } else {
            Ok(seen)
        }
    }
}

/// The event is one of this campaign.
pub open spec fn concerns(settings: LiveLifecycleSettings, event: LifecycleEvent) -> bool {
    &&& event.strategy is Some
    &&& event.strategy->0@ == STRATEGY@
    &&& event.campaign_id is Some
    &&& event.campaign_id->0@ == settings.campaign_id@
}

/// What one journal event makes of a campaign.
pub open spec fn after_event(
    settings: LiveLifecycleSettings,
    recorded_at: Timestamp,
    event: LifecycleEvent,
    campaign: ProjectedCampaign,
) -> Projection {
    if event.strategy is None || event.strategy->0@ != STRATEGY@ {
        Ok(campaign)
    } else if !event.has_details {
        corrupt()
    } else if !concerns(settings, event) {
        Ok(campaign)
    } else if event.schema_version != Some(LIVE_LIFECYCLE_SCHEMA_VERSION as u64)
        || event.client_order_id != Some(settings.intent.client_order_id) || event.decision is None {
        corrupt()
    } else {
        match parsed_decision(event.decision->0@) {
            None => corrupt(),
            Some(decision) => match decision {
                LifecycleDecision::Planned => after_plan(settings, event, campaign),
                LifecycleDecision::QueryPlanned => after_query_plan(settings, event, campaign),
                LifecycleDecision::SubmitObserved
                | LifecycleDecision::QueryObserved
                | LifecycleDecision::CancelObserved
                | LifecycleDecision::Completed => after_order(settings, decision, event, campaign),
                LifecycleDecision::CancelPlanned => after_cancel_plan(event, campaign),
                LifecycleDecision::Resumed | LifecycleDecision::AdmissionObserved => if in_progress(
                    campaign,
                ) {
                    Ok(campaign)
                } else {
                    corrupt()
                },
                LifecycleDecision::OutcomeUnknown => after_unknown(recorded_at, event, campaign),
                LifecycleDecision::Failed => if in_progress(campaign) {
                    Ok(ProjectedCampaign { failed: true, ..campaign })
                } else {
                    corrupt()
                },
                LifecycleDecision::KillSwitchEngaged => if campaign.planned {
                    Ok(campaign)
                } else {
                    corrupt()
                },
            },
        }
    }
}

fn plan_readable(event: &LifecycleEvent) -> (r: bool)
    ensures
        r == plan_is_readable(*event),
{
    let observed: bool = match &event.expected_observation {
        Some(text) => LiveLifecycleObservation::parse(text).is_some(),
        None => false,
    };
    let wired: bool = match &event.wire_symbol {
        Some(symbol) => valid_wire_symbol(symbol),
        None => false,
    };
    let bounded: bool = match event.maximum_queries {
        Some(count) => count <= u16::MAX as u64,
        None => false,
    };
    event.intent.is_some() && observed && wired && event.poll_interval_ms.is_some() && bounded
        && event.max_notional.is_some() && event.allow_foreign_orders.is_some()
}

fn plan_agreeing(config: &LiveLifecycleConfig, event: &LifecycleEvent) -> (r: bool)
    requires
        plan_is_readable(*event),
    ensures
        r == plan_agrees(config@, *event),
{
    let same_order: bool = match &event.intent {
        Some(intent) => intent.equals(config.intent()),
        None => false,
    };
    let same_observation: bool = match &event.expected_observation {
        Some(text) => match LiveLifecycleObservation::parse(text) {
            Some(observation) => observation == config.expected_observation(),
            None => false,
        },
        None => false,
    };
    let same_interval: bool = match event.poll_interval_ms {
        Some(millis) => millis == config.poll_interval_millis(),
        None => false,
    };
    let same_queries: bool = match event.maximum_queries {
        Some(count) => count == config.maximum_queries() as u64,
        None => false,
    };
    let same_cap: bool = match event.max_notional {
        Some(cap) => cap.equals(config.max_notional()),
        None => false,
    };
    let same_tolerance: bool = match event.allow_foreign_orders {
        Some(allow) => allow == config.allow_foreign_orders(),
        None => false,
    };
    same_order && same_observation && same_interval && same_queries && same_cap && same_tolerance
}

pub fn project_planned_event(
    config: &LiveLifecycleConfig,
    event: &LifecycleEvent,
    projected: ProjectedCampaign,
) -> (r: Projection)
    ensures
        r == after_plan(config@, *event, projected),
{
    if projected.planned || !plan_readable(event) {
        return Err(LiveLifecycleError::CorruptHistory);
    }
    if !plan_agreeing(config, event) {
        return Err(LiveLifecycleError::ConfigConflict);
    }
    let mut next: ProjectedCampaign = projected;
    next.planned = true;
    next.wire_symbol = match &event.wire_symbol {
        Some(symbol) => Some(symbol.clone()),
        None => None,
    };
    Ok(next)
}

fn retry_deadline(recorded_at: Timestamp, retry: &RetryAfterFact) -> (r: Option<Timestamp>)
    ensures
        r == retry_instant(recorded_at, *retry),
{
    match &retry.kind {
        None => None,
        Some(kind) => {
            if same_text(kind, "seconds") {
                match retry.seconds {
                    Some(seconds) => recorded_at.checked_advance(seconds, 0),
                    None => None,
                }
            } else if same_text(kind, "at") {
                retry.at
            } else {
                None
            }
        },
    }
}

pub fn project_outcome_unknown(
    recorded_at: Timestamp,
    event: &LifecycleEvent,
    projected: ProjectedCampaign,
) -> (r: Projection)
    ensures
        r == after_unknown(recorded_at, *event, projected),
{
    if !projected.planned || projected.completed.is_some() || projected.failed {
        return Err(LiveLifecycleError::CorruptHistory);
    }
    match &event.retry_after {
        None => Ok(projected),
        Some(retry) => match retry_deadline(recorded_at, retry) {
            None => Err(LiveLifecycleError::CorruptHistory),
            Some(not_before) => {
                let mut next: ProjectedCampaign = projected;
                next.retry_not_before = Some(
                    match next.retry_not_before {
                        Some(existing) => existing.later(not_before),
                        None => not_before,
                    },
                );
                Ok(next)
            },
        },
    }
}

pub fn project_query_plan(
    config: &LiveLifecycleConfig,
    event: &LifecycleEvent,
    projected: ProjectedCampaign,
) -> (r: Projection)
    ensures
        r == after_query_plan(config@, *event, projected),
{
    if !projected.planned || projected.completed.is_some() || projected.failed {
        return Err(LiveLifecycleError::CorruptHistory);
    }
    match event.query_sequence {
        None => Err(LiveLifecycleError::CorruptHistory),
        Some(sequence) => {
            if sequence > u32::MAX as u64 {
                return Err(LiveLifecycleError::CorruptHistory);
            }
            if projected.query_count == u32::MAX {
                return Err(LiveLifecycleError::CounterOverflow);
            }
            if sequence != (projected.query_count + 1) as u64 || sequence
                > config.maximum_queries() as u64 {
                return Err(LiveLifecycleError::CorruptHistory);
            }
            let mut next: ProjectedCampaign = projected;
            next.query_count = sequence as u32;
            Ok(next)
        },
    }
}

pub fn project_cancel_plan(event: &LifecycleEvent, projected: ProjectedCampaign) -> (r: Projection)
    ensures
        r == after_cancel_plan(*event, projected),
{
    if !projected.planned || projected.cancel_reason.is_some() {
        return Err(LiveLifecycleError::CorruptHistory);
    }
    let same_order: bool = match (&projected.server_order_id, &event.server_order_id) {
        (Some(known), Some(named)) => same_text(known, named),
        _ => false,
    };
    if !same_order {
        return Err(LiveLifecycleError::CorruptHistory);
    }
    let reason: Option<CancelReason> = match &event.reason {
        Some(text) => CancelReason::parse(text),
        None => None,
    };
    match reason {
        None => Err(LiveLifecycleError::CorruptHistory),
        Some(found) => {
            if (found == CancelReason::ObservationSatisfied) != projected.observation_satisfied {
                return Err(LiveLifecycleError::CorruptHistory);
            }
            let mut next: ProjectedCampaign = projected;
            next.cancel_reason = Some(found);
            Ok(next)
        },
    }
}

fn query_number_fitting(event: &LifecycleEvent, projected: &ProjectedCampaign) -> (r: bool)
    ensures
        r == query_number_fits(*event, *projected),
{
    match event.query_sequence {
        None => false,
        Some(sequence) => {
            let later: bool = match projected.last_observed_query_sequence {
                Some(previous) => sequence > previous as u64,
                None => true,
            };
            sequence > 0 && sequence <= projected.query_count as u64 && later
        },
    }
}

pub fn project_order_event(
    config: &LiveLifecycleConfig,
    decision: LifecycleDecision,
    event: &LifecycleEvent,
    projected: ProjectedCampaign,
) -> (r: Projection)
    ensures
        r == after_order(config@, decision, *event, projected),
{
    let needs_cancel: bool = decision == LifecycleDecision::CancelObserved || decision
        == LifecycleDecision::Completed;
    if !projected.planned || projected.completed.is_some() || projected.failed || (needs_cancel
        && projected.cancel_reason.is_none()) {
        return Err(LiveLifecycleError::CorruptHistory);
    }
    match &event.order {
        None => Err(LiveLifecycleError::CorruptHistory),
        Some(order) => {
            if !validate_order(config, order, None) {
                return Err(LiveLifecycleError::ProtocolViolation);
            }
            let drifted: bool = match &projected.server_order_id {
                Some(known) => !same_text(known, &order.id),
                None => false,
            };
            if drifted {
                return Err(LiveLifecycleError::CorruptHistory);
            }
            let numbered: bool = query_number_fitting(event, &projected);
            let mut next: ProjectedCampaign = projected;
            next.retry_not_before = None;
            next.server_order_id = Some(order.id.clone());
            if decision == LifecycleDecision::QueryObserved {
                if !numbered {
                    return Err(LiveLifecycleError::CorruptHistory);
                }
                next.last_observed_query_sequence = match event.query_sequence {
                    Some(sequence) => Some(sequence as u32),
                    None => None,
                };
                if config.expected_observation().matches(order.status) {
                    next.observation_satisfied = true;
                }
            } else if decision == LifecycleDecision::Completed {
                let owned: bool = match next.cancel_reason {
                    Some(reason) => reason == CancelReason::ObservationSatisfied,
                    None => false,
                };
                if order.status != OrderStatus::Cancelled || !owned || !next.observation_satisfied {
                    return Err(LiveLifecycleError::CorruptHistory);
                }
                next.completed = Some(order.copy());
            }
            Ok(next)
        },
    }
}

/// What one journal event makes of a campaign. Events of other strategies and
/// campaigns leave it alone.
pub fn project_event(
    config: &LiveLifecycleConfig,
    recorded_at: Timestamp,
    event: &LifecycleEvent,
    projected: ProjectedCampaign,
) -> (r: Projection)
    ensures
        r == after_event(config@, recorded_at, *event, projected),
{
    let own_strategy: bool = match &event.strategy {
        Some(strategy) => same_text(strategy, STRATEGY),
        None => false,
    };
    if !own_strategy {
        return Ok(projected);
    }
    if !event.has_details {
        return Err(LiveLifecycleError::CorruptHistory);
    }
    let own_campaign: bool = match &event.campaign_id {
        Some(campaign) => same_text(campaign, config.campaign_id()),
        None => false,
    };
    if !own_campaign {
        return Ok(projected);
    }
    let own_version: bool = match event.schema_version {
        Some(version) => version == LIVE_LIFECYCLE_SCHEMA_VERSION as u64,
        None => false,
    };
    let own_order: bool = match event.client_order_id {
        Some(id) => id == config.intent().client_order_id,
        None => false,
    };
    if !own_version || !own_order {
        return Err(LiveLifecycleError::CorruptHistory);
    }
    let decision: Option<LifecycleDecision> = match &event.decision {
        Some(text) => LifecycleDecision::parse(text),
        None => None,
    };
    match decision {
        None => Err(LiveLifecycleError::CorruptHistory),
        Some(found) => match found {
            LifecycleDecision::Planned => project_planned_event(config, event, projected),
            LifecycleDecision::QueryPlanned => project_query_plan(config, event, projected),
            LifecycleDecision::SubmitObserved
            | LifecycleDecision::QueryObserved
            | LifecycleDecision::CancelObserved
            | LifecycleDecision::Completed => project_order_event(config, found, event, projected),
            LifecycleDecision::CancelPlanned => project_cancel_plan(event, projected),
            LifecycleDecision::Resumed | LifecycleDecision::AdmissionObserved => {
                if !projected.planned || projected.completed.is_some() || projected.failed {
                    return Err(LiveLifecycleError::CorruptHistory);
                }
                Ok(projected)
            },
            LifecycleDecision::OutcomeUnknown => project_outcome_unknown(
                recorded_at,
                event,
                projected,
            ),
            LifecycleDecision::Failed => {
                if !projected.planned || projected.completed.is_some() || projected.failed {
                    return Err(LiveLifecycleError::CorruptHistory);
                }
                let mut next: ProjectedCampaign = projected;
                next.failed = true;
                Ok(next)
            },
            LifecycleDecision::KillSwitchEngaged => {
                if !projected.planned {
                    return Err(LiveLifecycleError::CorruptHistory);
                }
                Ok(projected)
            },
        },
    }
}

/// The event is a durable kill fact, of whatever campaign.
pub open spec fn engages_kill_switch(event: LifecycleEvent) -> bool {
    &&& event.strategy is Some
    &&& event.strategy->0@ == STRATEGY@
    &&& event.decision is Some
    &&& event.decision->0@ == decision_label(LifecycleDecision::KillSwitchEngaged)
}

fn is_kill_fact(event: &LifecycleEvent) -> (r: bool)
    ensures
        r == engages_kill_switch(*event),
{
    let own_strategy: bool = match &event.strategy {
        Some(strategy) => same_text(strategy, STRATEGY),
        None => false,
    };
    let kill: bool = match &event.decision {
        Some(decision) => same_text(decision, LifecycleDecision::KillSwitchEngaged.label()),
        None => false,
    };
    own_strategy && kill
}

/// Reports whether any durable kill fact latches this journal.
///
/// The latch is journal-scoped, not campaign-scoped: one unsafe terminal
/// outcome blocks every new lifecycle recorded in the same account journal
/// until a human starts a fresh journal after review.
pub fn live_lifecycle_kill_switch_latched(events: &Vec<LifecycleEvent>) -> (r: bool)
    ensures
        r == exists|i: int| 0 <= i < events@.len() && engages_kill_switch(#[trigger] events@[i]),
{
    let mut i: usize = 0;
    while i < events.len()
        invariant
            i <= events.len(),
            forall|j: int| 0 <= j < i ==> !engages_kill_switch(#[trigger] events@[j]),
        decreases events.len() - i,
    {
        if is_kill_fact(&events[i]) {
            assert(engages_kill_switch(events@[i as int]));
            return true;
        }
        i = i + 1;
    }
    false
}

/// One event of the journal and the instant it was recorded at.
#[derive(Debug)]
pub struct RecordedEvent {
    pub recorded_at: Timestamp,
    pub event: LifecycleEvent,
}

/// What a journal makes of a campaign that starts as `campaign`.
pub open spec fn after_events(
    settings: LiveLifecycleSettings,
    events: Seq<RecordedEvent>,
    campaign: ProjectedCampaign,
) -> Projection
    decreases events.len(),
{
    if events.len() == 0 {
        Ok(campaign)
    } else {
        match after_events(settings, events.drop_last(), campaign) {
            Err(error) => Err(error),
            Ok(before) => after_event(
                settings,
                events.last().recorded_at,
                events.last().event,
                before,
            ),
        }
    }
}

/// A journal that is corrupt at some place stays so, whatever follows.
proof fn lemma_error_stays(
    settings: LiveLifecycleSettings,
    events: Seq<RecordedEvent>,
    campaign: ProjectedCampaign,
    k: int,
)
    requires
        0 <= k <= events.len(),
        after_events(settings, events.take(k), campaign) is Err,
    ensures
        after_events(settings, events, campaign) == after_events(
            settings,
            events.take(k),
            campaign,
        ),
    decreases events.len(),
{
    if k == events.len() {
        assert(events.take(k) =~= events);
    } else {
        assert(events.drop_last().take(k) =~= events.take(k));
        lemma_error_stays(settings, events.drop_last(), campaign, k);
    }
}

/// The durable state of the campaign: the journal read from its beginning, or
/// the failure of the first event that cannot be read.
pub fn project_campaign(config: &LiveLifecycleConfig, events: &Vec<RecordedEvent>) -> (r: Projection)
    ensures
        r == after_events(config@, events@, unplanned_campaign()),
{
    let mut projected: ProjectedCampaign = ProjectedCampaign::default();
    let ghost start = unplanned_campaign();
    let mut i: usize = 0;
    assert(events@.take(0).len() == 0);
    while i < events.len()
        invariant
            i <= events.len(),
            start == unplanned_campaign(),
            after_events(config@, events@.take(i as int), start) == Ok::<
                ProjectedCampaign,
                LiveLifecycleError,
            >(projected),
        decreases events.len() - i,
    {
        let outcome: Projection = project_event(
            config,
            events[i].recorded_at,
            &events[i].event,
            projected,
        );
        assert(events@.take(i + 1).drop_last() =~= events@.take(i as int));
        match outcome {
            Ok(next) => {
                projected = next;
            },
            Err(error) => {
                proof {
                    lemma_error_stays(config@, events@, start, i + 1);
                }
                return Err(error);
            },
        }
        i = i + 1;
    }
    assert(events@.take(i as int) =~= events@);
    Ok(projected)
}

/// Reports whether the durable campaign can still enter its one submit branch.
pub fn live_lifecycle_requires_submission(projected: &ProjectedCampaign) -> (r: bool)
    ensures
        r == !projected.planned,
{
    !projected.planned
}

/// The exact wire symbol of the durable submit plan, or the validated caller
/// mapping for a fresh campaign.
pub fn live_lifecycle_wire_symbol(
    config: &LiveLifecycleConfig,
    projected: &ProjectedCampaign,
) -> (r: String)
    ensures
        r@ == match projected.wire_symbol {
            Some(symbol) => symbol@,
            None => config@.wire_symbol@,
        },
{
    match &projected.wire_symbol {
        Some(symbol) => symbol.clone(),
        None => config.wire_symbol().to_owned(),
    }
}

} // verus!
