//! Campaigns run against a scripted venue and an in-memory journal.

use std::collections::VecDeque;

use trading_apps::decimal::Decimal;
use trading_apps::domain::{
    ExchangeError, MarketType, Order, OrderIntent, OrderStatus, OrderType, RemoteFailure,
    RemoteRetryAfter, Side, TimeInForce,
};
use trading_apps::json::{document_member, flag_member, number_member, text_member};
use trading_apps::live_lifecycle::{
    exchange_failure_bucket, spot_symbol_assets, CancelReason, LiveAdmissionRefusal,
    LiveAdmissionTruth, LiveLifecycleConfig, LiveLifecycleError, LiveLifecycleObservation,
    LIVE_LIFECYCLE_SCHEMA_VERSION, STRATEGY,
};
use trading_apps::live_projection::{
    live_lifecycle_kill_switch_latched, live_lifecycle_requires_submission,
    live_lifecycle_wire_symbol, project_campaign, read_lifecycle_event, LifecycleDecision,
    LifecycleEvent, RecordedEvent,
};
use trading_apps::live_run::{
    run_live_lifecycle, LifecycleAction, LifecycleFact, LifecycleInput, LiveLifecycleReport,
};
use trading_apps::timestamp::Timestamp;

const CLIENT_ORDER_ID: &str = "0f3c807d-776f-4de4-85d0-93760a82dfcf";

fn number(text: &str) -> Decimal {
    Decimal::parse(text).unwrap()
}

fn intent() -> OrderIntent {
    OrderIntent {
        client_order_id: uuid::Uuid::parse_str(CLIENT_ORDER_ID).unwrap().as_u128(),
        exchange: "binance".to_owned(),
        symbol: "BTC-USDT-SPOT".to_owned(),
        market_type: MarketType::Spot,
        side: Side::Buy,
        order_type: OrderType::Limit,
        quantity: number("0.001"),
        price: Some(number("49000.1")),
        time_in_force: TimeInForce::PostOnly,
        reduce_only: false,
    }
}

fn config(suffix: &str) -> LiveLifecycleConfig {
    config_with(&format!("campaign-{suffix}"), intent(), number("100"), false)
}

fn config_with(
    campaign_id: &str,
    intent: OrderIntent,
    max_notional: Decimal,
    allow_foreign_orders: bool,
) -> LiveLifecycleConfig {
    LiveLifecycleConfig::new(
        campaign_id.to_owned(),
        intent,
        "BTCUSDT".to_owned(),
        LiveLifecycleObservation::Open,
        1_000_000,
        4,
        max_notional,
        allow_foreign_orders,
    )
    .unwrap()
}

fn passing_admission() -> LiveAdmissionTruth {
    LiveAdmissionTruth {
        free_base_quantity: number("1"),
        free_quote_amount: number("1000000"),
        open_order_client_ids: Vec::new(),
    }
}

fn order(config: &LiveLifecycleConfig, status: OrderStatus, filled: &str) -> Order {
    let filled_quantity = number(filled);
    Order {
        id: "binance:spot:BTCUSDT:31".to_owned(),
        intent: config.intent().copy(),
        status,
        filled_quantity,
        average_fill_price: if filled_quantity.is_zero() {
            None
        } else {
            Some(number("49000.1"))
        },
    }
}

fn rate_limited_query(seconds: u64) -> ExchangeError {
    ExchangeError::RemoteFailure(RemoteFailure {
        status: Some(429),
        exchange_code: None,
        retry_after: Some(RemoteRetryAfter::Seconds(seconds)),
        server_time: None,
    })
}

/// A venue that answers from a script and notes what it was asked for.
struct FakeVenue {
    admission: VecDeque<Result<LiveAdmissionTruth, ExchangeError>>,
    submit: VecDeque<Result<Order, ExchangeError>>,
    query: VecDeque<Result<Order, ExchangeError>>,
    cancel: VecDeque<Result<Order, ExchangeError>>,
    filters_pass: bool,
    calls: Vec<&'static str>,
    planned_before_mutation: Vec<bool>,
}

impl FakeVenue {
    fn new(
        admission: Vec<Result<LiveAdmissionTruth, ExchangeError>>,
        submit: Vec<Result<Order, ExchangeError>>,
        query: Vec<Result<Order, ExchangeError>>,
        cancel: Vec<Result<Order, ExchangeError>>,
    ) -> FakeVenue {
        FakeVenue {
            admission: admission.into(),
            submit: submit.into(),
            query: query.into(),
            cancel: cancel.into(),
            filters_pass: true,
            calls: Vec::new(),
            planned_before_mutation: Vec::new(),
        }
    }

    fn silent() -> FakeVenue {
        FakeVenue::new(Vec::new(), Vec::new(), Vec::new(), Vec::new())
    }
}

/// The journal as its reader hands it on, and the text of its records.
struct Journal {
    events: Vec<RecordedEvent>,
    body: String,
}

impl Journal {
    fn new() -> Journal {
        Journal { events: Vec::new(), body: String::new() }
    }

    fn append(&mut self, config: &LiveLifecycleConfig, fact: &LifecycleFact, at: Timestamp) {
        let payload = payload(config, fact);
        self.body.push_str(&payload);
        self.body.push('\n');
        let plan = matches!(fact, LifecycleFact::Planned);
        let intent = if plan { Some(config.intent().copy()) } else { None };
        let order = order_of(fact);
        self.events.push(RecordedEvent {
            recorded_at: at,
            event: read_lifecycle_event(&payload, intent, order),
        });
    }

    fn is_latched(&self) -> bool {
        let events: Vec<LifecycleEvent> = self.body.lines().map(|line| read_lifecycle_event(line, None, None)).collect();
        live_lifecycle_kill_switch_latched(&events)
    }

    fn holds_plan(&self) -> bool {
        self.body.contains(LifecycleDecision::Planned.label())
    }
}

fn order_of(fact: &LifecycleFact) -> Option<Order> {
    match fact {
        LifecycleFact::SubmitObserved { order }
        | LifecycleFact::QueryObserved { order, .. }
        | LifecycleFact::CancelObserved { order }
        | LifecycleFact::Completed { order } => Some(order.copy()),
        _ => None,
    }
}

fn payload(config: &LiveLifecycleConfig, fact: &LifecycleFact) -> String {
    let mut details = vec![
        format!("\"campaign_id\":\"{}\"", config.campaign_id()),
        format!("\"schema_version\":{LIVE_LIFECYCLE_SCHEMA_VERSION}"),
        format!("\"client_order_id\":\"{CLIENT_ORDER_ID}\""),
        format!("\"phase\":\"{}\"", fact.phase()),
    ];
    match fact {
        LifecycleFact::Planned => {
            details.push(format!(
                "\"expected_observation\":\"{}\",\"wire_symbol\":\"{}\",\"poll_interval_ms\":{},\"maximum_queries\":{},\"max_notional\":\"{}\",\"allow_foreign_orders\":{}",
                config.expected_observation().label(),
                config.wire_symbol(),
                config.poll_interval_millis(),
                config.maximum_queries(),
                config.max_notional().to_text(),
                config.allow_foreign_orders(),
            ));
        }
        LifecycleFact::QueryPlanned { query_sequence, .. }
        | LifecycleFact::QueryObserved { query_sequence, .. } => {
            details.push(format!("\"query_sequence\":{query_sequence}"));
        }
        LifecycleFact::CancelPlanned { server_order_id, reason } => {
            details.push(format!(
                "\"server_order_id\":\"{server_order_id}\",\"reason\":\"{}\"",
                reason.label()
            ));
        }
        LifecycleFact::OutcomeUnknown { error: ExchangeError::RemoteFailure(failure), .. } => {
            if let Some(RemoteRetryAfter::Seconds(seconds)) = failure.retry_after {
                details.push(format!(
                    "\"retry_after\":{{\"kind\":\"seconds\",\"seconds\":{seconds}}}"
                ));
            }
        }
        LifecycleFact::Failed { failure, .. } => {
            details.push(format!("\"failure\":\"{}\"", failure.label()));
        }
        _ => {}
    }
    format!(
        "{{\"strategy\":\"{STRATEGY}\",\"decision\":\"{}\",\"details\":{{{}}}}}",
        fact.decision(),
        details.join(",")
    )
}

/// Runs a campaign to its end, as the owner's loop does.
fn run(
    config: &LiveLifecycleConfig,
    venue: &mut FakeVenue,
    journal: &mut Journal,
) -> Result<LiveLifecycleReport, LiveLifecycleError> {
    let now = Timestamp::from_parts(1_786_612_211, 0);
    let projected = project_campaign(config, &journal.events)?;
    let (mut state, mut action) = run_live_lifecycle(config, projected, now, journal.is_latched());
    loop {
        let input = match action {
            LifecycleAction::Append(fact) => {
                journal.append(config, &fact, now);
                LifecycleInput::Appended(true)
            }
            LifecycleAction::SampleAdmission => {
                venue.calls.push("admission");
                venue.planned_before_mutation.push(journal.holds_plan());
                LifecycleInput::Admission(venue.admission.pop_front().unwrap())
            }
            LifecycleAction::CheckFilters { intent } => {
                assert!(intent.equals(config.intent()));
                LifecycleInput::Filters(if venue.filters_pass {
                    Ok(())
                } else {
                    Err(ExchangeError::InvalidRequest)
                })
            }
            LifecycleAction::Submit { intent } => {
                assert!(intent.equals(config.intent()));
                venue.calls.push("submit");
                venue.planned_before_mutation.push(journal.holds_plan());
                LifecycleInput::Answered(venue.submit.pop_front().unwrap())
            }
            LifecycleAction::Query { symbol, client_order_id } => {
                assert_eq!(symbol, config.intent().symbol);
                assert_eq!(client_order_id, config.intent().client_order_id);
                venue.calls.push("query");
                LifecycleInput::Answered(venue.query.pop_front().unwrap())
            }
            LifecycleAction::Cancel { .. } => {
                venue.calls.push("cancel");
                LifecycleInput::Answered(venue.cancel.pop_front().unwrap())
            }
            LifecycleAction::Pause { nanos } => {
                assert_eq!(nanos, config.poll_interval_nanos());
                LifecycleInput::Paused
            }
            LifecycleAction::Finish(result) => return result,
        };
        let (next, asked) = state.step(config, input);
        state = next;
        action = asked;
    }
}

fn proven_cancel(config: &LiveLifecycleConfig) -> FakeVenue {
    FakeVenue::new(
        vec![Ok(passing_admission())],
        vec![Ok(order(config, OrderStatus::Open, "0"))],
        vec![
            Ok(order(config, OrderStatus::Open, "0")),
            Ok(order(config, OrderStatus::Cancelled, "0")),
        ],
        vec![Ok(order(config, OrderStatus::Cancelled, "0"))],
    )
}

#[test]
fn fresh_campaign_admits_then_proves_query_and_cancel_before_completion() {
    let config = config("fresh");
    let mut journal = Journal::new();
    let mut venue = proven_cancel(&config);

    let report = run(&config, &mut venue, &mut journal).unwrap();

    assert_eq!(report.final_status, OrderStatus::Cancelled);
    assert_eq!(report.query_count, 2);
    assert!(!report.recovered);
    assert_eq!(venue.calls, vec!["admission", "submit", "query", "cancel", "query"]);
    // The durable plan precedes both the admission read and the submit.
    assert_eq!(venue.planned_before_mutation, vec![true, true]);
}

#[test]
fn notional_above_the_required_cap_is_rejected_at_construction() {
    let error = LiveLifecycleConfig::new(
        "campaign-cap".to_owned(),
        intent(),
        "BTCUSDT".to_owned(),
        LiveLifecycleObservation::Open,
        1_000_000,
        4,
        number("1"),
        false,
    )
    .unwrap_err();
    assert!(matches!(error, LiveLifecycleError::NotionalExceedsCap { .. }));
    if let LiveLifecycleError::NotionalExceedsCap { notional, max_notional } = error {
        assert!(notional.equals(number("49.0001")));
        assert_eq!(max_notional.to_text(), "1");
    }
}

#[test]
fn non_spot_and_non_positive_cap_configurations_fail_closed() {
    let mut perpetual = intent();
    perpetual.market_type = MarketType::Perpetual;
    assert!(matches!(
        LiveLifecycleConfig::new(
            "campaign-perp".to_owned(),
            perpetual,
            "BTCUSDT".to_owned(),
            LiveLifecycleObservation::Open,
            1_000_000,
            4,
            number("100"),
            false,
        ),
        Err(LiveLifecycleError::InvalidConfig)
    ));
    assert!(matches!(
        LiveLifecycleConfig::new(
            "campaign-zero-cap".to_owned(),
            intent(),
            "BTCUSDT".to_owned(),
            LiveLifecycleObservation::Open,
            1_000_000,
            4,
            Decimal::zero(),
            false,
        ),
        Err(LiveLifecycleError::InvalidConfig)
    ));
}

#[test]
fn filter_violations_are_refused_after_the_plan_and_before_submit() {
    let config = config("filters");
    let mut journal = Journal::new();
    let mut venue =
        FakeVenue::new(vec![Ok(passing_admission())], Vec::new(), Vec::new(), Vec::new());
    venue.filters_pass = false;

    let error = run(&config, &mut venue, &mut journal).unwrap_err();

    assert!(matches!(
        error,
        LiveLifecycleError::AdmissionRefused(LiveAdmissionRefusal::FiltersViolated)
    ));
    assert_eq!(venue.calls, vec!["admission"]);
    assert!(journal.body.contains("admission_filters_violated"), "{}", journal.body);
    assert!(
        !journal.body.contains(LifecycleDecision::SubmitObserved.label()),
        "{}",
        journal.body
    );
}

#[test]
fn selling_more_than_the_free_base_balance_is_refused_before_submit() {
    let mut sell_intent = intent();
    sell_intent.side = Side::Sell;
    let config = config_with("campaign-no-short", sell_intent, number("100"), false);
    let mut journal = Journal::new();
    let truth = LiveAdmissionTruth {
        free_base_quantity: Decimal::zero(),
        free_quote_amount: number("1000000"),
        open_order_client_ids: Vec::new(),
    };
    let mut venue = FakeVenue::new(vec![Ok(truth)], Vec::new(), Vec::new(), Vec::new());

    let error = run(&config, &mut venue, &mut journal).unwrap_err();

    assert!(matches!(
        error,
        LiveLifecycleError::AdmissionRefused(LiveAdmissionRefusal::InsufficientBaseBalance)
    ));
    assert_eq!(venue.calls, vec!["admission"]);
}

#[test]
fn buying_beyond_the_free_quote_balance_is_refused_before_submit() {
    let config = config("no-overspend");
    let mut journal = Journal::new();
    let truth = LiveAdmissionTruth {
        free_base_quantity: number("1"),
        free_quote_amount: number("1"),
        open_order_client_ids: Vec::new(),
    };
    let mut venue = FakeVenue::new(vec![Ok(truth)], Vec::new(), Vec::new(), Vec::new());

    let error = run(&config, &mut venue, &mut journal).unwrap_err();

    assert!(matches!(
        error,
        LiveLifecycleError::AdmissionRefused(LiveAdmissionRefusal::InsufficientQuoteBalance)
    ));
}

fn foreign_truth() -> LiveAdmissionTruth {
    LiveAdmissionTruth {
        free_base_quantity: number("1"),
        free_quote_amount: number("1000000"),
        open_order_client_ids: vec![Some("someone-else".to_owned()), None],
    }
}

#[test]
fn foreign_open_orders_are_refused_unless_explicitly_allowed() {
    let config = config("foreign");
    let mut journal = Journal::new();
    let mut venue =
        FakeVenue::new(vec![Ok(foreign_truth())], Vec::new(), Vec::new(), Vec::new());
    let error = run(&config, &mut venue, &mut journal).unwrap_err();
    assert!(matches!(
        error,
        LiveLifecycleError::AdmissionRefused(LiveAdmissionRefusal::ForeignOpenOrders)
    ));

    let allow = config_with("foreign-allowed", intent(), number("100"), true);
    let mut journal = Journal::new();
    let mut venue = proven_cancel(&allow);
    venue.admission = vec![Ok(foreign_truth())].into();
    let report = run(&allow, &mut venue, &mut journal).unwrap();
    assert_eq!(report.final_status, OrderStatus::Cancelled);
}

fn kill_fact() -> LifecycleFact {
    LifecycleFact::KillSwitchEngaged {
        failure: trading_apps::live_run::LifecycleFailure::UnexpectedTerminalOrder,
    }
}

#[test]
fn latched_kill_fact_blocks_a_fresh_campaign_before_any_venue_call() {
    let config = config("kill-blocked");
    let mut journal = Journal::new();
    journal.append(&config, &kill_fact(), Timestamp::from_parts(1, 0));
    assert!(journal.is_latched());

    let fresh = config_with("kill-blocked-next", intent(), number("100"), false);
    let mut venue = FakeVenue::silent();
    let error = run(&fresh, &mut venue, &mut journal).unwrap_err();

    assert!(matches!(error, LiveLifecycleError::KillSwitchLatched));
    assert!(venue.calls.is_empty());
    assert!(!journal.body.contains("kill-blocked-next"), "{}", journal.body);
}

#[test]
fn unsafe_terminal_outcomes_latch_the_kill_switch_for_later_campaigns() {
    let config = config("kill-latch");
    let mut journal = Journal::new();
    let mut venue = FakeVenue::new(
        vec![Ok(passing_admission())],
        vec![Ok(order(&config, OrderStatus::Open, "0"))],
        vec![Ok(order(&config, OrderStatus::Filled, "0.001"))],
        Vec::new(),
    );

    let error = run(&config, &mut venue, &mut journal).unwrap_err();
    assert!(matches!(error, LiveLifecycleError::UnsafeTerminal(OrderStatus::Filled)));
    assert!(journal.is_latched());

    let next = config_with("kill-latch-next", intent(), number("100"), false);
    let mut no_remote = FakeVenue::silent();
    let blocked = run(&next, &mut no_remote, &mut journal).unwrap_err();
    assert!(matches!(blocked, LiveLifecycleError::KillSwitchLatched));
    assert!(no_remote.calls.is_empty());
}

fn interrupted_submit() -> FakeVenue {
    FakeVenue::new(
        vec![Ok(passing_admission())],
        vec![Err(ExchangeError::AmbiguousOutcome)],
        vec![Err(ExchangeError::Unavailable)],
        Vec::new(),
    )
}

fn recovering_venue(config: &LiveLifecycleConfig) -> FakeVenue {
    let mut venue = proven_cancel(config);
    venue.admission.clear();
    venue.submit.clear();
    venue
}

#[test]
fn pending_recovery_stays_query_first_even_with_a_latched_kill_fact() {
    let config = config("kill-recovery");
    let mut journal = Journal::new();
    let first = run(&config, &mut interrupted_submit(), &mut journal).unwrap_err();
    assert!(matches!(first, LiveLifecycleError::OutcomeUnknown));

    journal.append(&config, &kill_fact(), Timestamp::from_parts(1, 0));
    assert!(journal.is_latched());

    let mut recovered = recovering_venue(&config);
    let report = run(&config, &mut recovered, &mut journal).unwrap();
    assert!(report.recovered);
    assert_eq!(recovered.calls, vec!["query", "cancel", "query"]);
}

#[test]
fn restart_after_ambiguous_submit_queries_first_and_never_resubmits() {
    let config = config("recover");
    let mut journal = Journal::new();
    let first = run(&config, &mut interrupted_submit(), &mut journal).unwrap_err();
    assert!(matches!(first, LiveLifecycleError::OutcomeUnknown));
    let projected = project_campaign(&config, &journal.events).unwrap();
    assert!(!live_lifecycle_requires_submission(&projected));
    assert_eq!(live_lifecycle_wire_symbol(&config, &projected), "BTCUSDT");

    let mut recovered = recovering_venue(&config);
    let report = run(&config, &mut recovered, &mut journal).unwrap();

    assert!(report.recovered);
    assert_eq!(recovered.calls, vec!["query", "cancel", "query"]);
}

#[test]
fn completed_campaign_is_idempotent_and_performs_no_remote_calls() {
    let config = config("idempotent");
    let mut journal = Journal::new();
    run(&config, &mut proven_cancel(&config), &mut journal).unwrap();

    let mut replay = FakeVenue::silent();
    let report = run(&config, &mut replay, &mut journal).unwrap();

    assert!(report.recovered);
    assert!(replay.calls.is_empty());
}

#[test]
fn persisted_retry_after_blocks_immediate_restart_before_remote_calls() {
    let config = config("retry-deferred");
    let mut journal = Journal::new();
    let mut interrupted = FakeVenue::new(
        vec![Ok(passing_admission())],
        vec![Ok(order(&config, OrderStatus::Open, "0"))],
        vec![Err(rate_limited_query(3_600))],
        Vec::new(),
    );
    let first = run(&config, &mut interrupted, &mut journal).unwrap_err();
    assert!(matches!(first, LiveLifecycleError::OutcomeUnknown));

    let mut no_remote = FakeVenue::silent();
    let second = run(&config, &mut no_remote, &mut journal).unwrap_err();
    assert!(matches!(second, LiveLifecycleError::RetryDeferred { .. }));
    assert!(no_remote.calls.is_empty());
}

#[test]
fn a_pause_until_a_leap_second_is_read_as_one() {
    let payload = "{\"details\":{\"retry_after\":{\"kind\":\"at\",\"at\":\"2016-12-31T23:59:60.5Z\"}}}";
    let retry = read_lifecycle_event(payload, None, None).retry_after.unwrap();
    assert_eq!(retry.at, Some(Timestamp::from_parts(1_483_228_799, 1_500_000_000)));
}

#[test]
fn a_pause_until_an_instant_is_read_from_its_text() {
    let payload = "{\"strategy\":\"binance_live_lifecycle\",\"decision\":\"live_lifecycle_outcome_unknown\",\"details\":{\"retry_after\":{\"kind\":\"at\",\"at\":\"2026-07-25T00:00:01.5Z\"}}}";
    let event = read_lifecycle_event(payload, None, None);
    let retry = event.retry_after.unwrap();
    assert_eq!(retry.kind, Some("at".to_owned()));
    assert_eq!(retry.seconds, None);
    assert_eq!(retry.at, Some(Timestamp::from_parts(1_784_937_601, 500_000_000)));
    assert!(event.has_details);
    assert_eq!(event.client_order_id, None);
}

#[test]
fn a_foreign_plan_conflicts_and_a_broken_one_is_corrupt() {
    let first = config("plan");
    let mut journal = Journal::new();
    journal.append(&first, &LifecycleFact::Planned, Timestamp::from_parts(1, 0));
    assert!(project_campaign(&first, &journal.events).unwrap().planned);

    let other = config_with("campaign-plan", intent(), number("90"), false);
    assert!(matches!(
        project_campaign(&other, &journal.events),
        Err(LiveLifecycleError::ConfigConflict)
    ));

    journal.append(&first, &LifecycleFact::Planned, Timestamp::from_parts(2, 0));
    assert!(matches!(
        project_campaign(&first, &journal.events),
        Err(LiveLifecycleError::CorruptHistory)
    ));
}

#[test]
fn labels_read_back_and_messages_name_the_failure() {
    for observation in [LiveLifecycleObservation::Open, LiveLifecycleObservation::PartiallyFilled] {
        assert_eq!(LiveLifecycleObservation::parse(observation.label()), Some(observation));
    }
    for reason in [CancelReason::ObservationSatisfied, CancelReason::ObservationNotReached] {
        assert_eq!(CancelReason::parse(reason.label()), Some(reason));
    }
    assert_eq!(LiveLifecycleObservation::parse("closed"), None);
    assert_eq!(
        LiveLifecycleError::OutcomeUnknown.message(),
        "the live lifecycle outcome is unresolved; rerun the same campaign to query first"
    );
    assert_eq!(exchange_failure_bucket(&rate_limited_query(1)), "remote_failure");
    let (base, quote) = spot_symbol_assets("BTC-USDT-SPOT").unwrap();
    assert_eq!((base.as_str(), quote.as_str()), ("BTC", "USDT"));
}

#[test]
fn members_of_documents_are_read_by_their_kind() {
    let document = r#"{"a":"text","b":7,"c":true,"d":{"e":"inner"},"f":1.5,"b":8}"#;
    assert_eq!(text_member(document, "a"), Some("text".to_owned()));
    assert_eq!(text_member(document, "b"), None);
    assert_eq!(number_member(document, "b"), Some(8));
    assert_eq!(number_member(document, "f"), None);
    assert_eq!(number_member(document, "a"), None);
    assert_eq!(flag_member(document, "c"), Some(true));
    assert_eq!(flag_member(document, "b"), None);
    assert_eq!(document_member(document, "d"), Some(r#"{"e":"inner"}"#.to_owned()));
    assert_eq!(document_member(document, "missing"), None);
    assert_eq!(document_member("[1]", "a"), None);
    assert_eq!(document_member("no document", "a"), None);
}
