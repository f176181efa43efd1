//! How owners start and end, what they have in common, and what a durable
//! history makes of a live campaign.

use crate::decimal::representable;
use crate::domain::OrderStatus;
use crate::json::held_under;
use crate::live_lifecycle::{active_status, defers_confirmation, observation_matches, CancelReason};
use crate::live_lifecycle::{LiveLifecycleObservation, LiveLifecycleSettings};
use crate::live_projection::{after_cancel_plan, after_order, after_plan, after_query_plan};
use crate::live_projection::retry_instant;
use crate::number_laws::{law_order_is_that_of_units, units};
use crate::live_projection::{LifecycleDecision, LifecycleEvent, ProjectedCampaign, RetryAfterFact};
use crate::paper_admission::PaperAdmissionCompensationError;
use crate::paper_arbitrage_task::{arbitrage_bucket, arbitrage_compensation_error};
use crate::paper_arbitrage_task::{arbitrage_exit_text, arbitrage_failure_text, arbitrage_phase_text};
use crate::paper_arbitrage_task::{ArbitragePaperTaskError, ArbitragePaperTaskExit};
use crate::paper_arbitrage_task::{ArbitragePaperTaskPhase, ArbitrageSagaFailure};
use crate::paper_grid_task::{compensation_error, grid_bucket, grid_exit_text, grid_failure_text};
use crate::paper_grid_task::{grid_phase_text, GridPaperTaskError, GridPaperTaskExit};
use crate::paper_grid_task::{GridPaperTaskPhase, SagaFailure};
use crate::paper_volume_maker_task::{volume_bucket, volume_compensation_error, volume_exit_text};
use crate::paper_volume_maker_task::{volume_failure_text, volume_phase_text};
use crate::paper_volume_maker_task::{VolumeMakerPaperTaskError, VolumeMakerPaperTaskExit};
use crate::paper_volume_maker_task::VolumeMakerPaperTaskPhase;
use crate::paper_profile::{is_refusal, PaperProfileError};
use crate::task_handle::{advanced, requested, FinishRequest, HandleAction, HandleInput, HandleStage};
use crate::task_handle::{JoinOutcome, OwnerError, TaskHandle};
use crate::task_start::{start_step, StartAction, StartInput, StartPlan, StartStage};
use crate::text::{digits_of, ends_with, equal_ignoring_case, is_white_space, parsed_u64, starts_with};
use crate::text::{lemma_digits_read_back, trim_of, zero_padded};
use crate::time_laws::{law_advancing_adds_the_time, nanos_of};
use crate::timestamp::{is_leap, Timestamp};
use vstd::prelude::*;

verus! {

/// An owner starts step by step: its account where it is to be initialised,
/// its history where it is fed from one, its registration, its sources, its
/// running record, its saga; it continues from the number of its preflight.
pub proof fn law_start_goes_step_by_step<X>(plan: StartPlan, sequence: u64)
    ensures
        ({
            let done = StartInput::<X>::Done;
            let first = start_step(
                plan,
                StartStage::<X>::Preflight,
                StartInput::Preflighted { sequence },
            );
            let fed = start_step(plan, StartStage::EnsureAccount { sequence }, done);
            let registering = start_step(plan, StartStage::Backfill { sequence }, done);
            let sourcing = start_step(plan, StartStage::RegisterAppend { sequence }, done);
            let sourced = start_step(plan, StartStage::FirstSource { sequence }, done);
            let running = start_step(plan, StartStage::SecondSource { sequence }, done);
            let binding = start_step(plan, StartStage::RunningAppend { sequence }, done);
            let end = start_step(plan, StartStage::Saga { sequence }, done);
            &&& plan.ensure_account ==> first.1 is EnsureAccount
            &&& !plan.ensure_account && plan.backfill ==> first.1 is Backfill
            &&& !plan.ensure_account && !plan.backfill ==> first.1 is AppendRegistered
            &&& plan.backfill ==> fed.1 is Backfill
            &&& !plan.backfill ==> fed.1 is AppendRegistered
            &&& registering.1 is AppendRegistered
            &&& sourcing.1 is StartFirstSource
            &&& plan.two_sources ==> sourced.1 is StartSecondSource
            &&& !plan.two_sources ==> sourced.1 == (StartAction::<X>::AppendRunning { sequence })
            &&& running.1 == (StartAction::<X>::AppendRunning { sequence })
            &&& binding.1 is BindSaga
            &&& end.1 == (StartAction::<X>::Finish { sequence, error: None })
        }),
{
}

/// A start that fails ends with the error that stopped it, after what was
/// started is stopped: the first source where the second one fails, all of
/// them where the running record does.
pub proof fn law_failed_start_stops_what_it_started<X>(
    plan: StartPlan,
    stage: StartStage<X>,
    error: X,
    input: StartInput<X>,
)
    ensures
        ({
            let failed = start_step(plan, stage, StartInput::Failed { error });
            let after = start_step(plan, failed.0, input);
            let recorded = start_step(plan, failed.0, StartInput::Done);
            let refused = StartAction::Finish { sequence: 0, error: Some(error) };
            &&& stage is SecondSource ==> failed.1 is StopFirstSource && after.1
                is AppendStartupFailure && start_step(plan, after.0, StartInput::Done).1 == refused
            &&& stage is FirstSource ==> failed.1 is AppendStartupFailure && recorded.1 == refused
            &&& stage is RunningAppend ==> failed.1 is StopSources && after.1 == refused
            &&& stage is Preflight || stage is EnsureAccount || stage is Backfill || stage
                is RegisterAppend || stage is Saga ==> failed.1 == refused
        }),
{
}

/// A request to a running owner joins it: a stop and a cancel are signalled
/// and bounded, a wait is neither.
pub proof fn law_request_joins_a_running_owner<E: Copy, X: OwnerError>(
    handle: TaskHandle<E, X>,
    request: FinishRequest,
)
    requires
        handle.completion is None,
    ensures
        ({
            let step = requested(handle, request);
            let signal = if request == FinishRequest::Wait {
                None
            } else {
                Some(request)
            };
            &&& handle.running ==> step.1 == (HandleAction::<E, X>::Join {
                signal,
                bounded: request != FinishRequest::Wait,
            }) && !step.0.running
            &&& !handle.running ==> step.1 == (HandleAction::<E, X>::Return {
                signal,
                result: Err(X::cancelled_error()),
            })
        }),
{
}

/// An owner that ends gives its own result, once the capacity it may still
/// hold is kept; one that does not end within its bound is aborted.
pub proof fn law_joined_owner_gives_its_result<E: Copy, X: OwnerError>(
    handle: TaskHandle<E, X>,
    outcome: JoinOutcome<E, X>,
    leased: bool,
)
    requires
        handle.stage is Joining,
    ensures
        ({
            let step = advanced(handle, HandleInput::Joined { outcome, leased });
            let result = match outcome {
                JoinOutcome::Returned(returned) => returned,
                JoinOutcome::Panicked => Err(X::panicked_error()),
                JoinOutcome::Cancelled => Err(X::cancelled_error()),
            };
            let kept = advanced(step.0, HandleInput::Done);
            &&& leased ==> step.1 is RetainCapacity && kept.1 == (HandleAction::<E, X>::Return {
                signal: None,
                result,
            })
            &&& !leased ==> step.1 == (HandleAction::<E, X>::Return { signal: None, result })
            &&& handle.stage == (HandleStage::<E, X>::Joining { bounded: true }) ==> advanced(
                handle,
                HandleInput::TimedOut,
            ).1 is AbortOwner
        }),
{
}

/// The three texts are one.
pub open spec fn all_one(a: Seq<char>, b: Seq<char>, c: Seq<char>) -> bool {
    a == b && b == c
}

/// The three owners sort these errors into failures of one name.
pub open spec fn fail_alike(
    grid: GridPaperTaskError,
    volume: VolumeMakerPaperTaskError,
    pair: ArbitragePaperTaskError,
) -> bool {
    all_one(
        grid_failure_text(grid_bucket(grid)),
        volume_failure_text(volume_bucket(volume)),
        arbitrage_failure_text(arbitrage_bucket(pair)),
    )
}

/// The owners sort the errors that they have in common into the same failures.
pub proof fn law_owners_fail_alike()
    ensures
        fail_alike(
            GridPaperTaskError::InvalidConfig,
            VolumeMakerPaperTaskError::InvalidConfig,
            ArbitragePaperTaskError::InvalidConfig,
        ),
        fail_alike(
            GridPaperTaskError::InvalidSourceBinding,
            VolumeMakerPaperTaskError::InvalidSourceBinding,
            ArbitragePaperTaskError::InvalidSourceBinding,
        ),
        fail_alike(
            GridPaperTaskError::InvalidRequest,
            VolumeMakerPaperTaskError::InvalidRequest,
            ArbitragePaperTaskError::InvalidRequest,
        ),
        fail_alike(
            GridPaperTaskError::RecoveryRequired,
            VolumeMakerPaperTaskError::RecoveryRequired,
            ArbitragePaperTaskError::RecoveryRequired,
        ),
        fail_alike(
            GridPaperTaskError::ShutdownTimedOut,
            VolumeMakerPaperTaskError::ShutdownTimedOut,
            ArbitragePaperTaskError::ShutdownTimedOut,
        ),
        fail_alike(
            GridPaperTaskError::SnapshotTaskFailed,
            VolumeMakerPaperTaskError::SnapshotTaskFailed,
            ArbitragePaperTaskError::SnapshotTaskFailed,
        ),
        fail_alike(
            GridPaperTaskError::Journal,
            VolumeMakerPaperTaskError::Journal,
            ArbitragePaperTaskError::Journal,
        ),
        fail_alike(
            GridPaperTaskError::JournalRead,
            VolumeMakerPaperTaskError::JournalRead,
            ArbitragePaperTaskError::JournalRead,
        ),
        fail_alike(
            GridPaperTaskError::Projection,
            VolumeMakerPaperTaskError::Projection,
            ArbitragePaperTaskError::Projection,
        ),
        fail_alike(
            GridPaperTaskError::Account,
            VolumeMakerPaperTaskError::Account,
            ArbitragePaperTaskError::Account,
        ),
        fail_alike(
            GridPaperTaskError::AccountRisk,
            VolumeMakerPaperTaskError::AccountRisk,
            ArbitragePaperTaskError::AccountRisk,
        ),
        fail_alike(
            GridPaperTaskError::Source,
            VolumeMakerPaperTaskError::Source,
            ArbitragePaperTaskError::Source,
        ),
        fail_alike(
            GridPaperTaskError::Strategy,
            VolumeMakerPaperTaskError::Strategy,
            ArbitragePaperTaskError::Strategy,
        ),
        fail_alike(
            GridPaperTaskError::Runtime,
            VolumeMakerPaperTaskError::Runtime,
            ArbitragePaperTaskError::Runtime,
        ),
        fail_alike(
            GridPaperTaskError::TaskPanicked,
            VolumeMakerPaperTaskError::TaskPanicked,
            ArbitragePaperTaskError::TaskPanicked,
        ),
        fail_alike(
            GridPaperTaskError::TaskCancelled,
            VolumeMakerPaperTaskError::TaskCancelled,
            ArbitragePaperTaskError::TaskCancelled,
        ),
{
}

/// The owners sort the failures of their sagas alike.
pub proof fn law_owners_sort_saga_failures_alike(failure: SagaFailure)
    ensures
        fail_alike(
            GridPaperTaskError::Saga(failure),
            VolumeMakerPaperTaskError::Saga(failure),
            ArbitragePaperTaskError::Saga(
                match failure {
                    SagaFailure::InvalidRequest => ArbitrageSagaFailure::InvalidRequest,
                    SagaFailure::RecoveryRequired => ArbitrageSagaFailure::RecoveryRequired,
                    SagaFailure::Account => ArbitrageSagaFailure::Account,
                    SagaFailure::Journal => ArbitrageSagaFailure::Journal,
                    SagaFailure::Execution => ArbitrageSagaFailure::Execution,
                    SagaFailure::Incomplete => ArbitrageSagaFailure::Incomplete,
                },
            ),
        ),
{
}

/// The owners name their phases and their common exits alike, and treat a
/// refused compensation alike.
pub proof fn law_owners_name_their_phases_alike(error: PaperAdmissionCompensationError)
    ensures
        all_one(
            grid_phase_text(GridPaperTaskPhase::Running),
            volume_phase_text(VolumeMakerPaperTaskPhase::Running),
            arbitrage_phase_text(ArbitragePaperTaskPhase::Running),
        ),
        all_one(
            grid_phase_text(GridPaperTaskPhase::Stopping),
            volume_phase_text(VolumeMakerPaperTaskPhase::Stopping),
            arbitrage_phase_text(ArbitragePaperTaskPhase::Stopping),
        ),
        all_one(
            grid_phase_text(GridPaperTaskPhase::Stopped),
            volume_phase_text(VolumeMakerPaperTaskPhase::Stopped),
            arbitrage_phase_text(ArbitragePaperTaskPhase::Stopped),
        ),
        all_one(
            grid_phase_text(GridPaperTaskPhase::Failed),
            volume_phase_text(VolumeMakerPaperTaskPhase::Failed),
            arbitrage_phase_text(ArbitragePaperTaskPhase::Failed),
        ),
        all_one(
            grid_exit_text(GridPaperTaskExit::StopRequested),
            volume_exit_text(VolumeMakerPaperTaskExit::StopRequested),
            arbitrage_exit_text(ArbitragePaperTaskExit::StopRequested),
        ),
        all_one(
            grid_exit_text(GridPaperTaskExit::SourceEnded),
            volume_exit_text(VolumeMakerPaperTaskExit::SourceEnded),
            arbitrage_exit_text(ArbitragePaperTaskExit::SourceEnded),
        ),
        all_one(
            grid_exit_text(GridPaperTaskExit::ShutdownTimedOut),
            volume_exit_text(VolumeMakerPaperTaskExit::ShutdownTimedOut),
            arbitrage_exit_text(ArbitragePaperTaskExit::ShutdownTimedOut),
        ),
        fail_alike(
            compensation_error(error),
            volume_compensation_error(error),
            arbitrage_compensation_error(error),
        ),
{
}

/// An order is active until it is filled, cancelled or rejected, and what is
/// expected to be observed of it is an active status.
pub proof fn law_expected_observation_is_active(
    observation: LiveLifecycleObservation,
    status: OrderStatus,
)
    ensures
        active_status(status) <==> status != OrderStatus::Filled && status
            != OrderStatus::Cancelled && status != OrderStatus::Rejected,
        observation_matches(observation, status) ==> active_status(status),
        observation_matches(LiveLifecycleObservation::Open, status)
            && observation_matches(LiveLifecycleObservation::PartiallyFilled, status) ==> false,
        observation_matches(LiveLifecycleObservation::PartiallyFilled, OrderStatus::PartiallyFilled),
        observation_matches(LiveLifecycleObservation::Open, OrderStatus::Open),
{
}

/// A venue that names a pause in seconds is heard from the time of the record
/// on; one that names an instant is heard at that instant.
pub proof fn law_named_pause_is_kept(recorded_at: Timestamp, retry: RetryAfterFact)
    requires
        !is_leap(recorded_at),
        retry.kind is Some,
        retry_instant(recorded_at, retry) is Some,
    ensures
        retry.kind->0@ == "seconds"@ ==> retry.seconds is Some && nanos_of(
            retry_instant(recorded_at, retry)->0,
        ) == nanos_of(recorded_at) + retry.seconds->0 * 1_000_000_000,
        retry.kind->0@ == "at"@ ==> retry_instant(recorded_at, retry) == retry.at,
{
    reveal_strlit("at");
    reveal_strlit("seconds");
    assert("at"@.len() != "seconds"@.len());
    if retry.kind->0@ == "seconds"@ {
        law_advancing_adds_the_time(recorded_at, retry.seconds->0 * 1_000_000_000);
    }
}

/// A recorded query is the next one and lies within the budget.
pub proof fn law_recorded_queries_are_numbered_in_a_row(
    settings: LiveLifecycleSettings,
    event: LifecycleEvent,
    campaign: ProjectedCampaign,
)
    requires
        after_query_plan(settings, event, campaign) is Ok,
    ensures
        event.query_sequence == Some((campaign.query_count + 1) as u64),
        after_query_plan(settings, event, campaign)->Ok_0.query_count == campaign.query_count + 1,
        campaign.query_count + 1 <= settings.maximum_queries,
        campaign.planned,
        campaign.completed is None,
        !campaign.failed,
{
}

/// A recorded cancel plan is of the order that the campaign knows, comes once,
/// and claims a satisfied observation exactly where one was recorded.
pub proof fn law_recorded_cancel_agrees_with_what_was_seen(
    event: LifecycleEvent,
    campaign: ProjectedCampaign,
)
    requires
        after_cancel_plan(event, campaign) is Ok,
    ensures
        ({
            let next = after_cancel_plan(event, campaign)->Ok_0;
            &&& campaign.planned
            &&& campaign.cancel_reason is None
            &&& next.cancel_reason is Some
            &&& next.cancel_reason == Some(CancelReason::ObservationSatisfied)
                <==> campaign.observation_satisfied
            &&& campaign.server_order_id is Some
            &&& event.server_order_id is Some
            &&& event.server_order_id->0@ == campaign.server_order_id->0@
            &&& next.query_count == campaign.query_count
        }),
{
}

/// A recorded order belongs to the campaign and keeps its venue identifier; a
/// completed campaign ends with a cancelled order after a satisfied
/// observation.
pub proof fn law_recorded_order_keeps_its_identity(
    settings: LiveLifecycleSettings,
    decision: LifecycleDecision,
    event: LifecycleEvent,
    campaign: ProjectedCampaign,
)
    requires
        after_order(settings, decision, event, campaign) is Ok,
    ensures
        ({
            let next = after_order(settings, decision, event, campaign)->Ok_0;
            &&& event.order is Some
            &&& event.order->0.intent.client_order_id == settings.intent.client_order_id
            &&& event.order->0.intent.side == settings.intent.side
            &&& next.server_order_id is Some
            &&& next.server_order_id->0@ == event.order->0.id@
            &&& campaign.server_order_id is Some ==> campaign.server_order_id->0@
                == event.order->0.id@
            &&& next.retry_not_before is None
            &&& next.query_count == campaign.query_count
            &&& campaign.observation_satisfied ==> next.observation_satisfied
            &&& decision == LifecycleDecision::Completed ==> next.completed is Some
                && event.order->0.status == OrderStatus::Cancelled
                && campaign.observation_satisfied && campaign.cancel_reason == Some(
                CancelReason::ObservationSatisfied,
            )
            &&& decision != LifecycleDecision::Completed ==> next.completed == campaign.completed
            &&& decision == LifecycleDecision::QueryObserved && observation_matches(
                settings.expected_observation,
                event.order->0.status,
            ) ==> next.observation_satisfied
        }),
{
}

/// The status of a venue that has banned the caller for a time.
pub const IM_A_TEAPOT: u16 = 418;

/// The status of a venue that asks the caller to slow down.
pub const TOO_MANY_REQUESTS: u16 = 429;

/// A cancel is confirmed later exactly where the venue asked for a pause, in
/// words or by its status.
pub proof fn law_confirmation_waits_where_the_venue_asks(error: crate::domain::ExchangeError)
    ensures
        defers_confirmation(error) ==> error is RemoteFailure,
        error is RemoteFailure && error->RemoteFailure_0.retry_after is Some
            ==> defers_confirmation(error),
        error is RemoteFailure && error->RemoteFailure_0.retry_after is None
            && error->RemoteFailure_0.status is None ==> !defers_confirmation(error),
        error is RemoteFailure && error->RemoteFailure_0.retry_after is None
            && error->RemoteFailure_0.status is Some ==> (defers_confirmation(error) <==> {
            ||| error->RemoteFailure_0.status->0 == IM_A_TEAPOT
            ||| error->RemoteFailure_0.status->0 == TOO_MANY_REQUESTS
        }),
{
}

/// A number that is written out, with any zeros before it, is read back.
pub proof fn law_written_number_reads_back(n: u64, width: nat)
    ensures
        parsed_u64(zero_padded(digits_of(n as nat), width)) == Some(n),
{
    lemma_digits_read_back(n as nat, width);
    let text = zero_padded(digits_of(n as nat), width);
    lemma_padded_digits_are_digits(n as nat, width);
    assert(text[0] != '+');
}

/// A written number is made of digits alone.
proof fn lemma_padded_digits_are_digits(n: nat, width: nat)
    ensures
        zero_padded(digits_of(n), width).len() > 0,
        crate::text::all_digits(zero_padded(digits_of(n), width)),
{
    lemma_digits_read_back(n, width);
    lemma_digits_are_digits(n);
    let (digits, text) = (digits_of(n), zero_padded(digits_of(n), width));
    let lead = text.len() - digits.len();
    assert forall|i: int| 0 <= i < text.len() implies crate::text::is_digit(#[trigger] text[i]) by {
        if i >= lead {
            assert(text[i] == digits[i - lead]);
        }
    }
}

/// The digits of a number are digits.
proof fn lemma_digits_are_digits(n: nat)
    ensures
        digits_of(n).len() > 0,
        crate::text::all_digits(digits_of(n)),
    decreases n,
{
    if n >= 10 {
        lemma_digits_are_digits(n / 10);
    }
}

/// Trimming leaves a text that neither starts nor ends with white space.
pub proof fn law_trimmed_text_has_no_white_ends(text: Seq<char>)
    ensures
        trim_of(text).len() <= text.len(),
        trim_of(text).len() > 0 ==> !is_white_space(trim_of(text)[0]) && !is_white_space(
            trim_of(text).last(),
        ),
{
    lemma_trim_start(text);
    lemma_trim_end(crate::text::trim_start_of(text));
}

proof fn lemma_trim_start(text: Seq<char>)
    ensures
        crate::text::trim_start_of(text).len() <= text.len(),
        crate::text::trim_start_of(text).len() > 0 ==> !is_white_space(
            crate::text::trim_start_of(text)[0],
        ),
    decreases text.len(),
{
    if text.len() > 0 && is_white_space(text[0]) {
        lemma_trim_start(text.skip(1));
    }
}

proof fn lemma_trim_end(text: Seq<char>)
    ensures
        crate::text::trim_end_of(text).len() <= text.len(),
        crate::text::trim_end_of(text).len() > 0 ==> !is_white_space(
            crate::text::trim_end_of(text).last(),
        ) && crate::text::trim_end_of(text)[0] == text[0],
    decreases text.len(),
{
    if text.len() > 0 && is_white_space(text.last()) {
        lemma_trim_end(text.drop_last());
    }
}

/// A text starts with a prefix exactly where it is the prefix and a rest, and
/// ends with a suffix exactly where it is a rest and the suffix.
pub proof fn law_text_is_its_parts(text: Seq<char>, rest: Seq<char>, part: Seq<char>)
    ensures
        starts_with(part + rest, part),
        ends_with(rest + part, part),
        starts_with(text, part) ==> text == part + text.skip(part.len() as int),
        ends_with(text, part) ==> text == text.take(text.len() - part.len()) + part,
{
    assert((part + rest).take(part.len() as int) =~= part);
    assert((rest + part).skip((rest + part).len() - part.len()) =~= part);
    if starts_with(text, part) {
        assert(text =~= part + text.skip(part.len() as int));
    }
    if ends_with(text, part) {
        assert(text =~= text.take(text.len() - part.len()) + part);
    }
}

/// The two characters are one, or one letter in its two cases.
pub open spec fn is_same_letter(x: char, y: char) -> bool {
    ||| x == y
    ||| 'A' <= x <= 'Z' && y as int == x as int + 32
    ||| 'A' <= y <= 'Z' && x as int == y as int + 32
}

/// Texts are equal but for the case exactly where they agree letter by letter.
pub proof fn law_only_the_case_makes_no_difference(a: Seq<char>, b: Seq<char>)
    ensures
        equal_ignoring_case(a, b) <==> a.len() == b.len() && forall|i: int|
            0 <= i < a.len() ==> is_same_letter(#[trigger] a[i], b[i]),
{
    assert forall|x: char, y: char| is_same_letter(x, y) <==> #[trigger] crate::text::ascii_lower(x)
        == #[trigger] crate::text::ascii_lower(y) by {}
    if equal_ignoring_case(a, b) {
        assert forall|i: int| 0 <= i < a.len() implies is_same_letter(#[trigger] a[i], b[i]) by {
            assert(crate::text::ascii_lower(a[i]) == crate::text::ascii_lower(b[i]));
        }
    }
}

/// A key holds what its first entry holds.
pub proof fn law_key_holds_its_first_entry(
    members: Seq<(Seq<char>, Seq<char>)>,
    key: Seq<char>,
    i: int,
)
    requires
        0 <= i < members.len(),
        members[i].0 == key,
        forall|j: int| 0 <= j < i ==> (#[trigger] members[j]).0 != key,
    ensures
        held_under(members, key) == Some(members[i].1),
    decreases i,
{
    if i > 0 {
        let rest = members.skip(1);
        assert(rest[i - 1] == members[i]);
        assert forall|j: int| 0 <= j < i - 1 implies (#[trigger] rest[j]).0 != key by {
            assert(rest[j] == members[j + 1]);
        }
        assert(members[0].0 != key);
        law_key_holds_its_first_entry(rest, key, i - 1);
    }
}

/// A recorded plan is taken up once, and only by the campaign that would write
/// it: with its order, its observation, its budget and its cap. The campaign
/// is planned from there on, under the recorded wire symbol.
pub proof fn law_recorded_plan_is_the_campaigns_own(
    settings: LiveLifecycleSettings,
    event: LifecycleEvent,
    campaign: ProjectedCampaign,
)
    requires
        after_plan(settings, event, campaign) is Ok,
        representable(event.intent->0.quantity@),
        representable(settings.intent.quantity@),
        representable(event.max_notional->0@),
        representable(settings.max_notional@),
    ensures
        ({
            let next = after_plan(settings, event, campaign)->Ok_0;
            let intent = event.intent->0;
            &&& !campaign.planned && next.planned
            &&& next.wire_symbol == event.wire_symbol
            &&& next.query_count == campaign.query_count
            &&& next.server_order_id == campaign.server_order_id
            &&& intent.client_order_id == settings.intent.client_order_id
            &&& intent.exchange@ == settings.intent.exchange@
            &&& intent.symbol@ == settings.intent.symbol@
            &&& intent.market_type == settings.intent.market_type
            &&& intent.side == settings.intent.side
            &&& intent.order_type == settings.intent.order_type
            &&& intent.time_in_force == settings.intent.time_in_force
            &&& intent.reduce_only == settings.intent.reduce_only
            &&& units(intent.quantity@) == units(settings.intent.quantity@)
            &&& intent.price is Some <==> settings.intent.price is Some
            &&& event.maximum_queries == Some(settings.maximum_queries as u64)
            &&& event.allow_foreign_orders == Some(settings.allow_foreign_orders)
            &&& units(event.max_notional->0@) == units(settings.max_notional@)
        }),
{
    law_order_is_that_of_units(event.intent->0.quantity@, settings.intent.quantity@);
    law_order_is_that_of_units(event.max_notional->0@, settings.max_notional@);
}

/// A second plan is never taken up, whatever it holds.
pub proof fn law_campaign_is_planned_once(
    settings: LiveLifecycleSettings,
    event: LifecycleEvent,
    campaign: ProjectedCampaign,
)
    requires
        campaign.planned,
    ensures
        after_plan(settings, event, campaign) is Err,
{
}

/// A start that names no task, no known command or another strategy is
/// refused. Starts of both owners are refused alike: whatever concerns the
/// journal, the account risk or the task itself may have changed something.
pub proof fn law_starts_are_refused_alike(grid: GridPaperTaskError, pair: ArbitragePaperTaskError)
    ensures
        is_refusal(PaperProfileError::UnknownTask),
        is_refusal(PaperProfileError::UnsupportedCommand),
        is_refusal(PaperProfileError::StrategyMismatch),
        grid is InvalidConfig || grid is InvalidSourceBinding || grid is RecoveryRequired
            ==> is_refusal(PaperProfileError::GridStart(grid)),
        pair is InvalidConfig || pair is InvalidSourceBinding || pair is RecoveryRequired
            ==> is_refusal(PaperProfileError::ArbitrageStart(pair)),
        (grid is Journal && pair is Journal) || (grid is JournalRead && pair is JournalRead) || (
        grid is Projection && pair is Projection) || (grid is AccountRisk && pair is AccountRisk)
            || (grid is TaskPanicked && pair is TaskPanicked) || (grid is SnapshotTaskFailed
            && pair is SnapshotTaskFailed) ==> !is_refusal(PaperProfileError::GridStart(grid))
            && !is_refusal(PaperProfileError::ArbitrageStart(pair)),
{
}

} // verus!
