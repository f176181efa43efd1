//! What holds of every run of a live campaign.

use crate::domain::OrderStatus;
use crate::live_lifecycle::LiveLifecycleSettings;
use crate::live_projection::ProjectedCampaign;
use crate::live_run::{
    is_first_step, is_step, LifecycleAction, LifecycleFact, LifecycleInput, LifecycleRun,
    LifecycleStep,
};
use crate::timestamp::Timestamp;
use vstd::prelude::*;

verus! {

/// The states, the actions and the inputs of one run, in order: the first step
/// over what the journal says, and each later step over one input.
pub open spec fn is_run(
    settings: LiveLifecycleSettings,
    projected: ProjectedCampaign,
    now: Timestamp,
    kill_switch_latched: bool,
    states: Seq<LifecycleRun>,
    actions: Seq<LifecycleAction>,
    inputs: Seq<LifecycleInput>,
) -> bool {
    &&& states.len() == actions.len()
    &&& states.len() == inputs.len() + 1
    &&& is_first_step(settings, projected, now, kill_switch_latched, (states[0], actions[0]))
    &&& forall|i: int|
        0 <= i < inputs.len() ==> #[trigger] is_step(
            settings,
            states[i],
            inputs[i],
            (states[i + 1], actions[i + 1]),
        )
}

/// The submit is still ahead.
spec fn may_submit(run: LifecycleRun) -> bool {
    run.stage is PlanAppend || run.stage is Admission || run.stage is AdmissionAppend
        || run.stage is FilterCheck
}

proof fn lemma_submit_step(
    settings: LiveLifecycleSettings,
    run: LifecycleRun,
    input: LifecycleInput,
    step: LifecycleStep,
)
    requires
        is_step(settings, run, input, step),
    ensures
        step.1 is Submit ==> may_submit(run) && !may_submit(step.0) && run.stage is FilterCheck,
        step.1 is Submit ==> step.1 == (LifecycleAction::Submit { intent: settings.intent }),
        !may_submit(run) ==> !may_submit(step.0) && !(step.1 is Submit),
        step.0.stage is PlanAppend ==> false,
        step.0.stage is Admission ==> run.stage is PlanAppend && input
            == LifecycleInput::Appended(true),
        step.0.stage is AdmissionAppend ==> run.stage is Admission,
        step.0.stage is FilterCheck ==> run.stage is AdmissionAppend,
{
}

/// Where the submit is behind the run, it does not come again.
proof fn lemma_no_later_submit(
    settings: LiveLifecycleSettings,
    projected: ProjectedCampaign,
    now: Timestamp,
    latched: bool,
    states: Seq<LifecycleRun>,
    actions: Seq<LifecycleAction>,
    inputs: Seq<LifecycleInput>,
    i: int,
    j: int,
)
    requires
        is_run(settings, projected, now, latched, states, actions, inputs),
        0 <= i <= j < states.len(),
        !may_submit(states[i]),
    ensures
        !may_submit(states[j]),
        i < j ==> !(actions[j] is Submit),
    decreases j - i,
{
    if i < j {
        lemma_no_later_submit(settings, projected, now, latched, states, actions, inputs, i, j - 1);
        let k = j - 1;
        assert(is_step(settings, states[k], inputs[k], (states[k + 1], actions[k + 1])));
        lemma_submit_step(settings, states[k], inputs[k], (states[k + 1], actions[k + 1]));
    }
}

/// Before the submit, the run came straight from its durable plan.
proof fn lemma_before_submit(
    settings: LiveLifecycleSettings,
    projected: ProjectedCampaign,
    now: Timestamp,
    latched: bool,
    states: Seq<LifecycleRun>,
    actions: Seq<LifecycleAction>,
    inputs: Seq<LifecycleInput>,
    i: int,
)
    requires
        is_run(settings, projected, now, latched, states, actions, inputs),
        0 <= i < states.len(),
        may_submit(states[i]),
    ensures
        !projected.planned,
        actions[0] == LifecycleAction::Append(LifecycleFact::Planned),
        states[i].stage is PlanAppend <==> i == 0,
        i > 0 ==> inputs[0] == LifecycleInput::Appended(true),
    decreases i,
{
    if i > 0 {
        let k = i - 1;
        assert(is_step(settings, states[k], inputs[k], (states[k + 1], actions[k + 1])));
        lemma_submit_step(settings, states[k], inputs[k], (states[k + 1], actions[k + 1]));
        lemma_before_submit(settings, projected, now, latched, states, actions, inputs, k);
    }
}

/// A run that finds a durable plan never submits.
pub proof fn law_recovery_never_submits(
    settings: LiveLifecycleSettings,
    projected: ProjectedCampaign,
    now: Timestamp,
    kill_switch_latched: bool,
    states: Seq<LifecycleRun>,
    actions: Seq<LifecycleAction>,
    inputs: Seq<LifecycleInput>,
)
    requires
        is_run(settings, projected, now, kill_switch_latched, states, actions, inputs),
        projected.planned,
    ensures
        forall|i: int| 0 <= i < actions.len() ==> !(#[trigger] actions[i] is Submit),
{
    assert forall|i: int| 0 <= i < actions.len() implies !(#[trigger] actions[i] is Submit) by {
        lemma_no_later_submit(
            settings,
            projected,
            now,
            kill_switch_latched,
            states,
            actions,
            inputs,
            0,
            i,
        );
    }
}

/// A run submits at most once, and no other order than the campaign's; only for
/// a campaign without a plan, and only after its own plan is durable.
pub proof fn law_one_submit_after_durable_plan(
    settings: LiveLifecycleSettings,
    projected: ProjectedCampaign,
    now: Timestamp,
    kill_switch_latched: bool,
    states: Seq<LifecycleRun>,
    actions: Seq<LifecycleAction>,
    inputs: Seq<LifecycleInput>,
    i: int,
)
    requires
        is_run(settings, projected, now, kill_switch_latched, states, actions, inputs),
        0 <= i < actions.len(),
        actions[i] is Submit,
    ensures
        actions[i] == (LifecycleAction::Submit { intent: settings.intent }),
        !projected.planned,
        !kill_switch_latched,
        i > 0,
        actions[0] == LifecycleAction::Append(LifecycleFact::Planned),
        inputs[0] == LifecycleInput::Appended(true),
        forall|j: int| 0 <= j < actions.len() && j != i ==> !(#[trigger] actions[j] is Submit),
{
    let k = i - 1;
    assert(is_step(settings, states[k], inputs[k], (states[k + 1], actions[k + 1])));
    lemma_submit_step(settings, states[k], inputs[k], (states[k + 1], actions[k + 1]));
    lemma_before_submit(
        settings,
        projected,
        now,
        kill_switch_latched,
        states,
        actions,
        inputs,
        k,
    );
    assert forall|j: int| 0 <= j < actions.len() && j != i implies !(#[trigger] actions[
        j
    ] is Submit) by {
        if j > i {
            lemma_no_later_submit(
                settings,
                projected,
                now,
                kill_switch_latched,
                states,
                actions,
                inputs,
                i,
                j,
            );
        } else if actions[j] is Submit {
            let m = j - 1;
            assert(is_step(settings, states[m], inputs[m], (states[m + 1], actions[m + 1])));
            lemma_submit_step(settings, states[m], inputs[m], (states[m + 1], actions[m + 1]));
            lemma_no_later_submit(
                settings,
                projected,
                now,
                kill_switch_latched,
                states,
                actions,
                inputs,
                j,
                k,
            );
        }
    }
}

/// What holds of the state of a run at each of its stages.
pub open spec fn run_is_sound(settings: LiveLifecycleSettings, run: LifecycleRun) -> bool {
    &&& run.query_count <= settings.maximum_queries
    &&& run.stage is QueryPlanAppend ==> run.query_count < settings.maximum_queries
    &&& run.stage is CompleteAppend ==> run.order is Some && run.order->0.status
        == OrderStatus::Cancelled
    &&& run.stage is QueryAppend ==> run.latest is Some
}

proof fn lemma_sound_step(
    settings: LiveLifecycleSettings,
    run: LifecycleRun,
    input: LifecycleInput,
    step: LifecycleStep,
)
    requires
        is_step(settings, run, input, step),
        run_is_sound(settings, run),
    ensures
        run_is_sound(settings, step.0),
        step.0.query_count >= run.query_count,
        step.1 is Query ==> step.0.query_count == run.query_count + 1,
        step.1 is Finish && step.1->Finish_0 is Ok ==> step.1->Finish_0->Ok_0.final_status
            == OrderStatus::Cancelled,
{
}

proof fn lemma_sound_run(
    settings: LiveLifecycleSettings,
    projected: ProjectedCampaign,
    now: Timestamp,
    latched: bool,
    states: Seq<LifecycleRun>,
    actions: Seq<LifecycleAction>,
    inputs: Seq<LifecycleInput>,
    i: int,
)
    requires
        is_run(settings, projected, now, latched, states, actions, inputs),
        projected.query_count <= settings.maximum_queries,
        0 <= i < states.len(),
    ensures
        run_is_sound(settings, states[i]),
    decreases i,
{
    if i > 0 {
        lemma_sound_run(settings, projected, now, latched, states, actions, inputs, i - 1);
        let k = i - 1;
        assert(is_step(settings, states[k], inputs[k], (states[k + 1], actions[k + 1])));
        lemma_sound_step(settings, states[k], inputs[k], (states[k + 1], actions[k + 1]));
    }
}

/// The number of queries among the first `n` actions.
pub open spec fn queries_asked(actions: Seq<LifecycleAction>, n: int) -> int
    decreases n,
{
    if n <= 0 {
        0
    } else {
        queries_asked(actions, n - 1) + if actions[n - 1] is Query {
            1int
        } else {
            0int
        }
    }
}

proof fn lemma_queries_counted(
    settings: LiveLifecycleSettings,
    projected: ProjectedCampaign,
    now: Timestamp,
    latched: bool,
    states: Seq<LifecycleRun>,
    actions: Seq<LifecycleAction>,
    inputs: Seq<LifecycleInput>,
    i: int,
)
    requires
        is_run(settings, projected, now, latched, states, actions, inputs),
        projected.query_count <= settings.maximum_queries,
        0 <= i < states.len(),
    ensures
        projected.query_count + queries_asked(actions, i + 1) <= states[i].query_count,
    decreases i,
{
    if i > 0 {
        let k = i - 1;
        lemma_queries_counted(settings, projected, now, latched, states, actions, inputs, k);
        lemma_sound_run(settings, projected, now, latched, states, actions, inputs, k);
        assert(is_step(settings, states[k], inputs[k], (states[k + 1], actions[k + 1])));
        lemma_sound_step(settings, states[k], inputs[k], (states[k + 1], actions[k + 1]));
    } else {
        assert(queries_asked(actions, 0) == 0);
    }
}

/// All runs of a campaign together never ask for more queries than its budget:
/// the queries of this run and those that the journal counts stay within it.
pub proof fn law_queries_within_budget(
    settings: LiveLifecycleSettings,
    projected: ProjectedCampaign,
    now: Timestamp,
    kill_switch_latched: bool,
    states: Seq<LifecycleRun>,
    actions: Seq<LifecycleAction>,
    inputs: Seq<LifecycleInput>,
)
    requires
        is_run(settings, projected, now, kill_switch_latched, states, actions, inputs),
        projected.query_count <= settings.maximum_queries,
    ensures
        projected.query_count + queries_asked(actions, actions.len() as int)
            <= settings.maximum_queries,
{
    let last = states.len() - 1;
    lemma_queries_counted(
        settings,
        projected,
        now,
        kill_switch_latched,
        states,
        actions,
        inputs,
        last,
    );
    lemma_sound_run(
        settings,
        projected,
        now,
        kill_switch_latched,
        states,
        actions,
        inputs,
        last,
    );
}

/// A run ends well only with an order that a query showed as cancelled.
pub proof fn law_report_proves_cancellation(
    settings: LiveLifecycleSettings,
    projected: ProjectedCampaign,
    now: Timestamp,
    kill_switch_latched: bool,
    states: Seq<LifecycleRun>,
    actions: Seq<LifecycleAction>,
    inputs: Seq<LifecycleInput>,
    i: int,
)
    requires
        is_run(settings, projected, now, kill_switch_latched, states, actions, inputs),
        projected.query_count <= settings.maximum_queries,
        projected.completed is Some ==> projected.completed->0.status == OrderStatus::Cancelled,
        0 <= i < actions.len(),
        actions[i] is Finish,
        actions[i]->Finish_0 is Ok,
    ensures
        actions[i]->Finish_0->Ok_0.final_status == OrderStatus::Cancelled,
{
    if i > 0 {
        let k = i - 1;
        lemma_sound_run(
            settings,
            projected,
            now,
            kill_switch_latched,
            states,
            actions,
            inputs,
            k,
        );
        assert(is_step(settings, states[k], inputs[k], (states[k + 1], actions[k + 1])));
        lemma_sound_step(settings, states[k], inputs[k], (states[k + 1], actions[k + 1]));
    }
}

/// How a step comes to an unsafe end or to a cancel.
proof fn lemma_guarded_step(
    settings: LiveLifecycleSettings,
    run: LifecycleRun,
    input: LifecycleInput,
    step: LifecycleStep,
)
    requires
        is_step(settings, run, input, step),
    ensures
        step.1 is Finish && step.1->Finish_0 is Err && step.1->Finish_0->Err_0 is UnsafeTerminal
            ==> run.stage is LastAppend && run.stage->LastAppend_0 is UnsafeTerminal && input
            == LifecycleInput::Appended(true),
        step.0.stage is LastAppend && step.0.stage->LastAppend_0 is UnsafeTerminal ==> step.1
            is Append && step.1->Append_0 is KillSwitchEngaged && run.stage is UnsafeAppend && input
            == LifecycleInput::Appended(true),
        step.0.stage is UnsafeAppend ==> step.1 is Append && step.1->Append_0 is Failed,
        step.1 is Cancel ==> run.cancel_reason is Some || (run.stage is CancelPlanAppend && input
            == LifecycleInput::Appended(true)),
        step.0.stage is CancelPlanAppend ==> step.1 is Append && step.1->Append_0 is CancelPlanned,
        step.0.cancel_reason == run.cancel_reason,
{
}

/// A run ends with an unsafe terminal order only once the kill fact that
/// latches the journal is durable, and the failure was durable before that.
#[verifier::rlimit(60)]
pub proof fn law_unsafe_terminal_latches_the_journal(
    settings: LiveLifecycleSettings,
    projected: ProjectedCampaign,
    now: Timestamp,
    kill_switch_latched: bool,
    states: Seq<LifecycleRun>,
    actions: Seq<LifecycleAction>,
    inputs: Seq<LifecycleInput>,
    i: int,
)
    requires
        is_run(settings, projected, now, kill_switch_latched, states, actions, inputs),
        0 <= i < actions.len(),
        actions[i] is Finish,
        actions[i]->Finish_0 is Err,
        actions[i]->Finish_0->Err_0 is UnsafeTerminal,
    ensures
        i >= 2,
        inputs[i - 1] == LifecycleInput::Appended(true),
        actions[i - 1] is Append,
        actions[i - 1]->Append_0 is KillSwitchEngaged,
        inputs[i - 2] == LifecycleInput::Appended(true),
        actions[i - 2] is Append,
        actions[i - 2]->Append_0 is Failed,
{
    let k = i - 1;
    if i > 0 {
        lemma_guarded_step(settings, states[k], inputs[k], (states[k + 1], actions[k + 1]));
        if k > 0 {
            let m = k - 1;
            lemma_guarded_step(settings, states[m], inputs[m], (states[m + 1], actions[m + 1]));
            if m > 0 {
                let n = m - 1;
                lemma_guarded_step(settings, states[n], inputs[n], (states[n + 1], actions[n + 1]));
            }
        }
    }
}

/// The venue is asked to cancel only after a cancel plan is durable: the one
/// that this run appended just before, or one that the journal already held.
#[verifier::rlimit(60)]
pub proof fn law_cancel_after_durable_plan(
    settings: LiveLifecycleSettings,
    projected: ProjectedCampaign,
    now: Timestamp,
    kill_switch_latched: bool,
    states: Seq<LifecycleRun>,
    actions: Seq<LifecycleAction>,
    inputs: Seq<LifecycleInput>,
    i: int,
)
    requires
        is_run(settings, projected, now, kill_switch_latched, states, actions, inputs),
        0 <= i < actions.len(),
        actions[i] is Cancel,
    ensures
        i >= 1,
        projected.cancel_reason is Some || (inputs[i - 1] == LifecycleInput::Appended(true)
            && actions[i - 1] is Append && actions[i - 1]->Append_0 is CancelPlanned),
{
    let k = i - 1;
    lemma_guarded_step(settings, states[k], inputs[k], (states[k + 1], actions[k + 1]));
    lemma_cancel_reason_kept(
        settings,
        projected,
        now,
        kill_switch_latched,
        states,
        actions,
        inputs,
        k,
    );
    if k > 0 {
        let m = k - 1;
        lemma_guarded_step(settings, states[m], inputs[m], (states[m + 1], actions[m + 1]));
    }
}

proof fn lemma_cancel_reason_kept(
    settings: LiveLifecycleSettings,
    projected: ProjectedCampaign,
    now: Timestamp,
    latched: bool,
    states: Seq<LifecycleRun>,
    actions: Seq<LifecycleAction>,
    inputs: Seq<LifecycleInput>,
    i: int,
)
    requires
        is_run(settings, projected, now, latched, states, actions, inputs),
        0 <= i < states.len(),
    ensures
        states[i].cancel_reason == projected.cancel_reason,
    decreases i,
{
    if i > 0 {
        lemma_cancel_reason_kept(settings, projected, now, latched, states, actions, inputs, i - 1);
        let k = i - 1;
        lemma_guarded_step(settings, states[k], inputs[k], (states[k + 1], actions[k + 1]));
    }
}

} // verus!
