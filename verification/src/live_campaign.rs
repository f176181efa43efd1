//! What holds of all runs of one live campaign on one journal.
//!
//! A campaign may be run any number of times, one run after the other, and each
//! run may stop anywhere. The journal only grows, and holds at least every fact
//! that a run was told is durable; whatever else came into it in the meantime
//! may stand there too.

use crate::live_laws::{is_run, law_one_submit_after_durable_plan, law_recovery_never_submits};
use crate::live_lifecycle::LiveLifecycleSettings;
use crate::live_projection::{
    after_event, after_events, law_decision_label_reads_back, unplanned_campaign,
    ProjectedCampaign, RecordedEvent,
};
use crate::live_readback::{fact_is_durable, reads_as};
use crate::live_run::{
    fact_decision, is_step, LifecycleAction, LifecycleFact, LifecycleInput, LifecycleRun,
    LifecycleStage, LifecycleStep,
};
use crate::timestamp::Timestamp;
use vstd::prelude::*;

verus! {

/// One run of a campaign: when it started, whether the journal was latched, and
/// its states, actions and inputs, in order.
pub struct CampaignRun {
    pub now: Timestamp,
    pub kill_switch_latched: bool,
    pub states: Seq<LifecycleRun>,
    pub actions: Seq<LifecycleAction>,
    pub inputs: Seq<LifecycleInput>,
}

/// The journal holds the fact at or behind the place `from`.
pub open spec fn holds_fact(
    settings: LiveLifecycleSettings,
    journal: Seq<RecordedEvent>,
    from: int,
    fact: LifecycleFact,
) -> bool {
    exists|p: int|
        from <= p < journal.len() && #[trigger] reads_as(settings, journal[p].event, fact)
}

/// The run starts on the journal `before`, which can be read, and leaves the
/// journal `after`: a longer one that holds every fact which the run was told
/// is durable.
pub open spec fn runs_on(
    settings: LiveLifecycleSettings,
    before: Seq<RecordedEvent>,
    after: Seq<RecordedEvent>,
    run: CampaignRun,
) -> bool {
    let projected = after_events(settings, before, unplanned_campaign());
    &&& projected is Ok
    &&& is_run(
        settings,
        projected->Ok_0,
        run.now,
        run.kill_switch_latched,
        run.states,
        run.actions,
        run.inputs,
    )
    &&& before.is_prefix_of(after)
    &&& forall|i: int|
        0 <= i < run.inputs.len() && #[trigger] fact_is_durable(run.actions, run.inputs, i)
            ==> holds_fact(settings, after, before.len() as int, run.actions[i]->Append_0)
}

/// The runs follow one another on one journal: `journals` are the journals
/// before, between and after them.
pub open spec fn runs_on_one_journal(
    settings: LiveLifecycleSettings,
    journals: Seq<Seq<RecordedEvent>>,
    runs: Seq<CampaignRun>,
) -> bool {
    &&& journals.len() == runs.len() + 1
    &&& forall|k: int|
        0 <= k < runs.len() ==> runs_on(
            settings,
            journals[k],
            journals[k + 1],
            #[trigger] runs[k],
        )
}

/// A journal that holds the plan, and can be read, knows the campaign as
/// planned.
proof fn lemma_plan_is_known(
    settings: LiveLifecycleSettings,
    journal: Seq<RecordedEvent>,
    p: int,
)
    requires
        0 <= p < journal.len(),
        reads_as(settings, journal[p].event, LifecycleFact::Planned),
        after_events(settings, journal, unplanned_campaign()) is Ok,
    ensures
        after_events(settings, journal, unplanned_campaign())->Ok_0.planned,
    decreases journal.len(),
{
    let shorter = journal.drop_last();
    let last = journal.last();
    let campaign = after_events(settings, shorter, unplanned_campaign())->Ok_0;
    assert(after_events(settings, journal, unplanned_campaign()) == after_event(
        settings,
        last.recorded_at,
        last.event,
        campaign,
    ));
    if p < shorter.len() {
        assert(shorter[p] == journal[p]);
        lemma_plan_is_known(settings, shorter, p);
    } else {
        law_decision_label_reads_back(fact_decision(LifecycleFact::Planned));
    }
}

/// The journal only grows from one run to a later one.
proof fn lemma_journal_grows(
    settings: LiveLifecycleSettings,
    journals: Seq<Seq<RecordedEvent>>,
    runs: Seq<CampaignRun>,
    a: int,
    b: int,
)
    requires
        runs_on_one_journal(settings, journals, runs),
        0 <= a <= b <= runs.len(),
    ensures
        journals[a].is_prefix_of(journals[b]),
    decreases b - a,
{
    if a < b {
        lemma_journal_grows(settings, journals, runs, a, b - 1);
        let k = b - 1;
        assert(runs_on(settings, journals[k], journals[k + 1], runs[k]));
        assert(journals[a] =~= journals[b].take(journals[a].len() as int));
    }
}

/// After a run that submits, every later run finds the plan.
proof fn lemma_later_runs_find_the_plan(
    settings: LiveLifecycleSettings,
    journals: Seq<Seq<RecordedEvent>>,
    runs: Seq<CampaignRun>,
    a: int,
    i: int,
    b: int,
)
    requires
        runs_on_one_journal(settings, journals, runs),
        0 <= a < b < runs.len(),
        0 <= i < runs[a].actions.len(),
        runs[a].actions[i] is Submit,
    ensures
        after_events(settings, journals[b], unplanned_campaign())->Ok_0.planned,
{
    let run = runs[a];
    assert(runs_on(settings, journals[a], journals[a + 1], run));
    law_one_submit_after_durable_plan(
        settings,
        after_events(settings, journals[a], unplanned_campaign())->Ok_0,
        run.now,
        run.kill_switch_latched,
        run.states,
        run.actions,
        run.inputs,
        i,
    );
    assert(fact_is_durable(run.actions, run.inputs, 0));
    let fact = run.actions[0]->Append_0;
    let p = choose|p: int|
        journals[a].len() <= p < journals[a + 1].len() && #[trigger] reads_as(
            settings,
            journals[a + 1][p].event,
            fact,
        );
    lemma_journal_grows(settings, journals, runs, a + 1, b);
    assert(journals[b][p] == journals[a + 1][p]);
    assert(runs_on(settings, journals[b], journals[b + 1], runs[b]));
    lemma_plan_is_known(settings, journals[b], p);
}

/// However often a campaign is run on one journal, whatever the venue answers
/// and wherever a run stops, all its runs together submit at most once.
pub proof fn law_all_runs_submit_at_most_once(
    settings: LiveLifecycleSettings,
    journals: Seq<Seq<RecordedEvent>>,
    runs: Seq<CampaignRun>,
    a: int,
    i: int,
    b: int,
    j: int,
)
    requires
        runs_on_one_journal(settings, journals, runs),
        0 <= a < runs.len(),
        0 <= i < runs[a].actions.len(),
        runs[a].actions[i] is Submit,
        0 <= b < runs.len(),
        0 <= j < runs[b].actions.len(),
        runs[b].actions[j] is Submit,
    ensures
        a == b,
        i == j,
{
    if a != b {
        let (first, place, later) = if a < b {
            (a, i, b)
        } else {
            (b, j, a)
        };
        lemma_later_runs_find_the_plan(settings, journals, runs, first, place, later);
        let run = runs[later];
        assert(runs_on(settings, journals[later], journals[later + 1], run));
        law_recovery_never_submits(
            settings,
            after_events(settings, journals[later], unplanned_campaign())->Ok_0,
            run.now,
            run.kill_switch_latched,
            run.states,
            run.actions,
            run.inputs,
        );
    } else {
        let run = runs[a];
        assert(runs_on(settings, journals[a], journals[a + 1], run));
        law_one_submit_after_durable_plan(
            settings,
            after_events(settings, journals[a], unplanned_campaign())->Ok_0,
            run.now,
            run.kill_switch_latched,
            run.states,
            run.actions,
            run.inputs,
            i,
        );
    }
}

/// The action is a call to the venue.
pub open spec fn calls_venue(action: LifecycleAction) -> bool {
    action is SampleAdmission || action is Submit || action is Query || action is Cancel
}

/// A resumed run that has not queried yet.
spec fn has_not_asked(run: LifecycleRun) -> bool {
    match run.stage {
        LifecycleStage::ResumeAppend
        | LifecycleStage::QueryPlanAppend(_)
        | LifecycleStage::LastAppend(_)
        | LifecycleStage::Finished => true,
        _ => false,
    }
}

proof fn lemma_first_call(
    settings: LiveLifecycleSettings,
    run: LifecycleRun,
    input: LifecycleInput,
    step: LifecycleStep,
)
    requires
        is_step(settings, run, input, step),
    ensures
        step.1 is Query ==> step.1->symbol == settings.intent.symbol && step.1->client_order_id
            == settings.intent.client_order_id,
        has_not_asked(run) ==> step.1 is Query || (has_not_asked(step.0) && !calls_venue(step.1)),
        step.1 is SampleAdmission ==> run.stage is PlanAppend,
        step.0.stage is PlanAppend ==> false,
{
}

proof fn lemma_quiet_until_asked(
    settings: LiveLifecycleSettings,
    projected: ProjectedCampaign,
    run: CampaignRun,
    i: int,
)
    requires
        is_run(
            settings,
            projected,
            run.now,
            run.kill_switch_latched,
            run.states,
            run.actions,
            run.inputs,
        ),
        projected.planned,
        0 <= i < run.actions.len(),
        forall|j: int| 0 <= j <= i ==> !(#[trigger] run.actions[j] is Query),
    ensures
        has_not_asked(run.states[i]),
        !calls_venue(run.actions[i]),
    decreases i,
{
    if i > 0 {
        let k = i - 1;
        lemma_quiet_until_asked(settings, projected, run, k);
        assert(is_step(
            settings,
            run.states[k],
            run.inputs[k],
            (run.states[k + 1], run.actions[k + 1]),
        ));
        lemma_first_call(
            settings,
            run.states[k],
            run.inputs[k],
            (run.states[k + 1], run.actions[k + 1]),
        );
        assert(!(run.actions[i] is Query));
    }
}

/// A run that finds a durable plan neither samples the admission nor submits,
/// and its first call to the venue, if it makes one, queries the one order that
/// was planned.
pub proof fn law_resumed_run_queries_first(
    settings: LiveLifecycleSettings,
    projected: ProjectedCampaign,
    run: CampaignRun,
    i: int,
)
    requires
        is_run(
            settings,
            projected,
            run.now,
            run.kill_switch_latched,
            run.states,
            run.actions,
            run.inputs,
        ),
        projected.planned,
        0 <= i < run.actions.len(),
        calls_venue(run.actions[i]),
    ensures
        !(run.actions[i] is SampleAdmission),
        !(run.actions[i] is Submit),
        (forall|j: int| 0 <= j < i ==> !calls_venue(#[trigger] run.actions[j])) ==> run.actions[i]
            == (LifecycleAction::Query {
            symbol: settings.intent.symbol,
            client_order_id: settings.intent.client_order_id,
        }),
{
    law_recovery_never_submits(
        settings,
        projected,
        run.now,
        run.kill_switch_latched,
        run.states,
        run.actions,
        run.inputs,
    );
    let k = i - 1;
    if i > 0 {
        assert(is_step(
            settings,
            run.states[k],
            run.inputs[k],
            (run.states[k + 1], run.actions[k + 1]),
        ));
        lemma_first_call(
            settings,
            run.states[k],
            run.inputs[k],
            (run.states[k + 1], run.actions[k + 1]),
        );
        if run.states[k].stage is PlanAppend && k > 0 {
            let m = k - 1;
            assert(is_step(
                settings,
                run.states[m],
                run.inputs[m],
                (run.states[m + 1], run.actions[m + 1]),
            ));
            lemma_first_call(
                settings,
                run.states[m],
                run.inputs[m],
                (run.states[m + 1], run.actions[m + 1]),
            );
        }
    }
    if forall|j: int| 0 <= j < i ==> !calls_venue(#[trigger] run.actions[j]) {
        assert(run.actions[i] is Query) by {
            if !(run.actions[i] is Query) {
                assert forall|j: int| 0 <= j <= i implies !(#[trigger] run.actions[
                    j
                ] is Query) by {
                    if j < i {
                        assert(!calls_venue(run.actions[j]));
                    }
                }
                lemma_quiet_until_asked(settings, projected, run, i);
            }
        }
    }
}

} // verus!
