//! The start of an owner, step by step.
//!
//! Recovery preflight comes before registration; a source starts only after
//! the owner is registered, and the owner runs only after its running record
//! is durable.

use vstd::prelude::*;

verus! {

/// What the start of an owner takes besides its records.
#[derive(Clone, Copy, Debug, PartialEq, Eq, Structural)]
pub struct StartPlan {
    /// The paper account is initialised first.
    pub ensure_account: bool,
    /// The history machine is fed from the dedicated history.
    pub backfill: bool,
    /// The owner has two sources.
    pub two_sources: bool,
}

/// What the start waits for.
#[derive(Clone, Copy, Debug)]
pub enum StartStage<X> {
    Preflight,
    EnsureAccount { sequence: u64 },
    Backfill { sequence: u64 },
    RegisterAppend { sequence: u64 },
    FirstSource { sequence: u64 },
    SecondSource { sequence: u64 },
    FirstSourceStop { error: X },
    StartupFailureAppend { error: X },
    RunningAppend { sequence: u64 },
    SourcesStop { error: X },
    Saga { sequence: u64 },
    Finished,
}

/// What the start asks for.
#[derive(Clone, Copy, Debug)]
pub enum StartAction<X> {
    Nothing,
    RunPreflight,
    EnsureAccount,
    Backfill,
    AppendRegistered,
    StartFirstSource,
    StartSecondSource,
    StopFirstSource,
    AppendStartupFailure,
    AppendRunning { sequence: u64 },
    StopSources,
    BindSaga,
    /// The number that the owner continues from, or why it does not start.
    Finish { sequence: u64, error: Option<X> },
}

/// What came of the last action.
#[derive(Clone, Copy, Debug)]
pub enum StartInput<X> {
    Preflighted { sequence: u64 },
    Done,
    Failed { error: X },
}

/// The next stage and what it asks for.
pub type StartStep<X> = (StartStage<X>, StartAction<X>);

/// The owner does not start.
pub open spec fn refuses<X>(error: X) -> StartStep<X> {
    (StartStage::Finished, StartAction::Finish { sequence: 0, error: Some(error) })
}

/// The first step: an owner whose sources do not fit is refused, else the
/// preflight is run.
pub open spec fn first_step<X>(bound: bool, unbound: X) -> StartStep<X> {
    if bound {
        (StartStage::Preflight, StartAction::RunPreflight)
    } else {
        refuses(unbound)
    }
}

/// The owner is registered, after its history machine is fed where it has one.
pub open spec fn registers<X>(plan: StartPlan, sequence: u64, fed: bool) -> StartStep<X> {
    if plan.backfill && !fed {
        (StartStage::Backfill { sequence }, StartAction::Backfill)
    } else {
        (StartStage::RegisterAppend { sequence }, StartAction::AppendRegistered)
    }
}

/// What follows an action. Any other input is ignored.
pub open spec fn start_step<X>(plan: StartPlan, stage: StartStage<X>, input: StartInput<X>) -> StartStep<
    X,
> {
    match (stage, input) {
        (StartStage::Preflight, StartInput::Preflighted { sequence }) => if plan.ensure_account {
            (StartStage::EnsureAccount { sequence }, StartAction::EnsureAccount)
        } else {
            registers(plan, sequence, false)
        },
        (StartStage::EnsureAccount { sequence }, StartInput::Done) => registers(
            plan,
            sequence,
            false,
        ),
        (StartStage::Backfill { sequence }, StartInput::Done) => registers(plan, sequence, true),
        (StartStage::RegisterAppend { sequence }, StartInput::Done) => (
            StartStage::FirstSource { sequence },
            StartAction::StartFirstSource,
        ),
        (StartStage::FirstSource { sequence }, StartInput::Done) => if plan.two_sources {
            (StartStage::SecondSource { sequence }, StartAction::StartSecondSource)
        } else {
            (StartStage::RunningAppend { sequence }, StartAction::AppendRunning { sequence })
        },
        (StartStage::SecondSource { sequence }, StartInput::Done) => (
            StartStage::RunningAppend { sequence },
            StartAction::AppendRunning { sequence },
        ),
        (StartStage::FirstSource { .. }, StartInput::Failed { error }) => (
            StartStage::StartupFailureAppend { error },
            StartAction::AppendStartupFailure,
        ),
        (StartStage::SecondSource { .. }, StartInput::Failed { error }) => (
            StartStage::FirstSourceStop { error },
            StartAction::StopFirstSource,
        ),
        (StartStage::FirstSourceStop { error }, _) => (
            StartStage::StartupFailureAppend { error },
            StartAction::AppendStartupFailure,
        ),
        (StartStage::StartupFailureAppend { error }, StartInput::Done) => refuses(error),
        (StartStage::RunningAppend { sequence }, StartInput::Done) => (
            StartStage::Saga { sequence },
            StartAction::BindSaga,
        ),
        (StartStage::RunningAppend { .. }, StartInput::Failed { error }) => (
            StartStage::SourcesStop { error },
            StartAction::StopSources,
        ),
        (StartStage::SourcesStop { error }, _) => refuses(error),
        (StartStage::Saga { sequence }, StartInput::Done) => (
            StartStage::Finished,
            StartAction::Finish { sequence, error: None },
        ),
        (StartStage::Finished, _) => (stage, StartAction::Nothing),
        (_, StartInput::Failed { error }) => refuses(error),
        _ => (stage, StartAction::Nothing),
    }
}

/// The first step of a start.
pub fn start<X: Copy>(bound: bool, unbound: X) -> (r: StartStep<X>)
    ensures
        r == first_step(bound, unbound),
{
    if bound {
        (StartStage::Preflight, StartAction::RunPreflight)
    } else {
        refuse(unbound)
    }
}

fn refuse<X: Copy>(error: X) -> (r: StartStep<X>)
    ensures
        r == refuses(error),
{
    (StartStage::Finished, StartAction::Finish { sequence: 0, error: Some(error) })
}

fn register<X: Copy>(plan: StartPlan, sequence: u64, fed: bool) -> (r: StartStep<X>)
    ensures
        r == registers::<X>(plan, sequence, fed),
{
    if plan.backfill && !fed {
        (StartStage::Backfill { sequence }, StartAction::Backfill)
    } else {
        (StartStage::RegisterAppend { sequence }, StartAction::AppendRegistered)
    }
}

/// Takes what came of the last action and says what to do next.
pub fn advance_start<X: Copy>(plan: StartPlan, stage: StartStage<X>, input: StartInput<X>) -> (r:
    StartStep<X>)
    ensures
        r == start_step(plan, stage, input),
{
    match (stage, input) {
        (StartStage::Preflight, StartInput::Preflighted { sequence }) => {
            if plan.ensure_account {
                (StartStage::EnsureAccount { sequence }, StartAction::EnsureAccount)
            } else {
                register(plan, sequence, false)
            }
        },
        (StartStage::EnsureAccount { sequence }, StartInput::Done) => register(
            plan,
            sequence,
            false,
        ),
        (StartStage::Backfill { sequence }, StartInput::Done) => register(plan, sequence, true),
        (StartStage::RegisterAppend { sequence }, StartInput::Done) => (
            StartStage::FirstSource { sequence },
            StartAction::StartFirstSource,
        ),
        (StartStage::FirstSource { sequence }, StartInput::Done) => {
            if plan.two_sources {
                (StartStage::SecondSource { sequence }, StartAction::StartSecondSource)
            } else {
                (StartStage::RunningAppend { sequence }, StartAction::AppendRunning { sequence })
            }
        },
        (StartStage::SecondSource { sequence }, StartInput::Done) => (
            StartStage::RunningAppend { sequence },
            StartAction::AppendRunning { sequence },
        ),
        (StartStage::FirstSource { .. }, StartInput::Failed { error }) => (
            StartStage::StartupFailureAppend { error },
            StartAction::AppendStartupFailure,
        ),
        (StartStage::SecondSource { .. }, StartInput::Failed { error }) => (
            StartStage::FirstSourceStop { error },
            StartAction::StopFirstSource,
        ),
        (StartStage::FirstSourceStop { error }, _) => (
            StartStage::StartupFailureAppend { error },
            StartAction::AppendStartupFailure,
        ),
        (StartStage::StartupFailureAppend { error }, StartInput::Done) => refuse(error),
        (StartStage::RunningAppend { sequence }, StartInput::Done) => (
            StartStage::Saga { sequence },
            StartAction::BindSaga,
        ),
        (StartStage::RunningAppend { .. }, StartInput::Failed { error }) => (
            StartStage::SourcesStop { error },
            StartAction::StopSources,
        ),
        (StartStage::SourcesStop { error }, _) => refuse(error),
        (StartStage::Saga { sequence }, StartInput::Done) => (
            StartStage::Finished,
            StartAction::Finish { sequence, error: None },
        ),
        (StartStage::Finished, _) => (StartStage::Finished, StartAction::Nothing),
        (_, StartInput::Failed { error }) => refuse(error),
        _ => (stage, StartAction::Nothing),
    }
}

/// The stages, the actions and the inputs of one start, in order.
pub open spec fn is_start<X>(
    plan: StartPlan,
    stages: Seq<StartStage<X>>,
    actions: Seq<StartAction<X>>,
    inputs: Seq<StartInput<X>>,
) -> bool {
    &&& stages.len() == actions.len()
    &&& stages.len() == inputs.len() + 1
    &&& stages[0] is Preflight
    &&& actions[0] is RunPreflight
    &&& forall|i: int|
        0 <= i < inputs.len() ==> (#[trigger] stages[i + 1], actions[i + 1]) == start_step(
            plan,
            stages[i],
            inputs[i],
        )
}

/// The preflight passed before the `i`-th action.
pub open spec fn has_passed_preflight<X>(inputs: Seq<StartInput<X>>, i: int, sequence: u64) -> bool {
    exists|j: int| 0 <= j < i && #[trigger] inputs[j] == (StartInput::<X>::Preflighted { sequence })
}

/// The number that the stage carries.
spec fn stage_sequence<X>(stage: StartStage<X>) -> Option<u64> {
    match stage {
        StartStage::EnsureAccount { sequence }
        | StartStage::Backfill { sequence }
        | StartStage::RegisterAppend { sequence }
        | StartStage::FirstSource { sequence }
        | StartStage::SecondSource { sequence }
        | StartStage::RunningAppend { sequence }
        | StartStage::Saga { sequence } => Some(sequence),
        _ => None,
    }
}

/// What the start has behind it in a stage.
spec fn start_facts<X>(
    stages: Seq<StartStage<X>>,
    actions: Seq<StartAction<X>>,
    inputs: Seq<StartInput<X>>,
    i: int,
) -> bool {
    let stage = stages[i];
    &&& stage is FirstSource || stage is SecondSource || stage is FirstSourceStop || stage
        is RunningAppend || stage is Saga ==> exists|j: int|
        0 <= j < i && #[trigger] stages[j] is RegisterAppend && inputs[j] is Done
    &&& stage is Saga ==> exists|j: int|
        0 <= j < i && #[trigger] stages[j] is RunningAppend && inputs[j] is Done
    &&& stage_sequence(stage) is Some ==> has_passed_preflight(
        inputs,
        i,
        stage_sequence(stage)->0,
    )
}

proof fn lemma_start_facts<X>(
    plan: StartPlan,
    stages: Seq<StartStage<X>>,
    actions: Seq<StartAction<X>>,
    inputs: Seq<StartInput<X>>,
    i: int,
)
    requires
        is_start(plan, stages, actions, inputs),
        0 <= i < stages.len(),
    ensures
        start_facts(stages, actions, inputs, i),
    decreases i,
{
    if i > 0 {
        let k = i - 1;
        lemma_start_facts(plan, stages, actions, inputs, k);
        assert((stages[k + 1], actions[k + 1]) == start_step(plan, stages[k], inputs[k]));
        assert(stages[k] == stages[k]);
        assert(inputs[k] == inputs[k]);
        if stage_sequence(stages[i]) is Some {
            let sequence = stage_sequence(stages[i])->0;
            if stage_sequence(stages[k]) is Some {
                let j = choose|j: int|
                    0 <= j < k && #[trigger] inputs[j] == (StartInput::<X>::Preflighted {
                        sequence,
                    });
                assert(inputs[j] == (StartInput::<X>::Preflighted { sequence }));
            }
        }
    }
}

/// An owner starts only after its preflight passed and its registration and its
/// running record are durable; it continues from the number of its preflight.
pub proof fn law_started_owner_is_recorded<X>(
    plan: StartPlan,
    stages: Seq<StartStage<X>>,
    actions: Seq<StartAction<X>>,
    inputs: Seq<StartInput<X>>,
    i: int,
)
    requires
        is_start(plan, stages, actions, inputs),
        0 <= i < stages.len(),
        actions[i] is Finish,
        actions[i]->Finish_error is None,
    ensures
        i > 0,
        exists|j: int| 0 <= j < i && #[trigger] stages[j] is RegisterAppend && inputs[j] is Done,
        exists|j: int| 0 <= j < i && #[trigger] stages[j] is RunningAppend && inputs[j] is Done,
        has_passed_preflight(inputs, i, actions[i]->Finish_sequence),
{
    assert(i > 0);
    let k = i - 1;
    lemma_start_facts(plan, stages, actions, inputs, k);
    assert((stages[k + 1], actions[k + 1]) == start_step(plan, stages[k], inputs[k]));
    let sequence = actions[i]->Finish_sequence;
    let j = choose|j: int|
        0 <= j < k && #[trigger] inputs[j] == (StartInput::<X>::Preflighted { sequence });
    assert(inputs[j] == (StartInput::<X>::Preflighted { sequence }));
}

/// No source starts before the owner's registration is durable.
pub proof fn law_source_starts_after_registration<X>(
    plan: StartPlan,
    stages: Seq<StartStage<X>>,
    actions: Seq<StartAction<X>>,
    inputs: Seq<StartInput<X>>,
    i: int,
)
    requires
        is_start(plan, stages, actions, inputs),
        0 <= i < stages.len(),
        actions[i] is StartFirstSource || actions[i] is StartSecondSource,
    ensures
        i > 0,
        exists|j: int| 0 <= j < i && #[trigger] stages[j] is RegisterAppend && inputs[j] is Done,
{
    assert(i > 0);
    lemma_start_facts(plan, stages, actions, inputs, i);
    let k = i - 1;
    assert((stages[k + 1], actions[k + 1]) == start_step(plan, stages[k], inputs[k]));
}

} // verus!
