//! What holds of every run of a volume-maker owner.

use crate::domain::MarketSnapshot;
use crate::paper_volume_maker_task::{
    evaluated_plan, plan_of, CycleLimits, OpenPosition, PlanOutline, PlannedKind, StandingQuote,
    StrategyAnswer, VolumeMakerMode, VolumeMakerPaperTaskPhase, VolumeMakerState,
};
use crate::timestamp::Timestamp;
use crate::volume_owner::{
    closing_step, next_cycle, owner_step, plan_step, run_step, woken, VolumeAction, VolumeInput,
    VolumeOwner, VolumeStage, VolumeStep,
};
use vstd::prelude::*;

verus! {

/// The owner is on its way out and starts no operation any more.
pub open spec fn winds_down(stage: VolumeStage) -> bool {
    match stage {
        VolumeStage::Retain { .. }
        | VolumeStage::Discard { .. }
        | VolumeStage::BoundsCheckpoint
        | VolumeStage::StopStatistics { .. }
        | VolumeStage::StoppingAppend { .. }
        | VolumeStage::SourceStop { .. }
        | VolumeStage::StoppedAppend { .. }
        | VolumeStage::FailingStop { .. }
        | VolumeStage::FailedAppend { .. }
        | VolumeStage::Finished => true,
        _ => false,
    }
}

/// The number of cycles lies below the bound, or none has completed yet.
pub open spec fn within(limits: CycleLimits, completed: u64) -> bool {
    limits.max_cycles is Some ==> completed == 0 || completed < limits.max_cycles->0
}

/// No cycle was completed at or past the bound, unless the owner is on its way
/// out.
pub open spec fn cycles_are_bounded(owner: VolumeOwner) -> bool {
    winds_down(owner.stage) || {
        &&& within(owner.limits, owner.status.completed_cycle_count)
        &&& owner.stage is RecordClosed || within(owner.limits, owner.next.completed_cycle_count)
    }
}

/// The record of the owner's end or of its failure is under way.
pub open spec fn has_failed(owner: VolumeOwner, action: VolumeAction) -> bool {
    ||| owner.stage is FailingStop
    ||| owner.stage is FailedAppend
    ||| owner.stage is Discard
    ||| owner.stage is Finished && action is Finish && action->Finish_0 is Err
}

/// The cycles that no durable statistics fact counts yet.
pub open spec fn unreported(owner: VolumeOwner, action: VolumeAction) -> int {
    if action is AppendStatistics {
        action->AppendStatistics_bucket.completed_cycles as int
    } else if owner.bucket is Some {
        owner.bucket->0.completed_cycles as int
    } else {
        0
    }
}

/// What is reported and what is not make up the completed cycles, unless the
/// owner has failed.
pub open spec fn cycles_add_up(owner: VolumeOwner, action: VolumeAction, reported: int) -> bool {
    has_failed(owner, action) || {
        &&& reported >= 0
        &&& reported + unreported(owner, action) == owner.next.completed_cycle_count
        &&& owner.stage is RecordClosed || owner.stage is Checkpoint || owner.stage
            is BoundsCheckpoint || owner.status.completed_cycle_count
            == owner.next.completed_cycle_count
        &&& action is AppendStatistics <==> owner.stage is Rollover || owner.stage is StopStatistics
        &&& owner.stage is Rollover ==> owner.bucket == Some(action->AppendStatistics_bucket)
        &&& owner.stage is StopStatistics || owner.stage is StoppingAppend || owner.stage
            is SourceStop || owner.stage is StoppedAppend || owner.stage is Finished
            ==> owner.bucket is None
    }
}

/// What a durable answer to the action reports.
pub open spec fn reports(action: VolumeAction, input: VolumeInput) -> int {
    if action is AppendStatistics && input is Done {
        action->AppendStatistics_bucket.completed_cycles as int
    } else {
        0
    }
}

/// What one step of an owner keeps.
pub open spec fn step_facts(
    owner: VolumeOwner,
    action: VolumeAction,
    input: VolumeInput,
    step: VolumeStep,
) -> bool {
    let (next, asked) = step;
    &&& next.risk == owner.risk
    &&& next.limits == owner.limits
    &&& next.sequence >= owner.sequence
    &&& asked is RunOperation <==> next.stage is Run
    &&& asked is RunOperation ==> owner.stage is Build && input is Done && next.sequence
        == owner.sequence
    &&& next.stage is Build ==> next.sequence == owner.sequence + 1
    &&& winds_down(owner.stage) ==> winds_down(next.stage)
    &&& owner.stage is Run && !(input is Ran) ==> winds_down(next.stage)
    &&& asked is BuildRequest ==> next.planned is Some && (owner.risk && next.planned->0.kind
        == PlannedKind::Open ==> owner.stage is Admit && input == VolumeInput::Admitted(true)
        && asked->BuildRequest_admitted)
    &&& asked is Finish && asked->Finish_0 is Ok ==> owner.stage is StoppedAppend && input is Done
        && next.phase == VolumeMakerPaperTaskPhase::Stopped
    &&& next.stage is StoppedAppend ==> asked is AppendStatus && asked->phase
        == VolumeMakerPaperTaskPhase::Stopped
    &&& cycles_are_bounded(owner) ==> cycles_are_bounded(next)
    &&& next.next.completed_cycle_count > owner.next.completed_cycle_count && owner.stage is Run
        ==> next.next_cycle_at == Some(next_cycle(owner.limits, owner.observed_at))
        && next.position is None
}

proof fn lemma_woken_facts(owner: VolumeOwner, action: VolumeAction, input: VolumeInput)
    requires
        owner.stage is Waiting,
    ensures
        step_facts(owner, action, input, woken(owner, input)),
{
}

#[verifier::rlimit(40)]
proof fn lemma_plan_facts(owner: VolumeOwner, action: VolumeAction, input: VolumeInput)
    requires
        owner.stage is Rollover || owner.stage is RiskExit || owner.stage is Plan || owner.stage
            is Admit || owner.stage is Discard || owner.stage is Build,
        owner.stage is Admit ==> owner.planned is Some,
    ensures
        step_facts(owner, action, input, plan_step(owner, input)),
{
}

#[verifier::rlimit(40)]
proof fn lemma_run_facts(owner: VolumeOwner, action: VolumeAction, input: VolumeInput)
    requires
        owner.stage is Run || owner.stage is Retain || owner.stage is RecordClosed || owner.stage
            is BoundsCheckpoint || owner.stage is Checkpoint || owner.stage is GapCheckpoint,
    ensures
        step_facts(owner, action, input, run_step(owner, input)),
{
}

proof fn lemma_closing_facts(owner: VolumeOwner, action: VolumeAction, input: VolumeInput)
    requires
        owner.stage is StopStatistics || owner.stage is StoppingAppend || owner.stage is SourceStop
            || owner.stage is StoppedAppend || owner.stage is FailingStop || owner.stage
            is FailedAppend || owner.stage is Finished,
    ensures
        step_facts(owner, action, input, closing_step(owner, input)),
{
}

proof fn lemma_step_facts(owner: VolumeOwner, action: VolumeAction, input: VolumeInput)
    requires
        owner.stage is Admit ==> owner.planned is Some,
    ensures
        step_facts(owner, action, input, owner_step(owner, input)),
{
    match owner.stage {
        VolumeStage::Waiting => lemma_woken_facts(owner, action, input),
        VolumeStage::Rollover
        | VolumeStage::RiskExit
        | VolumeStage::Plan
        | VolumeStage::Admit
        | VolumeStage::Discard { .. }
        | VolumeStage::Build => lemma_plan_facts(owner, action, input),
        VolumeStage::Run
        | VolumeStage::Retain { .. }
        | VolumeStage::RecordClosed
        | VolumeStage::BoundsCheckpoint
        | VolumeStage::Checkpoint
        | VolumeStage::GapCheckpoint => lemma_run_facts(owner, action, input),
        _ => lemma_closing_facts(owner, action, input),
    }
}

/// An operation is only weighed where one is planned.
proof fn lemma_admission_has_a_plan(owner: VolumeOwner, input: VolumeInput)
    ensures
        owner_step(owner, input).0.stage is Admit ==> owner_step(owner, input).0.planned is Some,
{
}

#[verifier::rlimit(60)]
proof fn lemma_cycles_add_up(
    owner: VolumeOwner,
    action: VolumeAction,
    input: VolumeInput,
    reported: int,
)
    requires
        cycles_add_up(owner, action, reported),
    ensures
        ({
            let (next, asked) = owner_step(owner, input);
            cycles_add_up(next, asked, reported + reports(action, input))
        }),
{
}

/// The states, the actions and the inputs of one owner, in order, from its
/// start on.
pub open spec fn is_owner_run(
    states: Seq<VolumeOwner>,
    actions: Seq<VolumeAction>,
    inputs: Seq<VolumeInput>,
) -> bool {
    &&& states.len() == actions.len()
    &&& states.len() == inputs.len() + 1
    &&& states[0].stage is Waiting
    &&& states[0].bucket is None
    &&& states[0].status.completed_cycle_count == 0
    &&& states[0].next == states[0].status
    &&& actions[0] is Wait
    &&& forall|i: int| 0 <= i < inputs.len() ==> #[trigger] is_owner_step(states, actions, inputs, i)
}

/// The step from the `i`-th state.
pub open spec fn is_owner_step(
    states: Seq<VolumeOwner>,
    actions: Seq<VolumeAction>,
    inputs: Seq<VolumeInput>,
    i: int,
) -> bool {
    owner_step(states[i], inputs[i]) == (states[i + 1], actions[i + 1])
}

/// The cycles that the durable statistics facts of the first `n` answers count.
pub open spec fn reported_cycles(
    actions: Seq<VolumeAction>,
    inputs: Seq<VolumeInput>,
    n: int,
) -> int
    decreases n,
{
    if n <= 0 {
        0
    } else {
        reported_cycles(actions, inputs, n - 1) + reports(actions[n - 1], inputs[n - 1])
    }
}

/// The number of the last operation that ran among the first `n` actions; that
/// of the first state before any.
pub open spec fn last_run_number(
    states: Seq<VolumeOwner>,
    actions: Seq<VolumeAction>,
    n: int,
) -> u64
    decreases n,
{
    if n <= 0 {
        states[0].sequence
    } else if actions[n - 1] is RunOperation {
        states[n - 1].sequence
    } else {
        last_run_number(states, actions, n - 1)
    }
}

proof fn lemma_run_state(
    states: Seq<VolumeOwner>,
    actions: Seq<VolumeAction>,
    inputs: Seq<VolumeInput>,
    i: int,
)
    requires
        is_owner_run(states, actions, inputs),
        0 <= i < states.len(),
    ensures
        states[i].stage is Admit ==> states[i].planned is Some,
        states[i].risk == states[0].risk,
        states[i].limits == states[0].limits,
        cycles_are_bounded(states[i]),
        last_run_number(states, actions, i + 1) <= states[i].sequence,
        states[i].stage is Build ==> last_run_number(states, actions, i + 1) < states[i].sequence,
        cycles_add_up(states[i], actions[i], reported_cycles(actions, inputs, i)),
    decreases i,
{
    if i > 0 {
        let k = i - 1;
        lemma_run_state(states, actions, inputs, k);
        assert(is_owner_step(states, actions, inputs, k));
        lemma_step_facts(states[k], actions[k], inputs[k]);
        lemma_admission_has_a_plan(states[k], inputs[k]);
        lemma_cycles_add_up(
            states[k],
            actions[k],
            inputs[k],
            reported_cycles(actions, inputs, k),
        );
    } else {
        assert(last_run_number(states, actions, 0) == states[0].sequence);
        assert(reported_cycles(actions, inputs, 0) == 0);
    }
}

proof fn lemma_run_step(
    states: Seq<VolumeOwner>,
    actions: Seq<VolumeAction>,
    inputs: Seq<VolumeInput>,
    i: int,
)
    requires
        is_owner_run(states, actions, inputs),
        0 <= i < inputs.len(),
    ensures
        step_facts(states[i], actions[i], inputs[i], (states[i + 1], actions[i + 1])),
{
    assert(is_owner_step(states, actions, inputs, i));
    lemma_run_state(states, actions, inputs, i);
    lemma_step_facts(states[i], actions[i], inputs[i]);
}

proof fn lemma_last_run_grows(
    states: Seq<VolumeOwner>,
    actions: Seq<VolumeAction>,
    inputs: Seq<VolumeInput>,
    n: int,
    m: int,
)
    requires
        is_owner_run(states, actions, inputs),
        0 <= n <= m <= states.len(),
    ensures
        last_run_number(states, actions, n) <= last_run_number(states, actions, m),
    decreases m - n,
{
    if n < m {
        lemma_last_run_grows(states, actions, inputs, n, m - 1);
        let i = m - 1;
        if actions[i] is RunOperation && i > 0 {
            lemma_run_state(states, actions, inputs, i - 1);
            lemma_run_step(states, actions, inputs, i - 1);
        }
    }
}

/// The numbers of an owner's operations only grow: each operation runs under a
/// number that no earlier one had, and that lies above the one the owner
/// continued from.
pub proof fn law_volume_numbers_only_grow(
    states: Seq<VolumeOwner>,
    actions: Seq<VolumeAction>,
    inputs: Seq<VolumeInput>,
    i: int,
    j: int,
)
    requires
        is_owner_run(states, actions, inputs),
        0 <= i < j < actions.len(),
        actions[i] is RunOperation,
        actions[j] is RunOperation,
    ensures
        states[0].sequence < states[i].sequence,
        states[i].sequence < states[j].sequence,
{
    assert(i > 0);
    lemma_run_step(states, actions, inputs, i - 1);
    lemma_run_state(states, actions, inputs, i - 1);
    lemma_last_run_grows(states, actions, inputs, 0, i);
    assert(last_run_number(states, actions, 0) == states[0].sequence);
    lemma_run_step(states, actions, inputs, j - 1);
    lemma_run_state(states, actions, inputs, j - 1);
    lemma_last_run_grows(states, actions, inputs, i + 1, j);
}

proof fn lemma_winding_down_stays(
    states: Seq<VolumeOwner>,
    actions: Seq<VolumeAction>,
    inputs: Seq<VolumeInput>,
    i: int,
    j: int,
)
    requires
        is_owner_run(states, actions, inputs),
        0 <= i <= j < states.len(),
        winds_down(states[i].stage),
    ensures
        winds_down(states[j].stage),
        i < j ==> !(actions[j] is RunOperation),
    decreases j - i,
{
    if i < j {
        lemma_winding_down_stays(states, actions, inputs, i, j - 1);
        lemma_run_step(states, actions, inputs, j - 1);
    }
}

/// An operation that was cut off or failed is the last one of its owner.
pub proof fn law_unfinished_volume_operation_is_the_last(
    states: Seq<VolumeOwner>,
    actions: Seq<VolumeAction>,
    inputs: Seq<VolumeInput>,
    i: int,
    j: int,
)
    requires
        is_owner_run(states, actions, inputs),
        0 <= i < j < actions.len(),
        actions[i] is RunOperation,
        !(inputs[i] is Ran),
    ensures
        !(actions[j] is RunOperation),
{
    assert(i > 0);
    lemma_run_step(states, actions, inputs, i - 1);
    lemma_run_step(states, actions, inputs, i);
    lemma_winding_down_stays(states, actions, inputs, i + 1, j);
}

/// With account risk attached, an open leg is built only right after its
/// admission; closing legs need none.
pub proof fn law_open_legs_pass_admission(
    states: Seq<VolumeOwner>,
    actions: Seq<VolumeAction>,
    inputs: Seq<VolumeInput>,
    i: int,
)
    requires
        is_owner_run(states, actions, inputs),
        0 <= i < actions.len(),
        states[0].risk,
        actions[i] is BuildRequest,
        states[i].planned->0.kind == PlannedKind::Open,
    ensures
        i > 0,
        states[i].planned is Some,
        inputs[i - 1] == VolumeInput::Admitted(true),
        actions[i]->BuildRequest_admitted,
{
    lemma_run_step(states, actions, inputs, i - 1);
    lemma_run_state(states, actions, inputs, i - 1);
}

/// An owner that takes another event has not reached its bound on the cycles:
/// the cycle that reaches the bound is the last.
pub proof fn law_cycles_stay_within_their_bound(
    states: Seq<VolumeOwner>,
    actions: Seq<VolumeAction>,
    inputs: Seq<VolumeInput>,
    i: int,
)
    requires
        is_owner_run(states, actions, inputs),
        0 <= i < states.len(),
        states[i].stage is Waiting,
        states[0].limits.max_cycles is Some,
    ensures
        states[i].status.completed_cycle_count == 0 || states[i].status.completed_cycle_count
            < states[0].limits.max_cycles->0,
{
    lemma_run_state(states, actions, inputs, i);
}

/// An owner that ends well has reported every completed cycle in exactly one
/// durable statistics fact, and its stopped record is durable.
pub proof fn law_every_cycle_is_reported(
    states: Seq<VolumeOwner>,
    actions: Seq<VolumeAction>,
    inputs: Seq<VolumeInput>,
    i: int,
)
    requires
        is_owner_run(states, actions, inputs),
        0 <= i < actions.len(),
        actions[i] is Finish,
        actions[i]->Finish_0 is Ok,
    ensures
        reported_cycles(actions, inputs, i) == states[i].status.completed_cycle_count,
        states[i].phase == VolumeMakerPaperTaskPhase::Stopped,
        i > 1,
        inputs[i - 1] is Done,
        actions[i - 1] is AppendStatus,
        actions[i - 1]->phase == VolumeMakerPaperTaskPhase::Stopped,
{
    lemma_run_state(states, actions, inputs, i);
    lemma_run_step(states, actions, inputs, i - 1);
    assert(i - 1 > 0);
    lemma_run_step(states, actions, inputs, i - 2);
    assert(is_owner_step(states, actions, inputs, i - 1));
}

/// An open position closes first: while there is one, nothing is opened and the
/// standing quote stays; without one, nothing is closed.
pub proof fn law_position_closes_first(
    mode: VolumeMakerMode,
    position: Option<OpenPosition>,
    quote: Option<StandingQuote>,
    next_cycle_at: Option<Timestamp>,
    snapshot: MarketSnapshot,
    observed_at: Timestamp,
    answer: StrategyAnswer,
)
    ensures
        ({
            let outline = plan_of(mode, position, quote, next_cycle_at, snapshot, observed_at);
            match position {
                Some(open) => {
                    let state = VolumeMakerState::Open {
                        side: open.side,
                        quantity: open.quantity,
                    };
                    let plan = evaluated_plan(mode, state, quote, snapshot, answer);
                    &&& outline == (PlanOutline::EvaluateOpen {
                        side: open.side,
                        quantity: open.quantity,
                    })
                    &&& plan is Ok ==> plan->Ok_0.1 == quote && (plan->Ok_0.0 is Some
                        ==> plan->Ok_0.0->0.kind == PlannedKind::Close)
                },
                None => {
                    let plan = evaluated_plan(
                        mode,
                        VolumeMakerState::Flat,
                        quote,
                        snapshot,
                        answer,
                    );
                    &&& !(outline is EvaluateOpen)
                    &&& plan is Ok ==> (plan->Ok_0.0 is Some ==> plan->Ok_0.0->0.kind
                        == PlannedKind::Open)
                },
            }
        }),
{
}

/// The owner keeps its pace: after a cycle that an observation completed, no
/// observation before the configured time opens another one.
pub proof fn law_cycles_keep_their_pace(
    states: Seq<VolumeOwner>,
    actions: Seq<VolumeAction>,
    inputs: Seq<VolumeInput>,
    i: int,
    mode: VolumeMakerMode,
    snapshot: MarketSnapshot,
    observed_at: Timestamp,
)
    requires
        is_owner_run(states, actions, inputs),
        0 <= i < inputs.len(),
        states[i].stage is Run,
        states[i + 1].next.completed_cycle_count > states[i].next.completed_cycle_count,
        observed_at.rank() < next_cycle(states[i].limits, states[i].observed_at).rank(),
    ensures
        plan_of(
            mode,
            states[i + 1].position,
            states[i + 1].quote,
            states[i + 1].next_cycle_at,
            snapshot,
            observed_at,
        ) is Rest,
{
    lemma_run_step(states, actions, inputs, i);
}

} // verus!
