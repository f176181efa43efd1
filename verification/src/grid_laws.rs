//! What holds of every run of a grid owner.

use crate::grid_owner::{
    close_step, closing_step, crossing_step, directive_answered, law_owner_stays_sound,
    owner_is_sound, owner_step, risk_answered, scalp_step, woken, CrossingFound, ForcedClose,
    GridAction, GridInput, GridOwner, GridStage, GridStep, OperationOutcome, PositionFound,
};
use crate::operations::prefix_of;
use crate::owner_inputs::grid_position_of;
use crate::paper_account::PaperAccountSnapshot;
use crate::paper_grid_task::{
    law_flat_plan_leaves_no_quantity, lot_totals, GridPaperTaskConfig, GridPaperTaskError,
    GridPaperTaskExit, GridPaperTaskFailure, GridPaperTaskPhase,
};
use vstd::prelude::*;

verus! {

/// The owner is on its way out and starts no operation any more.
pub open spec fn winds_down(stage: GridStage) -> bool {
    match stage {
        GridStage::CloseRetain { .. }
        | GridStage::ScalpRetain { .. }
        | GridStage::CrossRetain { .. }
        | GridStage::CrossDiscard { .. }
        | GridStage::PendingRisk
        | GridStage::FailingStop { .. }
        | GridStage::FailedAppend { .. }
        | GridStage::StoppingAppend { .. }
        | GridStage::SourceStop { .. }
        | GridStage::StoppedAppend { .. }
        | GridStage::Finished => true,
        _ => false,
    }
}

/// An operation is handed to its executor.
pub open spec fn runs(action: GridAction) -> bool {
    action is RunOperation || action is RunForcedClose
}

/// The stage waits for the outcome of an operation.
pub open spec fn is_running(stage: GridStage) -> bool {
    stage is CloseRun || stage is ScalpRun || stage is CrossRun
}

/// The owner's last number is given to an operation that has not run yet.
pub open spec fn number_is_unused(stage: GridStage) -> bool {
    stage is CloseAppend || stage is ScalpBuild || stage is CrossBuild
}

/// What one step of an owner keeps.
pub open spec fn step_facts(owner: GridOwner, input: GridInput, step: GridStep) -> bool {
    let (next, action) = step;
    &&& next.risk == owner.risk
    &&& next.sequence >= owner.sequence
    &&& runs(action) <==> is_running(next.stage)
    &&& runs(action) ==> number_is_unused(owner.stage) && input is Done && next.sequence
        == owner.sequence
    &&& action is RunForcedClose ==> owner.stage is CloseAppend
    &&& owner.stage is CloseAppend && runs(action) ==> action is RunForcedClose
    &&& next.stage is CloseAppend ==> action is AppendForcedClose && action->AppendForcedClose_sequence
        == next.sequence
    &&& number_is_unused(next.stage) ==> next.sequence == owner.sequence + 1
    &&& winds_down(owner.stage) ==> winds_down(next.stage)
    &&& is_running(owner.stage) && !(input is Outcome && input->Outcome_0 is Completed)
        ==> winds_down(next.stage)
    &&& action is BuildCrossing ==> (owner.risk && !action->BuildCrossing_reduce_only
        ==> action->BuildCrossing_admitted && owner.stage is CrossAdmit && input
        == GridInput::Admitted(true))
    &&& owner.stage is Protection && action is TakeCrossings ==> input is Directive
        && input->Directive_0 is Continue
    &&& action is Finish && action->Finish_0 is Ok ==> owner.stage is StoppedAppend && input is Done
        && next.phase == GridPaperTaskPhase::Stopped
    &&& next.stage is StoppedAppend ==> action is AppendStatus && action->phase
        == GridPaperTaskPhase::Stopped
    &&& action is Finish ==> next.stage is Finished
    &&& next.sequence != owner.sequence ==> number_is_unused(next.stage)
    &&& number_is_unused(owner.stage) && !runs(action) ==> winds_down(next.stage)
}

/// The owner works through the levels that an event crossed.
pub open spec fn in_levels(stage: GridStage) -> bool {
    stage is CrossCheck || stage is CrossAdmit || stage is CrossBuild || stage is CrossRun
}

/// The owner is through with the levels that an event crossed.
pub open spec fn after_levels(stage: GridStage) -> bool {
    stage is FlatCheck || stage is Checkpoint
}

/// The level's operation completes.
pub open spec fn completes_level(owner: GridOwner, input: GridInput) -> bool {
    owner.stage is CrossRun && input is Outcome && input->Outcome_0 is Completed
}

/// Account risk durably rejects the entry of the level.
pub open spec fn rejects_level(owner: GridOwner, input: GridInput) -> bool {
    owner.stage is CrossAdmit && input == GridInput::Admitted(false)
}

/// The operation of the current level has its number.
pub open spec fn has_number(stage: GridStage) -> bool {
    stage is CrossBuild || stage is CrossRun
}

/// What one step keeps of the levels that an event crossed.
pub open spec fn level_facts(owner: GridOwner, input: GridInput, step: GridStep) -> bool {
    let (next, action) = step;
    let one = |yes: bool|
        if yes {
            1int
        } else {
            0int
        };
    &&& owner.stage is Crossings && (in_levels(next.stage) || after_levels(next.stage)) ==> {
        &&& input is Crossed
        &&& next.crossings == input->Crossed_0
        &&& next.taken == 0
        &&& next.completed == 0
        &&& next.sequence == owner.sequence
        &&& !has_number(next.stage)
    }
    &&& owner_is_sound(owner) && in_levels(owner.stage) && (in_levels(next.stage) || after_levels(
        next.stage,
    )) ==> {
        &&& next.crossings == owner.crossings
        &&& next.taken == owner.taken + one(
            completes_level(owner, input) || rejects_level(owner, input),
        )
        &&& next.sequence == owner.sequence + one(next.stage is CrossBuild)
        &&& has_number(owner.stage) && has_number(next.stage) ==> next.stage is CrossRun
        &&& next.stage is CrossRun ==> owner.stage is CrossBuild
        &&& owner.stage is CrossBuild ==> next.stage is CrossRun
        &&& owner.stage is CrossRun ==> completes_level(owner, input) && !has_number(next.stage)
    }
    &&& after_levels(next.stage) && (owner.stage is Crossings || in_levels(owner.stage))
        ==> next.completed >= next.crossings
    &&& action is BuildCrossing ==> {
        &&& next.stage is CrossBuild
        &&& action->BuildCrossing_level == next.taken
        &&& action->BuildCrossing_sequence == next.sequence
    }
    &&& next.stage is CrossBuild ==> action is BuildCrossing
    &&& action is CheckCrossing ==> action->CheckCrossing_level == next.taken
    &&& action is AdmitCrossing ==> action->AdmitCrossing_level == next.taken
}

/// How an owner comes to its end where the source ended.
pub open spec fn end_facts(owner: GridOwner, input: GridInput, step: GridStep) -> bool {
    let (next, action) = step;
    let ended = GridPaperTaskExit::SourceEnded;
    &&& action == GridAction::Finish(Ok(ended)) ==> owner.stage == (GridStage::StoppedAppend {
        exit: ended,
    })
    &&& next.stage == (GridStage::StoppedAppend { exit: ended }) ==> owner.stage == (
    GridStage::SourceStop { exit: ended }) && action is AppendStatus
    &&& next.stage == (GridStage::SourceStop { exit: ended }) ==> owner.stage == (
    GridStage::StoppingAppend { exit: ended }) && action is StopSource
    &&& next.stage == (GridStage::StoppingAppend { exit: ended }) ==> owner.stage is EndCheck
        && input == GridInput::Position(PositionFound::Flat) && action is AppendStatus
    &&& next.stage is EndCheck ==> owner.stage is Waiting && input is SourceEnded && action
        is CheckFlat
}

proof fn lemma_woken_facts(owner: GridOwner, input: GridInput)
    requires
        owner.stage is Waiting,
    ensures
        step_facts(owner, input, woken(owner, input)),
        level_facts(owner, input, woken(owner, input)),
        end_facts(owner, input, woken(owner, input)),
{
}

proof fn lemma_risk_facts(owner: GridOwner, polled: bool, input: GridInput)
    requires
        owner.stage == (GridStage::RiskExit { polled }),
    ensures
        step_facts(owner, input, risk_answered(owner, polled, input)),
        level_facts(owner, input, risk_answered(owner, polled, input)),
        end_facts(owner, input, risk_answered(owner, polled, input)),
{
}

proof fn lemma_close_facts(owner: GridOwner, purpose: ForcedClose, input: GridInput)
    requires
        owner.stage is ClosePlan || owner.stage is CloseBuild || owner.stage is CloseAppend
            || owner.stage is CloseRun || owner.stage is CloseVerify || owner.stage is CloseRecord
            || owner.stage is CloseRetain,
    ensures
        step_facts(owner, input, close_step(owner, purpose, input)),
        level_facts(owner, input, close_step(owner, purpose, input)),
        end_facts(owner, input, close_step(owner, purpose, input)),
{
}

proof fn lemma_directive_facts(owner: GridOwner, input: GridInput)
    requires
        owner.stage is Protection,
    ensures
        step_facts(owner, input, directive_answered(owner, input)),
        level_facts(owner, input, directive_answered(owner, input)),
        end_facts(owner, input, directive_answered(owner, input)),
{
}

proof fn lemma_scalp_facts(owner: GridOwner, input: GridInput)
    requires
        owner.stage is HoldAppend || owner.stage is ScalpBuild || owner.stage is ScalpRun
            || owner.stage is ScalpRetain,
    ensures
        step_facts(owner, input, scalp_step(owner, input)),
        level_facts(owner, input, scalp_step(owner, input)),
        end_facts(owner, input, scalp_step(owner, input)),
{
}

#[verifier::rlimit(40)]
proof fn lemma_crossing_facts(owner: GridOwner, input: GridInput)
    requires
        owner.stage is Crossings || owner.stage is CrossCheck || owner.stage is CrossAdmit
            || owner.stage is CrossDiscard || owner.stage is CrossBuild || owner.stage is CrossRun
            || owner.stage is CrossRetain,
    ensures
        step_facts(owner, input, crossing_step(owner, input)),
        level_facts(owner, input, crossing_step(owner, input)),
        end_facts(owner, input, crossing_step(owner, input)),
{
}

proof fn lemma_closing_facts(owner: GridOwner, input: GridInput)
    requires
        owner.stage is PendingRisk || owner.stage is FlatCheck || owner.stage is FlatRecord
            || owner.stage is Checkpoint || owner.stage is EndCheck || owner.stage is StoppingAppend
            || owner.stage is SourceStop || owner.stage is StoppedAppend || owner.stage
            is FailingStop || owner.stage is FailedAppend || owner.stage is Finished,
    ensures
        step_facts(owner, input, closing_step(owner, input)),
        level_facts(owner, input, closing_step(owner, input)),
        end_facts(owner, input, closing_step(owner, input)),
{
}

#[verifier::rlimit(60)]
proof fn lemma_step_facts(owner: GridOwner, input: GridInput)
    ensures
        step_facts(owner, input, owner_step(owner, input)),
        level_facts(owner, input, owner_step(owner, input)),
        end_facts(owner, input, owner_step(owner, input)),
{
    match owner.stage {
        GridStage::Waiting => lemma_woken_facts(owner, input),
        GridStage::Market => {},
        GridStage::RiskExit { polled } => lemma_risk_facts(owner, polled, input),
        GridStage::ClosePlan { purpose }
        | GridStage::CloseBuild { purpose }
        | GridStage::CloseAppend { purpose }
        | GridStage::CloseRun { purpose }
        | GridStage::CloseVerify { purpose }
        | GridStage::CloseRecord { purpose }
        | GridStage::CloseRetain { purpose } => lemma_close_facts(owner, purpose, input),
        GridStage::Protection => lemma_directive_facts(owner, input),
        GridStage::ResetAppend | GridStage::ExitAppend | GridStage::Rebuild => {},
        GridStage::HoldAppend { .. }
        | GridStage::ScalpBuild
        | GridStage::ScalpRun
        | GridStage::ScalpRetain { .. } => lemma_scalp_facts(owner, input),
        GridStage::Crossings
        | GridStage::CrossCheck
        | GridStage::CrossAdmit
        | GridStage::CrossDiscard { .. }
        | GridStage::CrossBuild { .. }
        | GridStage::CrossRun { .. }
        | GridStage::CrossRetain { .. } => lemma_crossing_facts(owner, input),
        _ => lemma_closing_facts(owner, input),
    }
}

/// The states, the actions and the inputs of one owner, in order, from its
/// first wait on.
pub open spec fn is_owner_run(
    states: Seq<GridOwner>,
    actions: Seq<GridAction>,
    inputs: Seq<GridInput>,
) -> bool {
    &&& states.len() == actions.len()
    &&& states.len() == inputs.len() + 1
    &&& states[0].stage is Waiting
    &&& actions[0] is Wait
    &&& forall|i: int| 0 <= i < inputs.len() ==> #[trigger] is_owner_step(states, actions, inputs, i)
}

/// The step from the `i`-th state.
pub open spec fn is_owner_step(
    states: Seq<GridOwner>,
    actions: Seq<GridAction>,
    inputs: Seq<GridInput>,
    i: int,
) -> bool {
    owner_step(states[i], inputs[i]) == (states[i + 1], actions[i + 1])
}

proof fn lemma_run_step(
    states: Seq<GridOwner>,
    actions: Seq<GridAction>,
    inputs: Seq<GridInput>,
    i: int,
)
    requires
        is_owner_run(states, actions, inputs),
        0 <= i < inputs.len(),
    ensures
        step_facts(states[i], inputs[i], (states[i + 1], actions[i + 1])),
        level_facts(states[i], inputs[i], (states[i + 1], actions[i + 1])),
        end_facts(states[i], inputs[i], (states[i + 1], actions[i + 1])),
{
    assert(is_owner_step(states, actions, inputs, i));
    lemma_step_facts(states[i], inputs[i]);
}

/// The number of the last operation that ran among the first `n` actions; that
/// of the first state before any.
pub open spec fn last_run_number(
    states: Seq<GridOwner>,
    actions: Seq<GridAction>,
    n: int,
) -> u64
    decreases n,
{
    if n <= 0 {
        states[0].sequence
    } else if runs(actions[n - 1]) {
        states[n - 1].sequence
    } else {
        last_run_number(states, actions, n - 1)
    }
}

proof fn lemma_numbers_are_behind(
    states: Seq<GridOwner>,
    actions: Seq<GridAction>,
    inputs: Seq<GridInput>,
    i: int,
)
    requires
        is_owner_run(states, actions, inputs),
        0 <= i < states.len(),
    ensures
        last_run_number(states, actions, i + 1) <= states[i].sequence,
        number_is_unused(states[i].stage) ==> last_run_number(states, actions, i + 1)
            < states[i].sequence,
        states[i].risk == states[0].risk,
    decreases i,
{
    if i > 0 {
        let k = i - 1;
        lemma_numbers_are_behind(states, actions, inputs, k);
        lemma_run_step(states, actions, inputs, k);
    } else {
        assert(last_run_number(states, actions, 0) == states[0].sequence);
    }
}

proof fn lemma_last_run_grows(
    states: Seq<GridOwner>,
    actions: Seq<GridAction>,
    inputs: Seq<GridInput>,
    n: int,
    m: int,
)
    requires
        is_owner_run(states, actions, inputs),
        0 <= n <= m <= states.len(),
    ensures
        last_run_number(states, actions, n) <= last_run_number(states, actions, m),
    decreases m - n,
{
    if n < m {
        lemma_last_run_grows(states, actions, inputs, n, m - 1);
        let i = m - 1;
        if runs(actions[i]) && i > 0 {
            lemma_numbers_are_behind(states, actions, inputs, i - 1);
            lemma_run_step(states, actions, inputs, i - 1);
        }
    }
}

/// The numbers of an owner's operations only grow: each operation runs under a
/// number that no earlier one had, and that lies above the one the owner
/// continued from.
pub proof fn law_operation_numbers_only_grow(
    states: Seq<GridOwner>,
    actions: Seq<GridAction>,
    inputs: Seq<GridInput>,
    i: int,
    j: int,
)
    requires
        is_owner_run(states, actions, inputs),
        0 <= i < j < actions.len(),
        runs(actions[i]),
        runs(actions[j]),
    ensures
        states[0].sequence < states[i].sequence,
        states[i].sequence < states[j].sequence,
{
    assert(i > 0);
    lemma_run_step(states, actions, inputs, i - 1);
    lemma_numbers_are_behind(states, actions, inputs, i - 1);
    lemma_last_run_grows(states, actions, inputs, 0, i);
    assert(last_run_number(states, actions, 0) == states[0].sequence);
    lemma_run_step(states, actions, inputs, j - 1);
    lemma_numbers_are_behind(states, actions, inputs, j - 1);
    lemma_last_run_grows(states, actions, inputs, i + 1, j);
}

proof fn lemma_winding_down_stays(
    states: Seq<GridOwner>,
    actions: Seq<GridAction>,
    inputs: Seq<GridInput>,
    i: int,
    j: int,
)
    requires
        is_owner_run(states, actions, inputs),
        0 <= i <= j < states.len(),
        winds_down(states[i].stage),
    ensures
        winds_down(states[j].stage),
        i < j ==> !runs(actions[j]),
    decreases j - i,
{
    if i < j {
        lemma_winding_down_stays(states, actions, inputs, i, j - 1);
        lemma_run_step(states, actions, inputs, j - 1);
    }
}

/// An operation that does not complete is the last one of its owner: whatever
/// else came of it, no further operation runs.
pub proof fn law_uncompleted_operation_is_the_last(
    states: Seq<GridOwner>,
    actions: Seq<GridAction>,
    inputs: Seq<GridInput>,
    i: int,
    j: int,
)
    requires
        is_owner_run(states, actions, inputs),
        0 <= i < j < actions.len(),
        runs(actions[i]),
        !(inputs[i] is Outcome && inputs[i]->Outcome_0 is Completed),
    ensures
        !runs(actions[j]),
{
    assert(i > 0);
    lemma_run_step(states, actions, inputs, i - 1);
    lemma_run_step(states, actions, inputs, i);
    lemma_winding_down_stays(states, actions, inputs, i + 1, j);
    if j == i + 1 {
        assert(runs(actions[j]) ==> is_running(states[j].stage));
    }
}

/// With account risk attached, an entry is built only right after its
/// admission; reducing operations need none.
pub proof fn law_entries_pass_admission(
    states: Seq<GridOwner>,
    actions: Seq<GridAction>,
    inputs: Seq<GridInput>,
    i: int,
)
    requires
        is_owner_run(states, actions, inputs),
        0 <= i < actions.len(),
        states[0].risk,
        actions[i] is BuildCrossing,
        !actions[i]->BuildCrossing_reduce_only,
    ensures
        i > 0,
        inputs[i - 1] == GridInput::Admitted(true),
        actions[i]->BuildCrossing_admitted,
{
    lemma_run_step(states, actions, inputs, i - 1);
    lemma_numbers_are_behind(states, actions, inputs, i - 1);
}

/// A forced close runs only after its plan is durable under the same number.
pub proof fn law_forced_close_is_recorded_first(
    states: Seq<GridOwner>,
    actions: Seq<GridAction>,
    inputs: Seq<GridInput>,
    i: int,
)
    requires
        is_owner_run(states, actions, inputs),
        0 <= i < actions.len(),
        actions[i] is RunForcedClose,
    ensures
        i > 1,
        actions[i - 1] is AppendForcedClose,
        actions[i - 1]->AppendForcedClose_sequence == states[i].sequence,
        inputs[i - 1] is Done,
{
    lemma_run_step(states, actions, inputs, i - 1);
    assert(i - 1 > 0);
    lemma_run_step(states, actions, inputs, i - 2);
}

/// Where the protection speaks, levels are taken only if it says to continue:
/// a frozen, scalping, resetting or exiting grid consumes none.
pub proof fn law_held_grid_takes_no_level(
    states: Seq<GridOwner>,
    actions: Seq<GridAction>,
    inputs: Seq<GridInput>,
    i: int,
)
    requires
        is_owner_run(states, actions, inputs),
        0 <= i < inputs.len(),
        states[i].stage is Protection,
        actions[i + 1] is TakeCrossings,
    ensures
        inputs[i] is Directive,
        inputs[i]->Directive_0 is Continue,
{
    lemma_run_step(states, actions, inputs, i);
}

/// An owner ends well only after its stopped record is durable.
pub proof fn law_clean_end_is_recorded(
    states: Seq<GridOwner>,
    actions: Seq<GridAction>,
    inputs: Seq<GridInput>,
    i: int,
)
    requires
        is_owner_run(states, actions, inputs),
        0 <= i < actions.len(),
        actions[i] is Finish,
        actions[i]->Finish_0 is Ok,
    ensures
        i > 1,
        inputs[i - 1] is Done,
        actions[i - 1] is AppendStatus,
        actions[i - 1]->phase == GridPaperTaskPhase::Stopped,
        states[i].phase == GridPaperTaskPhase::Stopped,
{
    lemma_run_step(states, actions, inputs, i - 1);
    assert(i - 1 > 0);
    lemma_run_step(states, actions, inputs, i - 2);
}

proof fn lemma_number_in_a_row(
    states: Seq<GridOwner>,
    actions: Seq<GridAction>,
    inputs: Seq<GridInput>,
    i: int,
)
    requires
        is_owner_run(states, actions, inputs),
        0 <= i < states.len(),
        !winds_down(states[i].stage),
    ensures
        states[i].sequence == last_run_number(states, actions, i + 1) + if number_is_unused(
            states[i].stage,
        ) {
            1int
        } else {
            0int
        },
    decreases i,
{
    if i > 0 {
        let k = i - 1;
        lemma_run_step(states, actions, inputs, k);
        lemma_number_in_a_row(states, actions, inputs, k);
    } else {
        assert(last_run_number(states, actions, 0) == states[0].sequence);
    }
}

proof fn lemma_no_run_between(
    states: Seq<GridOwner>,
    actions: Seq<GridAction>,
    from: int,
    to: int,
)
    requires
        0 <= from <= to <= actions.len(),
        forall|k: int| from <= k < to ==> !runs(#[trigger] actions[k]),
    ensures
        last_run_number(states, actions, to) == last_run_number(states, actions, from),
    decreases to - from,
{
    if from < to {
        lemma_no_run_between(states, actions, from, to - 1);
        assert(!runs(actions[to - 1]));
    }
}

/// The operations of an owner are numbered in a row: the first one that runs
/// has the number after the one that the owner continued from, and each later
/// one has the number after the last one that ran.
pub proof fn law_operations_are_numbered_in_a_row(
    states: Seq<GridOwner>,
    actions: Seq<GridAction>,
    inputs: Seq<GridInput>,
    i: int,
    j: int,
)
    requires
        is_owner_run(states, actions, inputs),
        0 <= i < j < actions.len(),
        i == 0 || runs(actions[i]),
        runs(actions[j]),
        forall|k: int| i < k < j ==> !runs(#[trigger] actions[k]),
    ensures
        states[j].sequence == states[i].sequence + 1,
{
    let k = j - 1;
    lemma_run_step(states, actions, inputs, k);
    lemma_number_in_a_row(states, actions, inputs, k);
    lemma_no_run_between(states, actions, i + 1, j);
    assert(last_run_number(states, actions, 0) == states[0].sequence);
    assert(last_run_number(states, actions, i + 1) == states[i].sequence);
}

/// How many operations of levels completed from place `i` up to place `k`.
pub open spec fn levels_completed(
    states: Seq<GridOwner>,
    inputs: Seq<GridInput>,
    i: int,
    k: int,
) -> int
    decreases k - i,
{
    if k <= i {
        0
    } else {
        levels_completed(states, inputs, i, k - 1) + if completes_level(
            states[k - 1],
            inputs[k - 1],
        ) {
            1int
        } else {
            0int
        }
    }
}

/// How many levels account risk rejected from place `i` up to place `k`.
pub open spec fn levels_rejected(
    states: Seq<GridOwner>,
    inputs: Seq<GridInput>,
    i: int,
    k: int,
) -> int
    decreases k - i,
{
    if k <= i {
        0
    } else {
        levels_rejected(states, inputs, i, k - 1) + if rejects_level(
            states[k - 1],
            inputs[k - 1],
        ) {
            1int
        } else {
            0int
        }
    }
}

/// From place `i` on, where the levels that an event crossed came in, up to
/// place `k` the owner is at these levels; at place `k` it may be through with
/// them.
pub open spec fn is_at_levels(
    states: Seq<GridOwner>,
    inputs: Seq<GridInput>,
    i: int,
    k: int,
) -> bool {
    &&& 0 <= i < k < states.len()
    &&& states[i].stage is Crossings
    &&& inputs[i] is Crossed
    &&& forall|m: int| i < m < k ==> in_levels((#[trigger] states[m]).stage)
    &&& in_levels(states[k].stage) || after_levels(states[k].stage)
}

proof fn lemma_levels(
    states: Seq<GridOwner>,
    actions: Seq<GridAction>,
    inputs: Seq<GridInput>,
    i: int,
    k: int,
)
    requires
        is_owner_run(states, actions, inputs),
        owner_is_sound(states[0]),
        is_at_levels(states, inputs, i, k),
    ensures
        states[k].crossings == inputs[i]->Crossed_0,
        states[k].taken == levels_completed(states, inputs, i, k) + levels_rejected(
            states,
            inputs,
            i,
            k,
        ),
        states[k].sequence == states[i].sequence + levels_completed(states, inputs, i, k)
            + if has_number(states[k].stage) {
            1int
        } else {
            0int
        },
    decreases k - i,
{
    let m = k - 1;
    lemma_run_step(states, actions, inputs, m);
    lemma_sound_owner(states, actions, inputs, m);
    if m > i {
        assert(in_levels(states[m].stage));
        lemma_levels(states, actions, inputs, i, m);
    } else {
        assert(levels_completed(states, inputs, i, i) == 0);
        assert(levels_rejected(states, inputs, i, i) == 0);
    }
}

proof fn lemma_sound_owner(
    states: Seq<GridOwner>,
    actions: Seq<GridAction>,
    inputs: Seq<GridInput>,
    i: int,
)
    requires
        is_owner_run(states, actions, inputs),
        owner_is_sound(states[0]),
        0 <= i < states.len(),
    ensures
        owner_is_sound(states[i]),
    decreases i,
{
    if i > 0 {
        let k = i - 1;
        lemma_sound_owner(states, actions, inputs, k);
        assert(is_owner_step(states, actions, inputs, k));
        law_owner_stays_sound(states[k], inputs[k]);
    }
}

/// Every crossed level becomes one operation of its own, in the order of the
/// levels: the operation that is built is that of the first level not settled
/// yet, under the number after those of the levels that completed before it. A
/// level that account risk rejects is settled without a number.
pub proof fn law_each_level_is_its_own_operation(
    states: Seq<GridOwner>,
    actions: Seq<GridAction>,
    inputs: Seq<GridInput>,
    i: int,
    k: int,
)
    requires
        is_owner_run(states, actions, inputs),
        owner_is_sound(states[0]),
        is_at_levels(states, inputs, i, k),
        actions[k] is BuildCrossing,
    ensures
        actions[k]->BuildCrossing_level == levels_completed(states, inputs, i, k)
            + levels_rejected(states, inputs, i, k),
        actions[k]->BuildCrossing_sequence == states[i].sequence + levels_completed(
            states,
            inputs,
            i,
            k,
        ) + 1,
{
    lemma_levels(states, actions, inputs, i, k);
    lemma_run_step(states, actions, inputs, k - 1);
}

/// An event is recorded only once every level that it crossed is settled: as
/// many operations completed and entries were rejected as levels were crossed,
/// and the owner's number grew by the operations alone.
pub proof fn law_recorded_event_has_settled_its_levels(
    states: Seq<GridOwner>,
    actions: Seq<GridAction>,
    inputs: Seq<GridInput>,
    i: int,
    k: int,
)
    requires
        is_owner_run(states, actions, inputs),
        owner_is_sound(states[0]),
        is_at_levels(states, inputs, i, k),
        after_levels(states[k].stage),
    ensures
        levels_completed(states, inputs, i, k) + levels_rejected(states, inputs, i, k)
            == inputs[i]->Crossed_0,
        states[k].sequence == states[i].sequence + levels_completed(states, inputs, i, k),
{
    lemma_levels(states, actions, inputs, i, k);
    lemma_run_step(states, actions, inputs, k - 1);
    lemma_sound_owner(states, actions, inputs, k);
    if k - 1 > i {
        assert(in_levels(states[k - 1].stage));
    }
}

/// The input stops the owner before the last of the crossed levels is settled.
pub open spec fn stops_short(owner: GridOwner, input: GridInput) -> bool {
    ||| owner.stage is CrossRun && input == GridInput::Outcome(
        OperationOutcome::Completed { stop_requested: true },
    ) && owner.taken + 1 < owner.crossings
    ||| owner.stage is CrossCheck && input == GridInput::Crossing(CrossingFound::Signalled)
}

/// A stop that leaves crossed levels of an event undone fails closed: the
/// failure is recorded and the owner ends with `RecoveryRequired`, or with the
/// journal's failure where it cannot be recorded.
pub proof fn law_stop_with_levels_left_needs_recovery(
    states: Seq<GridOwner>,
    actions: Seq<GridAction>,
    inputs: Seq<GridInput>,
    i: int,
)
    requires
        is_owner_run(states, actions, inputs),
        owner_is_sound(states[0]),
        0 <= i,
        i + 3 < states.len(),
        stops_short(states[i], inputs[i]),
    ensures
        actions[i + 2] is AppendStatus,
        actions[i + 2]->failure == Some(GridPaperTaskFailure::RecoveryRequired),
        actions[i + 3] == GridAction::Finish(
            Err(
                if inputs[i + 2] is Done {
                    GridPaperTaskError::RecoveryRequired
                } else {
                    GridPaperTaskError::Journal
                },
            ),
        ),
{
    lemma_sound_owner(states, actions, inputs, i);
    assert(is_owner_step(states, actions, inputs, i));
    let (a, b) = (i + 1, i + 2);
    assert(is_owner_step(states, actions, inputs, a));
    assert(is_owner_step(states, actions, inputs, b));
    assert(states[a].stage == (GridStage::FailingStop {
        failure: GridPaperTaskFailure::RecoveryRequired,
        error: GridPaperTaskError::RecoveryRequired,
    }));
    assert(states[b].stage == (GridStage::FailedAppend {
        error: GridPaperTaskError::RecoveryRequired,
    }));
}

/// An owner ends because its source ended only once it was told that its
/// position is flat, and it runs no operation after that. Where it was told so
/// from the account, its open lots of the instrument add up to no quantity on
/// either side.
pub proof fn law_ended_source_leaves_the_owner_flat(
    states: Seq<GridOwner>,
    actions: Seq<GridAction>,
    inputs: Seq<GridInput>,
    i: int,
    account: Option<PaperAccountSnapshot>,
    config: GridPaperTaskConfig,
    symbol: Seq<char>,
)
    requires
        is_owner_run(states, actions, inputs),
        0 <= i < actions.len(),
        actions[i] == GridAction::Finish(Ok(GridPaperTaskExit::SourceEnded)),
        inputs[i - 4] is Position ==> inputs[i - 4] == GridInput::Position(
            grid_position_of(account, false, config, symbol),
        ),
    ensures
        i >= 5,
        inputs[i - 5] is SourceEnded,
        actions[i - 4] is CheckFlat,
        inputs[i - 4] == GridInput::Position(PositionFound::Flat),
        forall|k: int| i - 4 <= k <= i ==> !runs(#[trigger] actions[k]),
        account is Some,
        ({
            let totals = lot_totals(
                account->0.open_lots@,
                account->0.reservations@,
                config.exchange_view(),
                symbol,
                config.market_type_view(),
                prefix_of(config.task_id_view()),
            );
            &&& totals is Some
            &&& totals->0.buy.0 <= 0
            &&& totals->0.sell.0 <= 0
        }),
{
    assert(i > 0);
    lemma_run_step(states, actions, inputs, i - 1);
    assert(i - 1 > 0);
    lemma_run_step(states, actions, inputs, i - 2);
    assert(i - 2 > 0);
    lemma_run_step(states, actions, inputs, i - 3);
    assert(i - 3 > 0);
    lemma_run_step(states, actions, inputs, i - 4);
    assert(i - 4 > 0);
    lemma_run_step(states, actions, inputs, i - 5);
    law_flat_plan_leaves_no_quantity(account->0, config, symbol);
}

} // verus!
