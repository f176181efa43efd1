//! What holds of every run of an arbitrage owner.

use crate::arbitrage_owner::{
    close_step, event_step, final_step, is_flat, owner_step, plan_step, settle_step, stop_step,
    woken, ArbitrageAction, ArbitrageInput, ArbitrageOwner, ArbitrageStage, ArbitrageStep,
    PlanScope,
};
use crate::arbitrage_plan::ArbitrageDecisionKind;
use crate::paper_arbitrage_task::{opens_exposure, ArbitragePaperTaskExit, ArbitragePaperTaskPhase};
use vstd::prelude::*;

verus! {

/// The owner is on its way out.
pub open spec fn is_stopping(stage: ArbitrageStage) -> bool {
    match stage {
        ArbitrageStage::StopProbe { .. }
        | ArbitrageStage::StopAbort { .. }
        | ArbitrageStage::StoppingAppend { .. }
        | ArbitrageStage::SourceStop { .. }
        | ArbitrageStage::Drain { .. }
        | ArbitrageStage::DrainAbort
        | ArbitrageStage::DrainRecord { .. }
        | ArbitrageStage::StopRestore { .. }
        | ArbitrageStage::CloseAccount { .. }
        | ArbitrageStage::CloseBuild { .. }
        | ArbitrageStage::CloseRun { .. }
        | ArbitrageStage::CloseAbort
        | ArbitrageStage::CloseRestore { .. }
        | ArbitrageStage::CloseRecord { .. }
        | ArbitrageStage::StoppedAppend { .. }
        | ArbitrageStage::Abort { .. }
        | ArbitrageStage::RetainFailed { .. }
        | ArbitrageStage::Discard { .. }
        | ArbitrageStage::JournalStop
        | ArbitrageStage::FailingStop { .. }
        | ArbitrageStage::FailedAppend { .. }
        | ArbitrageStage::Finished => true,
        _ => false,
    }
}

/// The owner has to be flat before it may end well.
pub open spec fn must_end_flat(stage: ArbitrageStage) -> bool {
    match stage {
        ArbitrageStage::StopProbe { stop }
        | ArbitrageStage::StopAbort { stop }
        | ArbitrageStage::StoppingAppend { stop }
        | ArbitrageStage::SourceStop { stop }
        | ArbitrageStage::Drain { stop }
        | ArbitrageStage::DrainRecord { stop }
        | ArbitrageStage::StopRestore { stop }
        | ArbitrageStage::CloseAccount { stop }
        | ArbitrageStage::CloseBuild { stop }
        | ArbitrageStage::CloseRun { stop }
        | ArbitrageStage::CloseRestore { stop }
        | ArbitrageStage::CloseRecord { stop }
        | ArbitrageStage::StoppedAppend { stop } => stop.close || stop.exit
            == ArbitragePaperTaskExit::SourceEnded,
        ArbitrageStage::Abort { .. }
        | ArbitrageStage::DrainAbort
        | ArbitrageStage::CloseAbort
        | ArbitrageStage::JournalStop
        | ArbitrageStage::FailingStop { .. }
        | ArbitrageStage::FailedAppend { .. }
        | ArbitrageStage::Finished => true,
        _ => false,
    }
}

/// An operation is handed to its executor.
pub open spec fn runs(action: ArbitrageAction) -> bool {
    action is StartOperation || action is RunForcedClose
}

/// Nothing is in flight in the stage.
pub open spec fn is_idle(stage: ArbitrageStage) -> bool {
    match stage {
        ArbitrageStage::Gate { .. }
        | ArbitrageStage::Decide { .. }
        | ArbitrageStage::Admit
        | ArbitrageStage::Account { .. }
        | ArbitrageStage::Build { .. }
        | ArbitrageStage::Discard { .. }
        | ArbitrageStage::DropPlan
        | ArbitrageStage::RecordClosed
        | ArbitrageStage::RetainFailed { .. }
        | ArbitrageStage::DrainRecord { .. }
        | ArbitrageStage::StopRestore { .. }
        | ArbitrageStage::CloseAccount { .. }
        | ArbitrageStage::CloseBuild { .. }
        | ArbitrageStage::CloseRestore { .. }
        | ArbitrageStage::CloseRecord { .. }
        | ArbitrageStage::StoppedAppend { .. }
        | ArbitrageStage::JournalStop
        | ArbitrageStage::FailingStop { .. }
        | ArbitrageStage::FailedAppend { .. }
        | ArbitrageStage::Finished => true,
        _ => false,
    }
}

/// What every state of an owner keeps: plans are made only while nothing is in
/// flight, whatever is in flight holds the account's lane, and an owner that
/// must end flat is flat by its stopped record.
pub open spec fn owner_is_sound(owner: ArbitrageOwner) -> bool {
    &&& is_idle(owner.stage) ==> owner.in_flight is None
    &&& owner.in_flight is Some ==> owner.leased
    &&& owner.stage is Admit || owner.stage is Account || owner.stage is Build || owner.stage
        is Discard || owner.stage is CloseAccount || owner.stage is CloseBuild ==> owner.leased
    &&& owner.stage is StopRestore && owner.stage->StopRestore_stop.close ==> owner.leased
    &&& owner.stage is CloseAccount ==> owner.stage->CloseAccount_stop.close
    &&& owner.stage is CloseBuild ==> owner.stage->CloseBuild_stop.close
    &&& owner.stage is StoppedAppend && must_end_flat(owner.stage) ==> is_flat(owner.position)
    &&& owner.stage is CloseRecord ==> is_flat(owner.position)
}

/// What one step of an owner keeps.
pub open spec fn step_facts(owner: ArbitrageOwner, input: ArbitrageInput, step: ArbitrageStep) -> bool {
    let (next, action) = step;
    &&& owner_is_sound(owner) ==> owner_is_sound(next)
    &&& next.risk == owner.risk
    &&& next.sequence >= owner.sequence
    &&& runs(action) ==> input is Built && next.sequence == owner.sequence + 1 && next.in_flight
        is Some && (owner.stage is Build || owner.stage is CloseBuild)
    &&& action is RunForcedClose ==> owner.stage is CloseBuild
    &&& action is StartOperation ==> owner.stage is Build && !is_stopping(owner.stage)
    &&& is_stopping(owner.stage) ==> is_stopping(next.stage)
    &&& must_end_flat(owner.stage) ==> must_end_flat(next.stage)
    &&& owner.stage is RiskExit && input == ArbitrageInput::Risk(true) && owner.pair_seen
        ==> must_end_flat(next.stage)
    &&& owner.stage is Waiting && input is SourceEnded ==> must_end_flat(next.stage)
    &&& owner.stage == (ArbitrageStage::Decide { scope: PlanScope::ReduceOnly }) && (action
        is AdmitOperation || action is ReadAccount) ==> input == ArbitrageInput::Decided(
        Some(ArbitrageDecisionKind::Reduce),
    )
    &&& action is BuildOperation ==> owner.stage is Account && owner.stage->Account_admitted
        == action->BuildOperation_admitted && input is Done
    &&& next.stage is Account ==> {
        ||| owner.stage is Admit && input == ArbitrageInput::Admitted(true)
            && next.stage->Account_admitted
        ||| owner.stage is Decide && input is Decided && input->Decided_0 is Some && !(owner.risk
            && opens_exposure(input->Decided_0->0)) && !next.stage->Account_admitted
    }
    &&& owner_is_sound(owner) && owner.pending == Some(PlanScope::Full) && owner.in_flight is Some
        && next.in_flight is Some ==> next.pending == Some(PlanScope::Full)
    &&& action is Finish && action->Finish_0 is Ok ==> owner.stage is StoppedAppend && input is Done
        && action->Finish_0->Ok_0 == owner.stage->StoppedAppend_stop.exit && next.phase
        == ArbitragePaperTaskPhase::Stopped && next.position == owner.position
    &&& next.stage is StoppedAppend ==> action is AppendStatus && action->phase
        == ArbitragePaperTaskPhase::Stopped
}

#[verifier::rlimit(40)]
proof fn lemma_woken_facts(owner: ArbitrageOwner, input: ArbitrageInput)
    requires
        owner.stage is Waiting,
    ensures
        step_facts(owner, input, woken(owner, input)),
{
}

#[verifier::rlimit(40)]
proof fn lemma_event_facts(owner: ArbitrageOwner, input: ArbitrageInput)
    requires
        owner.stage is Restore || owner.stage is Observe || owner.stage is Monitor || owner.stage
            is Checkpoint || owner.stage is RiskExit,
    ensures
        step_facts(owner, input, event_step(owner, input)),
{
}

#[verifier::rlimit(40)]
proof fn lemma_plan_facts(owner: ArbitrageOwner, input: ArbitrageInput)
    requires
        owner.stage is Gate || owner.stage is Decide || owner.stage is Admit || owner.stage
            is Account || owner.stage is Build || owner.stage is Discard || owner.stage is DropPlan
            || owner.stage is Start,
    ensures
        step_facts(owner, input, plan_step(owner, input)),
{
}

proof fn lemma_settle_facts(owner: ArbitrageOwner, input: ArbitrageInput)
    requires
        owner.stage is RecordClosed || owner.stage is RetainFailed || owner.stage is Abort
            || owner.stage is DrainAbort || owner.stage is CloseAbort,
    ensures
        step_facts(owner, input, settle_step(owner, input)),
{
}

#[verifier::rlimit(40)]
proof fn lemma_stop_facts(owner: ArbitrageOwner, input: ArbitrageInput)
    requires
        owner.stage is StopProbe || owner.stage is StopAbort || owner.stage is StoppingAppend
            || owner.stage is SourceStop || owner.stage is Drain || owner.stage is DrainRecord,
    ensures
        step_facts(owner, input, stop_step(owner, input)),
{
}

#[verifier::rlimit(40)]
proof fn lemma_close_facts(owner: ArbitrageOwner, input: ArbitrageInput)
    requires
        owner.stage is StopRestore || owner.stage is CloseAccount || owner.stage is CloseBuild
            || owner.stage is CloseRun || owner.stage is CloseRestore || owner.stage is CloseRecord,
    ensures
        step_facts(owner, input, close_step(owner, input)),
{
}

proof fn lemma_final_facts(owner: ArbitrageOwner, input: ArbitrageInput)
    requires
        owner.stage is StoppedAppend || owner.stage is JournalStop || owner.stage is FailingStop
            || owner.stage is FailedAppend || owner.stage is Finished,
    ensures
        step_facts(owner, input, final_step(owner, input)),
{
}

proof fn lemma_step_facts(owner: ArbitrageOwner, input: ArbitrageInput)
    ensures
        step_facts(owner, input, owner_step(owner, input)),
{
    match owner.stage {
        ArbitrageStage::Waiting => lemma_woken_facts(owner, input),
        ArbitrageStage::Restore
        | ArbitrageStage::Observe
        | ArbitrageStage::Monitor
        | ArbitrageStage::Checkpoint { .. }
        | ArbitrageStage::RiskExit { .. } => lemma_event_facts(owner, input),
        ArbitrageStage::Gate { .. }
        | ArbitrageStage::Decide { .. }
        | ArbitrageStage::Admit
        | ArbitrageStage::Account { .. }
        | ArbitrageStage::Build { .. }
        | ArbitrageStage::Discard { .. }
        | ArbitrageStage::DropPlan
        | ArbitrageStage::Start => lemma_plan_facts(owner, input),
        ArbitrageStage::RecordClosed
        | ArbitrageStage::RetainFailed { .. }
        | ArbitrageStage::Abort { .. }
        | ArbitrageStage::DrainAbort
        | ArbitrageStage::CloseAbort => lemma_settle_facts(owner, input),
        ArbitrageStage::StopProbe { .. }
        | ArbitrageStage::StopAbort { .. }
        | ArbitrageStage::StoppingAppend { .. }
        | ArbitrageStage::SourceStop { .. }
        | ArbitrageStage::Drain { .. }
        | ArbitrageStage::DrainRecord { .. } => lemma_stop_facts(owner, input),
        ArbitrageStage::StopRestore { .. }
        | ArbitrageStage::CloseAccount { .. }
        | ArbitrageStage::CloseBuild { .. }
        | ArbitrageStage::CloseRun { .. }
        | ArbitrageStage::CloseRestore { .. }
        | ArbitrageStage::CloseRecord { .. } => lemma_close_facts(owner, input),
        _ => lemma_final_facts(owner, input),
    }
}

/// The states, the actions and the inputs of one owner, in order, from its
/// start on.
pub open spec fn is_owner_run(
    states: Seq<ArbitrageOwner>,
    actions: Seq<ArbitrageAction>,
    inputs: Seq<ArbitrageInput>,
) -> bool {
    &&& states.len() == actions.len()
    &&& states.len() == inputs.len() + 1
    &&& states[0].stage is Restore
    &&& states[0].in_flight is None
    &&& actions[0] is RestoreState
    &&& forall|i: int| 0 <= i < inputs.len() ==> #[trigger] is_owner_step(states, actions, inputs, i)
}

/// The step from the `i`-th state.
pub open spec fn is_owner_step(
    states: Seq<ArbitrageOwner>,
    actions: Seq<ArbitrageAction>,
    inputs: Seq<ArbitrageInput>,
    i: int,
) -> bool {
    owner_step(states[i], inputs[i]) == (states[i + 1], actions[i + 1])
}

proof fn lemma_run_step(
    states: Seq<ArbitrageOwner>,
    actions: Seq<ArbitrageAction>,
    inputs: Seq<ArbitrageInput>,
    i: int,
)
    requires
        is_owner_run(states, actions, inputs),
        0 <= i < inputs.len(),
    ensures
        step_facts(states[i], inputs[i], (states[i + 1], actions[i + 1])),
{
    assert(is_owner_step(states, actions, inputs, i));
    lemma_step_facts(states[i], inputs[i]);
}

proof fn lemma_run_state(
    states: Seq<ArbitrageOwner>,
    actions: Seq<ArbitrageAction>,
    inputs: Seq<ArbitrageInput>,
    i: int,
)
    requires
        is_owner_run(states, actions, inputs),
        0 <= i < states.len(),
    ensures
        owner_is_sound(states[i]),
        states[i].risk == states[0].risk,
    decreases i,
{
    if i > 0 {
        lemma_run_state(states, actions, inputs, i - 1);
        lemma_run_step(states, actions, inputs, i - 1);
    }
}

proof fn lemma_sequence_grows(
    states: Seq<ArbitrageOwner>,
    actions: Seq<ArbitrageAction>,
    inputs: Seq<ArbitrageInput>,
    i: int,
    j: int,
)
    requires
        is_owner_run(states, actions, inputs),
        0 <= i <= j < states.len(),
    ensures
        states[i].sequence <= states[j].sequence,
    decreases j - i,
{
    if i < j {
        lemma_sequence_grows(states, actions, inputs, i, j - 1);
        lemma_run_step(states, actions, inputs, j - 1);
    }
}

/// The numbers of an owner's operations only grow: each operation runs under a
/// number that no earlier one had, and that lies above the one the owner
/// continued from.
pub proof fn law_arbitrage_numbers_only_grow(
    states: Seq<ArbitrageOwner>,
    actions: Seq<ArbitrageAction>,
    inputs: Seq<ArbitrageInput>,
    i: int,
    j: int,
)
    requires
        is_owner_run(states, actions, inputs),
        0 <= i < j < actions.len(),
        runs(actions[i]),
        runs(actions[j]),
    ensures
        states[0].sequence < states[i].sequence,
        states[i].sequence < states[j].sequence,
{
    assert(i > 0);
    lemma_run_step(states, actions, inputs, i - 1);
    lemma_sequence_grows(states, actions, inputs, 0, i - 1);
    lemma_run_step(states, actions, inputs, j - 1);
    lemma_sequence_grows(states, actions, inputs, i, j - 1);
}

/// An owner has at most one operation in flight: an operation starts only
/// while none is, and whatever is in flight holds the account's lane.
pub proof fn law_one_operation_in_flight(
    states: Seq<ArbitrageOwner>,
    actions: Seq<ArbitrageAction>,
    inputs: Seq<ArbitrageInput>,
    i: int,
)
    requires
        is_owner_run(states, actions, inputs),
        0 <= i < actions.len(),
        runs(actions[i]),
    ensures
        i > 0,
        states[i - 1].in_flight is None,
        states[i].in_flight is Some,
        states[i].leased,
{
    assert(i > 0);
    lemma_run_step(states, actions, inputs, i - 1);
    lemma_run_state(states, actions, inputs, i - 1);
    lemma_run_state(states, actions, inputs, i);
}

/// A pass that convergence triggered never opens exposure: where it goes on to
/// an operation, the decision reduces the position.
pub proof fn law_reduce_only_pass_only_reduces(
    states: Seq<ArbitrageOwner>,
    actions: Seq<ArbitrageAction>,
    inputs: Seq<ArbitrageInput>,
    i: int,
)
    requires
        is_owner_run(states, actions, inputs),
        0 <= i < inputs.len(),
        states[i].stage == (ArbitrageStage::Decide { scope: PlanScope::ReduceOnly }),
        actions[i + 1] is AdmitOperation || actions[i + 1] is ReadAccount,
    ensures
        inputs[i] == ArbitrageInput::Decided(Some(ArbitrageDecisionKind::Reduce)),
{
    lemma_run_step(states, actions, inputs, i);
}

/// With account risk attached, an operation that opens exposure is built only
/// after its admission; any other needs none.
pub proof fn law_openings_pass_admission(
    states: Seq<ArbitrageOwner>,
    actions: Seq<ArbitrageAction>,
    inputs: Seq<ArbitrageInput>,
    i: int,
)
    requires
        is_owner_run(states, actions, inputs),
        0 <= i < actions.len(),
        states[0].risk,
        actions[i] is BuildOperation,
    ensures
        i > 1,
        inputs[i - 2] == ArbitrageInput::Admitted(true) && actions[i]->BuildOperation_admitted || (
        inputs[i - 2] is Decided && inputs[i - 2]->Decided_0 is Some && !opens_exposure(
            inputs[i - 2]->Decided_0->0,
        )),
{
    assert(i > 0);
    lemma_run_step(states, actions, inputs, i - 1);
    assert(i - 1 > 0);
    lemma_run_step(states, actions, inputs, i - 2);
    lemma_run_state(states, actions, inputs, i - 2);
}

/// An opportunity that comes in while an operation is in flight is not lost:
/// until that operation is over, the coalesced pass stays a full one.
pub proof fn law_coalesced_opportunity_is_kept(
    states: Seq<ArbitrageOwner>,
    actions: Seq<ArbitrageAction>,
    inputs: Seq<ArbitrageInput>,
    i: int,
    j: int,
)
    requires
        is_owner_run(states, actions, inputs),
        0 <= i <= j < states.len(),
        states[i].pending == Some(PlanScope::Full),
        forall|k: int| i <= k <= j ==> (#[trigger] states[k]).in_flight is Some,
    ensures
        states[j].pending == Some(PlanScope::Full),
    decreases j - i,
{
    if i < j {
        law_coalesced_opportunity_is_kept(states, actions, inputs, i, j - 1);
        lemma_run_state(states, actions, inputs, j - 1);
        lemma_run_step(states, actions, inputs, j - 1);
        assert(states[j - 1].in_flight is Some);
        assert(states[j].in_flight is Some);
    }
}

proof fn lemma_stopping_stays(
    states: Seq<ArbitrageOwner>,
    actions: Seq<ArbitrageAction>,
    inputs: Seq<ArbitrageInput>,
    i: int,
    j: int,
)
    requires
        is_owner_run(states, actions, inputs),
        0 <= i <= j < states.len(),
    ensures
        is_stopping(states[i].stage) ==> is_stopping(states[j].stage),
        must_end_flat(states[i].stage) ==> must_end_flat(states[j].stage),
    decreases j - i,
{
    if i < j {
        lemma_stopping_stays(states, actions, inputs, i, j - 1);
        lemma_run_step(states, actions, inputs, j - 1);
    }
}

/// Once an owner is on its way out it plans nothing more: no operation starts
/// but the forced close that account risk demanded.
pub proof fn law_stopping_owner_starts_nothing(
    states: Seq<ArbitrageOwner>,
    actions: Seq<ArbitrageAction>,
    inputs: Seq<ArbitrageInput>,
    i: int,
    j: int,
)
    requires
        is_owner_run(states, actions, inputs),
        0 <= i < j < actions.len(),
        is_stopping(states[i].stage),
    ensures
        !(actions[j] is StartOperation),
{
    lemma_stopping_stays(states, actions, inputs, i, j - 1);
    lemma_run_step(states, actions, inputs, j - 1);
}

/// An owner that account risk stopped on a known pair, or whose source ended,
/// ends well only where the account shows it flat, and after its stopped record
/// is durable.
pub proof fn law_demanded_stop_ends_flat(
    states: Seq<ArbitrageOwner>,
    actions: Seq<ArbitrageAction>,
    inputs: Seq<ArbitrageInput>,
    k: int,
    i: int,
)
    requires
        is_owner_run(states, actions, inputs),
        0 <= k < i < actions.len(),
        (states[k].stage is RiskExit && states[k].pair_seen && inputs[k] == ArbitrageInput::Risk(
            true,
        )) || (states[k].stage is Waiting && inputs[k] is SourceEnded),
        actions[i] is Finish,
        actions[i]->Finish_0 is Ok,
    ensures
        is_flat(states[i].position),
        states[i].in_flight is None,
        states[i].phase == ArbitragePaperTaskPhase::Stopped,
        actions[i - 1] is AppendStatus,
        actions[i - 1]->phase == ArbitragePaperTaskPhase::Stopped,
        inputs[i - 1] is Done,
{
    lemma_run_step(states, actions, inputs, k);
    lemma_run_step(states, actions, inputs, i - 1);
    lemma_run_state(states, actions, inputs, i - 1);
    lemma_run_state(states, actions, inputs, i);
    assert(states[i - 1].stage is StoppedAppend);
    assert(k < i - 1);
    lemma_stopping_stays(states, actions, inputs, k + 1, i - 1);
    lemma_run_step(states, actions, inputs, i - 2);
    assert(is_owner_step(states, actions, inputs, i - 1));
}

/// An owner ends well only with nothing in flight.
pub proof fn law_clean_arbitrage_end_is_idle(
    states: Seq<ArbitrageOwner>,
    actions: Seq<ArbitrageAction>,
    inputs: Seq<ArbitrageInput>,
    i: int,
)
    requires
        is_owner_run(states, actions, inputs),
        0 <= i < actions.len(),
        actions[i] is Finish,
        actions[i]->Finish_0 is Ok,
    ensures
        i > 0,
        states[i].in_flight is None,
        states[i].phase == ArbitragePaperTaskPhase::Stopped,
        inputs[i - 1] is Done,
{
    assert(i > 0);
    lemma_run_step(states, actions, inputs, i - 1);
    lemma_run_state(states, actions, inputs, i - 1);
    assert(is_owner_step(states, actions, inputs, i - 1));
}

} // verus!
