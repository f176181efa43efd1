//! What holds of every run of a paper saga.

use crate::decimal::lemma_decimal_of;
use crate::domain::SubmissionDisposition;
use crate::paper_arbitrage_saga::{
    is_arbitrage_saga_step, outcome_of, pair_is_confirmed, pair_settlement, recovery_result,
    ArbitrageSagaAction, ArbitrageSagaInput, ArbitrageSagaStage, PaperArbitrageRequest,
};
use crate::paper_single_leg_saga::{
    batch_is_confirmed, is_single_leg_step, received, settlement_of, PaperSingleLegRequest, SingleLegAction,
    SingleLegInput, SingleLegStage,
};
use crate::requests::gross_of;
use crate::saga_records::plans;
use vstd::prelude::*;

verus! {

/// The stages, the actions and the inputs of one single-leg saga, in order.
pub open spec fn is_single_leg_run(
    request: PaperSingleLegRequest,
    stages: Seq<SingleLegStage>,
    actions: Seq<SingleLegAction>,
    inputs: Seq<SingleLegInput>,
) -> bool {
    &&& stages.len() == actions.len()
    &&& stages.len() == inputs.len() + 1
    &&& stages[0] is Reservation
    &&& actions[0] is Reserve
    &&& forall|i: int|
        0 <= i < inputs.len() ==> #[trigger] is_single_leg_step(
            request,
            stages[i],
            inputs[i],
            (stages[i + 1], actions[i + 1]),
        )
}

/// Where in a run each stage can stand, and what came before it.
proof fn lemma_single_leg_places(
    request: PaperSingleLegRequest,
    stages: Seq<SingleLegStage>,
    actions: Seq<SingleLegAction>,
    inputs: Seq<SingleLegInput>,
    i: int,
)
    requires
        is_single_leg_run(request, stages, actions, inputs),
        0 <= i < stages.len(),
    ensures
        stages[i] is Reservation <==> i == 0,
        stages[i] is PlanAppend ==> i == 1 && inputs[0] is Reserved && stages[i]->PlanAppend_reservation_id
            == inputs[0]->Reserved_0.reservation_id,
        stages[i] is Execution ==> i == 2 && inputs[0] is Reserved && stages[i]->Execution_reservation_id
            == inputs[0]->Reserved_0.reservation_id && inputs[1]
            == SingleLegInput::Appended(true),
        stages[i] is OutcomeAppend ==> i == 3 && inputs[0] is Reserved
            && stages[i]->OutcomeAppend_reservation_id == inputs[0]->Reserved_0.reservation_id
            && inputs[2] is Executed
            && stages[i]->OutcomeAppend_receipts == received(inputs[2]->Executed_0),
        stages[i] is Settlement ==> i == 4 && inputs[2] is Executed
            && stages[i]->Settlement_receipts == received(inputs[2]->Executed_0) && inputs[3] == SingleLegInput::Appended(true) && Some(
            stages[i]->Settlement_settlement,
        ) == settlement_of(request, stages[i]->Settlement_receipts),
    decreases i,
{
    if i > 0 {
        let k = i - 1;
        lemma_single_leg_places(request, stages, actions, inputs, k);
        assert(is_single_leg_step(request, stages[k], inputs[k], (stages[k + 1], actions[k + 1])));
    }
}

/// A single-leg saga executes at most once: only the batch of its request, only
/// under a reservation that is new, and only after the plan of that batch is
/// durable.
pub proof fn law_single_leg_executes_only_new_durable_plans(
    request: PaperSingleLegRequest,
    stages: Seq<SingleLegStage>,
    actions: Seq<SingleLegAction>,
    inputs: Seq<SingleLegInput>,
    i: int,
)
    requires
        is_single_leg_run(request, stages, actions, inputs),
        0 <= i < actions.len(),
        actions[i] is Execute,
    ensures
        i == 2,
        actions[i]->Execute_batch_id == request.batch_view().id,
        inputs[0] is Reserved,
        actions[1] is AppendPlanned,
        plans(
            actions[1]->AppendPlanned_0,
            request.symbol_view(),
            request.batch_view(),
            inputs[0]->Reserved_0,
        ),
        inputs[1] == SingleLegInput::Appended(true),
{
    let k = i - 1;
    assert(is_single_leg_step(request, stages[k], inputs[k], (stages[k + 1], actions[k + 1])));
    lemma_single_leg_places(request, stages, actions, inputs, k);
    let z = 0int;
    assert(is_single_leg_step(request, stages[z], inputs[z], (stages[z + 1], actions[z + 1])));
}

/// Capacity is committed exactly for a proven fill, and what is committed is
/// the gross notional of the reservation; it is released exactly for a proven
/// cancel without a fill, and kept in every other case. The outcome is durable
/// before any of it.
pub proof fn law_single_leg_settles_only_what_is_proven(
    request: PaperSingleLegRequest,
    stages: Seq<SingleLegStage>,
    actions: Seq<SingleLegAction>,
    inputs: Seq<SingleLegInput>,
    i: int,
)
    requires
        is_single_leg_run(request, stages, actions, inputs),
        0 <= i < actions.len(),
        actions[i] is Settle,
    ensures
        i == 4,
        inputs[0] is Reserved,
        actions[i]->Settle_reservation_id == inputs[0]->Reserved_0.reservation_id,
        inputs[2] is Executed,
        inputs[3] == SingleLegInput::Appended(true),
        ({
            let result = inputs[2]->Executed_0;
            let settlement = actions[i]->Settle_settlement;
            let proven = |expected: SubmissionDisposition|
                result is Ok && batch_is_confirmed(
                    request.batch_view(),
                    result->Ok_0@,
                    expected,
                );
            &&& settlement is Commit <==> proven(SubmissionDisposition::Filled)
            &&& settlement is Commit ==> Some(settlement->amount@) == gross_of(
                request.reservation_view().legs@,
            )
            &&& settlement is Release <==> proven(SubmissionDisposition::Cancelled)
            &&& settlement is Release ==> settlement->reason@ == "single_leg_cancelled"@
            &&& settlement is MarkUncertain <==> !proven(SubmissionDisposition::Filled)
                && !proven(SubmissionDisposition::Cancelled)
        }),
{
    let k = i - 1;
    assert(is_single_leg_step(request, stages[k], inputs[k], (stages[k + 1], actions[k + 1])));
    lemma_single_leg_places(request, stages, actions, inputs, k);
    let settlement = actions[i]->Settle_settlement;
    if settlement is Commit {
        let gross = gross_of(request.reservation_view().legs@);
        lemma_decimal_of(gross->0, settlement->amount);
    }
}

/// A single-leg saga reports a completed or a cancelled operation only after
/// the account has settled its capacity.
pub proof fn law_single_leg_success_is_settled(
    request: PaperSingleLegRequest,
    stages: Seq<SingleLegStage>,
    actions: Seq<SingleLegAction>,
    inputs: Seq<SingleLegInput>,
    i: int,
)
    requires
        is_single_leg_run(request, stages, actions, inputs),
        0 <= i < actions.len(),
        actions[i] is Finish,
        actions[i]->Finish_0 is Ok,
        !(actions[i]->Finish_0->Ok_0 is AlreadyTerminal),
    ensures
        i == 5,
        inputs[4] == SingleLegInput::Settled(true),
        actions[4] is Settle,
        actions[i]->Finish_0->Ok_0 is Completed ==> actions[4]->Settle_settlement is Commit,
        actions[i]->Finish_0->Ok_0 is Cancelled ==> actions[4]->Settle_settlement is Release,
{
    let k = i - 1;
    assert(is_single_leg_step(request, stages[k], inputs[k], (stages[k + 1], actions[k + 1])));
    lemma_single_leg_places(request, stages, actions, inputs, k);
    if k > 0 {
        let m = k - 1;
        assert(is_single_leg_step(request, stages[m], inputs[m], (stages[m + 1], actions[m + 1])));
    }
}

/// The stages, the actions and the inputs of one arbitrage saga, in order.
pub open spec fn is_arbitrage_saga_run(
    request: PaperArbitrageRequest,
    stages: Seq<ArbitrageSagaStage>,
    actions: Seq<ArbitrageSagaAction>,
    inputs: Seq<ArbitrageSagaInput>,
) -> bool {
    &&& stages.len() == actions.len()
    &&& stages.len() == inputs.len() + 1
    &&& stages[0] is Reservation
    &&& actions[0] is Reserve
    &&& forall|i: int|
        0 <= i < inputs.len() ==> #[trigger] is_arbitrage_saga_step(
            request,
            stages[i],
            inputs[i],
            (stages[i + 1], actions[i + 1]),
        )
}

proof fn lemma_arbitrage_places(
    request: PaperArbitrageRequest,
    stages: Seq<ArbitrageSagaStage>,
    actions: Seq<ArbitrageSagaAction>,
    inputs: Seq<ArbitrageSagaInput>,
    i: int,
)
    requires
        is_arbitrage_saga_run(request, stages, actions, inputs),
        0 <= i < stages.len(),
    ensures
        stages[i] is Reservation <==> i == 0,
        stages[i] is Recovery ==> i == 1 && inputs[0] == (ArbitrageSagaInput::Existing {
            batch_id: stages[i]->Recovery_batch_id,
            phase: stages[i]->Recovery_phase,
        }),
        stages[i] is PlanAppend ==> i == 1 && inputs[0] is Reserved && stages[i]->PlanAppend_reservation_id
            == inputs[0]->Reserved_0.reservation_id,
        stages[i] is Execution ==> i == 2 && inputs[0] is Reserved && stages[i]->Execution_reservation_id
            == inputs[0]->Reserved_0.reservation_id && inputs[1]
            == ArbitrageSagaInput::Appended(true),
        stages[i] is OutcomeAppend ==> i == 3 && inputs[0] is Reserved
            && stages[i]->OutcomeAppend_reservation_id == inputs[0]->Reserved_0.reservation_id
            && inputs[2] is Executed
            && stages[i]->OutcomeAppend_outcome == outcome_of(
            request.batch_view(),
            inputs[2]->Executed_0,
        ),
        stages[i] is Settlement ==> i == 4 && inputs[2] is Executed && inputs[3]
            == ArbitrageSagaInput::Appended(true) && stages[i]->Settlement_outcome == outcome_of(
            request.batch_view(),
            inputs[2]->Executed_0,
        ) && Some(stages[i]->Settlement_settlement) == pair_settlement(
            request,
            stages[i]->Settlement_outcome,
        ),
    decreases i,
{
    if i > 0 {
        let k = i - 1;
        lemma_arbitrage_places(request, stages, actions, inputs, k);
        assert(is_arbitrage_saga_step(
            request,
            stages[k],
            inputs[k],
            (stages[k + 1], actions[k + 1]),
        ));
    }
}

/// The execution callback is invoked only for a newly durable reservation after
/// the plan of its batch is durable; a known request is never executed again.
pub proof fn law_arbitrage_executes_only_new_durable_plans(
    request: PaperArbitrageRequest,
    stages: Seq<ArbitrageSagaStage>,
    actions: Seq<ArbitrageSagaAction>,
    inputs: Seq<ArbitrageSagaInput>,
    i: int,
)
    requires
        is_arbitrage_saga_run(request, stages, actions, inputs),
        0 <= i < actions.len(),
        actions[i] is Execute,
    ensures
        i == 2,
        actions[i]->Execute_batch_id == request.batch_view().id,
        inputs[0] is Reserved,
        actions[1] is AppendPlanned,
        plans(
            actions[1]->AppendPlanned_0,
            request.symbol_view(),
            request.batch_view(),
            inputs[0]->Reserved_0,
        ),
        inputs[1] == ArbitrageSagaInput::Appended(true),
{
    let k = i - 1;
    assert(is_arbitrage_saga_step(request, stages[k], inputs[k], (stages[k + 1], actions[k + 1])));
    lemma_arbitrage_places(request, stages, actions, inputs, k);
    let z = 0int;
    assert(is_arbitrage_saga_step(request, stages[z], inputs[z], (stages[z + 1], actions[z + 1])));
}

/// Capacity is committed exactly where both orders are proven filled, and what
/// is committed is the gross notional of the reservation; it is released
/// exactly where both are proven cancelled without a fill, and kept in every
/// other case. The outcome is durable before any of it.
pub proof fn law_arbitrage_settles_only_what_is_proven(
    request: PaperArbitrageRequest,
    stages: Seq<ArbitrageSagaStage>,
    actions: Seq<ArbitrageSagaAction>,
    inputs: Seq<ArbitrageSagaInput>,
    i: int,
)
    requires
        is_arbitrage_saga_run(request, stages, actions, inputs),
        0 <= i < actions.len(),
        actions[i] is Settle,
    ensures
        i == 4,
        inputs[0] is Reserved,
        actions[i]->Settle_reservation_id == inputs[0]->Reserved_0.reservation_id,
        inputs[2] is Executed,
        inputs[3] == ArbitrageSagaInput::Appended(true),
        ({
            let result = inputs[2]->Executed_0;
            let settlement = actions[i]->Settle_settlement;
            let proven = |expected: SubmissionDisposition|
                result is Ok && pair_is_confirmed(
                    request.batch_view(),
                    result->Ok_0@,
                    expected,
                );
            &&& settlement is Commit <==> proven(SubmissionDisposition::Filled)
            &&& settlement is Commit ==> Some(settlement->amount@) == gross_of(
                request.reservation_view().legs@,
            )
            &&& settlement is Release <==> proven(SubmissionDisposition::Cancelled)
                && !proven(SubmissionDisposition::Filled)
            &&& settlement is Release ==> settlement->reason@ == "all_legs_cancelled"@
            &&& settlement is MarkUncertain <==> !proven(SubmissionDisposition::Filled)
                && !proven(SubmissionDisposition::Cancelled)
        }),
{
    let k = i - 1;
    assert(is_arbitrage_saga_step(request, stages[k], inputs[k], (stages[k + 1], actions[k + 1])));
    lemma_arbitrage_places(request, stages, actions, inputs, k);
    let settlement = actions[i]->Settle_settlement;
    if settlement is Commit {
        let gross = gross_of(request.reservation_view().legs@);
        lemma_decimal_of(gross->0, settlement->amount);
    }
}

/// An arbitrage saga reports a completed pair only after the account has
/// committed its capacity, or where the journal and the account already held
/// it as completed.
pub proof fn law_arbitrage_success_is_settled(
    request: PaperArbitrageRequest,
    stages: Seq<ArbitrageSagaStage>,
    actions: Seq<ArbitrageSagaAction>,
    inputs: Seq<ArbitrageSagaInput>,
    i: int,
)
    requires
        is_arbitrage_saga_run(request, stages, actions, inputs),
        0 <= i < actions.len(),
        actions[i] is Finish,
        actions[i]->Finish_0 is Ok,
    ensures
        actions[i]->Finish_0->Ok_0 is Completed ==> i == 5 && inputs[4]
            == ArbitrageSagaInput::Settled(true) && actions[4] is Settle && actions[4]->Settle_settlement
            is Commit,
        actions[i]->Finish_0->Ok_0 is AlreadyCompleted ==> i == 2 && inputs[0] is Existing,

{
    let k = i - 1;
    assert(is_arbitrage_saga_step(request, stages[k], inputs[k], (stages[k + 1], actions[k + 1])));
    lemma_arbitrage_places(request, stages, actions, inputs, k);
    if k > 0 {
        let m = k - 1;
        assert(is_arbitrage_saga_step(
            request,
            stages[m],
            inputs[m],
            (stages[m + 1], actions[m + 1]),
        ));
    }
}

/// A known pair is classified from what the account and the journal hold: the
/// evidence that is read, and the result, are those of the batch that the
/// account holds the reservation of.
pub proof fn law_known_pair_is_classified_by_its_own_batch(
    request: PaperArbitrageRequest,
    stages: Seq<ArbitrageSagaStage>,
    actions: Seq<ArbitrageSagaAction>,
    inputs: Seq<ArbitrageSagaInput>,
)
    requires
        is_arbitrage_saga_run(request, stages, actions, inputs),
        inputs.len() >= 2,
        inputs[0] is Existing,
        inputs[1] is Evidence,
    ensures
        ({
            let batch_id = inputs[0]->Existing_batch_id;
            &&& actions[1] == (ArbitrageSagaAction::ReadRecoveryEvidence { batch_id })
            &&& actions[2] == ArbitrageSagaAction::Finish(
                recovery_result(batch_id, inputs[0]->Existing_phase, inputs[1]->Evidence_0),
            )
        }),
{
    let (first, second) = (0int, 1int);
    assert(is_arbitrage_saga_step(
        request,
        stages[first],
        inputs[first],
        (stages[first + 1], actions[first + 1]),
    ));
    assert(is_arbitrage_saga_step(
        request,
        stages[second],
        inputs[second],
        (stages[second + 1], actions[second + 1]),
    ));
}

} // verus!
