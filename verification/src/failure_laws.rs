//! What owners do where something fails under them, or their source ends.

use crate::arbitrage_owner::{ArbitrageInput, ArbitrageOwner, ArbitrageStage};
use crate::arbitrage_plan::ArbitrageState;
use crate::arbitrage_step_laws::gives_up as pair_gives_up;
use crate::grid_owner::{GridAction, GridInput, GridOwner, GridStage};
use crate::grid_step_laws::gives_up as grid_gives_up;
use crate::paper_arbitrage_task::{ArbitragePaperTaskError, ArbitragePaperTaskExit};
use crate::paper_grid_task::GridPaperTaskError;
use crate::paper_volume_maker_task::{VolumeMakerPaperTaskError, VolumeMakerPaperTaskExit};
use crate::volume_owner::{VolumeAction, VolumeInput, VolumeOwner};
use crate::volume_step_laws::begins_to_stop as volume_begins_to_stop;
use crate::volume_step_laws::gives_up as volume_gives_up;
use vstd::prelude::*;

verus! {

/// A volume owner gives up with the error of what failed under it. An
/// admission that it holds is discarded first; a record that cannot be written
/// ends it at once.
pub proof fn law_volume_owner_gives_up_with_what_failed(
    owner: VolumeOwner,
    error: VolumeMakerPaperTaskError,
)
    ensures
        ({
            let step = crate::volume_owner::owner_step(owner, VolumeInput::Failed(error));
            let stage = owner.stage;
            &&& stage is Rollover || stage is RiskExit || stage is Plan || stage is Admit
                || stage is Discard || stage is Retain || stage is RecordClosed
                || stage is GapCheckpoint ==> volume_gives_up(step, error)
            &&& stage is Build && !owner.admitted ==> volume_gives_up(step, error)
                && step.0.status.operation_count == owner.sequence
            &&& stage is Build && owner.admitted ==> step.1 is DiscardAdmission && step.0.stage
                is Discard && step.0.stage->Discard_error == error
            &&& stage is Checkpoint || stage is BoundsCheckpoint || stage is StopStatistics
                ==> step.1 == VolumeAction::Finish(Err(error))
            &&& stage is StoppingAppend || stage is StoppedAppend ==> step.1
                == VolumeAction::Finish(Err(VolumeMakerPaperTaskError::Journal))
            &&& stage is SourceStop ==> step.1 == VolumeAction::Finish(
                Err(VolumeMakerPaperTaskError::Source),
            )
        }),
        owner.stage is Discard ==> volume_gives_up(
            crate::volume_owner::owner_step(owner, VolumeInput::Done),
            owner.stage->Discard_error,
        ),
        owner.stage is Build ==> crate::volume_owner::owner_step(owner, VolumeInput::Done).1
            is RunOperation,
{
}

/// A volume owner whose source ends stops, and one whose source fails gives
/// up; a gap is recorded and waited out.
pub proof fn law_volume_owner_ends_with_its_source(owner: VolumeOwner)
    ensures
        owner.stage is Waiting ==> volume_begins_to_stop(
            owner,
            crate::volume_owner::owner_step(owner, VolumeInput::SourceEnded),
            VolumeMakerPaperTaskExit::SourceEnded,
        ),
        owner.stage is Waiting ==> volume_gives_up(
            crate::volume_owner::owner_step(owner, VolumeInput::SourceFailed),
            VolumeMakerPaperTaskError::Source,
        ),
        owner.stage is GapCheckpoint ==> {
            let step = crate::volume_owner::owner_step(owner, VolumeInput::Done);
            step.1 is Wait && step.0.status == owner.next && step.0.position == owner.position
                && step.0.quote == owner.quote
        },
{
}

/// A grid owner gives up with the error of what failed under it, an admission
/// discarded first. A record that was to come before an order, or of a closed
/// position, fails it as such.
pub proof fn law_grid_owner_gives_up_with_what_failed(owner: GridOwner, error: GridPaperTaskError)
    ensures
        ({
            let step = crate::grid_owner::owner_step(owner, GridInput::Failed(error));
            let stage = owner.stage;
            &&& stage is RiskExit || stage is Protection || stage is ScalpBuild || stage
                is ScalpRetain || stage is Crossings || stage is CrossAdmit || stage is CrossDiscard
                || stage is CrossRetain || stage is PendingRisk || stage is CloseAppend || stage
                is CloseRetain ==> grid_gives_up(step, error)
            &&& stage is CrossBuild && !stage->CrossBuild_admitted ==> grid_gives_up(step, error)
                && step.0.status.operation_count == owner.sequence
            &&& stage is CrossBuild && stage->CrossBuild_admitted ==> step.1 is DiscardAdmission
                && step.0.stage is CrossDiscard && step.0.stage->CrossDiscard_error == error
            &&& stage is HoldAppend || stage is ResetAppend || stage is ExitAppend
                ==> grid_gives_up(step, GridPaperTaskError::Journal)
            &&& stage is FlatRecord ==> grid_gives_up(step, GridPaperTaskError::AccountRisk)
        }),
        owner.stage is CrossDiscard ==> grid_gives_up(
            crate::grid_owner::owner_step(owner, GridInput::Done),
            owner.stage->CrossDiscard_error,
        ),
        owner.stage is CrossBuild ==> {
            let step = crate::grid_owner::owner_step(owner, GridInput::Done);
            step.1 is RunOperation && step.0.stage == (GridStage::CrossRun {
                admitted: owner.stage->CrossBuild_admitted,
            })
        },
        owner.stage is Waiting ==> grid_gives_up(
            crate::grid_owner::owner_step(owner, GridInput::SourceFailed),
            GridPaperTaskError::Source,
        ),
        owner.stage is Waiting ==> crate::grid_owner::owner_step(owner, GridInput::SourceEnded).1
            is CheckFlat,
        owner.stage is FlatRecord ==> crate::grid_owner::owner_step(owner, GridInput::Done).1 == (
        GridAction::AppendCheckpoint { counts: owner.next }),
{
}

/// A pair owner gives up with the error of what failed under it, and its lane
/// is free then. An operation in flight is cut off before that, and an
/// admission is discarded.
pub proof fn law_pair_owner_gives_up_with_what_failed(
    owner: ArbitrageOwner,
    error: ArbitragePaperTaskError,
)
    ensures
        ({
            let step = crate::arbitrage_owner::owner_step(owner, ArbitrageInput::Failed(error));
            let stage = owner.stage;
            let admitted = (stage is Account && stage->Account_admitted) || (stage is Build
                && stage->Build_admitted);
            &&& stage is Restore || stage is Gate || stage is Decide || stage is DropPlan || stage
                is RecordClosed || stage is RetainFailed || stage is Abort ==> pair_gives_up(
                step,
                error,
            )
            &&& stage is Admit || stage is Discard || ((stage is Account || stage is Build)
                && !admitted) ==> pair_gives_up(step, error) && !step.0.leased
            &&& admitted ==> step.1 is DiscardAdmission && step.0.stage == (
            ArbitrageStage::Discard { error })
            &&& (stage is Observe || stage is Monitor) && owner.in_flight is None
                ==> pair_gives_up(step, error)
            &&& (stage is Observe || stage is Monitor || stage is Checkpoint)
                && owner.in_flight is Some ==> step.1 is AbortOperation
        }),
        owner.stage is Discard ==> pair_gives_up(
            crate::arbitrage_owner::owner_step(owner, ArbitrageInput::Done),
            owner.stage->Discard_error,
        ),
{
}

/// A pair owner goes on from what its account restored, and where its source
/// ends without an operation in flight it records so; a source that fails cuts
/// off what is in flight.
pub proof fn law_pair_owner_ends_with_its_source(owner: ArbitrageOwner, state: ArbitrageState)
    ensures
        owner.stage is Restore ==> {
            let step = crate::arbitrage_owner::owner_step(owner, ArbitrageInput::Restored(state));
            step.1 is Wait && step.0.position == state && step.0.status == owner.status
        },
        owner.stage is Waiting && owner.in_flight is None ==> {
            let step = crate::arbitrage_owner::owner_step(owner, ArbitrageInput::SourceEnded);
            step.0.stage is StoppingAppend && step.0.stage->StoppingAppend_stop.exit
                == ArbitragePaperTaskExit::SourceEnded && !step.0.stage->StoppingAppend_stop.close
        },
        owner.stage is Waiting ==> {
            let step = crate::arbitrage_owner::owner_step(owner, ArbitrageInput::SourceFailed);
            &&& owner.in_flight is Some ==> step.1 is AbortOperation
            &&& owner.in_flight is None ==> pair_gives_up(step, ArbitragePaperTaskError::Source)
        },
        owner.stage is RecordClosed ==> {
            let step = crate::arbitrage_owner::owner_step(owner, ArbitrageInput::Done);
            &&& !step.0.leased && step.0.pending is None
            &&& owner.pending is Some ==> step.1 is ReadGate && step.0.stage == (
            ArbitrageStage::Gate { scope: owner.pending->0 })
            &&& owner.pending is None ==> step.1 is Wait
        },
        owner.stage is Start ==> crate::arbitrage_owner::owner_step(owner, ArbitrageInput::Done).1
            is Wait,
{
}

} // verus!
