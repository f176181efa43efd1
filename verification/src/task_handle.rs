//! The handle through which an owner is waited for, stopped and cancelled.
//!
//! A handle asks for one action at a time. What an owner came to is kept, and
//! every later request is answered with it.

use crate::paper_arbitrage_task::{
    arbitrage_bucket, ArbitragePaperTaskError, ArbitragePaperTaskExit, ArbitragePaperTaskFailure,
};
use crate::paper_grid_task::{
    grid_bucket, GridPaperTaskError, GridPaperTaskExit, GridPaperTaskFailure,
};
use crate::paper_volume_maker_task::{
    volume_bucket, VolumeMakerPaperTaskError, VolumeMakerPaperTaskExit, VolumeMakerPaperTaskFailure,
};
use vstd::prelude::*;

verus! {

/// What the failures of the owners have in common.
pub trait OwnerError: Sized + Copy {
    type Failure: Copy;

    /// The bucket that the failure is recorded under.
    spec fn bucket_of(self) -> Self::Failure;

    spec fn panicked_error() -> Self;

    spec fn cancelled_error() -> Self;

    spec fn timed_out_error() -> Self;

    spec fn journal_error() -> Self;

    spec fn earlier_error(failure: Self::Failure) -> Self;

    fn bucket(self) -> (r: Self::Failure)
        ensures
            r == self.bucket_of(),
    ;

    fn panicked() -> (r: Self)
        ensures
            r == Self::panicked_error(),
    ;

    fn cancelled() -> (r: Self)
        ensures
            r == Self::cancelled_error(),
    ;

    fn timed_out() -> (r: Self)
        ensures
            r == Self::timed_out_error(),
    ;

    fn journal() -> (r: Self)
        ensures
            r == Self::journal_error(),
    ;

    fn previously_failed(failure: Self::Failure) -> (r: Self)
        ensures
            r == Self::earlier_error(failure),
    ;
}

impl OwnerError for GridPaperTaskError {
    type Failure = GridPaperTaskFailure;

    open spec fn bucket_of(self) -> GridPaperTaskFailure {
        grid_bucket(self)
    }

    open spec fn panicked_error() -> Self {
        GridPaperTaskError::TaskPanicked
    }

    open spec fn cancelled_error() -> Self {
        GridPaperTaskError::TaskCancelled
    }

    open spec fn timed_out_error() -> Self {
        GridPaperTaskError::ShutdownTimedOut
    }

    open spec fn journal_error() -> Self {
        GridPaperTaskError::Journal
    }

    open spec fn earlier_error(failure: GridPaperTaskFailure) -> Self {
        GridPaperTaskError::PreviouslyFailed(failure)
    }

    fn bucket(self) -> (r: GridPaperTaskFailure) {
        self.failure_bucket()
    }

    fn panicked() -> (r: Self) {
        GridPaperTaskError::TaskPanicked
    }

    fn cancelled() -> (r: Self) {
        GridPaperTaskError::TaskCancelled
    }

    fn timed_out() -> (r: Self) {
        GridPaperTaskError::ShutdownTimedOut
    }

    fn journal() -> (r: Self) {
        GridPaperTaskError::Journal
    }

    fn previously_failed(failure: GridPaperTaskFailure) -> (r: Self) {
        GridPaperTaskError::PreviouslyFailed(failure)
    }
}

impl OwnerError for VolumeMakerPaperTaskError {
    type Failure = VolumeMakerPaperTaskFailure;

    open spec fn bucket_of(self) -> VolumeMakerPaperTaskFailure {
        volume_bucket(self)
    }

    open spec fn panicked_error() -> Self {
        VolumeMakerPaperTaskError::TaskPanicked
    }

    open spec fn cancelled_error() -> Self {
        VolumeMakerPaperTaskError::TaskCancelled
    }

    open spec fn timed_out_error() -> Self {
        VolumeMakerPaperTaskError::ShutdownTimedOut
    }

    open spec fn journal_error() -> Self {
        VolumeMakerPaperTaskError::Journal
    }

    open spec fn earlier_error(failure: VolumeMakerPaperTaskFailure) -> Self {
        VolumeMakerPaperTaskError::PreviouslyFailed(failure)
    }

    fn bucket(self) -> (r: VolumeMakerPaperTaskFailure) {
        self.failure_bucket()
    }

    fn panicked() -> (r: Self) {
        VolumeMakerPaperTaskError::TaskPanicked
    }

    fn cancelled() -> (r: Self) {
        VolumeMakerPaperTaskError::TaskCancelled
    }

    fn timed_out() -> (r: Self) {
        VolumeMakerPaperTaskError::ShutdownTimedOut
    }

    fn journal() -> (r: Self) {
        VolumeMakerPaperTaskError::Journal
    }

    fn previously_failed(failure: VolumeMakerPaperTaskFailure) -> (r: Self) {
        VolumeMakerPaperTaskError::PreviouslyFailed(failure)
    }
}

impl OwnerError for ArbitragePaperTaskError {
    type Failure = ArbitragePaperTaskFailure;

    open spec fn bucket_of(self) -> ArbitragePaperTaskFailure {
        arbitrage_bucket(self)
    }

    open spec fn panicked_error() -> Self {
        ArbitragePaperTaskError::TaskPanicked
    }

    open spec fn cancelled_error() -> Self {
        ArbitragePaperTaskError::TaskCancelled
    }

    open spec fn timed_out_error() -> Self {
        ArbitragePaperTaskError::ShutdownTimedOut
    }

    open spec fn journal_error() -> Self {
        ArbitragePaperTaskError::Journal
    }

    open spec fn earlier_error(failure: ArbitragePaperTaskFailure) -> Self {
        ArbitragePaperTaskError::PreviouslyFailed(failure)
    }

    fn bucket(self) -> (r: ArbitragePaperTaskFailure) {
        self.failure_bucket()
    }

    fn panicked() -> (r: Self) {
        ArbitragePaperTaskError::TaskPanicked
    }

    fn cancelled() -> (r: Self) {
        ArbitragePaperTaskError::TaskCancelled
    }

    fn timed_out() -> (r: Self) {
        ArbitragePaperTaskError::ShutdownTimedOut
    }

    fn journal() -> (r: Self) {
        ArbitragePaperTaskError::Journal
    }

    fn previously_failed(failure: ArbitragePaperTaskFailure) -> (r: Self) {
        ArbitragePaperTaskError::PreviouslyFailed(failure)
    }
}

/// How an owner's task ended.
#[derive(Debug)]
pub enum JoinOutcome<E, X> {
    Returned(Result<E, X>),
    Panicked,
    Cancelled,
}

/// What is asked of the handle.
#[derive(Clone, Copy, Debug, PartialEq, Eq, Structural)]
pub enum FinishRequest {
    /// To wait until a finite source terminates.
    Wait,
    /// To stop admitting operations and let the current one finish.
    Stop,
    /// To cut the current operation off.
    Cancel,
}

/// What the handle waits for.
#[derive(Debug)]
pub enum HandleStage<E, X> {
    Idle,
    Joining { bounded: bool },
    /// The owner ended while it held the account's lane: its capacity is kept.
    RetainingJoined { result: Result<E, X> },
    Aborting,
    Retaining,
    Recording,
}

/// The handle of one owner.
#[derive(Debug)]
pub struct TaskHandle<E: Copy, X: OwnerError> {
    /// What the owner came to, once that is known.
    pub completion: Option<Result<E, X::Failure>>,
    /// The owner's task can still be joined.
    pub running: bool,
    pub stage: HandleStage<E, X>,
}

/// What the handle asks for.
#[derive(Debug)]
pub enum HandleAction<E, X> {
    Nothing,
    /// To send the signal, if there is one, and join the task, within the
    /// bound where it is bounded.
    Join { signal: Option<FinishRequest>, bounded: bool },
    /// To take over the account's lane and abort the task.
    AbortOwner,
    /// To keep the pending capacity of the owner as uncertain.
    RetainCapacity,
    /// To record that the owner needs recovery.
    RecordFailure,
    /// To answer the request, after the signal is sent where there is one.
    Return { signal: Option<FinishRequest>, result: Result<E, X> },
}

/// What came of the last action.
#[derive(Debug)]
pub enum HandleInput<E, X> {
    /// The task ended; whether it still held the account's lane.
    Joined { outcome: JoinOutcome<E, X>, leased: bool },
    TimedOut,
    Done,
    Failed,
}

/// The next state of the handle and what it asks for.
pub type HandleStep<E, X> = (TaskHandle<E, X>, HandleAction<E, X>);

/// What a joined task came to.
pub open spec fn joined_result<E: Copy, X: OwnerError>(outcome: JoinOutcome<E, X>) -> Result<E, X> {
    match outcome {
        JoinOutcome::Returned(result) => result,
        JoinOutcome::Panicked => Err(X::panicked_error()),
        JoinOutcome::Cancelled => Err(X::cancelled_error()),
    }
}

/// What a joined task came to.
pub fn map_join<E: Copy, X: OwnerError>(outcome: JoinOutcome<E, X>) -> (r: Result<E, X>)
    ensures
        r == joined_result(outcome),
{
    match outcome {
        JoinOutcome::Returned(result) => result,
        JoinOutcome::Panicked => Err(X::panicked()),
        JoinOutcome::Cancelled => Err(X::cancelled()),
    }
}

/// The signal that a request sends.
pub open spec fn signal_of(request: FinishRequest) -> Option<FinishRequest> {
    if request == FinishRequest::Wait {
        None
    } else {
        Some(request)
    }
}

/// The handle keeps the result and answers with it.
pub open spec fn completes<E: Copy, X: OwnerError>(
    handle: TaskHandle<E, X>,
    result: Result<E, X>,
) -> HandleStep<E, X> {
    (
        TaskHandle {
            completion: Some(
                match result {
                    Ok(exit) => Ok(exit),
                    Err(error) => Err(error.bucket_of()),
                },
            ),
            stage: HandleStage::Idle,
            ..handle
        },
        HandleAction::Return { signal: None, result },
    )
}

/// A request: a kept result is the answer; an owner that is gone was cancelled;
/// else the owner is told and joined.
pub open spec fn requested<E: Copy, X: OwnerError>(
    handle: TaskHandle<E, X>,
    request: FinishRequest,
) -> HandleStep<E, X> {
    match handle.completion {
        Some(Ok(exit)) => (handle, HandleAction::Return { signal: None, result: Ok(exit) }),
        Some(Err(failure)) => (
            handle,
            HandleAction::Return { signal: None, result: Err(X::earlier_error(failure)) },
        ),
        None => if !handle.running {
            (
                handle,
                HandleAction::Return {
                    signal: signal_of(request),
                    result: Err(X::cancelled_error()),
                },
            )
        } else {
            let bounded = request != FinishRequest::Wait;
            (
                TaskHandle { running: false, stage: HandleStage::Joining { bounded }, ..handle },
                HandleAction::Join { signal: signal_of(request), bounded },
            )
        },
    }
}

/// What follows an action.
pub open spec fn advanced<E: Copy, X: OwnerError>(
    handle: TaskHandle<E, X>,
    input: HandleInput<E, X>,
) -> HandleStep<E, X> {
    match (handle.stage, input) {
        (HandleStage::Joining { .. }, HandleInput::Joined { outcome, leased }) => if leased {
            (
                TaskHandle {
                    stage: HandleStage::RetainingJoined { result: joined_result(outcome) },
                    ..handle
                },
                HandleAction::RetainCapacity,
            )
        } else {
            completes(handle, joined_result(outcome))
        },
        (HandleStage::RetainingJoined { result }, HandleInput::Done) => completes(handle, result),
        (HandleStage::Joining { bounded: true }, HandleInput::TimedOut) => (
            TaskHandle { stage: HandleStage::Aborting, ..handle },
            HandleAction::AbortOwner,
        ),
        (HandleStage::Aborting, HandleInput::Done) => (
            TaskHandle { stage: HandleStage::Retaining, ..handle },
            HandleAction::RetainCapacity,
        ),
        (HandleStage::Retaining, HandleInput::Done) => (
            TaskHandle { stage: HandleStage::Recording, ..handle },
            HandleAction::RecordFailure,
        ),
        (HandleStage::Recording, HandleInput::Done) => completes(handle, Err(X::timed_out_error())),
        // The failure could not be recorded: the answer is not kept.
        (HandleStage::Recording, HandleInput::Failed) => (
            TaskHandle { stage: HandleStage::Idle, ..handle },
            HandleAction::Return { signal: None, result: Err(X::journal_error()) },
        ),
        _ => (handle, HandleAction::Nothing),
    }
}

fn complete<E: Copy, X: OwnerError>(handle: TaskHandle<E, X>, result: Result<E, X>) -> (r: HandleStep<
    E,
    X,
>)
    ensures
        r == completes(handle, result),
{
    let mut kept: TaskHandle<E, X> = handle;
    kept.completion = Some(
        match result {
            Ok(exit) => Ok(exit),
            Err(error) => Err(error.bucket()),
        },
    );
    kept.stage = HandleStage::Idle;
    (kept, HandleAction::Return { signal: None, result })
}

impl<E: Copy, X: OwnerError> TaskHandle<E, X> {
    /// The handle of an owner that runs.
    pub fn started() -> (r: TaskHandle<E, X>)
        ensures
            r.completion is None,
            r.running,
            r.stage is Idle,
    {
        TaskHandle { completion: None, running: true, stage: HandleStage::Idle }
    }

    /// Takes a request.
    pub fn request(self, request: FinishRequest) -> (r: HandleStep<E, X>)
        ensures
            r == requested(self, request),
    {
        match self.completion {
            Some(Ok(exit)) => (self, HandleAction::Return { signal: None, result: Ok(exit) }),
            Some(Err(failure)) => (
                self,
                HandleAction::Return { signal: None, result: Err(X::previously_failed(failure)) },
            ),
            None => {
                let signal: Option<FinishRequest> = if request == FinishRequest::Wait {
                    None
                } else {
                    Some(request)
                };
                if !self.running {
                    return (self, HandleAction::Return { signal, result: Err(X::cancelled()) });
                }
                let bounded: bool = request != FinishRequest::Wait;
                let mut joining: TaskHandle<E, X> = self;
                joining.running = false;
                joining.stage = HandleStage::Joining { bounded };
                (joining, HandleAction::Join { signal, bounded })
            },
        }
    }

    /// Asks to wait until a finite source terminates.
    pub fn wait(self) -> (r: HandleStep<E, X>)
        ensures
            r == requested(self, FinishRequest::Wait),
    {
        self.request(FinishRequest::Wait)
    }

    /// Asks to admit no more operations and to let the current one finish.
    pub fn stop(self) -> (r: HandleStep<E, X>)
        ensures
            r == requested(self, FinishRequest::Stop),
    {
        self.request(FinishRequest::Stop)
    }

    /// Asks to cut the current operation off.
    pub fn cancel(self) -> (r: HandleStep<E, X>)
        ensures
            r == requested(self, FinishRequest::Cancel),
    {
        self.request(FinishRequest::Cancel)
    }

    /// Takes what came of the last action and says what to do next.
    pub fn advance(self, input: HandleInput<E, X>) -> (r: HandleStep<E, X>)
        ensures
            r == advanced(self, input),
    {
        let stage: HandleStage<E, X> = self.stage;
        let mut next: TaskHandle<E, X> = TaskHandle {
            completion: self.completion,
            running: self.running,
            stage: HandleStage::Idle,
        };
        match (stage, input) {
            (HandleStage::Joining { .. }, HandleInput::Joined { outcome, leased }) => {
                let result: Result<E, X> = map_join(outcome);
                if leased {
                    next.stage = HandleStage::RetainingJoined { result };
                    (next, HandleAction::RetainCapacity)
                } else {
                    complete(next, result)
                }
            },
            (HandleStage::RetainingJoined { result }, HandleInput::Done) => complete(next, result),
            (HandleStage::Joining { bounded: true }, HandleInput::TimedOut) => {
                next.stage = HandleStage::Aborting;
                (next, HandleAction::AbortOwner)
            },
            (HandleStage::Aborting, HandleInput::Done) => {
                next.stage = HandleStage::Retaining;
                (next, HandleAction::RetainCapacity)
            },
            (HandleStage::Retaining, HandleInput::Done) => {
                next.stage = HandleStage::Recording;
                (next, HandleAction::RecordFailure)
            },
            (HandleStage::Recording, HandleInput::Done) => complete(next, Err(X::timed_out())),
            (HandleStage::Recording, HandleInput::Failed) => (
                next,
                HandleAction::Return { signal: None, result: Err(X::journal()) },
            ),
            (stage, _) => {
                next.stage = stage;
                (next, HandleAction::Nothing)
            },
        }
    }
}

/// What an owner came to is final: once it is kept, every request is answered
/// with it at once, and neither a request nor a late input changes the handle.
pub proof fn law_completion_is_final<E: Copy, X: OwnerError>(
    handle: TaskHandle<E, X>,
    request: FinishRequest,
    input: HandleInput<E, X>,
)
    requires
        handle.completion is Some,
        handle.stage is Idle,
    ensures
        requested(handle, request).0 == handle,
        requested(handle, request).1 == (HandleAction::<E, X>::Return {
            signal: None,
            result: match handle.completion->0 {
                Ok(exit) => Ok(exit),
                Err(failure) => Err(X::earlier_error(failure)),
            },
        }),
        advanced(handle, input) == (handle, HandleAction::<E, X>::Nothing),
{
}

/// An answer is kept unless the failure behind it could not be recorded: the
/// next request is answered alike, with the bucket of the failure in place of
/// the failure.
pub proof fn law_answers_agree<E: Copy, X: OwnerError>(
    handle: TaskHandle<E, X>,
    input: HandleInput<E, X>,
    request: FinishRequest,
)
    requires
        advanced(handle, input).1 is Return,
        !(handle.stage is Recording && input is Failed),
    ensures
        ({
            let (kept, answer) = advanced(handle, input);
            let again = requested(kept, request).1;
            &&& again is Return
            &&& match answer->Return_result {
                Ok(exit) => again->Return_result == Ok::<E, X>(exit),
                Err(error) => again->Return_result == Err::<E, X>(
                    X::earlier_error(error.bucket_of()),
                ),
            }
        }),
{
}

/// An owner that is aborted is answered for only after its pending capacity was
/// kept and the need for recovery recorded.
pub proof fn law_abort_keeps_capacity_first<E: Copy, X: OwnerError>(
    handle: TaskHandle<E, X>,
    input: HandleInput<E, X>,
)
    ensures
        advanced(handle, input).1 is RecordFailure ==> handle.stage is Retaining,
        advanced(handle, input).0.stage is Retaining && !(handle.stage is Retaining)
            ==> advanced(handle, input).1 is RetainCapacity,
        handle.stage is Aborting || handle.stage is Retaining ==> !(advanced(
            handle,
            input,
        ).1 is Return),
{
}

/// The handle of a grid owner.
pub type GridPaperTask = TaskHandle<GridPaperTaskExit, GridPaperTaskError>;

/// The handle of an arbitrage owner.
pub type ArbitragePaperTask = TaskHandle<ArbitragePaperTaskExit, ArbitragePaperTaskError>;

/// The handle of a volume-maker owner.
pub type VolumeMakerPaperTask = TaskHandle<VolumeMakerPaperTaskExit, VolumeMakerPaperTaskError>;

} // verus!
