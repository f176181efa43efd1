//! One operation while it runs: who may interrupt it, and what it comes to.

use crate::grid_owner::OperationOutcome;
use crate::paper_grid_task::{
    account_risk_exit_reason, first_demand, AccountRiskDirective, SagaFailure,
};
use vstd::prelude::*;

verus! {

/// What an operation is watched for besides its saga.
#[derive(Clone, Copy, Debug, PartialEq, Eq, Structural)]
pub struct OperationRunPolicy {
    /// The account-risk directives are polled.
    pub risk: bool,
    /// The operation has a deadline.
    pub timed: bool,
}

impl OperationRunPolicy {
    /// An ordinary operation: account risk may interrupt it, where there is
    /// one; it has no deadline.
    pub fn monitored(risk: bool) -> (r: OperationRunPolicy)
        ensures
            r == (OperationRunPolicy { risk, timed: false }),
    {
        OperationRunPolicy { risk, timed: false }
    }

    /// A forced close: account risk demanded it and does not interrupt it; it
    /// has a deadline.
    pub fn forced_close() -> (r: OperationRunPolicy)
        ensures
            r == (OperationRunPolicy { risk: false, timed: true }),
    {
        OperationRunPolicy { risk: false, timed: true }
    }
}

/// What came first.
#[derive(Debug)]
pub enum RunEvent {
    /// The cancel signal changed, or its sender is gone.
    Cancel { requested: bool },
    /// The stop signal changed, or its sender is gone.
    Stop { requested: bool },
    Directives(Vec<AccountRiskDirective>),
    DirectivesUnavailable,
    Deadline,
    /// The saga ended.
    Ended(Option<SagaFailure>),
}

/// An operation while it runs.
#[derive(Clone, Copy, Debug, PartialEq, Eq, Structural)]
pub struct OperationRun {
    pub policy: OperationRunPolicy,
    /// A stop was requested: it waits for the operation to end.
    pub stop_requested: bool,
}

/// What the run comes to on an event; nothing where it goes on. Only the event
/// that the policy watches for counts.
pub open spec fn run_outcome(run: OperationRun, event: RunEvent, task_id: Seq<char>) -> Option<
    OperationOutcome,
> {
    match event {
        RunEvent::Cancel { requested } => if requested {
            Some(OperationOutcome::Cancelled)
        } else {
            None
        },
        RunEvent::Stop { .. } => None,
        RunEvent::Directives(directives) => if run.policy.risk && first_demand(
            directives@,
            task_id,
        ) is Some {
            Some(OperationOutcome::RiskInterrupted)
        } else {
            None
        },
        RunEvent::DirectivesUnavailable => if run.policy.risk {
            Some(OperationOutcome::RiskUnavailable)
        } else {
            None
        },
        RunEvent::Deadline => if run.policy.timed {
            Some(OperationOutcome::TimedOut)
        } else {
            None
        },
        RunEvent::Ended(None) => Some(
            OperationOutcome::Completed { stop_requested: run.stop_requested },
        ),
        RunEvent::Ended(Some(failure)) => Some(OperationOutcome::Failed(failure)),
    }
}

/// The run after an event that does not end it.
pub open spec fn run_after(run: OperationRun, event: RunEvent) -> OperationRun {
    OperationRun {
        stop_requested: run.stop_requested || event == (RunEvent::Stop { requested: true }),
        ..run
    }
}

impl OperationRun {
    pub fn start(policy: OperationRunPolicy) -> (r: OperationRun)
        ensures
            r == (OperationRun { policy, stop_requested: false }),
    {
        OperationRun { policy, stop_requested: false }
    }

    /// Takes what came first: the outcome where the run is over, and the reason
    /// where account risk interrupted it.
    pub fn observe(&mut self, event: RunEvent, task_id: &str) -> (r: (
        Option<OperationOutcome>,
        Option<String>,
    ))
        ensures
            *final(self) == run_after(*old(self), event),
            r.0 == run_outcome(*old(self), event, task_id@),
            r.1 is Some <==> r.0 == Some(OperationOutcome::RiskInterrupted),
            r.1 is Some ==> event is Directives && crate::json::text_in(r.1) == first_demand(
                event->Directives_0@,
                task_id@,
            ),
    {
        match event {
            RunEvent::Cancel { requested } => {
                if requested {
                    (Some(OperationOutcome::Cancelled), None)
                } else {
                    (None, None)
                }
            },
            RunEvent::Stop { requested } => {
                if requested {
                    self.stop_requested = true;
                }
                (None, None)
            },
            RunEvent::Directives(directives) => {
                if !self.policy.risk {
                    return (None, None);
                }
                match account_risk_exit_reason(&directives, task_id) {
                    Some(reason) => (Some(OperationOutcome::RiskInterrupted), Some(reason)),
                    None => (None, None),
                }
            },
            RunEvent::DirectivesUnavailable => {
                if self.policy.risk {
                    (Some(OperationOutcome::RiskUnavailable), None)
                } else {
                    (None, None)
                }
            },
            RunEvent::Deadline => {
                if self.policy.timed {
                    (Some(OperationOutcome::TimedOut), None)
                } else {
                    (None, None)
                }
            },
            RunEvent::Ended(failure) => match failure {
                None => (
                    Some(OperationOutcome::Completed { stop_requested: self.stop_requested }),
                    None,
                ),
                Some(failure) => (Some(OperationOutcome::Failed(failure)), None),
            },
        }
    }
}

/// A stop never interrupts an operation: it is remembered, and reported with the
/// completion.
pub proof fn law_stop_waits_for_the_operation(run: OperationRun, requested: bool, task_id: Seq<char>)
    ensures
        run_outcome(run, RunEvent::Stop { requested }, task_id) is None,
        requested ==> run_outcome(
            run_after(run, RunEvent::Stop { requested }),
            RunEvent::Ended(None),
            task_id,
        ) == Some(OperationOutcome::Completed { stop_requested: true }),
{
}

/// A forced close is not interrupted by account risk.
pub proof fn law_forced_close_ignores_risk(
    stop_requested: bool,
    directives: Vec<AccountRiskDirective>,
    task_id: Seq<char>,
)
    ensures
        ({
            let run = OperationRun {
                policy: OperationRunPolicy { risk: false, timed: true },
                stop_requested,
            };
            &&& run_outcome(run, RunEvent::Directives(directives), task_id) is None
            &&& run_outcome(run, RunEvent::DirectivesUnavailable, task_id) is None
        }),
{
}

} // verus!
