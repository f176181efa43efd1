//! Graceful-shutdown signals: which ones a platform handles, and what becomes of
//! their registration and of the wait for them.

use vstd::prelude::*;

use crate::text::joined;

verus! {

/// The platforms that differ in their signals.
#[derive(Clone, Copy, Debug, PartialEq, Eq, Structural)]
pub enum ShutdownPlatform {
    Unix,
    Windows,
    Other,
}

/// A signal that asks for a graceful shutdown.
#[derive(Clone, Copy, Debug, PartialEq, Eq, Structural)]
pub enum ShutdownSignal {
    CtrlC,
    Sigterm,
    CtrlBreak,
    CtrlClose,
    CtrlShutdown,
}

/// The step at which a signal failed.
#[derive(Clone, Copy, Debug, PartialEq, Eq, Structural)]
pub enum ShutdownSignalStage {
    Register,
    Receive,
}

/// A signal that could not be registered or waited for.
#[derive(Debug)]
pub struct ShutdownSignalError {
    signal: &'static str,
    stage: ShutdownSignalStage,
    /// The text of what the operating system said.
    source: String,
}

pub open spec fn signal_name(signal: ShutdownSignal) -> Seq<char> {
    match signal {
        ShutdownSignal::CtrlC => "Ctrl-C"@,
        ShutdownSignal::Sigterm => "SIGTERM"@,
        ShutdownSignal::CtrlBreak => "Ctrl-Break"@,
        ShutdownSignal::CtrlClose => "Ctrl-Close"@,
        ShutdownSignal::CtrlShutdown => "Ctrl-Shutdown"@,
    }
}

impl ShutdownSignal {
    pub fn name(self) -> (r: &'static str)
        ensures
            r@ == signal_name(self),
    {
        match self {
            ShutdownSignal::CtrlC => "Ctrl-C",
            ShutdownSignal::Sigterm => "SIGTERM",
            ShutdownSignal::CtrlBreak => "Ctrl-Break",
            ShutdownSignal::CtrlClose => "Ctrl-Close",
            ShutdownSignal::CtrlShutdown => "Ctrl-Shutdown",
        }
    }
}

/// The error of a step: the name of its signal, the step and the cause.
pub open spec fn is_signal_error(
    error: ShutdownSignalError,
    signal: Seq<char>,
    stage: ShutdownSignalStage,
    source: Seq<char>,
) -> bool {
    error.signal_view() == signal && error.stage_view() == stage && error.source_view() == source
}

pub open spec fn stage_action(stage: ShutdownSignalStage) -> Seq<char> {
    match stage {
        ShutdownSignalStage::Register => "registration"@,
        ShutdownSignalStage::Receive => "wait"@,
    }
}

impl ShutdownSignalError {
    pub closed spec fn signal_view(self) -> Seq<char> {
        self.signal@
    }

    pub closed spec fn stage_view(self) -> ShutdownSignalStage {
        self.stage
    }

    pub closed spec fn source_view(self) -> Seq<char> {
        self.source@
    }

    /// A handler that could not be registered.
    pub fn register(signal: &'static str, source: &str) -> (r: ShutdownSignalError)
        ensures
            is_signal_error(r, signal@, ShutdownSignalStage::Register, source@),
    {
        ShutdownSignalError {
            signal,
            stage: ShutdownSignalStage::Register,
            source: source.to_owned(),
        }
    }

    /// A wait that failed.
    pub fn receive(signal: &'static str, source: &str) -> (r: ShutdownSignalError)
        ensures
            is_signal_error(r, signal@, ShutdownSignalStage::Receive, source@),
    {
        ShutdownSignalError {
            signal,
            stage: ShutdownSignalStage::Receive,
            source: source.to_owned(),
        }
    }

    /// The error of a given step.
    pub fn synthetic(signal: &'static str, stage: ShutdownSignalStage, message: &str) -> (r:
        ShutdownSignalError)
        ensures
            is_signal_error(r, signal@, stage, message@),
    {
        match stage {
            ShutdownSignalStage::Register => ShutdownSignalError::register(signal, message),
            ShutdownSignalStage::Receive => ShutdownSignalError::receive(signal, message),
        }
    }

    /// The step that failed.
    pub fn stage(&self) -> (r: ShutdownSignalStage)
        ensures
            r == self.stage_view(),
    {
        self.stage
    }

    /// The text of the error.
    pub fn message(&self) -> (r: String)
        ensures
            r@ == "shutdown signal "@ + stage_action(self.stage_view()) + " failed for "@
                + self.signal_view() + ": "@ + self.source_view(),
    {
        let action: &str = match self.stage {
            ShutdownSignalStage::Register => "registration",
            ShutdownSignalStage::Receive => "wait",
        };
        let head: String = joined(&joined("shutdown signal ", action), " failed for ");
        joined(&joined(&joined(&head, self.signal), ": "), &self.source)
    }
}

/// The signals whose handlers are registered before the wait, in order.
pub open spec fn registered_signals(platform: ShutdownPlatform) -> Seq<ShutdownSignal> {
    match platform {
        ShutdownPlatform::Unix => seq![ShutdownSignal::Sigterm],
        ShutdownPlatform::Windows => seq![
            ShutdownSignal::CtrlC,
            ShutdownSignal::CtrlBreak,
            ShutdownSignal::CtrlClose,
            ShutdownSignal::CtrlShutdown,
        ],
        ShutdownPlatform::Other => Seq::empty(),
    }
}

/// The signals whose handlers are registered before the wait, in order.
pub fn signals_to_register(platform: ShutdownPlatform) -> (r: Vec<ShutdownSignal>)
    ensures
        r@ == registered_signals(platform),
{
    let mut signals: Vec<ShutdownSignal> = Vec::new();
    match platform {
        ShutdownPlatform::Unix => {
            signals.push(ShutdownSignal::Sigterm);
        },
        ShutdownPlatform::Windows => {
            signals.push(ShutdownSignal::CtrlC);
            signals.push(ShutdownSignal::CtrlBreak);
            signals.push(ShutdownSignal::CtrlClose);
            signals.push(ShutdownSignal::CtrlShutdown);
        },
        ShutdownPlatform::Other => {},
    }
    signals
}

/// The first registration that failed is this one.
pub open spec fn is_first_failed(registrations: Seq<Result<(), String>>, index: int) -> bool {
    &&& 0 <= index < registrations.len()
    &&& registrations[index] is Err
    &&& forall|i: int| 0 <= i < index ==> (#[trigger] registrations[i]) is Ok
}

/// Handlers that are installed and can be waited for.
#[derive(Clone, Copy, Debug, PartialEq, Eq, Structural)]
pub struct ShutdownWait {
    pub platform: ShutdownPlatform,
}

/// Installs handlers for the graceful-shutdown signals of a platform, given what
/// became of each registration. The first that failed is the error.
pub fn install_shutdown_signal(
    platform: ShutdownPlatform,
    registrations: &Vec<Result<(), String>>,
) -> (r: Result<ShutdownWait, ShutdownSignalError>)
    requires
        registrations@.len() == registered_signals(platform).len(),
    ensures
        (forall|i: int|
            0 <= i < registrations@.len() ==> (#[trigger] registrations@[i]) is Ok) ==> r == Ok::<
            ShutdownWait,
            ShutdownSignalError,
        >(ShutdownWait { platform }),
        forall|index: int| #[trigger]
            is_first_failed(registrations@, index) ==> {
                &&& r is Err
                &&& is_signal_error(
                    r->Err_0,
                    signal_name(registered_signals(platform)[index]),
                    ShutdownSignalStage::Register,
                    registrations@[index]->Err_0@,
                )
            },
{
    let signals: Vec<ShutdownSignal> = signals_to_register(platform);
    let mut i: usize = 0;
    while i < registrations.len()
        invariant
            i <= registrations@.len(),
            registrations@.len() == registered_signals(platform).len(),
            signals@ == registered_signals(platform),
            forall|k: int| 0 <= k < i ==> (#[trigger] registrations@[k]) is Ok,
        decreases registrations.len() - i,
    {
        match &registrations[i] {
            Err(source) => {
                let error: ShutdownSignalError = ShutdownSignalError::register(
                    signals[i].name(),
                    source,
                );
                assert(forall|index: int| #[trigger]
                    is_first_failed(registrations@, index) ==> index == i);
                return Err(error);
            },
            Ok(()) => {},
        }
        i = i + 1;
    }
    Ok(ShutdownWait { platform })
}

/// What the first signal to answer said.
#[derive(Debug)]
pub enum SignalOutcome {
    Received,
    /// The wait itself failed, with this text.
    Failed(String),
    StreamEnded,
}

impl ShutdownWait {
    /// What the wait comes to, from the first signal to answer.
    pub fn receive(self, signal: ShutdownSignal, outcome: &SignalOutcome) -> (r: Result<
        ShutdownSignal,
        ShutdownSignalError,
    >)
        ensures
            match *outcome {
                SignalOutcome::Received => r == Ok::<ShutdownSignal, ShutdownSignalError>(signal),
                SignalOutcome::Failed(source) => r is Err && is_signal_error(
                    r->Err_0,
                    signal_name(signal),
                    ShutdownSignalStage::Receive,
                    source@,
                ),
                SignalOutcome::StreamEnded => r is Err && is_signal_error(
                    r->Err_0,
                    signal_name(signal),
                    ShutdownSignalStage::Receive,
                    "signal stream ended unexpectedly"@,
                ),
            },
    {
        match outcome {
            SignalOutcome::Received => Ok(signal),
            SignalOutcome::Failed(source) => Err(
                ShutdownSignalError::receive(signal.name(), source),
            ),
            SignalOutcome::StreamEnded => Err(
                ShutdownSignalError::receive(signal.name(), "signal stream ended unexpectedly"),
            ),
        }
    }
}

} // verus!
