//! The runner of one service and the handle through which it is told to stop.
//!
//! A runner does no I/O. Its owner starts the child process, waits for it and
//! for the two stream drains, and reports each thing that happened as a
//! [`RunnerEvent`]; the runner answers with the [`RunnerAction`] to perform next.

use crate::process::channel::{clone_sender, kill_channel, send_unit};
use crate::process::outcome::{ChildExit, DrainEnd, RunnerOutcome, StreamKind, Termination};
use crate::process::Service;
use tokio::sync::mpsc::{UnboundedReceiver, UnboundedSender};
use vstd::prelude::*;

verus! {

/// Where a runner stands in its life. The phases are passed in this order and
/// never backwards; `Finished` is never left.
#[derive(Clone, Copy, Debug, PartialEq, Eq, Structural)]
pub enum RunnerPhase {
    /// The child process has not been started yet.
    Starting,
    /// The child runs; the runner waits for its exit or for a kill request.
    Running,
    /// The child has exited or has been asked to; the runner waits for what
    /// is still outstanding of the exit and the two drains.
    Terminating,
    /// Nothing is left to wait for.
    Finished,
}

/// Something that happened to a runner's service.
#[derive(Clone, Copy, Debug, PartialEq, Eq, Structural)]
pub enum RunnerEvent {
    /// The child process was started, with its output streams piped.
    Spawned,
    /// The command could not be started.
    SpawnFailed,
    /// The child process ended.
    ChildExited(ChildExit),
    /// A kill request was received from a handle.
    KillRequested,
    /// The drain of one of the child's streams stopped.
    DrainEnded(StreamKind, DrainEnd),
}

/// What the owner of a runner has to do next.
#[derive(Clone, Copy, Debug, PartialEq, Eq, Structural)]
pub enum RunnerAction {
    /// Start the child process and report `Spawned` or `SpawnFailed`.
    Spawn,
    /// Wait for the child's exit and for a kill request at once and report
    /// whichever comes first.
    AwaitExitOrKill,
    /// Ask the child process to terminate, then wait for its exit and report it.
    TerminateChild,
    /// Wait for the child's exit and report it.
    AwaitExit,
    /// Wait for the drain of this stream to stop and report how it ended.
    AwaitDrain(StreamKind),
    /// The runner has finished with this outcome; hand it to whoever waits
    /// for the runner.
    Finish(RunnerOutcome),
    /// The runner finished earlier; there is nothing to do.
    Nothing,
}

/// Everything a runner remembers.
#[derive(Clone, Copy, Debug, PartialEq, Eq, Structural)]
pub struct RunnerState {
    pub phase: RunnerPhase,
    /// A kill request arrived before the child had ended on its own account.
    pub kill_requested: bool,
    /// The command could not be started.
    pub spawn_failed: bool,
    /// How the child ended, once that has been observed.
    pub exit: Option<ChildExit>,
    /// How the drain of standard output ended, once it has.
    pub stdout: Option<DrainEnd>,
    /// How the drain of standard error ended, once it has.
    pub stderr: Option<DrainEnd>,
}

impl RunnerState {
    /// The state of a runner that has just been created.
    pub open spec fn initial() -> RunnerState {
        RunnerState {
            phase: RunnerPhase::Starting,
            kill_requested: false,
            spawn_failed: false,
            exit: None,
            stdout: None,
            stderr: None,
        }
    }

    /// Both drains have stopped.
    pub open spec fn drains_ended(self) -> bool {
        self.stdout is Some && self.stderr is Some
    }

    /// Nothing is outstanding: the child's exit has been observed and both
    /// drains have stopped.
    pub open spec fn settled(self) -> bool {
        self.exit is Some && self.drains_ended()
    }

    /// The states a runner can be in. Every state reached from
    /// [`RunnerState::initial`] is one of them.
    pub open spec fn wf(self) -> bool {
        match self.phase {
            RunnerPhase::Starting => !self.spawn_failed && self.exit is None && self.stdout is None
                && self.stderr is None,
            RunnerPhase::Running => !self.spawn_failed && !self.kill_requested && self.exit is None,
            RunnerPhase::Terminating => !self.spawn_failed && !self.settled() && (
            self.kill_requested || self.exit is Some),
            RunnerPhase::Finished => if self.spawn_failed {
                self.exit is None && self.stdout is None && self.stderr is None
            } else {
                self.settled()
            },
        }
    }

    /// How the service ended, as far as the state tells.
    pub open spec fn termination(self) -> Termination {
        let exit = match self.exit {
            Some(exit) => exit,
            None => ChildExit::Unknown,
        };
        if self.spawn_failed {
            Termination::SpawnFailed
        } else if self.kill_requested {
            Termination::Killed(exit)
        } else {
            Termination::Exited(exit)
        }
    }

    /// The outcome that the runner reports when it finishes in this state.
    pub open spec fn outcome(self) -> RunnerOutcome {
        RunnerOutcome { termination: self.termination(), stdout: self.stdout, stderr: self.stderr }
    }

    /// The state with the end of a drain recorded. The first report for a
    /// stream counts; a later one for the same stream changes nothing.
    pub open spec fn with_drain(self, stream: StreamKind, end: DrainEnd) -> RunnerState {
        match stream {
            StreamKind::Stdout => if self.stdout is None {
                RunnerState { stdout: Some(end), ..self }
            } else {
                self
            },
            StreamKind::Stderr => if self.stderr is None {
                RunnerState { stderr: Some(end), ..self }
            } else {
                self
            },
        }
    }

    /// What a runner in this state is waiting for.
    pub open spec fn awaited(self) -> RunnerAction {
        match self.phase {
            RunnerPhase::Starting => RunnerAction::Spawn,
            RunnerPhase::Running => RunnerAction::AwaitExitOrKill,
            RunnerPhase::Terminating => if self.exit is None {
                RunnerAction::AwaitExit
            } else if self.stderr is None {
                RunnerAction::AwaitDrain(StreamKind::Stderr)
            } else {
                RunnerAction::AwaitDrain(StreamKind::Stdout)
            },
            RunnerPhase::Finished => RunnerAction::Nothing,
        }
    }

    /// A state in which the child has ended or been asked to: it is
    /// `Finished` when nothing is outstanding and `Terminating` otherwise.
    pub open spec fn wind_down(self) -> RunnerState {
        if self.settled() {
            RunnerState { phase: RunnerPhase::Finished, ..self }
        } else {
            RunnerState { phase: RunnerPhase::Terminating, ..self }
        }
    }

    /// The state after an event.
    ///
    /// * `Starting`: `Spawned` leads to `Running`, or straight to
    ///   `Terminating` if a kill request is already waiting; `SpawnFailed`
    ///   leads to `Finished`; a kill request is remembered.
    /// * `Running`: the child's exit and a kill request both lead on to
    ///   `Terminating`; the end of a drain is recorded.
    /// * `Terminating`: the child's exit and the ends of the drains are
    ///   recorded, and with the last of them the runner is `Finished`.
    /// * `Finished`: nothing changes any more.
    ///
    /// An event that makes no sense in a phase changes nothing.
    pub open spec fn next(self, event: RunnerEvent) -> RunnerState {
        match self.phase {
            RunnerPhase::Starting => match event {
                RunnerEvent::Spawned => if self.kill_requested {
                    RunnerState { phase: RunnerPhase::Terminating, ..self }
                } else {
                    RunnerState { phase: RunnerPhase::Running, ..self }
                },
                RunnerEvent::SpawnFailed => RunnerState {
                    phase: RunnerPhase::Finished,
                    spawn_failed: true,
                    ..self
                },
                RunnerEvent::KillRequested => RunnerState { kill_requested: true, ..self },
                _ => self,
            },
            RunnerPhase::Running => match event {
                RunnerEvent::ChildExited(exit) => RunnerState { exit: Some(exit), ..self }.wind_down(),
                RunnerEvent::KillRequested => RunnerState {
                    phase: RunnerPhase::Terminating,
                    kill_requested: true,
                    ..self
                },
                RunnerEvent::DrainEnded(stream, end) => self.with_drain(stream, end),
                _ => self,
            },
            RunnerPhase::Terminating => match event {
                RunnerEvent::ChildExited(exit) => if self.exit is None {
                    RunnerState { exit: Some(exit), ..self }.wind_down()
                } else {
                    self
                },
                RunnerEvent::DrainEnded(stream, end) => self.with_drain(stream, end).wind_down(),
                _ => self,
            },
            RunnerPhase::Finished => self,
        }
    }

    /// Whether the event makes the runner ask its child to terminate: a kill
    /// request while the child runs, or the start of a child for which a kill
    /// request is already waiting.
    pub open spec fn asks_to_terminate(self, event: RunnerEvent) -> bool {
        ||| self.phase == RunnerPhase::Running && event == RunnerEvent::KillRequested
        ||| self.phase == RunnerPhase::Starting && event == RunnerEvent::Spawned
            && self.kill_requested
    }

    /// The answer to an event: the outcome when the event finishes the runner,
    /// `TerminateChild` when it makes the runner stop its child, and otherwise
    /// what the runner waits for afterwards.
    pub open spec fn answer(self, event: RunnerEvent) -> RunnerAction {
        let after = self.next(event);
        if self.phase != RunnerPhase::Finished && after.phase == RunnerPhase::Finished {
            RunnerAction::Finish(after.outcome())
        } else if self.asks_to_terminate(event) {
            RunnerAction::TerminateChild
        } else {
            after.awaited()
        }
    }
}

/// A capability to ask one runner to shut down. Handles can be copied and
/// handed to anyone; each copy addresses the same runner.
pub struct ServiceRunHandle {
    service: Service,
    signal_sender: UnboundedSender<()>,
}

impl ServiceRunHandle {
    /// The descriptor of the service that this handle addresses.
    pub closed spec fn descriptor(&self) -> crate::process::ServiceView {
        self.service@
    }

    /// The service that this handle addresses.
    pub fn service(&self) -> (s: &Service)
        ensures
            s@ == self.descriptor(),
    {
        &self.service
    }

    /// Asks the runner to shut down. The request is only sent, never waited
    /// for, and cannot fail from the caller's point of view: when the runner
    /// has finished already the request is dropped. The handle stays as it
    /// was and can be used again.
    pub fn send_kill(&mut self)
        ensures
            *final(self) == *old(self),
    {
        let _accepted: bool = send_unit(&self.signal_sender);
    }
}

impl Clone for ServiceRunHandle {
    fn clone(&self) -> (h: ServiceRunHandle)
        ensures
            h.descriptor() == self.descriptor(),
    {
        ServiceRunHandle {
            service: self.service.clone(),
            signal_sender: clone_sender(&self.signal_sender),
        }
    }
}

/// Sends a kill request through every handle, in order, and says through how
/// many handles it sent one. The handles stay as they were.
pub fn broadcast_kill(handles: &mut Vec<ServiceRunHandle>) -> (sent: usize)
    ensures
        final(handles)@ == old(handles)@,
        sent == old(handles)@.len(),
{
    let mut sent: usize = 0;
    while sent < handles.len()
        invariant
            handles@ == old(handles)@,
            sent <= handles@.len(),
        decreases handles.len() - sent,
    {
        handles[sent].send_kill();
        sent += 1;
    }
    sent
}

/// The supervision of one service: its descriptor, the sending half of its
/// kill signal, and the state of its life.
pub struct ServiceRunner {
    service: Service,
    signal_sender: UnboundedSender<()>,
    state: RunnerState,
}

impl ServiceRunner {
    #[verifier::type_invariant]
    spec fn well_formed(self) -> bool {
        self.state.wf()
    }

    /// The state of the runner.
    pub closed spec fn state(&self) -> RunnerState {
        self.state
    }

    /// The descriptor of the runner's service.
    pub closed spec fn descriptor(&self) -> crate::process::ServiceView {
        self.service@
    }

    /// Creates the runner of a service, in phase `Starting`, together with
    /// the receiving half of its kill signal. The owner of the runner listens
    /// on that half while the child runs and reports what arrives as
    /// `KillRequested`.
    pub fn new(service: Service) -> (made: (ServiceRunner, UnboundedReceiver<()>))
        ensures
            made.0.state() == RunnerState::initial(),
            made.0.descriptor() == service@,
    {
        let (signal_sender, signal_receiver) = kill_channel();
        let runner = ServiceRunner {
            service,
            signal_sender,
            state: RunnerState {
                phase: RunnerPhase::Starting,
                kill_requested: false,
                spawn_failed: false,
                exit: None,
                stdout: None,
                stderr: None,
            },
        };
        (runner, signal_receiver)
    }

    /// A new handle for this runner.
    pub fn create_handle(&self) -> (h: ServiceRunHandle)
        ensures
            h.descriptor() == self.descriptor(),
    {
        ServiceRunHandle {
            signal_sender: clone_sender(&self.signal_sender),
            service: self.service.clone(),
        }
    }

    /// The service that this runner supervises.
    pub fn service(&self) -> (s: &Service)
        ensures
            s@ == self.descriptor(),
    {
        &self.service
    }

    /// The phase the runner is in.
    pub fn phase(&self) -> (p: RunnerPhase)
        ensures
            p == self.state().phase,
    {
        self.state.phase
    }

    /// Whether the runner has finished.
    pub fn is_finished(&self) -> (done: bool)
        ensures
            done == (self.state().phase == RunnerPhase::Finished),
    {
        self.state.phase == RunnerPhase::Finished
    }

    /// The outcome of the runner: `Some` exactly when it has finished. A
    /// runner that started a child and has finished has seen the child's exit
    /// and the end of both drains.
    pub fn outcome(&self) -> (o: Option<RunnerOutcome>)
        ensures
            self.state().wf(),
            o == if self.state().phase == RunnerPhase::Finished {
                Some(self.state().outcome())
            } else {
                None
            },
    {
        proof {
            use_type_invariant(self);
        }
        if self.state.phase == RunnerPhase::Finished {
            Some(outcome_of(&self.state))
        } else {
            None
        }
    }

    /// What the runner is waiting for: the action to perform when no event
    /// has been answered yet, `Spawn` for a new runner.
    pub fn awaited(&self) -> (a: RunnerAction)
        ensures
            a == self.state().awaited(),
    {
        awaited_of(&self.state)
    }

    /// Takes note of an event and says what to do next.
    pub fn on_event(&mut self, event: RunnerEvent) -> (action: RunnerAction)
        ensures
            final(self).state() == old(self).state().next(event),
            action == old(self).state().answer(event),
            final(self).descriptor() == old(self).descriptor(),
            final(self).state().wf(),
    {
        proof {
            use_type_invariant(&*self);
            lemma_next_keeps_wf(self.state, event);
        }
        let before: RunnerState = self.state;
        let after: RunnerState = next_state(&before, event);
        let was_finished: bool = before.phase == RunnerPhase::Finished;
        let is_finished: bool = after.phase == RunnerPhase::Finished;
        let terminate: bool = match (before.phase, event) {
            (RunnerPhase::Running, RunnerEvent::KillRequested) => true,
            (RunnerPhase::Starting, RunnerEvent::Spawned) => before.kill_requested,
            _ => false,
        };
        self.state = after;
        if !was_finished && is_finished {
            RunnerAction::Finish(outcome_of(&after))
        } else if terminate {
            RunnerAction::TerminateChild
        } else {
            awaited_of(&after)
        }
    }
}

/// The outcome reported for a state.
fn outcome_of(state: &RunnerState) -> (o: RunnerOutcome)
    ensures
        o == state.outcome(),
{
    let exit: ChildExit = match state.exit {
        Some(exit) => exit,
        None => ChildExit::Unknown,
    };
    let termination: Termination = if state.spawn_failed {
        Termination::SpawnFailed
    } else if state.kill_requested {
        Termination::Killed(exit)
    } else {
        Termination::Exited(exit)
    };
    RunnerOutcome { termination, stdout: state.stdout, stderr: state.stderr }
}

/// What a runner in the given state waits for.
fn awaited_of(state: &RunnerState) -> (a: RunnerAction)
    ensures
        a == state.awaited(),
{
    match state.phase {
        RunnerPhase::Starting => RunnerAction::Spawn,
        RunnerPhase::Running => RunnerAction::AwaitExitOrKill,
        RunnerPhase::Terminating => {
            if state.exit.is_none() {
                RunnerAction::AwaitExit
            } else if state.stderr.is_none() {
                RunnerAction::AwaitDrain(StreamKind::Stderr)
            } else {
                RunnerAction::AwaitDrain(StreamKind::Stdout)
            }
        },
        RunnerPhase::Finished => RunnerAction::Nothing,
    }
}

/// Moves a state in which the child has ended or been asked to into
/// `Finished` or `Terminating`.
fn wind_down(state: RunnerState) -> (s: RunnerState)
    ensures
        s == state.wind_down(),
{
    let mut s: RunnerState = state;
    if s.exit.is_some() && s.stdout.is_some() && s.stderr.is_some() {
        s.phase = RunnerPhase::Finished;
    } else {
        s.phase = RunnerPhase::Terminating;
    }
    s
}

/// Records the end of a drain unless one is recorded for that stream already.
fn record_drain(state: RunnerState, stream: StreamKind, end: DrainEnd) -> (s: RunnerState)
    ensures
        s == state.with_drain(stream, end),
{
    let mut s: RunnerState = state;
    match stream {
        StreamKind::Stdout => {
            if s.stdout.is_none() {
                s.stdout = Some(end);
            }
        },
        StreamKind::Stderr => {
            if s.stderr.is_none() {
                s.stderr = Some(end);
            }
        },
    }
    s
}

/// The state after an event.
fn next_state(state: &RunnerState, event: RunnerEvent) -> (s: RunnerState)
    ensures
        s == state.next(event),
{
    let mut s: RunnerState = *state;
    match state.phase {
        RunnerPhase::Starting => match event {
            RunnerEvent::Spawned => {
                if s.kill_requested {
                    s.phase = RunnerPhase::Terminating;
                } else {
                    s.phase = RunnerPhase::Running;
                }
            },
            RunnerEvent::SpawnFailed => {
                s.phase = RunnerPhase::Finished;
                s.spawn_failed = true;
            },
            RunnerEvent::KillRequested => {
                s.kill_requested = true;
            },
            _ => {},
        },
        RunnerPhase::Running => match event {
            RunnerEvent::ChildExited(exit) => {
                s.exit = Some(exit);
                s = wind_down(s);
            },
            RunnerEvent::KillRequested => {
                s.phase = RunnerPhase::Terminating;
                s.kill_requested = true;
            },
            RunnerEvent::DrainEnded(stream, end) => {
                s = record_drain(s, stream, end);
            },
            _ => {},
        },
        RunnerPhase::Terminating => match event {
            RunnerEvent::ChildExited(exit) => {
                if s.exit.is_none() {
                    s.exit = Some(exit);
                    s = wind_down(s);
                }
            },
            RunnerEvent::DrainEnded(stream, end) => {
                s = wind_down(record_drain(s, stream, end));
            },
            _ => {},
        },
        RunnerPhase::Finished => {},
    }
    s
}

/// No event leads out of the states a runner can be in.
pub proof fn lemma_next_keeps_wf(state: RunnerState, event: RunnerEvent)
    requires
        state.wf(),
    ensures
        state.next(event).wf(),
{
}

} // verus!
