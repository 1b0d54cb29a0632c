//! Plain values that describe how a child process, a stream drain and a
//! runner ended.

use vstd::prelude::*;

verus! {

/// One of the two output streams of a child process. A drain forwards the
/// child's stream to the supervisor's stream of the same kind.
#[derive(Clone, Copy, Debug, PartialEq, Eq, Structural)]
pub enum StreamKind {
    Stdout,
    Stderr,
}

/// How a child process ended, as observed when its exit was awaited.
#[derive(Clone, Copy, Debug, PartialEq, Eq, Structural)]
pub enum ChildExit {
    /// The process exited with this code.
    Code(i32),
    /// The process was ended by a signal and left no exit code.
    Signaled,
    /// Waiting for the process failed, so its status is not known.
    Unknown,
}

impl ChildExit {
    /// A clean exit is an exit with code zero.
    pub open spec fn spec_is_success(self) -> bool {
        self == ChildExit::Code(0)
    }

    /// Whether the process exited cleanly.
    #[verifier::when_used_as_spec(spec_is_success)]
    pub fn is_success(self) -> (ok: bool)
        ensures
            ok == self.spec_is_success(),
    {
        match self {
            ChildExit::Code(code) => code == 0,
            _ => false,
        }
    }
}

/// Why a stream drain stopped.
#[derive(Clone, Copy, Debug, PartialEq, Eq, Structural)]
pub enum DrainEnd {
    /// The source reported end of stream; everything read was forwarded.
    EndOfStream,
    /// Reading from the child's stream failed.
    ReadFailed,
    /// Writing to the supervisor's stream failed.
    WriteFailed,
}

/// How a runner's service came to its end.
#[derive(Clone, Copy, Debug, PartialEq, Eq, Structural)]
pub enum Termination {
    /// The command could not be started; there never was a child process.
    SpawnFailed,
    /// The child ended on its own account.
    Exited(ChildExit),
    /// The child ended after the runner had asked it to terminate.
    Killed(ChildExit),
}

/// What a runner reports when it has finished.
#[derive(Clone, Copy, Debug, PartialEq, Eq, Structural)]
pub struct RunnerOutcome {
    /// How the service ended.
    pub termination: Termination,
    /// How the drain of standard output ended; `None` if no child was started.
    pub stdout: Option<DrainEnd>,
    /// How the drain of standard error ended; `None` if no child was started.
    pub stderr: Option<DrainEnd>,
}

impl RunnerOutcome {
    /// A service has failed when its command could not be started or when its
    /// process did not exit cleanly.
    pub open spec fn spec_is_failure(self) -> bool {
        match self.termination {
            Termination::SpawnFailed => true,
            Termination::Exited(exit) => !exit.spec_is_success(),
            Termination::Killed(exit) => !exit.spec_is_success(),
        }
    }

    /// Whether the service failed.
    #[verifier::when_used_as_spec(spec_is_failure)]
    pub fn is_failure(self) -> (failed: bool)
        ensures
            failed == self.spec_is_failure(),
    {
        match self.termination {
            Termination::SpawnFailed => true,
            Termination::Exited(exit) => !exit.is_success(),
            Termination::Killed(exit) => !exit.is_success(),
        }
    }

    /// The service's output is complete when both drains ran to the end of
    /// their streams.
    pub open spec fn spec_output_complete(self) -> bool {
        self.stdout == Some(DrainEnd::EndOfStream) && self.stderr == Some(DrainEnd::EndOfStream)
    }

    /// Whether both drains ran to the end of their streams.
    #[verifier::when_used_as_spec(spec_output_complete)]
    pub fn output_complete(self) -> (complete: bool)
        ensures
            complete == self.spec_output_complete(),
    {
        let out: bool = match self.stdout {
            Some(DrainEnd::EndOfStream) => true,
            _ => false,
        };
        let err: bool = match self.stderr {
            Some(DrainEnd::EndOfStream) => true,
            _ => false,
        };
        out && err
    }
}

} // verus!
