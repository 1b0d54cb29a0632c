//! The drain of one output stream of a child process.
//!
//! A drain copies what the child writes to one of its streams to the
//! supervisor's stream of the same kind, in the order received, until the
//! child's stream ends. The drain itself reads and writes nothing: its owner
//! reports each read and each write as a [`DrainEvent`] and is told by a
//! [`DrainAction`] what to do next. A failed read or write stops the drain;
//! nothing is tried twice.

use crate::process::outcome::{DrainEnd, StreamKind};
use vstd::prelude::*;

verus! {

/// What a drain is busy with.
#[derive(Clone, Copy, Debug, PartialEq, Eq, Structural)]
pub enum DrainPhase {
    /// The drain waits for the next read from the child's stream.
    Reading,
    /// The drain waits for the last chunk read to be written.
    Writing,
    /// The drain has stopped.
    Stopped(DrainEnd),
}

/// Something that happened to a drain.
#[derive(Clone, Debug, PartialEq, Eq)]
pub enum DrainEvent {
    /// A read from the child's stream returned these bytes. No bytes at all
    /// mean that the stream has ended.
    Read(Vec<u8>),
    /// A read from the child's stream failed.
    ReadFailed,
    /// The chunk handed out last was written in full.
    Written,
    /// Writing the chunk handed out last failed.
    WriteFailed,
}

/// What the owner of a drain has to do next.
#[derive(Clone, Debug, PartialEq, Eq)]
pub enum DrainAction {
    /// Read from the child's stream and report `Read` or `ReadFailed`.
    Read,
    /// Write all of `bytes` to the supervisor's stream `to` and report
    /// `Written` or `WriteFailed`.
    Write { to: StreamKind, bytes: Vec<u8> },
    /// The drain has stopped for the given reason.
    Stop(DrainEnd),
}

/// What a [`DrainAction`] stands for in contracts.
pub enum DrainStep {
    Read,
    Write { to: StreamKind, bytes: Seq<u8> },
    Stop(DrainEnd),
}

impl View for DrainAction {
    type V = DrainStep;

    open spec fn view(&self) -> DrainStep {
        match *self {
            DrainAction::Read => DrainStep::Read,
            DrainAction::Write { to, bytes } => DrainStep::Write { to, bytes: bytes@ },
            DrainAction::Stop(end) => DrainStep::Stop(end),
        }
    }
}

/// The state of a drain together with its history.
pub struct DrainState {
    /// The child's stream that is drained, which is also the supervisor's
    /// stream that is written to.
    pub stream: StreamKind,
    pub phase: DrainPhase,
    /// The chunk that was read last and is not known to be written yet.
    pub pending: Seq<u8>,
    /// All bytes read from the child's stream so far, in order.
    pub received: Seq<u8>,
    /// All bytes known to be written to the supervisor's stream, in order.
    pub forwarded: Seq<u8>,
}

impl DrainState {
    /// The state of a new drain of the given stream.
    pub open spec fn initial(stream: StreamKind) -> DrainState {
        DrainState {
            stream,
            phase: DrainPhase::Reading,
            pending: Seq::empty(),
            received: Seq::empty(),
            forwarded: Seq::empty(),
        }
    }

    /// The states a drain can be in: what was read is what was written
    /// followed by the chunk in flight, and a chunk is in flight exactly
    /// while it is being written or after its write has failed.
    pub open spec fn wf(self) -> bool {
        &&& self.received == self.forwarded + self.pending
        &&& match self.phase {
            DrainPhase::Writing => self.pending.len() > 0,
            DrainPhase::Stopped(DrainEnd::WriteFailed) => self.pending.len() > 0,
            _ => self.pending.len() == 0,
        }
    }

    /// The state after an event.
    ///
    /// * `Reading`: a chunk that was read is taken in and is to be written; an
    ///   empty chunk ends the drain with `EndOfStream`, a failed read with
    ///   `ReadFailed`.
    /// * `Writing`: once the chunk is written the drain reads on; a failed
    ///   write ends it with `WriteFailed`.
    /// * `Stopped`: nothing changes any more.
    ///
    /// An event that makes no sense in a phase changes nothing.
    pub open spec fn next(self, event: DrainEvent) -> DrainState {
        match self.phase {
            DrainPhase::Reading => match event {
                DrainEvent::Read(chunk) => if chunk@.len() == 0 {
                    DrainState { phase: DrainPhase::Stopped(DrainEnd::EndOfStream), ..self }
                } else {
                    DrainState {
                        phase: DrainPhase::Writing,
                        pending: chunk@,
                        received: self.received + chunk@,
                        ..self
                    }
                },
                DrainEvent::ReadFailed => DrainState {
                    phase: DrainPhase::Stopped(DrainEnd::ReadFailed),
                    ..self
                },
                _ => self,
            },
            DrainPhase::Writing => match event {
                DrainEvent::Written => DrainState {
                    phase: DrainPhase::Reading,
                    pending: Seq::empty(),
                    forwarded: self.forwarded + self.pending,
                    ..self
                },
                DrainEvent::WriteFailed => DrainState {
                    phase: DrainPhase::Stopped(DrainEnd::WriteFailed),
                    ..self
                },
                _ => self,
            },
            DrainPhase::Stopped(_) => self,
        }
    }

    /// What a drain in this state is waiting for. A chunk is written as it
    /// was read, to the supervisor's stream of the same kind as the child's.
    pub open spec fn awaited(self) -> DrainStep {
        match self.phase {
            DrainPhase::Reading => DrainStep::Read,
            DrainPhase::Writing => DrainStep::Write { to: self.stream, bytes: self.pending },
            DrainPhase::Stopped(end) => DrainStep::Stop(end),
        }
    }

    /// The answer to an event: what the drain waits for afterwards.
    pub open spec fn answer(self, event: DrainEvent) -> DrainStep {
        self.next(event).awaited()
    }
}

/// The drain of one stream. Only its phase and the chunk in flight exist at
/// run time; the history of what was read and written is kept for the
/// contracts alone.
pub struct StreamDrain {
    stream: StreamKind,
    phase: DrainPhase,
    pending: Vec<u8>,
    received: Ghost<Seq<u8>>,
    forwarded: Ghost<Seq<u8>>,
}

impl View for StreamDrain {
    type V = DrainState;

    closed spec fn view(&self) -> DrainState {
        DrainState {
            stream: self.stream,
            phase: self.phase,
            pending: self.pending@,
            received: self.received@,
            forwarded: self.forwarded@,
        }
    }
}

impl StreamDrain {
    #[verifier::type_invariant]
    spec fn well_formed(self) -> bool {
        self@.wf()
    }

    /// A drain of the given stream that has read nothing yet.
    pub fn new(stream: StreamKind) -> (drain: StreamDrain)
        ensures
            drain@ == DrainState::initial(stream),
    {
        StreamDrain {
            stream,
            phase: DrainPhase::Reading,
            pending: Vec::new(),
            received: Ghost(Seq::empty()),
            forwarded: Ghost(Seq::empty()),
        }
    }

    /// The stream that is drained.
    pub fn stream(&self) -> (s: StreamKind)
        ensures
            s == self@.stream,
    {
        self.stream
    }

    /// What the drain is busy with.
    pub fn phase(&self) -> (p: DrainPhase)
        ensures
            p == self@.phase,
    {
        self.phase
    }

    /// Why the drain stopped: `Some` exactly when it has. A drain that
    /// stopped at the end of the stream has written every byte it read, once
    /// and in order.
    pub fn end(&self) -> (e: Option<DrainEnd>)
        ensures
            self@.wf(),
            e == match self@.phase {
                DrainPhase::Stopped(end) => Some(end),
                _ => None::<DrainEnd>,
            },
            e == Some(DrainEnd::EndOfStream) ==> self@.forwarded == self@.received,
    {
        proof {
            use_type_invariant(self);
        }
        match self.phase {
            DrainPhase::Stopped(end) => Some(end),
            _ => None,
        }
    }

    /// What the drain is waiting for: the action to perform when no event
    /// has been answered yet, `Read` for a new drain.
    pub fn awaited(&self) -> (action: DrainAction)
        ensures
            action@ == self@.awaited(),
    {
        match self.phase {
            DrainPhase::Reading => DrainAction::Read,
            DrainPhase::Writing => DrainAction::Write {
                to: self.stream,
                bytes: self.pending.clone(),
            },
            DrainPhase::Stopped(end) => DrainAction::Stop(end),
        }
    }

    /// Takes note of an event and says what to do next.
    pub fn on_event(&mut self, event: DrainEvent) -> (action: DrainAction)
        ensures
            final(self)@ == old(self)@.next(event),
            action@ == old(self)@.answer(event),
            final(self)@.wf(),
    {
        proof {
            use_type_invariant(&*self);
            lemma_next_keeps_wf(self@, event);
        }
        let stream: StreamKind = self.stream;
        let received: Ghost<Seq<u8>> = self.received;
        let forwarded: Ghost<Seq<u8>> = self.forwarded;
        match self.phase {
            DrainPhase::Reading => match event {
                DrainEvent::Read(chunk) => {
                    if chunk.len() == 0 {
                        self.phase = DrainPhase::Stopped(DrainEnd::EndOfStream);
                    } else {
                        *self = StreamDrain {
                            stream,
                            phase: DrainPhase::Writing,
                            received: Ghost(received@ + chunk@),
                            pending: chunk,
                            forwarded,
                        };
                    }
                },
                DrainEvent::ReadFailed => {
                    self.phase = DrainPhase::Stopped(DrainEnd::ReadFailed);
                },
                _ => {},
            },
            DrainPhase::Writing => match event {
                DrainEvent::Written => {
                    *self = StreamDrain {
                        stream,
                        phase: DrainPhase::Reading,
                        received,
                        forwarded: Ghost(forwarded@ + self.pending@),
                        pending: Vec::new(),
                    };
                },
                DrainEvent::WriteFailed => {
                    self.phase = DrainPhase::Stopped(DrainEnd::WriteFailed);
                },
                _ => {},
            },
            DrainPhase::Stopped(_) => {},
        }
        self.awaited()
    }
}

/// No event leads out of the states a drain can be in.
pub proof fn lemma_next_keeps_wf(state: DrainState, event: DrainEvent)
    requires
        state.wf(),
    ensures
        state.next(event).wf(),
{
    let after = state.next(event);
    assert(after.received =~= after.forwarded + after.pending);
}

} // verus!
