//! What holds of every sequence of events.
//!
//! The state machines of this crate are defined one event at a time. The
//! proofs here follow them along whole histories: whatever the order in which
//! things happen, a runner finishes once and only after its drains, a child is
//! asked to terminate at most once, a drain loses and repeats nothing, and a
//! supervision ends for exactly one reason after every runner has finished.

use crate::process::drain::{DrainEvent, DrainPhase, DrainState, DrainStep};
use crate::process::orchestrator::{
    count_finished, lemma_count_finished_bounds, lemma_count_finished_update, OrchestratorEvent,
    Supervision, Trigger,
};
use crate::process::outcome::{DrainEnd, RunnerOutcome, StreamKind, Termination};
use crate::process::service::{RunnerAction, RunnerEvent, RunnerPhase, RunnerState};
use vstd::prelude::*;

verus! {

/// The state of a runner after a sequence of events.
pub open spec fn runner_after(start: RunnerState, events: Seq<RunnerEvent>) -> RunnerState
    decreases events.len(),
{
    if events.len() == 0 {
        start
    } else {
        runner_after(start, events.drop_last()).next(events.last())
    }
}

/// How often, along a sequence of events, a runner asks its child to terminate.
pub open spec fn terminations_asked(start: RunnerState, events: Seq<RunnerEvent>) -> nat
    decreases events.len(),
{
    if events.len() == 0 {
        0
    } else {
        terminations_asked(start, events.drop_last()) + if runner_after(
            start,
            events.drop_last(),
        ).answer(events.last()) == RunnerAction::TerminateChild {
            1nat
        } else {
            0nat
        }
    }
}

/// How often, along a sequence of events, a runner reports that it has finished.
pub open spec fn finishes_reported(start: RunnerState, events: Seq<RunnerEvent>) -> nat
    decreases events.len(),
{
    if events.len() == 0 {
        0
    } else {
        finishes_reported(start, events.drop_last()) + if runner_after(
            start,
            events.drop_last(),
        ).answer(events.last()) is Finish {
            1nat
        } else {
            0nat
        }
    }
}

/// The place of a phase in the order in which the phases are passed.
pub open spec fn phase_rank(phase: RunnerPhase) -> nat {
    match phase {
        RunnerPhase::Starting => 0,
        RunnerPhase::Running => 1,
        RunnerPhase::Terminating => 2,
        RunnerPhase::Finished => 3,
    }
}

/// The runner has asked its child to terminate.
pub open spec fn kill_issued(state: RunnerState) -> bool {
    state.kill_requested && !state.spawn_failed && (state.phase == RunnerPhase::Terminating
        || state.phase == RunnerPhase::Finished)
}

/// Whatever happens, a runner stays in one of the states described by
/// [`RunnerState::wf`].
pub proof fn lemma_runner_stays_wf(start: RunnerState, events: Seq<RunnerEvent>)
    requires
        start.wf(),
    ensures
        runner_after(start, events).wf(),
    decreases events.len(),
{
    if events.len() > 0 {
        lemma_runner_stays_wf(start, events.drop_last());
    }
}

/// A runner never goes back to an earlier phase.
pub proof fn lemma_phases_in_order(start: RunnerState, events: Seq<RunnerEvent>)
    ensures
        phase_rank(start.phase) <= phase_rank(runner_after(start, events).phase),
    decreases events.len(),
{
    if events.len() > 0 {
        lemma_phases_in_order(start, events.drop_last());
    }
}

/// A runner that has finished ignores every event: its state stays as it is
/// and it asks for nothing. In particular a kill request that reaches a
/// finished runner has no effect.
pub proof fn lemma_finished_is_final(state: RunnerState, event: RunnerEvent)
    requires
        state.phase == RunnerPhase::Finished,
    ensures
        state.next(event) == state,
        state.answer(event) == RunnerAction::Nothing,
{
}

/// A runner that has finished stays as it is through any sequence of events,
/// and so does the outcome it has reported.
pub proof fn lemma_finished_stays(state: RunnerState, events: Seq<RunnerEvent>)
    requires
        state.phase == RunnerPhase::Finished,
    ensures
        runner_after(state, events) == state,
        finishes_reported(state, events) == 0,
        terminations_asked(state, events) == 0,
    decreases events.len(),
{
    if events.len() > 0 {
        lemma_finished_stays(state, events.drop_last());
    }
}

/// A runner that has finished after starting a child has seen the child's
/// exit and the end of both drains, and its service ended in exactly one of
/// two ways: on its own account or on request.
pub proof fn lemma_finished_after_exit_and_drains(events: Seq<RunnerEvent>)
    requires
        runner_after(RunnerState::initial(), events).phase == RunnerPhase::Finished,
    ensures
        ({
            let state = runner_after(RunnerState::initial(), events);
            if state.spawn_failed {
                state.outcome() == (RunnerOutcome {
                    termination: Termination::SpawnFailed,
                    stdout: None,
                    stderr: None,
                })
            } else {
                &&& state.exit is Some
                &&& state.outcome().stdout is Some
                &&& state.outcome().stderr is Some
                &&& state.outcome().termination == if state.kill_requested {
                    Termination::Killed(state.exit->0)
                } else {
                    Termination::Exited(state.exit->0)
                }
            }
        }),
{
    lemma_runner_stays_wf(RunnerState::initial(), events);
}

/// Along any sequence of events a runner asks its child to terminate once if
/// a kill request reached it while the child was there, and never otherwise.
pub proof fn lemma_terminates_child_once(start: RunnerState, events: Seq<RunnerEvent>)
    requires
        start.wf(),
    ensures
        terminations_asked(start, events) + (if kill_issued(start) {
            1nat
        } else {
            0nat
        }) == (if kill_issued(runner_after(start, events)) {
            1nat
        } else {
            0nat
        }),
    decreases events.len(),
{
    if events.len() > 0 {
        lemma_terminates_child_once(start, events.drop_last());
        lemma_runner_stays_wf(start, events.drop_last());
    }
}

/// A kill request is not missed. One that reaches a runner whose child runs
/// makes the runner ask the child to terminate at once; one that reaches a
/// runner before its child is started is acted on as soon as the child is
/// there.
pub proof fn lemma_kill_request_not_missed(state: RunnerState)
    requires
        state.wf(),
    ensures
        state.phase == RunnerPhase::Running ==> state.answer(RunnerEvent::KillRequested)
            == RunnerAction::TerminateChild && state.next(RunnerEvent::KillRequested).phase
            == RunnerPhase::Terminating,
        state.phase == RunnerPhase::Starting ==> state.next(RunnerEvent::KillRequested).answer(
            RunnerEvent::Spawned,
        ) == RunnerAction::TerminateChild,
{
}

/// A new runner asks its child to terminate at most once, however many kill
/// requests arrive.
pub proof fn lemma_no_second_termination(events: Seq<RunnerEvent>)
    ensures
        terminations_asked(RunnerState::initial(), events) <= 1,
{
    lemma_terminates_child_once(RunnerState::initial(), events);
}

/// Along any sequence of events a runner reports that it has finished exactly
/// once if it ends up finished, and never otherwise.
pub proof fn lemma_finishes_once(start: RunnerState, events: Seq<RunnerEvent>)
    requires
        start.wf(),
    ensures
        finishes_reported(start, events) + (if start.phase == RunnerPhase::Finished {
            1nat
        } else {
            0nat
        }) == (if runner_after(start, events).phase == RunnerPhase::Finished {
            1nat
        } else {
            0nat
        }),
    decreases events.len(),
{
    if events.len() > 0 {
        lemma_finishes_once(start, events.drop_last());
        lemma_runner_stays_wf(start, events.drop_last());
    }
}

/// The answer that reports the end of a runner carries the outcome of the
/// state the runner is left in.
pub proof fn lemma_finish_carries_outcome(state: RunnerState, event: RunnerEvent)
    requires
        state.answer(event) is Finish,
    ensures
        state.next(event).phase == RunnerPhase::Finished,
        state.answer(event) == RunnerAction::Finish(state.next(event).outcome()),
{
}

/// The state of a drain after a sequence of events.
pub open spec fn drain_after(start: DrainState, events: Seq<DrainEvent>) -> DrainState
    decreases events.len(),
{
    if events.len() == 0 {
        start
    } else {
        drain_after(start, events.drop_last()).next(events.last())
    }
}

/// `front` is the beginning of `whole`.
pub open spec fn begins(whole: Seq<u8>, front: Seq<u8>) -> bool {
    front.len() <= whole.len() && whole.subrange(0, front.len() as int) == front
}

/// Whatever happens, a drain stays in one of the states described by
/// [`DrainState::wf`].
pub proof fn lemma_drain_stays_wf(start: DrainState, events: Seq<DrainEvent>)
    requires
        start.wf(),
    ensures
        drain_after(start, events).wf(),
    decreases events.len(),
{
    if events.len() > 0 {
        lemma_drain_stays_wf(start, events.drop_last());
        crate::process::drain::lemma_next_keeps_wf(
            drain_after(start, events.drop_last()),
            events.last(),
        );
    }
}

/// An event only ever adds to what a drain has read and to what it has
/// written, at the end: nothing read or written earlier is changed, dropped
/// or moved.
pub proof fn lemma_drain_only_appends(state: DrainState, event: DrainEvent)
    ensures
        begins(state.next(event).received, state.received),
        begins(state.next(event).forwarded, state.forwarded),
        state.next(event).stream == state.stream,
{
    let after = state.next(event);
    assert(after.received.subrange(0, state.received.len() as int) =~= state.received);
    assert(after.forwarded.subrange(0, state.forwarded.len() as int) =~= state.forwarded);
}

/// What a drain has written is always the beginning of what it has read: no
/// byte is written that was not read, none twice, none out of order.
pub proof fn lemma_forwarded_begins_received(stream: StreamKind, events: Seq<DrainEvent>)
    ensures
        begins(
            drain_after(DrainState::initial(stream), events).received,
            drain_after(DrainState::initial(stream), events).forwarded,
        ),
{
    let state = drain_after(DrainState::initial(stream), events);
    assert(DrainState::initial(stream).received =~= DrainState::initial(stream).forwarded
        + DrainState::initial(stream).pending);
    lemma_drain_stays_wf(DrainState::initial(stream), events);
    assert(state.received.subrange(0, state.forwarded.len() as int) =~= state.forwarded);
}

/// A drain that stopped at the end of its stream has written every byte it
/// read, once and in order.
pub proof fn lemma_drained_to_the_end(stream: StreamKind, events: Seq<DrainEvent>)
    requires
        drain_after(DrainState::initial(stream), events).phase == DrainPhase::Stopped(
            DrainEnd::EndOfStream,
        ),
    ensures
        drain_after(DrainState::initial(stream), events).forwarded == drain_after(
            DrainState::initial(stream),
            events,
        ).received,
{
    let state = drain_after(DrainState::initial(stream), events);
    assert(DrainState::initial(stream).received =~= DrainState::initial(stream).forwarded
        + DrainState::initial(stream).pending);
    lemma_drain_stays_wf(DrainState::initial(stream), events);
    assert(state.received =~= state.forwarded);
}

/// A chunk that was read is handed out for writing unchanged, and it goes to
/// the supervisor's stream of the same kind as the child's stream.
pub proof fn lemma_chunk_written_as_read(state: DrainState, chunk: Vec<u8>)
    requires
        state.phase == DrainPhase::Reading,
        chunk@.len() > 0,
    ensures
        state.answer(DrainEvent::Read(chunk)) == (DrainStep::Write {
            to: state.stream,
            bytes: chunk@,
        }),
{
}

/// A drain that has stopped ignores every event.
pub proof fn lemma_stopped_is_final(state: DrainState, event: DrainEvent)
    requires
        state.phase is Stopped,
    ensures
        state.next(event) == state,
        state.answer(event) == DrainStep::Stop(state.phase->0),
{
}

/// How a drain ended, if it has.
pub open spec fn drain_end(state: DrainState) -> Option<DrainEnd> {
    match state.phase {
        DrainPhase::Stopped(end) => Some(end),
        _ => None,
    }
}

/// The end recorded by a runner for a stream.
pub open spec fn recorded_end(state: RunnerState, stream: StreamKind) -> Option<DrainEnd> {
    match stream {
        StreamKind::Stdout => state.stdout,
        StreamKind::Stderr => state.stderr,
    }
}

/// No output is lost before a runner finishes. Take a runner that started a
/// child and has finished, and the drain of one of the child's streams, and
/// let the end recorded by the runner for that stream be the end the drain
/// has come to. Then the drain has stopped; and if the runner's outcome says
/// that the stream was drained to its end, every byte read from the child was
/// written to the supervisor's stream of that kind, once and in order.
pub proof fn lemma_output_forwarded_before_finish(
    runner_events: Seq<RunnerEvent>,
    stream: StreamKind,
    drain_events: Seq<DrainEvent>,
)
    requires
        runner_after(RunnerState::initial(), runner_events).phase == RunnerPhase::Finished,
        !runner_after(RunnerState::initial(), runner_events).spawn_failed,
        recorded_end(runner_after(RunnerState::initial(), runner_events), stream) == drain_end(
            drain_after(DrainState::initial(stream), drain_events),
        ),
    ensures
        drain_after(DrainState::initial(stream), drain_events).phase is Stopped,
        drain_after(DrainState::initial(stream), drain_events).stream == stream,
        recorded_end(runner_after(RunnerState::initial(), runner_events), stream) == Some(
            DrainEnd::EndOfStream,
        ) ==> drain_after(DrainState::initial(stream), drain_events).forwarded == drain_after(
            DrainState::initial(stream),
            drain_events,
        ).received,
{
    lemma_runner_stays_wf(RunnerState::initial(), runner_events);
    lemma_drain_keeps_stream(DrainState::initial(stream), drain_events);
    let drain = drain_after(DrainState::initial(stream), drain_events);
    if drain.phase == DrainPhase::Stopped(DrainEnd::EndOfStream) {
        lemma_drained_to_the_end(stream, drain_events);
    }
}

/// A drain serves the same stream all its life.
pub proof fn lemma_drain_keeps_stream(start: DrainState, events: Seq<DrainEvent>)
    ensures
        drain_after(start, events).stream == start.stream,
    decreases events.len(),
{
    if events.len() > 0 {
        lemma_drain_keeps_stream(start, events.drop_last());
    }
}

/// The state of a supervision after a sequence of events.
pub open spec fn supervision_after(start: Supervision, events: Seq<OrchestratorEvent>) -> Supervision
    decreases events.len(),
{
    if events.len() == 0 {
        start
    } else {
        supervision_after(start, events.drop_last()).next(events.last())
    }
}

/// The number of kill requests sent over a sequence of events.
pub open spec fn kills_sent(start: Supervision, events: Seq<OrchestratorEvent>) -> nat
    decreases events.len(),
{
    if events.len() == 0 {
        0
    } else {
        kills_sent(start, events.drop_last()) + supervision_after(
            start,
            events.drop_last(),
        ).decision(events.last()).kills_sent
    }
}

/// The number of reports given over a sequence of events.
pub open spec fn reports_given(start: Supervision, events: Seq<OrchestratorEvent>) -> nat
    decreases events.len(),
{
    if events.len() == 0 {
        0
    } else {
        reports_given(start, events.drop_last()) + if supervision_after(
            start,
            events.drop_last(),
        ).decision(events.last()).report is Some {
            1nat
        } else {
            0nat
        }
    }
}

/// Whatever happens, a supervision stays in one of the states described by
/// [`Supervision::wf`], and the number of its services stays what it was.
pub proof fn lemma_supervision_stays_wf(start: Supervision, events: Seq<OrchestratorEvent>)
    requires
        start.wf(),
    ensures
        supervision_after(start, events).wf(),
        supervision_after(start, events).size() == start.size(),
    decreases events.len(),
{
    if events.len() > 0 {
        lemma_supervision_stays_wf(start, events.drop_last());
    }
}

/// A supervision is started with one runner for each service, none of which
/// has finished, and nothing that set a shutdown off.
pub proof fn lemma_one_runner_per_service(n: nat)
    ensures
        Supervision::initial(n).size() == n,
        Supervision::initial(n).wf(),
        Supervision::initial(n).trigger is None,
        count_finished(Supervision::initial(n).outcomes) == 0,
        forall|i: int| 0 <= i < n ==> Supervision::initial(n).running(i),
{
    lemma_count_finished_bounds(Supervision::initial(n).outcomes);
}

/// Each runner is counted as finished once: the event that reports a running
/// runner as finished raises the number of finished runners by one and
/// records its outcome, and a later report for the same runner changes
/// nothing and is answered with nothing.
pub proof fn lemma_runner_finishes_once(
    state: Supervision,
    index: usize,
    outcome: RunnerOutcome,
    again: RunnerOutcome,
)
    requires
        state.running(index as int),
    ensures
        ({
            let first = OrchestratorEvent::RunnerFinished { index, outcome };
            let second = OrchestratorEvent::RunnerFinished { index, outcome: again };
            let after = state.next(first);
            &&& count_finished(after.outcomes) == count_finished(state.outcomes) + 1
            &&& after.outcomes[index as int] == Some(outcome)
            &&& forall|i: int|
                0 <= i < state.size() && i != index ==> after.outcomes[i] == state.outcomes[i]
            &&& after.next(second) == after
            &&& after.decision(second).kills_sent == 0
            &&& after.decision(second).report is None
        }),
{
    lemma_count_finished_update(state.outcomes, index as int, outcome);
}

/// When a service ends while nothing has set a shutdown off yet, a kill
/// request goes to every service, the service that ended included, and that
/// service with its outcome becomes the trigger. The report is not given with
/// this event unless the service was the only one.
pub proof fn lemma_first_exit_reaches_all(state: Supervision, index: usize, outcome: RunnerOutcome)
    requires
        state.wf(),
        state.trigger is None,
        state.running(index as int),
    ensures
        ({
            let event = OrchestratorEvent::RunnerFinished { index, outcome };
            &&& state.decision(event).kills_sent == state.size()
            &&& state.next(event).trigger == Some(Trigger::ServiceFinished { index, outcome })
            &&& state.decision(event).report is Some <==> state.size() == 1
        }),
{
    let event = OrchestratorEvent::RunnerFinished { index, outcome };
    let after = state.next(event);
    assert(state.outcomes[index as int] is None);
    if state.size() == 1 {
        assert(after.complete());
    } else {
        let other = if index == 0 {
            1int
        } else {
            0int
        };
        assert(after.outcomes[other] is None);
    }
}

/// An interrupt that arrives before any service has ended is answered like
/// the end of a service: a kill request goes to every service.
pub proof fn lemma_interrupt_acts_as_exit(state: Supervision, index: usize, outcome: RunnerOutcome)
    requires
        state.wf(),
        state.trigger is None,
        state.running(index as int),
    ensures
        state.decision(OrchestratorEvent::Interrupt).kills_sent == state.size(),
        state.decision(OrchestratorEvent::Interrupt).kills_sent == state.decision(
            OrchestratorEvent::RunnerFinished { index, outcome },
        ).kills_sent,
        state.next(OrchestratorEvent::Interrupt).trigger == Some(Trigger::Interrupt),
        state.next(OrchestratorEvent::Interrupt).outcomes == state.outcomes,
{
}

/// Once something has set the shutdown off it remains the trigger: whatever
/// happens later, no more kill requests are sent and the trigger stays.
pub proof fn lemma_trigger_stays(state: Supervision, event: OrchestratorEvent)
    requires
        state.trigger is Some,
    ensures
        state.next(event).trigger == state.trigger,
        state.decision(event).kills_sent == 0,
{
}

/// The report is given only with the event that lets the last runner finish,
/// and it holds the outcome of every runner and the trigger.
pub proof fn lemma_report_when_all_finished(state: Supervision, event: OrchestratorEvent)
    requires
        state.wf(),
        state.decision(event).report is Some,
    ensures
        event is RunnerFinished,
        state.next(event).complete(),
        !state.complete(),
        ({
            let report = state.decision(event).report->0;
            let after = state.next(event);
            &&& report.trigger is Some
            &&& report.trigger == after.trigger
            &&& report.outcomes.len() == state.size()
            &&& forall|i: int|
                0 <= i < state.size() ==> after.outcomes[i] == Some(#[trigger] report.outcomes[i])
        }),
{
    let after = state.next(event);
    let report = state.decision(event).report->0;
    assert(after.complete());
    assert forall|i: int| 0 <= i < state.size() implies after.outcomes[i] == Some(
        #[trigger] report.outcomes[i],
    ) by {
        assert(after.outcomes[i] is Some);
    }
    if state.trigger is None {
        let k = choose|k: int| 0 <= k < state.outcomes.len() && !((#[trigger] state.outcomes[k]) is Some);
        assert(state.outcomes[k] is None);
    }
}

/// Over any sequence of events the kill requests go out at most once, to
/// every service, and they have gone out exactly when something has set the
/// shutdown off.
pub proof fn lemma_one_broadcast(n: nat, events: Seq<OrchestratorEvent>)
    ensures
        kills_sent(Supervision::initial(n), events) == if supervision_after(
            Supervision::initial(n),
            events,
        ).trigger is Some {
            n
        } else {
            0
        },
    decreases events.len(),
{
    if events.len() > 0 {
        lemma_one_broadcast(n, events.drop_last());
        lemma_one_runner_per_service(n);
        lemma_supervision_stays_wf(Supervision::initial(n), events.drop_last());
    }
}

/// Over any sequence of events the report is given at most once, and it has
/// been given exactly when there are services and all their runners have
/// finished.
pub proof fn lemma_one_report(n: nat, events: Seq<OrchestratorEvent>)
    ensures
        reports_given(Supervision::initial(n), events) == if n > 0 && supervision_after(
            Supervision::initial(n),
            events,
        ).complete() {
            1nat
        } else {
            0nat
        },
    decreases events.len(),
{
    let start = Supervision::initial(n);
    lemma_one_runner_per_service(n);
    if events.len() == 0 {
        if n > 0 {
            assert(start.outcomes[0] is None);
        }
    } else {
        let before = supervision_after(start, events.drop_last());
        let after = supervision_after(start, events);
        lemma_one_report(n, events.drop_last());
        lemma_supervision_stays_wf(start, events.drop_last());
        if before.complete() {
            lemma_complete_is_final(before, events.last());
        }
        if n == 0 {
            assert(before.complete());
        }
    }
}

/// A supervision in which every runner has finished ignores every event.
pub proof fn lemma_complete_is_final(state: Supervision, event: OrchestratorEvent)
    requires
        state.wf(),
        state.complete(),
    ensures
        state.next(event) == state,
        state.decision(event).kills_sent == 0,
        state.decision(event).report is None,
{
    match event {
        OrchestratorEvent::RunnerFinished { index, outcome } => {
            if index < state.outcomes.len() {
                assert(state.outcomes[index as int] is Some);
            }
        },
        OrchestratorEvent::Interrupt => {
            if state.trigger is None && state.outcomes.len() > 0 {
                assert(state.outcomes[0] is Some);
            }
        },
    }
}

/// The supervision of no services is complete from the start: its report is
/// there at once, names no trigger and no outcome and is no failure, and
/// no event changes anything or has a kill request sent.
pub proof fn lemma_nothing_to_supervise(event: OrchestratorEvent)
    ensures
        Supervision::initial(0).complete(),
        Supervision::initial(0).summary().trigger is None,
        Supervision::initial(0).summary().outcomes.len() == 0,
        !Supervision::initial(0).summary().is_failure(),
        Supervision::initial(0).next(event) == Supervision::initial(0),
        Supervision::initial(0).decision(event).kills_sent == 0,
        Supervision::initial(0).decision(event).report is None,
{
}

} // verus!
