//! The orchestrator: one runner and one handle per service, and the rule that
//! the first service to end, or an interrupt from outside, ends them all.
//!
//! The orchestrator waits for nothing itself. Its owner lets the runners run,
//! reports each runner that finished and each interrupt as an
//! [`OrchestratorEvent`], and reads from the [`Decision`] whether the
//! supervision is over. The kill requests are sent by the orchestrator, through
//! the handles it holds.

use crate::process::outcome::RunnerOutcome;
use crate::process::service::{broadcast_kill, RunnerState, ServiceRunHandle, ServiceRunner};
use crate::process::{Service, ServiceView};
use tokio::sync::mpsc::UnboundedReceiver;
use vstd::prelude::*;

verus! {

/// The first thing that ended the supervision.
#[derive(Clone, Copy, Debug, PartialEq, Eq, Structural)]
pub enum Trigger {
    /// The runner of the service with this index finished before anything
    /// else happened.
    ServiceFinished { index: usize, outcome: RunnerOutcome },
    /// An interrupt arrived from outside while every service was running.
    Interrupt,
}

/// Something that happened to the set of runners.
#[derive(Clone, Copy, Debug, PartialEq, Eq, Structural)]
pub enum OrchestratorEvent {
    /// The runner of the service with this index finished.
    RunnerFinished { index: usize, outcome: RunnerOutcome },
    /// The operator asked for a shutdown.
    Interrupt,
}

/// What [`ShutdownReport`] stands for in contracts.
pub struct ShutdownSummary {
    pub trigger: Option<Trigger>,
    pub outcomes: Seq<RunnerOutcome>,
}

impl ShutdownSummary {
    /// The shutdown counts as a failure when it was set off by a service
    /// that failed. A shutdown set off by an interrupt, or one of no services
    /// at all, does not.
    pub open spec fn is_failure(self) -> bool {
        match self.trigger {
            Some(Trigger::ServiceFinished { index, outcome }) => outcome.spec_is_failure(),
            _ => false,
        }
    }
}

/// The result of a supervision that has come to its end.
#[derive(Clone, Debug, PartialEq, Eq)]
pub struct ShutdownReport {
    /// What set the shutdown off; `None` when there was no service to run.
    pub trigger: Option<Trigger>,
    /// The outcome of every runner, in the order of the services.
    pub outcomes: Vec<RunnerOutcome>,
}

impl View for ShutdownReport {
    type V = ShutdownSummary;

    open spec fn view(&self) -> ShutdownSummary {
        ShutdownSummary { trigger: self.trigger, outcomes: self.outcomes@ }
    }
}

impl ShutdownReport {
    /// Whether the shutdown was set off by a service that failed.
    pub fn is_failure(&self) -> (failed: bool)
        ensures
            failed == self@.is_failure(),
    {
        match self.trigger {
            Some(Trigger::ServiceFinished { index: _, outcome }) => outcome.is_failure(),
            _ => false,
        }
    }
}

/// What [`Decision`] stands for in contracts.
pub struct DecisionView {
    pub kills_sent: nat,
    pub report: Option<ShutdownSummary>,
}

/// The orchestrator's answer to an event.
#[derive(Clone, Debug, PartialEq, Eq)]
pub struct Decision {
    /// The number of handles through which a kill request was sent in
    /// answer to the event: all of them when the event was the first to end
    /// a service or to interrupt, none otherwise.
    pub kills_sent: usize,
    /// The report, if with this event the last runner has finished.
    pub report: Option<ShutdownReport>,
}

impl View for Decision {
    type V = DecisionView;

    open spec fn view(&self) -> DecisionView {
        DecisionView {
            kills_sent: self.kills_sent as nat,
            report: match self.report {
                Some(report) => Some(report@),
                None => None,
            },
        }
    }
}

/// The number of runners that have finished.
pub open spec fn count_finished(outcomes: Seq<Option<RunnerOutcome>>) -> nat
    decreases outcomes.len(),
{
    if outcomes.len() == 0 {
        0
    } else {
        count_finished(outcomes.drop_last()) + if outcomes.last() is Some {
            1nat
        } else {
            0nat
        }
    }
}

/// The state of a supervision: the outcome of each runner that has finished,
/// and what set the shutdown off, if anything has.
pub struct Supervision {
    pub outcomes: Seq<Option<RunnerOutcome>>,
    pub trigger: Option<Trigger>,
}

impl Supervision {
    /// The supervision of `n` services none of which has finished.
    pub open spec fn initial(n: nat) -> Supervision {
        Supervision { outcomes: Seq::new(n, |i: int| None::<RunnerOutcome>), trigger: None }
    }

    /// The number of services.
    pub open spec fn size(self) -> nat {
        self.outcomes.len()
    }

    /// The runner with this index exists and has not finished.
    pub open spec fn running(self, index: int) -> bool {
        0 <= index < self.outcomes.len() && self.outcomes[index] is None
    }

    /// Every runner has finished. This holds of no services at all.
    pub open spec fn complete(self) -> bool {
        forall|i: int| 0 <= i < self.outcomes.len() ==> (#[trigger] self.outcomes[i]) is Some
    }

    /// The states a supervision can be in: as long as nothing has set the
    /// shutdown off no runner has finished, and a runner named as the trigger
    /// has finished with the outcome named.
    pub open spec fn wf(self) -> bool {
        match self.trigger {
            None => forall|i: int|
                0 <= i < self.outcomes.len() ==> (#[trigger] self.outcomes[i]) is None,
            Some(Trigger::ServiceFinished { index, outcome }) => index < self.outcomes.len()
                && self.outcomes[index as int] == Some(outcome),
            Some(Trigger::Interrupt) => self.outcomes.len() > 0,
        }
    }

    /// The state after an event. A runner that finishes is recorded with its
    /// outcome, once; an interrupt is recorded if it is the first thing to
    /// happen to a supervision that has any service. The first event recorded
    /// becomes the trigger. Any other event changes nothing.
    pub open spec fn next(self, event: OrchestratorEvent) -> Supervision {
        match event {
            OrchestratorEvent::RunnerFinished { index, outcome } => if self.running(index as int) {
                Supervision {
                    outcomes: self.outcomes.update(index as int, Some(outcome)),
                    trigger: match self.trigger {
                        None => Some(Trigger::ServiceFinished { index, outcome }),
                        Some(first) => Some(first),
                    },
                }
            } else {
                self
            },
            OrchestratorEvent::Interrupt => if self.trigger is None && self.outcomes.len() > 0 {
                Supervision { trigger: Some(Trigger::Interrupt), ..self }
            } else {
                self
            },
        }
    }

    /// The event sets the shutdown off: nothing has done so before, and the
    /// event is recorded.
    pub open spec fn sets_off(self, event: OrchestratorEvent) -> bool {
        self.trigger is None && self.next(event).trigger is Some
    }

    /// With the event the last runner finishes.
    pub open spec fn completes(self, event: OrchestratorEvent) -> bool {
        !self.complete() && self.next(event).complete()
    }

    /// The report of a supervision in which every runner has finished.
    pub open spec fn summary(self) -> ShutdownSummary {
        ShutdownSummary {
            trigger: self.trigger,
            outcomes: Seq::new(self.outcomes.len(), |i: int| self.outcomes[i]->0),
        }
    }

    /// The answer to an event: a kill request goes to every runner when the
    /// event sets the shutdown off and to none otherwise, and the report is
    /// given exactly when the event lets the last runner finish.
    pub open spec fn decision(self, event: OrchestratorEvent) -> DecisionView {
        DecisionView {
            kills_sent: if self.sets_off(event) {
                self.outcomes.len()
            } else {
                0
            },
            report: if self.completes(event) {
                Some(self.next(event).summary())
            } else {
                None
            },
        }
    }
}

/// No runner is counted twice, and all are counted exactly when all have
/// finished.
pub proof fn lemma_count_finished_bounds(outcomes: Seq<Option<RunnerOutcome>>)
    ensures
        count_finished(outcomes) <= outcomes.len(),
        count_finished(outcomes) == outcomes.len() <==> (forall|i: int|
            0 <= i < outcomes.len() ==> (#[trigger] outcomes[i]) is Some),
        count_finished(outcomes) == 0 <==> (forall|i: int|
            0 <= i < outcomes.len() ==> (#[trigger] outcomes[i]) is None),
    decreases outcomes.len(),
{
    if outcomes.len() > 0 {
        let front = outcomes.drop_last();
        lemma_count_finished_bounds(front);
        assert forall|i: int| 0 <= i < front.len() implies front[i] == outcomes[i] by {}
        if count_finished(outcomes) == outcomes.len() {
            assert forall|i: int| 0 <= i < outcomes.len() implies (#[trigger] outcomes[i]) is Some by {
                if i < front.len() {
                    assert(front[i] is Some);
                }
            }
        }
        if count_finished(outcomes) == 0 {
            assert forall|i: int| 0 <= i < outcomes.len() implies (#[trigger] outcomes[i]) is None by {
                if i < front.len() {
                    assert(front[i] is None);
                }
            }
        }
        if forall|i: int| 0 <= i < outcomes.len() ==> (#[trigger] outcomes[i]) is Some {
            assert(outcomes.last() is Some);
            assert forall|i: int| 0 <= i < front.len() implies (#[trigger] front[i]) is Some by {
                assert(outcomes[i] is Some);
            }
        }
        if forall|i: int| 0 <= i < outcomes.len() ==> (#[trigger] outcomes[i]) is None {
            assert(outcomes.last() is None);
            assert forall|i: int| 0 <= i < front.len() implies (#[trigger] front[i]) is None by {
                assert(outcomes[i] is None);
            }
        }
    }
}

/// A runner that finishes raises the count by one.
pub proof fn lemma_count_finished_update(
    outcomes: Seq<Option<RunnerOutcome>>,
    index: int,
    outcome: RunnerOutcome,
)
    requires
        0 <= index < outcomes.len(),
        outcomes[index] is None,
    ensures
        count_finished(outcomes.update(index, Some(outcome))) == count_finished(outcomes) + 1,
    decreases outcomes.len(),
{
    let updated = outcomes.update(index, Some(outcome));
    if index == outcomes.len() - 1 {
        assert(updated.drop_last() =~= outcomes.drop_last());
    } else {
        lemma_count_finished_update(outcomes.drop_last(), index, outcome);
        assert(updated.drop_last() =~= outcomes.drop_last().update(index, Some(outcome)));
    }
}

/// No event leads out of the states a supervision can be in.
pub proof fn lemma_next_keeps_wf(state: Supervision, event: OrchestratorEvent)
    requires
        state.wf(),
    ensures
        state.next(event).wf(),
{
}

/// The descriptors of the services that a list of handles addresses.
pub open spec fn handle_services(handles: Seq<ServiceRunHandle>) -> Seq<ServiceView> {
    Seq::new(handles.len(), |i: int| handles[i].descriptor())
}

/// The supervision of a fixed set of services.
pub struct Orchestrator {
    handles: Vec<ServiceRunHandle>,
    outcomes: Vec<Option<RunnerOutcome>>,
    trigger: Option<Trigger>,
    finished: usize,
}

impl View for Orchestrator {
    type V = Supervision;

    closed spec fn view(&self) -> Supervision {
        Supervision { outcomes: self.outcomes@, trigger: self.trigger }
    }
}

impl Orchestrator {
    #[verifier::type_invariant]
    spec fn well_formed(self) -> bool {
        &&& self@.wf()
        &&& self.handles@.len() == self.outcomes@.len()
        &&& self.finished == count_finished(self.outcomes@)
    }

    /// The descriptors of the supervised services, in order.
    pub closed spec fn services(&self) -> Seq<ServiceView> {
        handle_services(self.handles@)
    }

    /// Takes over the handles of the runners of a set of services, none of
    /// which has finished. The supervision of no services is complete from
    /// the start.
    pub fn new(handles: Vec<ServiceRunHandle>) -> (o: Orchestrator)
        ensures
            o@ == Supervision::initial(handles@.len()),
            o.services() == handle_services(handles@),
            o@.wf(),
    {
        let mut outcomes: Vec<Option<RunnerOutcome>> = Vec::new();
        let mut i: usize = 0;
        while i < handles.len()
            invariant
                i <= handles.len(),
                outcomes@.len() == i,
                forall|k: int| 0 <= k < i ==> (#[trigger] outcomes@[k]) is None,
            decreases handles.len() - i,
        {
            outcomes.push(None);
            i += 1;
        }
        proof {
            lemma_count_finished_bounds(outcomes@);
            assert(outcomes@ =~= Supervision::initial(handles@.len()).outcomes);
        }
        Orchestrator { handles, outcomes, trigger: None, finished: 0 }
    }

    /// The number of supervised services.
    pub fn size(&self) -> (n: usize)
        ensures
            n == self@.size(),
    {
        self.outcomes.len()
    }

    /// The number of runners that have finished.
    pub fn finished(&self) -> (n: usize)
        ensures
            n == count_finished(self@.outcomes),
            n <= self@.size(),
    {
        proof {
            use_type_invariant(self);
            lemma_count_finished_bounds(self.outcomes@);
        }
        self.finished
    }

    /// Whether every runner has finished.
    pub fn is_complete(&self) -> (done: bool)
        ensures
            done == self@.complete(),
    {
        proof {
            use_type_invariant(self);
            lemma_count_finished_bounds(self.outcomes@);
        }
        self.finished == self.outcomes.len()
    }

    /// What set the shutdown off, if anything has yet.
    pub fn trigger(&self) -> (t: Option<Trigger>)
        ensures
            t == self@.trigger,
    {
        self.trigger
    }

    /// The handles of the runners, in the order of the services.
    pub fn handles(&self) -> (h: &Vec<ServiceRunHandle>)
        ensures
            handle_services(h@) == self.services(),
            h@.len() == self@.size(),
    {
        proof {
            use_type_invariant(self);
        }
        &self.handles
    }

    /// The report of the supervision: `Some` exactly when every runner has
    /// finished.
    pub fn report(&self) -> (r: Option<ShutdownReport>)
        ensures
            self@.wf(),
            match r {
                Some(report) => self@.complete() && report@ == self@.summary(),
                None => !self@.complete(),
            },
    {
        proof {
            use_type_invariant(self);
        }
        if self.is_complete() {
            Some(collect_report(&self.outcomes, self.trigger))
        } else {
            None
        }
    }

    /// Takes note of an event and answers it. When the event is the first to
    /// end a service or to interrupt, a kill request is sent through every
    /// handle before the answer is given.
    pub fn on_event(&mut self, event: OrchestratorEvent) -> (decision: Decision)
        ensures
            final(self)@ == old(self)@.next(event),
            decision@ == old(self)@.decision(event),
            final(self).services() == old(self).services(),
            final(self)@.wf(),
    {
        let mut taken = Orchestrator::new(Vec::new());
        core::mem::swap(self, &mut taken);
        let (advanced, decision) = taken.advance(event);
        *self = advanced;
        decision
    }

    /// The orchestrator after an event, and the answer to the event.
    fn advance(self, event: OrchestratorEvent) -> (r: (Orchestrator, Decision))
        ensures
            r.0@ == self@.next(event),
            r.1@ == self@.decision(event),
            r.0.services() == self.services(),
            r.0@.wf(),
    {
        proof {
            use_type_invariant(&self);
            lemma_next_keeps_wf(self@, event);
            lemma_count_finished_bounds(self.outcomes@);
        }
        let ghost before = self@;
        let Orchestrator { mut handles, mut outcomes, mut trigger, mut finished } = self;
        let recorded: bool = match event {
            OrchestratorEvent::RunnerFinished { index, outcome } => {
                if index < outcomes.len() && outcomes[index].is_none() {
                    proof {
                        lemma_count_finished_update(outcomes@, index as int, outcome);
                        lemma_count_finished_bounds(outcomes@.update(index as int, Some(outcome)));
                    }
                    outcomes.set(index, Some(outcome));
                    finished = finished + 1;
                    true
                } else {
                    false
                }
            },
            OrchestratorEvent::Interrupt => trigger.is_none() && outcomes.len() > 0,
        };
        let mut kills_sent: usize = 0;
        if recorded && trigger.is_none() {
            trigger = Some(
                match event {
                    OrchestratorEvent::RunnerFinished { index, outcome } => Trigger::ServiceFinished {
                        index,
                        outcome,
                    },
                    OrchestratorEvent::Interrupt => Trigger::Interrupt,
                },
            );
            kills_sent = broadcast_kill(&mut handles);
        }
        proof {
            lemma_count_finished_bounds(outcomes@);
            assert(outcomes@ == before.next(event).outcomes);
            assert(trigger == before.next(event).trigger);
        }
        let completes: bool = recorded && finished == outcomes.len();
        let report: Option<ShutdownReport> = if completes {
            Some(collect_report(&outcomes, trigger))
        } else {
            None
        };
        (Orchestrator { handles, outcomes, trigger, finished }, Decision { kills_sent, report })
    }
}

/// Puts the outcomes of runners that have all finished into a report.
fn collect_report(outcomes: &Vec<Option<RunnerOutcome>>, trigger: Option<Trigger>) -> (r:
    ShutdownReport)
    requires
        forall|i: int| 0 <= i < outcomes@.len() ==> (#[trigger] outcomes@[i]) is Some,
    ensures
        r@ == (Supervision { outcomes: outcomes@, trigger }).summary(),
{
    let mut collected: Vec<RunnerOutcome> = Vec::new();
    let mut i: usize = 0;
    while i < outcomes.len()
        invariant
            i <= outcomes.len(),
            collected@.len() == i,
            forall|k: int| 0 <= k < outcomes@.len() ==> (#[trigger] outcomes@[k]) is Some,
            forall|k: int| 0 <= k < i ==> collected@[k] == outcomes@[k]->0,
        decreases outcomes.len() - i,
    {
        match outcomes[i] {
            Some(outcome) => collected.push(outcome),
            None => {},
        }
        i += 1;
    }
    assert(collected@ =~= (Supervision { outcomes: outcomes@, trigger }).summary().outcomes);
    ShutdownReport { trigger, outcomes: collected }
}

/// Creates the runner of each service, in order, each with the receiving
/// half of its kill signal.
pub fn create_runners(services: &Vec<Service>) -> (runners: Vec<
    (ServiceRunner, UnboundedReceiver<()>),
>)
    ensures
        runners@.len() == services@.len(),
        forall|i: int|
            0 <= i < services@.len() ==> (#[trigger] runners@[i]).0.state()
                == RunnerState::initial() && runners@[i].0.descriptor() == services@[i]@,
{
    let mut runners: Vec<(ServiceRunner, UnboundedReceiver<()>)> = Vec::new();
    let mut i: usize = 0;
    while i < services.len()
        invariant
            i <= services.len(),
            runners@.len() == i,
            forall|k: int|
                0 <= k < i ==> (#[trigger] runners@[k]).0.state() == RunnerState::initial()
                    && runners@[k].0.descriptor() == services@[k]@,
        decreases services.len() - i,
    {
        runners.push(ServiceRunner::new(services[i].clone()));
        i += 1;
    }
    runners
}

/// Creates one handle for each runner, in order.
pub fn create_handles(runners: &Vec<(ServiceRunner, UnboundedReceiver<()>)>) -> (handles: Vec<
    ServiceRunHandle,
>)
    ensures
        handles@.len() == runners@.len(),
        forall|i: int|
            0 <= i < runners@.len() ==> (#[trigger] handles@[i]).descriptor()
                == runners@[i].0.descriptor(),
{
    let mut handles: Vec<ServiceRunHandle> = Vec::new();
    let mut i: usize = 0;
    while i < runners.len()
        invariant
            i <= runners.len(),
            handles@.len() == i,
            forall|k: int|
                0 <= k < i ==> (#[trigger] handles@[k]).descriptor() == runners@[k].0.descriptor(),
        decreases runners.len() - i,
    {
        handles.push(runners[i].0.create_handle());
        i += 1;
    }
    handles
}

} // verus!
