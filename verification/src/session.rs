//! The start as a session of decisions. A session says what to do next
//! (probe, bind, resolve, spawn), the caller does it and reports what came
//! of it, and the session decides on. The supervisor is changed only while
//! an event is taken in.

use crate::error::{StartError, StartErrorView};
use crate::launch::{
    endpoint_url, endpoint_url_text, LaunchPlan, LaunchPlanView, LaunchTarget, LaunchTargetView,
};
use crate::port::{
    step_of, BindOutcome, BindOutcomeView, PortAllocator, PortState, PortStep, PortStepView,
    DEFAULT_PORT,
};
use crate::probe::ProbeOutcome;
use crate::process::ProcessHandle;
use crate::readiness::{
    lemma_ramp_monotone, ramp, ready_event, ProberModel, Readiness, ReadinessEvent,
    ReadinessEventView, ReadinessProber, DEFAULT_INTERVAL_MS, DEFAULT_MAX_ATTEMPTS,
};
use crate::registry::{ServerInfo, ServerInfoView, ServiceStatus};
use crate::supervisor::{running_at, Supervisor, SupervisorModel};
use vstd::prelude::*;
use vstd::string::*;

verus! {

/// What a start is given: the port it would like and how long it waits.
#[derive(Clone, Copy, Debug, PartialEq, Eq, Structural)]
pub struct StartConfig {
    /// The port to serve on if it is free; also the port on which a service
    /// that is already running is looked for.
    pub preferred_port: u16,
    /// How many probes the wait for readiness may make.
    pub max_attempts: u32,
    /// The pause between two probes, in milliseconds.
    pub interval_ms: u64,
}

impl Default for StartConfig {
    fn default() -> (r: Self)
        ensures
            r == (StartConfig {
                preferred_port: DEFAULT_PORT,
                max_attempts: DEFAULT_MAX_ATTEMPTS,
                interval_ms: DEFAULT_INTERVAL_MS,
            }),
    {
        StartConfig {
            preferred_port: DEFAULT_PORT,
            max_attempts: DEFAULT_MAX_ATTEMPTS,
            interval_ms: DEFAULT_INTERVAL_MS,
        }
    }
}

/// What came of spawning the child.
#[derive(Debug)]
pub enum SpawnOutcome {
    /// The operating system accepted the spawn; this is the child.
    Started(ProcessHandle),
    /// The operating system refused, for the reason given.
    Refused(String),
}

/// A spawn's outcome as a mathematical value.
pub ghost enum SpawnOutcomeView {
    Started(ProcessHandle),
    Refused(Seq<char>),
}

impl View for SpawnOutcome {
    type V = SpawnOutcomeView;

    open spec fn view(&self) -> SpawnOutcomeView {
        match self {
            SpawnOutcome::Started(handle) => SpawnOutcomeView::Started(*handle),
            SpawnOutcome::Refused(reason) => SpawnOutcomeView::Refused(reason@),
        }
    }
}

/// What the caller reports back to a session.
#[derive(Debug)]
pub enum StartEvent {
    /// The endpoint was probed.
    Probed(ProbeOutcome),
    /// A port was asked for.
    Bound(BindOutcome),
    /// The resolver has looked for a launch target; nothing where it found
    /// none.
    Resolved(Option<LaunchTarget>),
    /// The child was spawned, or not.
    Spawned(SpawnOutcome),
}

/// An event as a mathematical value.
pub ghost enum StartEventView {
    Probed(ProbeOutcome),
    Bound(BindOutcomeView),
    Resolved(Option<LaunchTargetView>),
    Spawned(SpawnOutcomeView),
}

impl View for StartEvent {
    type V = StartEventView;

    open spec fn view(&self) -> StartEventView {
        match self {
            StartEvent::Probed(outcome) => StartEventView::Probed(*outcome),
            StartEvent::Bound(outcome) => StartEventView::Bound(outcome@),
            StartEvent::Resolved(found) => StartEventView::Resolved(
                match found {
                    Some(target) => Some(target@),
                    None => None,
                },
            ),
            StartEvent::Spawned(outcome) => StartEventView::Spawned(outcome@),
        }
    }
}

/// The view of how a start ended.
pub open spec fn result_view(result: Result<ServerInfo, StartError>) -> Result<
    ServerInfoView,
    StartErrorView,
> {
    match result {
        Ok(info) => Ok(info@),
        Err(e) => Err(e@),
    }
}

/// What a session asks the caller to do next.
#[derive(Debug)]
pub enum StartAction {
    /// Send a `GET` to `url` and report `Probed`.
    Probe { url: String },
    /// Bind `port` on loopback, read the bound port back, release the
    /// listener, and report `Bound`.
    Bind { port: u16 },
    /// Look for a launch target and report `Resolved`.
    Resolve,
    /// Spawn the child by `plan` with its output piped, attach the log
    /// relays, and report `Spawned`.
    Spawn { plan: LaunchPlan },
    /// Hand the result to whoever asked for the start. The session is over.
    Finish(Result<ServerInfo, StartError>),
}

/// An action as a mathematical value.
pub ghost enum StartActionView {
    Probe { url: Seq<char> },
    Bind { port: u16 },
    Resolve,
    Spawn { plan: LaunchPlanView },
    Finish(Result<ServerInfoView, StartErrorView>),
}

impl View for StartAction {
    type V = StartActionView;

    open spec fn view(&self) -> StartActionView {
        match self {
            StartAction::Probe { url } => StartActionView::Probe { url: url@ },
            StartAction::Bind { port } => StartActionView::Bind { port: *port },
            StartAction::Resolve => StartActionView::Resolve,
            StartAction::Spawn { plan } => StartActionView::Spawn { plan: plan@ },
            StartAction::Finish(result) => StartActionView::Finish(result_view(*result)),
        }
    }
}

/// The view of a report that may be absent.
pub open spec fn report_view(event: Option<ReadinessEvent>) -> Option<ReadinessEventView> {
    match event {
        Some(event) => Some(event@),
        None => None,
    }
}

/// What taking in an event led to: in this order, publish the report,
/// pause, and do what is asked next.
#[derive(Debug)]
pub struct Reaction {
    /// A progress report to publish.
    pub publish: Option<ReadinessEvent>,
    /// How long to pause, in milliseconds.
    pub pause_ms: Option<u64>,
    /// A process that was supervised until the new child took its place, and
    /// now runs unsupervised.
    pub orphaned: Option<ProcessHandle>,
    /// What to do next.
    pub next: StartAction,
}

/// A reaction as a mathematical value.
pub ghost struct ReactionView {
    pub publish: Option<ReadinessEventView>,
    pub pause_ms: Option<u64>,
    pub orphaned: Option<ProcessHandle>,
    pub next: StartActionView,
}

impl View for Reaction {
    type V = ReactionView;

    open spec fn view(&self) -> ReactionView {
        ReactionView {
            publish: report_view(self.publish),
            pause_ms: self.pause_ms,
            orphaned: self.orphaned,
            next: self.next@,
        }
    }
}

/// How far a start has come, as a mathematical value.
pub ghost enum PhaseModel {
    /// A service that may already answer on the preferred port is looked
    /// for.
    CheckExisting,
    /// A port is being allocated.
    Allocate(PortState),
    /// The port is chosen; the launch target is being looked for.
    Resolve { port: u16 },
    /// The child is being spawned.
    Spawn { port: u16, target: LaunchTargetView },
    /// The child runs; its readiness is waited for.
    Poll { port: u16, prober: ProberModel },
    /// The start is over.
    Done(Result<ServerInfoView, StartErrorView>),
}

/// A session as a mathematical value.
pub ghost struct SessionModel {
    pub config: StartConfig,
    pub phase: PhaseModel,
}

/// A session and a supervisor after an event, with what is to be published
/// and paused for.
pub ghost struct Step {
    pub session: SessionModel,
    pub supervisor: SupervisorModel,
    pub publish: Option<ReadinessEventView>,
    pub pause_ms: Option<u64>,
    pub orphaned: Option<ProcessHandle>,
}

impl Step {
    /// The step that follows when `event` is taken in next.
    pub open spec fn upon(self, event: StartEventView) -> Step {
        self.session.react(self.supervisor, event)
    }

    /// What the caller is told.
    pub open spec fn reaction(self) -> ReactionView {
        ReactionView {
            publish: self.publish,
            pause_ms: self.pause_ms,
            orphaned: self.orphaned,
            next: self.session.pending(),
        }
    }
}

impl SessionModel {
    /// A session that has decided nothing yet.
    pub open spec fn initial(config: StartConfig) -> SessionModel {
        SessionModel { config, phase: PhaseModel::CheckExisting }
    }

    /// The wait for readiness that follows a spawn on `port`.
    pub open spec fn fresh_prober(self, port: u16) -> ProberModel {
        ProberModel::initial(
            endpoint_url_text(port),
            self.config.max_attempts as nat,
            self.config.interval_ms as nat,
        )
    }

    /// What holds of every session that a start can reach: an allocation or
    /// a wait that it holds is still under way, and the wait is for the
    /// chosen port, by the session's own limits.
    pub open spec fn wf(self) -> bool {
        match self.phase {
            PhaseModel::Allocate(state) => state.request() is Some,
            PhaseModel::Poll { port, prober } => {
                &&& prober.polling()
                &&& prober.url == endpoint_url_text(port)
                &&& prober.max_attempts == self.config.max_attempts
                &&& prober.interval_ms == self.config.interval_ms
            },
            _ => true,
        }
    }

    /// Whether the start is over.
    pub open spec fn finished(self) -> bool {
        self.phase is Done
    }

    /// What the caller is to do in this phase.
    pub open spec fn pending(self) -> StartActionView {
        match self.phase {
            PhaseModel::CheckExisting => StartActionView::Probe {
                url: endpoint_url_text(self.config.preferred_port),
            },
            PhaseModel::Allocate(state) => match step_of(state) {
                PortStepView::Bind(port) => StartActionView::Bind { port },
                PortStepView::Chosen(_) => StartActionView::Resolve,
                PortStepView::Exhausted(reason) => StartActionView::Finish(
                    Err(StartErrorView::PortUnavailable(reason)),
                ),
            },
            PhaseModel::Resolve { .. } => StartActionView::Resolve,
            PhaseModel::Spawn { port, target } => StartActionView::Spawn {
                plan: target.plan(port),
            },
            PhaseModel::Poll { prober, .. } => StartActionView::Probe { url: prober.url },
            PhaseModel::Done(result) => StartActionView::Finish(result),
        }
    }

    /// This session and the supervisor, unchanged, with nothing to publish.
    pub open spec fn stay(self, supervisor: SupervisorModel) -> Step {
        Step { session: self, supervisor, publish: None, pause_ms: None, orphaned: None }
    }

    /// The session in phase `phase`, with the supervisor unchanged and
    /// nothing to publish.
    pub open spec fn go(self, supervisor: SupervisorModel, phase: PhaseModel) -> Step {
        Step {
            session: SessionModel { phase, ..self },
            supervisor,
            publish: None,
            pause_ms: None,
            orphaned: None,
        }
    }

    /// The phase that an allocation in `state` leads to: on to the resolver
    /// with the chosen port, to the end where no port could be had, or on
    /// with the allocation.
    pub open spec fn after_bind(state: PortState) -> PhaseModel {
        match state {
            PortState::Chosen(port) => PhaseModel::Resolve { port },
            PortState::Exhausted(reason) => PhaseModel::Done(
                Err(StartErrorView::PortUnavailable(reason)),
            ),
            _ => PhaseModel::Allocate(state),
        }
    }

    /// Where a wait in state `prober` leaves the start: a ready service is
    /// registered and the start succeeds; a wait that has used its attempts
    /// ends the start with the timeout and leaves the child alone; otherwise
    /// the wait goes on.
    pub open spec fn after_probe(self, supervisor: SupervisorModel, port: u16, prober: ProberModel)
        -> Step {
        match prober.readiness() {
            Readiness::Pending => self.go(supervisor, PhaseModel::Poll { port, prober }),
            Readiness::Ready => self.go(
                SupervisorModel { registry: Some(running_at(port)), ..supervisor },
                PhaseModel::Done(Ok(running_at(port))),
            ),
            Readiness::TimedOut => self.go(
                supervisor,
                PhaseModel::Done(Err(StartErrorView::ReadinessTimeout { url: prober.url })),
            ),
        }
    }

    /// The least percentage that a report published from this phase on can
    /// carry.
    pub open spec fn progress_floor(self) -> nat {
        match self.phase {
            PhaseModel::Spawn { .. } => 5,
            PhaseModel::Poll { prober, .. } => if prober.attempts == 0 {
                5
            } else {
                ramp(prober.attempts)
            },
            PhaseModel::Done(_) => 100,
            _ => 0,
        }
    }

    /// The step that the last of `events` leads to when they are taken in
    /// one after another.
    pub open spec fn run(self, supervisor: SupervisorModel, events: Seq<StartEventView>) -> Step
        decreases events.len(),
    {
        if events.len() == 0 {
            self.stay(supervisor)
        } else {
            self.run(supervisor, events.drop_last()).upon(events.last())
        }
    }

    /// The reports published while `events` are taken in, in order.
    pub open spec fn reports(self, supervisor: SupervisorModel, events: Seq<StartEventView>) -> Seq<
        ReadinessEventView,
    >
        decreases events.len(),
    {
        if events.len() == 0 {
            Seq::empty()
        } else {
            let before = self.reports(supervisor, events.drop_last());
            match self.run(supervisor, events).publish {
                Some(report) => before.push(report),
                None => before,
            }
        }
    }

    /// The session and the supervisor after `event` has been taken in. An
    /// event that does not answer what the session asked for changes
    /// nothing.
    pub open spec fn react(self, supervisor: SupervisorModel, event: StartEventView) -> Step {
        match (self.phase, event) {
            (PhaseModel::CheckExisting, StartEventView::Probed(outcome)) => {
                if outcome.is_success() {
                    self.go(
                        SupervisorModel {
                            registry: Some(running_at(self.config.preferred_port)),
                            ..supervisor
                        },
                        PhaseModel::Done(Ok(running_at(self.config.preferred_port))),
                    )
                } else {
                    self.go(
                        supervisor,
                        PhaseModel::Allocate(PortState::TryPreferred(self.config.preferred_port)),
                    )
                }
            },
            (PhaseModel::Allocate(state), StartEventView::Bound(outcome)) => self.go(
                supervisor,
                Self::after_bind(state.observe(outcome)),
            ),
            (PhaseModel::Resolve { port }, StartEventView::Resolved(found)) => match found {
                Some(target) => Step {
                    publish: Some(target.announcement()),
                    ..self.go(supervisor, PhaseModel::Spawn { port, target })
                },
                None => self.go(
                    supervisor,
                    PhaseModel::Done(Err(StartErrorView::ResolutionFailure)),
                ),
            },
            (PhaseModel::Spawn { port, target }, StartEventView::Spawned(outcome)) => match outcome {
                SpawnOutcomeView::Started(handle) => Step {
                    orphaned: supervisor.process.current,
                    ..self.after_probe(
                        SupervisorModel { process: supervisor.process.track(handle), ..supervisor },
                        port,
                        self.fresh_prober(port),
                    )
                },
                SpawnOutcomeView::Refused(reason) => self.go(
                    supervisor,
                    PhaseModel::Done(
                        Err(StartErrorView::SpawnFailure { kind: target.kind(), reason }),
                    ),
                ),
            },
            (PhaseModel::Poll { port, prober }, StartEventView::Probed(outcome)) => Step {
                publish: prober.emitted(outcome),
                pause_ms: if prober.emitted(outcome) is Some && !outcome.is_success() {
                    Some(prober.interval_ms as u64)
                } else {
                    None
                },
                ..self.after_probe(supervisor, port, prober.observe(outcome))
            },
            _ => self.stay(supervisor),
        }
    }
}

enum Phase {
    CheckExisting,
    Allocate(PortAllocator),
    Resolve { port: u16 },
    Spawn { port: u16, target: LaunchTarget },
    Poll { port: u16, prober: ReadinessProber },
    Done(Result<ServerInfo, StartError>),
}

impl View for Phase {
    type V = PhaseModel;

    closed spec fn view(&self) -> PhaseModel {
        match self {
            Phase::CheckExisting => PhaseModel::CheckExisting,
            Phase::Allocate(allocator) => PhaseModel::Allocate(allocator@),
            Phase::Resolve { port } => PhaseModel::Resolve { port: *port },
            Phase::Spawn { port, target } => PhaseModel::Spawn { port: *port, target: target@ },
            Phase::Poll { port, prober } => PhaseModel::Poll { port: *port, prober: prober@ },
            Phase::Done(result) => PhaseModel::Done(result_view(*result)),
        }
    }
}

/// One start of the service, from the first decision to the result.
pub struct StartSession {
    config: StartConfig,
    phase: Phase,
}

impl View for StartSession {
    type V = SessionModel;

    closed spec fn view(&self) -> SessionModel {
        SessionModel { config: self.config, phase: self.phase@ }
    }
}

fn running_info(port: u16) -> (r: ServerInfo)
    ensures
        r@ == running_at(port),
{
    ServerInfo { url: endpoint_url(port), port, status: ServiceStatus::Running }
}

fn clone_result(result: &Result<ServerInfo, StartError>) -> (r: Result<ServerInfo, StartError>)
    ensures
        result_view(r) == result_view(*result),
{
    match result {
        Ok(info) => Ok(info.clone()),
        Err(e) => Err(e.clone()),
    }
}

impl StartSession {
    #[verifier::type_invariant]
    spec fn inv(self) -> bool {
        self@.wf()
    }

    /// A session that has decided nothing yet. Its first request is a probe
    /// of the preferred port's endpoint.
    pub fn new(config: StartConfig) -> (r: Self)
        ensures
            r@ == SessionModel::initial(config),
            r@.wf(),
    {
        StartSession { config, phase: Phase::CheckExisting }
    }

    /// Whether the start is over.
    pub fn finished(&self) -> (r: bool)
        ensures
            r == self@.finished(),
    {
        match &self.phase {
            Phase::Done(_) => true,
            _ => false,
        }
    }

    /// What the caller is to do now.
    pub fn pending(&self) -> (r: StartAction)
        ensures
            r@ == self@.pending(),
            self@.wf(),
    {
        proof {
            use_type_invariant(self);
        }
        match &self.phase {
            Phase::CheckExisting => StartAction::Probe {
                url: endpoint_url(self.config.preferred_port),
            },
            Phase::Allocate(allocator) => match allocator.step() {
                PortStep::Bind(port) => StartAction::Bind { port },
                PortStep::Chosen(_) => StartAction::Resolve,
                PortStep::Exhausted(reason) => StartAction::Finish(
                    Err(StartError::PortUnavailable(reason)),
                ),
            },
            Phase::Resolve { .. } => StartAction::Resolve,
            Phase::Spawn { port, target } => StartAction::Spawn { plan: target.plan(*port) },
            Phase::Poll { prober, .. } => StartAction::Probe {
                url: String::from_str(prober.url()),
            },
            Phase::Done(result) => StartAction::Finish(clone_result(result)),
        }
    }

    fn settle(self, publish: Option<ReadinessEvent>, pause_ms: Option<u64>, orphaned: Option<
        ProcessHandle,
    >) -> (r: (StartSession, Reaction))
        ensures
            r.0@ == self@,
            r.1@ == (ReactionView {
                publish: report_view(publish),
                pause_ms,
                orphaned,
                next: self@.pending(),
            }),
    {
        let next = self.pending();
        (self, Reaction { publish, pause_ms, orphaned, next })
    }

    fn enter_poll(
        config: StartConfig,
        supervisor: &mut Supervisor,
        port: u16,
        prober: ReadinessProber,
    ) -> (r: StartSession)
        requires
            prober@.url == endpoint_url_text(port),
            prober@.max_attempts == config.max_attempts,
            prober@.interval_ms == config.interval_ms,
        ensures
            r@ == (SessionModel { config, phase: PhaseModel::CheckExisting }).after_probe(
                old(supervisor)@,
                port,
                prober@,
            ).session,
            final(supervisor)@ == (SessionModel {
                config,
                phase: PhaseModel::CheckExisting,
            }).after_probe(old(supervisor)@, port, prober@).supervisor,
    {
        match prober.readiness() {
            Readiness::Pending => StartSession { config, phase: Phase::Poll { port, prober } },
            Readiness::Ready => {
                let info = running_info(port);
                supervisor.register(info.clone());
                StartSession { config, phase: Phase::Done(Ok(info)) }
            },
            Readiness::TimedOut => StartSession {
                config,
                phase: Phase::Done(
                    Err(StartError::ReadinessTimeout { url: String::from_str(prober.url()) }),
                ),
            },
        }
    }

    /// Takes in what the caller reports and decides on. The supervisor is
    /// changed at two points only: the child that was spawned becomes the
    /// supervised process, and the service that answered is registered.
    pub fn handle(self, supervisor: &mut Supervisor, event: StartEvent) -> (r: (
        StartSession,
        Reaction,
    ))
        ensures
            r.0@ == self@.react(old(supervisor)@, event@).session,
            final(supervisor)@ == self@.react(old(supervisor)@, event@).supervisor,
            r.1@ == self@.react(old(supervisor)@, event@).reaction(),
            r.0@.wf(),
    {
        proof {
            use_type_invariant(&self);
        }
        let config = self.config;
        match self.phase {
            Phase::CheckExisting => match event {
                StartEvent::Probed(outcome) => {
                    if outcome.succeeded() {
                        let info = running_info(config.preferred_port);
                        supervisor.register(info.clone());
                        (StartSession { config, phase: Phase::Done(Ok(info)) }).settle(
                            None,
                            None,
                            None,
                        )
                    } else {
                        (StartSession {
                            config,
                            phase: Phase::Allocate(PortAllocator::new(config.preferred_port)),
                        }).settle(None, None, None)
                    }
                },
                _ => (StartSession { config, phase: Phase::CheckExisting }).settle(
                    None,
                    None,
                    None,
                ),
            },
            Phase::Allocate(allocator) => match event {
                StartEvent::Bound(outcome) => {
                    let allocator = allocator.observe(outcome);
                    let phase = match allocator.step() {
                        PortStep::Bind(_) => Phase::Allocate(allocator),
                        PortStep::Chosen(port) => Phase::Resolve { port },
                        PortStep::Exhausted(reason) => Phase::Done(
                            Err(StartError::PortUnavailable(reason)),
                        ),
                    };
                    (StartSession { config, phase }).settle(None, None, None)
                },
                _ => (StartSession { config, phase: Phase::Allocate(allocator) }).settle(
                    None,
                    None,
                    None,
                ),
            },
            Phase::Resolve { port } => match event {
                StartEvent::Resolved(found) => match found {
                    Some(target) => {
                        let report = target.announcement();
                        (StartSession { config, phase: Phase::Spawn { port, target } }).settle(
                            Some(report),
                            None,
                            None,
                        )
                    },
                    None => (StartSession {
                        config,
                        phase: Phase::Done(Err(StartError::ResolutionFailure)),
                    }).settle(None, None, None),
                },
                _ => (StartSession { config, phase: Phase::Resolve { port } }).settle(
                    None,
                    None,
                    None,
                ),
            },
            Phase::Spawn { port, target } => match event {
                StartEvent::Spawned(outcome) => match outcome {
                    SpawnOutcome::Started(handle) => {
                        let orphaned = supervisor.supervise(handle);
                        let prober = ReadinessProber::new(
                            endpoint_url(port),
                            config.max_attempts,
                            config.interval_ms,
                        );
                        Self::enter_poll(config, supervisor, port, prober).settle(
                            None,
                            None,
                            orphaned,
                        )
                    },
                    SpawnOutcome::Refused(reason) => (StartSession {
                        config,
                        phase: Phase::Done(
                            Err(StartError::SpawnFailure { kind: target.kind(), reason }),
                        ),
                    }).settle(None, None, None),
                },
                _ => (StartSession { config, phase: Phase::Spawn { port, target } }).settle(
                    None,
                    None,
                    None,
                ),
            },
            Phase::Poll { port, prober } => match event {
                StartEvent::Probed(outcome) => {
                    let mut prober = prober;
                    let (publish, pause_ms) = match prober.observe(outcome) {
                        Some(seen) => (Some(seen.event), seen.pause_ms),
                        None => (None, None),
                    };
                    Self::enter_poll(config, supervisor, port, prober).settle(
                        publish,
                        pause_ms,
                        None,
                    )
                },
                _ => (StartSession { config, phase: Phase::Poll { port, prober } }).settle(
                    None,
                    None,
                    None,
                ),
            },
            Phase::Done(result) => (StartSession { config, phase: Phase::Done(result) }).settle(
                None,
                None,
                None,
            ),
        }
    }
}

/// Taking in an event leads from a session that a start can reach to
/// another such session.
pub proof fn law_react_keeps_wf(
    session: SessionModel,
    supervisor: SupervisorModel,
    event: StartEventView,
)
    requires
        session.wf(),
    ensures
        session.react(supervisor, event).session.wf(),
        session.react(supervisor, event).session.config == session.config,
{
}

/// A start that is over stays over: whatever is reported afterwards
/// changes neither the session nor the supervisor, and the result is
/// handed out again.
pub proof fn law_finished_is_final(
    session: SessionModel,
    supervisor: SupervisorModel,
    event: StartEventView,
)
    requires
        session.finished(),
    ensures
        session.react(supervisor, event) == session.stay(supervisor),
        session.pending() == StartActionView::Finish(session.phase->Done_0),
{
}

/// A start changes the supervisor in two ways only. The supervised process
/// changes when a spawn is reported as started, and then to that child. The
/// snapshot changes when the start succeeds, and then to its result. A
/// start that fails, by a timeout as by anything else, leaves the process
/// that it spawned supervised and running.
pub proof fn law_supervisor_changes(
    session: SessionModel,
    supervisor: SupervisorModel,
    event: StartEventView,
)
    requires
        session.wf(),
    ensures
        ({
            let step = session.react(supervisor, event);
            &&& step.supervisor.process != supervisor.process ==> {
                &&& session.phase is Spawn
                &&& event matches StartEventView::Spawned(SpawnOutcomeView::Started(handle))
                &&& step.supervisor.process == supervisor.process.track(handle)
                &&& step.orphaned == supervisor.process.current
            }
            &&& step.supervisor.registry != supervisor.registry ==> {
                &&& step.session.phase matches PhaseModel::Done(Ok(info))
                &&& step.supervisor.registry == Some(info)
            }
            &&& !session.finished() ==> (step.session.phase matches PhaseModel::Done(Ok(info))
                ==> step.supervisor.registry == Some(info))
        }),
{
}

/// A service that already answers on the preferred port is adopted: the
/// start succeeds at once with that endpoint's snapshot, which is
/// registered, and no port is bound and no process spawned.
pub proof fn law_existing_service_is_adopted(
    config: StartConfig,
    supervisor: SupervisorModel,
    outcome: ProbeOutcome,
)
    requires
        outcome.is_success(),
    ensures
        ({
            let step = SessionModel::initial(config).react(
                supervisor,
                StartEventView::Probed(outcome),
            );
            &&& step.session.phase == PhaseModel::Done(Ok(running_at(config.preferred_port)))
            &&& step.supervisor.registry == Some(running_at(config.preferred_port))
            &&& step.supervisor.process == supervisor.process
            &&& step.reaction().next == StartActionView::Finish(
                Ok(running_at(config.preferred_port)),
            )
        }),
{
}

/// Where nothing answers yet and the preferred port is refused, the start
/// goes on with the port that the operating system hands out: the child is
/// spawned with that port among its arguments, and readiness is probed at
/// that port's endpoint.
pub proof fn law_fallback_port_is_used(
    config: StartConfig,
    supervisor: SupervisorModel,
    miss: ProbeOutcome,
    refusal: Seq<char>,
    port: u16,
    target: LaunchTargetView,
    handle: ProcessHandle,
)
    requires
        !miss.is_success(),
        config.max_attempts >= 1,
    ensures
        ({
            let probed = SessionModel::initial(config).react(
                supervisor,
                StartEventView::Probed(miss),
            );
            let refused = probed.upon(StartEventView::Bound(BindOutcomeView::Refused(refusal)));
            let bound = refused.upon(StartEventView::Bound(BindOutcomeView::Bound(port)));
            let resolved = bound.upon(StartEventView::Resolved(Some(target)));
            let spawned = resolved.upon(
                StartEventView::Spawned(SpawnOutcomeView::Started(handle)),
            );
            &&& probed.reaction().next == StartActionView::Bind { port: config.preferred_port }
            &&& refused.reaction().next == StartActionView::Bind { port: 0 }
            &&& bound.reaction().next == StartActionView::Resolve
            &&& resolved.reaction().next == StartActionView::Spawn { plan: target.plan(port) }
            &&& resolved.reaction().publish == Some(target.announcement())
            &&& spawned.reaction().next == StartActionView::Probe { url: endpoint_url_text(port) }
            &&& spawned.supervisor.process.current == Some(handle)
            &&& spawned.supervisor.registry == supervisor.registry
        }),
{
}

/// Whatever the supervisor held before, after a stop as after anything
/// else: a start that finds nothing running, gets a port and a target, sees
/// its child start and then answer, succeeds. The child is the supervised
/// process and the snapshot names the port that was bound.
pub proof fn law_fresh_start_succeeds(
    config: StartConfig,
    supervisor: SupervisorModel,
    miss: ProbeOutcome,
    port: u16,
    target: LaunchTargetView,
    handle: ProcessHandle,
    hit: ProbeOutcome,
)
    requires
        !miss.is_success(),
        hit.is_success(),
        config.max_attempts >= 1,
    ensures
        ({
            let end = SessionModel::initial(config).react(
                supervisor,
                StartEventView::Probed(miss),
            ).upon(StartEventView::Bound(BindOutcomeView::Bound(port))).upon(
                StartEventView::Resolved(Some(target)),
            ).upon(StartEventView::Spawned(SpawnOutcomeView::Started(handle))).upon(
                StartEventView::Probed(hit),
            );
            &&& end.session.phase == PhaseModel::Done(Ok(running_at(port)))
            &&& end.supervisor.process.current == Some(handle)
            &&& end.supervisor.registry == Some(running_at(port))
            &&& end.publish == Some(ready_event())
            &&& end.pause_ms is None
        }),
{
}

/// Where no launch target is found, or the spawn is refused, the start
/// fails there and then: the supervisor is as it was, and no probe of the
/// service is asked for.
pub proof fn law_launch_failure_ends_start(
    config: StartConfig,
    supervisor: SupervisorModel,
    port: u16,
    target: LaunchTargetView,
    reason: Seq<char>,
)
    ensures
        ({
            let resolving = SessionModel { config, phase: PhaseModel::Resolve { port } };
            let missing = resolving.react(supervisor, StartEventView::Resolved(None));
            let spawning = SessionModel { config, phase: PhaseModel::Spawn { port, target } };
            let refused = spawning.react(
                supervisor,
                StartEventView::Spawned(SpawnOutcomeView::Refused(reason)),
            );
            &&& missing.session.phase == PhaseModel::Done(Err(StartErrorView::ResolutionFailure))
            &&& missing.supervisor == supervisor
            &&& missing.publish is None
            &&& refused.session.phase == PhaseModel::Done(
                Err(StartErrorView::SpawnFailure { kind: target.kind(), reason }),
            )
            &&& refused.supervisor == supervisor
            &&& refused.publish is None
        }),
{
}

/// A report that a step publishes lies between the floor of the phase it
/// leaves and the floor of the phase it enters, and floors never go down.
pub proof fn lemma_progress_step(
    session: SessionModel,
    supervisor: SupervisorModel,
    event: StartEventView,
)
    requires
        session.wf(),
    ensures
        ({
            let step = session.react(supervisor, event);
            &&& session.progress_floor() <= step.session.progress_floor() <= 100
            &&& step.publish matches Some(report) ==> session.progress_floor() <= report.percent
                <= step.session.progress_floor()
        }),
{
    match (session.phase, event) {
        (PhaseModel::Poll { port, prober }, StartEventView::Probed(outcome)) => {
            lemma_ramp_monotone(prober.attempts, prober.attempts + 1);
        },
        _ => {},
    }
}

proof fn lemma_reports_bounded(
    session: SessionModel,
    supervisor: SupervisorModel,
    events: Seq<StartEventView>,
)
    requires
        session.wf(),
    ensures
        session.run(supervisor, events).session.wf(),
        session.progress_floor() <= session.run(supervisor, events).session.progress_floor() <= 100,
        forall|k: int|
            0 <= k < session.reports(supervisor, events).len() ==> session.progress_floor()
                <= (#[trigger] session.reports(supervisor, events)[k]).percent <= session.run(
                supervisor,
                events,
            ).session.progress_floor(),
        forall|i: int, j: int|
            0 <= i <= j < session.reports(supervisor, events).len() ==> (#[trigger] session.reports(
                supervisor,
                events,
            )[i]).percent <= (#[trigger] session.reports(supervisor, events)[j]).percent,
    decreases events.len(),
{
    if events.len() > 0 {
        let before = session.run(supervisor, events.drop_last());
        let after = session.run(supervisor, events);
        let earlier = session.reports(supervisor, events.drop_last());
        let all = session.reports(supervisor, events);
        lemma_reports_bounded(session, supervisor, events.drop_last());
        lemma_progress_step(before.session, before.supervisor, events.last());
        law_react_keeps_wf(before.session, before.supervisor, events.last());
        assert(after == before.upon(events.last()));
        assert forall|k: int| 0 <= k < all.len() implies session.progress_floor() <= (
        #[trigger] all[k]).percent <= after.session.progress_floor() by {
            if k < earlier.len() {
                assert(all[k] == earlier[k]);
            }
        }
        assert forall|i: int, j: int| 0 <= i <= j < all.len() implies (#[trigger] all[i]).percent
            <= (#[trigger] all[j]).percent by {
            if j < earlier.len() {
                assert(all[i] == earlier[i]);
                assert(all[j] == earlier[j]);
            } else if i < earlier.len() {
                assert(all[i] == earlier[i]);
            }
        }
    }
}

/// Whatever is reported to a session, the percentages that it publishes
/// never go down and never pass 100.
pub proof fn law_reports_never_decrease(
    session: SessionModel,
    supervisor: SupervisorModel,
    events: Seq<StartEventView>,
    i: int,
    j: int,
)
    requires
        session.wf(),
        0 <= i <= j < session.reports(supervisor, events).len(),
    ensures
        session.reports(supervisor, events)[i].percent <= session.reports(
            supervisor,
            events,
        )[j].percent <= 100,
{
    lemma_reports_bounded(session, supervisor, events);
}

} // verus!
