//! The supervisor: the handle of the one supervised process and the
//! snapshot of its service under one roof, with the stop that clears both.
//! It is touched only while a decision is taken, never while a caller
//! waits.

use crate::error::{StopError, StopErrorView};
use crate::launch::endpoint_url_text;
use crate::process::{
    kill_command, kill_command_text, CommandLine, KillOutcome, KillOutcomeView, Platform,
    ProcessHandle, ProcessModel, ProcessSupervisor, StopTicket,
};
use crate::registry::{snapshot_view, ServerInfo, ServerInfoView, ServiceRegistry, ServiceStatus};
use vstd::prelude::*;

verus! {

/// The snapshot of a service that answers on loopback port `port`.
pub open spec fn running_at(port: u16) -> ServerInfoView {
    ServerInfoView { url: endpoint_url_text(port), port, status: ServiceStatus::Running }
}

/// The supervisor as a mathematical value.
pub ghost struct SupervisorModel {
    pub process: ProcessModel,
    pub registry: Option<ServerInfoView>,
}

impl SupervisorModel {
    /// Nothing supervised, nothing registered.
    pub open spec fn initial() -> SupervisorModel {
        SupervisorModel { process: ProcessModel::initial(), registry: None }
    }

    /// After the handle has been taken out for a terminator.
    pub open spec fn begin_stop(self) -> SupervisorModel {
        SupervisorModel { process: self.process.claim(), ..self }
    }

    /// After the terminator has reported back. Where the process is gone and
    /// no other has been started meanwhile, the snapshot goes with it.
    pub open spec fn finish_stop(self, ticket: StopTicket, outcome: KillOutcomeView)
        -> SupervisorModel {
        let process = self.process.settle(ticket, outcome);
        SupervisorModel {
            process,
            registry: if outcome.stopped() && process.current is None {
                None
            } else {
                self.registry
            },
        }
    }
}

/// What a terminator needs: the right to end the process and the command
/// that does it.
#[derive(Debug)]
pub struct StopOrder {
    pub ticket: StopTicket,
    pub command: CommandLine,
}

/// The one supervised service: its process handle and its snapshot.
#[derive(Debug)]
pub struct Supervisor {
    process: ProcessSupervisor,
    registry: ServiceRegistry,
}

impl View for Supervisor {
    type V = SupervisorModel;

    closed spec fn view(&self) -> SupervisorModel {
        SupervisorModel { process: self.process@, registry: self.registry@ }
    }
}

impl Supervisor {
    /// A supervisor of nothing yet.
    pub fn new() -> (r: Self)
        ensures
            r@ == SupervisorModel::initial(),
    {
        Supervisor { process: ProcessSupervisor::new(), registry: ServiceRegistry::new() }
    }

    /// The snapshot of the running service, or nothing where none has been
    /// started.
    pub fn query(&self) -> (r: Option<ServerInfo>)
        ensures
            snapshot_view(r) == self@.registry,
    {
        self.registry.get()
    }

    /// Registers a service that was started and found ready by other means
    /// than a session, in place of whatever was registered.
    pub fn register(&mut self, info: ServerInfo)
        ensures
            final(self)@ == (SupervisorModel { registry: Some(info@), ..old(self)@ }),
    {
        self.registry.set(info);
    }

    /// Makes `handle` the supervised process in place of whatever was
    /// supervised, and hands back the handle that it displaced.
    pub fn supervise(&mut self, handle: ProcessHandle) -> (displaced: Option<ProcessHandle>)
        ensures
            final(self)@ == (SupervisorModel {
                process: old(self)@.process.track(handle),
                ..old(self)@
            }),
            displaced == old(self)@.process.current,
    {
        self.process.track(handle)
    }

    /// The supervised process, if there is one.
    pub fn supervised(&self) -> (r: Option<ProcessHandle>)
        ensures
            r == self@.process.current,
    {
        self.process.current()
    }

    /// Opens a stop: takes the handle out and says how to end the process.
    /// Fails with `NotFound` where no process is supervised, and then
    /// changes nothing.
    pub fn begin_stop(&mut self, platform: Platform) -> (r: Result<StopOrder, StopError>)
        ensures
            match r {
                Ok(order) => {
                    &&& old(self)@.process.current == Some(order.ticket.target())
                    &&& order.ticket.issued_at() == old(self)@.process.generation
                    &&& order.command@ == kill_command_text(platform, order.ticket.target())
                    &&& final(self)@ == old(self)@.begin_stop()
                },
                Err(e) => {
                    &&& old(self)@.process.current is None
                    &&& e@ == StopErrorView::NotFound
                    &&& final(self)@ == old(self)@
                },
            },
    {
        match self.process.claim() {
            Ok(ticket) => Ok(StopOrder { ticket, command: kill_command(platform, ticket.handle()) }),
            Err(e) => Err(e),
        }
    }

    /// Closes a stop with what came of the kill. The stop succeeds when the
    /// process is gone, whether it was ended or had exited before; then the
    /// snapshot is removed, unless another process has been started
    /// meanwhile. It fails with the operating system's reason otherwise, and
    /// then the process stays supervised.
    pub fn finish_stop(&mut self, ticket: StopTicket, outcome: KillOutcome) -> (r: Result<
        (),
        StopError,
    >)
        ensures
            final(self)@ == old(self)@.finish_stop(ticket, outcome@),
            match r {
                Ok(_) => outcome@.verdict() == Ok::<(), StopErrorView>(()),
                Err(e) => outcome@.verdict() == Err::<(), StopErrorView>(e@),
            },
    {
        let verdict = self.process.settle(ticket, outcome);
        if verdict.is_ok() && self.process.current().is_none() {
            self.registry.clear();
        }
        verdict
    }
}

/// After a stop that found the process gone, nothing is supervised and
/// nothing is registered.
pub proof fn law_stop_clears(before: SupervisorModel, ticket: StopTicket, outcome: KillOutcomeView)
    requires
        before.process.current == Some(ticket.target()),
        ticket.issued_at() == before.process.generation,
        outcome.stopped(),
    ensures
        before.begin_stop().finish_stop(ticket, outcome).process.current is None,
        before.begin_stop().finish_stop(ticket, outcome).registry is None,
        before.begin_stop().begin_stop() == before.begin_stop(),
{
}

/// A stop that could not end the process leaves it supervised and the
/// snapshot in place, as long as no other process has been started
/// meanwhile.
pub proof fn law_failed_stop_keeps(
    before: SupervisorModel,
    ticket: StopTicket,
    outcome: KillOutcomeView,
)
    requires
        before.process.current == Some(ticket.target()),
        ticket.issued_at() == before.process.generation,
        !outcome.stopped(),
    ensures
        before.begin_stop().finish_stop(ticket, outcome) == before,
{
}

} // verus!
