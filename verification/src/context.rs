//! The application context: everything the control plane keeps, owned in
//! one place and handed down to whoever needs it.

use vstd::prelude::*;
use crate::ports::PortRegistry;
use crate::reassembly::SessionTable;
use crate::relay::relay_step;
use crate::relay::stop_websocket_server;
use crate::relay::RelayAction;
use crate::relay::RelayEvent;
use crate::relay::RelayLifecycle;
use crate::relay::RelayState;
use crate::supervisor::none_running;
use crate::supervisor::StartPhase;
use crate::supervisor::Supervisor;
use crate::supervisor::Workers;

verus! {

/// The state of the control plane.
pub struct AppContext {
    pub ports: PortRegistry,
    pub supervisor: Supervisor,
    pub relay: RelayLifecycle,
    pub sessions: SessionTable,
}

/// What is to be done when the process ends.
#[derive(Clone, Copy, Debug, PartialEq, Eq)]
pub struct Teardown {
    /// What to do with the relay server.
    pub relay: RelayAction,
    /// The worker processes to kill.
    pub kill: Workers,
}

impl AppContext {
    /// Every part of the context is well-formed.
    pub open spec fn wf(&self) -> bool {
        self.ports.wf() && self.supervisor.wf() && self.sessions.wf()
    }

    /// The context of a fresh process: the default ports, a supervisor with
    /// no worker running, no start under way and the same ports, no relay
    /// server, no upload in progress.
    pub fn new() -> (c: AppContext)
        ensures
            c.wf(),
            c.ports == (PortRegistry { node: 8081, gateway: 18888, web_server: 5537, relay: 8084 }),
            c.supervisor == (Supervisor {
                workers: none_running(),
                phase: StartPhase::Idle,
                ports: c.ports,
            }),
            c.relay == (RelayLifecycle { state: RelayState::Down }),
            c.sessions@ == Map::<Seq<char>, crate::reassembly::SessionView>::empty(),
    {
        let ports = PortRegistry::new();
        AppContext {
            ports,
            supervisor: Supervisor::new(ports),
            relay: RelayLifecycle::new(),
            sessions: SessionTable::new(),
        }
    }
}

/// Tears the process down: the relay server is asked to stop, every worker
/// that runs is handed out to be killed, and none is left running.
pub fn cleanup_processes(context: &mut AppContext) -> (t: Teardown)
    ensures
        t.kill == old(context).supervisor.workers,
        (final(context).relay.state, t.relay) == relay_step(
            old(context).relay.state,
            RelayEvent::Stop,
        ),
        final(context).supervisor.workers == none_running(),
        final(context).supervisor.phase == StartPhase::Idle,
        final(context).ports == old(context).ports,
        final(context).sessions == old(context).sessions,
{
    let relay = stop_websocket_server(&mut context.relay);
    let kill = context.supervisor.stop_all();
    Teardown { relay, kill }
}

} // verus!
