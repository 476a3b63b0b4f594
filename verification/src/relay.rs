//! The lifecycle of the relay server: at most one instance is recorded, and
//! a new one is bound only after the previous one has been signalled and
//! awaited to its end.

use vstd::prelude::*;
use crate::error::CoreError;
use crate::ports::PortRegistry;
use crate::ports::PortSlot;

verus! {

/// The recorded instance of the relay server.
#[derive(Clone, Copy, Debug, PartialEq, Eq, Structural)]
pub enum RelayState {
    /// No instance is recorded.
    Down,
    /// An instance listens on `port`.
    Serving { port: u16 },
    /// The instance on `port` has been told to shut down and is being
    /// awaited; afterwards one is to be bound on `next`, if that is set.
    Draining { port: u16, next: Option<u16> },
}

/// What the program reports to the lifecycle.
#[derive(Clone, Copy, Debug, PartialEq, Eq, Structural)]
pub enum RelayEvent {
    /// The server is to listen on `port`, replacing any instance.
    Restart { port: u16 },
    /// The server is to stop.
    Stop,
    /// The awaited serving task has ended; `clean` is false where joining it
    /// failed.
    Drained { clean: bool },
}

/// What the program is to do next.
#[derive(Clone, Copy, Debug, PartialEq, Eq, Structural)]
pub enum RelayAction {
    /// Create a fresh, unset shutdown signal, spawn the serving task bound to
    /// `127.0.0.1:port`, and record both.
    Bind { port: u16 },
    /// Set the recorded shutdown signal, await the recorded task, discard
    /// both, and report `Drained`.
    ShutdownAndAwait { port: u16 },
    /// The serving task could not be joined: report the failure. No instance
    /// is recorded and none is bound.
    JoinFailed,
    /// Nothing to do.
    Nothing,
}

/// The lifecycle's rule: the state and the action that follow from a state
/// and an event.
pub open spec fn relay_step(s: RelayState, e: RelayEvent) -> (RelayState, RelayAction) {
    match e {
        RelayEvent::Restart { port } => match s {
            RelayState::Down => (RelayState::Serving { port }, RelayAction::Bind { port }),
            RelayState::Serving { port: current } => (
                RelayState::Draining { port: current, next: Some(port) },
                RelayAction::ShutdownAndAwait { port: current },
            ),
            RelayState::Draining { port: current, next } => (
                RelayState::Draining { port: current, next: Some(port) },
                RelayAction::Nothing,
            ),
        },
        RelayEvent::Stop => match s {
            RelayState::Down => (RelayState::Down, RelayAction::Nothing),
            RelayState::Serving { port: current } => (
                RelayState::Draining { port: current, next: None },
                RelayAction::ShutdownAndAwait { port: current },
            ),
            RelayState::Draining { port: current, next } => (
                RelayState::Draining { port: current, next: None },
                RelayAction::Nothing,
            ),
        },
        RelayEvent::Drained { clean } => match s {
            RelayState::Draining { port: current, next } => {
                if !clean {
                    (RelayState::Down, RelayAction::JoinFailed)
                } else {
                    match next {
                        Some(port) => (RelayState::Serving { port }, RelayAction::Bind { port }),
                        None => (RelayState::Down, RelayAction::Nothing),
                    }
                }
            },
            _ => (s, RelayAction::Nothing),
        },
    }
}

/// The lifecycle of the relay server.
#[derive(Clone, Copy, Debug, PartialEq, Eq)]
pub struct RelayLifecycle {
    pub state: RelayState,
}

impl RelayLifecycle {
    /// A lifecycle with no instance recorded.
    pub fn new() -> (r: RelayLifecycle)
        ensures
            r.state == RelayState::Down,
    {
        RelayLifecycle { state: RelayState::Down }
    }

    /// The port of the instance that listens, if one does.
    pub fn serving_port(&self) -> (r: Option<u16>)
        ensures
            r == (match self.state {
                RelayState::Serving { port } => Some(port),
                _ => None,
            }),
    {
        match self.state {
            RelayState::Serving { port } => Some(port),
            _ => None,
        }
    }

    /// Takes one event and says what to do next.
    pub fn step(&mut self, event: RelayEvent) -> (action: RelayAction)
        ensures
            (final(self).state, action) == relay_step(old(self).state, event),
    {
        match event {
            RelayEvent::Restart { port } => match self.state {
                RelayState::Down => {
                    self.state = RelayState::Serving { port };
                    RelayAction::Bind { port }
                },
                RelayState::Serving { port: current } => {
                    self.state = RelayState::Draining { port: current, next: Some(port) };
                    RelayAction::ShutdownAndAwait { port: current }
                },
                RelayState::Draining { port: current, next: _ } => {
                    self.state = RelayState::Draining { port: current, next: Some(port) };
                    RelayAction::Nothing
                },
            },
            RelayEvent::Stop => match self.state {
                RelayState::Down => RelayAction::Nothing,
                RelayState::Serving { port: current } => {
                    self.state = RelayState::Draining { port: current, next: None };
                    RelayAction::ShutdownAndAwait { port: current }
                },
                RelayState::Draining { port: current, next: _ } => {
                    self.state = RelayState::Draining { port: current, next: None };
                    RelayAction::Nothing
                },
            },
            RelayEvent::Drained { clean } => match self.state {
                RelayState::Draining { port: _, next } => {
                    if !clean {
                        self.state = RelayState::Down;
                        RelayAction::JoinFailed
                    } else {
                        match next {
                            Some(port) => {
                                self.state = RelayState::Serving { port };
                                RelayAction::Bind { port }
                            },
                            None => {
                                self.state = RelayState::Down;
                                RelayAction::Nothing
                            },
                        }
                    }
                },
                _ => RelayAction::Nothing,
            },
        }
    }

}

/// Starts the server on the registry's relay port, replacing any instance
/// by the restart protocol.
pub fn start_websocket_server(relay: &mut RelayLifecycle, ports: &PortRegistry) -> (action:
    RelayAction)
    ensures
        (final(relay).state, action) == relay_step(
            old(relay).state,
            RelayEvent::Restart { port: ports.relay },
        ),
{
    relay.step(RelayEvent::Restart { port: ports.relay })
}

/// Stops the server: the recorded instance, if any, is to be signalled and
/// awaited.
pub fn stop_websocket_server(relay: &mut RelayLifecycle) -> (action: RelayAction)
    ensures
        (final(relay).state, action) == relay_step(old(relay).state, RelayEvent::Stop),
{
    relay.step(RelayEvent::Stop)
}

/// Changes the relay port and restarts the server on it. A port of zero
/// fails with `InvalidPort` and changes nothing. Otherwise the registry holds
/// the new port and the lifecycle has taken a restart for it.
pub fn set_websocket_port(
    ports: &mut PortRegistry,
    relay: &mut RelayLifecycle,
    port: u16,
) -> (r: Result<RelayAction, CoreError>)
    ensures
        port == 0 ==> r == Err::<RelayAction, CoreError>(CoreError::InvalidPort) && *final(ports)
            == *old(ports) && *final(relay) == *old(relay),
        port != 0 ==> r == Ok::<RelayAction, CoreError>(
            relay_step(old(relay).state, RelayEvent::Restart { port }).1,
        ) && *final(ports) == old(ports).with_port(PortSlot::Relay, port) && final(relay).state
            == relay_step(old(relay).state, RelayEvent::Restart { port }).0,
{
    match ports.set(PortSlot::Relay, port) {
        Err(e) => Err(e),
        Ok(()) => Ok(relay.step(RelayEvent::Restart { port })),
    }
}

/// A new instance is bound only when none was ever recorded, or when the
/// recorded one has been signalled, awaited and reported as ended; the one
/// bound is then the one recorded. So the lifecycle never records two, and
/// never binds while an earlier listener may still hold its socket.
pub proof fn lemma_bind_only_when_free(s: RelayState, e: RelayEvent)
    requires
        relay_step(s, e).1 is Bind,
    ensures
        (s is Down && e is Restart) || (s is Draining && e == (RelayEvent::Drained { clean: true })),
        relay_step(s, e).0 == (RelayState::Serving { port: relay_step(s, e).1->Bind_port }),
{
}

/// The restart protocol: a restart of a listening server first asks for the
/// old instance to be signalled and awaited and binds nothing; once that is
/// reported as done, the new port is bound, and the instance recorded is the
/// one on the new port and no other.
pub proof fn lemma_restart_rebinds_after_drain(old_port: u16, new_port: u16)
    ensures
        ({
            let asked = relay_step(
                RelayState::Serving { port: old_port },
                RelayEvent::Restart { port: new_port },
            );
            let done = relay_step(asked.0, RelayEvent::Drained { clean: true });
            &&& asked.1 == (RelayAction::ShutdownAndAwait { port: old_port })
            &&& asked.0 == (RelayState::Draining { port: old_port, next: Some(new_port) })
            &&& done.1 == (RelayAction::Bind { port: new_port })
            &&& done.0 == (RelayState::Serving { port: new_port })
        }),
{
}

} // verus!
