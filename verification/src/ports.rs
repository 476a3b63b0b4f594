//! The port registry: the listening port configured for each worker and for
//! the relay server.

use vstd::prelude::*;
use crate::error::CoreError;
use crate::error::WorkerRole;

verus! {

/// The four independently settable entries of the registry.
#[derive(Clone, Copy, Debug, PartialEq, Eq, Structural)]
pub enum PortSlot {
    Node,
    Gateway,
    WebServer,
    Relay,
}

/// The configured ports. Setting one has no effect on the others, and none
/// on any running server.
#[derive(Clone, Copy, Debug, PartialEq, Eq)]
pub struct PortRegistry {
    pub node: u16,
    pub gateway: u16,
    pub web_server: u16,
    pub relay: u16,
}

/// The registry entry that belongs to a worker.
pub open spec fn slot_of(role: WorkerRole) -> PortSlot {
    match role {
        WorkerRole::Node => PortSlot::Node,
        WorkerRole::Gateway => PortSlot::Gateway,
        WorkerRole::WebServer => PortSlot::WebServer,
    }
}

/// Stores `port` in `slot` unless it is zero.
pub fn set_port(slot: &mut u16, port: u16) -> (r: Result<(), CoreError>)
    ensures
        port == 0 ==> r == Err::<(), CoreError>(CoreError::InvalidPort) && *final(slot) == *old(slot),
        port != 0 ==> r == Ok::<(), CoreError>(()) && *final(slot) == port,
{
    if port == 0 {
        return Err(CoreError::InvalidPort);
    }
    *slot = port;
    Ok(())
}

impl PortRegistry {
    /// No entry is zero.
    pub open spec fn wf(&self) -> bool {
        self.node != 0 && self.gateway != 0 && self.web_server != 0 && self.relay != 0
    }

    /// The value stored in `slot`.
    pub open spec fn port_at(&self, slot: PortSlot) -> u16 {
        match slot {
            PortSlot::Node => self.node,
            PortSlot::Gateway => self.gateway,
            PortSlot::WebServer => self.web_server,
            PortSlot::Relay => self.relay,
        }
    }

    /// This registry with `port` stored in `slot`.
    pub open spec fn with_port(&self, slot: PortSlot, port: u16) -> PortRegistry {
        match slot {
            PortSlot::Node => PortRegistry { node: port, ..*self },
            PortSlot::Gateway => PortRegistry { gateway: port, ..*self },
            PortSlot::WebServer => PortRegistry { web_server: port, ..*self },
            PortSlot::Relay => PortRegistry { relay: port, ..*self },
        }
    }

    /// The registry a fresh process starts with.
    pub fn new() -> (r: PortRegistry)
        ensures
            r == (PortRegistry { node: 8081, gateway: 18888, web_server: 5537, relay: 8084 }),
            r.wf(),
    {
        PortRegistry { node: 8081, gateway: 18888, web_server: 5537, relay: 8084 }
    }

    /// Replaces the value of `slot`, or fails on a port of zero and changes
    /// nothing.
    pub fn set(&mut self, slot: PortSlot, port: u16) -> (r: Result<(), CoreError>)
        ensures
            port == 0 ==> r == Err::<(), CoreError>(CoreError::InvalidPort) && *final(self) == *old(
                self,
            ),
            port != 0 ==> r == Ok::<(), CoreError>(()) && *final(self) == old(self).with_port(
                slot,
                port,
            ),
            old(self).wf() ==> final(self).wf(),
    {
        match slot {
            PortSlot::Node => set_port(&mut self.node, port),
            PortSlot::Gateway => set_port(&mut self.gateway, port),
            PortSlot::WebServer => set_port(&mut self.web_server, port),
            PortSlot::Relay => set_port(&mut self.relay, port),
        }
    }

    /// Reads one entry.
    pub fn get(&self, slot: PortSlot) -> (p: u16)
        ensures
            p == self.port_at(slot),
    {
        match slot {
            PortSlot::Node => self.node,
            PortSlot::Gateway => self.gateway,
            PortSlot::WebServer => self.web_server,
            PortSlot::Relay => self.relay,
        }
    }

    /// The port configured for a worker.
    pub fn port_of(&self, role: WorkerRole) -> (p: u16)
        ensures
            p == self.port_at(slot_of(role)),
    {
        match role {
            WorkerRole::Node => self.node,
            WorkerRole::Gateway => self.gateway,
            WorkerRole::WebServer => self.web_server,
        }
    }

    /// A snapshot of all four entries: node, gateway, web server, relay.
    pub fn get_all(&self) -> (r: (u16, u16, u16, u16))
        ensures
            r == (self.node, self.gateway, self.web_server, self.relay),
    {
        (self.node, self.gateway, self.web_server, self.relay)
    }
}

/// A snapshot of all four ports: node, gateway, web server, relay.
pub fn get_ports(registry: &PortRegistry) -> (r: (u16, u16, u16, u16))
    ensures
        r == (registry.node, registry.gateway, registry.web_server, registry.relay),
{
    registry.get_all()
}

/// Sets the node worker's port.
pub fn set_ant_port(registry: &mut PortRegistry, port: u16) -> (r: Result<(), CoreError>)
    ensures
        port == 0 ==> r == Err::<(), CoreError>(CoreError::InvalidPort) && *final(registry) == *old(
            registry,
        ),
        port != 0 ==> r == Ok::<(), CoreError>(()) && *final(registry) == old(registry).with_port(
            PortSlot::Node,
            port,
        ),
{
    registry.set(PortSlot::Node, port)
}

/// Sets the gateway worker's port.
pub fn set_anttp_port(registry: &mut PortRegistry, port: u16) -> (r: Result<(), CoreError>)
    ensures
        port == 0 ==> r == Err::<(), CoreError>(CoreError::InvalidPort) && *final(registry) == *old(
            registry,
        ),
        port != 0 ==> r == Ok::<(), CoreError>(()) && *final(registry) == old(registry).with_port(
            PortSlot::Gateway,
            port,
        ),
{
    registry.set(PortSlot::Gateway, port)
}

/// Sets the web-serving worker's port.
pub fn set_dweb_port(registry: &mut PortRegistry, port: u16) -> (r: Result<(), CoreError>)
    ensures
        port == 0 ==> r == Err::<(), CoreError>(CoreError::InvalidPort) && *final(registry) == *old(
            registry,
        ),
        port != 0 ==> r == Ok::<(), CoreError>(()) && *final(registry) == old(registry).with_port(
            PortSlot::WebServer,
            port,
        ),
{
    registry.set(PortSlot::WebServer, port)
}

} // verus!
