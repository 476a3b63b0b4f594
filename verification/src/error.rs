//! The failure taxonomy of the control plane.

use vstd::prelude::*;

verus! {

/// The three supervised workers.
#[derive(Clone, Copy, Debug, PartialEq, Eq, Structural)]
pub enum WorkerRole {
    /// The network node.
    Node,
    /// The HTTP gateway.
    Gateway,
    /// The web-serving daemon.
    WebServer,
}

/// Everything that can go wrong inside the control plane.
#[derive(Clone, Debug, PartialEq, Eq)]
pub enum CoreError {
    /// A port of zero was offered to the registry.
    InvalidPort,
    /// A start was asked for while a worker was running or starting.
    AlreadyRunning,
    /// The port configured for the role is occupied.
    PortInUse(WorkerRole, u16),
    /// The operating system refused to execute the role's binary.
    PermissionDenied(WorkerRole),
    /// The role's binary could not be spawned, with the system's words.
    SpawnFailed(WorkerRole, String),
    /// A fragment's payload is not valid base64.
    DecodeFailed,
    /// A fragment's index or total lies outside the allowed range.
    InvalidChunkMetadata,
    /// The slots of a new session could not be allocated.
    AllocationFailed,
    /// The upload backend failed, with its words.
    BackendUploadFailed(String),
}

/// The name of a worker's binary.
pub open spec fn name_of(role: WorkerRole) -> Seq<char> {
    match role {
        WorkerRole::Node => "ant"@,
        WorkerRole::Gateway => "anttp"@,
        WorkerRole::WebServer => "dweb"@,
    }
}

/// The name of a worker's binary.
pub fn worker_name(role: WorkerRole) -> (r: &'static str)
    ensures
        r@ == name_of(role),
{
    match role {
        WorkerRole::Node => "ant",
        WorkerRole::Gateway => "anttp",
        WorkerRole::WebServer => "dweb",
    }
}

} // verus!
