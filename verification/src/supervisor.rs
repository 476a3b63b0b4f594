//! The process supervisor as a state machine. The machine decides; the
//! program around it probes ports, spawns and kills, and reports back what
//! happened.

use vstd::prelude::*;
use crate::error::CoreError;
use crate::error::WorkerRole;
use crate::ports::PortRegistry;
use crate::text::contains_text;
use crate::text::decimal;
use crate::text::decimal_digits;
use crate::text::occurs_in;
use crate::text::texts;

verus! {

/// A worker is stopped, or runs as the process `pid`.
#[derive(Clone, Copy, Debug, PartialEq, Eq, Structural)]
pub enum RoleState {
    Stopped,
    Running { pid: u32 },
}

/// The state of each worker. The same shape serves as a list of processes
/// to kill: every role that is `Running` in it.
#[derive(Clone, Copy, Debug, PartialEq, Eq, Structural)]
pub struct Workers {
    pub node: RoleState,
    pub gateway: RoleState,
    pub web_server: RoleState,
}

/// How far a start has come.
#[derive(Clone, Copy, Debug, PartialEq, Eq, Structural)]
pub enum StartPhase {
    /// No start is under way.
    Idle,
    /// The port of this role is being probed; no worker has been spawned.
    Probing(WorkerRole),
    /// This role's worker is being spawned; those before it run.
    Spawning(WorkerRole),
}

/// The supervisor: the workers, the start under way, and the ports that
/// the start was asked for.
#[derive(Clone, Copy, Debug, PartialEq, Eq)]
pub struct Supervisor {
    pub workers: Workers,
    pub phase: StartPhase,
    pub ports: PortRegistry,
}

/// What the program reports to the supervisor.
#[derive(Clone, Debug, PartialEq, Eq)]
pub enum SupervisorEvent {
    /// All workers are to be started on the registry's ports.
    StartAll { ports: PortRegistry },
    /// The probe asked for found the port occupied, or free.
    PortProbed { in_use: bool },
    /// The spawn asked for succeeded.
    Spawned { pid: u32 },
    /// The spawn asked for failed, with the system's words.
    SpawnFailed { detail: String },
    /// All workers are to be stopped.
    StopAll,
}

/// What the program is to do next.
#[derive(Clone, Debug, PartialEq, Eq)]
pub enum SupervisorAction {
    /// Try to bind `127.0.0.1:port` and report whether it is occupied.
    Probe { role: WorkerRole, port: u16 },
    /// Spawn the role's worker on `port` and report the outcome.
    Spawn { role: WorkerRole, port: u16 },
    /// Every worker runs: the start is done.
    Started,
    /// The start failed. Kill every process in `kill`, then report `error`.
    Failed { error: CoreError, kill: Workers },
    /// Kill every process in `kill`; failures to kill are of no concern.
    Stopped { kill: Workers },
    /// A spawn was reported that no start waits for: kill the process.
    Orphan { pid: u32 },
    /// The event answers nothing that was asked: do nothing.
    Ignored,
}

/// No worker runs.
pub open spec fn none_running() -> Workers {
    Workers {
        node: RoleState::Stopped,
        gateway: RoleState::Stopped,
        web_server: RoleState::Stopped,
    }
}

/// The role that is started after `role`, if any.
pub open spec fn next_role(role: WorkerRole) -> Option<WorkerRole> {
    match role {
        WorkerRole::Node => Some(WorkerRole::Gateway),
        WorkerRole::Gateway => Some(WorkerRole::WebServer),
        WorkerRole::WebServer => None,
    }
}

/// The port that the registry holds for a worker.
pub open spec fn port_for(ports: PortRegistry, role: WorkerRole) -> u16 {
    match role {
        WorkerRole::Node => ports.node,
        WorkerRole::Gateway => ports.gateway,
        WorkerRole::WebServer => ports.web_server,
    }
}

/// The system's words for a failed spawn speak of a missing permission.
pub open spec fn is_permission_failure(detail: Seq<char>) -> bool {
    occurs_in("Permission denied"@, detail) || occurs_in("operation not permitted"@, detail)
}

/// The error that a failed spawn of `role` is reported as.
pub open spec fn spawn_error(role: WorkerRole, detail: String) -> CoreError {
    if is_permission_failure(detail@) {
        CoreError::PermissionDenied(role)
    } else {
        CoreError::SpawnFailed(role, detail)
    }
}

impl Workers {
    /// The state of one worker.
    pub open spec fn state_of(&self, role: WorkerRole) -> RoleState {
        match role {
            WorkerRole::Node => self.node,
            WorkerRole::Gateway => self.gateway,
            WorkerRole::WebServer => self.web_server,
        }
    }

    /// These workers with `role` running as `pid`.
    pub open spec fn with_running(&self, role: WorkerRole, pid: u32) -> Workers {
        match role {
            WorkerRole::Node => Workers { node: RoleState::Running { pid }, ..*self },
            WorkerRole::Gateway => Workers { gateway: RoleState::Running { pid }, ..*self },
            WorkerRole::WebServer => Workers { web_server: RoleState::Running { pid }, ..*self },
        }
    }

    /// At least one worker runs.
    pub open spec fn any_running(&self) -> bool {
        self.node is Running || self.gateway is Running || self.web_server is Running
    }

    /// Every worker runs.
    pub open spec fn all_running(&self) -> bool {
        self.node is Running && self.gateway is Running && self.web_server is Running
    }

    /// The state of one worker.
    pub fn get(&self, role: WorkerRole) -> (r: RoleState)
        ensures
            r == self.state_of(role),
    {
        match role {
            WorkerRole::Node => self.node,
            WorkerRole::Gateway => self.gateway,
            WorkerRole::WebServer => self.web_server,
        }
    }
}

/// The supervisor's rule: the state and the action that follow from a state
/// and an event.
pub open spec fn spec_step(s: Supervisor, e: SupervisorEvent) -> (Supervisor, SupervisorAction) {
    match e {
        SupervisorEvent::StartAll { ports } => {
            if s.phase != StartPhase::Idle || s.workers.any_running() {
                (s, SupervisorAction::Failed { error: CoreError::AlreadyRunning, kill: none_running() })
            } else {
                (
                    Supervisor { phase: StartPhase::Probing(WorkerRole::Node), ports, ..s },
                    SupervisorAction::Probe { role: WorkerRole::Node, port: ports.node },
                )
            }
        },
        SupervisorEvent::PortProbed { in_use } => {
            match s.phase {
                StartPhase::Probing(role) => {
                    if in_use {
                        (
                            Supervisor { phase: StartPhase::Idle, workers: none_running(), ..s },
                            SupervisorAction::Failed {
                                error: CoreError::PortInUse(role, port_for(s.ports, role)),
                                kill: s.workers,
                            },
                        )
                    } else {
                        match next_role(role) {
                            Some(next) => (
                                Supervisor { phase: StartPhase::Probing(next), ..s },
                                SupervisorAction::Probe {
                                    role: next,
                                    port: port_for(s.ports, next),
                                },
                            ),
                            None => (
                                Supervisor { phase: StartPhase::Spawning(WorkerRole::Node), ..s },
                                SupervisorAction::Spawn {
                                    role: WorkerRole::Node,
                                    port: s.ports.node,
                                },
                            ),
                        }
                    }
                },
                _ => (s, SupervisorAction::Ignored),
            }
        },
        SupervisorEvent::Spawned { pid } => {
            match s.phase {
                StartPhase::Spawning(role) => {
                    let workers = s.workers.with_running(role, pid);
                    match next_role(role) {
                        Some(next) => (
                            Supervisor { phase: StartPhase::Spawning(next), workers, ..s },
                            SupervisorAction::Spawn { role: next, port: port_for(s.ports, next) },
                        ),
                        None => (
                            Supervisor { phase: StartPhase::Idle, workers, ..s },
                            SupervisorAction::Started,
                        ),
                    }
                },
                _ => (s, SupervisorAction::Orphan { pid }),
            }
        },
        SupervisorEvent::SpawnFailed { detail } => {
            match s.phase {
                StartPhase::Spawning(role) => (
                    Supervisor { phase: StartPhase::Idle, workers: none_running(), ..s },
                    SupervisorAction::Failed { error: spawn_error(role, detail), kill: s.workers },
                ),
                _ => (s, SupervisorAction::Ignored),
            }
        },
        SupervisorEvent::StopAll => (
            Supervisor { phase: StartPhase::Idle, workers: none_running(), ..s },
            SupervisorAction::Stopped { kill: s.workers },
        ),
    }
}

/// The role that is started after `role`, if any.
pub fn role_after(role: WorkerRole) -> (r: Option<WorkerRole>)
    ensures
        r == next_role(role),
{
    match role {
        WorkerRole::Node => Some(WorkerRole::Gateway),
        WorkerRole::Gateway => Some(WorkerRole::WebServer),
        WorkerRole::WebServer => None,
    }
}

/// Classifies a failed spawn: a refusal to execute the binary is told apart
/// from every other failure, which keeps the system's words.
pub fn classify_spawn_failure(role: WorkerRole, detail: String) -> (e: CoreError)
    ensures
        e == spawn_error(role, detail),
{
    if contains_text(detail.as_str(), "Permission denied") || contains_text(
        detail.as_str(),
        "operation not permitted",
    ) {
        CoreError::PermissionDenied(role)
    } else {
        CoreError::SpawnFailed(role, detail)
    }
}

impl Supervisor {
    /// While a start is under way, exactly the workers before the one being
    /// spawned run; otherwise all run or none does.
    pub open spec fn wf(&self) -> bool {
        match self.phase {
            StartPhase::Idle => self.workers.all_running() || !self.workers.any_running(),
            StartPhase::Probing(_) => !self.workers.any_running(),
            StartPhase::Spawning(WorkerRole::Node) => !self.workers.any_running(),
            StartPhase::Spawning(WorkerRole::Gateway) => self.workers.node is Running
                && self.workers.gateway is Stopped && self.workers.web_server is Stopped,
            StartPhase::Spawning(WorkerRole::WebServer) => self.workers.node is Running
                && self.workers.gateway is Running && self.workers.web_server is Stopped,
        }
    }

    /// A supervisor with every worker stopped.
    pub fn new(ports: PortRegistry) -> (s: Supervisor)
        ensures
            s == (Supervisor { workers: none_running(), phase: StartPhase::Idle, ports }),
            s.wf(),
    {
        Supervisor {
            workers: Workers {
                node: RoleState::Stopped,
                gateway: RoleState::Stopped,
                web_server: RoleState::Stopped,
            },
            phase: StartPhase::Idle,
            ports,
        }
    }

    /// Whether at least one worker runs.
    pub fn is_any_running(&self) -> (r: bool)
        ensures
            r == self.workers.any_running(),
    {
        !matches!(self.workers.node, RoleState::Stopped) || !matches!(
            self.workers.gateway,
            RoleState::Stopped
        ) || !matches!(self.workers.web_server, RoleState::Stopped)
    }

    /// Takes one event and says what to do next.
    pub fn step(&mut self, event: SupervisorEvent) -> (action: SupervisorAction)
        ensures
            (*final(self), action) == spec_step(*old(self), event),
            old(self).wf() ==> final(self).wf(),
    {
        let stopped = Workers {
            node: RoleState::Stopped,
            gateway: RoleState::Stopped,
            web_server: RoleState::Stopped,
        };
        match event {
            SupervisorEvent::StartAll { ports } => {
                if !matches!(self.phase, StartPhase::Idle) || self.is_any_running() {
                    SupervisorAction::Failed { error: CoreError::AlreadyRunning, kill: stopped }
                } else {
                    self.phase = StartPhase::Probing(WorkerRole::Node);
                    self.ports = ports;
                    SupervisorAction::Probe { role: WorkerRole::Node, port: ports.node }
                }
            },
            SupervisorEvent::PortProbed { in_use } => {
                match self.phase {
                    StartPhase::Probing(role) => {
                        if in_use {
                            let kill = self.workers;
                            self.phase = StartPhase::Idle;
                            self.workers = stopped;
                            SupervisorAction::Failed {
                                error: CoreError::PortInUse(role, self.ports.port_of(role)),
                                kill,
                            }
                        } else {
                            match role_after(role) {
                                Some(next) => {
                                    self.phase = StartPhase::Probing(next);
                                    SupervisorAction::Probe {
                                        role: next,
                                        port: self.ports.port_of(next),
                                    }
                                },
                                None => {
                                    self.phase = StartPhase::Spawning(WorkerRole::Node);
                                    SupervisorAction::Spawn {
                                        role: WorkerRole::Node,
                                        port: self.ports.node,
                                    }
                                },
                            }
                        }
                    },
                    _ => SupervisorAction::Ignored,
                }
            },
            SupervisorEvent::Spawned { pid } => {
                match self.phase {
                    StartPhase::Spawning(role) => {
                        match role {
                            WorkerRole::Node => {
                                self.workers.node = RoleState::Running { pid };
                            },
                            WorkerRole::Gateway => {
                                self.workers.gateway = RoleState::Running { pid };
                            },
                            WorkerRole::WebServer => {
                                self.workers.web_server = RoleState::Running { pid };
                            },
                        }
                        match role_after(role) {
                            Some(next) => {
                                self.phase = StartPhase::Spawning(next);
                                SupervisorAction::Spawn {
                                    role: next,
                                    port: self.ports.port_of(next),
                                }
                            },
                            None => {
                                self.phase = StartPhase::Idle;
                                SupervisorAction::Started
                            },
                        }
                    },
                    _ => SupervisorAction::Orphan { pid },
                }
            },
            SupervisorEvent::SpawnFailed { detail } => {
                match self.phase {
                    StartPhase::Spawning(role) => {
                        let kill = self.workers;
                        self.phase = StartPhase::Idle;
                        self.workers = stopped;
                        SupervisorAction::Failed {
                            error: classify_spawn_failure(role, detail),
                            kill,
                        }
                    },
                    _ => SupervisorAction::Ignored,
                }
            },
            SupervisorEvent::StopAll => {
                let kill = self.workers;
                self.phase = StartPhase::Idle;
                self.workers = stopped;
                SupervisorAction::Stopped { kill }
            },
        }
    }

    /// Begins a start of all workers on the registry's ports. Fails with
    /// `AlreadyRunning`, and changes nothing, while a worker runs or a start
    /// is under way; otherwise asks for the first probe.
    pub fn start_all(&mut self, ports: &PortRegistry) -> (action: SupervisorAction)
        ensures
            (*final(self), action) == spec_step(
                *old(self),
                SupervisorEvent::StartAll { ports: *ports },
            ),
            old(self).wf() ==> final(self).wf(),
    {
        self.step(SupervisorEvent::StartAll { ports: *ports })
    }

    /// Stops every worker: hands out the processes to kill and leaves all
    /// roles stopped. Stopping twice hands out nothing the second time.
    pub fn stop_all(&mut self) -> (kill: Workers)
        ensures
            kill == old(self).workers,
            *final(self) == (Supervisor {
                phase: StartPhase::Idle,
                workers: none_running(),
                ..*old(self)
            }),
            final(self).wf(),
    {
        match self.step(SupervisorEvent::StopAll) {
            SupervisorAction::Stopped { kill } => kill,
            _ => Workers {
                node: RoleState::Stopped,
                gateway: RoleState::Stopped,
                web_server: RoleState::Stopped,
            },
        }
    }
}

/// The name of the event that carries a line of a worker's output.
pub open spec fn event_name_of(role: WorkerRole) -> Seq<char> {
    match role {
        WorkerRole::Node => "ant-message"@,
        WorkerRole::Gateway => "anttp-message"@,
        WorkerRole::WebServer => "dweb-message"@,
    }
}

/// The name of the event that carries a line of a worker's output.
pub fn output_event_name(role: WorkerRole) -> (r: &'static str)
    ensures
        r@ == event_name_of(role),
{
    match role {
        WorkerRole::Node => "ant-message",
        WorkerRole::Gateway => "anttp-message",
        WorkerRole::WebServer => "dweb-message",
    }
}

/// The arguments that a worker is spawned with.
pub open spec fn args_of(role: WorkerRole, port: u16) -> Seq<Seq<char>> {
    match role {
        WorkerRole::WebServer => seq!["serve"@, "--port"@, decimal_digits(port as nat)],
        _ => seq!["-l"@, "127.0.0.1:"@ + decimal_digits(port as nat)],
    }
}

/// The arguments that a worker is spawned with: the node and the gateway
/// listen on `127.0.0.1:<port>`, the web server serves on `<port>`.
pub fn worker_args(role: WorkerRole, port: u16) -> (args: Vec<String>)
    ensures
        texts(args@) == args_of(role, port),
{
    let mut args: Vec<String> = Vec::new();
    match role {
        WorkerRole::WebServer => {
            args.push(String::from_str("serve"));
            args.push(String::from_str("--port"));
            args.push(decimal(port as u64));
        },
        _ => {
            args.push(String::from_str("-l"));
            let mut address = String::from_str("127.0.0.1:");
            let digits = decimal(port as u64);
            address.append(digits.as_str());
            args.push(address);
        },
    }
    assert(texts(args@) =~= args_of(role, port));
    args
}

/// The state after a start was begun at `s` and the first `free` probes
/// found their ports free.
pub open spec fn after_free_probes(s: Supervisor, ports: PortRegistry, free: nat) -> Supervisor
    decreases free,
{
    if free == 0 {
        spec_step(s, SupervisorEvent::StartAll { ports }).0
    } else {
        spec_step(
            after_free_probes(s, ports, (free - 1) as nat),
            SupervisorEvent::PortProbed { in_use: false },
        ).0
    }
}

/// The state after a start was begun at `s`, every port was found free, and
/// the workers were spawned as the processes `node`, `gateway` and
/// `web_server`.
pub open spec fn after_full_start(
    s: Supervisor,
    ports: PortRegistry,
    node: u32,
    gateway: u32,
    web_server: u32,
) -> Supervisor {
    let probed = after_free_probes(s, ports, 3);
    let first = spec_step(probed, SupervisorEvent::Spawned { pid: node }).0;
    let second = spec_step(first, SupervisorEvent::Spawned { pid: gateway }).0;
    spec_step(second, SupervisorEvent::Spawned { pid: web_server }).0
}

/// The role whose port is probed after `free` ports were found free.
pub open spec fn probed_role(free: nat) -> WorkerRole {
    if free == 0 {
        WorkerRole::Node
    } else if free == 1 {
        WorkerRole::Gateway
    } else {
        WorkerRole::WebServer
    }
}

/// The rule keeps the supervisor's invariant.
pub proof fn lemma_step_keeps_wf(s: Supervisor, e: SupervisorEvent)
    requires
        s.wf(),
    ensures
        spec_step(s, e).0.wf(),
{
}

/// A start that is asked for while a worker runs, or while another start is
/// under way, fails with `AlreadyRunning`, asks for nothing to be killed and
/// leaves the supervisor as it was.
pub proof fn lemma_start_while_busy_fails(s: Supervisor, ports: PortRegistry)
    requires
        s.workers.any_running() || s.phase != StartPhase::Idle,
    ensures
        spec_step(s, SupervisorEvent::StartAll { ports }) == (
            s,
            SupervisorAction::Failed { error: CoreError::AlreadyRunning, kill: none_running() },
        ),
{
}

/// Starting twice without stopping in between: after a first start that
/// went through, exactly its three processes run, and a second start fails
/// and leaves exactly them running.
pub proof fn lemma_second_start_fails(
    s: Supervisor,
    first: PortRegistry,
    second: PortRegistry,
    node: u32,
    gateway: u32,
    web_server: u32,
)
    requires
        s.phase == StartPhase::Idle,
        !s.workers.any_running(),
    ensures
        ({
            let started = after_full_start(s, first, node, gateway, web_server);
            &&& started.phase == StartPhase::Idle
            &&& started.workers == (Workers {
                node: RoleState::Running { pid: node },
                gateway: RoleState::Running { pid: gateway },
                web_server: RoleState::Running { pid: web_server },
            })
            &&& spec_step(started, SupervisorEvent::StartAll { ports: second }) == (
                started,
                SupervisorAction::Failed {
                    error: CoreError::AlreadyRunning,
                    kill: none_running(),
                },
            )
        }),
{
    reveal_with_fuel(after_free_probes, 4);
}

/// Full rollback on an occupied port: when a start finds the ports of the
/// first `free` roles free and the next one occupied, it fails with
/// `PortInUse` for that role and its port, nothing is left to kill, and no
/// worker runs afterwards.
pub proof fn lemma_occupied_port_leaves_none_running(
    s: Supervisor,
    ports: PortRegistry,
    free: nat,
)
    requires
        s.phase == StartPhase::Idle,
        !s.workers.any_running(),
        free < 3,
    ensures
        ({
            let r = spec_step(
                after_free_probes(s, ports, free),
                SupervisorEvent::PortProbed { in_use: true },
            );
            &&& r.0.phase == StartPhase::Idle
            &&& !r.0.workers.any_running()
            &&& r.1 == (SupervisorAction::Failed {
                error: CoreError::PortInUse(probed_role(free), port_for(ports, probed_role(free))),
                kill: none_running(),
            })
        }),
{
    reveal_with_fuel(after_free_probes, 4);
}

/// Full rollback in general: whenever a start that was under way fails, for
/// an occupied port or a failed spawn, every worker that it had spawned is
/// handed out to be killed and no worker runs afterwards.
pub proof fn lemma_failed_start_rolls_back(s: Supervisor, e: SupervisorEvent)
    requires
        s.wf(),
        spec_step(s, e).1 is Failed,
        !(e is StartAll),
    ensures
        spec_step(s, e).1->Failed_kill == s.workers,
        !spec_step(s, e).0.workers.any_running(),
        spec_step(s, e).0.phase == StartPhase::Idle,
{
}

/// Stopping is idempotent: a second stop finds nothing to kill and changes
/// nothing.
pub proof fn lemma_stop_is_idempotent(s: Supervisor)
    ensures
        ({
            let once = spec_step(s, SupervisorEvent::StopAll);
            let twice = spec_step(once.0, SupervisorEvent::StopAll);
            &&& !once.0.workers.any_running()
            &&& twice.0 == once.0
            &&& twice.1 == (SupervisorAction::Stopped { kill: none_running() })
        }),
{
}

} // verus!
