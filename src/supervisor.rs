use vstd::prelude::*;

use crate::bootstrap::{bootstrap_steps, BootstrapProbe, BootstrapStep, SecretKind};
use crate::chain::ChainType;
use crate::policy::{policy_for, NodeRuntimePolicy, NodeSettings};

verus! {

/// Which part of the bootstrap failed.
#[derive(Debug, Clone, Copy, PartialEq, Eq, Structural)]
pub enum BootstrapFailure {
    /// The home directory could not be created.
    HomeDirectory,
    /// A secret file could not be generated, or exists and is invalid.
    Secret(SecretKind),
    /// The default configuration could not be written.
    ConfigWrite,
    /// The configuration file could not be read or parsed.
    ConfigParse,
}

/// A fatal bootstrap failure, with the reason reported by the filesystem or
/// the configuration parser.
#[derive(Debug, Clone)]
pub struct BootstrapError {
    pub failure: BootstrapFailure,
    pub reason: String,
}

/// Why a supervisor operation was refused or failed.
#[derive(Debug, Clone)]
pub enum NodeError {
    /// A node is already starting or running.
    AlreadyActive,
    /// No status sink was set, so a node would have nowhere to report.
    NoUiSender,
    /// Bootstrapping the home directory or loading the configuration failed.
    Bootstrap(BootstrapError),
}

/// A running node instance, owned by the supervisor.
#[derive(Debug)]
pub struct Instance<H> {
    pub chain_type: ChainType,
    pub policy: NodeRuntimePolicy,
    /// Owns the background thread and the sending end of its control channel.
    pub handle: H,
}

/// Lifecycle of the supervisor.
#[derive(Debug)]
pub enum Phase<H> {
    /// No instance.
    Idle,
    /// Bootstrap and configuration loading for the given chain are under way.
    Starting(ChainType),
    /// The background thread is alive and owned through the instance.
    Running(Instance<H>),
}

/// What the caller must do to stop an instance: send one shutdown message
/// through the handle and, when `join` is set, wait for the thread to exit.
#[derive(Debug)]
pub struct StopOrder<H> {
    pub handle: H,
    pub join: bool,
}

/// Supervises at most one node instance. `S` is the sink for status
/// snapshots, `H` the handle of a background node thread.
#[derive(Debug)]
pub struct NodeInterface<S, H> {
    /// Chain of the most recently started instance.
    pub chain_type: Option<ChainType>,
    /// Configuration values of the most recently started instance.
    pub settings: Option<NodeSettings>,
    pub ui_sender: Option<S>,
    pub phase: Phase<H>,
}

impl<S, H> NodeInterface<S, H> {
    /// Whether a start would be accepted.
    pub open spec fn accepts_start(&self) -> bool {
        self.phase is Idle && self.ui_sender is Some
    }

    /// The supervisor once a start for `chain` has been accepted.
    pub open spec fn starting(self, chain: ChainType) -> Self {
        NodeInterface { phase: Phase::Starting(chain), ..self }
    }

    /// The supervisor after a start request for `chain`: starting if the
    /// start is accepted, unchanged if it is refused.
    pub open spec fn after_start(self, chain: ChainType) -> Self {
        if self.accepts_start() {
            self.starting(chain)
        } else {
            self
        }
    }

    /// The supervisor once a stop has been issued: idle if it was running,
    /// unchanged otherwise.
    pub open spec fn stopped(self) -> Self {
        if self.phase is Running {
            NodeInterface { phase: Phase::Idle, ..self }
        } else {
            self
        }
    }

    /// A supervisor with no instance and no status sink.
    pub fn new() -> (r: Self)
        ensures
            r.chain_type is None,
            r.settings is None,
            r.ui_sender is None,
            r.phase is Idle,
    {
        NodeInterface { chain_type: None, settings: None, ui_sender: None, phase: Phase::Idle }
    }

    /// Sets the sink that status snapshots of later instances go to.
    pub fn set_ui_sender(&mut self, ui_sender: S)
        ensures
            *final(self) == (NodeInterface { ui_sender: Some(ui_sender), ..*old(self) }),
    {
        self.ui_sender = Some(ui_sender);
    }

    /// Whether a node instance is running.
    pub fn node_started(&self) -> (r: bool)
        ensures
            r == self.phase is Running,
    {
        match &self.phase {
            Phase::Running(_) => true,
            _ => false,
        }
    }

    /// Begins starting a node on `chain_type`, given what is on disk under its
    /// home. Refused, with nothing changed, while an instance is starting or
    /// running, and while no status sink is set. Otherwise the supervisor is
    /// `Starting` and the bootstrap steps to carry out are returned; the
    /// caller then ends the start with `complete_start` or `abort_start`.
    pub fn start_server(&mut self, chain_type: ChainType, probe: BootstrapProbe) -> (r: Result<
        Vec<BootstrapStep>,
        NodeError,
    >)
        ensures
            *final(self) == old(self).after_start(chain_type),
            r is Ok <==> old(self).accepts_start(),
            r is Ok ==> r->Ok_0@ == bootstrap_steps(probe),
            !(old(self).phase is Idle) ==> r matches Err(NodeError::AlreadyActive),
            old(self).phase is Idle && old(self).ui_sender is None ==> r matches Err(
                NodeError::NoUiSender,
            ),
    {
        match &self.phase {
            Phase::Idle => {},
            _ => {
                return Err(NodeError::AlreadyActive);
            },
        }
        if self.ui_sender.is_none() {
            return Err(NodeError::NoUiSender);
        }
        self.phase = Phase::Starting(chain_type);
        Ok(probe.plan())
    }

    /// Ends a start whose bootstrap failed: back to `Idle`, with everything
    /// else as it was before the start.
    pub fn abort_start(&mut self, error: BootstrapError) -> (r: NodeError)
        requires
            old(self).phase is Starting,
        ensures
            *final(self) == (NodeInterface { phase: Phase::Idle, ..*old(self) }),
            r == NodeError::Bootstrap(error),
    {
        self.phase = Phase::Idle;
        NodeError::Bootstrap(error)
    }

    /// Ends a start whose bootstrap succeeded and whose background thread was
    /// spawned: the supervisor owns `handle` and is `Running`. Returns the
    /// policy the instance runs under.
    pub fn complete_start(&mut self, settings: NodeSettings, handle: H) -> (r: NodeRuntimePolicy)
        requires
            old(self).phase is Starting,
        ensures
            r == policy_for(old(self).phase->Starting_0, settings),
            *final(self) == (NodeInterface {
                chain_type: Some(old(self).phase->Starting_0),
                settings: Some(settings),
                phase: Phase::Running(
                    Instance { chain_type: old(self).phase->Starting_0, policy: r, handle },
                ),
                ..*old(self)
            }),
    {
        let chain = match &self.phase {
            Phase::Starting(c) => *c,
            _ => ChainType::Mainnet,
        };
        let policy = NodeRuntimePolicy::for_chain(chain, &settings);
        self.chain_type = Some(chain);
        self.settings = Some(settings);
        self.phase = Phase::Running(Instance { chain_type: chain, policy, handle });
        policy
    }

    /// Stops the running instance, if any. The supervisor gives up the
    /// instance's handle and is `Idle` at once, so a new start is accepted;
    /// the caller sends exactly one shutdown message through the handle and,
    /// if `join` is set, waits for the thread to exit before going on. With
    /// no running instance nothing changes.
    pub fn shutdown_server(&mut self, join: bool) -> (r: Option<StopOrder<H>>)
        ensures
            *final(self) == old(self).stopped(),
            r is Some <==> old(self).phase is Running,
            r is Some ==> r->Some_0.join == join && r->Some_0.handle
                == old(self).phase->Running_0.handle,
    {
        let mut phase = Phase::Idle;
        std::mem::swap(&mut self.phase, &mut phase);
        match phase {
            Phase::Running(instance) => Some(StopOrder { handle: instance.handle, join }),
            other => {
                self.phase = other;
                None
            },
        }
    }

    /// Restarts on `chain_type`: a stop that waits for the old thread to
    /// exit, then a start. The caller carries out the stop order, if any,
    /// before the bootstrap steps, so the new instance never opens the data
    /// directory while the old one still holds it.
    pub fn restart_server(&mut self, chain_type: ChainType, probe: BootstrapProbe) -> (r: (
        Option<StopOrder<H>>,
        Result<Vec<BootstrapStep>, NodeError>,
    ))
        ensures
            r.0 is Some <==> old(self).phase is Running,
            r.0 is Some ==> r.0->Some_0.join && r.0->Some_0.handle
                == old(self).phase->Running_0.handle,
            *final(self) == old(self).stopped().after_start(chain_type),
            r.1 is Ok <==> old(self).stopped().accepts_start(),
            r.1 is Ok ==> r.1->Ok_0@ == bootstrap_steps(probe),
    {
        let order = self.shutdown_server(true);
        let started = self.start_server(chain_type, probe);
        (order, started)
    }
}

/// Starting while an instance is running is refused and leaves the
/// supervisor, the running instance and its handle included, untouched: no
/// second instance is ever spawned.
pub proof fn lemma_start_while_running_refused<S, H>(ni: NodeInterface<S, H>, chain: ChainType)
    requires
        ni.phase is Running,
    ensures
        !ni.accepts_start(),
        ni.after_start(chain) == ni,
{
}

/// After a stop of a running instance, with the caller having waited for its
/// thread to exit, a new start is accepted.
pub proof fn lemma_start_after_stop<S, H>(ni: NodeInterface<S, H>)
    requires
        ni.phase is Running,
        ni.ui_sender is Some,
    ensures
        ni.stopped().accepts_start(),
        ni.stopped().phase is Idle,
{
}

} // verus!
