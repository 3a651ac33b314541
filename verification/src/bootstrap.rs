//! Bringing a runtime up: the connection protocol.
//!
//! The protocol is a state machine. It hands out the work that has to be done
//! outside ([`BootstrapAction`]) and takes in what came of it
//! ([`BootstrapEvent`]). The two backends are connected to concurrently: both
//! actions are handed out at once and their events are taken in whichever
//! order they come. The first failure of a connection ends the bootstrap; no
//! runtime is assembled then, and what comes in later is ignored. A
//! background server that cannot be started does not end it.

use crate::config::{RuntimeConfig, RuntimeConfigView};
use crate::distributed::{
    DistributedConfig, DistributedConfigView, DistributedRuntime, DistributedRuntimeView,
};
use crate::runtime::Runtime;
use crate::slot::LazySlot;
use crate::transports::{etcd, nats};
use tokio_util::sync::CancellationToken;
use vstd::prelude::*;

verus! {

/// Why no runtime was brought up. The error carries the options of the
/// connection that was attempted, and what the backend's client said.
#[derive(Debug)]
#[allow(inconsistent_fields)]
pub enum BootstrapError {
    /// The coordination backend could not be connected to.
    CoordinationConnect { options: etcd::ClientOptions, cause: String },
    /// The messaging backend could not be connected to.
    MessagingConnect { options: nats::ClientOptions, cause: String },
}

/// What a [`BootstrapError`] holds.
#[allow(inconsistent_fields)]
pub enum BootstrapErrorView {
    CoordinationConnect { options: etcd::ClientOptionsView, cause: Seq<char> },
    MessagingConnect { options: nats::ClientOptionsView, cause: Seq<char> },
}

impl View for BootstrapError {
    type V = BootstrapErrorView;

    open spec fn view(&self) -> BootstrapErrorView {
        match *self {
            BootstrapError::CoordinationConnect { options, cause } => {
                BootstrapErrorView::CoordinationConnect { options: options@, cause: cause@ }
            },
            BootstrapError::MessagingConnect { options, cause } => {
                BootstrapErrorView::MessagingConnect { options: options@, cause: cause@ }
            },
        }
    }
}

/// Work that the bootstrap asks its driver to do.
#[derive(Debug)]
pub enum BootstrapAction {
    /// Connect to the coordination backend with these options, on the
    /// secondary scheduling domain; answer with `CoordinationConnected` or
    /// `CoordinationFailed`.
    ConnectCoordination(etcd::ClientOptions),
    /// Connect to the messaging backend with these options, on the secondary
    /// scheduling domain; answer with `MessagingConnected` or
    /// `MessagingFailed`.
    ConnectMessaging(nats::ClientOptions),
    /// Load the ambient configuration of the background server; answer with
    /// `ServerConfigLoaded`.
    LoadServerConfig,
    /// Start the background server on this address, bound to this token, a
    /// child of the process's root token; answer with `ServerStarted` or
    /// `ServerFailed`.
    StartServer { host: String, port: u16, cancel_token: CancellationToken },
}

/// What a [`BootstrapAction`] holds, but for the token.
pub enum BootstrapActionView {
    ConnectCoordination(etcd::ClientOptionsView),
    ConnectMessaging(nats::ClientOptionsView),
    LoadServerConfig,
    StartServer { host: Seq<char>, port: u16 },
}

impl View for BootstrapAction {
    type V = BootstrapActionView;

    open spec fn view(&self) -> BootstrapActionView {
        match *self {
            BootstrapAction::ConnectCoordination(options) => {
                BootstrapActionView::ConnectCoordination(options@)
            },
            BootstrapAction::ConnectMessaging(options) => {
                BootstrapActionView::ConnectMessaging(options@)
            },
            BootstrapAction::LoadServerConfig => BootstrapActionView::LoadServerConfig,
            BootstrapAction::StartServer { host, port, cancel_token } => {
                BootstrapActionView::StartServer { host: host@, port }
            },
        }
    }
}

/// What the actions of `actions` hold, in order.
pub open spec fn action_views(actions: Seq<BootstrapAction>) -> Seq<BootstrapActionView> {
    Seq::new(actions.len(), |i: int| actions[i]@)
}

/// What came of an action.
#[derive(Debug)]
pub enum BootstrapEvent {
    /// The coordination backend is connected, and granted this lease.
    CoordinationConnected(etcd::Lease),
    /// The coordination backend could not be connected to.
    CoordinationFailed(String),
    /// The messaging backend is connected.
    MessagingConnected,
    /// The messaging backend could not be connected to.
    MessagingFailed(String),
    /// The ambient configuration, or nothing where it could not be loaded.
    ServerConfigLoaded(Option<RuntimeConfig>),
    /// The background server is listening.
    ServerStarted,
    /// The background server could not be started.
    ServerFailed(String),
}

/// What a [`BootstrapEvent`] holds.
pub enum BootstrapEventView {
    CoordinationConnected(etcd::Lease),
    CoordinationFailed(Seq<char>),
    MessagingConnected,
    MessagingFailed(Seq<char>),
    ServerConfigLoaded(Option<RuntimeConfigView>),
    ServerStarted,
    ServerFailed(Seq<char>),
}

impl View for BootstrapEvent {
    type V = BootstrapEventView;

    open spec fn view(&self) -> BootstrapEventView {
        match *self {
            BootstrapEvent::CoordinationConnected(lease) => {
                BootstrapEventView::CoordinationConnected(lease)
            },
            BootstrapEvent::CoordinationFailed(cause) => {
                BootstrapEventView::CoordinationFailed(cause@)
            },
            BootstrapEvent::MessagingConnected => BootstrapEventView::MessagingConnected,
            BootstrapEvent::MessagingFailed(cause) => BootstrapEventView::MessagingFailed(cause@),
            BootstrapEvent::ServerConfigLoaded(loaded) => BootstrapEventView::ServerConfigLoaded(
                match loaded {
                    Some(config) => Some(config@),
                    None => None,
                },
            ),
            BootstrapEvent::ServerStarted => BootstrapEventView::ServerStarted,
            BootstrapEvent::ServerFailed(cause) => BootstrapEventView::ServerFailed(cause@),
        }
    }
}

/// Where a bootstrap stands.
pub enum BootstrapView {
    /// The connections are being made. `coordination` holds the lease once
    /// the coordination backend is connected; `messaging` says whether the
    /// messaging backend is.
    Connecting {
        config: DistributedConfigView,
        coordination: Option<etcd::Lease>,
        messaging: bool,
    },
    /// The runtime is assembled; the ambient configuration is being loaded.
    LoadingServerConfig { runtime: DistributedRuntimeView },
    /// The runtime is assembled; the background server is being started.
    StartingServer { runtime: DistributedRuntimeView },
    /// The runtime is there.
    Ready { runtime: DistributedRuntimeView },
    /// A connection failed: there is no runtime.
    Failed { error: BootstrapErrorView },
}

impl BootstrapView {
    /// Whether the bootstrap has ended.
    pub open spec fn is_terminal(self) -> bool {
        self is Ready || self is Failed
    }
}

/// The runtime that is assembled from `config` once the connections are
/// made: it has a client of the coordination backend, holding the lease that
/// was granted, unless it is static; it has a client of the messaging
/// backend; its server slot and its registries are empty.
pub open spec fn assembled_spec(
    config: DistributedConfigView,
    coordination: Option<etcd::Lease>,
) -> DistributedRuntimeView {
    DistributedRuntimeView {
        etcd_client: match coordination {
            Some(lease) if !config.is_static => Some(
                etcd::ClientView { options: config.etcd_config, primary_lease: lease },
            ),
            _ => None,
        },
        nats_client: nats::ClientView { options: config.nats_config },
        tcp_server: LazySlot::Empty,
        component_registry: Set::empty(),
        instance_sources: Map::empty(),
    }
}

/// Where a bootstrap begins, and the actions it begins with: both
/// connections at once, or the messaging connection alone in static mode.
pub open spec fn begin_spec(config: DistributedConfigView) -> (
    BootstrapView,
    Seq<BootstrapActionView>,
) {
    (
        BootstrapView::Connecting { config, coordination: None, messaging: false },
        if config.is_static {
            seq![BootstrapActionView::ConnectMessaging(config.nats_config)]
        } else {
            seq![
                BootstrapActionView::ConnectCoordination(config.etcd_config),
                BootstrapActionView::ConnectMessaging(config.nats_config),
            ]
        },
    )
}

/// Where a bootstrap stands once a connection was made: it goes on to load
/// the ambient configuration if no connection is missing, and waits for the
/// other one otherwise.
pub open spec fn connected_spec(
    config: DistributedConfigView,
    coordination: Option<etcd::Lease>,
    messaging: bool,
) -> (BootstrapView, Seq<BootstrapActionView>) {
    if messaging && (config.is_static || coordination is Some) {
        (
            BootstrapView::LoadingServerConfig { runtime: assembled_spec(config, coordination) },
            seq![BootstrapActionView::LoadServerConfig],
        )
    } else {
        (BootstrapView::Connecting { config, coordination, messaging }, Seq::empty())
    }
}

/// Where a bootstrap that stands at `state` goes on `event`, and the actions
/// it hands out. An event that answers no action that is under way changes
/// nothing.
pub open spec fn step_spec(state: BootstrapView, event: BootstrapEventView) -> (
    BootstrapView,
    Seq<BootstrapActionView>,
) {
    match state {
        BootstrapView::Connecting { config, coordination, messaging } => match event {
            BootstrapEventView::CoordinationConnected(lease) => {
                if config.is_static || coordination is Some {
                    (state, Seq::empty())
                } else {
                    connected_spec(config, Some(lease), messaging)
                }
            },
            BootstrapEventView::CoordinationFailed(cause) => {
                if config.is_static || coordination is Some {
                    (state, Seq::empty())
                } else {
                    (
                        BootstrapView::Failed {
                            error: BootstrapErrorView::CoordinationConnect {
                                options: config.etcd_config,
                                cause,
                            },
                        },
                        Seq::empty(),
                    )
                }
            },
            BootstrapEventView::MessagingConnected => {
                if messaging {
                    (state, Seq::empty())
                } else {
                    connected_spec(config, coordination, true)
                }
            },
            BootstrapEventView::MessagingFailed(cause) => {
                if messaging {
                    (state, Seq::empty())
                } else {
                    (
                        BootstrapView::Failed {
                            error: BootstrapErrorView::MessagingConnect {
                                options: config.nats_config,
                                cause,
                            },
                        },
                        Seq::empty(),
                    )
                }
            },
            _ => (state, Seq::empty()),
        },
        BootstrapView::LoadingServerConfig { runtime } => match event {
            BootstrapEventView::ServerConfigLoaded(loaded) => {
                let server = RuntimeConfig::or_default_view(loaded);
                if server.system_enabled {
                    (
                        BootstrapView::StartingServer { runtime },
                        seq![
                            BootstrapActionView::StartServer {
                                host: server.system_host,
                                port: server.system_port,
                            },
                        ],
                    )
                } else {
                    (BootstrapView::Ready { runtime }, Seq::empty())
                }
            },
            _ => (state, Seq::empty()),
        },
        BootstrapView::StartingServer { runtime } => match event {
            BootstrapEventView::ServerStarted => (BootstrapView::Ready { runtime }, Seq::empty()),
            BootstrapEventView::ServerFailed(_) => (BootstrapView::Ready { runtime }, Seq::empty()),
            _ => (state, Seq::empty()),
        },
        BootstrapView::Ready { .. } => (state, Seq::empty()),
        BootstrapView::Failed { .. } => (state, Seq::empty()),
    }
}

/// Where a bootstrap that stands at `state` has got to when `events` have
/// come in, in order, and all the actions it has handed out on the way.
pub open spec fn run_spec(state: BootstrapView, events: Seq<BootstrapEventView>) -> (
    BootstrapView,
    Seq<BootstrapActionView>,
)
    decreases events.len(),
{
    if events.len() == 0 {
        (state, Seq::empty())
    } else {
        let (next, first) = step_spec(state, events[0]);
        let (last, rest) = run_spec(next, events.drop_first());
        (last, first + rest)
    }
}

#[allow(inconsistent_fields)]
enum Phase {
    Connecting {
        runtime: Runtime,
        config: DistributedConfig,
        coordination: Option<etcd::Lease>,
        messaging: bool,
    },
    LoadingServerConfig { runtime: DistributedRuntime },
    StartingServer { runtime: DistributedRuntime },
    Ready { runtime: DistributedRuntime },
    Failed { error: BootstrapError },
}

/// A bootstrap under way.
pub struct Bootstrap {
    phase: Phase,
}

impl View for Bootstrap {
    type V = BootstrapView;

    closed spec fn view(&self) -> BootstrapView {
        match self.phase {
            Phase::Connecting { runtime, config, coordination, messaging } => {
                BootstrapView::Connecting { config: config@, coordination, messaging }
            },
            Phase::LoadingServerConfig { runtime } => BootstrapView::LoadingServerConfig {
                runtime: runtime@,
            },
            Phase::StartingServer { runtime } => BootstrapView::StartingServer {
                runtime: runtime@,
            },
            Phase::Ready { runtime } => BootstrapView::Ready { runtime: runtime@ },
            Phase::Failed { error } => BootstrapView::Failed { error: error@ },
        }
    }
}

impl Bootstrap {
    /// The execution context that the runtime is, or will be, assembled on.
    /// A bootstrap that failed has let go of it.
    pub closed spec fn context(&self) -> Option<Runtime> {
        match self.phase {
            Phase::Connecting { runtime, .. } => Some(runtime),
            Phase::LoadingServerConfig { runtime } => Some(runtime.runtime_spec()),
            Phase::StartingServer { runtime } => Some(runtime.runtime_spec()),
            Phase::Ready { runtime } => Some(runtime.runtime_spec()),
            Phase::Failed { .. } => None,
        }
    }

    /// Begins to bring up a runtime on `runtime` with `config`. The actions
    /// that come back are to be done concurrently.
    pub fn begin(runtime: Runtime, config: DistributedConfig) -> (begun: (
        Bootstrap,
        Vec<BootstrapAction>,
    ))
        ensures
            (begun.0@, action_views(begun.1@)) == begin_spec(config@),
            begun.0.context() == Some(runtime),
    {
        let mut actions: Vec<BootstrapAction> = Vec::new();
        if !config.is_static {
            actions.push(BootstrapAction::ConnectCoordination(config.etcd_config.clone()));
        }
        actions.push(BootstrapAction::ConnectMessaging(config.nats_config.clone()));
        proof {
            assert(action_views(actions@) =~= begin_spec(config@).1);
        }
        let bootstrap = Bootstrap {
            phase: Phase::Connecting { runtime, config, coordination: None, messaging: false },
        };
        (bootstrap, actions)
    }

    fn connected(
        runtime: Runtime,
        config: DistributedConfig,
        coordination: Option<etcd::Lease>,
        messaging: bool,
    ) -> (next: (Bootstrap, Vec<BootstrapAction>))
        ensures
            (next.0@, action_views(next.1@)) == connected_spec(config@, coordination, messaging),
            next.0.context() == Some(runtime),
            forall|i: int| 0 <= i < next.1@.len() ==> !(#[trigger] next.1@[i] is StartServer),
    {
        let mut actions: Vec<BootstrapAction> = Vec::new();
        if messaging && (config.is_static || coordination.is_some()) {
            let (etcd_config, nats_config, is_static) = config.dissolve();
            let etcd_client = match coordination {
                Some(lease) => if is_static {
                    None
                } else {
                    Some(etcd::Client::new(etcd_config, lease))
                },
                None => None,
            };
            let assembled = DistributedRuntime::assemble(
                runtime,
                etcd_client,
                nats::Client::new(nats_config),
            );
            actions.push(BootstrapAction::LoadServerConfig);
            proof {
                assert(action_views(actions@) =~= seq![BootstrapActionView::LoadServerConfig]);
                assert(assembled@ == assembled_spec(config@, coordination));
            }
            (Bootstrap { phase: Phase::LoadingServerConfig { runtime: assembled } }, actions)
        } else {
            proof {
                assert(action_views(actions@) =~= Seq::<BootstrapActionView>::empty());
            }
            (
                Bootstrap { phase: Phase::Connecting { runtime, config, coordination, messaging } },
                actions,
            )
        }
    }

    fn unchanged(phase: Phase) -> (next: (Bootstrap, Vec<BootstrapAction>))
        ensures
            next.0.phase == phase,
            next.1@.len() == 0,
            action_views(next.1@) == Seq::<BootstrapActionView>::empty(),
    {
        let actions: Vec<BootstrapAction> = Vec::new();
        proof {
            assert(action_views(actions@) =~= Seq::<BootstrapActionView>::empty());
        }
        (Bootstrap { phase }, actions)
    }

    /// Takes in `event` and hands out the actions that follow from it.
    pub fn step(self, event: BootstrapEvent) -> (next: (Bootstrap, Vec<BootstrapAction>))
        ensures
            (next.0@, action_views(next.1@)) == step_spec(self@, event@),
            next.0.context() == if next.0@ is Failed {
                None
            } else {
                self.context()
            },
            forall|i: int|
                0 <= i < next.1@.len() ==> (#[trigger] next.1@[i]
                    matches BootstrapAction::StartServer { cancel_token, .. }
                    ==> self.context() matches Some(context) && cancel_token != context.root()),
    {
        match self.phase {
            Phase::Connecting { runtime, config, coordination, messaging } => match event {
                BootstrapEvent::CoordinationConnected(lease) => {
                    if config.is_static || coordination.is_some() {
                        Bootstrap::unchanged(
                            Phase::Connecting { runtime, config, coordination, messaging },
                        )
                    } else {
                        Bootstrap::connected(runtime, config, Some(lease), messaging)
                    }
                },
                BootstrapEvent::CoordinationFailed(cause) => {
                    if config.is_static || coordination.is_some() {
                        Bootstrap::unchanged(
                            Phase::Connecting { runtime, config, coordination, messaging },
                        )
                    } else {
                        let (options, _, _) = config.dissolve();
                        Bootstrap::unchanged(
                            Phase::Failed {
                                error: BootstrapError::CoordinationConnect { options, cause },
                            },
                        )
                    }
                },
                BootstrapEvent::MessagingConnected => {
                    if messaging {
                        Bootstrap::unchanged(
                            Phase::Connecting { runtime, config, coordination, messaging },
                        )
                    } else {
                        Bootstrap::connected(runtime, config, coordination, true)
                    }
                },
                BootstrapEvent::MessagingFailed(cause) => {
                    if messaging {
                        Bootstrap::unchanged(
                            Phase::Connecting { runtime, config, coordination, messaging },
                        )
                    } else {
                        let (_, options, _) = config.dissolve();
                        Bootstrap::unchanged(
                            Phase::Failed {
                                error: BootstrapError::MessagingConnect { options, cause },
                            },
                        )
                    }
                },
                _ => Bootstrap::unchanged(
                    Phase::Connecting { runtime, config, coordination, messaging },
                ),
            },
            Phase::LoadingServerConfig { runtime } => match event {
                BootstrapEvent::ServerConfigLoaded(loaded) => {
                    let server = RuntimeConfig::from_settings(loaded);
                    if server.system_server_enabled() {
                        let cancel_token = runtime.child_token();
                        let mut actions: Vec<BootstrapAction> = Vec::new();
                        actions.push(
                            BootstrapAction::StartServer {
                                host: server.system_host,
                                port: server.system_port,
                                cancel_token,
                            },
                        );
                        proof {
                            assert(action_views(actions@) =~= step_spec(self@, event@).1);
                        }
                        (Bootstrap { phase: Phase::StartingServer { runtime } }, actions)
                    } else {
                        Bootstrap::unchanged(Phase::Ready { runtime })
                    }
                },
                _ => Bootstrap::unchanged(Phase::LoadingServerConfig { runtime }),
            },
            Phase::StartingServer { runtime } => match event {
                BootstrapEvent::ServerStarted => Bootstrap::unchanged(Phase::Ready { runtime }),
                BootstrapEvent::ServerFailed(_) => Bootstrap::unchanged(Phase::Ready { runtime }),
                _ => Bootstrap::unchanged(Phase::StartingServer { runtime }),
            },
            Phase::Ready { runtime } => Bootstrap::unchanged(Phase::Ready { runtime }),
            Phase::Failed { error } => Bootstrap::unchanged(Phase::Failed { error }),
        }
    }

    /// Whether the bootstrap has ended, with a runtime or with an error.
    pub fn is_terminal(&self) -> (terminal: bool)
        ensures
            terminal == self@.is_terminal(),
    {
        match &self.phase {
            Phase::Ready { .. } => true,
            Phase::Failed { .. } => true,
            _ => false,
        }
    }

    /// Whether a runtime was brought up.
    pub fn is_ready(&self) -> (ready: bool)
        ensures
            ready == (self@ is Ready),
    {
        match &self.phase {
            Phase::Ready { .. } => true,
            _ => false,
        }
    }

    /// What a bootstrap that has ended came to: the runtime, on the execution
    /// context it was begun with, or the error of the connection that failed.
    pub fn finish(self) -> (outcome: Result<DistributedRuntime, BootstrapError>)
        requires
            self@.is_terminal(),
        ensures
            match outcome {
                Ok(runtime) => self@ == (BootstrapView::Ready { runtime: runtime@ })
                    && self.context() == Some(runtime.runtime_spec()),
                Err(error) => self@ == (BootstrapView::Failed { error: error@ }),
            },
    {
        match self.phase {
            Phase::Ready { runtime } => Ok(runtime),
            Phase::Failed { error } => Err(error),
            _ => {
                proof {
                    assert(false);
                }
                unreached()
            },
        }
    }
}

/// Whether `state` belongs to a bootstrap that does without discovery.
pub open spec fn is_static_state(state: BootstrapView) -> bool {
    match state {
        BootstrapView::Connecting { config, .. } => config.is_static,
        BootstrapView::LoadingServerConfig { runtime } => runtime.is_static(),
        BootstrapView::StartingServer { runtime } => runtime.is_static(),
        BootstrapView::Ready { runtime } => runtime.is_static(),
        BootstrapView::Failed { .. } => true,
    }
}

/// Whether none of `actions` connects to the coordination backend.
pub open spec fn no_coordination_connect(actions: Seq<BootstrapActionView>) -> bool {
    forall|i: int| 0 <= i < actions.len() ==> !(#[trigger] actions[i] is ConnectCoordination)
}

proof fn lemma_run_concat(
    state: BootstrapView,
    first: Seq<BootstrapEventView>,
    second: Seq<BootstrapEventView>,
)
    ensures
        run_spec(state, first + second) == ({
            let (middle, early) = run_spec(state, first);
            let (last, late) = run_spec(middle, second);
            (last, early + late)
        }),
    decreases first.len(),
{
    let (middle, early) = run_spec(state, first);
    let (last, late) = run_spec(middle, second);
    if first.len() == 0 {
        assert(first + second =~= second);
        assert(early + late =~= late);
    } else {
        let (next, head) = step_spec(state, first[0]);
        assert((first + second).drop_first() =~= first.drop_first() + second);
        assert((first + second)[0] == first[0]);
        lemma_run_concat(next, first.drop_first(), second);
        let (_, tail) = run_spec(next, first.drop_first());
        assert(head + (tail + late) =~= (head + tail) + late);
    }
}

proof fn lemma_run_one(state: BootstrapView, event: BootstrapEventView)
    ensures
        run_spec(state, seq![event]) == step_spec(state, event),
{
    let (next, first) = step_spec(state, event);
    assert(seq![event].drop_first() =~= Seq::<BootstrapEventView>::empty());
    assert(run_spec(next, Seq::<BootstrapEventView>::empty()) == (
        next,
        Seq::<BootstrapActionView>::empty(),
    ));
    assert(first + Seq::<BootstrapActionView>::empty() =~= first);
}

/// A bootstrap that has ended stays where it is, whatever comes in, and
/// hands out nothing more. In particular a bootstrap that failed never comes
/// to a runtime.
pub proof fn lemma_end_is_final(state: BootstrapView, events: Seq<BootstrapEventView>)
    requires
        state.is_terminal(),
    ensures
        run_spec(state, events) == (state, Seq::<BootstrapActionView>::empty()),
    decreases events.len(),
{
    if events.len() > 0 {
        lemma_end_is_final(state, events.drop_first());
        assert(Seq::<BootstrapActionView>::empty() + Seq::<BootstrapActionView>::empty()
            =~= Seq::<BootstrapActionView>::empty());
    }
}

proof fn lemma_static_run(state: BootstrapView, events: Seq<BootstrapEventView>)
    requires
        is_static_state(state),
    ensures
        is_static_state(run_spec(state, events).0),
        no_coordination_connect(run_spec(state, events).1),
    decreases events.len(),
{
    if events.len() > 0 {
        let (next, first) = step_spec(state, events[0]);
        lemma_static_run(next, events.drop_first());
    }
}

/// In static mode no connection to the coordination backend is attempted,
/// neither at the beginning nor on any event, whatever events come in and in
/// whatever order; and the runtime that the bootstrap comes to, if it comes
/// to one, is static and has no lease.
pub proof fn lemma_static_bootstrap_skips_coordination(
    config: DistributedConfigView,
    events: Seq<BootstrapEventView>,
)
    requires
        config.is_static,
    ensures
        no_coordination_connect(begin_spec(config).1),
        no_coordination_connect(run_spec(begin_spec(config).0, events).1),
        run_spec(begin_spec(config).0, events).0 matches BootstrapView::Ready { runtime }
            ==> runtime.is_static() && runtime.primary_lease() is None,
{
    lemma_static_run(begin_spec(config).0, events);
}

/// The events of a bootstrap in which every backend is reachable: the two
/// connections in either order (in static mode the messaging connection
/// alone), then the ambient configuration, and, where that asks for the
/// background server, the outcome of starting it.
pub open spec fn reachable_events(
    config: DistributedConfigView,
    lease: etcd::Lease,
    coordination_first: bool,
    loaded: Option<RuntimeConfigView>,
    server_outcome: BootstrapEventView,
) -> Seq<BootstrapEventView> {
    let connections = if config.is_static {
        seq![BootstrapEventView::MessagingConnected]
    } else if coordination_first {
        seq![
            BootstrapEventView::CoordinationConnected(lease),
            BootstrapEventView::MessagingConnected,
        ]
    } else {
        seq![
            BootstrapEventView::MessagingConnected,
            BootstrapEventView::CoordinationConnected(lease),
        ]
    };
    let configured = connections.push(BootstrapEventView::ServerConfigLoaded(loaded));
    if RuntimeConfig::or_default_view(loaded).system_enabled {
        configured.push(server_outcome)
    } else {
        configured
    }
}

/// With both backends reachable the bootstrap comes to a runtime, in
/// whichever order the connections are made and whether or not the background
/// server could be started. With discovery, the runtime's lease is the one
/// that the coordination backend granted. The background server is started
/// exactly where the ambient configuration asks for it, on the configured
/// address.
pub proof fn lemma_reachable_backends_give_a_runtime(
    config: DistributedConfigView,
    lease: etcd::Lease,
    coordination_first: bool,
    loaded: Option<RuntimeConfigView>,
    server_outcome: BootstrapEventView,
)
    requires
        server_outcome is ServerStarted || server_outcome is ServerFailed,
    ensures
        ({
            let events = reachable_events(
                config,
                lease,
                coordination_first,
                loaded,
                server_outcome,
            );
            let (last, actions) = run_spec(begin_spec(config).0, events);
            let server = RuntimeConfig::or_default_view(loaded);
            &&& last == BootstrapView::Ready { runtime: assembled_spec(config, Some(lease)) }
            &&& !config.is_static ==> assembled_spec(config, Some(lease)).primary_lease() == Some(
                lease,
            )
            &&& config.is_static ==> assembled_spec(config, Some(lease)).primary_lease() is None
            &&& actions == if server.system_enabled {
                seq![
                    BootstrapActionView::LoadServerConfig,
                    BootstrapActionView::StartServer {
                        host: server.system_host,
                        port: server.system_port,
                    },
                ]
            } else {
                seq![BootstrapActionView::LoadServerConfig]
            }
        }),
{
    let begun = begin_spec(config).0;
    let server = RuntimeConfig::or_default_view(loaded);
    let connections = if config.is_static {
        seq![BootstrapEventView::MessagingConnected]
    } else if coordination_first {
        seq![
            BootstrapEventView::CoordinationConnected(lease),
            BootstrapEventView::MessagingConnected,
        ]
    } else {
        seq![
            BootstrapEventView::MessagingConnected,
            BootstrapEventView::CoordinationConnected(lease),
        ]
    };
    let runtime = assembled_spec(config, Some(lease));
    let loading = BootstrapView::LoadingServerConfig { runtime };
    let none = Seq::<BootstrapActionView>::empty();
    let load = seq![BootstrapActionView::LoadServerConfig];
    assert(run_spec(begun, connections) == (loading, load)) by {
        if config.is_static {
            lemma_run_one(begun, BootstrapEventView::MessagingConnected);
            assert(assembled_spec(config, None) == runtime);
        } else {
            let first = connections[0];
            let second = connections[1];
            assert(connections =~= seq![first] + seq![second]);
            lemma_run_concat(begun, seq![first], seq![second]);
            lemma_run_one(begun, first);
            lemma_run_one(step_spec(begun, first).0, second);
            assert(none + load =~= load);
        }
    }
    let config_event = BootstrapEventView::ServerConfigLoaded(loaded);
    let configured = connections.push(config_event);
    assert(configured =~= connections + seq![config_event]);
    lemma_run_concat(begun, connections, seq![config_event]);
    lemma_run_one(loading, config_event);
    if server.system_enabled {
        let start = seq![
            BootstrapActionView::StartServer { host: server.system_host, port: server.system_port },
        ];
        let starting = BootstrapView::StartingServer { runtime };
        assert(run_spec(begun, configured) == (starting, load + start));
        let events = configured.push(server_outcome);
        assert(events =~= configured + seq![server_outcome]);
        lemma_run_concat(begun, configured, seq![server_outcome]);
        lemma_run_one(starting, server_outcome);
        assert((load + start) + none =~= seq![
            BootstrapActionView::LoadServerConfig,
            BootstrapActionView::StartServer {
                host: server.system_host,
                port: server.system_port,
            },
        ]);
    } else {
        assert(load + none =~= load);
    }
}

/// The error of a bootstrap whose connection to a backend failed with
/// `cause`: it names the backend and carries the options of the attempt.
pub open spec fn connect_error(
    config: DistributedConfigView,
    coordination_failed: bool,
    cause: Seq<char>,
) -> BootstrapErrorView {
    if coordination_failed {
        BootstrapErrorView::CoordinationConnect { options: config.etcd_config, cause }
    } else {
        BootstrapErrorView::MessagingConnect { options: config.nats_config, cause }
    }
}

/// If a backend that the bootstrap connects to is unreachable, the bootstrap
/// fails, with the error of that connection, whether the other connection
/// was made before the failure came in or not, and whatever comes in
/// afterwards: the other backend's success or failure changes nothing, no
/// further action is handed out, and no runtime is assembled.
pub proof fn lemma_unreachable_backend_fails_bootstrap(
    config: DistributedConfigView,
    coordination_failed: bool,
    other_connected_before: Option<etcd::Lease>,
    cause: Seq<char>,
    later: Seq<BootstrapEventView>,
)
    requires
        coordination_failed ==> !config.is_static,
    ensures
        ({
            let failure = if coordination_failed {
                BootstrapEventView::CoordinationFailed(cause)
            } else {
                BootstrapEventView::MessagingFailed(cause)
            };
            let before = match other_connected_before {
                Some(lease) => if coordination_failed {
                    seq![BootstrapEventView::MessagingConnected]
                } else {
                    seq![BootstrapEventView::CoordinationConnected(lease)]
                },
                None => Seq::empty(),
            };
            let (last, actions) = run_spec(begin_spec(config).0, before.push(failure) + later);
            &&& last == BootstrapView::Failed {
                error: connect_error(config, coordination_failed, cause),
            }
            &&& actions == Seq::<BootstrapActionView>::empty()
        }),
{
    let begun = begin_spec(config).0;
    let failure = if coordination_failed {
        BootstrapEventView::CoordinationFailed(cause)
    } else {
        BootstrapEventView::MessagingFailed(cause)
    };
    let before = match other_connected_before {
        Some(lease) => if coordination_failed {
            seq![BootstrapEventView::MessagingConnected]
        } else {
            seq![BootstrapEventView::CoordinationConnected(lease)]
        },
        None => Seq::empty(),
    };
    let failed = BootstrapView::Failed {
        error: connect_error(config, coordination_failed, cause),
    };
    let none = Seq::<BootstrapActionView>::empty();
    assert(before.push(failure) =~= before + seq![failure]);
    let middle = run_spec(begun, before).0;
    assert(run_spec(begun, before) == (middle, none) && step_spec(middle, failure) == (
        failed,
        none,
    )) by {
        if other_connected_before is Some {
            lemma_run_one(begun, before[0]);
            assert(before =~= seq![before[0]]);
        }
    }
    lemma_run_one(middle, failure);
    lemma_run_concat(begun, before, seq![failure]);
    assert(none + none =~= none);
    lemma_run_concat(begun, before.push(failure), later);
    lemma_end_is_final(failed, later);
}

} // verus!
