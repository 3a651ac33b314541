//! The root object of a process in the cluster, and the configuration it is
//! brought up with.

use crate::bootstrap::{action_views, begin_spec, Bootstrap, BootstrapAction};
use crate::component::{
    check_name_spec, ComponentView, EndpointView, NameError, Namespace, NamespaceView, Registry,
};
use crate::discovery::{DiscoveryClient, DiscoveryClientView};
use crate::instance::{InstanceRef, InstanceSourceRegistry};
use crate::metrics::{identity_path_of, MetricsRegistry};
use crate::runtime::Runtime;
use crate::service::ServiceClient;
use crate::slot::{
    abandon_spec, claim_spec, fulfil_spec, lemma_all_claims_resolve_to_one_resource,
    lemma_concurrent_claims_construct_once, lemma_failed_construction_is_retried,
    slot_after_claims, Claim, LazySlot,
};
use crate::transports::{etcd, nats, tcp};
use tokio_util::sync::CancellationToken;
use vstd::prelude::*;

verus! {

/// The segments above a namespace: the root's ancestors, of which there are
/// none, and the root's own segment, which is empty.
pub open spec fn root_segments() -> Seq<Seq<char>> {
    seq![Seq::<char>::empty()]
}

/// What the slot of the stream server holds.
pub open spec fn server_slot_view(slot: LazySlot<tcp::TcpStreamServer>) -> LazySlot<
    tcp::TcpStreamServerView,
> {
    match slot {
        LazySlot::Empty => LazySlot::Empty,
        LazySlot::InProgress => LazySlot::InProgress,
        LazySlot::Ready(server) => LazySlot::Ready(server@),
    }
}

/// What a caller that asked for the stream server has to do.
#[derive(Debug)]
pub enum ServerClaim {
    /// Build the server from these options, then report back with
    /// [`DistributedRuntime::tcp_server_started`] or
    /// [`DistributedRuntime::tcp_server_failed`].
    Construct(tcp::ServerOptions),
    /// Another caller is building the server: wait until it has reported
    /// back, then ask again.
    Wait,
    /// The server is there.
    Ready(tcp::TcpStreamServer),
}

/// What a [`ServerClaim`] holds.
pub enum ServerClaimView {
    Construct(tcp::ServerOptionsView),
    Wait,
    Ready(tcp::TcpStreamServerView),
}

impl View for ServerClaim {
    type V = ServerClaimView;

    open spec fn view(&self) -> ServerClaimView {
        match *self {
            ServerClaim::Construct(options) => ServerClaimView::Construct(options@),
            ServerClaim::Wait => ServerClaimView::Wait,
            ServerClaim::Ready(server) => ServerClaimView::Ready(server@),
        }
    }
}

/// The answer to a caller that asks for the stream server while the slot
/// holds `slot`: the first caller builds it from the default options, callers
/// that come while it is built wait, and callers that come later get it.
pub open spec fn server_claim_spec(slot: LazySlot<tcp::TcpStreamServerView>) -> ServerClaimView {
    match slot {
        LazySlot::Empty => ServerClaimView::Construct(tcp::ServerOptions::default_view()),
        LazySlot::InProgress => ServerClaimView::Wait,
        LazySlot::Ready(server) => ServerClaimView::Ready(server),
    }
}

/// The root object: it holds the execution context, the clients of the two
/// backends, the slot of the stream server and the registry of instance
/// sources.
///
/// A runtime without a client of the coordination backend is static: its
/// units stay out of discovery, and it has no lease.
pub struct DistributedRuntime {
    runtime: Runtime,
    etcd_client: Option<etcd::Client>,
    nats_client: nats::Client,
    tcp_server: LazySlot<tcp::TcpStreamServer>,
    component_registry: Registry,
    instance_sources: InstanceSourceRegistry,
}

/// What a [`DistributedRuntime`] holds, but for its execution context.
pub struct DistributedRuntimeView {
    pub etcd_client: Option<etcd::ClientView>,
    pub nats_client: nats::ClientView,
    pub tcp_server: LazySlot<tcp::TcpStreamServerView>,
    pub component_registry: Set<ComponentView>,
    pub instance_sources: Map<EndpointView, InstanceRef>,
}

impl DistributedRuntimeView {
    /// Whether the runtime works without discovery.
    pub open spec fn is_static(self) -> bool {
        self.etcd_client is None
    }

    /// The lease that the runtime's components are attached to.
    pub open spec fn primary_lease(self) -> Option<etcd::Lease> {
        match self.etcd_client {
            Some(client) => Some(client.primary_lease),
            None => None,
        }
    }
}

impl View for DistributedRuntime {
    type V = DistributedRuntimeView;

    closed spec fn view(&self) -> DistributedRuntimeView {
        DistributedRuntimeView {
            etcd_client: match self.etcd_client {
                Some(client) => Some(client@),
                None => None,
            },
            nats_client: self.nats_client@,
            tcp_server: server_slot_view(self.tcp_server),
            component_registry: self.component_registry@,
            instance_sources: self.instance_sources@,
        }
    }
}

impl MetricsRegistry for DistributedRuntime {
    /// The root has no segment of its own: names begin with the namespace.
    open spec fn basename_spec(&self) -> Seq<char> {
        Seq::empty()
    }

    /// The root has no ancestors.
    open spec fn parent_hierarchy_spec(&self) -> Seq<Seq<char>> {
        Seq::empty()
    }

    fn basename(&self) -> (name: String) {
        String::new()
    }

    fn parent_hierarchy(&self) -> (names: Vec<String>) {
        let names: Vec<String> = Vec::new();
        assert(names.deep_view() =~= Seq::<Seq<char>>::empty());
        names
    }
}

impl DistributedRuntime {
    /// The execution context the runtime was assembled on.
    pub closed spec fn runtime_spec(&self) -> Runtime {
        self.runtime
    }

    /// Begins to bring up a runtime on `runtime` with `config`. Connecting is
    /// left to the caller: it does the actions that come back, concurrently,
    /// and hands what came of them to [`Bootstrap::step`], until the bootstrap
    /// has ended and [`Bootstrap::finish`] gives the runtime or the error.
    pub fn new(runtime: Runtime, config: DistributedConfig) -> (begun: (
        Bootstrap,
        Vec<BootstrapAction>,
    ))
        ensures
            (begun.0@, action_views(begun.1@)) == begin_spec(config@),
            begun.0.context() == Some(runtime),
    {
        Bootstrap::begin(runtime, config)
    }

    /// Begins to bring up a runtime with discovery, on the default options of
    /// both backends.
    pub fn from_settings(runtime: Runtime) -> (begun: (Bootstrap, Vec<BootstrapAction>))
        ensures
            (begun.0@, action_views(begun.1@)) == begin_spec(
                DistributedConfigView {
                    etcd_config: etcd::ClientOptions::default_view(),
                    nats_config: nats::ClientOptions::default_view(),
                    is_static: false,
                },
            ),
            begun.0.context() == Some(runtime),
    {
        let config = DistributedConfig::from_settings(false);
        DistributedRuntime::new(runtime, config)
    }

    /// Begins to bring up a runtime for static workers, which do without
    /// discovery, on the default options of the messaging backend.
    pub fn from_settings_without_discovery(runtime: Runtime) -> (begun: (
        Bootstrap,
        Vec<BootstrapAction>,
    ))
        ensures
            (begun.0@, action_views(begun.1@)) == begin_spec(
                DistributedConfigView {
                    etcd_config: etcd::ClientOptions::default_view(),
                    nats_config: nats::ClientOptions::default_view(),
                    is_static: true,
                },
            ),
            begun.0.context() == Some(runtime),
    {
        let config = DistributedConfig::from_settings(true);
        DistributedRuntime::new(runtime, config)
    }

    /// Assembles the runtime from the execution context and the clients of
    /// the connections that were made: the slot of the stream server is empty
    /// and so are the registry of components and the registry of instance
    /// sources. Without a client of the coordination backend the runtime is
    /// static.
    pub fn assemble(
        runtime: Runtime,
        etcd_client: Option<etcd::Client>,
        nats_client: nats::Client,
    ) -> (assembled: DistributedRuntime)
        ensures
            assembled.runtime_spec() == runtime,
            assembled@ == (DistributedRuntimeView {
                etcd_client: match etcd_client {
                    Some(client) => Some(client@),
                    None => None,
                },
                nats_client: nats_client@,
                tcp_server: LazySlot::Empty,
                component_registry: Set::empty(),
                instance_sources: Map::empty(),
            }),
    {
        DistributedRuntime {
            runtime,
            etcd_client,
            nats_client,
            tcp_server: LazySlot::new(),
            component_registry: Registry::new(),
            instance_sources: InstanceSourceRegistry::new(),
        }
    }

    /// The execution context.
    pub fn runtime(&self) -> (runtime: &Runtime)
        ensures
            *runtime == self.runtime_spec(),
    {
        &self.runtime
    }

    /// A handle on the root of the cancellation hierarchy.
    pub fn primary_token(&self) -> (token: CancellationToken)
        ensures
            token == self.runtime_spec().root(),
    {
        self.runtime.primary_token()
    }

    /// A new token below the root of the cancellation hierarchy: cancelled
    /// with the root, and cancelled alone without the root.
    pub fn child_token(&self) -> (token: CancellationToken)
        ensures
            token != self.runtime_spec().root(),
    {
        self.runtime.child_token()
    }

    /// Whether the runtime works without discovery.
    pub fn is_static(&self) -> (is_static: bool)
        ensures
            is_static == self@.is_static(),
    {
        self.etcd_client.is_none()
    }

    /// The lease that all components of this process are attached to. A
    /// static runtime has none.
    pub fn primary_lease(&self) -> (lease: Option<etcd::Lease>)
        ensures
            lease == self@.primary_lease(),
            lease is None <==> self@.is_static(),
    {
        match &self.etcd_client {
            Some(client) => Some(client.primary_lease()),
            None => None,
        }
    }

    /// Asks the whole process to stop: cancels the root of the cancellation
    /// hierarchy, and with it every token derived from it.
    pub fn shutdown(&self) {
        self.runtime.shutdown();
    }

    /// The namespace `name` of this runtime. It inherits the runtime's mode.
    pub fn namespace(&self, name: &str) -> (created: Result<Namespace, NameError>)
        ensures
            match created {
                Ok(namespace) => {
                    &&& check_name_spec(name@) is Ok
                    &&& namespace@ == (NamespaceView {
                        name: name@,
                        is_static: self@.is_static(),
                        parents: root_segments(),
                    })
                    &&& namespace@.wf()
                },
                Err(error) => check_name_spec(name@) == Err::<(), NameError>(error),
            },
    {
        Namespace::new(self, name, self.is_static())
    }

    /// The discovery client of `namespace`. A static runtime has no
    /// discovery: the caller makes sure that the runtime is not static.
    pub fn discovery_client(&self, namespace: &str) -> (client: DiscoveryClient)
        requires
            !self@.is_static(),
        ensures
            client@ == (DiscoveryClientView {
                namespace: namespace@,
                etcd_client: self@.etcd_client->0,
            }),
    {
        match &self.etcd_client {
            Some(client) => DiscoveryClient::new(String::from_str(namespace), client.clone()),
            None => {
                proof {
                    assert(false);
                }
                unreached()
            },
        }
    }

    /// The discovery client of `namespace`, or nothing if the runtime is
    /// static.
    pub fn try_discovery_client(&self, namespace: &str) -> (client: Option<DiscoveryClient>)
        ensures
            match client {
                Some(client) => !self@.is_static() && client@ == (DiscoveryClientView {
                    namespace: namespace@,
                    etcd_client: self@.etcd_client->0,
                }),
                None => self@.is_static(),
            },
    {
        if self.is_static() {
            None
        } else {
            Some(self.discovery_client(namespace))
        }
    }

    /// The service client on the runtime's messaging connection.
    pub fn service_client(&self) -> (client: ServiceClient)
        ensures
            client@ == self@.nats_client,
    {
        ServiceClient::new(self.nats_client.clone())
    }

    /// Asks for the stream server. The first caller is told to build it, and
    /// the slot is in progress from then on; callers that come before the
    /// build has ended are told to wait; once it is there, every caller gets
    /// the same server.
    pub fn tcp_server(&mut self) -> (claim: ServerClaim)
        ensures
            claim@ == server_claim_spec(old(self)@.tcp_server),
            final(self)@ == (DistributedRuntimeView {
                tcp_server: claim_spec(old(self)@.tcp_server).0,
                ..old(self)@
            }),
            final(self).runtime_spec() == old(self).runtime_spec(),
    {
        match self.tcp_server.get() {
            Some(server) => ServerClaim::Ready(server.clone()),
            None => match self.tcp_server.claim() {
                Claim::Construct => ServerClaim::Construct(tcp::ServerOptions::default()),
                _ => ServerClaim::Wait,
            },
        }
    }

    /// Reports that the stream server was built. It is kept if a build was in
    /// progress; otherwise nothing changes and `server` comes back.
    pub fn tcp_server_started(&mut self, server: tcp::TcpStreamServer) -> (rejected: Option<
        tcp::TcpStreamServer,
    >)
        ensures
            final(self)@ == (DistributedRuntimeView {
                tcp_server: fulfil_spec(old(self)@.tcp_server, server@),
                ..old(self)@
            }),
            final(self).runtime_spec() == old(self).runtime_spec(),
            rejected == if old(self)@.tcp_server is InProgress {
                None
            } else {
                Some(server)
            },
    {
        self.tcp_server.fulfil(server)
    }

    /// Reports that building the stream server failed. The failure is not
    /// kept: the slot is empty again, and the next caller builds anew.
    /// Returns whether a build was in progress.
    pub fn tcp_server_failed(&mut self) -> (was_in_progress: bool)
        ensures
            final(self)@ == (DistributedRuntimeView {
                tcp_server: abandon_spec(old(self)@.tcp_server),
                ..old(self)@
            }),
            final(self).runtime_spec() == old(self).runtime_spec(),
            was_in_progress == (old(self)@.tcp_server is InProgress),
    {
        self.tcp_server.abandon()
    }

    /// The client of the messaging backend.
    pub fn nats_client(&self) -> (client: nats::Client)
        ensures
            client@ == self@.nats_client,
    {
        self.nats_client.clone()
    }

    /// The client of the coordination backend; a static runtime has none.
    pub fn etcd_client(&self) -> (client: Option<etcd::Client>)
        ensures
            self@.etcd_client == (match client {
                Some(client) => Some(client@),
                None => None,
            }),
            client is None <==> self@.is_static(),
    {
        match &self.etcd_client {
            Some(client) => Some(client.clone()),
            None => None,
        }
    }

    /// The registry of components.
    pub fn component_registry(&self) -> (registry: &Registry)
        ensures
            registry@ == self@.component_registry,
    {
        &self.component_registry
    }

    /// The registry of components, to list a component. Nothing else of the
    /// runtime changes with it.
    pub fn component_registry_mut(&mut self) -> (registry: &mut Registry)
        ensures
            registry@ == old(self)@.component_registry,
            final(self)@ == (DistributedRuntimeView {
                component_registry: final(registry)@,
                ..old(self)@
            }),
            final(self).runtime_spec() == old(self).runtime_spec(),
    {
        &mut self.component_registry
    }

    /// The registry of instance sources.
    pub fn instance_sources(&self) -> (registry: &InstanceSourceRegistry)
        ensures
            registry@ == self@.instance_sources,
    {
        &self.instance_sources
    }

    /// The registry of instance sources, to enter, replace or remove entries.
    /// Nothing else of the runtime changes with it.
    pub fn instance_sources_mut(&mut self) -> (registry: &mut InstanceSourceRegistry)
        ensures
            registry@ == old(self)@.instance_sources,
            final(self)@ == (DistributedRuntimeView {
                instance_sources: final(registry)@,
                ..old(self)@
            }),
            final(self).runtime_spec() == old(self).runtime_spec(),
    {
        &mut self.instance_sources
    }
}

/// What a runtime is brought up with: how to reach the two backends, and
/// whether to do without discovery.
#[derive(Debug)]
pub struct DistributedConfig {
    pub etcd_config: etcd::ClientOptions,
    pub nats_config: nats::ClientOptions,
    pub is_static: bool,
}

/// What a [`DistributedConfig`] holds.
pub struct DistributedConfigView {
    pub etcd_config: etcd::ClientOptionsView,
    pub nats_config: nats::ClientOptionsView,
    pub is_static: bool,
}

impl View for DistributedConfig {
    type V = DistributedConfigView;

    open spec fn view(&self) -> DistributedConfigView {
        DistributedConfigView {
            etcd_config: self.etcd_config@,
            nats_config: self.nats_config@,
            is_static: self.is_static,
        }
    }
}

impl DistributedConfig {
    /// The default options of both backends, in the given mode.
    pub fn from_settings(is_static: bool) -> (config: DistributedConfig)
        ensures
            config@ == (DistributedConfigView {
                etcd_config: etcd::ClientOptions::default_view(),
                nats_config: nats::ClientOptions::default_view(),
                is_static,
            }),
    {
        DistributedConfig {
            etcd_config: etcd::ClientOptions::default(),
            nats_config: nats::ClientOptions::default(),
            is_static,
        }
    }

    /// The configuration of a command-line tool: the default options of both
    /// backends, with discovery, but without a lease of its own.
    pub fn for_cli() -> (config: DistributedConfig)
        ensures
            config@ == (DistributedConfigView {
                etcd_config: etcd::ClientOptionsView {
                    attach_lease: false,
                    ..etcd::ClientOptions::default_view()
                },
                nats_config: nats::ClientOptions::default_view(),
                is_static: false,
            }),
    {
        let mut config = DistributedConfig {
            etcd_config: etcd::ClientOptions::default(),
            nats_config: nats::ClientOptions::default(),
            is_static: false,
        };
        config.etcd_config.attach_lease = false;
        config
    }

    /// Takes the configuration apart.
    pub fn dissolve(self) -> (parts: (etcd::ClientOptions, nats::ClientOptions, bool))
        ensures
            parts.0 == self.etcd_config,
            parts.1 == self.nats_config,
            parts.2 == self.is_static,
    {
        (self.etcd_config, self.nats_config, self.is_static)
    }
}

/// Of any number of callers that ask for the stream server before it is
/// built, the first is told to build it, from the default options, and every
/// other is told to wait. Once it is built, every caller gets that one
/// server, however many ask. After a build that failed, the next caller is
/// told to build it again.
pub proof fn lemma_stream_server_is_built_once(
    asked: nat,
    server: tcp::TcpStreamServerView,
    later: nat,
)
    requires
        asked >= 1,
    ensures
        server_claim_spec(LazySlot::Empty) == ServerClaimView::Construct(
            tcp::ServerOptions::default_view(),
        ),
        forall|index: nat|
            1 <= index <= asked ==> server_claim_spec(
                #[trigger] slot_after_claims(
                    LazySlot::<tcp::TcpStreamServerView>::Empty,
                    index,
                ),
            ) == ServerClaimView::Wait,
        server_claim_spec(
            slot_after_claims(
                fulfil_spec(
                    slot_after_claims(LazySlot::<tcp::TcpStreamServerView>::Empty, asked),
                    server,
                ),
                later,
            ),
        ) == ServerClaimView::Ready(server),
        server_claim_spec(
            abandon_spec(slot_after_claims(LazySlot::<tcp::TcpStreamServerView>::Empty, asked)),
        ) == ServerClaimView::Construct(tcp::ServerOptions::default_view()),
{
    lemma_all_claims_resolve_to_one_resource(asked, server, later);
    lemma_failed_construction_is_retried::<tcp::TcpStreamServerView>(asked);
    assert forall|index: nat| 1 <= index <= asked implies server_claim_spec(
        #[trigger] slot_after_claims(LazySlot::<tcp::TcpStreamServerView>::Empty, index),
    ) == ServerClaimView::Wait by {
        lemma_concurrent_claims_construct_once::<tcp::TcpStreamServerView>(index);
    }
}

/// The runtime is the root of the naming hierarchy: it has no segment of its
/// own and no ancestors, so no name and no key lies above it.
pub proof fn lemma_root_is_unnamed(runtime: DistributedRuntime)
    ensures
        runtime.basename_spec() == Seq::<char>::empty(),
        runtime.parent_hierarchy_spec() == Seq::<Seq<char>>::empty(),
        identity_path_of(runtime.parent_hierarchy_spec(), runtime.basename_spec()) == Seq::<
            char,
        >::empty(),
        root_segments() == runtime.parent_hierarchy_spec().push(runtime.basename_spec()),
{
    let segments = runtime.parent_hierarchy_spec().push(runtime.basename_spec());
    assert(segments.drop_last() =~= Seq::<Seq<char>>::empty());
    assert(segments =~= root_segments());
    reveal_with_fuel(crate::metrics::join_segments, 2);
}

} // verus!
