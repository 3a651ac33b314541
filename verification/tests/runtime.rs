use distributed_runtime::config::RuntimeConfig;
use distributed_runtime::distributed::{DistributedConfig, DistributedRuntime, ServerClaim};
use distributed_runtime::runtime::Runtime;
use distributed_runtime::slot::{Claim, LazySlot};
use distributed_runtime::transports::etcd::{self, Lease};
use distributed_runtime::transports::nats;
use distributed_runtime::transports::tcp::{ServerOptions, TcpStreamServer};
use tokio_util::sync::CancellationToken;

fn discovering_runtime() -> DistributedRuntime {
    DistributedRuntime::assemble(
        Runtime::new(),
        Some(etcd::Client::new(etcd::ClientOptions::default(), Lease { id: 42, ttl: 10 })),
        nats::Client::new(nats::ClientOptions::default()),
    )
}

fn bound(port: u16) -> TcpStreamServer {
    TcpStreamServer { host: "10.0.0.1".to_string(), port }
}

#[test]
fn cancelling_the_root_reaches_every_child() {
    let runtime = Runtime::new();
    let primary = runtime.primary_token();
    let child = runtime.child_token();
    let grandchild = child.child_token();
    assert!(!primary.is_cancelled());
    assert!(!child.is_cancelled());
    runtime.shutdown();
    assert!(primary.is_cancelled());
    assert!(child.is_cancelled());
    assert!(grandchild.is_cancelled());
    assert!(runtime.child_token().is_cancelled());
}

#[test]
fn cancelling_a_child_leaves_the_root() {
    let runtime = discovering_runtime();
    let child = runtime.child_token();
    let sibling = runtime.child_token();
    child.cancel();
    assert!(child.is_cancelled());
    assert!(!sibling.is_cancelled());
    assert!(!runtime.primary_token().is_cancelled());
    assert!(!runtime.runtime().primary_token().is_cancelled());
}

#[test]
fn runtime_shutdown_cancels_the_root() {
    let runtime = discovering_runtime();
    let primary = runtime.primary_token();
    let child = runtime.child_token();
    runtime.shutdown();
    assert!(primary.is_cancelled());
    assert!(child.is_cancelled());
}

#[test]
fn context_may_be_rooted_at_a_given_token() {
    let root = CancellationToken::new();
    let runtime = Runtime::from_token(root.clone());
    let shared = runtime.share();
    let child = shared.child_token();
    assert_eq!(runtime.primary_token(), root);
    assert_ne!(child, root);
    root.cancel();
    assert!(shared.primary_token().is_cancelled());
    assert!(child.is_cancelled());
}

#[test]
fn discovering_runtime_has_the_lease_of_its_client() {
    let runtime = discovering_runtime();
    assert!(!runtime.is_static());
    assert_eq!(runtime.primary_lease(), Some(Lease { id: 42, ttl: 10 }));
    assert_eq!(runtime.primary_lease().unwrap().id(), 42);
    assert_eq!(runtime.primary_lease().unwrap().ttl(), 10);
    let discovery = runtime.discovery_client("ns");
    assert_eq!(discovery.namespace(), "ns");
    assert_eq!(discovery.primary_lease(), Lease { id: 42, ttl: 10 });
    assert!(runtime.try_discovery_client("ns").is_some());
    assert_eq!(runtime.service_client().nats_client().options().server, "nats://localhost:4222");
}

#[test]
fn registration_uses_the_identity_path_and_the_primary_lease() {
    let runtime = discovering_runtime();
    let endpoint = runtime
        .namespace("ns")
        .unwrap()
        .component("comp")
        .unwrap()
        .endpoint("ep")
        .unwrap();
    let registration = runtime.discovery_client("ns").registration(&endpoint).unwrap();
    assert_eq!(registration.key, "ns.comp.ep");
    assert_eq!(registration.lease_id, 42);
}

#[test]
fn static_endpoint_is_not_registered() {
    let runtime = discovering_runtime();
    let static_runtime = DistributedRuntime::assemble(
        Runtime::new(),
        None,
        nats::Client::new(nats::ClientOptions::default()),
    );
    let endpoint = static_runtime
        .namespace("ns")
        .unwrap()
        .component("comp")
        .unwrap()
        .endpoint("ep")
        .unwrap();
    assert!(runtime.discovery_client("ns").registration(&endpoint).is_none());
}

#[test]
fn default_configuration_points_at_the_local_host() {
    let config = DistributedConfig::from_settings(false);
    assert_eq!(config.etcd_config.etcd_url, vec!["http://localhost:2379".to_string()]);
    assert!(config.etcd_config.attach_lease);
    assert_eq!(config.nats_config.server, "nats://localhost:4222");
    assert!(!config.is_static);
    assert!(DistributedConfig::from_settings(true).is_static);
}

#[test]
fn command_line_configuration_attaches_no_lease() {
    let config = DistributedConfig::for_cli();
    assert!(!config.etcd_config.attach_lease);
    assert!(!config.is_static);
    let (etcd_config, nats_config, is_static) = config.dissolve();
    assert_eq!(etcd_config.etcd_url, vec!["http://localhost:2379".to_string()]);
    assert!(!etcd_config.attach_lease);
    assert_eq!(nats_config.server, "nats://localhost:4222");
    assert!(!is_static);
}

#[test]
fn ambient_configuration_defaults_to_no_server() {
    let config = RuntimeConfig::from_settings(None);
    assert!(!config.system_server_enabled());
    assert_eq!(config.system_host, "0.0.0.0");
    assert_eq!(config.system_port, 9090);
    let loaded = RuntimeConfig {
        system_enabled: true,
        system_host: "::1".to_string(),
        system_port: 1,
    };
    let config = RuntimeConfig::from_settings(Some(loaded.clone()));
    assert!(config.system_server_enabled());
    assert_eq!(config.system_host, "::1");
    assert_eq!(config.system_port, 1);
    assert_eq!(ServerOptions::default().port, 0);
    assert_eq!(ServerOptions::default().interface, None);
}

#[test]
fn concurrent_claims_construct_once() {
    let mut slot: LazySlot<u32> = LazySlot::new();
    assert!(slot.get().is_none());
    assert_eq!(slot.claim(), Claim::Construct);
    for _ in 0..5 {
        assert_eq!(slot.claim(), Claim::Wait);
    }
    assert!(!slot.is_ready());
    assert_eq!(slot.fulfil(11), None);
    assert!(slot.is_ready());
    for _ in 0..5 {
        assert_eq!(slot.claim(), Claim::Ready);
        assert_eq!(slot.get(), Some(&11));
    }
}

#[test]
fn failed_construction_is_not_remembered() {
    let mut slot: LazySlot<u32> = LazySlot::new();
    assert_eq!(slot.claim(), Claim::Construct);
    assert_eq!(slot.claim(), Claim::Wait);
    assert!(slot.abandon());
    assert!(slot.get().is_none());
    assert_eq!(slot.claim(), Claim::Construct);
    assert_eq!(slot.claim(), Claim::Wait);
    assert_eq!(slot.fulfil(3), None);
    assert_eq!(slot.get(), Some(&3));
}

#[test]
fn slot_takes_a_resource_only_while_one_is_constructed() {
    let mut slot: LazySlot<u32> = LazySlot::new();
    assert_eq!(slot.fulfil(1), Some(1));
    assert!(!slot.abandon());
    assert!(slot.get().is_none());
    assert_eq!(slot.claim(), Claim::Construct);
    assert_eq!(slot.fulfil(2), None);
    assert_eq!(slot.fulfil(3), Some(3));
    assert!(!slot.abandon());
    assert_eq!(slot.get(), Some(&2));
}

#[test]
fn stream_server_is_built_once_for_all_callers() {
    let mut runtime = discovering_runtime();
    match runtime.tcp_server() {
        ServerClaim::Construct(options) => {
            assert_eq!(options.port, 0);
            assert_eq!(options.interface, None);
        }
        _ => panic!("the first caller should build the server"),
    }
    assert!(matches!(runtime.tcp_server(), ServerClaim::Wait));
    assert!(matches!(runtime.tcp_server(), ServerClaim::Wait));
    assert!(runtime.tcp_server_started(bound(4000)).is_none());
    for _ in 0..3 {
        match runtime.tcp_server() {
            ServerClaim::Ready(server) => {
                assert_eq!(server.host, "10.0.0.1");
                assert_eq!(server.port, 4000);
            }
            _ => panic!("the server should be there"),
        }
    }
    let rejected = runtime.tcp_server_started(bound(5000)).unwrap();
    assert_eq!(rejected.port, 5000);
    assert!(matches!(runtime.tcp_server(), ServerClaim::Ready(server) if server.port == 4000));
}

#[test]
fn stream_server_is_built_again_after_a_failure() {
    let mut runtime = discovering_runtime();
    assert!(matches!(runtime.tcp_server(), ServerClaim::Construct(_)));
    assert!(matches!(runtime.tcp_server(), ServerClaim::Wait));
    assert!(runtime.tcp_server_failed());
    assert!(!runtime.tcp_server_failed());
    assert!(matches!(runtime.tcp_server(), ServerClaim::Construct(_)));
    assert!(runtime.tcp_server_started(bound(4001)).is_none());
    assert!(matches!(runtime.tcp_server(), ServerClaim::Ready(server) if server.port == 4001));
    assert_eq!(runtime.primary_lease(), Some(Lease { id: 42, ttl: 10 }));
}
