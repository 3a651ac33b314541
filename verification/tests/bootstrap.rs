use distributed_runtime::bootstrap::{Bootstrap, BootstrapAction, BootstrapError, BootstrapEvent};
use distributed_runtime::config::RuntimeConfig;
use distributed_runtime::distributed::{DistributedConfig, DistributedRuntime};
use distributed_runtime::runtime::Runtime;
use distributed_runtime::transports::etcd::Lease;

fn lease() -> Lease {
    Lease { id: 7587862318324241, ttl: 10 }
}

fn server(enabled: bool) -> RuntimeConfig {
    RuntimeConfig { system_enabled: enabled, system_host: "127.0.0.1".to_string(), system_port: 8081 }
}

#[test]
fn reachable_backends_without_server_give_a_runtime_with_a_lease() {
    let (bootstrap, actions) = Bootstrap::begin(Runtime::new(), DistributedConfig::from_settings(false));
    assert_eq!(actions.len(), 2);
    assert!(matches!(&actions[0], BootstrapAction::ConnectCoordination(options)
        if options.etcd_url == vec!["http://localhost:2379".to_string()] && options.attach_lease));
    assert!(matches!(&actions[1], BootstrapAction::ConnectMessaging(options)
        if options.server == "nats://localhost:4222"));
    assert!(!bootstrap.is_terminal());

    let (bootstrap, actions) = bootstrap.step(BootstrapEvent::CoordinationConnected(lease()));
    assert!(actions.is_empty());
    assert!(!bootstrap.is_terminal());
    let (bootstrap, actions) = bootstrap.step(BootstrapEvent::MessagingConnected);
    assert_eq!(actions.len(), 1);
    assert!(matches!(actions[0], BootstrapAction::LoadServerConfig));
    assert!(!bootstrap.is_terminal());
    let (bootstrap, actions) = bootstrap.step(BootstrapEvent::ServerConfigLoaded(Some(server(false))));
    assert!(actions.is_empty());
    assert!(bootstrap.is_terminal());
    assert!(bootstrap.is_ready());

    let runtime = bootstrap.finish().unwrap();
    assert!(!runtime.is_static());
    assert_eq!(runtime.primary_lease(), Some(lease()));
    let client = runtime.etcd_client().unwrap();
    assert_eq!(client.primary_lease(), lease());
    assert_eq!(client.lease_id(), 7587862318324241);
    assert_eq!(client.options().etcd_url, vec!["http://localhost:2379".to_string()]);
    assert_eq!(runtime.nats_client().options().server, "nats://localhost:4222");
    assert_eq!(runtime.instance_sources().len(), 0);
}

#[test]
fn static_mode_attempts_no_coordination_connection() {
    let (bootstrap, actions) = Bootstrap::begin(Runtime::new(), DistributedConfig::from_settings(true));
    assert_eq!(actions.len(), 1);
    assert!(matches!(&actions[0], BootstrapAction::ConnectMessaging(_)));

    let (bootstrap, actions) = bootstrap.step(BootstrapEvent::MessagingConnected);
    assert_eq!(actions.len(), 1);
    assert!(matches!(actions[0], BootstrapAction::LoadServerConfig));
    let (bootstrap, actions) = bootstrap.step(BootstrapEvent::ServerConfigLoaded(None));
    assert!(actions.is_empty());

    let runtime = bootstrap.finish().unwrap();
    assert!(runtime.is_static());
    assert!(runtime.etcd_client().is_none());
    assert_eq!(runtime.primary_lease(), None);
    assert!(runtime.try_discovery_client("ns").is_none());
}

#[test]
fn static_mode_ignores_events_of_the_coordination_backend() {
    let (bootstrap, _) = Bootstrap::begin(Runtime::new(), DistributedConfig::from_settings(true));
    let (bootstrap, actions) = bootstrap.step(BootstrapEvent::CoordinationFailed("refused".to_string()));
    assert!(actions.is_empty());
    assert!(!bootstrap.is_terminal());
    let (bootstrap, actions) = bootstrap.step(BootstrapEvent::CoordinationConnected(lease()));
    assert!(actions.is_empty());
    let (bootstrap, _) = bootstrap.step(BootstrapEvent::MessagingConnected);
    let (bootstrap, _) = bootstrap.step(BootstrapEvent::ServerConfigLoaded(None));
    let runtime = bootstrap.finish().unwrap();
    assert_eq!(runtime.primary_lease(), None);
}

#[test]
fn connections_may_be_made_in_either_order() {
    let (bootstrap, _) = Bootstrap::begin(Runtime::new(), DistributedConfig::from_settings(false));
    let (bootstrap, actions) = bootstrap.step(BootstrapEvent::MessagingConnected);
    assert!(actions.is_empty());
    let (bootstrap, actions) = bootstrap.step(BootstrapEvent::CoordinationConnected(lease()));
    assert_eq!(actions.len(), 1);
    assert!(matches!(actions[0], BootstrapAction::LoadServerConfig));
    let (bootstrap, _) = bootstrap.step(BootstrapEvent::ServerConfigLoaded(None));
    assert_eq!(bootstrap.finish().unwrap().primary_lease(), Some(lease()));
}

#[test]
fn a_second_answer_of_a_backend_is_ignored() {
    let (bootstrap, _) = Bootstrap::begin(Runtime::new(), DistributedConfig::from_settings(false));
    let (bootstrap, _) = bootstrap.step(BootstrapEvent::CoordinationConnected(lease()));
    let (bootstrap, actions) =
        bootstrap.step(BootstrapEvent::CoordinationConnected(Lease { id: 1, ttl: 1 }));
    assert!(actions.is_empty());
    let (bootstrap, actions) = bootstrap.step(BootstrapEvent::CoordinationFailed("late".to_string()));
    assert!(actions.is_empty());
    assert!(!bootstrap.is_terminal());
    let (bootstrap, _) = bootstrap.step(BootstrapEvent::MessagingConnected);
    let (bootstrap, _) = bootstrap.step(BootstrapEvent::ServerConfigLoaded(None));
    assert_eq!(bootstrap.finish().unwrap().primary_lease(), Some(lease()));
}

#[test]
fn unreachable_coordination_backend_fails_the_bootstrap() {
    let (bootstrap, _) = Bootstrap::begin(Runtime::new(), DistributedConfig::for_cli());
    let (bootstrap, actions) = bootstrap.step(BootstrapEvent::CoordinationFailed("refused".to_string()));
    assert!(actions.is_empty());
    assert!(bootstrap.is_terminal());
    assert!(!bootstrap.is_ready());
    let (bootstrap, actions) = bootstrap.step(BootstrapEvent::MessagingConnected);
    assert!(actions.is_empty());
    let (bootstrap, actions) = bootstrap.step(BootstrapEvent::ServerConfigLoaded(Some(server(true))));
    assert!(actions.is_empty());
    match bootstrap.finish() {
        Err(BootstrapError::CoordinationConnect { options, cause }) => {
            assert_eq!(options.etcd_url, vec!["http://localhost:2379".to_string()]);
            assert!(!options.attach_lease);
            assert_eq!(cause, "refused");
        }
        _ => panic!("the bootstrap should have failed on the coordination backend"),
    }
}

#[test]
fn unreachable_messaging_backend_fails_the_bootstrap() {
    let (bootstrap, _) = Bootstrap::begin(Runtime::new(), DistributedConfig::from_settings(false));
    let (bootstrap, _) = bootstrap.step(BootstrapEvent::CoordinationConnected(lease()));
    let (bootstrap, actions) = bootstrap.step(BootstrapEvent::MessagingFailed("no route".to_string()));
    assert!(actions.is_empty());
    assert!(bootstrap.is_terminal());
    match bootstrap.finish() {
        Err(BootstrapError::MessagingConnect { options, cause }) => {
            assert_eq!(options.server, "nats://localhost:4222");
            assert_eq!(cause, "no route");
        }
        _ => panic!("the bootstrap should have failed on the messaging backend"),
    }
}

#[test]
fn the_first_failure_decides() {
    let (bootstrap, _) = Bootstrap::begin(Runtime::new(), DistributedConfig::from_settings(false));
    let (bootstrap, _) = bootstrap.step(BootstrapEvent::MessagingFailed("first".to_string()));
    let (bootstrap, _) = bootstrap.step(BootstrapEvent::CoordinationFailed("second".to_string()));
    assert!(matches!(bootstrap.finish(),
        Err(BootstrapError::MessagingConnect { cause, .. }) if cause == "first"));

    let (bootstrap, _) = Bootstrap::begin(Runtime::new(), DistributedConfig::from_settings(false));
    let (bootstrap, _) = bootstrap.step(BootstrapEvent::CoordinationFailed("first".to_string()));
    let (bootstrap, _) = bootstrap.step(BootstrapEvent::MessagingFailed("second".to_string()));
    assert!(matches!(bootstrap.finish(),
        Err(BootstrapError::CoordinationConnect { cause, .. }) if cause == "first"));
}

#[test]
fn unreachable_messaging_backend_fails_a_static_bootstrap() {
    let (bootstrap, _) = Bootstrap::begin(Runtime::new(), DistributedConfig::from_settings(true));
    let (bootstrap, _) = bootstrap.step(BootstrapEvent::MessagingFailed("down".to_string()));
    assert!(matches!(bootstrap.finish(), Err(BootstrapError::MessagingConnect { .. })));
}

#[test]
fn enabled_server_is_started_on_the_configured_address() {
    let (bootstrap, _) = Bootstrap::begin(Runtime::new(), DistributedConfig::from_settings(true));
    let (bootstrap, _) = bootstrap.step(BootstrapEvent::MessagingConnected);
    let (bootstrap, actions) = bootstrap.step(BootstrapEvent::ServerConfigLoaded(Some(server(true))));
    assert_eq!(actions.len(), 1);
    match &actions[0] {
        BootstrapAction::StartServer { host, port, cancel_token } => {
            assert_eq!(host, "127.0.0.1");
            assert_eq!(*port, 8081);
            assert!(!cancel_token.is_cancelled());
        }
        _ => panic!("the server should be started"),
    }
    assert!(!bootstrap.is_terminal());
    let (bootstrap, actions) = bootstrap.step(BootstrapEvent::ServerStarted);
    assert!(actions.is_empty());
    assert!(bootstrap.is_ready());
}

#[test]
fn server_that_cannot_be_started_does_not_fail_the_bootstrap() {
    let (bootstrap, _) = Bootstrap::begin(Runtime::new(), DistributedConfig::from_settings(false));
    let (bootstrap, _) = bootstrap.step(BootstrapEvent::MessagingConnected);
    let (bootstrap, _) = bootstrap.step(BootstrapEvent::CoordinationConnected(lease()));
    let (bootstrap, actions) = bootstrap.step(BootstrapEvent::ServerConfigLoaded(Some(server(true))));
    assert_eq!(actions.len(), 1);
    let (bootstrap, actions) = bootstrap.step(BootstrapEvent::ServerFailed("address in use".to_string()));
    assert!(actions.is_empty());
    assert!(bootstrap.is_ready());
    assert_eq!(bootstrap.finish().unwrap().primary_lease(), Some(lease()));
}

#[test]
fn configuration_that_cannot_be_loaded_starts_no_server() {
    let (bootstrap, _) = Bootstrap::begin(Runtime::new(), DistributedConfig::from_settings(true));
    let (bootstrap, _) = bootstrap.step(BootstrapEvent::MessagingConnected);
    let (bootstrap, actions) = bootstrap.step(BootstrapEvent::ServerConfigLoaded(None));
    assert!(actions.is_empty());
    assert!(bootstrap.is_ready());
}

#[test]
fn server_token_is_a_child_of_the_root_token() {
    let root = Runtime::new();
    let primary = root.primary_token();
    let (bootstrap, _) = Bootstrap::begin(root, DistributedConfig::from_settings(true));
    let (bootstrap, _) = bootstrap.step(BootstrapEvent::MessagingConnected);
    let (bootstrap, actions) = bootstrap.step(BootstrapEvent::ServerConfigLoaded(Some(server(true))));
    let (bootstrap, _) = bootstrap.step(BootstrapEvent::ServerStarted);
    let runtime = bootstrap.finish().unwrap();
    let server_token = match &actions[0] {
        BootstrapAction::StartServer { cancel_token, .. } => cancel_token.clone(),
        _ => panic!("the server should be started"),
    };
    assert!(!server_token.is_cancelled());
    runtime.shutdown();
    assert!(primary.is_cancelled());
    assert!(server_token.is_cancelled());
}

#[test]
fn events_out_of_turn_change_nothing() {
    let (bootstrap, _) = Bootstrap::begin(Runtime::new(), DistributedConfig::from_settings(true));
    let (bootstrap, actions) = bootstrap.step(BootstrapEvent::ServerStarted);
    assert!(actions.is_empty());
    let (bootstrap, actions) = bootstrap.step(BootstrapEvent::ServerConfigLoaded(Some(server(true))));
    assert!(actions.is_empty());
    assert!(!bootstrap.is_terminal());
    let (bootstrap, actions) = bootstrap.step(BootstrapEvent::MessagingConnected);
    assert_eq!(actions.len(), 1);
    let (bootstrap, actions) = bootstrap.step(BootstrapEvent::MessagingConnected);
    assert!(actions.is_empty());
    assert!(!bootstrap.is_terminal());
}

#[test]
fn runtime_is_brought_up_from_the_default_settings() {
    let (bootstrap, actions) = DistributedRuntime::from_settings(Runtime::new());
    assert_eq!(actions.len(), 2);
    assert!(matches!(&actions[0], BootstrapAction::ConnectCoordination(options)
        if options.attach_lease && options.etcd_url == vec!["http://localhost:2379".to_string()]));
    assert!(matches!(&actions[1], BootstrapAction::ConnectMessaging(options)
        if options.server == "nats://localhost:4222"));
    let (bootstrap, _) = bootstrap.step(BootstrapEvent::MessagingConnected);
    let (bootstrap, _) = bootstrap.step(BootstrapEvent::CoordinationConnected(lease()));
    let (bootstrap, _) = bootstrap.step(BootstrapEvent::ServerConfigLoaded(None));
    assert_eq!(bootstrap.finish().unwrap().primary_lease(), Some(lease()));
}

#[test]
fn static_runtime_is_brought_up_from_the_default_settings() {
    let (bootstrap, actions) = DistributedRuntime::from_settings_without_discovery(Runtime::new());
    assert_eq!(actions.len(), 1);
    assert!(matches!(&actions[0], BootstrapAction::ConnectMessaging(options)
        if options.server == "nats://localhost:4222"));
    let (bootstrap, _) = bootstrap.step(BootstrapEvent::MessagingConnected);
    let (bootstrap, _) = bootstrap.step(BootstrapEvent::ServerConfigLoaded(None));
    let runtime = bootstrap.finish().unwrap();
    assert!(runtime.is_static());
    assert_eq!(runtime.primary_lease(), None);
}

#[test]
fn new_begins_with_the_given_configuration() {
    let mut config = DistributedConfig::from_settings(false);
    config.etcd_config.etcd_url = vec!["http://etcd-0:2379".to_string(), "http://etcd-1:2379".to_string()];
    config.nats_config.server = "nats://broker:4222".to_string();
    let (bootstrap, actions) = DistributedRuntime::new(Runtime::new(), config);
    assert!(matches!(&actions[0], BootstrapAction::ConnectCoordination(options)
        if options.etcd_url.len() == 2 && options.etcd_url[1] == "http://etcd-1:2379"));
    assert!(matches!(&actions[1], BootstrapAction::ConnectMessaging(options)
        if options.server == "nats://broker:4222"));
    let (bootstrap, _) = bootstrap.step(BootstrapEvent::CoordinationConnected(lease()));
    let (bootstrap, _) = bootstrap.step(BootstrapEvent::MessagingConnected);
    let (bootstrap, _) = bootstrap.step(BootstrapEvent::ServerConfigLoaded(None));
    let runtime = bootstrap.finish().unwrap();
    assert_eq!(runtime.etcd_client().unwrap().options().etcd_url.len(), 2);
    assert_eq!(runtime.nats_client().options().server, "nats://broker:4222");
}
