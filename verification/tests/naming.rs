use distributed_runtime::component::{check_name, Component, Endpoint, NameError, Namespace};
use distributed_runtime::distributed::DistributedRuntime;
use distributed_runtime::metrics::{identity_path, join_path, MetricsRegistry};
use distributed_runtime::runtime::Runtime;
use distributed_runtime::transports::nats;

fn static_runtime() -> DistributedRuntime {
    DistributedRuntime::assemble(
        Runtime::new(),
        None,
        nats::Client::new(nats::ClientOptions::default()),
    )
}

#[test]
fn root_has_no_name_and_no_ancestors() {
    let runtime = static_runtime();
    assert_eq!(runtime.basename(), "");
    assert_eq!(runtime.parent_hierarchy(), Vec::<String>::new());
    assert_eq!(identity_path(&runtime), "");
}

#[test]
fn three_level_chain_forms_the_dotted_path() {
    let runtime = static_runtime();
    let namespace = runtime.namespace("prod").unwrap();
    let component = namespace.component("router").unwrap();
    let endpoint = component.endpoint("generate").unwrap();

    assert_eq!(namespace.basename(), "prod");
    assert_eq!(namespace.parent_hierarchy(), vec!["".to_string()]);
    assert_eq!(identity_path(&namespace), "prod");

    assert_eq!(component.basename(), "router");
    assert_eq!(component.parent_hierarchy(), vec!["".to_string(), "prod".to_string()]);
    assert_eq!(identity_path(&component), "prod.router");

    assert_eq!(endpoint.basename(), "generate");
    assert_eq!(
        endpoint.parent_hierarchy(),
        vec!["".to_string(), "prod".to_string(), "router".to_string()]
    );
    assert_eq!(identity_path(&endpoint), "prod.router.generate");
}

#[test]
fn chain_keeps_its_levels() {
    let runtime = static_runtime();
    let namespace = Namespace::new(&runtime, "ns", false).unwrap();
    let component = Component::new(namespace.clone(), "comp").unwrap();
    let endpoint = Endpoint::new(component.clone(), "ep").unwrap();
    assert_eq!(endpoint.name(), "ep");
    assert_eq!(endpoint.component().name(), "comp");
    assert_eq!(endpoint.component().namespace().name(), "ns");
    assert!(!endpoint.component().namespace().is_static());
}

#[test]
fn namespace_inherits_the_mode_of_the_runtime() {
    let runtime = static_runtime();
    assert!(runtime.is_static());
    assert!(runtime.namespace("ns").unwrap().is_static());
}

#[test]
fn empty_name_is_refused() {
    let runtime = static_runtime();
    assert_eq!(check_name(""), Err(NameError::Empty));
    assert_eq!(runtime.namespace("").unwrap_err(), NameError::Empty);
    let namespace = runtime.namespace("ns").unwrap();
    assert_eq!(namespace.component("").unwrap_err(), NameError::Empty);
    let component = namespace.component("comp").unwrap();
    assert_eq!(component.endpoint("").unwrap_err(), NameError::Empty);
}

#[test]
fn name_with_a_foreign_character_is_refused() {
    let runtime = static_runtime();
    assert_eq!(check_name("a.b"), Err(NameError::InvalidCharacter));
    assert_eq!(check_name("a/b"), Err(NameError::InvalidCharacter));
    assert_eq!(check_name("Upper"), Err(NameError::InvalidCharacter));
    assert_eq!(check_name("with space"), Err(NameError::InvalidCharacter));
    assert_eq!(check_name("caf\u{e9}"), Err(NameError::InvalidCharacter));
    assert_eq!(runtime.namespace("a.b").unwrap_err(), NameError::InvalidCharacter);
    let namespace = runtime.namespace("ns").unwrap();
    assert_eq!(namespace.component("x y").unwrap_err(), NameError::InvalidCharacter);
    let component = namespace.component("comp").unwrap();
    assert_eq!(component.endpoint("E").unwrap_err(), NameError::InvalidCharacter);
}

#[test]
fn name_characters_are_accepted() {
    assert_eq!(check_name("a"), Ok(()));
    assert_eq!(check_name("abc-xyz_019"), Ok(()));
    assert_eq!(check_name("-"), Ok(()));
    assert_eq!(check_name("_"), Ok(()));
    assert_eq!(check_name("z9"), Ok(()));
}

#[test]
fn join_skips_empty_segments() {
    let segments = vec![
        "".to_string(),
        "a".to_string(),
        "".to_string(),
        "bc".to_string(),
        "".to_string(),
    ];
    assert_eq!(join_path(&segments, "/"), "a/bc");
    assert_eq!(join_path(&segments, "::"), "a::bc");
    assert_eq!(join_path(&Vec::new(), "."), "");
    assert_eq!(join_path(&vec!["".to_string()], "."), "");
    assert_eq!(join_path(&vec!["only".to_string()], "."), "only");
}

#[test]
fn endpoints_are_the_same_by_address() {
    let runtime = static_runtime();
    let namespace = runtime.namespace("ns").unwrap();
    let component = namespace.component("comp").unwrap();
    let first = component.endpoint("ep").unwrap();
    let again = component.endpoint("ep").unwrap();
    let other = component.endpoint("other").unwrap();
    let elsewhere = namespace.component("comp2").unwrap().endpoint("ep").unwrap();
    let other_mode = Namespace::new(&runtime, "ns", false)
        .unwrap()
        .component("comp")
        .unwrap()
        .endpoint("ep")
        .unwrap();
    assert!(first.same_as(&again));
    assert!(first.same_as(&first.clone()));
    assert!(!first.same_as(&other));
    assert!(!first.same_as(&elsewhere));
    assert!(!first.same_as(&other_mode));
}

#[test]
fn component_is_listed_once() {
    let mut runtime = static_runtime();
    let namespace = runtime.namespace("ns").unwrap();
    let component = namespace.component("comp").unwrap();
    assert_eq!(runtime.component_registry().len(), 0);
    assert!(!runtime.component_registry().contains(&component));
    assert!(runtime.component_registry_mut().register(component.clone()));
    assert!(runtime.component_registry().contains(&component));
    assert!(!runtime.component_registry_mut().register(component.clone()));
    assert_eq!(runtime.component_registry().len(), 1);
    assert!(runtime.component_registry_mut().register(namespace.component("other").unwrap()));
    let elsewhere = runtime.namespace("ns2").unwrap().component("comp").unwrap();
    assert!(!runtime.component_registry().contains(&elsewhere));
    assert!(runtime.component_registry_mut().register(elsewhere));
    assert_eq!(runtime.component_registry().len(), 3);
    assert!(component.same_as(&namespace.component("comp").unwrap()));
    assert!(namespace.same_as(component.namespace()));
}

#[test]
fn different_endpoints_have_different_paths() {
    let runtime = static_runtime();
    let path = |namespace: &str, component: &str, endpoint: &str| {
        let endpoint = runtime
            .namespace(namespace)
            .unwrap()
            .component(component)
            .unwrap()
            .endpoint(endpoint)
            .unwrap();
        identity_path(&endpoint)
    };
    assert_eq!(path("a", "b-c", "d"), "a.b-c.d");
    assert_eq!(path("a", "b", "c-d"), "a.b.c-d");
    assert_eq!(path("a-b", "c", "d"), "a-b.c.d");
    assert_ne!(path("a_b", "c", "d"), path("a", "b_c", "d"));
    assert_eq!(path("a", "b", "c"), path("a", "b", "c"));
}
