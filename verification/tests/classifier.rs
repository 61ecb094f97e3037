use freshener::classifier::{
    classify, classify_containers, implements_message_routing, is_auxiliary, ContainerClass,
};
use freshener::config_type::{Config, KnownImage, NodeConfigElement, Smells};
use freshener::k8s_types::{get_patterns, Container};

fn container(name: &str, image: &str) -> Container {
    Container {
        name: name.to_string(),
        security_context: None,
        image: image.to_string(),
        ports: None,
        readiness_probe: None,
        liveness_probe: None,
        resources: None,
        image_pull_policy: None,
        env: None,
    }
}

fn no_overrides() -> Config {
    Config {
        ignore_smells: Smells {
            multiple_container: vec![],
            noapigateway: vec![],
            endpoint_based_interaction: vec![],
            wobbly: vec![],
        },
        invoked_services: vec![],
        ignored_manifests: vec![],
    }
}

fn known(name: &str, image: &str, kind: &str) -> KnownImage {
    KnownImage { name: name.to_string(), image: image.to_string(), kind: kind.to_string() }
}

fn entry(name: &str, containers: Option<Vec<&str>>) -> NodeConfigElement {
    NodeConfigElement {
        name: name.to_string(),
        containers: containers.map(|list| list.into_iter().map(|c| c.to_string()).collect()),
    }
}

#[test]
fn patterns_are_the_three_marking_words() {
    assert_eq!(
        get_patterns(),
        vec!["sidecar".to_string(), "ambassador".to_string(), "adapter".to_string()]
    );
}

#[test]
fn sidecar_first_then_primary_then_unclassified() {
    let containers = vec![
        container("log-sidecar", "fluentd"),
        container("web", "nginx-app"),
        container("worker", "jobs"),
    ];
    let classes = classify_containers(&containers, &"shop".to_string(), &vec![], &no_overrides());
    assert_eq!(
        classes,
        vec![ContainerClass::Sidecar, ContainerClass::Primary, ContainerClass::Unclassified]
    );
}

#[test]
fn primary_first_then_sidecar_then_unclassified() {
    let containers = vec![
        container("web", "nginx-app"),
        container("log-sidecar", "fluentd"),
        container("worker", "jobs"),
    ];
    let classes = classify_containers(&containers, &"shop".to_string(), &vec![], &no_overrides());
    assert_eq!(
        classes,
        vec![ContainerClass::Primary, ContainerClass::Sidecar, ContainerClass::Unclassified]
    );
}

#[test]
fn no_container_gives_no_class() {
    let classes = classify_containers(&vec![], &"shop".to_string(), &vec![], &no_overrides());
    assert!(classes.is_empty());
}

#[test]
fn a_single_plain_container_is_primary() {
    let classes = classify_containers(
        &vec![container("web", "nginx-app")],
        &"shop".to_string(),
        &vec![],
        &no_overrides(),
    );
    assert_eq!(classes, vec![ContainerClass::Primary]);
}

#[test]
fn every_later_plain_container_is_unclassified() {
    let containers =
        vec![container("a", "one"), container("b", "two"), container("c", "three")];
    let classes = classify_containers(&containers, &"shop".to_string(), &vec![], &no_overrides());
    assert_eq!(
        classes,
        vec![ContainerClass::Primary, ContainerClass::Unclassified, ContainerClass::Unclassified]
    );
}

#[test]
fn a_marking_word_in_the_name_makes_auxiliary() {
    let workload = "shop".to_string();
    let config = no_overrides();
    assert!(is_auxiliary(&container("my-ambassador", "proxy"), &workload, &vec![], &config));
    assert!(is_auxiliary(&container("x-adapter-1", "proxy"), &workload, &vec![], &config));
    assert!(!is_auxiliary(&container("adapte", "proxy"), &workload, &vec![], &config));
}

#[test]
fn a_marking_word_in_the_image_makes_auxiliary() {
    let workload = "shop".to_string();
    let config = no_overrides();
    assert!(is_auxiliary(&container("proxy", "corp/sidecar:1.2"), &workload, &vec![], &config));
    assert!(!is_auxiliary(&container("proxy", "corp/side-car:1.2"), &workload, &vec![], &config));
}

#[test]
fn a_catalog_sidecar_matches_inside_the_image() {
    let workload = "shop".to_string();
    let config = no_overrides();
    let catalog = vec![known("envoy", "envoyproxy/envoy", "sidecar")];
    assert!(is_auxiliary(
        &container("proxy", "docker.io/envoyproxy/envoy:v1.20"),
        &workload,
        &catalog,
        &config
    ));
    assert!(!is_auxiliary(&container("proxy", "envoyproxy"), &workload, &catalog, &config));
}

#[test]
fn a_catalog_router_does_not_make_auxiliary() {
    let workload = "shop".to_string();
    let config = no_overrides();
    let catalog = vec![known("nginx", "nginx", "mr")];
    assert!(!is_auxiliary(&container("gateway", "nginx"), &workload, &catalog, &config));
}

#[test]
fn the_allow_list_names_sidecars_of_its_workload_only() {
    let mut config = no_overrides();
    config.ignore_smells.multiple_container = vec![entry("shop", Some(vec!["metrics"]))];
    let c = container("metrics", "prom/exporter");
    assert!(is_auxiliary(&c, &"shop".to_string(), &vec![], &config));
    assert!(!is_auxiliary(&c, &"cart".to_string(), &vec![], &config));
    assert!(!is_auxiliary(&container("metric", "prom/exporter"), &"shop".to_string(), &vec![], &config));
}

#[test]
fn an_allow_list_entry_without_list_names_nothing() {
    let mut config = no_overrides();
    config.ignore_smells.multiple_container = vec![entry("shop", None)];
    assert!(!is_auxiliary(&container("metrics", "prom/exporter"), &"shop".to_string(), &vec![], &config));
}

#[test]
fn the_first_override_of_a_workload_governs() {
    let mut config = no_overrides();
    config.ignore_smells.multiple_container =
        vec![entry("shop", Some(vec!["a"])), entry("shop", Some(vec!["b"]))];
    assert!(is_auxiliary(&container("a", "x"), &"shop".to_string(), &vec![], &config));
    assert!(!is_auxiliary(&container("b", "x"), &"shop".to_string(), &vec![], &config));
}

#[test]
fn a_catalog_router_matches_the_whole_image_only() {
    let config = no_overrides();
    let catalog = vec![known("nginx", "nginx", "mr")];
    let pod = "edge".to_string();
    assert!(implements_message_routing(&pod, &"nginx".to_string(), &catalog, &config));
    assert!(!implements_message_routing(&pod, &"nginx:1.21".to_string(), &catalog, &config));
    assert!(!implements_message_routing(&pod, &"ngin".to_string(), &catalog, &config));
}

#[test]
fn a_catalog_sidecar_is_no_router() {
    let config = no_overrides();
    let catalog = vec![known("nginx", "nginx", "sidecar")];
    assert!(!implements_message_routing(&"edge".to_string(), &"nginx".to_string(), &catalog, &config));
}

#[test]
fn an_override_without_list_trusts_every_image() {
    let mut config = no_overrides();
    config.ignore_smells.noapigateway = vec![entry("edge", None)];
    assert!(implements_message_routing(&"edge".to_string(), &"anything".to_string(), &vec![], &config));
    assert!(!implements_message_routing(&"other".to_string(), &"anything".to_string(), &vec![], &config));
}

#[test]
fn an_override_list_matches_inside_the_image() {
    let mut config = no_overrides();
    config.ignore_smells.noapigateway = vec![entry("edge", Some(vec!["traefik"]))];
    let pod = "edge".to_string();
    assert!(implements_message_routing(&pod, &"docker.io/traefik:2".to_string(), &vec![], &config));
    assert!(!implements_message_routing(&pod, &"docker.io/nginx".to_string(), &vec![], &config));
}

#[test]
fn an_empty_override_list_trusts_nothing() {
    let mut config = no_overrides();
    config.ignore_smells.noapigateway = vec![entry("edge", Some(vec![]))];
    assert!(!implements_message_routing(&"edge".to_string(), &"nginx".to_string(), &vec![], &config));
}

#[test]
fn an_auxiliary_router_is_classed_as_router() {
    let config = no_overrides();
    let catalog = vec![known("gw", "corp/ambassador", "mr")];
    let workload = "shop".to_string();
    let c = container("edge", "corp/ambassador");
    assert_eq!(classify(&c, &workload, &catalog, &config, false), ContainerClass::MessageRouter);
    assert_eq!(classify(&c, &workload, &catalog, &config, true), ContainerClass::MessageRouter);
    assert_eq!(classify(&c, &workload, &vec![], &config, true), ContainerClass::Sidecar);
}

#[test]
fn a_plain_container_is_classed_by_what_came_before() {
    let config = no_overrides();
    let workload = "shop".to_string();
    let c = container("web", "nginx-app");
    assert_eq!(classify(&c, &workload, &vec![], &config, false), ContainerClass::Primary);
    assert_eq!(classify(&c, &workload, &vec![], &config, true), ContainerClass::Unclassified);
}
