use freshener::config_type::{Config, Smells};
use freshener::k8s_types::{K8SManifest, Metadata, OutlierDetection, Spec, TrafficPolicy};
use freshener::report::Smell;
use freshener::tosca_types::{Interaction, NodeTemplate, Requirement};
use freshener::wobbly::{
    check_destination, check_wobbly_interaction, check_wobbly_interaction_in,
    destination_rule_breaks, virtual_service_routes,
};

fn manifest(kind: &str, name: &str, spec: Spec) -> K8SManifest {
    K8SManifest {
        api_version: "networking.istio.io/v1alpha3".to_string(),
        kind: kind.to_string(),
        metadata: Metadata { name: name.to_string(), labels: None },
        spec,
    }
}

fn virtual_service(hosts: Vec<&str>) -> K8SManifest {
    manifest(
        "VirtualService",
        "vs",
        Spec { hosts: Some(hosts.into_iter().map(|h| h.to_string()).collect()), ..Spec::default() },
    )
}

fn destination_rule(host: &str, policy: Option<TrafficPolicy>) -> K8SManifest {
    manifest(
        "DestinationRule",
        "dr",
        Spec { host: Some(host.to_string()), traffic_policy: policy, ..Spec::default() },
    )
}

fn detection() -> Option<TrafficPolicy> {
    Some(TrafficPolicy {
        outlier_detection: Some(OutlierDetection {
            consecutive_errors: Some(5),
            interval: Some("10s".to_string()),
        }),
    })
}

fn config(invoked: Vec<&str>) -> Config {
    Config {
        ignore_smells: Smells {
            multiple_container: vec![],
            noapigateway: vec![],
            endpoint_based_interaction: vec![],
            wobbly: vec![],
        },
        invoked_services: invoked.into_iter().map(|s| s.to_string()).collect(),
        ignored_manifests: vec![],
    }
}

fn wobbly(name: &str) -> Smell {
    Smell::WobblyInteraction { destination: name.to_string() }
}

fn node(name: &str, kind: &str, targets: Vec<&str>) -> NodeTemplate {
    NodeTemplate {
        name: Some(name.to_string()),
        kind: Some(kind.to_string()),
        requirements: Some(
            targets
                .into_iter()
                .map(|t| Requirement { interaction: Some(Interaction::PlainName(t.to_string())) })
                .collect(),
        ),
    }
}

#[test]
fn a_virtual_service_for_the_destination_protects_it() {
    let manifests = vec![virtual_service(vec!["catalogue"])];
    let outcome = check_wobbly_interaction(&manifests, &config(vec!["catalogue"]), true);
    assert!(outcome.smells.is_empty());
    assert!(outcome.created.is_empty());
}

#[test]
fn a_destination_with_nothing_is_reported() {
    let manifests = vec![
        virtual_service(vec!["orders"]),
        destination_rule("catalogue", None),
        destination_rule("catalogue", Some(TrafficPolicy { outlier_detection: None })),
        destination_rule("orders", detection()),
    ];
    let outcome = check_wobbly_interaction(&manifests, &config(vec!["catalogue"]), false);
    assert_eq!(outcome.smells, vec![wobbly("catalogue")]);
    assert!(outcome.created.is_empty());
    assert!(outcome.updated.is_empty());
}

#[test]
fn outlier_detection_on_the_matching_rule_removes_the_report() {
    let without = vec![destination_rule("catalogue", None)];
    assert_eq!(
        check_wobbly_interaction(&without, &config(vec!["catalogue"]), false).smells,
        vec![wobbly("catalogue")]
    );
    let with = vec![destination_rule("catalogue", detection())];
    assert!(check_wobbly_interaction(&with, &config(vec!["catalogue"]), false).smells.is_empty());
}

#[test]
fn the_kind_of_the_manifest_counts() {
    let mut posing = virtual_service(vec!["catalogue"]);
    posing.kind = "Service".to_string();
    assert!(!virtual_service_routes(&vec![posing], &"catalogue".to_string()));
    let mut rule = destination_rule("catalogue", detection());
    rule.kind = "VirtualService".to_string();
    assert!(!destination_rule_breaks(&vec![rule], &"catalogue".to_string()));
}

#[test]
fn a_host_must_be_the_destination_itself() {
    let manifests = vec![virtual_service(vec!["catalogue-db", "cat"])];
    assert!(!virtual_service_routes(&manifests, &"catalogue".to_string()));
    assert!(virtual_service_routes(&manifests, &"cat".to_string()));
    let rules = vec![destination_rule("catalogue.svc", detection())];
    assert!(!destination_rule_breaks(&rules, &"catalogue".to_string()));
}

#[test]
fn remediation_makes_a_virtual_service_for_the_destination() {
    let outcome = check_wobbly_interaction(&vec![], &config(vec!["catalogue"]), true);
    assert_eq!(outcome.smells, vec![wobbly("catalogue")]);
    assert!(outcome.updated.is_empty());
    assert_eq!(outcome.created.len(), 1);
    let made = &outcome.created[0];
    assert_eq!(made.filename, "catalogue-virtual-service.yaml");
    assert_eq!(made.manifest.kind, "VirtualService");
    assert_eq!(made.manifest.api_version, "networking.istio.io/v1alpha3");
    assert_eq!(made.manifest.metadata.name, "catalogue");
    assert_eq!(
        made.manifest.spec,
        Spec { hosts: Some(vec!["catalogue".to_string()]), ..Spec::default() }
    );
}

#[test]
fn a_second_run_with_what_remediation_made_finds_nothing() {
    let cfg = config(vec!["catalogue", "orders"]);
    let first = check_wobbly_interaction(&vec![], &cfg, true);
    assert_eq!(first.smells, vec![wobbly("catalogue"), wobbly("orders")]);
    let manifests: Vec<K8SManifest> = first.created.iter().map(|f| f.manifest.clone()).collect();
    let second = check_wobbly_interaction(&manifests, &cfg, true);
    assert!(second.smells.is_empty());
    assert!(second.created.is_empty());
}

#[test]
fn the_wobbly_ignore_list_is_not_read() {
    let mut cfg = config(vec!["catalogue"]);
    cfg.ignore_smells.wobbly = vec!["catalogue".to_string()];
    assert_eq!(check_wobbly_interaction(&vec![], &cfg, false).smells, vec![wobbly("catalogue")]);
}

#[test]
fn one_destination_alone() {
    let manifests = vec![virtual_service(vec!["a"])];
    assert!(check_destination(&manifests, &"a".to_string(), true).smells.is_empty());
    assert_eq!(check_destination(&manifests, &"b".to_string(), false).smells, vec![wobbly("b")]);
}

#[test]
fn the_architecture_leaves_out_stores_routers_and_brokers() {
    let topology = vec![
        node("front", "micro.nodes.Service", vec!["orders", "db", "gw", "queue", "orders"]),
        node("orders", "micro.nodes.Service", vec!["cart"]),
        node("db", "micro.nodes.Datastore", vec![]),
        node("gw", "micro.nodes.MessageRouter", vec![]),
        node("queue", "micro.nodes.MessageBroker", vec![]),
    ];
    let manifests = vec![virtual_service(vec!["cart"])];
    let outcome = check_wobbly_interaction_in(&manifests, &topology);
    assert_eq!(outcome.smells, vec![wobbly("orders"), wobbly("orders")]);
    assert!(outcome.created.is_empty());
    assert!(outcome.updated.is_empty());
}
