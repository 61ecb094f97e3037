use freshener::config_type::{Config, Smells};
use freshener::endpoint_based::{
    check_endpoint_based_interaction, check_endpoint_based_interaction_in, check_invoked_service,
    close_direct_access, get_microservice, service_fronts,
};
use freshener::k8s_types::{
    Container, K8SManifest, Metadata, Microservice, Port, Selector, Spec, Template, TemplateSpec,
};
use freshener::report::Smell;
use freshener::tosca_types::{DetailedInteraction, Interaction, NodeTemplate, Requirement};
use freshener::yaml_handler::deployment_has_direct_access;

fn container(name: &str, ports: Option<Vec<Port>>) -> Container {
    Container {
        name: name.to_string(),
        security_context: None,
        image: format!("shop/{}", name),
        ports,
        readiness_probe: None,
        liveness_probe: None,
        resources: None,
        image_pull_policy: None,
        env: None,
    }
}

fn host(port: i32) -> Port {
    Port { host_port: Some(port), container_port: Some(port) }
}

fn inner(port: i32) -> Port {
    Port { host_port: None, container_port: Some(port) }
}

fn manifest(kind: &str, name: &str, spec: Spec) -> K8SManifest {
    K8SManifest {
        api_version: "v1".to_string(),
        kind: kind.to_string(),
        metadata: Metadata { name: name.to_string(), labels: None },
        spec,
    }
}

fn pod(name: &str, host_network: Option<bool>, containers: Vec<Container>) -> K8SManifest {
    manifest("Pod", name, Spec { containers: Some(containers), host_network, ..Spec::default() })
}

fn deployment(name: &str, host_network: Option<bool>, containers: Vec<Container>) -> K8SManifest {
    let template = Template {
        spec: TemplateSpec { init_containers: None, containers: Some(containers), volumes: None },
        metadata: None,
    };
    manifest("Deployment", name, Spec { template: Some(template), host_network, ..Spec::default() })
}

fn service(name: &str, app: Option<&str>, service: Option<&str>) -> K8SManifest {
    let selector = Selector {
        service: service.map(|s| s.to_string()),
        match_labels: None,
        app: app.map(|s| s.to_string()),
    };
    manifest("Service", name, Spec { selector: Some(selector), ..Spec::default() })
}

fn config(invoked: Vec<&str>, ignored: Vec<&str>) -> Config {
    Config {
        ignore_smells: Smells {
            multiple_container: vec![],
            noapigateway: vec![],
            endpoint_based_interaction: ignored.into_iter().map(|s| s.to_string()).collect(),
            wobbly: vec![],
        },
        invoked_services: invoked.into_iter().map(|s| s.to_string()).collect(),
        ignored_manifests: vec![],
    }
}

fn direct(name: &str) -> Smell {
    Smell::DirectAccess { service: name.to_string() }
}

fn missing(name: &str) -> Smell {
    Smell::MissingService { service: name.to_string() }
}

fn node(name: &str, kind: &str, targets: Vec<Interaction>) -> NodeTemplate {
    NodeTemplate {
        name: Some(name.to_string()),
        kind: Some(kind.to_string()),
        requirements: Some(targets.into_iter().map(|i| Requirement { interaction: Some(i) }).collect()),
    }
}

#[test]
fn a_host_network_without_service_is_reported_twice() {
    let manifests = vec![pod("orders", Some(true), vec![container("orders", None)])];
    let outcome = check_endpoint_based_interaction(&manifests, &config(vec!["orders"], vec![]), false);
    assert_eq!(outcome.smells, vec![direct("orders"), missing("orders")]);
    assert!(outcome.updated.is_empty());
    assert!(outcome.created.is_empty());
}

#[test]
fn both_findings_are_remedied_apart() {
    let manifests = vec![pod("orders", Some(true), vec![container("orders", Some(vec![host(80), inner(81)]))])];
    let outcome = check_endpoint_based_interaction(&manifests, &config(vec!["orders"], vec![]), true);
    assert_eq!(outcome.smells, vec![direct("orders"), missing("orders")]);
    assert_eq!(outcome.updated.len(), 1);
    assert_eq!(outcome.updated[0].filename, "orders.yaml");
    assert_eq!(
        outcome.updated[0].manifest,
        pod("orders", None, vec![container("orders", Some(vec![inner(81)]))])
    );
    assert_eq!(outcome.created.len(), 1);
    assert_eq!(outcome.created[0].filename, "orders-srv.yaml");
    assert_eq!(outcome.created[0].manifest.kind, "Service");
    assert_eq!(outcome.created[0].manifest.api_version, "v1");
    assert_eq!(outcome.created[0].manifest.metadata.name, "orders");
    assert_eq!(
        outcome.created[0].manifest.spec.selector,
        Some(Selector { service: Some("orders".to_string()), match_labels: None, app: None })
    );
}

#[test]
fn the_service_that_remediation_makes_fronts_the_workload() {
    let mut manifests = vec![pod("orders", None, vec![container("orders", None)])];
    let cfg = config(vec!["orders"], vec![]);
    let first = check_endpoint_based_interaction(&manifests, &cfg, true);
    assert_eq!(first.smells, vec![missing("orders")]);
    manifests.push(first.created[0].manifest.clone());
    let second = check_endpoint_based_interaction(&manifests, &cfg, true);
    assert!(second.smells.is_empty());
    assert!(second.created.is_empty());
}

#[test]
fn a_fronted_workload_without_direct_access_is_clean() {
    let manifests = vec![
        deployment("orders", None, vec![container("orders", Some(vec![inner(80)]))]),
        service("orders-svc", Some("orders"), None),
    ];
    let outcome = check_endpoint_based_interaction(&manifests, &config(vec!["orders"], vec![]), true);
    assert!(outcome.smells.is_empty());
    assert!(outcome.updated.is_empty());
    assert!(outcome.created.is_empty());
}

#[test]
fn a_host_port_in_the_template_is_direct_access() {
    let manifests = vec![
        deployment("orders", None, vec![container("orders", Some(vec![inner(80), host(81)]))]),
        service("orders-svc", None, Some("orders")),
    ];
    let outcome = check_endpoint_based_interaction(&manifests, &config(vec!["orders"], vec![]), true);
    assert_eq!(outcome.smells, vec![direct("orders")]);
    assert_eq!(
        outcome.updated[0].manifest,
        deployment("orders", None, vec![container("orders", Some(vec![inner(80)]))])
    );
    assert!(outcome.created.is_empty());
}

#[test]
fn the_app_label_comes_before_the_service_label() {
    let workloads = vec![pod("orders", None, vec![])];
    let mut by_app = workloads.clone();
    by_app.push(service("s", Some("orders"), Some("other")));
    assert!(service_fronts(&by_app, &"orders".to_string()));
    assert!(!service_fronts(&by_app, &"other".to_string()));
    let mut by_service = workloads.clone();
    by_service.push(service("s", None, Some("orders")));
    assert!(service_fronts(&by_service, &"orders".to_string()));
}

#[test]
fn only_a_service_fronts() {
    let mut selecting_pod = pod("orders", None, vec![]);
    selecting_pod.spec.selector =
        Some(Selector { service: None, match_labels: None, app: Some("orders".to_string()) });
    assert!(!service_fronts(&vec![selecting_pod], &"orders".to_string()));
    let unselective = manifest("Service", "s", Spec::default());
    assert!(!service_fronts(&vec![unselective], &"orders".to_string()));
}

#[test]
fn an_empty_label_picks_the_workload_without_a_name() {
    let manifests = vec![pod("", None, vec![]), service("s", Some(""), None)];
    assert!(service_fronts(&manifests, &"".to_string()));
    assert!(!service_fronts(&manifests, &"orders".to_string()));
    assert!(!service_fronts(&vec![pod("", None, vec![])], &"".to_string()));
    let by_service = vec![service("s", None, Some(""))];
    assert!(service_fronts(&by_service, &"".to_string()));
    let shadowed = vec![service("s", Some("orders"), Some(""))];
    assert!(!service_fronts(&shadowed, &"".to_string()));
}

#[test]
fn a_fronted_workload_without_a_name_needs_no_service() {
    let manifests = vec![pod("", None, vec![]), service("s", Some(""), None)];
    let outcome = check_endpoint_based_interaction(&manifests, &config(vec![""], vec![]), true);
    assert!(outcome.smells.is_empty());
    assert!(outcome.updated.is_empty());
    assert!(outcome.created.is_empty());
    let unfronted = vec![pod("", None, vec![])];
    let outcome = check_endpoint_based_interaction(&unfronted, &config(vec![""], vec![]), true);
    assert_eq!(outcome.smells, vec![missing("")]);
    assert_eq!(outcome.created.len(), 1);
    assert_eq!(outcome.created[0].filename, "-srv.yaml");
}

#[test]
fn an_ignored_service_is_not_reported() {
    let manifests = vec![pod("orders", Some(true), vec![])];
    let outcome =
        check_endpoint_based_interaction(&manifests, &config(vec!["orders"], vec!["orders"]), true);
    assert!(outcome.smells.is_empty());
    assert!(outcome.updated.is_empty());
    assert!(outcome.created.is_empty());
}

#[test]
fn an_invoked_service_without_workload_is_not_reported() {
    let manifests = vec![service("orders", Some("orders"), None), pod("cart", Some(true), vec![])];
    let outcome = check_endpoint_based_interaction(&manifests, &config(vec!["orders"], vec![]), true);
    assert!(outcome.smells.is_empty());
}

#[test]
fn invoked_services_are_reported_in_their_order() {
    let manifests = vec![
        pod("a", Some(true), vec![]),
        pod("b", None, vec![]),
        service("sa", Some("a"), None),
    ];
    let outcome = check_endpoint_based_interaction(&manifests, &config(vec!["b", "zz", "a"], vec![]), true);
    assert_eq!(outcome.smells, vec![missing("b"), direct("a")]);
    assert_eq!(outcome.updated[0].filename, "a.yaml");
    assert_eq!(outcome.created[0].filename, "b-srv.yaml");
}

#[test]
fn what_is_known_of_a_service() {
    let manifests = vec![
        pod("a", Some(true), vec![]),
        pod("b", None, vec![]),
        service("sb", Some("b"), None),
    ];
    assert_eq!(
        get_microservice(&manifests, &"a".to_string()),
        Some(Microservice { has_service: false, has_direct_access: true })
    );
    assert_eq!(
        get_microservice(&manifests, &"b".to_string()),
        Some(Microservice { has_service: true, has_direct_access: false })
    );
    assert_eq!(get_microservice(&manifests, &"c".to_string()), None);
    assert_eq!(get_microservice(&manifests, &"sb".to_string()), None);
}

#[test]
fn closing_strips_the_host_ports_everywhere_and_nothing_else() {
    let mut both = deployment(
        "orders",
        Some(true),
        vec![container("in-template", Some(vec![host(1), inner(2), host(3)]))],
    );
    both.spec.containers = Some(vec![
        container("top", Some(vec![host(4)])),
        container("plain", None),
        container("cluster", Some(vec![inner(5)])),
    ]);
    both.spec.replicas = Some(2);
    let closed = close_direct_access(&both);
    assert!(!deployment_has_direct_access(closed.clone()));
    assert_eq!(closed.spec.host_network, None);
    assert_eq!(closed.spec.replicas, Some(2));
    assert_eq!(
        closed.spec.containers,
        Some(vec![
            container("top", Some(vec![])),
            container("plain", None),
            container("cluster", Some(vec![inner(5)])),
        ])
    );
    assert_eq!(
        closed.spec.template.unwrap().spec.containers,
        Some(vec![container("in-template", Some(vec![inner(2)]))])
    );
}

#[test]
fn one_service_alone() {
    let manifests = vec![pod("a", Some(true), vec![])];
    let cfg = config(vec![], vec![]);
    let outcome = check_invoked_service(&manifests, &cfg, &"a".to_string(), false);
    assert_eq!(outcome.smells, vec![direct("a"), missing("a")]);
}

#[test]
fn the_architecture_gives_the_destinations() {
    let manifests = vec![
        pod("orders", Some(true), vec![]),
        pod("db", Some(true), vec![]),
        pod("cart", None, vec![]),
        service("cart-svc", Some("cart"), None),
    ];
    let topology = vec![
        node(
            "frontend",
            "micro.nodes.Service",
            vec![
                Interaction::PlainName("orders".to_string()),
                Interaction::Detailed(DetailedInteraction {
                    node: Some("cart".to_string()),
                    relationship: Some("t".to_string()),
                }),
                Interaction::Detailed(DetailedInteraction { node: None, relationship: None }),
            ],
        ),
        node("orders", "micro.nodes.Service", vec![Interaction::PlainName("db".to_string())]),
        node("db", "micro.nodes.Datastore", vec![]),
        NodeTemplate { name: Some("cart".to_string()), kind: None, requirements: None },
    ];
    let outcome = check_endpoint_based_interaction_in(&manifests, &topology, &config(vec![], vec![]));
    assert_eq!(outcome.smells, vec![direct("orders"), missing("orders")]);
    assert!(outcome.updated.is_empty());
    assert!(outcome.created.is_empty());
}

#[test]
fn an_edge_to_a_datastore_is_left_out_and_other_edges_are_not() {
    let manifests = vec![pod("db", Some(true), vec![])];
    let edge = vec![Interaction::PlainName("db".to_string())];
    let as_datastore =
        vec![node("a", "micro.nodes.Service", edge.clone()), node("db", "micro.nodes.Datastore", vec![])];
    let cfg = config(vec![], vec![]);
    assert!(check_endpoint_based_interaction_in(&manifests, &as_datastore, &cfg).smells.is_empty());
    let as_service =
        vec![node("a", "micro.nodes.Service", edge.clone()), node("db", "micro.nodes.Service", vec![])];
    assert_eq!(
        check_endpoint_based_interaction_in(&manifests, &as_service, &cfg).smells,
        vec![direct("db"), missing("db")]
    );
    let unknown = vec![node("a", "micro.nodes.Service", edge)];
    assert_eq!(check_endpoint_based_interaction_in(&manifests, &unknown, &cfg).smells.len(), 2);
}

#[test]
fn the_architecture_honours_the_ignore_list() {
    let manifests = vec![pod("orders", Some(true), vec![])];
    let topology = vec![node("a", "micro.nodes.Service", vec![Interaction::PlainName("orders".to_string())])];
    let outcome = check_endpoint_based_interaction_in(&manifests, &topology, &config(vec![], vec!["orders"]));
    assert!(outcome.smells.is_empty());
}
