use freshener::config_type::{Config, KnownImage, NodeConfigElement, Smells};
use freshener::k8s_types::{Container, K8SManifest, Metadata, Port, Spec, Template, TemplateSpec};
use freshener::multiple_containers::{
    analyze_multiple_containers, check_independent_depl, check_workload_independence,
};
use freshener::report::Smell;

fn container(name: &str, image: &str) -> Container {
    Container {
        name: name.to_string(),
        security_context: None,
        image: image.to_string(),
        ports: None,
        readiness_probe: None,
        liveness_probe: None,
        resources: None,
        image_pull_policy: None,
        env: None,
    }
}

fn manifest(kind: &str, name: &str, spec: Spec) -> K8SManifest {
    K8SManifest {
        api_version: "v1".to_string(),
        kind: kind.to_string(),
        metadata: Metadata { name: name.to_string(), labels: None },
        spec,
    }
}

fn pod(name: &str, containers: Vec<Container>) -> K8SManifest {
    manifest("Pod", name, Spec { containers: Some(containers), ..Spec::default() })
}

fn deployment(name: &str, containers: Vec<Container>) -> K8SManifest {
    let template = Template {
        spec: TemplateSpec { init_containers: None, containers: Some(containers), volumes: None },
        metadata: None,
    };
    manifest(
        "Deployment",
        name,
        Spec { template: Some(template), replicas: Some(3), ..Spec::default() },
    )
}

fn config() -> Config {
    Config {
        ignore_smells: Smells {
            multiple_container: vec![],
            noapigateway: vec![],
            endpoint_based_interaction: vec![],
            wobbly: vec![],
        },
        invoked_services: vec![],
        ignored_manifests: vec![],
    }
}

fn smell(workload: &str, container: &str, image: &str) -> Smell {
    Smell::MultipleContainers {
        workload: workload.to_string(),
        container: container.to_string(),
        image: image.to_string(),
    }
}

fn three() -> Vec<Container> {
    vec![container("web", "shop/web"), container("log-sidecar", "fluentd"), container("worker", "shop/jobs")]
}

#[test]
fn detection_reports_the_later_plain_container_only() {
    let (kept, outcome) =
        analyze_multiple_containers(&three(), "shop".to_string(), &vec![], &config(), false);
    assert_eq!(outcome.smells, vec![smell("shop", "worker", "shop/jobs")]);
    assert_eq!(kept, three());
    assert!(outcome.updated.is_empty());
    assert!(outcome.created.is_empty());
}

#[test]
fn a_sidecar_at_the_front_is_never_reported() {
    let containers =
        vec![container("log-sidecar", "fluentd"), container("web", "shop/web"), container("worker", "shop/jobs")];
    let (_, outcome) =
        analyze_multiple_containers(&containers, "shop".to_string(), &vec![], &config(), false);
    assert_eq!(outcome.smells, vec![smell("shop", "worker", "shop/jobs")]);
}

#[test]
fn remediation_moves_the_unclassified_container_to_a_pod_of_its_own() {
    let (kept, outcome) =
        analyze_multiple_containers(&three(), "shop".to_string(), &vec![], &config(), true);
    assert_eq!(kept, vec![container("web", "shop/web"), container("log-sidecar", "fluentd")]);
    assert_eq!(outcome.smells, vec![smell("shop", "worker", "shop/jobs")]);
    assert_eq!(outcome.created.len(), 1);
    let made = &outcome.created[0];
    assert_eq!(made.filename, "worker.yaml");
    assert_eq!(made.manifest.kind, "Pod");
    assert_eq!(made.manifest.api_version, "apps/v1");
    assert_eq!(made.manifest.metadata.name, "worker");
    assert_eq!(made.manifest.metadata.labels, None);
    assert_eq!(
        made.manifest.spec,
        Spec { containers: Some(vec![container("worker", "shop/jobs")]), ..Spec::default() }
    );
}

#[test]
fn remediation_keeps_every_field_of_a_moved_container() {
    let mut heavy = container("worker", "shop/jobs");
    heavy.ports = Some(vec![Port { host_port: None, container_port: Some(80) }]);
    heavy.image_pull_policy = Some("Always".to_string());
    let containers = vec![container("web", "shop/web"), heavy.clone()];
    let (kept, outcome) =
        analyze_multiple_containers(&containers, "shop".to_string(), &vec![], &config(), true);
    assert_eq!(kept, vec![container("web", "shop/web")]);
    assert_eq!(outcome.created[0].manifest.spec.containers, Some(vec![heavy]));
}

#[test]
fn several_unclassified_containers_are_reported_in_their_order() {
    let containers = vec![
        container("a", "one"),
        container("b", "two"),
        container("x-adapter", "three"),
        container("c", "four"),
    ];
    let (kept, outcome) =
        analyze_multiple_containers(&containers, "w".to_string(), &vec![], &config(), true);
    assert_eq!(outcome.smells, vec![smell("w", "b", "two"), smell("w", "c", "four")]);
    assert_eq!(kept, vec![container("a", "one"), container("x-adapter", "three")]);
    let files: Vec<&str> = outcome.created.iter().map(|f| f.filename.as_str()).collect();
    assert_eq!(files, vec!["b.yaml", "c.yaml"]);
}

#[test]
fn no_or_one_plain_container_never_reports() {
    let none: Vec<Container> = vec![];
    let (_, empty) = analyze_multiple_containers(&none, "w".to_string(), &vec![], &config(), true);
    assert!(empty.smells.is_empty());
    let one = vec![container("log-sidecar", "fluentd"), container("web", "shop/web")];
    let (kept, single) = analyze_multiple_containers(&one, "w".to_string(), &vec![], &config(), true);
    assert!(single.smells.is_empty());
    assert!(single.created.is_empty());
    assert_eq!(kept, one);
    let only_sidecars = vec![container("a-sidecar", "x"), container("b-ambassador", "y")];
    let (_, aux) =
        analyze_multiple_containers(&only_sidecars, "w".to_string(), &vec![], &config(), true);
    assert!(aux.smells.is_empty());
}

#[test]
fn a_catalog_sidecar_is_not_reported() {
    let catalog = vec![KnownImage {
        name: "fluentd".to_string(),
        image: "fluent/fluentd".to_string(),
        kind: "sidecar".to_string(),
    }];
    let containers = vec![container("web", "shop/web"), container("logs", "fluent/fluentd:v1")];
    let (_, with_catalog) =
        analyze_multiple_containers(&containers, "w".to_string(), &catalog, &config(), false);
    assert!(with_catalog.smells.is_empty());
    let (_, without) =
        analyze_multiple_containers(&containers, "w".to_string(), &vec![], &config(), false);
    assert_eq!(without.smells, vec![smell("w", "logs", "fluent/fluentd:v1")]);
}

#[test]
fn an_allow_listed_container_is_not_reported() {
    let mut cfg = config();
    cfg.ignore_smells.multiple_container =
        vec![NodeConfigElement { name: "w".to_string(), containers: Some(vec!["logs".to_string()]) }];
    let containers = vec![container("web", "shop/web"), container("logs", "custom/logs")];
    let (_, listed) = analyze_multiple_containers(&containers, "w".to_string(), &vec![], &cfg, false);
    assert!(listed.smells.is_empty());
    let (_, other) = analyze_multiple_containers(&containers, "v".to_string(), &vec![], &cfg, false);
    assert_eq!(other.smells, vec![smell("v", "logs", "custom/logs")]);
}

#[test]
fn a_pod_is_written_back_without_the_moved_container() {
    let before = pod("shop", three());
    let outcome = check_workload_independence(&before, &vec![], &config(), true);
    assert_eq!(outcome.updated.len(), 1);
    assert_eq!(outcome.updated[0].filename, "shop.yaml");
    assert_eq!(
        outcome.updated[0].manifest,
        pod("shop", vec![container("web", "shop/web"), container("log-sidecar", "fluentd")])
    );
    assert_eq!(outcome.created.len(), 1);
}

#[test]
fn a_deployment_is_written_back_with_its_template_changed_only() {
    let before = deployment("shop", three());
    let outcome = check_workload_independence(&before, &vec![], &config(), true);
    assert_eq!(outcome.smells, vec![smell("shop", "worker", "shop/jobs")]);
    assert_eq!(outcome.updated.len(), 1);
    let after = &outcome.updated[0].manifest;
    assert_eq!(
        *after,
        deployment("shop", vec![container("web", "shop/web"), container("log-sidecar", "fluentd")])
    );
    assert_eq!(after.spec.containers, None);
    assert_eq!(after.spec.replicas, Some(3));
}

#[test]
fn detection_alone_proposes_nothing() {
    let outcome = check_workload_independence(&pod("shop", three()), &vec![], &config(), false);
    assert_eq!(outcome.smells.len(), 1);
    assert!(outcome.updated.is_empty());
    assert!(outcome.created.is_empty());
}

#[test]
fn a_clean_workload_is_not_written_back() {
    let clean = pod("shop", vec![container("web", "shop/web"), container("log-sidecar", "fluentd")]);
    let outcome = check_workload_independence(&clean, &vec![], &config(), true);
    assert!(outcome.smells.is_empty());
    assert!(outcome.updated.is_empty());
    assert!(outcome.created.is_empty());
}

#[test]
fn a_second_run_after_remediation_finds_nothing() {
    let first = check_workload_independence(&deployment("shop", three()), &vec![], &config(), true);
    assert_eq!(first.smells.len(), 1);
    for file in first.updated.iter().chain(first.created.iter()) {
        let second = check_workload_independence(&file.manifest, &vec![], &config(), true);
        assert!(second.smells.is_empty());
        assert!(second.updated.is_empty());
        assert!(second.created.is_empty());
    }
}

#[test]
fn other_kinds_are_not_looked_at() {
    let service = manifest("Service", "shop", Spec { containers: Some(three()), ..Spec::default() });
    let outcome = check_workload_independence(&service, &vec![], &config(), true);
    assert!(outcome.smells.is_empty());
    assert!(outcome.updated.is_empty());
}

#[test]
fn a_workload_without_containers_gives_nothing() {
    let bare = manifest("Pod", "shop", Spec::default());
    let outcome = check_workload_independence(&bare, &vec![], &config(), true);
    assert!(outcome.smells.is_empty());
    assert!(outcome.updated.is_empty());
    assert!(outcome.created.is_empty());
}

#[test]
fn every_manifest_of_the_set_is_looked_at() {
    let manifests = vec![
        pod("first", vec![container("a", "one"), container("b", "two")]),
        manifest("Service", "svc", Spec::default()),
        deployment("second", vec![container("c", "three"), container("d", "four")]),
        pod("third", vec![container("e", "five")]),
    ];
    let outcome = check_independent_depl(&manifests, &vec![], &config(), true);
    assert_eq!(outcome.smells, vec![smell("first", "b", "two"), smell("second", "d", "four")]);
    let updated: Vec<&str> = outcome.updated.iter().map(|f| f.filename.as_str()).collect();
    assert_eq!(updated, vec!["first.yaml", "second.yaml"]);
    let created: Vec<&str> = outcome.created.iter().map(|f| f.filename.as_str()).collect();
    assert_eq!(created, vec!["b.yaml", "d.yaml"]);
}

#[test]
fn an_empty_set_gives_an_empty_outcome() {
    let outcome = check_independent_depl(&vec![], &vec![], &config(), true);
    assert!(outcome.smells.is_empty());
    assert!(outcome.updated.is_empty());
    assert!(outcome.created.is_empty());
}
