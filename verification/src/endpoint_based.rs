use vstd::prelude::*;
use crate::config_type::{list_contains, Config, ConfigView};
use crate::k8s_types::{
    Container, ContainerView, K8SManifest, K8SManifestView, Microservice, Port, SpecView, Template,
    TemplateSpec, TemplateSpecView, TemplateView,
};
use crate::report::{
    lemma_followed_by_nothing, ManifestFile, ManifestFileView, Outcome, OutcomeView, Smell,
    SmellView,
};
use crate::text::same;
use crate::topology::{edge_destinations, get_edge_destinations, has_type, node_has_type};
use crate::tosca_types::{datastore_type, NodeTemplate, NodeTemplateView};
use crate::yaml_handler::{
    any_host_port, create_service_from, find_workload, find_workload_index, has_direct_access,
    has_host_port, has_one_container_list, manifest_file_name, manifest_filename, ports_bind_host,
    service_from, workload_has_direct_access,
};

verus! {

/// The label by which a Service picks its workload: `app` where it is set,
/// else `service`.
pub open spec fn selector_label(m: K8SManifestView) -> Option<Seq<char>> {
    match m.spec.selector {
        Some(selector) => if selector.app is Some {
            selector.app
        } else {
            selector.service
        },
        None => None,
    }
}

/// The manifest is a Service whose selector picks the workload called
/// `name`.
pub open spec fn fronts(m: K8SManifestView, name: Seq<char>) -> bool {
    m.kind == "Service"@ && selector_label(m) == Some(name)
}

/// A Service fronts the workload called `name`: the selector of some
/// Service picks it.
pub open spec fn has_service(ms: Seq<K8SManifestView>, name: Seq<char>) -> bool {
    exists|i: int| 0 <= i < ms.len() && fronts(#[trigger] ms[i], name)
}

/// What is known of the invoked service called `name`: nothing where no
/// workload has that name.
pub open spec fn microservice_of(ms: Seq<K8SManifestView>, name: Seq<char>) -> Option<Microservice> {
    match find_workload(ms, name) {
        Some(workload) => Some(
            Microservice {
                has_service: has_service(ms, name),
                has_direct_access: has_direct_access(workload),
            },
        ),
        None => None,
    }
}

/// The configuration takes the service out of the rule.
pub open spec fn is_ignored(name: Seq<char>, config: ConfigView) -> bool {
    config.ignore_smells.endpoint_based_interaction.contains(name)
}

/// The ports that stay when a workload is closed: those that bind no port
/// of the node.
pub open spec fn binds_no_host() -> spec_fn(Port) -> bool {
    |p: Port| p.host_port is None
}

/// The container with only those of its ports that bind no port of the
/// node.
pub open spec fn unbound(c: ContainerView) -> ContainerView {
    ContainerView {
        ports: match c.ports {
            Some(ports) => Some(ports.filter(binds_no_host())),
            None => None,
        },
        ..c
    }
}

/// The containers, each with only those of its ports that bind no port of
/// the node.
pub open spec fn unbound_all(cs: Seq<ContainerView>) -> Seq<ContainerView> {
    Seq::new(cs.len(), |i: int| unbound(cs[i]))
}

/// The containers, where there are any, each with only those of its ports
/// that bind no port of the node.
pub open spec fn unbound_list(cs: Option<Seq<ContainerView>>) -> Option<Seq<ContainerView>> {
    match cs {
        Some(list) => Some(unbound_all(list)),
        None => None,
    }
}

/// The workload closed to direct access: the host network setting is
/// unset, and no container, at the top level or in the template, keeps a
/// port that binds a port of the node.
pub open spec fn without_direct_access(m: K8SManifestView) -> K8SManifestView {
    K8SManifestView {
        spec: SpecView {
            host_network: None,
            containers: unbound_list(m.spec.containers),
            template: match m.spec.template {
                Some(template) => Some(
                    TemplateView {
                        spec: TemplateSpecView {
                            containers: unbound_list(template.spec.containers),
                            ..template.spec
                        },
                        ..template
                    },
                ),
                None => None,
            },
            ..m.spec
        },
        ..m
    }
}

/// What the rule finds for one invoked service and proposes for it. A
/// service that the configuration ignores, or that no workload is called
/// as, gives nothing. A workload that can be reached directly is reported,
/// and so is one that no Service fronts; a workload can be reported for
/// both. With remediation the first is closed to direct access and written
/// over its file, and for the second a Service is made.
pub open spec fn endpoint_outcome_of(
    ms: Seq<K8SManifestView>,
    config: ConfigView,
    name: Seq<char>,
    remediate: bool,
) -> OutcomeView {
    if is_ignored(name, config) {
        OutcomeView::empty()
    } else {
        match microservice_of(ms, name) {
            None => OutcomeView::empty(),
            Some(known) => OutcomeView {
                smells: (if known.has_direct_access {
                    seq![SmellView::DirectAccess { service: name }]
                } else {
                    Seq::empty()
                }) + (if known.has_service {
                    Seq::empty()
                } else {
                    seq![SmellView::MissingService { service: name }]
                }),
                updated: if remediate && known.has_direct_access {
                    seq![
                        ManifestFileView {
                            filename: manifest_file_name(name),
                            manifest: without_direct_access(find_workload(ms, name)->0),
                        },
                    ]
                } else {
                    Seq::empty()
                },
                created: if remediate && !known.has_service {
                    seq![service_from(name)]
                } else {
                    Seq::empty()
                },
            },
        }
    }
}

/// What the rule finds for the first `n` of `names` and proposes for them,
/// name after name.
pub open spec fn endpoint_outcome_upto(
    ms: Seq<K8SManifestView>,
    config: ConfigView,
    names: Seq<Seq<char>>,
    n: int,
    remediate: bool,
) -> OutcomeView
    decreases n,
{
    if n <= 0 {
        OutcomeView::empty()
    } else {
        endpoint_outcome_upto(ms, config, names, n - 1, remediate).followed_by(
            endpoint_outcome_of(ms, config, names[n - 1], remediate),
        )
    }
}

/// Whether a Service fronts the workload called `name`.
pub fn service_fronts(manifests: &Vec<K8SManifest>, name: &String) -> (r: bool)
    ensures
        r == has_service(manifests.deep_view(), name@),
{
    let ghost ms = manifests.deep_view();
    let mut i: usize = 0;
    while i < manifests.len()
        invariant
            i <= manifests.len(),
            ms == manifests.deep_view(),
            forall|j: int| 0 <= j < i ==> !fronts(#[trigger] ms[j], name@),
        decreases manifests.len() - i,
    {
        let m = &manifests[i];
        if same(m.kind.as_str(), "Service") {
            let picked = match &m.spec.selector {
                Some(selector) => match &selector.app {
                    Some(app) => *app == *name,
                    None => match &selector.service {
                        Some(service) => *service == *name,
                        None => false,
                    },
                },
                None => false,
            };
            if picked {
                assert(fronts(ms[i as int], name@));
                return true;
            }
        }
        i += 1;
    }
    false
}

/// What is known of the invoked service called `name`.
pub fn get_microservice(manifests: &Vec<K8SManifest>, name: &String) -> (r: Option<Microservice>)
    ensures
        r == microservice_of(manifests.deep_view(), name@),
{
    match find_workload_index(manifests, name) {
        Some(i) => Some(
            Microservice {
                has_service: service_fronts(manifests, name),
                has_direct_access: workload_has_direct_access(&manifests[i]),
            },
        ),
        None => None,
    }
}

/// A copy of the ports that bind no port of the node.
fn cluster_ports(ports: &Vec<Port>) -> (r: Vec<Port>)
    ensures
        r@ == ports@.filter(binds_no_host()),
{
    let mut kept: Vec<Port> = Vec::new();
    let mut i: usize = 0;
    assert(ports@.take(0) =~= Seq::empty());
    assert(kept@ =~= ports@.take(0).filter(binds_no_host())) by {
        reveal(Seq::filter);
    }
    while i < ports.len()
        invariant
            i <= ports.len(),
            kept@ == ports@.take(i as int).filter(binds_no_host()),
        decreases ports.len() - i,
    {
        proof {
            reveal(Seq::filter);
            assert(ports@.take(i + 1).drop_last() =~= ports@.take(i as int));
        }
        if ports[i].host_port.is_none() {
            kept.push(ports[i]);
        }
        i += 1;
    }
    assert(ports@.take(ports.len() as int) =~= ports@);
    kept
}

/// A copy of the container with only those of its ports that bind no port
/// of the node.
fn unbind(container: &Container) -> (r: Container)
    ensures
        r@ == unbound(container@),
{
    let mut copy = container.clone();
    match &container.ports {
        Some(ports) => {
            let kept = cluster_ports(ports);
            assert(ports.deep_view() =~= ports@);
            assert(kept.deep_view() =~= kept@);
            copy.ports = Some(kept);
        },
        None => {},
    }
    copy
}

/// A copy of the containers, where there are any, each with only those of
/// its ports that bind no port of the node.
fn unbind_list(containers: &Option<Vec<Container>>) -> (r: Option<Vec<Container>>)
    ensures
        r.deep_view() == unbound_list(containers.deep_view()),
{
    match containers {
        Some(list) => {
            let mut result: Vec<Container> = Vec::new();
            let mut i: usize = 0;
            while i < list.len()
                invariant
                    i <= list.len(),
                    result.len() == i,
                    forall|j: int|
                        0 <= j < i ==> (#[trigger] result[j])@ == unbound(list.deep_view()[j]),
                decreases list.len() - i,
            {
                result.push(unbind(&list[i]));
                i += 1;
            }
            assert(result.deep_view() =~= unbound_all(list.deep_view()));
            Some(result)
        },
        None => None,
    }
}

/// A copy of the workload, closed to direct access.
pub fn close_direct_access(manifest: &K8SManifest) -> (r: K8SManifest)
    ensures
        r@ == without_direct_access(manifest@),
{
    let mut copy = manifest.clone();
    copy.spec.host_network = None;
    copy.spec.containers = unbind_list(&manifest.spec.containers);
    copy.spec.template = match &manifest.spec.template {
        Some(template) => {
            let rest = template.clone();
            Some(
                Template {
                    spec: TemplateSpec {
                        init_containers: rest.spec.init_containers,
                        containers: unbind_list(&template.spec.containers),
                        volumes: rest.spec.volumes,
                    },
                    metadata: rest.metadata,
                },
            )
        },
        None => None,
    };
    copy
}

/// Runs the rule for one invoked service.
pub fn check_invoked_service(
    manifests: &Vec<K8SManifest>,
    config: &Config,
    name: &String,
    is_to_refactor: bool,
) -> (out: Outcome)
    ensures
        out@ == endpoint_outcome_of(manifests.deep_view(), config@, name@, is_to_refactor),
{
    let mut out = Outcome::new();
    if list_contains(&config.ignore_smells.endpoint_based_interaction, name) {
        return out;
    }
    match get_microservice(manifests, name) {
        None => out,
        Some(known) => {
            if known.has_direct_access {
                out.smells.push(Smell::DirectAccess { service: name.clone() });
                if is_to_refactor {
                    match find_workload_index(manifests, name) {
                        Some(i) => {
                            let file = ManifestFile {
                                filename: manifest_filename(name),
                                manifest: close_direct_access(&manifests[i]),
                            };
                            out.updated.push(file);
                        },
                        None => {},
                    }
                }
            }
            if !known.has_service {
                out.smells.push(Smell::MissingService { service: name.clone() });
                if is_to_refactor {
                    out.created.push(create_service_from(name.clone()));
                }
            }
            proof {
                let expected = endpoint_outcome_of(
                    manifests.deep_view(),
                    config@,
                    name@,
                    is_to_refactor,
                );
                assert(out@.smells =~= expected.smells);
                assert(out@.updated =~= expected.updated);
                assert(out@.created =~= expected.created);
            }
            out
        },
    }
}

/// The rule on endpoint-based interaction, for every invoked service of the
/// configuration: an invoked service should be reached through a Service
/// only, never directly on its node.
pub fn check_endpoint_based_interaction(
    manifests: &Vec<K8SManifest>,
    config: &Config,
    is_to_refactor: bool,
) -> (out: Outcome)
    ensures
        out@ == endpoint_outcome_upto(
            manifests.deep_view(),
            config@,
            config@.invoked_services,
            config@.invoked_services.len() as int,
            is_to_refactor,
        ),
{
    check_services(manifests, config, &config.invoked_services, is_to_refactor)
}

/// Runs the rule for each of `names`, in their order.
fn check_services(
    manifests: &Vec<K8SManifest>,
    config: &Config,
    names: &Vec<String>,
    is_to_refactor: bool,
) -> (out: Outcome)
    ensures
        out@ == endpoint_outcome_upto(
            manifests.deep_view(),
            config@,
            names.deep_view(),
            names.len() as int,
            is_to_refactor,
        ),
{
    let mut out = Outcome::new();
    let mut i: usize = 0;
    while i < names.len()
        invariant
            i <= names.len(),
            out@ == endpoint_outcome_upto(
                manifests.deep_view(),
                config@,
                names.deep_view(),
                i as int,
                is_to_refactor,
            ),
        decreases names.len() - i,
    {
        let one = check_invoked_service(manifests, config, &names[i], is_to_refactor);
        out.extend(one);
        i += 1;
    }
    out
}

/// What the rule finds for one destination of the architecture: nothing
/// for a datastore, else what it finds for an invoked service of that
/// name. Nothing is proposed.
pub open spec fn edge_outcome_of(
    ms: Seq<K8SManifestView>,
    nodes: Seq<NodeTemplateView>,
    config: ConfigView,
    destination: Seq<char>,
) -> OutcomeView {
    if has_type(nodes, destination, datastore_type()) {
        OutcomeView::empty()
    } else {
        endpoint_outcome_of(ms, config, destination, false)
    }
}

/// What the rule finds for the first `n` of `destinations`, one after the
/// other.
pub open spec fn edge_outcome_upto(
    ms: Seq<K8SManifestView>,
    nodes: Seq<NodeTemplateView>,
    config: ConfigView,
    destinations: Seq<Seq<char>>,
    n: int,
) -> OutcomeView
    decreases n,
{
    if n <= 0 {
        OutcomeView::empty()
    } else {
        edge_outcome_upto(ms, nodes, config, destinations, n - 1).followed_by(
            edge_outcome_of(ms, nodes, config, destinations[n - 1]),
        )
    }
}

/// The rule on endpoint-based interaction, for every edge of the
/// architecture: the destination of each edge is looked at as an invoked
/// service is, but for datastores. This only detects.
pub fn check_endpoint_based_interaction_in(
    manifests: &Vec<K8SManifest>,
    topology: &Vec<NodeTemplate>,
    config: &Config,
) -> (out: Outcome)
    ensures
        out@ == edge_outcome_upto(
            manifests.deep_view(),
            topology.deep_view(),
            config@,
            edge_destinations(topology.deep_view(), topology.len() as int),
            edge_destinations(topology.deep_view(), topology.len() as int).len() as int,
        ),
{
    let destinations = get_edge_destinations(topology);
    let mut out = Outcome::new();
    let mut i: usize = 0;
    while i < destinations.len()
        invariant
            i <= destinations.len(),
            out@ == edge_outcome_upto(
                manifests.deep_view(),
                topology.deep_view(),
                config@,
                destinations.deep_view(),
                i as int,
            ),
        decreases destinations.len() - i,
    {
        if !node_has_type(topology, &destinations[i], "micro.nodes.Datastore") {
            let one = check_invoked_service(manifests, config, &destinations[i], false);
            out.extend(one);
        } else {
            proof {
                lemma_followed_by_nothing(out@);
            }
        }
        i += 1;
    }
    out
}

/// The ports that stay when a workload is closed bind no port of the node.
pub proof fn lemma_kept_ports_bind_nothing(ports: Seq<Port>)
    ensures
        !ports_bind_host(ports.filter(binds_no_host())),
    decreases ports.len(),
{
    reveal(Seq::filter);
    if ports.len() > 0 {
        lemma_kept_ports_bind_nothing(ports.drop_last());
        let before = ports.drop_last().filter(binds_no_host());
        let kept = ports.filter(binds_no_host());
        assert forall|k: int| 0 <= k < kept.len() implies kept[k].host_port is None by {
            if k < before.len() {
                assert(kept[k] == before[k]);
                assert(!(0 <= k < before.len() && before[k].host_port is Some));
            }
        }
    }
}

/// No container of a closed list binds a port of the node.
pub proof fn lemma_unbound_list_binds_nothing(cs: Option<Seq<ContainerView>>)
    ensures
        !any_host_port(unbound_list(cs)),
{
    match cs {
        Some(list) => {
            let closed = unbound_all(list);
            assert(unbound_list(cs)->0 == closed);
            assert forall|k: int| 0 <= k < closed.len() implies !has_host_port(closed[k]) by {
                assert(closed[k] == unbound(list[k]));
                match list[k].ports {
                    Some(ports) => {
                        lemma_kept_ports_bind_nothing(ports);
                    },
                    None => {},
                }
            }
        },
        None => {},
    }
}

/// A workload that was closed to direct access cannot be reached directly.
pub proof fn lemma_closed_workload_is_closed(m: K8SManifestView)
    ensures
        !has_direct_access(without_direct_access(m)),
{
    let closed = without_direct_access(m);
    lemma_unbound_list_binds_nothing(m.spec.containers);
    match m.spec.template {
        Some(template) => {
            lemma_unbound_list_binds_nothing(template.spec.containers);
            assert(closed.spec.template->0.spec.containers == unbound_list(
                template.spec.containers,
            ));
        },
        None => {},
    }
}

/// Closing a workload leaves its containers where they stand, as many as
/// they were.
pub proof fn lemma_closing_keeps_one_list(m: K8SManifestView)
    requires
        has_one_container_list(m),
    ensures
        has_one_container_list(without_direct_access(m)),
        m.spec.containers matches Some(cs) ==> without_direct_access(m).spec.containers->0.len()
            == cs.len(),
{
}

/// An invoked service whose workload shares the network of its node, and
/// that no Service fronts, is reported twice in one run: for the direct
/// access and for the missing Service, in this order.
pub proof fn lemma_exposed_and_unfronted_reports_both(
    ms: Seq<K8SManifestView>,
    config: ConfigView,
    name: Seq<char>,
    remediate: bool,
)
    requires
        !is_ignored(name, config),
        find_workload(ms, name) matches Some(workload) && workload.spec.host_network == Some(true),
        forall|i: int| 0 <= i < ms.len() ==> !fronts(#[trigger] ms[i], name),
    ensures
        endpoint_outcome_of(ms, config, name, remediate).smells == seq![
            SmellView::DirectAccess { service: name },
            SmellView::MissingService { service: name },
        ],
{
    assert(endpoint_outcome_of(ms, config, name, remediate).smells =~= seq![
        SmellView::DirectAccess { service: name },
        SmellView::MissingService { service: name },
    ]);
}

/// What a run reports for one of its names is part of what the run
/// reports.
pub proof fn lemma_run_holds_each_finding(
    ms: Seq<K8SManifestView>,
    config: ConfigView,
    names: Seq<Seq<char>>,
    n: int,
    remediate: bool,
    i: int,
    smell: SmellView,
)
    requires
        0 <= i < n <= names.len(),
        endpoint_outcome_of(ms, config, names[i], remediate).smells.contains(smell),
    ensures
        endpoint_outcome_upto(ms, config, names, n, remediate).smells.contains(smell),
    decreases n,
{
    let before = endpoint_outcome_upto(ms, config, names, n - 1, remediate).smells;
    let last = endpoint_outcome_of(ms, config, names[n - 1], remediate).smells;
    let all = endpoint_outcome_upto(ms, config, names, n, remediate).smells;
    assert(all == before + last);
    if i == n - 1 {
        let k = choose|k: int| 0 <= k < last.len() && last[k] == smell;
        assert(all[before.len() + k] == smell);
    } else {
        lemma_run_holds_each_finding(ms, config, names, n - 1, remediate, i, smell);
        let k = choose|k: int| 0 <= k < before.len() && before[k] == smell;
        assert(all[k] == smell);
    }
}

/// A run over the invoked services reports both findings for each invoked
/// service whose workload shares the network of its node and that no
/// Service fronts.
pub proof fn lemma_run_reports_both(
    ms: Seq<K8SManifestView>,
    config: ConfigView,
    remediate: bool,
    i: int,
)
    requires
        0 <= i < config.invoked_services.len(),
        !is_ignored(config.invoked_services[i], config),
        find_workload(ms, config.invoked_services[i]) matches Some(workload)
            && workload.spec.host_network == Some(true),
        forall|k: int| 0 <= k < ms.len() ==> !fronts(#[trigger] ms[k], config.invoked_services[i]),
    ensures
        ({
            let name = config.invoked_services[i];
            let run = endpoint_outcome_upto(
                ms,
                config,
                config.invoked_services,
                config.invoked_services.len() as int,
                remediate,
            );
            &&& run.smells.contains(SmellView::DirectAccess { service: name })
            &&& run.smells.contains(SmellView::MissingService { service: name })
        }),
{
    let names = config.invoked_services;
    let name = names[i];
    lemma_exposed_and_unfronted_reports_both(ms, config, name, remediate);
    let found = endpoint_outcome_of(ms, config, name, remediate).smells;
    assert(found[0] == SmellView::DirectAccess { service: name });
    assert(found[1] == SmellView::MissingService { service: name });
    lemma_run_holds_each_finding(
        ms,
        config,
        names,
        names.len() as int,
        remediate,
        i,
        SmellView::DirectAccess { service: name },
    );
    lemma_run_holds_each_finding(
        ms,
        config,
        names,
        names.len() as int,
        remediate,
        i,
        SmellView::MissingService { service: name },
    );
}

/// Where nothing is found for a service, nothing is proposed for it.
pub proof fn lemma_clean_service_changes_nothing(
    ms: Seq<K8SManifestView>,
    config: ConfigView,
    name: Seq<char>,
    remediate: bool,
)
    requires
        endpoint_outcome_of(ms, config, name, remediate).smells.len() == 0,
    ensures
        endpoint_outcome_of(ms, config, name, remediate) == OutcomeView::empty(),
{
    assert(endpoint_outcome_of(ms, config, name, remediate).smells =~= Seq::empty());
}

} // verus!
