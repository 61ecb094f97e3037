use vstd::prelude::*;
use crate::classifier::{implements_message_routing, is_message_router};
use crate::config_type::{
    find_override, find_override_index, Config, ConfigView, KnownImage, KnownImageView,
};
use crate::k8s_types::{Container, ContainerView, K8SManifest, K8SManifestView, SpecView};
use crate::report::{
    lemma_deep_view_push, ManifestFile, ManifestFileView, Outcome, OutcomeView, Smell, SmellView,
};
use crate::yaml_handler::{
    container_has_host_port, get_containers, has_host_port, has_one_container_list, is_workload,
    lemma_with_containers_keeps_one_list, manifest_file_name, manifest_filename,
    manifest_is_workload, replace_containers, with_containers, workload_containers,
};

verus! {

/// The configuration takes the whole workload out of the rule: the override
/// that governs it has no list of images.
pub open spec fn is_exempt(workload: Seq<char>, config: ConfigView) -> bool {
    match find_override(config.ignore_smells.noapigateway, workload) {
        Some(entry) => entry.containers is None,
        None => false,
    }
}

/// The workload shares the network of its node, and nothing exempts it.
pub open spec fn host_network_exposed(m: K8SManifestView, config: ConfigView) -> bool {
    m.spec.host_network == Some(true) && !is_exempt(m.metadata.name, config)
}

/// The container binds a port of its node, and its image is no message
/// router for the workload.
pub open spec fn host_port_exposed(
    c: ContainerView,
    workload: Seq<char>,
    catalog: Seq<KnownImageView>,
    config: ConfigView,
) -> bool {
    has_host_port(c) && !is_message_router(c.image, workload, catalog, config)
}

/// The finding for a container that binds a port of its node.
pub open spec fn port_smell_of(workload: Seq<char>, c: ContainerView) -> SmellView {
    SmellView::HostPortExposed { workload: workload, container: c.name, image: c.image }
}

/// The findings among the first `n` containers: one for each container that
/// binds a port of its node and is no message router, in their order.
pub open spec fn port_smells_upto(
    cs: Seq<ContainerView>,
    n: int,
    workload: Seq<char>,
    catalog: Seq<KnownImageView>,
    config: ConfigView,
) -> Seq<SmellView>
    decreases n,
{
    if n <= 0 {
        Seq::empty()
    } else {
        let before = port_smells_upto(cs, n - 1, workload, catalog, config);
        if host_port_exposed(cs[n - 1], workload, catalog, config) {
            before.push(port_smell_of(workload, cs[n - 1]))
        } else {
            before
        }
    }
}

/// One of the containers binds a port of its node and is no message router.
pub open spec fn any_exposed(
    cs: Seq<ContainerView>,
    workload: Seq<char>,
    catalog: Seq<KnownImageView>,
    config: ConfigView,
) -> bool {
    exists|i: int| 0 <= i < cs.len() && host_port_exposed(#[trigger] cs[i], workload, catalog, config)
}

/// The container without its ports.
pub open spec fn without_ports(c: ContainerView) -> ContainerView {
    ContainerView { ports: None, ..c }
}

/// The container as remediation leaves it: without its ports where it is
/// exposed, else as it is.
pub open spec fn remedied(
    c: ContainerView,
    workload: Seq<char>,
    catalog: Seq<KnownImageView>,
    config: ConfigView,
) -> ContainerView {
    if host_port_exposed(c, workload, catalog, config) {
        without_ports(c)
    } else {
        c
    }
}

/// The containers as remediation leaves them, each in its place.
pub open spec fn stripped(
    cs: Seq<ContainerView>,
    workload: Seq<char>,
    catalog: Seq<KnownImageView>,
    config: ConfigView,
) -> Seq<ContainerView> {
    Seq::new(cs.len(), |i: int| remedied(cs[i], workload, catalog, config))
}

/// A copy of the container without its ports.
fn strip_ports(container: &Container) -> (r: Container)
    ensures
        r@ == without_ports(container@),
{
    let mut copy = container.clone();
    copy.ports = None;
    copy
}

/// Looks among the containers of the workload called `workload` for those
/// that bind a port of their node and are no message routers, and reports
/// each. With `is_to_refactor` each of them loses its ports; without it
/// the containers come back as they are. The flag that comes back says
/// whether a container was changed.
pub fn analyze_containers_nag(
    workload: &String,
    containers: &Vec<Container>,
    catalog: &Vec<KnownImage>,
    config: &Config,
    is_to_refactor: bool,
) -> (r: (Vec<Container>, Vec<Smell>, bool))
    ensures
        r.1.deep_view() == port_smells_upto(
            containers.deep_view(),
            containers.len() as int,
            workload@,
            catalog.deep_view(),
            config@,
        ),
        r.2 == (is_to_refactor && any_exposed(
            containers.deep_view(),
            workload@,
            catalog.deep_view(),
            config@,
        )),
        is_to_refactor ==> r.0.deep_view() == stripped(
            containers.deep_view(),
            workload@,
            catalog.deep_view(),
            config@,
        ),
        !is_to_refactor ==> r.0.deep_view() == containers.deep_view(),
{
    let ghost cs = containers.deep_view();
    let ghost cat = catalog.deep_view();
    let mut result: Vec<Container> = Vec::new();
    let mut smells: Vec<Smell> = Vec::new();
    let mut found = false;
    let mut i: usize = 0;
    assert(smells.deep_view() =~= Seq::empty());
    while i < containers.len()
        invariant
            i <= containers.len(),
            cs == containers.deep_view(),
            cat == catalog.deep_view(),
            result.len() == i,
            smells.deep_view() == port_smells_upto(cs, i as int, workload@, cat, config@),
            found == exists|j: int|
                0 <= j < i && host_port_exposed(#[trigger] cs[j], workload@, cat, config@),
            is_to_refactor ==> forall|j: int|
                0 <= j < i ==> (#[trigger] result[j])@ == remedied(cs[j], workload@, cat, config@),
            !is_to_refactor ==> forall|j: int| 0 <= j < i ==> (#[trigger] result[j])@ == cs[j],
        decreases containers.len() - i,
    {
        let container = &containers[i];
        let exposed = container_has_host_port(container) && !implements_message_routing(
            workload,
            &container.image,
            catalog,
            config,
        );
        if exposed {
            assert(host_port_exposed(cs[i as int], workload@, cat, config@));
            found = true;
            let ghost before = smells;
            let smell = Smell::HostPortExposed {
                workload: workload.clone(),
                container: container.name.clone(),
                image: container.image.clone(),
            };
            smells.push(smell);
            proof {
                lemma_deep_view_push(before, smell, smells);
            }
        }
        if exposed && is_to_refactor {
            result.push(strip_ports(container));
        } else {
            result.push(container.clone());
        }
        i += 1;
    }
    proof {
        if is_to_refactor {
            assert(result.deep_view() =~= stripped(cs, workload@, cat, config@));
        } else {
            assert(result.deep_view() =~= cs);
        }
    }
    (result, smells, found && is_to_refactor)
}

/// The model of a [`GatewayCheck`].
pub struct GatewayCheckView {
    pub manifest: K8SManifestView,
    pub smells: Seq<SmellView>,
    pub containers_changed: bool,
    pub host_network_cleared: bool,
}

/// What the rule found in one manifest, and the manifest as the rule leaves
/// it. The two flags say what remediation changed; each alone is a reason
/// to write the manifest back.
#[derive(Debug, PartialEq, Eq)]
pub struct GatewayCheck {
    pub manifest: K8SManifest,
    pub smells: Vec<Smell>,
    pub containers_changed: bool,
    pub host_network_cleared: bool,
}

impl View for GatewayCheck {
    type V = GatewayCheckView;

    open spec fn view(&self) -> GatewayCheckView {
        GatewayCheckView {
            manifest: self.manifest@,
            smells: self.smells.deep_view(),
            containers_changed: self.containers_changed,
            host_network_cleared: self.host_network_cleared,
        }
    }
}

/// The finding for a workload that shares the network of its node.
pub open spec fn network_smells(m: K8SManifestView, config: ConfigView) -> Seq<SmellView> {
    if host_network_exposed(m, config) {
        seq![SmellView::HostNetworkExposed { workload: m.metadata.name }]
    } else {
        Seq::empty()
    }
}

/// The findings for the containers of a workload that bind a port of their
/// node.
pub open spec fn port_smells(
    m: K8SManifestView,
    catalog: Seq<KnownImageView>,
    config: ConfigView,
) -> Seq<SmellView> {
    match workload_containers(m) {
        Some(cs) => port_smells_upto(cs, cs.len() as int, m.metadata.name, catalog, config),
        None => Seq::empty(),
    }
}

/// One of the containers of the workload binds a port of its node and is no
/// message router.
pub open spec fn ports_exposed(
    m: K8SManifestView,
    catalog: Seq<KnownImageView>,
    config: ConfigView,
) -> bool {
    match workload_containers(m) {
        Some(cs) => any_exposed(cs, m.metadata.name, catalog, config),
        None => false,
    }
}

/// The manifest without its host network setting.
pub open spec fn without_host_network(m: K8SManifestView) -> K8SManifestView {
    K8SManifestView { spec: SpecView { host_network: None, ..m.spec }, ..m }
}

/// The workload as remediation leaves it: the host network setting is
/// unset where it was exposed, and each exposed container is without its
/// ports.
pub open spec fn gateway_remedy(
    m: K8SManifestView,
    catalog: Seq<KnownImageView>,
    config: ConfigView,
) -> K8SManifestView {
    let name = m.metadata.name;
    let contained = match workload_containers(m) {
        Some(cs) => if any_exposed(cs, name, catalog, config) {
            with_containers(m, stripped(cs, name, catalog, config))
        } else {
            m
        },
        None => m,
    };
    if host_network_exposed(m, config) {
        without_host_network(contained)
    } else {
        contained
    }
}

/// What the rule finds in one manifest. A manifest that is no workload
/// gives nothing and stays as it is. In a workload the host network is
/// looked at first, then each container in its order.
pub open spec fn gateway_check_of(
    m: K8SManifestView,
    catalog: Seq<KnownImageView>,
    config: ConfigView,
    remediate: bool,
) -> GatewayCheckView {
    if !is_workload(m) {
        GatewayCheckView {
            manifest: m,
            smells: Seq::empty(),
            containers_changed: false,
            host_network_cleared: false,
        }
    } else {
        GatewayCheckView {
            manifest: if remediate {
                gateway_remedy(m, catalog, config)
            } else {
                m
            },
            smells: network_smells(m, config) + port_smells(m, catalog, config),
            containers_changed: remediate && ports_exposed(m, catalog, config),
            host_network_cleared: remediate && host_network_exposed(m, config),
        }
    }
}

/// Whether the configuration takes the whole workload out of the rule.
fn workload_is_exempt(workload: &String, config: &Config) -> (r: bool)
    ensures
        r == is_exempt(workload@, config@),
{
    let overrides = &config.ignore_smells.noapigateway;
    match find_override_index(overrides, workload) {
        Some(i) => overrides[i].containers.is_none(),
        None => false,
    }
}

/// Runs the rule on one manifest.
pub fn check_workload_gateway(
    manifest: &K8SManifest,
    catalog: &Vec<KnownImage>,
    config: &Config,
    is_to_refactor: bool,
) -> (r: GatewayCheck)
    ensures
        r@ == gateway_check_of(manifest@, catalog.deep_view(), config@, is_to_refactor),
{
    if !manifest_is_workload(manifest) {
        let r = GatewayCheck {
            manifest: manifest.clone(),
            smells: Vec::new(),
            containers_changed: false,
            host_network_cleared: false,
        };
        assert(r@.smells =~= Seq::empty());
        return r;
    }
    let name = &manifest.metadata.name;
    let mut smells: Vec<Smell> = Vec::new();
    let network = match manifest.spec.host_network {
        Some(shared) => shared && !workload_is_exempt(name, config),
        None => false,
    };
    if network {
        smells.push(Smell::HostNetworkExposed { workload: name.clone() });
    }
    assert(smells.deep_view() =~= network_smells(manifest@, config@));
    let ghost first = smells;
    let mut changed = false;
    let mut copy = match get_containers(manifest) {
        Some(containers) => {
            assert(workload_containers(manifest@)->0 == containers.deep_view());
            let (result, mut found, any) = analyze_containers_nag(
                name,
                containers,
                catalog,
                config,
                is_to_refactor,
            );
            let ghost added = found;
            smells.append(&mut found);
            proof {
                crate::report::lemma_deep_view_append(first, added, smells);
            }
            changed = any;
            if any {
                replace_containers(manifest, result)
            } else {
                manifest.clone()
            }
        },
        None => {
            assert(smells.deep_view() =~= first.deep_view() + Seq::empty());
            manifest.clone()
        },
    };
    let cleared = network && is_to_refactor;
    if cleared {
        copy.spec.host_network = None;
    }
    GatewayCheck {
        manifest: copy,
        smells,
        containers_changed: changed,
        host_network_cleared: cleared,
    }
}

/// What the rule proposes for one manifest: with remediation, a workload
/// that was changed is written over its file.
pub open spec fn gateway_outcome_of(
    m: K8SManifestView,
    catalog: Seq<KnownImageView>,
    config: ConfigView,
    remediate: bool,
) -> OutcomeView {
    let check = gateway_check_of(m, catalog, config, remediate);
    OutcomeView {
        smells: check.smells,
        updated: if check.containers_changed || check.host_network_cleared {
            seq![
                ManifestFileView {
                    filename: manifest_file_name(m.metadata.name),
                    manifest: check.manifest,
                },
            ]
        } else {
            Seq::empty()
        },
        created: Seq::empty(),
    }
}

/// What the rule finds in the first `n` manifests and proposes for them,
/// manifest after manifest.
pub open spec fn gateway_outcome_upto(
    ms: Seq<K8SManifestView>,
    n: int,
    catalog: Seq<KnownImageView>,
    config: ConfigView,
    remediate: bool,
) -> OutcomeView
    decreases n,
{
    if n <= 0 {
        OutcomeView::empty()
    } else {
        gateway_outcome_upto(ms, n - 1, catalog, config, remediate).followed_by(
            gateway_outcome_of(ms[n - 1], catalog, config, remediate),
        )
    }
}

/// The rule on workloads that can be reached past any gateway, on every
/// manifest: a workload should not share the network of its node, and only
/// a message router should bind a port of it.
pub fn check_no_apigateway(
    manifests: &Vec<K8SManifest>,
    catalog: &Vec<KnownImage>,
    config: &Config,
    is_to_refactor: bool,
) -> (out: Outcome)
    ensures
        out@ == gateway_outcome_upto(
            manifests.deep_view(),
            manifests.len() as int,
            catalog.deep_view(),
            config@,
            is_to_refactor,
        ),
{
    let ghost ms = manifests.deep_view();
    let mut out = Outcome::new();
    let mut i: usize = 0;
    while i < manifests.len()
        invariant
            i <= manifests.len(),
            ms == manifests.deep_view(),
            out@ == gateway_outcome_upto(ms, i as int, catalog.deep_view(), config@, is_to_refactor),
        decreases manifests.len() - i,
    {
        let check = check_workload_gateway(&manifests[i], catalog, config, is_to_refactor);
        let mut one = Outcome::new();
        let write = check.containers_changed || check.host_network_cleared;
        one.smells = check.smells;
        if write {
            let file = ManifestFile {
                filename: manifest_filename(&manifests[i].metadata.name),
                manifest: check.manifest,
            };
            one.updated.push(file);
            assert(one@.updated =~= seq![file@]);
        }
        out.extend(one);
        i += 1;
    }
    out
}

/// Where none of the first `n` containers is exposed, nothing is found
/// among them.
pub proof fn lemma_no_exposure_no_smell(
    cs: Seq<ContainerView>,
    n: int,
    workload: Seq<char>,
    catalog: Seq<KnownImageView>,
    config: ConfigView,
)
    requires
        0 <= n <= cs.len(),
        forall|i: int|
            0 <= i < n ==> !host_port_exposed(#[trigger] cs[i], workload, catalog, config),
    ensures
        port_smells_upto(cs, n, workload, catalog, config) == Seq::<SmellView>::empty(),
    decreases n,
{
    if n > 0 {
        lemma_no_exposure_no_smell(cs, n - 1, workload, catalog, config);
    }
}

/// Where nothing is found among the first `n` containers, none of them is
/// exposed.
pub proof fn lemma_no_smell_no_exposure(
    cs: Seq<ContainerView>,
    n: int,
    workload: Seq<char>,
    catalog: Seq<KnownImageView>,
    config: ConfigView,
)
    requires
        0 <= n <= cs.len(),
        port_smells_upto(cs, n, workload, catalog, config).len() == 0,
    ensures
        forall|i: int|
            0 <= i < n ==> !host_port_exposed(#[trigger] cs[i], workload, catalog, config),
    decreases n,
{
    if n > 0 {
        lemma_no_smell_no_exposure(cs, n - 1, workload, catalog, config);
    }
}

/// Remediation settles a workload: a second run of the rule on the
/// manifest as remediation left it finds nothing. In particular a
/// container that was exposed has no ports afterwards.
pub proof fn lemma_gateway_remediation_settles(
    m: K8SManifestView,
    catalog: Seq<KnownImageView>,
    config: ConfigView,
    again: bool,
)
    ensures
        gateway_check_of(
            gateway_check_of(m, catalog, config, true).manifest,
            catalog,
            config,
            again,
        ).smells == Seq::<SmellView>::empty(),
        workload_containers(m) matches Some(cs) ==> {
            let after = workload_containers(gateway_check_of(m, catalog, config, true).manifest);
            &&& after == Some(stripped(cs, m.metadata.name, catalog, config))
            &&& forall|i: int|
                0 <= i < cs.len() && host_port_exposed(
                    #[trigger] cs[i],
                    m.metadata.name,
                    catalog,
                    config,
                ) ==> after->0[i].ports is None
        },
{
    let after = gateway_check_of(m, catalog, config, true).manifest;
    let name = m.metadata.name;
    if is_workload(m) {
        assert(after.metadata.name == name);
        assert(is_workload(after));
        assert(!host_network_exposed(after, config));
        match workload_containers(m) {
            Some(cs) => {
                let left = stripped(cs, name, catalog, config);
                if !any_exposed(cs, name, catalog, config) {
                    assert(left =~= cs);
                }
                assert(workload_containers(after) == Some(left));
                assert forall|i: int| 0 <= i < left.len() implies !host_port_exposed(
                    #[trigger] left[i],
                    name,
                    catalog,
                    config,
                ) by {
                    assert(left[i] == remedied(cs[i], name, catalog, config));
                }
                lemma_no_exposure_no_smell(left, left.len() as int, name, catalog, config);
            },
            None => {
                assert(workload_containers(after) is None);
            },
        }
        assert(gateway_check_of(after, catalog, config, again).smells =~= Seq::empty());
    }
}

/// Remediation leaves the containers of a workload in one place.
pub proof fn lemma_gateway_remediation_keeps_one_list(
    m: K8SManifestView,
    catalog: Seq<KnownImageView>,
    config: ConfigView,
    remediate: bool,
)
    requires
        has_one_container_list(m),
    ensures
        has_one_container_list(gateway_check_of(m, catalog, config, remediate).manifest),
{
    match workload_containers(m) {
        Some(cs) => {
            lemma_with_containers_keeps_one_list(
                m,
                stripped(cs, m.metadata.name, catalog, config),
            );
        },
        None => {},
    }
}

/// A workload whose override has no list of images is never reported,
/// whatever its ports and its host network are, and stays as it is.
pub proof fn lemma_exempt_workload_is_clean(
    m: K8SManifestView,
    catalog: Seq<KnownImageView>,
    config: ConfigView,
    remediate: bool,
)
    requires
        is_exempt(m.metadata.name, config),
    ensures
        gateway_check_of(m, catalog, config, remediate) == (GatewayCheckView {
            manifest: m,
            smells: Seq::empty(),
            containers_changed: false,
            host_network_cleared: false,
        }),
        gateway_outcome_of(m, catalog, config, remediate) == OutcomeView::empty(),
{
    let name = m.metadata.name;
    if is_workload(m) {
        match workload_containers(m) {
            Some(cs) => {
                assert forall|i: int| 0 <= i < cs.len() implies !host_port_exposed(
                    #[trigger] cs[i],
                    name,
                    catalog,
                    config,
                ) by {
                    assert(is_message_router(cs[i].image, name, catalog, config));
                }
                lemma_no_exposure_no_smell(cs, cs.len() as int, name, catalog, config);
            },
            None => {},
        }
        assert(gateway_check_of(m, catalog, config, remediate).smells =~= Seq::empty());
    }
}

/// A run that finds nothing changes nothing: the manifest comes back as it
/// is, and nothing is written.
pub proof fn lemma_clean_gateway_run_changes_nothing(
    m: K8SManifestView,
    catalog: Seq<KnownImageView>,
    config: ConfigView,
    remediate: bool,
)
    requires
        gateway_check_of(m, catalog, config, remediate).smells.len() == 0,
    ensures
        gateway_check_of(m, catalog, config, remediate).manifest == m,
        gateway_outcome_of(m, catalog, config, remediate) == OutcomeView::empty(),
{
    let name = m.metadata.name;
    if is_workload(m) {
        let check = gateway_check_of(m, catalog, config, remediate);
        assert(network_smells(m, config).len() == 0);
        assert(port_smells(m, catalog, config).len() == 0);
        match workload_containers(m) {
            Some(cs) => {
                lemma_no_smell_no_exposure(cs, cs.len() as int, name, catalog, config);
            },
            None => {},
        }
        assert(check.smells =~= Seq::empty());
    }
}

} // verus!
