use vstd::prelude::*;
use vstd::string::StringExecFns;
use crate::config_type::{list_contains, Config};
use crate::k8s_types::{
    empty_spec, Container, ContainerView, K8SManifest, K8SManifestView, Metadata, MetadataView,
    Port, Selector, SelectorView, Spec, SpecView, Template, TemplateSpec, TemplateSpecView,
    TemplateView,
};
use crate::report::{lemma_deep_view_push, ManifestFile, ManifestFileView};
use crate::text::{ends_with, has_suffix, same, split, split_on};

verus! {

/// The manifests of one kind.
pub open spec fn of_kind(kind: Seq<char>) -> spec_fn(K8SManifestView) -> bool {
    |m: K8SManifestView| m.kind == kind
}

/// The manifests of one of two kinds.
spec fn of_kinds(first: Seq<char>, second: Seq<char>) -> spec_fn(K8SManifestView) -> bool {
    |m: K8SManifestView| m.kind == first || m.kind == second
}

/// A workload is a Pod or a Deployment: the kinds that hold containers.
pub open spec fn is_workload(m: K8SManifestView) -> bool {
    m.kind == "Pod"@ || m.kind == "Deployment"@
}

/// The manifests that are workloads.
pub open spec fn workloads() -> spec_fn(K8SManifestView) -> bool {
    |m: K8SManifestView| is_workload(m)
}

/// Whether the manifest is a Pod or a Deployment.
pub fn manifest_is_workload(manifest: &K8SManifest) -> (r: bool)
    ensures
        r == is_workload(manifest@),
{
    same(manifest.kind.as_str(), "Pod") || same(manifest.kind.as_str(), "Deployment")
}

/// Copies of the manifests whose kind is `first` or `second`, in their order.
fn select_kinds(manifests: &Vec<K8SManifest>, first: &str, second: &str) -> (r: Vec<K8SManifest>)
    ensures
        r.deep_view() == manifests.deep_view().filter(of_kinds(first@, second@)),
{
    let ghost all = manifests.deep_view();
    let ghost wanted = of_kinds(first@, second@);
    let mut selected: Vec<K8SManifest> = Vec::new();
    let mut i: usize = 0;
    assert(all.take(0) =~= Seq::empty());
    assert(selected.deep_view() =~= all.take(0).filter(wanted)) by {
        reveal(Seq::filter);
    }
    while i < manifests.len()
        invariant
            i <= manifests.len(),
            all == manifests.deep_view(),
            wanted == of_kinds(first@, second@),
            selected.deep_view() == all.take(i as int).filter(wanted),
        decreases manifests.len() - i,
    {
        let m = &manifests[i];
        proof {
            reveal(Seq::filter);
            assert(all.take(i + 1).drop_last() =~= all.take(i as int));
            assert(all.take(i + 1).last() == m@);
        }
        if same(m.kind.as_str(), first) || same(m.kind.as_str(), second) {
            let ghost before = selected;
            let copy = m.clone();
            selected.push(copy);
            proof {
                lemma_deep_view_push(before, copy, selected);
            }
        }
        i += 1;
    }
    assert(all.take(manifests.len() as int) =~= all);
    selected
}

/// Copies of the DestinationRule manifests, in their order.
pub fn get_destination_rules(manifest: &Vec<K8SManifest>) -> (r: Vec<K8SManifest>)
    ensures
        r.deep_view() == manifest.deep_view().filter(of_kind("DestinationRule"@)),
{
    assert(of_kinds("DestinationRule"@, "DestinationRule"@) =~= of_kind("DestinationRule"@));
    select_kinds(manifest, "DestinationRule", "DestinationRule")
}

/// Copies of the VirtualService manifests, in their order.
pub fn get_virtual_services(manifest: &Vec<K8SManifest>) -> (r: Vec<K8SManifest>)
    ensures
        r.deep_view() == manifest.deep_view().filter(of_kind("VirtualService"@)),
{
    assert(of_kinds("VirtualService"@, "VirtualService"@) =~= of_kind("VirtualService"@));
    select_kinds(manifest, "VirtualService", "VirtualService")
}

/// Copies of the Service manifests, in their order.
pub fn get_services(manifests: &Vec<K8SManifest>) -> (r: Vec<K8SManifest>)
    ensures
        r.deep_view() == manifests.deep_view().filter(of_kind("Service"@)),
{
    assert(of_kinds("Service"@, "Service"@) =~= of_kind("Service"@));
    select_kinds(manifests, "Service", "Service")
}

/// Copies of the workload manifests (Deployment or Pod), in their order.
pub fn get_deployments_pods(manifests: &Vec<K8SManifest>) -> (r: Vec<K8SManifest>)
    ensures
        r.deep_view() == manifests.deep_view().filter(workloads()),
{
    assert(of_kinds("Deployment"@, "Pod"@) =~= workloads());
    select_kinds(manifests, "Deployment", "Pod")
}

/// `i` is the place of the first workload called `name`.
pub open spec fn is_first_workload_named(ms: Seq<K8SManifestView>, name: Seq<char>, i: int) -> bool {
    &&& 0 <= i < ms.len()
    &&& is_workload(ms[i])
    &&& ms[i].metadata.name == name
    &&& forall|j: int| 0 <= j < i ==> !(is_workload(ms[j]) && ms[j].metadata.name == name)
}

/// The workload called `name`: the first Pod or Deployment of that name.
pub open spec fn find_workload(ms: Seq<K8SManifestView>, name: Seq<char>) -> Option<K8SManifestView> {
    if exists|i: int| is_first_workload_named(ms, name, i) {
        Some(ms[choose|i: int| is_first_workload_named(ms, name, i)])
    } else {
        None
    }
}

/// The place of the workload called `name`, if there is one.
pub fn find_workload_index(manifests: &Vec<K8SManifest>, name: &String) -> (r: Option<usize>)
    ensures
        match r {
            Some(i) => is_first_workload_named(manifests.deep_view(), name@, i as int)
                && find_workload(manifests.deep_view(), name@) == Some(manifests[i as int]@),
            None => find_workload(manifests.deep_view(), name@) is None,
        },
{
    let ghost ms = manifests.deep_view();
    let mut i: usize = 0;
    while i < manifests.len()
        invariant
            i <= manifests.len(),
            ms == manifests.deep_view(),
            forall|j: int| 0 <= j < i ==> !(is_workload(ms[j]) && ms[j].metadata.name == name@),
        decreases manifests.len() - i,
    {
        if manifest_is_workload(&manifests[i]) && manifests[i].metadata.name == *name {
            proof {
                assert(is_first_workload_named(ms, name@, i as int));
                let k = choose|k: int| is_first_workload_named(ms, name@, k);
                assert(k == i);
            }
            return Some(i);
        }
        i += 1;
    }
    proof {
        assert forall|k: int| !is_first_workload_named(ms, name@, k) by {
            if 0 <= k < ms.len() {
                assert(!(is_workload(ms[k]) && ms[k].metadata.name == name@));
            }
        }
    }
    None
}

/// A copy of the workload called `name`, if there is one.
pub fn get_deployment_named(name: String, manifests: &Vec<K8SManifest>) -> (r: Option<K8SManifest>)
    ensures
        r.deep_view() == find_workload(manifests.deep_view(), name@),
{
    match find_workload_index(manifests, &name) {
        Some(i) => Some(manifests[i].clone()),
        None => None,
    }
}

/// The containers of a workload: those at the top level where they are set,
/// else those of the template. A manifest of another kind has none.
pub open spec fn workload_containers(m: K8SManifestView) -> Option<Seq<ContainerView>> {
    if !is_workload(m) {
        None
    } else if m.spec.containers is Some {
        m.spec.containers
    } else {
        match m.spec.template {
            Some(template) => template.spec.containers,
            None => None,
        }
    }
}

/// The manifest with `containers` in the place where its containers stand:
/// at the top level where they are set there, else in the template. Nothing
/// else changes; a manifest without a template and without containers at
/// the top level stays as it is.
pub open spec fn with_containers(m: K8SManifestView, containers: Seq<ContainerView>) -> K8SManifestView {
    if m.spec.containers is Some {
        K8SManifestView { spec: SpecView { containers: Some(containers), ..m.spec }, ..m }
    } else {
        match m.spec.template {
            Some(template) => K8SManifestView {
                spec: SpecView {
                    template: Some(
                        TemplateView {
                            spec: TemplateSpecView { containers: Some(containers), ..template.spec },
                            ..template
                        },
                    ),
                    ..m.spec
                },
                ..m
            },
            None => m,
        }
    }
}

/// No two of the containers have the same name.
pub open spec fn has_distinct_names(cs: Seq<ContainerView>) -> bool {
    forall|i: int, j: int| 0 <= i < j < cs.len() ==> cs[i].name != cs[j].name
}

/// The containers of the manifest stand in one place at most: at the top
/// level or in the template, never in both.
pub open spec fn has_one_container_list(m: K8SManifestView) -> bool {
    match m.spec.template {
        Some(template) => m.spec.containers is None || template.spec.containers is None,
        None => true,
    }
}

/// Putting containers where the containers of a manifest stand leaves them
/// in one place, and they are then the containers of the workload.
pub proof fn lemma_with_containers_keeps_one_list(m: K8SManifestView, containers: Seq<ContainerView>)
    requires
        has_one_container_list(m),
    ensures
        has_one_container_list(with_containers(m, containers)),
        workload_containers(m) is Some ==> workload_containers(with_containers(m, containers))
            == Some(containers),
{
}

/// The containers of the manifest, if it is a workload that has some.
pub fn get_containers(manifest: &K8SManifest) -> (r: Option<&Vec<Container>>)
    ensures
        r.deep_view() == workload_containers(manifest@),
{
    if !manifest_is_workload(manifest) {
        None
    } else if manifest.spec.containers.is_some() {
        manifest.spec.containers.as_ref()
    } else {
        match &manifest.spec.template {
            Some(template) => template.spec.containers.as_ref(),
            None => None,
        }
    }
}

/// A copy of the manifest with `containers` in the place where its
/// containers stand.
pub fn replace_containers(manifest: &K8SManifest, containers: Vec<Container>) -> (r: K8SManifest)
    ensures
        r@ == with_containers(manifest@, containers.deep_view()),
{
    let mut copy = manifest.clone();
    if copy.spec.containers.is_some() {
        copy.spec.containers = Some(containers);
    } else {
        match copy.spec.template {
            Some(template) => {
                copy.spec.template = Some(
                    Template {
                        spec: TemplateSpec {
                            init_containers: template.spec.init_containers,
                            containers: Some(containers),
                            volumes: template.spec.volumes,
                        },
                        metadata: template.metadata,
                    },
                );
            },
            None => {},
        }
    }
    copy
}

/// One of the ports binds a port of the node.
pub open spec fn ports_bind_host(ports: Seq<Port>) -> bool {
    exists|k: int| 0 <= k < ports.len() && ports[k].host_port is Some
}

/// The container binds a port of the node.
pub open spec fn has_host_port(c: ContainerView) -> bool {
    c.ports matches Some(ports) && ports_bind_host(ports)
}

/// One of the containers, if there are any, binds a port of the node.
pub open spec fn any_host_port(containers: Option<Seq<ContainerView>>) -> bool {
    match containers {
        Some(cs) => exists|k: int| 0 <= k < cs.len() && has_host_port(cs[k]),
        None => false,
    }
}

/// The workload can be reached on its node, past any Service: it shares the
/// node's network, or one of its containers, at the top level or in the
/// template, binds a port of the node.
pub open spec fn has_direct_access(m: K8SManifestView) -> bool {
    ||| m.spec.host_network == Some(true)
    ||| any_host_port(m.spec.containers)
    ||| (m.spec.template matches Some(t) && any_host_port(t.spec.containers))
}

/// Whether the container binds a port of the node.
pub fn container_has_host_port(container: &Container) -> (r: bool)
    ensures
        r == has_host_port(container@),
{
    match &container.ports {
        Some(ports) => {
            assert(ports.deep_view() =~= ports@);
            let mut k: usize = 0;
            while k < ports.len()
                invariant
                    k <= ports.len(),
                    container@.ports == Some(ports@),
                    forall|j: int| 0 <= j < k ==> ports@[j].host_port is None,
                decreases ports.len() - k,
            {
                if ports[k].host_port.is_some() {
                    return true;
                }
                k += 1;
            }
            false
        },
        None => false,
    }
}

/// Whether one of the containers, if there are any, binds a port of the node.
pub fn containers_have_host_port(containers: &Option<Vec<Container>>) -> (r: bool)
    ensures
        r == any_host_port(containers.deep_view()),
{
    match containers {
        Some(cs) => {
            let mut k: usize = 0;
            while k < cs.len()
                invariant
                    k <= cs.len(),
                    containers.deep_view() == Some(cs.deep_view()),
                    forall|j: int| 0 <= j < k ==> !has_host_port(cs.deep_view()[j]),
                decreases cs.len() - k,
            {
                if container_has_host_port(&cs[k]) {
                    proof {
                        let views = cs.deep_view();
                        assert(containers.deep_view()->0 == views);
                        assert(has_host_port(views[k as int]));
                    }
                    return true;
                }
                k += 1;
            }
            false
        },
        None => false,
    }
}

/// Whether the workload can be reached on its node, past any Service.
pub fn deployment_has_direct_access(deployment: K8SManifest) -> (r: bool)
    ensures
        r == has_direct_access(deployment@),
{
    workload_has_direct_access(&deployment)
}

/// Whether the workload can be reached on its node, past any Service.
pub fn workload_has_direct_access(deployment: &K8SManifest) -> (r: bool)
    ensures
        r == has_direct_access(deployment@),
{
    if let Some(host_network) = deployment.spec.host_network {
        if host_network {
            return true;
        }
    }
    if containers_have_host_port(&deployment.spec.containers) {
        return true;
    }
    match &deployment.spec.template {
        Some(template) => containers_have_host_port(&template.spec.containers),
        None => false,
    }
}

/// The name of the file that the descriptor called `name` is kept in.
pub open spec fn manifest_file_name(name: Seq<char>) -> Seq<char> {
    name + ".yaml"@
}

/// The name of the file that the Service made for `name` is kept in.
pub open spec fn service_file_name(name: Seq<char>) -> Seq<char> {
    name + "-srv.yaml"@
}

/// The name of the file that the VirtualService made for `name` is kept in.
pub open spec fn virtual_service_file_name(name: Seq<char>) -> Seq<char> {
    name + "-virtual-service.yaml"@
}

/// `name` with `ending` behind it.
fn with_ending(name: &String, ending: &str) -> (r: String)
    ensures
        r@ == name@ + ending@,
{
    let mut r = name.clone();
    r.append(ending);
    r
}

/// The name of the file that the descriptor called `name` is kept in.
pub fn manifest_filename(name: &String) -> (r: String)
    ensures
        r@ == manifest_file_name(name@),
{
    with_ending(name, ".yaml")
}

/// The VirtualService that declares a routing policy for `name`: its only
/// host is `name`.
pub open spec fn virtual_service_for(name: Seq<char>) -> ManifestFileView {
    ManifestFileView {
        filename: virtual_service_file_name(name),
        manifest: K8SManifestView {
            api_version: "networking.istio.io/v1alpha3"@,
            kind: "VirtualService"@,
            metadata: MetadataView { name: name, labels: None },
            spec: SpecView { hosts: Some(seq![name]), ..empty_spec() },
        },
    }
}

/// Makes the VirtualService that declares a routing policy for `depl_name`.
pub fn create_virtual_service(depl_name: String) -> (r: ManifestFile)
    ensures
        r@ == virtual_service_for(depl_name@),
{
    let filename = with_ending(&depl_name, "-virtual-service.yaml");
    let mut hosts: Vec<String> = Vec::new();
    hosts.push(depl_name.clone());
    let mut spec = Spec::default();
    spec.hosts = Some(hosts);
    assert(hosts.deep_view() =~= seq![depl_name@]);
    ManifestFile {
        filename,
        manifest: K8SManifest {
            api_version: "networking.istio.io/v1alpha3".to_owned(),
            kind: "VirtualService".to_owned(),
            metadata: Metadata { name: depl_name, labels: None },
            spec,
        },
    }
}

/// The Pod that holds `c` alone. It is called as the container is.
pub open spec fn pod_from(c: ContainerView) -> ManifestFileView {
    ManifestFileView {
        filename: manifest_file_name(c.name),
        manifest: K8SManifestView {
            api_version: "apps/v1"@,
            kind: "Pod"@,
            metadata: MetadataView { name: c.name, labels: None },
            spec: SpecView { containers: Some(seq![c]), ..empty_spec() },
        },
    }
}

/// Makes the Pod that holds a copy of `container` alone.
pub fn create_pod_from(container: &Container) -> (r: ManifestFile)
    ensures
        r@ == pod_from(container@),
{
    let filename = manifest_filename(&container.name);
    let mut containers: Vec<Container> = Vec::new();
    containers.push(container.clone());
    let mut spec = Spec::default();
    spec.containers = Some(containers);
    assert(containers.deep_view() =~= seq![container@]);
    ManifestFile {
        filename,
        manifest: K8SManifest {
            api_version: "apps/v1".to_owned(),
            kind: "Pod".to_owned(),
            metadata: Metadata { name: container.name.clone(), labels: None },
            spec,
        },
    }
}

/// The Service that fronts the workload called `name`: its selector has the
/// `service` label `name`.
pub open spec fn service_from(name: Seq<char>) -> ManifestFileView {
    ManifestFileView {
        filename: service_file_name(name),
        manifest: K8SManifestView {
            api_version: "v1"@,
            kind: "Service"@,
            metadata: MetadataView { name: name, labels: None },
            spec: SpecView {
                selector: Some(SelectorView { service: Some(name), match_labels: None, app: None }),
                ..empty_spec()
            },
        },
    }
}

/// Makes the Service that fronts the workload called `name`.
pub fn create_service_from(name: String) -> (r: ManifestFile)
    ensures
        r@ == service_from(name@),
{
    let filename = with_ending(&name, "-srv.yaml");
    let mut spec = Spec::default();
    spec.selector = Some(Selector { service: Some(name.clone()), match_labels: None, app: None });
    ManifestFile {
        filename,
        manifest: K8SManifest {
            api_version: "v1".to_owned(),
            kind: "Service".to_owned(),
            metadata: Metadata { name, labels: None },
            spec,
        },
    }
}

/// A descriptor that is made for a name or from a container holds its
/// containers in one place at most.
pub proof fn lemma_made_manifests_have_one_list(name: Seq<char>, c: ContainerView)
    ensures
        has_one_container_list(virtual_service_for(name).manifest),
        has_one_container_list(service_from(name).manifest),
        has_one_container_list(pod_from(c).manifest),
{
}

/// The names of the descriptor files that a run leaves out.
pub fn get_ignored_manifests(config: &Config) -> (r: Vec<String>)
    ensures
        r.deep_view() == config@.ignored_manifests,
{
    config.ignored_manifests.clone()
}

/// A file is read as a descriptor when its name ends in `.yaml` and is not
/// among those to leave out.
pub open spec fn is_manifest_file_name(filename: Seq<char>, ignored: Seq<Seq<char>>) -> bool {
    has_suffix(filename, ".yaml"@) && !ignored.contains(filename)
}

/// Whether the file called `filename` is read as a descriptor.
pub fn is_manifest_file(filename: &String, ignored: &Vec<String>) -> (r: bool)
    ensures
        r == is_manifest_file_name(filename@, ignored.deep_view()),
{
    ends_with(filename.as_str(), ".yaml") && !list_contains(ignored, filename)
}

/// The mark between two documents of one file.
pub open spec fn document_separator() -> Seq<char> {
    "---"@
}

/// The documents of a file, in their order: the file is cut at each
/// separator.
pub fn unpack(manifest: &String) -> (documents: Vec<String>)
    ensures
        documents.deep_view() == split_on(manifest@, document_separator()),
{
    split(manifest.as_str(), "---")
}

} // verus!
