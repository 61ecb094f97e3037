use vstd::prelude::*;
use crate::config_type::{list_contains, Config, ConfigView};
use crate::k8s_types::{K8SManifest, K8SManifestView};
use crate::report::{lemma_followed_by_nothing, Outcome, OutcomeView, Smell, SmellView};
use crate::text::same;
use crate::topology::{edge_destinations, get_edge_destinations, has_type, node_has_type};
use crate::tosca_types::{
    datastore_type, message_broker_type, message_router_type, NodeTemplate, NodeTemplateView,
};
use crate::yaml_handler::{create_virtual_service, virtual_service_for};

verus! {

/// The manifest is a VirtualService with `destination` among its hosts: it
/// declares a routing policy for the calls to it.
pub open spec fn routes_to(m: K8SManifestView, destination: Seq<char>) -> bool {
    &&& m.kind == "VirtualService"@
    &&& match m.spec.hosts {
        Some(hosts) => hosts.contains(destination),
        None => false,
    }
}

/// The manifest is a DestinationRule for the host `destination` with
/// outlier detection set: a circuit breaker for the calls to it.
pub open spec fn breaks_circuit_to(m: K8SManifestView, destination: Seq<char>) -> bool {
    &&& m.kind == "DestinationRule"@
    &&& m.spec.host == Some(destination)
    &&& match m.spec.traffic_policy {
        Some(policy) => policy.outlier_detection is Some,
        None => false,
    }
}

/// A VirtualService declares a routing policy for `destination`.
pub open spec fn has_virtual_service(ms: Seq<K8SManifestView>, destination: Seq<char>) -> bool {
    exists|i: int| 0 <= i < ms.len() && routes_to(#[trigger] ms[i], destination)
}

/// A DestinationRule sets a circuit breaker for `destination`.
pub open spec fn has_outlier_detection(ms: Seq<K8SManifestView>, destination: Seq<char>) -> bool {
    exists|i: int| 0 <= i < ms.len() && breaks_circuit_to(#[trigger] ms[i], destination)
}

/// The calls to `destination` are protected: by a routing policy or by a
/// circuit breaker.
pub open spec fn is_protected(ms: Seq<K8SManifestView>, destination: Seq<char>) -> bool {
    has_virtual_service(ms, destination) || has_outlier_detection(ms, destination)
}

/// What the rule finds for one destination and proposes for it: a
/// destination that nothing protects is reported, and with remediation a
/// VirtualService is made for it. No circuit breaker is ever made.
pub open spec fn wobbly_outcome_of(
    ms: Seq<K8SManifestView>,
    destination: Seq<char>,
    remediate: bool,
) -> OutcomeView {
    if is_protected(ms, destination) {
        OutcomeView::empty()
    } else {
        OutcomeView {
            smells: seq![SmellView::WobblyInteraction { destination: destination }],
            updated: Seq::empty(),
            created: if remediate {
                seq![virtual_service_for(destination)]
            } else {
                Seq::empty()
            },
        }
    }
}

/// What the rule finds for the first `n` of `names` and proposes for them,
/// name after name.
pub open spec fn wobbly_outcome_upto(
    ms: Seq<K8SManifestView>,
    names: Seq<Seq<char>>,
    n: int,
    remediate: bool,
) -> OutcomeView
    decreases n,
{
    if n <= 0 {
        OutcomeView::empty()
    } else {
        wobbly_outcome_upto(ms, names, n - 1, remediate).followed_by(
            wobbly_outcome_of(ms, names[n - 1], remediate),
        )
    }
}

/// Whether a VirtualService declares a routing policy for `destination`.
pub fn virtual_service_routes(manifests: &Vec<K8SManifest>, destination: &String) -> (r: bool)
    ensures
        r == has_virtual_service(manifests.deep_view(), destination@),
{
    let ghost ms = manifests.deep_view();
    let mut i: usize = 0;
    while i < manifests.len()
        invariant
            i <= manifests.len(),
            ms == manifests.deep_view(),
            forall|j: int| 0 <= j < i ==> !routes_to(#[trigger] ms[j], destination@),
        decreases manifests.len() - i,
    {
        let m = &manifests[i];
        if same(m.kind.as_str(), "VirtualService") {
            let listed = match &m.spec.hosts {
                Some(hosts) => list_contains(hosts, destination),
                None => false,
            };
            if listed {
                assert(routes_to(ms[i as int], destination@));
                return true;
            }
        }
        i += 1;
    }
    false
}

/// Whether a DestinationRule sets a circuit breaker for `destination`.
pub fn destination_rule_breaks(manifests: &Vec<K8SManifest>, destination: &String) -> (r: bool)
    ensures
        r == has_outlier_detection(manifests.deep_view(), destination@),
{
    let ghost ms = manifests.deep_view();
    let mut i: usize = 0;
    while i < manifests.len()
        invariant
            i <= manifests.len(),
            ms == manifests.deep_view(),
            forall|j: int| 0 <= j < i ==> !breaks_circuit_to(#[trigger] ms[j], destination@),
        decreases manifests.len() - i,
    {
        let m = &manifests[i];
        if same(m.kind.as_str(), "DestinationRule") {
            let hosted = match &m.spec.host {
                Some(host) => *host == *destination,
                None => false,
            };
            let guarded = match &m.spec.traffic_policy {
                Some(policy) => policy.outlier_detection.is_some(),
                None => false,
            };
            if hosted && guarded {
                assert(breaks_circuit_to(ms[i as int], destination@));
                return true;
            }
        }
        i += 1;
    }
    false
}

/// Runs the rule for one destination.
pub fn check_destination(
    manifests: &Vec<K8SManifest>,
    destination: &String,
    is_to_refactor: bool,
) -> (out: Outcome)
    ensures
        out@ == wobbly_outcome_of(manifests.deep_view(), destination@, is_to_refactor),
{
    let mut out = Outcome::new();
    if virtual_service_routes(manifests, destination) || destination_rule_breaks(
        manifests,
        destination,
    ) {
        return out;
    }
    out.smells.push(Smell::WobblyInteraction { destination: destination.clone() });
    if is_to_refactor {
        out.created.push(create_virtual_service(destination.clone()));
    }
    proof {
        let expected = wobbly_outcome_of(manifests.deep_view(), destination@, is_to_refactor);
        assert(out@.smells =~= expected.smells);
        assert(out@.created =~= expected.created);
    }
    out
}

/// The rule on wobbly interaction, for every invoked service of the
/// configuration: the calls to a service should be protected by a circuit
/// breaker or by a routing policy.
pub fn check_wobbly_interaction(
    manifests: &Vec<K8SManifest>,
    config: &Config,
    is_to_refactor: bool,
) -> (out: Outcome)
    ensures
        out@ == wobbly_outcome_upto(
            manifests.deep_view(),
            config@.invoked_services,
            config@.invoked_services.len() as int,
            is_to_refactor,
        ),
{
    let names = &config.invoked_services;
    let mut out = Outcome::new();
    let mut i: usize = 0;
    while i < names.len()
        invariant
            i <= names.len(),
            names.deep_view() == config@.invoked_services,
            out@ == wobbly_outcome_upto(
                manifests.deep_view(),
                names.deep_view(),
                i as int,
                is_to_refactor,
            ),
        decreases names.len() - i,
    {
        let one = check_destination(manifests, &names[i], is_to_refactor);
        out.extend(one);
        i += 1;
    }
    out
}

/// The rule leaves out a destination that is a datastore, a message router
/// or a message broker of the architecture.
pub open spec fn is_left_out(nodes: Seq<NodeTemplateView>, destination: Seq<char>) -> bool {
    ||| has_type(nodes, destination, datastore_type())
    ||| has_type(nodes, destination, message_router_type())
    ||| has_type(nodes, destination, message_broker_type())
}

/// What the rule finds for one destination of the architecture: nothing
/// for one that is left out, else a report where nothing protects it.
/// Nothing is proposed.
pub open spec fn edge_outcome_of(
    ms: Seq<K8SManifestView>,
    nodes: Seq<NodeTemplateView>,
    destination: Seq<char>,
) -> OutcomeView {
    if is_left_out(nodes, destination) {
        OutcomeView::empty()
    } else {
        wobbly_outcome_of(ms, destination, false)
    }
}

/// What the rule finds for the first `n` of `destinations`, one after the
/// other.
pub open spec fn edge_outcome_upto(
    ms: Seq<K8SManifestView>,
    nodes: Seq<NodeTemplateView>,
    destinations: Seq<Seq<char>>,
    n: int,
) -> OutcomeView
    decreases n,
{
    if n <= 0 {
        OutcomeView::empty()
    } else {
        edge_outcome_upto(ms, nodes, destinations, n - 1).followed_by(
            edge_outcome_of(ms, nodes, destinations[n - 1]),
        )
    }
}

/// The rule on wobbly interaction, for every edge of the architecture, but
/// for the edges to datastores, message routers and message brokers. This
/// only detects.
pub fn check_wobbly_interaction_in(
    manifests: &Vec<K8SManifest>,
    topology: &Vec<NodeTemplate>,
) -> (out: Outcome)
    ensures
        out@ == edge_outcome_upto(
            manifests.deep_view(),
            topology.deep_view(),
            edge_destinations(topology.deep_view(), topology.len() as int),
            edge_destinations(topology.deep_view(), topology.len() as int).len() as int,
        ),
{
    let destinations = get_edge_destinations(topology);
    let mut out = Outcome::new();
    let mut i: usize = 0;
    while i < destinations.len()
        invariant
            i <= destinations.len(),
            out@ == edge_outcome_upto(
                manifests.deep_view(),
                topology.deep_view(),
                destinations.deep_view(),
                i as int,
            ),
        decreases destinations.len() - i,
    {
        let destination = &destinations[i];
        let left_out = node_has_type(topology, destination, "micro.nodes.Datastore")
            || node_has_type(topology, destination, "micro.nodes.MessageRouter")
            || node_has_type(topology, destination, "micro.nodes.MessageBroker");
        if !left_out {
            let one = check_destination(manifests, destination, false);
            out.extend(one);
        } else {
            proof {
                lemma_followed_by_nothing(out@);
            }
        }
        i += 1;
    }
    out
}

/// A destination that a VirtualService lists among its hosts is not
/// reported.
pub proof fn lemma_virtual_service_protects(
    ms: Seq<K8SManifestView>,
    destination: Seq<char>,
    remediate: bool,
    i: int,
)
    requires
        0 <= i < ms.len(),
        routes_to(ms[i], destination),
    ensures
        wobbly_outcome_of(ms, destination, remediate) == OutcomeView::empty(),
{
}

/// A destination for which a DestinationRule sets outlier detection is not
/// reported.
pub proof fn lemma_outlier_detection_protects(
    ms: Seq<K8SManifestView>,
    destination: Seq<char>,
    remediate: bool,
    i: int,
)
    requires
        0 <= i < ms.len(),
        breaks_circuit_to(ms[i], destination),
    ensures
        wobbly_outcome_of(ms, destination, remediate) == OutcomeView::empty(),
{
}

/// A destination with no VirtualService and no outlier detection is
/// reported, once.
pub proof fn lemma_unprotected_is_reported(
    ms: Seq<K8SManifestView>,
    destination: Seq<char>,
    remediate: bool,
)
    requires
        forall|i: int| 0 <= i < ms.len() ==> !routes_to(#[trigger] ms[i], destination),
        forall|i: int| 0 <= i < ms.len() ==> !breaks_circuit_to(#[trigger] ms[i], destination),
    ensures
        wobbly_outcome_of(ms, destination, remediate).smells == seq![
            SmellView::WobblyInteraction { destination: destination },
        ],
{
}

/// Remediation settles a destination: with the VirtualService that
/// remediation makes among the manifests, the destination is not reported
/// again.
pub proof fn lemma_wobbly_remediation_settles(
    ms: Seq<K8SManifestView>,
    destination: Seq<char>,
    again: bool,
)
    ensures
        wobbly_outcome_of(
            ms.push(virtual_service_for(destination).manifest),
            destination,
            again,
        ) == OutcomeView::empty(),
{
    let made = virtual_service_for(destination).manifest;
    let after = ms.push(made);
    assert(made.spec.hosts->0[0] == destination);
    assert(routes_to(after[ms.len() as int], destination));
}

} // verus!
