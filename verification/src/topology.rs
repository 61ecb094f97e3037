use vstd::prelude::*;
use crate::report::{lemma_deep_view_append, lemma_deep_view_push};
use crate::text::same;
use crate::tosca_types::{NodeTemplate, NodeTemplateView, Requirement, RequirementView};

verus! {

/// The node that a requirement leads to, if it names one.
pub open spec fn requirement_target(r: RequirementView) -> Option<Seq<char>> {
    match r.interaction {
        Some(interaction) => interaction.destination(),
        None => None,
    }
}

/// The nodes that the first `n` requirements lead to, in their order.
pub open spec fn requirement_targets(reqs: Seq<RequirementView>, n: int) -> Seq<Seq<char>>
    decreases n,
{
    if n <= 0 {
        Seq::empty()
    } else {
        let before = requirement_targets(reqs, n - 1);
        match requirement_target(reqs[n - 1]) {
            Some(name) => before.push(name),
            None => before,
        }
    }
}

/// The nodes that the requirements of one node lead to, in their order.
pub open spec fn node_targets(node: NodeTemplateView) -> Seq<Seq<char>> {
    match node.requirements {
        Some(reqs) => requirement_targets(reqs, reqs.len() as int),
        None => Seq::empty(),
    }
}

/// The destination of every edge that leaves one of the first `n` nodes:
/// node after node, and for each node requirement after requirement.
pub open spec fn edge_destinations(nodes: Seq<NodeTemplateView>, n: int) -> Seq<Seq<char>>
    decreases n,
{
    if n <= 0 {
        Seq::empty()
    } else {
        edge_destinations(nodes, n - 1) + node_targets(nodes[n - 1])
    }
}

/// The architecture has a node called `name` of type `node_type`.
pub open spec fn has_type(nodes: Seq<NodeTemplateView>, name: Seq<char>, node_type: Seq<char>) -> bool {
    exists|i: int|
        0 <= i < nodes.len() && (#[trigger] nodes[i]).name == Some(name) && nodes[i].kind == Some(
            node_type,
        )
}

/// The nodes that the requirements lead to, in their order.
fn targets_of(reqs: &Vec<Requirement>) -> (r: Vec<String>)
    ensures
        r.deep_view() == requirement_targets(reqs.deep_view(), reqs.len() as int),
{
    let ghost all = reqs.deep_view();
    let mut targets: Vec<String> = Vec::new();
    let mut i: usize = 0;
    assert(targets.deep_view() =~= Seq::empty());
    while i < reqs.len()
        invariant
            i <= reqs.len(),
            all == reqs.deep_view(),
            targets.deep_view() == requirement_targets(all, i as int),
        decreases reqs.len() - i,
    {
        match &reqs[i].interaction {
            Some(interaction) => match interaction.destination() {
                Some(name) => {
                    let ghost before = targets;
                    let copy = name.clone();
                    targets.push(copy);
                    proof {
                        lemma_deep_view_push(before, copy, targets);
                    }
                },
                None => {},
            },
            None => {},
        }
        i += 1;
    }
    targets
}

/// The destination of every edge of the architecture: node after node, and
/// for each node requirement after requirement.
pub fn get_edge_destinations(topology: &Vec<NodeTemplate>) -> (r: Vec<String>)
    ensures
        r.deep_view() == edge_destinations(topology.deep_view(), topology.len() as int),
{
    let ghost nodes = topology.deep_view();
    let mut destinations: Vec<String> = Vec::new();
    let mut i: usize = 0;
    assert(destinations.deep_view() =~= Seq::empty());
    while i < topology.len()
        invariant
            i <= topology.len(),
            nodes == topology.deep_view(),
            destinations.deep_view() == edge_destinations(nodes, i as int),
        decreases topology.len() - i,
    {
        match &topology[i].requirements {
            Some(reqs) => {
                let ghost before = destinations;
                let mut targets = targets_of(reqs);
                let ghost added = targets;
                destinations.append(&mut targets);
                proof {
                    assert(nodes[i as int].requirements->0 == reqs.deep_view());
                    lemma_deep_view_append(before, added, destinations);
                }
            },
            None => {
                assert(destinations.deep_view() + Seq::<Seq<char>>::empty()
                    =~= destinations.deep_view());
            },
        }
        i += 1;
    }
    destinations
}

/// Whether the architecture has a node called `name` of type `node_type`.
pub fn node_has_type(topology: &Vec<NodeTemplate>, name: &String, node_type: &str) -> (r: bool)
    ensures
        r == has_type(topology.deep_view(), name@, node_type@),
{
    let ghost nodes = topology.deep_view();
    let mut i: usize = 0;
    while i < topology.len()
        invariant
            i <= topology.len(),
            nodes == topology.deep_view(),
            forall|j: int|
                0 <= j < i ==> !((#[trigger] nodes[j]).name == Some(name@) && nodes[j].kind == Some(
                    node_type@,
                )),
        decreases topology.len() - i,
    {
        let named = match &topology[i].name {
            Some(n) => *n == *name,
            None => false,
        };
        let typed = match &topology[i].kind {
            Some(k) => same(k.as_str(), node_type),
            None => false,
        };
        if named && typed {
            assert(nodes[i as int].name == Some(name@) && nodes[i as int].kind == Some(node_type@));
            return true;
        }
        i += 1;
    }
    false
}

} // verus!
