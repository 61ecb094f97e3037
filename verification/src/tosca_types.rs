use vstd::prelude::*;

verus! {

/// The model of a [`DetailedInteraction`]: texts as character sequences, lists as sequences.
pub struct DetailedInteractionView {
    pub node: Option<Seq<char>>,
    pub relationship: Option<Seq<char>>,
}

/// A requirement written in full: the node it leads to and the kind of
/// relationship.
#[derive(Debug, PartialEq, Eq)]
pub struct DetailedInteraction {
    pub node: Option<String>,
    pub relationship: Option<String>,
}

impl View for DetailedInteraction {
    type V = DetailedInteractionView;

    open spec fn view(&self) -> DetailedInteractionView {
        DetailedInteractionView {
            node: self.node.deep_view(),
            relationship: self.relationship.deep_view(),
        }
    }
}

impl DeepView for DetailedInteraction {
    type V = DetailedInteractionView;

    open spec fn deep_view(&self) -> DetailedInteractionView {
        self@
    }
}

impl Clone for DetailedInteraction {
    fn clone(&self) -> (r: Self)
        ensures
            r@ == self@,
    {
        DetailedInteraction {
            node: self.node.clone(),
            relationship: self.relationship.clone(),
        }
    }
}

/// The model of an [`Interaction`].
pub enum InteractionView {
    PlainName(Seq<char>),
    Detailed(DetailedInteractionView),
}

/// How a requirement names the node it leads to: by the bare name, or in
/// full.
#[derive(Debug, PartialEq, Eq)]
pub enum Interaction {
    PlainName(String),
    Detailed(DetailedInteraction),
}

impl View for Interaction {
    type V = InteractionView;

    open spec fn view(&self) -> InteractionView {
        match self {
            Interaction::PlainName(name) => InteractionView::PlainName(name@),
            Interaction::Detailed(detail) => InteractionView::Detailed(detail@),
        }
    }
}

impl DeepView for Interaction {
    type V = InteractionView;

    open spec fn deep_view(&self) -> InteractionView {
        self@
    }
}

impl Clone for Interaction {
    fn clone(&self) -> (r: Self)
        ensures
            r@ == self@,
    {
        match self {
            Interaction::PlainName(name) => Interaction::PlainName(name.clone()),
            Interaction::Detailed(detail) => Interaction::Detailed(detail.clone()),
        }
    }
}

impl InteractionView {
    /// The node that the interaction leads to: the bare name, or the `node`
    /// of the full form, which may be missing.
    pub open spec fn destination(self) -> Option<Seq<char>> {
        match self {
            InteractionView::PlainName(name) => Some(name),
            InteractionView::Detailed(detail) => detail.node,
        }
    }
}

impl Interaction {
    /// The name of the node that the interaction leads to, if it names one.
    pub fn destination(&self) -> (r: Option<&String>)
        ensures
            r.deep_view() == self@.destination(),
    {
        match self {
            Interaction::PlainName(name) => Some(name),
            Interaction::Detailed(detail) => detail.node.as_ref(),
        }
    }
}

/// The model of a [`Requirement`]: texts as character sequences, lists as sequences.
pub struct RequirementView {
    pub interaction: Option<InteractionView>,
}

/// One requirement of a node: an interaction with another node.
#[derive(Debug, PartialEq, Eq)]
pub struct Requirement {
    pub interaction: Option<Interaction>,
}

impl View for Requirement {
    type V = RequirementView;

    open spec fn view(&self) -> RequirementView {
        RequirementView {
            interaction: self.interaction.deep_view(),
        }
    }
}

impl DeepView for Requirement {
    type V = RequirementView;

    open spec fn deep_view(&self) -> RequirementView {
        self@
    }
}

impl Clone for Requirement {
    fn clone(&self) -> (r: Self)
        ensures
            r@ == self@,
    {
        Requirement {
            interaction: self.interaction.clone(),
        }
    }
}

/// The model of a [`NodeTemplate`]: texts as character sequences, lists as sequences.
pub struct NodeTemplateView {
    pub name: Option<Seq<char>>,
    pub kind: Option<Seq<char>>,
    pub requirements: Option<Seq<RequirementView>>,
}

/// One node of the architecture: its name, the type of component it is, and
/// the nodes it depends on.
#[derive(Debug, PartialEq, Eq)]
pub struct NodeTemplate {
    pub name: Option<String>,
    pub kind: Option<String>,
    pub requirements: Option<Vec<Requirement>>,
}

impl View for NodeTemplate {
    type V = NodeTemplateView;

    open spec fn view(&self) -> NodeTemplateView {
        NodeTemplateView {
            name: self.name.deep_view(),
            kind: self.kind.deep_view(),
            requirements: self.requirements.deep_view(),
        }
    }
}

impl DeepView for NodeTemplate {
    type V = NodeTemplateView;

    open spec fn deep_view(&self) -> NodeTemplateView {
        self@
    }
}

impl Clone for NodeTemplate {
    fn clone(&self) -> (r: Self)
        ensures
            r@ == self@,
    {
        NodeTemplate {
            name: self.name.clone(),
            kind: self.kind.clone(),
            requirements: self.requirements.clone(),
        }
    }
}

/// The type of a node that stores data.
pub open spec fn datastore_type() -> Seq<char> {
    "micro.nodes.Datastore"@
}

/// The type of a node that routes messages.
pub open spec fn message_router_type() -> Seq<char> {
    "micro.nodes.MessageRouter"@
}

/// The type of a node that brokers messages.
pub open spec fn message_broker_type() -> Seq<char> {
    "micro.nodes.MessageBroker"@
}

} // verus!
