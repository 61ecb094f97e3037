use vstd::prelude::*;
use crate::k8s_types::{K8SManifest, K8SManifestView};

verus! {

/// The model of a [`Smell`].
pub enum SmellView {
    MultipleContainers { workload: Seq<char>, container: Seq<char>, image: Seq<char> },
    HostNetworkExposed { workload: Seq<char> },
    HostPortExposed { workload: Seq<char>, container: Seq<char>, image: Seq<char> },
    DirectAccess { service: Seq<char> },
    MissingService { service: Seq<char> },
    WobblyInteraction { destination: Seq<char> },
}

/// One finding of a rule.
#[derive(Debug, PartialEq, Eq)]
pub enum Smell {
    /// A workload holds a further container that nothing shows to be a
    /// sidecar.
    MultipleContainers { workload: String, container: String, image: String },
    /// A workload shares the network of its node.
    HostNetworkExposed { workload: String },
    /// A container that is no message router binds a port of its node.
    HostPortExposed { workload: String, container: String, image: String },
    /// An invoked service can be reached on its node, past any Service.
    DirectAccess { service: String },
    /// No Service fronts an invoked service.
    MissingService { service: String },
    /// Nothing protects the calls to a destination: no circuit breaker and no
    /// routing policy.
    WobblyInteraction { destination: String },
}

impl View for Smell {
    type V = SmellView;

    open spec fn view(&self) -> SmellView {
        match self {
            Smell::MultipleContainers { workload, container, image } => SmellView::MultipleContainers {
                workload: workload@,
                container: container@,
                image: image@,
            },
            Smell::HostNetworkExposed { workload } => SmellView::HostNetworkExposed {
                workload: workload@,
            },
            Smell::HostPortExposed { workload, container, image } => SmellView::HostPortExposed {
                workload: workload@,
                container: container@,
                image: image@,
            },
            Smell::DirectAccess { service } => SmellView::DirectAccess { service: service@ },
            Smell::MissingService { service } => SmellView::MissingService { service: service@ },
            Smell::WobblyInteraction { destination } => SmellView::WobblyInteraction {
                destination: destination@,
            },
        }
    }
}

impl DeepView for Smell {
    type V = SmellView;

    open spec fn deep_view(&self) -> SmellView {
        self@
    }
}

impl Clone for Smell {
    fn clone(&self) -> (r: Self)
        ensures
            r@ == self@,
    {
        match self {
            Smell::MultipleContainers { workload, container, image } => Smell::MultipleContainers {
                workload: workload.clone(),
                container: container.clone(),
                image: image.clone(),
            },
            Smell::HostNetworkExposed { workload } => Smell::HostNetworkExposed {
                workload: workload.clone(),
            },
            Smell::HostPortExposed { workload, container, image } => Smell::HostPortExposed {
                workload: workload.clone(),
                container: container.clone(),
                image: image.clone(),
            },
            Smell::DirectAccess { service } => Smell::DirectAccess { service: service.clone() },
            Smell::MissingService { service } => Smell::MissingService { service: service.clone() },
            Smell::WobblyInteraction { destination } => Smell::WobblyInteraction {
                destination: destination.clone(),
            },
        }
    }
}

/// The model of a [`ManifestFile`]: texts as character sequences, lists as sequences.
pub struct ManifestFileView {
    pub filename: Seq<char>,
    pub manifest: K8SManifestView,
}

/// A descriptor together with the name of the file it is to be kept in.
#[derive(Debug, PartialEq, Eq)]
pub struct ManifestFile {
    pub filename: String,
    pub manifest: K8SManifest,
}

impl View for ManifestFile {
    type V = ManifestFileView;

    open spec fn view(&self) -> ManifestFileView {
        ManifestFileView {
            filename: self.filename@,
            manifest: self.manifest.deep_view(),
        }
    }
}

impl DeepView for ManifestFile {
    type V = ManifestFileView;

    open spec fn deep_view(&self) -> ManifestFileView {
        self@
    }
}

impl Clone for ManifestFile {
    fn clone(&self) -> (r: Self)
        ensures
            r@ == self@,
    {
        ManifestFile {
            filename: self.filename.clone(),
            manifest: self.manifest.clone(),
        }
    }
}

/// The model of a [`Outcome`]: texts as character sequences, lists as sequences.
pub struct OutcomeView {
    pub smells: Seq<SmellView>,
    pub updated: Seq<ManifestFileView>,
    pub created: Seq<ManifestFileView>,
}

/// What a rule found and what it proposes: the smells in the order they were
/// met, the descriptors to write over their files, and the descriptors to
/// write to new files. Without remediation both lists are empty.
#[derive(Debug, PartialEq, Eq)]
pub struct Outcome {
    pub smells: Vec<Smell>,
    pub updated: Vec<ManifestFile>,
    pub created: Vec<ManifestFile>,
}

impl View for Outcome {
    type V = OutcomeView;

    open spec fn view(&self) -> OutcomeView {
        OutcomeView {
            smells: self.smells.deep_view(),
            updated: self.updated.deep_view(),
            created: self.created.deep_view(),
        }
    }
}

impl DeepView for Outcome {
    type V = OutcomeView;

    open spec fn deep_view(&self) -> OutcomeView {
        self@
    }
}

impl Clone for Outcome {
    fn clone(&self) -> (r: Self)
        ensures
            r@ == self@,
    {
        Outcome {
            smells: self.smells.clone(),
            updated: self.updated.clone(),
            created: self.created.clone(),
        }
    }
}

impl OutcomeView {
    /// The outcome that holds nothing.
    pub open spec fn empty() -> OutcomeView {
        OutcomeView { smells: Seq::empty(), updated: Seq::empty(), created: Seq::empty() }
    }

    /// This outcome followed by `later`.
    pub open spec fn followed_by(self, later: OutcomeView) -> OutcomeView {
        OutcomeView {
            smells: self.smells + later.smells,
            updated: self.updated + later.updated,
            created: self.created + later.created,
        }
    }
}

/// An outcome followed by the one that holds nothing is itself.
pub proof fn lemma_followed_by_nothing(outcome: OutcomeView)
    ensures
        outcome.followed_by(OutcomeView::empty()) == outcome,
{
    let both = outcome.followed_by(OutcomeView::empty());
    assert(both.smells =~= outcome.smells);
    assert(both.updated =~= outcome.updated);
    assert(both.created =~= outcome.created);
}

/// The deep view of a vector after `append` is the deep view before it,
/// followed by that of what was appended.
pub proof fn lemma_deep_view_append<T: DeepView>(before: Vec<T>, added: Vec<T>, after: Vec<T>)
    requires
        after@ == before@ + added@,
    ensures
        after.deep_view() == before.deep_view() + added.deep_view(),
{
    assert(after.deep_view() =~= before.deep_view() + added.deep_view());
}

/// The deep view of a vector after `push` is the deep view before it with
/// the view of the new item at its end.
pub proof fn lemma_deep_view_push<T: DeepView>(before: Vec<T>, item: T, after: Vec<T>)
    requires
        after@ == before@.push(item),
    ensures
        after.deep_view() == before.deep_view().push(item.deep_view()),
{
    assert(after.deep_view() =~= before.deep_view().push(item.deep_view()));
}

impl Outcome {
    /// An outcome that holds nothing.
    pub fn new() -> (r: Outcome)
        ensures
            r@ == OutcomeView::empty(),
    {
        let r = Outcome { smells: Vec::new(), updated: Vec::new(), created: Vec::new() };
        assert(r@.smells =~= Seq::empty());
        assert(r@.updated =~= Seq::empty());
        assert(r@.created =~= Seq::empty());
        r
    }

    /// Puts what `later` holds behind what this outcome holds.
    pub fn extend(&mut self, later: Outcome)
        ensures
            final(self)@ == old(self)@.followed_by(later@),
    {
        let mut later = later;
        let ghost before = *self;
        let ghost added = later;
        self.smells.append(&mut later.smells);
        self.updated.append(&mut later.updated);
        self.created.append(&mut later.created);
        proof {
            lemma_deep_view_append(before.smells, added.smells, self.smells);
            lemma_deep_view_append(before.updated, added.updated, self.updated);
            lemma_deep_view_append(before.created, added.created, self.created);
        }
    }
}

} // verus!
