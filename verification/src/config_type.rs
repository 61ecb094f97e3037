use vstd::prelude::*;

verus! {

/// The model of a [`NodeConfigElement`]: texts as character sequences, lists as sequences.
pub struct NodeConfigElementView {
    pub name: Seq<char>,
    pub containers: Option<Seq<Seq<char>>>,
}

/// An override for one workload: its name and, optionally, a list of
/// container names or images that the override covers. What a missing list
/// means is up to the rule that reads the entry.
#[derive(Debug, PartialEq, Eq)]
pub struct NodeConfigElement {
    pub name: String,
    pub containers: Option<Vec<String>>,
}

impl View for NodeConfigElement {
    type V = NodeConfigElementView;

    open spec fn view(&self) -> NodeConfigElementView {
        NodeConfigElementView {
            name: self.name@,
            containers: self.containers.deep_view(),
        }
    }
}

impl DeepView for NodeConfigElement {
    type V = NodeConfigElementView;

    open spec fn deep_view(&self) -> NodeConfigElementView {
        self@
    }
}

impl Clone for NodeConfigElement {
    fn clone(&self) -> (r: Self)
        ensures
            r@ == self@,
    {
        NodeConfigElement {
            name: self.name.clone(),
            containers: self.containers.clone(),
        }
    }
}

/// The model of a [`Smells`]: texts as character sequences, lists as sequences.
pub struct SmellsView {
    pub multiple_container: Seq<NodeConfigElementView>,
    pub noapigateway: Seq<NodeConfigElementView>,
    pub endpoint_based_interaction: Seq<Seq<char>>,
    pub wobbly: Seq<Seq<char>>,
}

/// The overrides of each rule.
#[derive(Debug, PartialEq, Eq)]
pub struct Smells {
    pub multiple_container: Vec<NodeConfigElement>,
    pub noapigateway: Vec<NodeConfigElement>,
    pub endpoint_based_interaction: Vec<String>,
    pub wobbly: Vec<String>,
}

impl View for Smells {
    type V = SmellsView;

    open spec fn view(&self) -> SmellsView {
        SmellsView {
            multiple_container: self.multiple_container.deep_view(),
            noapigateway: self.noapigateway.deep_view(),
            endpoint_based_interaction: self.endpoint_based_interaction.deep_view(),
            wobbly: self.wobbly.deep_view(),
        }
    }
}

impl DeepView for Smells {
    type V = SmellsView;

    open spec fn deep_view(&self) -> SmellsView {
        self@
    }
}

impl Clone for Smells {
    fn clone(&self) -> (r: Self)
        ensures
            r@ == self@,
    {
        Smells {
            multiple_container: self.multiple_container.clone(),
            noapigateway: self.noapigateway.clone(),
            endpoint_based_interaction: self.endpoint_based_interaction.clone(),
            wobbly: self.wobbly.clone(),
        }
    }
}

/// The model of a [`Config`]: texts as character sequences, lists as sequences.
pub struct ConfigView {
    pub ignore_smells: SmellsView,
    pub invoked_services: Seq<Seq<char>>,
    pub ignored_manifests: Seq<Seq<char>>,
}

/// The configuration of a run: the services that are invoked from outside,
/// the descriptor files to leave out, and the overrides of each rule.
#[derive(Debug, PartialEq, Eq)]
pub struct Config {
    pub ignore_smells: Smells,
    pub invoked_services: Vec<String>,
    pub ignored_manifests: Vec<String>,
}

impl View for Config {
    type V = ConfigView;

    open spec fn view(&self) -> ConfigView {
        ConfigView {
            ignore_smells: self.ignore_smells.deep_view(),
            invoked_services: self.invoked_services.deep_view(),
            ignored_manifests: self.ignored_manifests.deep_view(),
        }
    }
}

impl DeepView for Config {
    type V = ConfigView;

    open spec fn deep_view(&self) -> ConfigView {
        self@
    }
}

impl Clone for Config {
    fn clone(&self) -> (r: Self)
        ensures
            r@ == self@,
    {
        Config {
            ignore_smells: self.ignore_smells.clone(),
            invoked_services: self.invoked_services.clone(),
            ignored_manifests: self.ignored_manifests.clone(),
        }
    }
}

/// The model of a [`KnownImage`]: texts as character sequences, lists as sequences.
pub struct KnownImageView {
    pub name: Seq<char>,
    pub image: Seq<char>,
    pub kind: Seq<char>,
}

/// An entry of the catalog of known images: an image and what kind of
/// infrastructure it is, `sidecar` or `mr` (message router).
#[derive(Debug, PartialEq, Eq)]
pub struct KnownImage {
    pub name: String,
    pub image: String,
    pub kind: String,
}

impl View for KnownImage {
    type V = KnownImageView;

    open spec fn view(&self) -> KnownImageView {
        KnownImageView {
            name: self.name@,
            image: self.image@,
            kind: self.kind@,
        }
    }
}

impl DeepView for KnownImage {
    type V = KnownImageView;

    open spec fn deep_view(&self) -> KnownImageView {
        self@
    }
}

impl Clone for KnownImage {
    fn clone(&self) -> (r: Self)
        ensures
            r@ == self@,
    {
        KnownImage {
            name: self.name.clone(),
            image: self.image.clone(),
            kind: self.kind.clone(),
        }
    }
}

/// The kind of catalog entry that marks an image as a sidecar.
pub open spec fn sidecar_kind() -> Seq<char> {
    "sidecar"@
}

/// The kind of catalog entry that marks an image as a message router.
pub open spec fn message_router_kind() -> Seq<char> {
    "mr"@
}

/// `i` is the place of the first entry for `workload` in `entries`.
pub open spec fn is_first_entry_for(
    entries: Seq<NodeConfigElementView>,
    workload: Seq<char>,
    i: int,
) -> bool {
    &&& 0 <= i < entries.len()
    &&& entries[i].name == workload
    &&& forall|j: int| 0 <= j < i ==> entries[j].name != workload
}

/// The override that governs `workload`: the first entry of that name.
pub open spec fn find_override(
    entries: Seq<NodeConfigElementView>,
    workload: Seq<char>,
) -> Option<NodeConfigElementView> {
    if exists|i: int| is_first_entry_for(entries, workload, i) {
        Some(entries[choose|i: int| is_first_entry_for(entries, workload, i)])
    } else {
        None
    }
}

/// The place of the override that governs `workload`, if there is one.
pub fn find_override_index(entries: &Vec<NodeConfigElement>, workload: &String) -> (r: Option<usize>)
    ensures
        match r {
            Some(i) => is_first_entry_for(entries.deep_view(), workload@, i as int)
                && find_override(entries.deep_view(), workload@) == Some(entries[i as int]@),
            None => find_override(entries.deep_view(), workload@) is None,
        },
{
    let mut i: usize = 0;
    while i < entries.len()
        invariant
            i <= entries.len(),
            forall|j: int| 0 <= j < i ==> entries.deep_view()[j].name != workload@,
        decreases entries.len() - i,
    {
        if entries[i].name == *workload {
            proof {
                let es = entries.deep_view();
                assert(is_first_entry_for(es, workload@, i as int));
                let k = choose|k: int| is_first_entry_for(es, workload@, k);
                assert(k == i);
            }
            return Some(i);
        }
        i += 1;
    }
    proof {
        let es = entries.deep_view();
        assert forall|k: int| !is_first_entry_for(es, workload@, k) by {
            if 0 <= k < es.len() {
                assert(es[k].name != workload@);
            }
        }
    }
    None
}

/// Whether `text` is one of `list`.
pub fn list_contains(list: &Vec<String>, text: &String) -> (r: bool)
    ensures
        r == list.deep_view().contains(text@),
{
    let mut i: usize = 0;
    while i < list.len()
        invariant
            i <= list.len(),
            forall|j: int| 0 <= j < i ==> list.deep_view()[j] != text@,
        decreases list.len() - i,
    {
        if list[i] == *text {
            assert(list.deep_view()[i as int] == text@);
            return true;
        }
        i += 1;
    }
    false
}

/// The entries that stay when the image called `name` leaves the catalog.
pub open spec fn not_called(name: Seq<char>) -> spec_fn(KnownImageView) -> bool {
    |entry: KnownImageView| entry.name != name
}

/// The texts that stay when `text` leaves a list.
pub open spec fn other_than(text: Seq<char>) -> spec_fn(Seq<char>) -> bool {
    |item: Seq<char>| item != text
}

/// Puts an image at the end of the catalog.
pub fn add_known_image(catalog: &mut Vec<KnownImage>, name: String, image: String, kind: String)
    ensures
        final(catalog).deep_view() == old(catalog).deep_view().push(
            KnownImageView { name: name@, image: image@, kind: kind@ },
        ),
{
    let ghost before = *catalog;
    let entry = KnownImage { name, image, kind };
    catalog.push(entry);
    assert(catalog.deep_view() =~= before.deep_view().push(entry@));
}

/// Takes every image called `name` out of the catalog. The others stay in
/// their order.
pub fn delete_known_image(catalog: &mut Vec<KnownImage>, name: &String)
    ensures
        final(catalog).deep_view() == old(catalog).deep_view().filter(not_called(name@)),
{
    let ghost all = catalog.deep_view();
    let mut kept: Vec<KnownImage> = Vec::new();
    let mut i: usize = 0;
    assert(all.take(0) =~= Seq::empty());
    assert(kept.deep_view() =~= all.take(0).filter(not_called(name@))) by {
        reveal(Seq::filter);
    }
    while i < catalog.len()
        invariant
            i <= catalog.len(),
            all == catalog.deep_view(),
            kept.deep_view() == all.take(i as int).filter(not_called(name@)),
        decreases catalog.len() - i,
    {
        proof {
            reveal(Seq::filter);
            assert(all.take(i + 1).drop_last() =~= all.take(i as int));
        }
        if catalog[i].name != *name {
            let ghost before = kept;
            let copy = catalog[i].clone();
            kept.push(copy);
            assert(kept.deep_view() =~= before.deep_view().push(copy@));
        }
        i += 1;
    }
    assert(all.take(catalog.len() as int) =~= all);
    *catalog = kept;
}

/// Puts a file name at the end of the list of descriptor files to leave
/// out. Nothing else of the configuration changes.
pub fn add_manifest_ignore(config: &mut Config, filename: String)
    ensures
        final(config)@ == (ConfigView {
            ignored_manifests: old(config)@.ignored_manifests.push(filename@),
            ..old(config)@
        }),
{
    let ghost before = config.ignored_manifests;
    config.ignored_manifests.push(filename);
    assert(config.ignored_manifests.deep_view() =~= before.deep_view().push(filename@));
}

/// Takes the file name out of the list of descriptor files to leave out,
/// wherever it stands in it. Nothing else of the configuration changes.
pub fn delete_manifest_ignore(config: &mut Config, name: &String)
    ensures
        final(config)@ == (ConfigView {
            ignored_manifests: old(config)@.ignored_manifests.filter(other_than(name@)),
            ..old(config)@
        }),
{
    let ghost all = config.ignored_manifests.deep_view();
    let mut kept: Vec<String> = Vec::new();
    let mut i: usize = 0;
    assert(all.take(0) =~= Seq::empty());
    assert(kept.deep_view() =~= all.take(0).filter(other_than(name@))) by {
        reveal(Seq::filter);
    }
    while i < config.ignored_manifests.len()
        invariant
            i <= config.ignored_manifests.len(),
            *config == *old(config),
            all == config.ignored_manifests.deep_view(),
            kept.deep_view() == all.take(i as int).filter(other_than(name@)),
        decreases config.ignored_manifests.len() - i,
    {
        proof {
            reveal(Seq::filter);
            assert(all.take(i + 1).drop_last() =~= all.take(i as int));
        }
        if config.ignored_manifests[i] != *name {
            let ghost before = kept;
            let copy = config.ignored_manifests[i].clone();
            kept.push(copy);
            assert(kept.deep_view() =~= before.deep_view().push(copy@));
        }
        i += 1;
    }
    assert(all.take(config.ignored_manifests.len() as int) =~= all);
    config.ignored_manifests = kept;
}

} // verus!
