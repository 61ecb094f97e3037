use vstd::prelude::*;
use crate::config_type::{
    find_override, find_override_index, message_router_kind, sidecar_kind, Config, ConfigView,
    KnownImage, KnownImageView, NodeConfigElementView,
};
use crate::k8s_types::{get_patterns, patterns, Container, ContainerView};
use crate::text::{contains, is_substring, same};

verus! {

/// What the classifier takes a container of a workload for.
#[derive(Clone, Copy, Debug, PartialEq, Eq, Structural)]
pub enum ContainerClass {
    /// The container that the workload exists for: the first one that
    /// nothing marks as auxiliary.
    Primary,
    /// An auxiliary container.
    Sidecar,
    /// An auxiliary container whose image routes messages.
    MessageRouter,
    /// A further container that nothing marks as auxiliary: it cannot be
    /// shown to be a proper sidecar.
    Unclassified,
}

/// The name or the image of the container holds one of the marking words.
pub open spec fn has_pattern(c: ContainerView) -> bool {
    exists|k: int|
        0 <= k < patterns().len() && (is_substring(#[trigger] patterns()[k], c.name)
            || is_substring(patterns()[k], c.image))
}

/// The image holds the image of a catalog entry of kind `sidecar`.
pub open spec fn is_catalog_sidecar(image: Seq<char>, catalog: Seq<KnownImageView>) -> bool {
    exists|k: int|
        0 <= k < catalog.len() && (#[trigger] catalog[k]).kind == sidecar_kind() && is_substring(
            catalog[k].image,
            image,
        )
}

/// The override that governs the workload lists the container by name.
pub open spec fn is_allow_listed(
    name: Seq<char>,
    workload: Seq<char>,
    overrides: Seq<NodeConfigElementView>,
) -> bool {
    match find_override(overrides, workload) {
        Some(entry) => match entry.containers {
            Some(names) => names.contains(name),
            None => false,
        },
        None => false,
    }
}

/// The container is auxiliary: a marking word stands in its name or image,
/// its image is a known sidecar, or the configuration lists it as a sidecar
/// of its workload.
pub open spec fn is_not_primary(
    c: ContainerView,
    workload: Seq<char>,
    catalog: Seq<KnownImageView>,
    config: ConfigView,
) -> bool {
    ||| has_pattern(c)
    ||| is_catalog_sidecar(c.image, catalog)
    ||| is_allow_listed(c.name, workload, config.ignore_smells.multiple_container)
}

/// The image is that of a catalog entry of kind `mr`, character for
/// character.
pub open spec fn is_catalog_router(image: Seq<char>, catalog: Seq<KnownImageView>) -> bool {
    exists|k: int|
        0 <= k < catalog.len() && (#[trigger] catalog[k]).kind == message_router_kind()
            && catalog[k].image == image
}

/// One of the listed images stands in `image`.
pub open spec fn holds_listed_image(image: Seq<char>, listed: Seq<Seq<char>>) -> bool {
    exists|k: int| 0 <= k < listed.len() && is_substring(#[trigger] listed[k], image)
}

/// The override that governs the workload trusts the image: it has no list,
/// and so trusts every container of the workload, or one of the images it
/// lists stands in `image`.
pub open spec fn override_trusts(
    image: Seq<char>,
    workload: Seq<char>,
    overrides: Seq<NodeConfigElementView>,
) -> bool {
    match find_override(overrides, workload) {
        Some(entry) => match entry.containers {
            Some(listed) => holds_listed_image(image, listed),
            None => true,
        },
        None => false,
    }
}

/// The image counts as a message router for the workload: the catalog knows
/// it as one, or the override of the workload trusts it.
pub open spec fn is_message_router(
    image: Seq<char>,
    workload: Seq<char>,
    catalog: Seq<KnownImageView>,
    config: ConfigView,
) -> bool {
    is_catalog_router(image, catalog) || override_trusts(
        image,
        workload,
        config.ignore_smells.noapigateway,
    )
}

/// One of the first `i` containers is not auxiliary.
pub open spec fn primary_seen(
    cs: Seq<ContainerView>,
    i: int,
    workload: Seq<char>,
    catalog: Seq<KnownImageView>,
    config: ConfigView,
) -> bool {
    exists|j: int| 0 <= j < i && !is_not_primary(#[trigger] cs[j], workload, catalog, config)
}

/// The class of one container, given whether a primary one came before it.
pub open spec fn class_of(
    c: ContainerView,
    seen: bool,
    workload: Seq<char>,
    catalog: Seq<KnownImageView>,
    config: ConfigView,
) -> ContainerClass {
    if is_not_primary(c, workload, catalog, config) {
        if is_message_router(c.image, workload, catalog, config) {
            ContainerClass::MessageRouter
        } else {
            ContainerClass::Sidecar
        }
    } else if seen {
        ContainerClass::Unclassified
    } else {
        ContainerClass::Primary
    }
}

/// The class of the container at place `i` of a workload. The order counts:
/// of the containers that are not auxiliary the first is the primary one,
/// and each later one is unclassified.
pub open spec fn class_at(
    cs: Seq<ContainerView>,
    i: int,
    workload: Seq<char>,
    catalog: Seq<KnownImageView>,
    config: ConfigView,
) -> ContainerClass {
    class_of(cs[i], primary_seen(cs, i, workload, catalog, config), workload, catalog, config)
}

/// Whether one of `words` stands in `text`.
fn holds_one_of(text: &String, words: &Vec<String>) -> (r: bool)
    ensures
        r == exists|k: int|
            0 <= k < words.len() && is_substring(#[trigger] words.deep_view()[k], text@),
{
    let mut k: usize = 0;
    while k < words.len()
        invariant
            k <= words.len(),
            forall|j: int| 0 <= j < k ==> !is_substring(#[trigger] words.deep_view()[j], text@),
        decreases words.len() - k,
    {
        if contains(text.as_str(), words[k].as_str()) {
            assert(is_substring(words.deep_view()[k as int], text@));
            return true;
        }
        k += 1;
    }
    false
}

/// Whether the image holds the image of a catalog entry of kind `sidecar`.
fn catalog_has_sidecar(image: &String, catalog: &Vec<KnownImage>) -> (r: bool)
    ensures
        r == is_catalog_sidecar(image@, catalog.deep_view()),
{
    let mut k: usize = 0;
    while k < catalog.len()
        invariant
            k <= catalog.len(),
            forall|j: int|
                0 <= j < k ==> !((#[trigger] catalog.deep_view()[j]).kind == sidecar_kind()
                    && is_substring(catalog.deep_view()[j].image, image@)),
        decreases catalog.len() - k,
    {
        if same(catalog[k].kind.as_str(), "sidecar") && contains(
            image.as_str(),
            catalog[k].image.as_str(),
        ) {
            assert(catalog.deep_view()[k as int].kind == sidecar_kind());
            return true;
        }
        k += 1;
    }
    false
}

/// Whether the image is that of a catalog entry of kind `mr`.
fn catalog_has_router(image: &String, catalog: &Vec<KnownImage>) -> (r: bool)
    ensures
        r == is_catalog_router(image@, catalog.deep_view()),
{
    let mut k: usize = 0;
    while k < catalog.len()
        invariant
            k <= catalog.len(),
            forall|j: int|
                0 <= j < k ==> !((#[trigger] catalog.deep_view()[j]).kind == message_router_kind()
                    && catalog.deep_view()[j].image == image@),
        decreases catalog.len() - k,
    {
        if same(catalog[k].kind.as_str(), "mr") && catalog[k].image == *image {
            assert(catalog.deep_view()[k as int].kind == message_router_kind());
            return true;
        }
        k += 1;
    }
    false
}

/// Whether the container is auxiliary in the workload called `workload`.
pub fn is_auxiliary(
    container: &Container,
    workload: &String,
    catalog: &Vec<KnownImage>,
    config: &Config,
) -> (r: bool)
    ensures
        r == is_not_primary(container@, workload@, catalog.deep_view(), config@),
{
    let words = get_patterns();
    if holds_one_of(&container.name, &words) || holds_one_of(&container.image, &words) {
        return true;
    }
    if catalog_has_sidecar(&container.image, catalog) {
        return true;
    }
    let overrides = &config.ignore_smells.multiple_container;
    match find_override_index(overrides, workload) {
        Some(i) => match &overrides[i].containers {
            Some(names) => crate::config_type::list_contains(names, &container.name),
            None => false,
        },
        None => false,
    }
}

/// Whether the image counts as a message router for the workload called
/// `pod_name`.
pub fn implements_message_routing(
    pod_name: &String,
    image_name: &String,
    catalog: &Vec<KnownImage>,
    config: &Config,
) -> (r: bool)
    ensures
        r == is_message_router(image_name@, pod_name@, catalog.deep_view(), config@),
{
    if catalog_has_router(image_name, catalog) {
        return true;
    }
    let overrides = &config.ignore_smells.noapigateway;
    match find_override_index(overrides, pod_name) {
        Some(i) => match &overrides[i].containers {
            Some(listed) => holds_one_of(image_name, listed),
            None => true,
        },
        None => false,
    }
}

/// Classifies one container of the workload called `workload`.
/// `primary_seen` says whether a container before it was the primary one.
pub fn classify(
    container: &Container,
    workload: &String,
    catalog: &Vec<KnownImage>,
    config: &Config,
    primary_seen: bool,
) -> (r: ContainerClass)
    ensures
        r == class_of(container@, primary_seen, workload@, catalog.deep_view(), config@),
{
    if is_auxiliary(container, workload, catalog, config) {
        if implements_message_routing(workload, &container.image, catalog, config) {
            ContainerClass::MessageRouter
        } else {
            ContainerClass::Sidecar
        }
    } else if primary_seen {
        ContainerClass::Unclassified
    } else {
        ContainerClass::Primary
    }
}

/// Classifies the containers of the workload called `workload`, in their
/// order.
pub fn classify_containers(
    containers: &Vec<Container>,
    workload: &String,
    catalog: &Vec<KnownImage>,
    config: &Config,
) -> (classes: Vec<ContainerClass>)
    ensures
        classes.len() == containers.len(),
        forall|i: int|
            0 <= i < containers.len() ==> classes[i] == class_at(
                containers.deep_view(),
                i,
                workload@,
                catalog.deep_view(),
                config@,
            ),
{
    let ghost cs = containers.deep_view();
    let mut classes: Vec<ContainerClass> = Vec::new();
    let mut seen = false;
    let mut i: usize = 0;
    while i < containers.len()
        invariant
            i <= containers.len(),
            cs == containers.deep_view(),
            classes.len() == i,
            seen == primary_seen(cs, i as int, workload@, catalog.deep_view(), config@),
            forall|j: int|
                0 <= j < i ==> classes[j] == class_at(cs, j, workload@, catalog.deep_view(), config@),
        decreases containers.len() - i,
    {
        let class = classify(&containers[i], workload, catalog, config, seen);
        classes.push(class);
        proof {
            let auxiliary = is_not_primary(cs[i as int], workload@, catalog.deep_view(), config@);
            if !auxiliary {
                assert(primary_seen(cs, i + 1, workload@, catalog.deep_view(), config@));
            }
        }
        if class == ContainerClass::Primary {
            seen = true;
        }
        i += 1;
    }
    classes
}

} // verus!
