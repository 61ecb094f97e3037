use vstd::prelude::*;
use crate::classifier::{
    class_at, class_of, classify, is_not_primary, primary_seen, ContainerClass,
};
use crate::config_type::{Config, ConfigView, KnownImage, KnownImageView};
use crate::k8s_types::{Container, ContainerView, K8SManifest, K8SManifestView};
use crate::report::{
    lemma_deep_view_push, ManifestFile, ManifestFileView, Outcome, OutcomeView, Smell, SmellView,
};
use crate::yaml_handler::{
    create_pod_from, get_containers, has_distinct_names, has_one_container_list, lemma_made_manifests_have_one_list,
    lemma_with_containers_keeps_one_list, manifest_file_name, manifest_filename, pod_from,
    replace_containers, with_containers, workload_containers,
};

verus! {

/// The container at place `i` is a further container that nothing marks as
/// auxiliary.
pub open spec fn is_unclassified(
    cs: Seq<ContainerView>,
    i: int,
    workload: Seq<char>,
    catalog: Seq<KnownImageView>,
    config: ConfigView,
) -> bool {
    class_at(cs, i, workload, catalog, config) == ContainerClass::Unclassified
}

/// The finding for one unclassified container.
pub open spec fn smell_of(workload: Seq<char>, c: ContainerView) -> SmellView {
    SmellView::MultipleContainers { workload: workload, container: c.name, image: c.image }
}

/// The findings among the first `n` containers: one for each unclassified
/// container, in their order.
pub open spec fn smells_upto(
    cs: Seq<ContainerView>,
    n: int,
    workload: Seq<char>,
    catalog: Seq<KnownImageView>,
    config: ConfigView,
) -> Seq<SmellView>
    decreases n,
{
    if n <= 0 {
        Seq::empty()
    } else {
        let before = smells_upto(cs, n - 1, workload, catalog, config);
        if is_unclassified(cs, n - 1, workload, catalog, config) {
            before.push(smell_of(workload, cs[n - 1]))
        } else {
            before
        }
    }
}

/// Those of the first `n` containers that stay in the workload: all but the
/// unclassified ones, in their order.
pub open spec fn kept_upto(
    cs: Seq<ContainerView>,
    n: int,
    workload: Seq<char>,
    catalog: Seq<KnownImageView>,
    config: ConfigView,
) -> Seq<ContainerView>
    decreases n,
{
    if n <= 0 {
        Seq::empty()
    } else {
        let before = kept_upto(cs, n - 1, workload, catalog, config);
        if is_unclassified(cs, n - 1, workload, catalog, config) {
            before
        } else {
            before.push(cs[n - 1])
        }
    }
}

/// The Pods that take the unclassified ones among the first `n` containers:
/// one Pod for each, in their order.
pub open spec fn pods_upto(
    cs: Seq<ContainerView>,
    n: int,
    workload: Seq<char>,
    catalog: Seq<KnownImageView>,
    config: ConfigView,
) -> Seq<ManifestFileView>
    decreases n,
{
    if n <= 0 {
        Seq::empty()
    } else {
        let before = pods_upto(cs, n - 1, workload, catalog, config);
        if is_unclassified(cs, n - 1, workload, catalog, config) {
            before.push(pod_from(cs[n - 1]))
        } else {
            before
        }
    }
}

/// Looks for further containers that nothing marks as auxiliary among the
/// containers of the workload called `metadata_name`, and reports each.
/// With `is_to_refactor` each of them leaves the workload for a Pod of its
/// own; without it the containers come back as they are.
pub fn analyze_multiple_containers(
    containers: &Vec<Container>,
    metadata_name: String,
    catalog: &Vec<KnownImage>,
    config: &Config,
    is_to_refactor: bool,
) -> (r: (Vec<Container>, Outcome))
    ensures
        r.1@.smells == smells_upto(
            containers.deep_view(),
            containers.len() as int,
            metadata_name@,
            catalog.deep_view(),
            config@,
        ),
        r.1@.updated == Seq::<ManifestFileView>::empty(),
        is_to_refactor ==> r.0.deep_view() == kept_upto(
            containers.deep_view(),
            containers.len() as int,
            metadata_name@,
            catalog.deep_view(),
            config@,
        ),
        is_to_refactor ==> r.1@.created == pods_upto(
            containers.deep_view(),
            containers.len() as int,
            metadata_name@,
            catalog.deep_view(),
            config@,
        ),
        !is_to_refactor ==> r.0.deep_view() == containers.deep_view(),
        !is_to_refactor ==> r.1@.created == Seq::<ManifestFileView>::empty(),
{
    let ghost cs = containers.deep_view();
    let ghost cat = catalog.deep_view();
    let mut kept: Vec<Container> = Vec::new();
    let mut outcome = Outcome::new();
    let mut seen = false;
    let mut i: usize = 0;
    assert(kept.deep_view() =~= Seq::empty());
    assert(cs.take(0) =~= Seq::empty());
    while i < containers.len()
        invariant
            i <= containers.len(),
            cs == containers.deep_view(),
            cat == catalog.deep_view(),
            seen == primary_seen(cs, i as int, metadata_name@, cat, config@),
            outcome@.smells == smells_upto(cs, i as int, metadata_name@, cat, config@),
            outcome@.updated == Seq::<ManifestFileView>::empty(),
            is_to_refactor ==> kept.deep_view() == kept_upto(cs, i as int, metadata_name@, cat, config@),
            is_to_refactor ==> outcome@.created == pods_upto(
                cs,
                i as int,
                metadata_name@,
                cat,
                config@,
            ),
            !is_to_refactor ==> kept.deep_view() == cs.take(i as int),
            !is_to_refactor ==> outcome@.created == Seq::<ManifestFileView>::empty(),
        decreases containers.len() - i,
    {
        let container = &containers[i];
        let class = classify(container, &metadata_name, catalog, config, seen);
        proof {
            if !is_not_primary(cs[i as int], metadata_name@, cat, config@) {
                assert(primary_seen(cs, i + 1, metadata_name@, cat, config@));
            }
            assert(cs.take(i + 1) =~= cs.take(i as int).push(cs[i as int]));
        }
        if class == ContainerClass::Unclassified {
            let ghost before = outcome;
            let smell = Smell::MultipleContainers {
                workload: metadata_name.clone(),
                container: container.name.clone(),
                image: container.image.clone(),
            };
            outcome.smells.push(smell);
            proof {
                lemma_deep_view_push(before.smells, smell, outcome.smells);
            }
            if is_to_refactor {
                let pod = create_pod_from(container);
                outcome.created.push(pod);
                proof {
                    lemma_deep_view_push(before.created, pod, outcome.created);
                }
            } else {
                let ghost kept_before = kept;
                let copy = container.clone();
                kept.push(copy);
                proof {
                    lemma_deep_view_push(kept_before, copy, kept);
                }
            }
        } else {
            if class == ContainerClass::Primary {
                seen = true;
            }
            let ghost kept_before = kept;
            let copy = container.clone();
            kept.push(copy);
            proof {
                lemma_deep_view_push(kept_before, copy, kept);
            }
        }
        i += 1;
    }
    assert(cs.take(containers.len() as int) =~= cs);
    (kept, outcome)
}

/// What the rule finds in one manifest and proposes for it. A manifest that
/// is no workload, or has no containers, gives nothing. With remediation a
/// workload with findings comes back without its unclassified containers,
/// to be written over its file, and each of those containers comes back in
/// a Pod of its own, to be written to a new file.
pub open spec fn independence_of(
    m: K8SManifestView,
    catalog: Seq<KnownImageView>,
    config: ConfigView,
    remediate: bool,
) -> OutcomeView {
    match workload_containers(m) {
        None => OutcomeView::empty(),
        Some(cs) => {
            let name = m.metadata.name;
            let smells = smells_upto(cs, cs.len() as int, name, catalog, config);
            let kept = kept_upto(cs, cs.len() as int, name, catalog, config);
            if remediate && smells.len() > 0 {
                OutcomeView {
                    smells: smells,
                    updated: seq![
                        ManifestFileView {
                            filename: manifest_file_name(name),
                            manifest: with_containers(m, kept),
                        },
                    ],
                    created: pods_upto(cs, cs.len() as int, name, catalog, config),
                }
            } else {
                OutcomeView { smells: smells, updated: Seq::empty(), created: Seq::empty() }
            }
        },
    }
}

/// Runs the rule on one manifest.
pub fn check_workload_independence(
    manifest: &K8SManifest,
    catalog: &Vec<KnownImage>,
    config: &Config,
    is_to_refactor: bool,
) -> (out: Outcome)
    ensures
        out@ == independence_of(manifest@, catalog.deep_view(), config@, is_to_refactor),
{
    match get_containers(manifest) {
        None => Outcome::new(),
        Some(containers) => {
            let ghost cs = containers.deep_view();
            assert(workload_containers(manifest@)->0 == cs);
            let (kept, mut outcome) = analyze_multiple_containers(
                containers,
                manifest.metadata.name.clone(),
                catalog,
                config,
                is_to_refactor,
            );
            if is_to_refactor && outcome.smells.len() > 0 {
                let file = ManifestFile {
                    filename: manifest_filename(&manifest.metadata.name),
                    manifest: replace_containers(manifest, kept),
                };
                outcome.updated.push(file);
                assert(outcome@.updated =~= seq![file@]);
            } else {
                proof {
                    if is_to_refactor {
                        lemma_no_smell_no_pod(
                            cs,
                            cs.len() as int,
                            manifest@.metadata.name,
                            catalog.deep_view(),
                            config@,
                        );
                    }
                }
            }
            outcome
        },
    }
}

/// Where nothing is found among the first `n` containers, all of them stay
/// and no Pod is made.
pub proof fn lemma_no_smell_no_pod(
    cs: Seq<ContainerView>,
    n: int,
    workload: Seq<char>,
    catalog: Seq<KnownImageView>,
    config: ConfigView,
)
    requires
        0 <= n <= cs.len(),
        smells_upto(cs, n, workload, catalog, config).len() == 0,
    ensures
        kept_upto(cs, n, workload, catalog, config) == cs.take(n),
        pods_upto(cs, n, workload, catalog, config) == Seq::<ManifestFileView>::empty(),
    decreases n,
{
    if n > 0 {
        lemma_no_smell_no_pod(cs, n - 1, workload, catalog, config);
        assert(cs.take(n) =~= cs.take(n - 1).push(cs[n - 1]));
    } else {
        assert(cs.take(0) =~= Seq::empty());
    }
}

/// What the rule finds in the first `n` manifests and proposes for them,
/// manifest after manifest.
pub open spec fn independence_upto(
    ms: Seq<K8SManifestView>,
    n: int,
    catalog: Seq<KnownImageView>,
    config: ConfigView,
    remediate: bool,
) -> OutcomeView
    decreases n,
{
    if n <= 0 {
        OutcomeView::empty()
    } else {
        independence_upto(ms, n - 1, catalog, config, remediate).followed_by(
            independence_of(ms[n - 1], catalog, config, remediate),
        )
    }
}

/// The rule on multiple containers per workload, on every manifest: each
/// workload should hold one container of its own, beside its sidecars.
pub fn check_independent_depl(
    manifests: &Vec<K8SManifest>,
    catalog: &Vec<KnownImage>,
    config: &Config,
    is_to_refactor: bool,
) -> (out: Outcome)
    ensures
        out@ == independence_upto(
            manifests.deep_view(),
            manifests.len() as int,
            catalog.deep_view(),
            config@,
            is_to_refactor,
        ),
{
    let ghost ms = manifests.deep_view();
    let mut out = Outcome::new();
    let mut i: usize = 0;
    while i < manifests.len()
        invariant
            i <= manifests.len(),
            ms == manifests.deep_view(),
            out@ == independence_upto(ms, i as int, catalog.deep_view(), config@, is_to_refactor),
        decreases manifests.len() - i,
    {
        let one = check_workload_independence(&manifests[i], catalog, config, is_to_refactor);
        out.extend(one);
        i += 1;
    }
    out
}

/// Where none of the first `n` containers is unclassified, nothing is found
/// among them.
pub proof fn lemma_no_unclassified_no_smell(
    cs: Seq<ContainerView>,
    n: int,
    workload: Seq<char>,
    catalog: Seq<KnownImageView>,
    config: ConfigView,
)
    requires
        0 <= n <= cs.len(),
        forall|i: int| 0 <= i < n ==> !is_unclassified(cs, i, workload, catalog, config),
    ensures
        smells_upto(cs, n, workload, catalog, config) == Seq::<SmellView>::empty(),
    decreases n,
{
    if n > 0 {
        lemma_no_unclassified_no_smell(cs, n - 1, workload, catalog, config);
    }
}

/// Of the containers that stay, at most one is not auxiliary: where one is
/// not, all before it are. And one of those that stay is not auxiliary
/// exactly where one of the first `n` containers is not.
pub proof fn lemma_kept_holds_one_primary(
    cs: Seq<ContainerView>,
    n: int,
    workload: Seq<char>,
    catalog: Seq<KnownImageView>,
    config: ConfigView,
)
    requires
        0 <= n <= cs.len(),
    ensures
        ({
            let kept = kept_upto(cs, n, workload, catalog, config);
            &&& forall|j: int|
                0 <= j < kept.len() ==> !primary_seen(kept, j, workload, catalog, config)
                    || is_not_primary(#[trigger] kept[j], workload, catalog, config)
            &&& primary_seen(kept, kept.len() as int, workload, catalog, config) == primary_seen(
                cs,
                n,
                workload,
                catalog,
                config,
            )
        }),
    decreases n,
{
    if n > 0 {
        lemma_kept_holds_one_primary(cs, n - 1, workload, catalog, config);
        let before = kept_upto(cs, n - 1, workload, catalog, config);
        let kept = kept_upto(cs, n, workload, catalog, config);
        let last = cs[n - 1];
        let auxiliary = is_not_primary(last, workload, catalog, config);
        let seen_before = primary_seen(cs, n - 1, workload, catalog, config);
        let seen_now = primary_seen(cs, n, workload, catalog, config);
        assert(seen_now == (seen_before || !auxiliary)) by {
            if seen_before {
                let j = choose|j: int|
                    0 <= j < n - 1 && !is_not_primary(#[trigger] cs[j], workload, catalog, config);
                assert(0 <= j < n && !is_not_primary(cs[j], workload, catalog, config));
            }
            if !auxiliary {
                assert(0 <= n - 1 < n && !is_not_primary(cs[n - 1], workload, catalog, config));
            }
        }
        if is_unclassified(cs, n - 1, workload, catalog, config) {
            assert(kept == before);
        } else {
            assert(kept == before.push(last));
            assert forall|j: int| 0 <= j < kept.len() implies !primary_seen(
                kept,
                j,
                workload,
                catalog,
                config,
            ) || is_not_primary(#[trigger] kept[j], workload, catalog, config) by {
                if primary_seen(kept, j, workload, catalog, config) {
                    let p = choose|p: int|
                        0 <= p < j && !is_not_primary(#[trigger] kept[p], workload, catalog, config);
                    assert(kept[p] == before[p]);
                    if j < before.len() {
                        assert(kept[j] == before[j]);
                        assert(primary_seen(before, j, workload, catalog, config));
                    } else {
                        assert(primary_seen(before, before.len() as int, workload, catalog, config));
                    }
                }
            }
            assert(primary_seen(kept, kept.len() as int, workload, catalog, config) == seen_now) by {
                if primary_seen(kept, kept.len() as int, workload, catalog, config) {
                    let p = choose|p: int|
                        0 <= p < kept.len() && !is_not_primary(
                            #[trigger] kept[p],
                            workload,
                            catalog,
                            config,
                        );
                    if p < before.len() {
                        assert(kept[p] == before[p]);
                        assert(primary_seen(before, before.len() as int, workload, catalog, config));
                    }
                }
                if seen_before {
                    let p = choose|p: int|
                        0 <= p < before.len() && !is_not_primary(
                            #[trigger] before[p],
                            workload,
                            catalog,
                            config,
                        );
                    assert(kept[p] == before[p]);
                }
                if !auxiliary {
                    assert(kept[kept.len() - 1] == last);
                }
            }
        }
    }
}

/// Nothing is found among the containers that stay after remediation.
pub proof fn lemma_kept_is_clean(
    cs: Seq<ContainerView>,
    workload: Seq<char>,
    catalog: Seq<KnownImageView>,
    config: ConfigView,
)
    ensures
        ({
            let kept = kept_upto(cs, cs.len() as int, workload, catalog, config);
            smells_upto(kept, kept.len() as int, workload, catalog, config) == Seq::<
                SmellView,
            >::empty()
        }),
{
    let kept = kept_upto(cs, cs.len() as int, workload, catalog, config);
    lemma_kept_holds_one_primary(cs, cs.len() as int, workload, catalog, config);
    lemma_no_unclassified_no_smell(kept, kept.len() as int, workload, catalog, config);
}

/// Each Pod that remediation makes holds one of the containers alone.
pub proof fn lemma_pods_hold_one_container(
    cs: Seq<ContainerView>,
    n: int,
    workload: Seq<char>,
    catalog: Seq<KnownImageView>,
    config: ConfigView,
)
    requires
        0 <= n <= cs.len(),
    ensures
        forall|k: int|
            0 <= k < pods_upto(cs, n, workload, catalog, config).len() ==> exists|j: int|
                0 <= j < n && #[trigger] pods_upto(cs, n, workload, catalog, config)[k] == pod_from(
                    cs[j],
                ),
    decreases n,
{
    if n > 0 {
        lemma_pods_hold_one_container(cs, n - 1, workload, catalog, config);
        let before = pods_upto(cs, n - 1, workload, catalog, config);
        let pods = pods_upto(cs, n, workload, catalog, config);
        assert forall|k: int| 0 <= k < pods.len() implies exists|j: int|
            0 <= j < n && #[trigger] pods[k] == pod_from(cs[j]) by {
            if k < before.len() {
                let j = choose|j: int| 0 <= j < n - 1 && before[k] == pod_from(cs[j]);
                assert(0 <= j < n && pods[k] == pod_from(cs[j]));
            } else {
                assert(pods[k] == pod_from(cs[n - 1]));
            }
        }
    }
}

/// Nothing is found in a Pod that holds one container alone.
pub proof fn lemma_single_pod_is_clean(
    c: ContainerView,
    catalog: Seq<KnownImageView>,
    config: ConfigView,
    remediate: bool,
)
    ensures
        independence_of(pod_from(c).manifest, catalog, config, remediate) == (OutcomeView {
            smells: Seq::empty(),
            updated: Seq::empty(),
            created: Seq::empty(),
        }),
{
    let m = pod_from(c).manifest;
    let cs = seq![c];
    assert(workload_containers(m) == Some(cs));
    assert(!primary_seen(cs, 0, m.metadata.name, catalog, config));
    reveal_with_fuel(smells_upto, 2);
    assert(smells_upto(cs, 1, m.metadata.name, catalog, config) =~= Seq::<SmellView>::empty());
}

/// Remediation settles a workload: a second run of the rule, on the
/// workload as remediation left it and on each Pod that remediation made,
/// finds nothing.
pub proof fn lemma_remediation_settles(
    m: K8SManifestView,
    catalog: Seq<KnownImageView>,
    config: ConfigView,
    again: bool,
)
    ensures
        ({
            let first = independence_of(m, catalog, config, true);
            &&& forall|k: int|
                0 <= k < first.updated.len() ==> independence_of(
                    (#[trigger] first.updated[k]).manifest,
                    catalog,
                    config,
                    again,
                ).smells.len() == 0
            &&& forall|k: int|
                0 <= k < first.created.len() ==> independence_of(
                    (#[trigger] first.created[k]).manifest,
                    catalog,
                    config,
                    again,
                ).smells.len() == 0
        }),
{
    let first = independence_of(m, catalog, config, true);
    match workload_containers(m) {
        None => {},
        Some(cs) => {
            let name = m.metadata.name;
            let kept = kept_upto(cs, cs.len() as int, name, catalog, config);
            if first.updated.len() > 0 {
                let after = with_containers(m, kept);
                assert(first.updated[0].manifest == after);
                assert(workload_containers(after) == Some(kept));
                lemma_kept_is_clean(cs, name, catalog, config);
            }
            lemma_pods_hold_one_container(cs, cs.len() as int, name, catalog, config);
            assert forall|k: int| 0 <= k < first.created.len() implies independence_of(
                (#[trigger] first.created[k]).manifest,
                catalog,
                config,
                again,
            ).smells.len() == 0 by {
                let pods = pods_upto(cs, cs.len() as int, name, catalog, config);
                let j = choose|j: int| 0 <= j < cs.len() && pods[k] == pod_from(cs[j]);
                lemma_single_pod_is_clean(cs[j], catalog, config, again);
            }
        },
    }
}

/// Each container that stays is one of the first `n`, and where no two of
/// these have the same name, no two of those that stay have.
pub proof fn lemma_kept_names_stay_distinct(
    cs: Seq<ContainerView>,
    n: int,
    workload: Seq<char>,
    catalog: Seq<KnownImageView>,
    config: ConfigView,
)
    requires
        0 <= n <= cs.len(),
        has_distinct_names(cs),
    ensures
        has_distinct_names(kept_upto(cs, n, workload, catalog, config)),
        forall|k: int|
            0 <= k < kept_upto(cs, n, workload, catalog, config).len() ==> exists|j: int|
                0 <= j < n && #[trigger] kept_upto(cs, n, workload, catalog, config)[k] == cs[j],
    decreases n,
{
    if n > 0 {
        lemma_kept_names_stay_distinct(cs, n - 1, workload, catalog, config);
        let before = kept_upto(cs, n - 1, workload, catalog, config);
        let kept = kept_upto(cs, n, workload, catalog, config);
        assert forall|k: int| 0 <= k < kept.len() implies exists|j: int|
            0 <= j < n && #[trigger] kept[k] == cs[j] by {
            if k < before.len() {
                let j = choose|j: int| 0 <= j < n - 1 && before[k] == cs[j];
                assert(0 <= j < n && kept[k] == cs[j]);
            } else {
                assert(kept[k] == cs[n - 1]);
            }
        }
        assert forall|i: int, j: int| 0 <= i < j < kept.len() implies kept[i].name
            != kept[j].name by {
            if j == before.len() {
                let p = choose|p: int| 0 <= p < n - 1 && before[i] == cs[p];
                assert(kept[i] == cs[p]);
                assert(kept[j] == cs[n - 1]);
            } else {
                assert(kept[i] == before[i] && kept[j] == before[j]);
            }
        }
    }
}

/// Remediation leaves the containers of each descriptor in one place: what
/// it proposes for a workload whose containers stand in one place holds
/// its containers in one place too.
pub proof fn lemma_remediation_keeps_one_list(
    m: K8SManifestView,
    catalog: Seq<KnownImageView>,
    config: ConfigView,
    remediate: bool,
)
    requires
        has_one_container_list(m),
    ensures
        ({
            let out = independence_of(m, catalog, config, remediate);
            &&& forall|k: int|
                0 <= k < out.updated.len() ==> has_one_container_list(
                    (#[trigger] out.updated[k]).manifest,
                )
            &&& forall|k: int|
                0 <= k < out.created.len() ==> has_one_container_list(
                    (#[trigger] out.created[k]).manifest,
                )
        }),
{
    let out = independence_of(m, catalog, config, remediate);
    match workload_containers(m) {
        None => {},
        Some(cs) => {
            let name = m.metadata.name;
            lemma_with_containers_keeps_one_list(
                m,
                kept_upto(cs, cs.len() as int, name, catalog, config),
            );
            lemma_pods_hold_one_container(cs, cs.len() as int, name, catalog, config);
            assert forall|k: int| 0 <= k < out.created.len() implies has_one_container_list(
                (#[trigger] out.created[k]).manifest,
            ) by {
                let pods = pods_upto(cs, cs.len() as int, name, catalog, config);
                let j = choose|j: int| 0 <= j < cs.len() && pods[k] == pod_from(cs[j]);
                lemma_made_manifests_have_one_list(name, cs[j]);
            }
        },
    }
}

/// A run that finds nothing proposes nothing: no descriptor is written,
/// and the containers of each workload stay as they are.
pub proof fn lemma_clean_run_changes_nothing(
    m: K8SManifestView,
    catalog: Seq<KnownImageView>,
    config: ConfigView,
    remediate: bool,
)
    requires
        independence_of(m, catalog, config, remediate).smells.len() == 0,
    ensures
        independence_of(m, catalog, config, remediate) == OutcomeView::empty(),
        workload_containers(m) matches Some(cs) ==> kept_upto(
            cs,
            cs.len() as int,
            m.metadata.name,
            catalog,
            config,
        ) == cs,
{
    match workload_containers(m) {
        None => {},
        Some(cs) => {
            lemma_no_smell_no_pod(cs, cs.len() as int, m.metadata.name, catalog, config);
            assert(cs.take(cs.len() as int) =~= cs);
            assert(independence_of(m, catalog, config, remediate).smells =~= Seq::empty());
        },
    }
}

} // verus!
