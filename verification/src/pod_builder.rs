//! Weavers as pods: the pod that shows a weaver, the id in a pod's name, and
//! label selectors.
use crate::config::{find_label, map_value};
use crate::path::lemma_split_without;
use crate::pod::{
    Container, ContainerStatus, ContainerStatusView, ContainerView, ObjectMeta, ObjectMetaView,
    Pod, PodSpec, PodSpecView, PodStatus, PodStatusView, PodView,
};
use crate::text::{
    decimal, decimal_text, law_split_at_the_first, law_split_joined,
    law_unseparated_text_is_one_piece, same_text, split_on, split_once, split_once_text,
    split_text, strip_prefix, strip_prefix_text,
};
use crate::text_map::LabelMap;
use crate::weaver::{law_phases_differ, LocalWeaver, MetadataView, WeaverStatus, WeaverView};
use vstd::prelude::*;
use vstd::string::*;

verus! {

/// The labels of the pod that shows a weaver: those that it was created with,
/// and those by which it is recognised.
pub open spec fn pod_labels(metadata: MetadataView) -> Map<Seq<char>, Seq<char>> {
    let owner = match map_value(metadata.labels, "loom.dev/owner-user-id"@) {
        Some(owner) => owner,
        None => Seq::empty(),
    };
    metadata.labels.insert("loom.dev/managed"@, "true"@).insert(
        "loom.dev/weaver-id"@,
        metadata.id,
    ).insert("loom.dev/owner-user-id"@, owner)
}

/// The annotations of the pod that shows a weaver.
pub open spec fn pod_annotations(metadata: MetadataView) -> Map<Seq<char>, Seq<char>> {
    let lifetime = match metadata.ttl_hours {
        Some(hours) => decimal(hours as nat),
        None => "4"@,
    };
    let always = Map::<Seq<char>, Seq<char>>::empty().insert("loom.dev/tags"@, "{}"@).insert(
        "loom.dev/lifetime-hours"@,
        lifetime,
    );
    if metadata.working_dir.len() == 0 {
        always
    } else {
        always.insert("loom.dev/working-dir"@, metadata.working_dir)
    }
}

/// The pod that shows a weaver.
pub open spec fn weaver_pod(weaver: WeaverView) -> PodView {
    let running = weaver.status == WeaverStatus::Running;
    PodView {
        metadata: ObjectMetaView {
            name: Some(weaver.metadata.name),
            namespace: Some("local"@),
            labels: Some(pod_labels(weaver.metadata)),
            annotations: Some(pod_annotations(weaver.metadata)),
            creation_timestamp: Some(weaver.metadata.created_at),
        },
        spec: Some(
            PodSpecView {
                containers: seq![
                    ContainerView { name: "loom"@, image: Some(weaver.metadata.image), env: None },
                ],
            },
        ),
        status: Some(
            PodStatusView {
                phase: Some(weaver.status.phase()),
                container_statuses: Some(
                    seq![
                        ContainerStatusView { name: "loom"@, ready: running, started: Some(running) },
                    ],
                ),
            },
        ),
    }
}

/// The labels of the pod that shows a weaver.
pub fn labels_of(weaver: &LocalWeaver) -> (labels: LabelMap)
    ensures
        labels@ == pod_labels(weaver@.metadata),
{
    let mut labels = weaver.metadata.labels.clone();
    labels.insert("loom.dev/managed".to_owned(), "true".to_owned());
    labels.insert("loom.dev/weaver-id".to_owned(), weaver.metadata.id.clone());
    let owner = match find_label(&weaver.metadata.labels, "loom.dev/owner-user-id") {
        Some(owner) => owner,
        None => String::new(),
    };
    labels.insert("loom.dev/owner-user-id".to_owned(), owner);
    labels
}

fn annotations_of(weaver: &LocalWeaver) -> (annotations: LabelMap)
    ensures
        annotations@ == pod_annotations(weaver@.metadata),
{
    let mut annotations: LabelMap = LabelMap::new();
    annotations.insert("loom.dev/tags".to_owned(), "{}".to_owned());
    let lifetime = match weaver.metadata.ttl_hours {
        Some(hours) => decimal_text(hours),
        None => "4".to_owned(),
    };
    annotations.insert("loom.dev/lifetime-hours".to_owned(), lifetime);
    if !weaver.metadata.working_dir.as_str().is_empty() {
        annotations.insert(
            "loom.dev/working-dir".to_owned(),
            weaver.metadata.working_dir.clone(),
        );
    }
    annotations
}

/// The pod that shows a weaver.
pub fn local_weaver_to_pod(weaver: &LocalWeaver) -> (pod: Pod)
    ensures
        pod@ == weaver_pod(weaver@),
{
    let running = weaver.status == WeaverStatus::Running;
    let mut containers: Vec<Container> = Vec::new();
    containers.push(
        Container { name: "loom".to_owned(), image: Some(weaver.metadata.image.clone()), env: None },
    );
    let mut container_statuses: Vec<ContainerStatus> = Vec::new();
    container_statuses.push(
        ContainerStatus { name: "loom".to_owned(), ready: running, started: Some(running) },
    );
    let pod = Pod {
        metadata: ObjectMeta {
            name: Some(weaver.metadata.name.clone()),
            namespace: Some("local".to_owned()),
            labels: Some(labels_of(weaver)),
            annotations: Some(annotations_of(weaver)),
            creation_timestamp: Some(weaver.metadata.created_at),
        },
        spec: Some(PodSpec { containers }),
        status: Some(
            PodStatus {
                phase: Some(weaver.status.to_phase().to_owned()),
                container_statuses: Some(container_statuses),
            },
        ),
    };
    assert(containers.deep_view() =~= weaver_pod(weaver@).spec->0.containers);
    assert(container_statuses.deep_view()
        =~= weaver_pod(weaver@).status->0.container_statuses->0);
    pod
}

/// The id in the name of a pod.
pub open spec fn weaver_id(pod_name: Seq<char>) -> Option<Seq<char>> {
    strip_prefix(pod_name, "weaver-"@)
}

/// The id in the name of a pod.
pub fn parse_weaver_id(pod_name: &str) -> (id: Option<String>)
    ensures
        id.deep_view() == weaver_id(pod_name@),
{
    strip_prefix_text(pod_name, "weaver-")
}

/// Whether labels meet one part of a selector. The part `key=value` asks for a
/// label with that value, key and value taken as they are written. A part without
/// `=` asks for nothing.
pub open spec fn part_matches(labels: Map<Seq<char>, Seq<char>>, part: Seq<char>) -> bool {
    match split_once(part, '=') {
        Some((key, value)) => map_value(labels, key) == Some(value),
        None => true,
    }
}

/// Whether labels meet every part of a selector.
pub open spec fn selector_matches(
    labels: Map<Seq<char>, Seq<char>>,
    selector: Seq<char>,
) -> bool {
    let parts = split_on(selector, ',');
    forall|i: int| 0 <= i < parts.len() ==> part_matches(labels, #[trigger] parts[i])
}

fn matches_part(labels: &LabelMap, part: &str) -> (matches: bool)
    ensures
        matches == part_matches(labels@, part@),
{
    match split_once_text(part, '=') {
        Some((key, value)) => match labels.get(key.as_str()) {
            Some(label_value) => same_text(label_value.as_str(), value.as_str()),
            None => false,
        },
        None => true,
    }
}

/// Whether labels meet a selector.
pub fn matches_selector(labels: &LabelMap, selector: &str) -> (matches: bool)
    ensures
        matches == selector_matches(labels@, selector@),
{
    let parts = split_text(selector, ',');
    let ghost all = split_on(selector@, ',');
    let mut i: usize = 0;
    while i < parts.len()
        invariant
            i <= parts@.len(),
            all == split_on(selector@, ','),
            parts.deep_view() == all,
            forall|j: int| 0 <= j < i ==> part_matches(labels@, #[trigger] all[j]),
        decreases parts@.len() - i,
    {
        assert(all[i as int] == parts@[i as int]@);
        if !matches_part(labels, parts[i].as_str()) {
            return false;
        }
        i = i + 1;
    }
    true
}

/// The empty selector selects everything.
pub proof fn law_empty_selector_selects_all(labels: Map<Seq<char>, Seq<char>>)
    ensures
        selector_matches(labels, Seq::empty()),
{
    let parts = split_on(Seq::<char>::empty(), ',');
    assert(parts =~= seq![Seq::<char>::empty()]);
    assert forall|i: int| 0 <= i < parts.len() implies part_matches(
        labels,
        #[trigger] parts[i],
    ) by {
        parts[i].index_of_first_ensures('=');
        assert(!parts[i].contains('='));
    }
}

/// Two selectors joined by a comma select what both of them select.
pub proof fn law_comma_means_and(
    labels: Map<Seq<char>, Seq<char>>,
    a: Seq<char>,
    b: Seq<char>,
)
    ensures
        selector_matches(labels, a.push(',') + b) <==> selector_matches(labels, a)
            && selector_matches(labels, b),
{
    law_split_joined(a, b, ',');
    let parts_a = split_on(a, ',');
    let parts_b = split_on(b, ',');
    let parts = parts_a + parts_b;
    if selector_matches(labels, a.push(',') + b) {
        assert forall|i: int| 0 <= i < parts_a.len() implies part_matches(
            labels,
            #[trigger] parts_a[i],
        ) by {
            assert(parts[i] == parts_a[i]);
        }
        assert forall|i: int| 0 <= i < parts_b.len() implies part_matches(
            labels,
            #[trigger] parts_b[i],
        ) by {
            assert(parts[parts_a.len() + i] == parts_b[i]);
        }
    }
    if selector_matches(labels, a) && selector_matches(labels, b) {
        assert forall|i: int| 0 <= i < parts.len() implies part_matches(
            labels,
            #[trigger] parts[i],
        ) by {
            if i < parts_a.len() {
                assert(parts[i] == parts_a[i]);
            } else {
                assert(parts[i] == parts_b[i - parts_a.len()]);
            }
        }
    }
}

/// The name of a weaver's pod leads back to the weaver, and only such names do.
pub proof fn law_pod_name_and_id_correspond(pod_name: Seq<char>, id: Seq<char>)
    ensures
        weaver_id(pod_name) == Some(id) <==> pod_name == "weaver-"@ + id,
{
    let prefix = "weaver-"@;
    if weaver_id(pod_name) == Some(id) {
        assert(pod_name =~= prefix + pod_name.skip(prefix.len() as int));
    }
    if pod_name == prefix + id {
        assert(prefix =~= pod_name.subrange(0, prefix.len() as int));
        assert(pod_name.skip(prefix.len() as int) =~= id);
    }
}

/// The pod of a weaver carries the labels by which weavers are found and told
/// apart, keeps every other label that the weaver was created with, and names
/// the owner that those labels name, or none.
pub proof fn law_pod_labels(metadata: MetadataView)
    ensures
        pod_labels(metadata).contains_pair("loom.dev/managed"@, "true"@),
        pod_labels(metadata).contains_pair("loom.dev/weaver-id"@, metadata.id),
        pod_labels(metadata).contains_key("loom.dev/owner-user-id"@),
        metadata.labels.contains_key("loom.dev/owner-user-id"@) ==> pod_labels(
            metadata,
        )["loom.dev/owner-user-id"@] == metadata.labels["loom.dev/owner-user-id"@],
        !metadata.labels.contains_key("loom.dev/owner-user-id"@) ==> pod_labels(
            metadata,
        )["loom.dev/owner-user-id"@].len() == 0,
        forall|key: Seq<char>| #[trigger]
            metadata.labels.contains_key(key) && key != "loom.dev/managed"@ && key
                != "loom.dev/weaver-id"@ ==> pod_labels(metadata).contains_pair(
                key,
                metadata.labels[key],
            ),
{
    lemma_label_names_differ();
}

proof fn lemma_label_names_differ()
    ensures
        "loom.dev/managed"@ != "loom.dev/weaver-id"@,
        "loom.dev/managed"@ != "loom.dev/owner-user-id"@,
        "loom.dev/weaver-id"@ != "loom.dev/owner-user-id"@,
{
    reveal_strlit("loom.dev/managed");
    reveal_strlit("loom.dev/weaver-id");
    reveal_strlit("loom.dev/owner-user-id");
    assert("loom.dev/managed"@[9] == 'm');
    assert("loom.dev/weaver-id"@[9] == 'w');
    assert("loom.dev/owner-user-id"@[9] == 'o');
}

/// Every weaver is selected by `loom.dev/managed=true`.
pub proof fn law_every_weaver_is_managed(metadata: MetadataView)
    ensures
        selector_matches(pod_labels(metadata), "loom.dev/managed=true"@),
{
    law_pod_labels(metadata);
    reveal_strlit("loom.dev/managed=true");
    reveal_strlit("loom.dev/managed");
    reveal_strlit("true");
    let selector = "loom.dev/managed=true"@;
    let labels = pod_labels(metadata);
    assert forall|i: int| 0 <= i < selector.len() implies selector[i] != ',' by {}
    lemma_split_without(selector, ',');
    let key = "loom.dev/managed"@;
    let value = "true"@;
    selector.index_of_first_ensures('=');
    assert(selector[16] == '=');
    assert(selector.contains('='));
    assert forall|j: int| 0 <= j < 16 implies selector[j] != '=' by {}
    assert(selector.index_of_first('=') == Some(16int));
    assert(selector.take(16) =~= key);
    assert(selector.skip(17) =~= value);
}

/// A pod is ready exactly when its phase is `Running`.
pub proof fn law_ready_means_running(weaver: WeaverView)
    ensures
        weaver_pod(weaver).status->0.container_statuses->0[0].ready <==> weaver_pod(
            weaver,
        ).status->0.phase == Some("Running"@),
{
    if weaver.status.phase() == "Running"@ {
        law_phases_differ(weaver.status, WeaverStatus::Running);
    }
}

/// A part `key=value` selects exactly the labels that pair that key with that value;
/// a part without `=` selects all.
pub proof fn law_selector_asks_for_the_value(
    labels: Map<Seq<char>, Seq<char>>,
    key: Seq<char>,
    value: Seq<char>,
)
    requires
        !key.contains(',') && !key.contains('='),
        !value.contains(','),
    ensures
        selector_matches(labels, key + "="@ + value) <==> labels.contains_key(key) && labels[key]
            == value,
        selector_matches(labels, key),
{
    reveal_strlit("=");
    let selector = key + "="@ + value;
    assert(selector =~= key.push('=') + value);
    assert forall|i: int| 0 <= i < selector.len() implies selector[i] != ',' by {
        if i < key.len() {
            assert(selector[i] == key[i]);
        } else if i > key.len() {
            assert(selector[i] == value[i - key.len() - 1]);
        }
    }
    assert(!selector.contains(','));
    law_unseparated_text_is_one_piece(selector, ',');
    law_split_at_the_first(selector, '=', key, value);
    assert(split_on(selector, ',')[0] == selector);
    law_unseparated_text_is_one_piece(key, ',');
    law_split_at_the_first(key, '=', key, value);
    assert(split_on(key, ',')[0] == key);
}

/// The annotations of a weaver's pod: no tags, its lifetime in hours or four, and
/// the directory that it works in where its record names one; and no others.
pub proof fn law_pod_annotations(metadata: MetadataView)
    ensures
        ({
            let annotations = pod_annotations(metadata);
            &&& annotations.contains_pair("loom.dev/tags"@, "{}"@)
            &&& metadata.ttl_hours matches Some(hours) ==> annotations.contains_pair(
                "loom.dev/lifetime-hours"@,
                decimal(hours as nat),
            )
            &&& metadata.ttl_hours is None ==> annotations.contains_pair(
                "loom.dev/lifetime-hours"@,
                "4"@,
            )
            &&& annotations.contains_key("loom.dev/working-dir"@) <==> metadata.working_dir.len()
                > 0
            &&& metadata.working_dir.len() > 0 ==> annotations["loom.dev/working-dir"@]
                == metadata.working_dir
            &&& forall|key: Seq<char>| #[trigger]
                annotations.contains_key(key) ==> key == "loom.dev/tags"@ || key
                    == "loom.dev/lifetime-hours"@ || key == "loom.dev/working-dir"@
        }),
{
    reveal_strlit("loom.dev/tags");
    reveal_strlit("loom.dev/lifetime-hours");
    reveal_strlit("loom.dev/working-dir");
    assert("loom.dev/tags"@[9] == 't');
    assert("loom.dev/lifetime-hours"@[9] == 'l');
    assert("loom.dev/working-dir"@[9] == 'w');
}

/// No label is made up: each label of a weaver's pod is one that the weaver was
/// created with, or one of the three by which it is recognised.
pub proof fn law_no_label_is_made_up(metadata: MetadataView, key: Seq<char>)
    requires
        pod_labels(metadata).contains_key(key),
    ensures
        metadata.labels.contains_key(key) || key == "loom.dev/managed"@ || key
            == "loom.dev/weaver-id"@ || key == "loom.dev/owner-user-id"@,
{
}

/// The pod of a weaver has its name, its image in one container called `loom`, the
/// time at which it was created, and its phase; and is ready and started while it
/// runs.
pub proof fn law_pod_shows_the_record(weaver: WeaverView)
    ensures
        ({
            let pod = weaver_pod(weaver);
            let running = weaver.status == WeaverStatus::Running;
            &&& pod.metadata.name == Some(weaver.metadata.name)
            &&& pod.metadata.namespace == Some("local"@)
            &&& pod.metadata.labels == Some(pod_labels(weaver.metadata))
            &&& pod.metadata.annotations == Some(pod_annotations(weaver.metadata))
            &&& pod.metadata.creation_timestamp == Some(weaver.metadata.created_at)
            &&& pod.spec is Some && pod.spec->0.containers.len() == 1
            &&& pod.spec->0.containers[0].name == "loom"@
            &&& pod.spec->0.containers[0].image == Some(weaver.metadata.image)
            &&& pod.spec->0.containers[0].env is None
            &&& pod.status is Some
            &&& pod.status->0.phase == Some(
                match weaver.status {
                    WeaverStatus::Running => "Running"@,
                    WeaverStatus::Succeeded => "Succeeded"@,
                    WeaverStatus::Failed => "Failed"@,
                    WeaverStatus::Unknown => "Unknown"@,
                },
            )
            &&& pod.status->0.container_statuses is Some
            &&& pod.status->0.container_statuses->0.len() == 1
            &&& pod.status->0.container_statuses->0[0].name == "loom"@
            &&& pod.status->0.container_statuses->0[0].ready == running
            &&& pod.status->0.container_statuses->0[0].started == Some(running)
        }),
{
}

} // verus!
