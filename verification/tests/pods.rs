use loom_server_local::client::LocalClient;
use loom_server_local::pod::{Container, EnvVar, ObjectMeta, Pod, PodSpec};
use loom_server_local::pod_builder::{
    labels_of, local_weaver_to_pod, matches_selector, parse_weaver_id,
};
use loom_server_local::text_map::LabelMap;
use loom_server_local::time::Timestamp;
use loom_server_local::{LocalWeaver, WeaverMetadata, WeaverStatus};

fn labels(pairs: &[(&str, &str)]) -> LabelMap {
    let mut labels = LabelMap::new();
    for (key, value) in pairs {
        labels.insert(key.to_string(), value.to_string());
    }
    labels
}

fn weaver(given: &[(&str, &str)], working_dir: &str, status: WeaverStatus) -> LocalWeaver {
    let metadata = WeaverMetadata::created(
        "abc".to_string(),
        "img:1".to_string(),
        labels(given),
        working_dir.to_string(),
        Timestamp { secs: 1_700_000_000, nanos: 5 },
    );
    LocalWeaver { metadata, status, dir: working_dir.to_string() }
}

fn label(pod: &Pod, key: &str) -> Option<String> {
    pod.metadata.labels.as_ref().and_then(|labels| labels.get(key).cloned())
}

fn annotation(pod: &Pod, key: &str) -> Option<String> {
    pod.metadata.annotations.as_ref().and_then(|map| map.get(key).cloned())
}

#[test]
fn test_parse_weaver_id() {
    assert_eq!(parse_weaver_id("weaver-abc123"), Some("abc123".to_string()));
    assert_eq!(parse_weaver_id("not-a-weaver"), None);
    assert_eq!(parse_weaver_id("weaver-"), Some("".to_string()));
}

#[test]
fn test_matches_selector_empty() {
    let labels = LabelMap::new();
    assert!(matches_selector(&labels, ""));
}

#[test]
fn test_matches_selector_single() {
    let mut labels = LabelMap::new();
    labels.insert("app".to_string(), "loom".to_string());

    assert!(matches_selector(&labels, "app=loom"));
    assert!(!matches_selector(&labels, "app=other"));
    assert!(!matches_selector(&labels, "missing=value"));
}

#[test]
fn test_matches_selector_multiple() {
    let mut labels = LabelMap::new();
    labels.insert("app".to_string(), "loom".to_string());
    labels.insert("env".to_string(), "dev".to_string());

    assert!(matches_selector(&labels, "app=loom,env=dev"));
    assert!(!matches_selector(&labels, "app=loom,env=prod"));
}

#[test]
fn selector_parts_are_taken_as_written_and_parts_without_a_value_ask_for_nothing() {
    let labels = labels(&[("app", "loom"), ("env", "a=b")]);
    assert!(matches_selector(&labels, "app=loom,,env=a=b,"));
    assert!(!matches_selector(&labels, "app = loom"));
    assert!(!matches_selector(&labels, " app=loom"));
    assert!(!matches_selector(&labels, "app=loom "));
    assert!(matches_selector(&labels, "app"));
    assert!(matches_selector(&labels, "owner"));
    assert!(matches_selector(&labels, " "));
    assert!(!matches_selector(&labels, "app="));
    assert!(!matches_selector(&labels, "=loom"));
}

#[test]
fn comma_selects_what_both_parts_select() {
    let labels = labels(&[("app", "loom"), ("env", "dev")]);
    for a in ["app=loom", "app=x", "", "env"] {
        for b in ["env=dev", "env=y", "missing"] {
            let both = format!("{a},{b}");
            assert_eq!(
                matches_selector(&labels, &both),
                matches_selector(&labels, a) && matches_selector(&labels, b)
            );
        }
    }
}

#[test]
fn pod_shows_every_required_field() {
    let pod = local_weaver_to_pod(&weaver(&[("team", "core")], "/work", WeaverStatus::Running));
    assert_eq!(pod.metadata.name.as_deref(), Some("weaver-abc"));
    assert_eq!(pod.metadata.namespace.as_deref(), Some("local"));
    assert_eq!(label(&pod, "loom.dev/managed").as_deref(), Some("true"));
    assert_eq!(label(&pod, "loom.dev/weaver-id").as_deref(), Some("abc"));
    assert_eq!(label(&pod, "loom.dev/owner-user-id").as_deref(), Some(""));
    assert_eq!(label(&pod, "team").as_deref(), Some("core"));
    assert_eq!(annotation(&pod, "loom.dev/tags").as_deref(), Some("{}"));
    assert_eq!(annotation(&pod, "loom.dev/lifetime-hours").as_deref(), Some("4"));
    assert_eq!(annotation(&pod, "loom.dev/working-dir").as_deref(), Some("/work"));
    assert_eq!(
        pod.metadata.creation_timestamp,
        Some(Timestamp { secs: 1_700_000_000, nanos: 5 })
    );
    let spec = pod.spec.unwrap();
    assert_eq!(spec.containers.len(), 1);
    assert_eq!(spec.containers[0].name, "loom");
    assert_eq!(spec.containers[0].image.as_deref(), Some("img:1"));
    assert!(spec.containers[0].env.is_none());
    let status = pod.status.unwrap();
    assert_eq!(status.phase.as_deref(), Some("Running"));
    let containers = status.container_statuses.unwrap();
    assert_eq!(containers.len(), 1);
    assert_eq!(containers[0].name, "loom");
    assert!(containers[0].ready);
    assert_eq!(containers[0].started, Some(true));
}

#[test]
fn pod_is_ready_only_while_running() {
    for status in [WeaverStatus::Succeeded, WeaverStatus::Failed, WeaverStatus::Unknown] {
        let pod = local_weaver_to_pod(&weaver(&[], "/work", status));
        let shown = pod.status.unwrap();
        assert_eq!(shown.phase.as_deref(), Some(status.to_phase()));
        let containers = shown.container_statuses.unwrap();
        assert!(!containers[0].ready);
        assert_eq!(containers[0].started, Some(false));
    }
}

#[test]
fn pod_names_the_owner_and_the_lifetime() {
    let given = [
        ("loom.dev/owner-user-id", "u1"),
        ("loom.dev/managed", "no"),
        ("loom.dev/weaver-id", "other"),
    ];
    let mut old = weaver(&given, "", WeaverStatus::Running);
    old.metadata = old.metadata.with_ttl(12);
    let pod = local_weaver_to_pod(&old);
    assert_eq!(label(&pod, "loom.dev/owner-user-id").as_deref(), Some("u1"));
    assert_eq!(label(&pod, "loom.dev/managed").as_deref(), Some("true"));
    assert_eq!(label(&pod, "loom.dev/weaver-id").as_deref(), Some("abc"));
    assert_eq!(annotation(&pod, "loom.dev/lifetime-hours").as_deref(), Some("12"));
    assert_eq!(annotation(&pod, "loom.dev/working-dir"), None);
}

#[test]
fn every_weaver_is_managed() {
    let shown = labels_of(&weaver(&[], "/work", WeaverStatus::Failed));
    assert!(matches_selector(&shown, "loom.dev/managed=true"));
}

fn requested(name: Option<&str>, given: Option<LabelMap>, containers: Option<Vec<Container>>) -> Pod {
    Pod {
        metadata: ObjectMeta {
            name: name.map(str::to_string),
            namespace: None,
            labels: given,
            annotations: None,
            creation_timestamp: None,
        },
        spec: containers.map(|containers| PodSpec { containers }),
        status: None,
    }
}

fn container(image: Option<&str>, env: Option<Vec<EnvVar>>) -> Container {
    Container { name: "c".to_string(), image: image.map(str::to_string), env }
}

#[test]
fn id_comes_from_the_label_or_else_from_the_name() {
    let by_label = requested(Some("weaver-a"), Some(labels(&[("loom.dev/weaver-id", "b")])), None);
    assert_eq!(LocalClient::extract_weaver_id_from_pod(&by_label), Some("b".to_string()));
    let by_name = requested(Some("weaver-a"), Some(labels(&[("x", "y")])), None);
    assert_eq!(LocalClient::extract_weaver_id_from_pod(&by_name), Some("a".to_string()));
    assert_eq!(LocalClient::extract_weaver_id_from_pod(&requested(Some("pod"), None, None)), None);
    assert_eq!(LocalClient::extract_weaver_id_from_pod(&requested(None, None, None)), None);
}

#[test]
fn labels_come_with_a_container() {
    let given = || Some(labels(&[("x", "y")]));
    let bare = requested(None, given(), None);
    assert!(LocalClient::extract_labels_from_pod(&bare).get("x").is_none());
    let empty = requested(None, given(), Some(vec![]));
    assert!(LocalClient::extract_labels_from_pod(&empty).get("x").is_none());
    let full = requested(None, given(), Some(vec![container(None, None)]));
    assert_eq!(LocalClient::extract_labels_from_pod(&full).get("x").map(String::as_str), Some("y"));
}

#[test]
fn image_and_environment_come_from_the_first_container() {
    let env = vec![
        EnvVar { name: "A".to_string(), value: Some("1".to_string()) },
        EnvVar { name: "B".to_string(), value: None },
        EnvVar { name: "A".to_string(), value: Some("2".to_string()) },
    ];
    let pod = requested(
        None,
        None,
        Some(vec![container(Some("first"), Some(env)), container(Some("second"), None)]),
    );
    assert_eq!(LocalClient::extract_image_from_pod(&pod), "first");
    assert_eq!(
        LocalClient::extract_env_vars_from_pod(&pod),
        vec![("A".to_string(), "1".to_string()), ("A".to_string(), "2".to_string())]
    );
    let bare = requested(None, None, None);
    assert_eq!(LocalClient::extract_image_from_pod(&bare), "loom:latest");
    assert!(LocalClient::extract_env_vars_from_pod(&bare).is_empty());
    assert!(LocalClient::extract_annotations_from_pod(&bare).entries().is_empty());
}

#[test]
fn annotations_are_taken_as_they_are() {
    let mut pod = requested(None, None, None);
    pod.metadata.annotations = Some(labels(&[("loom.dev/working-dir", "/w")]));
    let annotations = LocalClient::extract_annotations_from_pod(&pod);
    assert_eq!(annotations.get("loom.dev/working-dir").map(String::as_str), Some("/w"));
}

#[test]
fn map_keeps_one_value_per_key() {
    let mut map = labels(&[("a", "1"), ("b", "2"), ("c", "3")]);
    map.insert("b".to_string(), "4".to_string());
    assert_eq!(map.entries().len(), 3);
    assert_eq!(map.get("b").map(String::as_str), Some("4"));
    map.remove("a");
    assert!(!map.contains_key("a"));
    assert_eq!(map.entries().len(), 2);
    assert_eq!(map.get("c").map(String::as_str), Some("3"));
    map.remove("a");
    assert_eq!(map.entries().len(), 2);
    let copy = map.clone();
    map.remove("c");
    assert_eq!(copy.get("c").map(String::as_str), Some("3"));
}
