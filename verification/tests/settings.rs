use loom_server_local::config::{find_env, find_label};
use loom_server_local::error::K8sError;
use loom_server_local::path::is_same_path;
use loom_server_local::text_map::LabelMap;
use loom_server_local::{LocalConfig, LocalError};

fn config() -> LocalConfig {
    LocalConfig::new("http://s".to_string(), Some("/base".to_string()), None)
}

#[test]
fn base_directory_comes_from_the_first_source_given() {
    let url = || "http://s".to_string();
    assert_eq!(config().base_dir, "/base");
    let home = Some("/home/u".to_string());
    assert_eq!(LocalConfig::new(url(), None, home).base_dir, "/home/u/loom-weavers");
    let neither = LocalConfig::new(url(), None, None);
    assert_eq!(neither.base_dir, "/tmp/loom-weavers");
    assert_eq!(neither.default_image, "loom:latest");
    assert_eq!(neither.server_url, "http://s");
    assert_eq!(neither.loom_command, "loom");
}

#[test]
fn settings_are_changed_one_by_one() {
    let changed = config()
        .with_base_dir("/b".to_string())
        .with_default_image("i".to_string())
        .with_loom_command("c".to_string());
    assert_eq!(changed.base_dir, "/b");
    assert_eq!(changed.default_image, "i");
    assert_eq!(changed.loom_command, "c");
    assert_eq!(changed.server_url, "http://s");
    assert_eq!(changed.clone().base_dir, "/b");
}

#[test]
fn files_of_a_weaver() {
    let config = config();
    assert_eq!(config.weaver_dir("x"), "/base/weaver-x");
    assert_eq!(config.loom_dir("x"), "/base/weaver-x/.loom");
    assert_eq!(config.workspace_dir("x"), "/base/weaver-x/workspace");
    assert_eq!(config.metadata_path("x"), "/base/weaver-x/.loom/metadata.json");
    assert_eq!(config.metadata_temp_path("x"), "/base/weaver-x/.loom/metadata.json.tmp");
    assert_eq!(config.pid_path("x"), "/base/weaver-x/.loom/pid");
    assert_eq!(config.output_log_path("x"), "/base/weaver-x/.loom/output.log");
}

#[test]
fn weavers_do_not_share_directories() {
    let config = config();
    assert!(!is_same_path(&config.weaver_dir("a"), &config.weaver_dir("b")));
    assert!(is_same_path(&config.weaver_dir("a"), "/base//weaver-a/"));
}

#[test]
fn working_directory_is_resolved_in_turn() {
    let config = config();
    let env = vec![
        ("LOOM_WORKING_DIR".to_string(), "/env".to_string()),
        ("LOOM_WORKING_DIR".to_string(), "/late".to_string()),
    ];
    let mut annotations = LabelMap::new();
    annotations.insert("loom.dev/working-dir".to_string(), "/ann".to_string());
    let resolve = |env_found, annotation_found| {
        config.resolve_working_dir("x", &env, &annotations, env_found, annotation_found)
    };
    assert_eq!(resolve(true, true), "/env");
    assert_eq!(resolve(true, false), "/env");
    assert_eq!(resolve(false, true), "/ann");
    assert_eq!(resolve(false, false), "/base/weaver-x");
    let none = LabelMap::new();
    assert_eq!(config.resolve_working_dir("x", &[], &none, true, true), "/base/weaver-x");
}

#[test]
fn values_are_found_by_name() {
    let env = vec![
        ("A".to_string(), "1".to_string()),
        ("A".to_string(), "2".to_string()),
    ];
    assert_eq!(find_env(&env, "A"), Some("1".to_string()));
    assert_eq!(find_env(&env, "B"), None);
    let mut map = LabelMap::new();
    map.insert("k".to_string(), "v".to_string());
    assert_eq!(find_label(&map, "k"), Some("v".to_string()));
    assert_eq!(find_label(&map, "v"), None);
}

fn text() -> String {
    "m".to_string()
}

#[test]
fn errors_in_words() {
    assert_eq!(LocalError::TmuxError { message: text() }.to_text(), "tmux error: m");
    assert_eq!(LocalError::WeaverNotFound { id: text() }.to_text(), "weaver not found: m");
    assert_eq!(LocalError::WeaverExists { id: text() }.to_text(), "weaver already exists: m");
    assert_eq!(LocalError::Io(text()).to_text(), "IO error: m");
    assert_eq!(LocalError::PtyError { message: text() }.to_text(), "PTY error: m");
    assert_eq!(LocalError::MetadataError { message: text() }.to_text(), "metadata error: m");
    assert_eq!(LocalError::ProcessError { message: text() }.to_text(), "process error: m");
    assert_eq!(LocalError::InvalidWeaverId { id: text() }.to_text(), "invalid weaver id: m");
}

#[test]
fn errors_as_callers_see_them() {
    let pod = K8sError::from(LocalError::WeaverNotFound { id: text() });
    assert!(matches!(pod, K8sError::PodNotFound { name } if name == "m"));
    let attach = K8sError::from(LocalError::PtyError { message: text() });
    assert!(matches!(attach, K8sError::AttachError { message } if message == "m"));
    let plain = [
        LocalError::TmuxError { message: text() },
        LocalError::MetadataError { message: text() },
        LocalError::ProcessError { message: text() },
        LocalError::Io(text()),
    ];
    for error in plain {
        assert!(matches!(K8sError::from(error), K8sError::ApiError { message } if message == "m"));
    }
    let exists = K8sError::from(LocalError::WeaverExists { id: text() });
    assert!(
        matches!(exists, K8sError::ApiError { message } if message == "weaver already exists: m")
    );
    let invalid = K8sError::from(LocalError::InvalidWeaverId { id: text() });
    assert!(matches!(invalid, K8sError::ApiError { message } if message == "invalid weaver id: m"));
}
