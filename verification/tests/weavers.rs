use chrono::{DateTime, Duration, Utc};
use loom_server_local::progress::{Attempt, Progress, Run};
use loom_server_local::text_map::LabelMap;
use loom_server_local::time::{Timestamp, FIRST_SECOND, LAST_SECOND};
use loom_server_local::weaver::{
    observe, ListFacts, ListStep, LoadFacts, LoadStep, RemoveFacts, RemoveStep, StatusFacts,
    StatusStep, StoreFacts, StoreStep,
};
use loom_server_local::{LocalConfig, LocalError, LocalWeaver, WeaverMetadata, WeaverStatus};

fn config() -> LocalConfig {
    LocalConfig::new("http://s".to_string(), Some("/base".to_string()), None)
}

fn at(secs: i64, nanos: u32) -> Timestamp {
    Timestamp { secs, nanos }
}

fn metadata(working_dir: &str, created_at: Timestamp) -> WeaverMetadata {
    WeaverMetadata::created(
        "x".to_string(),
        "img".to_string(),
        LabelMap::new(),
        working_dir.to_string(),
        created_at,
    )
}

fn said(success: bool, stdout: &str) -> Run {
    Run::Exited { success, stdout: stdout.as_bytes().to_vec(), stderr: Vec::new() }
}

fn not_run() -> Run {
    Run::NotRun { error: "no such file".to_string() }
}

#[test]
fn calendar_ends_where_chrono_ends_it() {
    assert_eq!(DateTime::<Utc>::MAX_UTC.timestamp(), LAST_SECOND);
    assert_eq!(DateTime::<Utc>::MIN_UTC.timestamp(), FIRST_SECOND);
}

#[test]
fn hours_are_added_as_chrono_adds_them() {
    let cases = [
        (at(0, 0), 1),
        (at(-1, 999_999_999), 0),
        (at(1_483_228_799, 1_500_000_000), 0),
        (at(1_483_228_799, 1_500_000_000), 2),
        (at(LAST_SECOND - 3600, 7), 1),
        (at(FIRST_SECOND, 0), u32::MAX / 8),
    ];
    for (start, hours) in cases {
        assert!(start.is_reachable(hours));
        let later = start.plus_hours(hours);
        let expected =
            DateTime::from_timestamp(start.secs, start.nanos).unwrap() + Duration::hours(hours as i64);
        assert_eq!(later.secs, expected.timestamp());
        assert_eq!(later.nanos, expected.timestamp_subsec_nanos());
        assert_eq!(later.secs, start.secs + hours as i64 * 3600);
    }
}

#[test]
fn unreachable_times_are_told() {
    assert!(!at(LAST_SECOND, 0).is_reachable(1));
    assert!(at(LAST_SECOND, 0).is_reachable(0));
    assert!(!at(LAST_SECOND + 1, 0).is_reachable(0));
    assert!(!at(FIRST_SECOND - 1, 0).is_reachable(0));
    assert!(!at(0, 2_000_000_000).is_reachable(0));
    assert!(!at(0, 1_000_000_000).is_reachable(0));
    assert!(at(59, 1_000_000_000).is_reachable(0));
    assert!(at(-1, 1_000_000_000).is_reachable(0));
}

#[test]
fn clock_shows_the_time_of_chrono() {
    let before = Utc::now();
    let now = Timestamp::now();
    let after = Utc::now();
    let shown = DateTime::from_timestamp(now.secs, now.nanos).unwrap();
    assert!(before <= shown && shown <= after);
}

#[test]
fn later_times_come_after() {
    assert!(at(2, 0).is_after(at(1, 9)));
    assert!(at(1, 2).is_after(at(1, 1)));
    assert!(!at(1, 1).is_after(at(1, 1)));
    assert!(!at(0, 9).is_after(at(1, 0)));
}

#[test]
fn weaver_expires_after_its_lifetime() {
    let forever = metadata("", at(1000, 5));
    assert!(!forever.is_expired_at(at(LAST_SECOND, 0)));
    assert!(!forever.is_expired());
    let short = metadata("", at(1000, 5)).with_ttl(2);
    assert!(!short.is_expired_at(at(8200, 5)));
    assert!(short.is_expired_at(at(8200, 6)));
    assert!(short.is_expired_at(at(9000, 0)));
    assert!(short.is_expired());
    let fresh = WeaverMetadata::new(
        "x".to_string(),
        "i".to_string(),
        LabelMap::new(),
        "/w".to_string(),
    )
    .with_ttl(1);
    assert!(!fresh.is_expired());
    let longer = metadata("", at(1000, 5)).with_ttl(3);
    assert!(!longer.is_expired_at(at(9000, 0)));
    assert!(metadata("", at(-7200, 0)).with_ttl(1).is_expired());
}

#[test]
fn record_of_a_new_weaver() {
    let record = metadata("/w", at(7, 8)).with_env_vars(vec![("A".to_string(), "1".to_string())]);
    assert_eq!(record.id, "x");
    assert_eq!(record.name, "weaver-x");
    assert_eq!(record.image, "img");
    assert_eq!(record.created_at, at(7, 8));
    assert_eq!(record.ttl_hours, None);
    assert_eq!(record.env_vars, vec![("A".to_string(), "1".to_string())]);
    assert_eq!(record.effective_working_dir(&config()), "/w");
    assert_eq!(metadata("", at(0, 0)).effective_working_dir(&config()), "/base/weaver-x");
    let copy = record.clone();
    assert_eq!(copy.env_vars, record.env_vars);
}

#[test]
fn phases_of_states() {
    assert_eq!(WeaverStatus::Running.to_phase(), "Running");
    assert_eq!(WeaverStatus::Succeeded.to_phase(), "Succeeded");
    assert_eq!(WeaverStatus::Failed.to_phase(), "Failed");
    assert_eq!(WeaverStatus::Unknown.to_phase(), "Unknown");
}

fn load_facts() -> LoadFacts {
    LoadFacts { loom_dir_exists: None, metadata_text: None, metadata: None }
}

#[test]
fn loading_finds_reads_and_decodes() {
    let config = config();
    let mut facts = load_facts();
    match LocalWeaver::load(&config, "x", &facts) {
        Progress::Need(LoadStep::FindLoomDir { path }) => assert_eq!(path, "/base/weaver-x/.loom"),
        other => panic!("{other:?}"),
    }
    facts.loom_dir_exists = Some(true);
    match LocalWeaver::load(&config, "x", &facts) {
        Progress::Need(LoadStep::ReadMetadata { path }) => {
            assert_eq!(path, "/base/weaver-x/.loom/metadata.json")
        }
        other => panic!("{other:?}"),
    }
    facts.metadata_text = Some(Ok("{}".to_string()));
    match LocalWeaver::load(&config, "x", &facts) {
        Progress::Need(LoadStep::DecodeMetadata { text }) => assert_eq!(text, "{}"),
        other => panic!("{other:?}"),
    }
    facts.metadata = Some(Ok(metadata("", at(1, 2))));
    match LocalWeaver::load(&config, "x", &facts) {
        Progress::Done(Ok(weaver)) => {
            assert_eq!(weaver.status, WeaverStatus::Unknown);
            assert_eq!(weaver.dir, "/base/weaver-x");
            assert_eq!(weaver.session_name(), "weaver-x");
        }
        other => panic!("{other:?}"),
    }
}

#[test]
fn loading_tells_what_failed() {
    let config = config();
    let mut facts = load_facts();
    facts.loom_dir_exists = Some(false);
    assert!(matches!(
        LocalWeaver::load(&config, "x", &facts),
        Progress::Done(Err(LocalError::WeaverNotFound { id })) if id == "x"
    ));
    facts.loom_dir_exists = Some(true);
    facts.metadata_text = Some(Err("denied".to_string()));
    assert!(matches!(
        LocalWeaver::load(&config, "x", &facts),
        Progress::Done(Err(LocalError::MetadataError { message }))
            if message == "failed to read metadata at /base/weaver-x/.loom/metadata.json: denied"
    ));
    facts.metadata_text = Some(Ok("?".to_string()));
    facts.metadata = Some(Err("bad".to_string()));
    assert!(matches!(
        LocalWeaver::load(&config, "x", &facts),
        Progress::Done(Err(LocalError::MetadataError { message }))
            if message == "failed to parse metadata: bad"
    ));
}

fn store_facts() -> StoreFacts {
    StoreFacts {
        working_dir_exists: None,
        loom_dir_made: None,
        encoded: None,
        temp_written: None,
        renamed: None,
        log_emptied: None,
    }
}

#[test]
fn record_is_written_beside_its_place_and_moved() {
    let config = config();
    let record = metadata("", at(1, 2));
    let mut facts = store_facts();
    let mut asked: Vec<String> = Vec::new();
    let weaver = loop {
        match LocalWeaver::create(&config, &record, &facts) {
            Progress::Need(step) => {
                asked.push(match &step {
                    StoreStep::FindWorkingDir { path } => format!("find {path}"),
                    StoreStep::MakeLoomDir { path } => format!("make {path}"),
                    StoreStep::EncodeMetadata { metadata } => format!("encode {}", metadata.id),
                    StoreStep::WriteTemp { path, text } => format!("write {path} {text}"),
                    StoreStep::Rename { from, to } => format!("rename {from} {to}"),
                    StoreStep::EmptyLog { path } => format!("empty {path}"),
                });
                match step {
                    StoreStep::FindWorkingDir { .. } => facts.working_dir_exists = Some(false),
                    StoreStep::MakeLoomDir { .. } => facts.loom_dir_made = Some(Attempt::Succeeded),
                    StoreStep::EncodeMetadata { .. } => facts.encoded = Some(Ok("T".to_string())),
                    StoreStep::WriteTemp { .. } => facts.temp_written = Some(Attempt::Succeeded),
                    StoreStep::Rename { .. } => facts.renamed = Some(Attempt::Succeeded),
                    StoreStep::EmptyLog { .. } => facts.log_emptied = Some(Attempt::Succeeded),
                }
            }
            Progress::Done(result) => break result.unwrap(),
        }
    };
    assert_eq!(weaver.status, WeaverStatus::Unknown);
    assert_eq!(
        asked,
        vec![
            "find /base/weaver-x".to_string(),
            "make /base/weaver-x/.loom".to_string(),
            "encode x".to_string(),
            "write /base/weaver-x/.loom/metadata.json.tmp T".to_string(),
            "rename /base/weaver-x/.loom/metadata.json.tmp /base/weaver-x/.loom/metadata.json"
                .to_string(),
            "empty /base/weaver-x/.loom/output.log".to_string(),
        ]
    );
}

#[test]
fn stored_record_loads_back() {
    let config = config();
    for working_dir in ["", "/work"] {
        let record = metadata(working_dir, at(1, 2)).with_ttl(3);
        let stored = LocalWeaver::create(
            &config,
            &record,
            &StoreFacts {
                working_dir_exists: Some(false),
                loom_dir_made: Some(Attempt::Succeeded),
                encoded: Some(Ok("T".to_string())),
                temp_written: Some(Attempt::Succeeded),
                renamed: Some(Attempt::Succeeded),
                log_emptied: Some(Attempt::Succeeded),
            },
        );
        let loaded = LocalWeaver::load(
            &config,
            "x",
            &LoadFacts {
                loom_dir_exists: Some(true),
                metadata_text: Some(Ok("T".to_string())),
                metadata: Some(Ok(record.clone())),
            },
        );
        match (stored, loaded) {
            (Progress::Done(Ok(stored)), Progress::Done(Ok(loaded))) => {
                assert_eq!(format!("{loaded:?}"), format!("{stored:?}"));
                assert_eq!(loaded.metadata.ttl_hours, Some(3));
                assert_eq!(loaded.dir, record.effective_working_dir(&config));
            }
            other => panic!("{other:?}"),
        }
    }
}

#[test]
fn storing_tells_what_failed() {
    let config = config();
    let own = metadata("", at(1, 2));
    let mut facts = store_facts();
    facts.working_dir_exists = Some(true);
    assert!(matches!(
        LocalWeaver::create(&config, &own, &facts),
        Progress::Done(Err(LocalError::WeaverExists { id })) if id == "x"
    ));
    let users = metadata("/work", at(1, 2));
    let mut facts = store_facts();
    assert!(matches!(
        LocalWeaver::create(&config, &users, &facts),
        Progress::Need(StoreStep::MakeLoomDir { .. })
    ));
    facts.loom_dir_made = Some(Attempt::Failed("full".to_string()));
    assert!(matches!(
        LocalWeaver::create(&config, &users, &facts),
        Progress::Done(Err(LocalError::Io(reason))) if reason == "full"
    ));
    facts.loom_dir_made = Some(Attempt::Succeeded);
    facts.encoded = Some(Err("odd".to_string()));
    assert!(matches!(
        LocalWeaver::create(&config, &users, &facts),
        Progress::Done(Err(LocalError::MetadataError { message }))
            if message == "failed to serialize metadata: odd"
    ));
    facts.encoded = Some(Ok("T".to_string()));
    facts.temp_written = Some(Attempt::Failed("a".to_string()));
    assert!(matches!(
        LocalWeaver::create(&config, &users, &facts),
        Progress::Done(Err(LocalError::Io(reason))) if reason == "a"
    ));
    facts.temp_written = Some(Attempt::Succeeded);
    facts.renamed = Some(Attempt::Failed("b".to_string()));
    assert!(matches!(
        LocalWeaver::create(&config, &users, &facts),
        Progress::Done(Err(LocalError::Io(reason))) if reason == "b"
    ));
    facts.renamed = Some(Attempt::Succeeded);
    facts.log_emptied = Some(Attempt::Failed("c".to_string()));
    assert!(matches!(
        LocalWeaver::create(&config, &users, &facts),
        Progress::Done(Err(LocalError::Io(reason))) if reason == "c"
    ));
}

#[test]
fn removing_a_directory() {
    let config = config();
    let mut facts = RemoveFacts { dir_exists: None, removed: None };
    assert!(matches!(
        LocalWeaver::delete(&config, "x", &facts),
        Progress::Need(RemoveStep::FindDir { path }) if path == "/base/weaver-x"
    ));
    assert!(matches!(
        LocalWeaver::delete_metadata_only(&config, "x", &facts),
        Progress::Need(RemoveStep::FindDir { path }) if path == "/base/weaver-x/.loom"
    ));
    facts.dir_exists = Some(false);
    assert!(matches!(LocalWeaver::delete(&config, "x", &facts), Progress::Done(Ok(_))));
    facts.dir_exists = Some(true);
    assert!(matches!(
        LocalWeaver::delete(&config, "x", &facts),
        Progress::Need(RemoveStep::RemoveDir { path }) if path == "/base/weaver-x"
    ));
    facts.removed = Some(Attempt::Failed("busy".to_string()));
    assert!(matches!(
        LocalWeaver::delete(&config, "x", &facts),
        Progress::Done(Err(LocalError::Io(reason))) if reason == "busy"
    ));
    facts.removed = Some(Attempt::Succeeded);
    assert!(matches!(
        LocalWeaver::delete_metadata_only(&config, "x", &facts),
        Progress::Done(Ok(_))
    ));
}

#[test]
fn listing_keeps_directories_with_a_record() {
    let config = config();
    let mut facts = ListFacts { base_dir_exists: None, names: None, metadata_exists: None };
    assert!(matches!(
        LocalWeaver::list_all(&config, &facts),
        Progress::Need(ListStep::FindBaseDir { path }) if path == "/base"
    ));
    facts.base_dir_exists = Some(false);
    match LocalWeaver::list_all(&config, &facts) {
        Progress::Done(Ok(found)) => assert!(found.ids.is_empty()),
        other => panic!("{other:?}"),
    }
    facts.base_dir_exists = Some(true);
    assert!(matches!(
        LocalWeaver::list_all(&config, &facts),
        Progress::Need(ListStep::ReadBaseDir { path }) if path == "/base"
    ));
    facts.names = Some(Err("denied".to_string()));
    assert!(matches!(
        LocalWeaver::list_all(&config, &facts),
        Progress::Done(Err(LocalError::Io(reason))) if reason == "denied"
    ));
    let names = ["weaver-a", "notes", "weaver-b", "weaver-c"];
    facts.names = Some(Ok(names.iter().map(|name| name.to_string()).collect()));
    match LocalWeaver::list_all(&config, &facts) {
        Progress::Need(ListStep::FindMetadata { paths }) => assert_eq!(
            paths,
            vec![
                "/base/weaver-a/.loom/metadata.json".to_string(),
                "/base/weaver-b/.loom/metadata.json".to_string(),
                "/base/weaver-c/.loom/metadata.json".to_string(),
            ]
        ),
        other => panic!("{other:?}"),
    }
    facts.metadata_exists = Some(vec![true, false, true]);
    match LocalWeaver::list_all(&config, &facts) {
        Progress::Done(Ok(found)) => {
            assert_eq!(found.ids, vec!["a".to_string(), "c".to_string()])
        }
        other => panic!("{other:?}"),
    }
}

fn status(session: Run, pane: Option<Run>, exit: Option<Run>) -> Progress<StatusStep, WeaverStatus, LocalError> {
    observe("x", &StatusFacts { session: Some(session), pane, exit })
}

#[test]
fn state_follows_the_session_and_its_process() {
    let unknown = StatusFacts { session: None, pane: None, exit: None };
    match observe("x", &unknown) {
        Progress::Need(StatusStep::FindSession { call }) => {
            assert_eq!(call.join(" "), "has-session -t weaver-x")
        }
        other => panic!("{other:?}"),
    }
    assert!(matches!(status(said(false, ""), None, None), Progress::Done(Ok(WeaverStatus::Failed))));
    match status(said(true, ""), None, None) {
        Progress::Need(StatusStep::AskPane { call }) => {
            assert_eq!(call.join(" "), "display-message -t weaver-x -p #{pane_dead}")
        }
        other => panic!("{other:?}"),
    }
    let there = || said(true, "");
    assert!(matches!(
        status(there(), Some(said(true, "0\n")), None),
        Progress::Done(Ok(WeaverStatus::Running))
    ));
    match status(there(), Some(said(true, "1\n")), None) {
        Progress::Need(StatusStep::AskExit { call }) => {
            assert_eq!(call.join(" "), "display-message -t weaver-x -p #{pane_dead_status}")
        }
        other => panic!("{other:?}"),
    }
    let dead = || Some(said(true, "1\n"));
    assert!(matches!(
        status(there(), dead(), Some(said(true, "0\n"))),
        Progress::Done(Ok(WeaverStatus::Succeeded))
    ));
    assert!(matches!(
        status(there(), dead(), Some(said(true, "7\n"))),
        Progress::Done(Ok(WeaverStatus::Failed))
    ));
    assert!(matches!(
        status(there(), dead(), Some(said(true, "\n"))),
        Progress::Done(Ok(WeaverStatus::Succeeded))
    ));
    assert!(matches!(
        status(there(), Some(said(false, "")), Some(said(false, ""))),
        Progress::Done(Ok(WeaverStatus::Succeeded))
    ));
    assert!(matches!(
        status(not_run(), None, None),
        Progress::Done(Err(LocalError::TmuxError { message }))
            if message == "failed to check session: no such file"
    ));
    assert!(matches!(
        status(there(), Some(not_run()), None),
        Progress::Done(Err(LocalError::TmuxError { message }))
            if message == "failed to check pane status: no such file"
    ));
}
