use loom_server_local::client::access::{
    ExecFacts, ExecStep, NamespaceFacts, NamespaceStep, StreamFacts, StreamStep,
};
use loom_server_local::client::create::{CreateFacts, CreateStep};
use loom_server_local::client::delete::{DeleteFacts, DeleteStep};
use loom_server_local::client::show::{InspectFacts, InspectStep, ListPodsFacts, ListPodsStep};
use loom_server_local::client::start::{
    ReconcileFacts, ReconcileStep, RecoverFacts, RecoverStep, StartFacts, StartStep,
};
use loom_server_local::error::K8sError;
use loom_server_local::log_follower::{FollowFacts, FollowStep};
use loom_server_local::pod::{Container, EnvVar, ObjectMeta, Pod, PodSpec};
use loom_server_local::progress::{Attempt, Progress, Run};
use loom_server_local::pty::{AttachFacts, AttachStep};
use loom_server_local::text_map::{LabelMap, TextMap};
use loom_server_local::time::Timestamp;
use loom_server_local::weaver::{
    ListFacts, ListStep, LoadFacts, LoadStep, RemoveFacts, RemoveStep, StatusFacts, StatusStep,
    StoreFacts, StoreStep,
};
use loom_server_local::{
    LocalClient, LocalConfig, LocalError, LocalWeaver, WeaverMetadata, WeaverStatus,
};

/// A machine that exists only in the test.
struct Machine {
    dirs: Vec<String>,
    records: Vec<(String, WeaverMetadata)>,
    files: Vec<String>,
    sessions: Vec<String>,
    dead: bool,
    done: Vec<String>,
}

fn ok(stdout: &str) -> Run {
    Run::Exited { success: true, stdout: stdout.as_bytes().to_vec(), stderr: Vec::new() }
}

fn bad(stderr: &str) -> Run {
    Run::Exited { success: false, stdout: Vec::new(), stderr: stderr.as_bytes().to_vec() }
}

fn not_run() -> Run {
    Run::NotRun { error: "gone".to_string() }
}

const NOW: Timestamp = Timestamp { secs: 1_700_000_000, nanos: 0 };

impl Machine {
    fn new(dirs: &[&str]) -> Machine {
        Machine {
            dirs: dirs.iter().map(|dir| dir.to_string()).collect(),
            records: Vec::new(),
            files: Vec::new(),
            sessions: Vec::new(),
            dead: false,
            done: Vec::new(),
        }
    }

    fn has_dir(&self, path: &str) -> bool {
        self.dirs.iter().any(|dir| dir == path)
    }

    fn make_dir(&mut self, path: &str) -> Attempt {
        let mut upto = String::new();
        for name in path.split('/').skip(1) {
            upto = format!("{upto}/{name}");
            if !self.has_dir(&upto) {
                self.dirs.push(upto.clone());
            }
        }
        Attempt::Succeeded
    }

    fn tmux(&mut self, call: &[String]) -> Run {
        self.done.push(format!("tmux {}", call.join(" ")));
        match call[0].as_str() {
            "-V" => ok("tmux 3.4"),
            "new-session" => {
                if self.sessions.contains(&call[3]) {
                    return bad("duplicate session");
                }
                self.sessions.push(call[3].clone());
                ok("")
            }
            "has-session" => {
                if self.sessions.contains(&call[2]) {
                    ok("")
                } else {
                    bad("can't find session")
                }
            }
            "kill-session" => {
                let before = self.sessions.len();
                self.sessions.retain(|name| name != &call[2]);
                if self.sessions.len() < before {
                    ok("")
                } else {
                    bad("can't find session")
                }
            }
            "list-sessions" => ok(&self.sessions.join("\n")),
            "display-message" => match call[4].as_str() {
                "#{pane_pid}" => ok("4711\n"),
                "#{pane_dead}" => ok(if self.dead { "1\n" } else { "0\n" }),
                _ => ok("3\n"),
            },
            _ => ok(""),
        }
    }

    fn load(&self, step: LoadStep, facts: &mut LoadFacts) {
        match step {
            LoadStep::FindLoomDir { path } => facts.loom_dir_exists = Some(self.has_dir(&path)),
            LoadStep::ReadMetadata { path } => {
                facts.metadata_text = Some(Ok(path));
            }
            LoadStep::DecodeMetadata { text } => {
                let found = self.records.iter().find(|(path, _)| path == &text);
                facts.metadata = Some(match found {
                    Some((_, record)) => Ok(record.clone()),
                    None => Err("no record".to_string()),
                });
            }
        }
    }

    fn status(&mut self, step: StatusStep, facts: &mut StatusFacts) {
        match step {
            StatusStep::FindSession { call } => facts.session = Some(self.tmux(&call)),
            StatusStep::AskPane { call } => facts.pane = Some(self.tmux(&call)),
            StatusStep::AskExit { call } => facts.exit = Some(self.tmux(&call)),
        }
    }

    fn list(&self, step: ListStep, facts: &mut ListFacts) {
        match step {
            ListStep::FindBaseDir { path } => facts.base_dir_exists = Some(self.has_dir(&path)),
            ListStep::ReadBaseDir { path } => {
                let prefix = format!("{path}/");
                let names = self
                    .dirs
                    .iter()
                    .filter_map(|dir| dir.strip_prefix(&prefix))
                    .filter(|name| !name.contains('/'))
                    .map(str::to_string)
                    .collect();
                facts.names = Some(Ok(names));
            }
            ListStep::FindMetadata { paths } => {
                let found = paths
                    .iter()
                    .map(|path| self.records.iter().any(|(record, _)| record == path))
                    .collect();
                facts.metadata_exists = Some(found);
            }
        }
    }

    fn store(&mut self, step: StoreStep, pending: &mut Option<WeaverMetadata>, facts: &mut StoreFacts) {
        match step {
            StoreStep::FindWorkingDir { path } => {
                facts.working_dir_exists = Some(self.has_dir(&path))
            }
            StoreStep::MakeLoomDir { path } => facts.loom_dir_made = Some(self.make_dir(&path)),
            StoreStep::EncodeMetadata { metadata } => {
                *pending = Some(metadata);
                facts.encoded = Some(Ok("{}".to_string()));
            }
            StoreStep::WriteTemp { .. } => facts.temp_written = Some(Attempt::Succeeded),
            StoreStep::Rename { to, .. } => {
                self.records.push((to, pending.take().unwrap()));
                facts.renamed = Some(Attempt::Succeeded);
            }
            StoreStep::EmptyLog { path } => {
                self.files.push(path);
                facts.log_emptied = Some(Attempt::Succeeded);
            }
        }
    }

    fn create(&mut self, client: &mut LocalClient, pod: &Pod) -> Result<Pod, K8sError> {
        let mut facts = create_facts();
        let mut pending = None;
        loop {
            match client.create_pod(pod, NOW, &facts) {
                Progress::Done(result) => return result,
                Progress::Need(step) => match step {
                    CreateStep::FindEnvDir { path } => {
                        facts.env_dir_exists = Some(self.has_dir(&path))
                    }
                    CreateStep::FindAnnotationDir { path } => {
                        facts.annotation_dir_exists = Some(self.has_dir(&path))
                    }
                    CreateStep::Store(step) => self.store(step, &mut pending, &mut facts.store),
                    CreateStep::MakeWorkspace { path } => {
                        facts.workspace_made = Some(self.make_dir(&path))
                    }
                    CreateStep::CloneRepo { call } => {
                        self.done.push(format!("git {}", call.join(" ")));
                        facts.cloned = Some(bad("no network"));
                    }
                    CreateStep::NewSession { call } => facts.session_made = Some(self.tmux(&call)),
                    CreateStep::PipePane { call } => facts.piped = Some(self.tmux(&call)),
                    CreateStep::SendKeys { call } => facts.keys_sent = Some(self.tmux(&call)),
                    CreateStep::AskPid { call } => facts.pid = Some(self.tmux(&call)),
                    CreateStep::WritePid { path, text } => {
                        self.done.push(format!("write {path} {text}"));
                        self.files.push(path);
                        facts.pid_written = Some(Attempt::Succeeded);
                    }
                    CreateStep::Load(step) => self.load(step, &mut facts.load),
                },
            }
        }
    }

    fn get(&mut self, client: &LocalClient, name: &str) -> Result<Pod, K8sError> {
        let mut facts = InspectFacts::unknown();
        loop {
            match client.get_pod(name, &facts) {
                Progress::Done(result) => return result,
                Progress::Need(InspectStep::Load(step)) => self.load(step, &mut facts.load),
                Progress::Need(InspectStep::FindPid { path }) => {
                    facts.pid_exists = Some(self.files.contains(&path))
                }
                Progress::Need(InspectStep::Status(step)) => self.status(step, &mut facts.status),
            }
        }
    }

    fn list_pods(&mut self, client: &LocalClient, selector: &str) -> Result<Vec<Pod>, K8sError> {
        let mut facts = ListPodsFacts { list: list_facts(), weavers: Vec::new() };
        loop {
            match client.list_pods(selector, &facts) {
                Progress::Done(result) => return result.map(|pods| pods.items),
                Progress::Need(ListPodsStep::List(step)) => self.list(step, &mut facts.list),
                Progress::Need(ListPodsStep::Inspect { index, step }) => {
                    while facts.weavers.len() <= index {
                        facts.weavers.push(InspectFacts::unknown());
                    }
                    let known = &mut facts.weavers[index];
                    match step {
                        InspectStep::Load(step) => self.load(step, &mut known.load),
                        InspectStep::FindPid { .. } => unreachable!(),
                        InspectStep::Status(step) => self.status(step, &mut known.status),
                    }
                }
            }
        }
    }

    fn delete(&mut self, client: &mut LocalClient, name: &str, grace: u32) -> Result<(), K8sError> {
        let mut facts = delete_facts();
        loop {
            match client.delete_pod(name, grace, &facts) {
                Progress::Done(result) => return result.map(|_| ()),
                Progress::Need(DeleteStep::KillSession { call }) => {
                    facts.killed = Some(self.tmux(&call))
                }
                Progress::Need(DeleteStep::Wait { seconds }) => {
                    self.done.push(format!("wait {seconds}"));
                    facts.waited = true;
                }
                Progress::Need(DeleteStep::Load(step)) => self.load(step, &mut facts.load),
                Progress::Need(DeleteStep::Remove(RemoveStep::FindDir { path })) => {
                    facts.remove.dir_exists = Some(self.has_dir(&path))
                }
                Progress::Need(DeleteStep::Remove(RemoveStep::RemoveDir { path })) => {
                    self.done.push(format!("remove {path}"));
                    let below = format!("{path}/");
                    let kept = |at: &String| at != &path && !at.starts_with(&below);
                    self.dirs.retain(kept);
                    self.files.retain(kept);
                    self.records.retain(|(record, _)| kept(record));
                    facts.remove.removed = Some(Attempt::Succeeded);
                }
            }
        }
    }

    fn start(&mut self) -> Result<LocalClient, LocalError> {
        let mut facts = start_facts();
        loop {
            match LocalClient::new("http://s".to_string(), Some("/base".to_string()), None, &facts) {
                Progress::Done(result) => return result,
                Progress::Need(StartStep::AskVersion { call }) => {
                    facts.version = Some(self.tmux(&call))
                }
                Progress::Need(StartStep::FindBaseDir { path }) => {
                    facts.base_dir_exists = Some(self.has_dir(&path))
                }
                Progress::Need(StartStep::MakeBaseDir { path }) => {
                    facts.base_dir_made = Some(self.make_dir(&path))
                }
                Progress::Need(StartStep::Reconcile(step)) => match step {
                    ReconcileStep::List(step) => self.list(step, &mut facts.reconcile.list),
                    ReconcileStep::ListSessions { call } => {
                        facts.reconcile.sessions = Some(self.tmux(&call))
                    }
                    ReconcileStep::Recover { index, step } => {
                        while facts.reconcile.weavers.len() <= index {
                            facts.reconcile.weavers.push(RecoverFacts::unknown());
                        }
                        let known = &mut facts.reconcile.weavers[index];
                        match step {
                            RecoverStep::Load(step) => self.load(step, &mut known.load),
                            RecoverStep::Status(StatusStep::AskPane { call }) => {
                                known.pane = Some(self.tmux(&call))
                            }
                            RecoverStep::Status(StatusStep::AskExit { call }) => {
                                known.exit = Some(self.tmux(&call))
                            }
                            RecoverStep::Status(StatusStep::FindSession { .. }) => unreachable!(),
                        }
                    }
                },
            }
        }
    }
}

fn load_facts() -> LoadFacts {
    LoadFacts { loom_dir_exists: None, metadata_text: None, metadata: None }
}

fn list_facts() -> ListFacts {
    ListFacts { base_dir_exists: None, names: None, metadata_exists: None }
}

fn create_facts() -> CreateFacts {
    CreateFacts {
        env_dir_exists: None,
        annotation_dir_exists: None,
        store: StoreFacts {
            working_dir_exists: None,
            loom_dir_made: None,
            encoded: None,
            temp_written: None,
            renamed: None,
            log_emptied: None,
        },
        workspace_made: None,
        cloned: None,
        session_made: None,
        piped: None,
        keys_sent: None,
        pid: None,
        pid_written: None,
        load: load_facts(),
    }
}

fn delete_facts() -> DeleteFacts {
    DeleteFacts {
        killed: None,
        waited: false,
        load: load_facts(),
        remove: RemoveFacts { dir_exists: None, removed: None },
    }
}

fn start_facts() -> StartFacts {
    StartFacts {
        version: None,
        base_dir_exists: None,
        base_dir_made: None,
        reconcile: ReconcileFacts { list: list_facts(), sessions: None, weavers: Vec::new() },
    }
}

fn client() -> LocalClient {
    let config = LocalConfig::new("http://s".to_string(), Some("/base".to_string()), None);
    LocalClient { config, weavers: TextMap::new() }
}

fn pod(name: &str, env: &[(&str, &str)], labels: &[(&str, &str)]) -> Pod {
    let mut given = LabelMap::new();
    for (key, value) in labels {
        given.insert(key.to_string(), value.to_string());
    }
    let env = env
        .iter()
        .map(|(name, value)| EnvVar { name: name.to_string(), value: Some(value.to_string()) })
        .collect();
    Pod {
        metadata: ObjectMeta {
            name: Some(name.to_string()),
            namespace: None,
            labels: Some(given),
            annotations: None,
            creation_timestamp: None,
        },
        spec: Some(PodSpec {
            containers: vec![Container { name: "c".to_string(), image: None, env: Some(env) }],
        }),
        status: None,
    }
}

fn phase(pod: &Pod) -> String {
    pod.status.as_ref().unwrap().phase.clone().unwrap()
}

#[test]
fn weaver_lives_from_create_to_delete() {
    let mut machine = Machine::new(&["/base"]);
    let mut client = client();
    let request = pod("weaver-x", &[("LOOM_REPO", "url"), ("A", "it's")], &[("app", "loom")]);
    let created = machine.create(&mut client, &request).unwrap();
    assert_eq!(phase(&created), "Running");
    assert_eq!(
        machine.done,
        vec![
            "git clone url /base/weaver-x/workspace",
            "tmux new-session -d -s weaver-x -c /base/weaver-x/workspace",
            "tmux pipe-pane -t weaver-x -o cat >> /base/weaver-x/.loom/output.log",
            "tmux send-keys -t weaver-x exec env LOOM_REPO='url' A='it'\\''s' \
             LOOM_SERVER_URL='http://s' loom Enter",
            "tmux display-message -t weaver-x -p #{pane_pid}",
            "write /base/weaver-x/.loom/pid 4711",
        ]
    );
    assert_eq!(client.weavers.get("x").unwrap().status, WeaverStatus::Running);
    assert_eq!(client.weavers.get("x").unwrap().dir, "/base/weaver-x");

    let got = machine.get(&client, "weaver-x").unwrap();
    assert_eq!(format!("{got:?}"), format!("{created:?}"));
    let listed = machine.list_pods(&client, "loom.dev/managed=true,app=loom").unwrap();
    assert_eq!(listed.len(), 1);
    assert_eq!(format!("{:?}", listed[0]), format!("{created:?}"));
    assert!(machine.list_pods(&client, "app=other").unwrap().is_empty());

    let restarted = machine.start().unwrap();
    assert_eq!(
        format!("{:?}", restarted.weavers.get("x").unwrap()),
        format!("{:?}", client.weavers.get("x").unwrap())
    );

    assert!(matches!(
        machine.create(&mut client, &request),
        Err(K8sError::ApiError { message }) if message == "weaver already exists: x"
    ));

    machine.done.clear();
    machine.delete(&mut client, "weaver-x", 3).unwrap();
    assert_eq!(
        machine.done,
        vec!["tmux kill-session -t weaver-x", "wait 3", "remove /base/weaver-x"]
    );
    assert!(client.weavers.get("x").is_none());
    assert!(machine.sessions.is_empty());
    assert_eq!(machine.dirs, vec!["/base"]);
    assert!(matches!(
        machine.get(&client, "weaver-x"),
        Err(K8sError::PodNotFound { name }) if name == "x"
    ));
    machine.delete(&mut client, "weaver-x", 0).unwrap();
}

#[test]
fn users_directory_is_used_and_spared() {
    let mut machine = Machine::new(&["/base", "/home/u/work"]);
    let mut client = client();
    let env = [("LOOM_WORKING_DIR", "/home/u/work"), ("LOOM_REPO", "url")];
    machine.create(&mut client, &pod("weaver-x", &env, &[])).unwrap();
    assert_eq!(machine.done[0], "tmux new-session -d -s weaver-x -c /home/u/work");
    assert_eq!(client.weavers.get("x").unwrap().dir, "/home/u/work");
    machine.done.clear();
    machine.delete(&mut client, "weaver-x", 0).unwrap();
    assert_eq!(machine.done, vec!["tmux kill-session -t weaver-x", "remove /base/weaver-x/.loom"]);
    assert!(machine.has_dir("/home/u/work"));
}

#[test]
fn annotated_directory_is_used_if_the_environment_names_none() {
    let mut machine = Machine::new(&["/base", "/ann"]);
    let mut client = client();
    let mut request = pod("weaver-x", &[("LOOM_WORKING_DIR", "/missing")], &[]);
    let mut annotations = LabelMap::new();
    annotations.insert("loom.dev/working-dir".to_string(), "/ann".to_string());
    request.metadata.annotations = Some(annotations);
    machine.create(&mut client, &request).unwrap();
    assert_eq!(machine.done[0], "tmux new-session -d -s weaver-x -c /ann");
}

#[test]
fn pod_without_an_id_is_refused() {
    let mut machine = Machine::new(&["/base"]);
    let mut client = client();
    assert!(matches!(
        machine.create(&mut client, &pod("other", &[], &[])),
        Err(K8sError::ApiError { message }) if message == "invalid weaver id: other"
    ));
    let mut nameless = pod("other", &[], &[]);
    nameless.metadata.name = None;
    assert!(matches!(
        machine.create(&mut client, &nameless),
        Err(K8sError::ApiError { message }) if message == "invalid weaver id: "
    ));
    let labelled = pod("other", &[], &[("loom.dev/weaver-id", "y")]);
    let created = machine.create(&mut client, &labelled).unwrap();
    assert_eq!(created.metadata.name.as_deref(), Some("weaver-y"));
    assert!(machine.done.iter().any(|call| call.starts_with("tmux new-session -d -s weaver-y")));
}

#[test]
fn failures_of_creating_are_told() {
    let request = pod("weaver-x", &[("LOOM_WORKING_DIR", "/w")], &[]);
    let stored = || {
        let mut facts = create_facts();
        facts.env_dir_exists = Some(true);
        facts.store.loom_dir_made = Some(Attempt::Succeeded);
        facts.store.encoded = Some(Ok("{}".to_string()));
        facts.store.temp_written = Some(Attempt::Succeeded);
        facts.store.renamed = Some(Attempt::Succeeded);
        facts.store.log_emptied = Some(Attempt::Succeeded);
        facts
    };
    let failure = |facts: &CreateFacts| match client().create_pod(&request, NOW, facts) {
        Progress::Done(Err(K8sError::ApiError { message })) => message,
        other => panic!("{other:?}"),
    };
    let mut facts = stored();
    facts.session_made = Some(bad("duplicate session"));
    assert_eq!(failure(&facts), "tmux new-session failed: duplicate session");
    facts.session_made = Some(ok(""));
    facts.piped = Some(not_run());
    assert_eq!(failure(&facts), "failed to pipe pane: gone");
    facts.piped = Some(ok(""));
    facts.keys_sent = Some(bad("no"));
    assert_eq!(failure(&facts), "tmux send-keys failed: no");
    facts.keys_sent = Some(ok(""));
    facts.pid = Some(not_run());
    assert_eq!(failure(&facts), "failed to get pane pid: gone");
    facts.pid = Some(ok("12"));
    facts.pid_written = Some(Attempt::Failed("full".to_string()));
    assert_eq!(failure(&facts), "full");
    facts.pid_written = Some(Attempt::Succeeded);
    facts.load.loom_dir_exists = Some(true);
    facts.load.metadata_text = Some(Ok("?".to_string()));
    facts.load.metadata = Some(Err("bad".to_string()));
    assert_eq!(failure(&facts), "failed to parse metadata: bad");

    let own = pod("weaver-x", &[], &[]);
    let mut facts = stored();
    facts.store.working_dir_exists = Some(false);
    facts.workspace_made = Some(Attempt::Failed("full".to_string()));
    assert!(matches!(
        client().create_pod(&own, NOW, &facts),
        Progress::Done(Err(K8sError::ApiError { message })) if message == "full"
    ));
}

#[test]
fn process_that_tmux_does_not_tell_is_not_noted() {
    let request = pod("weaver-x", &[("LOOM_WORKING_DIR", "/w")], &[]);
    let mut facts = create_facts();
    facts.env_dir_exists = Some(true);
    facts.store.loom_dir_made = Some(Attempt::Succeeded);
    facts.store.encoded = Some(Ok("{}".to_string()));
    facts.store.temp_written = Some(Attempt::Succeeded);
    facts.store.renamed = Some(Attempt::Succeeded);
    facts.store.log_emptied = Some(Attempt::Succeeded);
    facts.session_made = Some(ok(""));
    facts.piped = Some(ok(""));
    facts.keys_sent = Some(ok(""));
    facts.pid = Some(bad("no pane"));
    assert!(matches!(
        client().create_pod(&request, NOW, &facts),
        Progress::Need(CreateStep::Load(LoadStep::FindLoomDir { .. }))
    ));
}

#[test]
fn weaver_without_a_note_of_its_process_is_not_found() {
    let mut machine = Machine::new(&["/base"]);
    let mut client = client();
    machine.create(&mut client, &pod("weaver-x", &[], &[])).unwrap();
    machine.files.retain(|path| !path.ends_with("/pid"));
    assert!(matches!(
        machine.get(&client, "weaver-x"),
        Err(K8sError::PodNotFound { name }) if name == "weaver-x"
    ));
}

#[test]
fn note_of_the_process_is_looked_for_before_the_record() {
    let mut facts = InspectFacts::unknown();
    facts.load.loom_dir_exists = Some(true);
    assert!(matches!(
        client().get_pod("weaver-x", &facts),
        Progress::Need(InspectStep::FindPid { path }) if path == "/base/weaver-x/.loom/pid"
    ));
    facts.pid_exists = Some(false);
    facts.load.metadata_text = Some(Err("denied".to_string()));
    assert!(matches!(
        client().get_pod("weaver-x", &facts),
        Progress::Done(Err(K8sError::PodNotFound { name })) if name == "weaver-x"
    ));
    facts.pid_exists = Some(true);
    assert!(matches!(
        client().get_pod("weaver-x", &facts),
        Progress::Done(Err(K8sError::ApiError { message }))
            if message == "failed to read metadata at /base/weaver-x/.loom/metadata.json: denied"
    ));
    facts.load.loom_dir_exists = Some(false);
    assert!(matches!(
        client().get_pod("weaver-x", &facts),
        Progress::Done(Err(K8sError::PodNotFound { name })) if name == "x"
    ));
}

#[test]
fn existing_directory_of_the_weaver_is_refused_even_if_named() {
    let mut machine = Machine::new(&["/base", "/base/weaver-x"]);
    let mut client = client();
    for env in [vec![], vec![("LOOM_WORKING_DIR", "/base/weaver-x")]] {
        assert!(matches!(
            machine.create(&mut client, &pod("weaver-x", &env, &[])),
            Err(K8sError::ApiError { message }) if message == "weaver already exists: x"
        ));
    }
    assert!(machine.done.is_empty());
}

#[test]
fn ended_weavers_are_shown_as_such() {
    let mut machine = Machine::new(&["/base"]);
    let mut client = client();
    machine.create(&mut client, &pod("weaver-x", &[], &[])).unwrap();
    machine.dead = true;
    assert_eq!(phase(&machine.get(&client, "weaver-x").unwrap()), "Failed");
    assert_eq!(machine.start().unwrap().weavers.get("x").unwrap().status, WeaverStatus::Failed);
    machine.sessions.clear();
    assert_eq!(phase(&machine.get(&client, "weaver-x").unwrap()), "Failed");
    assert_eq!(machine.start().unwrap().weavers.get("x").unwrap().status, WeaverStatus::Failed);
}

#[test]
fn broken_records_are_passed_over() {
    let mut machine = Machine::new(&["/base"]);
    let mut client = client();
    machine.create(&mut client, &pod("weaver-a", &[], &[])).unwrap();
    machine.create(&mut client, &pod("weaver-b", &[], &[])).unwrap();
    machine.dirs.retain(|dir| dir != "/base/weaver-a/.loom");
    let listed = machine.list_pods(&client, "").unwrap();
    assert_eq!(listed.len(), 1);
    assert_eq!(listed[0].metadata.name.as_deref(), Some("weaver-b"));
    let restarted = machine.start().unwrap();
    assert!(restarted.weavers.get("a").is_none());
    assert!(restarted.weavers.get("b").is_some());
}

#[test]
fn listing_stops_where_tmux_cannot_be_asked() {
    let facts = ListPodsFacts {
        list: ListFacts {
            base_dir_exists: Some(true),
            names: Some(Ok(vec!["weaver-a".to_string()])),
            metadata_exists: Some(vec![true]),
        },
        weavers: vec![InspectFacts {
            load: LoadFacts {
                loom_dir_exists: Some(true),
                metadata_text: Some(Ok(String::new())),
                metadata: Some(Ok(WeaverMetadata::created(
                    "a".to_string(),
                    "i".to_string(),
                    LabelMap::new(),
                    "/w".to_string(),
                    NOW,
                ))),
            },
            pid_exists: None,
            status: StatusFacts { session: Some(not_run()), pane: None, exit: None },
        }],
    };
    assert!(matches!(
        client().list_pods("", &facts),
        Progress::Done(Err(K8sError::ApiError { message }))
            if message == "failed to check session: gone"
    ));
    let denied = ListPodsFacts {
        list: ListFacts {
            base_dir_exists: Some(true),
            names: Some(Err("denied".to_string())),
            metadata_exists: None,
        },
        weavers: Vec::new(),
    };
    assert!(matches!(
        client().list_pods("", &denied),
        Progress::Done(Err(K8sError::ApiError { message })) if message == "denied"
    ));
}

#[test]
fn start_needs_tmux_and_a_base_directory() {
    let config = || LocalConfig::new("http://s".to_string(), Some("/base".to_string()), None);
    let mut facts = start_facts();
    facts.version = Some(not_run());
    assert!(matches!(
        LocalClient::with_config(config(), &facts),
        Progress::Done(Err(LocalError::TmuxError { message })) if message == "tmux not found: gone"
    ));
    facts.version = Some(ok(""));
    facts.base_dir_exists = Some(false);
    assert!(matches!(
        LocalClient::with_config(config(), &facts),
        Progress::Need(StartStep::MakeBaseDir { path }) if path == "/base"
    ));
    facts.base_dir_made = Some(Attempt::Failed("denied".to_string()));
    assert!(matches!(
        LocalClient::with_config(config(), &facts),
        Progress::Done(Err(LocalError::Io(reason))) if reason == "denied"
    ));
    facts.base_dir_made = Some(Attempt::Succeeded);
    facts.reconcile.list.base_dir_exists = Some(true);
    facts.reconcile.list.names = Some(Ok(Vec::new()));
    facts.reconcile.list.metadata_exists = Some(Vec::new());
    facts.reconcile.sessions = Some(bad("odd"));
    assert!(matches!(
        LocalClient::with_config(config(), &facts),
        Progress::Done(Err(LocalError::TmuxError { message }))
            if message == "tmux list-sessions failed: odd"
    ));
    let mut machine = Machine::new(&[]);
    let started = machine.start().unwrap();
    assert!(machine.has_dir("/base"));
    assert_eq!(started.config.base_dir, "/base");
    assert!(started.weavers.entries().is_empty());
}

#[test]
fn reconciling_leaves_the_weavers_alone_until_some_are_recovered() {
    let mut machine = Machine::new(&["/base"]);
    let mut client = client();
    machine.create(&mut client, &pod("weaver-x", &[], &[])).unwrap();
    let mut facts =
        ReconcileFacts { list: list_facts(), sessions: None, weavers: Vec::new() };
    assert!(matches!(
        client.reconcile(&facts),
        Progress::Need(ReconcileStep::List(ListStep::FindBaseDir { .. }))
    ));
    facts.list.base_dir_exists = Some(false);
    facts.sessions = Some(not_run());
    assert!(matches!(
        client.reconcile(&facts),
        Progress::Done(Err(LocalError::TmuxError { message }))
            if message == "failed to list sessions: gone"
    ));
    assert_eq!(client.weavers.get("x").unwrap().status, WeaverStatus::Running);
    facts.sessions = Some(ok(""));
    assert!(matches!(client.reconcile(&facts), Progress::Done(Ok(_))));
    assert_eq!(client.weavers.entries().len(), 1);
}

#[test]
fn weavers_recovered_before_a_failure_are_kept() {
    let mut machine = Machine::new(&["/base"]);
    let mut other = client();
    for id in ["a", "b", "c"] {
        machine.create(&mut other, &pod(&format!("weaver-{id}"), &[], &[])).unwrap();
    }
    let known = |id: &str| {
        let path = format!("/base/weaver-{id}/.loom/metadata.json");
        let record = machine.records.iter().find(|(at, _)| at == &path).unwrap();
        RecoverFacts {
            load: LoadFacts {
                loom_dir_exists: Some(true),
                metadata_text: Some(Ok("{}".to_string())),
                metadata: Some(Ok(record.1.clone())),
            },
            pane: Some(ok("0")),
            exit: None,
        }
    };
    let mut facts = ReconcileFacts {
        list: ListFacts {
            base_dir_exists: Some(true),
            names: Some(Ok(["a", "b", "c"].iter().map(|id| format!("weaver-{id}")).collect())),
            metadata_exists: Some(vec![true, true, true]),
        },
        sessions: Some(ok("weaver-a\nweaver-b\nweaver-c")),
        weavers: vec![known("a"), known("b"), known("c")],
    };
    facts.weavers[1].pane = Some(not_run());
    let mut client = client();
    assert!(matches!(
        client.reconcile(&facts),
        Progress::Done(Err(LocalError::TmuxError { message }))
            if message == "failed to check pane status: gone"
    ));
    assert_eq!(client.weavers.get("a").unwrap().status, WeaverStatus::Running);
    assert_eq!(client.weavers.entries().len(), 1);
}

#[test]
fn taken_session_stops_a_second_create() {
    let mut machine = Machine::new(&["/base", "/w"]);
    let mut client = client();
    let request = pod("weaver-x", &[("LOOM_WORKING_DIR", "/w")], &[]);
    machine.create(&mut client, &request).unwrap();
    machine.done.clear();
    assert!(matches!(
        machine.create(&mut client, &request),
        Err(K8sError::ApiError { message })
            if message == "tmux new-session failed: duplicate session"
    ));
    assert_eq!(machine.done, vec!["tmux new-session -d -s weaver-x -c /w"]);
    assert_eq!(machine.sessions, vec!["weaver-x"]);
}

#[test]
fn deleting_stops_where_tmux_fails() {
    let mut facts = delete_facts();
    facts.killed = Some(bad("lost server"));
    assert!(matches!(
        client().delete_pod("weaver-x", 0, &facts),
        Progress::Done(Err(K8sError::ApiError { message }))
            if message == "tmux kill-session failed: lost server"
    ));
    facts.killed = Some(ok(""));
    facts.load.loom_dir_exists = Some(false);
    facts.remove.dir_exists = Some(true);
    assert!(matches!(
        client().delete_pod("weaver-x", 0, &facts),
        Progress::Need(DeleteStep::Remove(RemoveStep::RemoveDir { path }))
            if path == "/base/weaver-x"
    ));
    facts.remove.removed = Some(Attempt::Failed("busy".to_string()));
    assert!(matches!(
        client().delete_pod("weaver-x", 0, &facts),
        Progress::Done(Err(K8sError::ApiError { message })) if message == "busy"
    ));
}

#[test]
fn other_names_are_refused() {
    let mut client = client();
    let expected = "invalid weaver id: pod";
    assert!(matches!(
        client.delete_pod("pod", 0, &delete_facts()),
        Progress::Done(Err(K8sError::ApiError { message })) if message == expected
    ));
    assert!(matches!(
        client.get_pod("pod", &InspectFacts::unknown()),
        Progress::Done(Err(K8sError::ApiError { message })) if message == expected
    ));
    assert!(matches!(
        client.stream_logs("pod", 0, &stream_facts()),
        Progress::Done(Err(K8sError::ApiError { message })) if message == expected
    ));
    assert!(matches!(
        client.exec_attach("pod", &exec_facts()),
        Progress::Done(Err(K8sError::ApiError { message })) if message == expected
    ));
}

fn stream_facts() -> StreamFacts {
    StreamFacts {
        log_exists: None,
        follow: FollowFacts { opened: None, content: None, reopened: None, watched: None },
    }
}

fn exec_facts() -> ExecFacts {
    ExecFacts {
        session: None,
        attach: AttachFacts { opened: None, spawned: None, reader: None, writer: None },
    }
}

#[test]
fn namespace_is_the_base_directory() {
    let client = client();
    let mut facts = NamespaceFacts { base_dir_exists: None, base_dir_made: None };
    assert!(matches!(
        client.get_namespace("any", &facts),
        Progress::Need(NamespaceStep::FindBaseDir { path }) if path == "/base"
    ));
    facts.base_dir_exists = Some(false);
    assert!(matches!(
        client.get_namespace("any", &facts),
        Progress::Need(NamespaceStep::MakeBaseDir { path }) if path == "/base"
    ));
    facts.base_dir_made = Some(Attempt::Failed("denied".to_string()));
    assert!(matches!(
        client.get_namespace("any", &facts),
        Progress::Done(Err(K8sError::NamespaceNotFound { name })) if name == "any"
    ));
    facts.base_dir_made = Some(Attempt::Succeeded);
    match client.get_namespace("any", &facts) {
        Progress::Done(Ok(namespace)) => {
            assert!(namespace.metadata.name.is_none());
            assert!(namespace.metadata.labels.is_none());
        }
        other => panic!("{other:?}"),
    }
    facts.base_dir_exists = Some(true);
    assert!(matches!(client.get_namespace("any", &facts), Progress::Done(Ok(_))));
}

#[test]
fn log_is_opened_at_its_tail() {
    let client = client();
    let mut facts = stream_facts();
    assert!(matches!(
        client.stream_logs("weaver-x", 1, &facts),
        Progress::Need(StreamStep::FindLog { path }) if path == "/base/weaver-x/.loom/output.log"
    ));
    facts.log_exists = Some(false);
    assert!(matches!(
        client.stream_logs("weaver-x", 1, &facts),
        Progress::Done(Err(K8sError::PodNotFound { name })) if name == "weaver-x"
    ));
    facts.log_exists = Some(true);
    assert!(matches!(
        client.stream_logs("weaver-x", 1, &facts),
        Progress::Need(StreamStep::Follow(FollowStep::Open { path }))
            if path == "/base/weaver-x/.loom/output.log"
    ));
    facts.follow.opened = Some(Err("denied".to_string()));
    assert!(matches!(
        client.stream_logs("weaver-x", 1, &facts),
        Progress::Done(Err(K8sError::StreamError { message }))
            if message == "failed to create log follower: denied"
    ));
    facts.follow.opened = Some(Ok(6));
    facts.follow.content = Some(Ok(b"ab\ncd\n".to_vec()));
    facts.follow.reopened = Some(Attempt::Succeeded);
    facts.follow.watched = Some(Attempt::Succeeded);
    match client.stream_logs("weaver-x", 1, &facts) {
        Progress::Done(Ok(follower)) => {
            assert_eq!(follower.position, 3);
            assert_eq!(follower.session_name, "weaver-x");
        }
        other => panic!("{other:?}"),
    }
}

#[test]
fn terminal_is_attached_to_a_session_that_exists() {
    let client = client();
    let mut facts = exec_facts();
    match client.exec_attach("weaver-x", &facts) {
        Progress::Need(ExecStep::FindSession { call }) => {
            assert_eq!(call.join(" "), "has-session -t weaver-x")
        }
        other => panic!("{other:?}"),
    }
    facts.session = Some(not_run());
    assert!(matches!(
        client.exec_attach("weaver-x", &facts),
        Progress::Done(Err(K8sError::ApiError { message }))
            if message == "failed to check session: gone"
    ));
    facts.session = Some(bad(""));
    assert!(matches!(
        client.exec_attach("weaver-x", &facts),
        Progress::Done(Err(K8sError::PodNotFound { name })) if name == "weaver-x"
    ));
    facts.session = Some(ok(""));
    assert!(matches!(
        client.exec_attach("weaver-x", &facts),
        Progress::Need(ExecStep::Attach(AttachStep::OpenPty { rows: 24, cols: 80 }))
    ));
    facts.attach.opened = Some(Attempt::Failed("none left".to_string()));
    assert!(matches!(
        client.exec_attach("weaver-x", &facts),
        Progress::Done(Err(K8sError::AttachError { message }))
            if message == "failed to open pty: none left"
    ));
    facts.attach.opened = Some(Attempt::Succeeded);
    facts.attach.spawned = Some(Attempt::Succeeded);
    facts.attach.reader = Some(Attempt::Succeeded);
    facts.attach.writer = Some(Attempt::Succeeded);
    match client.exec_attach("weaver-x", &facts) {
        Progress::Done(Ok(process)) => assert!(process.reader.buffer.is_empty()),
        other => panic!("{other:?}"),
    }
}

#[test]
fn everyone_on_this_machine_is_vouched_for() {
    let client = client();
    for token in ["", "secret"] {
        let result = client.validate_token(token, &["a", "b"]).unwrap();
        assert!(result.authenticated);
        assert_eq!(result.username, "local-user");
        assert!(result.groups.is_empty());
        assert!(result.extra.is_empty());
        assert!(result.audiences.is_empty());
    }
}

#[test]
fn weaver_copies_are_equal() {
    let weaver = LocalWeaver {
        metadata: WeaverMetadata::created(
            "x".to_string(),
            "i".to_string(),
            LabelMap::new(),
            "/w".to_string(),
            NOW,
        ),
        status: WeaverStatus::Running,
        dir: "/w".to_string(),
    };
    assert_eq!(format!("{:?}", weaver.clone()), format!("{weaver:?}"));
}
