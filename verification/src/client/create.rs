//! Creating a weaver from a pod.
use crate::client::LocalClient;
use crate::config::{
    env_value, find_env, find_label, map_value, resolved_dir, working_dir_annotation,
    working_dir_variable, ConfigView,
};
use crate::error::{K8sError, K8sErrorView, LocalError, LocalErrorView};
use crate::path::is_same_path;
use crate::pod::{EnvVar, EnvVarView, Pod, PodView};
use crate::pod_builder::{local_weaver_to_pod, parse_weaver_id, weaver_id, weaver_pod};
use crate::progress::{Attempt, Progress, Run};
use crate::shell::{command_line, loom_command_line};
use crate::text::{decimal, decimal_text};
use crate::text_map::LabelMap;
use crate::time::Timestamp;
use crate::tmux::{
    create_failure, new_session_words, pane_pid, pane_pid_words, pipe_pane_failure,
    pipe_pane_words, send_keys_failure, send_keys_words, words, TmuxSession,
};
use crate::weaver::{
    described, loading, session_of, storing, LoadFacts, LoadStep, LoadStepView, LocalWeaver,
    MetadataView, StoreFacts, StoreStep, StoreStepView, WeaverMetadata, WeaverStatus, WeaverView,
};
use vstd::prelude::*;
use vstd::string::*;

verus! {

/// The id of the weaver that a pod asks for: the one that its labels give, else
/// the one in its name.
pub open spec fn requested_id(pod: PodView) -> Option<Seq<char>> {
    let from_labels = match pod.metadata.labels {
        Some(labels) => map_value(labels, "loom.dev/weaver-id"@),
        None => None,
    };
    match from_labels {
        Some(id) => Some(id),
        None => match pod.metadata.name {
            Some(name) => weaver_id(name),
            None => None,
        },
    }
}

/// The labels of the weaver that a pod asks for. Labels come with a container.
pub open spec fn requested_labels(pod: PodView) -> Map<Seq<char>, Seq<char>> {
    match (pod.first_container(), pod.metadata.labels) {
        (Some(_), Some(labels)) => labels,
        _ => Map::empty(),
    }
}

/// The image of the weaver that a pod asks for.
pub open spec fn requested_image(pod: PodView) -> Seq<char> {
    match pod.first_container() {
        Some(container) => match container.image {
            Some(image) => image,
            None => "loom:latest"@,
        },
        None => "loom:latest"@,
    }
}

/// Those variables that have a value, in order.
pub open spec fn given_values(env: Seq<EnvVarView>) -> Seq<(Seq<char>, Seq<char>)>
    decreases env.len(),
{
    if env.len() == 0 {
        Seq::empty()
    } else {
        let front = given_values(env.drop_last());
        match env.last().value {
            Some(value) => front.push((env.last().name, value)),
            None => front,
        }
    }
}

/// The environment of the weaver that a pod asks for.
pub open spec fn requested_env(pod: PodView) -> Seq<(Seq<char>, Seq<char>)> {
    match pod.first_container() {
        Some(container) => match container.env {
            Some(env) => given_values(env),
            None => Seq::empty(),
        },
        None => Seq::empty(),
    }
}

/// The annotations of a pod.
pub open spec fn requested_annotations(pod: PodView) -> Map<Seq<char>, Seq<char>> {
    match pod.metadata.annotations {
        Some(annotations) => annotations,
        None => Map::empty(),
    }
}

fn given_variables(env: &Vec<EnvVar>) -> (given: Vec<(String, String)>)
    ensures
        given.deep_view() == given_values(env.deep_view()),
{
    let ghost all = env.deep_view();
    let mut given: Vec<(String, String)> = Vec::new();
    let mut i: usize = 0;
    assert(given.deep_view() =~= given_values(all.take(0)));
    while i < env.len()
        invariant
            i <= env@.len(),
            all == env.deep_view(),
            given.deep_view() == given_values(all.take(i as int)),
        decreases env@.len() - i,
    {
        let ghost before = given.deep_view();
        assert(all[i as int] == env@[i as int].deep_view());
        assert(all.take(i + 1).drop_last() =~= all.take(i as int));
        assert(all.take(i + 1).last() == all[i as int]);
        match &env[i].value {
            Some(value) => {
                given.push((env[i].name.clone(), value.clone()));
                assert(given.deep_view() =~= before.push((env@[i as int].name@, value@)));
            },
            None => {},
        }
        i = i + 1;
    }
    assert(all.take(all.len() as int) =~= all);
    given
}

impl LocalClient {
    /// The id of the weaver that a pod asks for.
    pub fn extract_weaver_id_from_pod(pod: &Pod) -> (id: Option<String>)
        ensures
            id.deep_view() == requested_id(pod@),
    {
        match &pod.metadata.labels {
            Some(labels) => {
                match find_label(labels, "loom.dev/weaver-id") {
                    Some(id) => {
                        return Some(id);
                    },
                    None => {},
                }
            },
            None => {},
        }
        match &pod.metadata.name {
            Some(name) => parse_weaver_id(name.as_str()),
            None => None,
        }
    }

    /// The labels of the weaver that a pod asks for.
    pub fn extract_labels_from_pod(pod: &Pod) -> (labels: LabelMap)
        ensures
            labels@ == requested_labels(pod@),
    {
        if pod.first_container().is_none() {
            return LabelMap::new();
        }
        match &pod.metadata.labels {
            Some(labels) => labels.clone(),
            None => LabelMap::new(),
        }
    }

    /// The image of the weaver that a pod asks for.
    pub fn extract_image_from_pod(pod: &Pod) -> (image: String)
        ensures
            image@ == requested_image(pod@),
    {
        match pod.first_container() {
            Some(container) => match &container.image {
                Some(image) => image.clone(),
                None => "loom:latest".to_owned(),
            },
            None => "loom:latest".to_owned(),
        }
    }

    /// The environment of the weaver that a pod asks for.
    pub fn extract_env_vars_from_pod(pod: &Pod) -> (env: Vec<(String, String)>)
        ensures
            env.deep_view() == requested_env(pod@),
    {
        let none: Vec<(String, String)> = Vec::new();
        assert(none.deep_view() =~= Seq::empty());
        match pod.first_container() {
            Some(container) => match &container.env {
                Some(env) => given_variables(env),
                None => none,
            },
            None => none,
        }
    }

    /// The annotations of a pod.
    pub fn extract_annotations_from_pod(pod: &Pod) -> (annotations: LabelMap)
        ensures
            annotations@ == requested_annotations(pod@),
    {
        match &pod.metadata.annotations {
            Some(annotations) => annotations.clone(),
            None => LabelMap::new(),
        }
    }
}

/// What is known while a weaver is created.
#[derive(Debug)]
pub struct CreateFacts {
    pub env_dir_exists: Option<bool>,
    pub annotation_dir_exists: Option<bool>,
    pub store: StoreFacts,
    pub workspace_made: Option<Attempt>,
    pub cloned: Option<Run>,
    pub session_made: Option<Run>,
    pub piped: Option<Run>,
    pub keys_sent: Option<Run>,
    pub pid: Option<Run>,
    pub pid_written: Option<Attempt>,
    pub load: LoadFacts,
}

/// What creating a weaver can ask for.
#[derive(Debug)]
pub enum CreateStep {
    /// Whether the directory that the environment names exists.
    FindEnvDir { path: String },
    /// Whether the directory that the annotations name exists.
    FindAnnotationDir { path: String },
    /// A step of storing the weaver's record.
    Store(StoreStep),
    /// A directory, with all above it.
    MakeWorkspace { path: String },
    /// A call of git.
    CloneRepo { call: Vec<String> },
    /// A call of tmux that makes the session.
    NewSession { call: Vec<String> },
    /// A call of tmux that sends the session's output to a file.
    PipePane { call: Vec<String> },
    /// A call of tmux that types a command line.
    SendKeys { call: Vec<String> },
    /// A call of tmux that tells the process in the session.
    AskPid { call: Vec<String> },
    /// A file with the text.
    WritePid { path: String, text: String },
    /// A step of loading the weaver's record.
    Load(LoadStep),
}

/// A [`CreateStep`] as text.
pub enum CreateStepView {
    FindEnvDir { path: Seq<char> },
    FindAnnotationDir { path: Seq<char> },
    Store(StoreStepView),
    MakeWorkspace { path: Seq<char> },
    CloneRepo { call: Seq<Seq<char>> },
    NewSession { call: Seq<Seq<char>> },
    PipePane { call: Seq<Seq<char>> },
    SendKeys { call: Seq<Seq<char>> },
    AskPid { call: Seq<Seq<char>> },
    WritePid { path: Seq<char>, text: Seq<char> },
    Load(LoadStepView),
}

impl View for CreateStep {
    type V = CreateStepView;

    open spec fn view(&self) -> CreateStepView {
        match self {
            CreateStep::FindEnvDir { path } => CreateStepView::FindEnvDir { path: path@ },
            CreateStep::FindAnnotationDir { path } => CreateStepView::FindAnnotationDir {
                path: path@,
            },
            CreateStep::Store(step) => CreateStepView::Store(step@),
            CreateStep::MakeWorkspace { path } => CreateStepView::MakeWorkspace { path: path@ },
            CreateStep::CloneRepo { call } => CreateStepView::CloneRepo { call: call.deep_view() },
            CreateStep::NewSession { call } => CreateStepView::NewSession {
                call: call.deep_view(),
            },
            CreateStep::PipePane { call } => CreateStepView::PipePane { call: call.deep_view() },
            CreateStep::SendKeys { call } => CreateStepView::SendKeys { call: call.deep_view() },
            CreateStep::AskPid { call } => CreateStepView::AskPid { call: call.deep_view() },
            CreateStep::WritePid { path, text } => CreateStepView::WritePid {
                path: path@,
                text: text@,
            },
            CreateStep::Load(step) => CreateStepView::Load(step@),
        }
    }
}

/// Whether creating a weaver must first find out if the directory that the
/// environment names exists.
pub open spec fn env_dir_open(pod: PodView, facts: CreateFacts) -> bool {
    env_value(requested_env(pod), working_dir_variable()) is Some && facts.env_dir_exists is None
}

/// Whether the directory that the environment names exists.
pub open spec fn env_dir_found(pod: PodView, facts: CreateFacts) -> bool {
    env_value(requested_env(pod), working_dir_variable()) is Some && facts.env_dir_exists == Some(
        true,
    )
}

/// Whether creating a weaver must first find out if the directory that the
/// annotations name exists.
pub open spec fn annotation_dir_open(pod: PodView, facts: CreateFacts) -> bool {
    !env_dir_found(pod, facts) && map_value(
        requested_annotations(pod),
        working_dir_annotation(),
    ) is Some && facts.annotation_dir_exists is None
}

/// Whether the directory that the annotations name exists.
pub open spec fn annotation_dir_found(pod: PodView, facts: CreateFacts) -> bool {
    map_value(requested_annotations(pod), working_dir_annotation()) is Some
        && facts.annotation_dir_exists == Some(true)
}

/// The record of the weaver that a pod asks for.
pub open spec fn requested_metadata(
    config: ConfigView,
    pod: PodView,
    id: Seq<char>,
    now: Timestamp,
    facts: CreateFacts,
) -> MetadataView {
    let env = requested_env(pod);
    let working_dir = resolved_dir(
        config,
        id,
        env,
        requested_annotations(pod),
        env_dir_found(pod, facts),
        annotation_dir_found(pod, facts),
    );
    MetadataView {
        env_vars: env,
        ..MetadataView::fresh(id, requested_image(pod), requested_labels(pod), working_dir, now)
    }
}

/// The directory in which a weaver's session starts: its working directory, or
/// the workspace in the weaver's own directory.
pub open spec fn session_dir(config: ConfigView, weaver: WeaverView) -> Seq<char> {
    let id = weaver.metadata.id;
    if config.is_fallback_dir(id, weaver.dir) {
        config.workspace_dir(id)
    } else {
        weaver.dir
    }
}

/// The call of git that clones a repository.
pub open spec fn clone_words(repo: Seq<char>, dir: Seq<char>) -> Seq<Seq<char>> {
    seq!["clone"@, repo, dir]
}

/// Making the workspace of a weaver that works in its own directory: the
/// directory, and in it a clone of the repository that the environment names.
/// A failed clone leaves the workspace as it is.
pub open spec fn preparing(config: ConfigView, weaver: WeaverView, facts: CreateFacts) -> Progress<
    CreateStepView,
    WeaverView,
    LocalErrorView,
> {
    let id = weaver.metadata.id;
    let workspace = config.workspace_dir(id);
    if !config.is_fallback_dir(id, weaver.dir) {
        Progress::Done(Ok(weaver))
    } else {
        match facts.workspace_made {
            None => Progress::Need(CreateStepView::MakeWorkspace { path: workspace }),
            Some(Attempt::Failed(reason)) => Progress::Done(Err(LocalErrorView::Io(reason@))),
            Some(Attempt::Succeeded) => match env_value(weaver.metadata.env_vars, "LOOM_REPO"@) {
                Some(repo) => if facts.cloned is None {
                    Progress::Need(CreateStepView::CloneRepo { call: clone_words(repo, workspace) })
                } else {
                    Progress::Done(Ok(weaver))
                },
                None => Progress::Done(Ok(weaver)),
            },
        }
    }
}

/// Starting loom in a session of its own, with its output sent to the log.
pub open spec fn launching(config: ConfigView, weaver: WeaverView, facts: CreateFacts) -> Progress<
    CreateStepView,
    WeaverView,
    LocalErrorView,
> {
    let id = weaver.metadata.id;
    let session = session_of(id);
    match facts.session_made {
        None => Progress::Need(
            CreateStepView::NewSession {
                call: new_session_words(session, session_dir(config, weaver)),
            },
        ),
        Some(run) => match create_failure(run) {
            Some(error) => Progress::Done(Err(error)),
            None => match facts.piped {
                None => Progress::Need(
                    CreateStepView::PipePane {
                        call: pipe_pane_words(session, config.output_log_path(id)),
                    },
                ),
                Some(run) => match pipe_pane_failure(run) {
                    Some(error) => Progress::Done(Err(error)),
                    None => match facts.keys_sent {
                        None => Progress::Need(
                            CreateStepView::SendKeys {
                                call: send_keys_words(
                                    session,
                                    loom_command_line(config, weaver.metadata.env_vars),
                                ),
                            },
                        ),
                        Some(run) => match send_keys_failure(run) {
                            Some(error) => Progress::Done(Err(error)),
                            None => Progress::Done(Ok(weaver)),
                        },
                    },
                },
            },
        },
    }
}

/// Noting the process of a weaver, if tmux tells it.
pub open spec fn noting_pid(config: ConfigView, weaver: WeaverView, facts: CreateFacts) -> Progress<
    CreateStepView,
    WeaverView,
    LocalErrorView,
> {
    let id = weaver.metadata.id;
    match facts.pid {
        None => Progress::Need(CreateStepView::AskPid { call: pane_pid_words(session_of(id)) }),
        Some(run) => match pane_pid(run) {
            Err(error) => Progress::Done(Err(error)),
            Ok(None) => Progress::Done(Ok(weaver)),
            Ok(Some(pid)) => match facts.pid_written {
                None => Progress::Need(
                    CreateStepView::WritePid {
                        path: config.pid_path(id),
                        text: decimal(pid as nat),
                    },
                ),
                Some(Attempt::Failed(reason)) => Progress::Done(Err(LocalErrorView::Io(reason@))),
                Some(Attempt::Succeeded) => Progress::Done(Ok(weaver)),
            },
        },
    }
}

/// Reading back the record of a weaver that runs.
pub open spec fn reading_back(config: ConfigView, id: Seq<char>, facts: CreateFacts) -> Progress<
    CreateStepView,
    WeaverView,
    LocalErrorView,
> {
    match loading(config, id, facts.load) {
        Progress::Need(step) => Progress::Need(CreateStepView::Load(step)),
        Progress::Done(Err(error)) => Progress::Done(Err(error)),
        Progress::Done(Ok(weaver)) => Progress::Done(
            Ok(WeaverView { status: WeaverStatus::Running, ..weaver }),
        ),
    }
}

/// Starting a weaver whose record is stored.
pub open spec fn starting(config: ConfigView, weaver: WeaverView, facts: CreateFacts) -> Progress<
    CreateStepView,
    WeaverView,
    LocalErrorView,
> {
    match preparing(config, weaver, facts) {
        Progress::Done(Ok(_)) => match launching(config, weaver, facts) {
            Progress::Done(Ok(_)) => match noting_pid(config, weaver, facts) {
                Progress::Done(Ok(_)) => reading_back(config, weaver.metadata.id, facts),
                other => other,
            },
            other => other,
        },
        other => other,
    }
}

/// Creating the weaver that a pod asks for: choose its working directory, store
/// its record, and start it.
pub open spec fn creating(
    config: ConfigView,
    pod: PodView,
    now: Timestamp,
    facts: CreateFacts,
) -> Progress<CreateStepView, WeaverView, LocalErrorView> {
    match requested_id(pod) {
        None => Progress::Done(
            Err(
                LocalErrorView::InvalidWeaverId {
                    id: match pod.metadata.name {
                        Some(name) => name,
                        None => Seq::empty(),
                    },
                },
            ),
        ),
        Some(id) => if env_dir_open(pod, facts) {
            Progress::Need(
                CreateStepView::FindEnvDir {
                    path: env_value(requested_env(pod), working_dir_variable())->0,
                },
            )
        } else if annotation_dir_open(pod, facts) {
            Progress::Need(
                CreateStepView::FindAnnotationDir {
                    path: map_value(requested_annotations(pod), working_dir_annotation())->0,
                },
            )
        } else {
            let metadata = requested_metadata(config, pod, id, now, facts);
            match storing(config, metadata, facts.store) {
                Progress::Need(step) => Progress::Need(CreateStepView::Store(step)),
                Progress::Done(Err(error)) => Progress::Done(Err(error)),
                Progress::Done(Ok(weaver)) => starting(config, weaver, facts),
            }
        },
    }
}

/// The pod that is shown once a weaver is created.
pub open spec fn created_pod(
    progress: Progress<CreateStepView, WeaverView, LocalErrorView>,
) -> Progress<CreateStepView, PodView, K8sErrorView> {
    match progress {
        Progress::Need(step) => Progress::Need(step),
        Progress::Done(Ok(weaver)) => Progress::Done(Ok(weaver_pod(weaver))),
        Progress::Done(Err(error)) => Progress::Done(Err(error.as_k8s())),
    }
}

/// What a step of creating a weaver gave: the next step to ask for, or an error,
/// or nothing that stands in the way.
enum Gate {
    Ask(CreateStep),
    Refuse(LocalError),
    Pass,
}

impl Gate {
    spec fn is_gate(self, progress: Progress<CreateStepView, WeaverView, LocalErrorView>) -> bool {
        match self {
            Gate::Ask(step) => progress == Progress::<
                CreateStepView,
                WeaverView,
                LocalErrorView,
            >::Need(step@),
            Gate::Refuse(error) => progress == Progress::<
                CreateStepView,
                WeaverView,
                LocalErrorView,
            >::Done(Err(error@)),
            Gate::Pass => progress is Done && progress->Done_0 is Ok,
        }
    }
}

fn prepare(client: &LocalClient, weaver: &LocalWeaver, facts: &CreateFacts) -> (gate: Gate)
    ensures
        gate.is_gate(preparing(client@.config, weaver@, *facts)),
{
    let id = weaver.metadata.id.as_str();
    let fallback = is_same_path(weaver.dir.as_str(), client.config.weaver_dir(id).as_str());
    if !fallback {
        return Gate::Pass;
    }
    let workspace = client.config.workspace_dir(id);
    match &facts.workspace_made {
        None => {
            return Gate::Ask(CreateStep::MakeWorkspace { path: workspace });
        },
        Some(Attempt::Failed(reason)) => {
            return Gate::Refuse(LocalError::Io(reason.clone()));
        },
        Some(Attempt::Succeeded) => {},
    }
    match find_env(weaver.metadata.env_vars.as_slice(), "LOOM_REPO") {
        Some(repo) => {
            if facts.cloned.is_none() {
                let call = words(&["clone", repo.as_str(), workspace.as_str()]);
                assert(call.deep_view() =~= clone_words(repo@, workspace@));
                return Gate::Ask(CreateStep::CloneRepo { call });
            }
            Gate::Pass
        },
        None => Gate::Pass,
    }
}

fn launch(client: &LocalClient, weaver: &LocalWeaver, facts: &CreateFacts) -> (gate: Gate)
    ensures
        gate.is_gate(launching(client@.config, weaver@, *facts)),
{
    let id = weaver.metadata.id.as_str();
    let session = TmuxSession::new(weaver.session_name());
    let run = match &facts.session_made {
        None => {
            let own_dir = client.config.weaver_dir(id);
            let dir = if is_same_path(weaver.dir.as_str(), own_dir.as_str()) {
                client.config.workspace_dir(id)
            } else {
                weaver.dir.clone()
            };
            return Gate::Ask(CreateStep::NewSession { call: session.create_command(dir.as_str()) });
        },
        Some(run) => run,
    };
    match session.create(run) {
        Err(error) => {
            return Gate::Refuse(error);
        },
        Ok(_) => {},
    }
    let run = match &facts.piped {
        None => {
            let log = client.config.output_log_path(id);
            return Gate::Ask(CreateStep::PipePane { call: session.pipe_pane_command(log.as_str()) });
        },
        Some(run) => run,
    };
    match session.pipe_pane(run) {
        Err(error) => {
            return Gate::Refuse(error);
        },
        Ok(_) => {},
    }
    let run = match &facts.keys_sent {
        None => {
            let line = command_line(&client.config, weaver.metadata.env_vars.as_slice());
            return Gate::Ask(
                CreateStep::SendKeys { call: session.send_keys_command(line.as_str()) },
            );
        },
        Some(run) => run,
    };
    match session.send_keys(run) {
        Err(error) => Gate::Refuse(error),
        Ok(_) => Gate::Pass,
    }
}

fn note_pid(client: &LocalClient, weaver: &LocalWeaver, facts: &CreateFacts) -> (gate: Gate)
    ensures
        gate.is_gate(noting_pid(client@.config, weaver@, *facts)),
{
    let session = TmuxSession::new(weaver.session_name());
    let run = match &facts.pid {
        None => {
            return Gate::Ask(CreateStep::AskPid { call: session.pane_pid_command() });
        },
        Some(run) => run,
    };
    let pid: u32 = match session.get_pane_pid(run) {
        Err(error) => {
            return Gate::Refuse(error);
        },
        Ok(None) => {
            return Gate::Pass;
        },
        Ok(Some(pid)) => pid,
    };
    match &facts.pid_written {
        None => Gate::Ask(
            CreateStep::WritePid {
                path: client.config.pid_path(weaver.metadata.id.as_str()),
                text: decimal_text(pid),
            },
        ),
        Some(Attempt::Failed(reason)) => Gate::Refuse(LocalError::Io(reason.clone())),
        Some(Attempt::Succeeded) => Gate::Pass,
    }
}

fn start(client: &LocalClient, weaver: &LocalWeaver, facts: &CreateFacts) -> (progress: Progress<
    CreateStep,
    LocalWeaver,
    LocalError,
>)
    ensures
        progress@ == starting(client@.config, weaver@, *facts),
{
    match prepare(client, weaver, facts) {
        Gate::Ask(step) => {
            return Progress::Need(step);
        },
        Gate::Refuse(error) => {
            return Progress::Done(Err(error));
        },
        Gate::Pass => {},
    }
    match launch(client, weaver, facts) {
        Gate::Ask(step) => {
            return Progress::Need(step);
        },
        Gate::Refuse(error) => {
            return Progress::Done(Err(error));
        },
        Gate::Pass => {},
    }
    match note_pid(client, weaver, facts) {
        Gate::Ask(step) => {
            return Progress::Need(step);
        },
        Gate::Refuse(error) => {
            return Progress::Done(Err(error));
        },
        Gate::Pass => {},
    }
    match LocalWeaver::load(&client.config, weaver.metadata.id.as_str(), &facts.load) {
        Progress::Need(step) => Progress::Need(CreateStep::Load(step)),
        Progress::Done(Err(error)) => Progress::Done(Err(error)),
        Progress::Done(Ok(loaded)) => Progress::Done(
            Ok(LocalWeaver { status: WeaverStatus::Running, ..loaded }),
        ),
    }
}

impl LocalClient {
    /// Creates the weaver that a pod asks for.
    pub fn create_weaver(&self, pod: &Pod, now: Timestamp, facts: &CreateFacts) -> (progress:
        Progress<CreateStep, LocalWeaver, LocalError>)
        ensures
            progress@ == creating(self@.config, pod@, now, *facts),
    {
        let id = match Self::extract_weaver_id_from_pod(pod) {
            None => {
                let id = match &pod.metadata.name {
                    Some(name) => name.clone(),
                    None => String::new(),
                };
                return Progress::Done(Err(LocalError::InvalidWeaverId { id }));
            },
            Some(id) => id,
        };
        let env_vars = Self::extract_env_vars_from_pod(pod);
        let annotations = Self::extract_annotations_from_pod(pod);
        let env_dir = find_env(env_vars.as_slice(), "LOOM_WORKING_DIR");
        let annotation_dir = find_label(&annotations, "loom.dev/working-dir");
        let env_found = match (env_dir, facts.env_dir_exists) {
            (None, _) => false,
            (Some(path), None) => {
                return Progress::Need(CreateStep::FindEnvDir { path });
            },
            (Some(_), Some(found)) => found,
        };
        let annotation_found = match (annotation_dir, facts.annotation_dir_exists) {
            (None, _) => false,
            (Some(path), None) => {
                if !env_found {
                    return Progress::Need(CreateStep::FindAnnotationDir { path });
                }
                false
            },
            (Some(_), Some(found)) => found,
        };
        let working_dir = self.config.resolve_working_dir(
            id.as_str(),
            env_vars.as_slice(),
            &annotations,
            env_found,
            annotation_found,
        );
        let metadata = WeaverMetadata::created(
            id,
            Self::extract_image_from_pod(pod),
            Self::extract_labels_from_pod(pod),
            working_dir,
            now,
        ).with_env_vars(env_vars);
        match LocalWeaver::create(&self.config, &metadata, &facts.store) {
            Progress::Need(step) => Progress::Need(CreateStep::Store(step)),
            Progress::Done(Err(error)) => Progress::Done(Err(error)),
            Progress::Done(Ok(weaver)) => start(self, &weaver, facts),
        }
    }

    /// Creates the weaver that a pod asks for, and shows it. A weaver that was
    /// created is known to the backend from then on.
    pub fn create_pod(&mut self, pod: &Pod, now: Timestamp, facts: &CreateFacts) -> (progress:
        Progress<CreateStep, Pod, K8sError>)
        ensures
            progress@ == created_pod(creating(old(self)@.config, pod@, now, *facts)),
            final(self)@.config == old(self)@.config,
            final(self)@.weavers == match creating(old(self)@.config, pod@, now, *facts) {
                Progress::Done(Ok(weaver)) => old(self)@.weavers.insert(
                    requested_id(pod@)->0,
                    weaver,
                ),
                _ => old(self)@.weavers,
            },
    {
        match self.create_weaver(pod, now, facts) {
            Progress::Need(step) => Progress::Need(step),
            Progress::Done(Err(error)) => Progress::Done(Err(K8sError::from(error))),
            Progress::Done(Ok(weaver)) => {
                let shown = local_weaver_to_pod(&weaver);
                match Self::extract_weaver_id_from_pod(pod) {
                    Some(id) => {
                        self.weavers.insert(id, weaver);
                    },
                    None => {},
                }
                Progress::Done(Ok(shown))
            },
        }
    }
}

/// Nothing is started before the weaver's record stands in its place.
pub proof fn law_record_precedes_start(
    config: ConfigView,
    pod: PodView,
    now: Timestamp,
    facts: CreateFacts,
    step: CreateStepView,
)
    requires
        creating(config, pod, now, facts) == Progress::<
            CreateStepView,
            WeaverView,
            LocalErrorView,
        >::Need(step),
        !(step is FindEnvDir),
        !(step is FindAnnotationDir),
        !(step is Store),
    ensures
        facts.store.loom_dir_made == Some(Attempt::Succeeded),
        facts.store.temp_written == Some(Attempt::Succeeded),
        facts.store.renamed == Some(Attempt::Succeeded),
        facts.store.log_emptied == Some(Attempt::Succeeded),
{
}

/// A weaver's session is named after its id and starts in a directory that
/// exists: the one that the environment or the annotations name, which was
/// found, or else the workspace, which was made.
pub proof fn law_session_starts_in_an_existing_directory(
    config: ConfigView,
    pod: PodView,
    now: Timestamp,
    facts: CreateFacts,
    call: Seq<Seq<char>>,
)
    requires
        creating(config, pod, now, facts) == Progress::<
            CreateStepView,
            WeaverView,
            LocalErrorView,
        >::Need(CreateStepView::NewSession { call }),
    ensures
        ({
            let id = requested_id(pod)->0;
            let dir = call[5];
            &&& call == new_session_words(session_of(id), dir)
            &&& {
                ||| env_dir_found(pod, facts) && env_value(
                    requested_env(pod),
                    working_dir_variable(),
                ) == Some(dir)
                ||| annotation_dir_found(pod, facts) && map_value(
                    requested_annotations(pod),
                    working_dir_annotation(),
                ) == Some(dir)
                ||| facts.workspace_made == Some(Attempt::Succeeded) && dir == config.workspace_dir(
                    id,
                )
            }
        }),
{
    let id = requested_id(pod)->0;
    let weaver = described(config, requested_metadata(config, pod, id, now, facts));
    assert(call == new_session_words(session_of(id), session_dir(config, weaver)));
    assert(call[5] == session_dir(config, weaver));
}

/// Loom is started only in a session whose output already goes to the log.
pub proof fn law_log_precedes_loom(
    config: ConfigView,
    pod: PodView,
    now: Timestamp,
    facts: CreateFacts,
    call: Seq<Seq<char>>,
)
    requires
        creating(config, pod, now, facts) == Progress::<
            CreateStepView,
            WeaverView,
            LocalErrorView,
        >::Need(CreateStepView::SendKeys { call }),
    ensures
        facts.session_made is Some,
        create_failure(facts.session_made->0) is None,
        facts.piped is Some,
        pipe_pane_failure(facts.piped->0) is None,
{
}

/// A weaver that was created runs, and its pod says so. Its session was made, its
/// output goes to the log, and its command line was typed.
pub proof fn law_created_weaver_runs(
    config: ConfigView,
    pod: PodView,
    now: Timestamp,
    facts: CreateFacts,
    weaver: WeaverView,
)
    requires
        creating(config, pod, now, facts) == Progress::<
            CreateStepView,
            WeaverView,
            LocalErrorView,
        >::Done(Ok(weaver)),
    ensures
        weaver.status == WeaverStatus::Running,
        weaver_pod(weaver).status->0.phase == Some("Running"@),
        facts.session_made is Some,
        create_failure(facts.session_made->0) is None,
        facts.piped is Some,
        pipe_pane_failure(facts.piped->0) is None,
        facts.keys_sent is Some,
        send_keys_failure(facts.keys_sent->0) is None,
{
}

/// Nothing is started in a session that was not made by this request: where tmux
/// refuses to make it, as it does where a session of that name is there already, no
/// output is redirected, no command line typed and no process noted, and the weaver
/// is not created. This holds whatever directory the weaver works in.
pub proof fn law_refused_session_starts_nothing(
    config: ConfigView,
    pod: PodView,
    now: Timestamp,
    facts: CreateFacts,
)
    requires
        facts.session_made is Some,
        create_failure(facts.session_made->0) is Some,
    ensures
        !(creating(config, pod, now, facts) matches Progress::Need(
            CreateStepView::PipePane { .. },
        )),
        !(creating(config, pod, now, facts) matches Progress::Need(
            CreateStepView::SendKeys { .. },
        )),
        !(creating(config, pod, now, facts) matches Progress::Need(CreateStepView::AskPid { .. })),
        !(creating(config, pod, now, facts) matches Progress::Need(
            CreateStepView::WritePid { .. },
        )),
        !(creating(config, pod, now, facts) matches Progress::Done(Ok(_))),
{
}

/// A weaver that would work in its own directory is not created again where that
/// directory exists already.
pub proof fn law_existing_weaver_is_refused(
    config: ConfigView,
    pod: PodView,
    now: Timestamp,
    facts: CreateFacts,
)
    requires
        requested_id(pod) is Some,
        !env_dir_open(pod, facts),
        !annotation_dir_open(pod, facts),
        ({
            let id = requested_id(pod)->0;
            let metadata = requested_metadata(config, pod, id, now, facts);
            config.is_fallback_dir(id, metadata.effective_working_dir(config))
        }),
        facts.store.working_dir_exists == Some(true),
    ensures
        creating(config, pod, now, facts) == Progress::<
            CreateStepView,
            WeaverView,
            LocalErrorView,
        >::Done(Err(LocalErrorView::WeaverExists { id: requested_id(pod)->0 })),
{
}

} // verus!
