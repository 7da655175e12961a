//! Logs, terminals, the namespace, and who may use them.
use crate::client::delete::{deleted_pod, deleting, DeleteFacts, DeleteStepView};
use crate::client::show::{getting, InspectFacts, InspectStepView};
use crate::client::LocalClient;
use crate::config::ConfigView;
use crate::error::{K8sError, K8sErrorView, LocalError, LocalErrorView};
use crate::log_follower::{
    following, FollowFacts, FollowStep, FollowStepView, FollowerView, LogFollower,
};
use crate::pod::{ObjectMeta, ObjectMetaView, PodView};
use crate::pod_builder::{law_pod_name_and_id_correspond, parse_weaver_id, weaver_id};
use crate::progress::{Attempt, Progress, Run};
use crate::pty::{
    attaching, AttachFacts, AttachStep, AttachStepView, ProcessView, PtyProcess,
};
use crate::text::join2;
use crate::tmux::{has_session_words, presence, TmuxSession};
use crate::weaver::{session_of, Finished};
use vstd::prelude::*;
use vstd::string::*;

verus! {

/// A namespace.
#[derive(Debug)]
pub struct Namespace {
    pub metadata: ObjectMeta,
}

impl View for Namespace {
    type V = ObjectMetaView;

    open spec fn view(&self) -> ObjectMetaView {
        self.metadata.deep_view()
    }
}

/// Nothing set.
pub open spec fn no_metadata() -> ObjectMetaView {
    ObjectMetaView {
        name: None,
        namespace: None,
        labels: None,
        annotations: None,
        creation_timestamp: None,
    }
}

impl Default for Namespace {
    fn default() -> (namespace: Self)
        ensures
            namespace@ == no_metadata(),
    {
        Namespace {
            metadata: ObjectMeta {
                name: None,
                namespace: None,
                labels: None,
                annotations: None,
                creation_timestamp: None,
            },
        }
    }
}

/// What is known while the namespace is got.
#[derive(Debug)]
pub struct NamespaceFacts {
    pub base_dir_exists: Option<bool>,
    pub base_dir_made: Option<Attempt>,
}

/// What getting the namespace can ask for.
#[derive(Debug)]
pub enum NamespaceStep {
    /// Whether the base directory exists.
    FindBaseDir { path: String },
    /// A directory, with all above it.
    MakeBaseDir { path: String },
}

/// A [`NamespaceStep`] as text.
pub enum NamespaceStepView {
    FindBaseDir { path: Seq<char> },
    MakeBaseDir { path: Seq<char> },
}

impl View for NamespaceStep {
    type V = NamespaceStepView;

    open spec fn view(&self) -> NamespaceStepView {
        match self {
            NamespaceStep::FindBaseDir { path } => NamespaceStepView::FindBaseDir { path: path@ },
            NamespaceStep::MakeBaseDir { path } => NamespaceStepView::MakeBaseDir { path: path@ },
        }
    }
}

/// Getting the namespace: the base directory stands for it, under any name.
pub open spec fn getting_namespace(
    config: ConfigView,
    name: Seq<char>,
    facts: NamespaceFacts,
) -> Progress<NamespaceStepView, ObjectMetaView, K8sErrorView> {
    match facts.base_dir_exists {
        None => Progress::Need(NamespaceStepView::FindBaseDir { path: config.base_dir }),
        Some(true) => Progress::Done(Ok(no_metadata())),
        Some(false) => match facts.base_dir_made {
            None => Progress::Need(NamespaceStepView::MakeBaseDir { path: config.base_dir }),
            Some(Attempt::Failed(_)) => Progress::Done(
                Err(K8sErrorView::NamespaceNotFound { name }),
            ),
            Some(Attempt::Succeeded) => Progress::Done(Ok(no_metadata())),
        },
    }
}

/// What is known while a log is opened.
#[derive(Debug)]
pub struct StreamFacts {
    pub log_exists: Option<bool>,
    pub follow: FollowFacts,
}

/// What opening a log can ask for.
#[derive(Debug)]
pub enum StreamStep {
    /// Whether the log exists.
    FindLog { path: String },
    /// A step of setting up a follower.
    Follow(FollowStep),
}

/// A [`StreamStep`] as text.
pub enum StreamStepView {
    FindLog { path: Seq<char> },
    Follow(FollowStepView),
}

impl View for StreamStep {
    type V = StreamStepView;

    open spec fn view(&self) -> StreamStepView {
        match self {
            StreamStep::FindLog { path } => StreamStepView::FindLog { path: path@ },
            StreamStep::Follow(step) => StreamStepView::Follow(step@),
        }
    }
}

/// Opening the log of a weaver, at its last lines.
pub open spec fn streaming(
    config: ConfigView,
    name: Seq<char>,
    tail_lines: nat,
    facts: StreamFacts,
) -> Progress<StreamStepView, FollowerView, K8sErrorView> {
    match weaver_id(name) {
        None => Progress::Done(Err((LocalErrorView::InvalidWeaverId { id: name }).as_k8s())),
        Some(id) => match facts.log_exists {
            None => Progress::Need(StreamStepView::FindLog { path: config.output_log_path(id) }),
            Some(false) => Progress::Done(Err(K8sErrorView::PodNotFound { name })),
            Some(true) => match following(
                config.output_log_path(id),
                session_of(id),
                tail_lines,
                facts.follow,
            ) {
                Progress::Need(step) => Progress::Need(StreamStepView::Follow(step)),
                Progress::Done(Ok(follower)) => Progress::Done(Ok(follower)),
                Progress::Done(Err(reason)) => Progress::Done(
                    Err(
                        K8sErrorView::StreamError {
                            message: "failed to create log follower: "@ + reason,
                        },
                    ),
                ),
            },
        },
    }
}

/// What is known while a terminal is attached to a weaver.
#[derive(Debug)]
pub struct ExecFacts {
    pub session: Option<Run>,
    pub attach: AttachFacts,
}

/// What attaching a terminal to a weaver can ask for.
#[derive(Debug)]
pub enum ExecStep {
    /// A call of tmux that finds the session.
    FindSession { call: Vec<String> },
    /// A step of attaching a terminal.
    Attach(AttachStep),
}

/// An [`ExecStep`] as text.
pub enum ExecStepView {
    FindSession { call: Seq<Seq<char>> },
    Attach(AttachStepView),
}

impl View for ExecStep {
    type V = ExecStepView;

    open spec fn view(&self) -> ExecStepView {
        match self {
            ExecStep::FindSession { call } => ExecStepView::FindSession { call: call.deep_view() },
            ExecStep::Attach(step) => ExecStepView::Attach(step@),
        }
    }
}

/// Attaching a terminal to the session of a weaver.
pub open spec fn executing(name: Seq<char>, facts: ExecFacts) -> Progress<
    ExecStepView,
    ProcessView,
    K8sErrorView,
> {
    match weaver_id(name) {
        None => Progress::Done(Err((LocalErrorView::InvalidWeaverId { id: name }).as_k8s())),
        Some(id) => match facts.session {
            None => Progress::Need(
                ExecStepView::FindSession { call: has_session_words(session_of(id)) },
            ),
            Some(run) => match presence(run) {
                Err(error) => Progress::Done(Err(error.as_k8s())),
                Ok(false) => Progress::Done(Err(K8sErrorView::PodNotFound { name })),
                Ok(true) => match attaching(session_of(id), facts.attach) {
                    Progress::Need(step) => Progress::Need(ExecStepView::Attach(step)),
                    Progress::Done(Ok(process)) => Progress::Done(Ok(process)),
                    Progress::Done(Err(error)) => Progress::Done(Err(error.as_k8s())),
                },
            },
        },
    }
}

/// What is known about the bearer of a token.
#[derive(Debug)]
pub struct TokenReviewResult {
    pub authenticated: bool,
    pub username: String,
    pub groups: Vec<String>,
    pub extra: Vec<(String, Vec<String>)>,
    pub audiences: Vec<String>,
}

impl TokenReviewResult {
    /// Someone who is who they say they are.
    pub fn authenticated(
        username: String,
        groups: Vec<String>,
        extra: Vec<(String, Vec<String>)>,
        audiences: Vec<String>,
    ) -> (result: Self)
        ensures
            result == (TokenReviewResult {
                authenticated: true,
                username,
                groups,
                extra,
                audiences,
            }),
    {
        TokenReviewResult { authenticated: true, username, groups, extra, audiences }
    }
}

impl LocalClient {
    /// Gets the namespace, making the base directory if it is not there.
    pub fn get_namespace(&self, name: &str, facts: &NamespaceFacts) -> (progress: Progress<
        NamespaceStep,
        Namespace,
        K8sError,
    >)
        ensures
            progress@ == getting_namespace(self@.config, name@, *facts),
    {
        match facts.base_dir_exists {
            None => {
                return Progress::Need(
                    NamespaceStep::FindBaseDir { path: self.config.base_dir.clone() },
                );
            },
            Some(found) => {
                if found {
                    return Progress::Done(Ok(Namespace::default()));
                }
            },
        }
        match &facts.base_dir_made {
            None => Progress::Need(
                NamespaceStep::MakeBaseDir { path: self.config.base_dir.clone() },
            ),
            Some(Attempt::Failed(_)) => Progress::Done(
                Err(K8sError::NamespaceNotFound { name: name.to_owned() }),
            ),
            Some(Attempt::Succeeded) => Progress::Done(Ok(Namespace::default())),
        }
    }

    /// Opens the log of a weaver, at its last lines.
    pub fn stream_logs(&self, name: &str, tail: u32, facts: &StreamFacts) -> (progress: Progress<
        StreamStep,
        LogFollower,
        K8sError,
    >)
        ensures
            progress@ == streaming(self@.config, name@, tail as nat, *facts),
    {
        let id = match parse_weaver_id(name) {
            None => {
                let error = LocalError::InvalidWeaverId { id: name.to_owned() };
                return Progress::Done(Err(K8sError::from(error)));
            },
            Some(id) => id,
        };
        let log_path = self.config.output_log_path(id.as_str());
        match facts.log_exists {
            None => {
                return Progress::Need(StreamStep::FindLog { path: log_path });
            },
            Some(found) => {
                if !found {
                    return Progress::Done(Err(K8sError::PodNotFound { name: name.to_owned() }));
                }
            },
        }
        let session_name = join2("weaver-", id.as_str());
        match LogFollower::new(log_path.as_str(), session_name, tail as u64, &facts.follow) {
            Progress::Need(step) => Progress::Need(StreamStep::Follow(step)),
            Progress::Done(Ok(follower)) => Progress::Done(Ok(follower)),
            Progress::Done(Err(reason)) => Progress::Done(
                Err(
                    K8sError::StreamError {
                        message: join2("failed to create log follower: ", reason.as_str()),
                    },
                ),
            ),
        }
    }

    /// Attaches a terminal to the session of a weaver. Its reader has received
    /// nothing yet.
    pub fn exec_attach(&self, name: &str, facts: &ExecFacts) -> (progress: Progress<
        ExecStep,
        PtyProcess,
        K8sError,
    >)
        ensures
            progress@ == executing(name@, *facts),
            progress matches Progress::Done(Ok(process)) ==> process.reader@.len() == 0,
    {
        let id = match parse_weaver_id(name) {
            None => {
                let error = LocalError::InvalidWeaverId { id: name.to_owned() };
                return Progress::Done(Err(K8sError::from(error)));
            },
            Some(id) => id,
        };
        let session_name = join2("weaver-", id.as_str());
        let session = TmuxSession::new(session_name.clone());
        let run = match &facts.session {
            None => {
                return Progress::Need(
                    ExecStep::FindSession { call: session.session_exists_command() },
                );
            },
            Some(run) => run,
        };
        match session.session_exists(run) {
            Err(error) => {
                return Progress::Done(Err(K8sError::from(error)));
            },
            Ok(there) => {
                if !there {
                    return Progress::Done(Err(K8sError::PodNotFound { name: name.to_owned() }));
                }
            },
        }
        match PtyProcess::spawn_tmux_attach(session_name.as_str(), &facts.attach) {
            Progress::Need(step) => Progress::Need(ExecStep::Attach(step)),
            Progress::Done(Ok(process)) => Progress::Done(Ok(process)),
            Progress::Done(Err(error)) => Progress::Done(Err(K8sError::from(error))),
        }
    }

    /// Vouches for whoever is on this machine, whatever token they show and for
    /// whatever audiences.
    pub fn validate_token(&self, token: &str, audiences: &[&str]) -> (result: Result<
        TokenReviewResult,
        K8sError,
    >)
        ensures
            result is Ok,
            result->Ok_0.authenticated,
            result->Ok_0.username@ == "local-user"@,
            result->Ok_0.groups@.len() == 0,
            result->Ok_0.extra@.len() == 0,
            result->Ok_0.audiences@.len() == 0,
    {
        Ok(
            TokenReviewResult::authenticated(
                "local-user".to_owned(),
                Vec::new(),
                Vec::new(),
                Vec::new(),
            ),
        )
    }
}

/// A missing pod is answered with its name, however it was found to be missing:
/// by its log or by its session.
pub proof fn law_missing_pod_is_named(
    config: ConfigView,
    id: Seq<char>,
    tail_lines: nat,
    stream: StreamFacts,
    exec: ExecFacts,
)
    ensures
        ({
            let name = "weaver-"@ + id;
            &&& stream.log_exists == Some(false) ==> streaming(config, name, tail_lines, stream)
                == Progress::<StreamStepView, FollowerView, K8sErrorView>::Done(
                Err(K8sErrorView::PodNotFound { name }),
            )
            &&& exec.session is Some && presence(exec.session->0) == Ok::<bool, LocalErrorView>(
                false,
            ) ==> executing(name, exec) == Progress::<ExecStepView, ProcessView, K8sErrorView>::Done(
                Err(K8sErrorView::PodNotFound { name }),
            )
        }),
{
    law_pod_name_and_id_correspond("weaver-"@ + id, id);
}

/// A name that is not a weaver's is refused by every request that takes one, with
/// nothing asked for first.
pub proof fn law_other_names_are_refused(
    config: ConfigView,
    name: Seq<char>,
    grace_period_seconds: u32,
    tail_lines: nat,
    delete: DeleteFacts,
    inspect: InspectFacts,
    stream: StreamFacts,
    exec: ExecFacts,
)
    requires
        weaver_id(name) is None,
    ensures
        ({
            let error = K8sErrorView::ApiError { message: "invalid weaver id: "@ + name };
            &&& deleted_pod(deleting(config, name, grace_period_seconds, delete)) == Progress::<
                DeleteStepView,
                Finished,
                K8sErrorView,
            >::Done(Err(error))
            &&& getting(config, name, inspect) == Progress::<
                InspectStepView,
                PodView,
                K8sErrorView,
            >::Done(Err(error))
            &&& streaming(config, name, tail_lines, stream) == Progress::<
                StreamStepView,
                FollowerView,
                K8sErrorView,
            >::Done(Err(error))
            &&& executing(name, exec) == Progress::<ExecStepView, ProcessView, K8sErrorView>::Done(
                Err(error),
            )
        }),
{
}

} // verus!
