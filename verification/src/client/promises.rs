//! What each request asks for and what it gives, said of what goes into it.
use crate::client::access::{
    executing, getting_namespace, streaming, ExecFacts, ExecStep, ExecStepView,
    NamespaceFacts, NamespaceStep, NamespaceStepView, StreamFacts, StreamStep, StreamStepView,
};
use crate::client::create::{
    annotation_dir_found, created_pod, creating, env_dir_found, given_values,
    requested_annotations, requested_env, requested_id, requested_image, requested_labels,
    requested_metadata, CreateFacts, CreateStep, CreateStepView,
};
use crate::client::delete::{deleted_pod, deleting, DeleteFacts, DeleteStep, DeleteStepView};
use crate::client::show::{
    facts_at, getting, listed_pods, listing_pods, selecting, selecting_among, InspectFacts,
    InspectStep, InspectStepView, ListPodsFacts, ListPodsStep, ListPodsStepView,
};
use crate::client::start::{
    opening, reconciling, recover_facts_at, recovering, recovering_among, ReconcileFacts,
    ReconcileStep, ReconcileStepView, RecoverFacts, RecoverStep, RecoverStepView, StartFacts,
    StartStep, StartStepView,
};
use crate::client::{ClientView, LocalClient};
use crate::config::{env_value, law_first_variable_is_found, ConfigView};
use crate::error::{K8sErrorView, LocalErrorView};
use crate::log_follower::{
    following, law_follower_starts_at_the_last_lines, starts_the_last_lines, FollowStepView,
    FollowerView,
};
use crate::path::same_path;
use crate::pod::{EnvVarView, PodView};
use crate::pod_builder::{
    law_pod_name_and_id_correspond, pod_labels, selector_matches, weaver_pod,
};
use crate::progress::{Attempt, Progress};
use crate::pty::{attaching, AttachStepView, ProcessView};
use crate::shell::loom_command_line;
use crate::text::decimal;
use crate::time::Timestamp;
use crate::tmux::{
    create_failure, kill_failure, listed_sessions, pane_dead, pane_exit, pane_pid,
    pipe_pane_failure, presence, send_keys_failure, unavailable,
};
use crate::weaver::{
    listing, loading, observing, removing, storing, Finished, ListStepView, LoadStepView,
    RemoveStepView, StatusStepView, StoreStepView, WeaverStatus, WeaverView,
};
use vstd::prelude::*;

verus! {

/// The id of a weaver is the one that the label `loom.dev/weaver-id` gives, whatever
/// the pod's name is; without that label it is what follows `weaver-` in the name;
/// and there is none where neither is to be had.
pub proof fn law_id_comes_from_label_or_name(pod: PodView, id: Seq<char>)
    ensures
        ({
            let labelled = pod.metadata.labels is Some && pod.metadata.labels->0.contains_key(
                "loom.dev/weaver-id"@,
            );
            &&& labelled ==> requested_id(pod) == Some(
                pod.metadata.labels->0["loom.dev/weaver-id"@],
            )
            &&& !labelled ==> (requested_id(pod) == Some(id) <==> pod.metadata.name == Some(
                "weaver-"@ + id,
            ))
        }),
{
    if pod.metadata.name is Some {
        law_pod_name_and_id_correspond(pod.metadata.name->0, id);
    }
}

/// A pod's first container says which image its weaver has; without one that does,
/// it is `loom:latest`. The labels are those of the pod where it has a container, and
/// the annotations are those of the pod.
pub proof fn law_weaver_is_made_as_its_pod_says(pod: PodView)
    ensures
        ({
            let contained = pod.spec is Some && pod.spec->0.containers.len() > 0;
            let container = pod.spec->0.containers[0];
            &&& contained && container.image is Some ==> requested_image(pod) == container.image->0
            &&& !contained || container.image is None ==> requested_image(pod) == "loom:latest"@
            &&& contained && pod.metadata.labels is Some ==> requested_labels(pod)
                == pod.metadata.labels->0
            &&& !contained || pod.metadata.labels is None ==> requested_labels(pod).dom().is_empty()
            &&& pod.metadata.annotations is Some ==> requested_annotations(pod)
                == pod.metadata.annotations->0
            &&& pod.metadata.annotations is None ==> requested_annotations(pod).dom().is_empty()
            &&& contained && container.env is Some ==> requested_env(pod) == given_values(
                container.env->0,
            )
            &&& !contained || container.env is None ==> requested_env(pod).len() == 0
        }),
{
}

/// The variables of a container are taken in order, each that has a value with its
/// name and its value, and no other.
pub proof fn law_variables_are_taken_in_order(
    a: Seq<EnvVarView>,
    b: Seq<EnvVarView>,
    name: Seq<char>,
    value: Seq<char>,
)
    ensures
        given_values(a + b) == given_values(a) + given_values(b),
        given_values(seq![EnvVarView { name, value: Some(value) }]) == seq![(name, value)],
        given_values(seq![EnvVarView { name, value: None }]) == Seq::<
            (Seq<char>, Seq<char>),
        >::empty(),
    decreases b.len(),
{
    let none = Seq::<EnvVarView>::empty();
    assert(given_values(none) =~= Seq::<(Seq<char>, Seq<char>)>::empty());
    let one = seq![EnvVarView { name, value: Some(value) }];
    assert(one.drop_last() =~= none);
    assert(given_values(one) =~= seq![(name, value)]);
    let other = seq![EnvVarView { name, value: None }];
    assert(other.drop_last() =~= none);
    if b.len() == 0 {
        assert(a + b =~= a);
        assert(given_values(a) + given_values(b) =~= given_values(a));
    } else {
        law_variables_are_taken_in_order(a, b.drop_last(), name, value);
        assert((a + b).drop_last() =~= a + b.drop_last());
        assert((a + b).last() == b.last());
        assert(given_values(a + b) =~= given_values(a) + given_values(b));
    }
}

/// Whether `value` is that of the first variable called `name`.
pub open spec fn is_first_value(
    env: Seq<(Seq<char>, Seq<char>)>,
    name: Seq<char>,
    value: Seq<char>,
) -> bool {
    exists|i: int|
        0 <= i < env.len() && #[trigger] env[i] == (name, value) && forall|j: int|
            0 <= j < i ==> (#[trigger] env[j]).0 != name
}

/// Whether there is a variable called `name`.
pub open spec fn has_variable(env: Seq<(Seq<char>, Seq<char>)>, name: Seq<char>) -> bool {
    exists|i: int| 0 <= i < env.len() && (#[trigger] env[i]).0 == name
}

/// The record of a pod holds its id, its image, its labels and its environment, the
/// time of the request, and the directory that was chosen. That record is the one
/// that is stored, and encoded.
pub proof fn law_stored_record_is_that_of_the_pod(
    config: ConfigView,
    pod: PodView,
    now: Timestamp,
    facts: CreateFacts,
)
    ensures
        creating(config, pod, now, facts) matches Progress::Need(CreateStepView::Store(step))
            ==> storing(
            config,
            requested_metadata(config, pod, requested_id(pod)->0, now, facts),
            facts.store,
        ) == Progress::<StoreStepView, WeaverView, LocalErrorView>::Need(step),
        creating(config, pod, now, facts) matches Progress::Need(
            CreateStepView::Store(StoreStepView::EncodeMetadata { metadata }),
        ) ==> metadata == requested_metadata(config, pod, requested_id(pod)->0, now, facts),
        requested_id(pod) is Some ==> {
            let metadata = requested_metadata(config, pod, requested_id(pod)->0, now, facts);
            let env = requested_env(pod);
            let annotations = requested_annotations(pod);
            let named = has_variable(env, "LOOM_WORKING_DIR"@) && facts.env_dir_exists == Some(
                true,
            );
            let annotated = annotations.contains_key("loom.dev/working-dir"@)
                && facts.annotation_dir_exists == Some(true);
            &&& requested_id(pod) == Some(metadata.id)
            &&& metadata.name == "weaver-"@ + metadata.id
            &&& metadata.image == requested_image(pod)
            &&& metadata.labels == requested_labels(pod)
            &&& metadata.env_vars == env
            &&& metadata.created_at == now
            &&& metadata.ttl_hours is None
            &&& named ==> is_first_value(env, "LOOM_WORKING_DIR"@, metadata.working_dir)
            &&& !named && annotated ==> annotations.contains_pair(
                "loom.dev/working-dir"@,
                metadata.working_dir,
            )
            &&& !named && !annotated ==> metadata.working_dir == config.weaver_dir(metadata.id)
        },
{
    let metadata = requested_metadata(config, pod, requested_id(pod)->0, now, facts);
    law_first_variable_is_found(requested_env(pod), "LOOM_WORKING_DIR"@, metadata.working_dir);
}

/// What creating a weaver asks for before its record is stored: whether the directory
/// of the first variable `LOOM_WORKING_DIR` exists, and, if it does not or there is no
/// such variable, whether that of the annotation does. A pod without an id is refused
/// at once, with its name.
pub proof fn law_creating_looks_for_directories_first(
    config: ConfigView,
    pod: PodView,
    now: Timestamp,
    facts: CreateFacts,
)
    ensures
        ({
            let env = requested_env(pod);
            let annotations = requested_annotations(pod);
            let progress = creating(config, pod, now, facts);
            &&& progress matches Progress::Need(CreateStepView::FindEnvDir { path })
                ==> is_first_value(env, "LOOM_WORKING_DIR"@, path)
            &&& progress matches Progress::Need(CreateStepView::FindAnnotationDir { path })
                ==> annotations.contains_pair("loom.dev/working-dir"@, path) && (!has_variable(
                env,
                "LOOM_WORKING_DIR"@,
            ) || facts.env_dir_exists == Some(false))
            &&& requested_id(pod) is Some && has_variable(env, "LOOM_WORKING_DIR"@)
                && facts.env_dir_exists is None ==> (progress matches Progress::Need(
                CreateStepView::FindEnvDir { .. },
            ))
            &&& requested_id(pod) is Some && annotations.contains_key("loom.dev/working-dir"@) && (
            !has_variable(env, "LOOM_WORKING_DIR"@) || facts.env_dir_exists == Some(false))
                && facts.annotation_dir_exists is None ==> (progress matches Progress::Need(
                CreateStepView::FindAnnotationDir { .. },
            ))
            &&& requested_id(pod) is None ==> progress == Progress::<
                CreateStepView,
                WeaverView,
                LocalErrorView,
            >::Done(
                Err(
                    LocalErrorView::InvalidWeaverId {
                        id: if pod.metadata.name is Some {
                            pod.metadata.name->0
                        } else {
                            Seq::empty()
                        },
                    },
                ),
            )
        }),
{
    let env = requested_env(pod);
    let name = "LOOM_WORKING_DIR"@;
    let found = env_value(env, name);
    law_first_variable_is_found(
        env,
        name,
        if found is Some {
            found->0
        } else {
            Seq::empty()
        },
    );
}

/// What creating a weaver asks for once its record is stored, with its session named
/// after its id: a workspace and a clone of the repository, where it works in its own
/// directory; a session there or in the directory of the user's; its output appended
/// to its log; its command line; its process, noted in decimal; and its record.
pub proof fn law_creating_starts_loom(
    config: ConfigView,
    pod: PodView,
    now: Timestamp,
    facts: CreateFacts,
    step: CreateStepView,
)
    requires
        creating(config, pod, now, facts) == Progress::<
            CreateStepView,
            WeaverView,
            LocalErrorView,
        >::Need(step),
    ensures
        ({
            let id = requested_id(pod)->0;
            let session = "weaver-"@ + id;
            let env = requested_env(pod);
            let own = config.weaver_dir(id);
            let workspace = config.workspace_dir(id);
            match step {
                CreateStepView::MakeWorkspace { path } => path == workspace,
                CreateStepView::CloneRepo { call } => call.len() == 3 && call[0] == "clone"@
                    && is_first_value(env, "LOOM_REPO"@, call[1]) && call[2] == workspace
                    && facts.workspace_made == Some(Attempt::Succeeded),
                CreateStepView::NewSession { call } => {
                    &&& call.len() == 6
                    &&& call =~= seq!["new-session"@, "-d"@, "-s"@, session, "-c"@, call[5]]
                    &&& {
                        ||| call[5] == workspace && facts.workspace_made == Some(Attempt::Succeeded)
                            && (has_variable(env, "LOOM_REPO"@) ==> facts.cloned is Some)
                        ||| !same_path(call[5], own) && (env_dir_found(pod, facts)
                            || annotation_dir_found(pod, facts))
                    }
                },
                CreateStepView::PipePane { call } => call =~= seq![
                    "pipe-pane"@,
                    "-t"@,
                    session,
                    "-o"@,
                    "cat >> "@ + config.output_log_path(id),
                ] && facts.session_made is Some && create_failure(facts.session_made->0) is None,
                CreateStepView::SendKeys { call } => call =~= seq![
                    "send-keys"@,
                    "-t"@,
                    session,
                    loom_command_line(config, env),
                    "Enter"@,
                ] && facts.piped is Some && pipe_pane_failure(facts.piped->0) is None,
                CreateStepView::AskPid { call } => call =~= seq![
                    "display-message"@,
                    "-t"@,
                    session,
                    "-p"@,
                    "#{pane_pid}"@,
                ] && facts.keys_sent is Some && send_keys_failure(facts.keys_sent->0) is None,
                CreateStepView::WritePid { path, text } => path == config.pid_path(id) && facts.pid
                    is Some && exists|pid: u32|
                    pane_pid(facts.pid->0) == Ok::<Option<u32>, LocalErrorView>(Some(pid)) && text
                        == #[trigger] decimal(pid as nat),
                CreateStepView::Load(step) => {
                    &&& loading(config, id, facts.load) == Progress::<
                        LoadStepView,
                        WeaverView,
                        LocalErrorView,
                    >::Need(step)
                    &&& facts.pid is Some && pane_pid(facts.pid->0) is Ok
                    &&& pane_pid(facts.pid->0)->Ok_0 is Some ==> facts.pid_written == Some(
                        Attempt::Succeeded,
                    )
                },
                _ => true,
            }
        }),
{
    let env = requested_env(pod);
    let repo = env_value(env, "LOOM_REPO"@);
    law_first_variable_is_found(
        env,
        "LOOM_REPO"@,
        if repo is Some {
            repo->0
        } else {
            Seq::empty()
        },
    );
    if let CreateStepView::WritePid { path, text } = step {
        let pid = pane_pid(facts.pid->0)->Ok_0->0;
        assert(text == decimal(pid as nat));
    }
}

/// What creating a weaver gives: the weaver of the record that was read back, running;
/// or what went wrong first.
pub proof fn law_creating_gives_the_stored_weaver(
    config: ConfigView,
    pod: PodView,
    now: Timestamp,
    facts: CreateFacts,
    result: Result<WeaverView, LocalErrorView>,
)
    requires
        creating(config, pod, now, facts) == Progress::<
            CreateStepView,
            WeaverView,
            LocalErrorView,
        >::Done(result),
        requested_id(pod) is Some,
    ensures
        ({
            let id = requested_id(pod)->0;
            let loaded = loading(config, id, facts.load);
            match result {
                Ok(weaver) => {
                    &&& loaded matches Progress::Done(Ok(record))
                    &&& weaver.metadata == record.metadata
                    &&& weaver.dir == record.dir
                    &&& weaver.status == WeaverStatus::Running
                    &&& facts.pid is Some && pane_pid(facts.pid->0) is Ok
                    &&& pane_pid(facts.pid->0)->Ok_0 is Some ==> facts.pid_written == Some(
                        Attempt::Succeeded,
                    )
                },
                Err(error) => {
                    ||| storing(
                        config,
                        requested_metadata(config, pod, id, now, facts),
                        facts.store,
                    ) == Progress::<StoreStepView, WeaverView, LocalErrorView>::Done(Err(error))
                    ||| facts.workspace_made matches Some(Attempt::Failed(why)) && error
                        == LocalErrorView::Io(why@)
                    ||| facts.session_made is Some && create_failure(facts.session_made->0) == Some(
                        error,
                    )
                    ||| facts.piped is Some && pipe_pane_failure(facts.piped->0) == Some(error)
                    ||| facts.keys_sent is Some && send_keys_failure(facts.keys_sent->0) == Some(
                        error,
                    )
                    ||| facts.pid is Some && pane_pid(facts.pid->0) == Err::<
                        Option<u32>,
                        LocalErrorView,
                    >(error)
                    ||| facts.pid_written matches Some(Attempt::Failed(why)) && error
                        == LocalErrorView::Io(why@)
                    ||| loaded == Progress::<LoadStepView, WeaverView, LocalErrorView>::Done(
                        Err(error),
                    )
                },
            }
        }),
{
}

/// Creating a weaver succeeds where every step has; a repository that could not be
/// cloned does not stop it.
pub proof fn law_creating_succeeds_where_its_steps_do(
    config: ConfigView,
    pod: PodView,
    now: Timestamp,
    facts: CreateFacts,
)
    requires
        requested_id(pod) is Some,
        facts.env_dir_exists is Some,
        facts.annotation_dir_exists is Some,
        facts.store.working_dir_exists == Some(false),
        facts.store.loom_dir_made == Some(Attempt::Succeeded),
        facts.store.encoded is Some && facts.store.encoded->0 is Ok,
        facts.store.temp_written == Some(Attempt::Succeeded),
        facts.store.renamed == Some(Attempt::Succeeded),
        facts.store.log_emptied == Some(Attempt::Succeeded),
        facts.workspace_made == Some(Attempt::Succeeded),
        facts.cloned is Some,
        facts.session_made is Some && create_failure(facts.session_made->0) is None,
        facts.piped is Some && pipe_pane_failure(facts.piped->0) is None,
        facts.keys_sent is Some && send_keys_failure(facts.keys_sent->0) is None,
        facts.pid is Some && pane_pid(facts.pid->0) is Ok,
        facts.pid_written == Some(Attempt::Succeeded),
        facts.load.loom_dir_exists == Some(true),
        facts.load.metadata_text is Some && facts.load.metadata_text->0 is Ok,
        facts.load.metadata is Some && facts.load.metadata->0 is Ok,
    ensures
        creating(config, pod, now, facts) matches Progress::Done(Ok(_)),
{
}

/// A caller who creates, deletes or lists sees each step as it is asked for, each
/// weaver as its pod, and each error as the one of the pod interface.
pub proof fn law_callers_see_what_came(
    create: Progress<CreateStepView, WeaverView, LocalErrorView>,
    delete: Progress<DeleteStepView, Finished, LocalErrorView>,
    list: Progress<ListPodsStepView, Seq<PodView>, LocalErrorView>,
)
    ensures
        match (create, created_pod(create)) {
            (Progress::Need(asked), Progress::Need(seen)) => asked == seen,
            (Progress::Done(Ok(weaver)), Progress::Done(Ok(pod))) => pod == weaver_pod(weaver),
            (Progress::Done(Err(error)), Progress::Done(Err(seen))) => seen == error.as_k8s(),
            _ => false,
        },
        match (delete, deleted_pod(delete)) {
            (Progress::Need(asked), Progress::Need(seen)) => asked == seen,
            (Progress::Done(Ok(_)), Progress::Done(Ok(_))) => true,
            (Progress::Done(Err(error)), Progress::Done(Err(seen))) => seen == error.as_k8s(),
            _ => false,
        },
        match (list, listed_pods(list)) {
            (Progress::Need(asked), Progress::Need(seen)) => asked == seen,
            (Progress::Done(Ok(pods)), Progress::Done(Ok(seen))) => seen == pods,
            (Progress::Done(Err(error)), Progress::Done(Err(seen))) => seen == error.as_k8s(),
            _ => false,
        },
{
}

/// What deleting a weaver asks for: its session ended; all of the grace period, and
/// only where there is one; its record; and then one directory removed. That is its
/// own where it works there or has no record that can be loaded, and else only what
/// is kept about it.
pub proof fn law_deleting_ends_waits_and_removes(
    config: ConfigView,
    id: Seq<char>,
    grace_period_seconds: u32,
    facts: DeleteFacts,
)
    ensures
        ({
            let loaded = loading(config, id, facts.load);
            let dir = match loaded {
                Progress::Done(Ok(weaver)) => if same_path(weaver.dir, config.weaver_dir(id)) {
                    config.weaver_dir(id)
                } else {
                    config.loom_dir(id)
                },
                _ => config.weaver_dir(id),
            };
            let ended = facts.killed is Some && kill_failure(facts.killed->0) is None;
            let over = grace_period_seconds == 0 || facts.waited;
            match deleting(config, "weaver-"@ + id, grace_period_seconds, facts) {
                Progress::Need(DeleteStepView::KillSession { call }) => call =~= seq![
                    "kill-session"@,
                    "-t"@,
                    "weaver-"@ + id,
                ] && facts.killed is None,
                Progress::Need(DeleteStepView::Wait { seconds }) => seconds == grace_period_seconds
                    && seconds > 0 && ended && !facts.waited,
                Progress::Need(DeleteStepView::Load(step)) => ended && over && loaded == Progress::<
                    LoadStepView,
                    WeaverView,
                    LocalErrorView,
                >::Need(step),
                Progress::Need(DeleteStepView::Remove(step)) => ended && over && loaded is Done
                    && removing(dir, facts.remove) == Progress::<
                    RemoveStepView,
                    Finished,
                    LocalErrorView,
                >::Need(step),
                Progress::Done(Ok(_)) => ended && over && (removing(
                    dir,
                    facts.remove,
                ) matches Progress::Done(Ok(_))),
                Progress::Done(Err(error)) => {
                    ||| facts.killed is Some && kill_failure(facts.killed->0) == Some(error)
                    ||| ended && over && removing(dir, facts.remove) == Progress::<
                        RemoveStepView,
                        Finished,
                        LocalErrorView,
                    >::Done(Err(error))
                },
            }
        }),
{
    law_pod_name_and_id_correspond("weaver-"@ + id, id);
}

/// What getting a pod asks for and gives: the record of the weaver after which it is
/// named, in the state that its process is in.
pub proof fn law_getting_shows_the_record_in_its_state(
    config: ConfigView,
    id: Seq<char>,
    facts: InspectFacts,
)
    ensures
        ({
            let loaded = loading(config, id, facts.load);
            let observed = observing(id, facts.status);
            match getting(config, "weaver-"@ + id, facts) {
                Progress::Need(InspectStepView::Load(step)) => loaded == Progress::<
                    LoadStepView,
                    WeaverView,
                    LocalErrorView,
                >::Need(step),
                Progress::Need(InspectStepView::FindPid { path }) => path == config.pid_path(id)
                    && facts.load.loom_dir_exists == Some(true) && facts.pid_exists is None,
                Progress::Need(InspectStepView::Status(step)) => observed == Progress::<
                    StatusStepView,
                    WeaverStatus,
                    LocalErrorView,
                >::Need(step) && (loaded matches Progress::Done(Ok(_))) && facts.pid_exists == Some(
                    true,
                ),
                Progress::Done(Ok(pod)) => {
                    &&& loaded matches Progress::Done(Ok(weaver))
                    &&& observed matches Progress::Done(Ok(status))
                    &&& pod == weaver_pod(
                        WeaverView { metadata: weaver.metadata, status, dir: weaver.dir },
                    )
                    &&& facts.pid_exists == Some(true)
                },
                Progress::Done(Err(seen)) => {
                    ||| seen == (K8sErrorView::PodNotFound { name: "weaver-"@ + id })
                        && facts.pid_exists == Some(false) && facts.load.loom_dir_exists == Some(
                        true,
                    )
                    ||| loaded matches Progress::Done(Err(error)) && seen == error.as_k8s()
                    ||| observed matches Progress::Done(Err(error)) && seen == error.as_k8s() && (
                    loaded matches Progress::Done(Ok(_)))
                },
            }
        }),
{
    law_pod_name_and_id_correspond("weaver-"@ + id, id);
}

/// What looking at one weaver of a list asks for and gives: its record, and, if the
/// labels that its pod shows meet the selector, its pod in the state that its process
/// is in. One without a record that can be loaded is passed over.
pub proof fn law_one_weaver_is_selected_by_its_labels(
    config: ConfigView,
    id: Seq<char>,
    selector: Seq<char>,
    facts: InspectFacts,
)
    ensures
        ({
            let loaded = loading(config, id, facts.load);
            let observed = observing(id, facts.status);
            match selecting(config, id, selector, facts) {
                Progress::Need(InspectStepView::Load(step)) => loaded == Progress::<
                    LoadStepView,
                    WeaverView,
                    LocalErrorView,
                >::Need(step),
                Progress::Need(InspectStepView::FindPid { .. }) => false,
                Progress::Need(InspectStepView::Status(step)) => observed == Progress::<
                    StatusStepView,
                    WeaverStatus,
                    LocalErrorView,
                >::Need(step) && (loaded matches Progress::Done(Ok(_))),
                Progress::Done(Ok(Some(pod))) => {
                    &&& loaded matches Progress::Done(Ok(weaver))
                    &&& observed matches Progress::Done(Ok(status))
                    &&& pod == weaver_pod(
                        WeaverView { metadata: weaver.metadata, status, dir: weaver.dir },
                    )
                    &&& selector_matches(pod_labels(weaver.metadata), selector)
                },
                Progress::Done(Ok(None)) => {
                    ||| loaded matches Progress::Done(Err(_))
                    ||| loaded matches Progress::Done(Ok(weaver)) && !selector_matches(
                        pod_labels(weaver.metadata),
                        selector,
                    )
                },
                Progress::Done(Err(error)) => observed == Progress::<
                    StatusStepView,
                    WeaverStatus,
                    LocalErrorView,
                >::Done(Err(error)) && (loaded matches Progress::Done(Ok(_))),
            }
        }),
{
}

/// Pods are listed in the order of their weavers: listing one weaver more keeps those
/// before, and adds its pod at the end exactly if it is selected.
pub proof fn law_pods_are_listed_in_order(
    config: ConfigView,
    ids: Seq<Seq<char>>,
    selector: Seq<char>,
    facts: Seq<InspectFacts>,
    n: nat,
    pods: Seq<PodView>,
)
    requires
        n > 0,
        selecting_among(config, ids, selector, facts, n) == Progress::<
            ListPodsStepView,
            Seq<PodView>,
            LocalErrorView,
        >::Done(Ok(pods)),
    ensures
        selecting_among(config, ids, selector, facts, (n - 1) as nat) matches Progress::Done(
            Ok(before),
        ) && match selecting(config, ids[n - 1], selector, facts_at(facts, n - 1)) {
            Progress::Done(Ok(Some(pod))) => pods == before.push(pod),
            Progress::Done(Ok(None)) => pods == before,
            _ => false,
        },
        selecting_among(config, ids, selector, facts, 0) == Progress::<
            ListPodsStepView,
            Seq<PodView>,
            LocalErrorView,
        >::Done(Ok(Seq::empty())),
{
}

/// Listing pods looks at all weavers that are listed, one after the other: it asks of
/// the first about which something is open, and fails where the first does.
pub proof fn law_all_weavers_are_looked_at(
    config: ConfigView,
    selector: Seq<char>,
    facts: ListPodsFacts,
)
    ensures
        match listing(config, facts.list) {
            Progress::Need(step) => listing_pods(config, selector, facts) == Progress::<
                ListPodsStepView,
                Seq<PodView>,
                LocalErrorView,
            >::Need(ListPodsStepView::List(step)),
            Progress::Done(Err(error)) => listing_pods(config, selector, facts) == Progress::<
                ListPodsStepView,
                Seq<PodView>,
                LocalErrorView,
            >::Done(Err(error)),
            Progress::Done(Ok(ids)) => {
                let progress = listing_pods(config, selector, facts);
                &&& progress matches Progress::Done(Ok(_)) ==> forall|i: int|
                    0 <= i < ids.len() ==> (selecting(
                        config,
                        #[trigger] ids[i],
                        selector,
                        facts_at(facts.weavers@, i),
                    ) matches Progress::Done(Ok(_)))
                &&& progress matches Progress::Need(step) ==> (
                step matches ListPodsStepView::Inspect { index, step } && 0 <= index < ids.len()
                    && selecting(config, ids[index], selector, facts_at(facts.weavers@, index))
                    == Progress::<InspectStepView, Option<PodView>, LocalErrorView>::Need(step))
                &&& progress matches Progress::Done(Err(error)) ==> exists|i: int|
                    0 <= i < ids.len() && selecting(
                        config,
                        #[trigger] ids[i],
                        selector,
                        facts_at(facts.weavers@, i),
                    ) == Progress::<InspectStepView, Option<PodView>, LocalErrorView>::Done(
                        Err(error),
                    )
            },
        },
{
    if let Progress::Done(Ok(ids)) = listing(config, facts.list) {
        lemma_selecting_looks_at_all(config, ids, selector, facts.weavers@, ids.len());
    }
}

proof fn lemma_selecting_looks_at_all(
    config: ConfigView,
    ids: Seq<Seq<char>>,
    selector: Seq<char>,
    facts: Seq<InspectFacts>,
    n: nat,
)
    requires
        n <= ids.len(),
    ensures
        ({
            let progress = selecting_among(config, ids, selector, facts, n);
            &&& progress matches Progress::Done(Ok(_)) ==> forall|i: int|
                0 <= i < n ==> (selecting(
                    config,
                    #[trigger] ids[i],
                    selector,
                    facts_at(facts, i),
                ) matches Progress::Done(Ok(_)))
            &&& progress matches Progress::Need(step) ==> (step matches ListPodsStepView::Inspect {
                index,
                step,
            } && 0 <= index < n && selecting(config, ids[index], selector, facts_at(facts, index))
                == Progress::<InspectStepView, Option<PodView>, LocalErrorView>::Need(step))
            &&& progress matches Progress::Done(Err(error)) ==> exists|i: int|
                0 <= i < n && selecting(config, #[trigger] ids[i], selector, facts_at(facts, i))
                    == Progress::<InspectStepView, Option<PodView>, LocalErrorView>::Done(
                    Err(error),
                )
        }),
    decreases n,
{
    if n > 0 {
        lemma_selecting_looks_at_all(config, ids, selector, facts, (n - 1) as nat);
        let last = selecting(config, ids[n - 1], selector, facts_at(facts, n - 1));
    }
}

/// What recovering one weaver asks for and gives: its record, in the state of the
/// session named after the id in it, if tmux listed that; else it has failed. One
/// without a record that can be loaded is passed over.
pub proof fn law_one_weaver_is_recovered_in_its_state(
    config: ConfigView,
    id: Seq<char>,
    sessions: Seq<Seq<char>>,
    facts: RecoverFacts,
)
    ensures
        ({
            let loaded = loading(config, id, facts.load);
            match recovering(config, id, sessions, facts) {
                Progress::Need(RecoverStepView::Load(step)) => loaded == Progress::<
                    LoadStepView,
                    WeaverView,
                    LocalErrorView,
                >::Need(step),
                Progress::Need(RecoverStepView::Status(step)) => loaded matches Progress::Done(
                    Ok(record),
                ) && {
                    let session = "weaver-"@ + record.metadata.id;
                    &&& sessions.contains(session)
                    &&& match step {
                        StatusStepView::FindSession { .. } => false,
                        StatusStepView::AskPane { call } => facts.pane is None && call =~= seq![
                            "display-message"@,
                            "-t"@,
                            session,
                            "-p"@,
                            "#{pane_dead}"@,
                        ],
                        StatusStepView::AskExit { call } => facts.pane is Some && pane_dead(
                            facts.pane->0,
                        ) == Ok::<bool, LocalErrorView>(true) && facts.exit is None && call =~= seq![
                            "display-message"@,
                            "-t"@,
                            session,
                            "-p"@,
                            "#{pane_dead_status}"@,
                        ],
                    }
                },
                Progress::Done(Ok(Some(weaver))) => loaded matches Progress::Done(Ok(record)) && {
                    let there = sessions.contains("weaver-"@ + record.metadata.id);
                    &&& weaver.metadata == record.metadata
                    &&& weaver.dir == record.dir
                    &&& weaver.status == WeaverStatus::Running <==> there && facts.pane is Some
                        && pane_dead(facts.pane->0) == Ok::<bool, LocalErrorView>(false)
                    &&& weaver.status == WeaverStatus::Succeeded <==> there && facts.pane is Some
                        && pane_dead(facts.pane->0) == Ok::<bool, LocalErrorView>(true)
                        && facts.exit is Some && (pane_exit(facts.exit->0) == Ok::<
                        Option<u32>,
                        LocalErrorView,
                    >(None) || pane_exit(facts.exit->0) == Ok::<Option<u32>, LocalErrorView>(
                        Some(0u32),
                    ))
                    &&& weaver.status != WeaverStatus::Unknown
                },
                Progress::Done(Ok(None)) => loaded matches Progress::Done(Err(_)),
                Progress::Done(Err(error)) => (loaded matches Progress::Done(Ok(_))) && {
                    ||| facts.pane is Some && pane_dead(facts.pane->0) == Err::<
                        bool,
                        LocalErrorView,
                    >(error)
                    ||| facts.exit is Some && pane_exit(facts.exit->0) == Err::<
                        Option<u32>,
                        LocalErrorView,
                    >(error)
                },
            }
        }),
{
}

/// Recovering touches only the weavers that are listed: any other stays known as it
/// was, or unknown.
pub proof fn law_recovering_touches_only_the_listed(
    client: ClientView,
    ids: Seq<Seq<char>>,
    sessions: Seq<Seq<char>>,
    facts: Seq<RecoverFacts>,
    n: nat,
    weavers: Map<Seq<char>, WeaverView>,
    id: Seq<char>,
)
    requires
        n <= ids.len(),
        recovering_among(client, ids, sessions, facts, n) == Progress::<
            ReconcileStepView,
            Map<Seq<char>, WeaverView>,
            LocalErrorView,
        >::Done(Ok(weavers)),
        !ids.contains(id),
    ensures
        weavers.contains_key(id) <==> client.weavers.contains_key(id),
        client.weavers.contains_key(id) ==> weavers[id] == client.weavers[id],
    decreases n,
{
    if n > 0 {
        let before = recovering_among(client, ids, sessions, facts, (n - 1) as nat);
        law_recovering_touches_only_the_listed(
            client,
            ids,
            sessions,
            facts,
            (n - 1) as nat,
            before->Done_0->Ok_0,
            id,
        );
        assert(ids.contains(ids[n - 1]));
    }
}

/// Recovering goes through the weavers in order: one more is added under its id
/// exactly if it is recovered, and those before stay.
pub proof fn law_weavers_are_recovered_in_order(
    client: ClientView,
    ids: Seq<Seq<char>>,
    sessions: Seq<Seq<char>>,
    facts: Seq<RecoverFacts>,
    n: nat,
    weavers: Map<Seq<char>, WeaverView>,
)
    requires
        n > 0,
        recovering_among(client, ids, sessions, facts, n) == Progress::<
            ReconcileStepView,
            Map<Seq<char>, WeaverView>,
            LocalErrorView,
        >::Done(Ok(weavers)),
    ensures
        recovering_among(client, ids, sessions, facts, (n - 1) as nat) matches Progress::Done(
            Ok(before),
        ) && match recovering(client.config, ids[n - 1], sessions, recover_facts_at(facts, n - 1)) {
            Progress::Done(Ok(Some(weaver))) => weavers == before.insert(ids[n - 1], weaver),
            Progress::Done(Ok(None)) => weavers == before,
            _ => false,
        },
        recovering_among(client, ids, sessions, facts, 0) == Progress::<
            ReconcileStepView,
            Map<Seq<char>, WeaverView>,
            LocalErrorView,
        >::Done(Ok(client.weavers)),
{
}

/// Recovering all weavers goes through all that are listed, with the sessions that
/// tmux lists.
pub proof fn law_all_listed_are_recovered(client: ClientView, facts: ReconcileFacts)
    ensures
        match reconciling(client, facts) {
            Progress::Need(ReconcileStepView::List(step)) => listing(client.config, facts.list)
                == Progress::<ListStepView, Seq<Seq<char>>, LocalErrorView>::Need(step),
            Progress::Need(ReconcileStepView::ListSessions { call }) => call =~= seq![
                "list-sessions"@,
                "-F"@,
                "#{session_name}"@,
            ] && facts.sessions is None && (listing(
                client.config,
                facts.list,
            ) matches Progress::Done(Ok(_))),
            Progress::Need(ReconcileStepView::Recover { index, step }) => {
                &&& listing(client.config, facts.list) matches Progress::Done(Ok(ids))
                &&& facts.sessions is Some
                &&& listed_sessions(facts.sessions->0) matches Ok(sessions)
                &&& 0 <= index < ids.len()
                &&& recovering(
                    client.config,
                    ids[index],
                    sessions,
                    recover_facts_at(facts.weavers@, index),
                ) == Progress::<RecoverStepView, Option<WeaverView>, LocalErrorView>::Need(step)
            },
            Progress::Done(Ok(weavers)) => {
                &&& listing(client.config, facts.list) matches Progress::Done(Ok(ids))
                &&& facts.sessions is Some
                &&& listed_sessions(facts.sessions->0) matches Ok(sessions)
                &&& recovering_among(client, ids, sessions, facts.weavers@, ids.len())
                    == Progress::<
                    ReconcileStepView,
                    Map<Seq<char>, WeaverView>,
                    LocalErrorView,
                >::Done(Ok(weavers))
            },
            Progress::Done(Err(error)) => {
                ||| listing(client.config, facts.list) == Progress::<
                    ListStepView,
                    Seq<Seq<char>>,
                    LocalErrorView,
                >::Done(Err(error))
                ||| facts.sessions is Some && listed_sessions(facts.sessions->0) == Err::<
                    Seq<Seq<char>>,
                    LocalErrorView,
                >(error)
                ||| listing(client.config, facts.list) matches Progress::Done(Ok(ids))
                    && facts.sessions is Some && (listed_sessions(facts.sessions->0) matches Ok(
                    sessions,
                ) && exists|i: int|
                    0 <= i < ids.len() && recovering(
                        client.config,
                        #[trigger] ids[i],
                        sessions,
                        recover_facts_at(facts.weavers@, i),
                    ) == Progress::<RecoverStepView, Option<WeaverView>, LocalErrorView>::Done(
                        Err(error),
                    ))
            },
        },
{
    if let Progress::Done(Ok(ids)) = listing(client.config, facts.list) {
        if facts.sessions is Some && listed_sessions(facts.sessions->0) is Ok {
            lemma_recovering_looks_at_all(
                client,
                ids,
                listed_sessions(facts.sessions->0)->Ok_0,
                facts.weavers@,
                ids.len(),
            );
        }
    }
}

proof fn lemma_recovering_looks_at_all(
    client: ClientView,
    ids: Seq<Seq<char>>,
    sessions: Seq<Seq<char>>,
    facts: Seq<RecoverFacts>,
    n: nat,
)
    requires
        n <= ids.len(),
    ensures
        ({
            let progress = recovering_among(client, ids, sessions, facts, n);
            &&& progress matches Progress::Need(step) ==> (step matches ReconcileStepView::Recover {
                index,
                step,
            } && 0 <= index < n && recovering(
                client.config,
                ids[index],
                sessions,
                recover_facts_at(facts, index),
            ) == Progress::<RecoverStepView, Option<WeaverView>, LocalErrorView>::Need(step))
            &&& progress matches Progress::Done(Err(error)) ==> exists|i: int|
                0 <= i < n && recovering(
                    client.config,
                    #[trigger] ids[i],
                    sessions,
                    recover_facts_at(facts, i),
                ) == Progress::<RecoverStepView, Option<WeaverView>, LocalErrorView>::Done(
                    Err(error),
                )
        }),
    decreases n,
{
    if n > 0 {
        lemma_recovering_looks_at_all(client, ids, sessions, facts, (n - 1) as nat);
        let last = recovering(
            client.config,
            ids[n - 1],
            sessions,
            recover_facts_at(facts, n - 1),
        );
    }
}

/// What starting the backend asks for and gives: tmux first, then the base directory,
/// made where it is missing, then the weavers that are there; and the backend with
/// its settings and the weavers that were recovered.
pub proof fn law_starting_needs_tmux_and_a_directory(config: ConfigView, facts: StartFacts)
    ensures
        ({
            let usable = facts.version is Some && unavailable(facts.version->0) is None;
            let based = facts.base_dir_exists == Some(true) || facts.base_dir_exists == Some(false)
                && facts.base_dir_made == Some(Attempt::Succeeded);
            let fresh = ClientView { config, weavers: Map::empty() };
            match opening(config, facts) {
                Progress::Need(StartStepView::AskVersion { call }) => call =~= seq!["-V"@]
                    && facts.version is None,
                Progress::Need(StartStepView::FindBaseDir { path }) => path == config.base_dir
                    && usable,
                Progress::Need(StartStepView::MakeBaseDir { path }) => path == config.base_dir
                    && usable && facts.base_dir_exists == Some(false),
                Progress::Need(StartStepView::Reconcile(step)) => usable && based && reconciling(
                    fresh,
                    facts.reconcile,
                ) == Progress::<
                    ReconcileStepView,
                    Map<Seq<char>, WeaverView>,
                    LocalErrorView,
                >::Need(step),
                Progress::Done(Ok(client)) => usable && based && client.config == config
                    && reconciling(fresh, facts.reconcile) == Progress::<
                    ReconcileStepView,
                    Map<Seq<char>, WeaverView>,
                    LocalErrorView,
                >::Done(Ok(client.weavers)),
                Progress::Done(Err(error)) => {
                    ||| facts.version is Some && unavailable(facts.version->0) == Some(error)
                    ||| usable && facts.base_dir_exists == Some(false) && (
                    facts.base_dir_made matches Some(Attempt::Failed(why)) && error
                        == LocalErrorView::Io(why@))
                    ||| usable && based && reconciling(fresh, facts.reconcile) == Progress::<
                        ReconcileStepView,
                        Map<Seq<char>, WeaverView>,
                        LocalErrorView,
                    >::Done(Err(error))
                },
            }
        }),
{
    if facts.base_dir_exists is Some {
        let found = facts.base_dir_exists->0;
        assert(facts.base_dir_exists == Some(true) || facts.base_dir_exists == Some(false)) by {
            if found {
                assert(facts.base_dir_exists == Some(true));
            } else {
                assert(facts.base_dir_exists == Some(false));
            }
        }
    }
    if facts.base_dir_made is Some {
        match facts.base_dir_made->0 {
            Attempt::Succeeded => {
                assert(facts.base_dir_made == Some(Attempt::Succeeded));
            },
            Attempt::Failed(_) => {},
        }
    }
}

/// The namespace is there, with nothing set, where the base directory is there or was
/// made; else it is missing under the name that was asked for.
pub proof fn law_namespace_is_the_base_directory(
    config: ConfigView,
    name: Seq<char>,
    facts: NamespaceFacts,
)
    ensures
        match getting_namespace(config, name, facts) {
            Progress::Need(NamespaceStepView::FindBaseDir { path }) => path == config.base_dir,
            Progress::Need(NamespaceStepView::MakeBaseDir { path }) => path == config.base_dir
                && facts.base_dir_exists == Some(false),
            Progress::Done(Ok(namespace)) => namespace.name is None && namespace.namespace is None
                && namespace.labels is None && namespace.annotations is None
                && namespace.creation_timestamp is None && (facts.base_dir_exists == Some(true)
                || facts.base_dir_made == Some(Attempt::Succeeded)),
            Progress::Done(Err(error)) => error == (K8sErrorView::NamespaceNotFound { name }) && (
            facts.base_dir_made matches Some(Attempt::Failed(_))) && facts.base_dir_exists == Some(
                false,
            ),
        },
{
}

/// The log of a weaver is streamed from where its last lines start, as many as were
/// asked for, for as long as its session runs. A weaver without a log is a missing
/// pod.
pub proof fn law_streaming_starts_at_the_last_lines(
    config: ConfigView,
    id: Seq<char>,
    tail_lines: nat,
    facts: StreamFacts,
)
    ensures
        ({
            let log = config.output_log_path(id);
            let followed = following(log, "weaver-"@ + id, tail_lines, facts.follow);
            match streaming(config, "weaver-"@ + id, tail_lines, facts) {
                Progress::Need(StreamStepView::FindLog { path }) => path == log,
                Progress::Need(StreamStepView::Follow(step)) => facts.log_exists == Some(true)
                    && followed == Progress::<FollowStepView, FollowerView, Seq<char>>::Need(step),
                Progress::Done(Ok(follower)) => {
                    &&& facts.log_exists == Some(true)
                    &&& follower.session_name == "weaver-"@ + id
                    &&& facts.follow.opened is Some && facts.follow.opened->0 is Ok
                    &&& tail_lines == 0 || facts.follow.opened->0->Ok_0 == 0 ==> follower.position
                        == 0
                    &&& tail_lines > 0 && facts.follow.opened->0->Ok_0 > 0 ==> facts.follow.content
                        is Some && facts.follow.content->0 is Ok && (
                    facts.follow.content->0->Ok_0@.len() > 0 ==> starts_the_last_lines(
                        facts.follow.content->0->Ok_0@,
                        tail_lines,
                        follower.position,
                    ))
                },
                Progress::Done(Err(error)) => {
                    ||| facts.log_exists == Some(false) && error == (K8sErrorView::PodNotFound {
                        name: "weaver-"@ + id,
                    })
                    ||| facts.log_exists == Some(true) && (followed matches Progress::Done(
                        Err(reason),
                    ) && error == (K8sErrorView::StreamError {
                        message: "failed to create log follower: "@ + reason,
                    }))
                },
            }
        }),
{
    law_pod_name_and_id_correspond("weaver-"@ + id, id);
    if let Progress::Done(Ok(follower)) = streaming(config, "weaver-"@ + id, tail_lines, facts) {
        law_follower_starts_at_the_last_lines(
            config.output_log_path(id),
            "weaver-"@ + id,
            tail_lines,
            facts.follow,
            follower,
        );
    }
}

/// A terminal is attached to the session of the weaver that was asked for, where that
/// session is there; a weaver without one is a missing pod.
pub proof fn law_terminal_shows_the_session_of_the_weaver(id: Seq<char>, facts: ExecFacts)
    ensures
        ({
            let session = "weaver-"@ + id;
            let there = facts.session is Some && presence(facts.session->0) == Ok::<
                bool,
                LocalErrorView,
            >(true);
            let attached = attaching(session, facts.attach);
            match executing("weaver-"@ + id, facts) {
                Progress::Need(ExecStepView::FindSession { call }) => call =~= seq![
                    "has-session"@,
                    "-t"@,
                    session,
                ] && facts.session is None,
                Progress::Need(ExecStepView::Attach(step)) => there && attached == Progress::<
                    AttachStepView,
                    ProcessView,
                    LocalErrorView,
                >::Need(step),
                Progress::Done(Ok(process)) => there && attached == Progress::<
                    AttachStepView,
                    ProcessView,
                    LocalErrorView,
                >::Done(Ok(process)) && process.reader.len() == 0,
                Progress::Done(Err(seen)) => {
                    ||| facts.session is Some && (presence(facts.session->0) matches Err(error)
                        && seen == error.as_k8s())
                    ||| facts.session is Some && presence(facts.session->0) == Ok::<
                        bool,
                        LocalErrorView,
                    >(false) && seen == (K8sErrorView::PodNotFound { name: session })
                    ||| there && (attached matches Progress::Done(Err(error)) && seen
                        == error.as_k8s())
                },
            }
        }),
{
    law_pod_name_and_id_correspond("weaver-"@ + id, id);
}

/// The backend and the steps of its requests are seen as they are.
pub proof fn law_requests_are_seen_as_they_are(
    client: LocalClient,
    create: CreateStep,
    delete: DeleteStep,
    inspect: InspectStep,
    list: ListPodsStep,
    recover: RecoverStep,
    reconcile: ReconcileStep,
    start: StartStep,
    namespace: NamespaceStep,
    stream: StreamStep,
    exec: ExecStep,
)
    ensures
        client@.config == client.config@,
        client@.weavers == client.weavers@,
        match create {
            CreateStep::FindEnvDir { path } => create@ == (CreateStepView::FindEnvDir {
                path: path@,
            }),
            CreateStep::FindAnnotationDir { path } => create@ == (
            CreateStepView::FindAnnotationDir { path: path@ }),
            CreateStep::Store(step) => create@ == CreateStepView::Store(step@),
            CreateStep::MakeWorkspace { path } => create@ == (CreateStepView::MakeWorkspace {
                path: path@,
            }),
            CreateStep::CloneRepo { call } => create@ == (CreateStepView::CloneRepo {
                call: call.deep_view(),
            }),
            CreateStep::NewSession { call } => create@ == (CreateStepView::NewSession {
                call: call.deep_view(),
            }),
            CreateStep::PipePane { call } => create@ == (CreateStepView::PipePane {
                call: call.deep_view(),
            }),
            CreateStep::SendKeys { call } => create@ == (CreateStepView::SendKeys {
                call: call.deep_view(),
            }),
            CreateStep::AskPid { call } => create@ == (CreateStepView::AskPid {
                call: call.deep_view(),
            }),
            CreateStep::WritePid { path, text } => create@ == (CreateStepView::WritePid {
                path: path@,
                text: text@,
            }),
            CreateStep::Load(step) => create@ == CreateStepView::Load(step@),
        },
        match delete {
            DeleteStep::KillSession { call } => delete@ == (DeleteStepView::KillSession {
                call: call.deep_view(),
            }),
            DeleteStep::Wait { seconds } => delete@ == (DeleteStepView::Wait { seconds }),
            DeleteStep::Load(step) => delete@ == DeleteStepView::Load(step@),
            DeleteStep::Remove(step) => delete@ == DeleteStepView::Remove(step@),
        },
        match inspect {
            InspectStep::Load(step) => inspect@ == InspectStepView::Load(step@),
            InspectStep::FindPid { path } => inspect@ == (InspectStepView::FindPid { path: path@ }),
            InspectStep::Status(step) => inspect@ == InspectStepView::Status(step@),
        },
        match list {
            ListPodsStep::List(step) => list@ == ListPodsStepView::List(step@),
            ListPodsStep::Inspect { index, step } => list@ == (ListPodsStepView::Inspect {
                index: index as int,
                step: step@,
            }),
        },
        match recover {
            RecoverStep::Load(step) => recover@ == RecoverStepView::Load(step@),
            RecoverStep::Status(step) => recover@ == RecoverStepView::Status(step@),
        },
        match reconcile {
            ReconcileStep::List(step) => reconcile@ == ReconcileStepView::List(step@),
            ReconcileStep::ListSessions { call } => reconcile@ == (
            ReconcileStepView::ListSessions { call: call.deep_view() }),
            ReconcileStep::Recover { index, step } => reconcile@ == (ReconcileStepView::Recover {
                index: index as int,
                step: step@,
            }),
        },
        match start {
            StartStep::AskVersion { call } => start@ == (StartStepView::AskVersion {
                call: call.deep_view(),
            }),
            StartStep::FindBaseDir { path } => start@ == (StartStepView::FindBaseDir {
                path: path@,
            }),
            StartStep::MakeBaseDir { path } => start@ == (StartStepView::MakeBaseDir {
                path: path@,
            }),
            StartStep::Reconcile(step) => start@ == StartStepView::Reconcile(step@),
        },
        match namespace {
            NamespaceStep::FindBaseDir { path } => namespace@ == (NamespaceStepView::FindBaseDir {
                path: path@,
            }),
            NamespaceStep::MakeBaseDir { path } => namespace@ == (NamespaceStepView::MakeBaseDir {
                path: path@,
            }),
        },
        match stream {
            StreamStep::FindLog { path } => stream@ == (StreamStepView::FindLog { path: path@ }),
            StreamStep::Follow(step) => stream@ == StreamStepView::Follow(step@),
        },
        match exec {
            ExecStep::FindSession { call } => exec@ == (ExecStepView::FindSession {
                call: call.deep_view(),
            }),
            ExecStep::Attach(step) => exec@ == ExecStepView::Attach(step@),
        },
{
}

} // verus!
