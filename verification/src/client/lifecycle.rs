//! What holds from one request to the next.
use crate::client::create::{
    creating, requested_id, requested_metadata, CreateFacts, CreateStepView,
};
use crate::client::delete::{deleting, DeleteFacts, DeleteStepView};
use crate::client::show::{getting, InspectFacts, InspectStepView};
use crate::client::start::{recovering, RecoverFacts, RecoverStepView};
use crate::config::ConfigView;
use crate::error::{K8sErrorView, LocalErrorView};
use crate::pod::PodView;
use crate::pod_builder::{law_pod_name_and_id_correspond, weaver_pod};
use crate::progress::Progress;
use crate::time::Timestamp;
use crate::tmux::{kill_failure, pane_dead};
use crate::weaver::{
    observing, session_of, Finished, RemoveStepView, StatusStepView, WeaverStatus, WeaverView,
};
use vstd::prelude::*;

verus! {

/// While a weaver runs and its record is the one that was read back when it was
/// created, getting it shows the pod that creating it returned.
pub proof fn law_created_then_got(
    config: ConfigView,
    pod: PodView,
    now: Timestamp,
    create: CreateFacts,
    weaver: WeaverView,
    get: InspectFacts,
)
    requires
        creating(config, pod, now, create) == Progress::<
            CreateStepView,
            WeaverView,
            LocalErrorView,
        >::Done(Ok(weaver)),
        get.load == create.load,
        get.pid_exists == Some(true),
        observing(requested_id(pod)->0, get.status) == Progress::<
            StatusStepView,
            WeaverStatus,
            LocalErrorView,
        >::Done(Ok(WeaverStatus::Running)),
    ensures
        getting(config, "weaver-"@ + requested_id(pod)->0, get) == Progress::<
            InspectStepView,
            PodView,
            K8sErrorView,
        >::Done(Ok(weaver_pod(weaver))),
{
    let id = requested_id(pod)->0;
    law_pod_name_and_id_correspond("weaver-"@ + id, id);
}

/// A weaver outlives the server: while its session is there and its process
/// alive, starting anew recovers it as it was created.
pub proof fn law_created_then_recovered(
    config: ConfigView,
    pod: PodView,
    now: Timestamp,
    create: CreateFacts,
    weaver: WeaverView,
    sessions: Seq<Seq<char>>,
    recover: RecoverFacts,
)
    requires
        creating(config, pod, now, create) == Progress::<
            CreateStepView,
            WeaverView,
            LocalErrorView,
        >::Done(Ok(weaver)),
        recover.load == create.load,
        sessions.contains(session_of(weaver.metadata.id)),
        recover.pane is Some,
        pane_dead(recover.pane->0) == Ok::<bool, LocalErrorView>(false),
    ensures
        recovering(config, requested_id(pod)->0, sessions, recover) == Progress::<
            RecoverStepView,
            Option<WeaverView>,
            LocalErrorView,
        >::Done(Ok(Some(weaver))),
{
}

/// Deleting undoes creating. A weaver that got a directory of its own loses it
/// whole, and one that works in a directory of the user's loses only what the
/// backend keeps about it, where its record is the one that was stored.
pub proof fn law_delete_undoes_create(
    config: ConfigView,
    pod: PodView,
    now: Timestamp,
    create: CreateFacts,
    weaver: WeaverView,
    grace_period_seconds: u32,
    delete: DeleteFacts,
)
    requires
        creating(config, pod, now, create) == Progress::<
            CreateStepView,
            WeaverView,
            LocalErrorView,
        >::Done(Ok(weaver)),
        weaver.metadata == requested_metadata(config, pod, requested_id(pod)->0, now, create),
        delete.load == create.load,
        delete.killed is Some,
        kill_failure(delete.killed->0) is None,
        delete.waited,
        delete.remove.dir_exists == Some(true),
        delete.remove.removed is None,
    ensures
        ({
            let id = requested_id(pod)->0;
            let working_dir = requested_metadata(
                config,
                pod,
                id,
                now,
                create,
            ).effective_working_dir(config);
            deleting(config, "weaver-"@ + id, grace_period_seconds, delete) == Progress::<
                DeleteStepView,
                Finished,
                LocalErrorView,
            >::Need(
                DeleteStepView::Remove(
                    RemoveStepView::RemoveDir {
                        path: if config.is_fallback_dir(id, working_dir) {
                            config.weaver_dir(id)
                        } else {
                            config.loom_dir(id)
                        },
                    },
                ),
            )
        }),
{
    let id = requested_id(pod)->0;
    law_pod_name_and_id_correspond("weaver-"@ + id, id);
}

/// Once what the backend keeps about a weaver is gone, the weaver is not found.
pub proof fn law_deleted_then_missing(config: ConfigView, id: Seq<char>, get: InspectFacts)
    requires
        get.load.loom_dir_exists == Some(false),
    ensures
        getting(config, "weaver-"@ + id, get) == Progress::<
            InspectStepView,
            PodView,
            K8sErrorView,
        >::Done(Err(K8sErrorView::PodNotFound { name: id })),
{
    law_pod_name_and_id_correspond("weaver-"@ + id, id);
}

} // verus!
