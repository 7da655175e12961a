//! Deleting a weaver.
use crate::client::LocalClient;
use crate::config::ConfigView;
use crate::error::{K8sError, K8sErrorView, LocalError, LocalErrorView};
use crate::path::is_same_path;
use crate::pod_builder::{parse_weaver_id, weaver_id};
use crate::progress::{Attempt, Progress, Run};
use crate::text::join2;
use crate::tmux::{kill_failure, kill_session_words, TmuxSession};
use crate::weaver::{
    loading, removing, session_of, Finished, LoadFacts, LoadStep, LoadStepView, LocalWeaver,
    RemoveFacts, RemoveStep, RemoveStepView, WeaverView,
};
use vstd::prelude::*;

verus! {

/// What is known while a weaver is deleted.
#[derive(Debug)]
pub struct DeleteFacts {
    pub killed: Option<Run>,
    /// Whether the grace period is over.
    pub waited: bool,
    pub load: LoadFacts,
    pub remove: RemoveFacts,
}

/// What deleting a weaver can ask for.
#[derive(Debug)]
pub enum DeleteStep {
    /// A call of tmux that ends the session.
    KillSession { call: Vec<String> },
    /// So many seconds to pass.
    Wait { seconds: u32 },
    /// A step of loading the weaver's record.
    Load(LoadStep),
    /// A step of removing a directory.
    Remove(RemoveStep),
}

/// A [`DeleteStep`] as text.
pub enum DeleteStepView {
    KillSession { call: Seq<Seq<char>> },
    Wait { seconds: u32 },
    Load(LoadStepView),
    Remove(RemoveStepView),
}

impl View for DeleteStep {
    type V = DeleteStepView;

    open spec fn view(&self) -> DeleteStepView {
        match self {
            DeleteStep::KillSession { call } => DeleteStepView::KillSession {
                call: call.deep_view(),
            },
            DeleteStep::Wait { seconds } => DeleteStepView::Wait { seconds: *seconds },
            DeleteStep::Load(step) => DeleteStepView::Load(step@),
            DeleteStep::Remove(step) => DeleteStepView::Remove(step@),
        }
    }
}

/// The directory that goes with a weaver whose record was looked up: its own
/// directory, or, if it works in a directory of the user's, only what the backend
/// keeps about it. Without a record, its own directory is all there can be.
pub open spec fn doomed_dir(
    config: ConfigView,
    id: Seq<char>,
    record: Result<WeaverView, LocalErrorView>,
) -> Seq<char> {
    match record {
        Ok(weaver) => if config.is_fallback_dir(id, weaver.dir) {
            config.weaver_dir(id)
        } else {
            config.loom_dir(id)
        },
        Err(_) => config.weaver_dir(id),
    }
}

/// Deleting a weaver: end its session, let the grace period pass, and remove its
/// directory.
pub open spec fn deleting(
    config: ConfigView,
    name: Seq<char>,
    grace_period_seconds: u32,
    facts: DeleteFacts,
) -> Progress<DeleteStepView, Finished, LocalErrorView> {
    match weaver_id(name) {
        None => Progress::Done(Err(LocalErrorView::InvalidWeaverId { id: name })),
        Some(id) => match facts.killed {
            None => Progress::Need(
                DeleteStepView::KillSession { call: kill_session_words(session_of(id)) },
            ),
            Some(run) => match kill_failure(run) {
                Some(error) => Progress::Done(Err(error)),
                None => if grace_period_seconds > 0 && !facts.waited {
                    Progress::Need(DeleteStepView::Wait { seconds: grace_period_seconds })
                } else {
                    match loading(config, id, facts.load) {
                        Progress::Need(step) => Progress::Need(DeleteStepView::Load(step)),
                        Progress::Done(record) => match removing(
                            doomed_dir(config, id, record),
                            facts.remove,
                        ) {
                            Progress::Need(step) => Progress::Need(DeleteStepView::Remove(step)),
                            Progress::Done(result) => Progress::Done(result),
                        },
                    }
                },
            },
        },
    }
}

/// What the caller sees of deleting a weaver.
pub open spec fn deleted_pod(
    progress: Progress<DeleteStepView, Finished, LocalErrorView>,
) -> Progress<DeleteStepView, Finished, K8sErrorView> {
    match progress {
        Progress::Need(step) => Progress::Need(step),
        Progress::Done(Ok(finished)) => Progress::Done(Ok(finished)),
        Progress::Done(Err(error)) => Progress::Done(Err(error.as_k8s())),
    }
}

impl LocalClient {
    /// Deletes what tmux and the disk hold of a weaver.
    pub fn delete_weaver(
        &self,
        name: &str,
        grace_period_seconds: u32,
        facts: &DeleteFacts,
    ) -> (progress: Progress<DeleteStep, Finished, LocalError>)
        ensures
            progress@ == deleting(self@.config, name@, grace_period_seconds, *facts),
    {
        let id = match parse_weaver_id(name) {
            None => {
                return Progress::Done(Err(LocalError::InvalidWeaverId { id: name.to_owned() }));
            },
            Some(id) => id,
        };
        let session = TmuxSession::new(join2("weaver-", id.as_str()));
        let run = match &facts.killed {
            None => {
                return Progress::Need(DeleteStep::KillSession { call: session.kill_command() });
            },
            Some(run) => run,
        };
        match session.kill(run) {
            Err(error) => {
                return Progress::Done(Err(error));
            },
            Ok(_) => {},
        }
        if grace_period_seconds > 0 && !facts.waited {
            return Progress::Need(DeleteStep::Wait { seconds: grace_period_seconds });
        }
        let whole = match LocalWeaver::load(&self.config, id.as_str(), &facts.load) {
            Progress::Need(step) => {
                return Progress::Need(DeleteStep::Load(step));
            },
            Progress::Done(Err(_)) => true,
            Progress::Done(Ok(weaver)) => {
                let own_dir = self.config.weaver_dir(id.as_str());
                is_same_path(weaver.dir.as_str(), own_dir.as_str())
            },
        };
        let progress = if whole {
            LocalWeaver::delete(&self.config, id.as_str(), &facts.remove)
        } else {
            LocalWeaver::delete_metadata_only(&self.config, id.as_str(), &facts.remove)
        };
        match progress {
            Progress::Need(step) => Progress::Need(DeleteStep::Remove(step)),
            Progress::Done(result) => Progress::Done(result),
        }
    }

    /// Deletes a weaver. One that was deleted is no longer known to the backend.
    pub fn delete_pod(
        &mut self,
        name: &str,
        grace_period_seconds: u32,
        facts: &DeleteFacts,
    ) -> (progress: Progress<DeleteStep, Finished, K8sError>)
        ensures
            progress@ == deleted_pod(
                deleting(old(self)@.config, name@, grace_period_seconds, *facts),
            ),
            final(self)@.config == old(self)@.config,
            final(self)@.weavers == match deleting(
                old(self)@.config,
                name@,
                grace_period_seconds,
                *facts,
            ) {
                Progress::Done(Ok(_)) => old(self)@.weavers.remove(weaver_id(name@)->0),
                _ => old(self)@.weavers,
            },
    {
        match self.delete_weaver(name, grace_period_seconds, facts) {
            Progress::Need(step) => Progress::Need(step),
            Progress::Done(Err(error)) => Progress::Done(Err(K8sError::from(error))),
            Progress::Done(Ok(finished)) => {
                match parse_weaver_id(name) {
                    Some(id) => {
                        self.weavers.remove(id.as_str());
                    },
                    None => {},
                }
                Progress::Done(Ok(finished))
            },
        }
    }
}

/// Nothing is removed before the session has ended and the grace period is over,
/// and what is removed is the weaver's own directory or the `.loom` directory in
/// it. The directory of a weaver that works in one of the user's stays.
pub proof fn law_delete_spares_the_user(
    config: ConfigView,
    name: Seq<char>,
    grace_period_seconds: u32,
    facts: DeleteFacts,
    path: Seq<char>,
)
    requires
        deleting(config, name, grace_period_seconds, facts) == Progress::<
            DeleteStepView,
            Finished,
            LocalErrorView,
        >::Need(DeleteStepView::Remove(RemoveStepView::RemoveDir { path })),
    ensures
        ({
            let id = weaver_id(name)->0;
            &&& facts.killed is Some
            &&& kill_failure(facts.killed->0) is None
            &&& grace_period_seconds == 0 || facts.waited
            &&& path == config.weaver_dir(id) || path == config.loom_dir(id)
            &&& loading(config, id, facts.load) matches Progress::Done(Ok(weaver))
                ==> !config.is_fallback_dir(id, weaver.dir) ==> path == config.loom_dir(id)
        }),
{
}

/// A weaver is gone once it is deleted: its session has ended, and its directory
/// was removed or was not there.
pub proof fn law_deleted_weaver_is_gone(
    config: ConfigView,
    name: Seq<char>,
    grace_period_seconds: u32,
    facts: DeleteFacts,
)
    requires
        deleting(config, name, grace_period_seconds, facts) == Progress::<
            DeleteStepView,
            Finished,
            LocalErrorView,
        >::Done(Ok(Finished)),
    ensures
        facts.killed is Some,
        kill_failure(facts.killed->0) is None,
        facts.remove.dir_exists == Some(false) || facts.remove.removed == Some(
            Attempt::Succeeded,
        ),
{
}

} // verus!
