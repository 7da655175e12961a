//! No operation asks for what it was already told. Each answer makes one more
//! fact known, so that every operation comes to an end.
use crate::client::access::{
    executing, getting_namespace, streaming, ExecFacts, ExecStepView, NamespaceFacts,
    NamespaceStepView, StreamFacts, StreamStepView,
};
use crate::client::create::{creating, CreateFacts, CreateStepView};
use crate::client::delete::{deleting, DeleteFacts, DeleteStepView};
use crate::client::show::{
    facts_at, getting, listing_pods, selecting_among, InspectFacts, InspectStepView, ListPodsFacts,
    ListPodsStepView,
};
use crate::client::start::{
    opening, reconciling, recover_facts_at, recovering_among, ReconcileFacts, ReconcileStepView,
    RecoverFacts, RecoverStepView, StartFacts, StartStepView,
};
use crate::client::ClientView;
use crate::config::ConfigView;
use crate::error::{K8sErrorView, LocalErrorView};
use crate::log_follower::{
    looking, ChunkFacts, ChunkStepView, ChunkView, FollowFacts, FollowStepView, FollowerView,
};
use crate::pod::{ObjectMetaView, PodView};
use crate::progress::Progress;
use crate::pty::{AttachFacts, AttachStepView, ProcessView};
use crate::time::Timestamp;
use crate::tmux::listed_sessions;
use crate::weaver::{
    listing, Finished, ListFacts, ListStepView, LoadFacts, LoadStepView, RemoveFacts, RemoveStepView,
    StatusFacts, StatusStepView, StoreFacts, StoreStepView, WeaverView,
};
use vstd::prelude::*;

verus! {

/// Whether what a step asks for is not known yet.
pub open spec fn load_open(step: LoadStepView, facts: LoadFacts) -> bool {
    match step {
        LoadStepView::FindLoomDir { .. } => facts.loom_dir_exists is None,
        LoadStepView::ReadMetadata { .. } => facts.metadata_text is None,
        LoadStepView::DecodeMetadata { .. } => facts.metadata is None,
    }
}

/// Whether what a step asks for is not known yet.
pub open spec fn store_open(step: StoreStepView, facts: StoreFacts) -> bool {
    match step {
        StoreStepView::FindWorkingDir { .. } => facts.working_dir_exists is None,
        StoreStepView::MakeLoomDir { .. } => facts.loom_dir_made is None,
        StoreStepView::EncodeMetadata { .. } => facts.encoded is None,
        StoreStepView::WriteTemp { .. } => facts.temp_written is None,
        StoreStepView::Rename { .. } => facts.renamed is None,
        StoreStepView::EmptyLog { .. } => facts.log_emptied is None,
    }
}

/// Whether what a step asks for is not known yet.
pub open spec fn remove_open(step: RemoveStepView, facts: RemoveFacts) -> bool {
    match step {
        RemoveStepView::FindDir { .. } => facts.dir_exists is None,
        RemoveStepView::RemoveDir { .. } => facts.removed is None,
    }
}

/// Whether what a step asks for is not known yet.
pub open spec fn list_open(step: ListStepView, facts: ListFacts) -> bool {
    match step {
        ListStepView::FindBaseDir { .. } => facts.base_dir_exists is None,
        ListStepView::ReadBaseDir { .. } => facts.names is None,
        ListStepView::FindMetadata { .. } => facts.metadata_exists is None,
    }
}

/// Whether what a step asks for is not known yet.
pub open spec fn status_open(step: StatusStepView, facts: StatusFacts) -> bool {
    match step {
        StatusStepView::FindSession { .. } => facts.session is None,
        StatusStepView::AskPane { .. } => facts.pane is None,
        StatusStepView::AskExit { .. } => facts.exit is None,
    }
}

/// Whether what a step asks for is not known yet.
pub open spec fn follow_open(step: FollowStepView, facts: FollowFacts) -> bool {
    match step {
        FollowStepView::Open { .. } => facts.opened is None,
        FollowStepView::ReadAll => facts.content is None,
        FollowStepView::Reopen { .. } => facts.reopened is None,
        FollowStepView::Watch { .. } => facts.watched is None,
    }
}

/// Whether what a step asks for is not known yet.
pub open spec fn attach_open(step: AttachStepView, facts: AttachFacts) -> bool {
    match step {
        AttachStepView::OpenPty { .. } => facts.opened is None,
        AttachStepView::Spawn { .. } => facts.spawned is None,
        AttachStepView::CloneReader => facts.reader is None,
        AttachStepView::TakeWriter => facts.writer is None,
    }
}

/// Whether what a step asks for is not known yet.
pub open spec fn create_open(step: CreateStepView, facts: CreateFacts) -> bool {
    match step {
        CreateStepView::FindEnvDir { .. } => facts.env_dir_exists is None,
        CreateStepView::FindAnnotationDir { .. } => facts.annotation_dir_exists is None,
        CreateStepView::Store(step) => store_open(step, facts.store),
        CreateStepView::MakeWorkspace { .. } => facts.workspace_made is None,
        CreateStepView::CloneRepo { .. } => facts.cloned is None,
        CreateStepView::NewSession { .. } => facts.session_made is None,
        CreateStepView::PipePane { .. } => facts.piped is None,
        CreateStepView::SendKeys { .. } => facts.keys_sent is None,
        CreateStepView::AskPid { .. } => facts.pid is None,
        CreateStepView::WritePid { .. } => facts.pid_written is None,
        CreateStepView::Load(step) => load_open(step, facts.load),
    }
}

/// Whether what a step asks for is not known yet.
pub open spec fn delete_open(step: DeleteStepView, facts: DeleteFacts) -> bool {
    match step {
        DeleteStepView::KillSession { .. } => facts.killed is None,
        DeleteStepView::Wait { .. } => !facts.waited,
        DeleteStepView::Load(step) => load_open(step, facts.load),
        DeleteStepView::Remove(step) => remove_open(step, facts.remove),
    }
}

/// Whether what a step asks for is not known yet.
pub open spec fn inspect_open(step: InspectStepView, facts: InspectFacts) -> bool {
    match step {
        InspectStepView::Load(step) => load_open(step, facts.load),
        InspectStepView::FindPid { .. } => facts.pid_exists is None,
        InspectStepView::Status(step) => status_open(step, facts.status),
    }
}

/// Whether what a step asks for is not known yet.
pub open spec fn recover_open(step: RecoverStepView, facts: RecoverFacts) -> bool {
    match step {
        RecoverStepView::Load(step) => load_open(step, facts.load),
        RecoverStepView::Status(StatusStepView::FindSession { .. }) => false,
        RecoverStepView::Status(StatusStepView::AskPane { .. }) => facts.pane is None,
        RecoverStepView::Status(StatusStepView::AskExit { .. }) => facts.exit is None,
    }
}

/// Whether what a step asks for is not known yet.
pub open spec fn list_pods_open(step: ListPodsStepView, facts: ListPodsFacts) -> bool {
    match step {
        ListPodsStepView::List(step) => list_open(step, facts.list),
        ListPodsStepView::Inspect { index, step } => inspect_open(
            step,
            facts_at(facts.weavers@, index),
        ),
    }
}

/// Whether what a step asks for is not known yet.
pub open spec fn reconcile_open(step: ReconcileStepView, facts: ReconcileFacts) -> bool {
    match step {
        ReconcileStepView::List(step) => list_open(step, facts.list),
        ReconcileStepView::ListSessions { .. } => facts.sessions is None,
        ReconcileStepView::Recover { index, step } => recover_open(
            step,
            recover_facts_at(facts.weavers@, index),
        ),
    }
}

/// Whether what a step asks for is not known yet.
pub open spec fn start_open(step: StartStepView, facts: StartFacts) -> bool {
    match step {
        StartStepView::AskVersion { .. } => facts.version is None,
        StartStepView::FindBaseDir { .. } => facts.base_dir_exists is None,
        StartStepView::MakeBaseDir { .. } => facts.base_dir_made is None,
        StartStepView::Reconcile(step) => reconcile_open(step, facts.reconcile),
    }
}

/// Whether what a step asks for is not known yet.
pub open spec fn chunk_open(step: ChunkStepView, facts: ChunkFacts) -> bool {
    match step {
        ChunkStepView::Measure => facts.len is None,
        ChunkStepView::Read { .. } => facts.read is None,
        ChunkStepView::FindSession { .. } => facts.session is None,
        ChunkStepView::MeasureLast => facts.last_len is None,
        ChunkStepView::ReadLast { .. } => facts.last_read is None,
        ChunkStepView::Wait { .. } => facts.wake is None,
    }
}

/// Creating a pod asks only for what is not known yet.
pub proof fn law_create_asks_once(
    config: ConfigView,
    pod: PodView,
    now: Timestamp,
    facts: CreateFacts,
    step: CreateStepView,
)
    requires
        creating(config, pod, now, facts) == Progress::<
            CreateStepView,
            WeaverView,
            LocalErrorView,
        >::Need(step),
    ensures
        create_open(step, facts),
{
}

/// Deleting a pod asks only for what is not known yet.
pub proof fn law_delete_asks_once(
    config: ConfigView,
    name: Seq<char>,
    grace_period_seconds: u32,
    facts: DeleteFacts,
    step: DeleteStepView,
)
    requires
        deleting(config, name, grace_period_seconds, facts) == Progress::<
            DeleteStepView,
            Finished,
            LocalErrorView,
        >::Need(step),
    ensures
        delete_open(step, facts),
{
}

/// Getting a pod asks only for what is not known yet.
pub proof fn law_get_asks_once(
    config: ConfigView,
    name: Seq<char>,
    facts: InspectFacts,
    step: InspectStepView,
)
    requires
        getting(config, name, facts) == Progress::<InspectStepView, PodView, K8sErrorView>::Need(
            step,
        ),
    ensures
        inspect_open(step, facts),
{
}

proof fn lemma_selecting_asks_once(
    config: ConfigView,
    ids: Seq<Seq<char>>,
    selector: Seq<char>,
    facts: ListPodsFacts,
    n: nat,
    step: ListPodsStepView,
)
    requires
        n <= ids.len(),
        selecting_among(config, ids, selector, facts.weavers@, n) == Progress::<
            ListPodsStepView,
            Seq<PodView>,
            LocalErrorView,
        >::Need(step),
    ensures
        list_pods_open(step, facts),
        step matches ListPodsStepView::Inspect { index, .. } && 0 <= index < ids.len(),
    decreases n,
{
    if n > 0 {
        let before = selecting_among(config, ids, selector, facts.weavers@, (n - 1) as nat);
        if before is Need {
            lemma_selecting_asks_once(config, ids, selector, facts, (n - 1) as nat, before->Need_0);
        }
    }
}

/// Listing pods asks only for what is not known yet.
pub proof fn law_list_asks_once(
    config: ConfigView,
    selector: Seq<char>,
    facts: ListPodsFacts,
    step: ListPodsStepView,
)
    requires
        listing_pods(config, selector, facts) == Progress::<
            ListPodsStepView,
            Seq<PodView>,
            LocalErrorView,
        >::Need(step),
    ensures
        list_pods_open(step, facts),
{
    let found = listing(config, facts.list);
    if found is Done {
        let ids = found->Done_0->Ok_0;
        lemma_selecting_asks_once(config, ids, selector, facts, ids.len(), step);
    }
}

proof fn lemma_recovering_asks_once(
    client: ClientView,
    ids: Seq<Seq<char>>,
    sessions: Seq<Seq<char>>,
    facts: ReconcileFacts,
    n: nat,
    step: ReconcileStepView,
)
    requires
        n <= ids.len(),
        recovering_among(client, ids, sessions, facts.weavers@, n) == Progress::<
            ReconcileStepView,
            Map<Seq<char>, WeaverView>,
            LocalErrorView,
        >::Need(step),
    ensures
        reconcile_open(step, facts),
        step matches ReconcileStepView::Recover { index, .. } && 0 <= index < ids.len(),
    decreases n,
{
    if n > 0 {
        let before = recovering_among(client, ids, sessions, facts.weavers@, (n - 1) as nat);
        if before is Need {
            lemma_recovering_asks_once(client, ids, sessions, facts, (n - 1) as nat, before->Need_0);
        }
    }
}

/// Starting the backend asks only for what is not known yet.
pub proof fn law_start_asks_once(config: ConfigView, facts: StartFacts, step: StartStepView)
    requires
        opening(config, facts) == Progress::<StartStepView, ClientView, LocalErrorView>::Need(step),
    ensures
        start_open(step, facts),
{
    if step is Reconcile {
        let client = ClientView { config, weavers: Map::empty() };
        let step = step->Reconcile_0;
        let found = listing(config, facts.reconcile.list);
        if found is Done && facts.reconcile.sessions is Some {
            let ids = found->Done_0->Ok_0;
            let sessions = listed_sessions(facts.reconcile.sessions->0)->Ok_0;
            assert(reconciling(client, facts.reconcile) is Need);
            lemma_recovering_asks_once(client, ids, sessions, facts.reconcile, ids.len(), step);
        }
    }
}

/// Getting the namespace asks only for what is not known yet.
pub proof fn law_namespace_asks_once(
    config: ConfigView,
    name: Seq<char>,
    facts: NamespaceFacts,
    step: NamespaceStepView,
)
    requires
        getting_namespace(config, name, facts) == Progress::<
            NamespaceStepView,
            ObjectMetaView,
            K8sErrorView,
        >::Need(step),
    ensures
        step is FindBaseDir ==> facts.base_dir_exists is None,
        step is MakeBaseDir ==> facts.base_dir_made is None,
{
}

/// Opening a log asks only for what is not known yet.
pub proof fn law_stream_asks_once(
    config: ConfigView,
    name: Seq<char>,
    tail_lines: nat,
    facts: StreamFacts,
    step: StreamStepView,
)
    requires
        streaming(config, name, tail_lines, facts) == Progress::<
            StreamStepView,
            FollowerView,
            K8sErrorView,
        >::Need(step),
    ensures
        step is FindLog ==> facts.log_exists is None,
        step matches StreamStepView::Follow(step) ==> follow_open(step, facts.follow),
{
}

/// Attaching a terminal asks only for what is not known yet.
pub proof fn law_attach_asks_once(name: Seq<char>, facts: ExecFacts, step: ExecStepView)
    requires
        executing(name, facts) == Progress::<ExecStepView, ProcessView, K8sErrorView>::Need(step),
    ensures
        step is FindSession ==> facts.session is None,
        step matches ExecStepView::Attach(step) ==> attach_open(step, facts.attach),
{
}

/// One look for the next chunk asks only for what is not known yet.
pub proof fn law_chunk_asks_once(follower: FollowerView, facts: ChunkFacts, step: ChunkStepView)
    requires
        looking(follower, facts) == Progress::<ChunkStepView, ChunkView, Seq<char>>::Need(step),
    ensures
        chunk_open(step, facts),
{
}

} // verus!
