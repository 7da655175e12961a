//! Starting the backend: what it needs, and which weavers are there already.
use crate::client::{ClientView, LocalClient};
use crate::config::{ConfigView, LocalConfig};
use crate::error::{LocalError, LocalErrorView};
use crate::path::joined;
use crate::progress::{Attempt, Progress, Run};
use crate::text::same_text;
use crate::text_map::TextMap;
use crate::tmux::{
    check_tmux_available, list_sessions, list_sessions_command, list_sessions_words,
    listed_sessions, pane_dead, presence, unavailable, version_command, version_words,
    TmuxSession,
};
use crate::weaver::{
    listing, loading, observe_pane, observing, observing_pane, session_of, Finished, ListFacts,
    ListStep, ListStepView, LoadFacts, LoadStep, LoadStepView, LocalWeaver, StatusFacts,
    StatusStep, StatusStepView, WeaverStatus, WeaverView,
};
use vstd::prelude::*;
use vstd::string::*;

verus! {

/// What is known while one weaver is recovered.
#[derive(Debug)]
pub struct RecoverFacts {
    pub load: LoadFacts,
    pub pane: Option<Run>,
    pub exit: Option<Run>,
}

impl RecoverFacts {
    /// Nothing known yet.
    pub open spec fn nothing() -> RecoverFacts {
        RecoverFacts {
            load: LoadFacts { loom_dir_exists: None, metadata_text: None, metadata: None },
            pane: None,
            exit: None,
        }
    }

    /// Nothing known yet.
    pub fn unknown() -> (facts: RecoverFacts)
        ensures
            facts == RecoverFacts::nothing(),
    {
        RecoverFacts {
            load: LoadFacts { loom_dir_exists: None, metadata_text: None, metadata: None },
            pane: None,
            exit: None,
        }
    }
}

/// What recovering a weaver can ask for.
#[derive(Debug)]
pub enum RecoverStep {
    /// A step of loading the weaver's record.
    Load(LoadStep),
    /// A step of finding out the state of the weaver's process.
    Status(StatusStep),
}

/// A [`RecoverStep`] as text.
pub enum RecoverStepView {
    Load(LoadStepView),
    Status(StatusStepView),
}

impl View for RecoverStep {
    type V = RecoverStepView;

    open spec fn view(&self) -> RecoverStepView {
        match self {
            RecoverStep::Load(step) => RecoverStepView::Load(step@),
            RecoverStep::Status(step) => RecoverStepView::Status(step@),
        }
    }
}

/// The state of a recovered weaver's process: that of its session if it is among
/// the sessions that tmux listed.
pub open spec fn recovering_status(
    weaver: WeaverView,
    sessions: Seq<Seq<char>>,
    facts: RecoverFacts,
) -> Progress<StatusStepView, WeaverStatus, LocalErrorView> {
    let session = session_of(weaver.metadata.id);
    if sessions.contains(session) {
        observing_pane(session, facts.pane, facts.exit)
    } else {
        Progress::Done(Ok(WeaverStatus::Failed))
    }
}

/// Recovering a weaver from its record and its session. One whose record cannot
/// be loaded is passed over.
pub open spec fn recovering(
    config: ConfigView,
    id: Seq<char>,
    sessions: Seq<Seq<char>>,
    facts: RecoverFacts,
) -> Progress<RecoverStepView, Option<WeaverView>, LocalErrorView> {
    match loading(config, id, facts.load) {
        Progress::Need(step) => Progress::Need(RecoverStepView::Load(step)),
        Progress::Done(Err(_)) => Progress::Done(Ok(None)),
        Progress::Done(Ok(weaver)) => match recovering_status(weaver, sessions, facts) {
            Progress::Need(step) => Progress::Need(RecoverStepView::Status(step)),
            Progress::Done(Err(error)) => Progress::Done(Err(error)),
            Progress::Done(Ok(status)) => Progress::Done(
                Ok(Some(WeaverView { status, ..weaver })),
            ),
        },
    }
}

/// What is known while the weavers that are there are recovered.
#[derive(Debug)]
pub struct ReconcileFacts {
    pub list: ListFacts,
    pub sessions: Option<Run>,
    /// What is known about each weaver, in the order in which they are listed.
    pub weavers: Vec<RecoverFacts>,
}

/// What recovering weavers can ask for.
#[derive(Debug)]
pub enum ReconcileStep {
    /// A step of listing weavers.
    List(ListStep),
    /// A call of tmux that lists its sessions.
    ListSessions { call: Vec<String> },
    /// A step of recovering the weaver at a place in the list.
    Recover { index: usize, step: RecoverStep },
}

/// A [`ReconcileStep`] as text.
pub enum ReconcileStepView {
    List(ListStepView),
    ListSessions { call: Seq<Seq<char>> },
    Recover { index: int, step: RecoverStepView },
}

impl View for ReconcileStep {
    type V = ReconcileStepView;

    open spec fn view(&self) -> ReconcileStepView {
        match self {
            ReconcileStep::List(step) => ReconcileStepView::List(step@),
            ReconcileStep::ListSessions { call } => ReconcileStepView::ListSessions {
                call: call.deep_view(),
            },
            ReconcileStep::Recover { index, step } => ReconcileStepView::Recover {
                index: *index as int,
                step: step@,
            },
        }
    }
}

/// What is known about the weaver at a place in a list.
pub open spec fn recover_facts_at(facts: Seq<RecoverFacts>, i: int) -> RecoverFacts {
    if 0 <= i < facts.len() {
        facts[i]
    } else {
        RecoverFacts::nothing()
    }
}

/// Recovering the first `n` of the weavers, one after the other. The result is
/// those known before, with those that were recovered.
pub open spec fn recovering_among(
    client: ClientView,
    ids: Seq<Seq<char>>,
    sessions: Seq<Seq<char>>,
    facts: Seq<RecoverFacts>,
    n: nat,
) -> Progress<ReconcileStepView, Map<Seq<char>, WeaverView>, LocalErrorView>
    decreases n,
{
    if n == 0 {
        Progress::Done(Ok(client.weavers))
    } else {
        let i = n - 1;
        match recovering_among(client, ids, sessions, facts, i as nat) {
            Progress::Done(Ok(weavers)) => match recovering(
                client.config,
                ids[i],
                sessions,
                recover_facts_at(facts, i),
            ) {
                Progress::Need(step) => Progress::Need(
                    ReconcileStepView::Recover { index: i, step },
                ),
                Progress::Done(Err(error)) => Progress::Done(Err(error)),
                Progress::Done(Ok(None)) => Progress::Done(Ok(weavers)),
                Progress::Done(Ok(Some(weaver))) => Progress::Done(
                    Ok(weavers.insert(ids[i], weaver)),
                ),
            },
            other => other,
        }
    }
}

/// Recovering all weavers that have a record.
pub open spec fn reconciling(client: ClientView, facts: ReconcileFacts) -> Progress<
    ReconcileStepView,
    Map<Seq<char>, WeaverView>,
    LocalErrorView,
> {
    match listing(client.config, facts.list) {
        Progress::Need(step) => Progress::Need(ReconcileStepView::List(step)),
        Progress::Done(Err(error)) => Progress::Done(Err(error)),
        Progress::Done(Ok(ids)) => match facts.sessions {
            None => Progress::Need(ReconcileStepView::ListSessions { call: list_sessions_words() }),
            Some(run) => match listed_sessions(run) {
                Err(error) => Progress::Done(Err(error)),
                Ok(sessions) => recovering_among(
                    client,
                    ids,
                    sessions,
                    facts.weavers@,
                    ids.len(),
                ),
            },
        },
    }
}

/// The weavers known once recovering the first `n` has come as far as it can: those
/// known before, with those that were recovered until it was done or stopped.
pub open spec fn recovered_so_far(
    client: ClientView,
    ids: Seq<Seq<char>>,
    sessions: Seq<Seq<char>>,
    facts: Seq<RecoverFacts>,
    n: nat,
) -> Map<Seq<char>, WeaverView>
    decreases n,
{
    match recovering_among(client, ids, sessions, facts, n) {
        Progress::Done(Ok(weavers)) => weavers,
        _ => if n == 0 {
            client.weavers
        } else {
            recovered_so_far(client, ids, sessions, facts, (n - 1) as nat)
        },
    }
}

/// The weavers that the backend knows of after recovering has failed: those known
/// before, with those that were recovered before the failure.
pub open spec fn kept_weavers(client: ClientView, facts: ReconcileFacts) -> Map<
    Seq<char>,
    WeaverView,
> {
    match (listing(client.config, facts.list), facts.sessions) {
        (Progress::Done(Ok(ids)), Some(run)) => match listed_sessions(run) {
            Ok(sessions) => recovered_so_far(client, ids, sessions, facts.weavers@, ids.len()),
            Err(_) => client.weavers,
        },
        _ => client.weavers,
    }
}

/// A failure at one weaver leaves those before it recovered, and no other.
pub proof fn law_weavers_before_a_failure_are_kept(
    client: ClientView,
    ids: Seq<Seq<char>>,
    sessions: Seq<Seq<char>>,
    facts: Seq<RecoverFacts>,
    i: nat,
    n: nat,
    weavers: Map<Seq<char>, WeaverView>,
    error: LocalErrorView,
)
    requires
        i < n,
        recovering_among(client, ids, sessions, facts, i) == Progress::<
            ReconcileStepView,
            Map<Seq<char>, WeaverView>,
            LocalErrorView,
        >::Done(Ok(weavers)),
        recovering(client.config, ids[i as int], sessions, recover_facts_at(facts, i as int))
            == Progress::<RecoverStepView, Option<WeaverView>, LocalErrorView>::Done(Err(error)),
    ensures
        recovering_among(client, ids, sessions, facts, n) == Progress::<
            ReconcileStepView,
            Map<Seq<char>, WeaverView>,
            LocalErrorView,
        >::Done(Err(error)),
        recovered_so_far(client, ids, sessions, facts, n) == weavers,
    decreases n,
{
    lemma_recovering_stops(client, ids, sessions, facts, (i + 1) as nat, n);
    assert(recovered_so_far(client, ids, sessions, facts, i) == weavers);
    if i + 1 < n {
        law_weavers_before_a_failure_are_kept(
            client,
            ids,
            sessions,
            facts,
            i,
            (n - 1) as nat,
            weavers,
            error,
        );
    }
}

proof fn lemma_recovering_stops(
    client: ClientView,
    ids: Seq<Seq<char>>,
    sessions: Seq<Seq<char>>,
    facts: Seq<RecoverFacts>,
    i: nat,
    n: nat,
)
    requires
        i <= n,
        !(recovering_among(client, ids, sessions, facts, i) matches Progress::Done(Ok(_))),
    ensures
        recovering_among(client, ids, sessions, facts, n) == recovering_among(
            client,
            ids,
            sessions,
            facts,
            i,
        ),
    decreases n - i,
{
    if i < n {
        lemma_recovering_stops(client, ids, sessions, facts, i, (n - 1) as nat);
    }
}

/// Whether a name is among those listed.
pub fn is_listed(names: &Vec<String>, name: &str) -> (listed: bool)
    ensures
        listed == names.deep_view().contains(name@),
{
    let ghost all = names.deep_view();
    let mut i: usize = 0;
    while i < names.len()
        invariant
            i <= names@.len(),
            all == names.deep_view(),
            forall|j: int| 0 <= j < i ==> #[trigger] all[j] != name@,
        decreases names@.len() - i,
    {
        assert(all[i as int] == names@[i as int]@);
        if same_text(names[i].as_str(), name) {
            return true;
        }
        i = i + 1;
    }
    false
}

/// What came of recovering one weaver.
enum Recovered {
    Ask(RecoverStep),
    Refuse(LocalError),
    Skip,
    Take(LocalWeaver),
}

impl Recovered {
    spec fn is_of(
        self,
        progress: Progress<RecoverStepView, Option<WeaverView>, LocalErrorView>,
    ) -> bool {
        match progress {
            Progress::Need(step) => self matches Recovered::Ask(ask) && ask@ == step,
            Progress::Done(Err(error)) => self matches Recovered::Refuse(refusal) && refusal@
                == error,
            Progress::Done(Ok(None)) => self is Skip,
            Progress::Done(Ok(Some(weaver))) => self matches Recovered::Take(taken) && taken@
                == weaver,
        }
    }
}

fn recover(
    config: &LocalConfig,
    id: &str,
    sessions: &Vec<String>,
    facts: &RecoverFacts,
) -> (recovered: Recovered)
    ensures
        recovered.is_of(recovering(config@, id@, sessions.deep_view(), *facts)),
{
    let weaver = match LocalWeaver::load(config, id, &facts.load) {
        Progress::Need(step) => {
            return Recovered::Ask(RecoverStep::Load(step));
        },
        Progress::Done(Err(_)) => {
            return Recovered::Skip;
        },
        Progress::Done(Ok(weaver)) => weaver,
    };
    let session_name = weaver.session_name();
    if !is_listed(sessions, session_name.as_str()) {
        return Recovered::Take(LocalWeaver { status: WeaverStatus::Failed, ..weaver });
    }
    let session = TmuxSession::new(session_name);
    match observe_pane(&session, &facts.pane, &facts.exit) {
        Progress::Need(step) => Recovered::Ask(RecoverStep::Status(step)),
        Progress::Done(Err(error)) => Recovered::Refuse(error),
        Progress::Done(Ok(status)) => Recovered::Take(LocalWeaver { status, ..weaver }),
    }
}

impl LocalClient {
    /// Recovers all weavers that have a record. Where that fails, those that were
    /// recovered before the failure are known all the same.
    pub fn reconcile(&mut self, facts: &ReconcileFacts) -> (progress: Progress<
        ReconcileStep,
        Finished,
        LocalError,
    >)
        ensures
            final(self)@.config == old(self)@.config,
            match reconciling(old(self)@, *facts) {
                Progress::Need(step) => progress@ == Progress::<
                    ReconcileStepView,
                    Finished,
                    LocalErrorView,
                >::Need(step) && final(self)@.weavers == old(self)@.weavers,
                Progress::Done(Err(error)) => progress@ == Progress::<
                    ReconcileStepView,
                    Finished,
                    LocalErrorView,
                >::Done(Err(error)) && final(self)@.weavers == kept_weavers(old(self)@, *facts),
                Progress::Done(Ok(weavers)) => progress@ == Progress::<
                    ReconcileStepView,
                    Finished,
                    LocalErrorView,
                >::Done(Ok(Finished)) && final(self)@.weavers == weavers,
            },
    {
        let ids = match LocalWeaver::list_all(&self.config, &facts.list) {
            Progress::Need(step) => {
                return Progress::Need(ReconcileStep::List(step));
            },
            Progress::Done(Err(error)) => {
                return Progress::Done(Err(error));
            },
            Progress::Done(Ok(found)) => found.ids,
        };
        let sessions = match &facts.sessions {
            None => {
                return Progress::Need(
                    ReconcileStep::ListSessions { call: list_sessions_command() },
                );
            },
            Some(run) => match list_sessions(run) {
                Err(error) => {
                    return Progress::Done(Err(error));
                },
                Ok(sessions) => sessions,
            },
        };
        let ghost client = self@;
        let ghost all = ids.deep_view();
        let ghost running = sessions.deep_view();
        let unknown = RecoverFacts::unknown();
        let mut recovered: Vec<(String, LocalWeaver)> = Vec::new();
        let mut i: usize = 0;
        while i < ids.len()
            invariant
                i <= ids@.len(),
                client == self@,
                *self == *old(self),
                client == old(self)@,
                all == ids.deep_view(),
                running == sessions.deep_view(),
                unknown == RecoverFacts::nothing(),
                listing(client.config, facts.list) == Progress::<
                    ListStepView,
                    Seq<Seq<char>>,
                    LocalErrorView,
                >::Done(Ok(all)),
                facts.sessions is Some,
                listed_sessions(facts.sessions->0) == Ok::<Seq<Seq<char>>, LocalErrorView>(running),
                recovering_among(client, all, running, facts.weavers@, i as nat) == Progress::<
                    ReconcileStepView,
                    Map<Seq<char>, WeaverView>,
                    LocalErrorView,
                >::Done(Ok(with_all(client.weavers, recovered@))),
            decreases ids@.len() - i,
        {
            let known = if i < facts.weavers.len() {
                &facts.weavers[i]
            } else {
                &unknown
            };
            assert(all[i as int] == ids@[i as int]@);
            assert(*known == recover_facts_at(facts.weavers@, i as int));
            let ghost before = recovered@;
            let next = recover(&self.config, ids[i].as_str(), &sessions, known);
            assert(next.is_of(
                recovering(
                    client.config,
                    all[i as int],
                    running,
                    recover_facts_at(facts.weavers@, i as int),
                ),
            ));
            proof {
                if next is Ask {
                    lemma_recovering_stops(
                        client,
                        all,
                        running,
                        facts.weavers@,
                        (i + 1) as nat,
                        all.len(),
                    );
                }
            }
            match next {
                Recovered::Ask(step) => {
                    return Progress::Need(ReconcileStep::Recover { index: i, step });
                },
                Recovered::Refuse(error) => {
                    proof {
                        law_weavers_before_a_failure_are_kept(
                            client,
                            all,
                            running,
                            facts.weavers@,
                            i as nat,
                            all.len(),
                            with_all(client.weavers, recovered@),
                            error@,
                        );
                    }
                    self.take_all(recovered);
                    return Progress::Done(Err(error));
                },
                Recovered::Skip => {},
                Recovered::Take(weaver) => {
                    recovered.push((ids[i].clone(), weaver));
                    assert(recovered@.drop_last() =~= before);
                },
            }
            i = i + 1;
        }
        self.take_all(recovered);
        Progress::Done(Ok(Finished))
    }

    fn take_all(&mut self, recovered: Vec<(String, LocalWeaver)>)
        ensures
            final(self)@.config == old(self)@.config,
            final(self)@.weavers == with_all(old(self)@.weavers, recovered@),
    {
        let mut i: usize = 0;
        assert(recovered@.take(0) =~= Seq::empty());
        while i < recovered.len()
            invariant
                i <= recovered@.len(),
                self@.config == old(self)@.config,
                self@.weavers == with_all(old(self)@.weavers, recovered@.take(i as int)),
            decreases recovered@.len() - i,
        {
            self.weavers.insert(recovered[i].0.clone(), recovered[i].1.clone());
            assert(recovered@.take(i + 1).drop_last() =~= recovered@.take(i as int));
            i = i + 1;
        }
        assert(recovered@.take(recovered@.len() as int) =~= recovered@);
    }
}

/// A table with weavers put into it, one after the other.
pub open spec fn with_all(
    weavers: Map<Seq<char>, WeaverView>,
    more: Seq<(String, LocalWeaver)>,
) -> Map<Seq<char>, WeaverView>
    decreases more.len(),
{
    if more.len() == 0 {
        weavers
    } else {
        with_all(weavers, more.drop_last()).insert(more.last().0@, more.last().1@)
    }
}

/// What is known while the backend starts.
#[derive(Debug)]
pub struct StartFacts {
    pub version: Option<Run>,
    pub base_dir_exists: Option<bool>,
    pub base_dir_made: Option<Attempt>,
    pub reconcile: ReconcileFacts,
}

/// What starting the backend can ask for.
#[derive(Debug)]
pub enum StartStep {
    /// A call of tmux that tells its version.
    AskVersion { call: Vec<String> },
    /// Whether the base directory exists.
    FindBaseDir { path: String },
    /// A directory, with all above it.
    MakeBaseDir { path: String },
    /// A step of recovering weavers.
    Reconcile(ReconcileStep),
}

/// A [`StartStep`] as text.
pub enum StartStepView {
    AskVersion { call: Seq<Seq<char>> },
    FindBaseDir { path: Seq<char> },
    MakeBaseDir { path: Seq<char> },
    Reconcile(ReconcileStepView),
}

impl View for StartStep {
    type V = StartStepView;

    open spec fn view(&self) -> StartStepView {
        match self {
            StartStep::AskVersion { call } => StartStepView::AskVersion { call: call.deep_view() },
            StartStep::FindBaseDir { path } => StartStepView::FindBaseDir { path: path@ },
            StartStep::MakeBaseDir { path } => StartStepView::MakeBaseDir { path: path@ },
            StartStep::Reconcile(step) => StartStepView::Reconcile(step@),
        }
    }
}

/// Starting the backend: tmux must be there, then the base directory, and then
/// the weavers that are there are recovered.
pub open spec fn opening(config: ConfigView, facts: StartFacts) -> Progress<
    StartStepView,
    ClientView,
    LocalErrorView,
> {
    match facts.version {
        None => Progress::Need(StartStepView::AskVersion { call: version_words() }),
        Some(run) => match unavailable(run) {
            Some(error) => Progress::Done(Err(error)),
            None => if facts.base_dir_exists is None {
                Progress::Need(StartStepView::FindBaseDir { path: config.base_dir })
            } else if facts.base_dir_exists == Some(false) && facts.base_dir_made is None {
                Progress::Need(StartStepView::MakeBaseDir { path: config.base_dir })
            } else if facts.base_dir_exists == Some(false) && facts.base_dir_made->0 is Failed {
                Progress::Done(Err(LocalErrorView::Io(facts.base_dir_made->0->Failed_0@)))
            } else {
                match reconciling(ClientView { config, weavers: Map::empty() }, facts.reconcile) {
                    Progress::Need(step) => Progress::Need(StartStepView::Reconcile(step)),
                    Progress::Done(Err(error)) => Progress::Done(Err(error)),
                    Progress::Done(Ok(weavers)) => Progress::Done(
                        Ok(ClientView { config, weavers }),
                    ),
                }
            },
        },
    }
}

impl LocalClient {
    /// Starts the backend for a server. Weavers live below `weavers_dir` if that
    /// is given, else below `loom-weavers` in the home directory, else below
    /// `/tmp/loom-weavers`.
    pub fn new(
        server_url: String,
        weavers_dir: Option<String>,
        home: Option<String>,
        facts: &StartFacts,
    ) -> (progress: Progress<StartStep, LocalClient, LocalError>)
        ensures
            progress@ == opening(
                ConfigView {
                    base_dir: match weavers_dir {
                        Some(dir) => dir@,
                        None => joined(
                            match home {
                                Some(home) => home@,
                                None => "/tmp"@,
                            },
                            "loom-weavers"@,
                        ),
                    },
                    default_image: "loom:latest"@,
                    server_url: server_url@,
                    loom_command: "loom"@,
                },
                *facts,
            ),
    {
        Self::with_config(LocalConfig::new(server_url, weavers_dir, home), facts)
    }

    /// Starts the backend with the given settings.
    pub fn with_config(config: LocalConfig, facts: &StartFacts) -> (progress: Progress<
        StartStep,
        LocalClient,
        LocalError,
    >)
        ensures
            progress@ == opening(config@, *facts),
    {
        let run = match &facts.version {
            None => {
                return Progress::Need(StartStep::AskVersion { call: version_command() });
            },
            Some(run) => run,
        };
        match check_tmux_available(run) {
            Err(error) => {
                return Progress::Done(Err(error));
            },
            Ok(_) => {},
        }
        match facts.base_dir_exists {
            None => {
                return Progress::Need(StartStep::FindBaseDir { path: config.base_dir });
            },
            Some(found) => {
                if !found {
                    match &facts.base_dir_made {
                        None => {
                            return Progress::Need(StartStep::MakeBaseDir { path: config.base_dir });
                        },
                        Some(Attempt::Failed(reason)) => {
                            return Progress::Done(Err(LocalError::Io(reason.clone())));
                        },
                        Some(Attempt::Succeeded) => {},
                    }
                }
            },
        }
        let mut client = LocalClient { config, weavers: TextMap::new() };
        match client.reconcile(&facts.reconcile) {
            Progress::Need(step) => Progress::Need(StartStep::Reconcile(step)),
            Progress::Done(Err(error)) => Progress::Done(Err(error)),
            Progress::Done(Ok(_)) => Progress::Done(Ok(client)),
        }
    }
}

/// Where tmux lists a session exactly if it finds it when asked, a recovered
/// weaver is in the state that it is shown in.
pub proof fn law_recovered_as_shown(
    config: ConfigView,
    id: Seq<char>,
    sessions: Seq<Seq<char>>,
    facts: RecoverFacts,
    session: Run,
    weaver: WeaverView,
)
    requires
        recovering(config, id, sessions, facts) == Progress::<
            RecoverStepView,
            Option<WeaverView>,
            LocalErrorView,
        >::Done(Ok(Some(weaver))),
        weaver.metadata.id == id,
        presence(session) == Ok::<bool, LocalErrorView>(sessions.contains(session_of(id))),
    ensures
        observing(
            id,
            StatusFacts { session: Some(session), pane: facts.pane, exit: facts.exit },
        ) == Progress::<StatusStepView, WeaverStatus, LocalErrorView>::Done(Ok(weaver.status)),
{
}

/// Every weaver whose record can be loaded is recovered: running exactly if tmux
/// listed its session and the process in it is alive.
pub proof fn law_every_record_is_recovered(
    client: ClientView,
    ids: Seq<Seq<char>>,
    sessions: Seq<Seq<char>>,
    facts: Seq<RecoverFacts>,
    n: nat,
    weavers: Map<Seq<char>, WeaverView>,
    i: int,
    weaver: WeaverView,
)
    requires
        recovering_among(client, ids, sessions, facts, n) == Progress::<
            ReconcileStepView,
            Map<Seq<char>, WeaverView>,
            LocalErrorView,
        >::Done(Ok(weavers)),
        forall|j: int, k: int|
            0 <= j < k < n ==> #[trigger] ids[j] != #[trigger] ids[k],
        0 <= i < n,
        loading(client.config, ids[i], recover_facts_at(facts, i).load) == Progress::<
            LoadStepView,
            WeaverView,
            LocalErrorView,
        >::Done(Ok(weaver)),
    ensures
        weavers.contains_key(ids[i]),
        weavers[ids[i]].metadata == weaver.metadata,
        weavers[ids[i]].dir == weaver.dir,
        weavers[ids[i]].status == WeaverStatus::Running <==> {
            &&& sessions.contains(session_of(weaver.metadata.id))
            &&& recover_facts_at(facts, i).pane is Some
            &&& pane_dead(recover_facts_at(facts, i).pane->0) == Ok::<bool, LocalErrorView>(false)
        },
    decreases n,
{
    let before = recovering_among(client, ids, sessions, facts, (n - 1) as nat);
    if i < n - 1 {
        law_every_record_is_recovered(
            client,
            ids,
            sessions,
            facts,
            (n - 1) as nat,
            before->Done_0->Ok_0,
            i,
            weaver,
        );
        assert(ids[i] != ids[n - 1]);
    }
}

/// What is known about a weaver is what was recorded at its place; of any other
/// nothing is known.
pub proof fn law_recovered_facts_keep_their_place(facts: Seq<RecoverFacts>, i: int)
    ensures
        0 <= i < facts.len() ==> recover_facts_at(facts, i) == facts[i],
        !(0 <= i < facts.len()) ==> {
            let none = recover_facts_at(facts, i);
            &&& none.load.loom_dir_exists is None && none.load.metadata_text is None
            &&& none.load.metadata is None && none.pane is None && none.exit is None
        },
{
}

/// Where recovering fails at one weaver, those recovered before it are kept; where it
/// fails before any weaver is looked at, those known before are.
pub proof fn law_failure_keeps_what_was_recovered(
    client: ClientView,
    facts: ReconcileFacts,
    i: nat,
    weavers: Map<Seq<char>, WeaverView>,
    error: LocalErrorView,
)
    ensures
        listing(client.config, facts.list) matches Progress::Done(Err(_)) ==> kept_weavers(
            client,
            facts,
        ) == client.weavers,
        facts.sessions is Some && listed_sessions(facts.sessions->0) is Err ==> kept_weavers(
            client,
            facts,
        ) == client.weavers,
        listing(client.config, facts.list) matches Progress::Done(Ok(ids)) ==> facts.sessions
            is Some && listed_sessions(facts.sessions->0) is Ok && i < ids.len()
            && recovering_among(
            client,
            ids,
            listed_sessions(facts.sessions->0)->Ok_0,
            facts.weavers@,
            i,
        ) == Progress::<ReconcileStepView, Map<Seq<char>, WeaverView>, LocalErrorView>::Done(
            Ok(weavers),
        ) && recovering(
            client.config,
            ids[i as int],
            listed_sessions(facts.sessions->0)->Ok_0,
            recover_facts_at(facts.weavers@, i as int),
        ) == Progress::<RecoverStepView, Option<WeaverView>, LocalErrorView>::Done(Err(error))
            ==> kept_weavers(client, facts) == weavers,
{
    if let Progress::Done(Ok(ids)) = listing(client.config, facts.list) {
        if facts.sessions is Some && listed_sessions(facts.sessions->0) is Ok && i < ids.len() {
            let sessions = listed_sessions(facts.sessions->0)->Ok_0;
            if recovering_among(client, ids, sessions, facts.weavers@, i) == Progress::<
                ReconcileStepView,
                Map<Seq<char>, WeaverView>,
                LocalErrorView,
            >::Done(Ok(weavers)) && recovering(
                client.config,
                ids[i as int],
                sessions,
                recover_facts_at(facts.weavers@, i as int),
            ) == Progress::<RecoverStepView, Option<WeaverView>, LocalErrorView>::Done(Err(error)) {
                law_weavers_before_a_failure_are_kept(
                    client,
                    ids,
                    sessions,
                    facts.weavers@,
                    i,
                    ids.len(),
                    weavers,
                    error,
                );
            }
        }
    }
}

} // verus!
