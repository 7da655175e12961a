//! Showing weavers as pods.
use crate::client::LocalClient;
use crate::config::ConfigView;
use crate::error::{K8sError, K8sErrorView, LocalError, LocalErrorView};
use crate::pod::{Pod, PodView};
use crate::pod_builder::{
    labels_of, law_pod_name_and_id_correspond, local_weaver_to_pod, matches_selector,
    parse_weaver_id, pod_labels, selector_matches, weaver_id, weaver_pod,
};
use crate::progress::Progress;
use crate::weaver::{
    listing, loading, observe, observing, ListFacts, ListStep, ListStepView, LoadFacts, LoadStep,
    LoadStepView, LocalWeaver, StatusFacts, StatusStep, StatusStepView, WeaverStatus, WeaverView,
};
use vstd::prelude::*;

verus! {

/// What is known while a weaver is inspected.
#[derive(Debug)]
pub struct InspectFacts {
    pub load: LoadFacts,
    pub pid_exists: Option<bool>,
    pub status: StatusFacts,
}

impl InspectFacts {
    /// Nothing known yet.
    pub open spec fn nothing() -> InspectFacts {
        InspectFacts {
            load: LoadFacts { loom_dir_exists: None, metadata_text: None, metadata: None },
            pid_exists: None,
            status: StatusFacts { session: None, pane: None, exit: None },
        }
    }

    /// Nothing known yet.
    pub fn unknown() -> (facts: InspectFacts)
        ensures
            facts == InspectFacts::nothing(),
    {
        InspectFacts {
            load: LoadFacts { loom_dir_exists: None, metadata_text: None, metadata: None },
            pid_exists: None,
            status: StatusFacts { session: None, pane: None, exit: None },
        }
    }
}

/// What inspecting a weaver can ask for.
#[derive(Debug)]
pub enum InspectStep {
    /// A step of loading the weaver's record.
    Load(LoadStep),
    /// Whether the weaver's process was noted.
    FindPid { path: String },
    /// A step of finding out the state of the weaver's process.
    Status(StatusStep),
}

/// An [`InspectStep`] as text.
pub enum InspectStepView {
    Load(LoadStepView),
    FindPid { path: Seq<char> },
    Status(StatusStepView),
}

impl View for InspectStep {
    type V = InspectStepView;

    open spec fn view(&self) -> InspectStepView {
        match self {
            InspectStep::Load(step) => InspectStepView::Load(step@),
            InspectStep::FindPid { path } => InspectStepView::FindPid { path: path@ },
            InspectStep::Status(step) => InspectStepView::Status(step@),
        }
    }
}

/// Showing a weaver whose record was loaded, in the state that its process is in.
pub open spec fn showing(id: Seq<char>, weaver: WeaverView, facts: StatusFacts) -> Progress<
    InspectStepView,
    PodView,
    LocalErrorView,
> {
    match observing(id, facts) {
        Progress::Need(step) => Progress::Need(InspectStepView::Status(step)),
        Progress::Done(Err(error)) => Progress::Done(Err(error)),
        Progress::Done(Ok(status)) => Progress::Done(
            Ok(weaver_pod(WeaverView { status, ..weaver })),
        ),
    }
}

/// Getting a pod by its name. A weaver that nothing is kept about, or whose process
/// was not noted, is not there, whatever its record holds.
pub open spec fn getting(config: ConfigView, name: Seq<char>, facts: InspectFacts) -> Progress<
    InspectStepView,
    PodView,
    K8sErrorView,
> {
    match weaver_id(name) {
        None => Progress::Done(Err((LocalErrorView::InvalidWeaverId { id: name }).as_k8s())),
        Some(id) => if facts.load.loom_dir_exists == Some(true) && facts.pid_exists is None {
            Progress::Need(InspectStepView::FindPid { path: config.pid_path(id) })
        } else if facts.load.loom_dir_exists == Some(true) && facts.pid_exists == Some(false) {
            Progress::Done(Err(K8sErrorView::PodNotFound { name }))
        } else {
            match loading(config, id, facts.load) {
                Progress::Need(step) => Progress::Need(InspectStepView::Load(step)),
                Progress::Done(Err(error)) => Progress::Done(Err(error.as_k8s())),
                Progress::Done(Ok(weaver)) => match showing(id, weaver, facts.status) {
                    Progress::Need(step) => Progress::Need(step),
                    Progress::Done(Ok(pod)) => Progress::Done(Ok(pod)),
                    Progress::Done(Err(error)) => Progress::Done(Err(error.as_k8s())),
                },
            }
        },
    }
}

/// Showing a weaver if its labels meet a selector. One whose record cannot be
/// loaded is passed over.
pub open spec fn selecting(
    config: ConfigView,
    id: Seq<char>,
    selector: Seq<char>,
    facts: InspectFacts,
) -> Progress<InspectStepView, Option<PodView>, LocalErrorView> {
    match loading(config, id, facts.load) {
        Progress::Need(step) => Progress::Need(InspectStepView::Load(step)),
        Progress::Done(Err(_)) => Progress::Done(Ok(None)),
        Progress::Done(Ok(weaver)) => if selector_matches(pod_labels(weaver.metadata), selector) {
            match showing(id, weaver, facts.status) {
                Progress::Need(step) => Progress::Need(step),
                Progress::Done(Ok(pod)) => Progress::Done(Ok(Some(pod))),
                Progress::Done(Err(error)) => Progress::Done(Err(error)),
            }
        } else {
            Progress::Done(Ok(None))
        },
    }
}

/// What is known while pods are listed.
#[derive(Debug)]
pub struct ListPodsFacts {
    pub list: ListFacts,
    /// What is known about each weaver, in the order in which they are listed.
    pub weavers: Vec<InspectFacts>,
}

/// What listing pods can ask for.
#[derive(Debug)]
pub enum ListPodsStep {
    /// A step of listing weavers.
    List(ListStep),
    /// A step of inspecting the weaver at a place in the list.
    Inspect { index: usize, step: InspectStep },
}

/// A [`ListPodsStep`] as text.
pub enum ListPodsStepView {
    List(ListStepView),
    Inspect { index: int, step: InspectStepView },
}

impl View for ListPodsStep {
    type V = ListPodsStepView;

    open spec fn view(&self) -> ListPodsStepView {
        match self {
            ListPodsStep::List(step) => ListPodsStepView::List(step@),
            ListPodsStep::Inspect { index, step } => ListPodsStepView::Inspect {
                index: *index as int,
                step: step@,
            },
        }
    }
}

/// A list of pods, as the result of an operation.
#[derive(Debug)]
pub struct PodList {
    pub items: Vec<Pod>,
}

impl View for PodList {
    type V = Seq<PodView>;

    open spec fn view(&self) -> Seq<PodView> {
        self.items.deep_view()
    }
}

/// What is known about the weaver at a place in a list.
pub open spec fn facts_at(facts: Seq<InspectFacts>, i: int) -> InspectFacts {
    if 0 <= i < facts.len() {
        facts[i]
    } else {
        InspectFacts::nothing()
    }
}

/// Showing the first `n` of the weavers, one after the other, as far as their
/// labels meet a selector.
pub open spec fn selecting_among(
    config: ConfigView,
    ids: Seq<Seq<char>>,
    selector: Seq<char>,
    facts: Seq<InspectFacts>,
    n: nat,
) -> Progress<ListPodsStepView, Seq<PodView>, LocalErrorView>
    decreases n,
{
    if n == 0 {
        Progress::Done(Ok(Seq::empty()))
    } else {
        let i = n - 1;
        match selecting_among(config, ids, selector, facts, i as nat) {
            Progress::Done(Ok(pods)) => match selecting(
                config,
                ids[i],
                selector,
                facts_at(facts, i),
            ) {
                Progress::Need(step) => Progress::Need(
                    ListPodsStepView::Inspect { index: i, step },
                ),
                Progress::Done(Err(error)) => Progress::Done(Err(error)),
                Progress::Done(Ok(None)) => Progress::Done(Ok(pods)),
                Progress::Done(Ok(Some(pod))) => Progress::Done(Ok(pods.push(pod))),
            },
            other => other,
        }
    }
}

/// Listing the pods whose labels meet a selector.
pub open spec fn listing_pods(
    config: ConfigView,
    selector: Seq<char>,
    facts: ListPodsFacts,
) -> Progress<ListPodsStepView, Seq<PodView>, LocalErrorView> {
    match listing(config, facts.list) {
        Progress::Need(step) => Progress::Need(ListPodsStepView::List(step)),
        Progress::Done(Err(error)) => Progress::Done(Err(error)),
        Progress::Done(Ok(ids)) => selecting_among(
            config,
            ids,
            selector,
            facts.weavers@,
            ids.len(),
        ),
    }
}

/// What the caller sees of listing pods.
pub open spec fn listed_pods(
    progress: Progress<ListPodsStepView, Seq<PodView>, LocalErrorView>,
) -> Progress<ListPodsStepView, Seq<PodView>, K8sErrorView> {
    match progress {
        Progress::Need(step) => Progress::Need(step),
        Progress::Done(Ok(pods)) => Progress::Done(Ok(pods)),
        Progress::Done(Err(error)) => Progress::Done(Err(error.as_k8s())),
    }
}

proof fn lemma_selecting_stops(
    config: ConfigView,
    ids: Seq<Seq<char>>,
    selector: Seq<char>,
    facts: Seq<InspectFacts>,
    i: nat,
    n: nat,
)
    requires
        i <= n,
        !(selecting_among(config, ids, selector, facts, i) matches Progress::Done(Ok(_))),
    ensures
        selecting_among(config, ids, selector, facts, n) == selecting_among(
            config,
            ids,
            selector,
            facts,
            i,
        ),
    decreases n - i,
{
    if i < n {
        lemma_selecting_stops(config, ids, selector, facts, i, (n - 1) as nat);
    }
}

fn show(id: &str, weaver: LocalWeaver, facts: &StatusFacts) -> (progress: Progress<
    InspectStep,
    Pod,
    LocalError,
>)
    ensures
        progress@ == showing(id@, weaver@, *facts),
{
    match LocalClient::get_weaver_status(id, facts) {
        Progress::Need(step) => Progress::Need(InspectStep::Status(step)),
        Progress::Done(Err(error)) => Progress::Done(Err(error)),
        Progress::Done(Ok(status)) => {
            let weaver = LocalWeaver { status, ..weaver };
            Progress::Done(Ok(local_weaver_to_pod(&weaver)))
        },
    }
}

/// What came of looking at one weaver of a list.
enum Selected {
    Ask(InspectStep),
    Refuse(LocalError),
    Skip,
    Take(Pod),
}

impl Selected {
    spec fn is_of(
        self,
        progress: Progress<InspectStepView, Option<PodView>, LocalErrorView>,
    ) -> bool {
        match progress {
            Progress::Need(step) => self matches Selected::Ask(ask) && ask@ == step,
            Progress::Done(Err(error)) => self matches Selected::Refuse(refusal) && refusal@
                == error,
            Progress::Done(Ok(None)) => self is Skip,
            Progress::Done(Ok(Some(pod))) => self matches Selected::Take(taken) && taken@ == pod,
        }
    }
}

fn select(client: &LocalClient, id: &str, selector: &str, facts: &InspectFacts) -> (selected:
    Selected)
    ensures
        selected.is_of(selecting(client@.config, id@, selector@, *facts)),
{
    match LocalWeaver::load(&client.config, id, &facts.load) {
        Progress::Need(step) => Selected::Ask(InspectStep::Load(step)),
        Progress::Done(Err(_)) => Selected::Skip,
        Progress::Done(Ok(weaver)) => {
            if !matches_selector(&labels_of(&weaver), selector) {
                return Selected::Skip;
            }
            match show(id, weaver, &facts.status) {
                Progress::Need(step) => Selected::Ask(step),
                Progress::Done(Err(error)) => Selected::Refuse(error),
                Progress::Done(Ok(pod)) => Selected::Take(pod),
            }
        },
    }
}

fn select_among(
    client: &LocalClient,
    ids: &Vec<String>,
    selector: &str,
    facts: &Vec<InspectFacts>,
) -> (progress: Progress<ListPodsStep, PodList, K8sError>)
    ensures
        progress@ == listed_pods(
            selecting_among(
                client@.config,
                ids.deep_view(),
                selector@,
                facts@,
                ids.deep_view().len(),
            ),
        ),
{
    let ghost all = ids.deep_view();
    let ghost config = client@.config;
    let unknown = InspectFacts::unknown();
    let mut pods: Vec<Pod> = Vec::new();
    let mut i: usize = 0;
    assert(pods.deep_view() =~= Seq::<PodView>::empty());
    while i < ids.len()
        invariant
            i <= ids@.len(),
            all == ids.deep_view(),
            config == client@.config,
            unknown == InspectFacts::nothing(),
            selecting_among(config, all, selector@, facts@, i as nat) == Progress::<
                ListPodsStepView,
                Seq<PodView>,
                LocalErrorView,
            >::Done(Ok(pods.deep_view())),
        decreases ids@.len() - i,
    {
        let ghost before = pods.deep_view();
        let known = if i < facts.len() {
            &facts[i]
        } else {
            &unknown
        };
        assert(all[i as int] == ids@[i as int]@);
        assert(*known == facts_at(facts@, i as int));
        let selected = select(client, ids[i].as_str(), selector, known);
        assert(selected.is_of(
            selecting(config, all[i as int], selector@, facts_at(facts@, i as int)),
        ));
        proof {
            if selected is Ask || selected is Refuse {
                lemma_selecting_stops(
                    config,
                    all,
                    selector@,
                    facts@,
                    (i + 1) as nat,
                    all.len(),
                );
            }
        }
        match selected {
            Selected::Ask(step) => {
                return Progress::Need(ListPodsStep::Inspect { index: i, step });
            },
            Selected::Refuse(error) => {
                return Progress::Done(Err(K8sError::from(error)));
            },
            Selected::Skip => {},
            Selected::Take(pod) => {
                pods.push(pod);
                assert(pods.deep_view() =~= before.push(pod@));
            },
        }
        i = i + 1;
    }
    Progress::Done(Ok(PodList { items: pods }))
}

impl LocalClient {
    /// Finds out the state of a weaver's process.
    pub fn get_weaver_status(id: &str, facts: &StatusFacts) -> (progress: Progress<
        StatusStep,
        WeaverStatus,
        LocalError,
    >)
        ensures
            progress@ == observing(id@, *facts),
    {
        observe(id, facts)
    }

    /// Gets a pod by its name.
    pub fn get_pod(&self, name: &str, facts: &InspectFacts) -> (progress: Progress<
        InspectStep,
        Pod,
        K8sError,
    >)
        ensures
            progress@ == getting(self@.config, name@, *facts),
    {
        let id = match parse_weaver_id(name) {
            None => {
                let error = LocalError::InvalidWeaverId { id: name.to_owned() };
                return Progress::Done(Err(K8sError::from(error)));
            },
            Some(id) => id,
        };
        match (facts.load.loom_dir_exists, facts.pid_exists) {
            (Some(true), None) => {
                return Progress::Need(
                    InspectStep::FindPid { path: self.config.pid_path(id.as_str()) },
                );
            },
            (Some(true), Some(false)) => {
                return Progress::Done(Err(K8sError::PodNotFound { name: name.to_owned() }));
            },
            _ => {},
        }
        let weaver = match LocalWeaver::load(&self.config, id.as_str(), &facts.load) {
            Progress::Need(step) => {
                return Progress::Need(InspectStep::Load(step));
            },
            Progress::Done(Err(error)) => {
                return Progress::Done(Err(K8sError::from(error)));
            },
            Progress::Done(Ok(weaver)) => weaver,
        };
        match show(id.as_str(), weaver, &facts.status) {
            Progress::Need(step) => Progress::Need(step),
            Progress::Done(Ok(pod)) => Progress::Done(Ok(pod)),
            Progress::Done(Err(error)) => Progress::Done(Err(K8sError::from(error))),
        }
    }

    /// Lists the pods whose labels meet a selector.
    pub fn list_pods(&self, label_selector: &str, facts: &ListPodsFacts) -> (progress: Progress<
        ListPodsStep,
        PodList,
        K8sError,
    >)
        ensures
            progress@ == listed_pods(listing_pods(self@.config, label_selector@, *facts)),
    {
        match LocalWeaver::list_all(&self.config, &facts.list) {
            Progress::Need(step) => Progress::Need(ListPodsStep::List(step)),
            Progress::Done(Err(error)) => Progress::Done(Err(K8sError::from(error))),
            Progress::Done(Ok(found)) => select_among(
                self,
                &found.ids,
                label_selector,
                &facts.weavers,
            ),
        }
    }
}

/// A weaver whose `.loom` directory or whose note of its process is missing is
/// answered with a missing pod, whatever its record holds and whatever its session
/// does.
pub proof fn law_unnoted_weaver_is_missing(config: ConfigView, id: Seq<char>, facts: InspectFacts)
    requires
        facts.load.loom_dir_exists == Some(false) || (facts.load.loom_dir_exists == Some(true)
            && facts.pid_exists == Some(false)),
    ensures
        getting(config, "weaver-"@ + id, facts) == Progress::<
            InspectStepView,
            PodView,
            K8sErrorView,
        >::Done(
            Err(
                K8sErrorView::PodNotFound {
                    name: if facts.load.loom_dir_exists == Some(false) {
                        id
                    } else {
                        "weaver-"@ + id
                    },
                },
            ),
        ),
{
    law_pod_name_and_id_correspond("weaver-"@ + id, id);
}

/// A pod that is listed is shown as it would be when asked for by name, if its
/// process was noted.
pub proof fn law_listed_as_got(
    config: ConfigView,
    id: Seq<char>,
    selector: Seq<char>,
    facts: InspectFacts,
    pod: PodView,
)
    requires
        selecting(config, id, selector, facts) == Progress::<
            InspectStepView,
            Option<PodView>,
            LocalErrorView,
        >::Done(Ok(Some(pod))),
        facts.pid_exists == Some(true),
    ensures
        getting(config, "weaver-"@ + id, facts) == Progress::<
            InspectStepView,
            PodView,
            K8sErrorView,
        >::Done(Ok(pod)),
{
    law_pod_name_and_id_correspond("weaver-"@ + id, id);
}

/// The labels of a pod that is listed meet the selector.
pub proof fn law_listed_pods_match(
    config: ConfigView,
    ids: Seq<Seq<char>>,
    selector: Seq<char>,
    facts: Seq<InspectFacts>,
    n: nat,
    pods: Seq<PodView>,
)
    requires
        selecting_among(config, ids, selector, facts, n) == Progress::<
            ListPodsStepView,
            Seq<PodView>,
            LocalErrorView,
        >::Done(Ok(pods)),
    ensures
        pods.len() <= n,
        forall|i: int|
            0 <= i < pods.len() ==> (#[trigger] pods[i]).metadata.labels is Some
                && selector_matches(pods[i].metadata.labels->0, selector),
    decreases n,
{
    if n > 0 {
        let before = selecting_among(config, ids, selector, facts, (n - 1) as nat);
        law_listed_pods_match(config, ids, selector, facts, (n - 1) as nat, before->Done_0->Ok_0);
    }
}

/// A weaver whose record can be loaded and whose labels meet the selector is
/// listed, in the state that its process is in.
pub proof fn law_matching_weavers_are_listed(
    config: ConfigView,
    ids: Seq<Seq<char>>,
    selector: Seq<char>,
    facts: Seq<InspectFacts>,
    n: nat,
    pods: Seq<PodView>,
    i: int,
    weaver: WeaverView,
    status: WeaverStatus,
)
    requires
        selecting_among(config, ids, selector, facts, n) == Progress::<
            ListPodsStepView,
            Seq<PodView>,
            LocalErrorView,
        >::Done(Ok(pods)),
        0 <= i < n,
        loading(config, ids[i], facts_at(facts, i).load) == Progress::<
            LoadStepView,
            WeaverView,
            LocalErrorView,
        >::Done(Ok(weaver)),
        selector_matches(pod_labels(weaver.metadata), selector),
        observing(ids[i], facts_at(facts, i).status) == Progress::<
            StatusStepView,
            WeaverStatus,
            LocalErrorView,
        >::Done(Ok(status)),
    ensures
        pods.contains(weaver_pod(WeaverView { status, ..weaver })),
    decreases n,
{
    let pod = weaver_pod(WeaverView { status, ..weaver });
    let before = selecting_among(config, ids, selector, facts, (n - 1) as nat);
    let front = before->Done_0->Ok_0;
    if i < n - 1 {
        law_matching_weavers_are_listed(
            config,
            ids,
            selector,
            facts,
            (n - 1) as nat,
            front,
            i,
            weaver,
            status,
        );
        let at = choose|k: int| 0 <= k < front.len() && front[k] == pod;
        assert(pods[at] == pod);
    } else {
        assert(pods == front.push(pod));
        assert(pods[front.len() as int] == pod);
    }
}

/// What is known about a weaver is what was recorded at its place; of any other
/// nothing is known.
pub proof fn law_inspected_facts_keep_their_place(facts: Seq<InspectFacts>, i: int)
    ensures
        0 <= i < facts.len() ==> facts_at(facts, i) == facts[i],
        !(0 <= i < facts.len()) ==> {
            let none = facts_at(facts, i);
            &&& none.load.loom_dir_exists is None && none.load.metadata_text is None
            &&& none.load.metadata is None && none.pid_exists is None
            &&& none.status.session is None && none.status.pane is None && none.status.exit is None
        },
{
}

} // verus!
