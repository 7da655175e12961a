//! Pods, as far as the local backend reads and fills them.
use crate::text_map::LabelMap;
use crate::time::Timestamp;
use vstd::prelude::*;

verus! {

/// A variable in the environment of a container.
#[derive(Debug)]
pub struct EnvVar {
    pub name: String,
    pub value: Option<String>,
}

#[derive(Debug)]
pub struct Container {
    pub name: String,
    pub image: Option<String>,
    pub env: Option<Vec<EnvVar>>,
}

#[derive(Debug)]
pub struct PodSpec {
    pub containers: Vec<Container>,
}

#[derive(Debug)]
pub struct ContainerStatus {
    pub name: String,
    pub ready: bool,
    pub started: Option<bool>,
}

#[derive(Debug)]
pub struct PodStatus {
    pub phase: Option<String>,
    pub container_statuses: Option<Vec<ContainerStatus>>,
}

#[derive(Debug)]
pub struct ObjectMeta {
    pub name: Option<String>,
    pub namespace: Option<String>,
    pub labels: Option<LabelMap>,
    pub annotations: Option<LabelMap>,
    pub creation_timestamp: Option<Timestamp>,
}

#[derive(Debug)]
pub struct Pod {
    pub metadata: ObjectMeta,
    pub spec: Option<PodSpec>,
    pub status: Option<PodStatus>,
}

/// An [`EnvVar`] as text.
pub struct EnvVarView {
    pub name: Seq<char>,
    pub value: Option<Seq<char>>,
}

/// A [`Container`] as text.
pub struct ContainerView {
    pub name: Seq<char>,
    pub image: Option<Seq<char>>,
    pub env: Option<Seq<EnvVarView>>,
}

/// A [`PodSpec`] as text.
pub struct PodSpecView {
    pub containers: Seq<ContainerView>,
}

/// A [`ContainerStatus`] as text.
pub struct ContainerStatusView {
    pub name: Seq<char>,
    pub ready: bool,
    pub started: Option<bool>,
}

/// A [`PodStatus`] as text.
pub struct PodStatusView {
    pub phase: Option<Seq<char>>,
    pub container_statuses: Option<Seq<ContainerStatusView>>,
}

/// An [`ObjectMeta`] as text.
pub struct ObjectMetaView {
    pub name: Option<Seq<char>>,
    pub namespace: Option<Seq<char>>,
    pub labels: Option<Map<Seq<char>, Seq<char>>>,
    pub annotations: Option<Map<Seq<char>, Seq<char>>>,
    pub creation_timestamp: Option<Timestamp>,
}

/// A [`Pod`] as text.
pub struct PodView {
    pub metadata: ObjectMetaView,
    pub spec: Option<PodSpecView>,
    pub status: Option<PodStatusView>,
}

impl DeepView for EnvVar {
    type V = EnvVarView;

    open spec fn deep_view(&self) -> EnvVarView {
        EnvVarView { name: self.name@, value: self.value.deep_view() }
    }
}

impl DeepView for Container {
    type V = ContainerView;

    open spec fn deep_view(&self) -> ContainerView {
        ContainerView {
            name: self.name@,
            image: self.image.deep_view(),
            env: self.env.deep_view(),
        }
    }
}

impl DeepView for PodSpec {
    type V = PodSpecView;

    open spec fn deep_view(&self) -> PodSpecView {
        PodSpecView { containers: self.containers.deep_view() }
    }
}

impl DeepView for ContainerStatus {
    type V = ContainerStatusView;

    open spec fn deep_view(&self) -> ContainerStatusView {
        ContainerStatusView { name: self.name@, ready: self.ready, started: self.started }
    }
}

impl DeepView for PodStatus {
    type V = PodStatusView;

    open spec fn deep_view(&self) -> PodStatusView {
        PodStatusView {
            phase: self.phase.deep_view(),
            container_statuses: self.container_statuses.deep_view(),
        }
    }
}

impl DeepView for ObjectMeta {
    type V = ObjectMetaView;

    open spec fn deep_view(&self) -> ObjectMetaView {
        ObjectMetaView {
            name: self.name.deep_view(),
            namespace: self.namespace.deep_view(),
            labels: self.labels.deep_view(),
            annotations: self.annotations.deep_view(),
            creation_timestamp: self.creation_timestamp,
        }
    }
}

impl DeepView for Pod {
    type V = PodView;

    open spec fn deep_view(&self) -> PodView {
        PodView {
            metadata: self.metadata.deep_view(),
            spec: self.spec.deep_view(),
            status: self.status.deep_view(),
        }
    }
}

impl View for Pod {
    type V = PodView;

    open spec fn view(&self) -> PodView {
        self.deep_view()
    }
}

impl PodView {
    /// The first container of the pod.
    pub open spec fn first_container(self) -> Option<ContainerView> {
        match self.spec {
            Some(spec) => if spec.containers.len() > 0 {
                Some(spec.containers[0])
            } else {
                None
            },
            None => None,
        }
    }
}

impl Pod {
    /// The first container of the pod.
    pub fn first_container(&self) -> (container: Option<&Container>)
        ensures
            match container {
                Some(container) => self@.first_container() == Some(container.deep_view()),
                None => self@.first_container() is None,
            },
    {
        match &self.spec {
            Some(spec) => {
                if spec.containers.len() > 0 {
                    assert(spec.containers.deep_view()[0] == spec.containers@[0].deep_view());
                    Some(&spec.containers[0])
                } else {
                    None
                }
            },
            None => None,
        }
    }
}

/// Pods are seen as they are, down to the variables of their containers.
pub proof fn law_pods_are_seen_as_they_are(pod: Pod)
    ensures
        pod@.metadata.name == pod.metadata.name.deep_view(),
        pod@.metadata.namespace == pod.metadata.namespace.deep_view(),
        pod@.metadata.labels == pod.metadata.labels.deep_view(),
        pod@.metadata.annotations == pod.metadata.annotations.deep_view(),
        pod@.metadata.creation_timestamp == pod.metadata.creation_timestamp,
        pod@.spec is Some <==> pod.spec is Some,
        pod.spec is Some ==> pod@.spec->0.containers.len() == pod.spec->0.containers@.len(),
        pod.spec is Some ==> forall|i: int|
            0 <= i < pod.spec->0.containers@.len() ==> {
                let container = #[trigger] pod.spec->0.containers@[i];
                let seen = pod@.spec->0.containers[i];
                &&& seen.name == container.name@
                &&& seen.image == container.image.deep_view()
                &&& seen.env is Some <==> container.env is Some
                &&& container.env is Some ==> seen.env->0.len() == container.env->0@.len() && forall|
                    j: int,
                |
                    0 <= j < container.env->0@.len() ==> seen.env->0[j].name == (
                    #[trigger] container.env->0@[j]).name@ && seen.env->0[j].value
                        == container.env->0@[j].value.deep_view()
            },
        pod@.status is Some <==> pod.status is Some,
        pod.status is Some ==> pod@.status->0.phase == pod.status->0.phase.deep_view(),
        pod.status is Some ==> (pod@.status->0.container_statuses is Some
            <==> pod.status->0.container_statuses is Some),
        pod.status is Some && pod.status->0.container_statuses is Some ==> {
            let statuses = pod.status->0.container_statuses->0@;
            let seen = pod@.status->0.container_statuses->0;
            &&& seen.len() == statuses.len()
            &&& forall|i: int|
                0 <= i < statuses.len() ==> seen[i].name == (#[trigger] statuses[i]).name@
                    && seen[i].ready == statuses[i].ready && seen[i].started == statuses[i].started
        },
{
}

} // verus!
