//! The platform objects that the engine asks for, as plain values.
//!
//! Each manifest has a view over mathematical text (`Seq<char>`) so that the
//! builders can state exactly which object they produce.

use vstd::prelude::*;

verus! {

/// Views of a sequence of strings.
pub open spec fn texts(v: Seq<String>) -> Seq<Seq<char>> {
    v.map_values(|s: String| s@)
}

/// Views of a sequence of key/value string pairs.
pub open spec fn text_pairs(v: Seq<(String, String)>) -> Seq<(Seq<char>, Seq<char>)> {
    v.map_values(|p: (String, String)| (p.0@, p.1@))
}

/// No two pairs share a key, so the list reads as a map.
pub open spec fn distinct_keys(pairs: Seq<(Seq<char>, Seq<char>)>) -> bool {
    forall|i: int, j: int| 0 <= i < j < pairs.len() ==> #[trigger] pairs[i].0 != #[trigger] pairs[j].0
}

/// View of an optional string.
pub open spec fn opt_text(o: Option<String>) -> Option<Seq<char>> {
    match o {
        Some(s) => Some(s@),
        None => None,
    }
}

/// Views of an optional list of key/value string pairs.
pub open spec fn opt_text_pairs(o: Option<Vec<(String, String)>>) -> Option<Seq<(Seq<char>, Seq<char>)>> {
    match o {
        Some(v) => Some(text_pairs(v@)),
        None => None,
    }
}

/// Resource requests and limits of a container, as quantity strings keyed by
/// resource name; an absent list and an empty one are kept apart.
#[derive(Clone, Debug, PartialEq, Eq)]
pub struct ResourceRequirements {
    pub limits: Option<Vec<(String, String)>>,
    pub requests: Option<Vec<(String, String)>>,
}

pub struct ResourceRequirementsView {
    pub limits: Option<Seq<(Seq<char>, Seq<char>)>>,
    pub requests: Option<Seq<(Seq<char>, Seq<char>)>>,
}

impl View for ResourceRequirements {
    type V = ResourceRequirementsView;

    open spec fn view(&self) -> ResourceRequirementsView {
        ResourceRequirementsView {
            limits: opt_text_pairs(self.limits),
            requests: opt_text_pairs(self.requests),
        }
    }
}

/// A scheduling toleration.
#[derive(Clone, Debug, PartialEq, Eq)]
pub struct Toleration {
    pub key: Option<String>,
    pub operator: Option<String>,
    pub value: Option<String>,
    pub effect: Option<String>,
    pub toleration_seconds: Option<i64>,
}

pub struct TolerationView {
    pub key: Option<Seq<char>>,
    pub operator: Option<Seq<char>>,
    pub value: Option<Seq<char>>,
    pub effect: Option<Seq<char>>,
    pub toleration_seconds: Option<i64>,
}

impl View for Toleration {
    type V = TolerationView;

    open spec fn view(&self) -> TolerationView {
        TolerationView {
            key: opt_text(self.key),
            operator: opt_text(self.operator),
            value: opt_text(self.value),
            effect: opt_text(self.effect),
            toleration_seconds: self.toleration_seconds,
        }
    }
}

pub open spec fn opt_resources(o: Option<ResourceRequirements>) -> Option<ResourceRequirementsView> {
    match o {
        Some(r) => Some(r@),
        None => None,
    }
}

pub open spec fn opt_tolerations(o: Option<Vec<Toleration>>) -> Option<Seq<TolerationView>> {
    match o {
        Some(v) => Some(v@.map_values(|t: Toleration| t@)),
        None => None,
    }
}

/// A volume mounted into a container.
#[derive(Clone, Debug, PartialEq, Eq)]
pub struct VolumeMount {
    pub name: String,
    pub mount_path: String,
}

pub struct VolumeMountView {
    pub name: Seq<char>,
    pub mount_path: Seq<char>,
}

impl View for VolumeMount {
    type V = VolumeMountView;

    open spec fn view(&self) -> VolumeMountView {
        VolumeMountView { name: self.name@, mount_path: self.mount_path@ }
    }
}

/// A port that a container listens on.
#[derive(Clone, Debug, PartialEq, Eq)]
pub struct ContainerPort {
    pub name: String,
    pub container_port: i32,
    pub protocol: String,
}

pub struct ContainerPortView {
    pub name: Seq<char>,
    pub container_port: i32,
    pub protocol: Seq<char>,
}

impl View for ContainerPort {
    type V = ContainerPortView;

    open spec fn view(&self) -> ContainerPortView {
        ContainerPortView {
            name: self.name@,
            container_port: self.container_port,
            protocol: self.protocol@,
        }
    }
}

/// One container of a workload.
#[derive(Clone, Debug, PartialEq, Eq)]
pub struct Container {
    pub name: String,
    pub image: String,
    pub args: Vec<String>,
    pub ports: Vec<ContainerPort>,
    pub volume_mounts: Vec<VolumeMount>,
    pub resources: Option<ResourceRequirements>,
}

pub struct ContainerView {
    pub name: Seq<char>,
    pub image: Seq<char>,
    pub args: Seq<Seq<char>>,
    pub ports: Seq<ContainerPortView>,
    pub volume_mounts: Seq<VolumeMountView>,
    pub resources: Option<ResourceRequirementsView>,
}

impl View for Container {
    type V = ContainerView;

    open spec fn view(&self) -> ContainerView {
        ContainerView {
            name: self.name@,
            image: self.image@,
            args: texts(self.args@),
            ports: self.ports@.map_values(|p: ContainerPort| p@),
            volume_mounts: self.volume_mounts@.map_values(|m: VolumeMount| m@),
            resources: opt_resources(self.resources),
        }
    }
}

/// Where the contents of a volume come from.
#[derive(Clone, Debug, PartialEq, Eq)]
pub enum VolumeSource {
    /// A scratch directory that lives as long as the pod.
    EmptyDir,
    /// The config map of the given name.
    ConfigMap(String),
}

pub enum VolumeSourceView {
    EmptyDir,
    ConfigMap(Seq<char>),
}

impl View for VolumeSource {
    type V = VolumeSourceView;

    open spec fn view(&self) -> VolumeSourceView {
        match self {
            VolumeSource::EmptyDir => VolumeSourceView::EmptyDir,
            VolumeSource::ConfigMap(n) => VolumeSourceView::ConfigMap(n@),
        }
    }
}

/// A volume of a pod.
#[derive(Clone, Debug, PartialEq, Eq)]
pub struct Volume {
    pub name: String,
    pub source: VolumeSource,
}

pub struct VolumeView {
    pub name: Seq<char>,
    pub source: VolumeSourceView,
}

impl View for Volume {
    type V = VolumeView;

    open spec fn view(&self) -> VolumeView {
        VolumeView { name: self.name@, source: self.source@ }
    }
}

/// A workload: a deployment that runs one pod template.
#[derive(Clone, Debug, PartialEq, Eq)]
pub struct DeploymentManifest {
    pub name: String,
    pub replicas: i32,
    /// Selector labels, also put on the pod template.
    pub labels: Vec<(String, String)>,
    pub init_containers: Vec<Container>,
    pub containers: Vec<Container>,
    pub volumes: Vec<Volume>,
    pub tolerations: Option<Vec<Toleration>>,
}

pub struct DeploymentView {
    pub name: Seq<char>,
    pub replicas: i32,
    pub labels: Seq<(Seq<char>, Seq<char>)>,
    pub init_containers: Seq<ContainerView>,
    pub containers: Seq<ContainerView>,
    pub volumes: Seq<VolumeView>,
    pub tolerations: Option<Seq<TolerationView>>,
}

impl View for DeploymentManifest {
    type V = DeploymentView;

    open spec fn view(&self) -> DeploymentView {
        DeploymentView {
            name: self.name@,
            replicas: self.replicas,
            labels: text_pairs(self.labels@),
            init_containers: self.init_containers@.map_values(|c: Container| c@),
            containers: self.containers@.map_values(|c: Container| c@),
            volumes: self.volumes@.map_values(|v: Volume| v@),
            tolerations: opt_tolerations(self.tolerations),
        }
    }
}

/// A port that a service exposes, forwarded to the same-numbered target port.
#[derive(Clone, Debug, PartialEq, Eq)]
pub struct ServicePort {
    pub name: Option<String>,
    pub port: i32,
    pub target_port: i32,
    pub protocol: String,
}

pub struct ServicePortView {
    pub name: Option<Seq<char>>,
    pub port: i32,
    pub target_port: i32,
    pub protocol: Seq<char>,
}

impl View for ServicePort {
    type V = ServicePortView;

    open spec fn view(&self) -> ServicePortView {
        ServicePortView {
            name: opt_text(self.name),
            port: self.port,
            target_port: self.target_port,
            protocol: self.protocol@,
        }
    }
}

/// A network service in front of the pods that match its selector.
#[derive(Clone, Debug, PartialEq, Eq)]
pub struct ServiceManifest {
    pub name: String,
    pub selector: Vec<(String, String)>,
    pub ports: Vec<ServicePort>,
    pub service_type: String,
}

pub struct ServiceView {
    pub name: Seq<char>,
    pub selector: Seq<(Seq<char>, Seq<char>)>,
    pub ports: Seq<ServicePortView>,
    pub service_type: Seq<char>,
}

impl View for ServiceManifest {
    type V = ServiceView;

    open spec fn view(&self) -> ServiceView {
        ServiceView {
            name: self.name@,
            selector: text_pairs(self.selector@),
            ports: self.ports@.map_values(|p: ServicePort| p@),
            service_type: self.service_type@,
        }
    }
}

/// An ingress route with a single host rule forwarding one path prefix to a
/// service port.
#[derive(Clone, Debug, PartialEq, Eq)]
pub struct IngressManifest {
    pub name: String,
    pub annotations: Vec<(String, String)>,
    pub class_name: String,
    pub host: String,
    pub path: String,
    pub path_type: String,
    pub backend_service: String,
    pub backend_port: i32,
}

pub struct IngressView {
    pub name: Seq<char>,
    pub annotations: Seq<(Seq<char>, Seq<char>)>,
    pub class_name: Seq<char>,
    pub host: Seq<char>,
    pub path: Seq<char>,
    pub path_type: Seq<char>,
    pub backend_service: Seq<char>,
    pub backend_port: i32,
}

impl View for IngressManifest {
    type V = IngressView;

    open spec fn view(&self) -> IngressView {
        IngressView {
            name: self.name@,
            annotations: text_pairs(self.annotations@),
            class_name: self.class_name@,
            host: self.host@,
            path: self.path@,
            path_type: self.path_type@,
            backend_service: self.backend_service@,
            backend_port: self.backend_port,
        }
    }
}

/// A config map holding named text entries.
#[derive(Clone, Debug, PartialEq, Eq)]
pub struct ConfigMapManifest {
    pub name: String,
    pub data: Vec<(String, String)>,
}

pub struct ConfigMapView {
    pub name: Seq<char>,
    pub data: Seq<(Seq<char>, Seq<char>)>,
}

impl View for ConfigMapManifest {
    type V = ConfigMapView;

    open spec fn view(&self) -> ConfigMapView {
        ConfigMapView { name: self.name@, data: text_pairs(self.data@) }
    }
}

/// A copy of a list of string pairs.
pub fn copy_pairs(v: &Vec<(String, String)>) -> (r: Vec<(String, String)>)
    ensures
        text_pairs(r@) == text_pairs(v@),
{
    let mut r: Vec<(String, String)> = Vec::new();
    let mut i: usize = 0;
    while i < v.len()
        invariant
            i <= v@.len(),
            r@.len() == i,
            forall|j: int| 0 <= j < i ==> #[trigger] r@[j].0@ == v@[j].0@ && r@[j].1@ == v@[j].1@,
        decreases v@.len() - i,
    {
        let p = (v[i].0.clone(), v[i].1.clone());
        r.push(p);
        i = i + 1;
    }
    proof {
        assert(text_pairs(r@) =~= text_pairs(v@));
    }
    r
}

/// A copy of an optional string.
pub fn copy_opt_text(o: &Option<String>) -> (r: Option<String>)
    ensures
        opt_text(r) == opt_text(*o),
{
    match o {
        Some(s) => Some(s.clone()),
        None => None,
    }
}

/// A copy of an optional list of string pairs.
pub fn copy_opt_pairs(o: &Option<Vec<(String, String)>>) -> (r: Option<Vec<(String, String)>>)
    ensures
        opt_text_pairs(r) == opt_text_pairs(*o),
{
    match o {
        Some(v) => Some(copy_pairs(v)),
        None => None,
    }
}

impl ResourceRequirements {
    pub fn copy(&self) -> (r: ResourceRequirements)
        ensures
            r@ == self@,
    {
        ResourceRequirements {
            limits: copy_opt_pairs(&self.limits),
            requests: copy_opt_pairs(&self.requests),
        }
    }
}

impl Toleration {
    pub fn copy(&self) -> (r: Toleration)
        ensures
            r@ == self@,
    {
        Toleration {
            key: copy_opt_text(&self.key),
            operator: copy_opt_text(&self.operator),
            value: copy_opt_text(&self.value),
            effect: copy_opt_text(&self.effect),
            toleration_seconds: self.toleration_seconds,
        }
    }
}

/// A copy of optional resource requirements.
pub fn copy_resources(o: &Option<ResourceRequirements>) -> (r: Option<ResourceRequirements>)
    ensures
        opt_resources(r) == opt_resources(*o),
{
    match o {
        Some(x) => Some(x.copy()),
        None => None,
    }
}

/// A copy of an optional list of tolerations.
pub fn copy_tolerations(o: &Option<Vec<Toleration>>) -> (r: Option<Vec<Toleration>>)
    ensures
        opt_tolerations(r) == opt_tolerations(*o),
{
    match o {
        None => None,
        Some(v) => {
            let mut out: Vec<Toleration> = Vec::new();
            let mut i: usize = 0;
            while i < v.len()
                invariant
                    i <= v@.len(),
                    out@.len() == i,
                    forall|j: int| 0 <= j < i ==> #[trigger] out@[j]@ == v@[j]@,
                decreases v@.len() - i,
            {
                out.push(v[i].copy());
                i = i + 1;
            }
            proof {
                assert(out@.map_values(|t: Toleration| t@) =~= v@.map_values(|t: Toleration| t@));
            }
            Some(out)
        },
    }
}

} // verus!
