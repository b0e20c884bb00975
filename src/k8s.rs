//! The imperative session provisioner: one workload and one service per
//! player session, named after a fresh random identifier.

use vstd::prelude::*;
use crate::config::{HydraPodConfig, HydraPodConfigView};
use crate::error::{Error, ErrorView};
use crate::manifest::{
    copy_resources, copy_tolerations, distinct_keys, text_pairs, Container, ContainerPort,
    ContainerPortView, ContainerView, DeploymentManifest, DeploymentView, ServiceManifest,
    ServicePort, ServicePortView, ServiceView, Volume, VolumeMount, VolumeMountView,
    VolumeSource, VolumeSourceView, VolumeView,
};
use crate::text::{concat2, i32_text, int_text};

verus! {

/// Fixed paths and ports of a session pod.
#[derive(Clone, Debug, PartialEq, Eq)]
pub struct K8sConstants {
    pub config_dir: String,
    pub data_dir: String,
    pub persistence_dir: String,
    pub node_port: i32,
    pub port: i32,
}

pub struct K8sConstantsView {
    pub config_dir: Seq<char>,
    pub data_dir: Seq<char>,
    pub persistence_dir: Seq<char>,
    pub node_port: i32,
    pub port: i32,
}

impl View for K8sConstants {
    type V = K8sConstantsView;

    open spec fn view(&self) -> K8sConstantsView {
        K8sConstantsView {
            config_dir: self.config_dir@,
            data_dir: self.data_dir@,
            persistence_dir: self.persistence_dir@,
            node_port: self.node_port,
            port: self.port,
        }
    }
}

pub open spec fn default_session_constants() -> K8sConstantsView {
    K8sConstantsView {
        config_dir: "/etc/config"@,
        data_dir: "/var/data"@,
        persistence_dir: "/var/persistence"@,
        node_port: 5001,
        port: 4001,
    }
}

impl Default for K8sConstants {
    fn default() -> (r: K8sConstants)
        ensures
            r@ == default_session_constants(),
    {
        K8sConstants {
            config_dir: "/etc/config".to_string(),
            data_dir: "/var/data".to_string(),
            persistence_dir: "/var/persistence".to_string(),
            node_port: 5001,
            port: 4001,
        }
    }
}

/// Connection details of a provisioned session.
#[derive(Clone, Debug, PartialEq, Eq)]
pub struct PodInfo {
    pub id: String,
    pub local_connection: String,
    pub external_connection: String,
    pub port: i32,
}

pub struct PodInfoView {
    pub id: Seq<char>,
    pub local_connection: Seq<char>,
    pub external_connection: Seq<char>,
    pub port: i32,
}

impl View for PodInfo {
    type V = PodInfoView;

    open spec fn view(&self) -> PodInfoView {
        PodInfoView {
            id: self.id@,
            local_connection: self.local_connection@,
            external_connection: self.external_connection@,
            port: self.port,
        }
    }
}

/// Prefix of the name of both objects of a session.
pub const POD_PREFIX: &'static str = "hydra-pod-";

pub open spec fn is_lower_hex(c: char) -> bool {
    ('0' <= c && c <= '9') || ('a' <= c && c <= 'f')
}

/// The hyphenated lower-case text form of a UUID (8-4-4-4-12 hex digits).
pub open spec fn is_hyphenated_uuid(s: Seq<char>) -> bool {
    &&& s.len() == 36
    &&& forall|i: int|
        0 <= i < 36 ==> if i == 8 || i == 13 || i == 18 || i == 23 {
            #[trigger] s[i] == '-'
        } else {
            is_lower_hex(s[i])
        }
}

/// Relies on `uuid::Uuid::new_v4`, a random version-4 UUID, and on its
/// `Display`, which writes the hyphenated lower-case form.
#[verifier::external_body]
fn fresh_id() -> (r: String)
    ensures
        is_hyphenated_uuid(r@),
{
    uuid::Uuid::new_v4().to_string()
}

/// Name of both objects of the session `id`.
pub open spec fn session_name_of(id: Seq<char>) -> Seq<char> {
    POD_PREFIX@ + id
}

pub open spec fn session_labels_of(id: Seq<char>) -> Seq<(Seq<char>, Seq<char>)> {
    seq![("component"@, "hydra-pod"@), ("hydra-pod-id"@, id)]
}

pub open spec fn pod_info_of(id: Seq<char>, config: HydraPodConfigView, k: K8sConstantsView) -> PodInfoView {
    PodInfoView {
        id,
        local_connection: "ws://"@ + session_name_of(id) + ".svc.cluster.local"@,
        external_connection: "ws://"@ + session_name_of(id) + "."@ + config.external_domain,
        port: k.port,
    }
}

pub open spec fn session_mounts_of(k: K8sConstantsView) -> Seq<VolumeMountView> {
    seq![
        VolumeMountView { name: "config"@, mount_path: k.config_dir },
        VolumeMountView { name: "data"@, mount_path: k.data_dir },
    ]
}

pub open spec fn session_init_container_of(config: HydraPodConfigView, k: K8sConstantsView) -> ContainerView {
    ContainerView {
        name: "init"@,
        image: config.image,
        args: seq!["gen-hydra-key"@, "--output-file"@, k.data_dir + "/hydra"@],
        ports: seq![],
        volume_mounts: session_mounts_of(k),
        resources: None,
    }
}

/// The node container of a session. Key, protocol-parameter, UTxO and
/// persistence paths are passed as plain absolute paths under the mounted
/// directories, with no `$` or other prefix for a shell to expand.
pub open spec fn session_main_container_of(config: HydraPodConfigView, k: K8sConstantsView) -> ContainerView {
    ContainerView {
        name: "main"@,
        image: config.image,
        args: seq![
            "offline"@,
            "--host"@,
            "0.0.0.0"@,
            "--api-host"@,
            "0.0.0.0"@,
            "--port"@,
            "5001"@,
            "--api-port"@,
            int_text(k.port as int),
            "--hydra-signing-key"@,
            k.data_dir + "/hydra.sk"@,
            "--ledger-protocol-parameters"@,
            k.config_dir + "/protocol-parameters.json"@,
            "--initial-utxo"@,
            k.config_dir + "/utxo.json"@,
            "--persistence-dir"@,
            k.persistence_dir + "/hydra-state"@,
        ],
        ports: seq![ContainerPortView { name: "api"@, container_port: k.port, protocol: "TCP"@ }],
        volume_mounts: session_mounts_of(k),
        resources: config.resources,
    }
}

pub open spec fn session_deployment_of(id: Seq<char>, config: HydraPodConfigView, k: K8sConstantsView) -> DeploymentView {
    DeploymentView {
        name: session_name_of(id),
        replicas: 1,
        labels: session_labels_of(id),
        init_containers: seq![session_init_container_of(config, k)],
        containers: seq![session_main_container_of(config, k)],
        volumes: seq![
            VolumeView { name: "data"@, source: VolumeSourceView::EmptyDir },
            VolumeView { name: "config"@, source: VolumeSourceView::ConfigMap(config.configmap_name) },
        ],
        tolerations: config.tolerations,
    }
}

pub open spec fn session_service_of(id: Seq<char>, k: K8sConstantsView) -> ServiceView {
    ServiceView {
        name: session_name_of(id),
        selector: session_labels_of(id),
        ports: seq![ServicePortView { name: None, port: k.port, target_port: k.port, protocol: "TCP"@ }],
        service_type: "ClusterIP"@,
    }
}

pub fn name_from_id(id: &String) -> (r: String)
    ensures
        r@ == session_name_of(id@),
{
    concat2(POD_PREFIX, id.as_str())
}

pub fn labels_from_id(id: &String) -> (r: Vec<(String, String)>)
    ensures
        text_pairs(r@) == session_labels_of(id@),
        distinct_keys(text_pairs(r@)),
{
    let r = vec![
        ("component".to_string(), "hydra-pod".to_string()),
        ("hydra-pod-id".to_string(), id.clone()),
    ];
    proof {
        assert(text_pairs(r@) =~= session_labels_of(id@));
        reveal_strlit("component");
        reveal_strlit("hydra-pod-id");
        let l = text_pairs(r@);
        assert(l[0].0.len() != l[1].0.len());
    }
    r
}

/// Connection details of the session `id`, derived from the identifier alone.
pub fn pod_info_from_id(id: &String, config: &HydraPodConfig, constants: &K8sConstants) -> (r: PodInfo)
    ensures
        r@ == pod_info_of(id@, config@, constants@),
{
    let name = name_from_id(id);
    let local = concat2(concat2("ws://", name.as_str()).as_str(), ".svc.cluster.local");
    let external = concat2(
        concat2(concat2("ws://", name.as_str()).as_str(), ".").as_str(),
        config.external_domain.as_str(),
    );
    PodInfo { local_connection: local, external_connection: external, id: id.clone(), port: constants.port }
}

fn session_mounts(k: &K8sConstants) -> (r: Vec<VolumeMount>)
    ensures
        r@.map_values(|m: VolumeMount| m@) == session_mounts_of(k@),
{
    let r = vec![
        VolumeMount { name: "config".to_string(), mount_path: k.config_dir.clone() },
        VolumeMount { name: "data".to_string(), mount_path: k.data_dir.clone() },
    ];
    proof {
        assert(r@.map_values(|m: VolumeMount| m@) =~= session_mounts_of(k@));
    }
    r
}

fn session_init_container(config: &HydraPodConfig, k: &K8sConstants) -> (r: Container)
    ensures
        r@ == session_init_container_of(config@, k@),
{
    let args = vec![
        "gen-hydra-key".to_string(),
        "--output-file".to_string(),
        concat2(k.data_dir.as_str(), "/hydra"),
    ];
    let r = Container {
        name: "init".to_string(),
        image: config.image.clone(),
        args,
        ports: Vec::new(),
        volume_mounts: session_mounts(k),
        resources: None,
    };
    proof {
        let want = session_init_container_of(config@, k@);
        assert(r@.args =~= want.args);
        assert(r@.ports =~= want.ports);
    }
    r
}

fn session_main_container(config: &HydraPodConfig, k: &K8sConstants) -> (r: Container)
    ensures
        r@ == session_main_container_of(config@, k@),
{
    let args = vec![
        "offline".to_string(),
        "--host".to_string(),
        "0.0.0.0".to_string(),
        "--api-host".to_string(),
        "0.0.0.0".to_string(),
        "--port".to_string(),
        "5001".to_string(),
        "--api-port".to_string(),
        i32_text(k.port),
        "--hydra-signing-key".to_string(),
        concat2(k.data_dir.as_str(), "/hydra.sk"),
        "--ledger-protocol-parameters".to_string(),
        concat2(k.config_dir.as_str(), "/protocol-parameters.json"),
        "--initial-utxo".to_string(),
        concat2(k.config_dir.as_str(), "/utxo.json"),
        "--persistence-dir".to_string(),
        concat2(k.persistence_dir.as_str(), "/hydra-state"),
    ];
    let ports = vec![
        ContainerPort { name: "api".to_string(), container_port: k.port, protocol: "TCP".to_string() },
    ];
    let r = Container {
        name: "main".to_string(),
        image: config.image.clone(),
        args,
        ports,
        volume_mounts: session_mounts(k),
        resources: copy_resources(&config.resources),
    };
    proof {
        let want = session_main_container_of(config@, k@);
        assert(r@.args =~= want.args);
        assert(r@.ports =~= want.ports);
    }
    r
}

/// The workload of the session `id`.
pub fn session_deployment(id: &String, config: &HydraPodConfig, constants: &K8sConstants) -> (r: DeploymentManifest)
    ensures
        r@ == session_deployment_of(id@, config@, constants@),
{
    let volumes = vec![
        Volume { name: "data".to_string(), source: VolumeSource::EmptyDir },
        Volume {
            name: "config".to_string(),
            source: VolumeSource::ConfigMap(config.configmap_name.clone()),
        },
    ];
    let r = DeploymentManifest {
        name: name_from_id(id),
        replicas: 1,
        labels: labels_from_id(id),
        init_containers: vec![session_init_container(config, constants)],
        containers: vec![session_main_container(config, constants)],
        volumes,
        tolerations: copy_tolerations(&config.tolerations),
    };
    proof {
        let want = session_deployment_of(id@, config@, constants@);
        assert(r@.init_containers =~= want.init_containers);
        assert(r@.containers =~= want.containers);
        assert(r@.volumes =~= want.volumes);
    }
    r
}

/// The service of the session `id`.
pub fn session_service(id: &String, constants: &K8sConstants) -> (r: ServiceManifest)
    ensures
        r@ == session_service_of(id@, constants@),
{
    let ports = vec![
        ServicePort { name: None, port: constants.port, target_port: constants.port, protocol: "TCP".to_string() },
    ];
    let r = ServiceManifest {
        name: name_from_id(id),
        selector: labels_from_id(id),
        ports,
        service_type: "ClusterIP".to_string(),
    };
    proof {
        assert(r@.ports =~= session_service_of(id@, constants@).ports);
    }
    r
}

/// The two objects of one session, named after its identifier.
#[derive(Clone, Debug, PartialEq, Eq)]
pub struct SessionPlan {
    pub id: String,
    pub deployment: DeploymentManifest,
    pub service: ServiceManifest,
}

pub struct SessionPlanView {
    pub id: Seq<char>,
    pub deployment: DeploymentView,
    pub service: ServiceView,
}

impl View for SessionPlan {
    type V = SessionPlanView;

    open spec fn view(&self) -> SessionPlanView {
        SessionPlanView { id: self.id@, deployment: self.deployment@, service: self.service@ }
    }
}

pub open spec fn session_plan_of(id: Seq<char>, config: HydraPodConfigView, k: K8sConstantsView) -> SessionPlanView {
    SessionPlanView {
        id,
        deployment: session_deployment_of(id, config, k),
        service: session_service_of(id, k),
    }
}

/// The objects of the session `id`.
pub fn session_plan(id: String, config: &HydraPodConfig, constants: &K8sConstants) -> (r: SessionPlan)
    ensures
        r@ == session_plan_of(id@, config@, constants@),
{
    let deployment = session_deployment(&id, config, constants);
    let service = session_service(&id, constants);
    SessionPlan { id, deployment, service }
}

/// The objects of a new session under a fresh random identifier.
pub fn new_session(config: &HydraPodConfig, constants: &K8sConstants) -> (r: SessionPlan)
    ensures
        is_hyphenated_uuid(r.id@),
        r@ == session_plan_of(r.id@, config@, constants@),
{
    session_plan(fresh_id(), config, constants)
}

/// One of the two objects of a session.
#[derive(PartialEq, Eq, Structural, Clone, Copy, Debug)]
pub enum SessionPart {
    Deployment,
    Service,
}

/// What follows the two creates of a session.
#[derive(Clone, Debug, PartialEq, Eq)]
pub enum SessionStep {
    /// Both objects exist: hand these connection details to the caller.
    Ready(PodInfo),
    /// Exactly this object was created and must be deleted again.
    Rollback(SessionPart),
    /// Nothing was created: report this error.
    Fail(Error),
}

pub enum SessionStepView {
    Ready(PodInfoView),
    Rollback(SessionPart),
    Fail(ErrorView),
}

impl View for SessionStep {
    type V = SessionStepView;

    open spec fn view(&self) -> SessionStepView {
        match self {
            SessionStep::Ready(p) => SessionStepView::Ready(p@),
            SessionStep::Rollback(part) => SessionStepView::Rollback(*part),
            SessionStep::Fail(e) => SessionStepView::Fail(e@),
        }
    }
}

pub open spec fn create_failed_message() -> Seq<char> {
    "Failed to create resources"@
}

pub open spec fn after_create_of(
    id: Seq<char>,
    config: HydraPodConfigView,
    k: K8sConstantsView,
    deployment_ok: bool,
    service_ok: bool,
) -> SessionStepView {
    if deployment_ok && service_ok {
        SessionStepView::Ready(pod_info_of(id, config, k))
    } else if deployment_ok {
        SessionStepView::Rollback(SessionPart::Deployment)
    } else if service_ok {
        SessionStepView::Rollback(SessionPart::Service)
    } else {
        SessionStepView::Fail(ErrorView::K8sError(create_failed_message()))
    }
}

/// Decides what follows the creates of the session `id`: success when both
/// landed; otherwise the one that landed, if any, is rolled back.
pub fn after_create(
    id: &String,
    config: &HydraPodConfig,
    constants: &K8sConstants,
    deployment_ok: bool,
    service_ok: bool,
) -> (r: SessionStep)
    ensures
        r@ == after_create_of(id@, config@, constants@, deployment_ok, service_ok),
{
    if deployment_ok && service_ok {
        SessionStep::Ready(pod_info_from_id(id, config, constants))
    } else if deployment_ok {
        SessionStep::Rollback(SessionPart::Deployment)
    } else if service_ok {
        SessionStep::Rollback(SessionPart::Service)
    } else {
        SessionStep::Fail(Error::K8sError("Failed to create resources".to_string()))
    }
}

pub open spec fn after_rollback_of(part: SessionPart, deleted: bool) -> ErrorView {
    if deleted {
        ErrorView::K8sError(create_failed_message())
    } else {
        match part {
            SessionPart::Deployment => ErrorView::K8sError("Failed to delete deployment"@),
            SessionPart::Service => ErrorView::K8sError("Failed to delete service"@),
        }
    }
}

/// The error a session reports after rolling back `part`: the creation
/// failure when the delete succeeded, else the failure of the delete.
pub fn after_rollback(part: SessionPart, deleted: bool) -> (r: Error)
    ensures
        r@ == after_rollback_of(part, deleted),
{
    if deleted {
        Error::K8sError("Failed to create resources".to_string())
    } else {
        match part {
            SessionPart::Deployment => Error::K8sError("Failed to delete deployment".to_string()),
            SessionPart::Service => Error::K8sError("Failed to delete service".to_string()),
        }
    }
}

pub open spec fn removal_of(deployment_ok: bool, service_ok: bool) -> Result<(), ErrorView> {
    if deployment_ok && service_ok {
        Ok(())
    } else if deployment_ok {
        Err(ErrorView::K8sError("Failed to remove service"@))
    } else if service_ok {
        Err(ErrorView::K8sError("Failed to remove deployment"@))
    } else {
        Err(ErrorView::K8sError("Failed to remove resources"@))
    }
}

/// The result of removing a session, from the results of its two deletes.
pub fn removal_result(deployment_ok: bool, service_ok: bool) -> (r: Result<(), Error>)
    ensures
        match r {
            Ok(()) => removal_of(deployment_ok, service_ok) == Ok::<(), ErrorView>(()),
            Err(e) => removal_of(deployment_ok, service_ok) == Err::<(), ErrorView>(e@),
        },
{
    if deployment_ok && service_ok {
        Ok(())
    } else if deployment_ok {
        Err(Error::K8sError("Failed to remove service".to_string()))
    } else if service_ok {
        Err(Error::K8sError("Failed to remove deployment".to_string()))
    } else {
        Err(Error::K8sError("Failed to remove resources".to_string()))
    }
}

/// Distinct session identifiers never give colliding object names.
pub proof fn lemma_session_name_injective(a: Seq<char>, b: Seq<char>)
    requires
        a != b,
    ensures
        session_name_of(a) != session_name_of(b),
{
    let p = POD_PREFIX@;
    if session_name_of(a) == session_name_of(b) {
        assert((p + a).subrange(p.len() as int, (p + a).len() as int) =~= a);
        assert((p + b).subrange(p.len() as int, (p + b).len() as int) =~= b);
    }
}

} // verus!
