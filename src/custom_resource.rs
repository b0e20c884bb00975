//! The declarative resource that describes one long-lived node, and the
//! manifests of its dependents.
//!
//! Every dependent name is derived from the resource name alone, so the
//! dependents of a resource can always be found again without any stored
//! mapping.

use vstd::prelude::*;
use crate::config::{Config, ConfigView};
use crate::controller::{K8sConstants, K8sConstantsView};
use crate::manifest::{
    copy_pairs, distinct_keys, opt_text, text_pairs, texts, ConfigMapManifest, ConfigMapView, Container, ContainerPort,
    ContainerPortView, ContainerView, DeploymentManifest, DeploymentView, IngressManifest,
    IngressView, ServiceManifest, ServicePort, ServicePortView, ServiceView, Volume,
    VolumeMount, VolumeMountView, VolumeSource, VolumeSourceView, VolumeView,
};
use crate::text::{concat2, i32_text, int_text};

verus! {

/// Finalizer token that guards the deletion of a resource.
pub const HYDRA_DOOM_NODE_FINALIZER: &'static str = "hydradoomnode/finalizer";

/// Prefix of the name of every dependent of a resource.
pub const NODE_PREFIX: &'static str = "hydra-doom-node-";

/// Desired state of a node, as written by the operator.
#[derive(Clone, Debug, PartialEq, Eq)]
pub struct HydraDoomNodeSpec {
    pub image: Option<String>,
    pub offline: Option<bool>,
    pub initial_utxo_address: Option<String>,
    pub open_head_image: Option<String>,
    pub sidecar_image: Option<String>,
    pub configmap: Option<String>,
    pub network_id: u8,
    pub seed_input: String,
    pub participant: String,
    pub party: String,
    pub commit_inputs: Vec<String>,
    pub blockfrost_key: Option<String>,
}

pub struct HydraDoomNodeSpecView {
    pub image: Option<Seq<char>>,
    pub offline: Option<bool>,
    pub initial_utxo_address: Option<Seq<char>>,
    pub open_head_image: Option<Seq<char>>,
    pub sidecar_image: Option<Seq<char>>,
    pub configmap: Option<Seq<char>>,
    pub network_id: u8,
    pub seed_input: Seq<char>,
    pub participant: Seq<char>,
    pub party: Seq<char>,
    pub commit_inputs: Seq<Seq<char>>,
    pub blockfrost_key: Option<Seq<char>>,
}

impl View for HydraDoomNodeSpec {
    type V = HydraDoomNodeSpecView;

    open spec fn view(&self) -> HydraDoomNodeSpecView {
        HydraDoomNodeSpecView {
            image: opt_text(self.image),
            offline: self.offline,
            initial_utxo_address: opt_text(self.initial_utxo_address),
            open_head_image: opt_text(self.open_head_image),
            sidecar_image: opt_text(self.sidecar_image),
            configmap: opt_text(self.configmap),
            network_id: self.network_id,
            seed_input: self.seed_input@,
            participant: self.participant@,
            party: self.party@,
            commit_inputs: texts(self.commit_inputs@),
            blockfrost_key: opt_text(self.blockfrost_key),
        }
    }
}

/// Observed state of a node; computed by the engine, never read as input.
#[derive(Clone, Debug, PartialEq, Eq)]
pub struct HydraDoomNodeStatus {
    pub local_url: String,
    pub external_url: String,
    pub state: String,
    pub transactions: i64,
}

pub struct HydraDoomNodeStatusView {
    pub local_url: Seq<char>,
    pub external_url: Seq<char>,
    pub state: Seq<char>,
    pub transactions: i64,
}

impl View for HydraDoomNodeStatus {
    type V = HydraDoomNodeStatusView;

    open spec fn view(&self) -> HydraDoomNodeStatusView {
        HydraDoomNodeStatusView {
            local_url: self.local_url@,
            external_url: self.external_url@,
            state: self.state@,
            transactions: self.transactions,
        }
    }
}

/// Identity and lifecycle markers of a resource.
#[derive(Clone, Debug, PartialEq, Eq)]
pub struct ObjectMeta {
    pub name: String,
    pub namespace: String,
    pub finalizers: Vec<String>,
    /// The platform has marked the resource for deletion.
    pub deletion_requested: bool,
}

pub struct ObjectMetaView {
    pub name: Seq<char>,
    pub namespace: Seq<char>,
    pub finalizers: Seq<Seq<char>>,
    pub deletion_requested: bool,
}

impl View for ObjectMeta {
    type V = ObjectMetaView;

    open spec fn view(&self) -> ObjectMetaView {
        ObjectMetaView {
            name: self.name@,
            namespace: self.namespace@,
            finalizers: texts(self.finalizers@),
            deletion_requested: self.deletion_requested,
        }
    }
}

/// A declarative node resource.
#[derive(Clone, Debug, PartialEq, Eq)]
pub struct HydraDoomNode {
    pub metadata: ObjectMeta,
    pub spec: HydraDoomNodeSpec,
    pub status: Option<HydraDoomNodeStatus>,
}

pub struct HydraDoomNodeView {
    pub metadata: ObjectMetaView,
    pub spec: HydraDoomNodeSpecView,
    pub status: Option<HydraDoomNodeStatusView>,
}

impl View for HydraDoomNode {
    type V = HydraDoomNodeView;

    open spec fn view(&self) -> HydraDoomNodeView {
        HydraDoomNodeView {
            metadata: self.metadata@,
            spec: self.spec@,
            status: match self.status {
                Some(s) => Some(s@),
                None => None,
            },
        }
    }
}

/// `o`'s value, or `d` when it has none.
pub open spec fn or_default(o: Option<Seq<char>>, d: Seq<char>) -> Seq<char> {
    match o {
        Some(v) => v,
        None => d,
    }
}

/// Name shared by every dependent of the resource called `name`.
pub open spec fn internal_name_of(name: Seq<char>) -> Seq<char> {
    NODE_PREFIX@ + name
}

pub open spec fn internal_labels_of(name: Seq<char>) -> Seq<(Seq<char>, Seq<char>)> {
    seq![
        ("component"@, "hydra-doom-node"@),
        ("hydra-doom-node-id"@, name),
        ("run-on"@, "fargate"@),
    ]
}

pub open spec fn internal_host_of(name: Seq<char>, namespace: Seq<char>) -> Seq<char> {
    internal_name_of(name) + "."@ + namespace + ".svc.cluster.local"@
}

pub open spec fn external_host_of(name: Seq<char>, config: ConfigView) -> Seq<char> {
    name + "."@ + config.external_domain
}

/// The status a node reports before it has seen any traffic.
pub open spec fn offline_status_of(
    node: HydraDoomNodeView,
    config: ConfigView,
    constants: K8sConstantsView,
) -> HydraDoomNodeStatusView {
    HydraDoomNodeStatusView {
        state: "Offline"@,
        transactions: 0,
        local_url: "ws://"@ + internal_host_of(node.metadata.name, node.metadata.namespace) + ":"@
            + int_text(constants.port as int),
        external_url: "ws://"@ + external_host_of(node.metadata.name, config) + ":"@
            + config.external_port,
    }
}

/// Address funded by the initial UTxO when the resource names none.
pub const DEFAULT_UTXO_ADDRESS: &'static str =
    "addr_test1vphyqcvtwdpuwlmslna29ymaua8e9cswlmllt9wkey345cqgtzv2j";

/// Text of the initial UTxO entry before the address.
pub const UTXO_HEAD: &'static str = "{\n                    \"0000000000000000000000000000000000000000000000000000000000000000#0\": {\n                        \"address\": \"";

/// Text of the initial UTxO entry after the address.
pub const UTXO_TAIL: &'static str = "\",\n                        \"value\": {\n                            \"lovelace\": 1000000000\n                        }\n                    }\n                }";

pub open spec fn configmap_of(node: HydraDoomNodeView) -> ConfigMapView {
    ConfigMapView {
        name: internal_name_of(node.metadata.name),
        data: seq![(
            "utxo.json"@,
            UTXO_HEAD@ + or_default(node.spec.initial_utxo_address, DEFAULT_UTXO_ADDRESS@) + UTXO_TAIL@,
        )],
    }
}

pub open spec fn main_image_of(node: HydraDoomNodeView, config: ConfigView) -> Seq<char> {
    or_default(node.spec.image, config.image)
}

pub open spec fn mount_of(name: Seq<char>, path: Seq<char>) -> VolumeMountView {
    VolumeMountView { name, mount_path: path }
}

pub open spec fn init_container_of(
    node: HydraDoomNodeView,
    config: ConfigView,
    k: K8sConstantsView,
) -> ContainerView {
    ContainerView {
        name: "init"@,
        image: main_image_of(node, config),
        args: seq!["gen-hydra-key"@, "--output-file"@, k.data_dir + "/hydra"@],
        ports: seq![],
        volume_mounts: seq![mount_of("data"@, k.data_dir)],
        resources: None,
    }
}

pub open spec fn main_container_of(
    node: HydraDoomNodeView,
    config: ConfigView,
    k: K8sConstantsView,
) -> ContainerView {
    ContainerView {
        name: "main"@,
        image: main_image_of(node, config),
        args: seq![
            "offline"@,
            "--host"@,
            "0.0.0.0"@,
            "--api-host"@,
            "0.0.0.0"@,
            "--port"@,
            "5001"@,
            "--api-port"@,
            int_text(k.port as int),
            "--hydra-signing-key"@,
            k.data_dir + "/hydra.sk"@,
            "--ledger-protocol-parameters"@,
            k.config_dir + "/protocol-parameters.json"@,
            "--initial-utxo"@,
            k.initial_utxo_config_dir + "/utxo.json"@,
            "--persistence-dir"@,
            k.persistence_dir + "/hydra-state"@,
        ],
        ports: seq![ContainerPortView { name: "api"@, container_port: k.port, protocol: "TCP"@ }],
        volume_mounts: seq![
            mount_of("initialutxo"@, k.initial_utxo_config_dir),
            mount_of("config"@, k.config_dir),
            mount_of("data"@, k.data_dir),
        ],
        resources: None,
    }
}

pub open spec fn sidecar_container_of(
    node: HydraDoomNodeView,
    config: ConfigView,
    k: K8sConstantsView,
) -> ContainerView {
    ContainerView {
        name: "sidecar"@,
        image: or_default(node.spec.sidecar_image, config.sidecar_image),
        args: seq!["metrics-exporter"@, "--host"@, "localhost"@, "--port"@, int_text(k.port as int)],
        ports: seq![
            ContainerPortView { name: "metrics"@, container_port: k.metrics_port, protocol: "TCP"@ },
        ],
        volume_mounts: seq![],
        resources: None,
    }
}

pub open spec fn node_volumes_of(node: HydraDoomNodeView, config: ConfigView) -> Seq<VolumeView> {
    seq![
        VolumeView { name: "data"@, source: VolumeSourceView::EmptyDir },
        VolumeView {
            name: "config"@,
            source: VolumeSourceView::ConfigMap(or_default(node.spec.configmap, config.configmap)),
        },
        VolumeView {
            name: "initialutxo"@,
            source: VolumeSourceView::ConfigMap(internal_name_of(node.metadata.name)),
        },
    ]
}

pub open spec fn deployment_of(
    node: HydraDoomNodeView,
    config: ConfigView,
    k: K8sConstantsView,
) -> DeploymentView {
    DeploymentView {
        name: internal_name_of(node.metadata.name),
        replicas: 1,
        labels: internal_labels_of(node.metadata.name),
        init_containers: seq![init_container_of(node, config, k)],
        containers: seq![main_container_of(node, config, k), sidecar_container_of(node, config, k)],
        volumes: node_volumes_of(node, config),
        tolerations: None,
    }
}

pub open spec fn service_of(node: HydraDoomNodeView, k: K8sConstantsView) -> ServiceView {
    ServiceView {
        name: internal_name_of(node.metadata.name),
        selector: internal_labels_of(node.metadata.name),
        ports: seq![
            ServicePortView {
                name: Some("websocket"@),
                port: k.port,
                target_port: k.port,
                protocol: "TCP"@,
            },
            ServicePortView {
                name: Some("metrics"@),
                port: k.metrics_port,
                target_port: k.metrics_port,
                protocol: "TCP"@,
            },
        ],
        service_type: "ClusterIP"@,
    }
}

pub open spec fn ingress_of(
    node: HydraDoomNodeView,
    config: ConfigView,
    k: K8sConstantsView,
) -> IngressView {
    IngressView {
        name: internal_name_of(node.metadata.name),
        annotations: k.ingress_annotations,
        class_name: k.ingress_class_name,
        host: external_host_of(node.metadata.name, config),
        path: "/"@,
        path_type: "Prefix"@,
        backend_service: internal_name_of(node.metadata.name),
        backend_port: k.port,
    }
}

/// A copy of `o`'s value, or of `d` when it has none.
fn value_or(o: &Option<String>, d: &String) -> (r: String)
    ensures
        r@ == or_default(opt_text(*o), d@),
{
    match o {
        Some(v) => v.clone(),
        None => d.clone(),
    }
}

fn mount(name: &str, path: &String) -> (r: VolumeMount)
    ensures
        r@ == mount_of(name@, path@),
{
    VolumeMount { name: name.to_string(), mount_path: path.clone() }
}

fn init_container(crd: &HydraDoomNode, config: &Config, k: &K8sConstants) -> (r: Container)
    ensures
        r@ == init_container_of(crd@, config@, k@),
{
    let args = vec![
        "gen-hydra-key".to_string(),
        "--output-file".to_string(),
        concat2(k.data_dir.as_str(), "/hydra"),
    ];
    let volume_mounts = vec![mount("data", &k.data_dir)];
    let r = Container {
        name: "init".to_string(),
        image: value_or(&crd.spec.image, &config.image),
        args,
        ports: Vec::new(),
        volume_mounts,
        resources: None,
    };
    proof {
        let want = init_container_of(crd@, config@, k@);
        assert(r@.args =~= want.args);
        assert(r@.ports =~= want.ports);
        assert(r@.volume_mounts =~= want.volume_mounts);
    }
    r
}

fn main_container(crd: &HydraDoomNode, config: &Config, k: &K8sConstants) -> (r: Container)
    ensures
        r@ == main_container_of(crd@, config@, k@),
{
    let args = vec![
        "offline".to_string(),
        "--host".to_string(),
        "0.0.0.0".to_string(),
        "--api-host".to_string(),
        "0.0.0.0".to_string(),
        "--port".to_string(),
        "5001".to_string(),
        "--api-port".to_string(),
        i32_text(k.port),
        "--hydra-signing-key".to_string(),
        concat2(k.data_dir.as_str(), "/hydra.sk"),
        "--ledger-protocol-parameters".to_string(),
        concat2(k.config_dir.as_str(), "/protocol-parameters.json"),
        "--initial-utxo".to_string(),
        concat2(k.initial_utxo_config_dir.as_str(), "/utxo.json"),
        "--persistence-dir".to_string(),
        concat2(k.persistence_dir.as_str(), "/hydra-state"),
    ];
    let ports = vec![
        ContainerPort { name: "api".to_string(), container_port: k.port, protocol: "TCP".to_string() },
    ];
    let volume_mounts = vec![
        mount("initialutxo", &k.initial_utxo_config_dir),
        mount("config", &k.config_dir),
        mount("data", &k.data_dir),
    ];
    let r = Container {
        name: "main".to_string(),
        image: value_or(&crd.spec.image, &config.image),
        args,
        ports,
        volume_mounts,
        resources: None,
    };
    proof {
        let want = main_container_of(crd@, config@, k@);
        assert(r@.args =~= want.args);
        assert(r@.ports =~= want.ports);
        assert(r@.volume_mounts =~= want.volume_mounts);
    }
    r
}

fn sidecar_container(crd: &HydraDoomNode, config: &Config, k: &K8sConstants) -> (r: Container)
    ensures
        r@ == sidecar_container_of(crd@, config@, k@),
{
    let args = vec![
        "metrics-exporter".to_string(),
        "--host".to_string(),
        "localhost".to_string(),
        "--port".to_string(),
        i32_text(k.port),
    ];
    let ports = vec![
        ContainerPort {
            name: "metrics".to_string(),
            container_port: k.metrics_port,
            protocol: "TCP".to_string(),
        },
    ];
    let r = Container {
        name: "sidecar".to_string(),
        image: value_or(&crd.spec.sidecar_image, &config.sidecar_image),
        args,
        ports,
        volume_mounts: Vec::new(),
        resources: None,
    };
    proof {
        let want = sidecar_container_of(crd@, config@, k@);
        assert(r@.args =~= want.args);
        assert(r@.ports =~= want.ports);
        assert(r@.volume_mounts =~= want.volume_mounts);
    }
    r
}

fn node_volumes(crd: &HydraDoomNode, config: &Config) -> (r: Vec<Volume>)
    ensures
        r@.map_values(|v: Volume| v@) == node_volumes_of(crd@, config@),
{
    let r = vec![
        Volume { name: "data".to_string(), source: VolumeSource::EmptyDir },
        Volume {
            name: "config".to_string(),
            source: VolumeSource::ConfigMap(value_or(&crd.spec.configmap, &config.configmap)),
        },
        Volume { name: "initialutxo".to_string(), source: VolumeSource::ConfigMap(crd.internal_name()) },
    ];
    proof {
        assert(r@.map_values(|v: Volume| v@) =~= node_volumes_of(crd@, config@));
    }
    r
}

impl HydraDoomNodeStatus {
    /// The status of a node that is provisioned but not yet reporting.
    pub fn offline(crd: &HydraDoomNode, config: &Config, constants: &K8sConstants) -> (r: Self)
        ensures
            r@ == offline_status_of(crd@, config@, constants@),
    {
        let local = concat2(concat2("ws://", crd.internal_host().as_str()).as_str(), ":");
        let local_url = concat2(local.as_str(), i32_text(constants.port).as_str());
        let external = concat2(
            concat2("ws://", crd.external_host(config, constants).as_str()).as_str(),
            ":",
        );
        let external_url = concat2(external.as_str(), config.external_port.as_str());
        HydraDoomNodeStatus {
            state: "Offline".to_string(),
            transactions: 0,
            local_url,
            external_url,
        }
    }
}

impl HydraDoomNode {
    pub fn internal_name(&self) -> (r: String)
        ensures
            r@ == internal_name_of(self.metadata.name@),
    {
        concat2(NODE_PREFIX, self.metadata.name.as_str())
    }

    pub fn internal_labels(&self) -> (r: Vec<(String, String)>)
        ensures
            text_pairs(r@) == internal_labels_of(self.metadata.name@),
            distinct_keys(text_pairs(r@)),
    {
        let r = vec![
            ("component".to_string(), "hydra-doom-node".to_string()),
            ("hydra-doom-node-id".to_string(), self.metadata.name.clone()),
            ("run-on".to_string(), "fargate".to_string()),
        ];
        proof {
            assert(text_pairs(r@) =~= internal_labels_of(self.metadata.name@));
            reveal_strlit("component");
            reveal_strlit("hydra-doom-node-id");
            reveal_strlit("run-on");
            let l = text_pairs(r@);
            assert(l[0].0.len() != l[1].0.len());
            assert(l[0].0.len() != l[2].0.len());
            assert(l[1].0.len() != l[2].0.len());
        }
        r
    }

    pub fn internal_host(&self) -> (r: String)
        ensures
            r@ == internal_host_of(self.metadata.name@, self.metadata.namespace@),
    {
        let a = concat2(self.internal_name().as_str(), ".");
        let b = concat2(a.as_str(), self.metadata.namespace.as_str());
        concat2(b.as_str(), ".svc.cluster.local")
    }

    pub fn external_host(&self, config: &Config, _constants: &K8sConstants) -> (r: String)
        ensures
            r@ == external_host_of(self.metadata.name@, config@),
    {
        let a = concat2(self.metadata.name.as_str(), ".");
        concat2(a.as_str(), config.external_domain.as_str())
    }
    /// The config map holding the node's initial UTxO set.
    pub fn configmap(&self, _config: &Config, _constants: &K8sConstants) -> (r: ConfigMapManifest)
        ensures
            r@ == configmap_of(self@),
    {
        let address = match &self.spec.initial_utxo_address {
            Some(a) => a.clone(),
            None => DEFAULT_UTXO_ADDRESS.to_string(),
        };
        let text = concat2(concat2(UTXO_HEAD, address.as_str()).as_str(), UTXO_TAIL);
        let data = vec![("utxo.json".to_string(), text)];
        let r = ConfigMapManifest { name: self.internal_name(), data };
        proof {
            assert(r@.data =~= configmap_of(self@).data);
        }
        r
    }

    /// The workload running the node and its metrics sidecar.
    pub fn deployment(&self, config: &Config, constants: &K8sConstants) -> (r: DeploymentManifest)
        ensures
            r@ == deployment_of(self@, config@, constants@),
    {
        let init_containers = vec![init_container(self, config, constants)];
        let containers = vec![
            main_container(self, config, constants),
            sidecar_container(self, config, constants),
        ];
        let r = DeploymentManifest {
            name: self.internal_name(),
            replicas: 1,
            labels: self.internal_labels(),
            init_containers,
            containers,
            volumes: node_volumes(self, config),
            tolerations: None,
        };
        proof {
            let want = deployment_of(self@, config@, constants@);
            assert(r@.init_containers =~= want.init_containers);
            assert(r@.containers =~= want.containers);
        }
        r
    }

    /// The service in front of the node's websocket and metrics ports.
    pub fn service(&self, _config: &Config, constants: &K8sConstants) -> (r: ServiceManifest)
        ensures
            r@ == service_of(self@, constants@),
    {
        let ports = vec![
            ServicePort {
                name: Some("websocket".to_string()),
                port: constants.port,
                target_port: constants.port,
                protocol: "TCP".to_string(),
            },
            ServicePort {
                name: Some("metrics".to_string()),
                port: constants.metrics_port,
                target_port: constants.metrics_port,
                protocol: "TCP".to_string(),
            },
        ];
        let r = ServiceManifest {
            name: self.internal_name(),
            selector: self.internal_labels(),
            ports,
            service_type: "ClusterIP".to_string(),
        };
        proof {
            assert(r@.ports =~= service_of(self@, constants@).ports);
        }
        r
    }

    /// The ingress route from the node's external host to its service.
    pub fn ingress(&self, config: &Config, constants: &K8sConstants) -> (r: IngressManifest)
        ensures
            r@ == ingress_of(self@, config@, constants@),
    {
        let name = self.internal_name();
        IngressManifest {
            name: name.clone(),
            annotations: copy_pairs(&constants.ingress_annotations),
            class_name: constants.ingress_class_name.clone(),
            host: self.external_host(config, constants),
            path: "/".to_string(),
            path_type: "Prefix".to_string(),
            backend_service: name,
            backend_port: constants.port,
        }
    }
}

/// The manifests and the status that the engine builds for a resource depend
/// on its name, namespace and spec, on the configuration and on the
/// constants, and on nothing else (not on its status, finalizers or deletion
/// mark): identical inputs always give identical objects.
pub proof fn lemma_manifests_deterministic(
    a: HydraDoomNodeView,
    b: HydraDoomNodeView,
    config_a: ConfigView,
    config_b: ConfigView,
    k_a: K8sConstantsView,
    k_b: K8sConstantsView,
)
    requires
        a.metadata.name == b.metadata.name,
        a.metadata.namespace == b.metadata.namespace,
        a.spec == b.spec,
        config_a == config_b,
        k_a == k_b,
    ensures
        deployment_of(a, config_a, k_a) == deployment_of(b, config_b, k_b),
        service_of(a, k_a) == service_of(b, k_b),
        ingress_of(a, config_a, k_a) == ingress_of(b, config_b, k_b),
        configmap_of(a) == configmap_of(b),
        offline_status_of(a, config_a, k_a) == offline_status_of(b, config_b, k_b),
{
}

/// Distinct resource names never give colliding dependent names.
pub proof fn lemma_internal_name_injective(a: Seq<char>, b: Seq<char>)
    requires
        a != b,
    ensures
        internal_name_of(a) != internal_name_of(b),
{
    let p = NODE_PREFIX@;
    if internal_name_of(a) == internal_name_of(b) {
        assert((p + a).subrange(p.len() as int, (p + a).len() as int) =~= a);
        assert((p + b).subrange(p.len() as int, (p + b).len() as int) =~= b);
    }
}

} // verus!
