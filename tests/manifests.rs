use doom_patrol::config::Config;
use doom_patrol::controller::K8sConstants;
use doom_patrol::custom_resource::{
    HydraDoomNode, HydraDoomNodeSpec, HydraDoomNodeStatus, ObjectMeta, DEFAULT_UTXO_ADDRESS,
};
use doom_patrol::manifest::{ServicePort, VolumeMount, VolumeSource};

fn config() -> Config {
    Config {
        image: "ghcr.io/example/node".to_string(),
        open_head_image: "open-head".to_string(),
        sidecar_image: "sidecar:1".to_string(),
        configmap: "node-config".to_string(),
        secret: "secret".to_string(),
        blockfrost_key: "key".to_string(),
        external_domain: "games.example.com".to_string(),
        external_port: "443".to_string(),
        admin_addr: "addr_admin".to_string(),
        hydra_scripts_tx_id: "txid".to_string(),
        dmtr_node_port_authenticated_url: "https://node.example.com".to_string(),
    }
}

fn node(name: &str, ns: &str) -> HydraDoomNode {
    HydraDoomNode {
        metadata: ObjectMeta {
            name: name.to_string(),
            namespace: ns.to_string(),
            finalizers: vec![],
            deletion_requested: false,
        },
        spec: HydraDoomNodeSpec {
            image: None,
            offline: None,
            initial_utxo_address: None,
            open_head_image: None,
            sidecar_image: None,
            configmap: None,
            network_id: 0,
            seed_input: "s".to_string(),
            participant: "p1".to_string(),
            party: "g1".to_string(),
            commit_inputs: vec![],
            blockfrost_key: None,
        },
        status: None,
    }
}

fn strings(v: &[&str]) -> Vec<String> {
    v.iter().map(|s| s.to_string()).collect()
}

#[test]
fn derived_names_and_hosts() {
    let crd = node("abc", "games");
    let cfg = config();
    let k = K8sConstants::default();
    assert_eq!(crd.internal_name(), "hydra-doom-node-abc");
    assert_eq!(crd.internal_host(), "hydra-doom-node-abc.games.svc.cluster.local");
    assert_eq!(crd.external_host(&cfg, &k), "abc.games.example.com");
    assert_eq!(
        crd.internal_labels(),
        vec![
            ("component".to_string(), "hydra-doom-node".to_string()),
            ("hydra-doom-node-id".to_string(), "abc".to_string()),
            ("run-on".to_string(), "fargate".to_string()),
        ]
    );
}

#[test]
fn distinct_resources_get_distinct_names() {
    let names = ["abc", "abd", "ab", "a", "abc-1", "1-abc"];
    for (i, a) in names.iter().enumerate() {
        for (j, b) in names.iter().enumerate() {
            let same = node(a, "ns").internal_name() == node(b, "ns").internal_name();
            assert_eq!(same, i == j);
        }
    }
}

#[test]
fn offline_status_urls() {
    let crd = node("abc", "default");
    let status = HydraDoomNodeStatus::offline(&crd, &config(), &K8sConstants::default());
    assert_eq!(status.local_url, "ws://hydra-doom-node-abc.default.svc.cluster.local:4001");
    assert_eq!(status.external_url, "ws://abc.games.example.com:443");
    assert_eq!(status.state, "Offline");
    assert_eq!(status.transactions, 0);
}

#[test]
fn offline_status_uses_the_port_constant() {
    let crd = node("n", "ns");
    let mut k = K8sConstants::default();
    k.port = -12;
    let status = HydraDoomNodeStatus::offline(&crd, &config(), &k);
    assert_eq!(status.local_url, "ws://hydra-doom-node-n.ns.svc.cluster.local:-12");
}

#[test]
fn constants_defaults() {
    let k = K8sConstants::default();
    assert_eq!(k.config_dir, "/etc/config");
    assert_eq!(k.data_dir, "/var/data");
    assert_eq!(k.persistence_dir, "/var/persistence");
    assert_eq!(k.node_port, 5001);
    assert_eq!(k.port, 4001);
    assert_eq!(k.ingress_class_name, "nginx");
    assert_eq!(k.ingress_annotations.len(), 3);
    assert_eq!(k.ingress_annotations[0].1, "3600");
    assert!(k.ingress_annotations[2].1.starts_with("location / {\nproxy_set_header Upgrade"));
    assert!(k.ingress_annotations[2].1.ends_with("proxy_cache_bypass $http_upgrade;\n}\n"));
}

#[test]
fn deployment_uses_config_defaults() {
    let crd = node("abc", "default");
    let k = K8sConstants::default();
    let d = crd.deployment(&config(), &k);
    assert_eq!(d.name, "hydra-doom-node-abc");
    assert_eq!(d.replicas, 1);
    assert_eq!(d.labels, crd.internal_labels());
    assert_eq!(d.init_containers.len(), 1);
    let init = &d.init_containers[0];
    assert_eq!(init.name, "init");
    assert_eq!(init.image, "ghcr.io/example/node");
    assert_eq!(init.args, strings(&["gen-hydra-key", "--output-file", "/var/data/hydra"]));
    assert_eq!(
        init.volume_mounts,
        vec![VolumeMount { name: "data".to_string(), mount_path: "/var/data".to_string() }]
    );
    assert_eq!(d.containers.len(), 2);
    let main = &d.containers[0];
    assert_eq!(main.name, "main");
    assert_eq!(main.image, "ghcr.io/example/node");
    assert_eq!(
        main.args,
        strings(&[
            "offline",
            "--host",
            "0.0.0.0",
            "--api-host",
            "0.0.0.0",
            "--port",
            "5001",
            "--api-port",
            "4001",
            "--hydra-signing-key",
            "/var/data/hydra.sk",
            "--ledger-protocol-parameters",
            "/etc/config/protocol-parameters.json",
            "--initial-utxo",
            "/etc/initial_utxo_config/utxo.json",
            "--persistence-dir",
            "/var/persistence/hydra-state",
        ])
    );
    assert_eq!(main.ports.len(), 1);
    assert_eq!(main.ports[0].name, "api");
    assert_eq!(main.ports[0].container_port, 4001);
    assert_eq!(main.ports[0].protocol, "TCP");
    assert_eq!(main.volume_mounts.len(), 3);
    assert_eq!(main.volume_mounts[0].name, "initialutxo");
    let sidecar = &d.containers[1];
    assert_eq!(sidecar.name, "sidecar");
    assert_eq!(sidecar.image, "sidecar:1");
    assert_eq!(sidecar.args, strings(&["metrics-exporter", "--host", "localhost", "--port", "4001"]));
    assert_eq!(sidecar.ports[0].container_port, k.metrics_port);
    assert_eq!(d.volumes.len(), 3);
    assert_eq!(d.volumes[0].source, VolumeSource::EmptyDir);
    assert_eq!(d.volumes[1].source, VolumeSource::ConfigMap("node-config".to_string()));
    assert_eq!(
        d.volumes[2].source,
        VolumeSource::ConfigMap("hydra-doom-node-abc".to_string())
    );
    assert_eq!(d.tolerations, None);
}

#[test]
fn spec_overrides_win_over_config() {
    let mut crd = node("abc", "default");
    crd.spec.image = Some("custom/node:2".to_string());
    crd.spec.sidecar_image = Some("custom/sidecar:3".to_string());
    crd.spec.configmap = Some("custom-config".to_string());
    let d = crd.deployment(&config(), &K8sConstants::default());
    assert_eq!(d.init_containers[0].image, "custom/node:2");
    assert_eq!(d.containers[0].image, "custom/node:2");
    assert_eq!(d.containers[1].image, "custom/sidecar:3");
    assert_eq!(d.volumes[1].source, VolumeSource::ConfigMap("custom-config".to_string()));
}

#[test]
fn service_exposes_websocket_and_metrics() {
    let crd = node("abc", "default");
    let k = K8sConstants::default();
    let s = crd.service(&config(), &k);
    assert_eq!(s.name, "hydra-doom-node-abc");
    assert_eq!(s.selector, crd.internal_labels());
    assert_eq!(s.service_type, "ClusterIP");
    assert_eq!(
        s.ports,
        vec![
            ServicePort {
                name: Some("websocket".to_string()),
                port: 4001,
                target_port: 4001,
                protocol: "TCP".to_string(),
            },
            ServicePort {
                name: Some("metrics".to_string()),
                port: k.metrics_port,
                target_port: k.metrics_port,
                protocol: "TCP".to_string(),
            },
        ]
    );
}

#[test]
fn ingress_routes_external_host_to_service() {
    let crd = node("abc", "default");
    let k = K8sConstants::default();
    let i = crd.ingress(&config(), &k);
    assert_eq!(i.name, "hydra-doom-node-abc");
    assert_eq!(i.annotations, k.ingress_annotations);
    assert_eq!(i.class_name, "nginx");
    assert_eq!(i.host, "abc.games.example.com");
    assert_eq!(i.path, "/");
    assert_eq!(i.path_type, "Prefix");
    assert_eq!(i.backend_service, "hydra-doom-node-abc");
    assert_eq!(i.backend_port, 4001);
}

#[test]
fn configmap_holds_initial_utxo() {
    let mut crd = node("abc", "default");
    let cfg = config();
    let k = K8sConstants::default();
    let c = crd.configmap(&cfg, &k);
    assert_eq!(c.name, "hydra-doom-node-abc");
    assert_eq!(c.data.len(), 1);
    assert_eq!(c.data[0].0, "utxo.json");
    assert!(c.data[0].1.contains(&format!("\"address\": \"{}\"", DEFAULT_UTXO_ADDRESS)));
    assert!(c.data[0].1.contains("\"lovelace\": 1000000000"));
    crd.spec.initial_utxo_address = Some("addr_test1xyz".to_string());
    let c = crd.configmap(&cfg, &k);
    assert!(c.data[0].1.contains("\"address\": \"addr_test1xyz\""));
    assert!(!c.data[0].1.contains(DEFAULT_UTXO_ADDRESS));
}
