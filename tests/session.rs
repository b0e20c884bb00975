use doom_patrol::config::HydraPodConfig;
use doom_patrol::error::Error;
use doom_patrol::k8s::{
    after_create, after_rollback, labels_from_id, name_from_id, new_session, pod_info_from_id,
    removal_result, session_plan, K8sConstants, PodInfo, SessionPart, SessionStep,
};
use doom_patrol::manifest::{ResourceRequirements, Toleration, VolumeSource};
use doom_patrol::routes::new_game::NewGameResponse;

fn config() -> HydraPodConfig {
    HydraPodConfig {
        namespace: "sessions".to_string(),
        image: "ghcr.io/example/node".to_string(),
        configmap_name: "pod-config".to_string(),
        external_domain: "play.example.com".to_string(),
        resources: Some(ResourceRequirements {
            limits: Some(vec![("cpu".to_string(), "1".to_string())]),
            requests: Some(vec![]),
        }),
        tolerations: Some(vec![Toleration {
            key: Some("dedicated".to_string()),
            operator: Some("Equal".to_string()),
            value: Some("games".to_string()),
            effect: Some("NoSchedule".to_string()),
            toleration_seconds: None,
        }]),
    }
}

fn is_uuid_text(s: &str) -> bool {
    s.len() == 36
        && s.chars().enumerate().all(|(i, c)| {
            if i == 8 || i == 13 || i == 18 || i == 23 {
                c == '-'
            } else {
                c.is_ascii_digit() || ('a'..='f').contains(&c)
            }
        })
}

#[test]
fn new_session_gets_fresh_identifier_and_host() {
    let cfg = config();
    let k = K8sConstants::default();
    let a = new_session(&cfg, &k);
    let b = new_session(&cfg, &k);
    assert!(is_uuid_text(&a.id), "{}", a.id);
    assert!(is_uuid_text(&b.id), "{}", b.id);
    assert_ne!(a.id, b.id);
    assert_eq!(a.deployment.name, format!("hydra-pod-{}", a.id));
    assert_eq!(a.service.name, format!("hydra-pod-{}", a.id));
    let step = after_create(&a.id, &cfg, &k, true, true);
    let info = match step {
        SessionStep::Ready(info) => info,
        other => panic!("expected a ready session, got {:?}", other),
    };
    assert_eq!(info.external_connection, format!("ws://hydra-pod-{}.play.example.com", a.id));
    let response = NewGameResponse::from(info);
    assert_eq!(response.host, format!("ws://hydra-pod-{}.play.example.com", a.id));
}

#[test]
fn names_and_labels_from_id() {
    let id = "1234".to_string();
    assert_eq!(name_from_id(&id), "hydra-pod-1234");
    assert_eq!(
        labels_from_id(&id),
        vec![
            ("component".to_string(), "hydra-pod".to_string()),
            ("hydra-pod-id".to_string(), "1234".to_string()),
        ]
    );
    assert_ne!(name_from_id(&"ab".to_string()), name_from_id(&"abc".to_string()));
}

#[test]
fn pod_info_is_derived_from_id() {
    let info = pod_info_from_id(&"xyz".to_string(), &config(), &K8sConstants::default());
    assert_eq!(
        info,
        PodInfo {
            id: "xyz".to_string(),
            local_connection: "ws://hydra-pod-xyz.svc.cluster.local".to_string(),
            external_connection: "ws://hydra-pod-xyz.play.example.com".to_string(),
            port: 4001,
        }
    );
}

#[test]
fn session_objects() {
    let cfg = config();
    let k = K8sConstants::default();
    let plan = session_plan("xyz".to_string(), &cfg, &k);
    let d = &plan.deployment;
    assert_eq!(d.name, "hydra-pod-xyz");
    assert_eq!(d.replicas, 1);
    assert_eq!(d.labels, labels_from_id(&"xyz".to_string()));
    assert_eq!(d.init_containers[0].image, "ghcr.io/example/node");
    assert_eq!(d.init_containers[0].volume_mounts.len(), 2);
    assert_eq!(d.containers.len(), 1);
    let main = &d.containers[0];
    assert_eq!(main.args[8], "4001");
    assert_eq!(main.args[10], "/var/data/hydra.sk");
    assert_eq!(main.args[14], "/etc/config/utxo.json");
    assert_eq!(main.resources, cfg.resources);
    assert_eq!(d.tolerations, cfg.tolerations);
    assert_eq!(d.volumes[1].source, VolumeSource::ConfigMap("pod-config".to_string()));
    let s = &plan.service;
    assert_eq!(s.name, "hydra-pod-xyz");
    assert_eq!(s.ports.len(), 1);
    assert_eq!(s.ports[0].name, None);
    assert_eq!(s.ports[0].port, 4001);
    assert_eq!(s.ports[0].target_port, 4001);
    assert_eq!(s.service_type, "ClusterIP");
}

#[test]
fn failed_create_rolls_back_what_landed() {
    let cfg = config();
    let k = K8sConstants::default();
    let id = "xyz".to_string();
    assert_eq!(
        after_create(&id, &cfg, &k, true, false),
        SessionStep::Rollback(SessionPart::Deployment)
    );
    assert_eq!(
        after_create(&id, &cfg, &k, false, true),
        SessionStep::Rollback(SessionPart::Service)
    );
    assert_eq!(
        after_create(&id, &cfg, &k, false, false),
        SessionStep::Fail(Error::K8sError("Failed to create resources".to_string()))
    );
    assert_eq!(
        after_rollback(SessionPart::Deployment, true),
        Error::K8sError("Failed to create resources".to_string())
    );
    assert_eq!(
        after_rollback(SessionPart::Deployment, false),
        Error::K8sError("Failed to delete deployment".to_string())
    );
    assert_eq!(
        after_rollback(SessionPart::Service, false),
        Error::K8sError("Failed to delete service".to_string())
    );
}

#[test]
fn removal_results() {
    assert_eq!(removal_result(true, true), Ok(()));
    assert_eq!(
        removal_result(true, false),
        Err(Error::K8sError("Failed to remove service".to_string()))
    );
    assert_eq!(
        removal_result(false, true),
        Err(Error::K8sError("Failed to remove deployment".to_string()))
    );
    assert_eq!(
        removal_result(false, false),
        Err(Error::K8sError("Failed to remove resources".to_string()))
    );
}

#[test]
fn session_error_message() {
    assert_eq!(
        Error::K8sError("Failed to create resources".to_string()).to_string(),
        "K8sError: Failed to create resources"
    );
}

#[test]
fn new_game_response_fields() {
    let info = PodInfo {
        id: "id".to_string(),
        local_connection: "ws://local".to_string(),
        external_connection: "ws://external".to_string(),
        port: 4001,
    };
    let r = NewGameResponse::from_pod_info(info);
    assert_eq!(r.host, "ws://external");
    assert_eq!(r.script_ref, "script_ref");
    assert_eq!(r.admin_pkh, "admin_pkh");
    assert_eq!(r.player_utxo, "player_utxo");
    assert_eq!(r.player_utxo_datum_hex, "player_utxo_datum_hex");
}
