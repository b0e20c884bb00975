use doom_patrol::config::Config;
use doom_patrol::controller::{
    add_token, ensure_request, error_policy, holds_token, next, remove_token, start, Action,
    CleanupOutcome, Dependent, EnsureOutcome, Error, Event, K8sConstants, Step,
    REQUEUE_DELAY_SECS,
};
use doom_patrol::custom_resource::{
    HydraDoomNode, HydraDoomNodeSpec, HydraDoomNodeStatus, ObjectMeta, HYDRA_DOOM_NODE_FINALIZER,
};

fn config() -> Config {
    Config {
        image: "ghcr.io/example/node".to_string(),
        open_head_image: "open-head".to_string(),
        sidecar_image: "sidecar".to_string(),
        configmap: "node-config".to_string(),
        secret: "secret".to_string(),
        blockfrost_key: "key".to_string(),
        external_domain: "games.example.com".to_string(),
        external_port: "443".to_string(),
        admin_addr: "addr_admin".to_string(),
        hydra_scripts_tx_id: "txid".to_string(),
        dmtr_node_port_authenticated_url: "https://node.example.com".to_string(),
    }
}

fn spec() -> HydraDoomNodeSpec {
    HydraDoomNodeSpec {
        image: None,
        offline: None,
        initial_utxo_address: None,
        open_head_image: None,
        sidecar_image: None,
        configmap: None,
        network_id: 0,
        seed_input: "s".to_string(),
        participant: "p1".to_string(),
        party: "g1".to_string(),
        commit_inputs: vec![],
        blockfrost_key: None,
    }
}

fn node(name: &str, deleting: bool, finalizers: Vec<&str>) -> HydraDoomNode {
    HydraDoomNode {
        metadata: ObjectMeta {
            name: name.to_string(),
            namespace: "default".to_string(),
            finalizers: finalizers.into_iter().map(|f| f.to_string()).collect(),
            deletion_requested: deleting,
        },
        spec: spec(),
        status: None,
    }
}

fn all_ok() -> EnsureOutcome {
    EnsureOutcome { deployment: true, service: true, ingress: true, resource: true }
}

#[test]
fn happy_path_creates_dependents_and_status() {
    let crd = node("abc", false, vec![]);
    let step = start(&crd, &config(), &K8sConstants::default());
    let req = match step {
        Step::Ensure(req) => req,
        other => panic!("expected an ensure pass, got {:?}", other),
    };
    assert_eq!(req.deployment.name, "hydra-doom-node-abc");
    assert_eq!(req.service.name, "hydra-doom-node-abc");
    assert_eq!(req.ingress.name, "hydra-doom-node-abc");
    assert_eq!(req.status.local_url, "ws://hydra-doom-node-abc.default.svc.cluster.local:4001");
    assert_eq!(req.status.external_url, "wss://abc.games.example.com:443");
    assert_eq!(req.status.state, "Offline");
    assert_eq!(req.status.transactions, 0);
    assert_eq!(req.finalizers, vec![HYDRA_DOOM_NODE_FINALIZER.to_string()]);
    assert_eq!(next(&crd, Event::Ensured(all_ok())), Step::Finish(Ok(Action::AwaitChange)));
}

#[test]
fn deletion_removes_dependents_then_token() {
    let crd = node("abc", true, vec!["other/finalizer", HYDRA_DOOM_NODE_FINALIZER]);
    assert_eq!(start(&crd, &config(), &K8sConstants::default()), Step::Cleanup);
    let cleaned = CleanupOutcome { deployment: true, service: true, ingress: true };
    assert_eq!(
        next(&crd, Event::CleanedUp(cleaned)),
        Step::Release(vec!["other/finalizer".to_string()])
    );
    assert_eq!(next(&crd, Event::Released(true)), Step::Finish(Ok(Action::AwaitChange)));
    assert_eq!(
        next(&crd, Event::Released(false)),
        Step::Finish(Err(Error::ReconcileError))
    );
}

#[test]
fn deletion_without_token_is_left_alone() {
    let crd = node("abc", true, vec![]);
    assert_eq!(
        start(&crd, &config(), &K8sConstants::default()),
        Step::Finish(Ok(Action::AwaitChange))
    );
}

#[test]
fn failed_delete_keeps_token() {
    let crd = node("abc", true, vec![HYDRA_DOOM_NODE_FINALIZER]);
    let outcomes = [
        CleanupOutcome { deployment: false, service: true, ingress: true },
        CleanupOutcome { deployment: true, service: false, ingress: true },
        CleanupOutcome { deployment: true, service: true, ingress: false },
        CleanupOutcome { deployment: false, service: false, ingress: false },
    ];
    for o in outcomes {
        assert_eq!(next(&crd, Event::CleanedUp(o)), Step::Finish(Err(Error::ReconcileError)));
    }
}

#[test]
fn partial_failure_rolls_back_and_requeues() {
    let crd = node("abc", false, vec![]);
    let o = EnsureOutcome { deployment: true, service: false, ingress: true, resource: true };
    assert_eq!(
        next(&crd, Event::Ensured(o)),
        Step::Compensate(vec![Dependent::Deployment, Dependent::Ingress])
    );
    let done = next(&crd, Event::Compensated(true));
    assert_eq!(done, Step::Finish(Err(Error::ReconcileError)));
    assert_eq!(
        error_policy(&crd, &Error::ReconcileError),
        Action::Requeue(REQUEUE_DELAY_SECS)
    );
    assert_eq!(REQUEUE_DELAY_SECS, 5);
    assert_eq!(next(&crd, Event::Compensated(false)), Step::Finish(Err(Error::ReconcileError)));
}

#[test]
fn every_failure_combination_leaves_no_dependent() {
    let crd = node("abc", false, vec![]);
    for bits in 0u8..16 {
        let o = EnsureOutcome {
            deployment: bits & 1 != 0,
            service: bits & 2 != 0,
            ingress: bits & 4 != 0,
            resource: bits & 8 != 0,
        };
        let mut present: Vec<Dependent> = Vec::new();
        if o.deployment {
            present.push(Dependent::Deployment);
        }
        if o.service {
            present.push(Dependent::Service);
        }
        if o.ingress {
            present.push(Dependent::Ingress);
        }
        match next(&crd, Event::Ensured(o)) {
            Step::Finish(Ok(Action::AwaitChange)) => assert_eq!(bits, 15),
            Step::Compensate(undo) => {
                assert_ne!(bits, 15);
                present.retain(|d| !undo.contains(d));
                assert!(present.is_empty(), "left behind {:?} for {:?}", present, o);
                assert_eq!(
                    next(&crd, Event::Compensated(true)),
                    Step::Finish(Err(Error::ReconcileError))
                );
            }
            Step::Finish(Err(Error::ReconcileError)) => assert!(present.is_empty()),
            other => panic!("unexpected step {:?}", other),
        }
    }
}

#[test]
fn second_ensure_pass_changes_nothing() {
    let cfg = config();
    let k = K8sConstants::default();
    let mut crd = node("abc", false, vec!["other/finalizer"]);
    let first = ensure_request(&crd, &cfg, &k);
    crd.metadata.finalizers = first.finalizers.clone();
    crd.status = Some(first.status.clone());
    let second = ensure_request(&crd, &cfg, &k);
    assert_eq!(first, second);
    assert_eq!(
        second.finalizers,
        vec!["other/finalizer".to_string(), HYDRA_DOOM_NODE_FINALIZER.to_string()]
    );
}

#[test]
fn manifests_ignore_status_and_finalizers() {
    let cfg = config();
    let k = K8sConstants::default();
    let a = node("abc", false, vec![]);
    let mut b = node("abc", true, vec![HYDRA_DOOM_NODE_FINALIZER]);
    b.status = Some(HydraDoomNodeStatus {
        local_url: "x".to_string(),
        external_url: "y".to_string(),
        state: "Online".to_string(),
        transactions: 7,
    });
    assert_eq!(a.deployment(&cfg, &k), a.deployment(&cfg, &k));
    assert_eq!(a.deployment(&cfg, &k), b.deployment(&cfg, &k));
    assert_eq!(a.service(&cfg, &k), b.service(&cfg, &k));
    assert_eq!(a.ingress(&cfg, &k), b.ingress(&cfg, &k));
    assert_eq!(a.configmap(&cfg, &k), b.configmap(&cfg, &k));
}

#[test]
fn token_helpers() {
    let token = HYDRA_DOOM_NODE_FINALIZER.to_string();
    let other = "other/finalizer".to_string();
    assert!(!holds_token(&vec![]));
    assert!(holds_token(&vec![other.clone(), token.clone()]));
    assert_eq!(add_token(&vec![]), vec![token.clone()]);
    assert_eq!(add_token(&vec![token.clone()]), vec![token.clone()]);
    assert_eq!(
        remove_token(&vec![token.clone(), other.clone(), token.clone()]),
        vec![other.clone()]
    );
    assert_eq!(remove_token(&vec![]), Vec::<String>::new());
}

#[test]
fn reconcile_error_message() {
    assert_eq!(Error::ReconcileError.to_string(), "ReconcileError");
}
