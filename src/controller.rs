//! The reconcile engine of the declarative controller: the constants it
//! builds manifests with, and its decisions at each step of a reconcile.

use vstd::prelude::*;
use crate::config::{Config, ConfigView};
use crate::custom_resource::{
    deployment_of, external_host_of, ingress_of, offline_status_of, service_of, HydraDoomNode,
    HydraDoomNodeStatus, HydraDoomNodeStatusView, HydraDoomNodeView, ObjectMetaView,
    HYDRA_DOOM_NODE_FINALIZER,
};
use crate::text::concat2;
use crate::manifest::{
    distinct_keys, text_pairs, texts, DeploymentManifest, DeploymentView,
    IngressManifest, IngressView, ServiceManifest, ServiceView,
};

verus! {

/// Fixed paths, ports and ingress settings shared by every reconcile.
#[derive(Clone, Debug, PartialEq, Eq)]
pub struct K8sConstants {
    pub config_dir: String,
    /// Mount point of the config map that holds the initial UTxO set.
    /// No deployment convention fixes it; `default` picks `/etc/initial_utxo_config`.
    pub initial_utxo_config_dir: String,
    pub data_dir: String,
    pub persistence_dir: String,
    pub node_port: i32,
    pub port: i32,
    /// Port of the metrics exporter sidecar. No deployment convention fixes
    /// it; `default` picks 8000.
    pub metrics_port: i32,
    pub ingress_class_name: String,
    pub ingress_annotations: Vec<(String, String)>,
}

pub struct K8sConstantsView {
    pub config_dir: Seq<char>,
    pub initial_utxo_config_dir: Seq<char>,
    pub data_dir: Seq<char>,
    pub persistence_dir: Seq<char>,
    pub node_port: i32,
    pub port: i32,
    pub metrics_port: i32,
    pub ingress_class_name: Seq<char>,
    pub ingress_annotations: Seq<(Seq<char>, Seq<char>)>,
}

impl View for K8sConstants {
    type V = K8sConstantsView;

    open spec fn view(&self) -> K8sConstantsView {
        K8sConstantsView {
            config_dir: self.config_dir@,
            initial_utxo_config_dir: self.initial_utxo_config_dir@,
            data_dir: self.data_dir@,
            persistence_dir: self.persistence_dir@,
            node_port: self.node_port,
            port: self.port,
            metrics_port: self.metrics_port,
            ingress_class_name: self.ingress_class_name@,
            ingress_annotations: text_pairs(self.ingress_annotations@),
        }
    }
}

impl K8sConstants {
    /// The ingress annotations form a map: no key appears twice.
    pub open spec fn wf(&self) -> bool {
        distinct_keys(text_pairs(self.ingress_annotations@))
    }
}

/// Server snippet that lets websocket upgrades through the ingress.
pub const WEBSOCKET_SNIPPET: &'static str = "location / {\n\
    proxy_set_header Upgrade $http_upgrade;\n\
    proxy_http_version 1.1;\n\
    proxy_set_header X-Forwarded-Host $http_host;\n\
    proxy_set_header X-Forwarded-Proto $scheme;\n\
    proxy_set_header X-Forwarded-For $remote_addr;\n\
    proxy_set_header Host $host;\n\
    proxy_set_header Connection \"upgrade\";\n\
    proxy_cache_bypass $http_upgrade;\n\
    }\n";

/// The constants the controller runs with.
pub open spec fn default_constants() -> K8sConstantsView {
    K8sConstantsView {
        config_dir: "/etc/config"@,
        initial_utxo_config_dir: "/etc/initial_utxo_config"@,
        data_dir: "/var/data"@,
        persistence_dir: "/var/persistence"@,
        node_port: 5001,
        port: 4001,
        metrics_port: 8000,
        ingress_class_name: "nginx"@,
        ingress_annotations: seq![
            ("nginx.ingress.kubernetes.io/proxy-read-timeout"@, "3600"@),
            ("nginx.ingress.kubernetes.io/proxy-send-timeout"@, "3600"@),
            ("nginx.ingress.kubernetes.io/server-snippets"@, WEBSOCKET_SNIPPET@),
        ],
    }
}

impl Default for K8sConstants {
    fn default() -> (r: K8sConstants)
        ensures
            r@ == default_constants(),
            r.wf(),
    {
        let ingress_annotations = vec![
            (
                "nginx.ingress.kubernetes.io/proxy-read-timeout".to_string(),
                "3600".to_string(),
            ),
            (
                "nginx.ingress.kubernetes.io/proxy-send-timeout".to_string(),
                "3600".to_string(),
            ),
            ("nginx.ingress.kubernetes.io/server-snippets".to_string(), WEBSOCKET_SNIPPET.to_string()),
        ];
        proof {
            assert(text_pairs(ingress_annotations@) =~= default_constants().ingress_annotations);
            reveal_strlit("nginx.ingress.kubernetes.io/proxy-read-timeout");
            reveal_strlit("nginx.ingress.kubernetes.io/proxy-send-timeout");
            reveal_strlit("nginx.ingress.kubernetes.io/server-snippets");
            let keys = default_constants().ingress_annotations;
            assert(keys[0].0[34] != keys[1].0[34]);
            assert(keys[0].0.len() != keys[2].0.len());
            assert(keys[1].0.len() != keys[2].0.len());
        }
        K8sConstants {
            config_dir: "/etc/config".to_string(),
            initial_utxo_config_dir: "/etc/initial_utxo_config".to_string(),
            data_dir: "/var/data".to_string(),
            persistence_dir: "/var/persistence".to_string(),
            node_port: 5001,
            port: 4001,
            metrics_port: 8000,
            ingress_class_name: "nginx".to_string(),
            ingress_annotations,
        }
    }
}

/// Delay before a failed reconcile is tried again, in seconds.
pub const REQUEUE_DELAY_SECS: u64 = 5;

/// The one kind of failure a reconcile reports.
#[derive(PartialEq, Eq, Structural, Clone, Copy, Debug)]
pub enum Error {
    ReconcileError,
}

impl Error {
    /// The message this error is reported with.
    pub fn to_string(&self) -> (r: String)
        ensures
            r@ == "ReconcileError"@,
    {
        "ReconcileError".to_string()
    }
}

/// What the controller runtime should do once a reconcile has finished.
#[derive(PartialEq, Eq, Structural, Clone, Copy, Debug)]
pub enum Action {
    /// Wait for the next change of the resource.
    AwaitChange,
    /// Run the reconcile again after this many seconds.
    Requeue(u64),
}

/// Every failed reconcile is retried after the same fixed delay.
pub fn error_policy(_crd: &HydraDoomNode, _err: &Error) -> (r: Action)
    ensures
        r == Action::Requeue(REQUEUE_DELAY_SECS),
{
    Action::Requeue(REQUEUE_DELAY_SECS)
}

/// A platform object that a node resource owns.
#[derive(PartialEq, Eq, Structural, Clone, Copy, Debug)]
pub enum Dependent {
    Deployment,
    Service,
    Ingress,
}

/// Everything one ensure pass writes: the three dependents, and the status
/// and finalizers of the resource itself.
#[derive(Clone, Debug, PartialEq, Eq)]
pub struct EnsureRequest {
    pub deployment: DeploymentManifest,
    pub service: ServiceManifest,
    pub ingress: IngressManifest,
    pub status: HydraDoomNodeStatus,
    pub finalizers: Vec<String>,
}

pub struct EnsureRequestView {
    pub deployment: DeploymentView,
    pub service: ServiceView,
    pub ingress: IngressView,
    pub status: HydraDoomNodeStatusView,
    pub finalizers: Seq<Seq<char>>,
}

impl View for EnsureRequest {
    type V = EnsureRequestView;

    open spec fn view(&self) -> EnsureRequestView {
        EnsureRequestView {
            deployment: self.deployment@,
            service: self.service@,
            ingress: self.ingress@,
            status: self.status@,
            finalizers: texts(self.finalizers@),
        }
    }
}

/// The finalizer list holds the engine's token.
pub open spec fn has_token(fs: Seq<Seq<char>>) -> bool {
    fs.contains(HYDRA_DOOM_NODE_FINALIZER@)
}

/// The finalizer list with the engine's token added when it is absent;
/// other writers' finalizers are kept.
pub open spec fn with_token(fs: Seq<Seq<char>>) -> Seq<Seq<char>> {
    if has_token(fs) {
        fs
    } else {
        fs.push(HYDRA_DOOM_NODE_FINALIZER@)
    }
}

/// The finalizer list with every copy of the engine's token removed.
pub open spec fn without_token(fs: Seq<Seq<char>>) -> Seq<Seq<char>> {
    fs.filter(|f: Seq<char>| f != HYDRA_DOOM_NODE_FINALIZER@)
}

/// The status an ensure pass writes: the node is reported offline, reachable
/// inside the cluster over `ws://` and from outside over `wss://` on the
/// external port.
pub open spec fn ensure_status_of(
    node: HydraDoomNodeView,
    config: ConfigView,
    k: K8sConstantsView,
) -> HydraDoomNodeStatusView {
    HydraDoomNodeStatusView {
        external_url: "wss://"@ + external_host_of(node.metadata.name, config) + ":"@
            + config.external_port,
        ..offline_status_of(node, config, k)
    }
}

/// What one ensure pass writes for `node`.
pub open spec fn ensure_request_of(
    node: HydraDoomNodeView,
    config: ConfigView,
    k: K8sConstantsView,
) -> EnsureRequestView {
    EnsureRequestView {
        deployment: deployment_of(node, config, k),
        service: service_of(node, k),
        ingress: ingress_of(node, config, k),
        status: ensure_status_of(node, config, k),
        finalizers: with_token(node.metadata.finalizers),
    }
}

/// Whether the engine's token is among `fs`.
pub fn holds_token(fs: &Vec<String>) -> (r: bool)
    ensures
        r == has_token(texts(fs@)),
{
    let token = HYDRA_DOOM_NODE_FINALIZER.to_string();
    let mut i: usize = 0;
    while i < fs.len()
        invariant
            i <= fs@.len(),
            token@ == HYDRA_DOOM_NODE_FINALIZER@,
            forall|j: int| 0 <= j < i ==> fs@[j]@ != HYDRA_DOOM_NODE_FINALIZER@,
        decreases fs@.len() - i,
    {
        if fs[i] == token {
            proof {
                assert(texts(fs@)[i as int] == HYDRA_DOOM_NODE_FINALIZER@);
            }
            return true;
        }
        i = i + 1;
    }
    proof {
        if has_token(texts(fs@)) {
            let j = choose|j: int| 0 <= j < texts(fs@).len() && texts(fs@)[j] == HYDRA_DOOM_NODE_FINALIZER@;
            assert(fs@[j]@ == HYDRA_DOOM_NODE_FINALIZER@);
        }
    }
    false
}

/// `fs` with the engine's token added when it is absent.
pub fn add_token(fs: &Vec<String>) -> (r: Vec<String>)
    ensures
        texts(r@) == with_token(texts(fs@)),
{
    let mut r = fs.clone();
    proof {
        assert(texts(r@) =~= texts(fs@));
    }
    if !holds_token(fs) {
        r.push(HYDRA_DOOM_NODE_FINALIZER.to_string());
        proof {
            assert(texts(r@) =~= texts(fs@).push(HYDRA_DOOM_NODE_FINALIZER@));
        }
    }
    r
}

/// `fs` without the engine's token.
pub fn remove_token(fs: &Vec<String>) -> (r: Vec<String>)
    ensures
        texts(r@) == without_token(texts(fs@)),
{
    let token = HYDRA_DOOM_NODE_FINALIZER.to_string();
    let ghost all = texts(fs@);
    let mut r: Vec<String> = Vec::new();
    let mut i: usize = 0;
    proof {
        reveal(Seq::filter);
        assert(all.subrange(0, 0).filter(|f: Seq<char>| f != HYDRA_DOOM_NODE_FINALIZER@) =~= Seq::<Seq<char>>::empty());
    }
    while i < fs.len()
        invariant
            i <= fs@.len(),
            all == texts(fs@),
            token@ == HYDRA_DOOM_NODE_FINALIZER@,
            texts(r@) == all.subrange(0, i as int).filter(|f: Seq<char>| f != HYDRA_DOOM_NODE_FINALIZER@),
        decreases fs@.len() - i,
    {
        proof {
            reveal(Seq::filter);
            assert(all.subrange(0, i + 1).drop_last() =~= all.subrange(0, i as int));
        }
        if fs[i] != token {
            r.push(fs[i].clone());
            proof {
                assert(texts(r@) =~= all.subrange(0, i + 1).filter(|f: Seq<char>| f != HYDRA_DOOM_NODE_FINALIZER@));
            }
        }
        i = i + 1;
    }
    proof {
        assert(all.subrange(0, all.len() as int) =~= all);
    }
    r
}

/// Builds the status an ensure pass writes for `crd`.
pub fn ensure_status(crd: &HydraDoomNode, config: &Config, constants: &K8sConstants) -> (r: HydraDoomNodeStatus)
    ensures
        r@ == ensure_status_of(crd@, config@, constants@),
{
    let mut status = HydraDoomNodeStatus::offline(crd, config, constants);
    let external = concat2(
        concat2("wss://", crd.external_host(config, constants).as_str()).as_str(),
        ":",
    );
    status.external_url = concat2(external.as_str(), config.external_port.as_str());
    status
}

/// Builds everything one ensure pass writes for `crd`.
pub fn ensure_request(crd: &HydraDoomNode, config: &Config, constants: &K8sConstants) -> (r: EnsureRequest)
    ensures
        r@ == ensure_request_of(crd@, config@, constants@),
{
    EnsureRequest {
        deployment: crd.deployment(config, constants),
        service: crd.service(config, constants),
        ingress: crd.ingress(config, constants),
        status: ensure_status(crd, config, constants),
        finalizers: add_token(&crd.metadata.finalizers),
    }
}

/// Which of the four writes of an ensure pass succeeded.
#[derive(PartialEq, Eq, Structural, Clone, Copy, Debug)]
pub struct EnsureOutcome {
    pub deployment: bool,
    pub service: bool,
    pub ingress: bool,
    /// The status and finalizer patch of the resource itself.
    pub resource: bool,
}

/// Which of the three deletes of a cleanup pass succeeded.
#[derive(PartialEq, Eq, Structural, Clone, Copy, Debug)]
pub struct CleanupOutcome {
    pub deployment: bool,
    pub service: bool,
    pub ingress: bool,
}

/// The result of the platform work a step asked for.
#[derive(PartialEq, Eq, Structural, Clone, Copy, Debug)]
pub enum Event {
    /// The writes of an ensure pass completed.
    Ensured(EnsureOutcome),
    /// The compensating deletes completed; `true` when all succeeded.
    Compensated(bool),
    /// The deletes of a cleanup pass completed.
    CleanedUp(CleanupOutcome),
    /// The finalizer patch completed; `true` when it succeeded.
    Released(bool),
}

/// What the engine asks the platform to do next within one reconcile.
#[derive(Debug, PartialEq, Eq)]
pub enum Step {
    /// Upsert the three dependents and patch status and finalizers, all at once.
    Ensure(EnsureRequest),
    /// Delete these dependents, all at once: they landed in a failed ensure pass.
    Compensate(Vec<Dependent>),
    /// Delete all three dependents, all at once.
    Cleanup,
    /// Patch the resource's finalizers to this list.
    Release(Vec<String>),
    /// The reconcile is over, with this result.
    Finish(Result<Action, Error>),
}

pub enum StepView {
    Ensure(EnsureRequestView),
    Compensate(Seq<Dependent>),
    Cleanup,
    Release(Seq<Seq<char>>),
    Finish(Result<Action, Error>),
}

impl View for Step {
    type V = StepView;

    open spec fn view(&self) -> StepView {
        match self {
            Step::Ensure(r) => StepView::Ensure(r@),
            Step::Compensate(d) => StepView::Compensate(d@),
            Step::Cleanup => StepView::Cleanup,
            Step::Release(f) => StepView::Release(texts(f@)),
            Step::Finish(r) => StepView::Finish(*r),
        }
    }
}

pub open spec fn ensure_succeeded(o: EnsureOutcome) -> bool {
    o.deployment && o.service && o.ingress && o.resource
}

pub open spec fn cleanup_succeeded(o: CleanupOutcome) -> bool {
    o.deployment && o.service && o.ingress
}

/// The dependents whose write succeeded, in a fixed order.
pub open spec fn landed(o: EnsureOutcome) -> Seq<Dependent> {
    let a: Seq<Dependent> = if o.deployment { seq![Dependent::Deployment] } else { seq![] };
    let b: Seq<Dependent> = if o.service { a.push(Dependent::Service) } else { a };
    if o.ingress { b.push(Dependent::Ingress) } else { b }
}

/// The first step of a reconcile of `node`.
pub open spec fn start_of(node: HydraDoomNodeView, config: ConfigView, k: K8sConstantsView) -> StepView {
    if node.metadata.deletion_requested {
        if has_token(node.metadata.finalizers) {
            StepView::Cleanup
        } else {
            StepView::Finish(Ok(Action::AwaitChange))
        }
    } else {
        StepView::Ensure(ensure_request_of(node, config, k))
    }
}

/// The step that follows `ev` in a reconcile of `node`.
pub open spec fn next_of(node: HydraDoomNodeView, ev: Event) -> StepView {
    match ev {
        Event::Ensured(o) => {
            if ensure_succeeded(o) {
                StepView::Finish(Ok(Action::AwaitChange))
            } else if landed(o).len() > 0 {
                StepView::Compensate(landed(o))
            } else {
                StepView::Finish(Err(Error::ReconcileError))
            }
        },
        Event::Compensated(_) => StepView::Finish(Err(Error::ReconcileError)),
        Event::CleanedUp(o) => {
            if cleanup_succeeded(o) {
                StepView::Release(without_token(node.metadata.finalizers))
            } else {
                StepView::Finish(Err(Error::ReconcileError))
            }
        },
        Event::Released(ok) => {
            if ok {
                StepView::Finish(Ok(Action::AwaitChange))
            } else {
                StepView::Finish(Err(Error::ReconcileError))
            }
        },
    }
}

/// The dependents whose write succeeded in `o`.
pub fn landed_dependents(o: &EnsureOutcome) -> (r: Vec<Dependent>)
    ensures
        r@ == landed(*o),
{
    let mut r: Vec<Dependent> = Vec::new();
    if o.deployment {
        r.push(Dependent::Deployment);
    }
    if o.service {
        r.push(Dependent::Service);
    }
    if o.ingress {
        r.push(Dependent::Ingress);
    }
    proof {
        assert(r@ =~= landed(*o));
    }
    r
}

/// Opens a reconcile of `crd`: a resource marked for deletion is cleaned up
/// while it still holds the token (and left alone once it does not); any
/// other resource is ensured.
pub fn start(crd: &HydraDoomNode, config: &Config, constants: &K8sConstants) -> (r: Step)
    ensures
        r@ == start_of(crd@, config@, constants@),
{
    if crd.metadata.deletion_requested {
        if holds_token(&crd.metadata.finalizers) {
            Step::Cleanup
        } else {
            Step::Finish(Ok(Action::AwaitChange))
        }
    } else {
        Step::Ensure(ensure_request(crd, config, constants))
    }
}

/// Decides what follows `ev` in a reconcile of `crd`. A failed ensure pass
/// rolls back every dependent that landed and then fails; the token is
/// released only after all three dependents are confirmed deleted.
pub fn next(crd: &HydraDoomNode, ev: Event) -> (r: Step)
    ensures
        r@ == next_of(crd@, ev),
{
    match ev {
        Event::Ensured(o) => {
            if o.deployment && o.service && o.ingress && o.resource {
                Step::Finish(Ok(Action::AwaitChange))
            } else {
                let undo = landed_dependents(&o);
                if undo.len() > 0 {
                    Step::Compensate(undo)
                } else {
                    Step::Finish(Err(Error::ReconcileError))
                }
            }
        },
        Event::Compensated(_) => Step::Finish(Err(Error::ReconcileError)),
        Event::CleanedUp(o) => {
            if o.deployment && o.service && o.ingress {
                Step::Release(remove_token(&crd.metadata.finalizers))
            } else {
                Step::Finish(Err(Error::ReconcileError))
            }
        },
        Event::Released(ok) => {
            if ok {
                Step::Finish(Ok(Action::AwaitChange))
            } else {
                Step::Finish(Err(Error::ReconcileError))
            }
        },
    }
}

/// The platform's record of one node resource and of its dependents.
pub struct ClusterView {
    pub node: HydraDoomNodeView,
    pub deployment: Option<DeploymentView>,
    pub service: Option<ServiceView>,
    pub ingress: Option<IngressView>,
}

/// The record after every write of `req` has been applied. Writes are
/// apply/merge patches addressed by name: each one replaces the object it
/// names, and the resource patch sets status and finalizers.
pub open spec fn apply_ensure(c: ClusterView, req: EnsureRequestView) -> ClusterView {
    ClusterView {
        node: HydraDoomNodeView {
            metadata: ObjectMetaView { finalizers: req.finalizers, ..c.node.metadata },
            status: Some(req.status),
            ..c.node
        },
        deployment: Some(req.deployment),
        service: Some(req.service),
        ingress: Some(req.ingress),
    }
}

/// Once an ensure pass has been applied in full, the next reconcile of the
/// resource asks for exactly the same writes, and applying them again changes
/// nothing.
pub proof fn lemma_ensure_idempotent(c: ClusterView, config: ConfigView, k: K8sConstantsView)
    ensures
        ({
            let req = ensure_request_of(c.node, config, k);
            let once = apply_ensure(c, req);
            &&& ensure_request_of(once.node, config, k) == req
            &&& apply_ensure(once, ensure_request_of(once.node, config, k)) == once
        }),
{
    let fs = c.node.metadata.finalizers;
    lemma_with_token_holds(fs);
    assert(with_token(with_token(fs)) == with_token(fs));
}

/// Adding the token leaves a list that holds it.
pub proof fn lemma_with_token_holds(fs: Seq<Seq<char>>)
    ensures
        has_token(with_token(fs)),
{
    if !has_token(fs) {
        assert(with_token(fs)[fs.len() as int] == HYDRA_DOOM_NODE_FINALIZER@);
    }
}

/// Dependents present after the writes of an ensure pass, starting from `before`.
pub open spec fn present_after_ensure(before: Set<Dependent>, o: EnsureOutcome) -> Set<Dependent> {
    before.union(landed(o).to_set())
}

/// Dependents present after the given deletes all succeed.
pub open spec fn present_after_deletes(s: Set<Dependent>, deleted: Seq<Dependent>) -> Set<Dependent> {
    s.difference(deleted.to_set())
}

/// When any write of an ensure pass fails, the reconcile fails, and once its
/// compensating deletes succeed none of the dependents that the pass wrote
/// remain: on a first reconcile, no dependent at all remains.
pub proof fn lemma_rollback_complete(
    node: HydraDoomNodeView,
    before: Set<Dependent>,
    o: EnsureOutcome,
    compensated: bool,
)
    requires
        !ensure_succeeded(o),
    ensures
        next_of(node, Event::Compensated(compensated)) == StepView::Finish(Err(Error::ReconcileError)),
        ({
            let after = present_after_ensure(before, o);
            match next_of(node, Event::Ensured(o)) {
                StepView::Compensate(undo) => {
                    &&& present_after_deletes(after, undo) == before.difference(landed(o).to_set())
                    &&& (before.is_empty() ==> present_after_deletes(after, undo).is_empty())
                },
                StepView::Finish(r) => {
                    &&& r == Err::<Action, Error>(Error::ReconcileError)
                    &&& after == before
                },
                _ => false,
            }
        }),
{
    let after = present_after_ensure(before, o);
    let l = landed(o);
    if l.len() > 0 {
        assert(present_after_deletes(after, l) =~= before.difference(l.to_set()));
    } else {
        assert(l.to_set() =~= Set::<Dependent>::empty());
        assert(after =~= before);
    }
}

/// Whether `ev` reports a cleanup pass in which all three deletes succeeded.
pub open spec fn confirms_cleanup(ev: Event) -> bool {
    match ev {
        Event::CleanedUp(o) => cleanup_succeeded(o),
        _ => false,
    }
}

/// A resource marked for deletion that holds the token keeps it until every
/// dependent is confirmed deleted: the reconcile starts with the cleanup, and
/// the only step that drops the token is the release that follows a fully
/// successful cleanup. An ensure pass never drops it.
pub proof fn lemma_token_guards_deletion(
    node: HydraDoomNodeView,
    config: ConfigView,
    k: K8sConstantsView,
    ev: Event,
)
    requires
        node.metadata.deletion_requested,
        has_token(node.metadata.finalizers),
    ensures
        start_of(node, config, k) == StepView::Cleanup,
        has_token(ensure_request_of(node, config, k).finalizers),
        match next_of(node, ev) {
            StepView::Release(fs) => confirms_cleanup(ev) && !has_token(fs),
            StepView::Ensure(_) => false,
            _ => true,
        },
{
    lemma_with_token_holds(node.metadata.finalizers);
    let fs = node.metadata.finalizers;
    let pred = |f: Seq<char>| f != HYDRA_DOOM_NODE_FINALIZER@;
    if has_token(without_token(fs)) {
        let i = choose|i: int| 0 <= i < without_token(fs).len() && without_token(fs)[i] == HYDRA_DOOM_NODE_FINALIZER@;
        fs.lemma_filter_pred(pred, i);
    }
}

} // verus!
