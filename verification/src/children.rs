//! The child resources an Ephemeron materializes: workload pod,
//! cluster-internal service, and ingress route, modelled as plain values.
//!
//! Builders construct each child exactly as the reconciler submits it to the
//! orchestrator: named after the Ephemeron, placed in the fixed namespace,
//! labelled with the common labels, and owned by the Ephemeron through a
//! controlling owner reference so that deletion cascades.
use vstd::prelude::*;

use crate::resource::clone_opt_string;
use crate::resource::clone_string_pairs;
use crate::resource::clone_strings;
use crate::resource::clone_env_vars;
use crate::resource::ComputeResources;
use crate::resource::EnvVar;
use crate::resource::Ephemeron;
use crate::resource::EphemeronView;
use crate::text::join_dot;
use crate::text::str_eq;

verus! {

/// An owner reference from a child back to its Ephemeron.
#[derive(Debug, Clone, PartialEq)]
pub struct OwnerReference {
    /// API version of the owner.
    pub api_version: String,
    /// Kind of the owner.
    pub kind: String,
    /// Name of the owner.
    pub name: String,
    /// Uid of the owner.
    pub uid: String,
    /// Whether this reference is the managing controller.
    pub controller: Option<bool>,
    /// Whether the owner cannot be deleted while the child remains.
    pub block_owner_deletion: Option<bool>,
}

/// Metadata common to every child resource.
#[derive(Debug, Clone, PartialEq)]
pub struct ChildMeta {
    /// Name, always equal to the Ephemeron name.
    pub name: String,
    /// Namespace, always the fixed controller namespace.
    pub namespace: String,
    /// Labels on the child.
    pub labels: Vec<(String, String)>,
    /// Annotations on the child.
    pub annotations: Vec<(String, String)>,
    /// Owner references; exactly one, pointing to the Ephemeron.
    pub owner_references: Vec<OwnerReference>,
}

/// A single container port.
#[derive(Debug, Clone, Copy, PartialEq)]
pub struct ContainerPort {
    /// The port the container listens on.
    pub container_port: i32,
}

/// An HTTP GET action of a probe.
#[derive(Debug, Clone, PartialEq)]
pub struct HttpGetAction {
    /// Path to request.
    pub path: String,
    /// Port to connect to.
    pub port: i32,
}

/// A container probe.
#[derive(Debug, Clone, PartialEq)]
pub struct Probe {
    /// The HTTP GET to perform.
    pub http_get: Option<HttpGetAction>,
    /// Seconds after container start before probes begin.
    pub initial_delay_seconds: Option<i32>,
    /// How often, in seconds, to perform the probe.
    pub period_seconds: Option<i32>,
    /// Seconds after which the probe times out.
    pub timeout_seconds: Option<i32>,
}

/// The single container of the workload pod.
#[derive(Debug, Clone, PartialEq)]
pub struct Container {
    /// Container name.
    pub name: String,
    /// Image to run.
    pub image: Option<String>,
    /// Image pull policy.
    pub image_pull_policy: Option<String>,
    /// Entrypoint; an empty list leaves the image entrypoint in force.
    pub command: Option<Vec<String>>,
    /// Environment variables.
    pub env: Option<Vec<EnvVar>>,
    /// Working directory.
    pub working_dir: Option<String>,
    /// Exposed ports.
    pub ports: Option<Vec<ContainerPort>>,
    /// Readiness probe.
    pub readiness_probe: Option<Probe>,
    /// Compute resources.
    pub resources: Option<ComputeResources>,
}

/// The spec of the workload pod.
#[derive(Debug, Clone, PartialEq)]
pub struct PodSpec {
    /// The containers; exactly one.
    pub containers: Vec<Container>,
    /// Restart policy, always `Always`.
    pub restart_policy: Option<String>,
    /// Whether to inject information about services; always disabled.
    pub enable_service_links: Option<bool>,
}

/// The workload pod.
#[derive(Debug, Clone, PartialEq)]
pub struct Pod {
    /// Standard metadata.
    pub metadata: ChildMeta,
    /// The pod spec.
    pub spec: Option<PodSpec>,
}

/// One observed condition of a pod, as reported by the orchestrator.
#[derive(Debug, Clone, PartialEq)]
pub struct PodCondition {
    /// The condition type, e.g. `Ready`.
    pub type_: String,
    /// The condition status string: `True`, `False` or `Unknown`.
    pub status: String,
}

/// A port of the cluster-internal service.
#[derive(Debug, Clone, Copy, PartialEq)]
pub struct ServicePort {
    /// The port the service exposes.
    pub port: i32,
    /// The target port on the pod.
    pub target_port: Option<i32>,
}

/// The spec of the cluster-internal service.
#[derive(Debug, Clone, PartialEq)]
pub struct ServiceSpec {
    /// Service type, always `ClusterIP`.
    pub type_: Option<String>,
    /// Service ports; exactly one.
    pub ports: Option<Vec<ServicePort>>,
    /// Pod selector.
    pub selector: Vec<(String, String)>,
}

/// The cluster-internal service.
#[derive(Debug, Clone, PartialEq)]
pub struct Service {
    /// Standard metadata.
    pub metadata: ChildMeta,
    /// The service spec.
    pub spec: Option<ServiceSpec>,
}

/// A TLS block of the ingress.
#[derive(Debug, Clone, PartialEq)]
pub struct IngressTls {
    /// Hosts covered by the secret; left unset to delegate to the secret.
    pub hosts: Option<Vec<String>>,
    /// Name of the TLS secret.
    pub secret_name: Option<String>,
}

/// The port of an ingress service backend.
#[derive(Debug, Clone, PartialEq)]
pub struct ServiceBackendPort {
    /// Port number.
    pub number: Option<i32>,
    /// Port name.
    pub name: Option<String>,
}

/// The service an ingress path routes to.
#[derive(Debug, Clone, PartialEq)]
pub struct IngressServiceBackend {
    /// Name of the service.
    pub name: String,
    /// Port of the service.
    pub port: Option<ServiceBackendPort>,
}

/// The backend of an ingress path.
#[derive(Debug, Clone, PartialEq)]
pub struct IngressBackend {
    /// The service backend.
    pub service: Option<IngressServiceBackend>,
}

/// One path of an ingress rule.
#[derive(Debug, Clone, PartialEq)]
pub struct HttpIngressPath {
    /// The matched path.
    pub path: Option<String>,
    /// The path match type.
    pub path_type: Option<String>,
    /// Where matching traffic goes.
    pub backend: IngressBackend,
}

/// The HTTP part of an ingress rule.
#[derive(Debug, Clone, PartialEq)]
pub struct HttpIngressRuleValue {
    /// The paths; exactly one.
    pub paths: Vec<HttpIngressPath>,
}

/// One ingress rule.
#[derive(Debug, Clone, PartialEq)]
pub struct IngressRule {
    /// The external host the rule serves.
    pub host: Option<String>,
    /// The HTTP paths of the rule.
    pub http: Option<HttpIngressRuleValue>,
}

/// The spec of the ingress.
#[derive(Debug, Clone, PartialEq)]
pub struct IngressSpec {
    /// TLS blocks; one when a secret was supplied, else none.
    pub tls: Vec<IngressTls>,
    /// Rules; exactly one.
    pub rules: Vec<IngressRule>,
}

/// The ingress route.
#[derive(Debug, Clone, PartialEq)]
pub struct Ingress {
    /// Standard metadata.
    pub metadata: ChildMeta,
    /// The ingress spec.
    pub spec: Option<IngressSpec>,
}

/// Labels reduced to their character sequences.
pub open spec fn labels_view(l: Seq<(String, String)>) -> Seq<(Seq<char>, Seq<char>)> {
    l.map_values(|kv: (String, String)| (kv.0@, kv.1@))
}

/// Whether a label key is one of the two common label keys every child
/// carries.
pub open spec fn spec_is_common_label_key(k: Seq<char>) -> bool {
    k == "app.kubernetes.io/name"@ || k == "app.kubernetes.io/managed-by"@
}

/// The common labels on a child of the named Ephemeron.
pub open spec fn spec_common_labels(name: Seq<char>) -> Seq<(Seq<char>, Seq<char>)> {
    seq![
        ("app.kubernetes.io/name"@, name),
        ("app.kubernetes.io/managed-by"@, "ephemeron"@),
    ]
}

/// The labels of the workload pod: the caller's labels, minus any that
/// collide with a common key, then the common labels.
pub open spec fn spec_pod_labels(pod_labels: Seq<(String, String)>, name: Seq<char>) -> Seq<
    (Seq<char>, Seq<char>),
> {
    labels_view(pod_labels).filter(|kv: (Seq<char>, Seq<char>)| !spec_is_common_label_key(kv.0))
        + spec_common_labels(name)
}

/// The owner reference points at the Ephemeron, as its managing controller,
/// and blocks owner deletion so children are collected when it goes.
pub open spec fn owner_ref_points_to(o: OwnerReference, e: EphemeronView) -> bool {
    &&& o.api_version@ == "qualified.io/v1alpha1"@
    &&& o.kind@ == "Ephemeron"@
    &&& o.name == e.metadata.name
    &&& e.metadata.uid matches Some(u) && o.uid == u
    &&& o.controller == Some(true)
    &&& o.block_owner_deletion == Some(true)
}

/// Child metadata carries the Ephemeron name, the fixed namespace, and one
/// controlling owner reference.
pub open spec fn child_meta_for(m: ChildMeta, e: EphemeronView) -> bool {
    &&& m.name == e.metadata.name
    &&& m.namespace@ == "default"@
    &&& m.owner_references.len() == 1
    &&& owner_ref_points_to(m.owner_references[0], e)
}

/// The container of the workload pod, field by field.
pub open spec fn container_matches(c: Container, e: EphemeronView) -> bool {
    &&& c.name@ == "container"@
    &&& c.image matches Some(im) && im == e.spec.service.image
    &&& c.image_pull_policy == e.spec.service.image_pull_policy
    &&& c.command matches Some(cmd) && (match e.spec.service.command {
        Some(sc) => cmd@ == sc,
        None => cmd@ == Seq::<String>::empty(),
    })
    &&& (match e.spec.service.env {
        Some(se) => c.env matches Some(ce) && ce@ == se,
        None => c.env is None,
    })
    &&& c.working_dir == e.spec.service.working_dir
    &&& c.ports matches Some(ps) && ps@ == seq![
        ContainerPort { container_port: e.spec.service.port },
    ]
    &&& (match e.spec.service.readiness_probe {
        Some(p) => c.readiness_probe matches Some(cp) && {
            &&& cp.http_get matches Some(hg) && hg.path == p.path && hg.port
                == e.spec.service.port
            &&& cp.initial_delay_seconds == p.initial_delay_seconds
            &&& cp.period_seconds == p.period_seconds
            &&& cp.timeout_seconds == p.timeout_seconds
        },
        None => c.readiness_probe is None,
    })
    &&& (match e.spec.service.resources {
        Some(rv) => c.resources matches Some(cr) && cr@ == rv,
        None => c.resources is None,
    })
}

/// The workload pod the reconciler submits for an Ephemeron.
pub open spec fn pod_built_for(p: Pod, e: EphemeronView) -> bool {
    &&& child_meta_for(p.metadata, e)
    &&& labels_view(p.metadata.labels@) == spec_pod_labels(
        e.spec.service.pod_labels,
        e.metadata.name@,
    )
    &&& p.metadata.annotations@.len() == 0
    &&& p.spec matches Some(ps) && {
        &&& ps.containers@.len() == 1
        &&& container_matches(ps.containers@[0], e)
        &&& ps.restart_policy matches Some(rp) && rp@ == "Always"@
        &&& ps.enable_service_links == Some(false)
    }
}

/// The cluster-internal service the reconciler submits for an Ephemeron.
pub open spec fn service_built_for(s: Service, e: EphemeronView) -> bool {
    &&& child_meta_for(s.metadata, e)
    &&& labels_view(s.metadata.labels@) == spec_common_labels(e.metadata.name@)
    &&& s.metadata.annotations@.len() == 0
    &&& s.spec matches Some(ss) && {
        &&& ss.type_ matches Some(t) && t@ == "ClusterIP"@
        &&& ss.ports matches Some(ps) && ps@ == seq![
            ServicePort {
                port: e.spec.service.port,
                target_port: Some(e.spec.service.port),
            },
        ]
        &&& labels_view(ss.selector@) == seq![("app.kubernetes.io/name"@, e.metadata.name@)]
    }
}

/// The external host an Ephemeron is served on: `<name>.<domain>`.
pub open spec fn spec_host(name: Seq<char>, domain: Seq<char>) -> Seq<char> {
    name + "."@ + domain
}

/// The ingress route the reconciler submits for an Ephemeron: one rule for
/// the external host, routing exactly the prefix `/` to the service, with a
/// TLS block exactly when the caller supplied a secret.
pub open spec fn ingress_built_for(ing: Ingress, e: EphemeronView, domain: Seq<char>) -> bool {
    &&& child_meta_for(ing.metadata, e)
    &&& labels_view(ing.metadata.labels@) == spec_common_labels(e.metadata.name@)
    &&& ing.metadata.annotations@ == e.spec.service.ingress_annotations
    &&& ing.spec matches Some(is_) && {
        &&& (match e.spec.service.tls_secret_name {
            Some(n) => is_.tls@.len() == 1 && is_.tls@[0].hosts is None && (is_.tls@[0].secret_name
                matches Some(sn) && sn == n),
            None => is_.tls@.len() == 0,
        })
        &&& is_.rules@.len() == 1
        &&& is_.rules@[0].host matches Some(h) && h@ == spec_host(e.metadata.name@, domain)
        &&& is_.rules@[0].http matches Some(hv) && {
            &&& hv.paths@.len() == 1
            &&& hv.paths@[0].path matches Some(pp) && pp@ == "/"@
            &&& hv.paths@[0].path_type matches Some(pt) && pt@ == "Prefix"@
            &&& hv.paths@[0].backend.service matches Some(b) && {
                &&& b.name == e.metadata.name
                &&& b.port matches Some(bp) && bp.number == Some(e.spec.service.port) && bp.name
                    is None
            }
        }
    }
}

/// The common labels every child resource carries.
pub fn make_common_labels(name: &str) -> (r: Vec<(String, String)>)
    ensures
        labels_view(r@) == spec_common_labels(name@),
{
    let mut r: Vec<(String, String)> = Vec::new();
    r.push(("app.kubernetes.io/name".to_owned(), name.to_owned()));
    r.push(("app.kubernetes.io/managed-by".to_owned(), "ephemeron".to_owned()));
    proof {
        assert(labels_view(r@) =~= spec_common_labels(name@));
    }
    r
}

/// The controlling owner reference from a child back to its Ephemeron.
pub fn to_owner_reference(eph: &Ephemeron) -> (r: OwnerReference)
    requires
        eph.metadata.uid is Some,
    ensures
        owner_ref_points_to(r, eph@),
{
    let uid = match &eph.metadata.uid {
        Some(u) => u.clone(),
        None => String::new(),
    };
    OwnerReference {
        api_version: "qualified.io/v1alpha1".to_owned(),
        kind: "Ephemeron".to_owned(),
        name: eph.metadata.name.clone(),
        uid,
        controller: Some(true),
        block_owner_deletion: Some(true),
    }
}

/// Child metadata for an Ephemeron, with the given labels and annotations.
fn make_child_meta(eph: &Ephemeron, labels: Vec<(String, String)>, annotations: Vec<(String, String)>) -> (r: ChildMeta)
    requires
        eph.metadata.uid is Some,
    ensures
        child_meta_for(r, eph@),
        r.labels == labels,
        r.annotations == annotations,
{
    let mut owner_references: Vec<OwnerReference> = Vec::new();
    owner_references.push(to_owner_reference(eph));
    ChildMeta {
        name: eph.metadata.name.clone(),
        namespace: "default".to_owned(),
        labels,
        annotations,
        owner_references,
    }
}

/// The pod labels: the caller's labels with any common-key collisions
/// dropped, then the common labels.
fn make_pod_labels(eph: &Ephemeron) -> (r: Vec<(String, String)>)
    ensures
        labels_view(r@) == spec_pod_labels(eph@.spec.service.pod_labels, eph@.metadata.name@),
{
    let src = &eph.spec.service.pod_labels;
    let mut r: Vec<(String, String)> = Vec::new();
    let n: usize = src.len();
    let mut i: usize = 0;
    proof {
        reveal(Seq::filter);
    }
    while i < n
        invariant
            n == src@.len(),
            i <= n,
            labels_view(r@) == labels_view(src@.subrange(0, i as int)).filter(
                |kv: (Seq<char>, Seq<char>)| !spec_is_common_label_key(kv.0),
            ),
        decreases n - i,
    {
        let pair = &src[i];
        let is_common = str_eq(pair.0.as_str(), "app.kubernetes.io/name") || str_eq(
            pair.0.as_str(),
            "app.kubernetes.io/managed-by",
        );
        proof {
            reveal(Seq::filter);
            let pred = |kv: (Seq<char>, Seq<char>)| !spec_is_common_label_key(kv.0);
            let prefix = labels_view(src@.subrange(0, i as int));
            let next = labels_view(src@.subrange(0, i + 1));
            assert(next.drop_last() =~= prefix);
            assert(next.last() == (src@[i as int].0@, src@[i as int].1@));
        }
        if !is_common {
            r.push((pair.0.clone(), pair.1.clone()));
            proof {
                let pred = |kv: (Seq<char>, Seq<char>)| !spec_is_common_label_key(kv.0);
                assert(labels_view(r@) =~= labels_view(src@.subrange(0, i + 1)).filter(pred));
            }
        } else {
            proof {
                let pred = |kv: (Seq<char>, Seq<char>)| !spec_is_common_label_key(kv.0);
                assert(labels_view(r@) =~= labels_view(src@.subrange(0, i + 1)).filter(pred));
            }
        }
        i = i + 1;
    }
    let mut common = make_common_labels(eph.metadata.name.as_str());
    let ghost filtered_part = labels_view(r@);
    r.append(&mut common);
    proof {
        assert(src@.subrange(0, n as int) =~= src@);
        assert(labels_view(r@) =~= spec_pod_labels(
            eph@.spec.service.pod_labels,
            eph@.metadata.name@,
        ));
    }
    r
}

/// Build the workload pod for an Ephemeron.
pub fn build_pod(eph: &Ephemeron) -> (r: Pod)
    requires
        eph.metadata.uid is Some,
        eph@.spec.service.wf(),
    ensures
        pod_built_for(r, eph@),
{
    let svc = &eph.spec.service;
    let command: Vec<String> = match &svc.command {
        Some(c) => clone_strings(c),
        None => Vec::new(),
    };
    let env: Option<Vec<EnvVar>> = match &svc.env {
        Some(e) => Some(clone_env_vars(e)),
        None => None,
    };
    let mut ports: Vec<ContainerPort> = Vec::new();
    ports.push(ContainerPort { container_port: svc.port });
    let readiness_probe: Option<Probe> = match &svc.readiness_probe {
        Some(p) => Some(
            Probe {
                http_get: Some(HttpGetAction { path: p.path.clone(), port: svc.port }),
                initial_delay_seconds: p.initial_delay_seconds,
                period_seconds: p.period_seconds,
                timeout_seconds: p.timeout_seconds,
            },
        ),
        None => None,
    };
    let resources: Option<ComputeResources> = match &svc.resources {
        Some(res) => Some(res.clone()),
        None => None,
    };
    let container = Container {
        name: "container".to_owned(),
        image: Some(svc.image.clone()),
        image_pull_policy: clone_opt_string(&svc.image_pull_policy),
        command: Some(command),
        env,
        working_dir: clone_opt_string(&svc.working_dir),
        ports: Some(ports),
        readiness_probe,
        resources,
    };
    let mut containers: Vec<Container> = Vec::new();
    containers.push(container);
    let labels = make_pod_labels(eph);
    let metadata = make_child_meta(eph, labels, Vec::new());
    let r = Pod {
        metadata,
        spec: Some(
            PodSpec {
                containers,
                restart_policy: Some("Always".to_owned()),
                enable_service_links: Some(false),
            },
        ),
    };
    proof {
        assert(r.spec->Some_0.containers@ =~= seq![container]);
        assert(r.spec->Some_0.containers@[0].ports->Some_0@ =~= seq![
            ContainerPort { container_port: eph@.spec.service.port },
        ]);
        match eph@.spec.service.command {
            Some(sc) => {
                assert(r.spec->Some_0.containers@[0].command->Some_0@ =~= sc);
            },
            None => {
                assert(r.spec->Some_0.containers@[0].command->Some_0@
                    =~= Seq::<String>::empty());
            },
        }
    }
    r
}

/// Whether an observed pod reports its own `Ready` condition as `True`.
pub fn pod_is_ready(conditions: &Vec<PodCondition>) -> (r: bool)
    ensures
        r == exists|i: int|
            0 <= i < conditions@.len() && (#[trigger] conditions@[i]).type_@ == "Ready"@
                && conditions@[i].status@ == "True"@,
{
    let n: usize = conditions.len();
    let mut i: usize = 0;
    while i < n
        invariant
            n == conditions@.len(),
            i <= n,
            forall|j: int|
                0 <= j < i ==> !((#[trigger] conditions@[j]).type_@ == "Ready"@
                    && conditions@[j].status@ == "True"@),
        decreases n - i,
    {
        let c = &conditions[i];
        if str_eq(c.type_.as_str(), "Ready") && str_eq(c.status.as_str(), "True") {
            return true;
        }
        i = i + 1;
    }
    false
}

/// One subset of an endpoints object: the addresses known to be ready.
#[derive(Debug, Clone, PartialEq)]
pub struct EndpointSubset {
    /// Ready addresses, if any were reported.
    pub addresses: Option<Vec<String>>,
}

/// Whether any endpoints subset carries a non-empty ready address list.
pub fn endpoints_has_ready(subsets: &Vec<EndpointSubset>) -> (r: bool)
    ensures
        r == exists|i: int|
            0 <= i < subsets@.len() && ((#[trigger] subsets@[i]).addresses matches Some(a)
                && a@.len() > 0),
{
    let n: usize = subsets.len();
    let mut i: usize = 0;
    while i < n
        invariant
            n == subsets@.len(),
            i <= n,
            forall|j: int|
                0 <= j < i ==> !((#[trigger] subsets@[j]).addresses matches Some(a) && a@.len()
                    > 0),
        decreases n - i,
    {
        let nonempty: bool = match &subsets[i].addresses {
            Some(a) => a.len() > 0,
            None => false,
        };
        if nonempty {
            return true;
        }
        i = i + 1;
    }
    false
}

/// Build the cluster-internal service for an Ephemeron.
pub fn build_service(eph: &Ephemeron) -> (r: Service)
    requires
        eph.metadata.uid is Some,
        eph@.spec.service.wf(),
    ensures
        service_built_for(r, eph@),
{
    let mut ports: Vec<ServicePort> = Vec::new();
    ports.push(ServicePort { port: eph.spec.service.port, target_port: Some(eph.spec.service.port) });
    let mut selector: Vec<(String, String)> = Vec::new();
    selector.push(("app.kubernetes.io/name".to_owned(), eph.metadata.name.clone()));
    let labels = make_common_labels(eph.metadata.name.as_str());
    let metadata = make_child_meta(eph, labels, Vec::new());
    let r = Service {
        metadata,
        spec: Some(
            ServiceSpec { type_: Some("ClusterIP".to_owned()), ports: Some(ports), selector },
        ),
    };
    proof {
        assert(r.spec->Some_0.ports->Some_0@ =~= seq![
            ServicePort {
                port: eph@.spec.service.port,
                target_port: Some(eph@.spec.service.port),
            },
        ]);
        assert(labels_view(r.spec->Some_0.selector@) =~= seq![
            ("app.kubernetes.io/name"@, eph@.metadata.name@),
        ]);
    }
    r
}

/// The external host an Ephemeron is served on.
pub fn host_for(name: &str, domain: &str) -> (r: String)
    ensures
        r@ == spec_host(name@, domain@),
{
    join_dot(name, domain)
}

/// Build the ingress route for an Ephemeron under the given domain.
pub fn build_ingress(eph: &Ephemeron, domain: &str) -> (r: Ingress)
    requires
        eph.metadata.uid is Some,
        eph@.spec.service.wf(),
    ensures
        ingress_built_for(r, eph@, domain@),
{
    let mut tls: Vec<IngressTls> = Vec::new();
    match &eph.spec.service.tls_secret_name {
        Some(n) => {
            tls.push(IngressTls { hosts: None, secret_name: Some(n.clone()) });
        },
        None => {},
    }
    let backend = IngressBackend {
        service: Some(
            IngressServiceBackend {
                name: eph.metadata.name.clone(),
                port: Some(ServiceBackendPort { number: Some(eph.spec.service.port), name: None }),
            },
        ),
    };
    let mut paths: Vec<HttpIngressPath> = Vec::new();
    paths.push(
        HttpIngressPath {
            path: Some("/".to_owned()),
            path_type: Some("Prefix".to_owned()),
            backend,
        },
    );
    let mut rules: Vec<IngressRule> = Vec::new();
    rules.push(
        IngressRule {
            host: Some(host_for(eph.metadata.name.as_str(), domain)),
            http: Some(HttpIngressRuleValue { paths }),
        },
    );
    let labels = make_common_labels(eph.metadata.name.as_str());
    let annotations = clone_string_pairs(&eph.spec.service.ingress_annotations);
    let metadata = make_child_meta(eph, labels, annotations);
    let r = Ingress { metadata, spec: Some(IngressSpec { tls, rules }) };
    r
}

} // verus!
