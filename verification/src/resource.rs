//! The Ephemeron custom resource, modelled as plain values.
//!
//! An Ephemeron is cluster-scoped; its spec holds an absolute expiration
//! instant (seconds since the Unix epoch) and the workload descriptor, its
//! status a list of typed conditions keyed by type. The two
//! controller-managed annotations, `created-by` and `host`, are carried as
//! fields of the metadata model. The process boundary converts between this
//! model and the orchestrator's own object types.
//!
//! Each type with list-valued fields gets a mathematical view (`@`) whose
//! lists are sequences; contracts and lemmas speak of those views.
use vstd::prelude::*;

use crate::text::str_eq;

verus! {

/// An environment variable for the workload container: name and value only,
/// no indirect sources.
#[derive(Debug, PartialEq)]
pub struct EnvVar {
    /// Name of the environment variable.
    pub name: String,
    /// Value of the environment variable. Defaults to "".
    pub value: Option<String>,
}

impl Clone for EnvVar {
    fn clone(&self) -> (res: Self)
        ensures
            res == *self,
    {
        EnvVar { name: self.name.clone(), value: clone_opt_string(&self.value) }
    }
}

/// An HTTP GET readiness probe.
#[derive(Debug, PartialEq)]
pub struct HttpGetProbe {
    /// Path to make a request to.
    pub path: String,
    /// Seconds after container start before probes begin.
    pub initial_delay_seconds: Option<i32>,
    /// How often, in seconds, to perform the probe.
    pub period_seconds: Option<i32>,
    /// Seconds after which the probe times out.
    pub timeout_seconds: Option<i32>,
}

impl Clone for HttpGetProbe {
    fn clone(&self) -> (res: Self)
        ensures
            res == *self,
    {
        HttpGetProbe {
            path: self.path.clone(),
            initial_delay_seconds: self.initial_delay_seconds,
            period_seconds: self.period_seconds,
            timeout_seconds: self.timeout_seconds,
        }
    }
}

/// Compute resources requested for the workload container. Quantities are
/// kept as the opaque strings the orchestrator takes on the wire.
#[derive(Debug, PartialEq)]
pub struct ComputeResources {
    /// Maximum amount of each named resource.
    pub limits: Vec<(String, String)>,
    /// Minimum amount of each named resource.
    pub requests: Vec<(String, String)>,
}

impl View for ComputeResources {
    type V = (Seq<(String, String)>, Seq<(String, String)>);

    open spec fn view(&self) -> (Seq<(String, String)>, Seq<(String, String)>) {
        (self.limits@, self.requests@)
    }
}

impl Clone for ComputeResources {
    fn clone(&self) -> (res: Self)
        ensures
            res@ == self@,
    {
        let res = ComputeResources {
            limits: clone_string_pairs(&self.limits),
            requests: clone_string_pairs(&self.requests),
        };
        res
    }
}

/// Copy a list of string pairs.
pub fn clone_string_pairs(v: &Vec<(String, String)>) -> (r: Vec<(String, String)>)
    ensures
        r@ == v@,
{
    let mut r: Vec<(String, String)> = Vec::new();
    let n: usize = v.len();
    let mut i: usize = 0;
    while i < n
        invariant
            n == v@.len(),
            i <= n,
            r@ == v@.subrange(0, i as int),
        decreases n - i,
    {
        let pair = &v[i];
        r.push((pair.0.clone(), pair.1.clone()));
        proof {
            assert(r@ =~= v@.subrange(0, i + 1));
        }
        i = i + 1;
    }
    proof {
        assert(r@ =~= v@);
    }
    r
}

/// Copy a list of strings.
pub fn clone_strings(v: &Vec<String>) -> (r: Vec<String>)
    ensures
        r@ == v@,
{
    let mut r: Vec<String> = Vec::new();
    let n: usize = v.len();
    let mut i: usize = 0;
    while i < n
        invariant
            n == v@.len(),
            i <= n,
            r@ == v@.subrange(0, i as int),
        decreases n - i,
    {
        r.push(v[i].clone());
        proof {
            assert(r@ =~= v@.subrange(0, i + 1));
        }
        i = i + 1;
    }
    proof {
        assert(r@ =~= v@);
    }
    r
}

/// Copy a list of environment variables.
pub fn clone_env_vars(v: &Vec<EnvVar>) -> (r: Vec<EnvVar>)
    ensures
        r@ == v@,
{
    let mut r: Vec<EnvVar> = Vec::new();
    let n: usize = v.len();
    let mut i: usize = 0;
    while i < n
        invariant
            n == v@.len(),
            i <= n,
            r@ == v@.subrange(0, i as int),
        decreases n - i,
    {
        r.push(v[i].clone());
        proof {
            assert(r@ =~= v@.subrange(0, i + 1));
        }
        i = i + 1;
    }
    proof {
        assert(r@ =~= v@);
    }
    r
}

/// Copy an optional string.
pub fn clone_opt_string(v: &Option<String>) -> (r: Option<String>)
    ensures
        r == *v,
{
    match v {
        Some(s) => Some(s.clone()),
        None => None,
    }
}

/// The keys of an association list are pairwise distinct, as they are in
/// the maps these lists stand for.
pub open spec fn keys_unique<T>(entries: Seq<(String, T)>) -> bool {
    forall|i: int, j: int|
        0 <= i < j < entries.len() ==> (#[trigger] entries[i]).0@ != (#[trigger] entries[j]).0@
}

/// Decide whether an association list's keys are pairwise distinct.
pub fn keys_distinct<T>(entries: &Vec<(String, T)>) -> (r: bool)
    ensures
        r == keys_unique(entries@),
{
    let n: usize = entries.len();
    let mut i: usize = 0;
    while i < n
        invariant
            n == entries@.len(),
            i <= n,
            forall|a: int, b: int|
                0 <= a < b < i ==> (#[trigger] entries@[a]).0@ != (#[trigger] entries@[b]).0@,
        decreases n - i,
    {
        let mut j: usize = 0;
        while j < i
            invariant
                n == entries@.len(),
                i < n,
                j <= i,
                forall|a: int, b: int|
                    0 <= a < b < i ==> (#[trigger] entries@[a]).0@ != (#[trigger] entries@[b]).0@,
                forall|a: int| 0 <= a < j ==> (#[trigger] entries@[a]).0@ != entries@[i as int].0@,
            decreases i - j,
        {
            if str_eq(entries[j].0.as_str(), entries[i].0.as_str()) {
                proof {
                    assert(entries@[j as int].0@ == entries@[i as int].0@);
                }
                return false;
            }
            j = j + 1;
        }
        i = i + 1;
    }
    true
}

/// The mathematical value of a workload descriptor: every list a sequence.
pub ghost struct ServiceView {
    /// The image to use.
    pub image: String,
    /// Optionally specify the command to use.
    pub command: Option<Seq<String>>,
    /// The directory to run command in.
    pub working_dir: Option<String>,
    /// The port to use.
    pub port: i32,
    /// The name of the TLS secret.
    pub tls_secret_name: Option<String>,
    /// Ingress annotations.
    pub ingress_annotations: Seq<(String, String)>,
    /// Probe to tell when the service is ready to accept traffic.
    pub readiness_probe: Option<HttpGetProbe>,
    /// Image pull policy.
    pub image_pull_policy: Option<String>,
    /// Compute resources required by the container.
    pub resources: Option<(Seq<(String, String)>, Seq<(String, String)>)>,
    /// List of environment variables to set in the container.
    pub env: Option<Seq<EnvVar>>,
    /// Additional labels to add to the pod.
    pub pod_labels: Seq<(String, String)>,
}

impl ServiceView {
    /// A workload descriptor is well formed: its port is a valid TCP port,
    /// and its pod-label and ingress-annotation lists carry pairwise
    /// distinct keys, as the maps they stand for do.
    pub open spec fn wf(self) -> bool {
        &&& port_in_range(self.port as int)
        &&& keys_unique(self.pod_labels)
        &&& keys_unique(self.ingress_annotations)
    }
}

/// The workload descriptor of an Ephemeron.
#[derive(Debug, PartialEq)]
pub struct EphemeronService {
    /// The image to use.
    pub image: String,
    /// Optionally specify the command to use.
    pub command: Option<Vec<String>>,
    /// The directory to run command in.
    pub working_dir: Option<String>,
    /// The port to use.
    pub port: i32,
    /// The name of the TLS secret.
    pub tls_secret_name: Option<String>,
    /// Ingress annotations.
    pub ingress_annotations: Vec<(String, String)>,
    /// Probe to tell when the service is ready to accept traffic.
    pub readiness_probe: Option<HttpGetProbe>,
    /// Image pull policy. One of Always, Never, IfNotPresent.
    pub image_pull_policy: Option<String>,
    /// Compute resources required by the container.
    pub resources: Option<ComputeResources>,
    /// List of environment variables to set in the container.
    pub env: Option<Vec<EnvVar>>,
    /// Additional labels to add to the pod.
    pub pod_labels: Vec<(String, String)>,
}

impl View for EphemeronService {
    type V = ServiceView;

    open spec fn view(&self) -> ServiceView {
        ServiceView {
            image: self.image,
            command: match self.command {
                Some(c) => Some(c@),
                None => None,
            },
            working_dir: self.working_dir,
            port: self.port,
            tls_secret_name: self.tls_secret_name,
            ingress_annotations: self.ingress_annotations@,
            readiness_probe: self.readiness_probe,
            image_pull_policy: self.image_pull_policy,
            resources: match self.resources {
                Some(r) => Some(r@),
                None => None,
            },
            env: match self.env {
                Some(e) => Some(e@),
                None => None,
            },
            pod_labels: self.pod_labels@,
        }
    }
}

impl Clone for EphemeronService {
    fn clone(&self) -> (res: Self)
        ensures
            res@ == self@,
    {
        let res = EphemeronService {
            image: self.image.clone(),
            command: match &self.command {
                Some(c) => Some(clone_strings(c)),
                None => None,
            },
            working_dir: clone_opt_string(&self.working_dir),
            port: self.port,
            tls_secret_name: clone_opt_string(&self.tls_secret_name),
            ingress_annotations: clone_string_pairs(&self.ingress_annotations),
            readiness_probe: match &self.readiness_probe {
                Some(p) => Some(p.clone()),
                None => None,
            },
            image_pull_policy: clone_opt_string(&self.image_pull_policy),
            resources: match &self.resources {
                Some(r) => Some(r.clone()),
                None => None,
            },
            env: match &self.env {
                Some(e) => Some(clone_env_vars(e)),
                None => None,
            },
            pod_labels: clone_string_pairs(&self.pod_labels),
        };
        res
    }
}

/// The port field is constrained by schema to a valid TCP port.
pub open spec fn port_in_range(port: int) -> bool {
    1 <= port <= 65535
}

impl EphemeronService {
    /// A service descriptor is well formed when its view is.
    pub open spec fn wf(self) -> bool {
        self@.wf()
    }

    /// Decide whether a port passes the schema bound on `port`.
    pub fn port_allowed(port: i32) -> (r: bool)
        ensures
            r == port_in_range(port as int),
    {
        1 <= port && port <= 65535
    }

    /// Decide whether this descriptor is well formed.
    pub fn is_wf(&self) -> (r: bool)
        ensures
            r == self.wf(),
    {
        Self::port_allowed(self.port) && keys_distinct(&self.pod_labels) && keys_distinct(
            &self.ingress_annotations,
        )
    }
}

/// The mathematical value of an Ephemeron spec.
pub ghost struct EphemeronSpecView {
    /// The instant to kill this service at, in seconds since the Unix epoch.
    pub expiration_time: i64,
    /// The service to create.
    pub service: ServiceView,
}

/// The spec of an Ephemeron: when to kill the service, and what to run.
#[derive(Debug, PartialEq)]
pub struct EphemeronSpec {
    /// The instant to kill this service at, in seconds since the Unix epoch.
    pub expiration_time: i64,
    /// The service to create.
    pub service: EphemeronService,
}

impl View for EphemeronSpec {
    type V = EphemeronSpecView;

    open spec fn view(&self) -> EphemeronSpecView {
        EphemeronSpecView { expiration_time: self.expiration_time, service: self.service@ }
    }
}

impl Clone for EphemeronSpec {
    fn clone(&self) -> (res: Self)
        ensures
            res@ == self@,
    {
        let res = EphemeronSpec {
            expiration_time: self.expiration_time,
            service: self.service.clone(),
        };
        res
    }
}

/// A typed status condition. The two types are the only ones that exist;
/// `status` is tri-state, with `None` standing for `Unknown` on the wire.
#[derive(Debug, Clone, Copy, PartialEq)]
pub enum EphemeronCondition {
    /// Tracks the workload pod's own `Ready` condition.
    PodReady {
        /// Status of the condition.
        status: Option<bool>,
        /// Last time the condition transitioned, seconds since the epoch.
        last_transition_time: i64,
    },
    /// True only once the endpoints are ready and an external probe of the
    /// ingress host succeeded.
    Available {
        /// Status of the condition.
        status: Option<bool>,
        /// Last time the condition transitioned, seconds since the epoch.
        last_transition_time: i64,
    },
}

impl EphemeronCondition {
    /// Whether this condition is of the `PodReady` type.
    pub open spec fn is_pod_ready_kind(self) -> bool {
        self matches EphemeronCondition::PodReady { .. }
    }

    /// The tri-state status carried by the condition.
    pub open spec fn spec_status(self) -> Option<bool> {
        match self {
            EphemeronCondition::PodReady { status, .. } => status,
            EphemeronCondition::Available { status, .. } => status,
        }
    }

    /// The field-manager identity that owns this condition under server-side
    /// apply. One manager per condition type, so writers never conflict.
    pub open spec fn spec_manager(self) -> Seq<char> {
        if self.is_pod_ready_kind() {
            "ephemeron-podready"@
        } else {
            "ephemeron-available"@
        }
    }

    /// The field-manager name to write this condition under.
    pub fn manager(&self) -> (r: &'static str)
        ensures
            r@ == self.spec_manager(),
    {
        match self {
            EphemeronCondition::PodReady { .. } => "ephemeron-podready",
            EphemeronCondition::Available { .. } => "ephemeron-available",
        }
    }

    /// A fresh `PodReady` condition transitioning at the given instant.
    pub fn pod_ready(status: Option<bool>, last_transition_time: i64) -> (r: Self)
        ensures
            r == (EphemeronCondition::PodReady { status, last_transition_time }),
    {
        EphemeronCondition::PodReady { status, last_transition_time }
    }

    /// A fresh `Available` condition transitioning at the given instant.
    pub fn available(status: Option<bool>, last_transition_time: i64) -> (r: Self)
        ensures
            r == (EphemeronCondition::Available { status, last_transition_time }),
    {
        EphemeronCondition::Available { status, last_transition_time }
    }
}

/// The mathematical value of a status subresource.
pub ghost struct StatusView {
    /// Typed conditions, uniquely keyed by type on the wire.
    pub conditions: Seq<EphemeronCondition>,
    /// The last reconciled generation.
    pub observed_generation: Option<i64>,
}

impl StatusView {
    /// A `PodReady` condition with status `True` is recorded.
    pub open spec fn pod_ready(self) -> bool {
        exists|i: int|
            0 <= i < self.conditions.len() && (#[trigger] self.conditions[i]) matches (
            EphemeronCondition::PodReady { status: Some(true), .. })
    }

    /// An `Available` condition with status `True` is recorded.
    pub open spec fn available(self) -> bool {
        exists|i: int|
            0 <= i < self.conditions.len() && (#[trigger] self.conditions[i]) matches (
            EphemeronCondition::Available { status: Some(true), .. })
    }
}

/// The status subresource of an Ephemeron.
#[derive(Debug, PartialEq)]
pub struct EphemeronStatus {
    /// Typed conditions, uniquely keyed by type on the wire.
    pub conditions: Vec<EphemeronCondition>,
    /// The last reconciled generation.
    pub observed_generation: Option<i64>,
}

impl View for EphemeronStatus {
    type V = StatusView;

    open spec fn view(&self) -> StatusView {
        StatusView { conditions: self.conditions@, observed_generation: self.observed_generation }
    }
}

impl Clone for EphemeronStatus {
    fn clone(&self) -> (res: Self)
        ensures
            res@ == self@,
    {
        let mut conditions: Vec<EphemeronCondition> = Vec::new();
        let n: usize = self.conditions.len();
        let mut i: usize = 0;
        while i < n
            invariant
                n == self.conditions@.len(),
                i <= n,
                conditions@ == self.conditions@.subrange(0, i as int),
            decreases n - i,
        {
            conditions.push(self.conditions[i]);
            proof {
                assert(conditions@ =~= self.conditions@.subrange(0, i + 1));
            }
            i = i + 1;
        }
        proof {
            assert(conditions@ =~= self.conditions@);
        }
        EphemeronStatus { conditions, observed_generation: self.observed_generation }
    }
}

/// The metadata the operator reads and writes: the generated name, the
/// server-assigned uid and generation, and the two controller-managed
/// annotations.
#[derive(Debug, PartialEq)]
pub struct EphemeronMeta {
    /// The opaque unique id generated at creation; also the name of every
    /// child resource.
    pub name: String,
    /// The uid the orchestrator assigned to the object, once stored.
    pub uid: Option<String>,
    /// The spec generation, maintained by the orchestrator.
    pub generation: Option<i64>,
    /// The token subject that created the Ephemeron; never mutated after
    /// creation.
    pub created_by: Option<String>,
    /// The externally resolvable hostname, present exactly while the service
    /// has been verified reachable.
    pub host: Option<String>,
}

impl Clone for EphemeronMeta {
    fn clone(&self) -> (res: Self)
        ensures
            res == *self,
    {
        EphemeronMeta {
            name: self.name.clone(),
            uid: clone_opt_string(&self.uid),
            generation: self.generation,
            created_by: clone_opt_string(&self.created_by),
            host: clone_opt_string(&self.host),
        }
    }
}

/// The mathematical value of an Ephemeron.
pub ghost struct EphemeronView {
    /// Identity and controller-managed annotations.
    pub metadata: EphemeronMeta,
    /// The expiration instant and workload descriptor.
    pub spec: EphemeronSpecView,
    /// Present once the first reconcile has initialized the conditions.
    pub status: Option<StatusView>,
}

impl EphemeronView {
    /// The Ephemeron is ready: a `PodReady` condition with status `True` is
    /// recorded.
    pub open spec fn pod_ready(self) -> bool {
        self.status matches Some(s) && s.pod_ready()
    }

    /// The Ephemeron is available: an `Available` condition with status
    /// `True` is recorded.
    pub open spec fn available(self) -> bool {
        self.status matches Some(s) && s.available()
    }

    /// Availability is reported exactly while a host is annotated.
    pub open spec fn host_tracks_available(self) -> bool {
        (self.metadata.host is Some) <==> self.available()
    }
}

/// The Ephemeron custom resource.
#[derive(Debug, PartialEq)]
pub struct Ephemeron {
    /// Identity and controller-managed annotations.
    pub metadata: EphemeronMeta,
    /// The immutable workload descriptor and the mutable expiration instant.
    pub spec: EphemeronSpec,
    /// Present once the first reconcile has initialized the conditions.
    pub status: Option<EphemeronStatus>,
}

impl View for Ephemeron {
    type V = EphemeronView;

    open spec fn view(&self) -> EphemeronView {
        EphemeronView {
            metadata: self.metadata,
            spec: self.spec@,
            status: match self.status {
                Some(s) => Some(s@),
                None => None,
            },
        }
    }
}

impl Clone for Ephemeron {
    fn clone(&self) -> (res: Self)
        ensures
            res@ == self@,
    {
        let res = Ephemeron {
            metadata: self.metadata.clone(),
            spec: self.spec.clone(),
            status: match &self.status {
                Some(s) => Some(s.clone()),
                None => None,
            },
        };
        res
    }
}

impl Ephemeron {
    /// Whether a `PodReady` condition with status `True` is recorded.
    pub fn is_pod_ready(&self) -> (r: bool)
        ensures
            r == self@.pod_ready(),
    {
        match &self.status {
            None => false,
            Some(s) => {
                let n: usize = s.conditions.len();
                let mut i: usize = 0;
                while i < n
                    invariant
                        self@.status == Some(s@),
                        n == s.conditions@.len(),
                        i <= n,
                        forall|j: int| 0 <= j < i ==> !((#[trigger] s.conditions@[j]) matches (
                        EphemeronCondition::PodReady { status: Some(true), .. })),
                    decreases n - i,
                {
                    let c: EphemeronCondition = s.conditions[i];
                    let hit: bool = match c {
                        EphemeronCondition::PodReady { status: Some(true), .. } => true,
                        _ => false,
                    };
                    if hit {
                        proof {
                            assert(s@.conditions[i as int] matches (
                            EphemeronCondition::PodReady { status: Some(true), .. }));
                            assert(s@.pod_ready());
                        }
                        return true;
                    }
                    i = i + 1;
                }
                false
            },
        }
    }

    /// Whether an `Available` condition with status `True` is recorded.
    pub fn is_available(&self) -> (r: bool)
        ensures
            r == self@.available(),
    {
        match &self.status {
            None => false,
            Some(s) => {
                let n: usize = s.conditions.len();
                let mut i: usize = 0;
                while i < n
                    invariant
                        self@.status == Some(s@),
                        n == s.conditions@.len(),
                        i <= n,
                        forall|j: int| 0 <= j < i ==> !((#[trigger] s.conditions@[j]) matches (
                        EphemeronCondition::Available { status: Some(true), .. })),
                    decreases n - i,
                {
                    let c: EphemeronCondition = s.conditions[i];
                    let hit: bool = match c {
                        EphemeronCondition::Available { status: Some(true), .. } => true,
                        _ => false,
                    };
                    if hit {
                        proof {
                            assert(s@.conditions[i as int] matches (
                            EphemeronCondition::Available { status: Some(true), .. }));
                            assert(s@.available());
                        }
                        return true;
                    }
                    i = i + 1;
                }
                false
            },
        }
    }

    /// Whether the caller supplied a TLS secret for the ingress.
    pub fn has_tls(&self) -> (r: bool)
        ensures
            r == (self@.spec.service.tls_secret_name is Some),
    {
        self.spec.service.tls_secret_name.is_some()
    }
}


} // verus!
