//! The reconciliation engine, as a pure decision function.
//!
//! Each call of the surrounding reconcile loop gathers what the orchestrator
//! currently reports about an Ephemeron's children — the observation — and
//! asks `reconcile_step` what to do. The step is one of: initialize status,
//! delete the expired resource, write a condition, submit a child, probe the
//! external host, annotate the host, or wait. The loop performs the step's
//! I/O and comes back on the next watch event or requeue.
//!
//! Status conditions are written with server-side apply, one field manager
//! per condition type; `with_condition` models that merge, and the lemmas at
//! the end state the invariants the writers maintain.
use vstd::prelude::*;

use crate::children::Ingress;
use crate::children::Pod;
use crate::children::Service;
use crate::children::build_ingress;
use crate::children::build_pod;
use crate::children::build_service;
use crate::children::ingress_built_for;
use crate::children::pod_built_for;
use crate::children::service_built_for;
use crate::children::spec_host;
use crate::children::host_for;
use crate::resource::Ephemeron;
use crate::resource::EphemeronCondition;
use crate::resource::EphemeronMeta;
use crate::resource::EphemeronStatus;
use crate::resource::EphemeronView;
use crate::resource::StatusView;

verus! {

/// What an operation against the orchestrator reported when it failed.
#[derive(Debug, Clone, PartialEq)]
pub enum UpstreamError {
    /// The API server answered with a structured error.
    Api {
        /// The HTTP status code of the answer.
        code: u16,
        /// The message of the answer.
        message: String,
    },
    /// Transport or client failure without a structured answer.
    Other,
}

/// A failure of one sub-reconciler, for the error policy and the log.
#[derive(Debug, Clone, PartialEq)]
pub enum Error {
    /// Deleting the expired Ephemeron failed.
    DeleteExpired(UpstreamError),
    /// Reconciling the workload pod failed.
    ReconcilePod(UpstreamError),
    /// Reconciling the cluster-internal service failed.
    ReconcileService(UpstreamError),
    /// Reconciling the ingress failed.
    ReconcileIngress(UpstreamError),
    /// Reconciling the endpoints failed.
    ReconcileEndpoints(UpstreamError),
    /// Writing a status condition failed.
    UpdateStatus(UpstreamError),
}

/// How the loop should come back: on the next watch event, or after a fixed
/// delay.
#[derive(Debug, Clone, Copy, PartialEq, Eq, Structural)]
pub enum Action {
    /// Wait for the next watch event.
    AwaitChange,
    /// Come back after this many seconds.
    RequeueAfterSecs(u64),
}

/// The error policy: a failed reconciliation waits for the next watch event;
/// there is no implicit backoff.
pub fn error_action(err: &Error) -> (r: Action)
    ensures
        r == Action::AwaitChange,
{
    Action::AwaitChange
}

/// What the orchestrator currently reports about an Ephemeron's children.
#[derive(Debug, Clone, Copy, PartialEq)]
pub struct Observation {
    /// `None` when the pod is absent; otherwise whether its own `Ready`
    /// condition is `True`.
    pub pod_ready: Option<bool>,
    /// Whether the cluster-internal service exists.
    pub service_exists: bool,
    /// Whether the ingress exists.
    pub ingress_exists: bool,
    /// `None` when the endpoints object is absent; otherwise whether some
    /// subset carries a non-empty ready address list.
    pub endpoints_ready: Option<bool>,
}

/// What the reconcile loop is to do next.
#[derive(Debug, Clone, PartialEq)]
pub enum ReconcileStep {
    /// Write both conditions as `Unknown`, then wait for the next event.
    InitStatus,
    /// Delete the Ephemeron with background propagation, then wait.
    DeleteExpired,
    /// Write `PodReady` to the observed value, then wait.
    FixPodReady {
        /// The pod readiness the orchestrator reported.
        ready: bool,
    },
    /// Write `PodReady=False` and `Available=False`, create the pod
    /// (treating an already-exists answer as success), then wait.
    CreatePod {
        /// The pod to submit.
        pod: Pod,
    },
    /// Create the service (already-exists is success), then wait.
    CreateService {
        /// The service to submit.
        service: Service,
    },
    /// Create the ingress (already-exists is success), then wait.
    CreateIngress {
        /// The ingress to submit.
        ingress: Ingress,
    },
    /// Endpoints not materialized yet: come back in two seconds.
    AwaitEndpoints,
    /// Endpoints exist but carry no ready address: come back in one second.
    AwaitReadyAddress,
    /// Endpoints are ready but availability is unconfirmed: GET
    /// `http://<host><path>` out of cluster and hand the outcome to
    /// `probe_step`.
    ProbeHost {
        /// The external host to probe.
        host: String,
        /// The probe path.
        path: String,
    },
    /// Patch the `host` annotation to this value and write `Available` to
    /// whether it is present, then wait.
    SetHost {
        /// The new host annotation; `None` degrades the service.
        host: Option<String>,
    },
    /// Everything is in the desired state: requeue at the expiry instant.
    Converged {
        /// Seconds until the expiration time.
        requeue_secs: u64,
    },
}

/// What the out-of-cluster probe returned.
#[derive(Debug, Clone, Copy, PartialEq)]
pub enum ProbeOutcome {
    /// The GET completed with this HTTP status.
    Status(u16),
    /// The GET failed in transport.
    Unreachable,
}

/// The Ephemeron has an initialized status and has not yet expired.
pub open spec fn live(e: EphemeronView, now: i64) -> bool {
    e.status is Some && now < e.spec.expiration_time
}

/// The recorded `PodReady` condition agrees with the observed pod.
pub open spec fn pod_settled(e: EphemeronView, obs: Observation) -> bool {
    obs.pod_ready == Some(e.pod_ready())
}

/// Pod, service and ingress are all settled.
pub open spec fn children_settled(e: EphemeronView, obs: Observation) -> bool {
    pod_settled(e, obs) && obs.service_exists && obs.ingress_exists
}

/// The guard under which a reconciliation converges: everything settled,
/// endpoints ready, availability confirmed.
pub open spec fn converged_guard(e: EphemeronView, now: i64, obs: Observation) -> bool {
    live(e, now) && children_settled(e, obs) && obs.endpoints_ready == Some(true) && e.available()
}

/// Seconds from `now` until `at`, clamped at zero.
pub open spec fn spec_secs_until(now: i64, at: i64) -> u64 {
    if at > now {
        (at - now) as u64
    } else {
        0
    }
}

/// Seconds from `now` until `at`, clamped at zero.
pub fn secs_until(now: i64, at: i64) -> (r: u64)
    ensures
        r == spec_secs_until(now, at),
{
    if at > now {
        let d: i128 = (at as i128) - (now as i128);
        d as u64
    } else {
        0
    }
}

/// Decide the next step for an Ephemeron, given the time and the current
/// observation of its children.
///
/// The sub-reconcilers run in a fixed order — expiry, pod, service, ingress,
/// endpoints — and the first one that finds work short-circuits the rest;
/// each clause below covers one case of that order. An expired Ephemeron is
/// scheduled for deletion within this one step.
pub fn reconcile_step(eph: &Ephemeron, now: i64, obs: &Observation, domain: &str) -> (r:
    ReconcileStep)
    requires
        eph.metadata.uid is Some,
        eph@.spec.service.wf(),
    ensures
        eph@.status is None ==> r == ReconcileStep::InitStatus,
        eph@.status is Some && eph@.spec.expiration_time <= now ==> r
            == ReconcileStep::DeleteExpired,
        live(eph@, now) && obs.pod_ready is None ==> (r matches ReconcileStep::CreatePod { pod }
            && pod_built_for(pod, eph@)),
        live(eph@, now) && (obs.pod_ready matches Some(b) && b != eph@.pod_ready()) ==> r == (
        ReconcileStep::FixPodReady { ready: !eph@.pod_ready() }),
        live(eph@, now) && pod_settled(eph@, *obs) && !obs.service_exists ==> (r matches (
        ReconcileStep::CreateService { service }) && service_built_for(service, eph@)),
        live(eph@, now) && pod_settled(eph@, *obs) && obs.service_exists && !obs.ingress_exists
            ==> (r matches ReconcileStep::CreateIngress { ingress } && ingress_built_for(
            ingress,
            eph@,
            domain@,
        )),
        live(eph@, now) && children_settled(eph@, *obs) && obs.endpoints_ready is None ==> r
            == ReconcileStep::AwaitEndpoints,
        converged_guard(eph@, now, *obs) ==> r == (ReconcileStep::Converged {
            requeue_secs: spec_secs_until(now, eph@.spec.expiration_time),
        }),
        live(eph@, now) && children_settled(eph@, *obs) && obs.endpoints_ready == Some(false)
            && !eph@.available() ==> r == ReconcileStep::AwaitReadyAddress,
        live(eph@, now) && children_settled(eph@, *obs) && obs.endpoints_ready == Some(true)
            && !eph@.available() ==> (match eph@.spec.service.readiness_probe {
            Some(p) => r matches ReconcileStep::ProbeHost { host, path } && host@ == spec_host(
                eph@.metadata.name@,
                domain@,
            ) && path == p.path,
            None => r matches ReconcileStep::SetHost { host } && (host matches Some(h) && h@
                == spec_host(eph@.metadata.name@, domain@)),
        }),
        live(eph@, now) && children_settled(eph@, *obs) && obs.endpoints_ready == Some(false)
            && eph@.available() ==> (r matches ReconcileStep::SetHost { host } && host is None),
{
    if eph.status.is_none() {
        return ReconcileStep::InitStatus;
    }
    if eph.spec.expiration_time <= now {
        return ReconcileStep::DeleteExpired;
    }
    let recorded_ready = eph.is_pod_ready();
    match obs.pod_ready {
        None => {
            return ReconcileStep::CreatePod { pod: build_pod(eph) };
        },
        Some(actual) => {
            if actual != recorded_ready {
                return ReconcileStep::FixPodReady { ready: actual };
            }
        },
    }
    if !obs.service_exists {
        return ReconcileStep::CreateService { service: build_service(eph) };
    }
    if !obs.ingress_exists {
        return ReconcileStep::CreateIngress { ingress: build_ingress(eph, domain) };
    }
    let available = eph.is_available();
    match obs.endpoints_ready {
        None => ReconcileStep::AwaitEndpoints,
        Some(has_ready) => {
            if available && has_ready {
                ReconcileStep::Converged {
                    requeue_secs: secs_until(now, eph.spec.expiration_time),
                }
            } else if !available && !has_ready {
                ReconcileStep::AwaitReadyAddress
            } else if has_ready {
                let host = host_for(eph.metadata.name.as_str(), domain);
                match &eph.spec.service.readiness_probe {
                    Some(p) => ReconcileStep::ProbeHost { host, path: p.path.clone() },
                    None => ReconcileStep::SetHost { host: Some(host) },
                }
            } else {
                ReconcileStep::SetHost { host: None }
            }
        },
    }
}

/// Decide what to do with the outcome of the out-of-cluster probe of `host`.
///
/// Only a plain success confirms availability; any other HTTP status leaves
/// the condition untouched and retries shortly; a transport failure degrades
/// the service.
pub fn probe_step(host: String, outcome: &ProbeOutcome) -> (r: ReconcileStep)
    ensures
        *outcome == ProbeOutcome::Status(200) ==> r == (ReconcileStep::SetHost {
            host: Some(host),
        }),
        (outcome matches ProbeOutcome::Status(c) && c != 200) ==> r
            == ReconcileStep::AwaitReadyAddress,
        *outcome is Unreachable ==> (r matches ReconcileStep::SetHost { host: h } && h is None),
{
    match outcome {
        ProbeOutcome::Status(c) => {
            if *c == 200 {
                ReconcileStep::SetHost { host: Some(host) }
            } else {
                ReconcileStep::AwaitReadyAddress
            }
        },
        ProbeOutcome::Unreachable => ReconcileStep::SetHost { host: None },
    }
}

/// A single-condition status patch, applied server-side under the
/// condition's own field manager with conflicts forced.
#[derive(Debug, Clone, PartialEq)]
pub struct ConditionApply {
    /// API version of the patched resource.
    pub api_version: String,
    /// Kind of the patched resource.
    pub kind: String,
    /// The field manager to apply as.
    pub manager: String,
    /// Whether conflicts are forced; always true for a controller.
    pub force: bool,
    /// The status carrying exactly the one condition, and the observed
    /// generation.
    pub status: EphemeronStatus,
}

/// The patch carries exactly this condition, under its own manager, with the
/// Ephemeron's generation echoed.
pub open spec fn condition_apply_for(p: ConditionApply, e: EphemeronView, c: EphemeronCondition,
) -> bool {
    &&& p.api_version@ == "qualified.io/v1alpha1"@
    &&& p.kind@ == "Ephemeron"@
    &&& p.manager@ == c.spec_manager()
    &&& p.force
    &&& p.status@.conditions == seq![c]
    &&& p.status@.observed_generation == e.metadata.generation
}

/// Build the server-side-apply patch for one condition.
fn set_condition(eph: &Ephemeron, condition: EphemeronCondition) -> (r: ConditionApply)
    ensures
        condition_apply_for(r, eph@, condition),
{
    let manager = condition.manager().to_owned();
    let mut conditions: Vec<EphemeronCondition> = Vec::new();
    conditions.push(condition);
    proof {
        assert(conditions@ =~= seq![condition]);
    }
    ConditionApply {
        api_version: "qualified.io/v1alpha1".to_owned(),
        kind: "Ephemeron".to_owned(),
        manager,
        force: true,
        status: EphemeronStatus { conditions, observed_generation: eph.metadata.generation },
    }
}

/// The patch writing the `PodReady` condition.
pub fn set_pod_ready(eph: &Ephemeron, status: Option<bool>, transition_time: i64) -> (r:
    ConditionApply)
    ensures
        condition_apply_for(
            r,
            eph@,
            EphemeronCondition::PodReady { status, last_transition_time: transition_time },
        ),
{
    set_condition(eph, EphemeronCondition::pod_ready(status, transition_time))
}

/// The patch writing the `Available` condition.
pub fn set_available(eph: &Ephemeron, status: Option<bool>, transition_time: i64) -> (r:
    ConditionApply)
    ensures
        condition_apply_for(
            r,
            eph@,
            EphemeronCondition::Available { status, last_transition_time: transition_time },
        ),
{
    set_condition(eph, EphemeronCondition::available(status, transition_time))
}

/// Two conditions share their list key exactly when they are of the same
/// type.
pub open spec fn same_kind(a: EphemeronCondition, b: EphemeronCondition) -> bool {
    a.is_pod_ready_kind() == b.is_pod_ready_kind()
}

/// The server-side-apply merge of one condition into a status: the list is
/// keyed by type, so the entry of the same type is replaced, or the
/// condition is appended if its type is new; the observed generation is
/// overwritten.
pub open spec fn with_condition(s: StatusView, c: EphemeronCondition, gen: Option<i64>,
) -> StatusView {
    let conditions = if exists|i: int|
        0 <= i < s.conditions.len() && same_kind(#[trigger] s.conditions[i], c) {
        Seq::new(
            s.conditions.len(),
            |i: int|
                if same_kind(s.conditions[i], c) {
                    c
                } else {
                    s.conditions[i]
                },
        )
    } else {
        s.conditions.push(c)
    };
    StatusView { conditions, observed_generation: gen }
}

/// The status an apply patch starts from when the object has none yet.
pub open spec fn status_or_empty(e: EphemeronView) -> StatusView {
    match e.status {
        Some(s) => s,
        None => StatusView { conditions: Seq::empty(), observed_generation: None },
    }
}

/// The Ephemeron after one condition patch was applied.
pub open spec fn apply_condition(e: EphemeronView, c: EphemeronCondition) -> EphemeronView {
    EphemeronView {
        status: Some(with_condition(status_or_empty(e), c, e.metadata.generation)),
        ..e
    }
}

/// The Ephemeron after the `host` annotation was patched.
pub open spec fn apply_host(e: EphemeronView, host: Option<String>) -> EphemeronView {
    EphemeronView { metadata: EphemeronMeta { host, ..e.metadata }, ..e }
}

/// The Ephemeron after the loop performed a step's writes, with `t` the
/// transition instant recorded on fresh conditions. Deletion is not modelled
/// here: a deleted object has no further state.
pub open spec fn apply_step(e: EphemeronView, r: ReconcileStep, t: i64) -> EphemeronView {
    match r {
        ReconcileStep::InitStatus => apply_condition(
            apply_condition(
                e,
                EphemeronCondition::PodReady { status: None, last_transition_time: t },
            ),
            EphemeronCondition::Available { status: None, last_transition_time: t },
        ),
        ReconcileStep::FixPodReady { ready } => apply_condition(
            e,
            EphemeronCondition::PodReady { status: Some(ready), last_transition_time: t },
        ),
        ReconcileStep::CreatePod { .. } => apply_condition(
            apply_condition(
                e,
                EphemeronCondition::PodReady { status: Some(false), last_transition_time: t },
            ),
            EphemeronCondition::Available { status: Some(false), last_transition_time: t },
        ),
        ReconcileStep::SetHost { host } => apply_condition(
            apply_host(e, host),
            EphemeronCondition::Available {
                status: Some(host is Some),
                last_transition_time: t,
            },
        ),
        _ => e,
    }
}

/// Merging a condition leaves the other condition type's reading unchanged
/// and sets its own type's reading to the merged status.
pub proof fn lemma_with_condition(s: StatusView, c: EphemeronCondition, gen: Option<i64>)
    ensures
        c.is_pod_ready_kind() ==> with_condition(s, c, gen).pod_ready() == (c.spec_status()
            == Some(true)),
        c.is_pod_ready_kind() ==> with_condition(s, c, gen).available() == s.available(),
        !c.is_pod_ready_kind() ==> with_condition(s, c, gen).available() == (c.spec_status()
            == Some(true)),
        !c.is_pod_ready_kind() ==> with_condition(s, c, gen).pod_ready() == s.pod_ready(),
{
    let out = with_condition(s, c, gen);
    let replaced = exists|i: int|
        0 <= i < s.conditions.len() && same_kind(#[trigger] s.conditions[i], c);
    if replaced {
        assert forall|i: int| 0 <= i < out.conditions.len() implies out.conditions[i] == (
        if same_kind(s.conditions[i], c) {
            c
        } else {
            s.conditions[i]
        }) by {}
        if c.is_pod_ready_kind() {
            if c.spec_status() == Some(true) {
                let w = choose|i: int|
                    0 <= i < s.conditions.len() && same_kind(#[trigger] s.conditions[i], c);
                assert(out.conditions[w] == c);
                assert(out.pod_ready());
            } else {
                assert forall|i: int| 0 <= i < out.conditions.len() implies !((
                #[trigger] out.conditions[i]) matches EphemeronCondition::PodReady {
                    status: Some(true),
                    ..
                }) by {}
            }
            assert(out.available() == s.available()) by {
                if s.available() {
                    let w = choose|i: int|
                        0 <= i < s.conditions.len() && (#[trigger] s.conditions[i]) matches (
                        EphemeronCondition::Available { status: Some(true), .. });
                    assert(out.conditions[w] == s.conditions[w]);
                    assert(out.available());
                }
                if out.available() {
                    let w = choose|i: int|
                        0 <= i < out.conditions.len() && (#[trigger] out.conditions[i]) matches (
                        EphemeronCondition::Available { status: Some(true), .. });
                    assert(out.conditions[w] == s.conditions[w]);
                    assert(s.available());
                }
            }
        } else {
            if c.spec_status() == Some(true) {
                let w = choose|i: int|
                    0 <= i < s.conditions.len() && same_kind(#[trigger] s.conditions[i], c);
                assert(out.conditions[w] == c);
                assert(out.available());
            } else {
                assert forall|i: int| 0 <= i < out.conditions.len() implies !((
                #[trigger] out.conditions[i]) matches EphemeronCondition::Available {
                    status: Some(true),
                    ..
                }) by {}
            }
            assert(out.pod_ready() == s.pod_ready()) by {
                if s.pod_ready() {
                    let w = choose|i: int|
                        0 <= i < s.conditions.len() && (#[trigger] s.conditions[i]) matches (
                        EphemeronCondition::PodReady { status: Some(true), .. });
                    assert(out.conditions[w] == s.conditions[w]);
                    assert(out.pod_ready());
                }
                if out.pod_ready() {
                    let w = choose|i: int|
                        0 <= i < out.conditions.len() && (#[trigger] out.conditions[i]) matches (
                        EphemeronCondition::PodReady { status: Some(true), .. });
                    assert(out.conditions[w] == s.conditions[w]);
                    assert(s.pod_ready());
                }
            }
        }
    } else {
        assert(out.conditions == s.conditions.push(c));
        assert forall|i: int| 0 <= i < s.conditions.len() implies !same_kind(
            #[trigger] s.conditions[i],
            c,
        ) by {}
        assert forall|i: int| 0 <= i < s.conditions.len() implies out.conditions[i]
            == s.conditions[i] by {}
        assert(out.conditions[s.conditions.len() as int] == c);
        if c.is_pod_ready_kind() {
            if c.spec_status() == Some(true) {
                assert(out.pod_ready());
            }
            assert(!s.pod_ready());
            assert(out.available() == s.available()) by {
                if s.available() {
                    let w = choose|i: int|
                        0 <= i < s.conditions.len() && (#[trigger] s.conditions[i]) matches (
                        EphemeronCondition::Available { status: Some(true), .. });
                    assert(out.conditions[w] == s.conditions[w]);
                    assert(out.available());
                }
            }
        } else {
            if c.spec_status() == Some(true) {
                assert(out.available());
            }
            assert(!s.available());
            assert(out.pod_ready() == s.pod_ready()) by {
                if s.pod_ready() {
                    let w = choose|i: int|
                        0 <= i < s.conditions.len() && (#[trigger] s.conditions[i]) matches (
                        EphemeronCondition::PodReady { status: Some(true), .. });
                    assert(out.conditions[w] == s.conditions[w]);
                    assert(out.pod_ready());
                }
            }
        }
    }
}

/// Annotating the host together with writing `Available` re-establishes the
/// invariant that the host annotation is present exactly while the service
/// is reported available.
pub proof fn lemma_set_host_restores_invariant(e: EphemeronView, host: Option<String>, t: i64)
    ensures
        apply_step(e, ReconcileStep::SetHost { host }, t).host_tracks_available(),
{
    let c = EphemeronCondition::Available { status: Some(host is Some), last_transition_time: t };
    lemma_with_condition(status_or_empty(apply_host(e, host)), c, apply_host(e, host).metadata.generation);
}

/// Every reconcile step preserves the host-tracks-available invariant — with
/// one exception: re-creating a pod that vanished from under an available
/// Ephemeron writes `Available=False` while the stale host annotation is
/// only cleared by the endpoints reconciler in a later cycle.
pub proof fn lemma_step_preserves_host_invariant(e: EphemeronView, r: ReconcileStep, t: i64)
    requires
        e.host_tracks_available(),
        r matches ReconcileStep::InitStatus ==> e.status is None,
        !(r matches ReconcileStep::CreatePod { .. } && e.available()),
    ensures
        apply_step(e, r, t).host_tracks_available(),
{
    match r {
        ReconcileStep::InitStatus => {
            let c1 = EphemeronCondition::PodReady { status: None, last_transition_time: t };
            let c2 = EphemeronCondition::Available { status: None, last_transition_time: t };
            let e1 = apply_condition(e, c1);
            lemma_with_condition(status_or_empty(e), c1, e.metadata.generation);
            lemma_with_condition(status_or_empty(e1), c2, e1.metadata.generation);
        },
        ReconcileStep::FixPodReady { ready } => {
            let c = EphemeronCondition::PodReady {
                status: Some(ready),
                last_transition_time: t,
            };
            lemma_with_condition(status_or_empty(e), c, e.metadata.generation);
        },
        ReconcileStep::CreatePod { .. } => {
            let c1 = EphemeronCondition::PodReady { status: Some(false), last_transition_time: t };
            let c2 = EphemeronCondition::Available {
                status: Some(false),
                last_transition_time: t,
            };
            let e1 = apply_condition(e, c1);
            lemma_with_condition(status_or_empty(e), c1, e.metadata.generation);
            lemma_with_condition(status_or_empty(e1), c2, e1.metadata.generation);
        },
        ReconcileStep::SetHost { host } => {
            lemma_set_host_restores_invariant(e, host, t);
        },
        _ => {},
    }
}

/// At steady state — the step converges — a consistent observation forces
/// availability to imply pod readiness: endpoints carry ready addresses only
/// while the pod itself is ready, and convergence means the recorded
/// `PodReady` condition agrees with the pod.
pub proof fn lemma_converged_available_implies_pod_ready(
    e: EphemeronView,
    now: i64,
    obs: Observation,
)
    requires
        converged_guard(e, now, obs),
        obs.endpoints_ready == Some(true) ==> obs.pod_ready == Some(true),
    ensures
        e.available(),
        e.available() ==> e.pod_ready(),
{
}

/// No reconcile step touches the `created-by` annotation: once set at
/// creation it is invariant.
pub proof fn lemma_steps_preserve_created_by(e: EphemeronView, r: ReconcileStep, t: i64)
    ensures
        apply_step(e, r, t).metadata.created_by == e.metadata.created_by,
{
}

/// Writing the same condition twice is the same as writing it once:
/// condition writes are idempotent, so repeating them after partial
/// progress is safe.
pub proof fn lemma_with_condition_idempotent(s: StatusView, c: EphemeronCondition, gen: Option<i64>)
    ensures
        with_condition(with_condition(s, c, gen), c, gen) == with_condition(s, c, gen),
{
    let once = with_condition(s, c, gen);
    let replaced = exists|i: int|
        0 <= i < s.conditions.len() && same_kind(#[trigger] s.conditions[i], c);
    if replaced {
        let w = choose|i: int|
            0 <= i < s.conditions.len() && same_kind(#[trigger] s.conditions[i], c);
        assert(once.conditions[w] == c);
        assert(same_kind(once.conditions[w], c));
    } else {
        assert(once.conditions[s.conditions.len() as int] == c);
        assert(same_kind(once.conditions[s.conditions.len() as int], c));
    }
    let twice = with_condition(once, c, gen);
    assert(twice.conditions =~= once.conditions);
}

} // verus!
