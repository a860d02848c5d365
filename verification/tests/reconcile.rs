//! Tests of the reconcile decisions, the child builders, and the condition
//! writer, including the probe-gating and auto-expiry scenarios.
use ephemeron::children::EndpointSubset;
use ephemeron::children::PodCondition;
use ephemeron::children::build_ingress;
use ephemeron::children::build_pod;
use ephemeron::children::build_service;
use ephemeron::children::endpoints_has_ready;
use ephemeron::children::host_for;
use ephemeron::children::make_common_labels;
use ephemeron::children::pod_is_ready;
use ephemeron::children::to_owner_reference;
use ephemeron::controller::Action;
use ephemeron::controller::Observation;
use ephemeron::controller::ProbeOutcome;
use ephemeron::controller::ReconcileStep;
use ephemeron::controller::error_action;
use ephemeron::controller::probe_step;
use ephemeron::controller::reconcile_step;
use ephemeron::controller::secs_until;
use ephemeron::controller::set_available;
use ephemeron::controller::set_pod_ready;
use ephemeron::controller::Error as ControllerError;
use ephemeron::controller::UpstreamError;
use ephemeron::resource::Ephemeron;
use ephemeron::resource::EphemeronCondition;
use ephemeron::resource::EphemeronMeta;
use ephemeron::resource::EphemeronService;
use ephemeron::resource::EphemeronSpec;
use ephemeron::resource::EphemeronStatus;
use ephemeron::resource::HttpGetProbe;

const DOMAIN: &str = "example.com";

fn service(probe: bool) -> EphemeronService {
    EphemeronService {
        image: "nginx".to_owned(),
        command: Some(vec!["run".to_owned(), "--fast".to_owned()]),
        working_dir: Some("/srv".to_owned()),
        port: 80,
        tls_secret_name: None,
        ingress_annotations: vec![("nginx.ingress.kubernetes.io/proxy-body-size".to_owned(), "1m".to_owned())],
        readiness_probe: if probe {
            Some(HttpGetProbe {
                path: "/".to_owned(),
                initial_delay_seconds: Some(1),
                period_seconds: Some(2),
                timeout_seconds: Some(3),
            })
        } else {
            None
        },
        image_pull_policy: Some("IfNotPresent".to_owned()),
        resources: None,
        env: None,
        pod_labels: vec![
            ("team".to_owned(), "blue".to_owned()),
            ("app.kubernetes.io/name".to_owned(), "shadowed".to_owned()),
        ],
    }
}

fn stored(expiration_time: i64, conditions: Option<Vec<EphemeronCondition>>, probe: bool) -> Ephemeron {
    Ephemeron {
        metadata: EphemeronMeta {
            name: "x1".to_owned(),
            uid: Some("uid-1".to_owned()),
            generation: Some(3),
            created_by: Some("u1.a".to_owned()),
            host: None,
        },
        spec: EphemeronSpec { expiration_time, service: service(probe) },
        status: conditions.map(|c| EphemeronStatus { conditions: c, observed_generation: Some(3) }),
    }
}

fn conds(pod_ready: Option<bool>, available: Option<bool>) -> Vec<EphemeronCondition> {
    vec![
        EphemeronCondition::PodReady { status: pod_ready, last_transition_time: 1 },
        EphemeronCondition::Available { status: available, last_transition_time: 1 },
    ]
}

fn observed(
    pod_ready: Option<bool>,
    service_exists: bool,
    ingress_exists: bool,
    endpoints_ready: Option<bool>,
) -> Observation {
    Observation { pod_ready, service_exists, ingress_exists, endpoints_ready }
}

#[test]
fn first_sight_initializes_status() {
    let eph = stored(100, None, true);
    let step = reconcile_step(&eph, 0, &observed(None, false, false, None), DOMAIN);
    assert_eq!(step, ReconcileStep::InitStatus);
}

#[test]
fn expired_resource_is_deleted_within_one_step() {
    let eph = stored(100, Some(conds(None, None)), true);
    let step = reconcile_step(&eph, 100, &observed(Some(true), true, true, Some(true)), DOMAIN);
    assert_eq!(step, ReconcileStep::DeleteExpired);
    let step = reconcile_step(&eph, 5_000, &observed(None, false, false, None), DOMAIN);
    assert_eq!(step, ReconcileStep::DeleteExpired);
}

#[test]
fn zero_lifetime_expires_on_next_step() {
    // Created with no lifetime: the stored expiry equals the creation
    // instant, so the reconcile after status initialization deletes it.
    let eph = stored(1_000, Some(conds(None, None)), true);
    let step = reconcile_step(&eph, 1_000, &observed(None, false, false, None), DOMAIN);
    assert_eq!(step, ReconcileStep::DeleteExpired);
}

#[test]
fn missing_pod_is_created_with_degraded_conditions() {
    let eph = stored(100, Some(conds(None, None)), true);
    let step = reconcile_step(&eph, 0, &observed(None, false, false, None), DOMAIN);
    match step {
        ReconcileStep::CreatePod { pod } => {
            assert_eq!(pod.metadata.name, "x1");
            assert_eq!(pod.metadata.namespace, "default");
            let spec = pod.spec.expect("pod spec");
            assert_eq!(spec.containers.len(), 1);
            let c = &spec.containers[0];
            assert_eq!(c.name, "container");
            assert_eq!(c.image, Some("nginx".to_owned()));
            assert_eq!(c.command, Some(vec!["run".to_owned(), "--fast".to_owned()]));
            assert_eq!(c.working_dir, Some("/srv".to_owned()));
            assert_eq!(c.ports.as_ref().unwrap()[0].container_port, 80);
            let probe = c.readiness_probe.as_ref().expect("probe");
            let hg = probe.http_get.as_ref().expect("http get");
            assert_eq!(hg.path, "/");
            assert_eq!(hg.port, 80);
            assert_eq!(probe.initial_delay_seconds, Some(1));
            assert_eq!(spec.restart_policy, Some("Always".to_owned()));
            assert_eq!(spec.enable_service_links, Some(false));
        },
        other => panic!("expected pod creation, got {:?}", other),
    }
}

#[test]
fn pod_condition_mismatch_is_fixed() {
    let eph = stored(100, Some(conds(Some(false), None)), true);
    let step = reconcile_step(&eph, 0, &observed(Some(true), false, false, None), DOMAIN);
    assert_eq!(step, ReconcileStep::FixPodReady { ready: true });

    let eph = stored(100, Some(conds(Some(true), Some(true))), true);
    let step = reconcile_step(&eph, 0, &observed(Some(false), true, true, Some(true)), DOMAIN);
    assert_eq!(step, ReconcileStep::FixPodReady { ready: false });
}

#[test]
fn children_are_created_in_order() {
    let eph = stored(100, Some(conds(Some(true), None)), true);
    let step = reconcile_step(&eph, 0, &observed(Some(true), false, false, None), DOMAIN);
    match step {
        ReconcileStep::CreateService { service } => {
            assert_eq!(service.metadata.name, "x1");
            let spec = service.spec.expect("service spec");
            assert_eq!(spec.type_, Some("ClusterIP".to_owned()));
            let port = spec.ports.as_ref().unwrap()[0];
            assert_eq!(port.port, 80);
            assert_eq!(port.target_port, Some(80));
            assert_eq!(spec.selector, vec![("app.kubernetes.io/name".to_owned(), "x1".to_owned())]);
        },
        other => panic!("expected service creation, got {:?}", other),
    }
    let step = reconcile_step(&eph, 0, &observed(Some(true), true, false, None), DOMAIN);
    match step {
        ReconcileStep::CreateIngress { ingress } => {
            assert_eq!(ingress.metadata.name, "x1");
            assert_eq!(
                ingress.metadata.annotations,
                vec![("nginx.ingress.kubernetes.io/proxy-body-size".to_owned(), "1m".to_owned())]
            );
            let spec = ingress.spec.expect("ingress spec");
            assert!(spec.tls.is_empty());
            assert_eq!(spec.rules.len(), 1);
            let rule = &spec.rules[0];
            assert_eq!(rule.host, Some("x1.example.com".to_owned()));
            let paths = &rule.http.as_ref().unwrap().paths;
            assert_eq!(paths.len(), 1);
            assert_eq!(paths[0].path, Some("/".to_owned()));
            assert_eq!(paths[0].path_type, Some("Prefix".to_owned()));
            let backend = paths[0].backend.service.as_ref().expect("backend");
            assert_eq!(backend.name, "x1");
            assert_eq!(backend.port.as_ref().unwrap().number, Some(80));
        },
        other => panic!("expected ingress creation, got {:?}", other),
    }
}

#[test]
fn ingress_carries_tls_block_when_secret_given() {
    let mut eph = stored(100, Some(conds(Some(true), None)), true);
    eph.spec.service.tls_secret_name = Some("cert".to_owned());
    let ing = build_ingress(&eph, DOMAIN);
    let spec = ing.spec.expect("spec");
    assert_eq!(spec.tls.len(), 1);
    assert_eq!(spec.tls[0].hosts, None);
    assert_eq!(spec.tls[0].secret_name, Some("cert".to_owned()));
}

#[test]
fn owner_references_point_to_the_ephemeron() {
    let eph = stored(100, None, true);
    for meta in [
        build_pod(&eph).metadata,
        build_service(&eph).metadata,
        build_ingress(&eph, DOMAIN).metadata,
    ] {
        assert_eq!(meta.owner_references.len(), 1);
        let or = &meta.owner_references[0];
        assert_eq!(or.api_version, "qualified.io/v1alpha1");
        assert_eq!(or.kind, "Ephemeron");
        assert_eq!(or.name, "x1");
        assert_eq!(or.uid, "uid-1");
        assert_eq!(or.controller, Some(true));
        assert_eq!(or.block_owner_deletion, Some(true));
    }
    let or = to_owner_reference(&eph);
    assert_eq!(or.uid, "uid-1");
}

#[test]
fn pod_labels_merge_common_over_caller() {
    let eph = stored(100, None, true);
    let pod = build_pod(&eph);
    assert_eq!(
        pod.metadata.labels,
        vec![
            ("team".to_owned(), "blue".to_owned()),
            ("app.kubernetes.io/name".to_owned(), "x1".to_owned()),
            ("app.kubernetes.io/managed-by".to_owned(), "ephemeron".to_owned()),
        ]
    );
    assert_eq!(
        make_common_labels("y"),
        vec![
            ("app.kubernetes.io/name".to_owned(), "y".to_owned()),
            ("app.kubernetes.io/managed-by".to_owned(), "ephemeron".to_owned()),
        ]
    );
}

#[test]
fn endpoints_absent_requeues() {
    let eph = stored(100, Some(conds(Some(true), None)), true);
    let step = reconcile_step(&eph, 0, &observed(Some(true), true, true, None), DOMAIN);
    assert_eq!(step, ReconcileStep::AwaitEndpoints);
}

#[test]
fn endpoints_not_ready_retries_shortly() {
    let eph = stored(100, Some(conds(Some(true), None)), true);
    let step = reconcile_step(&eph, 0, &observed(Some(true), true, true, Some(false)), DOMAIN);
    assert_eq!(step, ReconcileStep::AwaitReadyAddress);
}

#[test]
fn probe_gates_availability() {
    // Endpoints become ready but the external GET fails with 502: the host
    // stays unset and the reconciler retries; a 200 flips availability and
    // annotates the host, together.
    let eph = stored(100, Some(conds(Some(true), Some(false))), true);
    let step = reconcile_step(&eph, 0, &observed(Some(true), true, true, Some(true)), DOMAIN);
    let host = match step {
        ReconcileStep::ProbeHost { host, path } => {
            assert_eq!(host, "x1.example.com");
            assert_eq!(path, "/");
            host
        },
        other => panic!("expected probe, got {:?}", other),
    };
    assert_eq!(probe_step(host.clone(), &ProbeOutcome::Status(502)), ReconcileStep::AwaitReadyAddress);
    assert_eq!(
        probe_step(host.clone(), &ProbeOutcome::Status(200)),
        ReconcileStep::SetHost { host: Some("x1.example.com".to_owned()) }
    );
    assert_eq!(probe_step(host, &ProbeOutcome::Unreachable), ReconcileStep::SetHost { host: None });
}

#[test]
fn availability_without_probe_needs_no_gate() {
    let eph = stored(100, Some(conds(Some(true), Some(false))), false);
    let step = reconcile_step(&eph, 0, &observed(Some(true), true, true, Some(true)), DOMAIN);
    assert_eq!(step, ReconcileStep::SetHost { host: Some("x1.example.com".to_owned()) });
}

#[test]
fn lost_readiness_degrades_host() {
    let eph = stored(100, Some(conds(Some(true), Some(true))), true);
    let step = reconcile_step(&eph, 0, &observed(Some(true), true, true, Some(false)), DOMAIN);
    assert_eq!(step, ReconcileStep::SetHost { host: None });
}

#[test]
fn converged_requeues_at_expiry() {
    let eph = stored(100, Some(conds(Some(true), Some(true))), true);
    let step = reconcile_step(&eph, 30, &observed(Some(true), true, true, Some(true)), DOMAIN);
    assert_eq!(step, ReconcileStep::Converged { requeue_secs: 70 });
}

#[test]
fn extended_lifetime_moves_the_requeue() {
    let mut eph = stored(100, Some(conds(Some(true), Some(true))), true);
    eph.spec.expiration_time = 30 + 600;
    let step = reconcile_step(&eph, 30, &observed(Some(true), true, true, Some(true)), DOMAIN);
    assert_eq!(step, ReconcileStep::Converged { requeue_secs: 600 });
}

#[test]
fn secs_until_clamps_at_zero() {
    assert_eq!(secs_until(10, 100), 90);
    assert_eq!(secs_until(100, 100), 0);
    assert_eq!(secs_until(200, 100), 0);
}

#[test]
fn pod_readiness_reads_the_ready_condition() {
    let ready = vec![
        PodCondition { type_: "Initialized".to_owned(), status: "True".to_owned() },
        PodCondition { type_: "Ready".to_owned(), status: "True".to_owned() },
    ];
    assert!(pod_is_ready(&ready));
    let unready = vec![PodCondition { type_: "Ready".to_owned(), status: "False".to_owned() }];
    assert!(!pod_is_ready(&unready));
    assert!(!pod_is_ready(&Vec::new()));
}

#[test]
fn endpoints_readiness_needs_an_address() {
    let ready = vec![
        EndpointSubset { addresses: None },
        EndpointSubset { addresses: Some(vec!["10.0.0.1".to_owned()]) },
    ];
    assert!(endpoints_has_ready(&ready));
    let empty = vec![EndpointSubset { addresses: Some(Vec::new()) }];
    assert!(!endpoints_has_ready(&empty));
    assert!(!endpoints_has_ready(&Vec::new()));
}

#[test]
fn condition_patches_carry_one_condition_under_its_manager() {
    let eph = stored(100, Some(conds(None, None)), true);
    let p = set_pod_ready(&eph, Some(true), 9);
    assert_eq!(p.api_version, "qualified.io/v1alpha1");
    assert_eq!(p.kind, "Ephemeron");
    assert_eq!(p.manager, "ephemeron-podready");
    assert!(p.force);
    assert_eq!(
        p.status.conditions,
        vec![EphemeronCondition::PodReady { status: Some(true), last_transition_time: 9 }]
    );
    assert_eq!(p.status.observed_generation, Some(3));

    let a = set_available(&eph, None, 9);
    assert_eq!(a.manager, "ephemeron-available");
    assert_eq!(
        a.status.conditions,
        vec![EphemeronCondition::Available { status: None, last_transition_time: 9 }]
    );
}

#[test]
fn errors_wait_for_the_next_event() {
    let err = ControllerError::ReconcilePod(UpstreamError::Other);
    assert_eq!(error_action(&err), Action::AwaitChange);
}

#[test]
fn host_is_name_under_domain() {
    assert_eq!(host_for("x1", "example.com"), "x1.example.com");
}

#[test]
fn happy_path_reaches_available() {
    // Create from a preset, then walk the reconcile decisions an operator
    // would perform until the service is available and readable.
    let presets = vec![(
        "echo".to_owned(),
        EphemeronService {
            image: "nginx".to_owned(),
            command: None,
            working_dir: None,
            port: 80,
            tls_secret_name: None,
            ingress_annotations: Vec::new(),
            readiness_probe: Some(HttpGetProbe {
                path: "/".to_owned(),
                initial_delay_seconds: None,
                period_seconds: None,
                timeout_seconds: None,
            }),
            image_pull_policy: None,
            resources: None,
            env: None,
            pod_labels: Vec::new(),
        },
    )];
    let claims = ephemeron::auth::Claims { sub: "u1.a".to_owned(), exp: 0, gid: None };
    let payload = ephemeron::handlers::PresetPayload { preset: "echo".to_owned(), lifetime_minutes: 5 };
    let now = 1_000;
    let (mut eph, created) =
        ephemeron::handlers::create_at(&presets, &claims, &payload, "x7".to_owned(), now)
            .expect("created");
    assert_eq!(created.expiration_time, now + 300);

    // The orchestrator stores the object and assigns a uid.
    eph.metadata.uid = Some("uid-7".to_owned());

    // First sight: no status yet.
    let step = reconcile_step(&eph, now, &observed(None, false, false, None), DOMAIN);
    assert_eq!(step, ReconcileStep::InitStatus);
    eph.status = Some(EphemeronStatus {
        conditions: conds(None, None),
        observed_generation: None,
    });

    // No pod yet: create it, conditions degrade.
    let step = reconcile_step(&eph, now, &observed(None, false, false, None), DOMAIN);
    assert!(matches!(step, ReconcileStep::CreatePod { .. }));
    eph.status = Some(EphemeronStatus {
        conditions: conds(Some(false), Some(false)),
        observed_generation: None,
    });

    // The pod comes up ready: the recorded condition is fixed.
    let step = reconcile_step(&eph, now, &observed(Some(true), false, false, None), DOMAIN);
    assert_eq!(step, ReconcileStep::FixPodReady { ready: true });
    eph.status = Some(EphemeronStatus {
        conditions: conds(Some(true), Some(false)),
        observed_generation: None,
    });

    // Service, then ingress, then endpoints materialize.
    let step = reconcile_step(&eph, now, &observed(Some(true), false, false, None), DOMAIN);
    assert!(matches!(step, ReconcileStep::CreateService { .. }));
    let step = reconcile_step(&eph, now, &observed(Some(true), true, false, None), DOMAIN);
    assert!(matches!(step, ReconcileStep::CreateIngress { .. }));
    let step = reconcile_step(&eph, now, &observed(Some(true), true, true, None), DOMAIN);
    assert_eq!(step, ReconcileStep::AwaitEndpoints);

    // Endpoints ready: the external probe gates availability.
    let step = reconcile_step(&eph, now, &observed(Some(true), true, true, Some(true)), DOMAIN);
    let host = match step {
        ReconcileStep::ProbeHost { host, path } => {
            assert_eq!(path, "/");
            host
        },
        other => panic!("expected probe, got {:?}", other),
    };
    let step = probe_step(host, &ProbeOutcome::Status(200));
    assert_eq!(step, ReconcileStep::SetHost { host: Some("x7.example.com".to_owned()) });
    eph.metadata.host = Some("x7.example.com".to_owned());
    eph.status = Some(EphemeronStatus {
        conditions: conds(Some(true), Some(true)),
        observed_generation: None,
    });

    // Everything settled: requeue at expiry, and reads see the host.
    let step = reconcile_step(&eph, now, &observed(Some(true), true, true, Some(true)), DOMAIN);
    assert_eq!(step, ReconcileStep::Converged { requeue_secs: 300 });
    let info = ephemeron::handlers::get(&eph, &claims).expect("owner reads");
    assert_eq!(info.host, Some("x7.example.com".to_owned()));
    assert_eq!(info.expiration_time, now + 300);
    assert!(!info.tls);
}
