use spawner::errors::Error;
use spawner::model::{
    BackendSpec, Phase, SessionLivedBackend, SessionLivedBackendEvent, SessionLivedBackendStatus,
};
use spawner::reconcile::{
    error_policy, reconcile_plan, status_patch, ObservedChildren, ReconcileAction, RETRY_SECONDS,
};

fn test_spec() -> BackendSpec {
    BackendSpec {
        application_image: "ghcr.io/example/app:latest".to_string(),
        application_port: 8080,
        sidecar_image: None,
        sidecar_port: 9090,
        key: "abc123".to_string(),
    }
}

fn slab_named(name: &str) -> SessionLivedBackend {
    SessionLivedBackend::new(name.to_string(), test_spec())
}

fn no_observation() -> ObservedChildren {
    ObservedChildren { node_name: None, ip: None, phase: None }
}

fn sidecar() -> String {
    "ghcr.io/example/sidecar:latest".to_string()
}

fn namespace() -> String {
    "spawner".to_string()
}

#[test]
fn fresh_resource_is_not_submitted() {
    let slab = slab_named("slab-7f3a");
    assert!(!slab.is_submitted());
    assert!(!slab.is_scheduled());
    assert!(!slab.is_running());
    assert!(!slab.is_swept());
    assert_eq!(slab.phase(), Phase::NotSubmitted);
}

#[test]
fn first_pass_creates_children_and_submits() {
    // Scenario: a freshly created resource; the first pass creates both
    // child objects and records `submitted`.
    let mut slab = slab_named("slab-7f3a");
    let plan = reconcile_plan(&slab, &no_observation(), &sidecar(), &None, &namespace(), 9090)
        .expect("named resource");
    let (pod, service) = match &plan.action {
        ReconcileAction::CreateChildren { pod, service } => (pod, service),
        _ => panic!("expected CreateChildren"),
    };
    assert_eq!(pod.name, "slab-7f3a");
    assert_eq!(pod.image, "ghcr.io/example/app:latest");
    assert_eq!(pod.application_port, 8080);
    assert_eq!(pod.sidecar_image, "ghcr.io/example/sidecar:latest");
    assert_eq!(pod.sidecar_port, 9090);
    assert_eq!(service.name, "slab-7f3a");
    assert_eq!(plan.event, Some(SessionLivedBackendEvent::Constructed));
    assert!(!plan.delete);

    let patch = status_patch(&plan.action);
    assert_eq!(patch.submitted, Some(true));
    assert_eq!(patch.scheduled, None);
    slab.apply_status(&patch);
    assert!(slab.is_submitted());
    assert_eq!(slab.phase(), Phase::Submitted);
}

#[test]
fn second_pass_does_not_create_again() {
    // Idempotent reconcile: after the pass that created the children, the
    // next pass takes no create action.
    let mut slab = slab_named("slab-7f3a");
    let plan = reconcile_plan(&slab, &no_observation(), &sidecar(), &None, &namespace(), 9090)
        .expect("named resource");
    assert!(matches!(plan.action, ReconcileAction::CreateChildren { .. }));
    slab.apply_status(&status_patch(&plan.action));

    let plan2 = reconcile_plan(&slab, &no_observation(), &sidecar(), &None, &namespace(), 9090)
        .expect("named resource");
    assert!(matches!(plan2.action, ReconcileAction::Wait));
    assert_eq!(plan2.event, None);
}

#[test]
fn scheduling_pass_records_node_and_url() {
    // Scenario: submitted but unscheduled; the compute unit reports a node,
    // the endpoint no address yet.
    let mut slab = slab_named("slab-7f3a");
    slab.apply_status(&SessionLivedBackendStatus {
        submitted: Some(true),
        ..SessionLivedBackendStatus::empty()
    });
    let observed = ObservedChildren {
        node_name: Some("node-1".to_string()),
        ip: None,
        phase: None,
    };
    let plan = reconcile_plan(&slab, &observed, &sidecar(), &None, &namespace(), 9090)
        .expect("named resource");
    match &plan.action {
        ReconcileAction::MarkScheduled { node_name, ip, url } => {
            assert_eq!(node_name.as_str(), "node-1");
            assert_eq!(*ip, None);
            assert_eq!(url.as_str(), "http://slab-7f3a.spawner:9090/");
        },
        _ => panic!("expected MarkScheduled"),
    }
    assert_eq!(plan.event, Some(SessionLivedBackendEvent::Scheduled));

    slab.apply_status(&status_patch(&plan.action));
    assert!(slab.is_scheduled());
    assert_eq!(slab.status.node_name.as_deref(), Some("node-1"));
    assert_eq!(slab.status.ip, None);
    assert_eq!(slab.status.url.as_deref(), Some("http://slab-7f3a.spawner:9090/"));
}

#[test]
fn no_node_assignment_means_wait() {
    let mut slab = slab_named("slab-7f3a");
    slab.apply_status(&SessionLivedBackendStatus {
        submitted: Some(true),
        ..SessionLivedBackendStatus::empty()
    });
    let plan = reconcile_plan(&slab, &no_observation(), &sidecar(), &None, &namespace(), 9090)
        .expect("named resource");
    assert!(matches!(plan.action, ReconcileAction::Wait));
}

#[test]
fn running_pass_requires_running_phase() {
    let mut slab = slab_named("slab-7f3a");
    slab.apply_status(&SessionLivedBackendStatus {
        submitted: Some(true),
        scheduled: Some(true),
        ..SessionLivedBackendStatus::empty()
    });

    let pending = ObservedChildren {
        node_name: Some("node-1".to_string()),
        ip: None,
        phase: Some("Pending".to_string()),
    };
    let plan = reconcile_plan(&slab, &pending, &sidecar(), &None, &namespace(), 9090)
        .expect("named resource");
    assert!(matches!(plan.action, ReconcileAction::Wait));

    let running = ObservedChildren {
        node_name: Some("node-1".to_string()),
        ip: None,
        phase: Some("Running".to_string()),
    };
    let plan = reconcile_plan(&slab, &running, &sidecar(), &None, &namespace(), 9090)
        .expect("named resource");
    assert!(matches!(plan.action, ReconcileAction::MarkRunning));
    assert_eq!(plan.event, Some(SessionLivedBackendEvent::Running));

    slab.apply_status(&status_patch(&plan.action));
    assert!(slab.is_running());
    assert_eq!(slab.phase(), Phase::Running);
}

#[test]
fn swept_resource_is_deleted_regardless_of_progress() {
    // Scenario: swept while not even running; the pass still orders the
    // deletion.
    let mut slab = slab_named("slab-2");
    slab.apply_status(&SessionLivedBackendStatus {
        swept: Some(true),
        running: Some(false),
        ..SessionLivedBackendStatus::empty()
    });
    assert!(slab.is_swept());
    assert!(!slab.is_running());
    let plan = reconcile_plan(&slab, &no_observation(), &sidecar(), &None, &namespace(), 9090)
        .expect("named resource");
    assert!(plan.delete);
    assert_eq!(slab.phase(), Phase::Swept);
}

#[test]
fn status_flags_are_monotonic_across_passes() {
    // Phase monotonicity: drive a backend through every pass and watch the
    // flags only ever turn on.
    let mut slab = slab_named("slab-7f3a");
    let mut seen = Vec::new();
    let observations = [
        no_observation(),
        ObservedChildren { node_name: Some("node-1".to_string()), ip: None, phase: None },
        ObservedChildren {
            node_name: Some("node-1".to_string()),
            ip: Some("10.0.0.7".to_string()),
            phase: Some("Running".to_string()),
        },
        no_observation(),
    ];
    for observed in &observations {
        let plan = reconcile_plan(&slab, observed, &sidecar(), &None, &namespace(), 9090)
            .expect("named resource");
        slab.apply_status(&status_patch(&plan.action));
        seen.push((slab.is_submitted(), slab.is_scheduled(), slab.is_running()));
    }
    for pair in seen.windows(2) {
        assert!(pair[0].0 <= pair[1].0);
        assert!(pair[0].1 <= pair[1].1);
        assert!(pair[0].2 <= pair[1].2);
    }
    assert_eq!(seen.last(), Some(&(true, true, true)));
}

#[test]
fn nameless_resource_reports_missing_field() {
    let slab = SessionLivedBackend { name: None, spec: test_spec(), status: SessionLivedBackendStatus::empty() };
    let r = reconcile_plan(&slab, &no_observation(), &sidecar(), &None, &namespace(), 9090);
    match r {
        Err(Error::MissingField(f)) => assert_eq!(f, "metadata.name"),
        _ => panic!("expected MissingField"),
    }
    assert!(matches!(slab.pod(&sidecar(), &None), Err(Error::MissingField("metadata.name"))));
    assert!(matches!(slab.service(), Err(Error::MissingField("metadata.name"))));
}

#[test]
fn error_policy_schedules_fixed_backoff() {
    assert_eq!(RETRY_SECONDS, 10);
    let e = Error::BackingStoreFailure("connection reset".to_string());
    assert_eq!(error_policy(&e), Some(10));
    assert_eq!(error_policy(&Error::SerializationFailure), Some(10));
}

#[test]
fn error_kind_names() {
    assert_eq!(Error::BackingStoreFailure("x".to_string()).kind_name(), "BackingStoreFailure");
    assert_eq!(Error::MissingField("metadata.name").kind_name(), "MissingField");
    assert_eq!(Error::SerializationFailure.kind_name(), "SerializationFailure");
    assert_eq!(Error::ProbeFailure.kind_name(), "ProbeFailure");
    assert_eq!(Error::ProvisioningFailure.kind_name(), "ProvisioningFailure");
}
