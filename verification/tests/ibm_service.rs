use qrmi::error::QrmiError;
use qrmi::ibm::service::{
    check_result_ready, release_action, session_mode_from_str, should_cancel_job,
    should_reuse_session, status_is_accessible, target_json, task_status_of_job,
    IBMQuantumComputeService, IbmError, JobResponseStatus, PrimitiveKind, ReleaseAction,
    ServiceEnvVar, ServiceEnvironment, SessionMode, TaskStartRefusal,
};
use qrmi::jobs::LogLevel;
use qrmi::models::{Payload, ResourceType, TaskStatus};
use qrmi::string_map::StringMap;

fn service(backend_name: &str) -> IBMQuantumComputeService {
    IBMQuantumComputeService {
        endpoint: String::new(),
        service_crn: String::new(),
        backend_name: backend_name.to_string(),
        session_id: None,
        calibration_id: None,
        timeout_secs: None,
        session_mode: "dedicated".to_string(),
        session_max_ttl: 28800,
        api_key: "dummy".to_string(),
        iam_endpoint: "http://127.0.0.1:8080".to_string(),
        token_expiration: 0,
        token_lifetime: 0,
    }
}

#[test]
fn resource_id_and_type_match_backend() {
    const BACKEND_NAME: &str = "ibm_torino";
    let qrmi = service(BACKEND_NAME);
    let resource_id = qrmi.resource_id();
    let resource_type = qrmi.resource_type();
    assert_eq!(resource_id, BACKEND_NAME);
    assert_eq!(resource_type, ResourceType::IBMQuantumComputeService);
}

fn env(pairs: &[(&str, &str)]) -> StringMap {
    let mut m = StringMap::new();
    for (k, v) in pairs {
        m.insert(k.to_string(), v.to_string());
    }
    m
}

fn required(backend: &str) -> Vec<(String, String)> {
    vec![
        (format!("{backend}_QRMI_IBM_QCS_ENDPOINT"), "https://quantum.cloud.ibm.com/api/v1".to_string()),
        (format!("{backend}_QRMI_IBM_QCS_IAM_ENDPOINT"), "https://iam.cloud.ibm.com".to_string()),
        (format!("{backend}_QRMI_IBM_QCS_IAM_APIKEY"), "key".to_string()),
        (format!("{backend}_QRMI_IBM_QCS_SERVICE_CRN"), "crn:v1:x".to_string()),
    ]
}

fn env_with(backend: &str, extra: &[(&str, &str)]) -> StringMap {
    let mut m = StringMap::new();
    for (k, v) in required(backend) {
        m.insert(k, v);
    }
    for (k, v) in extra {
        m.insert(format!("{backend}_{k}"), v.to_string());
    }
    m
}

#[test]
fn env_var_names_carry_the_backend_name() {
    assert_eq!(ServiceEnvVar::Endpoint.name_for("ibm_torino"), "ibm_torino_QRMI_IBM_QCS_ENDPOINT");
    assert_eq!(
        ServiceEnvVar::JobAcquisitionToken.name_for("b"),
        "b_QRMI_JOB_ACQUISITION_TOKEN"
    );
    assert_eq!(ServiceEnvVar::SessionMaxTtl.suffix(), "QRMI_IBM_QCS_SESSION_MAX_TTL");
}

#[test]
fn new_reports_first_missing_variable() {
    let e = ServiceEnvironment::lookup("ibm_torino", &env(&[]));
    match IBMQuantumComputeService::new("ibm_torino", &e) {
        Err(QrmiError::EnvVarNotSet(k)) => assert_eq!(k, "ibm_torino_QRMI_IBM_QCS_ENDPOINT"),
        _ => panic!("expected a missing variable"),
    }
    let e = ServiceEnvironment::lookup(
        "b",
        &env(&[("b_QRMI_IBM_QCS_ENDPOINT", "e"), ("b_QRMI_IBM_QCS_IAM_ENDPOINT", "i")]),
    );
    match IBMQuantumComputeService::new("b", &e) {
        Err(QrmiError::EnvVarNotSet(k)) => assert_eq!(k, "b_QRMI_IBM_QCS_IAM_APIKEY"),
        _ => panic!("expected a missing variable"),
    }
}

#[test]
fn new_applies_defaults() {
    let e = ServiceEnvironment::lookup("b", &env_with("b", &[]));
    let s = IBMQuantumComputeService::new("b", &e).expect("all required variables are set");
    assert_eq!(s.backend_name, "b");
    assert_eq!(s.endpoint, "https://quantum.cloud.ibm.com/api/v1");
    assert_eq!(s.iam_endpoint, "https://iam.cloud.ibm.com");
    assert_eq!(s.api_key, "key");
    assert_eq!(s.service_crn, "crn:v1:x");
    assert_eq!(s.session_mode, "dedicated");
    assert_eq!(s.session_max_ttl, 28800);
    assert_eq!(s.timeout_secs, None);
    assert_eq!(s.session_id, None);
    assert_eq!(s.calibration_id, None);
}

#[test]
fn new_reads_optional_settings() {
    let e = ServiceEnvironment::lookup(
        "b",
        &env_with(
            "b",
            &[
                ("QRMI_IBM_QCS_SESSION_MODE", "batch"),
                ("QRMI_IBM_QCS_SESSION_MAX_TTL", "+600"),
                ("QRMI_JOB_TIMEOUT_SECONDS", "-30"),
                ("QRMI_JOB_ACQUISITION_TOKEN", "tok"),
            ],
        ),
    );
    let s = IBMQuantumComputeService::new("b", &e).unwrap();
    assert_eq!(s.session_mode, "batch");
    assert_eq!(s.session_max_ttl, 600);
    assert_eq!(s.timeout_secs, Some(-30));
    assert_eq!(s.session_id, Some("tok".to_string()));
}

#[test]
fn new_prefers_service_specific_settings_and_rejects_bad_numbers() {
    let e = ServiceEnvironment::lookup(
        "b",
        &env_with(
            "b",
            &[
                ("QRMI_IBM_QCS_SESSION_MAX_TTL", " 600"),
                ("QRMI_IBM_QCS_TIMEOUT_SECONDS", "abc"),
                ("QRMI_JOB_TIMEOUT_SECONDS", "30"),
                ("QRMI_IBM_QCS_SESSION_ID", "sess"),
                ("QRMI_JOB_ACQUISITION_TOKEN", "tok"),
            ],
        ),
    );
    let s = IBMQuantumComputeService::new("b", &e).unwrap();
    assert_eq!(s.session_max_ttl, 28800);
    assert_eq!(s.timeout_secs, None);
    assert_eq!(s.session_id, Some("sess".to_string()));

    let e = ServiceEnvironment::lookup(
        "b",
        &env_with("b", &[("QRMI_IBM_QCS_SESSION_MAX_TTL", "99999999999")]),
    );
    assert_eq!(IBMQuantumComputeService::new("b", &e).unwrap().session_max_ttl, 28800);
}

#[test]
fn session_mode_is_case_insensitive() {
    assert_eq!(session_mode_from_str("batch"), Ok(SessionMode::Batch));
    assert_eq!(session_mode_from_str("BATCH"), Ok(SessionMode::Batch));
    assert_eq!(session_mode_from_str("Dedicated"), Ok(SessionMode::Dedicated));
    assert_eq!(
        session_mode_from_str("Shared"),
        Err(IbmError::InvalidSessionMode("shared".to_string()))
    );
    assert_eq!(
        IbmError::InvalidSessionMode("shared".to_string()).into_qrmi_error(),
        QrmiError::InvalidConfig("shared".to_string())
    );
}

#[test]
fn session_request_uses_configured_lifetime_and_mode() {
    let mut s = service("ibm_kingston");
    s.session_mode = "Batch".to_string();
    s.session_max_ttl = 3600;
    let q = s.create_session_request().unwrap();
    assert_eq!(q.mode, SessionMode::Batch);
    assert_eq!(q.max_ttl, Some(3600));
    assert_eq!(q.backend.as_deref(), Some("ibm_kingston"));
    assert_eq!(q.backend_name.as_deref(), Some("ibm_kingston"));
    s.session_mode = "fifo".to_string();
    assert!(s.create_session_request().is_err());
}

#[test]
fn session_is_reused_while_enough_lifetime_remains() {
    assert!(!should_reuse_session(Some(100), Some(28800)));
    assert!(!should_reuse_session(Some(288), Some(28800)));
    assert!(should_reuse_session(Some(289), Some(28800)));
    assert!(should_reuse_session(None, None));
    assert!(!should_reuse_session(Some(0), None));
    assert!(should_reuse_session(Some(0), Some(-199)));
    assert!(!should_reuse_session(Some(-1), Some(-199)));
    assert!(should_reuse_session(Some(i32::MAX), Some(i32::MIN)));
}

#[test]
fn release_cancels_only_with_pending_jobs() {
    assert_eq!(release_action(Some(2)), ReleaseAction::Cancel);
    assert_eq!(release_action(Some(0)), ReleaseAction::Close);
    assert_eq!(release_action(None), ReleaseAction::Close);
}

#[test]
fn acquired_session_shows_in_metadata_until_released() {
    let mut s = service("ibm_torino");
    let m = s.metadata();
    assert_eq!(m.len(), 1);
    assert_eq!(m.get("backend_name"), Some("ibm_torino".to_string()));
    s.on_session_created("sess-1".to_string());
    assert_eq!(s.session_id.as_deref(), Some("sess-1"));
    let m = s.metadata();
    assert_eq!(m.len(), 2);
    assert_eq!(m.get("session_id"), Some("sess-1".to_string()));
    s.on_released();
    assert_eq!(s.session_id, None);
    assert_eq!(s.metadata().get("session_id"), None);
}

#[test]
fn job_statuses_map_to_task_statuses() {
    let all = [
        (JobResponseStatus::Queued, TaskStatus::Queued, true),
        (JobResponseStatus::Running, TaskStatus::Running, true),
        (JobResponseStatus::Completed, TaskStatus::Completed, false),
        (JobResponseStatus::Cancelled, TaskStatus::Cancelled, false),
        (JobResponseStatus::CancelledRanTooLong, TaskStatus::Cancelled, false),
        (JobResponseStatus::Failed, TaskStatus::Failed, false),
    ];
    for (j, t, cancel) in all {
        assert_eq!(task_status_of_job(j), t);
        assert_eq!(should_cancel_job(j), cancel);
    }
}

#[test]
fn results_wait_for_completion() {
    assert_eq!(check_result_ready("job-1", JobResponseStatus::Completed), Ok(()));
    assert_eq!(
        check_result_ready("job-1", JobResponseStatus::Running),
        Err(QrmiError::TaskNotReady {
            task_id: "job-1".to_string(),
            reason: "task is not completed (current status: Running)".to_string(),
        })
    );
    match check_result_ready("j", JobResponseStatus::CancelledRanTooLong) {
        Err(QrmiError::TaskNotReady { reason, .. }) => {
            assert_eq!(reason, "task is not completed (current status: CancelledRanTooLong)")
        }
        _ => panic!("expected not ready"),
    }
}

#[test]
fn accessibility_follows_status() {
    assert!(status_is_accessible(Some("active")));
    assert!(status_is_accessible(Some("Online")));
    assert!(status_is_accessible(Some("ACTIVE")));
    assert!(!status_is_accessible(Some("paused")));
    assert!(!status_is_accessible(Some("offline")));
    assert!(!status_is_accessible(None));
}

#[test]
fn target_frames_configuration_and_properties() {
    assert_eq!(
        target_json(Some("{\"n_qubits\":5}"), None),
        "{\"configuration\":{\"n_qubits\":5},\"properties\":null}"
    );
    assert_eq!(target_json(None, None), "{\"configuration\":null,\"properties\":null}");
    let framed = target_json(Some("{\"a\":1}"), Some("[1,2]"));
    let v: serde_json::Value = serde_json::from_str(&framed).unwrap();
    assert_eq!(v.to_string(), framed);
}

#[test]
fn task_start_plans_known_primitives_only() {
    let mut s = service("ibm_torino");
    s.timeout_secs = Some(60);
    s.on_session_created("sess".to_string());
    let plan = s
        .plan_task_start(Payload::QiskitPrimitive {
            input: "{}".to_string(),
            program_id: "sampler".to_string(),
        })
        .unwrap();
    assert_eq!(plan.primitive, PrimitiveKind::Sampler);
    assert_eq!(plan.program_id, "sampler");
    assert_eq!(plan.input, "{}");
    assert_eq!(plan.backend, "ibm_torino");
    assert_eq!(plan.log_level, LogLevel::Debug);
    assert_eq!(plan.cost, Some(60));
    assert_eq!(plan.session_id.as_deref(), Some("sess"));
    assert!(!plan.private);

    let plan = s
        .plan_task_start(Payload::QiskitPrimitive {
            input: "x".to_string(),
            program_id: "noiselearner".to_string(),
        })
        .unwrap();
    assert_eq!(plan.primitive, PrimitiveKind::NoiseLearner);

    assert_eq!(
        s.plan_task_start(Payload::QiskitPrimitive {
            input: "x".to_string(),
            program_id: "circuit-runner".to_string(),
        }),
        Err(TaskStartRefusal::Unknown(IbmError::UnknownProgramId(
            "\"circuit-runner\"".to_string()
        )))
    );
    let pasqal = Payload::PasqalCloud { sequence: "seq".to_string(), job_runs: 3 };
    assert_eq!(
        s.plan_task_start(pasqal.clone()),
        Err(TaskStartRefusal::UnsupportedPayload(pasqal))
    );
}
