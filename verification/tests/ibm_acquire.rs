use qrmi::error::{QrmiError, QrmiErrorKind};
use qrmi::ibm::service::{
    AcquireAction, AcquireEvent, AcquireState, CreateSessionRequest, IBMQuantumComputeService,
    IbmError, SessionMode, TaskStartRefusal, session_mode_from_str,
};
use qrmi::models::{Payload, ResourceType};
use qrmi::text::{decimal_text, parse_i32};

fn service(session_id: Option<&str>, mode: &str) -> IBMQuantumComputeService {
    IBMQuantumComputeService {
        endpoint: String::new(),
        service_crn: String::new(),
        backend_name: "ibm_torino".to_string(),
        session_id: session_id.map(|s| s.to_string()),
        calibration_id: None,
        timeout_secs: None,
        session_mode: mode.to_string(),
        session_max_ttl: 28800,
        api_key: "dummy".to_string(),
        iam_endpoint: "http://127.0.0.1:8080".to_string(),
        token_expiration: 0,
        token_lifetime: 0,
    }
}

fn request(mode: SessionMode) -> CreateSessionRequest {
    CreateSessionRequest {
        max_ttl: Some(28800),
        mode,
        backend: Some("ibm_torino".to_string()),
        backend_name: Some("ibm_torino".to_string()),
    }
}

#[test]
fn acquire_without_session_creates_one() {
    let mut s = service(None, "Dedicated");
    let (state, action) = s.acquire_step(AcquireState::Start, AcquireEvent::Begin).unwrap();
    assert_eq!(state, AcquireState::Creating);
    assert_eq!(action, AcquireAction::CreateSession(request(SessionMode::Dedicated)));
    let (state, action) = s
        .acquire_step(state, AcquireEvent::SessionCreated("new".to_string()))
        .unwrap();
    assert_eq!(state, AcquireState::Done);
    assert_eq!(action, AcquireAction::Finish(Ok("new".to_string())));
    assert_eq!(s.session_id.as_deref(), Some("new"));
}

#[test]
fn acquire_keeps_a_live_session() {
    let mut s = service(Some("old"), "batch");
    let (state, action) = s.acquire_step(AcquireState::Start, AcquireEvent::Begin).unwrap();
    assert_eq!(state, AcquireState::FetchingSession("old".to_string()));
    assert_eq!(action, AcquireAction::FetchSession("old".to_string()));
    let (state, action) = s
        .acquire_step(state, AcquireEvent::SessionFetched { active_ttl: Some(289), max_ttl: Some(28800) })
        .unwrap();
    assert_eq!(state, AcquireState::Done);
    assert_eq!(action, AcquireAction::Finish(Ok("old".to_string())));
    assert_eq!(s.session_id.as_deref(), Some("old"));
}

#[test]
fn acquire_releases_an_expiring_session_before_creating() {
    let mut s = service(Some("old"), "batch");
    let (state, _) = s.acquire_step(AcquireState::Start, AcquireEvent::Begin).unwrap();
    let (state, action) = s
        .acquire_step(state, AcquireEvent::SessionFetched { active_ttl: Some(288), max_ttl: Some(28800) })
        .unwrap();
    assert_eq!(state, AcquireState::Releasing("old".to_string()));
    assert_eq!(action, AcquireAction::ReleaseSession("old".to_string()));
    assert_eq!(s.session_id.as_deref(), Some("old"));
    let (state, action) = s.acquire_step(state, AcquireEvent::Released).unwrap();
    assert_eq!(s.session_id, None);
    assert_eq!(state, AcquireState::Creating);
    assert_eq!(action, AcquireAction::CreateSession(request(SessionMode::Batch)));
    let (_, action) = s
        .acquire_step(state, AcquireEvent::SessionCreated("fresh".to_string()))
        .unwrap();
    assert_eq!(action, AcquireAction::Finish(Ok("fresh".to_string())));
    assert_eq!(s.session_id.as_deref(), Some("fresh"));
}

#[test]
fn acquire_with_missing_lifetimes_counts_them_as_one() {
    let mut s = service(Some("old"), "batch");
    let (state, _) = s.acquire_step(AcquireState::Start, AcquireEvent::Begin).unwrap();
    let (state, _) = s
        .acquire_step(state, AcquireEvent::SessionFetched { active_ttl: None, max_ttl: None })
        .unwrap();
    assert_eq!(state, AcquireState::Done);
}

#[test]
fn acquire_returns_a_failed_release() {
    let mut s = service(Some("old"), "batch");
    let (state, _) = s.acquire_step(AcquireState::Start, AcquireEvent::Begin).unwrap();
    let (state, _) = s
        .acquire_step(state, AcquireEvent::SessionFetched { active_ttl: Some(0), max_ttl: Some(100) })
        .unwrap();
    let err = QrmiError::ResourceNotFound("session old".to_string());
    let (state, action) = s.acquire_step(state, AcquireEvent::CallFailed(err.clone())).unwrap();
    assert_eq!(state, AcquireState::Done);
    assert_eq!(action, AcquireAction::Finish(Err(err)));
    assert_eq!(s.session_id.as_deref(), Some("old"));
}

#[test]
fn acquire_with_unknown_mode_fails_after_release() {
    let mut s = service(Some("old"), "shared");
    let (state, _) = s.acquire_step(AcquireState::Start, AcquireEvent::Begin).unwrap();
    let (state, _) = s
        .acquire_step(state, AcquireEvent::SessionFetched { active_ttl: Some(1), max_ttl: Some(1000) })
        .unwrap();
    let (state, action) = s.acquire_step(state, AcquireEvent::Released).unwrap();
    assert_eq!(state, AcquireState::Done);
    assert_eq!(action, AcquireAction::Finish(Err(QrmiError::InvalidConfig("shared".to_string()))));
    assert_eq!(s.session_id, None);
}

#[test]
fn acquire_ignores_unexpected_events() {
    let mut s = service(None, "batch");
    assert_eq!(s.acquire_step(AcquireState::Start, AcquireEvent::Released), None);
    assert_eq!(s.acquire_step(AcquireState::Done, AcquireEvent::Begin), None);
    assert_eq!(
        s.acquire_step(AcquireState::Creating, AcquireEvent::SessionFetched { active_ttl: None, max_ttl: None }),
        None
    );
    assert_eq!(s.session_id, None);
}

#[test]
fn foreign_payloads_are_reported_as_unsupported() {
    let s = service(None, "batch");
    let pasqal = Payload::PasqalCloud { sequence: "seq".to_string(), job_runs: -12 };
    let e = s.plan_task_start(pasqal.clone()).unwrap_err().into_qrmi_error();
    assert_eq!(e.kind(), QrmiErrorKind::UnsupportedPayload);
    assert_eq!(e, QrmiError::UnsupportedPayload(format!("{pasqal:?}")));
    assert_eq!(
        e,
        QrmiError::UnsupportedPayload("PasqalCloud { sequence: \"seq\", job_runs: -12 }".to_string())
    );
}

#[test]
fn unknown_programs_are_reported_as_invalid_input() {
    let refusal = TaskStartRefusal::Unknown(IbmError::UnknownProgramId("\"x\"".to_string()));
    assert_eq!(refusal.into_qrmi_error(), QrmiError::InvalidInput("\"x\"".to_string()));
}

#[test]
fn payload_descriptions_match_debug_formatting() {
    let payloads = vec![
        Payload::QiskitPrimitive { input: "{\"a\": 1}".to_string(), program_id: "sampler".to_string() },
        Payload::PasqalCloud { sequence: "line\nbreak".to_string(), job_runs: 0 },
        Payload::PasqalCloud { sequence: String::new(), job_runs: i32::MIN },
        Payload::PasqalCloud { sequence: String::new(), job_runs: i32::MAX },
        Payload::AliceBobFelis { human_qir: "qir".to_string(), input_params: "{}".to_string() },
        Payload::IQMServer {
            iqmjson: "{}".to_string(),
            job_type: "circuit".to_string(),
            tag: Some("t\"1".to_string()),
            use_timeslot: Some(true),
        },
        Payload::IQMServer {
            iqmjson: "{}".to_string(),
            job_type: "sweep".to_string(),
            tag: None,
            use_timeslot: None,
        },
    ];
    for p in payloads {
        assert_eq!(p.description(), format!("{p:?}"));
    }
}

#[test]
fn decimal_text_writes_integers() {
    assert_eq!(decimal_text(0), "0");
    assert_eq!(decimal_text(7), "7");
    assert_eq!(decimal_text(10), "10");
    assert_eq!(decimal_text(-305), "-305");
    assert_eq!(decimal_text(i32::MAX), "2147483647");
    assert_eq!(decimal_text(i32::MIN), "-2147483648");
}

#[test]
fn parse_i32_follows_from_str() {
    for s in [
        "0", "42", "+7", "-7", "007", "2147483647", "-2147483648", "2147483648", "-2147483649",
        "", "+", "-", "1a", " 1", "1 ", "--1", "99999999999", "-0", "\u{0661}",
    ] {
        assert_eq!(parse_i32(s), s.parse::<i32>().ok(), "input {s:?}");
    }
}

#[test]
fn resource_type_names() {
    assert_eq!(ResourceType::IBMQuantumComputeService.as_str(), "ibm-quantum-compute-service");
    assert_eq!(ResourceType::IBMQuantumSystem.as_str(), "ibm-quantum-system");
    assert_eq!(ResourceType::QiskitRuntimeService.as_str(), "qiskit-runtime-service");
}

#[test]
fn session_modes_are_read_in_any_case() {
    assert_eq!(session_mode_from_str("BATCH"), Ok(SessionMode::Batch));
    assert_eq!(session_mode_from_str("Dedicated"), Ok(SessionMode::Dedicated));
    assert_eq!(
        session_mode_from_str("SHARED"),
        Err(IbmError::InvalidSessionMode("shared".to_string()))
    );
}
