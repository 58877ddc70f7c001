use qrmi::error::QrmiError;
use qrmi::models::Payload;
use qrmi::models::{iqm_server_payload, payload_from_c, CPayload};
use qrmi::resource::{default_acquisition_token, unsupported_operation, Operation};

#[test]
fn unimplemented_operations_name_themselves() {
    assert_eq!(
        unsupported_operation(Operation::TaskStart),
        QrmiError::UnsupportedFunction("qrmi::QuantumResource::task_start".to_string())
    );
    assert_eq!(
        unsupported_operation(Operation::Target),
        QrmiError::UnsupportedFunction("qrmi::QuantumResource::target".to_string())
    );
    assert_eq!(
        unsupported_operation(Operation::AccountUsage),
        QrmiError::UnsupportedFunction("qrmi::ResourceProvider::account_usage".to_string())
    );
}

#[test]
fn default_token_is_a_random_v4_uuid() {
    let a = default_acquisition_token();
    let b = default_acquisition_token();
    assert_ne!(a, b);
    for t in [&a, &b] {
        assert_eq!(t.len(), 36);
        let chars: Vec<char> = t.chars().collect();
        for (i, c) in chars.iter().enumerate() {
            if [8, 13, 18, 23].contains(&i) {
                assert_eq!(*c, '-');
            } else {
                assert!(c.is_ascii_hexdigit() && !c.is_ascii_uppercase());
            }
        }
        assert_eq!(chars[14], '4');
        assert!("89ab".contains(chars[19]));
    }
}

#[test]
fn iqm_timeslot_flag_is_one_or_not() {
    let p = iqm_server_payload("{}".to_string(), "circuit".to_string(), None, 1);
    assert_eq!(
        p,
        Payload::IQMServer {
            iqmjson: "{}".to_string(),
            job_type: "circuit".to_string(),
            tag: None,
            use_timeslot: Some(true),
        }
    );
    match iqm_server_payload("{}".to_string(), "run".to_string(), Some("t".to_string()), 2) {
        Payload::IQMServer { use_timeslot, tag, .. } => {
            assert_eq!(use_timeslot, Some(false));
            assert_eq!(tag.as_deref(), Some("t"));
        }
        _ => panic!("expected an IQM payload"),
    }
}

#[test]
fn c_payloads_need_valid_text() {
    assert_eq!(
        payload_from_c(CPayload::QiskitPrimitive {
            input: Some("{}".to_string()),
            program_id: Some("sampler".to_string()),
        }),
        Some(Payload::QiskitPrimitive { input: "{}".to_string(), program_id: "sampler".to_string() })
    );
    assert_eq!(
        payload_from_c(CPayload::QiskitPrimitive { input: None, program_id: Some("sampler".to_string()) }),
        None
    );
    assert_eq!(
        payload_from_c(CPayload::PasqalCloud { sequence: Some("s".to_string()), job_runs: 4 }),
        Some(Payload::PasqalCloud { sequence: "s".to_string(), job_runs: 4 })
    );
    assert_eq!(
        payload_from_c(CPayload::AliceBobFelis { human_qir: Some("q".to_string()), input_params: None }),
        None
    );
    assert_eq!(
        payload_from_c(CPayload::IQMServer {
            iqmjson: Some("{}".to_string()),
            job_type: Some("sweep".to_string()),
            tag: None,
            use_timeslot: 0,
        }),
        Some(Payload::IQMServer {
            iqmjson: "{}".to_string(),
            job_type: "sweep".to_string(),
            tag: None,
            use_timeslot: Some(false),
        })
    );
    assert_eq!(
        payload_from_c(CPayload::IQMServer { iqmjson: None, job_type: Some("run".to_string()), tag: None, use_timeslot: 1 }),
        None
    );
}
