use qrmi::cext_state::{
    _fail, _record_error, sanitized_cstring, str_to_array, version_info, LastError,
    ResourceMetadata,
};
use qrmi::error::{QrmiError, QrmiErrorKind, ReturnCode};
use qrmi::string_map::{envvars_to_hashmap, EnvDecodeError, StringMap};

#[test]
fn return_codes_have_their_c_values() {
    let all = [
        (ReturnCode::Success, 0),
        (ReturnCode::Error, 100),
        (ReturnCode::NullPointerError, 101),
        (ReturnCode::EnvVarNotSetError, 102),
        (ReturnCode::ParseError, 103),
        (ReturnCode::UnsupportedResourceTypeError, 104),
        (ReturnCode::UnsupportedFunctionError, 105),
        (ReturnCode::UnsupportedPayloadError, 106),
        (ReturnCode::TaskNotReadyError, 107),
        (ReturnCode::MissingConfigKeyError, 108),
        (ReturnCode::InvalidInputError, 109),
        (ReturnCode::ResourceNotFoundError, 111),
        (ReturnCode::TaskNotFoundError, 112),
        (ReturnCode::AuthenticationFailedError, 113),
        (ReturnCode::InvalidConfigError, 114),
    ];
    for (r, c) in all {
        assert_eq!(r.code(), c);
    }
}

#[test]
fn every_error_kind_has_its_return_code() {
    let all = [
        (QrmiErrorKind::EnvVarNotSet, ReturnCode::EnvVarNotSetError),
        (QrmiErrorKind::ParseError, ReturnCode::ParseError),
        (QrmiErrorKind::UnsupportedResourceType, ReturnCode::UnsupportedResourceTypeError),
        (QrmiErrorKind::UnsupportedPayload, ReturnCode::UnsupportedPayloadError),
        (QrmiErrorKind::UnsupportedFunction, ReturnCode::UnsupportedFunctionError),
        (QrmiErrorKind::TaskNotReady, ReturnCode::TaskNotReadyError),
        (QrmiErrorKind::MissingConfigKey, ReturnCode::MissingConfigKeyError),
        (QrmiErrorKind::InvalidConfig, ReturnCode::InvalidConfigError),
        (QrmiErrorKind::ResourceNotFound, ReturnCode::ResourceNotFoundError),
        (QrmiErrorKind::TaskNotFound, ReturnCode::TaskNotFoundError),
        (QrmiErrorKind::AuthenticationFailed, ReturnCode::AuthenticationFailedError),
        (QrmiErrorKind::InvalidInput, ReturnCode::InvalidInputError),
        (QrmiErrorKind::Other, ReturnCode::Error),
    ];
    for (k, r) in all {
        assert_eq!(ReturnCode::from(k), r);
    }
}

#[test]
fn error_kinds_and_messages() {
    let e = QrmiError::TaskNotReady { task_id: "job-1".to_string(), reason: "busy".to_string() };
    assert_eq!(e.kind(), QrmiErrorKind::TaskNotReady);
    assert_eq!(e.message(), "job-1: busy");
    let e = QrmiError::MissingConfigKey("KEY".to_string());
    assert_eq!(e.kind(), QrmiErrorKind::MissingConfigKey);
    assert_eq!(e.message(), "KEY");
    assert_eq!(QrmiError::Other("x".to_string()).kind(), QrmiErrorKind::Other);
}

#[test]
fn failure_is_read_back_once() {
    let mut state = LastError::new();
    assert_eq!(state.kind_code(), ReturnCode::Error);
    assert_eq!(state.take_message(), None);

    let code = _fail(&mut state, QrmiError::TaskNotFound("job-9".to_string()));
    assert_eq!(code, ReturnCode::TaskNotFoundError);
    assert_eq!(state.kind_code(), code);
    assert_eq!(state.take_message(), Some("job-9".to_string()));
    assert_eq!(state.take_message(), None);
    assert_eq!(state.kind_code(), ReturnCode::TaskNotFoundError);
}

#[test]
fn recorded_error_matches_failure() {
    let mut a = LastError::new();
    let mut b = LastError::new();
    let code = _fail(&mut a, QrmiError::InvalidInput("bad".to_string()));
    _record_error(&mut b, QrmiError::InvalidInput("bad".to_string()));
    assert_eq!(a.kind_code(), b.kind_code());
    assert_eq!(b.kind_code(), code);
    assert_eq!(a.take_message(), b.take_message());
}

#[test]
fn message_with_nul_is_replaced() {
    let mut state = LastError::new();
    _fail(&mut state, QrmiError::Other("bad\0text".to_string()));
    assert_eq!(
        state.take_message(),
        Some("Failed to generate a C-compatible string".to_string())
    );
    state.set_message("plain".to_string());
    assert_eq!(state.take_message(), Some("plain".to_string()));
    assert_eq!(state.kind_code(), ReturnCode::Error);
}

#[test]
fn sanitized_strings_lose_nul_bytes_only() {
    assert_eq!(sanitized_cstring("a\0b\0\0c"), b"abc".to_vec());
    assert_eq!(sanitized_cstring(""), Vec::<u8>::new());
    assert_eq!(sanitized_cstring("héllo"), "héllo".as_bytes().to_vec());
}

#[test]
fn str_to_array_pads_with_zeros() {
    assert_eq!(str_to_array("ab", 5), vec![b'a', b'b', 0, 0, 0]);
    assert_eq!(str_to_array("abc", 3), b"abc".to_vec());
    assert_eq!(str_to_array("", 2), vec![0, 0]);
}

#[test]
fn version_info_is_framed_and_nul_terminated() {
    let v = version_info("0.23.0", "abc123");
    let mut expected = b"QRMI_BUILD_VERSION:0.23.0;QRMI_GIT_HASH:abc123".to_vec();
    expected.push(0);
    assert_eq!(v, expected);
}

fn raw(s: &str) -> Option<Vec<u8>> {
    Some(s.as_bytes().to_vec())
}

#[test]
fn c_environment_pairs_skip_missing_and_keep_last() {
    let pairs = vec![
        (raw("A"), raw("1")),
        (None, raw("2")),
        (raw("B"), None),
        (raw("A"), raw("3")),
        (raw("C"), raw("4")),
    ];
    let m = envvars_to_hashmap(&pairs).unwrap();
    assert_eq!(m.len(), 2);
    assert_eq!(m.get("A"), Some("3".to_string()));
    assert_eq!(m.get("B"), None);
    assert_eq!(m.get("C"), Some("4".to_string()));
}

#[test]
fn c_environment_pairs_decode_utf8_text() {
    let pairs = vec![(raw("NAME"), Some(vec![0x63, 0x61, 0x66, 0xc3, 0xa9]))];
    let m = envvars_to_hashmap(&pairs).unwrap();
    assert_eq!(m.get("NAME"), Some("caf\u{e9}".to_string()));
}

#[test]
fn c_environment_pairs_reject_invalid_utf8_key() {
    let pairs = vec![
        (raw("A"), raw("1")),
        (Some(vec![0xff, 0x41]), raw("2")),
        (raw("B"), Some(vec![0xc3])),
    ];
    assert_eq!(envvars_to_hashmap(&pairs).err(), Some(EnvDecodeError::InvalidKey(1)));
}

#[test]
fn c_environment_pairs_reject_invalid_utf8_value() {
    let pairs = vec![
        (Some(vec![0xff]), None),
        (raw("A"), raw("1")),
        (raw("B"), Some(vec![0xc3])),
        (Some(vec![0xff]), raw("3")),
    ];
    assert_eq!(envvars_to_hashmap(&pairs).err(), Some(EnvDecodeError::InvalidValue(2)));
}

#[test]
fn c_environment_pairs_reject_surrogate_encoding() {
    let pairs = vec![(raw("K"), Some(vec![0xed, 0xa0, 0x80]))];
    assert_eq!(envvars_to_hashmap(&pairs).err(), Some(EnvDecodeError::InvalidValue(0)));
}

#[test]
fn string_map_reads_back_what_was_written() {
    let mut m = StringMap::new();
    m.insert("k".to_string(), "v1".to_string());
    m.insert("j".to_string(), "w".to_string());
    m.insert("k".to_string(), "v2".to_string());
    assert_eq!(m.get("k"), Some("v2".to_string()));
    assert_eq!(m.get("j"), Some("w".to_string()));
    assert_eq!(m.get("x"), None);
    assert_eq!(m.len(), 2);
    assert_eq!(m.keys(), vec!["k".to_string(), "j".to_string()]);
    let p = m.with_key_prefix("be_");
    assert_eq!(p.get("be_k"), Some("v2".to_string()));
    assert_eq!(p.get("k"), None);
    assert_eq!(m.copy().get("j"), Some("w".to_string()));
}

#[test]
fn metadata_values_that_cannot_be_c_strings_are_absent() {
    let mut m = StringMap::new();
    m.insert("backend_name".to_string(), "ibm_torino".to_string());
    m.insert("bad".to_string(), "a\0b".to_string());
    let md = ResourceMetadata::new(m);
    assert_eq!(md.value("backend_name"), Some("ibm_torino".to_string()));
    assert_eq!(md.value("bad"), None);
    assert_eq!(md.value("missing"), None);
    assert_eq!(md.keys().len(), 2);
}
