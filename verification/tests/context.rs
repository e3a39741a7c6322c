use std::collections::BTreeMap;

use scaleway_operator::context::{
    check_project_id_format, extract_project_id_from_namespace, namespace_role_from_lookup,
    project_id_from_namespace_lookup, role_lookup_outcome, CircuitBreakerState,
    SCALEWAY_PROJECT_ANNOTATION,
};
use scaleway_operator::error::OperatorError;

fn is_open(cb: &mut CircuitBreakerState) -> bool {
    cb.is_circuit_open()
}

#[test]
fn test_circuit_opens_after_five_failures() {
    let mut cb = CircuitBreakerState::new();
    for _ in 0..5 {
        cb.record_scaleway_failure();
    }
    assert!(is_open(&mut cb), "circuit should be open after 5 failures");
}

#[test]
fn test_circuit_stays_closed_after_four_failures() {
    let mut cb = CircuitBreakerState::new();
    for _ in 0..4 {
        cb.record_scaleway_failure();
    }
    assert!(!is_open(&mut cb), "circuit should remain closed after only 4 failures");
}

#[test]
fn test_success_in_half_open_closes_circuit() {
    let mut cb = CircuitBreakerState::HalfOpen;
    cb.record_scaleway_success();
    assert!(!is_open(&mut cb), "circuit should be closed after success in HalfOpen");
    assert!(matches!(cb, CircuitBreakerState::Closed { failure_count: 0 }));
}

#[test]
fn test_failure_in_half_open_reopens_circuit() {
    let mut cb = CircuitBreakerState::HalfOpen;
    cb.record_scaleway_failure();
    assert!(is_open(&mut cb), "circuit should reopen after failure in HalfOpen");
}

#[test]
fn test_success_in_closed_resets_failure_count() {
    let mut cb = CircuitBreakerState::new();
    for _ in 0..4 {
        cb.record_scaleway_failure();
    }
    cb.record_scaleway_success();
    for _ in 0..4 {
        cb.record_scaleway_failure();
    }
    assert!(!is_open(&mut cb), "failure_count should have been reset to 0 by success");
}

#[test]
fn open_circuit_moves_to_half_open_after_timeout() {
    let mut cb = CircuitBreakerState::new();
    for _ in 0..5 {
        cb.record_scaleway_failure();
    }
    assert!(cb.open_check(59));
    assert!(matches!(cb, CircuitBreakerState::Open { .. }));
    assert!(!cb.open_check(60));
    assert!(matches!(cb, CircuitBreakerState::HalfOpen));
}

#[test]
fn open_circuit_ignores_outcomes() {
    let mut cb = CircuitBreakerState::new();
    for _ in 0..5 {
        cb.record_scaleway_failure();
    }
    cb.record_scaleway_success();
    cb.record_scaleway_failure();
    assert!(matches!(cb, CircuitBreakerState::Open { .. }));
}

#[test]
fn record_failure_at_counts_then_opens() {
    let now = std::time::Instant::now();
    let mut cb = CircuitBreakerState::Closed { failure_count: 3 };
    cb.record_failure_at(now);
    assert!(matches!(cb, CircuitBreakerState::Closed { failure_count: 4 }));
    cb.record_failure_at(now);
    match cb {
        CircuitBreakerState::Open { opened_at } => assert_eq!(opened_at, now),
        _ => panic!("expected Open"),
    }
}

#[test]
fn test_extract_project_id() {
    let mut annotations = BTreeMap::new();
    annotations.insert(SCALEWAY_PROJECT_ANNOTATION.to_string(), "proj-123".to_string());
    assert_eq!(extract_project_id_from_namespace(&annotations), Some("proj-123".to_string()));
}

#[test]
fn test_extract_project_id_missing() {
    let annotations = BTreeMap::new();
    assert_eq!(extract_project_id_from_namespace(&annotations), None);
}

#[test]
fn test_extract_project_id_ignores_other_annotations() {
    let mut annotations = BTreeMap::new();
    annotations.insert("unrelated.io/key".to_string(), "value".to_string());
    assert_eq!(extract_project_id_from_namespace(&annotations), None);
}

#[test]
fn project_id_lookup_missing_annotation_is_config_error() {
    let r = project_id_from_namespace_lookup("team-a", Ok(BTreeMap::new()));
    match r {
        Err(OperatorError::ConfigError(m)) => assert_eq!(
            m,
            "Namespace 'team-a' must have annotation 'scaleway.mathieubodin.io/project-id'"
        ),
        _ => panic!("expected ConfigError"),
    }
}

#[test]
fn project_id_lookup_unreadable_namespace_is_config_error() {
    let r = project_id_from_namespace_lookup("team-a", Err("forbidden".to_string()));
    match r {
        Err(OperatorError::ConfigError(m)) => {
            assert_eq!(m, "Cannot access namespace team-a: forbidden")
        }
        _ => panic!("expected ConfigError"),
    }
}

#[test]
fn project_id_lookup_reads_annotation() {
    let mut annotations = BTreeMap::new();
    annotations.insert(
        SCALEWAY_PROJECT_ANNOTATION.to_string(),
        "11111111-1111-1111-1111-111111111111".to_string(),
    );
    let r = project_id_from_namespace_lookup("team-a", Ok(annotations));
    assert_eq!(r.unwrap(), "11111111-1111-1111-1111-111111111111");
}

#[test]
fn project_id_format_accepts_uuid() {
    let pid = "11111111-1111-1111-1111-111111111111".to_string();
    assert_eq!(check_project_id_format(pid.clone()).unwrap(), pid);
}

#[test]
fn project_id_format_rejects_non_uuid() {
    match check_project_id_format("proj-../../x".to_string()) {
        Err(OperatorError::ConfigError(m)) => assert_eq!(
            m,
            "Annotation 'scaleway.mathieubodin.io/project-id' must be a valid UUID, got: 'proj-../../x'"
        ),
        _ => panic!("expected ConfigError"),
    }
}

#[test]
fn role_lookup_passes_role_through() {
    let r = namespace_role_from_lookup("team-a", Ok("Editor".to_string()));
    assert_eq!(r.unwrap(), "Editor");
}

#[test]
fn role_lookup_not_found_is_config_error() {
    let status = kube::core::Status::failure("not found", "NotFound").with_code(404);
    let r = namespace_role_from_lookup("team-a", Err(kube::Error::Api(status.boxed())));
    match r {
        Err(OperatorError::ConfigError(m)) => assert_eq!(
            m,
            "No NamespaceRole found for namespace 'team-a'. Create a NamespaceRole resource with name 'team-a' to assign a Scaleway role."
        ),
        _ => panic!("expected ConfigError"),
    }
}

#[test]
fn role_lookup_other_api_error_is_kube_error() {
    let status = kube::core::Status::failure("boom", "InternalError").with_code(500);
    let r = namespace_role_from_lookup("team-a", Err(kube::Error::Api(status.boxed())));
    assert!(matches!(r, Err(OperatorError::KubeError(_))));
}

#[test]
fn role_lookup_outcome_uses_given_code() {
    let status = kube::core::Status::failure("x", "y").with_code(500);
    let r = role_lookup_outcome("ns", Err(kube::Error::Api(status.boxed())), Some(404));
    assert!(matches!(r, Err(OperatorError::ConfigError(_))));
}

// ── Namespace credentials ───────────────────────────────────────────────────

use scaleway_operator::reconcilers::{namespace_client, namespace_secret_key, namespace_secret_name};

fn secret_with(key: &str, bytes: Vec<u8>) -> Result<Option<BTreeMap<String, Vec<u8>>>, ()> {
    let mut data = BTreeMap::new();
    data.insert(key.to_string(), bytes);
    Ok(Some(data))
}

#[test]
fn secret_name_of_namespace() {
    assert_eq!(namespace_secret_name("team-a"), "scaleway-ns-creds-team-a");
}

#[test]
fn secret_key_is_decoded() {
    let r = namespace_secret_key("team-a", secret_with("secret_key", b"s3cr3t".to_vec()));
    assert_eq!(r.unwrap(), "s3cr3t");
}

#[test]
fn secret_key_not_utf8_is_config_error() {
    let r = namespace_secret_key("team-a", secret_with("secret_key", vec![0xff, 0xfe]));
    assert!(matches!(r, Err(OperatorError::ConfigError(m))
        if m == "Secret 'scaleway-ns-creds-team-a': 'secret_key' is not valid UTF-8."));
}

#[test]
fn secret_without_key_is_config_error() {
    let r = namespace_secret_key("team-a", secret_with("access_key", b"x".to_vec()));
    assert!(matches!(r, Err(OperatorError::ConfigError(m))
        if m == "Secret 'scaleway-ns-creds-team-a' has no 'secret_key' field."));
    let r = namespace_secret_key("team-a", Ok(None));
    assert!(matches!(r, Err(OperatorError::ConfigError(_))));
}

#[test]
fn missing_secret_is_config_error() {
    let r = namespace_secret_key("team-a", Err(()));
    assert!(matches!(r, Err(OperatorError::ConfigError(m))
        if m == "Secret 'scaleway-ns-creds-team-a' not found in namespace 'scaleway-system'. An admin must pre-provision IAM credentials for this namespace."));
}

#[test]
fn namespace_client_uses_secret_key_and_base_url() {
    let c = namespace_client("team-a", secret_with("secret_key", b"k".to_vec()), "http://h".into()).unwrap();
    assert_eq!(c.token(), "k");
    assert_eq!(c.base_url(), "http://h");
}

#[test]
fn project_id_accepts_every_uuid_form() {
    for pid in [
        "11111111111111111111111111111111",
        "550E8400-e29b-41d4-A716-446655440000",
        "{550e8400-e29b-41d4-a716-446655440000}",
        "URN:uuid:550e8400-e29b-41d4-a716-446655440000",
    ] {
        assert!(check_project_id_format(pid.to_string()).is_ok(), "{pid}");
    }
    for pid in [
        "550e8400e29b-41d4-a716-4466554400000",
        "550e8400-e29b-41d4-a716-44665544000g",
        "[550e8400-e29b-41d4-a716-446655440000]",
        "urn:uuix:550e8400-e29b-41d4-a716-446655440000",
        "",
    ] {
        assert!(check_project_id_format(pid.to_string()).is_err(), "{pid}");
    }
}
