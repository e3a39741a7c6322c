use scaleway_operator::context::RetryCounts;
use scaleway_operator::error::OperatorError;
use scaleway_operator::reconcilers::{
    backoff_delay_secs, error_policy_inner, is_permanent_error, resource_error_policy,
    retry_key, settle_retry_count, ReconcileAction,
};

#[test]
fn test_for_status_scaleway_error_extracts_message_field() {
    let e = OperatorError::ScalewayError {
        status: "403 Forbidden".to_string(),
        message: r#"{"message":"Permission denied","resource_id":"srv-abc123","type":"forbidden"}"#
            .to_string(),
    };
    assert_eq!(e.for_status(), "Scaleway API error: 403 Forbidden — Permission denied");
}

#[test]
fn test_for_status_scaleway_error_non_json_fallback() {
    let e = OperatorError::ScalewayError {
        status: "500 Internal Server Error".to_string(),
        message: "plain text error".to_string(),
    };
    assert_eq!(e.for_status(), "Scaleway API error: 500 Internal Server Error");
}

#[test]
fn test_for_status_scaleway_error_json_without_message_field() {
    let e = OperatorError::ScalewayError {
        status: "404 Not Found".to_string(),
        message: r#"{"code":404,"resource_id":"srv-xyz"}"#.to_string(),
    };
    assert_eq!(e.for_status(), "Scaleway API error: 404 Not Found");
}

#[test]
fn test_for_status_scaleway_error_non_string_message_value() {
    let e = OperatorError::ScalewayError {
        status: "400 Bad Request".to_string(),
        message: r#"{"message":42}"#.to_string(),
    };
    assert_eq!(e.for_status(), "Scaleway API error: 400 Bad Request");
}

#[test]
fn test_for_status_network_error_sanitized() {
    let e = OperatorError::Unknown("some error".to_string());
    assert_eq!(e.for_status(), "Unknown error: some error");
}

#[test]
fn test_for_status_instance_not_found_passthrough() {
    let e = OperatorError::InstanceNotFound("srv-abc".to_string());
    assert_eq!(e.for_status(), "Instance not found: srv-abc");
}

#[test]
fn test_for_status_config_error_passthrough() {
    let e = OperatorError::ConfigError("bad annotation".to_string());
    assert_eq!(e.for_status(), "Configuration error: bad annotation");
}

#[test]
fn test_for_status_secret_not_found_passthrough() {
    let e = OperatorError::SecretNotFound("Key 'token' missing".to_string());
    assert_eq!(e.for_status(), "Secret not found: Key 'token' missing");
}

#[test]
fn test_for_status_secret_source_not_configured_passthrough() {
    let e = OperatorError::SecretSourceNotConfigured("missing source".to_string());
    assert_eq!(e.for_status(), "Secret source not configured: missing source");
}

#[test]
fn test_for_status_secret_opt_in_missing_passthrough() {
    let e = OperatorError::SecretOptInMissing("label required".to_string());
    assert_eq!(e.for_status(), "Secret opt-in missing: label required");
}

#[test]
fn test_for_status_circuit_breaker_open_generic() {
    let e = OperatorError::CircuitBreakerOpen;
    assert_eq!(e.for_status(), "Scaleway API temporarily unavailable");
}

#[test]
fn test_lb_not_found_metric_label() {
    let e = OperatorError::LbNotFound("lb-abc123".to_string());
    assert_eq!(e.metric_label(), "LbNotFound");
}

#[test]
fn test_lb_not_found_for_status_passthrough() {
    let e = OperatorError::LbNotFound("lb-xyz".to_string());
    assert_eq!(e.for_status(), "Load balancer not found: lb-xyz");
}

#[test]
fn test_secret_not_found_metric_label() {
    let e = OperatorError::SecretNotFound("my-secret".to_string());
    assert_eq!(e.metric_label(), "SecretNotFound");
}

#[test]
fn test_secret_source_not_configured_metric_label() {
    let e = OperatorError::SecretSourceNotConfigured("no source".to_string());
    assert_eq!(e.metric_label(), "SecretSourceNotConfigured");
}

#[test]
fn test_secret_opt_in_missing_metric_label() {
    let e = OperatorError::SecretOptInMissing("no label".to_string());
    assert_eq!(e.metric_label(), "SecretOptInMissing");
}

#[test]
fn test_secret_not_found_is_not_permanent() {
    let e = OperatorError::SecretNotFound("my-secret".to_string());
    assert!(!e.is_permanent_error());
}

#[test]
fn test_secret_source_not_configured_is_permanent() {
    let e = OperatorError::SecretSourceNotConfigured("bad spec".to_string());
    assert!(e.is_permanent_error());
}

#[test]
fn test_transient_errors_are_not_permanent() {
    assert!(!OperatorError::CircuitBreakerOpen.is_permanent_error());
    assert!(!OperatorError::Unknown("oops".to_string()).is_permanent_error());
    assert!(!OperatorError::SecretNotFound("sec".to_string()).is_permanent_error());
}

#[test]
fn error_test_invalid_zone_is_permanent() {
    let e = OperatorError::InvalidZone("bad-zone".to_string());
    assert!(e.is_permanent_error());
}

#[test]
fn error_test_invalid_instance_type_is_permanent() {
    let e = OperatorError::InvalidInstanceType("MEGA-XL".to_string());
    assert!(e.is_permanent_error());
}

#[test]
fn test_invalid_lb_type_is_permanent() {
    let e = OperatorError::InvalidLbType("MEGA-LB".to_string());
    assert!(e.is_permanent_error());
}

#[test]
fn error_test_config_error_is_permanent() {
    let e = OperatorError::ConfigError("bad annotation".to_string());
    assert!(e.is_permanent_error());
}

#[test]
fn error_test_project_access_denied_is_permanent() {
    let e = OperatorError::ProjectAccessDenied("proj-x".to_string());
    assert!(e.is_permanent_error());
}

#[test]
fn test_secret_opt_in_missing_is_permanent() {
    let e = OperatorError::SecretOptInMissing("no label".to_string());
    assert!(e.is_permanent_error());
}

#[test]
fn error_test_scaleway_error_is_transient() {
    let e = OperatorError::ScalewayError {
        status: "500 Internal Server Error".to_string(),
        message: "server error".to_string(),
    };
    assert!(!e.is_permanent_error());
}

#[test]
fn test_finalization_error_is_transient() {
    let e = OperatorError::FinalizationError("timeout".to_string());
    assert!(!e.is_permanent_error());
}

#[test]
fn test_circuit_breaker_open_variant_exists() {
    let _ = OperatorError::CircuitBreakerOpen;
}

// ── Classification used by the error policy ─────────────────────────────────

#[test]
fn reconcilers_test_config_error_is_permanent() {
    assert!(is_permanent_error(&OperatorError::ConfigError("bad annotation".into())));
}

#[test]
fn reconcilers_test_invalid_zone_is_permanent() {
    assert!(is_permanent_error(&OperatorError::InvalidZone("us-east-1".into())));
}

#[test]
fn reconcilers_test_invalid_instance_type_is_permanent() {
    assert!(is_permanent_error(&OperatorError::InvalidInstanceType("MEGA-XL".into())));
}

#[test]
fn reconcilers_test_project_access_denied_is_permanent() {
    assert!(is_permanent_error(&OperatorError::ProjectAccessDenied("proj-x".into())));
}

#[test]
fn reconcilers_test_scaleway_error_is_transient() {
    assert!(!is_permanent_error(&OperatorError::ScalewayError {
        status: "500 Internal Server Error".into(),
        message: "server error".into(),
    }));
}

#[test]
fn test_kube_error_is_transient() {
    assert!(!is_permanent_error(&OperatorError::FinalizationError("timeout".into())));
}

#[test]
fn test_unknown_error_is_transient() {
    assert!(!is_permanent_error(&OperatorError::Unknown("mystery".into())));
}

#[test]
fn secret_source_errors_wait_for_a_change() {
    assert!(is_permanent_error(&OperatorError::SecretSourceNotConfigured("x".into())));
    assert!(is_permanent_error(&OperatorError::SecretOptInMissing("x".into())));
    assert!(!is_permanent_error(&OperatorError::SecretNotFound("x".into())));
    assert!(!is_permanent_error(&OperatorError::CircuitBreakerOpen));
    let mut counts = RetryCounts::new();
    for err in [
        OperatorError::SecretSourceNotConfigured("x".into()),
        OperatorError::SecretOptInMissing("x".into()),
    ] {
        let action = resource_error_policy("instance", "default", "test", &err, &mut counts);
        assert_eq!(action, ReconcileAction::AwaitChange);
    }
    assert_eq!(counts.get("instance/default/test"), 0);
}

#[test]
fn metric_labels_of_every_variant() {
    let cases: Vec<(OperatorError, &str)> = vec![
        (OperatorError::ScalewayError { status: "s".into(), message: "m".into() }, "ScalewayError"),
        (OperatorError::ProjectAccessDenied("p".into()), "ProjectAccessDenied"),
        (OperatorError::InstanceNotFound("i".into()), "InstanceNotFound"),
        (OperatorError::LbNotFound("l".into()), "LbNotFound"),
        (OperatorError::InvalidZone("z".into()), "InvalidZone"),
        (OperatorError::InvalidInstanceType("t".into()), "InvalidInstanceType"),
        (OperatorError::InvalidLbType("t".into()), "InvalidLbType"),
        (OperatorError::ConfigError("c".into()), "ConfigError"),
        (OperatorError::FinalizationError("f".into()), "FinalizationError"),
        (OperatorError::SecretNotFound("s".into()), "SecretNotFound"),
        (OperatorError::SecretSourceNotConfigured("s".into()), "SecretSourceNotConfigured"),
        (OperatorError::SecretOptInMissing("s".into()), "SecretOptInMissing"),
        (OperatorError::Unknown("u".into()), "Unknown"),
        (OperatorError::CircuitBreakerOpen, "CircuitBreakerOpen"),
    ];
    for (e, label) in cases {
        assert_eq!(e.metric_label(), label);
    }
}

#[test]
fn for_status_of_remaining_variants() {
    assert_eq!(
        OperatorError::ProjectAccessDenied("p1".into()).for_status(),
        "Project access denied: p1"
    );
    assert_eq!(OperatorError::InvalidZone("us-east-1".into()).for_status(), "Invalid zone: us-east-1");
    assert_eq!(
        OperatorError::InvalidInstanceType("X".into()).for_status(),
        "Invalid instance type: X"
    );
    assert_eq!(
        OperatorError::InvalidLbType("Y".into()).for_status(),
        "Invalid load balancer type: Y"
    );
    assert_eq!(
        OperatorError::FinalizationError("t".into()).for_status(),
        "Finalization error: t"
    );
}

#[test]
fn for_status_serialization_error_is_generic() {
    let parse_error = serde_json::from_str::<serde_json::Value>("{not json").unwrap_err();
    let e = OperatorError::SerializationError(parse_error);
    assert_eq!(e.for_status(), "Response parsing error");
    assert_eq!(e.metric_label(), "SerializationError");
}

#[test]
fn for_status_kube_error_is_generic() {
    let status = kube::core::Status::failure("secret address 10.0.0.1", "Internal").with_code(500);
    let e = OperatorError::KubeError(kube::Error::Api(status.boxed()));
    assert_eq!(e.for_status(), "Kubernetes API error");
    assert_eq!(e.metric_label(), "KubeError");
    assert!(!is_permanent_error(&e));
}

// ── Backoff and error policy ────────────────────────────────────────────────

#[test]
fn backoff_schedule_values() {
    let expected = [30u64, 60, 120, 240, 300, 300, 300, 300, 300, 300, 300];
    for (i, want) in expected.iter().enumerate() {
        assert_eq!(backoff_delay_secs(i as u32 + 1), *want);
    }
    assert_eq!(backoff_delay_secs(u32::MAX), 300);
}

#[test]
fn test_error_policy_permanent_error_returns_await_change() {
    let mut counts = RetryCounts::new();
    for err in [
        OperatorError::InvalidZone("bad".to_string()),
        OperatorError::InvalidInstanceType("bad".to_string()),
        OperatorError::InvalidLbType("bad".to_string()),
        OperatorError::ConfigError("bad".to_string()),
        OperatorError::ProjectAccessDenied("bad".to_string()),
    ] {
        let action = resource_error_policy("instance", "default", "test", &err, &mut counts);
        assert_eq!(action, ReconcileAction::AwaitChange);
    }
    assert_eq!(counts.get("instance/default/test"), 0);
}

#[test]
fn test_error_policy_transient_error_returns_requeue_with_backoff() {
    let mut counts = RetryCounts::new();
    let err = OperatorError::Unknown("transient".to_string());
    assert_eq!(
        resource_error_policy("instance", "default", "test", &err, &mut counts),
        ReconcileAction::Requeue(30)
    );
    assert_eq!(
        resource_error_policy("instance", "default", "test", &err, &mut counts),
        ReconcileAction::Requeue(60)
    );
    assert_eq!(
        resource_error_policy("instance", "default", "test", &err, &mut counts),
        ReconcileAction::Requeue(120)
    );
}

#[test]
fn test_error_policy_circuit_breaker_returns_requeue() {
    let mut counts = RetryCounts::new();
    let err = OperatorError::CircuitBreakerOpen;
    let action = resource_error_policy("instance", "default", "test", &err, &mut counts);
    assert_ne!(action, ReconcileAction::AwaitChange);
    assert_eq!(action, ReconcileAction::Requeue(30));
}

#[test]
fn test_error_policy_backoff_caps_at_300s() {
    let mut counts = RetryCounts::new();
    let err = OperatorError::Unknown("transient".to_string());
    let mut last = ReconcileAction::Requeue(0);
    for _ in 0..10 {
        last = resource_error_policy("instance", "default", "test", &err, &mut counts);
    }
    assert_eq!(last, ReconcileAction::Requeue(300));
    assert_eq!(counts.get("instance/default/test"), 10);
}

#[test]
fn test_error_policy_loadbalancer_kind_uses_separate_retry_counter() {
    let mut counts = RetryCounts::new();
    let err = OperatorError::Unknown("transient".to_string());
    resource_error_policy("instance", "default", "test", &err, &mut counts);
    let lb_action = resource_error_policy("loadbalancer", "default", "test", &err, &mut counts);
    assert_eq!(lb_action, ReconcileAction::Requeue(30));
    assert_eq!(counts.get("instance/default/test"), 1);
    assert_eq!(counts.get("loadbalancer/default/test"), 1);
}

#[test]
fn success_resets_backoff_to_thirty_seconds() {
    let mut counts = RetryCounts::new();
    let key = retry_key("instance", "default", "web");
    let err = OperatorError::Unknown("transient".to_string());
    for _ in 0..4 {
        error_policy_inner(&key, &err, &mut counts);
    }
    assert_eq!(counts.get(&key), 4);
    settle_retry_count(&key, &Ok(ReconcileAction::Requeue(30)), &mut counts);
    assert_eq!(counts.get(&key), 0);
    assert_eq!(error_policy_inner(&key, &err, &mut counts), ReconcileAction::Requeue(30));
}

#[test]
fn failed_pass_keeps_retry_count() {
    let mut counts = RetryCounts::new();
    let key = retry_key("instance", "default", "web");
    let err = OperatorError::Unknown("transient".to_string());
    error_policy_inner(&key, &err, &mut counts);
    settle_retry_count(&key, &Err(OperatorError::Unknown("again".into())), &mut counts);
    assert_eq!(counts.get(&key), 1);
}

#[test]
fn retry_counts_increment_and_reset() {
    let mut counts = RetryCounts::new();
    assert_eq!(counts.increment_retry_count("a"), 1);
    assert_eq!(counts.increment_retry_count("a"), 2);
    assert_eq!(counts.increment_retry_count("b"), 1);
    counts.reset_retry_count("a");
    assert_eq!(counts.get("a"), 0);
    assert_eq!(counts.get("b"), 1);
    assert_eq!(counts.increment_retry_count("a"), 1);
}
