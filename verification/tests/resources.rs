use scaleway_operator::metrics::{is_ready, ReconcileOutcome};
use scaleway_operator::resources::{
    default_boot_size, InstanceStatus, LoadBalancerStatus, NamespaceRoleStatus,
};

#[test]
fn test_load_balancer_status_default_values() {
    let status = LoadBalancerStatus::default();
    assert_eq!(status.scaleway_id, None);
    assert_eq!(status.vip_address, None);
    assert_eq!(status.state, "");
    assert_eq!(status.project_id, None);
    assert_eq!(status.created_at, None);
    assert_eq!(status.error_message, None);
    assert_eq!(status.sync_state, "Pending");
}

#[test]
fn test_instance_status_default_values() {
    let status = InstanceStatus::default();
    assert_eq!(status.scaleway_id, None);
    assert_eq!(status.public_ip, None);
    assert_eq!(status.state, "unknown");
    assert_eq!(status.project_id, None);
    assert_eq!(status.created_at, None);
    assert_eq!(status.error_message, None);
    assert_eq!(status.sync_state, "Syncing");
}

#[test]
fn test_namespace_role_status_default_last_updated_is_none() {
    let status = NamespaceRoleStatus::default();
    assert_eq!(status.last_updated, None);
    assert_eq!(status.validation_state, "Validated");
    assert_eq!(status.error_message, None);
}

#[test]
fn test_namespace_role_status_default_is_deterministic() {
    let s1 = NamespaceRoleStatus::default();
    let s2 = NamespaceRoleStatus::default();
    assert_eq!(s1.last_updated, s2.last_updated);
    assert_eq!(s1.validation_state, s2.validation_state);
}

#[test]
fn default_boot_size_is_twenty() {
    assert_eq!(default_boot_size(), 20);
}

#[test]
fn duplicate_copies_every_field() {
    let s = LoadBalancerStatus {
        scaleway_id: Some("lb-1".into()),
        vip_address: Some("1.2.3.4".into()),
        state: "ready".into(),
        project_id: Some("p".into()),
        created_at: None,
        error_message: Some("e".into()),
        sync_state: "Synced".into(),
    };
    assert_eq!(s.duplicate(), s);
}

#[test]
fn test_reconcile_outcome_display_no_spaces() {
    let variants = [
        ReconcileOutcome::Created,
        ReconcileOutcome::Synced,
        ReconcileOutcome::Adopted,
        ReconcileOutcome::Deleted,
        ReconcileOutcome::Error,
    ];
    for variant in &variants {
        let s = variant.to_string();
        assert!(!s.is_empty(), "Display of {:?} must not be empty", variant);
        assert!(!s.contains(' '), "Display of {:?} must not contain spaces, got: {:?}", variant, s);
    }
}

#[test]
fn reconcile_outcome_labels() {
    assert_eq!(ReconcileOutcome::Created.as_str(), "Created");
    assert_eq!(ReconcileOutcome::Synced.as_str(), "Synced");
    assert_eq!(ReconcileOutcome::Adopted.as_str(), "Adopted");
    assert_eq!(ReconcileOutcome::Deleted.as_str(), "Deleted");
    assert_eq!(ReconcileOutcome::Error.as_str(), "Error");
    assert!(ReconcileOutcome::Deleted.marks_progress());
    assert!(!ReconcileOutcome::Error.marks_progress());
}

#[test]
fn readiness_window() {
    assert!(!is_ready(0, 100));
    assert!(is_ready(1_000, 1_059));
    assert!(!is_ready(1_000, 1_060));
    assert!(is_ready(1_000, 900));
}
