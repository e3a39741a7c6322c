use scaleway_operator::reconcilers::{
    decide_next_action, decide_next_action_lb, retry_key, role_allows_write,
    LbReconcileDecision, LbReconcileInput, ReconcileDecision, ReconcileInput,
};

fn base_input() -> ReconcileInput {
    ReconcileInput {
        deletion_requested: false,
        circuit_open: false,
        finalizer_present: true,
        scaleway_role: "Editor".to_string(),
        project_id: "11111111-1111-1111-1111-111111111111".to_string(),
        scaleway_id: None,
        status_project_id: Some("11111111-1111-1111-1111-111111111111".to_string()),
    }
}

#[test]
fn test_decide_circuit_open_returns_skip() {
    let input = ReconcileInput { circuit_open: true, ..base_input() };
    assert!(matches!(decide_next_action(&input), ReconcileDecision::SkipCircuitOpen));
}

#[test]
fn test_decide_finalizer_absent_returns_add_finalizer() {
    let input = ReconcileInput { finalizer_present: false, ..base_input() };
    assert!(matches!(decide_next_action(&input), ReconcileDecision::AddFinalizer));
}

#[test]
fn test_decide_readonly_role_no_scaleway_id_returns_block() {
    let input = ReconcileInput { scaleway_role: "Viewer".to_string(), ..base_input() };
    assert!(matches!(decide_next_action(&input), ReconcileDecision::BlockReadOnlyRole));
}

#[test]
fn test_decide_no_scaleway_id_write_role_returns_create() {
    let input = base_input();
    assert!(matches!(decide_next_action(&input), ReconcileDecision::CreateInstance { .. }));
}

#[test]
fn test_decide_scaleway_id_present_returns_sync() {
    let input = ReconcileInput { scaleway_id: Some("srv-abc123".to_string()), ..base_input() };
    assert!(matches!(decide_next_action(&input), ReconcileDecision::SyncInstance { .. }));
}

#[test]
fn test_decide_deletion_with_scaleway_id_returns_delete() {
    let input = ReconcileInput {
        deletion_requested: true,
        scaleway_id: Some("srv-abc123".to_string()),
        ..base_input()
    };
    assert!(matches!(decide_next_action(&input), ReconcileDecision::DeleteInstance { .. }));
}

#[test]
fn test_decide_deletion_without_scaleway_id_returns_remove_finalizer() {
    let input = ReconcileInput { deletion_requested: true, scaleway_id: None, ..base_input() };
    assert!(matches!(decide_next_action(&input), ReconcileDecision::RemoveFinalizer));
}

#[test]
fn test_editor_allows_write() {
    assert!(role_allows_write("Editor"));
}

#[test]
fn test_admin_allows_write() {
    assert!(role_allows_write("Admin"));
}

#[test]
fn test_organization_owner_allows_write() {
    assert!(role_allows_write("OrganizationOwner"));
}

#[test]
fn test_viewer_does_not_allow_write() {
    assert!(!role_allows_write("Viewer"));
}

#[test]
fn test_billing_viewer_does_not_allow_write() {
    assert!(!role_allows_write("BillingViewer"));
}

#[test]
fn test_security_responsible_does_not_allow_write() {
    assert!(!role_allows_write("SecurityResponsible"));
}

#[test]
fn test_unknown_role_does_not_allow_write() {
    assert!(!role_allows_write("UnknownRole"));
}

fn base_lb_input() -> LbReconcileInput {
    LbReconcileInput {
        deletion_requested: false,
        circuit_open: false,
        finalizer_present: true,
        scaleway_role: "Editor".to_string(),
        project_id: "11111111-1111-1111-1111-111111111111".to_string(),
        scaleway_id: None,
        status_project_id: Some("11111111-1111-1111-1111-111111111111".to_string()),
    }
}

#[test]
fn test_lb_decide_default_base_returns_create() {
    let input = base_lb_input();
    assert!(matches!(
        decide_next_action_lb(&input),
        LbReconcileDecision::CreateLoadBalancer { .. }
    ));
}

#[test]
fn test_lb_decide_finalizer_absent_returns_add_finalizer() {
    let input = LbReconcileInput { finalizer_present: false, ..base_lb_input() };
    assert!(matches!(decide_next_action_lb(&input), LbReconcileDecision::AddLbFinalizer));
}

#[test]
fn test_lb_decide_circuit_open_returns_skip() {
    let input = LbReconcileInput { circuit_open: true, ..base_lb_input() };
    assert!(matches!(decide_next_action_lb(&input), LbReconcileDecision::SkipCircuitOpen));
}

#[test]
fn test_lb_decide_scaleway_id_present_returns_sync() {
    let input = LbReconcileInput { scaleway_id: Some("lb-abc".to_string()), ..base_lb_input() };
    assert!(matches!(
        decide_next_action_lb(&input),
        LbReconcileDecision::SyncLoadBalancer { .. }
    ));
}

#[test]
fn test_lb_decide_deletion_with_scaleway_id_returns_delete() {
    let input = LbReconcileInput {
        deletion_requested: true,
        scaleway_id: Some("lb-abc".to_string()),
        ..base_lb_input()
    };
    assert!(matches!(
        decide_next_action_lb(&input),
        LbReconcileDecision::DeleteLoadBalancer { .. }
    ));
}

#[test]
fn test_lb_decide_deletion_without_scaleway_id_returns_remove_finalizer() {
    let input = LbReconcileInput { deletion_requested: true, scaleway_id: None, ..base_lb_input() };
    assert!(matches!(decide_next_action_lb(&input), LbReconcileDecision::RemoveLbFinalizer));
}

#[test]
fn test_lb_decide_viewer_role_returns_block() {
    let input = LbReconcileInput { scaleway_role: "Viewer".to_string(), ..base_lb_input() };
    assert!(matches!(decide_next_action_lb(&input), LbReconcileDecision::BlockReadOnlyRole));
}

#[test]
fn test_lb_decide_no_status_project_id_returns_verify() {
    let input = LbReconcileInput { status_project_id: None, ..base_lb_input() };
    assert!(matches!(
        decide_next_action_lb(&input),
        LbReconcileDecision::VerifyProjectAccessLb { .. }
    ));
}

#[test]
fn test_retry_key_instance_has_kind_prefix() {
    let instance_key = retry_key("instance", "production", "web");
    let lb_key = retry_key("loadbalancer", "production", "web");
    assert_ne!(instance_key, lb_key, "instance and LB keys must not collide");
    assert!(instance_key.starts_with("instance/"));
    assert!(lb_key.starts_with("loadbalancer/"));
}

// ── Further decision cases ──────────────────────────────────────────────────

#[test]
fn decide_no_status_project_id_returns_verify_with_project() {
    let input = ReconcileInput { status_project_id: None, ..base_input() };
    match decide_next_action(&input) {
        ReconcileDecision::VerifyProjectAccess { project_id } => {
            assert_eq!(project_id, "11111111-1111-1111-1111-111111111111")
        }
        _ => panic!("expected VerifyProjectAccess"),
    }
}

#[test]
fn decide_sync_carries_ids() {
    let input = ReconcileInput { scaleway_id: Some("srv-1".to_string()), ..base_input() };
    match decide_next_action(&input) {
        ReconcileDecision::SyncInstance { scaleway_id, project_id } => {
            assert_eq!(scaleway_id, "srv-1");
            assert_eq!(project_id, "11111111-1111-1111-1111-111111111111");
        }
        _ => panic!("expected SyncInstance"),
    }
}

#[test]
fn decide_deletion_wins_over_open_circuit_and_missing_finalizer() {
    let input = ReconcileInput {
        deletion_requested: true,
        circuit_open: true,
        finalizer_present: false,
        scaleway_id: Some("srv-9".to_string()),
        ..base_input()
    };
    match decide_next_action(&input) {
        ReconcileDecision::DeleteInstance { scaleway_id } => assert_eq!(scaleway_id, "srv-9"),
        _ => panic!("expected DeleteInstance"),
    }
}

#[test]
fn decide_open_circuit_wins_over_missing_finalizer() {
    let input = ReconcileInput { circuit_open: true, finalizer_present: false, ..base_input() };
    assert!(matches!(decide_next_action(&input), ReconcileDecision::SkipCircuitOpen));
}

#[test]
fn decide_viewer_with_known_instance_still_syncs() {
    let input = ReconcileInput {
        scaleway_role: "Viewer".to_string(),
        scaleway_id: Some("srv-2".to_string()),
        ..base_input()
    };
    assert!(matches!(decide_next_action(&input), ReconcileDecision::SyncInstance { .. }));
}

#[test]
fn lb_decision_matches_instance_decision_on_same_facts() {
    let cases = [
        (false, false, true, "Editor", None, true),
        (false, true, true, "Editor", None, true),
        (false, false, false, "Editor", None, true),
        (false, false, true, "Viewer", None, true),
        (false, false, true, "Editor", Some("x"), true),
        (false, false, true, "Editor", None, false),
        (true, false, true, "Editor", Some("x"), true),
        (true, false, true, "Editor", None, true),
    ];
    for (del, open, fin, role, id, has_pid) in cases {
        let input = ReconcileInput {
            deletion_requested: del,
            circuit_open: open,
            finalizer_present: fin,
            scaleway_role: role.to_string(),
            project_id: "p".to_string(),
            scaleway_id: id.map(|s| s.to_string()),
            status_project_id: if has_pid { Some("p".to_string()) } else { None },
        };
        let lb = LbReconcileInput {
            deletion_requested: del,
            circuit_open: open,
            finalizer_present: fin,
            scaleway_role: role.to_string(),
            project_id: "p".to_string(),
            scaleway_id: id.map(|s| s.to_string()),
            status_project_id: if has_pid { Some("p".to_string()) } else { None },
        };
        let same = match (decide_next_action(&input), decide_next_action_lb(&lb)) {
            (ReconcileDecision::SkipCircuitOpen, LbReconcileDecision::SkipCircuitOpen) => true,
            (ReconcileDecision::AddFinalizer, LbReconcileDecision::AddLbFinalizer) => true,
            (ReconcileDecision::BlockReadOnlyRole, LbReconcileDecision::BlockReadOnlyRole) => true,
            (
                ReconcileDecision::VerifyProjectAccess { .. },
                LbReconcileDecision::VerifyProjectAccessLb { .. },
            ) => true,
            (ReconcileDecision::CreateInstance { .. }, LbReconcileDecision::CreateLoadBalancer { .. }) => true,
            (ReconcileDecision::SyncInstance { .. }, LbReconcileDecision::SyncLoadBalancer { .. }) => true,
            (ReconcileDecision::DeleteInstance { .. }, LbReconcileDecision::DeleteLoadBalancer { .. }) => true,
            (ReconcileDecision::RemoveFinalizer, LbReconcileDecision::RemoveLbFinalizer) => true,
            _ => false,
        };
        assert!(same);
    }
}

#[test]
fn retry_key_format() {
    assert_eq!(retry_key("instance", "default", "web"), "instance/default/web");
    assert_eq!(retry_key("loadbalancer", "", "lb"), "loadbalancer//lb");
}

// ── Finalizer lists ─────────────────────────────────────────────────────────

use scaleway_operator::reconcilers::{
    finalizers_with, finalizers_without, has_finalizer, INSTANCE_FINALIZER,
};

#[test]
fn finalizer_added_then_found() {
    let none: Option<Vec<String>> = None;
    assert!(!has_finalizer(&none, INSTANCE_FINALIZER));
    let added = finalizers_with(&Some(vec!["a/b".to_string()]), INSTANCE_FINALIZER);
    assert_eq!(added, vec!["a/b".to_string(), INSTANCE_FINALIZER.to_string()]);
    assert!(has_finalizer(&Some(added), INSTANCE_FINALIZER));
}

#[test]
fn finalizer_removal_keeps_others_in_order() {
    let list = Some(vec![
        "x/one".to_string(),
        INSTANCE_FINALIZER.to_string(),
        "x/two".to_string(),
        INSTANCE_FINALIZER.to_string(),
    ]);
    let out = finalizers_without(&list, INSTANCE_FINALIZER);
    assert_eq!(out, vec!["x/one".to_string(), "x/two".to_string()]);
    assert!(!has_finalizer(&Some(out), INSTANCE_FINALIZER));
    assert!(finalizers_without(&None, INSTANCE_FINALIZER).is_empty());
}

#[test]
fn finalizer_add_then_remove_gives_list_back() {
    let before = vec!["x/one".to_string()];
    let added = finalizers_with(&Some(before.clone()), INSTANCE_FINALIZER);
    assert_eq!(finalizers_without(&Some(added), INSTANCE_FINALIZER), before);
}
