use scaleway_operator::error::OperatorError;
use scaleway_operator::resources::{InstanceSpec, LoadBalancerSpec};
use scaleway_operator::scaleway::ScalewayClient;

fn test_client() -> ScalewayClient {
    ScalewayClient::new("test-token".to_string()).unwrap()
}

fn test_spec() -> InstanceSpec {
    InstanceSpec {
        name: "my-instance".to_string(),
        zone: "fr-par-1".to_string(),
        image: "ubuntu-jammy".to_string(),
        instance_type: "DEV1-S".to_string(),
        tags: vec![],
        boot_volume_size: 20,
        network: None,
        security: None,
    }
}

fn test_lb_spec() -> LoadBalancerSpec {
    LoadBalancerSpec {
        name: "my-lb".to_string(),
        zone: "fr-par-1".to_string(),
        lb_type: "LB-S".to_string(),
        description: None,
        tags: vec![],
    }
}

#[test]
fn test_validate_zone_valid_fr_par_1() {
    assert!(test_client().validate_zone("fr-par-1").is_ok());
}

#[test]
fn test_validate_zone_valid_it_mil_1() {
    assert!(test_client().validate_zone("it-mil-1").is_ok());
}

#[test]
fn test_validate_zone_all_valid() {
    let client = test_client();
    for zone in &["fr-par-1", "fr-par-2", "nl-ams-1", "pl-waw-1", "sg-sin-1", "it-mil-1"] {
        assert!(client.validate_zone(zone).is_ok(), "Zone {} should be valid", zone);
    }
}

#[test]
fn test_validate_zone_invalid_us_east() {
    let result = test_client().validate_zone("us-east-1");
    assert!(matches!(result, Err(OperatorError::InvalidZone(z)) if z == "us-east-1"));
}

#[test]
fn test_validate_zone_empty_string() {
    let result = test_client().validate_zone("");
    assert!(matches!(result, Err(OperatorError::InvalidZone(_))));
}

#[test]
fn test_validate_instance_type_dev1_s() {
    assert!(test_client().validate_instance_type("DEV1-S").is_ok());
}

#[test]
fn test_validate_instance_type_gp1_xl() {
    assert!(test_client().validate_instance_type("GP1-XL").is_ok());
}

#[test]
fn test_validate_instance_type_unknown() {
    let result = test_client().validate_instance_type("MEGA-XL");
    assert!(matches!(result, Err(OperatorError::InvalidInstanceType(t)) if t == "MEGA-XL"));
}

#[test]
fn test_validate_instance_type_case_sensitive() {
    let result = test_client().validate_instance_type("dev1-s");
    assert!(matches!(result, Err(OperatorError::InvalidInstanceType(_))));
}

#[test]
fn test_validate_lb_type_valid() {
    let client = test_client();
    assert!(client.validate_lb_type("LB-S").is_ok());
    assert!(client.validate_lb_type("LB-GP").is_ok());
}

#[test]
fn test_validate_lb_type_invalid() {
    let result = test_client().validate_lb_type("MEGA-LB");
    assert!(matches!(result, Err(OperatorError::InvalidLbType(_))));
}

// ── Responses ───────────────────────────────────────────────────────────────

#[test]
fn test_create_instance_success() {
    let result = ScalewayClient::create_instance_outcome(201, Ok(r#"{"server": {"id": "srv-abc123"}}"#.to_string()));
    assert_eq!(result.unwrap(), "srv-abc123");
}

#[test]
fn test_create_instance_error_returns_scaleway_error() {
    let result = ScalewayClient::create_instance_outcome(422, Ok(r#"{"message": "invalid spec"}"#.to_string()));
    if let Err(OperatorError::ScalewayError { status, message }) = result {
        assert!(status.contains("422"), "Expected 422 in status, got: {}", status);
        assert_eq!(status, "422 Unprocessable Entity");
        assert!(message.contains("invalid spec"));
    } else {
        panic!("Expected ScalewayError");
    }
}

#[test]
fn create_instance_without_id_is_unknown_error() {
    let result = ScalewayClient::create_instance_outcome(200, Ok(r#"{"server": {}}"#.to_string()));
    assert!(matches!(result, Err(OperatorError::Unknown(m)) if m == "No instance ID in response"));
}

#[test]
fn create_instance_non_json_body_is_parse_error() {
    let result = ScalewayClient::create_instance_outcome(200, Ok("not json".to_string()));
    assert!(matches!(result, Err(OperatorError::SerializationError(_))));
}

#[test]
fn test_find_instance_by_name_found() {
    let result = ScalewayClient::find_instance_outcome(200, Ok(r#"{"servers": [{"id": "srv-found"}]}"#.to_string()));
    assert_eq!(result.unwrap(), Some("srv-found".to_string()));
}

#[test]
fn test_find_instance_by_name_not_found_empty_list() {
    let result = ScalewayClient::find_instance_outcome(200, Ok(r#"{"servers": []}"#.to_string()));
    assert_eq!(result.unwrap(), None);
}

#[test]
fn test_find_instance_by_name_404_returns_none() {
    let result = ScalewayClient::find_instance_outcome(404, Ok("".to_string()));
    assert_eq!(result.unwrap(), None);
}

#[test]
fn test_find_instance_by_name_403_returns_err() {
    let result = ScalewayClient::find_instance_outcome(403, Ok(r#"{"message": "forbidden"}"#.to_string()));
    assert!(result.is_err(), "403 should return Err, not Ok(None)");
    assert!(matches!(result.unwrap_err(), OperatorError::ScalewayError { .. }));
}

#[test]
fn test_find_instance_by_name_429_returns_err() {
    let result = ScalewayClient::find_instance_outcome(429, Ok(r#"{"message": "rate limited"}"#.to_string()));
    assert!(result.is_err(), "429 should return Err, not Ok(None)");
}

#[test]
fn test_get_instance_success() {
    let body = r#"{"server": {"id": "srv-123", "state": "running", "public_ip": {"address": "1.2.3.4"}, "creation_date": "2026-01-01T00:00:00Z"}}"#;
    let info = ScalewayClient::get_instance_outcome(200, Ok(body.to_string()), "srv-123").unwrap();
    assert_eq!(info.id, "srv-123");
    assert_eq!(info.state, "running");
    assert_eq!(info.public_ip, Some("1.2.3.4".to_string()));
    assert_eq!(info.created_at, Some("2026-01-01T00:00:00Z".to_string()));
}

#[test]
fn get_instance_without_state_is_unknown_state() {
    let info = ScalewayClient::get_instance_outcome(200, Ok(r#"{"server": {"id": "srv-1"}}"#.to_string()), "srv-1").unwrap();
    assert_eq!(info.state, "unknown");
    assert_eq!(info.public_ip, None);
    assert_eq!(info.created_at, None);
}

#[test]
fn test_get_instance_404_returns_not_found() {
    let result = ScalewayClient::get_instance_outcome(404, Ok("".to_string()), "srv-gone");
    assert!(matches!(result, Err(OperatorError::InstanceNotFound(id)) if id == "srv-gone"));
}

#[test]
fn test_get_instance_401_returns_scaleway_error_not_not_found() {
    let result = ScalewayClient::get_instance_outcome(401, Ok(r#"{"message": "unauthorized"}"#.to_string()), "srv-x");
    assert!(matches!(result, Err(OperatorError::ScalewayError { .. })));
}

#[test]
fn test_delete_instance_success() {
    assert!(ScalewayClient::delete_instance_outcome(204, Ok("".to_string())).is_ok());
}

#[test]
fn test_delete_instance_404_is_success() {
    assert!(ScalewayClient::delete_instance_outcome(404, Ok("".to_string())).is_ok());
}

#[test]
fn delete_instance_500_is_scaleway_error() {
    let result = ScalewayClient::delete_instance_outcome(500, Ok("boom".to_string()));
    match result {
        Err(OperatorError::ScalewayError { status, message }) => {
            assert_eq!(status, "500 Internal Server Error");
            assert_eq!(message, "boom");
        }
        _ => panic!("expected ScalewayError"),
    }
}

#[test]
fn test_verify_project_access_success() {
    assert!(ScalewayClient::verify_project_access_outcome(200, Ok(r#"{"id": "proj-abc"}"#.to_string()), "proj-abc").is_ok());
}

#[test]
fn test_verify_project_access_403_is_permanent_error() {
    let result = ScalewayClient::verify_project_access_outcome(403, Ok("".to_string()), "proj-x");
    assert!(matches!(result, Err(OperatorError::ProjectAccessDenied(_))));
}

#[test]
fn verify_project_access_401_is_access_denied() {
    let result = ScalewayClient::verify_project_access_outcome(401, Ok("".to_string()), "proj-x");
    assert!(matches!(result, Err(OperatorError::ProjectAccessDenied(p)) if p == "proj-x"));
}

#[test]
fn test_verify_project_access_404_is_config_error() {
    let result = ScalewayClient::verify_project_access_outcome(404, Ok("".to_string()), "proj-missing");
    assert!(matches!(result, Err(OperatorError::ConfigError(m)) if m == "Project 'proj-missing' not found"));
}

#[test]
fn test_verify_project_access_500_is_transient_error() {
    let result = ScalewayClient::verify_project_access_outcome(500, Ok(r#"{"message": "internal error"}"#.to_string()), "proj-x");
    assert!(matches!(result, Err(OperatorError::ScalewayError { .. })));
}

#[test]
fn test_create_load_balancer_success() {
    let result = ScalewayClient::create_load_balancer_outcome(200, Ok(r#"{"id": "lb-abc123", "status": "pending"}"#.to_string()));
    assert_eq!(result.unwrap(), "lb-abc123");
}

#[test]
fn test_create_load_balancer_403_returns_scaleway_error() {
    let result = ScalewayClient::create_load_balancer_outcome(403, Ok(r#"{"message": "forbidden"}"#.to_string()));
    assert!(matches!(result.unwrap_err(), OperatorError::ScalewayError { .. }));
}

#[test]
fn test_find_load_balancer_by_name_found() {
    let result = ScalewayClient::find_load_balancer_outcome(200, Ok(r#"{"lbs": [{"id": "lb-found"}]}"#.to_string()));
    assert_eq!(result.unwrap(), Some("lb-found".to_string()));
}

#[test]
fn test_find_load_balancer_by_name_empty_returns_none() {
    let result = ScalewayClient::find_load_balancer_outcome(200, Ok(r#"{"lbs": []}"#.to_string()));
    assert_eq!(result.unwrap(), None);
}

#[test]
fn test_find_load_balancer_by_name_403_returns_err() {
    let result = ScalewayClient::find_load_balancer_outcome(403, Ok(r#"{"message": "forbidden"}"#.to_string()));
    assert!(result.is_err(), "403 must return Err, not Ok(None)");
}

#[test]
fn test_find_load_balancer_by_name_429_returns_err() {
    let result = ScalewayClient::find_load_balancer_outcome(429, Ok(r#"{"message": "rate limited"}"#.to_string()));
    assert!(result.is_err(), "429 must return Err, not Ok(None)");
}

#[test]
fn test_get_load_balancer_success() {
    let body = r#"{"id": "lb-123", "status": "ready", "ip": [{"ip_address": "1.2.3.4"}]}"#;
    let info = ScalewayClient::get_load_balancer_outcome(200, Ok(body.to_string()), "lb-123").unwrap();
    assert_eq!(info.id, "lb-123");
    assert_eq!(info.state, "ready");
    assert_eq!(info.vip_address, Some("1.2.3.4".to_string()));
}

#[test]
fn test_get_load_balancer_404_returns_lb_not_found() {
    let result = ScalewayClient::get_load_balancer_outcome(404, Ok("".to_string()), "lb-gone");
    assert!(matches!(result, Err(OperatorError::LbNotFound(id)) if id == "lb-gone"));
}

#[test]
fn test_delete_load_balancer_success() {
    assert!(ScalewayClient::delete_load_balancer_outcome(204, Ok("".to_string())).is_ok());
}

#[test]
fn test_delete_load_balancer_404_is_idempotent() {
    assert!(ScalewayClient::delete_load_balancer_outcome(404, Ok("".to_string())).is_ok());
}

#[test]
fn test_delete_load_balancer_409_locked_returns_err() {
    let result = ScalewayClient::delete_load_balancer_outcome(409, Ok(r#"{"message": "lb is locked"}"#.to_string()));
    match result {
        Err(OperatorError::ScalewayError { status, .. }) => assert_eq!(status, "409 Conflict"),
        _ => panic!("expected ScalewayError"),
    }
}

#[test]
fn create_project_outcomes() {
    assert_eq!(
        ScalewayClient::create_project_outcome(200, Ok(r#"{"project": {"id": "proj-1"}}"#.to_string())).unwrap(),
        "proj-1"
    );
    assert!(matches!(
        ScalewayClient::create_project_outcome(200, Ok(r#"{"project": {}}"#.to_string())),
        Err(OperatorError::Unknown(m)) if m == "No project ID in response"
    ));
    assert!(matches!(
        ScalewayClient::create_project_outcome(400, Ok("bad".to_string())),
        Err(OperatorError::ScalewayError { .. })
    ));
}

#[test]
fn unit_outcome_success_and_failure() {
    assert!(ScalewayClient::unit_outcome(200, Ok("".to_string())).is_ok());
    assert!(matches!(
        ScalewayClient::unit_outcome(404, Ok("".to_string())),
        Err(OperatorError::ScalewayError { status, .. }) if status == "404 Not Found"
    ));
}

// ── Endpoints and request bodies ────────────────────────────────────────────

#[test]
fn endpoints_are_built_from_the_base_url() {
    let c = ScalewayClient::new_with_base_url("tok".into(), "http://x".into()).unwrap();
    assert_eq!(c.token(), "tok");
    assert_eq!(c.base_url(), "http://x");
    assert_eq!(c.servers_url("fr-par-1"), "http://x/instance/v1/zones/fr-par-1/servers");
    assert_eq!(c.server_url("fr-par-1", "srv-1"), "http://x/instance/v1/zones/fr-par-1/servers/srv-1");
    assert_eq!(
        c.server_in_project_url("fr-par-1", "srv-1", "p"),
        "http://x/instance/v1/zones/fr-par-1/servers/srv-1?project_id=p"
    );
    assert_eq!(
        c.server_action_url("fr-par-1", "srv-1"),
        "http://x/instance/v1/zones/fr-par-1/servers/srv-1/action"
    );
    assert_eq!(c.projects_url(), "http://x/account/v3/projects");
    assert_eq!(c.project_url("p"), "http://x/account/v3/projects/p");
    assert_eq!(c.lbs_url("nl-ams-1"), "http://x/lb/v1/zones/nl-ams-1/lbs");
    assert_eq!(c.lb_url("nl-ams-1", "lb-1"), "http://x/lb/v1/zones/nl-ams-1/lbs/lb-1");
}

#[test]
fn default_client_uses_public_endpoint() {
    assert_eq!(test_client().base_url(), "https://api.scaleway.com");
}

#[test]
fn create_instance_request_converts_volume_to_bytes() {
    let mut spec = test_spec();
    spec.tags = vec!["a".into(), "b".into()];
    let r = ScalewayClient::create_instance_request(&spec, "proj-x");
    assert_eq!(r.name, "my-instance");
    assert_eq!(r.image, "ubuntu-jammy");
    assert_eq!(r.commercial_type, "DEV1-S");
    assert_eq!(r.tags, vec!["a".to_string(), "b".to_string()]);
    assert_eq!(r.project_id, "proj-x");
    assert_eq!(r.boot_volume_size, 20_000_000_000);
}

#[test]
fn create_load_balancer_request_puts_operator_tags_first() {
    let mut spec = test_lb_spec();
    spec.tags = vec!["team=web".into()];
    spec.description = Some("front".into());
    let r = ScalewayClient::create_load_balancer_request(&spec, "proj-x", "default", "my-lb");
    assert_eq!(
        r.tags,
        vec![
            "scaleway-operator-cr-namespace=default".to_string(),
            "scaleway-operator-cr-name=my-lb".to_string(),
            "team=web".to_string(),
        ]
    );
    assert_eq!(r.description, "front");
    assert_eq!(r.lb_type, "LB-S");
    let r2 = ScalewayClient::create_load_balancer_request(&test_lb_spec(), "p", "ns", "n");
    assert_eq!(r2.description, "");
}

#[test]
fn lb_tag_filter_joins_operator_tags() {
    assert_eq!(
        ScalewayClient::lb_tag_filter("default", "my-lb"),
        "scaleway-operator-cr-namespace=default,scaleway-operator-cr-name=my-lb"
    );
}

#[test]
fn create_project_request_fields() {
    let r = ScalewayClient::create_project_request("org-1", "proj", None);
    assert_eq!(r.organization_id, "org-1");
    assert_eq!(r.name, "proj");
    assert_eq!(r.description, "");
    let r = ScalewayClient::create_project_request("org-1", "proj", Some("d"));
    assert_eq!(r.description, "d");
}

// ── Specification checks ────────────────────────────────────────────────────

use scaleway_operator::reconcilers::{check_instance_spec, check_lb_spec, validate_lb_spec, validate_spec};

#[test]
fn instance_spec_checks_in_order() {
    let client = test_client();
    assert!(validate_spec(&test_spec(), &client).is_ok());
    let mut s = test_spec();
    s.zone = "mars-1".into();
    s.instance_type = "HUGE".into();
    assert!(matches!(validate_spec(&s, &client), Err(OperatorError::InvalidZone(z)) if z == "mars-1"));
    let mut s = test_spec();
    s.instance_type = "HUGE".into();
    s.name = String::new();
    assert!(matches!(check_instance_spec(&s), Err(OperatorError::InvalidInstanceType(t)) if t == "HUGE"));
    let mut s = test_spec();
    s.name = String::new();
    assert!(matches!(check_instance_spec(&s), Err(OperatorError::ConfigError(m)) if m == "name cannot be empty"));
}

#[test]
fn lb_spec_checks_in_order() {
    let client = test_client();
    assert!(validate_lb_spec(&test_lb_spec(), &client).is_ok());
    let mut s = test_lb_spec();
    s.lb_type = "LB-XXL".into();
    assert!(matches!(validate_lb_spec(&s, &client), Err(OperatorError::InvalidLbType(t)) if t == "LB-XXL"));
    let mut s = test_lb_spec();
    s.name = String::new();
    assert!(matches!(check_lb_spec(&s), Err(OperatorError::ConfigError(_))));
}

#[test]
fn delete_load_balancer_423_is_locked_error() {
    match ScalewayClient::delete_load_balancer_outcome(423, Ok("".to_string())) {
        Err(OperatorError::ScalewayError { status, .. }) => assert_eq!(status, "423 Locked"),
        _ => panic!("expected ScalewayError"),
    }
}

#[test]
fn search_results_must_be_arrays() {
    assert_eq!(ScalewayClient::find_instance_outcome(200, Ok(r#"{"servers": {"0": {"id": "x"}}}"#.to_string())).unwrap(), None);
    assert_eq!(ScalewayClient::find_load_balancer_outcome(200, Ok(r#"{"lbs": {"0": {"id": "x"}}}"#.to_string())).unwrap(), None);
    let info = ScalewayClient::get_load_balancer_outcome(200, Ok(r#"{"id": "lb-1", "ip": {"0": {"ip_address": "1.2.3.4"}}}"#.to_string()), "lb-1").unwrap();
    assert_eq!(info.vip_address, None);
    assert!(matches!(ScalewayClient::find_instance_outcome(200, Ok("not json".to_string())), Err(OperatorError::SerializationError(_))));
}

// ── Bodies that could not be read ───────────────────────────────────────────

fn read_failure() -> reqwest::Error {
    reqwest::Client::new().get("not a url").build().unwrap_err()
}

#[test]
fn unread_body_is_network_error_where_it_is_needed() {
    assert!(matches!(ScalewayClient::create_instance_outcome(201, Err(read_failure())), Err(OperatorError::NetworkError(_))));
    assert!(matches!(ScalewayClient::get_instance_outcome(200, Err(read_failure()), "srv-1"), Err(OperatorError::NetworkError(_))));
    assert!(matches!(ScalewayClient::find_load_balancer_outcome(500, Err(read_failure())), Err(OperatorError::NetworkError(_))));
    assert!(matches!(ScalewayClient::verify_project_access_outcome(500, Err(read_failure()), "p"), Err(OperatorError::NetworkError(_))));
}

#[test]
fn unread_body_is_ignored_where_it_is_not_needed() {
    assert_eq!(ScalewayClient::find_instance_outcome(404, Err(read_failure())).unwrap(), None);
    assert!(matches!(ScalewayClient::get_load_balancer_outcome(404, Err(read_failure()), "lb-1"), Err(OperatorError::LbNotFound(_))));
    assert!(ScalewayClient::delete_instance_outcome(204, Err(read_failure())).is_ok());
    assert!(ScalewayClient::unit_outcome(200, Err(read_failure())).is_ok());
    assert!(matches!(ScalewayClient::verify_project_access_outcome(403, Err(read_failure()), "p"), Err(OperatorError::ProjectAccessDenied(_))));
}

// ── Reading fields of a response ────────────────────────────────────────────

use scaleway_operator::error::scaleway_status_message;
use scaleway_operator::scaleway::{first_search_result, instance_info_from_fields, lb_info_from_fields};

#[test]
fn scaleway_status_message_with_and_without_field() {
    assert_eq!(
        scaleway_status_message("403 Forbidden", Some("denied".into())),
        "Scaleway API error: 403 Forbidden — denied"
    );
    assert_eq!(scaleway_status_message("500 Internal Server Error", None), "Scaleway API error: 500 Internal Server Error");
}

#[test]
fn info_from_fields_defaults_state() {
    let i = instance_info_from_fields("srv".into(), None, Some("1.2.3.4".into()), None);
    assert_eq!(i.state, "unknown");
    assert_eq!(i.public_ip, Some("1.2.3.4".to_string()));
    let l = lb_info_from_fields("lb".into(), Some("ready".into()), Some("5.6.7.8".into()), false);
    assert_eq!(l.state, "ready");
    assert_eq!(l.vip_address, None);
    let l = lb_info_from_fields("lb".into(), None, Some("5.6.7.8".into()), true);
    assert_eq!(l.state, "unknown");
    assert_eq!(l.vip_address, Some("5.6.7.8".to_string()));
}

#[test]
fn first_search_result_needs_an_array() {
    assert_eq!(first_search_result(Some("x".into()), true), Some("x".to_string()));
    assert_eq!(first_search_result(Some("x".into()), false), None);
    assert_eq!(first_search_result(None, true), None);
}
