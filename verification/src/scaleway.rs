//! The Scaleway API client: its endpoints, the bodies it sends, the reading of
//! the responses it receives, and the validation of zones and commercial types.
//! Sending the requests is left to the caller.

use vstd::prelude::*;
use vstd::string::*;
use crate::error::{ErrorModel, OperatorError, OperatorResult};
use crate::json;
use crate::json::{is_json_array_at, lookup_json_string};
use crate::resources::{InstanceSpec, LoadBalancerSpec};
use crate::text::{cat, cat3, copy_strings, owned, str_eq};

verus! {

#[verifier::external_type_specification]
#[verifier::external_body]
pub struct ExHttpClient(reqwest::Client);

/// `Clone` of `reqwest::Client`: the copy shares the connection pool of the
/// client it was cloned from. Nothing is claimed of it.
pub assume_specification[ <reqwest::Client as std::clone::Clone>::clone ](c: &reqwest::Client) -> reqwest::Client;

/// Default Scaleway API endpoint.
pub const SCALEWAY_API_URL: &'static str = "https://api.scaleway.com";

/// Request timeout of the HTTP client, in seconds.
pub const REQUEST_TIMEOUT_SECS: u64 = 30;

/// Connection timeout of the HTTP client, in seconds.
pub const CONNECT_TIMEOUT_SECS: u64 = 10;

/// Builds the HTTP client with the given request and connection timeouts
/// (`reqwest::ClientBuilder::timeout`, `connect_timeout`, then `build`).
/// Nothing is claimed of the client; `build` fails when no TLS backend or
/// resolver can be set up, and its error is handed back as it came.
#[verifier::external_body]
pub(crate) fn build_http_client(timeout_secs: u64, connect_timeout_secs: u64) -> Result<reqwest::Client, reqwest::Error> {
    reqwest::Client::builder()
        .timeout(std::time::Duration::from_secs(timeout_secs))
        .connect_timeout(std::time::Duration::from_secs(connect_timeout_secs))
        .build()
}

/// The decimal digit of `d`, for `d < 10`.
pub open spec fn digit(d: int) -> char {
    ('0' as int + d) as char
}

/// The three decimal digits of a status code.
pub open spec fn three_digits(code: u16) -> Seq<char> {
    seq![digit(code as int / 100), digit((code as int / 10) % 10), digit(code as int % 10)]
}

/// The text of an HTTP status code as `reqwest::StatusCode` displays it.
pub uninterp spec fn status_code_text(code: u16) -> Seq<char>;

/// Valid HTTP status codes, as `StatusCode::from_u16` accepts them.
pub open spec fn valid_status(code: u16) -> bool {
    100 <= code <= 999
}

/// Displays a status code (`reqwest::StatusCode::from_u16` then `to_string`):
/// the three digits of the code, a space, and its canonical reason, as the
/// `Display` impl of `http::StatusCode` writes them.
#[verifier::external_body]
fn status_text(code: u16) -> (r: String)
    requires
        valid_status(code),
    ensures
        r@ == status_code_text(code),
        r@.len() > 3,
        r@.subrange(0, 3) == three_digits(code),
        r@[3] == ' ',
{
    match reqwest::StatusCode::from_u16(code) {
        Ok(s) => s.to_string(),
        Err(_) => code.to_string(),
    }
}

/// A 2xx status.
pub open spec fn is_success(code: u16) -> bool {
    200 <= code < 300
}

/// The error reported for an unexpected status.
pub open spec fn scaleway_error_model(code: u16, body: Seq<char>) -> ErrorModel {
    ErrorModel::Scaleway { status: status_code_text(code), message: body }
}

/// Whether a status is a success (2xx): the responses on which the data
/// requests decode their body as JSON.
pub fn success_status(code: u16) -> (r: bool)
    ensures
        r == is_success(code),
{
    200 <= code && code < 300
}

/// The text of a body that was read (empty when reading it failed).
pub open spec fn body_text(body: Result<String, reqwest::Error>) -> Seq<char> {
    match body {
        Ok(t) => t@,
        Err(_) => Seq::empty(),
    }
}

/// `r` is the network error met while reading `body`.
pub open spec fn fails_reading<T>(r: OperatorResult<T>, body: Result<String, reqwest::Error>) -> bool {
    match body {
        Ok(_) => false,
        Err(be) => r matches Err(x) && x == OperatorError::NetworkError(be),
    }
}

/// The error reported for an unexpected status: the displayed status and the body.
pub fn scaleway_error(code: u16, body: &str) -> (e: OperatorError)
    requires
        valid_status(code),
    ensures
        e@ == scaleway_error_model(code, body@),
        e matches OperatorError::ScalewayError { status, .. } && status@.len() > 3
            && status@.subrange(0, 3) == three_digits(code) && status@[3] == ' ',
{
    OperatorError::ScalewayError { status: status_text(code), message: owned(body) }
}

/// Reads a required string at `pointer` in a response body.
pub fn required_string(body: &str, pointer: &str, missing: &str) -> (r: OperatorResult<String>)
    ensures
        match json::json_string_at(body@, pointer@) {
            None => r matches Err(OperatorError::SerializationError(_)),
            Some(None) => r matches Err(e) && e@ == ErrorModel::Unknown(missing@),
            Some(Some(v)) => r matches Ok(s) && s@ == v,
        },
{
    match lookup_json_string(body, pointer) {
        Err(e) => Err(OperatorError::SerializationError(e)),
        Ok(None) => Err(OperatorError::Unknown(owned(missing))),
        Ok(Some(s)) => Ok(s),
    }
}

/// Reads an optional string at `pointer` in a response body.
pub fn optional_string(body: &str, pointer: &str) -> (r: OperatorResult<Option<String>>)
    ensures
        match json::json_string_at(body@, pointer@) {
            None => r matches Err(OperatorError::SerializationError(_)),
            Some(None) => r matches Ok(None),
            Some(Some(v)) => r matches Ok(Some(s)) && s@ == v,
        },
{
    match lookup_json_string(body, pointer) {
        Err(e) => Err(OperatorError::SerializationError(e)),
        Ok(o) => Ok(o),
    }
}

/// The string at `pointer` when the body is JSON and holds one there.
pub open spec fn string_field(body: Seq<char>, pointer: Seq<char>) -> Option<Seq<char>> {
    match json::json_string_at(body, pointer) {
        Some(Some(v)) => Some(v),
        _ => None,
    }
}

fn string_field_or_none(body: &str, pointer: &str) -> (r: Option<String>)
    ensures
        match string_field(body@, pointer@) {
            Some(v) => r matches Some(s) && s@ == v,
            None => r is None,
        },
{
    match lookup_json_string(body, pointer) {
        Ok(Some(s)) => Some(s),
        _ => None,
    }
}

/// What the reconciler learns of an instance.
#[derive(Debug, Clone)]
pub struct InstanceInfo {
    pub id: String,
    pub state: String,
    pub public_ip: Option<String>,
    pub created_at: Option<String>,
}

/// What the reconciler learns of a load balancer.
#[derive(Debug, Clone)]
pub struct LoadBalancerInfo {
    pub id: String,
    pub state: String,
    pub vip_address: Option<String>,
}

/// Body of a server creation request.
#[derive(Debug, Clone)]
pub struct CreateInstanceRequest {
    pub name: String,
    pub image: String,
    pub commercial_type: String,
    pub tags: Vec<String>,
    pub project_id: String,
    /// Boot volume size in bytes.
    pub boot_volume_size: i64,
}

/// Body of a load balancer creation request.
#[derive(Debug, Clone)]
pub struct CreateLoadBalancerRequest {
    pub name: String,
    pub lb_type: String,
    pub project_id: String,
    pub description: String,
    pub tags: Vec<String>,
}

/// Body of a project creation request.
#[derive(Debug, Clone)]
pub struct CreateProjectRequest {
    pub name: String,
    pub organization_id: String,
    pub description: String,
}

/// What the reconciler learns of a server, from the fields read in its body:
/// a missing state reads as "unknown".
pub fn instance_info_from_fields(
    id: String,
    state: Option<String>,
    public_ip: Option<String>,
    created_at: Option<String>,
) -> (r: InstanceInfo)
    ensures
        r.id == id,
        r.state@ == (match state {
            Some(s) => s@,
            None => "unknown"@,
        }),
        r.public_ip == public_ip,
        r.created_at == created_at,
{
    let state = match state {
        Some(s) => s,
        None => owned("unknown"),
    };
    InstanceInfo { id, state, public_ip, created_at }
}

/// What the reconciler learns of a load balancer, from the fields read in its
/// body: a missing state reads as "unknown", and the address read at the
/// first IP counts only when the IPs form a JSON array.
pub fn lb_info_from_fields(
    id: String,
    state: Option<String>,
    vip_field: Option<String>,
    ips_are_array: bool,
) -> (r: LoadBalancerInfo)
    ensures
        r.id == id,
        r.state@ == (match state {
            Some(s) => s@,
            None => "unknown"@,
        }),
        r.vip_address == (if ips_are_array {
            vip_field
        } else {
            None
        }),
{
    let state = match state {
        Some(s) => s,
        None => owned("unknown"),
    };
    let vip_address = if ips_are_array {
        vip_field
    } else {
        None
    };
    LoadBalancerInfo { id, state, vip_address }
}

/// The first result of a search: the ID read at the first item, kept only when
/// the results form a JSON array.
pub fn first_search_result(found: Option<String>, results_are_array: bool) -> (r: Option<String>)
    ensures
        r == (if results_are_array {
            found
        } else {
            None
        }),
{
    if results_are_array {
        found
    } else {
        None
    }
}

/// Tags that link a Scaleway load balancer to its custom resource.
pub open spec fn operator_tags(namespace: Seq<char>, cr_name: Seq<char>) -> Seq<Seq<char>> {
    seq!["scaleway-operator-cr-namespace="@ + namespace, "scaleway-operator-cr-name="@ + cr_name]
}

/// Zones the operator accepts.
pub open spec fn known_zone(z: Seq<char>) -> bool {
    z == "fr-par-1"@ || z == "fr-par-2"@ || z == "nl-ams-1"@ || z == "pl-waw-1"@ || z
        == "sg-sin-1"@ || z == "it-mil-1"@
}

/// Load balancer types the operator accepts.
pub open spec fn known_lb_type(t: Seq<char>) -> bool {
    t == "LB-S"@ || t == "LB-GP"@
}

/// Commercial instance types the operator accepts.
pub open spec fn known_instance_type(t: Seq<char>) -> bool {
    t == "DEV1-S"@ || t == "DEV1-M"@ || t == "DEV1-L"@ || t == "DEV1-XL"@ || t == "GP1-XS"@ || t
        == "GP1-S"@ || t == "GP1-M"@ || t == "GP1-L"@ || t == "GP1-XL"@ || t == "CPU1-XS"@ || t
        == "CPU1-S"@ || t == "CPU1-M"@ || t == "CPU1-L"@ || t == "GPU-3090"@ || t == "GPU-4090"@
}

/// The client's HTTP client is one that the builder gave for the request
/// timeout of 30 s and the connection timeout of 10 s.
pub closed spec fn built_with_timeouts(c: ScalewayClient) -> bool {
    call_ensures(
        build_http_client,
        (REQUEST_TIMEOUT_SECS, CONNECT_TIMEOUT_SECS),
        Ok::<reqwest::Client, reqwest::Error>(c.transport()),
    )
}

/// Client for the Scaleway API: an HTTP client, a token and an endpoint.
#[derive(Clone)]
pub struct ScalewayClient {
    http_client: reqwest::Client,
    token: String,
    base_url: String,
}

impl ScalewayClient {
    pub closed spec fn token_text(&self) -> Seq<char> {
        self.token@
    }

    pub closed spec fn base(&self) -> Seq<char> {
        self.base_url@
    }

    /// The HTTP client the requests go through.
    pub closed spec fn transport(&self) -> reqwest::Client {
        self.http_client
    }

    /// A client for the default Scaleway endpoint; fails with `NetworkError`
    /// when the HTTP client cannot be built.
    pub fn new(token: String) -> (r: OperatorResult<Self>)
        ensures
            r matches Ok(c) ==> c.token_text() == token@ && c.base() == SCALEWAY_API_URL@,
            r matches Ok(c) ==> built_with_timeouts(c),
            r matches Err(e) ==> e@ is Network,
    {
        Self::new_with_base_url(token, owned(SCALEWAY_API_URL))
    }

    /// A client for the given endpoint; fails with `NetworkError` when the HTTP
    /// client cannot be built.
    pub fn new_with_base_url(token: String, base_url: String) -> (r: OperatorResult<Self>)
        ensures
            r matches Ok(c) ==> c.token_text() == token@ && c.base() == base_url@,
            r matches Ok(c) ==> built_with_timeouts(c),
            r matches Err(e) ==> e@ is Network,
    {
        let build = build_http_client;
        match build(REQUEST_TIMEOUT_SECS, CONNECT_TIMEOUT_SECS) {
            Ok(http_client) => Ok(ScalewayClient { http_client, token, base_url }),
            Err(e) => Err(OperatorError::NetworkError(e)),
        }
    }

    /// The HTTP client that sends the requests.
    pub fn http_client(&self) -> (r: &reqwest::Client)
        ensures
            *r == self.transport(),
    {
        &self.http_client
    }

    /// The authentication token.
    pub fn token(&self) -> (r: &str)
        ensures
            r@ == self.token_text(),
    {
        self.token.as_str()
    }

    /// The API endpoint.
    pub fn base_url(&self) -> (r: &str)
        ensures
            r@ == self.base(),
    {
        self.base_url.as_str()
    }

    // ============== Endpoints ==============

    /// `{base}/instance/v1/zones/{zone}/servers`
    pub fn servers_url(&self, zone: &str) -> (r: String)
        ensures
            r@ == self.base() + "/instance/v1/zones/"@ + zone@ + "/servers"@,
    {
        cat3(self.base_url.as_str(), "/instance/v1/zones/", zone).concat("/servers")
    }

    /// `{base}/instance/v1/zones/{zone}/servers/{id}`
    pub fn server_url(&self, zone: &str, instance_id: &str) -> (r: String)
        ensures
            r@ == self.base() + "/instance/v1/zones/"@ + zone@ + "/servers"@ + "/"@ + instance_id@,
    {
        self.servers_url(zone).concat("/").concat(instance_id)
    }

    /// `{base}/instance/v1/zones/{zone}/servers/{id}?project_id={project}`
    pub fn server_in_project_url(&self, zone: &str, instance_id: &str, project_id: &str) -> (r:
        String)
        ensures
            r@ == self.base() + "/instance/v1/zones/"@ + zone@ + "/servers"@ + "/"@ + instance_id@
                + "?project_id="@ + project_id@,
    {
        self.server_url(zone, instance_id).concat("?project_id=").concat(project_id)
    }

    /// `{base}/instance/v1/zones/{zone}/servers/{id}/action`
    pub fn server_action_url(&self, zone: &str, instance_id: &str) -> (r: String)
        ensures
            r@ == self.base() + "/instance/v1/zones/"@ + zone@ + "/servers"@ + "/"@ + instance_id@
                + "/action"@,
    {
        self.server_url(zone, instance_id).concat("/action")
    }

    /// `{base}/account/v3/projects`
    pub fn projects_url(&self) -> (r: String)
        ensures
            r@ == self.base() + "/account/v3/projects"@,
    {
        cat(self.base_url.as_str(), "/account/v3/projects")
    }

    /// `{base}/account/v3/projects/{project}`
    pub fn project_url(&self, project_id: &str) -> (r: String)
        ensures
            r@ == self.base() + "/account/v3/projects"@ + "/"@ + project_id@,
    {
        self.projects_url().concat("/").concat(project_id)
    }

    /// `{base}/lb/v1/zones/{zone}/lbs`
    pub fn lbs_url(&self, zone: &str) -> (r: String)
        ensures
            r@ == self.base() + "/lb/v1/zones/"@ + zone@ + "/lbs"@,
    {
        cat3(self.base_url.as_str(), "/lb/v1/zones/", zone).concat("/lbs")
    }

    /// `{base}/lb/v1/zones/{zone}/lbs/{id}`
    pub fn lb_url(&self, zone: &str, lb_id: &str) -> (r: String)
        ensures
            r@ == self.base() + "/lb/v1/zones/"@ + zone@ + "/lbs"@ + "/"@ + lb_id@,
    {
        self.lbs_url(zone).concat("/").concat(lb_id)
    }

    // ============== Request bodies ==============

    /// Body of the request that creates the server of `spec` in `project_id`.
    pub fn create_instance_request(spec: &InstanceSpec, project_id: &str) -> (r:
        CreateInstanceRequest)
        ensures
            r.name@ == spec.name@,
            r.image@ == spec.image@,
            r.commercial_type@ == spec.instance_type@,
            r.tags@ == spec.tags@,
            r.project_id@ == project_id@,
            r.boot_volume_size == spec.boot_volume_size as int * 1_000_000_000,
    {
        CreateInstanceRequest {
            name: spec.name.clone(),
            image: spec.image.clone(),
            commercial_type: spec.instance_type.clone(),
            tags: copy_strings(&spec.tags),
            project_id: owned(project_id),
            boot_volume_size: spec.boot_volume_size as i64 * 1_000_000_000i64,
        }
    }

    /// Tags that link a load balancer to the custom resource `namespace/cr_name`.
    pub fn lb_operator_tags(namespace: &str, cr_name: &str) -> (r: Vec<String>)
        ensures
            r@.len() == 2,
            r@[0]@ == operator_tags(namespace@, cr_name@)[0],
            r@[1]@ == operator_tags(namespace@, cr_name@)[1],
    {
        let mut tags: Vec<String> = Vec::new();
        tags.push(cat("scaleway-operator-cr-namespace=", namespace));
        tags.push(cat("scaleway-operator-cr-name=", cr_name));
        tags
    }

    /// The operator tags joined by commas, as the `tags` query filter.
    pub fn lb_tag_filter(namespace: &str, cr_name: &str) -> (r: String)
        ensures
            r@ == operator_tags(namespace@, cr_name@)[0] + ","@ + operator_tags(
                namespace@,
                cr_name@,
            )[1],
    {
        let tags = Self::lb_operator_tags(namespace, cr_name);
        cat3(tags[0].as_str(), ",", tags[1].as_str())
    }

    /// Body of the request that creates the load balancer of `spec`: the
    /// operator tags come first, then the tags of the specification.
    pub fn create_load_balancer_request(
        spec: &LoadBalancerSpec,
        project_id: &str,
        namespace: &str,
        cr_name: &str,
    ) -> (r: CreateLoadBalancerRequest)
        ensures
            r.name@ == spec.name@,
            r.lb_type@ == spec.lb_type@,
            r.project_id@ == project_id@,
            r.description@ == (match spec.description {
                Some(d) => d@,
                None => Seq::<char>::empty(),
            }),
            r.tags@.len() == 2 + spec.tags@.len(),
            r.tags@[0]@ == operator_tags(namespace@, cr_name@)[0],
            r.tags@[1]@ == operator_tags(namespace@, cr_name@)[1],
            r.tags@.skip(2) == spec.tags@,
    {
        let mut tags = Self::lb_operator_tags(namespace, cr_name);
        let mut i: usize = 0;
        while i < spec.tags.len()
            invariant
                i <= spec.tags.len(),
                tags@.len() == 2 + i,
                tags@[0]@ == operator_tags(namespace@, cr_name@)[0],
                tags@[1]@ == operator_tags(namespace@, cr_name@)[1],
                tags@.skip(2) == spec.tags@.take(i as int),
            decreases spec.tags.len() - i,
        {
            tags.push(spec.tags[i].clone());
            i = i + 1;
            assert(tags@.skip(2) =~= spec.tags@.take(i as int));
        }
        assert(spec.tags@.take(spec.tags.len() as int) =~= spec.tags@);
        let description = match &spec.description {
            Some(d) => d.clone(),
            None => String::new(),
        };
        CreateLoadBalancerRequest {
            name: spec.name.clone(),
            lb_type: spec.lb_type.clone(),
            project_id: owned(project_id),
            description,
            tags,
        }
    }

    /// Body of the request that creates a project.
    pub fn create_project_request(org_id: &str, name: &str, description: Option<&str>) -> (r:
        CreateProjectRequest)
        ensures
            r.name@ == name@,
            r.organization_id@ == org_id@,
            r.description@ == (match description {
                Some(d) => d@,
                None => Seq::<char>::empty(),
            }),
    {
        CreateProjectRequest {
            name: owned(name),
            organization_id: owned(org_id),
            description: match description {
                Some(d) => owned(d),
                None => String::new(),
            },
        }
    }

    // ============== Responses ==============
    //
    // Each outcome takes the response status and the body as it was read: for a
    // success of a request that returns data, the JSON document that
    // `Response::json` decoded, written back as text; otherwise the text of the
    // body. A failure to read it is handed over as the `reqwest::Error` it was,
    // and becomes a `NetworkError` on the paths where the body is needed.

    /// Outcome of a server creation, from the response status and body.
    pub fn create_instance_outcome(code: u16, body: Result<String, reqwest::Error>) -> (r: OperatorResult<String>)
        requires
            valid_status(code),
        ensures
            !is_success(code) ==> if body is Ok {
                r matches Err(e) && e@ == scaleway_error_model(code, body_text(body))
            } else {
                fails_reading(r, body)
            },
            is_success(code) ==> if body is Ok {
                match json::json_string_at(body_text(body), "/server/id"@) {
                    None => r matches Err(OperatorError::SerializationError(_)),
                    Some(None) => r matches Err(e) && e@ == ErrorModel::Unknown(
                        "No instance ID in response"@,
                    ),
                    Some(Some(v)) => r matches Ok(s) && s@ == v,
                }
            } else {
                fails_reading(r, body)
            },
    {
        let text = match body {
            Ok(t) => t,
            Err(e) => return Err(OperatorError::NetworkError(e)),
        };
        if !(200 <= code && code < 300) {
            return Err(scaleway_error(code, text.as_str()));
        }
        required_string(text.as_str(), "/server/id", "No instance ID in response")
    }

    /// Outcome of a server search by name: the first match, none on 404 (the
    /// body is not read), an error on any other failure status.
    pub fn find_instance_outcome(code: u16, body: Result<String, reqwest::Error>) -> (r: OperatorResult<Option<String>>)
        requires
            valid_status(code),
        ensures
            is_success(code) ==> if body is Ok {
                match json::json_string_at(body_text(body), "/servers/0/id"@) {
                    None => r matches Err(OperatorError::SerializationError(_)),
                    Some(None) => r matches Ok(None),
                    Some(Some(v)) => if json::json_array_at(body_text(body), "/servers"@) {
                        r matches Ok(Some(s)) && s@ == v
                    } else {
                        r matches Ok(None)
                    },
                }
            } else {
                fails_reading(r, body)
            },
            code == 404 ==> r matches Ok(None),
            !is_success(code) && code != 404 ==> if body is Ok {
                r matches Err(e) && e@ == scaleway_error_model(code, body_text(body))
            } else {
                fails_reading(r, body)
            },
    {
        if code == 404 {
            return Ok(None);
        }
        let text = match body {
            Ok(t) => t,
            Err(e) => return Err(OperatorError::NetworkError(e)),
        };
        if 200 <= code && code < 300 {
            match optional_string(text.as_str(), "/servers/0/id") {
                Err(e) => Err(e),
                Ok(found) => Ok(first_search_result(found, is_json_array_at(text.as_str(), "/servers"))),
            }
        } else {
            Err(scaleway_error(code, text.as_str()))
        }
    }

    /// Outcome of reading a server (on 404 the body is not read).
    pub fn get_instance_outcome(code: u16, body: Result<String, reqwest::Error>, instance_id: &str) -> (r: OperatorResult<
        InstanceInfo,
    >)
        requires
            valid_status(code),
        ensures
            code == 404 ==> (r matches Err(e) && e@ == ErrorModel::InstanceNotFound(instance_id@)),
            !is_success(code) && code != 404 ==> if body is Ok {
                r matches Err(e) && e@ == scaleway_error_model(code, body_text(body))
            } else {
                fails_reading(r, body)
            },
            is_success(code) ==> if body is Ok {
                match json::json_string_at(body_text(body), "/server/id"@) {
                    None => r matches Err(OperatorError::SerializationError(_)),
                    Some(None) => r matches Err(e) && e@ == ErrorModel::Unknown(
                        "Missing server.id in response"@,
                    ),
                    Some(Some(v)) => r matches Ok(info) && info.id@ == v && info.state@ == (match string_field(
                        body_text(body),
                        "/server/state"@,
                    ) {
                        Some(s) => s,
                        None => "unknown"@,
                    }) && opt_text(info.public_ip) == string_field(body_text(body), "/server/public_ip/address"@)
                        && opt_text(info.created_at) == string_field(body_text(body), "/server/creation_date"@),
                }
            } else {
                fails_reading(r, body)
            },
    {
        if code == 404 {
            return Err(OperatorError::InstanceNotFound(owned(instance_id)));
        }
        let text = match body {
            Ok(t) => t,
            Err(e) => return Err(OperatorError::NetworkError(e)),
        };
        let body = text.as_str();
        if !(200 <= code && code < 300) {
            return Err(scaleway_error(code, body));
        }
        let id = required_string(body, "/server/id", "Missing server.id in response")?;
        Ok(
            instance_info_from_fields(
                id,
                string_field_or_none(body, "/server/state"),
                string_field_or_none(body, "/server/public_ip/address"),
                string_field_or_none(body, "/server/creation_date"),
            ),
        )
    }

    /// Outcome of a server deletion: a server that is already gone counts as
    /// deleted. The body is read only on a failure status.
    pub fn delete_instance_outcome(code: u16, body: Result<String, reqwest::Error>) -> (r: OperatorResult<()>)
        requires
            valid_status(code),
        ensures
            is_success(code) || code == 404 ==> r is Ok,
            !is_success(code) && code != 404 ==> if body is Ok {
                r matches Err(e) && e@ == scaleway_error_model(code, body_text(body))
            } else {
                fails_reading(r, body)
            },
    {
        if code == 404 {
            return Ok(());
        }
        Self::unit_outcome(code, body)
    }

    /// Outcome of a request whose success carries nothing (server action,
    /// project deletion). The body is read only on a failure status.
    pub fn unit_outcome(code: u16, body: Result<String, reqwest::Error>) -> (r: OperatorResult<()>)
        requires
            valid_status(code),
        ensures
            is_success(code) ==> r is Ok,
            !is_success(code) ==> if body is Ok {
                r matches Err(e) && e@ == scaleway_error_model(code, body_text(body))
            } else {
                fails_reading(r, body)
            },
    {
        if 200 <= code && code < 300 {
            return Ok(());
        }
        match body {
            Ok(t) => Err(scaleway_error(code, t.as_str())),
            Err(e) => Err(OperatorError::NetworkError(e)),
        }
    }

    /// Outcome of checking access to a project: 401 and 403 deny access
    /// (permanent), 404 is a configuration error, other failures are transient.
    /// The body is read only on those other failures.
    pub fn verify_project_access_outcome(code: u16, body: Result<String, reqwest::Error>, project_id: &str) -> (r:
        OperatorResult<()>)
        requires
            valid_status(code),
        ensures
            is_success(code) ==> r is Ok,
            code == 401 || code == 403 ==> (r matches Err(e) && e@
                == ErrorModel::ProjectAccessDenied(project_id@)),
            code == 404 ==> (r matches Err(e) && e@ == ErrorModel::Config(
                "Project '"@ + project_id@ + "' not found"@,
            )),
            !is_success(code) && code != 401 && code != 403 && code != 404 ==> if body is Ok {
                r matches Err(e) && e@ == scaleway_error_model(code, body_text(body))
            } else {
                fails_reading(r, body)
            },
    {
        if 200 <= code && code < 300 {
            Ok(())
        } else if code == 401 || code == 403 {
            Err(OperatorError::ProjectAccessDenied(owned(project_id)))
        } else if code == 404 {
            Err(OperatorError::ConfigError(cat3("Project '", project_id, "' not found")))
        } else {
            match body {
                Ok(t) => Err(scaleway_error(code, t.as_str())),
                Err(e) => Err(OperatorError::NetworkError(e)),
            }
        }
    }

    /// Outcome of a project creation.
    pub fn create_project_outcome(code: u16, body: Result<String, reqwest::Error>) -> (r: OperatorResult<String>)
        requires
            valid_status(code),
        ensures
            !is_success(code) ==> if body is Ok {
                r matches Err(e) && e@ == scaleway_error_model(code, body_text(body))
            } else {
                fails_reading(r, body)
            },
            is_success(code) ==> if body is Ok {
                match json::json_string_at(body_text(body), "/project/id"@) {
                    None => r matches Err(OperatorError::SerializationError(_)),
                    Some(None) => r matches Err(e) && e@ == ErrorModel::Unknown(
                        "No project ID in response"@,
                    ),
                    Some(Some(v)) => r matches Ok(s) && s@ == v,
                }
            } else {
                fails_reading(r, body)
            },
    {
        let text = match body {
            Ok(t) => t,
            Err(e) => return Err(OperatorError::NetworkError(e)),
        };
        if !(200 <= code && code < 300) {
            return Err(scaleway_error(code, text.as_str()));
        }
        required_string(text.as_str(), "/project/id", "No project ID in response")
    }

    /// Outcome of a load balancer creation.
    pub fn create_load_balancer_outcome(code: u16, body: Result<String, reqwest::Error>) -> (r: OperatorResult<String>)
        requires
            valid_status(code),
        ensures
            !is_success(code) ==> if body is Ok {
                r matches Err(e) && e@ == scaleway_error_model(code, body_text(body))
            } else {
                fails_reading(r, body)
            },
            is_success(code) ==> if body is Ok {
                match json::json_string_at(body_text(body), "/id"@) {
                    None => r matches Err(OperatorError::SerializationError(_)),
                    Some(None) => r matches Err(e) && e@ == ErrorModel::Unknown("No LB ID in response"@),
                    Some(Some(v)) => r matches Ok(s) && s@ == v,
                }
            } else {
                fails_reading(r, body)
            },
    {
        let text = match body {
            Ok(t) => t,
            Err(e) => return Err(OperatorError::NetworkError(e)),
        };
        if !(200 <= code && code < 300) {
            return Err(scaleway_error(code, text.as_str()));
        }
        required_string(text.as_str(), "/id", "No LB ID in response")
    }

    /// Outcome of a load balancer search by operator tags (on 404 the body is
    /// not read).
    pub fn find_load_balancer_outcome(code: u16, body: Result<String, reqwest::Error>) -> (r: OperatorResult<Option<String>>)
        requires
            valid_status(code),
        ensures
            is_success(code) ==> if body is Ok {
                match json::json_string_at(body_text(body), "/lbs/0/id"@) {
                    None => r matches Err(OperatorError::SerializationError(_)),
                    Some(None) => r matches Ok(None),
                    Some(Some(v)) => if json::json_array_at(body_text(body), "/lbs"@) {
                        r matches Ok(Some(s)) && s@ == v
                    } else {
                        r matches Ok(None)
                    },
                }
            } else {
                fails_reading(r, body)
            },
            code == 404 ==> r matches Ok(None),
            !is_success(code) && code != 404 ==> if body is Ok {
                r matches Err(e) && e@ == scaleway_error_model(code, body_text(body))
            } else {
                fails_reading(r, body)
            },
    {
        if code == 404 {
            return Ok(None);
        }
        let text = match body {
            Ok(t) => t,
            Err(e) => return Err(OperatorError::NetworkError(e)),
        };
        if 200 <= code && code < 300 {
            match optional_string(text.as_str(), "/lbs/0/id") {
                Err(e) => Err(e),
                Ok(found) => Ok(first_search_result(found, is_json_array_at(text.as_str(), "/lbs"))),
            }
        } else {
            Err(scaleway_error(code, text.as_str()))
        }
    }

    /// Outcome of reading a load balancer (on 404 the body is not read).
    pub fn get_load_balancer_outcome(code: u16, body: Result<String, reqwest::Error>, lb_id: &str) -> (r: OperatorResult<
        LoadBalancerInfo,
    >)
        requires
            valid_status(code),
        ensures
            code == 404 ==> (r matches Err(e) && e@ == ErrorModel::LbNotFound(lb_id@)),
            !is_success(code) && code != 404 ==> if body is Ok {
                r matches Err(e) && e@ == scaleway_error_model(code, body_text(body))
            } else {
                fails_reading(r, body)
            },
            is_success(code) ==> if body is Ok {
                match json::json_string_at(body_text(body), "/id"@) {
                    None => r matches Err(OperatorError::SerializationError(_)),
                    Some(None) => r matches Err(e) && e@ == ErrorModel::Unknown(
                        "Missing lb.id in response"@,
                    ),
                    Some(Some(v)) => r matches Ok(info) && info.id@ == v && info.state@ == (match string_field(
                        body_text(body),
                        "/status"@,
                    ) {
                        Some(s) => s,
                        None => "unknown"@,
                    }) && opt_text(info.vip_address) == (if json::json_array_at(body_text(body), "/ip"@) {
                        string_field(body_text(body), "/ip/0/ip_address"@)
                    } else {
                        None
                    }),
                }
            } else {
                fails_reading(r, body)
            },
    {
        if code == 404 {
            return Err(OperatorError::LbNotFound(owned(lb_id)));
        }
        let text = match body {
            Ok(t) => t,
            Err(e) => return Err(OperatorError::NetworkError(e)),
        };
        let body = text.as_str();
        if !(200 <= code && code < 300) {
            return Err(scaleway_error(code, body));
        }
        let id = required_string(body, "/id", "Missing lb.id in response")?;
        Ok(
            lb_info_from_fields(
                id,
                string_field_or_none(body, "/status"),
                string_field_or_none(body, "/ip/0/ip_address"),
                is_json_array_at(body, "/ip"),
            ),
        )
    }

    /// Outcome of a load balancer deletion: one that is already gone counts as
    /// deleted. The body is read only on a failure status.
    pub fn delete_load_balancer_outcome(code: u16, body: Result<String, reqwest::Error>) -> (r: OperatorResult<()>)
        requires
            valid_status(code),
        ensures
            is_success(code) || code == 404 ==> r is Ok,
            !is_success(code) && code != 404 ==> if body is Ok {
                r matches Err(e) && e@ == scaleway_error_model(code, body_text(body))
            } else {
                fails_reading(r, body)
            },
            (code == 409 || code == 423) && body is Ok ==> (r matches Err(OperatorError::ScalewayError { status, .. })
                && crate::lb_flow::locked_status(status@)),
    {
        if code == 404 || (200 <= code && code < 300) {
            return Ok(());
        }
        let text = match body {
            Ok(t) => t,
            Err(e) => return Err(OperatorError::NetworkError(e)),
        };
        let e = scaleway_error(code, text.as_str());
        proof {
            if let OperatorError::ScalewayError { ref status, .. } = e {
                if code == 409 {
                    reveal_strlit("409");
                    assert(three_digits(code) =~= "409"@);
                    assert(status@.subrange(0int, 0int + "409"@.len()) == "409"@);
                } else if code == 423 {
                    reveal_strlit("423");
                    assert(three_digits(code) =~= "423"@);
                    assert(status@.subrange(0int, 0int + "423"@.len()) == "423"@);
                }
            }
        }
        Err(e)
    }

    // ============== Validation ==============

    /// Accepts the known Scaleway zones.
    pub fn validate_zone(&self, zone: &str) -> (r: OperatorResult<()>)
        ensures
            known_zone(zone@) ==> r is Ok,
            !known_zone(zone@) ==> (r matches Err(e) && e@ == ErrorModel::InvalidZone(zone@)),
    {
        check_zone(zone)
    }

    /// Accepts the known load balancer types.
    pub fn validate_lb_type(&self, lb_type: &str) -> (r: OperatorResult<()>)
        ensures
            known_lb_type(lb_type@) ==> r is Ok,
            !known_lb_type(lb_type@) ==> (r matches Err(e) && e@ == ErrorModel::InvalidLbType(
                lb_type@,
            )),
    {
        check_lb_type(lb_type)
    }

    /// Accepts the known commercial instance types (case-sensitive).
    pub fn validate_instance_type(&self, instance_type: &str) -> (r: OperatorResult<()>)
        ensures
            known_instance_type(instance_type@) ==> r is Ok,
            !known_instance_type(instance_type@) ==> (r matches Err(e) && e@
                == ErrorModel::InvalidInstanceType(instance_type@)),
    {
        check_instance_type(instance_type)
    }
}


/// Accepts the known Scaleway zones.
pub fn check_zone(zone: &str) -> (r: OperatorResult<()>)
    ensures
        known_zone(zone@) ==> r is Ok,
        !known_zone(zone@) ==> (r matches Err(e) && e@ == ErrorModel::InvalidZone(zone@)),
{
    if str_eq(zone, "fr-par-1") || str_eq(zone, "fr-par-2") || str_eq(zone, "nl-ams-1")
        || str_eq(zone, "pl-waw-1") || str_eq(zone, "sg-sin-1") || str_eq(zone, "it-mil-1") {
        Ok(())
    } else {
        Err(OperatorError::InvalidZone(owned(zone)))
    }
}

/// Accepts the known load balancer types.
pub fn check_lb_type(lb_type: &str) -> (r: OperatorResult<()>)
    ensures
        known_lb_type(lb_type@) ==> r is Ok,
        !known_lb_type(lb_type@) ==> (r matches Err(e) && e@ == ErrorModel::InvalidLbType(
            lb_type@,
        )),
{
    if str_eq(lb_type, "LB-S") || str_eq(lb_type, "LB-GP") {
        Ok(())
    } else {
        Err(OperatorError::InvalidLbType(owned(lb_type)))
    }
}

/// Accepts the known commercial instance types (case-sensitive).
pub fn check_instance_type(instance_type: &str) -> (r: OperatorResult<()>)
    ensures
        known_instance_type(instance_type@) ==> r is Ok,
        !known_instance_type(instance_type@) ==> (r matches Err(e) && e@
            == ErrorModel::InvalidInstanceType(instance_type@)),
{
    let t = instance_type;
    if str_eq(t, "DEV1-S") || str_eq(t, "DEV1-M") || str_eq(t, "DEV1-L") || str_eq(t, "DEV1-XL")
        || str_eq(t, "GP1-XS") || str_eq(t, "GP1-S") || str_eq(t, "GP1-M") || str_eq(t, "GP1-L")
        || str_eq(t, "GP1-XL") || str_eq(t, "CPU1-XS") || str_eq(t, "CPU1-S") || str_eq(
        t,
        "CPU1-M",
    ) || str_eq(t, "CPU1-L") || str_eq(t, "GPU-3090") || str_eq(t, "GPU-4090") {
        Ok(())
    } else {
        Err(OperatorError::InvalidInstanceType(owned(instance_type)))
    }
}

/// The text of an optional string.
pub open spec fn opt_text(o: Option<String>) -> Option<Seq<char>> {
    crate::resources::opt_view(o)
}

} // verus!
