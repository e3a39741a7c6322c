//! The operator's error type, its metric label, its permanence class and the
//! sanitized message that is written into a custom resource's status.

use vstd::prelude::*;
use vstd::string::*;
use crate::json::lookup_json_string;
use crate::json;
use crate::text::{cat, cat3};

verus! {

#[verifier::external_type_specification]
#[verifier::external_body]
pub struct ExKubeError(kube::Error);

#[verifier::external_type_specification]
#[verifier::external_body]
pub struct ExReqwestError(reqwest::Error);

/// Every failure the operator can report.
#[derive(Debug)]
pub enum OperatorError {
    KubeError(kube::Error),
    ScalewayError { status: String, message: String },
    ProjectAccessDenied(String),
    InstanceNotFound(String),
    LbNotFound(String),
    InvalidZone(String),
    InvalidInstanceType(String),
    InvalidLbType(String),
    ConfigError(String),
    NetworkError(reqwest::Error),
    SerializationError(serde_json::Error),
    FinalizationError(String),
    SecretNotFound(String),
    /// The custom resource names no usable source (permanent).
    SecretSourceNotConfigured(String),
    /// The referenced Secret lacks the opt-in label (permanent).
    SecretOptInMissing(String),
    Unknown(String),
    CircuitBreakerOpen,
}

/// Result type of the operator's fallible operations.
pub type OperatorResult<T> = core::result::Result<T, OperatorError>;

/// The mathematical content of an [`OperatorError`]: texts as character sequences,
/// errors of outside crates as they are.
pub enum ErrorModel {
    Kube(kube::Error),
    Scaleway { status: Seq<char>, message: Seq<char> },
    ProjectAccessDenied(Seq<char>),
    InstanceNotFound(Seq<char>),
    LbNotFound(Seq<char>),
    InvalidZone(Seq<char>),
    InvalidInstanceType(Seq<char>),
    InvalidLbType(Seq<char>),
    Config(Seq<char>),
    Network(reqwest::Error),
    Serialization(serde_json::Error),
    Finalization(Seq<char>),
    SecretNotFound(Seq<char>),
    SecretSourceNotConfigured(Seq<char>),
    SecretOptInMissing(Seq<char>),
    Unknown(Seq<char>),
    CircuitBreakerOpen,
}

impl View for OperatorError {
    type V = ErrorModel;

    open spec fn view(&self) -> ErrorModel {
        match self {
            OperatorError::KubeError(e) => ErrorModel::Kube(*e),
            OperatorError::ScalewayError { status, message } => ErrorModel::Scaleway {
                status: status@,
                message: message@,
            },
            OperatorError::ProjectAccessDenied(s) => ErrorModel::ProjectAccessDenied(s@),
            OperatorError::InstanceNotFound(s) => ErrorModel::InstanceNotFound(s@),
            OperatorError::LbNotFound(s) => ErrorModel::LbNotFound(s@),
            OperatorError::InvalidZone(s) => ErrorModel::InvalidZone(s@),
            OperatorError::InvalidInstanceType(s) => ErrorModel::InvalidInstanceType(s@),
            OperatorError::InvalidLbType(s) => ErrorModel::InvalidLbType(s@),
            OperatorError::ConfigError(s) => ErrorModel::Config(s@),
            OperatorError::NetworkError(e) => ErrorModel::Network(*e),
            OperatorError::SerializationError(e) => ErrorModel::Serialization(*e),
            OperatorError::FinalizationError(s) => ErrorModel::Finalization(s@),
            OperatorError::SecretNotFound(s) => ErrorModel::SecretNotFound(s@),
            OperatorError::SecretSourceNotConfigured(s) => ErrorModel::SecretSourceNotConfigured(s@),
            OperatorError::SecretOptInMissing(s) => ErrorModel::SecretOptInMissing(s@),
            OperatorError::Unknown(s) => ErrorModel::Unknown(s@),
            OperatorError::CircuitBreakerOpen => ErrorModel::CircuitBreakerOpen,
        }
    }
}

/// The PascalCase name of the variant.
pub open spec fn label_of(e: ErrorModel) -> Seq<char> {
    match e {
        ErrorModel::Kube(_) => "KubeError"@,
        ErrorModel::Scaleway { .. } => "ScalewayError"@,
        ErrorModel::ProjectAccessDenied(_) => "ProjectAccessDenied"@,
        ErrorModel::InstanceNotFound(_) => "InstanceNotFound"@,
        ErrorModel::LbNotFound(_) => "LbNotFound"@,
        ErrorModel::InvalidZone(_) => "InvalidZone"@,
        ErrorModel::InvalidInstanceType(_) => "InvalidInstanceType"@,
        ErrorModel::InvalidLbType(_) => "InvalidLbType"@,
        ErrorModel::Config(_) => "ConfigError"@,
        ErrorModel::Network(_) => "NetworkError"@,
        ErrorModel::Serialization(_) => "SerializationError"@,
        ErrorModel::Finalization(_) => "FinalizationError"@,
        ErrorModel::SecretNotFound(_) => "SecretNotFound"@,
        ErrorModel::SecretSourceNotConfigured(_) => "SecretSourceNotConfigured"@,
        ErrorModel::SecretOptInMissing(_) => "SecretOptInMissing"@,
        ErrorModel::Unknown(_) => "Unknown"@,
        ErrorModel::CircuitBreakerOpen => "CircuitBreakerOpen"@,
    }
}

/// Misconfigurations that only a change of the custom resource can repair.
pub open spec fn permanent(e: ErrorModel) -> bool {
    match e {
        ErrorModel::InvalidZone(_)
        | ErrorModel::InvalidInstanceType(_)
        | ErrorModel::InvalidLbType(_)
        | ErrorModel::Config(_)
        | ErrorModel::ProjectAccessDenied(_)
        | ErrorModel::SecretSourceNotConfigured(_)
        | ErrorModel::SecretOptInMissing(_) => true,
        _ => false,
    }
}

/// The message written into a status: the `message` field of a Scaleway JSON
/// error body when there is one, fixed texts for errors that may carry internal
/// addresses, and the error's own text otherwise.
pub open spec fn status_message(e: ErrorModel) -> Seq<char> {
    match e {
        ErrorModel::Scaleway { status, message } => scaleway_status_text(
            status,
            match json::json_string_at(message, "/message"@) {
                Some(Some(m)) => Some(m),
                _ => None,
            },
        ),
        ErrorModel::Network(_) => "Network error communicating with Scaleway API"@,
        ErrorModel::Kube(_) => "Kubernetes API error"@,
        ErrorModel::Serialization(_) => "Response parsing error"@,
        ErrorModel::CircuitBreakerOpen => "Scaleway API temporarily unavailable"@,
        ErrorModel::ProjectAccessDenied(s) => "Project access denied: "@ + s,
        ErrorModel::InstanceNotFound(s) => "Instance not found: "@ + s,
        ErrorModel::LbNotFound(s) => "Load balancer not found: "@ + s,
        ErrorModel::InvalidZone(s) => "Invalid zone: "@ + s,
        ErrorModel::InvalidInstanceType(s) => "Invalid instance type: "@ + s,
        ErrorModel::InvalidLbType(s) => "Invalid load balancer type: "@ + s,
        ErrorModel::Config(s) => "Configuration error: "@ + s,
        ErrorModel::Finalization(s) => "Finalization error: "@ + s,
        ErrorModel::SecretNotFound(s) => "Secret not found: "@ + s,
        ErrorModel::SecretSourceNotConfigured(s) => "Secret source not configured: "@ + s,
        ErrorModel::SecretOptInMissing(s) => "Secret opt-in missing: "@ + s,
        ErrorModel::Unknown(s) => "Unknown error: "@ + s,
    }
}

/// The status text of a Scaleway error: its status, then the `message` field
/// of its JSON body when there is one.
pub open spec fn scaleway_status_text(status: Seq<char>, message_field: Option<Seq<char>>) -> Seq<char> {
    match message_field {
        Some(m) => "Scaleway API error: "@ + status + " — "@ + m,
        None => "Scaleway API error: "@ + status,
    }
}

/// The status text of a Scaleway error, given the `message` field read from its
/// body, if any.
pub fn scaleway_status_message(status: &str, message_field: Option<String>) -> (r: String)
    ensures
        r@ == scaleway_status_text(status@, match message_field {
            Some(m) => Some(m@),
            None => None,
        }),
{
    match message_field {
        Some(m) => cat3("Scaleway API error: ", status, " — ").concat(m.as_str()),
        None => cat("Scaleway API error: ", status),
    }
}

impl OperatorError {
    /// Returns the PascalCase variant name for use as a metric label.
    pub fn metric_label(&self) -> (r: &'static str)
        ensures
            r@ == label_of(self@),
    {
        match self {
            OperatorError::KubeError(_) => "KubeError",
            OperatorError::ScalewayError { .. } => "ScalewayError",
            OperatorError::ProjectAccessDenied(_) => "ProjectAccessDenied",
            OperatorError::InstanceNotFound(_) => "InstanceNotFound",
            OperatorError::LbNotFound(_) => "LbNotFound",
            OperatorError::InvalidZone(_) => "InvalidZone",
            OperatorError::InvalidInstanceType(_) => "InvalidInstanceType",
            OperatorError::InvalidLbType(_) => "InvalidLbType",
            OperatorError::ConfigError(_) => "ConfigError",
            OperatorError::NetworkError(_) => "NetworkError",
            OperatorError::SerializationError(_) => "SerializationError",
            OperatorError::FinalizationError(_) => "FinalizationError",
            OperatorError::SecretNotFound(_) => "SecretNotFound",
            OperatorError::SecretSourceNotConfigured(_) => "SecretSourceNotConfigured",
            OperatorError::SecretOptInMissing(_) => "SecretOptInMissing",
            OperatorError::Unknown(_) => "Unknown",
            OperatorError::CircuitBreakerOpen => "CircuitBreakerOpen",
        }
    }

    /// Returns true for errors that indicate a permanent misconfiguration.
    pub fn is_permanent_error(&self) -> (r: bool)
        ensures
            r == permanent(self@),
    {
        match self {
            OperatorError::InvalidZone(_)
            | OperatorError::InvalidInstanceType(_)
            | OperatorError::InvalidLbType(_)
            | OperatorError::ConfigError(_)
            | OperatorError::ProjectAccessDenied(_)
            | OperatorError::SecretSourceNotConfigured(_)
            | OperatorError::SecretOptInMissing(_) => true,
            _ => false,
        }
    }

    /// Returns a sanitized message suitable for writing to a status.
    pub fn for_status(&self) -> (r: String)
        ensures
            r@ == status_message(self@),
    {
        match self {
            OperatorError::ScalewayError { status, message } => {
                let field = match lookup_json_string(message.as_str(), "/message") {
                    Ok(Some(m)) => Some(m),
                    _ => None,
                };
                scaleway_status_message(status.as_str(), field)
            },
            OperatorError::NetworkError(_) => String::from_str(
                "Network error communicating with Scaleway API",
            ),
            OperatorError::KubeError(_) => String::from_str("Kubernetes API error"),
            OperatorError::SerializationError(_) => String::from_str("Response parsing error"),
            OperatorError::CircuitBreakerOpen => String::from_str(
                "Scaleway API temporarily unavailable",
            ),
            OperatorError::ProjectAccessDenied(s) => cat("Project access denied: ", s.as_str()),
            OperatorError::InstanceNotFound(s) => cat("Instance not found: ", s.as_str()),
            OperatorError::LbNotFound(s) => cat("Load balancer not found: ", s.as_str()),
            OperatorError::InvalidZone(s) => cat("Invalid zone: ", s.as_str()),
            OperatorError::InvalidInstanceType(s) => cat("Invalid instance type: ", s.as_str()),
            OperatorError::InvalidLbType(s) => cat("Invalid load balancer type: ", s.as_str()),
            OperatorError::ConfigError(s) => cat("Configuration error: ", s.as_str()),
            OperatorError::FinalizationError(s) => cat("Finalization error: ", s.as_str()),
            OperatorError::SecretNotFound(s) => cat("Secret not found: ", s.as_str()),
            OperatorError::SecretSourceNotConfigured(s) => cat(
                "Secret source not configured: ",
                s.as_str(),
            ),
            OperatorError::SecretOptInMissing(s) => cat("Secret opt-in missing: ", s.as_str()),
            OperatorError::Unknown(s) => cat("Unknown error: ", s.as_str()),
        }
    }
}

} // verus!
