//! Specifications and statuses of the custom resources, as plain values.

use vstd::prelude::*;
use vstd::string::*;
use crate::text::copy_opt;

verus! {

/// A point in time: seconds since the Unix epoch and the nanoseconds within that second.
#[derive(Debug, Clone, Copy, PartialEq, Eq)]
pub struct Timestamp {
    pub secs: i64,
    pub nanos: u32,
}

/// Desired state of a Scaleway instance.
#[derive(Debug, Clone)]
pub struct InstanceSpec {
    /// Name of the Scaleway instance.
    pub name: String,
    /// Scaleway zone (fr-par-1, nl-ams-1, ...).
    pub zone: String,
    /// Image to boot (ubuntu-jammy, debian-12, ...).
    pub image: String,
    /// Commercial type (DEV1-S, GP1-M, GPU-3090, ...).
    pub instance_type: String,
    /// Optional tags.
    pub tags: Vec<String>,
    /// Boot volume size in GB (20 when absent).
    pub boot_volume_size: i32,
    /// Optional network settings.
    pub network: Option<NetworkConfig>,
    /// Optional security settings.
    pub security: Option<SecurityConfig>,
}

#[derive(Debug, Clone)]
pub struct NetworkConfig {
    pub public_ip: Option<bool>,
    pub enable_ipv6: Option<bool>,
}

#[derive(Debug, Clone)]
pub struct SecurityConfig {
    pub enable_firewall: Option<bool>,
}

/// Boot volume size used when a specification gives none.
pub fn default_boot_size() -> (r: i32)
    ensures
        r == 20,
{
    20
}

/// Observed state of a Scaleway instance.
#[derive(Debug, Clone, PartialEq, Eq)]
pub struct InstanceStatus {
    /// Scaleway ID of the instance.
    pub scaleway_id: Option<String>,
    /// Public IP address.
    pub public_ip: Option<String>,
    /// Current state (running, stopped, creating, ...).
    pub state: String,
    /// Scaleway project the instance belongs to.
    pub project_id: Option<String>,
    /// Creation time.
    pub created_at: Option<Timestamp>,
    /// Error message, if any.
    pub error_message: Option<String>,
    /// Synchronisation state (Synced, Syncing, Error).
    pub sync_state: String,
}

/// The contents of an [`InstanceStatus`].
pub struct InstanceStatusView {
    pub scaleway_id: Option<Seq<char>>,
    pub public_ip: Option<Seq<char>>,
    pub state: Seq<char>,
    pub project_id: Option<Seq<char>>,
    pub created_at: Option<Timestamp>,
    pub error_message: Option<Seq<char>>,
    pub sync_state: Seq<char>,
}

/// The character sequence of an optional string.
pub open spec fn opt_view(o: Option<String>) -> Option<Seq<char>> {
    match o {
        Some(s) => Some(s@),
        None => None,
    }
}

impl View for InstanceStatus {
    type V = InstanceStatusView;

    open spec fn view(&self) -> InstanceStatusView {
        InstanceStatusView {
            scaleway_id: opt_view(self.scaleway_id),
            public_ip: opt_view(self.public_ip),
            state: self.state@,
            project_id: opt_view(self.project_id),
            created_at: self.created_at,
            error_message: opt_view(self.error_message),
            sync_state: self.sync_state@,
        }
    }
}

/// The status of an instance that has not been reconciled yet.
pub open spec fn initial_instance_status() -> InstanceStatusView {
    InstanceStatusView {
        scaleway_id: None,
        public_ip: None,
        state: "unknown"@,
        project_id: None,
        created_at: None,
        error_message: None,
        sync_state: "Syncing"@,
    }
}

impl Default for InstanceStatus {
    fn default() -> (r: Self)
        ensures
            r@ == initial_instance_status(),
    {
        InstanceStatus {
            scaleway_id: None,
            public_ip: None,
            state: String::from_str("unknown"),
            project_id: None,
            created_at: None,
            error_message: None,
            sync_state: String::from_str("Syncing"),
        }
    }
}

impl InstanceStatus {
    /// A field-by-field copy.
    pub fn duplicate(&self) -> (r: Self)
        ensures
            r == *self,
    {
        InstanceStatus {
            scaleway_id: copy_opt(&self.scaleway_id),
            public_ip: copy_opt(&self.public_ip),
            state: self.state.clone(),
            project_id: copy_opt(&self.project_id),
            created_at: self.created_at,
            error_message: copy_opt(&self.error_message),
            sync_state: self.sync_state.clone(),
        }
    }
}

/// Desired state of a Scaleway load balancer.
#[derive(Debug, Clone)]
pub struct LoadBalancerSpec {
    /// Name of the Scaleway load balancer.
    pub name: String,
    /// Scaleway zone.
    pub zone: String,
    /// Load balancer type (LB-S, LB-GP, ...).
    pub lb_type: String,
    /// Optional description.
    pub description: Option<String>,
    /// Optional tags.
    pub tags: Vec<String>,
}

/// Observed state of a Scaleway load balancer.
#[derive(Debug, Clone, PartialEq, Eq)]
pub struct LoadBalancerStatus {
    /// Scaleway ID of the load balancer.
    pub scaleway_id: Option<String>,
    /// Virtual IP address.
    pub vip_address: Option<String>,
    /// Current state (pending, ready, error, ...).
    pub state: String,
    /// Scaleway project the load balancer belongs to.
    pub project_id: Option<String>,
    /// Creation time.
    pub created_at: Option<Timestamp>,
    /// Error message, if any.
    pub error_message: Option<String>,
    /// Synchronisation state (Pending, Synced, Syncing, Error, TerminationBlocked, ...).
    pub sync_state: String,
}

/// The contents of a [`LoadBalancerStatus`].
pub struct LoadBalancerStatusView {
    pub scaleway_id: Option<Seq<char>>,
    pub vip_address: Option<Seq<char>>,
    pub state: Seq<char>,
    pub project_id: Option<Seq<char>>,
    pub created_at: Option<Timestamp>,
    pub error_message: Option<Seq<char>>,
    pub sync_state: Seq<char>,
}

impl View for LoadBalancerStatus {
    type V = LoadBalancerStatusView;

    open spec fn view(&self) -> LoadBalancerStatusView {
        LoadBalancerStatusView {
            scaleway_id: opt_view(self.scaleway_id),
            vip_address: opt_view(self.vip_address),
            state: self.state@,
            project_id: opt_view(self.project_id),
            created_at: self.created_at,
            error_message: opt_view(self.error_message),
            sync_state: self.sync_state@,
        }
    }
}

/// The status of a load balancer that has not been reconciled yet.
pub open spec fn initial_lb_status() -> LoadBalancerStatusView {
    LoadBalancerStatusView {
        scaleway_id: None,
        vip_address: None,
        state: Seq::empty(),
        project_id: None,
        created_at: None,
        error_message: None,
        sync_state: "Pending"@,
    }
}

impl Default for LoadBalancerStatus {
    fn default() -> (r: Self)
        ensures
            r@ == initial_lb_status(),
    {
        LoadBalancerStatus {
            scaleway_id: None,
            vip_address: None,
            state: String::new(),
            project_id: None,
            created_at: None,
            error_message: None,
            sync_state: String::from_str("Pending"),
        }
    }
}

impl LoadBalancerStatus {
    /// A field-by-field copy.
    pub fn duplicate(&self) -> (r: Self)
        ensures
            r == *self,
    {
        LoadBalancerStatus {
            scaleway_id: copy_opt(&self.scaleway_id),
            vip_address: copy_opt(&self.vip_address),
            state: self.state.clone(),
            project_id: copy_opt(&self.project_id),
            created_at: self.created_at,
            error_message: copy_opt(&self.error_message),
            sync_state: self.sync_state.clone(),
        }
    }
}

/// Binds a Kubernetes namespace to the Scaleway role the operator assumes there.
#[derive(Debug, Clone)]
pub struct NamespaceRoleSpec {
    /// Name of the Kubernetes namespace.
    pub namespace: String,
    /// Scaleway role ("Editor", "Admin", "Viewer", ...).
    pub scaleway_role: String,
    /// Optional description.
    pub description: Option<String>,
}

#[derive(Debug, Clone, PartialEq, Eq)]
pub struct NamespaceRoleStatus {
    /// Time of creation or last update.
    pub last_updated: Option<Timestamp>,
    /// Validation state (Validated, Invalid, ...).
    pub validation_state: String,
    /// Error message, if any.
    pub error_message: Option<String>,
}

impl Default for NamespaceRoleStatus {
    fn default() -> (r: Self)
        ensures
            r.last_updated is None,
            r.validation_state@ == "Validated"@,
            r.error_message is None,
    {
        NamespaceRoleStatus {
            last_updated: None,
            validation_state: String::from_str("Validated"),
            error_message: None,
        }
    }
}

} // verus!
