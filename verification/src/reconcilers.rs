//! Reconciliation rules: the pure decision for each resource, the classification
//! of errors and the retry backoff, finalizer lists, the statuses written after
//! each outcome, and the credentials of a namespace.

use std::collections::BTreeMap;
use vstd::prelude::*;
use vstd::string::*;
use vstd::arithmetic::power2::{pow2, lemma2_to64};
use vstd::bits::lemma_u64_shl_is_mul;
use crate::context::{string_map_get, CircuitBreakerState, RetryCounts};
use crate::context;
use crate::error::{ErrorModel, OperatorError, OperatorResult};
use crate::metrics::ReconcileOutcome;
use crate::resources::{InstanceSpec, InstanceStatus, LoadBalancerSpec, LoadBalancerStatus, Timestamp};
use crate::resources;
use crate::scaleway::{check_instance_type, check_lb_type, check_zone, InstanceInfo, LoadBalancerInfo, ScalewayClient};
use crate::scaleway;
use crate::text::{cat, cat3, copy_opt, owned, str_eq};

verus! {

/// Finalizer that guards the deletion of an Instance.
pub const INSTANCE_FINALIZER: &'static str = "scaleway.mathieubodin.io/instance-finalizer";

/// Finalizer that guards the deletion of a LoadBalancer.
pub const LB_FINALIZER: &'static str = "scaleway.mathieubodin.io/loadbalancer-finalizer";

/// Namespace that holds the per-namespace IAM credentials.
pub const NAMESPACE_CREDS_NS: &'static str = "scaleway-system";

// ── Pure decision layer ──────────────────────────────────────────────────────

/// The facts a reconciliation decision depends on. The role and the project are
/// empty when they were not read (deletion, open circuit).
pub struct ReconcileInput {
    pub deletion_requested: bool,
    pub circuit_open: bool,
    pub finalizer_present: bool,
    pub scaleway_role: String,
    pub project_id: String,
    pub scaleway_id: Option<String>,
    pub status_project_id: Option<String>,
}

/// What a reconciliation of an Instance does next.
pub enum ReconcileDecision {
    /// The circuit breaker is open: skip this reconciliation.
    SkipCircuitOpen,
    /// Add the finalizer, then requeue.
    AddFinalizer,
    /// The role cannot create: fail with a permanent error.
    BlockReadOnlyRole,
    /// Check access to the project, then create in the same pass.
    VerifyProjectAccess { project_id: String },
    /// Create the instance (project access checked in an earlier pass).
    CreateInstance { project_id: String },
    /// Read the instance's state from Scaleway.
    SyncInstance { scaleway_id: String, project_id: String },
    /// Delete the Scaleway instance, then remove the finalizer.
    DeleteInstance { scaleway_id: String },
    /// Remove the finalizer (no Scaleway instance is known).
    RemoveFinalizer,
    /// Requeue after the given number of seconds.
    RequeueIn(u64),
}

/// Roles allowed to create resources.
pub open spec fn is_write_role(role: Seq<char>) -> bool {
    role == "Editor"@ || role == "Admin"@ || role == "OrganizationOwner"@
}

/// Returns true if the role allows write operations.
pub fn role_allows_write(role: &str) -> (r: bool)
    ensures
        r == is_write_role(role@),
{
    str_eq(role, "Editor") || str_eq(role, "Admin") || str_eq(role, "OrganizationOwner")
}

/// The decision for an Instance: deletion first, then the circuit, then the
/// finalizer, then synchronisation of a known instance, then creation (which a
/// read-only role blocks, and which checks project access the first time).
pub open spec fn instance_decision(input: ReconcileInput) -> ReconcileDecision {
    if input.deletion_requested {
        match input.scaleway_id {
            Some(id) => ReconcileDecision::DeleteInstance { scaleway_id: id },
            None => ReconcileDecision::RemoveFinalizer,
        }
    } else if input.circuit_open {
        ReconcileDecision::SkipCircuitOpen
    } else if !input.finalizer_present {
        ReconcileDecision::AddFinalizer
    } else if input.scaleway_id is Some {
        ReconcileDecision::SyncInstance {
            scaleway_id: input.scaleway_id->0,
            project_id: input.project_id,
        }
    } else if !is_write_role(input.scaleway_role@) {
        ReconcileDecision::BlockReadOnlyRole
    } else if input.status_project_id is None {
        ReconcileDecision::VerifyProjectAccess { project_id: input.project_id }
    } else {
        ReconcileDecision::CreateInstance { project_id: input.project_id }
    }
}

/// Derives the next action from a snapshot of the state, without side effects.
pub fn decide_next_action(input: &ReconcileInput) -> (r: ReconcileDecision)
    ensures
        r == instance_decision(*input),
{
    if input.deletion_requested {
        return match &input.scaleway_id {
            Some(id) => ReconcileDecision::DeleteInstance { scaleway_id: id.clone() },
            None => ReconcileDecision::RemoveFinalizer,
        };
    }
    if input.circuit_open {
        return ReconcileDecision::SkipCircuitOpen;
    }
    if !input.finalizer_present {
        return ReconcileDecision::AddFinalizer;
    }
    if let Some(scaleway_id) = &input.scaleway_id {
        return ReconcileDecision::SyncInstance {
            scaleway_id: scaleway_id.clone(),
            project_id: input.project_id.clone(),
        };
    }
    if !role_allows_write(input.scaleway_role.as_str()) {
        return ReconcileDecision::BlockReadOnlyRole;
    }
    if input.status_project_id.is_none() {
        return ReconcileDecision::VerifyProjectAccess { project_id: input.project_id.clone() };
    }
    ReconcileDecision::CreateInstance { project_id: input.project_id.clone() }
}

/// The facts a LoadBalancer decision depends on.
pub struct LbReconcileInput {
    pub deletion_requested: bool,
    pub circuit_open: bool,
    pub finalizer_present: bool,
    pub scaleway_role: String,
    pub project_id: String,
    pub scaleway_id: Option<String>,
    pub status_project_id: Option<String>,
}

/// What a reconciliation of a LoadBalancer does next.
pub enum LbReconcileDecision {
    SkipCircuitOpen,
    AddLbFinalizer,
    BlockReadOnlyRole,
    VerifyProjectAccessLb { project_id: String },
    CreateLoadBalancer { project_id: String },
    SyncLoadBalancer { scaleway_id: String, project_id: String },
    DeleteLoadBalancer { scaleway_id: String },
    RemoveLbFinalizer,
}

/// The decision for a LoadBalancer, in the same order as for an Instance.
pub open spec fn lb_decision(input: LbReconcileInput) -> LbReconcileDecision {
    if input.deletion_requested {
        match input.scaleway_id {
            Some(id) => LbReconcileDecision::DeleteLoadBalancer { scaleway_id: id },
            None => LbReconcileDecision::RemoveLbFinalizer,
        }
    } else if input.circuit_open {
        LbReconcileDecision::SkipCircuitOpen
    } else if !input.finalizer_present {
        LbReconcileDecision::AddLbFinalizer
    } else if input.scaleway_id is Some {
        LbReconcileDecision::SyncLoadBalancer {
            scaleway_id: input.scaleway_id->0,
            project_id: input.project_id,
        }
    } else if !is_write_role(input.scaleway_role@) {
        LbReconcileDecision::BlockReadOnlyRole
    } else if input.status_project_id is None {
        LbReconcileDecision::VerifyProjectAccessLb { project_id: input.project_id }
    } else {
        LbReconcileDecision::CreateLoadBalancer { project_id: input.project_id }
    }
}

pub fn decide_next_action_lb(input: &LbReconcileInput) -> (r: LbReconcileDecision)
    ensures
        r == lb_decision(*input),
{
    if input.deletion_requested {
        return match &input.scaleway_id {
            Some(id) => LbReconcileDecision::DeleteLoadBalancer { scaleway_id: id.clone() },
            None => LbReconcileDecision::RemoveLbFinalizer,
        };
    }
    if input.circuit_open {
        return LbReconcileDecision::SkipCircuitOpen;
    }
    if !input.finalizer_present {
        return LbReconcileDecision::AddLbFinalizer;
    }
    if let Some(scaleway_id) = &input.scaleway_id {
        return LbReconcileDecision::SyncLoadBalancer {
            scaleway_id: scaleway_id.clone(),
            project_id: input.project_id.clone(),
        };
    }
    if !role_allows_write(input.scaleway_role.as_str()) {
        return LbReconcileDecision::BlockReadOnlyRole;
    }
    if input.status_project_id.is_none() {
        return LbReconcileDecision::VerifyProjectAccessLb {
            project_id: input.project_id.clone(),
        };
    }
    LbReconcileDecision::CreateLoadBalancer { project_id: input.project_id.clone() }
}

// ── Error policy ─────────────────────────────────────────────────────────────

/// Errors after which the controller waits for a change of the resource
/// instead of retrying: exactly the permanent misconfigurations.
pub open spec fn retry_exempt(e: ErrorModel) -> bool {
    crate::error::permanent(e)
}

/// Returns true if the error is permanent (bad spec or configuration: do not requeue).
pub fn is_permanent_error(error: &OperatorError) -> (r: bool)
    ensures
        r == retry_exempt(error@),
{
    error.is_permanent_error()
}

/// What the controller does after a reconciliation.
#[derive(Debug, Clone, Copy, PartialEq, Eq, Structural)]
pub enum ReconcileAction {
    /// Reconcile again after the given number of seconds.
    Requeue(u64),
    /// Wait for a change of the resource.
    AwaitChange,
}

/// Retry delay after the given number of consecutive failures: 30 s doubled at
/// each failure, at most 300 s (30, 60, 120, 240, 300, 300, ...).
pub open spec fn backoff_secs(attempts: nat) -> nat {
    if attempts <= 4 {
        30 * pow2((attempts - 1) as nat)
    } else {
        300
    }
}

/// Exponential backoff for the given attempt number (counted from 1).
pub fn backoff_delay_secs(attempts: u32) -> (r: u64)
    requires
        attempts >= 1,
    ensures
        r == backoff_secs(attempts as nat),
{
    let exp: u64 = if attempts - 1 < 9 {
        (attempts - 1) as u64
    } else {
        9
    };
    proof {
        lemma2_to64();
        lemma_u64_shl_is_mul(1, exp);
    }
    let delay = 30u64 * (1u64 << exp);
    if delay < 300 {
        delay
    } else {
        300
    }
}

/// Error policy: permanent errors wait for a change of the resource and leave
/// the retry count alone; other errors count one more failure for `key` and
/// requeue after the backoff of that count.
pub fn error_policy_inner(key: &str, error: &OperatorError, counts: &mut RetryCounts) -> (r:
    ReconcileAction)
    requires
        context::count_of(old(counts)@, key@) < u32::MAX,
    ensures
        retry_exempt(error@) ==> r == ReconcileAction::AwaitChange && final(counts)@ == old(
            counts,
        )@,
        !retry_exempt(error@) ==> {
            let n = context::count_of(old(counts)@, key@) + 1;
            &&& final(counts)@ == old(counts)@.insert(key@, n as u32)
            &&& r == ReconcileAction::Requeue(backoff_secs(n) as u64)
        },
{
    if is_permanent_error(error) {
        ReconcileAction::AwaitChange
    } else {
        let attempts = counts.increment_retry_count(key);
        ReconcileAction::Requeue(backoff_delay_secs(attempts))
    }
}

/// Key of the retry counter of a resource: `{kind}/{namespace}/{name}`.
pub open spec fn retry_key_text(kind: Seq<char>, namespace: Seq<char>, name: Seq<char>) -> Seq<
    char,
> {
    kind + "/"@ + namespace + "/"@ + name
}

pub fn retry_key(kind: &str, namespace: &str, name: &str) -> (r: String)
    ensures
        r@ == retry_key_text(kind@, namespace@, name@),
{
    cat3(kind, "/", namespace).concat("/").concat(name)
}

/// Error policy of a resource of the given kind: counts the failure under the
/// resource's retry key and decides the requeue.
pub fn resource_error_policy(
    kind: &str,
    namespace: &str,
    name: &str,
    error: &OperatorError,
    counts: &mut RetryCounts,
) -> (r: ReconcileAction)
    requires
        context::count_of(old(counts)@, retry_key_text(kind@, namespace@, name@)) < u32::MAX,
    ensures
        ({
            let key = retry_key_text(kind@, namespace@, name@);
            &&& retry_exempt(error@) ==> r == ReconcileAction::AwaitChange && final(counts)@ == old(counts)@
            &&& !retry_exempt(error@) ==> {
                let n = context::count_of(old(counts)@, key) + 1;
                &&& final(counts)@ == old(counts)@.insert(key, n as u32)
                &&& r == ReconcileAction::Requeue(backoff_secs(n) as u64)
            }
        }),
{
    let key = retry_key(kind, namespace, name);
    error_policy_inner(key.as_str(), error, counts)
}

/// After a pass of the resource with retry key `key`: a success clears its
/// retry count, a failure leaves the counts as they are.
pub fn settle_retry_count(key: &str, result: &OperatorResult<ReconcileAction>, counts: &mut RetryCounts)
    ensures
        result is Ok ==> final(counts)@ == old(counts)@.remove(key@),
        result is Err ==> final(counts)@ == old(counts)@,
{
    if result.is_ok() {
        counts.reset_retry_count(key);
    }
}

/// Updates the circuit breaker after a Scaleway call: a success closes it, a
/// transient failure counts against it, a permanent error leaves it alone.
pub fn record_call_outcome<T>(breaker: &mut CircuitBreakerState, result: &OperatorResult<T>)
    requires
        old(breaker).wf(),
    ensures
        final(breaker).wf(),
        match result {
            Ok(_) => final(breaker).phase() == context::phase_after_success(old(breaker).phase())
                && (*old(breaker) is Open ==> *final(breaker) == *old(breaker)),
            Err(e) => if retry_exempt(e@) {
                *final(breaker) == *old(breaker)
            } else {
                final(breaker).phase() == context::phase_after_failure(old(breaker).phase()) && (
                *old(breaker) is Open ==> *final(breaker) == *old(breaker))
            },
        },
{
    match result {
        Ok(_) => breaker.record_scaleway_success(),
        Err(e) => {
            if !is_permanent_error(e) {
                breaker.record_scaleway_failure();
            }
        },
    }
}

// ── Finalizers ───────────────────────────────────────────────────────────────

/// The finalizers of a resource, empty when it has none.
pub open spec fn finalizer_list(f: Option<Vec<String>>) -> Seq<String> {
    match f {
        Some(v) => v@,
        None => Seq::empty(),
    }
}

/// The texts of a list of strings.
pub open spec fn texts(v: Seq<String>) -> Seq<Seq<char>> {
    v.map_values(|s: String| s@)
}

/// Whether the finalizer `name` is present.
pub fn has_finalizer(finalizers: &Option<Vec<String>>, name: &str) -> (r: bool)
    ensures
        r == texts(finalizer_list(*finalizers)).contains(name@),
{
    match finalizers {
        None => {
            assert(texts(Seq::<String>::empty()) =~= Seq::<Seq<char>>::empty());
            false
        },
        Some(v) => {
            assert(finalizer_list(*finalizers) == v@);
            let mut i: usize = 0;
            while i < v.len()
                invariant
                    i <= v.len(),
                    finalizer_list(*finalizers) == v@,
                    forall|j: int| 0 <= j < i ==> v@[j]@ != name@,
                decreases v.len() - i,
            {
                if str_eq(v[i].as_str(), name) {
                    assert(texts(v@)[i as int] == name@);
                    assert(texts(v@).contains(name@));
                    return true;
                }
                i = i + 1;
            }
            proof {
                if texts(v@).contains(name@) {
                    let j = choose|j: int| 0 <= j < texts(v@).len() && texts(v@)[j] == name@;
                    assert(v@[j]@ == name@);
                }
            }
            false
        },
    }
}

/// The finalizers with `name` appended.
pub fn finalizers_with(finalizers: &Option<Vec<String>>, name: &str) -> (r: Vec<String>)
    ensures
        texts(r@) == texts(finalizer_list(*finalizers)).push(name@),
        r@.drop_last() == finalizer_list(*finalizers),
{
    let mut out: Vec<String> = match finalizers {
        Some(v) => crate::text::copy_strings(v),
        None => Vec::new(),
    };
    out.push(owned(name));
    assert(texts(out@) =~= texts(finalizer_list(*finalizers)).push(name@));
    assert(out@.drop_last() =~= finalizer_list(*finalizers));
    out
}

/// Keeps the finalizers other than `name`, in order.
pub open spec fn without_finalizer(v: Seq<String>, name: Seq<char>) -> Seq<String> {
    v.filter(|s: String| s@ != name)
}

/// The finalizers without any occurrence of `name`.
pub fn finalizers_without(finalizers: &Option<Vec<String>>, name: &str) -> (r: Vec<String>)
    ensures
        r@ == without_finalizer(finalizer_list(*finalizers), name@),
{
    let ghost pred = |s: String| s@ != name@;
    let mut out: Vec<String> = Vec::new();
    match finalizers {
        None => {
            proof {
                reveal(Seq::filter);
            }
            assert(out@ =~= without_finalizer(finalizer_list(*finalizers), name@));
            out
        },
        Some(v) => {
            let mut i: usize = 0;
            proof {
                reveal(Seq::filter);
                assert(v@.take(0) =~= Seq::<String>::empty());
            }
            while i < v.len()
                invariant
                    i <= v.len(),
                    out@ == v@.take(i as int).filter(pred),
                    pred == (|s: String| s@ != name@),
                decreases v.len() - i,
            {
                proof {
                    reveal(Seq::filter);
                    assert(v@.take(i + 1).drop_last() =~= v@.take(i as int));
                    assert(v@.take(i + 1).last() == v@[i as int]);
                }
                if !str_eq(v[i].as_str(), name) {
                    out.push(v[i].clone());
                }
                i = i + 1;
            }
            assert(v@.take(v.len() as int) =~= v@);
            out
        },
    }
}

// ── Statuses ────────────────────────────────────────────────────────────────

/// The status an Instance has, or the initial one.
pub open spec fn instance_base(s: Option<InstanceStatus>) -> resources::InstanceStatusView {
    match s {
        Some(x) => x@,
        None => resources::initial_instance_status(),
    }
}

/// The current status of an Instance, or the initial one.
pub fn current_instance_status(status: &Option<InstanceStatus>) -> (r: InstanceStatus)
    ensures
        r@ == instance_base(*status),
{
    match status {
        Some(s) => s.duplicate(),
        None => InstanceStatus::default(),
    }
}

/// The status recording an error.
pub open spec fn instance_error_status(s: Option<InstanceStatus>, message: Seq<char>) -> resources::InstanceStatusView {
    resources::InstanceStatusView {
        error_message: Some(message),
        sync_state: "Error"@,
        ..instance_base(s)
    }
}

pub fn instance_status_with_error(status: &Option<InstanceStatus>, message: String) -> (r: InstanceStatus)
    ensures
        r@ == instance_error_status(*status, message@),
{
    let mut st = current_instance_status(status);
    st.error_message = Some(message);
    st.sync_state = owned("Error");
    st
}

/// The status after a successful read of the instance.
pub open spec fn instance_synced_status(s: Option<InstanceStatus>, state: Seq<char>, public_ip: Option<Seq<char>>, project_id: Seq<char>) -> resources::InstanceStatusView {
    resources::InstanceStatusView {
        state,
        public_ip,
        project_id: Some(project_id),
        sync_state: "Synced"@,
        error_message: None,
        ..instance_base(s)
    }
}

pub fn instance_status_synced(status: &Option<InstanceStatus>, info: &InstanceInfo, project_id: &str) -> (r: InstanceStatus)
    ensures
        r@ == instance_synced_status(*status, info.state@, resources::opt_view(info.public_ip), project_id@),
{
    let mut st = current_instance_status(status);
    st.state = info.state.clone();
    st.public_ip = copy_opt(&info.public_ip);
    st.project_id = Some(owned(project_id));
    st.sync_state = owned("Synced");
    st.error_message = None;
    st
}

/// The status after the instance was found missing: everything is cleared so
/// that the next pass creates it again.
pub fn instance_status_not_found(status: &Option<InstanceStatus>) -> (r: InstanceStatus)
    ensures
        r@ == resources::initial_instance_status(),
{
    let mut st = current_instance_status(status);
    st.scaleway_id = None;
    st.state = owned("unknown");
    st.public_ip = None;
    st.project_id = None;
    st.created_at = None;
    st.error_message = None;
    st.sync_state = owned("Syncing");
    st
}

/// The status after the instance was created or adopted.
pub open spec fn instance_created_status(s: Option<InstanceStatus>, id: Seq<char>, project_id: Seq<char>, now: Timestamp) -> resources::InstanceStatusView {
    resources::InstanceStatusView {
        scaleway_id: Some(id),
        state: "creating"@,
        created_at: Some(now),
        sync_state: "Syncing"@,
        error_message: None,
        project_id: Some(project_id),
        ..instance_base(s)
    }
}

pub fn instance_status_created(status: &Option<InstanceStatus>, id: String, project_id: &str, now: Timestamp) -> (r: InstanceStatus)
    ensures
        r@ == instance_created_status(*status, id@, project_id@, now),
{
    let mut st = current_instance_status(status);
    st.scaleway_id = Some(id);
    st.state = owned("creating");
    st.created_at = Some(now);
    st.sync_state = owned("Syncing");
    st.error_message = None;
    st.project_id = Some(owned(project_id));
    st
}

/// The gauge label of an Instance's last known state.
pub open spec fn instance_gauge_state_text(s: Option<InstanceStatus>) -> Seq<char> {
    match s {
        Some(x) => x.state@,
        None => "unknown"@,
    }
}

pub fn instance_gauge_state(status: &Option<InstanceStatus>) -> (r: String)
    ensures
        r@ == instance_gauge_state_text(*status),
{
    match status {
        Some(s) => s.state.clone(),
        None => owned("unknown"),
    }
}

/// The status a LoadBalancer has, or the initial one.
pub open spec fn lb_base(s: Option<LoadBalancerStatus>) -> resources::LoadBalancerStatusView {
    match s {
        Some(x) => x@,
        None => resources::initial_lb_status(),
    }
}

pub fn current_lb_status(status: &Option<LoadBalancerStatus>) -> (r: LoadBalancerStatus)
    ensures
        r@ == lb_base(*status),
{
    match status {
        Some(s) => s.duplicate(),
        None => LoadBalancerStatus::default(),
    }
}

pub open spec fn lb_error_status(s: Option<LoadBalancerStatus>, message: Seq<char>) -> resources::LoadBalancerStatusView {
    resources::LoadBalancerStatusView {
        error_message: Some(message),
        sync_state: "Error"@,
        ..lb_base(s)
    }
}

pub fn lb_status_with_error(status: &Option<LoadBalancerStatus>, message: String) -> (r: LoadBalancerStatus)
    ensures
        r@ == lb_error_status(*status, message@),
{
    let mut st = current_lb_status(status);
    st.error_message = Some(message);
    st.sync_state = owned("Error");
    st
}

pub open spec fn lb_synced_status(s: Option<LoadBalancerStatus>, state: Seq<char>, vip: Option<Seq<char>>, project_id: Seq<char>) -> resources::LoadBalancerStatusView {
    resources::LoadBalancerStatusView {
        state,
        vip_address: vip,
        project_id: Some(project_id),
        sync_state: "Synced"@,
        error_message: None,
        ..lb_base(s)
    }
}

pub fn lb_status_synced(status: &Option<LoadBalancerStatus>, info: &LoadBalancerInfo, project_id: &str) -> (r: LoadBalancerStatus)
    ensures
        r@ == lb_synced_status(*status, info.state@, resources::opt_view(info.vip_address), project_id@),
{
    let mut st = current_lb_status(status);
    st.state = info.state.clone();
    st.vip_address = copy_opt(&info.vip_address);
    st.project_id = Some(owned(project_id));
    st.sync_state = owned("Synced");
    st.error_message = None;
    st
}

/// The status after the load balancer was found missing (its creation time is kept).
pub open spec fn lb_not_found_status(s: Option<LoadBalancerStatus>) -> resources::LoadBalancerStatusView {
    resources::LoadBalancerStatusView {
        scaleway_id: None,
        state: Seq::empty(),
        vip_address: None,
        project_id: None,
        error_message: None,
        sync_state: "Pending"@,
        ..lb_base(s)
    }
}

pub fn lb_status_not_found(status: &Option<LoadBalancerStatus>) -> (r: LoadBalancerStatus)
    ensures
        r@ == lb_not_found_status(*status),
{
    let mut st = current_lb_status(status);
    st.scaleway_id = None;
    st.state = String::new();
    st.vip_address = None;
    st.project_id = None;
    st.error_message = None;
    st.sync_state = owned("Pending");
    st
}

pub open spec fn lb_created_status(s: Option<LoadBalancerStatus>, id: Seq<char>, project_id: Seq<char>) -> resources::LoadBalancerStatusView {
    resources::LoadBalancerStatusView {
        scaleway_id: Some(id),
        state: "pending"@,
        sync_state: "Syncing"@,
        error_message: None,
        project_id: Some(project_id),
        ..lb_base(s)
    }
}

pub fn lb_status_created(status: &Option<LoadBalancerStatus>, id: String, project_id: &str) -> (r: LoadBalancerStatus)
    ensures
        r@ == lb_created_status(*status, id@, project_id@),
{
    let mut st = current_lb_status(status);
    st.scaleway_id = Some(id);
    st.state = owned("pending");
    st.sync_state = owned("Syncing");
    st.error_message = None;
    st.project_id = Some(owned(project_id));
    st
}

/// The status recording that Scaleway refused to delete a locked load balancer.
pub open spec fn lb_blocked_status(s: Option<LoadBalancerStatus>) -> resources::LoadBalancerStatusView {
    resources::LoadBalancerStatusView {
        sync_state: "TerminationBlocked"@,
        error_message: Some("Load balancer is locked — deletion blocked by Scaleway"@),
        ..lb_base(s)
    }
}

pub fn lb_status_termination_blocked(status: &Option<LoadBalancerStatus>) -> (r: LoadBalancerStatus)
    ensures
        r@ == lb_blocked_status(*status),
{
    let mut st = current_lb_status(status);
    st.sync_state = owned("TerminationBlocked");
    st.error_message = Some(owned("Load balancer is locked — deletion blocked by Scaleway"));
    st
}

/// The status recording that the finalizer goes without a Scaleway deletion.
pub open spec fn lb_orphan_status(s: Option<LoadBalancerStatus>) -> resources::LoadBalancerStatusView {
    resources::LoadBalancerStatusView {
        sync_state: "FinalizerRemovedWithoutScalewayDelete"@,
        error_message: Some("IAM Secret missing at deletion time — Scaleway LB may still exist"@),
        ..lb_base(s)
    }
}

pub fn lb_status_removed_without_delete(status: &Option<LoadBalancerStatus>) -> (r: LoadBalancerStatus)
    ensures
        r@ == lb_orphan_status(*status),
{
    let mut st = current_lb_status(status);
    st.sync_state = owned("FinalizerRemovedWithoutScalewayDelete");
    st.error_message = Some(owned("IAM Secret missing at deletion time — Scaleway LB may still exist"));
    st
}

pub open spec fn lb_gauge_state_text(s: Option<LoadBalancerStatus>) -> Seq<char> {
    match s {
        Some(x) => x.state@,
        None => Seq::empty(),
    }
}

pub fn lb_gauge_state(status: &Option<LoadBalancerStatus>) -> (r: String)
    ensures
        r@ == lb_gauge_state_text(*status),
{
    match status {
        Some(s) => s.state.clone(),
        None => String::new(),
    }
}

// ── Namespace credentials ───────────────────────────────────────────────────

/// `String::from_utf8`: succeeds exactly on valid UTF-8, with the decoded text.
#[verifier::external_body]
pub(crate) fn string_from_utf8(bytes: Vec<u8>) -> (r: Option<String>)
    ensures
        r is Some <==> vstd::utf8::valid_utf8(bytes@),
        r matches Some(s) ==> s@ == vstd::utf8::decode_utf8(bytes@),
{
    String::from_utf8(bytes).ok()
}

/// Name of the Secret that holds the IAM key of a namespace.
pub open spec fn credentials_secret_name(namespace: Seq<char>) -> Seq<char> {
    "scaleway-ns-creds-"@ + namespace
}

/// Name of the Secret that holds the IAM key of `namespace`.
pub fn namespace_secret_name(namespace: &str) -> (r: String)
    ensures
        r@ == credentials_secret_name(namespace@),
{
    cat("scaleway-ns-creds-", namespace)
}

pub open spec fn secret_missing_message(name: Seq<char>) -> Seq<char> {
    "Secret '"@ + name + "' not found in namespace 'scaleway-system'. An admin must pre-provision IAM credentials for this namespace."@
}

pub open spec fn secret_key_missing_message(name: Seq<char>) -> Seq<char> {
    "Secret '"@ + name + "' has no 'secret_key' field."@
}

pub open spec fn secret_key_not_utf8_message(name: Seq<char>) -> Seq<char> {
    "Secret '"@ + name + "': 'secret_key' is not valid UTF-8."@
}

/// The IAM secret key of a namespace, from the outcome of reading its
/// credentials Secret: `Err(())` when the Secret cannot be read, otherwise its
/// data (none when it has no data).
pub fn namespace_secret_key(namespace: &str, secret: Result<Option<BTreeMap<String, Vec<u8>>>, ()>) -> (r: OperatorResult<String>)
    ensures
        ({
            let name = credentials_secret_name(namespace@);
            match secret {
                Err(_) => r matches Err(e) && e@ == ErrorModel::Config(secret_missing_message(name)),
                Ok(data) => {
                    let present = data matches Some(d) && d.deep_view().contains_key("secret_key"@);
                    if !present {
                        r matches Err(e) && e@ == ErrorModel::Config(secret_key_missing_message(name))
                    } else {
                        let bytes = data->0.deep_view()["secret_key"@];
                        if vstd::utf8::valid_utf8(bytes) {
                            r matches Ok(k) && k@ == vstd::utf8::decode_utf8(bytes)
                        } else {
                            r matches Err(e) && e@ == ErrorModel::Config(secret_key_not_utf8_message(name))
                        }
                    }
                },
            }
        }),
{
    let name = namespace_secret_name(namespace);
    match secret {
        Err(_) => Err(OperatorError::ConfigError(cat3("Secret '", name.as_str(), "' not found in namespace 'scaleway-system'. An admin must pre-provision IAM credentials for this namespace."))),
        Ok(data) => {
            let bytes = match &data {
                Some(d) => match string_map_get(d, "secret_key") {
                    Some(b) => Some(b.clone()),
                    None => None,
                },
                None => None,
            };
            match bytes {
                None => Err(OperatorError::ConfigError(cat3("Secret '", name.as_str(), "' has no 'secret_key' field."))),
                Some(b) => {
                    assert(b.deep_view() =~= b@);
                    match string_from_utf8(b) {
                    Some(k) => Ok(k),
                    None => Err(OperatorError::ConfigError(cat3("Secret '", name.as_str(), "': 'secret_key' is not valid UTF-8."))),
                    }
                },
            }
        },
    }
}

/// A client that uses the namespace's IAM key, built from its credentials Secret.
pub fn namespace_client(namespace: &str, secret: Result<Option<BTreeMap<String, Vec<u8>>>, ()>, base_url: String) -> (r: OperatorResult<ScalewayClient>)
    ensures
        match namespace_secret_key_model(namespace@, secret) {
            Ok(k) => {
                &&& r matches Ok(c) ==> c.token_text() == k && c.base() == base_url@
                    && scaleway::built_with_timeouts(c)
                &&& r matches Err(e) ==> e@ is Network
            },
            Err(m) => r matches Err(e) && e@ == ErrorModel::Config(m),
        },
{
    match namespace_secret_key(namespace, secret) {
        Ok(k) => ScalewayClient::new_with_base_url(k, base_url),
        Err(e) => Err(e),
    }
}

/// The key a credentials Secret yields, or the configuration error it causes.
pub open spec fn namespace_secret_key_model(namespace: Seq<char>, secret: Result<Option<BTreeMap<String, Vec<u8>>>, ()>) -> Result<Seq<char>, Seq<char>> {
    let name = credentials_secret_name(namespace);
    match secret {
        Err(_) => Err(secret_missing_message(name)),
        Ok(data) => if !(data matches Some(d) && d.deep_view().contains_key("secret_key"@)) {
            Err(secret_key_missing_message(name))
        } else {
            let bytes = data->0.deep_view()["secret_key"@];
            if vstd::utf8::valid_utf8(bytes) {
                Ok(vstd::utf8::decode_utf8(bytes))
            } else {
                Err(secret_key_not_utf8_message(name))
            }
        },
    }
}

// ── Validation of specifications ────────────────────────────────────────────

/// The checks a specification passes before any Scaleway call: known zone,
/// known type, non-empty name, in that order.
pub open spec fn instance_spec_check(spec: InstanceSpec) -> Option<ErrorModel> {
    if !scaleway::known_zone(spec.zone@) {
        Some(ErrorModel::InvalidZone(spec.zone@))
    } else if !scaleway::known_instance_type(spec.instance_type@) {
        Some(ErrorModel::InvalidInstanceType(spec.instance_type@))
    } else if spec.name@.len() == 0 {
        Some(ErrorModel::Config("name cannot be empty"@))
    } else {
        None
    }
}

/// Validates an Instance specification.
pub fn check_instance_spec(spec: &InstanceSpec) -> (r: OperatorResult<()>)
    ensures
        match instance_spec_check(*spec) {
            None => r is Ok,
            Some(m) => r matches Err(e) && e@ == m,
        },
{
    check_zone(spec.zone.as_str())?;
    check_instance_type(spec.instance_type.as_str())?;
    if spec.name.as_str().is_empty() {
        return Err(OperatorError::ConfigError(owned("name cannot be empty")));
    }
    Ok(())
}

/// Validates an Instance specification with the client's checks.
pub fn validate_spec(spec: &InstanceSpec, scaleway_client: &ScalewayClient) -> (r: OperatorResult<()>)
    ensures
        match instance_spec_check(*spec) {
            None => r is Ok,
            Some(m) => r matches Err(e) && e@ == m,
        },
{
    scaleway_client.validate_zone(spec.zone.as_str())?;
    scaleway_client.validate_instance_type(spec.instance_type.as_str())?;
    if spec.name.as_str().is_empty() {
        return Err(OperatorError::ConfigError(owned("name cannot be empty")));
    }
    Ok(())
}

pub open spec fn lb_spec_check(spec: LoadBalancerSpec) -> Option<ErrorModel> {
    if !scaleway::known_zone(spec.zone@) {
        Some(ErrorModel::InvalidZone(spec.zone@))
    } else if !scaleway::known_lb_type(spec.lb_type@) {
        Some(ErrorModel::InvalidLbType(spec.lb_type@))
    } else if spec.name@.len() == 0 {
        Some(ErrorModel::Config("name cannot be empty"@))
    } else {
        None
    }
}

/// Validates a LoadBalancer specification.
pub fn check_lb_spec(spec: &LoadBalancerSpec) -> (r: OperatorResult<()>)
    ensures
        match lb_spec_check(*spec) {
            None => r is Ok,
            Some(m) => r matches Err(e) && e@ == m,
        },
{
    check_zone(spec.zone.as_str())?;
    check_lb_type(spec.lb_type.as_str())?;
    if spec.name.as_str().is_empty() {
        return Err(OperatorError::ConfigError(owned("name cannot be empty")));
    }
    Ok(())
}

/// Validates a LoadBalancer specification with the client's checks.
pub fn validate_lb_spec(spec: &LoadBalancerSpec, scaleway_client: &ScalewayClient) -> (r: OperatorResult<()>)
    ensures
        match lb_spec_check(*spec) {
            None => r is Ok,
            Some(m) => r matches Err(e) && e@ == m,
        },
{
    scaleway_client.validate_zone(spec.zone.as_str())?;
    scaleway_client.validate_lb_type(spec.lb_type.as_str())?;
    if spec.name.as_str().is_empty() {
        return Err(OperatorError::ConfigError(owned("name cannot be empty")));
    }
    Ok(())
}

// ── Effects shared by the reconcile state machines ─────────────────────────

/// Local effects a step asks for besides its I/O: timing of the pass, its
/// outcome, and the managed-resource gauges (labelled by the resource's zone,
/// type and the given state).
#[derive(Debug)]
pub enum Effect {
    /// Start timing the pass.
    StartTimer,
    /// Record the outcome of the timed pass.
    SetOutcome(ReconcileOutcome),
    /// Increment the gauge for the given state.
    IncGauge(String),
    /// Decrement the gauge for the given state.
    DecGauge(String),
}

pub enum EffectModel {
    StartTimer,
    SetOutcome(ReconcileOutcome),
    IncGauge(Seq<char>),
    DecGauge(Seq<char>),
}

impl View for Effect {
    type V = EffectModel;

    open spec fn view(&self) -> EffectModel {
        match self {
            Effect::StartTimer => EffectModel::StartTimer,
            Effect::SetOutcome(o) => EffectModel::SetOutcome(*o),
            Effect::IncGauge(s) => EffectModel::IncGauge(s@),
            Effect::DecGauge(s) => EffectModel::DecGauge(s@),
        }
    }
}

/// The contents of a list of effects.
pub open spec fn effect_models(v: Seq<Effect>) -> Seq<EffectModel> {
    v.map_values(|e: Effect| e@)
}

/// The breaker after a guarded call's result, as [`record_call_outcome`] leaves it.
pub open spec fn breaker_accounts<T>(b0: CircuitBreakerState, b1: CircuitBreakerState, result: OperatorResult<T>) -> bool {
    &&& b1.wf()
    &&& match result {
        Ok(_) => b1.phase() == context::phase_after_success(b0.phase()) && (b0 is Open ==> b1 == b0),
        Err(e) => if retry_exempt(e@) {
            b1 == b0
        } else {
            b1.phase() == context::phase_after_failure(b0.phase()) && (b0 is Open ==> b1 == b0)
        },
    }
}

pub(crate) fn effects0() -> (r: Vec<Effect>)
    ensures
        effect_models(r@) == Seq::<EffectModel>::empty(),
{
    let r: Vec<Effect> = Vec::new();
    assert(effect_models(r@) =~= Seq::<EffectModel>::empty());
    r
}

pub(crate) fn effects1(a: Effect) -> (r: Vec<Effect>)
    ensures
        effect_models(r@) == seq![a@],
{
    let mut r: Vec<Effect> = Vec::new();
    r.push(a);
    assert(effect_models(r@) =~= seq![a@]);
    r
}

pub(crate) fn effects2(a: Effect, b: Effect) -> (r: Vec<Effect>)
    ensures
        effect_models(r@) == seq![a@, b@],
{
    let mut r: Vec<Effect> = Vec::new();
    r.push(a);
    r.push(b);
    assert(effect_models(r@) =~= seq![a@, b@]);
    r
}

pub(crate) fn effects3(a: Effect, b: Effect, c: Effect) -> (r: Vec<Effect>)
    ensures
        effect_models(r@) == seq![a@, b@, c@],
{
    let mut r: Vec<Effect> = Vec::new();
    r.push(a);
    r.push(b);
    r.push(c);
    assert(effect_models(r@) =~= seq![a@, b@, c@]);
    r
}

} // verus!
