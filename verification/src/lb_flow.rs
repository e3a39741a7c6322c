//! The reconciliation of a LoadBalancer as a state machine. The caller performs
//! the I/O that each command names and hands back its result as the next event.

use vstd::prelude::*;
use vstd::string::*;
use crate::context::{check_project_id_format, CircuitBreakerState};
use crate::context;
use crate::error::{ErrorModel, OperatorError, OperatorResult};
use crate::error;
use crate::metrics::ReconcileOutcome;
use crate::reconcilers::{
    check_lb_spec, decide_next_action_lb, effects0, effects1, effects2, effects3, finalizers_with,
    finalizers_without, has_finalizer, lb_gauge_state, lb_status_created, lb_status_not_found,
    lb_status_removed_without_delete, lb_status_synced, lb_status_termination_blocked,
    lb_status_with_error, record_call_outcome, Effect, EffectModel, LbReconcileDecision,
    LbReconcileInput, ReconcileAction, LB_FINALIZER,
};
use crate::reconcilers;
use crate::resources::{LoadBalancerSpec, LoadBalancerStatus};
use crate::resources;
use crate::scaleway::{LoadBalancerInfo, ScalewayClient};
use crate::text::{cat3, copy_opt, owned, seq_contains_block, str_contains};

verus! {

/// What is known of a LoadBalancer when its reconciliation starts.
pub struct LbFacts {
    pub namespace: String,
    /// Name of the custom resource (it tags the Scaleway load balancer).
    pub cr_name: String,
    pub spec: LoadBalancerSpec,
    pub status: Option<LoadBalancerStatus>,
    pub finalizers: Option<Vec<String>>,
    pub deletion_requested: bool,
    pub circuit_open: bool,
}

pub enum LbPlan {
    Verify { project_id: String },
    Create { project_id: String },
}

/// Where a reconciliation of a LoadBalancer stands.
pub enum LbPhase {
    Start,
    AwaitRole,
    AwaitProjectId { role: String },
    ReportFailure { error: OperatorError, measured: bool },
    AwaitFinalizerAdded,
    AwaitClient { plan: LbPlan },
    AwaitProjectAccess { project_id: String },
    AwaitFind { project_id: String },
    AwaitCreate { project_id: String },
    ReportError { error: OperatorError },
    AwaitStatusWritten { action: ReconcileAction },
    AwaitSync { project_id: String },
    ReportNotFound,
    AwaitDeletionClient { scaleway_id: String },
    /// Waits for the orphan status to be written (its outcome is ignored), then removes the finalizer.
    ReportOrphan,
    AwaitDelete,
    /// Waits for the blocked status to be written (its outcome is ignored), then fails.
    ReportBlocked,
    AwaitFinalizerRemoved,
    Done,
}

/// The I/O a step asks for. Scaleway calls go through the operator's client.
pub enum LbIo {
    FetchRole,
    FetchProjectId,
    FetchNamespaceClient,
    PatchFinalizers(Vec<String>),
    PatchStatus(LoadBalancerStatus),
    VerifyProjectAccess { project_id: String },
    /// Search by the operator tags of the resource (event `Found`).
    FindByTags { project_id: String },
    /// Create the spec's load balancer (event `Created`).
    Create { project_id: String },
    /// Read the load balancer (event `Fetched`).
    Get { scaleway_id: String },
    /// Delete the load balancer and release its IP (event `Called`).
    Delete { scaleway_id: String },
    Finish(OperatorResult<ReconcileAction>),
}

pub struct LbCommand {
    pub effects: Vec<Effect>,
    pub io: LbIo,
}

pub enum LbEvent {
    Begin,
    Role(OperatorResult<String>),
    ProjectId(OperatorResult<String>),
    NamespaceClient(OperatorResult<ScalewayClient>),
    Patched(OperatorResult<()>),
    Called(OperatorResult<()>),
    Found(OperatorResult<Option<String>>),
    Created(OperatorResult<String>),
    Fetched(OperatorResult<LoadBalancerInfo>),
}

/// A reconciliation of one LoadBalancer in progress.
pub struct LbReconciler {
    pub facts: LbFacts,
    pub phase: LbPhase,
}

pub open spec fn lb_expects(phase: LbPhase, ev: LbEvent) -> bool {
    match phase {
        LbPhase::Start => ev is Begin,
        LbPhase::AwaitRole => ev is Role,
        LbPhase::AwaitProjectId { .. } => ev is ProjectId,
        LbPhase::ReportFailure { .. } => ev is Patched,
        LbPhase::AwaitFinalizerAdded => ev is Patched,
        LbPhase::AwaitClient { .. } => ev is NamespaceClient,
        LbPhase::AwaitProjectAccess { .. } => ev is Called,
        LbPhase::AwaitFind { .. } => ev is Found,
        LbPhase::AwaitCreate { .. } => ev is Created,
        LbPhase::ReportError { .. } => ev is Patched,
        LbPhase::AwaitStatusWritten { .. } => ev is Patched,
        LbPhase::AwaitSync { .. } => ev is Fetched,
        LbPhase::ReportNotFound => ev is Patched,
        LbPhase::AwaitDeletionClient { .. } => ev is NamespaceClient,
        LbPhase::ReportOrphan => ev is Patched,
        LbPhase::AwaitDelete => ev is Called,
        LbPhase::ReportBlocked => ev is Patched,
        LbPhase::AwaitFinalizerRemoved => ev is Patched,
        LbPhase::Done => false,
    }
}

pub open spec fn lb_recorded_id(s: Option<LoadBalancerStatus>) -> Option<String> {
    match s {
        Some(x) => x.scaleway_id,
        None => None,
    }
}

pub open spec fn lb_recorded_project(s: Option<LoadBalancerStatus>) -> Option<String> {
    match s {
        Some(x) => x.project_id,
        None => None,
    }
}

pub open spec fn lb_input(facts: LbFacts, role: String, project_id: String) -> LbReconcileInput {
    LbReconcileInput {
        deletion_requested: facts.deletion_requested,
        circuit_open: facts.circuit_open,
        finalizer_present: reconcilers::texts(reconcilers::finalizer_list(facts.finalizers)).contains(LB_FINALIZER@),
        scaleway_role: role,
        project_id,
        scaleway_id: lb_recorded_id(facts.status),
        status_project_id: lb_recorded_project(facts.status),
    }
}

pub open spec fn lb_read_only_message(role: Seq<char>) -> Seq<char> {
    "Role '"@ + role + "' is read-only and cannot create load balancers. Use 'Editor' or 'Admin'."@
}

/// A Scaleway status that says the load balancer is locked.
pub open spec fn locked_status(status: Seq<char>) -> bool {
    seq_contains_block(status, "409"@) || seq_contains_block(status, "423"@)
}

pub open spec fn lb_reports(io: LbIo, facts: LbFacts, e: ErrorModel) -> bool {
    io matches LbIo::PatchStatus(st) && st@ == reconcilers::lb_error_status(facts.status, error::status_message(e))
}

pub open spec fn lb_has_effects(cmd: LbCommand, e: Seq<EffectModel>) -> bool {
    reconcilers::effect_models(cmd.effects@) == e
}

pub open spec fn removes_lb_finalizer(io: LbIo, facts: LbFacts) -> bool {
    io matches LbIo::PatchFinalizers(v) && v@ == reconcilers::without_finalizer(reconcilers::finalizer_list(facts.finalizers), LB_FINALIZER@)
}

pub open spec fn lb_dispatch(facts: LbFacts, role: String, project_id: String, m1: LbReconciler, cmd: LbCommand) -> bool {
    match reconcilers::lb_decision(lb_input(facts, role, project_id)) {
        LbReconcileDecision::SkipCircuitOpen => {
            &&& m1.phase is Done
            &&& lb_has_effects(cmd, Seq::empty())
            &&& cmd.io matches LbIo::Finish(Err(e)) && e@ == ErrorModel::CircuitBreakerOpen
        },
        LbReconcileDecision::AddLbFinalizer => {
            &&& m1.phase is AwaitFinalizerAdded
            &&& lb_has_effects(cmd, Seq::empty())
            &&& cmd.io matches LbIo::PatchFinalizers(v) && v@.drop_last() == reconcilers::finalizer_list(facts.finalizers) && reconcilers::texts(v@) == reconcilers::texts(reconcilers::finalizer_list(facts.finalizers)).push(LB_FINALIZER@)
        },
        LbReconcileDecision::BlockReadOnlyRole => {
            let e = ErrorModel::Config(lb_read_only_message(role@));
            &&& m1.phase matches LbPhase::ReportFailure { error, measured } && measured && error@ == e
            &&& lb_has_effects(cmd, seq![EffectModel::StartTimer])
            &&& lb_reports(cmd.io, facts, e)
        },
        LbReconcileDecision::VerifyProjectAccessLb { project_id } => match reconcilers::lb_spec_check(facts.spec) {
            Some(em) => {
                &&& m1.phase is Done
                &&& lb_has_effects(cmd, seq![EffectModel::StartTimer, EffectModel::SetOutcome(ReconcileOutcome::Error)])
                &&& cmd.io matches LbIo::Finish(Err(e)) && e@ == em
            },
            None => {
                &&& m1.phase == LbPhase::AwaitClient { plan: LbPlan::Verify { project_id } }
                &&& lb_has_effects(cmd, seq![EffectModel::StartTimer])
                &&& cmd.io is FetchNamespaceClient
            },
        },
        LbReconcileDecision::CreateLoadBalancer { project_id } => match reconcilers::lb_spec_check(facts.spec) {
            Some(em) => {
                &&& m1.phase is Done
                &&& lb_has_effects(cmd, seq![EffectModel::StartTimer, EffectModel::SetOutcome(ReconcileOutcome::Error)])
                &&& cmd.io matches LbIo::Finish(Err(e)) && e@ == em
            },
            None => {
                &&& m1.phase == LbPhase::AwaitClient { plan: LbPlan::Create { project_id } }
                &&& lb_has_effects(cmd, seq![EffectModel::StartTimer])
                &&& cmd.io is FetchNamespaceClient
            },
        },
        LbReconcileDecision::SyncLoadBalancer { scaleway_id, project_id } => {
            &&& m1.phase == LbPhase::AwaitSync { project_id }
            &&& lb_has_effects(cmd, seq![EffectModel::StartTimer])
            &&& cmd.io == LbIo::Get { scaleway_id }
        },
        LbReconcileDecision::DeleteLoadBalancer { scaleway_id } => {
            &&& m1.phase == LbPhase::AwaitDeletionClient { scaleway_id }
            &&& lb_has_effects(cmd, seq![EffectModel::StartTimer])
            &&& cmd.io is FetchNamespaceClient
        },
        LbReconcileDecision::RemoveLbFinalizer => {
            &&& m1.phase is AwaitFinalizerRemoved
            &&& lb_has_effects(cmd, seq![EffectModel::StartTimer])
            &&& removes_lb_finalizer(cmd.io, facts)
        },
    }
}

pub open spec fn lb_fails_reporting(facts: LbFacts, e: OperatorError, measured: bool, m1: LbReconciler, cmd: LbCommand) -> bool {
    &&& m1.phase == LbPhase::ReportFailure { error: e, measured }
    &&& lb_has_effects(cmd, Seq::empty())
    &&& lb_reports(cmd.io, facts, e@)
}

/// One step of a LoadBalancer reconciliation.
pub open spec fn lb_transition(m0: LbReconciler, ev: LbEvent, m1: LbReconciler, cmd: LbCommand) -> bool {
    let facts = m0.facts;
    let status = facts.status;
    &&& m1.facts == m0.facts
    &&& match m0.phase {
        LbPhase::Start => if !facts.deletion_requested && !facts.circuit_open {
            m1.phase is AwaitRole && lb_has_effects(cmd, Seq::empty()) && cmd.io is FetchRole
        } else {
            exists|role: String, pid: String| role@ == Seq::<char>::empty() && pid@ == Seq::<char>::empty() && lb_dispatch(facts, role, pid, m1, cmd)
        },
        LbPhase::AwaitRole => match ev {
            LbEvent::Role(Ok(role)) => m1.phase == LbPhase::AwaitProjectId { role } && lb_has_effects(cmd, Seq::empty()) && cmd.io is FetchProjectId,
            LbEvent::Role(Err(e)) => lb_fails_reporting(facts, e, false, m1, cmd),
            _ => false,
        },
        LbPhase::AwaitProjectId { role } => match ev {
            LbEvent::ProjectId(Ok(pid)) => if context::uuid_parses(pid@) {
                lb_dispatch(facts, role, pid, m1, cmd)
            } else {
                exists|e: OperatorError| e@ == ErrorModel::Config(context::invalid_uuid_message(pid@)) && lb_fails_reporting(facts, e, false, m1, cmd)
            },
            LbEvent::ProjectId(Err(e)) => lb_fails_reporting(facts, e, false, m1, cmd),
            _ => false,
        },
        LbPhase::ReportFailure { error, measured } => {
            &&& m1.phase is Done
            &&& lb_has_effects(cmd, if measured { seq![EffectModel::SetOutcome(ReconcileOutcome::Error)] } else { Seq::empty() })
            &&& cmd.io == LbIo::Finish(Err(error))
        },
        LbPhase::AwaitFinalizerAdded => {
            &&& m1.phase is Done
            &&& lb_has_effects(cmd, Seq::empty())
            &&& match ev {
                LbEvent::Patched(Ok(_)) => cmd.io == LbIo::Finish(Ok(ReconcileAction::Requeue(5))),
                LbEvent::Patched(Err(e)) => cmd.io == LbIo::Finish(Err(e)),
                _ => false,
            }
        },
        LbPhase::AwaitClient { plan } => match ev {
            LbEvent::NamespaceClient(Ok(_)) => {
                &&& lb_has_effects(cmd, Seq::empty())
                &&& match plan {
                    LbPlan::Verify { project_id } => m1.phase == LbPhase::AwaitProjectAccess { project_id } && cmd.io == LbIo::VerifyProjectAccess { project_id },
                    LbPlan::Create { project_id } => m1.phase == LbPhase::AwaitFind { project_id } && cmd.io == LbIo::FindByTags { project_id },
                }
            },
            LbEvent::NamespaceClient(Err(e)) => lb_fails_reporting(facts, e, true, m1, cmd),
            _ => false,
        },
        LbPhase::AwaitProjectAccess { project_id } => {
            &&& lb_has_effects(cmd, Seq::empty())
            &&& match ev {
                LbEvent::Called(Ok(_)) => m1.phase == LbPhase::AwaitFind { project_id } && cmd.io == LbIo::FindByTags { project_id },
                LbEvent::Called(Err(e)) => m1.phase is Done && cmd.io == LbIo::Finish(Err(e)),
                _ => false,
            }
        },
        LbPhase::AwaitFind { project_id } => {
            match ev {
                LbEvent::Found(Ok(Some(id))) => {
                    &&& m1.phase == LbPhase::AwaitStatusWritten { action: ReconcileAction::Requeue(10) }
                    &&& lb_has_effects(cmd, seq![EffectModel::IncGauge("pending"@), EffectModel::SetOutcome(ReconcileOutcome::Adopted)])
                    &&& cmd.io matches LbIo::PatchStatus(st) && st@ == reconcilers::lb_created_status(status, id@, project_id@)
                },
                LbEvent::Found(Ok(None)) => m1.phase == LbPhase::AwaitCreate { project_id } && lb_has_effects(cmd, Seq::empty()) && cmd.io == LbIo::Create { project_id },
                LbEvent::Found(Err(e)) => m1.phase is Done && lb_has_effects(cmd, Seq::empty()) && cmd.io == LbIo::Finish(Err(e)),
                _ => false,
            }
        },
        LbPhase::AwaitCreate { project_id } => match ev {
            LbEvent::Created(Ok(id)) => {
                &&& m1.phase == LbPhase::AwaitStatusWritten { action: ReconcileAction::Requeue(10) }
                &&& lb_has_effects(cmd, seq![EffectModel::IncGauge("pending"@), EffectModel::SetOutcome(ReconcileOutcome::Created)])
                &&& cmd.io matches LbIo::PatchStatus(st) && st@ == reconcilers::lb_created_status(status, id@, project_id@)
            },
            LbEvent::Created(Err(e)) => m1.phase == LbPhase::ReportError { error: e } && lb_has_effects(cmd, Seq::empty()) && lb_reports(cmd.io, facts, e@),
            _ => false,
        },
        LbPhase::ReportError { error } => {
            &&& m1.phase is Done
            &&& match ev {
                LbEvent::Patched(Ok(_)) => lb_has_effects(cmd, seq![EffectModel::SetOutcome(ReconcileOutcome::Error)]) && cmd.io == LbIo::Finish(Err(error)),
                LbEvent::Patched(Err(pe)) => lb_has_effects(cmd, Seq::empty()) && cmd.io == LbIo::Finish(Err(pe)),
                _ => false,
            }
        },
        LbPhase::AwaitStatusWritten { action } => {
            &&& m1.phase is Done
            &&& lb_has_effects(cmd, Seq::empty())
            &&& match ev {
                LbEvent::Patched(Ok(_)) => cmd.io == LbIo::Finish(Ok(action)),
                LbEvent::Patched(Err(e)) => cmd.io == LbIo::Finish(Err(e)),
                _ => false,
            }
        },
        LbPhase::AwaitSync { project_id } => match ev {
            LbEvent::Fetched(Ok(info)) => {
                &&& m1.phase == LbPhase::AwaitStatusWritten { action: ReconcileAction::Requeue(30) }
                &&& lb_has_effects(cmd, seq![EffectModel::DecGauge(reconcilers::lb_gauge_state_text(status)), EffectModel::IncGauge(info.state@), EffectModel::SetOutcome(ReconcileOutcome::Synced)])
                &&& cmd.io matches LbIo::PatchStatus(st) && st@ == reconcilers::lb_synced_status(status, info.state@, resources::opt_view(info.vip_address), project_id@)
            },
            LbEvent::Fetched(Err(OperatorError::LbNotFound(_))) => {
                &&& m1.phase is ReportNotFound
                &&& lb_has_effects(cmd, if lb_recorded_id(status) is Some { seq![EffectModel::DecGauge(reconcilers::lb_gauge_state_text(status))] } else { Seq::empty() })
                &&& cmd.io matches LbIo::PatchStatus(st) && st@ == reconcilers::lb_not_found_status(status)
            },
            LbEvent::Fetched(Err(e)) => m1.phase == LbPhase::ReportError { error: e } && lb_has_effects(cmd, Seq::empty()) && lb_reports(cmd.io, facts, e@),
            _ => false,
        },
        LbPhase::ReportNotFound => {
            &&& m1.phase is Done
            &&& lb_has_effects(cmd, seq![EffectModel::SetOutcome(ReconcileOutcome::Error)])
            &&& cmd.io == LbIo::Finish(Ok(ReconcileAction::Requeue(30)))
        },
        LbPhase::AwaitDeletionClient { scaleway_id } => {
            &&& lb_has_effects(cmd, Seq::empty())
            &&& match ev {
                LbEvent::NamespaceClient(Ok(_)) => m1.phase is AwaitDelete && cmd.io == LbIo::Delete { scaleway_id },
                LbEvent::NamespaceClient(Err(_)) => m1.phase is ReportOrphan && (cmd.io matches LbIo::PatchStatus(st) && st@ == reconcilers::lb_orphan_status(status)),
                _ => false,
            }
        },
        LbPhase::ReportOrphan => {
            &&& m1.phase is AwaitFinalizerRemoved
            &&& lb_has_effects(cmd, Seq::empty())
            &&& removes_lb_finalizer(cmd.io, facts)
        },
        LbPhase::AwaitDelete => match ev {
            LbEvent::Called(Ok(_)) => m1.phase is AwaitFinalizerRemoved && lb_has_effects(cmd, Seq::empty()) && removes_lb_finalizer(cmd.io, facts),
            LbEvent::Called(Err(OperatorError::ScalewayError { status: s, .. })) if locked_status(s@) => {
                &&& m1.phase is ReportBlocked
                &&& lb_has_effects(cmd, Seq::empty())
                &&& cmd.io matches LbIo::PatchStatus(st) && st@ == reconcilers::lb_blocked_status(status)
            },
            LbEvent::Called(Err(e)) => m1.phase is Done && lb_has_effects(cmd, seq![EffectModel::SetOutcome(ReconcileOutcome::Error)]) && cmd.io == LbIo::Finish(Err(e)),
            _ => false,
        },
        LbPhase::ReportBlocked => {
            &&& m1.phase is Done
            &&& lb_has_effects(cmd, seq![EffectModel::SetOutcome(ReconcileOutcome::Error)])
            &&& cmd.io matches LbIo::Finish(Err(e)) && e@ == (ErrorModel::Scaleway { status: "409"@, message: "Load balancer is locked"@ })
        },
        LbPhase::AwaitFinalizerRemoved => {
            &&& m1.phase is Done
            &&& match ev {
                LbEvent::Patched(Ok(_)) => lb_has_effects(cmd, seq![EffectModel::DecGauge(reconcilers::lb_gauge_state_text(status)), EffectModel::SetOutcome(ReconcileOutcome::Deleted)]) && cmd.io == LbIo::Finish(Ok(ReconcileAction::AwaitChange)),
                LbEvent::Patched(Err(e)) => lb_has_effects(cmd, seq![EffectModel::SetOutcome(ReconcileOutcome::Error)]) && cmd.io == LbIo::Finish(Err(e)),
                _ => false,
            }
        },
        LbPhase::Done => false,
    }
}

/// How a step changes the circuit breaker: the results of the Scaleway calls
/// made through it (project access, search, creation, read, deletion) are accounted.
pub open spec fn lb_breaker_step(phase: LbPhase, ev: LbEvent, b0: CircuitBreakerState, b1: CircuitBreakerState) -> bool {
    match phase {
        LbPhase::AwaitProjectAccess { .. } => ev matches LbEvent::Called(r) && reconcilers::breaker_accounts(b0, b1, r),
        LbPhase::AwaitFind { .. } => ev matches LbEvent::Found(r) && reconcilers::breaker_accounts(b0, b1, r),
        LbPhase::AwaitCreate { .. } => ev matches LbEvent::Created(r) && reconcilers::breaker_accounts(b0, b1, r),
        LbPhase::AwaitSync { .. } => ev matches LbEvent::Fetched(r) && reconcilers::breaker_accounts(b0, b1, r),
        LbPhase::AwaitDelete => ev matches LbEvent::Called(r) && reconcilers::breaker_accounts(b0, b1, r),
        _ => b1 == b0,
    }
}

impl LbReconciler {
    pub fn new(facts: LbFacts) -> (r: Self)
        ensures
            r.facts == facts,
            r.phase is Start,
    {
        LbReconciler { facts, phase: LbPhase::Start }
    }

    pub fn is_done(&self) -> (r: bool)
        ensures
            r == self.phase is Done,
    {
        matches!(self.phase, LbPhase::Done)
    }

    /// Whether `event` is the one the current phase waits for (the condition of [`Self::step`]).
    pub fn accepts(&self, event: &LbEvent) -> (r: bool)
        ensures
            r == lb_expects(self.phase, *event),
    {
        match (&self.phase, event) {
            (LbPhase::Start, LbEvent::Begin) => true,
            (LbPhase::AwaitRole, LbEvent::Role(_)) => true,
            (LbPhase::AwaitProjectId { .. }, LbEvent::ProjectId(_)) => true,
            (LbPhase::ReportFailure { .. }, LbEvent::Patched(_)) => true,
            (LbPhase::AwaitFinalizerAdded, LbEvent::Patched(_)) => true,
            (LbPhase::AwaitClient { .. }, LbEvent::NamespaceClient(_)) => true,
            (LbPhase::AwaitProjectAccess { .. }, LbEvent::Called(_)) => true,
            (LbPhase::AwaitFind { .. }, LbEvent::Found(_)) => true,
            (LbPhase::AwaitCreate { .. }, LbEvent::Created(_)) => true,
            (LbPhase::ReportError { .. }, LbEvent::Patched(_)) => true,
            (LbPhase::AwaitStatusWritten { .. }, LbEvent::Patched(_)) => true,
            (LbPhase::AwaitSync { .. }, LbEvent::Fetched(_)) => true,
            (LbPhase::ReportNotFound, LbEvent::Patched(_)) => true,
            (LbPhase::AwaitDeletionClient { .. }, LbEvent::NamespaceClient(_)) => true,
            (LbPhase::ReportOrphan, LbEvent::Patched(_)) => true,
            (LbPhase::AwaitDelete, LbEvent::Called(_)) => true,
            (LbPhase::ReportBlocked, LbEvent::Patched(_)) => true,
            (LbPhase::AwaitFinalizerRemoved, LbEvent::Patched(_)) => true,
            _ => false,
        }
    }

    fn dispatch(facts: LbFacts, role: String, project_id: String) -> (r: (LbReconciler, LbCommand))
        ensures
            r.0.facts == facts,
            lb_dispatch(facts, role, project_id, r.0, r.1),
    {
        let finalizer_present = has_finalizer(&facts.finalizers, LB_FINALIZER);
        let (scaleway_id, status_project_id) = match &facts.status {
            Some(s) => (copy_opt(&s.scaleway_id), copy_opt(&s.project_id)),
            None => (None, None),
        };
        let input = LbReconcileInput {
            deletion_requested: facts.deletion_requested,
            circuit_open: facts.circuit_open,
            finalizer_present,
            scaleway_role: role,
            project_id,
            scaleway_id,
            status_project_id,
        };
        assert(input == lb_input(facts, input.scaleway_role, input.project_id));
        let decision = decide_next_action_lb(&input);
        match decision {
            LbReconcileDecision::SkipCircuitOpen => {
                let cmd = LbCommand { effects: effects0(), io: LbIo::Finish(Err(OperatorError::CircuitBreakerOpen)) };
                (LbReconciler { facts, phase: LbPhase::Done }, cmd)
            },
            LbReconcileDecision::AddLbFinalizer => {
                let v = finalizers_with(&facts.finalizers, LB_FINALIZER);
                (LbReconciler { facts, phase: LbPhase::AwaitFinalizerAdded }, LbCommand { effects: effects0(), io: LbIo::PatchFinalizers(v) })
            },
            LbReconcileDecision::BlockReadOnlyRole => {
                let e = OperatorError::ConfigError(
                    cat3("Role '", input.scaleway_role.as_str(), "' is read-only and cannot create load balancers. Use 'Editor' or 'Admin'."),
                );
                let st = lb_status_with_error(&facts.status, e.for_status());
                let cmd = LbCommand { effects: effects1(Effect::StartTimer), io: LbIo::PatchStatus(st) };
                (LbReconciler { facts, phase: LbPhase::ReportFailure { error: e, measured: true } }, cmd)
            },
            LbReconcileDecision::VerifyProjectAccessLb { project_id } => match check_lb_spec(&facts.spec) {
                Err(e) => {
                    let cmd = LbCommand { effects: effects2(Effect::StartTimer, Effect::SetOutcome(ReconcileOutcome::Error)), io: LbIo::Finish(Err(e)) };
                    (LbReconciler { facts, phase: LbPhase::Done }, cmd)
                },
                Ok(()) => {
                    let cmd = LbCommand { effects: effects1(Effect::StartTimer), io: LbIo::FetchNamespaceClient };
                    (LbReconciler { facts, phase: LbPhase::AwaitClient { plan: LbPlan::Verify { project_id } } }, cmd)
                },
            },
            LbReconcileDecision::CreateLoadBalancer { project_id } => match check_lb_spec(&facts.spec) {
                Err(e) => {
                    let cmd = LbCommand { effects: effects2(Effect::StartTimer, Effect::SetOutcome(ReconcileOutcome::Error)), io: LbIo::Finish(Err(e)) };
                    (LbReconciler { facts, phase: LbPhase::Done }, cmd)
                },
                Ok(()) => {
                    let cmd = LbCommand { effects: effects1(Effect::StartTimer), io: LbIo::FetchNamespaceClient };
                    (LbReconciler { facts, phase: LbPhase::AwaitClient { plan: LbPlan::Create { project_id } } }, cmd)
                },
            },
            LbReconcileDecision::SyncLoadBalancer { scaleway_id, project_id } => {
                let cmd = LbCommand { effects: effects1(Effect::StartTimer), io: LbIo::Get { scaleway_id } };
                (LbReconciler { facts, phase: LbPhase::AwaitSync { project_id } }, cmd)
            },
            LbReconcileDecision::DeleteLoadBalancer { scaleway_id } => {
                let cmd = LbCommand { effects: effects1(Effect::StartTimer), io: LbIo::FetchNamespaceClient };
                (LbReconciler { facts, phase: LbPhase::AwaitDeletionClient { scaleway_id } }, cmd)
            },
            LbReconcileDecision::RemoveLbFinalizer => {
                let v = finalizers_without(&facts.finalizers, LB_FINALIZER);
                let cmd = LbCommand { effects: effects1(Effect::StartTimer), io: LbIo::PatchFinalizers(v) };
                (LbReconciler { facts, phase: LbPhase::AwaitFinalizerRemoved }, cmd)
            },
        }
    }

    fn fail_reporting(facts: LbFacts, e: OperatorError, measured: bool) -> (r: (LbReconciler, LbCommand))
        ensures
            r.0.facts == facts,
            lb_fails_reporting(facts, e, measured, r.0, r.1),
    {
        let st = lb_status_with_error(&facts.status, e.for_status());
        let cmd = LbCommand { effects: effects0(), io: LbIo::PatchStatus(st) };
        (LbReconciler { facts, phase: LbPhase::ReportFailure { error: e, measured } }, cmd)
    }

    fn finish(facts: LbFacts, effects: Vec<Effect>, result: OperatorResult<ReconcileAction>) -> (r: (LbReconciler, LbCommand))
        ensures
            r.0.facts == facts,
            r.0.phase is Done,
            r.1.effects == effects,
            r.1.io == LbIo::Finish(result),
    {
        (LbReconciler { facts, phase: LbPhase::Done }, LbCommand { effects, io: LbIo::Finish(result) })
    }

    /// Takes one step: consumes the result of the last command and returns the
    /// machine with the next command.
    pub fn step(self, event: LbEvent, breaker: &mut CircuitBreakerState) -> (r: (LbReconciler, LbCommand))
        requires
            lb_expects(self.phase, event),
            old(breaker).wf(),
        ensures
            lb_transition(self, event, r.0, r.1),
            lb_breaker_step(self.phase, event, *old(breaker), *final(breaker)),
            final(breaker).wf(),
    {
        let LbReconciler { facts, phase } = self;
        match phase {
            LbPhase::Start => {
                if !facts.deletion_requested && !facts.circuit_open {
                    (LbReconciler { facts, phase: LbPhase::AwaitRole }, LbCommand { effects: effects0(), io: LbIo::FetchRole })
                } else {
                    let role = String::new();
                    let pid = String::new();
                    let ghost (gr, gp) = (role, pid);
                    let r = Self::dispatch(facts, role, pid);
                    assert(lb_dispatch(r.0.facts, gr, gp, r.0, r.1));
                    r
                }
            },
            LbPhase::AwaitRole => match event {
                LbEvent::Role(Ok(role)) => (LbReconciler { facts, phase: LbPhase::AwaitProjectId { role } }, LbCommand { effects: effects0(), io: LbIo::FetchProjectId }),
                LbEvent::Role(Err(e)) => Self::fail_reporting(facts, e, false),
                _ => {
                    assert(false);
                    Self::fail_reporting(facts, OperatorError::CircuitBreakerOpen, false)
                },
            },
            LbPhase::AwaitProjectId { role } => match event {
                LbEvent::ProjectId(Ok(pid)) => {
                    let ghost gpid = pid;
                    match check_project_id_format(pid) {
                        Ok(pid) => Self::dispatch(facts, role, pid),
                        Err(e) => {
                            let r = Self::fail_reporting(facts, e, false);
                            assert(e@ == ErrorModel::Config(context::invalid_uuid_message(gpid@)));
                            r
                        },
                    }
                },
                LbEvent::ProjectId(Err(e)) => Self::fail_reporting(facts, e, false),
                _ => {
                    assert(false);
                    Self::fail_reporting(facts, OperatorError::CircuitBreakerOpen, false)
                },
            },
            LbPhase::ReportFailure { error, measured } => {
                let effects = if measured { effects1(Effect::SetOutcome(ReconcileOutcome::Error)) } else { effects0() };
                Self::finish(facts, effects, Err(error))
            },
            LbPhase::AwaitFinalizerAdded => match event {
                LbEvent::Patched(Ok(_)) => Self::finish(facts, effects0(), Ok(ReconcileAction::Requeue(5))),
                LbEvent::Patched(Err(e)) => Self::finish(facts, effects0(), Err(e)),
                _ => {
                    assert(false);
                    Self::fail_reporting(facts, OperatorError::CircuitBreakerOpen, false)
                },
            },
            LbPhase::AwaitClient { plan } => match event {
                LbEvent::NamespaceClient(Ok(_)) => match plan {
                    LbPlan::Verify { project_id } => {
                        let cmd = LbCommand { effects: effects0(), io: LbIo::VerifyProjectAccess { project_id: project_id.clone() } };
                        (LbReconciler { facts, phase: LbPhase::AwaitProjectAccess { project_id } }, cmd)
                    },
                    LbPlan::Create { project_id } => {
                        let cmd = LbCommand { effects: effects0(), io: LbIo::FindByTags { project_id: project_id.clone() } };
                        (LbReconciler { facts, phase: LbPhase::AwaitFind { project_id } }, cmd)
                    },
                },
                LbEvent::NamespaceClient(Err(e)) => Self::fail_reporting(facts, e, true),
                _ => {
                    assert(false);
                    Self::fail_reporting(facts, OperatorError::CircuitBreakerOpen, false)
                },
            },
            LbPhase::AwaitProjectAccess { project_id } => match event {
                LbEvent::Called(r) => {
                    record_call_outcome(breaker, &r);
                    match r {
                        Ok(_) => {
                            let cmd = LbCommand { effects: effects0(), io: LbIo::FindByTags { project_id: project_id.clone() } };
                            (LbReconciler { facts, phase: LbPhase::AwaitFind { project_id } }, cmd)
                        },
                        Err(e) => Self::finish(facts, effects0(), Err(e)),
                    }
                },
                _ => {
                    assert(false);
                    Self::fail_reporting(facts, OperatorError::CircuitBreakerOpen, false)
                },
            },
            LbPhase::AwaitFind { project_id } => match event {
                LbEvent::Found(r) => {
                    record_call_outcome(breaker, &r);
                    match r {
                        Ok(Some(id)) => {
                            let st = lb_status_created(&facts.status, id, project_id.as_str());
                            let cmd = LbCommand {
                                effects: effects2(Effect::IncGauge(owned("pending")), Effect::SetOutcome(ReconcileOutcome::Adopted)),
                                io: LbIo::PatchStatus(st),
                            };
                            (LbReconciler { facts, phase: LbPhase::AwaitStatusWritten { action: ReconcileAction::Requeue(10) } }, cmd)
                        },
                        Ok(None) => {
                            let cmd = LbCommand { effects: effects0(), io: LbIo::Create { project_id: project_id.clone() } };
                            (LbReconciler { facts, phase: LbPhase::AwaitCreate { project_id } }, cmd)
                        },
                        Err(e) => Self::finish(facts, effects0(), Err(e)),
                    }
                },
                _ => {
                    assert(false);
                    Self::fail_reporting(facts, OperatorError::CircuitBreakerOpen, false)
                },
            },
            LbPhase::AwaitCreate { project_id } => match event {
                LbEvent::Created(r) => {
                    record_call_outcome(breaker, &r);
                    match r {
                        Ok(id) => {
                            let st = lb_status_created(&facts.status, id, project_id.as_str());
                            let cmd = LbCommand {
                                effects: effects2(Effect::IncGauge(owned("pending")), Effect::SetOutcome(ReconcileOutcome::Created)),
                                io: LbIo::PatchStatus(st),
                            };
                            (LbReconciler { facts, phase: LbPhase::AwaitStatusWritten { action: ReconcileAction::Requeue(10) } }, cmd)
                        },
                        Err(e) => {
                            let st = lb_status_with_error(&facts.status, e.for_status());
                            (LbReconciler { facts, phase: LbPhase::ReportError { error: e } }, LbCommand { effects: effects0(), io: LbIo::PatchStatus(st) })
                        },
                    }
                },
                _ => {
                    assert(false);
                    Self::fail_reporting(facts, OperatorError::CircuitBreakerOpen, false)
                },
            },
            LbPhase::ReportError { error } => match event {
                LbEvent::Patched(Ok(_)) => Self::finish(facts, effects1(Effect::SetOutcome(ReconcileOutcome::Error)), Err(error)),
                LbEvent::Patched(Err(pe)) => Self::finish(facts, effects0(), Err(pe)),
                _ => {
                    assert(false);
                    Self::fail_reporting(facts, OperatorError::CircuitBreakerOpen, false)
                },
            },
            LbPhase::AwaitStatusWritten { action } => match event {
                LbEvent::Patched(Ok(_)) => Self::finish(facts, effects0(), Ok(action)),
                LbEvent::Patched(Err(e)) => Self::finish(facts, effects0(), Err(e)),
                _ => {
                    assert(false);
                    Self::fail_reporting(facts, OperatorError::CircuitBreakerOpen, false)
                },
            },
            LbPhase::AwaitSync { project_id } => match event {
                LbEvent::Fetched(r) => {
                    record_call_outcome(breaker, &r);
                    match r {
                        Ok(info) => {
                            let st = lb_status_synced(&facts.status, &info, project_id.as_str());
                            let cmd = LbCommand {
                                effects: effects3(
                                    Effect::DecGauge(lb_gauge_state(&facts.status)),
                                    Effect::IncGauge(info.state.clone()),
                                    Effect::SetOutcome(ReconcileOutcome::Synced),
                                ),
                                io: LbIo::PatchStatus(st),
                            };
                            (LbReconciler { facts, phase: LbPhase::AwaitStatusWritten { action: ReconcileAction::Requeue(30) } }, cmd)
                        },
                        Err(OperatorError::LbNotFound(id)) => {
                            let had_id = match &facts.status {
                                Some(s) => s.scaleway_id.is_some(),
                                None => false,
                            };
                            let effects = if had_id { effects1(Effect::DecGauge(lb_gauge_state(&facts.status))) } else { effects0() };
                            let st = lb_status_not_found(&facts.status);
                            (LbReconciler { facts, phase: LbPhase::ReportNotFound }, LbCommand { effects, io: LbIo::PatchStatus(st) })
                        },
                        Err(e) => {
                            let st = lb_status_with_error(&facts.status, e.for_status());
                            (LbReconciler { facts, phase: LbPhase::ReportError { error: e } }, LbCommand { effects: effects0(), io: LbIo::PatchStatus(st) })
                        },
                    }
                },
                _ => {
                    assert(false);
                    Self::fail_reporting(facts, OperatorError::CircuitBreakerOpen, false)
                },
            },
            LbPhase::ReportNotFound => Self::finish(facts, effects1(Effect::SetOutcome(ReconcileOutcome::Error)), Ok(ReconcileAction::Requeue(30))),
            LbPhase::AwaitDeletionClient { scaleway_id } => match event {
                LbEvent::NamespaceClient(Ok(_)) => (LbReconciler { facts, phase: LbPhase::AwaitDelete }, LbCommand { effects: effects0(), io: LbIo::Delete { scaleway_id } }),
                LbEvent::NamespaceClient(Err(_)) => {
                    let st = lb_status_removed_without_delete(&facts.status);
                    (LbReconciler { facts, phase: LbPhase::ReportOrphan }, LbCommand { effects: effects0(), io: LbIo::PatchStatus(st) })
                },
                _ => {
                    assert(false);
                    Self::fail_reporting(facts, OperatorError::CircuitBreakerOpen, false)
                },
            },
            LbPhase::ReportOrphan => {
                let v = finalizers_without(&facts.finalizers, LB_FINALIZER);
                (LbReconciler { facts, phase: LbPhase::AwaitFinalizerRemoved }, LbCommand { effects: effects0(), io: LbIo::PatchFinalizers(v) })
            },
            LbPhase::AwaitDelete => match event {
                LbEvent::Called(r) => {
                    record_call_outcome(breaker, &r);
                    match r {
                        Ok(_) => {
                            let v = finalizers_without(&facts.finalizers, LB_FINALIZER);
                            (LbReconciler { facts, phase: LbPhase::AwaitFinalizerRemoved }, LbCommand { effects: effects0(), io: LbIo::PatchFinalizers(v) })
                        },
                        Err(e) => {
                            let locked = match &e {
                                OperatorError::ScalewayError { status, .. } => str_contains(status.as_str(), "409") || str_contains(status.as_str(), "423"),
                                _ => false,
                            };
                            if locked {
                                let st = lb_status_termination_blocked(&facts.status);
                                (LbReconciler { facts, phase: LbPhase::ReportBlocked }, LbCommand { effects: effects0(), io: LbIo::PatchStatus(st) })
                            } else {
                                Self::finish(facts, effects1(Effect::SetOutcome(ReconcileOutcome::Error)), Err(e))
                            }
                        },
                    }
                },
                _ => {
                    assert(false);
                    Self::fail_reporting(facts, OperatorError::CircuitBreakerOpen, false)
                },
            },
            LbPhase::ReportBlocked => {
                let e = OperatorError::ScalewayError { status: owned("409"), message: owned("Load balancer is locked") };
                Self::finish(facts, effects1(Effect::SetOutcome(ReconcileOutcome::Error)), Err(e))
            },
            LbPhase::AwaitFinalizerRemoved => match event {
                LbEvent::Patched(Ok(_)) => {
                    let effects = effects2(Effect::DecGauge(lb_gauge_state(&facts.status)), Effect::SetOutcome(ReconcileOutcome::Deleted));
                    Self::finish(facts, effects, Ok(ReconcileAction::AwaitChange))
                },
                LbEvent::Patched(Err(e)) => Self::finish(facts, effects1(Effect::SetOutcome(ReconcileOutcome::Error)), Err(e)),
                _ => {
                    assert(false);
                    Self::fail_reporting(facts, OperatorError::CircuitBreakerOpen, false)
                },
            },
            LbPhase::Done => {
                assert(false);
                Self::fail_reporting(facts, OperatorError::CircuitBreakerOpen, false)
            },
        }
    }
}

} // verus!
