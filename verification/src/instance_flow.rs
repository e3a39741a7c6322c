//! The reconciliation of an Instance as a state machine. The caller performs
//! the I/O that each command names and hands back its result as the next event;
//! every decision in between is taken here.

use vstd::prelude::*;
use vstd::string::*;
use crate::context::{check_project_id_format, CircuitBreakerState};
use crate::context;
use crate::error::{ErrorModel, OperatorError, OperatorResult};
use crate::error;
use crate::metrics::ReconcileOutcome;
use crate::reconcilers::{
    decide_next_action, effects0, effects1, effects2, effects3, finalizers_with, finalizers_without,
    has_finalizer, instance_gauge_state, instance_status_created, instance_status_not_found,
    instance_status_synced, instance_status_with_error, check_instance_spec, record_call_outcome,
    Effect, EffectModel, ReconcileAction, ReconcileDecision, ReconcileInput, INSTANCE_FINALIZER,
};
use crate::reconcilers;
use crate::resources::{InstanceSpec, InstanceStatus, Timestamp};
use crate::resources;
use crate::scaleway::{InstanceInfo, ScalewayClient};
use crate::text::{cat3, copy_opt, owned};

verus! {

/// What is known of an Instance when its reconciliation starts.
pub struct InstanceFacts {
    pub namespace: String,
    pub spec: InstanceSpec,
    pub status: Option<InstanceStatus>,
    pub finalizers: Option<Vec<String>>,
    pub deletion_requested: bool,
    /// Whether the circuit breaker blocked Scaleway calls when the pass began.
    pub circuit_open: bool,
}

/// What to do once the namespace's client is at hand.
pub enum InstancePlan {
    Verify { project_id: String },
    Create { project_id: String },
    Sync { scaleway_id: String, project_id: String },
}

/// Where a reconciliation of an Instance stands; each phase waits for one kind of event.
pub enum InstancePhase {
    /// Waits for `Begin`.
    Start,
    /// Waits for the namespace's role.
    AwaitRole,
    /// Waits for the namespace's project.
    AwaitProjectId { role: String },
    /// Waits for the error status to be written (its outcome is ignored), then fails.
    ReportFailure { error: OperatorError, measured: bool },
    /// Waits for the finalizer to be added.
    AwaitFinalizerAdded,
    /// Waits for the namespace's client.
    AwaitClient { plan: InstancePlan },
    /// Waits for the project access check.
    AwaitProjectAccess { project_id: String },
    /// Waits for the search of an existing instance by name.
    AwaitFind { project_id: String },
    /// Waits for the creation of the instance.
    AwaitCreate { project_id: String },
    /// Waits for the error status to be written, then fails.
    ReportError { error: OperatorError },
    /// Waits for the time of creation.
    AwaitClock { scaleway_id: String, adopted: bool, project_id: String },
    /// Waits for the new status to be written, then finishes with `action`.
    AwaitStatusWritten { action: ReconcileAction },
    /// Waits for the state of the instance.
    AwaitSync { project_id: String },
    /// Waits for the cleared status to be written (its outcome is ignored).
    ReportNotFound,
    /// Waits for the namespace's client during a deletion.
    AwaitDeletionClient { scaleway_id: String },
    /// Waits for the deletion of the Scaleway instance.
    AwaitDelete,
    /// Waits for the finalizer to be removed.
    AwaitFinalizerRemoved,
    /// The pass is over.
    Done,
}

/// The I/O a step asks for.
pub enum InstanceIo {
    /// Read the namespace's NamespaceRole (event `Role`).
    FetchRole,
    /// Read the namespace's project annotation (event `ProjectId`).
    FetchProjectId,
    /// Build the namespace's client from its credentials Secret (event `NamespaceClient`).
    FetchNamespaceClient,
    /// Patch the resource's finalizers (event `Patched`).
    PatchFinalizers(Vec<String>),
    /// Patch the resource's status (event `Patched`).
    PatchStatus(InstanceStatus),
    /// Check access to the project with the operator's client (event `Called`).
    VerifyProjectAccess { project_id: String },
    /// Search a server named as the spec in its zone with the namespace's client (event `Found`).
    FindByName { project_id: String },
    /// Create the spec's server with the namespace's client (event `Created`).
    Create { project_id: String },
    /// Read the server with the namespace's client (event `Fetched`).
    Get { scaleway_id: String, project_id: String },
    /// Delete the server with the namespace's client (event `Called`).
    Delete { scaleway_id: String },
    /// Read the wall clock (event `Clock`).
    ReadClock,
    /// The pass ends with this result.
    Finish(OperatorResult<ReconcileAction>),
}

pub struct InstanceCommand {
    /// Applied in order before the I/O.
    pub effects: Vec<Effect>,
    pub io: InstanceIo,
}

/// The result of the last command's I/O.
pub enum InstanceEvent {
    Begin,
    Role(OperatorResult<String>),
    ProjectId(OperatorResult<String>),
    NamespaceClient(OperatorResult<ScalewayClient>),
    Patched(OperatorResult<()>),
    Called(OperatorResult<()>),
    Found(OperatorResult<Option<String>>),
    Created(OperatorResult<String>),
    Fetched(OperatorResult<InstanceInfo>),
    Clock(Timestamp),
}

/// A reconciliation of one Instance in progress.
pub struct InstanceReconciler {
    pub facts: InstanceFacts,
    pub phase: InstancePhase,
    /// The namespace's client, once built.
    pub ns_client: Option<ScalewayClient>,
}

/// Whether `ev` is the event that `phase` waits for.
pub open spec fn instance_expects(phase: InstancePhase, ev: InstanceEvent) -> bool {
    match phase {
        InstancePhase::Start => ev is Begin,
        InstancePhase::AwaitRole => ev is Role,
        InstancePhase::AwaitProjectId { .. } => ev is ProjectId,
        InstancePhase::ReportFailure { .. } => ev is Patched,
        InstancePhase::AwaitFinalizerAdded => ev is Patched,
        InstancePhase::AwaitClient { .. } => ev is NamespaceClient,
        InstancePhase::AwaitProjectAccess { .. } => ev is Called,
        InstancePhase::AwaitFind { .. } => ev is Found,
        InstancePhase::AwaitCreate { .. } => ev is Created,
        InstancePhase::ReportError { .. } => ev is Patched,
        InstancePhase::AwaitClock { .. } => ev is Clock,
        InstancePhase::AwaitStatusWritten { .. } => ev is Patched,
        InstancePhase::AwaitSync { .. } => ev is Fetched,
        InstancePhase::ReportNotFound => ev is Patched,
        InstancePhase::AwaitDeletionClient { .. } => ev is NamespaceClient,
        InstancePhase::AwaitDelete => ev is Called,
        InstancePhase::AwaitFinalizerRemoved => ev is Patched,
        InstancePhase::Done => false,
    }
}

/// The Scaleway ID recorded in a status.
pub open spec fn recorded_id(s: Option<InstanceStatus>) -> Option<String> {
    match s {
        Some(x) => x.scaleway_id,
        None => None,
    }
}

/// The project recorded in a status.
pub open spec fn recorded_project(s: Option<InstanceStatus>) -> Option<String> {
    match s {
        Some(x) => x.project_id,
        None => None,
    }
}

/// The input of the decision for these facts, role and project.
pub open spec fn instance_input(facts: InstanceFacts, role: String, project_id: String) -> ReconcileInput {
    ReconcileInput {
        deletion_requested: facts.deletion_requested,
        circuit_open: facts.circuit_open,
        finalizer_present: reconcilers::texts(reconcilers::finalizer_list(facts.finalizers)).contains(INSTANCE_FINALIZER@),
        scaleway_role: role,
        project_id,
        scaleway_id: recorded_id(facts.status),
        status_project_id: recorded_project(facts.status),
    }
}

/// Message of the error raised for a read-only role.
pub open spec fn read_only_message(role: Seq<char>) -> Seq<char> {
    "Role '"@ + role + "' is read-only and cannot create instances. Use 'Editor' or 'Admin'."@
}

/// A status patch that records `e`.
pub open spec fn reports(io: InstanceIo, facts: InstanceFacts, e: ErrorModel) -> bool {
    io matches InstanceIo::PatchStatus(st) && st@ == reconcilers::instance_error_status(facts.status, error::status_message(e))
}

/// Whether the command has exactly these effects.
pub open spec fn has_effects(cmd: InstanceCommand, e: Seq<EffectModel>) -> bool {
    reconcilers::effect_models(cmd.effects@) == e
}

/// The step taken once the decision is known.
pub open spec fn instance_dispatch(facts: InstanceFacts, role: String, project_id: String, m1: InstanceReconciler, cmd: InstanceCommand) -> bool {
    let plan_for = |d: ReconcileDecision| match d {
        ReconcileDecision::VerifyProjectAccess { project_id } => InstancePlan::Verify { project_id },
        ReconcileDecision::CreateInstance { project_id } => InstancePlan::Create { project_id },
        ReconcileDecision::SyncInstance { scaleway_id, project_id } => InstancePlan::Sync { scaleway_id, project_id },
        _ => InstancePlan::Verify { project_id },
    };
    match reconcilers::instance_decision(instance_input(facts, role, project_id)) {
        ReconcileDecision::SkipCircuitOpen => {
            &&& m1.phase is Done
            &&& has_effects(cmd, Seq::empty())
            &&& cmd.io matches InstanceIo::Finish(Err(e)) && e@ == ErrorModel::CircuitBreakerOpen
        },
        ReconcileDecision::AddFinalizer => {
            &&& m1.phase is AwaitFinalizerAdded
            &&& has_effects(cmd, Seq::empty())
            &&& cmd.io matches InstanceIo::PatchFinalizers(v) && v@.drop_last() == reconcilers::finalizer_list(facts.finalizers) && reconcilers::texts(v@) == reconcilers::texts(reconcilers::finalizer_list(facts.finalizers)).push(INSTANCE_FINALIZER@)
        },
        ReconcileDecision::BlockReadOnlyRole => {
            let e = ErrorModel::Config(read_only_message(role@));
            &&& m1.phase matches InstancePhase::ReportFailure { error, measured } && measured && error@ == e
            &&& has_effects(cmd, seq![EffectModel::StartTimer])
            &&& reports(cmd.io, facts, e)
        },
        ReconcileDecision::DeleteInstance { scaleway_id } => {
            &&& m1.phase == InstancePhase::AwaitDeletionClient { scaleway_id }
            &&& has_effects(cmd, seq![EffectModel::StartTimer])
            &&& cmd.io is FetchNamespaceClient
        },
        ReconcileDecision::RemoveFinalizer => {
            &&& m1.phase is AwaitFinalizerRemoved
            &&& has_effects(cmd, seq![EffectModel::StartTimer])
            &&& cmd.io matches InstanceIo::PatchFinalizers(v) && v@ == reconcilers::without_finalizer(reconcilers::finalizer_list(facts.finalizers), INSTANCE_FINALIZER@)
        },
        ReconcileDecision::RequeueIn(_) => false,
        d => match reconcilers::instance_spec_check(facts.spec) {
            Some(em) => {
                &&& m1.phase is Done
                &&& has_effects(cmd, seq![EffectModel::StartTimer, EffectModel::SetOutcome(ReconcileOutcome::Error)])
                &&& cmd.io matches InstanceIo::Finish(Err(e)) && e@ == em
            },
            None => {
                &&& m1.phase == InstancePhase::AwaitClient { plan: plan_for(d) }
                &&& has_effects(cmd, seq![EffectModel::StartTimer])
                &&& cmd.io is FetchNamespaceClient
            },
        },
    }
}

/// A failure reported in the status before the pass fails.
pub open spec fn fails_reporting(facts: InstanceFacts, e: OperatorError, measured: bool, m1: InstanceReconciler, cmd: InstanceCommand) -> bool {
    &&& m1.phase == InstancePhase::ReportFailure { error: e, measured }
    &&& has_effects(cmd, Seq::empty())
    &&& reports(cmd.io, facts, e@)
}

/// One step: from the phase and the event to the next phase and command.
pub open spec fn instance_transition(m0: InstanceReconciler, ev: InstanceEvent, m1: InstanceReconciler, cmd: InstanceCommand) -> bool {
    let facts = m0.facts;
    let status = facts.status;
    &&& m1.facts == m0.facts
    &&& match m0.phase {
        InstancePhase::Start => {
            &&& m1.ns_client == m0.ns_client
            &&& if !facts.deletion_requested && !facts.circuit_open {
                m1.phase is AwaitRole && has_effects(cmd, Seq::empty()) && cmd.io is FetchRole
            } else {
                exists|role: String, pid: String| role@ == Seq::<char>::empty() && pid@ == Seq::<char>::empty() && instance_dispatch(facts, role, pid, m1, cmd)
            }
        },
        InstancePhase::AwaitRole => {
            &&& m1.ns_client == m0.ns_client
            &&& match ev {
                InstanceEvent::Role(Ok(role)) => m1.phase == InstancePhase::AwaitProjectId { role } && has_effects(cmd, Seq::empty()) && cmd.io is FetchProjectId,
                InstanceEvent::Role(Err(e)) => fails_reporting(facts, e, false, m1, cmd),
                _ => false,
            }
        },
        InstancePhase::AwaitProjectId { role } => {
            &&& m1.ns_client == m0.ns_client
            &&& match ev {
                InstanceEvent::ProjectId(Ok(pid)) => if context::uuid_parses(pid@) {
                    instance_dispatch(facts, role, pid, m1, cmd)
                } else {
                    exists|e: OperatorError| e@ == ErrorModel::Config(context::invalid_uuid_message(pid@)) && fails_reporting(facts, e, false, m1, cmd)
                },
                InstanceEvent::ProjectId(Err(e)) => fails_reporting(facts, e, false, m1, cmd),
                _ => false,
            }
        },
        InstancePhase::ReportFailure { error, measured } => {
            &&& m1.ns_client == m0.ns_client
            &&& m1.phase is Done
            &&& has_effects(cmd, if measured { seq![EffectModel::SetOutcome(ReconcileOutcome::Error)] } else { Seq::empty() })
            &&& cmd.io == InstanceIo::Finish(Err(error))
        },
        InstancePhase::AwaitFinalizerAdded => {
            &&& m1.ns_client == m0.ns_client
            &&& m1.phase is Done
            &&& has_effects(cmd, Seq::empty())
            &&& match ev {
                InstanceEvent::Patched(Ok(_)) => cmd.io == InstanceIo::Finish(Ok(ReconcileAction::Requeue(5))),
                InstanceEvent::Patched(Err(e)) => cmd.io == InstanceIo::Finish(Err(e)),
                _ => false,
            }
        },
        InstancePhase::AwaitClient { plan } => match ev {
            InstanceEvent::NamespaceClient(Ok(c)) => {
                &&& m1.ns_client == Some(c)
                &&& has_effects(cmd, Seq::empty())
                &&& match plan {
                    InstancePlan::Verify { project_id } => m1.phase == InstancePhase::AwaitProjectAccess { project_id } && cmd.io == InstanceIo::VerifyProjectAccess { project_id },
                    InstancePlan::Create { project_id } => m1.phase == InstancePhase::AwaitFind { project_id } && cmd.io == InstanceIo::FindByName { project_id },
                    InstancePlan::Sync { scaleway_id, project_id } => m1.phase == InstancePhase::AwaitSync { project_id } && cmd.io == InstanceIo::Get { scaleway_id, project_id },
                }
            },
            InstanceEvent::NamespaceClient(Err(e)) => m1.ns_client == m0.ns_client && fails_reporting(facts, e, true, m1, cmd),
            _ => false,
        },
        InstancePhase::AwaitProjectAccess { project_id } => {
            &&& m1.ns_client == m0.ns_client
            &&& has_effects(cmd, Seq::empty())
            &&& match ev {
                InstanceEvent::Called(Ok(_)) => m1.phase == InstancePhase::AwaitFind { project_id } && cmd.io == InstanceIo::FindByName { project_id },
                InstanceEvent::Called(Err(e)) => m1.phase is Done && cmd.io == InstanceIo::Finish(Err(e)),
                _ => false,
            }
        },
        InstancePhase::AwaitFind { project_id } => {
            &&& m1.ns_client == m0.ns_client
            &&& has_effects(cmd, Seq::empty())
            &&& match ev {
                InstanceEvent::Found(Ok(Some(id))) => m1.phase == (InstancePhase::AwaitClock { scaleway_id: id, adopted: true, project_id }) && cmd.io is ReadClock,
                InstanceEvent::Found(Ok(None)) => m1.phase == InstancePhase::AwaitCreate { project_id } && cmd.io == InstanceIo::Create { project_id },
                InstanceEvent::Found(Err(e)) => m1.phase is Done && cmd.io == InstanceIo::Finish(Err(e)),
                _ => false,
            }
        },
        InstancePhase::AwaitCreate { project_id } => {
            &&& m1.ns_client == m0.ns_client
            &&& has_effects(cmd, Seq::empty())
            &&& match ev {
                InstanceEvent::Created(Ok(id)) => m1.phase == (InstancePhase::AwaitClock { scaleway_id: id, adopted: false, project_id }) && cmd.io is ReadClock,
                InstanceEvent::Created(Err(e)) => m1.phase == InstancePhase::ReportError { error: e } && reports(cmd.io, facts, e@),
                _ => false,
            }
        },
        InstancePhase::ReportError { error } => {
            &&& m1.ns_client == m0.ns_client
            &&& m1.phase is Done
            &&& match ev {
                InstanceEvent::Patched(Ok(_)) => has_effects(cmd, seq![EffectModel::SetOutcome(ReconcileOutcome::Error)]) && cmd.io == InstanceIo::Finish(Err(error)),
                InstanceEvent::Patched(Err(pe)) => has_effects(cmd, Seq::empty()) && cmd.io == InstanceIo::Finish(Err(pe)),
                _ => false,
            }
        },
        InstancePhase::AwaitClock { scaleway_id, adopted, project_id } => match ev {
            InstanceEvent::Clock(now) => {
                &&& m1.ns_client == m0.ns_client
                &&& m1.phase == InstancePhase::AwaitStatusWritten { action: ReconcileAction::Requeue(10) }
                &&& has_effects(cmd, seq![EffectModel::IncGauge("creating"@), EffectModel::SetOutcome(if adopted { ReconcileOutcome::Adopted } else { ReconcileOutcome::Created })])
                &&& cmd.io matches InstanceIo::PatchStatus(st) && st@ == reconcilers::instance_created_status(status, scaleway_id@, project_id@, now)
            },
            _ => false,
        },
        InstancePhase::AwaitStatusWritten { action } => {
            &&& m1.ns_client == m0.ns_client
            &&& m1.phase is Done
            &&& has_effects(cmd, Seq::empty())
            &&& match ev {
                InstanceEvent::Patched(Ok(_)) => cmd.io == InstanceIo::Finish(Ok(action)),
                InstanceEvent::Patched(Err(e)) => cmd.io == InstanceIo::Finish(Err(e)),
                _ => false,
            }
        },
        InstancePhase::AwaitSync { project_id } => {
            &&& m1.ns_client == m0.ns_client
            &&& match ev {
                InstanceEvent::Fetched(Ok(info)) => {
                    &&& m1.phase == InstancePhase::AwaitStatusWritten { action: ReconcileAction::Requeue(30) }
                    &&& has_effects(cmd, seq![EffectModel::DecGauge(reconcilers::instance_gauge_state_text(status)), EffectModel::IncGauge(info.state@), EffectModel::SetOutcome(ReconcileOutcome::Synced)])
                    &&& cmd.io matches InstanceIo::PatchStatus(st) && st@ == reconcilers::instance_synced_status(status, info.state@, resources::opt_view(info.public_ip), project_id@)
                },
                InstanceEvent::Fetched(Err(OperatorError::InstanceNotFound(_))) => {
                    &&& m1.phase is ReportNotFound
                    &&& has_effects(cmd, if recorded_id(status) is Some { seq![EffectModel::DecGauge(reconcilers::instance_gauge_state_text(status))] } else { Seq::empty() })
                    &&& cmd.io matches InstanceIo::PatchStatus(st) && st@ == resources::initial_instance_status()
                },
                InstanceEvent::Fetched(Err(e)) => m1.phase == InstancePhase::ReportError { error: e } && has_effects(cmd, Seq::empty()) && reports(cmd.io, facts, e@),
                _ => false,
            }
        },
        InstancePhase::ReportNotFound => {
            &&& m1.ns_client == m0.ns_client
            &&& m1.phase is Done
            &&& has_effects(cmd, seq![EffectModel::SetOutcome(ReconcileOutcome::Error)])
            &&& cmd.io == InstanceIo::Finish(Ok(ReconcileAction::Requeue(30)))
        },
        InstancePhase::AwaitDeletionClient { scaleway_id } => {
            &&& has_effects(cmd, Seq::empty())
            &&& match ev {
                InstanceEvent::NamespaceClient(Ok(c)) => m1.ns_client == Some(c) && m1.phase is AwaitDelete && cmd.io == InstanceIo::Delete { scaleway_id },
                InstanceEvent::NamespaceClient(Err(_)) => m1.ns_client == m0.ns_client && m1.phase is AwaitFinalizerRemoved && (cmd.io matches InstanceIo::PatchFinalizers(v) && v@ == reconcilers::without_finalizer(reconcilers::finalizer_list(facts.finalizers), INSTANCE_FINALIZER@)),
                _ => false,
            }
        },
        InstancePhase::AwaitDelete => {
            &&& m1.ns_client == m0.ns_client
            &&& match ev {
                InstanceEvent::Called(Ok(_)) => m1.phase is AwaitFinalizerRemoved && has_effects(cmd, Seq::empty()) && (cmd.io matches InstanceIo::PatchFinalizers(v) && v@ == reconcilers::without_finalizer(reconcilers::finalizer_list(facts.finalizers), INSTANCE_FINALIZER@)),
                InstanceEvent::Called(Err(e)) => m1.phase is Done && has_effects(cmd, seq![EffectModel::SetOutcome(ReconcileOutcome::Error)]) && cmd.io == InstanceIo::Finish(Err(e)),
                _ => false,
            }
        },
        InstancePhase::AwaitFinalizerRemoved => {
            &&& m1.ns_client == m0.ns_client
            &&& m1.phase is Done
            &&& match ev {
                InstanceEvent::Patched(Ok(_)) => has_effects(cmd, seq![EffectModel::DecGauge(reconcilers::instance_gauge_state_text(status)), EffectModel::SetOutcome(ReconcileOutcome::Deleted)]) && cmd.io == InstanceIo::Finish(Ok(ReconcileAction::AwaitChange)),
                InstanceEvent::Patched(Err(e)) => has_effects(cmd, seq![EffectModel::SetOutcome(ReconcileOutcome::Error)]) && cmd.io == InstanceIo::Finish(Err(e)),
                _ => false,
            }
        },
        InstancePhase::Done => false,
    }
}

/// How a step changes the circuit breaker: the results of the guarded Scaleway
/// calls (project access, creation, read, deletion) are accounted, nothing else is.
pub open spec fn instance_breaker_step(phase: InstancePhase, ev: InstanceEvent, b0: CircuitBreakerState, b1: CircuitBreakerState) -> bool {
    match phase {
        InstancePhase::AwaitProjectAccess { .. } => ev matches InstanceEvent::Called(r) && reconcilers::breaker_accounts(b0, b1, r),
        InstancePhase::AwaitCreate { .. } => ev matches InstanceEvent::Created(r) && reconcilers::breaker_accounts(b0, b1, r),
        InstancePhase::AwaitSync { .. } => ev matches InstanceEvent::Fetched(r) && reconcilers::breaker_accounts(b0, b1, r),
        InstancePhase::AwaitDelete => ev matches InstanceEvent::Called(r) && reconcilers::breaker_accounts(b0, b1, r),
        _ => b1 == b0,
    }
}

impl InstanceReconciler {
    /// A reconciliation that has not started.
    pub fn new(facts: InstanceFacts) -> (r: Self)
        ensures
            r.facts == facts,
            r.phase is Start,
            r.ns_client is None,
    {
        InstanceReconciler { facts, phase: InstancePhase::Start, ns_client: None }
    }

    /// Whether the pass is over.
    pub fn is_done(&self) -> (r: bool)
        ensures
            r == self.phase is Done,
    {
        matches!(self.phase, InstancePhase::Done)
    }

    /// Whether `event` is the one the current phase waits for (the condition of [`Self::step`]).
    pub fn accepts(&self, event: &InstanceEvent) -> (r: bool)
        ensures
            r == instance_expects(self.phase, *event),
    {
        match (&self.phase, event) {
            (InstancePhase::Start, InstanceEvent::Begin) => true,
            (InstancePhase::AwaitRole, InstanceEvent::Role(_)) => true,
            (InstancePhase::AwaitProjectId { .. }, InstanceEvent::ProjectId(_)) => true,
            (InstancePhase::ReportFailure { .. }, InstanceEvent::Patched(_)) => true,
            (InstancePhase::AwaitFinalizerAdded, InstanceEvent::Patched(_)) => true,
            (InstancePhase::AwaitClient { .. }, InstanceEvent::NamespaceClient(_)) => true,
            (InstancePhase::AwaitProjectAccess { .. }, InstanceEvent::Called(_)) => true,
            (InstancePhase::AwaitFind { .. }, InstanceEvent::Found(_)) => true,
            (InstancePhase::AwaitCreate { .. }, InstanceEvent::Created(_)) => true,
            (InstancePhase::ReportError { .. }, InstanceEvent::Patched(_)) => true,
            (InstancePhase::AwaitClock { .. }, InstanceEvent::Clock(_)) => true,
            (InstancePhase::AwaitStatusWritten { .. }, InstanceEvent::Patched(_)) => true,
            (InstancePhase::AwaitSync { .. }, InstanceEvent::Fetched(_)) => true,
            (InstancePhase::ReportNotFound, InstanceEvent::Patched(_)) => true,
            (InstancePhase::AwaitDeletionClient { .. }, InstanceEvent::NamespaceClient(_)) => true,
            (InstancePhase::AwaitDelete, InstanceEvent::Called(_)) => true,
            (InstancePhase::AwaitFinalizerRemoved, InstanceEvent::Patched(_)) => true,
            _ => false,
        }
    }

    fn dispatch(facts: InstanceFacts, role: String, project_id: String, ns_client: Option<ScalewayClient>) -> (r: (InstanceReconciler, InstanceCommand))
        ensures
            r.0.facts == facts,
            r.0.ns_client == ns_client,
            instance_dispatch(facts, role, project_id, r.0, r.1),
    {
        let finalizer_present = has_finalizer(&facts.finalizers, INSTANCE_FINALIZER);
        let (scaleway_id, status_project_id) = match &facts.status {
            Some(s) => (copy_opt(&s.scaleway_id), copy_opt(&s.project_id)),
            None => (None, None),
        };
        let input = ReconcileInput {
            deletion_requested: facts.deletion_requested,
            circuit_open: facts.circuit_open,
            finalizer_present,
            scaleway_role: role,
            project_id,
            scaleway_id,
            status_project_id,
        };
        assert(input == instance_input(facts, input.scaleway_role, input.project_id));
        let decision = decide_next_action(&input);
        match decision {
            ReconcileDecision::SkipCircuitOpen => {
                let cmd = InstanceCommand { effects: effects0(), io: InstanceIo::Finish(Err(OperatorError::CircuitBreakerOpen)) };
                (InstanceReconciler { facts, phase: InstancePhase::Done, ns_client }, cmd)
            },
            ReconcileDecision::AddFinalizer => {
                let v = finalizers_with(&facts.finalizers, INSTANCE_FINALIZER);
                let cmd = InstanceCommand { effects: effects0(), io: InstanceIo::PatchFinalizers(v) };
                (InstanceReconciler { facts, phase: InstancePhase::AwaitFinalizerAdded, ns_client }, cmd)
            },
            ReconcileDecision::BlockReadOnlyRole => {
                let e = OperatorError::ConfigError(
                    cat3("Role '", input.scaleway_role.as_str(), "' is read-only and cannot create instances. Use 'Editor' or 'Admin'."),
                );
                let st = instance_status_with_error(&facts.status, e.for_status());
                let cmd = InstanceCommand { effects: effects1(Effect::StartTimer), io: InstanceIo::PatchStatus(st) };
                (InstanceReconciler { facts, phase: InstancePhase::ReportFailure { error: e, measured: true }, ns_client }, cmd)
            },
            ReconcileDecision::DeleteInstance { scaleway_id } => {
                let cmd = InstanceCommand { effects: effects1(Effect::StartTimer), io: InstanceIo::FetchNamespaceClient };
                (InstanceReconciler { facts, phase: InstancePhase::AwaitDeletionClient { scaleway_id }, ns_client }, cmd)
            },
            ReconcileDecision::RemoveFinalizer => {
                let v = finalizers_without(&facts.finalizers, INSTANCE_FINALIZER);
                let cmd = InstanceCommand { effects: effects1(Effect::StartTimer), io: InstanceIo::PatchFinalizers(v) };
                (InstanceReconciler { facts, phase: InstancePhase::AwaitFinalizerRemoved, ns_client }, cmd)
            },
            ReconcileDecision::RequeueIn(_) => {
                assert(false);
                let cmd = InstanceCommand { effects: effects0(), io: InstanceIo::ReadClock };
                (InstanceReconciler { facts, phase: InstancePhase::Done, ns_client }, cmd)
            },
            d => {
                let plan = match d {
                    ReconcileDecision::VerifyProjectAccess { project_id } => InstancePlan::Verify { project_id },
                    ReconcileDecision::CreateInstance { project_id } => InstancePlan::Create { project_id },
                    ReconcileDecision::SyncInstance { scaleway_id, project_id } => InstancePlan::Sync { scaleway_id, project_id },
                    _ => {
                        assert(false);
                        InstancePlan::Verify { project_id: String::new() }
                    },
                };
                match check_instance_spec(&facts.spec) {
                    Err(e) => {
                        let cmd = InstanceCommand {
                            effects: effects2(Effect::StartTimer, Effect::SetOutcome(ReconcileOutcome::Error)),
                            io: InstanceIo::Finish(Err(e)),
                        };
                        (InstanceReconciler { facts, phase: InstancePhase::Done, ns_client }, cmd)
                    },
                    Ok(()) => {
                        let cmd = InstanceCommand { effects: effects1(Effect::StartTimer), io: InstanceIo::FetchNamespaceClient };
                        (InstanceReconciler { facts, phase: InstancePhase::AwaitClient { plan }, ns_client }, cmd)
                    },
                }
            },
        }
    }

    fn fail_reporting(facts: InstanceFacts, e: OperatorError, measured: bool, ns_client: Option<ScalewayClient>) -> (r: (InstanceReconciler, InstanceCommand))
        ensures
            r.0.facts == facts,
            r.0.ns_client == ns_client,
            fails_reporting(facts, e, measured, r.0, r.1),
    {
        let st = instance_status_with_error(&facts.status, e.for_status());
        let cmd = InstanceCommand { effects: effects0(), io: InstanceIo::PatchStatus(st) };
        (InstanceReconciler { facts, phase: InstancePhase::ReportFailure { error: e, measured }, ns_client }, cmd)
    }

    /// Takes one step: consumes the result of the last command and returns the
    /// machine with the next command. The results of guarded Scaleway calls are
    /// accounted in `breaker`.
    pub fn step(self, event: InstanceEvent, breaker: &mut CircuitBreakerState) -> (r: (InstanceReconciler, InstanceCommand))
        requires
            instance_expects(self.phase, event),
            old(breaker).wf(),
        ensures
            instance_transition(self, event, r.0, r.1),
            instance_breaker_step(self.phase, event, *old(breaker), *final(breaker)),
            final(breaker).wf(),
    {
        let InstanceReconciler { facts, phase, ns_client } = self;
        match phase {
            InstancePhase::Start => {
                if !facts.deletion_requested && !facts.circuit_open {
                    let cmd = InstanceCommand { effects: effects0(), io: InstanceIo::FetchRole };
                    (InstanceReconciler { facts, phase: InstancePhase::AwaitRole, ns_client }, cmd)
                } else {
                    let role = String::new();
                    let pid = String::new();
                    let ghost (gr, gp) = (role, pid);
                    let r = Self::dispatch(facts, role, pid, ns_client);
                    assert(instance_dispatch(r.0.facts, gr, gp, r.0, r.1));
                    r
                }
            },
            InstancePhase::AwaitRole => match event {
                InstanceEvent::Role(Ok(role)) => {
                    let cmd = InstanceCommand { effects: effects0(), io: InstanceIo::FetchProjectId };
                    (InstanceReconciler { facts, phase: InstancePhase::AwaitProjectId { role }, ns_client }, cmd)
                },
                InstanceEvent::Role(Err(e)) => Self::fail_reporting(facts, e, false, ns_client),
                _ => {
                    assert(false);
                    Self::fail_reporting(facts, OperatorError::CircuitBreakerOpen, false, ns_client)
                },
            },
            InstancePhase::AwaitProjectId { role } => match event {
                InstanceEvent::ProjectId(Ok(pid)) => {
                    let ghost gpid = pid;
                    match check_project_id_format(pid) {
                        Ok(pid) => Self::dispatch(facts, role, pid, ns_client),
                        Err(e) => {
                            let r = Self::fail_reporting(facts, e, false, ns_client);
                            assert(e@ == ErrorModel::Config(context::invalid_uuid_message(gpid@)));
                            r
                        },
                    }
                },
                InstanceEvent::ProjectId(Err(e)) => Self::fail_reporting(facts, e, false, ns_client),
                _ => {
                    assert(false);
                    Self::fail_reporting(facts, OperatorError::CircuitBreakerOpen, false, ns_client)
                },
            },
            InstancePhase::ReportFailure { error, measured } => {
                let effects = if measured {
                    effects1(Effect::SetOutcome(ReconcileOutcome::Error))
                } else {
                    effects0()
                };
                let cmd = InstanceCommand { effects, io: InstanceIo::Finish(Err(error)) };
                (InstanceReconciler { facts, phase: InstancePhase::Done, ns_client }, cmd)
            },
            InstancePhase::AwaitFinalizerAdded => {
                let io = match event {
                    InstanceEvent::Patched(Ok(_)) => InstanceIo::Finish(Ok(ReconcileAction::Requeue(5))),
                    InstanceEvent::Patched(Err(e)) => InstanceIo::Finish(Err(e)),
                    _ => {
                        assert(false);
                        InstanceIo::ReadClock
                    },
                };
                (InstanceReconciler { facts, phase: InstancePhase::Done, ns_client }, InstanceCommand { effects: effects0(), io })
            },
            InstancePhase::AwaitClient { plan } => match event {
                InstanceEvent::NamespaceClient(Ok(c)) => {
                    let (phase, io) = match plan {
                        InstancePlan::Verify { project_id } => (InstancePhase::AwaitProjectAccess { project_id: project_id.clone() }, InstanceIo::VerifyProjectAccess { project_id }),
                        InstancePlan::Create { project_id } => (InstancePhase::AwaitFind { project_id: project_id.clone() }, InstanceIo::FindByName { project_id }),
                        InstancePlan::Sync { scaleway_id, project_id } => (InstancePhase::AwaitSync { project_id: project_id.clone() }, InstanceIo::Get { scaleway_id, project_id }),
                    };
                    (InstanceReconciler { facts, phase, ns_client: Some(c) }, InstanceCommand { effects: effects0(), io })
                },
                InstanceEvent::NamespaceClient(Err(e)) => Self::fail_reporting(facts, e, true, ns_client),
                _ => {
                    assert(false);
                    Self::fail_reporting(facts, OperatorError::CircuitBreakerOpen, false, ns_client)
                },
            },
            InstancePhase::AwaitProjectAccess { project_id } => match event {
                InstanceEvent::Called(r) => {
                    record_call_outcome(breaker, &r);
                    match r {
                        Ok(_) => {
                            let cmd = InstanceCommand { effects: effects0(), io: InstanceIo::FindByName { project_id: project_id.clone() } };
                            (InstanceReconciler { facts, phase: InstancePhase::AwaitFind { project_id }, ns_client }, cmd)
                        },
                        Err(e) => (InstanceReconciler { facts, phase: InstancePhase::Done, ns_client }, InstanceCommand { effects: effects0(), io: InstanceIo::Finish(Err(e)) }),
                    }
                },
                _ => {
                    assert(false);
                    Self::fail_reporting(facts, OperatorError::CircuitBreakerOpen, false, ns_client)
                },
            },
            InstancePhase::AwaitFind { project_id } => match event {
                InstanceEvent::Found(Ok(Some(id))) => {
                    let phase = InstancePhase::AwaitClock { scaleway_id: id, adopted: true, project_id };
                    (InstanceReconciler { facts, phase, ns_client }, InstanceCommand { effects: effects0(), io: InstanceIo::ReadClock })
                },
                InstanceEvent::Found(Ok(None)) => {
                    let cmd = InstanceCommand { effects: effects0(), io: InstanceIo::Create { project_id: project_id.clone() } };
                    (InstanceReconciler { facts, phase: InstancePhase::AwaitCreate { project_id }, ns_client }, cmd)
                },
                InstanceEvent::Found(Err(e)) => (InstanceReconciler { facts, phase: InstancePhase::Done, ns_client }, InstanceCommand { effects: effects0(), io: InstanceIo::Finish(Err(e)) }),
                _ => {
                    assert(false);
                    Self::fail_reporting(facts, OperatorError::CircuitBreakerOpen, false, ns_client)
                },
            },
            InstancePhase::AwaitCreate { project_id } => match event {
                InstanceEvent::Created(r) => {
                    record_call_outcome(breaker, &r);
                    match r {
                        Ok(id) => {
                            let phase = InstancePhase::AwaitClock { scaleway_id: id, adopted: false, project_id };
                            (InstanceReconciler { facts, phase, ns_client }, InstanceCommand { effects: effects0(), io: InstanceIo::ReadClock })
                        },
                        Err(e) => {
                            let st = instance_status_with_error(&facts.status, e.for_status());
                            let cmd = InstanceCommand { effects: effects0(), io: InstanceIo::PatchStatus(st) };
                            (InstanceReconciler { facts, phase: InstancePhase::ReportError { error: e }, ns_client }, cmd)
                        },
                    }
                },
                _ => {
                    assert(false);
                    Self::fail_reporting(facts, OperatorError::CircuitBreakerOpen, false, ns_client)
                },
            },
            InstancePhase::ReportError { error } => {
                let cmd = match event {
                    InstanceEvent::Patched(Ok(_)) => InstanceCommand { effects: effects1(Effect::SetOutcome(ReconcileOutcome::Error)), io: InstanceIo::Finish(Err(error)) },
                    InstanceEvent::Patched(Err(pe)) => InstanceCommand { effects: effects0(), io: InstanceIo::Finish(Err(pe)) },
                    _ => {
                        assert(false);
                        InstanceCommand { effects: effects0(), io: InstanceIo::ReadClock }
                    },
                };
                (InstanceReconciler { facts, phase: InstancePhase::Done, ns_client }, cmd)
            },
            InstancePhase::AwaitClock { scaleway_id, adopted, project_id } => match event {
                InstanceEvent::Clock(now) => {
                    let st = instance_status_created(&facts.status, scaleway_id, project_id.as_str(), now);
                    let outcome = if adopted { ReconcileOutcome::Adopted } else { ReconcileOutcome::Created };
                    let cmd = InstanceCommand {
                        effects: effects2(Effect::IncGauge(owned("creating")), Effect::SetOutcome(outcome)),
                        io: InstanceIo::PatchStatus(st),
                    };
                    (InstanceReconciler { facts, phase: InstancePhase::AwaitStatusWritten { action: ReconcileAction::Requeue(10) }, ns_client }, cmd)
                },
                _ => {
                    assert(false);
                    Self::fail_reporting(facts, OperatorError::CircuitBreakerOpen, false, ns_client)
                },
            },
            InstancePhase::AwaitStatusWritten { action } => {
                let io = match event {
                    InstanceEvent::Patched(Ok(_)) => InstanceIo::Finish(Ok(action)),
                    InstanceEvent::Patched(Err(e)) => InstanceIo::Finish(Err(e)),
                    _ => {
                        assert(false);
                        InstanceIo::ReadClock
                    },
                };
                (InstanceReconciler { facts, phase: InstancePhase::Done, ns_client }, InstanceCommand { effects: effects0(), io })
            },
            InstancePhase::AwaitSync { project_id } => match event {
                InstanceEvent::Fetched(r) => {
                    record_call_outcome(breaker, &r);
                    match r {
                        Ok(info) => {
                            let st = instance_status_synced(&facts.status, &info, project_id.as_str());
                            let cmd = InstanceCommand {
                                effects: effects3(
                                    Effect::DecGauge(instance_gauge_state(&facts.status)),
                                    Effect::IncGauge(info.state.clone()),
                                    Effect::SetOutcome(ReconcileOutcome::Synced),
                                ),
                                io: InstanceIo::PatchStatus(st),
                            };
                            (InstanceReconciler { facts, phase: InstancePhase::AwaitStatusWritten { action: ReconcileAction::Requeue(30) }, ns_client }, cmd)
                        },
                        Err(OperatorError::InstanceNotFound(id)) => {
                            let had_id = match &facts.status {
                                Some(s) => s.scaleway_id.is_some(),
                                None => false,
                            };
                            let effects = if had_id {
                                effects1(Effect::DecGauge(instance_gauge_state(&facts.status)))
                            } else {
                                effects0()
                            };
                            let st = instance_status_not_found(&facts.status);
                            (InstanceReconciler { facts, phase: InstancePhase::ReportNotFound, ns_client }, InstanceCommand { effects, io: InstanceIo::PatchStatus(st) })
                        },
                        Err(e) => {
                            let st = instance_status_with_error(&facts.status, e.for_status());
                            let cmd = InstanceCommand { effects: effects0(), io: InstanceIo::PatchStatus(st) };
                            (InstanceReconciler { facts, phase: InstancePhase::ReportError { error: e }, ns_client }, cmd)
                        },
                    }
                },
                _ => {
                    assert(false);
                    Self::fail_reporting(facts, OperatorError::CircuitBreakerOpen, false, ns_client)
                },
            },
            InstancePhase::ReportNotFound => {
                let cmd = InstanceCommand {
                    effects: effects1(Effect::SetOutcome(ReconcileOutcome::Error)),
                    io: InstanceIo::Finish(Ok(ReconcileAction::Requeue(30))),
                };
                (InstanceReconciler { facts, phase: InstancePhase::Done, ns_client }, cmd)
            },
            InstancePhase::AwaitDeletionClient { scaleway_id } => match event {
                InstanceEvent::NamespaceClient(Ok(c)) => {
                    let cmd = InstanceCommand { effects: effects0(), io: InstanceIo::Delete { scaleway_id } };
                    (InstanceReconciler { facts, phase: InstancePhase::AwaitDelete, ns_client: Some(c) }, cmd)
                },
                InstanceEvent::NamespaceClient(Err(_)) => {
                    let v = finalizers_without(&facts.finalizers, INSTANCE_FINALIZER);
                    let cmd = InstanceCommand { effects: effects0(), io: InstanceIo::PatchFinalizers(v) };
                    (InstanceReconciler { facts, phase: InstancePhase::AwaitFinalizerRemoved, ns_client }, cmd)
                },
                _ => {
                    assert(false);
                    Self::fail_reporting(facts, OperatorError::CircuitBreakerOpen, false, ns_client)
                },
            },
            InstancePhase::AwaitDelete => match event {
                InstanceEvent::Called(r) => {
                    record_call_outcome(breaker, &r);
                    match r {
                        Ok(_) => {
                            let v = finalizers_without(&facts.finalizers, INSTANCE_FINALIZER);
                            let cmd = InstanceCommand { effects: effects0(), io: InstanceIo::PatchFinalizers(v) };
                            (InstanceReconciler { facts, phase: InstancePhase::AwaitFinalizerRemoved, ns_client }, cmd)
                        },
                        Err(e) => {
                            let cmd = InstanceCommand { effects: effects1(Effect::SetOutcome(ReconcileOutcome::Error)), io: InstanceIo::Finish(Err(e)) };
                            (InstanceReconciler { facts, phase: InstancePhase::Done, ns_client }, cmd)
                        },
                    }
                },
                _ => {
                    assert(false);
                    Self::fail_reporting(facts, OperatorError::CircuitBreakerOpen, false, ns_client)
                },
            },
            InstancePhase::AwaitFinalizerRemoved => {
                let cmd = match event {
                    InstanceEvent::Patched(Ok(_)) => InstanceCommand {
                        effects: effects2(Effect::DecGauge(instance_gauge_state(&facts.status)), Effect::SetOutcome(ReconcileOutcome::Deleted)),
                        io: InstanceIo::Finish(Ok(ReconcileAction::AwaitChange)),
                    },
                    InstanceEvent::Patched(Err(e)) => InstanceCommand { effects: effects1(Effect::SetOutcome(ReconcileOutcome::Error)), io: InstanceIo::Finish(Err(e)) },
                    _ => {
                        assert(false);
                        InstanceCommand { effects: effects0(), io: InstanceIo::ReadClock }
                    },
                };
                (InstanceReconciler { facts, phase: InstancePhase::Done, ns_client }, cmd)
            },
            InstancePhase::Done => {
                assert(false);
                Self::fail_reporting(facts, OperatorError::CircuitBreakerOpen, false, ns_client)
            },
        }
    }
}

} // verus!
