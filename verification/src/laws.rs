//! Properties that hold of the library as a whole: of the circuit breaker over
//! any run of calls, of the retry backoff and its keys, of the classification
//! of errors, of the decisions and finalizer lists, and of every step of the
//! reconcile state machines.

use vstd::prelude::*;
use vstd::arithmetic::power2::{pow2, lemma2_to64};
use crate::context::{
    count_of, phase_after_failure, phase_after_failures, phase_after_success, CircuitPhase,
    CIRCUIT_FAILURE_THRESHOLD,
};
use crate::error::{permanent, status_message, ErrorModel};
use crate::instance_flow::{
    instance_dispatch, instance_transition, InstanceCommand, InstanceEvent, InstanceIo,
    InstancePhase, InstanceReconciler,
};
use crate::lb_flow::{lb_dispatch, lb_transition, LbCommand, LbEvent, LbIo, LbPhase, LbReconciler};
use crate::reconcilers::{
    effect_models, INSTANCE_FINALIZER, LB_FINALIZER, backoff_secs, instance_decision, is_write_role, lb_decision, retry_exempt, retry_key_text,
    texts, without_finalizer, LbReconcileDecision, LbReconcileInput, ReconcileDecision,
    ReconcileInput,
};

verus! {

// ── Circuit breaker ─────────────────────────────────────────────────────────

/// From a closed circuit that has counted `c` failures, `n` more consecutive
/// transient failures open it exactly when `c + n` reaches the threshold of 5;
/// before that the circuit stays closed with `c + n` failures counted.
pub proof fn law_circuit_opens_at_threshold(c: nat, n: nat)
    requires
        c < CIRCUIT_FAILURE_THRESHOLD,
    ensures
        phase_after_failures(CircuitPhase::Closed(c), n) is Open <==> c + n
            >= CIRCUIT_FAILURE_THRESHOLD,
        c + n < CIRCUIT_FAILURE_THRESHOLD ==> phase_after_failures(CircuitPhase::Closed(c), n)
            == CircuitPhase::Closed(c + n),
    decreases n,
{
    if n > 0 {
        law_circuit_opens_at_threshold(c, (n - 1) as nat);
    }
}

/// A success on a circuit that is not open clears every failure counted
/// before it: the failures that follow count as on a fresh circuit.
pub proof fn law_success_resets_failures(p: CircuitPhase, n: nat)
    requires
        !(p is Open),
    ensures
        phase_after_success(p) == CircuitPhase::Closed(0),
        phase_after_failures(phase_after_success(p), n) == phase_after_failures(
            CircuitPhase::Closed(0),
            n,
        ),
{
}

/// A half-open circuit lets one trial call through: a success closes it with no
/// failure counted, a transient failure opens it again.
pub proof fn law_half_open_trial()
    ensures
        phase_after_success(CircuitPhase::HalfOpen) == CircuitPhase::Closed(0),
        phase_after_failure(CircuitPhase::HalfOpen) == CircuitPhase::Open,
{
}

/// Call outcomes never close an open circuit: only the timeout moves it on.
pub proof fn law_open_circuit_ignores_outcomes(n: nat)
    ensures
        phase_after_success(CircuitPhase::Open) == CircuitPhase::Open,
        phase_after_failures(CircuitPhase::Open, n) == CircuitPhase::Open,
    decreases n,
{
    if n > 0 {
        law_open_circuit_ignores_outcomes((n - 1) as nat);
    }
}

// ── Retry backoff ───────────────────────────────────────────────────────────

/// The retry delay is 30 s after the first failure and doubles with each further
/// one up to 300 s, where it stays: 30, 60, 120, 240, 300, 300, ...
pub proof fn law_backoff_schedule(n: nat)
    requires
        n >= 1,
    ensures
        30 <= backoff_secs(n) <= 300,
        backoff_secs(n) <= backoff_secs(n + 1),
        n < 4 ==> backoff_secs(n + 1) == 2 * backoff_secs(n),
        n >= 5 ==> backoff_secs(n) == 300,
        backoff_secs(1) == 30,
        backoff_secs(2) == 60,
        backoff_secs(3) == 120,
        backoff_secs(4) == 240,
        backoff_secs(5) == 300,
{
    lemma2_to64();
    assert(pow2(0) == 1 && pow2(1) == 2 && pow2(2) == 4 && pow2(3) == 8);
}

/// After `n` earlier consecutive failures the delay is
/// `min(30 * 2^min(n, 9), 300)` seconds, for every `n`: the shift formula
/// and the doubling schedule agree.
pub proof fn law_backoff_formula(n: nat)
    ensures
        backoff_secs(n + 1) == (if 30 * pow2(if n < 9 { n } else { 9 }) < 300 {
            30 * pow2(if n < 9 { n } else { 9 })
        } else {
            300
        }),
{
    lemma2_to64();
    assert(pow2(0) == 1 && pow2(1) == 2 && pow2(2) == 4 && pow2(3) == 8 && pow2(4) == 16);
    assert(pow2(5) == 32 && pow2(6) == 64 && pow2(7) == 128 && pow2(8) == 256 && pow2(9) == 512);
}

/// A count written under a retry key is read back from it, and counting a
/// failure under one key, or clearing one key, leaves the count of every other
/// key as it was.
pub proof fn law_retry_counts_are_per_key(
    m: Map<Seq<char>, u32>,
    a: Seq<char>,
    b: Seq<char>,
    v: u32,
)
    requires
        a != b,
    ensures
        count_of(m.insert(a, v), a) == v,
        count_of(m.remove(a), a) == 0,
        count_of(m.insert(a, v), b) == count_of(m, b),
        count_of(m.remove(a), b) == count_of(m, b),
{
}

/// Once a successful pass has cleared the count of a resource, its next
/// transient failure is the first again: it is requeued after 30 s.
pub proof fn law_success_restarts_backoff(m: Map<Seq<char>, u32>, key: Seq<char>)
    ensures
        count_of(m.remove(key), key) == 0,
        backoff_secs(count_of(m.remove(key), key) + 1) == 30,
{
    law_backoff_schedule(1);
}

/// The retry keys of two different kinds without '/' never collide, whatever
/// the namespaces and names: an Instance and a LoadBalancer of the same name
/// keep separate counts.
pub proof fn law_retry_keys_of_kinds_differ(
    k1: Seq<char>,
    k2: Seq<char>,
    ns1: Seq<char>,
    ns2: Seq<char>,
    n1: Seq<char>,
    n2: Seq<char>,
)
    requires
        k1 != k2,
        !k1.contains('/'),
        !k2.contains('/'),
    ensures
        retry_key_text(k1, ns1, n1) != retry_key_text(k2, ns2, n2),
{
    reveal_strlit("/");
    let a = retry_key_text(k1, ns1, n1);
    let b = retry_key_text(k2, ns2, n2);
    assert forall|i: int| 0 <= i < k1.len() implies a[i] == k1[i] by {
        assert(a == k1 + ("/"@ + ns1 + "/"@ + n1)) by {
            assert(a =~= k1 + ("/"@ + ns1 + "/"@ + n1));
        }
    }
    assert forall|i: int| 0 <= i < k2.len() implies b[i] == k2[i] by {
        assert(b == k2 + ("/"@ + ns2 + "/"@ + n2)) by {
            assert(b =~= k2 + ("/"@ + ns2 + "/"@ + n2));
        }
    }
    assert(a[k1.len() as int] == '/') by {
        assert(a =~= k1 + ("/"@ + ns1 + "/"@ + n1));
    }
    assert(b[k2.len() as int] == '/') by {
        assert(b =~= k2 + ("/"@ + ns2 + "/"@ + n2));
    }
    if k1.len() < k2.len() {
        assert(b[k1.len() as int] == k2[k1.len() as int]);
        assert(k2[k1.len() as int] != '/');
    } else if k2.len() < k1.len() {
        assert(a[k2.len() as int] == k1[k2.len() as int]);
        assert(k1[k2.len() as int] != '/');
    } else {
        if forall|i: int| 0 <= i < k1.len() ==> k1[i] == k2[i] {
            assert(k1 =~= k2);
        }
        let i = choose|i: int| 0 <= i < k1.len() && k1[i] != k2[i];
        assert(a[i] != b[i]);
    }
}

// ── Errors ──────────────────────────────────────────────────────────────────

/// The error policy waits for a change of the resource exactly on the errors
/// that the error itself classifies as permanent; an open circuit is retried.
pub proof fn law_retry_exempt_errors_are_permanent(e: ErrorModel)
    ensures
        retry_exempt(e) <==> permanent(e),
        !retry_exempt(ErrorModel::CircuitBreakerOpen),
{
}

/// A failed Scaleway call is retried with backoff, whatever its status and
/// body; of the project check's failures only a denied access (401, 403) and
/// an unknown project (404) wait for a change of the resource.
pub proof fn law_scaleway_failures_are_retried(code: u16, body: Seq<char>, project_id: Seq<char>)
    ensures
        !retry_exempt(crate::scaleway::scaleway_error_model(code, body)),
        retry_exempt(ErrorModel::ProjectAccessDenied(project_id)),
        retry_exempt(ErrorModel::Config("Project '"@ + project_id + "' not found"@)),
        !retry_exempt(ErrorModel::InstanceNotFound(project_id)),
        !retry_exempt(ErrorModel::LbNotFound(project_id)),
{
}

/// The status message of a Kubernetes, network or parsing error does not depend
/// on the underlying error, so nothing it carries (URLs, addresses) reaches a status.
pub proof fn law_status_hides_internal_errors(a: ErrorModel, b: ErrorModel)
    requires
        (a is Kube && b is Kube) || (a is Network && b is Network) || (a is Serialization
            && b is Serialization),
    ensures
        status_message(a) == status_message(b),
{
}

// ── Decisions ───────────────────────────────────────────────────────────────

/// A deletion comes before everything else, the open circuit before anything
/// but a deletion: a pass that is not a deletion makes no Scaleway decision
/// while the circuit is open.
pub proof fn law_decision_precedence(input: ReconcileInput)
    ensures
        input.deletion_requested ==> (instance_decision(input) is DeleteInstance
            || instance_decision(input) is RemoveFinalizer),
        !input.deletion_requested && input.circuit_open ==> instance_decision(input)
            is SkipCircuitOpen,
        !input.deletion_requested && !input.circuit_open && !input.finalizer_present
            ==> instance_decision(input) is AddFinalizer,
{
}

/// A role that cannot write never leads to the creation of an instance, nor to
/// the project check that precedes one.
pub proof fn law_read_only_role_never_creates(input: ReconcileInput)
    requires
        !is_write_role(input.scaleway_role@),
    ensures
        !(instance_decision(input) is CreateInstance),
        !(instance_decision(input) is VerifyProjectAccess),
{
}

/// The LoadBalancer decision counterpart of an Instance decision (`RequeueIn`,
/// which the Instance decision never yields, is mapped to `SkipCircuitOpen`).
pub open spec fn lb_counterpart(d: ReconcileDecision) -> LbReconcileDecision {
    match d {
        ReconcileDecision::SkipCircuitOpen => LbReconcileDecision::SkipCircuitOpen,
        ReconcileDecision::AddFinalizer => LbReconcileDecision::AddLbFinalizer,
        ReconcileDecision::BlockReadOnlyRole => LbReconcileDecision::BlockReadOnlyRole,
        ReconcileDecision::VerifyProjectAccess { project_id } =>
            LbReconcileDecision::VerifyProjectAccessLb { project_id },
        ReconcileDecision::CreateInstance { project_id } =>
            LbReconcileDecision::CreateLoadBalancer { project_id },
        ReconcileDecision::SyncInstance { scaleway_id, project_id } =>
            LbReconcileDecision::SyncLoadBalancer { scaleway_id, project_id },
        ReconcileDecision::DeleteInstance { scaleway_id } =>
            LbReconcileDecision::DeleteLoadBalancer { scaleway_id },
        ReconcileDecision::RemoveFinalizer => LbReconcileDecision::RemoveLbFinalizer,
        ReconcileDecision::RequeueIn(_) => LbReconcileDecision::SkipCircuitOpen,
    }
}

/// A LoadBalancer is decided by the same steps as an Instance: on the same
/// facts, its decision is the counterpart of the Instance decision.
pub proof fn law_lb_decision_follows_instance(input: ReconcileInput)
    ensures
        !(instance_decision(input) is RequeueIn),
        lb_decision(
            LbReconcileInput {
                deletion_requested: input.deletion_requested,
                circuit_open: input.circuit_open,
                finalizer_present: input.finalizer_present,
                scaleway_role: input.scaleway_role,
                project_id: input.project_id,
                scaleway_id: input.scaleway_id,
                status_project_id: input.status_project_id,
            },
        ) == lb_counterpart(instance_decision(input)),
{
}

// ── Finalizers ──────────────────────────────────────────────────────────────

proof fn lemma_filter_keeps_all(v: Seq<String>, name: Seq<char>)
    requires
        !texts(v).contains(name),
    ensures
        without_finalizer(v, name) == v,
    decreases v.len(),
{
    reveal(Seq::filter);
    if v.len() > 0 {
        let rest = v.drop_last();
        assert(!texts(rest).contains(name)) by {
            if texts(rest).contains(name) {
                let j = choose|j: int| 0 <= j < texts(rest).len() && texts(rest)[j] == name;
                assert(texts(v)[j] == name);
            }
        }
        lemma_filter_keeps_all(rest, name);
        assert(texts(v)[v.len() - 1] == v.last()@);
        assert(v.last()@ != name);
        assert(rest.push(v.last()) =~= v);
    }
}

/// Removing a finalizer leaves none of that name, keeps every other finalizer,
/// and adds nothing.
pub proof fn law_finalizer_removal(v: Seq<String>, name: Seq<char>)
    ensures
        !texts(without_finalizer(v, name)).contains(name),
        forall|s: String| v.contains(s) && s@ != name ==> #[trigger] without_finalizer(
            v,
            name,
        ).contains(s),
        forall|s: String| #[trigger] without_finalizer(v, name).contains(s) ==> v.contains(s),
{
    let pred = |s: String| s@ != name;
    let w = v.filter(pred);
    broadcast use Seq::lemma_filter_pred, Seq::lemma_filter_contains, Seq::lemma_filter_contains_rev;
    assert(!texts(w).contains(name)) by {
        if texts(w).contains(name) {
            let j = choose|j: int| 0 <= j < texts(w).len() && texts(w)[j] == name;
            assert(pred(w[j]));
        }
    }
    assert forall|s: String| v.contains(s) && s@ != name implies #[trigger] w.contains(s) by {
        let i = choose|i: int| 0 <= i < v.len() && v[i] == s;
        assert(pred(v[i]));
    }
}

/// Adding a finalizer to a list that lacks it, then removing it, gives the
/// list back.
pub proof fn law_finalizer_add_then_remove(v: Seq<String>, added: String)
    requires
        !texts(v).contains(added@),
    ensures
        without_finalizer(v.push(added), added@) == v,
{
    let pred = |s: String| s@ != added@;
    v.lemma_filter_push(added, pred);
    lemma_filter_keeps_all(v, added@);
}

// ── Reconcile state machines ────────────────────────────────────────────────

/// Phases of an Instance pass that belong to a deletion.
pub open spec fn instance_in_deletion(phase: InstancePhase) -> bool {
    phase is AwaitDeletionClient || phase is AwaitDelete || phase is AwaitFinalizerRemoved
}

/// A machine state in which a deletion phase belongs to a deletion; the
/// initial state has it, and every step keeps it.
pub open spec fn instance_consistent(m: InstanceReconciler) -> bool {
    instance_in_deletion(m.phase) ==> m.facts.deletion_requested
}

proof fn lemma_instance_dispatch(facts: crate::instance_flow::InstanceFacts, role: String, pid: String, m1: InstanceReconciler, cmd: InstanceCommand)
    requires
        instance_dispatch(facts, role, pid, m1, cmd),
        m1.facts == facts,
    ensures
        (cmd.io is Finish) <==> (m1.phase is Done),
        instance_consistent(m1),
        cmd.io matches InstanceIo::PatchFinalizers(v) && !texts(v@).contains(INSTANCE_FINALIZER@) ==> facts.deletion_requested,
{
    if let InstanceIo::PatchFinalizers(v) = cmd.io {
        if !facts.deletion_requested {
            let t = texts(crate::reconcilers::finalizer_list(facts.finalizers));
            assert(texts(v@) == t.push(INSTANCE_FINALIZER@));
            assert(texts(v@)[t.len() as int] == INSTANCE_FINALIZER@);
        }
    }
}

/// Every step of an Instance pass ends the pass exactly when it hands back the
/// pass's result, keeps deletion phases to deletions, and writes a finalizer
/// list without the Instance finalizer only in a deletion.
pub proof fn law_instance_steps(m0: InstanceReconciler, ev: InstanceEvent, m1: InstanceReconciler, cmd: InstanceCommand)
    requires
        instance_consistent(m0),
        instance_transition(m0, ev, m1, cmd),
    ensures
        (cmd.io is Finish) <==> (m1.phase is Done),
        instance_consistent(m1),
        cmd.io matches InstanceIo::PatchFinalizers(v) && !texts(v@).contains(INSTANCE_FINALIZER@)
            ==> m0.facts.deletion_requested,
{
    let facts = m0.facts;
    match m0.phase {
        InstancePhase::Start => {
            if facts.deletion_requested || facts.circuit_open {
                let (role, pid) = choose|role: String, pid: String| role@ == Seq::<char>::empty() && pid@ == Seq::<char>::empty() && instance_dispatch(facts, role, pid, m1, cmd);
                lemma_instance_dispatch(facts, role, pid, m1, cmd);
            }
        },
        InstancePhase::AwaitProjectId { role } => {
            if let InstanceEvent::ProjectId(Ok(pid)) = ev {
                if crate::context::uuid_parses(pid@) {
                    lemma_instance_dispatch(facts, role, pid, m1, cmd);
                }
            }
        },
        _ => {},
    }
}

/// While the circuit is open, an Instance pass that is not a deletion ends at
/// its first step with `CircuitBreakerOpen`, before any Kubernetes or Scaleway call.
pub proof fn law_instance_open_circuit_ends_pass(m0: InstanceReconciler, ev: InstanceEvent, m1: InstanceReconciler, cmd: InstanceCommand)
    requires
        instance_transition(m0, ev, m1, cmd),
        m0.phase is Start,
        m0.facts.circuit_open,
        !m0.facts.deletion_requested,
    ensures
        m1.phase is Done,
        effect_models(cmd.effects@) == Seq::<crate::reconcilers::EffectModel>::empty(),
        cmd.io matches InstanceIo::Finish(Err(e)) && e@ == ErrorModel::CircuitBreakerOpen,
{
    let (role, pid) = choose|role: String, pid: String| role@ == Seq::<char>::empty() && pid@ == Seq::<char>::empty() && instance_dispatch(m0.facts, role, pid, m1, cmd);
}

/// With a role that cannot write, the step that follows the reading of the
/// project heads neither for a project check nor for a creation: the only
/// Scaleway call it can lead to is the read of an instance already known.
pub proof fn law_instance_read_only_never_creates(m0: InstanceReconciler, ev: InstanceEvent, m1: InstanceReconciler, cmd: InstanceCommand)
    requires
        instance_transition(m0, ev, m1, cmd),
        m0.phase matches InstancePhase::AwaitProjectId { role } && !is_write_role(role@),
    ensures
        m1.phase matches InstancePhase::AwaitClient { plan } ==> plan is Sync,
        !(m1.phase is AwaitFind),
        !(m1.phase is AwaitCreate),
        !(m1.phase is AwaitProjectAccess),
{
}

/// Phases of a LoadBalancer pass that belong to a deletion.
pub open spec fn lb_in_deletion(phase: LbPhase) -> bool {
    phase is AwaitDeletionClient || phase is ReportOrphan || phase is AwaitDelete
        || phase is ReportBlocked || phase is AwaitFinalizerRemoved
}

pub open spec fn lb_consistent(m: LbReconciler) -> bool {
    lb_in_deletion(m.phase) ==> m.facts.deletion_requested
}

proof fn lemma_lb_dispatch(facts: crate::lb_flow::LbFacts, role: String, pid: String, m1: LbReconciler, cmd: LbCommand)
    requires
        lb_dispatch(facts, role, pid, m1, cmd),
        m1.facts == facts,
    ensures
        (cmd.io is Finish) <==> (m1.phase is Done),
        lb_consistent(m1),
        cmd.io matches LbIo::PatchFinalizers(v) && !texts(v@).contains(LB_FINALIZER@) ==> facts.deletion_requested,
{
    if let LbIo::PatchFinalizers(v) = cmd.io {
        if !facts.deletion_requested {
            let t = texts(crate::reconcilers::finalizer_list(facts.finalizers));
            assert(texts(v@) == t.push(LB_FINALIZER@));
            assert(texts(v@)[t.len() as int] == LB_FINALIZER@);
        }
    }
}

/// Every step of a LoadBalancer pass ends the pass exactly when it hands back
/// the pass's result, keeps deletion phases to deletions, and writes a
/// finalizer list without the LoadBalancer finalizer only in a deletion.
pub proof fn law_lb_steps(m0: LbReconciler, ev: LbEvent, m1: LbReconciler, cmd: LbCommand)
    requires
        lb_consistent(m0),
        lb_transition(m0, ev, m1, cmd),
    ensures
        (cmd.io is Finish) <==> (m1.phase is Done),
        lb_consistent(m1),
        cmd.io matches LbIo::PatchFinalizers(v) && !texts(v@).contains(LB_FINALIZER@)
            ==> m0.facts.deletion_requested,
{
    let facts = m0.facts;
    match m0.phase {
        LbPhase::Start => {
            if facts.deletion_requested || facts.circuit_open {
                let (role, pid) = choose|role: String, pid: String| role@ == Seq::<char>::empty() && pid@ == Seq::<char>::empty() && lb_dispatch(facts, role, pid, m1, cmd);
                lemma_lb_dispatch(facts, role, pid, m1, cmd);
            }
        },
        LbPhase::AwaitProjectId { role } => {
            if let LbEvent::ProjectId(Ok(pid)) = ev {
                if crate::context::uuid_parses(pid@) {
                    lemma_lb_dispatch(facts, role, pid, m1, cmd);
                }
            }
        },
        _ => {},
    }
}

/// While the circuit is open, a LoadBalancer pass that is not a deletion ends
/// at its first step with `CircuitBreakerOpen`.
pub proof fn law_lb_open_circuit_ends_pass(m0: LbReconciler, ev: LbEvent, m1: LbReconciler, cmd: LbCommand)
    requires
        lb_transition(m0, ev, m1, cmd),
        m0.phase is Start,
        m0.facts.circuit_open,
        !m0.facts.deletion_requested,
    ensures
        m1.phase is Done,
        effect_models(cmd.effects@) == Seq::<crate::reconcilers::EffectModel>::empty(),
        cmd.io matches LbIo::Finish(Err(e)) && e@ == ErrorModel::CircuitBreakerOpen,
{
    let (role, pid) = choose|role: String, pid: String| role@ == Seq::<char>::empty() && pid@ == Seq::<char>::empty() && lb_dispatch(m0.facts, role, pid, m1, cmd);
}

/// With a role that cannot write, the step that follows the reading of the
/// project heads neither for a project check nor for a creation.
pub proof fn law_lb_read_only_never_creates(m0: LbReconciler, ev: LbEvent, m1: LbReconciler, cmd: LbCommand)
    requires
        lb_transition(m0, ev, m1, cmd),
        m0.phase matches LbPhase::AwaitProjectId { role } && !is_write_role(role@),
    ensures
        !(m1.phase is AwaitClient),
        !(m1.phase is AwaitFind),
        !(m1.phase is AwaitCreate),
        !(m1.phase is AwaitProjectAccess),
{
}

/// An instance found by the search that precedes a creation is adopted,
/// never created a second time; only a search that finds nothing leads to a
/// creation.
pub proof fn law_found_instance_is_adopted(m0: InstanceReconciler, ev: InstanceEvent, m1: InstanceReconciler, cmd: InstanceCommand)
    requires
        instance_transition(m0, ev, m1, cmd),
        m0.phase is AwaitFind,
    ensures
        (cmd.io is Create) ==> ev == InstanceEvent::Found(Ok(None)),
        (ev matches InstanceEvent::Found(Ok(Some(_)))) ==> cmd.io is ReadClock,
{
}

/// A load balancer found by its operator tags is adopted, never created a
/// second time.
pub proof fn law_found_lb_is_adopted(m0: LbReconciler, ev: LbEvent, m1: LbReconciler, cmd: LbCommand)
    requires
        lb_transition(m0, ev, m1, cmd),
        m0.phase is AwaitFind,
    ensures
        (cmd.io is Create) ==> ev == LbEvent::Found(Ok(None)),
        (ev matches LbEvent::Found(Ok(Some(_)))) ==> cmd.io is PatchStatus,
{
}

/// A deletion that Scaleway refuses because the load balancer is locked (a
/// 409 or 423 status, as `delete_load_balancer_outcome` reports it) records
/// the blocked termination in the status and keeps the finalizer.
pub proof fn law_locked_lb_deletion_is_blocked(m0: LbReconciler, ev: LbEvent, m1: LbReconciler, cmd: LbCommand)
    requires
        lb_transition(m0, ev, m1, cmd),
        m0.phase is AwaitDelete,
        ev matches LbEvent::Called(Err(crate::error::OperatorError::ScalewayError { status, .. }))
            && crate::lb_flow::locked_status(status@),
    ensures
        m1.phase is ReportBlocked,
        cmd.io matches LbIo::PatchStatus(st) && st@ == crate::reconcilers::lb_blocked_status(m0.facts.status),
        !(cmd.io is PatchFinalizers),
{
}

// ── Deletions keep the finalizer until Scaleway lets go ─────────────────────

/// In an Instance deletion, a failed Scaleway delete ends the pass with that
/// very error and the `Error` outcome, and writes no finalizer list: the
/// finalizer stays, so the deletion is tried again.
pub proof fn law_instance_failed_delete_keeps_finalizer(
    m0: InstanceReconciler,
    e: crate::error::OperatorError,
    m1: InstanceReconciler,
    cmd: InstanceCommand,
)
    requires
        m0.phase is AwaitDelete,
        instance_transition(m0, InstanceEvent::Called(Err(e)), m1, cmd),
    ensures
        m1.phase is Done,
        cmd.io == InstanceIo::Finish(Err::<crate::reconcilers::ReconcileAction, crate::error::OperatorError>(e)),
        !(cmd.io is PatchFinalizers),
        effect_models(cmd.effects@) == seq![crate::reconcilers::EffectModel::SetOutcome(crate::metrics::ReconcileOutcome::Error)],
{
}

/// An Instance step writes a finalizer list without the Instance finalizer only
/// after a successful Scaleway delete, when no client could be built for the
/// delete, or where the decision is taken for a deletion of a resource with
/// no known server.
pub proof fn law_instance_finalizer_removed_only_when_released(
    m0: InstanceReconciler,
    ev: InstanceEvent,
    m1: InstanceReconciler,
    cmd: InstanceCommand,
)
    requires
        instance_transition(m0, ev, m1, cmd),
        cmd.io matches InstanceIo::PatchFinalizers(v) && !texts(v@).contains(INSTANCE_FINALIZER@),
    ensures
        (m0.phase is AwaitDelete && ev == InstanceEvent::Called(Ok(())))
            || (m0.phase is AwaitDeletionClient && ev matches InstanceEvent::NamespaceClient(Err(_)))
            || ((m0.phase is Start || m0.phase is AwaitProjectId) && m0.facts.deletion_requested
                && crate::instance_flow::recorded_id(m0.facts.status) is None),
{
    if m0.phase is Start {
        if m0.facts.deletion_requested || m0.facts.circuit_open {
            let (role, pid) = choose|role: String, pid: String| role@ == Seq::<char>::empty() && pid@ == Seq::<char>::empty() && instance_dispatch(m0.facts, role, pid, m1, cmd);
            lemma_instance_dispatch_patch(m0.facts, role, pid, m1, cmd);
        }
    } else if let InstancePhase::AwaitProjectId { role } = m0.phase {
        if let InstanceEvent::ProjectId(Ok(pid)) = ev {
            if crate::context::uuid_parses(pid@) {
                lemma_instance_dispatch_patch(m0.facts, role, pid, m1, cmd);
            }
        }
    } else if m0.phase is AwaitDelete {
        if let InstanceEvent::Called(r) = ev {
            if let Ok(u) = r {
                assert(u == ());
            }
        }
    }
}

proof fn lemma_instance_dispatch_patch(facts: crate::instance_flow::InstanceFacts, role: String, pid: String, m1: InstanceReconciler, cmd: InstanceCommand)
    requires
        instance_dispatch(facts, role, pid, m1, cmd),
        cmd.io matches InstanceIo::PatchFinalizers(v) && !texts(v@).contains(INSTANCE_FINALIZER@),
    ensures
        facts.deletion_requested && crate::instance_flow::recorded_id(facts.status) is None,
{
    if let InstanceIo::PatchFinalizers(v) = cmd.io {
        if !facts.deletion_requested {
            let t = texts(crate::reconcilers::finalizer_list(facts.finalizers));
            assert(texts(v@)[t.len() as int] == INSTANCE_FINALIZER@);
        }
    }
}

/// In a LoadBalancer deletion, a Scaleway delete that fails other than by a
/// lock ends the pass with that very error and the `Error` outcome, and writes
/// no finalizer list.
pub proof fn law_lb_failed_delete_keeps_finalizer(
    m0: LbReconciler,
    e: crate::error::OperatorError,
    m1: LbReconciler,
    cmd: LbCommand,
)
    requires
        m0.phase is AwaitDelete,
        lb_transition(m0, LbEvent::Called(Err(e)), m1, cmd),
        !(e matches crate::error::OperatorError::ScalewayError { status, .. }
            && crate::lb_flow::locked_status(status@)),
    ensures
        m1.phase is Done,
        cmd.io == LbIo::Finish(Err::<crate::reconcilers::ReconcileAction, crate::error::OperatorError>(e)),
        !(cmd.io is PatchFinalizers),
        effect_models(cmd.effects@) == seq![crate::reconcilers::EffectModel::SetOutcome(crate::metrics::ReconcileOutcome::Error)],
{
}

/// No LoadBalancer step that handles a failed Scaleway delete writes a
/// finalizer list: the finalizer leaves only after a successful delete.
pub proof fn law_lb_finalizer_kept_on_any_failed_delete(
    m0: LbReconciler,
    e: crate::error::OperatorError,
    m1: LbReconciler,
    cmd: LbCommand,
)
    requires
        m0.phase is AwaitDelete,
        lb_transition(m0, LbEvent::Called(Err(e)), m1, cmd),
    ensures
        !(cmd.io is PatchFinalizers),
        !(m1.phase is AwaitFinalizerRemoved),
{
}

// ── A resource found missing is created again ───────────────────────────────

/// The status written after a load balancer is found missing records no
/// Scaleway ID, no address and no project, and is pending again.
pub proof fn law_lb_not_found_status_forgets_the_id(s: Option<crate::resources::LoadBalancerStatus>)
    ensures
        crate::reconcilers::lb_not_found_status(s).scaleway_id is None,
        crate::reconcilers::lb_not_found_status(s).vip_address is None,
        crate::reconcilers::lb_not_found_status(s).project_id is None,
        crate::reconcilers::lb_not_found_status(s).sync_state == "Pending"@,
        crate::reconcilers::lb_not_found_status(s).state == Seq::<char>::empty(),
{
}

/// When the read of a load balancer finds it missing, the step writes a status
/// without Scaleway ID; a later pass on a resource with that status decides no
/// synchronisation: it creates the load balancer again (or first adds the
/// finalizer, checks the role or the project).
pub proof fn law_lb_found_missing_is_recreated(
    m0: LbReconciler,
    id: String,
    m1: LbReconciler,
    cmd: LbCommand,
    later: crate::lb_flow::LbFacts,
    role: String,
    project_id: String,
)
    requires
        m0.phase is AwaitSync,
        lb_transition(m0, LbEvent::Fetched(Err(crate::error::OperatorError::LbNotFound(id))), m1, cmd),
        cmd.io matches LbIo::PatchStatus(st) && later.status == Some(st),
        !later.deletion_requested,
    ensures
        cmd.io matches LbIo::PatchStatus(st) && st.scaleway_id is None,
        !(lb_decision(crate::lb_flow::lb_input(later, role, project_id)) is SyncLoadBalancer),
{
    if let LbIo::PatchStatus(st) = cmd.io {
        assert(crate::resources::opt_view(st.scaleway_id) is None);
    }
}

/// When the read of an instance finds it missing, the step writes a status
/// without Scaleway ID, and a later pass on that status decides no
/// synchronisation.
pub proof fn law_instance_found_missing_is_recreated(
    m0: InstanceReconciler,
    id: String,
    m1: InstanceReconciler,
    cmd: InstanceCommand,
    later: crate::instance_flow::InstanceFacts,
    role: String,
    project_id: String,
)
    requires
        m0.phase is AwaitSync,
        instance_transition(m0, InstanceEvent::Fetched(Err(crate::error::OperatorError::InstanceNotFound(id))), m1, cmd),
        cmd.io matches InstanceIo::PatchStatus(st) && later.status == Some(st),
        !later.deletion_requested,
    ensures
        cmd.io matches InstanceIo::PatchStatus(st) && st.scaleway_id is None,
        !(instance_decision(crate::instance_flow::instance_input(later, role, project_id)) is SyncInstance),
{
    if let InstanceIo::PatchStatus(st) = cmd.io {
        assert(crate::resources::opt_view(st.scaleway_id) is None);
    }
}

// ── Accepted zones and types ────────────────────────────────────────────────

/// The fifteen commercial instance types are accepted.
pub proof fn law_instance_types_accepted()
    ensures
        crate::scaleway::known_instance_type("DEV1-S"@),
        crate::scaleway::known_instance_type("DEV1-M"@),
        crate::scaleway::known_instance_type("DEV1-L"@),
        crate::scaleway::known_instance_type("DEV1-XL"@),
        crate::scaleway::known_instance_type("GP1-XS"@),
        crate::scaleway::known_instance_type("GP1-S"@),
        crate::scaleway::known_instance_type("GP1-M"@),
        crate::scaleway::known_instance_type("GP1-L"@),
        crate::scaleway::known_instance_type("GP1-XL"@),
        crate::scaleway::known_instance_type("CPU1-XS"@),
        crate::scaleway::known_instance_type("CPU1-S"@),
        crate::scaleway::known_instance_type("CPU1-M"@),
        crate::scaleway::known_instance_type("CPU1-L"@),
        crate::scaleway::known_instance_type("GPU-3090"@),
        crate::scaleway::known_instance_type("GPU-4090"@),
{
}

/// The six zones and the two load balancer types are accepted.
pub proof fn law_zones_and_lb_types_accepted()
    ensures
        crate::scaleway::known_zone("fr-par-1"@),
        crate::scaleway::known_zone("fr-par-2"@),
        crate::scaleway::known_zone("nl-ams-1"@),
        crate::scaleway::known_zone("pl-waw-1"@),
        crate::scaleway::known_zone("sg-sin-1"@),
        crate::scaleway::known_zone("it-mil-1"@),
        crate::scaleway::known_lb_type("LB-S"@),
        crate::scaleway::known_lb_type("LB-GP"@),
{
}

/// A specification with an accepted zone and type and a non-empty name passes
/// the checks, whichever of the accepted types it names.
pub proof fn law_valid_instance_spec_passes(spec: crate::resources::InstanceSpec)
    requires
        spec.zone@ == "fr-par-1"@,
        spec.name@.len() > 0,
        spec.instance_type@ == "DEV1-S"@ || spec.instance_type@ == "DEV1-M"@
            || spec.instance_type@ == "DEV1-L"@ || spec.instance_type@ == "DEV1-XL"@
            || spec.instance_type@ == "GP1-XS"@ || spec.instance_type@ == "GP1-S"@
            || spec.instance_type@ == "GP1-M"@ || spec.instance_type@ == "GP1-L"@
            || spec.instance_type@ == "GP1-XL"@ || spec.instance_type@ == "CPU1-XS"@
            || spec.instance_type@ == "CPU1-S"@ || spec.instance_type@ == "CPU1-M"@
            || spec.instance_type@ == "CPU1-L"@ || spec.instance_type@ == "GPU-3090"@
            || spec.instance_type@ == "GPU-4090"@,
    ensures
        crate::reconcilers::instance_spec_check(spec) is None,
{
}

// ── Guarded calls count against the breaker ─────────────────────────────────

/// How a guarded call's result moves the breaker: a success by
/// `phase_after_success`, a transient failure by `phase_after_failure`, a
/// permanent error not at all.
pub open spec fn moved_by<T>(b0: crate::context::CircuitBreakerState, b1: crate::context::CircuitBreakerState, r: crate::error::OperatorResult<T>) -> bool {
    match r {
        Ok(_) => b1.phase() == phase_after_success(b0.phase()),
        Err(e) => if permanent(e@) {
            b1 == b0
        } else {
            b1.phase() == phase_after_failure(b0.phase())
        },
    }
}

/// Every guarded Scaleway call of an Instance pass (project check, creation,
/// read, deletion) moves the breaker by its result.
pub proof fn law_instance_calls_move_the_breaker(
    phase: InstancePhase,
    ev: InstanceEvent,
    b0: crate::context::CircuitBreakerState,
    b1: crate::context::CircuitBreakerState,
)
    requires
        crate::instance_flow::instance_breaker_step(phase, ev, b0, b1),
    ensures
        phase is AwaitProjectAccess || phase is AwaitDelete ==> (ev matches InstanceEvent::Called(r) && moved_by(b0, b1, r)),
        phase is AwaitCreate ==> (ev matches InstanceEvent::Created(r) && moved_by(b0, b1, r)),
        phase is AwaitSync ==> (ev matches InstanceEvent::Fetched(r) && moved_by(b0, b1, r)),
{
}

/// Every Scaleway call of a LoadBalancer pass (project check, search,
/// creation, read, deletion) moves the breaker by its result.
pub proof fn law_lb_calls_move_the_breaker(
    phase: LbPhase,
    ev: LbEvent,
    b0: crate::context::CircuitBreakerState,
    b1: crate::context::CircuitBreakerState,
)
    requires
        crate::lb_flow::lb_breaker_step(phase, ev, b0, b1),
    ensures
        phase is AwaitProjectAccess || phase is AwaitDelete ==> (ev matches LbEvent::Called(r) && moved_by(b0, b1, r)),
        phase is AwaitFind ==> (ev matches LbEvent::Found(r) && moved_by(b0, b1, r)),
        phase is AwaitCreate ==> (ev matches LbEvent::Created(r) && moved_by(b0, b1, r)),
        phase is AwaitSync ==> (ev matches LbEvent::Fetched(r) && moved_by(b0, b1, r)),
{
}

/// A fifth consecutive transient failure of an instance creation opens the
/// circuit.
pub proof fn law_fifth_failed_creation_opens_the_circuit(
    m0: InstanceReconciler,
    e: crate::error::OperatorError,
    b1: crate::context::CircuitBreakerState,
)
    requires
        m0.phase is AwaitCreate,
        crate::instance_flow::instance_breaker_step(
            m0.phase,
            InstanceEvent::Created(Err(e)),
            crate::context::CircuitBreakerState::Closed { failure_count: 4 },
            b1,
        ),
        !permanent(e@),
    ensures
        b1 is Open,
{
}

/// A deletion deletes the Scaleway server recorded in the status: after the
/// namespace's client is built, the delete names that server.
pub proof fn law_instance_deletes_the_recorded_server(
    m0: InstanceReconciler,
    m1: InstanceReconciler,
    c1: InstanceCommand,
    client: crate::scaleway::ScalewayClient,
    m2: InstanceReconciler,
    c2: InstanceCommand,
    id: String,
)
    requires
        m0.phase is Start,
        m0.facts.deletion_requested,
        crate::instance_flow::recorded_id(m0.facts.status) == Some(id),
        instance_transition(m0, InstanceEvent::Begin, m1, c1),
        instance_transition(m1, InstanceEvent::NamespaceClient(Ok(client)), m2, c2),
    ensures
        c1.io is FetchNamespaceClient,
        c2.io == (InstanceIo::Delete { scaleway_id: id }),
        m2.ns_client == Some(client),
{
    let (role, pid) = choose|role: String, pid: String| role@ == Seq::<char>::empty() && pid@ == Seq::<char>::empty() && instance_dispatch(m0.facts, role, pid, m1, c1);
}

/// A deletion deletes the Scaleway load balancer recorded in the status.
pub proof fn law_lb_deletes_the_recorded_load_balancer(
    m0: LbReconciler,
    m1: LbReconciler,
    c1: LbCommand,
    client: crate::scaleway::ScalewayClient,
    m2: LbReconciler,
    c2: LbCommand,
    id: String,
)
    requires
        m0.phase is Start,
        m0.facts.deletion_requested,
        crate::lb_flow::lb_recorded_id(m0.facts.status) == Some(id),
        lb_transition(m0, LbEvent::Begin, m1, c1),
        lb_transition(m1, LbEvent::NamespaceClient(Ok(client)), m2, c2),
    ensures
        c1.io is FetchNamespaceClient,
        c2.io == (LbIo::Delete { scaleway_id: id }),
{
    let (role, pid) = choose|role: String, pid: String| role@ == Seq::<char>::empty() && pid@ == Seq::<char>::empty() && lb_dispatch(m0.facts, role, pid, m1, c1);
}

} // verus!
