//! Shared reconciliation state: the Scaleway circuit breaker, the per-resource
//! retry counters, and the reading of a namespace's project and role.

use std::collections::BTreeMap;
use std::time::{Duration, Instant};
use vstd::prelude::*;
use vstd::hash_map::StringHashMap;
use vstd::string::*;
use crate::error::{OperatorError, OperatorResult};
use crate::text::{cat, cat3};

verus! {

#[verifier::external_type_specification]
#[verifier::external_body]
pub struct ExInstant(std::time::Instant);

/// Namespace annotation that names the Scaleway project of the namespace.
pub const SCALEWAY_PROJECT_ANNOTATION: &'static str = "scaleway.mathieubodin.io/project-id";

/// Consecutive transient failures after which the circuit opens.
pub const CIRCUIT_FAILURE_THRESHOLD: u32 = 5;

/// Seconds an open circuit stays open before a trial call is let through.
pub const CIRCUIT_OPEN_TIMEOUT_SECS: u64 = 60;

/// State of the breaker that guards calls to the Scaleway API.
pub enum CircuitBreakerState {
    Closed { failure_count: u32 },
    Open { opened_at: Instant },
    HalfOpen,
}

/// The breaker's state without the time at which it opened.
pub enum CircuitPhase {
    Closed(nat),
    Open,
    HalfOpen,
}

/// Phase reached from `p` by one more transient failure.
pub open spec fn phase_after_failure(p: CircuitPhase) -> CircuitPhase {
    match p {
        CircuitPhase::Closed(c) => if c + 1 >= CIRCUIT_FAILURE_THRESHOLD {
            CircuitPhase::Open
        } else {
            CircuitPhase::Closed(c + 1)
        },
        CircuitPhase::HalfOpen => CircuitPhase::Open,
        CircuitPhase::Open => CircuitPhase::Open,
    }
}

/// Phase reached from `p` by one successful call.
pub open spec fn phase_after_success(p: CircuitPhase) -> CircuitPhase {
    match p {
        CircuitPhase::Closed(_) => CircuitPhase::Closed(0),
        CircuitPhase::HalfOpen => CircuitPhase::Closed(0),
        CircuitPhase::Open => CircuitPhase::Open,
    }
}

/// Phase reached from `p` by `n` consecutive transient failures.
pub open spec fn phase_after_failures(p: CircuitPhase, n: nat) -> CircuitPhase
    decreases n,
{
    if n == 0 {
        p
    } else {
        phase_after_failure(phase_after_failures(p, (n - 1) as nat))
    }
}

/// Reads the monotonic clock (`std::time::Instant::now`). Nothing is claimed of
/// the value read.
#[verifier::external_body]
fn instant_now() -> Instant {
    Instant::now()
}

/// Time elapsed since `t` on the monotonic clock (`Instant::elapsed`). The
/// value depends on the clock; nothing is claimed of it.
#[verifier::external_body]
fn elapsed_since(t: &Instant) -> Duration {
    t.elapsed()
}

/// Whole seconds of a duration (`Duration::as_secs`). The duration is opaque
/// here; nothing is claimed of the result.
#[verifier::external_body]
fn whole_secs(d: &Duration) -> u64 {
    d.as_secs()
}

/// `secs` is what the monotonic clock gave as the whole seconds elapsed since `t`.
pub closed spec fn elapsed_on_clock(t: Instant, secs: u64) -> bool {
    exists|d: Duration|
        #[trigger] call_ensures(elapsed_since, (&t,), d) && call_ensures(whole_secs, (&d,), secs)
}

/// `t` is an instant read from the monotonic clock.
pub closed spec fn read_from_clock(t: Instant) -> bool {
    call_ensures(instant_now, (), t)
}

impl CircuitBreakerState {
    /// A closed circuit never holds the threshold count: it opens on reaching it.
    pub open spec fn wf(&self) -> bool {
        self is Closed ==> self->failure_count < CIRCUIT_FAILURE_THRESHOLD
    }

    pub open spec fn phase(&self) -> CircuitPhase {
        match self {
            CircuitBreakerState::Closed { failure_count } => CircuitPhase::Closed(
                *failure_count as nat,
            ),
            CircuitBreakerState::Open { .. } => CircuitPhase::Open,
            CircuitBreakerState::HalfOpen => CircuitPhase::HalfOpen,
        }
    }

    /// Whether the state is one the breaker can be in (a closed circuit holds
    /// fewer failures than the threshold).
    pub fn is_well_formed(&self) -> (r: bool)
        ensures
            r == self.wf(),
    {
        match self {
            CircuitBreakerState::Closed { failure_count } => *failure_count < CIRCUIT_FAILURE_THRESHOLD,
            _ => true,
        }
    }

    /// A closed breaker with no failure recorded.
    pub fn new() -> (r: Self)
        ensures
            r == (CircuitBreakerState::Closed { failure_count: 0 }),
            r.wf(),
    {
        CircuitBreakerState::Closed { failure_count: 0 }
    }

    /// Decides whether calls are blocked, given the whole seconds elapsed since
    /// the circuit opened: an open circuit stays open before the timeout and
    /// moves to `HalfOpen` once the timeout has elapsed.
    pub fn open_check(&mut self, elapsed: u64) -> (r: bool)
        ensures
            old(self).wf() ==> final(self).wf(),
            match *old(self) {
                CircuitBreakerState::Open { .. } => if elapsed < CIRCUIT_OPEN_TIMEOUT_SECS {
                    r && *final(self) == *old(self)
                } else {
                    !r && *final(self) == CircuitBreakerState::HalfOpen
                },
                _ => !r && *final(self) == *old(self),
            },
    {
        match *self {
            CircuitBreakerState::Open { .. } => {
                if elapsed < CIRCUIT_OPEN_TIMEOUT_SECS {
                    true
                } else {
                    *self = CircuitBreakerState::HalfOpen;
                    false
                }
            },
            _ => false,
        }
    }

    /// Returns true if the circuit is open (Scaleway calls must be blocked).
    /// An open circuit whose timeout has elapsed moves to `HalfOpen` and lets
    /// the call through.
    pub fn is_circuit_open(&mut self) -> (r: bool)
        ensures
            old(self).wf() ==> final(self).wf(),
            r ==> *old(self) is Open && *final(self) == *old(self),
            !r ==> (*old(self) is Open ==> *final(self) == CircuitBreakerState::HalfOpen),
            !r ==> (!(*old(self) is Open) ==> *final(self) == *old(self)),
            *old(self) matches CircuitBreakerState::Open { opened_at } ==> exists|secs: u64|
                #[trigger] elapsed_on_clock(opened_at, secs) && r == (secs < CIRCUIT_OPEN_TIMEOUT_SECS),
    {
        let since = elapsed_since;
        let secs_of = whole_secs;
        let elapsed = match &*self {
            CircuitBreakerState::Open { opened_at } => {
                let d = since(opened_at);
                let secs = secs_of(&d);
                assert(elapsed_on_clock(*opened_at, secs));
                secs
            },
            _ => 0,
        };
        self.open_check(elapsed)
    }

    /// Records a transient failure at time `now`: a closed circuit counts it and
    /// opens at the threshold, a half-open circuit opens again, an open circuit
    /// is left as it is.
    pub fn record_failure_at(&mut self, now: Instant)
        requires
            *old(self) is Closed ==> (*old(self))->failure_count < u32::MAX,
        ensures
            match *old(self) {
                CircuitBreakerState::Closed { failure_count } => if failure_count + 1
                    >= CIRCUIT_FAILURE_THRESHOLD {
                    *final(self) == (CircuitBreakerState::Open { opened_at: now })
                } else {
                    *final(self) == (CircuitBreakerState::Closed {
                        failure_count: (failure_count + 1) as u32,
                    })
                },
                CircuitBreakerState::HalfOpen => *final(self) == (CircuitBreakerState::Open {
                    opened_at: now,
                }),
                CircuitBreakerState::Open { .. } => *final(self) == *old(self),
            },
    {
        match *self {
            CircuitBreakerState::Closed { failure_count } => {
                let count = failure_count + 1;
                if count >= CIRCUIT_FAILURE_THRESHOLD {
                    *self = CircuitBreakerState::Open { opened_at: now };
                } else {
                    *self = CircuitBreakerState::Closed { failure_count: count };
                }
            },
            CircuitBreakerState::HalfOpen => {
                *self = CircuitBreakerState::Open { opened_at: now };
            },
            CircuitBreakerState::Open { .. } => {},
        }
    }

    /// Records a transient Scaleway failure, reading the clock for the opening time.
    pub fn record_scaleway_failure(&mut self)
        requires
            *old(self) is Closed ==> (*old(self))->failure_count < u32::MAX,
        ensures
            old(self).wf() ==> final(self).wf(),
            final(self).phase() == phase_after_failure(old(self).phase()),
            *old(self) is Open ==> *final(self) == *old(self),
            !(*old(self) is Open) ==> (*final(self) matches CircuitBreakerState::Open { opened_at }
                ==> read_from_clock(opened_at)),
    {
        if let CircuitBreakerState::Open { .. } = *self {
            return ;
        }
        let clock = instant_now;
        let now = clock();
        self.record_failure_at(now);
    }

    /// Records a successful Scaleway call: closes a half-open circuit and clears
    /// the failure count of a closed one.
    pub fn record_scaleway_success(&mut self)
        ensures
            final(self).wf(),
            match *old(self) {
                CircuitBreakerState::Open { .. } => *final(self) == *old(self),
                _ => *final(self) == (CircuitBreakerState::Closed { failure_count: 0 }),
            },
            final(self).phase() == phase_after_success(old(self).phase()),
    {
        match *self {
            CircuitBreakerState::HalfOpen => {
                *self = CircuitBreakerState::Closed { failure_count: 0 };
            },
            CircuitBreakerState::Closed { .. } => {
                *self = CircuitBreakerState::Closed { failure_count: 0 };
            },
            CircuitBreakerState::Open { .. } => {},
        }
    }
}

/// Consecutive error counts per resource key.
pub struct RetryCounts {
    counts: StringHashMap<u32>,
}

impl View for RetryCounts {
    type V = Map<Seq<char>, u32>;

    closed spec fn view(&self) -> Map<Seq<char>, u32> {
        self.counts@
    }
}

/// The count recorded for `key`, zero when there is none.
pub open spec fn count_of(m: Map<Seq<char>, u32>, key: Seq<char>) -> nat {
    if m.contains_key(key) {
        m[key] as nat
    } else {
        0
    }
}

impl RetryCounts {
    /// No count recorded.
    pub fn new() -> (r: Self)
        ensures
            r@ == Map::<Seq<char>, u32>::empty(),
    {
        RetryCounts { counts: StringHashMap::new() }
    }

    /// The count recorded for `key`.
    pub fn get(&self, key: &str) -> (r: u32)
        ensures
            r == count_of(self@, key@),
    {
        match self.counts.get(key) {
            Some(c) => *c,
            None => 0,
        }
    }

    /// Increments the consecutive error count of `key` and returns the new value.
    pub fn increment_retry_count(&mut self, key: &str) -> (r: u32)
        requires
            count_of(old(self)@, key@) < u32::MAX,
        ensures
            r == count_of(old(self)@, key@) + 1,
            final(self)@ == old(self)@.insert(key@, r),
    {
        let current = self.get(key);
        let next = current + 1;
        self.counts.insert(String::from_str(key), next);
        next
    }

    /// Clears the count of `key` after a successful reconciliation.
    pub fn reset_retry_count(&mut self, key: &str)
        ensures
            final(self)@ == old(self)@.remove(key@),
    {
        self.counts.remove(key);
    }
}

/// `BTreeMap::get` on a map keyed by `String`, looked up with a `&str`: the
/// value stored under the key with the same characters as `key`, if any.
#[verifier::external_body]
pub(crate) fn string_map_get<'a, V: DeepView>(m: &'a BTreeMap<String, V>, key: &str) -> (r: Option<&'a V>)
    ensures
        r is Some <==> m.deep_view().contains_key(key@),
        r matches Some(v) ==> v.deep_view() == m.deep_view()[key@],
{
    m.get(key)
}

/// Reads the project ID from the namespace annotations.
pub fn extract_project_id_from_namespace(namespace_annotations: &BTreeMap<String, String>) -> (r:
    Option<String>)
    ensures
        r is Some <==> namespace_annotations.deep_view().contains_key(
            SCALEWAY_PROJECT_ANNOTATION@,
        ),
        r matches Some(v) ==> v@ == namespace_annotations.deep_view()[SCALEWAY_PROJECT_ANNOTATION@],
{
    match string_map_get(namespace_annotations, SCALEWAY_PROJECT_ANNOTATION) {
        Some(v) => Some(v.clone()),
        None => None,
    }
}

/// Message of the error raised when a namespace lacks its annotation.
pub open spec fn missing_annotation_message(namespace: Seq<char>) -> Seq<char> {
    "Namespace '"@ + namespace + "' must have annotation 'scaleway.mathieubodin.io/project-id'"@
}

/// Message of the error raised when the namespace itself cannot be read.
pub open spec fn namespace_access_message(namespace: Seq<char>, reason: Seq<char>) -> Seq<char> {
    "Cannot access namespace "@ + namespace + ": "@ + reason
}

/// The project ID of a namespace, from the outcome of reading the namespace:
/// its annotations, or the text of the error met while reading it.
pub fn project_id_from_namespace_lookup(
    namespace: &str,
    lookup: Result<BTreeMap<String, String>, String>,
) -> (r: OperatorResult<String>)
    ensures
        match lookup {
            Err(reason) => r matches Err(e) && e@ == crate::error::ErrorModel::Config(
                namespace_access_message(namespace@, reason@),
            ),
            Ok(ann) => if ann.deep_view().contains_key(SCALEWAY_PROJECT_ANNOTATION@) {
                r matches Ok(p) && p@ == ann.deep_view()[SCALEWAY_PROJECT_ANNOTATION@]
            } else {
                r matches Err(e) && e@ == crate::error::ErrorModel::Config(
                    missing_annotation_message(namespace@),
                )
            },
        },
{
    match lookup {
        Err(reason) => Err(
            OperatorError::ConfigError(cat3("Cannot access namespace ", namespace, ": ").concat(
                reason.as_str(),
            )),
        ),
        Ok(annotations) => match extract_project_id_from_namespace(&annotations) {
            Some(p) => Ok(p),
            None => Err(
                OperatorError::ConfigError(
                    cat3(
                        "Namespace '",
                        namespace,
                        "' must have annotation 'scaleway.mathieubodin.io/project-id'",
                    ),
                ),
            ),
        },
    }
}

/// A hexadecimal digit, in either case.
pub open spec fn is_hex_digit(c: char) -> bool {
    (48 <= c as int <= 57) || (97 <= c as int <= 102) || (65 <= c as int <= 70)
}

/// The simple form of a UUID: 32 hexadecimal digits.
pub open spec fn simple_uuid(s: Seq<char>) -> bool {
    s.len() == 32 && forall|i: int| 0 <= i < 32 ==> is_hex_digit(#[trigger] s[i])
}

/// The hyphenated form of a UUID: hexadecimal digits in groups of 8, 4, 4, 4
/// and 12, separated by '-'.
pub open spec fn hyphenated_uuid(s: Seq<char>) -> bool {
    &&& s.len() == 36
    &&& forall|i: int|
        0 <= i < 36 ==> if i == 8 || i == 13 || i == 18 || i == 23 {
            #[trigger] s[i] == '-'
        } else {
            is_hex_digit(s[i])
        }
}

/// An ASCII letter in lower case; any other character as it is.
pub open spec fn ascii_lower(c: char) -> char {
    if 65 <= c as int <= 90 {
        ((c as int) + 32) as char
    } else {
        c
    }
}

/// The texts that `uuid::Uuid::parse_str` accepts: the simple form, the
/// hyphenated form, the hyphenated form in braces, or the hyphenated form
/// behind a `urn:uuid:` prefix in any case.
pub open spec fn uuid_parses(s: Seq<char>) -> bool {
    ||| simple_uuid(s)
    ||| hyphenated_uuid(s)
    ||| (s.len() == 38 && s[0] == '{' && s[37] == '}' && hyphenated_uuid(s.subrange(1, 37)))
    ||| (s.len() == 45 && s.take(9).map_values(|c: char| ascii_lower(c)) == "urn:uuid:"@
        && hyphenated_uuid(s.skip(9)))
}

/// Calls `uuid::Uuid::parse_str`: it accepts exactly the texts of [`uuid_parses`]
/// (every accepted text is ASCII, so its length in bytes and in characters agree).
#[verifier::external_body]
pub(crate) fn is_valid_uuid(s: &str) -> (r: bool)
    ensures
        r == uuid_parses(s@),
{
    uuid::Uuid::parse_str(s).is_ok()
}

/// Message of the error raised when the project annotation is not a UUID.
pub open spec fn invalid_uuid_message(pid: Seq<char>) -> Seq<char> {
    "Annotation 'scaleway.mathieubodin.io/project-id' must be a valid UUID, got: '"@ + pid + "'"@
}

/// Accepts a project ID only when it is a UUID, which keeps it from injecting
/// anything into Scaleway URLs.
pub fn check_project_id_format(pid: String) -> (r: OperatorResult<String>)
    ensures
        uuid_parses(pid@) ==> r == Ok::<String, OperatorError>(pid),
        !uuid_parses(pid@) ==> (r matches Err(e) && e@ == crate::error::ErrorModel::Config(
            invalid_uuid_message(pid@),
        )),
{
    if is_valid_uuid(pid.as_str()) {
        Ok(pid)
    } else {
        Err(
            OperatorError::ConfigError(
                cat3(
                    "Annotation 'scaleway.mathieubodin.io/project-id' must be a valid UUID, got: '",
                    pid.as_str(),
                    "'",
                ),
            ),
        )
    }
}

/// Message of the error raised when a namespace has no NamespaceRole.
pub open spec fn missing_role_message(namespace: Seq<char>) -> Seq<char> {
    "No NamespaceRole found for namespace '"@ + namespace
        + "'. Create a NamespaceRole resource with name '"@ + namespace
        + "' to assign a Scaleway role."@
}

/// The API status code carried by a Kubernetes error, when it is an API
/// error (`kube::Error::Api`). Nothing is claimed of the outcome: the error is
/// opaque here.
#[verifier::external_body]
pub(crate) fn kube_api_error_code(e: &kube::Error) -> Option<u16> {
    match e {
        kube::Error::Api(status) => Some(status.code),
        _ => None,
    }
}

/// The role of a namespace from the outcome of reading its NamespaceRole and
/// the API status code of the error, if any: a 404 means that no NamespaceRole
/// exists, any other error is passed on.
pub fn role_lookup_outcome(
    namespace: &str,
    lookup: Result<String, kube::Error>,
    api_code: Option<u16>,
) -> (r: OperatorResult<String>)
    ensures
        match lookup {
            Ok(role) => r == Ok::<String, OperatorError>(role),
            Err(e) => if api_code == Some(404u16) {
                r matches Err(x) && x@ == crate::error::ErrorModel::Config(
                    missing_role_message(namespace@),
                )
            } else {
                r matches Err(x) && x == OperatorError::KubeError(e)
            },
        },
{
    match lookup {
        Ok(role) => Ok(role),
        Err(e) => {
            if api_code == Some(404u16) {
                Err(
                    OperatorError::ConfigError(
                        cat3(
                            "No NamespaceRole found for namespace '",
                            namespace,
                            "'. Create a NamespaceRole resource with name '",
                        ).concat(namespace).concat("' to assign a Scaleway role."),
                    ),
                )
            } else {
                Err(OperatorError::KubeError(e))
            }
        },
    }
}

/// The role of a namespace from the outcome of reading its NamespaceRole.
pub fn namespace_role_from_lookup(namespace: &str, lookup: Result<String, kube::Error>) -> (r:
    OperatorResult<String>)
    ensures
        match lookup {
            Ok(role) => r == Ok::<String, OperatorError>(role),
            Err(e) => r matches Err(x) && (x == OperatorError::KubeError(e) || x@
                == crate::error::ErrorModel::Config(missing_role_message(namespace@))),
        },
{
    let code = match &lookup {
        Err(e) => kube_api_error_code(e),
        Ok(_) => None,
    };
    role_lookup_outcome(namespace, lookup, code)
}

} // verus!
