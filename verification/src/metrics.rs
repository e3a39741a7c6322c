//! Outcome of a reconcile pass, used as the `outcome` label of the duration histogram.

use vstd::prelude::*;
use vstd::string::*;

verus! {

/// Outcome of a reconcile loop iteration.
#[derive(Debug, Clone, Copy, PartialEq, Eq, Structural)]
pub enum ReconcileOutcome {
    Created,
    Synced,
    Adopted,
    Deleted,
    Error,
}

/// The label text of each outcome.
pub open spec fn outcome_label(o: ReconcileOutcome) -> Seq<char> {
    match o {
        ReconcileOutcome::Created => "Created"@,
        ReconcileOutcome::Synced => "Synced"@,
        ReconcileOutcome::Adopted => "Adopted"@,
        ReconcileOutcome::Deleted => "Deleted"@,
        ReconcileOutcome::Error => "Error"@,
    }
}

impl ReconcileOutcome {
    pub fn as_str(&self) -> (r: &'static str)
        ensures
            r@ == outcome_label(*self),
    {
        match self {
            ReconcileOutcome::Created => "Created",
            ReconcileOutcome::Synced => "Synced",
            ReconcileOutcome::Adopted => "Adopted",
            ReconcileOutcome::Deleted => "Deleted",
            ReconcileOutcome::Error => "Error",
        }
    }

    /// The displayed text of the outcome (its label).
    pub fn to_string(&self) -> (r: String)
        ensures
            r@ == outcome_label(*self),
    {
        String::from_str(self.as_str())
    }

    /// Whether a pass with this outcome counts as progress for readiness:
    /// every outcome but `Error`.
    pub fn marks_progress(&self) -> (r: bool)
        ensures
            r == (*self != ReconcileOutcome::Error),
    {
        !matches!(self, ReconcileOutcome::Error)
    }
}

/// Seconds after the last progress during which the operator counts as ready.
pub const READINESS_WINDOW_SECS: i64 = 60;

/// Readiness from the Unix time of the last progress (0 when there was none)
/// and the current Unix time: ready when some progress was made less than
/// 60 s ago.
pub fn is_ready(last_reconcile_at: i64, now: i64) -> (r: bool)
    ensures
        r == (last_reconcile_at != 0 && now - last_reconcile_at < READINESS_WINDOW_SECS),
{
    if last_reconcile_at == 0 {
        return false;
    }
    (now as i128) - (last_reconcile_at as i128) < (READINESS_WINDOW_SECS as i128)
}

/// Every label is non-empty and free of spaces.
pub proof fn lemma_outcome_labels_are_single_words(o: ReconcileOutcome)
    ensures
        outcome_label(o).len() > 0,
        !outcome_label(o).contains(' '),
{
    reveal_strlit("Created");
    reveal_strlit("Synced");
    reveal_strlit("Adopted");
    reveal_strlit("Deleted");
    reveal_strlit("Error");
    match o {
        ReconcileOutcome::Created => {
            assert(!"Created"@.contains(' '));
        },
        ReconcileOutcome::Synced => {},
        ReconcileOutcome::Adopted => {},
        ReconcileOutcome::Deleted => {},
        ReconcileOutcome::Error => {},
    }
}

} // verus!
