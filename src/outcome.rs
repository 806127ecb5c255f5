use vstd::prelude::*;

verus! {

/// How irreversible an observed inclusion is.
#[derive(Clone, Copy, Debug, PartialEq, Eq, Structural)]
pub enum ConfirmationLevel {
    Processed,
    Confirmed,
    Finalized,
}

impl ConfirmationLevel {
    pub open spec fn spec_meets_confirmed(self) -> bool {
        self is Confirmed || self is Finalized
    }

    /// The level reaches the "confirmed" threshold (confirmed or finalized).
    pub fn meets_confirmed(&self) -> (r: bool)
        ensures
            r == self.spec_meets_confirmed(),
    {
        match self {
            ConfirmationLevel::Processed => false,
            _ => true,
        }
    }
}

/// What an endpoint reports for one signature that it has seen.
#[derive(Clone, Copy, Debug, PartialEq, Eq, Structural)]
pub struct SignatureStatus {
    pub slot: u64,
    pub level: ConfirmationLevel,
}

/// Why an endpoint did not accept a transaction.
#[derive(Clone, Copy, Debug, PartialEq, Eq, Structural)]
pub enum SendErrorKind {
    Io,
    Transport,
    Rpc,
    Serialization,
    Signing,
    Transaction,
    Other,
}

/// The immediate result of submitting one transaction.
#[derive(Clone, Copy, Debug, PartialEq, Eq, Structural)]
pub enum SendOutcome {
    Accepted,
    Rejected(SendErrorKind),
}

/// The terminal fate of one transaction. Durations are in milliseconds since
/// polling began.
#[derive(Clone, Copy, Debug, PartialEq, Eq, Structural)]
pub enum ConfirmationRecord {
    SendError(SendErrorKind),
    Success { sent_slot: u64, landed_slot: u64, level: ConfirmationLevel, elapsed_ms: u64 },
    Timeout { elapsed_ms: u64 },
}

/// Where one accepted transaction stands while its confirmation is awaited.
#[derive(Clone, Copy, Debug, PartialEq, Eq, Structural)]
pub enum TxState {
    Pending,
    Resolved(ConfirmationRecord),
}

/// Number of accepted sends among the first `k` outcomes.
pub open spec fn accepted_before(o: Seq<SendOutcome>, k: int) -> nat
    decreases k,
{
    if k <= 0 || o.len() < k {
        0
    } else {
        accepted_before(o, k - 1) + if o[k - 1] is Accepted { 1nat } else { 0nat }
    }
}

/// Number of accepted sends.
pub open spec fn accepted_count(o: Seq<SendOutcome>) -> nat {
    accepted_before(o, o.len() as int)
}

/// Number of rejected sends.
pub open spec fn rejected_count(o: Seq<SendOutcome>) -> nat {
    (o.len() - accepted_count(o)) as nat
}

pub proof fn lemma_accepted_before_bounds(o: Seq<SendOutcome>, k: int)
    requires
        0 <= k <= o.len(),
    ensures
        accepted_before(o, k) <= k,
        forall|j: int| 0 <= j <= k ==> #[trigger] accepted_before(o, j) <= accepted_before(o, k),
    decreases k,
{
    if k > 0 {
        lemma_accepted_before_bounds(o, k - 1);
    }
}

} // verus!
