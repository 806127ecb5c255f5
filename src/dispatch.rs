use vstd::prelude::*;
use crate::outcome::{
    accepted_before, accepted_count, lemma_accepted_before_bounds, rejected_count, SendOutcome,
};

verus! {

/// A batch in which some sends were rejected: `failed` of `total`.
#[derive(Clone, Copy, Debug, PartialEq, Eq, Structural)]
pub struct BatchSendError {
    pub failed: usize,
    pub total: usize,
}

/// Decides whether a sent batch goes on to confirmation polling. Every send
/// accepted: `Ok` with the number accepted. Any send rejected: the batch fails
/// as a whole, with the number of rejected sends and the batch size.
pub fn check_batch(outcomes: &Vec<SendOutcome>) -> (r: Result<usize, BatchSendError>)
    ensures
        rejected_count(outcomes@) == 0 <==> r is Ok,
        r is Ok ==> r->Ok_0 == outcomes@.len() && r->Ok_0 == accepted_count(outcomes@),
        r is Err ==> r->Err_0 == (BatchSendError {
            failed: rejected_count(outcomes@) as usize,
            total: outcomes@.len() as usize,
        }),
{
    let mut ok: usize = 0;
    let mut i: usize = 0;
    proof {
        lemma_accepted_before_bounds(outcomes@, outcomes@.len() as int);
    }
    while i < outcomes.len()
        invariant
            i <= outcomes@.len(),
            ok == accepted_before(outcomes@, i as int),
            ok <= i,
        decreases outcomes@.len() - i,
    {
        if outcomes[i] == SendOutcome::Accepted {
            ok = ok + 1;
        }
        i = i + 1;
    }
    proof {
        lemma_accepted_before_bounds(outcomes@, outcomes@.len() as int);
    }
    let failed = outcomes.len() - ok;
    if failed > 0 {
        Err(BatchSendError { failed, total: outcomes.len() })
    } else {
        Ok(ok)
    }
}

/// Slots that passed while a batch was sent, from the slot seen before the
/// burst and the one seen after it; none when the second is behind.
pub fn slots_passed(before: u64, after: u64) -> (r: Option<u64>)
    ensures
        after >= before ==> r == Some((after - before) as u64),
        after < before ==> r is None,
{
    if after >= before {
        Some(after - before)
    } else {
        None
    }
}

} // verus!
