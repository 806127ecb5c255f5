use vstd::prelude::*;
use crate::schedule::LinearSchedule;
use crate::outcome::{
    accepted_before, accepted_count, lemma_accepted_before_bounds, ConfirmationRecord,
    SendOutcome, SignatureStatus, TxState,
};

verus! {

/// Round cap of batch polling.
pub const MAX_ROUNDS: u64 = 100;

/// Milliseconds between the planned starts of two polling rounds.
pub const ROUND_INTERVAL_MS: u64 = 200;

/// Number of pending entries among the first `k`.
pub open spec fn pending_prefix(s: Seq<TxState>, k: int) -> nat
    decreases k,
{
    if k <= 0 || s.len() < k {
        0
    } else {
        pending_prefix(s, k - 1) + if s[k - 1] is Pending { 1nat } else { 0nat }
    }
}

/// Number of resolved entries among the first `k`.
pub open spec fn resolved_prefix(s: Seq<TxState>, k: int) -> nat
    decreases k,
{
    if k <= 0 || s.len() < k {
        0
    } else {
        resolved_prefix(s, k - 1) + if s[k - 1] is Resolved { 1nat } else { 0nat }
    }
}

pub open spec fn pending_count(s: Seq<TxState>) -> nat {
    pending_prefix(s, s.len() as int)
}

pub open spec fn resolved_count(s: Seq<TxState>) -> nat {
    resolved_prefix(s, s.len() as int)
}

/// The record of a signature that was seen at a confirmed level.
pub open spec fn success_record(send_slot: u64, st: SignatureStatus, elapsed_ms: u64) -> ConfirmationRecord {
    ConfirmationRecord::Success {
        sent_slot: send_slot,
        landed_slot: st.slot,
        level: st.level,
        elapsed_ms,
    }
}

/// One status response applied to entry `i`: a pending entry whose status has
/// reached the confirmed threshold becomes resolved; anything else stays.
pub open spec fn apply_one(
    s: Seq<TxState>,
    i: int,
    resp: Option<SignatureStatus>,
    send_slot: u64,
    elapsed_ms: u64,
) -> Seq<TxState> {
    match resp {
        Some(st) => if 0 <= i < s.len() && s[i] is Pending && st.level.spec_meets_confirmed() {
            s.update(i, TxState::Resolved(success_record(send_slot, st, elapsed_ms)))
        } else {
            s
        },
        None => s,
    }
}

/// The first `k` responses of a round applied in order.
pub open spec fn apply_round(
    s: Seq<TxState>,
    queried: Seq<usize>,
    resps: Seq<Option<SignatureStatus>>,
    send_slot: u64,
    elapsed_ms: u64,
    k: int,
) -> Seq<TxState>
    decreases k,
{
    if k <= 0 {
        s
    } else {
        apply_one(
            apply_round(s, queried, resps, send_slot, elapsed_ms, k - 1),
            queried[k - 1] as int,
            resps[k - 1],
            send_slot,
            elapsed_ms,
        )
    }
}

/// Some response among the first `k` answers for entry `i` at a confirmed level.
pub open spec fn confirmed_answer(
    queried: Seq<usize>,
    resps: Seq<Option<SignatureStatus>>,
    i: int,
    k: int,
) -> bool {
    exists|m: int|
        0 <= m < k && queried[m] as int == i && #[trigger] resps[m] is Some
            && resps[m]->Some_0.level.spec_meets_confirmed()
}

/// A resolved entry stays as it is, and so does the length.
pub open spec fn keeps_resolved(before: Seq<TxState>, after: Seq<TxState>) -> bool {
    &&& after.len() == before.len()
    &&& forall|i: int| 0 <= i < before.len() && before[i] is Resolved ==> #[trigger] after[i] == before[i]
}

/// What the planner does after a polling round.
#[derive(Clone, Copy, Debug, PartialEq, Eq, Structural)]
pub enum RoundStep {
    /// Nothing is pending any more; `rounds` rounds were used.
    AllConfirmed { rounds: u64 },
    /// The round cap was reached with entries still pending.
    OutOfRounds { rounds: u64 },
    /// Sleep until `until_ms` after the start of polling, then poll again.
    Wait { until_ms: u64 },
}

/// Confirmation tracking of a batch of accepted transactions, entry `i` for
/// the `i`-th accepted one. Each entry is either pending or resolved, so the
/// pending and resolved entries always add up to the accepted count.
pub struct ConfirmationPoller {
    send_slot: u64,
    states: Vec<TxState>,
    schedule: LinearSchedule,
}

impl ConfirmationPoller {
    pub closed spec fn spec_states(&self) -> Seq<TxState> {
        self.states@
    }

    pub closed spec fn spec_round(&self) -> u64 {
        self.schedule.spec_round()
    }

    pub closed spec fn spec_send_slot(&self) -> u64 {
        self.send_slot
    }

    pub closed spec fn wf(&self) -> bool {
        &&& self.schedule.wf()
        &&& self.schedule.spec_limit() == MAX_ROUNDS
        &&& self.schedule.spec_step_ms() == ROUND_INTERVAL_MS
        &&& 1 <= self.spec_round() <= MAX_ROUNDS
    }

    /// Starts tracking `accepted` transactions sent at `send_slot`, all pending,
    /// in round one.
    pub fn new(send_slot: u64, accepted: usize) -> (r: Self)
        ensures
            r.wf(),
            r.spec_round() == 1,
            r.spec_send_slot() == send_slot,
            r.spec_states().len() == accepted,
            forall|i: int| 0 <= i < accepted ==> #[trigger] r.spec_states()[i] == TxState::Pending,
    {
        let mut states: Vec<TxState> = Vec::new();
        let mut i: usize = 0;
        while i < accepted
            invariant
                i <= accepted,
                states@.len() == i,
                forall|j: int| 0 <= j < i ==> #[trigger] states@[j] == TxState::Pending,
            decreases accepted - i,
        {
            states.push(TxState::Pending);
            i = i + 1;
        }
        ConfirmationPoller {
            send_slot,
            states,
            schedule: LinearSchedule::new(ROUND_INTERVAL_MS, MAX_ROUNDS),
        }
    }

    /// The round about to be polled (from one).
    pub fn round(&self) -> (r: u64)
        ensures
            r == self.spec_round(),
    {
        self.schedule.round()
    }

    /// Number of tracked transactions.
    pub fn len(&self) -> (r: usize)
        ensures
            r == self.spec_states().len(),
    {
        self.states.len()
    }

    /// The state of entry `i`.
    pub fn state(&self, i: usize) -> (r: TxState)
        requires
            i < self.spec_states().len(),
        ensures
            r == self.spec_states()[i as int],
    {
        self.states[i]
    }

    /// The record of resolved entry `i`.
    pub fn record(&self, i: usize) -> (r: ConfirmationRecord)
        requires
            i < self.spec_states().len(),
            self.spec_states()[i as int] is Resolved,
        ensures
            self.spec_states()[i as int] == TxState::Resolved(r),
    {
        match self.states[i] {
            TxState::Resolved(rec) => rec,
            TxState::Pending => vstd::pervasive::unreached(),
        }
    }

    /// The entries still pending, in ascending order: the batch of the next
    /// status query.
    pub fn pending(&self) -> (r: Vec<usize>)
        ensures
            forall|a: int, b: int| 0 <= a < b < r@.len() ==> #[trigger] r@[a] < #[trigger] r@[b],
            forall|a: int|
                0 <= a < r@.len() ==> #[trigger] r@[a] < self.spec_states().len()
                    && self.spec_states()[r@[a] as int] is Pending,
            forall|i: int|
                0 <= i < self.spec_states().len() && #[trigger] self.spec_states()[i] is Pending
                    ==> r@.contains(i as usize),
    {
        let mut r: Vec<usize> = Vec::new();
        let mut i: usize = 0;
        while i < self.states.len()
            invariant
                i <= self.states@.len(),
                forall|a: int, b: int| 0 <= a < b < r@.len() ==> #[trigger] r@[a] < #[trigger] r@[b],
                forall|a: int|
                    0 <= a < r@.len() ==> #[trigger] r@[a] < i && self.states@[r@[a] as int] is Pending,
                forall|j: int|
                    0 <= j < i && #[trigger] self.states@[j] is Pending ==> r@.contains(j as usize),
            decreases self.states@.len() - i,
        {
            if self.states[i] == TxState::Pending {
                let ghost before = r@;
                r.push(i);
                proof {
                    assert forall|j: int|
                        0 <= j < i + 1 && #[trigger] self.states@[j] is Pending implies r@.contains(
                        j as usize,
                    ) by {
                        if j < i {
                            let w = choose|w: int| 0 <= w < before.len() && before[w] == j as usize;
                            assert(r@[w] == j as usize);
                        } else {
                            assert(r@[before.len() as int] == i);
                        }
                    }
                }
            }
            i = i + 1;
        }
        r
    }

    /// Applies the status responses of one round: `statuses[k]` answers for
    /// entry `queried[k]`. A pending entry seen at a confirmed level is resolved
    /// with a success record stamped `elapsed_ms`; an entry seen below that
    /// level, or not seen, stays pending; a resolved entry never changes, even
    /// when a response repeats.
    pub fn record_statuses(
        &mut self,
        queried: &Vec<usize>,
        statuses: &Vec<Option<SignatureStatus>>,
        elapsed_ms: u64,
    )
        requires
            queried@.len() == statuses@.len(),
            forall|k: int| 0 <= k < queried@.len() ==> #[trigger] queried@[k] < old(self).spec_states().len(),
        ensures
            final(self).spec_states() == apply_round(
                old(self).spec_states(),
                queried@,
                statuses@,
                old(self).spec_send_slot(),
                elapsed_ms,
                queried@.len() as int,
            ),
            keeps_resolved(old(self).spec_states(), final(self).spec_states()),
            forall|i: int|
                0 <= i < old(self).spec_states().len() ==> (#[trigger] final(self).spec_states()[i] is Pending
                    <==> (old(self).spec_states()[i] is Pending && !confirmed_answer(queried@, statuses@, i, queried@.len() as int))),
            final(self).wf() == old(self).wf(),
            final(self).spec_round() == old(self).spec_round(),
            final(self).spec_send_slot() == old(self).spec_send_slot(),
    {
        let ghost s0 = self.states@;
        proof {
            lemma_round_pointwise(s0, queried@, statuses@, self.send_slot, elapsed_ms, queried@.len() as int);
        }
        let mut k: usize = 0;
        while k < queried.len()
            invariant
                k <= queried@.len(),
                queried@.len() == statuses@.len(),
                forall|m: int| 0 <= m < queried@.len() ==> #[trigger] queried@[m] < s0.len(),
                self.states@ == apply_round(s0, queried@, statuses@, self.send_slot, elapsed_ms, k as int),
                keeps_resolved(s0, self.states@),
                self.schedule == old(self).schedule,
                self.send_slot == old(self).send_slot,
            decreases queried@.len() - k,
        {
            let i = queried[k];
            match statuses[k] {
                Some(st) => {
                    if self.states[i] == TxState::Pending && st.level.meets_confirmed() {
                        let rec = ConfirmationRecord::Success {
                            sent_slot: self.send_slot,
                            landed_slot: st.slot,
                            level: st.level,
                            elapsed_ms,
                        };
                        self.states.set(i, TxState::Resolved(rec));
                    }
                },
                None => {},
            }
            k = k + 1;
        }
    }

    /// Whether no entry is pending.
    pub fn is_complete(&self) -> (r: bool)
        ensures
            r == (forall|i: int| 0 <= i < self.spec_states().len() ==> #[trigger] self.spec_states()[i] is Resolved),
    {
        let mut i: usize = 0;
        while i < self.states.len()
            invariant
                i <= self.states@.len(),
                forall|j: int| 0 <= j < i ==> #[trigger] self.states@[j] is Resolved,
            decreases self.states@.len() - i,
        {
            if self.states[i] == TxState::Pending {
                return false;
            }
            i = i + 1;
        }
        true
    }

    /// Decides what follows a round: done when nothing is pending, out of
    /// rounds at the cap, else wait until `round * 200` ms after the start of
    /// polling and go on with the next round.
    pub fn finish_round(&mut self) -> (r: RoundStep)
        requires
            old(self).wf(),
        ensures
            final(self).wf(),
            final(self).spec_states() == old(self).spec_states(),
            final(self).spec_send_slot() == old(self).spec_send_slot(),
            (forall|i: int| 0 <= i < old(self).spec_states().len() ==> #[trigger] old(self).spec_states()[i] is Resolved)
                ==> r == (RoundStep::AllConfirmed { rounds: old(self).spec_round() })
                    && final(self).spec_round() == old(self).spec_round(),
            !(forall|i: int| 0 <= i < old(self).spec_states().len() ==> #[trigger] old(self).spec_states()[i] is Resolved)
                && old(self).spec_round() == MAX_ROUNDS
                ==> r == (RoundStep::OutOfRounds { rounds: MAX_ROUNDS })
                    && final(self).spec_round() == old(self).spec_round(),
            !(forall|i: int| 0 <= i < old(self).spec_states().len() ==> #[trigger] old(self).spec_states()[i] is Resolved)
                && old(self).spec_round() < MAX_ROUNDS
                ==> r == (RoundStep::Wait { until_ms: (old(self).spec_round() * ROUND_INTERVAL_MS) as u64 })
                    && final(self).spec_round() == old(self).spec_round() + 1,
    {
        if self.is_complete() {
            RoundStep::AllConfirmed { rounds: self.schedule.round() }
        } else if self.schedule.is_last() {
            RoundStep::OutOfRounds { rounds: self.schedule.round() }
        } else {
            let until_ms = self.schedule.advance();
            RoundStep::Wait { until_ms }
        }
    }

    /// Gives up on every entry still pending: each becomes a timeout stamped
    /// with the total polling time. Resolved entries stay.
    pub fn expire(&mut self, total_elapsed_ms: u64)
        ensures
            keeps_resolved(old(self).spec_states(), final(self).spec_states()),
            forall|i: int|
                0 <= i < old(self).spec_states().len() && #[trigger] old(self).spec_states()[i] is Pending
                    ==> final(self).spec_states()[i] == TxState::Resolved(
                    ConfirmationRecord::Timeout { elapsed_ms: total_elapsed_ms },
                ),
            forall|i: int| 0 <= i < final(self).spec_states().len() ==> #[trigger] final(self).spec_states()[i] is Resolved,
            final(self).wf() == old(self).wf(),
            final(self).spec_round() == old(self).spec_round(),
            final(self).spec_send_slot() == old(self).spec_send_slot(),
    {
        let mut i: usize = 0;
        while i < self.states.len()
            invariant
                i <= self.states@.len(),
                self.states@.len() == old(self).states@.len(),
                forall|j: int|
                    0 <= j < self.states@.len() && #[trigger] old(self).states@[j] is Resolved
                        ==> self.states@[j] == old(self).states@[j],
                forall|j: int|
                    0 <= j < self.states@.len() && #[trigger] old(self).states@[j] is Pending
                        ==> self.states@[j] == if j < i {
                        TxState::Resolved(ConfirmationRecord::Timeout { elapsed_ms: total_elapsed_ms })
                    } else {
                        TxState::Pending
                    },
                self.schedule == old(self).schedule,
                self.send_slot == old(self).send_slot,
            decreases self.states@.len() - i,
        {
            if self.states[i] == TxState::Pending {
                self.states.set(i, TxState::Resolved(ConfirmationRecord::Timeout { elapsed_ms: total_elapsed_ms }));
            }
            i = i + 1;
        }
    }
}

proof fn lemma_counts_prefix(s: Seq<TxState>, k: int)
    requires
        0 <= k <= s.len(),
    ensures
        pending_prefix(s, k) + resolved_prefix(s, k) == k,
    decreases k,
{
    if k > 0 {
        lemma_counts_prefix(s, k - 1);
    }
}

/// Conservation: at every point, the pending and the resolved entries of a
/// tracker together number exactly the accepted transactions it was made for
/// (no method changes the number of entries).
pub proof fn lemma_conservation(p: &ConfirmationPoller, accepted: nat)
    requires
        p.spec_states().len() == accepted,
    ensures
        pending_count(p.spec_states()) + resolved_count(p.spec_states()) == accepted,
{
    lemma_counts_prefix(p.spec_states(), p.spec_states().len() as int);
}

/// Resolution is final: applying any round of responses, duplicated or
/// stale ones included, leaves every resolved entry as it was and resolves
/// only entries that were pending, each into a single success record.
pub proof fn lemma_resolution_is_final(
    s: Seq<TxState>,
    queried: Seq<usize>,
    resps: Seq<Option<SignatureStatus>>,
    send_slot: u64,
    elapsed_ms: u64,
    k: int,
)
    requires
        0 <= k <= queried.len(),
        queried.len() == resps.len(),
    ensures
        keeps_resolved(s, apply_round(s, queried, resps, send_slot, elapsed_ms, k)),
        forall|i: int|
            0 <= i < s.len() && #[trigger] apply_round(s, queried, resps, send_slot, elapsed_ms, k)[i] is Pending
                ==> s[i] is Pending,
        forall|i: int|
            0 <= i < s.len() && s[i] is Pending
                && #[trigger] apply_round(s, queried, resps, send_slot, elapsed_ms, k)[i] is Resolved
                ==> exists|st: SignatureStatus|
                    st.level.spec_meets_confirmed()
                        && apply_round(s, queried, resps, send_slot, elapsed_ms, k)[i]
                        == TxState::Resolved(success_record(send_slot, st, elapsed_ms)),
    decreases k,
{
    if k > 0 {
        lemma_resolution_is_final(s, queried, resps, send_slot, elapsed_ms, k - 1);
        let prev = apply_round(s, queried, resps, send_slot, elapsed_ms, k - 1);
        let cur = apply_round(s, queried, resps, send_slot, elapsed_ms, k);
        assert forall|i: int|
            0 <= i < s.len() && s[i] is Pending && #[trigger] cur[i] is Resolved implies exists|
            st: SignatureStatus,
        |
            st.level.spec_meets_confirmed() && cur[i] == TxState::Resolved(
                success_record(send_slot, st, elapsed_ms),
            ) by {
            if prev[i] is Resolved {
                let st = choose|st: SignatureStatus|
                    st.level.spec_meets_confirmed() && prev[i] == TxState::Resolved(
                        success_record(send_slot, st, elapsed_ms),
                    );
                assert(cur[i] == prev[i]);
            } else {
                let st = resps[k - 1]->Some_0;
                assert(cur[i] == TxState::Resolved(success_record(send_slot, st, elapsed_ms)));
            }
        }
    }
}

/// Entry by entry, a round leaves pending exactly the entries that were
/// pending and got no answer at a confirmed level.
pub proof fn lemma_round_pointwise(
    s: Seq<TxState>,
    queried: Seq<usize>,
    resps: Seq<Option<SignatureStatus>>,
    send_slot: u64,
    elapsed_ms: u64,
    k: int,
)
    requires
        0 <= k <= queried.len(),
        queried.len() == resps.len(),
    ensures
        apply_round(s, queried, resps, send_slot, elapsed_ms, k).len() == s.len(),
        forall|i: int|
            0 <= i < s.len() ==> (#[trigger] apply_round(s, queried, resps, send_slot, elapsed_ms, k)[i] is Pending
                <==> (s[i] is Pending && !confirmed_answer(queried, resps, i, k))),
    decreases k,
{
    if k > 0 {
        lemma_round_pointwise(s, queried, resps, send_slot, elapsed_ms, k - 1);
        let prev = apply_round(s, queried, resps, send_slot, elapsed_ms, k - 1);
        let cur = apply_round(s, queried, resps, send_slot, elapsed_ms, k);
        assert forall|i: int| 0 <= i < s.len() implies (#[trigger] cur[i] is Pending <==> (s[i] is Pending
            && !confirmed_answer(queried, resps, i, k))) by {
            let last = resps[k - 1];
            let hit = queried[k - 1] as int == i && last is Some && last->Some_0.level.spec_meets_confirmed();
            if hit {
                assert(confirmed_answer(queried, resps, i, k));
            } else {
                assert(cur[i] == prev[i]);
                if confirmed_answer(queried, resps, i, k) {
                    let m = choose|m: int|
                        0 <= m < k && queried[m] as int == i && #[trigger] resps[m] is Some
                            && resps[m]->Some_0.level.spec_meets_confirmed();
                    assert(m != k - 1);
                    assert(confirmed_answer(queried, resps, i, k - 1));
                }
                if confirmed_answer(queried, resps, i, k - 1) {
                    let m = choose|m: int|
                        0 <= m < k - 1 && queried[m] as int == i && #[trigger] resps[m] is Some
                            && resps[m]->Some_0.level.spec_meets_confirmed();
                    assert(confirmed_answer(queried, resps, i, k));
                }
            }
        }
    }
}

/// Merges the send outcomes of a batch, in submission order, with the
/// records of a tracker made for its accepted sends: one terminal record per
/// transaction, the send error for a rejected one, and for the `n`-th accepted
/// one the record of entry `n`.
pub fn aggregate(outcomes: &Vec<SendOutcome>, poller: &ConfirmationPoller) -> (r: Vec<ConfirmationRecord>)
    requires
        poller.spec_states().len() == accepted_count(outcomes@),
        forall|i: int| 0 <= i < poller.spec_states().len() ==> #[trigger] poller.spec_states()[i] is Resolved,
    ensures
        r@.len() == outcomes@.len(),
        forall|i: int|
            0 <= i < outcomes@.len() ==> match #[trigger] outcomes@[i] {
                SendOutcome::Rejected(e) => r@[i] == ConfirmationRecord::SendError(e),
                SendOutcome::Accepted => poller.spec_states()[accepted_before(outcomes@, i) as int]
                    == TxState::Resolved(r@[i]),
            },
{
    let mut r: Vec<ConfirmationRecord> = Vec::new();
    let mut a: usize = 0;
    let mut i: usize = 0;
    while i < outcomes.len()
        invariant
            i <= outcomes@.len(),
            a == accepted_before(outcomes@, i as int),
            r@.len() == i,
            poller.spec_states().len() == accepted_count(outcomes@),
            forall|j: int| 0 <= j < poller.spec_states().len() ==> #[trigger] poller.spec_states()[j] is Resolved,
            forall|j: int|
                0 <= j < i ==> match #[trigger] outcomes@[j] {
                    SendOutcome::Rejected(e) => r@[j] == ConfirmationRecord::SendError(e),
                    SendOutcome::Accepted => poller.spec_states()[accepted_before(outcomes@, j) as int]
                        == TxState::Resolved(r@[j]),
                },
        decreases outcomes@.len() - i,
    {
        proof {
            lemma_accepted_before_bounds(outcomes@, outcomes@.len() as int);
            assert(accepted_before(outcomes@, i + 1) <= accepted_count(outcomes@));
        }
        let ghost old_r = r@;
        let o = outcomes[i];
        match o {
            SendOutcome::Rejected(e) => {
                r.push(ConfirmationRecord::SendError(e));
            },
            SendOutcome::Accepted => {
                r.push(poller.record(a));
                a = a + 1;
            },
        }
        proof {
            assert forall|j: int| 0 <= j < i + 1 implies match #[trigger] outcomes@[j] {
                SendOutcome::Rejected(e) => r@[j] == ConfirmationRecord::SendError(e),
                SendOutcome::Accepted => poller.spec_states()[accepted_before(outcomes@, j) as int]
                    == TxState::Resolved(r@[j]),
            } by {
                if j < i {
                    assert(r@[j] == old_r[j]);
                }
            }
        }
        i = i + 1;
    }
    r
}

} // verus!
