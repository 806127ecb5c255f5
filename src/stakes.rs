use vstd::prelude::*;

verus! {

/// How the relay's identity counts towards stake-weighted connections.
#[derive(Clone, Copy, Debug, PartialEq, Eq, Structural)]
pub enum PeerType {
    Unstaked,
    Staked,
}

/// The stake of the relay's identity, with the smallest, largest and total
/// activated stake of the current vote accounts.
#[derive(Clone, Copy, Debug, PartialEq, Eq, Structural)]
pub struct IdentityStakes {
    pub peer_type: PeerType,
    pub stakes: u64,
    pub total_stakes: u64,
    pub min_stakes: u64,
    pub max_stakes: u64,
}

impl Default for IdentityStakes {
    fn default() -> (r: Self)
        ensures
            r == (IdentityStakes {
                peer_type: PeerType::Unstaked,
                stakes: 0,
                total_stakes: 0,
                min_stakes: 0,
                max_stakes: 0,
            }),
    {
        IdentityStakes { peer_type: PeerType::Unstaked, stakes: 0, total_stakes: 0, min_stakes: 0, max_stakes: 0 }
    }
}

/// One current vote account: the validator's identity and its activated stake.
#[derive(Clone, Debug)]
pub struct VoteAccount {
    pub node_pubkey: String,
    pub activated_stake: u64,
}

/// The stake of the last of the first `k` accounts whose identity is `id`.
pub open spec fn stake_of(v: Seq<VoteAccount>, id: Seq<char>, k: int) -> Option<u64>
    decreases k,
{
    if k <= 0 || v.len() < k {
        None
    } else if v[k - 1].node_pubkey@ == id {
        Some(v[k - 1].activated_stake)
    } else {
        stake_of(v, id, k - 1)
    }
}

/// Sum of the stakes of the first `k` accounts.
pub open spec fn stake_sum(v: Seq<VoteAccount>, k: int) -> int
    decreases k,
{
    if k <= 0 || v.len() < k {
        0
    } else {
        stake_sum(v, k - 1) + v[k - 1].activated_stake
    }
}

/// Smallest stake of the first `k` accounts (zero for none).
pub open spec fn stake_min(v: Seq<VoteAccount>, k: int) -> u64
    decreases k,
{
    if k <= 0 || v.len() < k {
        0
    } else if k == 1 || v[k - 1].activated_stake < stake_min(v, k - 1) {
        v[k - 1].activated_stake
    } else {
        stake_min(v, k - 1)
    }
}

/// Largest stake of the first `k` accounts (zero for none).
pub open spec fn stake_max(v: Seq<VoteAccount>, k: int) -> u64
    decreases k,
{
    if k <= 0 || v.len() < k {
        0
    } else if k == 1 || v[k - 1].activated_stake > stake_max(v, k - 1) {
        v[k - 1].activated_stake
    } else {
        stake_max(v, k - 1)
    }
}

proof fn lemma_stake_sum_mono(v: Seq<VoteAccount>, j: int, k: int)
    requires
        0 <= j <= k <= v.len(),
    ensures
        0 <= stake_sum(v, j) <= stake_sum(v, k),
    decreases k - j,
{
    if j < k {
        lemma_stake_sum_mono(v, j, k - 1);
    } else {
        lemma_stake_sum_nonneg(v, j);
    }
}

proof fn lemma_stake_sum_nonneg(v: Seq<VoteAccount>, k: int)
    requires
        0 <= k <= v.len(),
    ensures
        0 <= stake_sum(v, k),
    decreases k,
{
    if k > 0 {
        lemma_stake_sum_nonneg(v, k - 1);
    }
}

pub struct SolanaUtils;

impl SolanaUtils {
    /// The stakes of `identity` among the current vote accounts. When some
    /// account has that identity (the last such one counts), the result is
    /// staked with its stake and the smallest, largest and total stake of all
    /// accounts; otherwise it is the unstaked default.
    pub fn get_stakes_for_identity(vote_accounts: &Vec<VoteAccount>, identity: &String) -> (r: IdentityStakes)
        requires
            stake_sum(vote_accounts@, vote_accounts@.len() as int) <= u64::MAX,
        ensures
            ({
                let v = vote_accounts@;
                let n = v.len() as int;
                match stake_of(v, identity@, n) {
                    Some(s) => r == (IdentityStakes {
                        peer_type: PeerType::Staked,
                        stakes: s,
                        total_stakes: stake_sum(v, n) as u64,
                        min_stakes: stake_min(v, n),
                        max_stakes: stake_max(v, n),
                    }),
                    None => r == (IdentityStakes {
                        peer_type: PeerType::Unstaked,
                        stakes: 0,
                        total_stakes: 0,
                        min_stakes: 0,
                        max_stakes: 0,
                    }),
                }
            }),
    {
        let ghost v = vote_accounts@;
        let mut found: Option<u64> = None;
        let mut total: u64 = 0;
        let mut min: u64 = 0;
        let mut max: u64 = 0;
        let mut i: usize = 0;
        while i < vote_accounts.len()
            invariant
                v == vote_accounts@,
                i <= v.len(),
                stake_sum(v, v.len() as int) <= u64::MAX,
                found == stake_of(v, identity@, i as int),
                total as int == stake_sum(v, i as int),
                min == stake_min(v, i as int),
                max == stake_max(v, i as int),
            decreases v.len() - i,
        {
            proof {
                lemma_stake_sum_mono(v, i + 1, v.len() as int);
            }
            let stake = vote_accounts[i].activated_stake;
            if vote_accounts[i].node_pubkey == *identity {
                found = Some(stake);
            }
            total = total + stake;
            if i == 0 || stake < min {
                min = stake;
            }
            if i == 0 || stake > max {
                max = stake;
            }
            i = i + 1;
        }
        match found {
            Some(stakes) => IdentityStakes {
                peer_type: PeerType::Staked,
                stakes,
                total_stakes: total,
                min_stakes: min,
                max_stakes: max,
            },
            None => IdentityStakes::default(),
        }
    }
}

} // verus!
