use lite_rpc_relay::{IdentityStakes, PeerType, SolanaUtils, VoteAccount};

fn account(key: &str, stake: u64) -> VoteAccount {
    VoteAccount { node_pubkey: key.to_string(), activated_stake: stake }
}

#[test]
fn staked_identity_gets_cluster_totals() {
    let accounts = vec![account("a", 30), account("me", 50), account("b", 10), account("c", 90)];
    let s = SolanaUtils::get_stakes_for_identity(&accounts, &"me".to_string());
    assert_eq!(
        s,
        IdentityStakes {
            peer_type: PeerType::Staked,
            stakes: 50,
            total_stakes: 180,
            min_stakes: 10,
            max_stakes: 90,
        }
    );
}

#[test]
fn unknown_identity_is_unstaked() {
    let accounts = vec![account("a", 30), account("b", 10)];
    let s = SolanaUtils::get_stakes_for_identity(&accounts, &"me".to_string());
    assert_eq!(s, IdentityStakes::default());
    assert_eq!(s.peer_type, PeerType::Unstaked);
    assert_eq!(s.total_stakes, 0);
}

#[test]
fn last_account_of_an_identity_counts() {
    let accounts = vec![account("me", 5), account("x", 1), account("me", 8)];
    let s = SolanaUtils::get_stakes_for_identity(&accounts, &"me".to_string());
    assert_eq!(s.stakes, 8);
    assert_eq!(s.total_stakes, 14);
}
