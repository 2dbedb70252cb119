use niffyinsure::address::Address;
use niffyinsure::storage::{self, Storage};
use niffyinsure::types::{Policy, PolicyType, RegionTier, VoteOption};

fn address(tag: &str) -> Address {
    Address::from_strkey(&format!("G{:0>55}", tag))
}

fn policy(holder: &Address, policy_id: u32, coverage: i128) -> Policy {
    Policy {
        holder: holder.clone(),
        policy_id,
        policy_type: PolicyType::Auto,
        region: RegionTier::Low,
        premium: 10,
        coverage,
        is_active: true,
        start_ledger: 0,
        end_ledger: 100,
    }
}

#[test]
fn fresh_store_is_empty() {
    let st = Storage::new();
    assert!(storage::get_voters(&st).is_empty());
    assert!(!storage::is_paused(&st));
    assert!(storage::get_pending_admin(&st).is_none());
    assert!(storage::get_claim(&st, 1).is_none());
    assert!(storage::get_policy(&st, &address("a"), 1).is_none());
}

#[test]
fn policy_reads_back_what_was_written() {
    let mut st = Storage::new();
    let alice = address("alice");
    let bob = address("bob");
    storage::set_policy(&mut st, policy(&alice, 1, 500));
    storage::set_policy(&mut st, policy(&bob, 1, 900));
    assert_eq!(storage::get_policy(&st, &alice, 1).unwrap().coverage, 500);
    assert_eq!(storage::get_policy(&st, &bob, 1).unwrap().coverage, 900);
    assert!(storage::get_policy(&st, &alice, 2).is_none());
    // A second write under the same key replaces the first.
    storage::set_policy(&mut st, policy(&alice, 1, 700));
    assert_eq!(storage::get_policy(&st, &alice, 1).unwrap().coverage, 700);
    assert_eq!(storage::get_policy(&st, &bob, 1).unwrap().coverage, 900);
}

#[test]
fn policy_ids_count_per_holder() {
    let mut st = Storage::new();
    let alice = address("alice");
    let bob = address("bob");
    assert_eq!(storage::next_policy_id(&mut st, &alice), 1);
    assert_eq!(storage::next_policy_id(&mut st, &alice), 2);
    assert_eq!(storage::next_policy_id(&mut st, &bob), 1);
    assert_eq!(storage::next_policy_id(&mut st, &alice), 3);
}

#[test]
fn claim_ids_increase_from_one() {
    let mut st = Storage::new();
    assert_eq!(storage::next_claim_id(&mut st), 1);
    assert_eq!(storage::next_claim_id(&mut st), 2);
    assert_eq!(storage::next_claim_id(&mut st), 3);
}

#[test]
fn voters_are_a_set() {
    let mut st = Storage::new();
    let alice = address("alice");
    let bob = address("bob");
    storage::add_voter(&mut st, &alice);
    storage::add_voter(&mut st, &bob);
    storage::add_voter(&mut st, &alice);
    assert_eq!(storage::get_voters(&st).len(), 2);
    storage::remove_voter(&mut st, &alice);
    let voters = storage::get_voters(&st);
    assert_eq!(voters.len(), 1);
    assert!(voters[0] == bob);
    storage::remove_voter(&mut st, &alice);
    assert_eq!(storage::get_voters(&st).len(), 1);
    storage::set_voters(&mut st, vec![alice.clone()]);
    assert!(storage::contains_address(&storage::get_voters(&st), &alice));
    assert!(!storage::contains_address(&storage::get_voters(&st), &bob));
}

#[test]
fn snapshot_fixes_the_electorate() {
    let mut st = Storage::new();
    let alice = address("alice");
    let bob = address("bob");
    storage::add_voter(&mut st, &alice);
    storage::snapshot_voters_for_claim(&mut st, 1);
    storage::add_voter(&mut st, &bob);
    assert!(storage::is_eligible_voter(&st, 1, &alice));
    assert!(!storage::is_eligible_voter(&st, 1, &bob));
    assert_eq!(storage::get_claim_voters(&st, 1).len(), 1);
    // A claim with no snapshot has no electorate.
    assert!(!storage::is_eligible_voter(&st, 2, &alice));
    assert!(storage::get_claim_voters(&st, 2).is_empty());
}

#[test]
fn ballots_are_kept_per_claim_and_voter() {
    let mut st = Storage::new();
    let alice = address("alice");
    let bob = address("bob");
    assert_eq!(storage::get_vote(&st, 1, &alice), None);
    storage::add_vote(&mut st, 1, &alice, VoteOption::Approve);
    storage::add_vote(&mut st, 2, &alice, VoteOption::Reject);
    storage::add_vote(&mut st, 1, &bob, VoteOption::Reject);
    assert_eq!(storage::get_vote(&st, 1, &alice), Some(VoteOption::Approve));
    assert_eq!(storage::get_vote(&st, 2, &alice), Some(VoteOption::Reject));
    assert_eq!(storage::get_vote(&st, 1, &bob), Some(VoteOption::Reject));
    assert_eq!(storage::get_vote(&st, 2, &bob), None);
}

#[test]
fn admin_token_and_pause_flags_read_back() {
    let mut st = Storage::new();
    let admin = address("admin");
    let token = address("token");
    let next = address("next");
    storage::set_admin(&mut st, admin.clone());
    storage::set_token(&mut st, token.clone());
    assert!(*storage::get_admin(&st) == admin);
    assert!(*storage::get_token(&st) == token);
    storage::set_pending_admin(&mut st, next.clone());
    assert!(*storage::get_pending_admin(&st).unwrap() == next);
    storage::clear_pending_admin(&mut st);
    assert!(storage::get_pending_admin(&st).is_none());
    storage::set_paused(&mut st, true);
    assert!(storage::is_paused(&st));
    storage::set_paused(&mut st, false);
    assert!(!storage::is_paused(&st));
}

#[test]
fn allowlist_of_assets() {
    let mut st = Storage::new();
    let token = address("token");
    let usdc = address("usdc");
    storage::set_token(&mut st, token.clone());
    assert!(storage::is_allowed_asset(&st, &token));
    assert!(!storage::is_allowed_asset(&st, &usdc));
    storage::set_allowed_asset(&mut st, &usdc, true);
    assert!(storage::is_allowed_asset(&st, &usdc));
    storage::set_allowed_asset(&mut st, &usdc, false);
    assert!(!storage::is_allowed_asset(&st, &usdc));
}
