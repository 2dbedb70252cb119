use niffyinsure::address::Address;
use niffyinsure::claim::ContractError;
use niffyinsure::types::{ClaimStatus, VoteOption, VOTE_WINDOW_LEDGERS};
use niffyinsure::validate::Error;
use niffyinsure::NiffyInsure;

fn address(tag: &str) -> Address {
    Address::from_strkey(&format!("G{:0>55}", tag))
}

fn setup() -> (NiffyInsure, Address, Address) {
    let mut client = NiffyInsure::new();
    let admin = address("admin");
    let token = address("token");
    client.initialize(admin.clone(), token.clone()).unwrap();
    (client, admin, token)
}

/// Seed a policy for `holder` and register them as a voter.
fn seed(client: &mut NiffyInsure, holder: &Address, coverage: i128, end_ledger: u32) {
    client.test_seed_policy(holder, 1, coverage, end_ledger);
}

fn file(client: &mut NiffyInsure, holder: &Address, amount: i128, ledger: u32) -> u64 {
    client.file_claim(holder, 1, amount, b"test claim".to_vec(), vec![], ledger).unwrap()
}

#[test]
fn file_claim_returns_incrementing_ids() {
    let (mut client, _, _) = setup();
    let h1 = address("h1");
    let h2 = address("h2");
    seed(&mut client, &h1, 1_000_000, 10_000);
    seed(&mut client, &h2, 1_000_000, 10_000);
    let id1 = file(&mut client, &h1, 100_000, 0);
    let id2 = file(&mut client, &h2, 100_000, 0);
    assert_eq!(id1, 1);
    assert_eq!(id2, 2);
}

#[test]
fn non_voter_rejected_before_storage_write() {
    let (mut client, _, _) = setup();
    let holder = address("holder");
    let outsider = address("outsider");
    seed(&mut client, &holder, 1_000_000, 10_000);
    let cid = file(&mut client, &holder, 100_000, 0);
    let before = client.storage.votes.len();
    assert!(client.vote_on_claim(&outsider, cid, VoteOption::Approve, 0).is_err());
    assert_eq!(client.storage.votes.len(), before);
}

#[test]
fn double_vote_rejected() {
    let (mut client, _, _) = setup();
    let holder = address("holder");
    seed(&mut client, &holder, 1_000_000, 10_000);
    let cid = file(&mut client, &holder, 100_000, 0);
    client.vote_on_claim(&holder, cid, VoteOption::Approve, 0).unwrap();
    assert!(client.vote_on_claim(&holder, cid, VoteOption::Approve, 0).is_err());
}

#[test]
fn vote_flip_rejected() {
    let (mut client, _, _) = setup();
    let holder = address("holder");
    seed(&mut client, &holder, 1_000_000, 10_000);
    let cid = file(&mut client, &holder, 100_000, 0);
    client.vote_on_claim(&holder, cid, VoteOption::Approve, 0).unwrap();
    assert!(client.vote_on_claim(&holder, cid, VoteOption::Reject, 0).is_err());
}

#[test]
fn majority_approve_auto_finalizes_claim() {
    let (mut client, _, _) = setup();
    let v1 = address("v1");
    let v2 = address("v2");
    let v3 = address("v3");
    seed(&mut client, &v1, 1_000_000, 10_000);
    seed(&mut client, &v2, 1_000_000, 10_000);
    seed(&mut client, &v3, 1_000_000, 10_000);
    let cid = file(&mut client, &v1, 100_000, 0);
    client.vote_on_claim(&v1, cid, VoteOption::Approve, 0).unwrap();
    client.vote_on_claim(&v2, cid, VoteOption::Approve, 0).unwrap();
    assert!(client.vote_on_claim(&v3, cid, VoteOption::Reject, 0).is_err());
}

#[test]
fn majority_reject_auto_finalizes_claim() {
    let (mut client, _, _) = setup();
    let v1 = address("v1");
    let v2 = address("v2");
    let v3 = address("v3");
    seed(&mut client, &v1, 1_000_000, 10_000);
    seed(&mut client, &v2, 1_000_000, 10_000);
    seed(&mut client, &v3, 1_000_000, 10_000);
    let cid = file(&mut client, &v1, 100_000, 0);
    client.vote_on_claim(&v1, cid, VoteOption::Reject, 0).unwrap();
    client.vote_on_claim(&v2, cid, VoteOption::Reject, 0).unwrap();
    assert!(client.vote_on_claim(&v3, cid, VoteOption::Approve, 0).is_err());
}

#[test]
fn finalize_after_deadline_plurality_approve() {
    let (mut client, _, _) = setup();
    let v1 = address("v1");
    let v2 = address("v2");
    let v3 = address("v3");
    seed(&mut client, &v1, 1_000_000, 500_000);
    seed(&mut client, &v2, 1_000_000, 500_000);
    seed(&mut client, &v3, 1_000_000, 500_000);
    let cid = file(&mut client, &v1, 100_000, 0);
    client.vote_on_claim(&v1, cid, VoteOption::Approve, 0).unwrap();
    let later = VOTE_WINDOW_LEDGERS + 1;
    client.finalize_claim(cid, later).unwrap();
    assert!(client.vote_on_claim(&v2, cid, VoteOption::Reject, later).is_err());
}

#[test]
fn finalize_tie_resolves_to_rejected() {
    let (mut client, _, _) = setup();
    let v1 = address("v1");
    let v2 = address("v2");
    seed(&mut client, &v1, 1_000_000, 500_000);
    seed(&mut client, &v2, 1_000_000, 500_000);
    let cid = file(&mut client, &v1, 100_000, 0);
    client.vote_on_claim(&v1, cid, VoteOption::Approve, 0).unwrap();
    client.vote_on_claim(&v2, cid, VoteOption::Reject, 0).unwrap();
    let status = client.finalize_claim(cid, VOTE_WINDOW_LEDGERS + 1).unwrap();
    assert_eq!(status, ClaimStatus::Rejected);
}

#[test]
fn finalize_before_deadline_fails() {
    let (mut client, _, _) = setup();
    let holder = address("holder");
    seed(&mut client, &holder, 1_000_000, 500_000);
    let cid = file(&mut client, &holder, 100_000, 0);
    assert_eq!(client.finalize_claim(cid, 0), Err(ContractError::VotingStillOpen));
    assert_eq!(client.finalize_claim(cid, VOTE_WINDOW_LEDGERS), Err(ContractError::VotingStillOpen));
}

#[test]
fn vote_after_deadline_rejected() {
    let (mut client, _, _) = setup();
    let holder = address("holder");
    seed(&mut client, &holder, 1_000_000, 500_000);
    let cid = file(&mut client, &holder, 100_000, 0);
    assert_eq!(
        client.vote_on_claim(&holder, cid, VoteOption::Approve, VOTE_WINDOW_LEDGERS + 1),
        Err(ContractError::VotingClosed)
    );
}

#[test]
fn snapshot_isolates_late_joiners() {
    let (mut client, _, _) = setup();
    let original = address("original");
    let late_joiner = address("late");
    seed(&mut client, &original, 1_000_000, 10_000);
    let cid = file(&mut client, &original, 100_000, 0);
    seed(&mut client, &late_joiner, 1_000_000, 10_000);
    assert_eq!(
        client.vote_on_claim(&late_joiner, cid, VoteOption::Approve, 0),
        Err(ContractError::NotEligibleVoter)
    );
}

#[test]
fn terminated_policy_holder_vote_stands() {
    let (mut client, _, _) = setup();
    let v1 = address("v1");
    let v2 = address("v2");
    let v3 = address("v3");
    seed(&mut client, &v1, 1_000_000, 10_000);
    seed(&mut client, &v2, 1_000_000, 10_000);
    seed(&mut client, &v3, 1_000_000, 10_000);
    let cid = file(&mut client, &v1, 100_000, 0);
    client.vote_on_claim(&v1, cid, VoteOption::Approve, 0).unwrap();
    client.test_remove_voter(&v1);
    assert_eq!(client.vote_on_claim(&v2, cid, VoteOption::Approve, 0), Ok(ClaimStatus::Approved));
    assert!(client.vote_on_claim(&v3, cid, VoteOption::Reject, 0).is_err());
}

#[test]
fn adversarial_addresses_cannot_bloat_storage() {
    let (mut client, _, _) = setup();
    let holder = address("holder");
    seed(&mut client, &holder, 1_000_000, 10_000);
    let cid = file(&mut client, &holder, 100_000, 0);
    for i in 0..5 {
        let adversary = address(&format!("adversary{}", i));
        assert!(client.vote_on_claim(&adversary, cid, VoteOption::Approve, 0).is_err());
    }
    assert_eq!(client.storage.votes.len(), 0);
}

#[test]
fn vote_on_nonexistent_claim_fails() {
    let (mut client, _, _) = setup();
    let voter = address("voter");
    assert_eq!(
        client.vote_on_claim(&voter, 999, VoteOption::Approve, 0),
        Err(ContractError::Invalid(Error::ClaimNotFound))
    );
}

#[test]
fn vote_logged_event_is_emitted() {
    // The vote entry point returns the claim's new status; the contract
    // publishes the ballot event from it.
    let (mut client, _, _) = setup();
    let holder = address("holder");
    let other = address("other");
    seed(&mut client, &holder, 1_000_000, 10_000);
    seed(&mut client, &other, 1_000_000, 10_000);
    let cid = file(&mut client, &holder, 100_000, 0);
    assert_eq!(client.vote_on_claim(&holder, cid, VoteOption::Approve, 0), Ok(ClaimStatus::Processing));
}

#[test]
fn claim_filed_event_is_emitted() {
    // The filing entry point returns the new claim id; the contract
    // publishes the filing event from it.
    let (mut client, _, _) = setup();
    let holder = address("holder");
    seed(&mut client, &holder, 1_000_000, 10_000);
    assert_eq!(client.file_claim(&holder, 1, 100_000, b"test claim".to_vec(), vec![], 0), Ok(1));
}

// ── Further cases ─────────────────────────────────────────────────────────────

#[test]
fn paused_contract_blocks_filing_and_voting() {
    let (mut client, admin, _) = setup();
    let holder = address("holder");
    seed(&mut client, &holder, 1_000_000, 10_000);
    let cid = file(&mut client, &holder, 100_000, 0);
    niffyinsure::admin::pause(&mut client.storage, &admin).unwrap();
    assert_eq!(
        client.file_claim(&holder, 1, 100_000, b"x".to_vec(), vec![], 0),
        Err(ContractError::Paused)
    );
    assert_eq!(client.vote_on_claim(&holder, cid, VoteOption::Approve, 0), Err(ContractError::Paused));
    niffyinsure::admin::unpause(&mut client.storage, &admin).unwrap();
    assert!(client.vote_on_claim(&holder, cid, VoteOption::Approve, 0).is_ok());
}

#[test]
fn filing_without_policy_fails() {
    let (mut client, _, _) = setup();
    let holder = address("holder");
    assert_eq!(
        client.file_claim(&holder, 1, 100_000, b"x".to_vec(), vec![], 0),
        Err(ContractError::Invalid(Error::PolicyNotFound))
    );
}

#[test]
fn filing_on_expired_policy_fails() {
    let (mut client, _, _) = setup();
    let holder = address("holder");
    seed(&mut client, &holder, 1_000_000, 100);
    assert_eq!(
        client.file_claim(&holder, 1, 100_000, b"x".to_vec(), vec![], 100),
        Err(ContractError::Invalid(Error::PolicyExpired))
    );
}

#[test]
fn filing_over_coverage_fails() {
    let (mut client, _, _) = setup();
    let holder = address("holder");
    seed(&mut client, &holder, 1_000_000, 10_000);
    assert_eq!(
        client.file_claim(&holder, 1, 1_000_001, b"x".to_vec(), vec![], 0),
        Err(ContractError::Invalid(Error::ClaimExceedsCoverage))
    );
}

#[test]
fn filed_claim_records_its_terms() {
    let (mut client, _, token) = setup();
    let holder = address("holder");
    let other = address("other");
    seed(&mut client, &holder, 1_000_000, 10_000);
    seed(&mut client, &other, 1_000_000, 10_000);
    let cid = client.file_claim(&holder, 1, 250_000, b"storm".to_vec(), vec![b"ipfs://a".to_vec()], 7).unwrap();
    let claim = niffyinsure::claim::get_claim(&client.storage, cid).unwrap();
    assert_eq!(claim.amount, 250_000);
    assert_eq!(claim.asset, token);
    assert_eq!(claim.claimant, holder);
    assert_eq!(claim.status, ClaimStatus::Processing);
    assert_eq!(claim.vote_deadline, 7 + VOTE_WINDOW_LEDGERS);
    assert_eq!(claim.snapshot_size, 2);
    assert_eq!(claim.details, b"storm".to_vec());
    assert_eq!(niffyinsure::storage::get_claim_voters(&client.storage, cid).len(), 2);
}

#[test]
fn tallies_match_ballots() {
    let (mut client, _, _) = setup();
    let voters: Vec<Address> = (0..5).map(|i| address(&format!("v{}", i))).collect();
    for v in &voters {
        seed(&mut client, v, 1_000_000, 10_000);
    }
    let cid = file(&mut client, &voters[0], 100_000, 0);
    client.vote_on_claim(&voters[0], cid, VoteOption::Approve, 0).unwrap();
    client.vote_on_claim(&voters[1], cid, VoteOption::Reject, 0).unwrap();
    client.vote_on_claim(&voters[2], cid, VoteOption::Approve, 0).unwrap();
    let claim = niffyinsure::claim::get_claim(&client.storage, cid).unwrap();
    assert_eq!(claim.approve_votes, 2);
    assert_eq!(claim.reject_votes, 1);
    assert_eq!(claim.status, ClaimStatus::Processing);
    assert_eq!(client.storage.votes.len(), 3);
    assert_eq!(
        niffyinsure::storage::get_vote(&client.storage, cid, &voters[1]),
        Some(VoteOption::Reject)
    );
    assert_eq!(client.vote_on_claim(&voters[3], cid, VoteOption::Approve, 0), Ok(ClaimStatus::Approved));
}

#[test]
fn finalize_with_more_approvals_approves() {
    let (mut client, _, _) = setup();
    let voters: Vec<Address> = (0..5).map(|i| address(&format!("v{}", i))).collect();
    for v in &voters {
        seed(&mut client, v, 1_000_000, 10_000);
    }
    let cid = file(&mut client, &voters[0], 100_000, 0);
    client.vote_on_claim(&voters[0], cid, VoteOption::Approve, 0).unwrap();
    client.vote_on_claim(&voters[1], cid, VoteOption::Approve, 0).unwrap();
    client.vote_on_claim(&voters[2], cid, VoteOption::Reject, 0).unwrap();
    assert_eq!(client.finalize_claim(cid, VOTE_WINDOW_LEDGERS + 1), Ok(ClaimStatus::Approved));
    assert_eq!(
        client.finalize_claim(cid, VOTE_WINDOW_LEDGERS + 2),
        Err(ContractError::Invalid(Error::ClaimAlreadyTerminal))
    );
}
