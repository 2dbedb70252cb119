use niffyinsure::address::Address;
use niffyinsure::admin;
use niffyinsure::claim::{check_treasury_balance, get_claim, is_allowed_asset, payout_request, process_claim, set_allowed_asset};
use niffyinsure::storage::{self, Storage};
use niffyinsure::types::{Claim, ClaimStatus};
use niffyinsure::validate::Error;

fn address(tag: &str) -> Address {
    Address::from_strkey(&format!("G{:0>55}", tag))
}

/// A contract store initialised with an admin and a treasury token.
fn setup() -> (Storage, Address) {
    let mut st = Storage::new();
    let token = address("token");
    admin::initialize(&mut st, address("admin"), token.clone()).unwrap();
    (st, token)
}

fn approved_claim(claimant: &Address, asset: &Address, amount: i128) -> Claim {
    Claim {
        claim_id: 1,
        policy_id: 7,
        claimant: claimant.clone(),
        amount,
        asset: asset.clone(),
        details: b"approved fire claim".to_vec(),
        image_urls: Vec::new(),
        status: ClaimStatus::Approved,
        approve_votes: 2,
        reject_votes: 0,
        vote_deadline: 0,
        snapshot_size: 2,
        paid_at: None,
    }
}

/// Balances of the treasury and the claimant after a payout attempt: a
/// successful payout moves the returned amount from one to the other.
fn settle(treasury: i128, claimant: i128, outcome: &Result<niffyinsure::types::ClaimProcessed, Error>) -> (i128, i128) {
    match outcome {
        Ok(ev) => (treasury - ev.amount, claimant + ev.amount),
        Err(_) => (treasury, claimant),
    }
}

#[test]
fn process_claim_transfers_tokens_and_marks_claim_paid() {
    let (mut st, token) = setup();
    let claimant = address("claimant");
    let claim = approved_claim(&claimant, &token, 5_000);
    storage::set_claim(&mut st, claim);

    let treasury_balance: i128 = 10_000;
    let outcome = process_claim(&mut st, 1, treasury_balance, 1_700_000_000);
    let (treasury_after, claimant_after) = settle(treasury_balance, 0, &outcome);
    let ev = outcome.unwrap();

    let stored = get_claim(&st, 1).unwrap();
    assert_eq!(treasury_after, 5_000);
    assert_eq!(claimant_after, 5_000);
    assert_eq!(stored.status, ClaimStatus::Paid);
    assert!(stored.paid_at.is_some());
    assert!(ev.recipient == claimant);
    assert!(ev.asset == token);
    assert_eq!(ev.claim_id, 1);
}

#[test]
fn process_claim_reverts_when_treasury_is_short() {
    let (mut st, token) = setup();
    let claimant = address("claimant");
    storage::set_claim(&mut st, approved_claim(&claimant, &token, 5_000));

    let treasury_balance: i128 = 1_000;
    let outcome = process_claim(&mut st, 1, treasury_balance, 1_700_000_000);
    assert!(outcome.is_err());
    let (treasury_after, claimant_after) = settle(treasury_balance, 0, &outcome);

    let stored = get_claim(&st, 1).unwrap();
    assert_eq!(stored.status, ClaimStatus::Approved);
    assert_eq!(stored.paid_at, None);
    assert_eq!(treasury_after, 1_000);
    assert_eq!(claimant_after, 0);
}

#[test]
fn process_claim_is_idempotent() {
    let (mut st, token) = setup();
    let claimant = address("claimant");
    storage::set_claim(&mut st, approved_claim(&claimant, &token, 5_000));

    assert!(process_claim(&mut st, 1, 10_000, 1_700_000_000).is_ok());
    let second = process_claim(&mut st, 1, 5_000, 1_700_000_100);
    assert!(second.is_err());
    assert_eq!(get_claim(&st, 1).unwrap().status, ClaimStatus::Paid);
}

#[test]
fn process_claim_rejects_assets_outside_the_allowlist() {
    let (mut st, _token) = setup();
    let claimant = address("claimant");
    let other_asset = address("otherasset");
    storage::set_claim(&mut st, approved_claim(&claimant, &other_asset, 5_000));

    let treasury_balance: i128 = 10_000;
    let outcome = process_claim(&mut st, 1, treasury_balance, 1_700_000_000);
    assert!(outcome.is_err());
    let (treasury_after, _) = settle(treasury_balance, 0, &outcome);
    assert_eq!(get_claim(&st, 1).unwrap().status, ClaimStatus::Approved);
    assert_eq!(treasury_after, 10_000);
}

#[test]
fn payout_errors_name_their_cause() {
    let (mut st, token) = setup();
    let claimant = address("claimant");
    assert_eq!(payout_request(&st, 1).unwrap_err(), Error::ClaimNotFound);

    let mut c = approved_claim(&claimant, &token, 5_000);
    c.status = ClaimStatus::Processing;
    storage::set_claim(&mut st, c);
    assert_eq!(payout_request(&st, 1).unwrap_err(), Error::ClaimNotApproved);

    let mut c = approved_claim(&claimant, &token, 0);
    c.status = ClaimStatus::Approved;
    storage::set_claim(&mut st, c);
    assert_eq!(payout_request(&st, 1).unwrap_err(), Error::ClaimAmountZero);

    storage::set_claim(&mut st, approved_claim(&claimant, &address("other"), 5));
    assert_eq!(payout_request(&st, 1).unwrap_err(), Error::InvalidAsset);

    assert_eq!(process_claim(&mut st, 1, 100, 7).unwrap_err(), Error::InvalidAsset);
    storage::set_claim(&mut st, approved_claim(&claimant, &token, 5));
    assert!(process_claim(&mut st, 1, 100, 7).is_ok());
    assert_eq!(payout_request(&st, 1).unwrap_err(), Error::AlreadyPaid);
    assert_eq!(get_claim(&st, 1).unwrap().paid_at, Some(7));
    assert_eq!(get_claim(&st, 2).unwrap_err(), Error::ClaimNotFound);
}

#[test]
fn exact_treasury_balance_is_enough() {
    assert_eq!(check_treasury_balance(5_000, 5_000), Ok(()));
    assert_eq!(check_treasury_balance(4_999, 5_000), Err(Error::InsufficientTreasury));

    let (mut st, token) = setup();
    let claimant = address("claimant");
    storage::set_claim(&mut st, approved_claim(&claimant, &token, 5_000));
    let outcome = process_claim(&mut st, 1, 5_000, 9);
    assert_eq!(settle(5_000, 0, &outcome), (0, 5_000));
}

#[test]
fn allowlisted_asset_can_pay_out() {
    let (mut st, token) = setup();
    let claimant = address("claimant");
    let other_asset = address("otherasset");
    assert!(is_allowed_asset(&st, &token));
    assert!(!is_allowed_asset(&st, &other_asset));

    set_allowed_asset(&mut st, &other_asset, true);
    assert!(is_allowed_asset(&st, &other_asset));
    storage::set_claim(&mut st, approved_claim(&claimant, &other_asset, 300));
    let ev = process_claim(&mut st, 1, 300, 11).unwrap();
    assert!(ev.asset == other_asset);
    assert_eq!(ev.amount, 300);

    set_allowed_asset(&mut st, &other_asset, false);
    assert!(!is_allowed_asset(&st, &other_asset));
    // The treasury token stays allowed even when taken off the list.
    set_allowed_asset(&mut st, &token, false);
    assert!(is_allowed_asset(&st, &token));
}
