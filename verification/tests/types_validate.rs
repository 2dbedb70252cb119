use niffyinsure::address::Address;
use niffyinsure::types::{
    Claim, ClaimStatus, Policy, PolicyType, RegionTier, VoteOption, DETAILS_MAX_LEN, IMAGE_URLS_MAX,
    IMAGE_URL_MAX_LEN,
};
use niffyinsure::validate::{check_claim_fields, check_claim_open, check_policy, check_policy_active, Error};

fn address(tag: &str) -> Address {
    Address::from_strkey(&format!("G{:0>55}", tag))
}

fn dummy_policy(start: u32, end: u32, coverage: i128, active: bool) -> Policy {
    Policy {
        holder: address("holder"),
        policy_id: 1,
        policy_type: PolicyType::Auto,
        region: RegionTier::Medium,
        premium: 10_000_000,
        coverage,
        is_active: active,
        start_ledger: start,
        end_ledger: end,
    }
}

fn dummy_claim(amount: i128, status: ClaimStatus) -> Claim {
    Claim {
        claim_id: 1,
        policy_id: 1,
        claimant: address("claimant"),
        amount,
        asset: address("token"),
        details: b"fire damage".to_vec(),
        image_urls: vec![],
        status,
        approve_votes: 0,
        reject_votes: 0,
        vote_deadline: 1000,
        snapshot_size: 3,
        paid_at: None,
    }
}

// ── Policy struct validation ──────────────────────────────────────────────────

#[test]
fn valid_policy_passes() {
    let p = dummy_policy(100, 200, 50_000_000, true);
    assert_eq!(check_policy(&p), Ok(()));
}

#[test]
fn zero_coverage_rejected() {
    let p = dummy_policy(100, 200, 0, true);
    assert_eq!(check_policy(&p), Err(Error::ZeroCoverage));
}

#[test]
fn negative_coverage_rejected() {
    let p = dummy_policy(100, 200, -1, true);
    assert_eq!(check_policy(&p), Err(Error::ZeroCoverage));
}

#[test]
fn inverted_ledger_window_rejected() {
    let p = dummy_policy(200, 100, 50_000_000, true);
    assert_eq!(check_policy(&p), Err(Error::InvalidLedgerWindow));
}

#[test]
fn equal_ledger_window_rejected() {
    let p = dummy_policy(100, 100, 50_000_000, true);
    assert_eq!(check_policy(&p), Err(Error::InvalidLedgerWindow));
}

#[test]
fn zero_premium_rejected() {
    let mut p = dummy_policy(100, 200, 50_000_000, true);
    p.premium = 0;
    assert_eq!(check_policy(&p), Err(Error::ZeroPremium));
}

// ── Policy active check ───────────────────────────────────────────────────────

#[test]
fn active_policy_within_window_passes() {
    let p = dummy_policy(100, 200, 50_000_000, true);
    assert_eq!(check_policy_active(&p, 150), Ok(()));
}

#[test]
fn expired_policy_rejected() {
    let p = dummy_policy(100, 200, 50_000_000, true);
    assert_eq!(check_policy_active(&p, 200), Err(Error::PolicyExpired));
    assert_eq!(check_policy_active(&p, 201), Err(Error::PolicyExpired));
}

#[test]
fn inactive_policy_rejected() {
    let p = dummy_policy(100, 200, 50_000_000, false);
    assert_eq!(check_policy_active(&p, 150), Err(Error::PolicyInactive));
}

// ── Claim field validation ────────────────────────────────────────────────────

#[test]
fn valid_claim_passes() {
    let details = b"roof collapsed".to_vec();
    let urls = vec![b"ipfs://Qm123".to_vec()];
    assert_eq!(check_claim_fields(1_000_000, 50_000_000, &details, &urls), Ok(()));
}

#[test]
fn zero_claim_amount_rejected() {
    let details = b"x".to_vec();
    let urls: Vec<Vec<u8>> = vec![];
    assert_eq!(check_claim_fields(0, 50_000_000, &details, &urls), Err(Error::ClaimAmountZero));
}

#[test]
fn claim_exceeds_coverage_rejected() {
    let details = b"x".to_vec();
    let urls: Vec<Vec<u8>> = vec![];
    assert_eq!(
        check_claim_fields(60_000_000, 50_000_000, &details, &urls),
        Err(Error::ClaimExceedsCoverage)
    );
}

#[test]
fn claim_amount_equal_to_coverage_passes() {
    let details = b"x".to_vec();
    let urls: Vec<Vec<u8>> = vec![];
    assert_eq!(check_claim_fields(50_000_000, 50_000_000, &details, &urls), Ok(()));
}

#[test]
fn details_at_max_len_passes() {
    let s = "a".repeat(DETAILS_MAX_LEN as usize).into_bytes();
    let urls: Vec<Vec<u8>> = vec![];
    assert_eq!(check_claim_fields(1, 100, &s, &urls), Ok(()));
}

#[test]
fn details_over_max_len_rejected() {
    let s = "a".repeat(DETAILS_MAX_LEN as usize + 1).into_bytes();
    let urls: Vec<Vec<u8>> = vec![];
    assert_eq!(check_claim_fields(1, 100, &s, &urls), Err(Error::DetailsTooLong));
}

#[test]
fn too_many_image_urls_rejected() {
    let details = b"x".to_vec();
    let url = b"ipfs://Qm1".to_vec();
    let mut urls: Vec<Vec<u8>> = vec![];
    for _ in 0..=IMAGE_URLS_MAX {
        urls.push(url.clone());
    }
    assert_eq!(check_claim_fields(1, 100, &details, &urls), Err(Error::TooManyImageUrls));
}

#[test]
fn image_urls_at_max_count_pass() {
    let details = b"x".to_vec();
    let urls: Vec<Vec<u8>> = (0..IMAGE_URLS_MAX).map(|_| b"ipfs://Qm1".to_vec()).collect();
    assert_eq!(check_claim_fields(1, 100, &details, &urls), Ok(()));
}

#[test]
fn image_url_over_max_len_rejected() {
    let details = b"x".to_vec();
    let long_url = "u".repeat(IMAGE_URL_MAX_LEN as usize + 1).into_bytes();
    let urls = vec![long_url];
    assert_eq!(check_claim_fields(1, 100, &details, &urls), Err(Error::ImageUrlTooLong));
}

#[test]
fn image_url_at_max_len_passes() {
    let details = b"x".to_vec();
    let urls = vec![b"ok".to_vec(), "u".repeat(IMAGE_URL_MAX_LEN as usize).into_bytes()];
    assert_eq!(check_claim_fields(1, 100, &details, &urls), Ok(()));
}

// ── Claim status / vote validation ───────────────────────────────────────────

#[test]
fn processing_claim_is_open() {
    let c = dummy_claim(1_000_000, ClaimStatus::Processing);
    assert_eq!(check_claim_open(&c), Ok(()));
}

#[test]
fn approved_claim_is_terminal() {
    let c = dummy_claim(1_000_000, ClaimStatus::Approved);
    assert_eq!(check_claim_open(&c), Err(Error::ClaimAlreadyTerminal));
}

#[test]
fn rejected_claim_is_terminal() {
    let c = dummy_claim(1_000_000, ClaimStatus::Rejected);
    assert_eq!(check_claim_open(&c), Err(Error::ClaimAlreadyTerminal));
}

// ── Enum coherence ────────────────────────────────────────────────────────────

#[test]
fn vote_option_variants_distinct() {
    assert_ne!(VoteOption::Approve, VoteOption::Reject);
}

#[test]
fn claim_status_terminal_flags() {
    assert!(!ClaimStatus::Processing.is_terminal());
    assert!(ClaimStatus::Approved.is_terminal());
    assert!(ClaimStatus::Rejected.is_terminal());
}

#[test]
fn paid_claim_is_terminal() {
    assert!(ClaimStatus::Paid.is_terminal());
}
