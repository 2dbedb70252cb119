use vstd::prelude::*;

use crate::address::Address;

verus! {

/// Maximum length of a claim's details, in bytes.
pub const DETAILS_MAX_LEN: u32 = 256;

/// Maximum length of one image URL of a claim, in bytes.
pub const IMAGE_URL_MAX_LEN: u32 = 128;

/// Maximum number of image URLs of a claim.
pub const IMAGE_URLS_MAX: u32 = 5;

/// Maximum length of a termination reason, in bytes.
pub const REASON_MAX_LEN: u32 = 128;

/// Maximum safety score of a risk input.
pub const SAFETY_SCORE_MAX: u32 = 100;

/// Voting window in ledgers (about 7 days at 5 s per ledger).  Once this
/// many ledgers have passed since a claim was filed the vote is closed and
/// the claim may be finalized.
pub const VOTE_WINDOW_LEDGERS: u32 = 120_960;

/// Coverage category of a policy.
#[derive(Clone, Copy, PartialEq, Eq, Structural, Debug)]
pub enum PolicyType {
    Auto,
    Health,
    Property,
}

/// Geographic risk tier used by the premium tables.
#[derive(Clone, Copy, PartialEq, Eq, Structural, Debug)]
pub enum RegionTier {
    Low,
    Medium,
    High,
}

/// Underwriting age bucket.
#[derive(Clone, Copy, PartialEq, Eq, Structural, Debug)]
pub enum AgeBand {
    Young,
    Adult,
    Senior,
}

/// Coverage level selected for premium calculation.
#[derive(Clone, Copy, PartialEq, Eq, Structural, Debug)]
pub enum CoverageType {
    Basic,
    Standard,
    Premium,
}

/// Claim lifecycle.  A claim is open for voting while `Processing`; the vote
/// closes it as `Approved` or `Rejected`, and an approved claim becomes `Paid`
/// once the treasury has paid it out.
#[derive(Clone, Copy, PartialEq, Eq, Structural, Debug)]
pub enum ClaimStatus {
    Processing,
    Approved,
    Paid,
    Rejected,
}

impl ClaimStatus {
    /// A claim is terminal (closed for voting) unless it is still `Processing`.
    pub open spec fn spec_is_terminal(&self) -> bool {
        *self != ClaimStatus::Processing
    }

    /// Whether the claim is closed for voting.
    #[verifier::when_used_as_spec(spec_is_terminal)]
    pub fn is_terminal(&self) -> (r: bool)
        ensures
            r == self.spec_is_terminal(),
    {
        !matches!(self, ClaimStatus::Processing)
    }
}

/// Ballot option cast by a policyholder during claim voting.
#[derive(Clone, Copy, PartialEq, Eq, Structural, Debug)]
pub enum VoteOption {
    Approve,
    Reject,
}

/// Risk input accepted by the premium engine.  `safety_score` is bounded to
/// `0..=100` and is the percentage of the maximum safety discount earned.
#[derive(Clone, Copy, PartialEq, Eq, Structural, Debug)]
pub struct RiskInput {
    pub region: RegionTier,
    pub age_band: AgeBand,
    pub coverage: CoverageType,
    pub safety_score: u32,
}

/// Admin-configurable multiplier table, each multiplier scaled by 4 decimals
/// (`1.2500x == 12_500`).  Each table is a list of `(key, multiplier)`
/// entries; like a map it counts each key once.
#[derive(Clone, Debug)]
pub struct MultiplierTable {
    pub region: Vec<(RegionTier, i128)>,
    pub age: Vec<(AgeBand, i128)>,
    pub coverage: Vec<(CoverageType, i128)>,
    /// Maximum discount, scaled by 4 decimals, earned at `safety_score == 100`.
    pub safety_discount: i128,
    pub version: u32,
}

/// Event payload announcing a new multiplier-table version.
#[derive(Clone, Copy, PartialEq, Eq, Structural, Debug)]
pub struct PremiumTableUpdated {
    pub version: u32,
}

/// Event payload announcing a claim payout.
#[derive(Clone, Debug)]
pub struct ClaimProcessed {
    pub claim_id: u64,
    pub recipient: Address,
    pub amount: i128,
    pub asset: Address,
}

/// An insurance policy, keyed by `(holder, policy_id)`.
#[derive(Clone, Debug)]
pub struct Policy {
    pub holder: Address,
    pub policy_id: u32,
    pub policy_type: PolicyType,
    pub region: RegionTier,
    pub premium: i128,
    pub coverage: i128,
    pub is_active: bool,
    pub start_ledger: u32,
    pub end_ledger: u32,
}

/// A claim filed against a policy.  `details` and each image URL are the raw
/// bytes of the submitted text.
#[derive(Clone, Debug)]
pub struct Claim {
    pub claim_id: u64,
    pub policy_id: u32,
    pub claimant: Address,
    pub amount: i128,
    pub asset: Address,
    pub details: Vec<u8>,
    pub image_urls: Vec<Vec<u8>>,
    pub status: ClaimStatus,
    pub approve_votes: u32,
    pub reject_votes: u32,
    /// Last ledger at which a ballot is accepted.
    pub vote_deadline: u32,
    /// Number of voters in the electorate snapshot taken at filing.
    pub snapshot_size: u32,
    /// Ledger timestamp of the payout, once paid.
    pub paid_at: Option<u64>,
}

/// Premium quote line item for display.
#[derive(Clone, Debug)]
pub struct PremiumQuoteLineItem {
    pub component: String,
    pub factor: i128,
    pub amount: i128,
}

/// Structured quote returned by `generate_premium`.
#[derive(Clone, Debug)]
pub struct PremiumQuote {
    pub total_premium: i128,
    pub line_items: Option<Vec<PremiumQuoteLineItem>>,
    pub valid_until_ledger: u32,
    pub config_version: u32,
}

/// Oracle data source.  No trusted source is defined yet.
#[derive(Clone, Copy, PartialEq, Eq, Structural, Debug)]
pub enum OracleSource {
    Undefined,
}

/// Parametric trigger event type.  No event type is defined yet.
#[derive(Clone, Copy, PartialEq, Eq, Structural, Debug)]
pub enum TriggerEventType {
    Undefined,
}

/// An oracle attestation that a trigger condition was met for a policy.
/// `signature` is reserved and must be empty: signatures are not verified.
#[derive(Clone, Debug)]
pub struct OracleTrigger {
    pub policy_id: u32,
    pub event_type: TriggerEventType,
    pub source: OracleSource,
    pub payload: Vec<u8>,
    pub timestamp: u64,
    pub trigger_ledger: u32,
    pub signature: Vec<u8>,
}

/// Status of an oracle trigger in the resolution pipeline.
#[derive(Clone, Copy, PartialEq, Eq, Structural, Debug)]
pub enum TriggerStatus {
    Pending,
    Validated,
    Rejected,
    Executed,
    Expired,
}

/// A claim resolved from an oracle trigger.
#[derive(Clone, Copy, PartialEq, Eq, Structural, Debug)]
pub struct ParametricClaim {
    pub claim_id: u64,
    pub trigger_id: u64,
    pub amount: i128,
    pub status: TriggerStatus,
    pub resolved_ledger: u32,
}

} // verus!
