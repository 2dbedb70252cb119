//! Validation rules for policies, claims, risk input, multiplier tables and
//! oracle triggers.  Each check returns the first rule that fails.
use vstd::prelude::*;

use crate::storage::Storage;
use crate::types::{
    AgeBand, Claim, ClaimStatus, CoverageType, MultiplierTable, OracleSource, OracleTrigger, Policy,
    RegionTier, RiskInput, TriggerStatus, DETAILS_MAX_LEN, IMAGE_URLS_MAX, IMAGE_URL_MAX_LEN,
    REASON_MAX_LEN, SAFETY_SCORE_MAX,
};

verus! {

/// Validation and processing errors.
#[derive(Clone, Copy, PartialEq, Eq, Structural, Debug, PartialOrd, Ord)]
pub enum Error {
    ZeroCoverage,
    ZeroPremium,
    InvalidLedgerWindow,
    PolicyExpired,
    PolicyInactive,
    ClaimAmountZero,
    ClaimExceedsCoverage,
    DetailsTooLong,
    TooManyImageUrls,
    ImageUrlTooLong,
    ReasonTooLong,
    ClaimAlreadyTerminal,
    DuplicateVote,
    InvalidBaseAmount,
    SafetyScoreOutOfRange,
    InvalidConfigVersion,
    MissingRegionMultiplier,
    MissingAgeMultiplier,
    MissingCoverageMultiplier,
    RegionMultiplierOutOfBounds,
    AgeMultiplierOutOfBounds,
    CoverageMultiplierOutOfBounds,
    SafetyDiscountOutOfBounds,
    Overflow,
    DivideByZero,
    InvalidQuoteTtl,
    NegativePremiumNotSupported,
    ClaimNotFound,
    InvalidAsset,
    InsufficientTreasury,
    AlreadyPaid,
    ClaimNotApproved,
    DuplicateOpenClaim,
    ExcessiveEvidenceBytes,
    PolicyNotFound,
}

/// Errors of the oracle trigger pipeline.
#[derive(Clone, Copy, PartialEq, Eq, Structural, Debug)]
pub enum OracleError {
    /// Oracle trigger processing is turned off.
    OracleDisabled,
    /// The trigger payload exceeds the size limit.
    PayloadTooLarge,
    /// The trigger was recorded too many ledgers ago.
    TriggerLedgerExpired,
    /// The trigger carries a signature; signatures are not verified yet.
    SignatureNotImplemented,
    /// The trigger's source is not an approved oracle.
    SourceNotWhitelisted,
    /// The trigger is not in a state that allows the requested step.
    TriggerAlreadyProcessed,
    /// No trigger or policy exists under the given id.
    PolicyNotFound,
}

/// What `check_policy` returns for a policy.
pub open spec fn policy_check(policy: Policy) -> Result<(), Error> {
    if policy.coverage <= 0 {
        Err(Error::ZeroCoverage)
    } else if policy.premium <= 0 {
        Err(Error::ZeroPremium)
    } else if policy.end_ledger <= policy.start_ledger {
        Err(Error::InvalidLedgerWindow)
    } else {
        Ok(())
    }
}

/// A policy needs positive coverage and premium and a non-empty ledger window.
pub fn check_policy(policy: &Policy) -> (r: Result<(), Error>)
    ensures
        r == policy_check(*policy),
{
    if policy.coverage <= 0 {
        return Err(Error::ZeroCoverage);
    }
    if policy.premium <= 0 {
        return Err(Error::ZeroPremium);
    }
    if policy.end_ledger <= policy.start_ledger {
        return Err(Error::InvalidLedgerWindow);
    }
    Ok(())
}

/// What `check_policy_active` returns for a policy at a ledger.
pub open spec fn policy_active_check(policy: Policy, current_ledger: u32) -> Result<(), Error> {
    if !policy.is_active {
        Err(Error::PolicyInactive)
    } else if current_ledger >= policy.end_ledger {
        Err(Error::PolicyExpired)
    } else {
        Ok(())
    }
}

/// A policy is in force while it is active and its end ledger is ahead.
pub fn check_policy_active(policy: &Policy, current_ledger: u32) -> (r: Result<(), Error>)
    ensures
        r == policy_active_check(*policy, current_ledger),
{
    if !policy.is_active {
        return Err(Error::PolicyInactive);
    }
    if current_ledger >= policy.end_ledger {
        return Err(Error::PolicyExpired);
    }
    Ok(())
}

/// Some image URL is longer than `IMAGE_URL_MAX_LEN` bytes.
pub open spec fn has_long_url(image_urls: Seq<Vec<u8>>) -> bool {
    exists|i: int| 0 <= i < image_urls.len() && (#[trigger] image_urls[i])@.len() > IMAGE_URL_MAX_LEN
}

/// What `check_claim_fields` returns.
pub open spec fn claim_fields_check(
    amount: i128,
    coverage: i128,
    details: Seq<u8>,
    image_urls: Seq<Vec<u8>>,
) -> Result<(), Error> {
    if amount <= 0 {
        Err(Error::ClaimAmountZero)
    } else if amount > coverage {
        Err(Error::ClaimExceedsCoverage)
    } else if details.len() > DETAILS_MAX_LEN {
        Err(Error::DetailsTooLong)
    } else if image_urls.len() > IMAGE_URLS_MAX {
        Err(Error::TooManyImageUrls)
    } else if has_long_url(image_urls) {
        Err(Error::ImageUrlTooLong)
    } else {
        Ok(())
    }
}

/// A claim asks for a positive amount within coverage, with details of at
/// most `DETAILS_MAX_LEN` bytes and at most `IMAGE_URLS_MAX` image URLs of at
/// most `IMAGE_URL_MAX_LEN` bytes each.
pub fn check_claim_fields(
    amount: i128,
    coverage: i128,
    details: &Vec<u8>,
    image_urls: &Vec<Vec<u8>>,
) -> (r: Result<(), Error>)
    ensures
        r == claim_fields_check(amount, coverage, details@, image_urls@),
{
    if amount <= 0 {
        return Err(Error::ClaimAmountZero);
    }
    if amount > coverage {
        return Err(Error::ClaimExceedsCoverage);
    }
    if details.len() > DETAILS_MAX_LEN as usize {
        return Err(Error::DetailsTooLong);
    }
    if image_urls.len() > IMAGE_URLS_MAX as usize {
        return Err(Error::TooManyImageUrls);
    }
    let mut i: usize = 0;
    while i < image_urls.len()
        invariant
            i <= image_urls.len(),
            0 < amount <= coverage,
            details@.len() <= DETAILS_MAX_LEN,
            image_urls@.len() <= IMAGE_URLS_MAX,
            forall|j: int| 0 <= j < i ==> (#[trigger] image_urls@[j])@.len() <= IMAGE_URL_MAX_LEN,
        decreases image_urls.len() - i,
    {
        if image_urls[i].len() > IMAGE_URL_MAX_LEN as usize {
            assert(has_long_url(image_urls@)) by {
                assert((image_urls@[i as int])@.len() > IMAGE_URL_MAX_LEN);
            }
            return Err(Error::ImageUrlTooLong);
        }
        i = i + 1;
    }
    Ok(())
}

/// A termination reason is at most `REASON_MAX_LEN` bytes.
pub fn check_reason(reason: &Vec<u8>) -> (r: Result<(), Error>)
    ensures
        r == (if reason@.len() > REASON_MAX_LEN {
            Err(Error::ReasonTooLong)
        } else {
            Ok(())
        }),
{
    if reason.len() > REASON_MAX_LEN as usize {
        return Err(Error::ReasonTooLong);
    }
    Ok(())
}

/// A claim is open for voting while it is `Processing`.
pub fn check_claim_open(claim: &Claim) -> (r: Result<(), Error>)
    ensures
        r == (if claim.status != ClaimStatus::Processing {
            Err(Error::ClaimAlreadyTerminal)
        } else {
            Ok(())
        }),
{
    if claim.status != ClaimStatus::Processing {
        return Err(Error::ClaimAlreadyTerminal);
    }
    Ok(())
}

/// The safety score of a risk input is at most `SAFETY_SCORE_MAX`.
pub fn check_risk_input(input: &RiskInput) -> (r: Result<(), Error>)
    ensures
        r == (if input.safety_score > SAFETY_SCORE_MAX {
            Err(Error::SafetyScoreOutOfRange)
        } else {
            Ok(())
        }),
{
    if input.safety_score > SAFETY_SCORE_MAX {
        return Err(Error::SafetyScoreOutOfRange);
    }
    Ok(())
}

/// Some entry of a table has key `k`.
pub open spec fn present<K>(entries: Seq<(K, i128)>, k: K) -> bool {
    exists|i: int| 0 <= i < entries.len() && (#[trigger] entries[i]).0 == k
}

/// Every region tier has an entry in the table.
pub open spec fn covers_regions(entries: Seq<(RegionTier, i128)>) -> bool {
    present(entries, RegionTier::Low) && present(entries, RegionTier::Medium) && present(entries, RegionTier::High)
}

/// Every age band has an entry in the table.
pub open spec fn covers_ages(entries: Seq<(AgeBand, i128)>) -> bool {
    present(entries, AgeBand::Young) && present(entries, AgeBand::Adult) && present(entries, AgeBand::Senior)
}

/// Every coverage type has an entry in the table.
pub open spec fn covers_coverages(entries: Seq<(CoverageType, i128)>) -> bool {
    present(entries, CoverageType::Basic) && present(entries, CoverageType::Standard) && present(
        entries,
        CoverageType::Premium,
    )
}

/// Whether some entry has key `r`.
fn has_region(entries: &Vec<(RegionTier, i128)>, r: RegionTier) -> (b: bool)
    ensures
        b == present(entries@, r),
{
    let mut i: usize = 0;
    while i < entries.len()
        invariant
            i <= entries.len(),
            forall|j: int| 0 <= j < i ==> (#[trigger] entries@[j]).0 != r,
        decreases entries.len() - i,
    {
        if entries[i].0 == r {
            return true;
        }
        i = i + 1;
    }
    false
}

/// Whether some entry has key `a`.
fn has_age(entries: &Vec<(AgeBand, i128)>, a: AgeBand) -> (b: bool)
    ensures
        b == present(entries@, a),
{
    let mut i: usize = 0;
    while i < entries.len()
        invariant
            i <= entries.len(),
            forall|j: int| 0 <= j < i ==> (#[trigger] entries@[j]).0 != a,
        decreases entries.len() - i,
    {
        if entries[i].0 == a {
            return true;
        }
        i = i + 1;
    }
    false
}

/// Whether some entry has key `c`.
fn has_coverage(entries: &Vec<(CoverageType, i128)>, c: CoverageType) -> (b: bool)
    ensures
        b == present(entries@, c),
{
    let mut i: usize = 0;
    while i < entries.len()
        invariant
            i <= entries.len(),
            forall|j: int| 0 <= j < i ==> (#[trigger] entries@[j]).0 != c,
        decreases entries.len() - i,
    {
        if entries[i].0 == c {
            return true;
        }
        i = i + 1;
    }
    false
}

/// What `check_multiplier_table_shape` returns.
pub open spec fn table_shape_check(table: MultiplierTable) -> Result<(), Error> {
    if !covers_regions(table.region@) {
        Err(Error::MissingRegionMultiplier)
    } else if !covers_ages(table.age@) {
        Err(Error::MissingAgeMultiplier)
    } else if !covers_coverages(table.coverage@) {
        Err(Error::MissingCoverageMultiplier)
    } else {
        Ok(())
    }
}

/// A multiplier table has a multiplier for each of the three region tiers,
/// age bands and coverage types.
pub fn check_multiplier_table_shape(table: &MultiplierTable) -> (r: Result<(), Error>)
    ensures
        r == table_shape_check(*table),
{
    let low = has_region(&table.region, RegionTier::Low);
    let medium = has_region(&table.region, RegionTier::Medium);
    let high = has_region(&table.region, RegionTier::High);
    if !(low && medium && high) {
        return Err(Error::MissingRegionMultiplier);
    }
    let young = has_age(&table.age, AgeBand::Young);
    let adult = has_age(&table.age, AgeBand::Adult);
    let senior = has_age(&table.age, AgeBand::Senior);
    if !(young && adult && senior) {
        return Err(Error::MissingAgeMultiplier);
    }
    let basic = has_coverage(&table.coverage, CoverageType::Basic);
    let standard = has_coverage(&table.coverage, CoverageType::Standard);
    let premium = has_coverage(&table.coverage, CoverageType::Premium);
    if !(basic && standard && premium) {
        return Err(Error::MissingCoverageMultiplier);
    }
    Ok(())
}

/// A trigger recorded at `trigger_ledger` has expired at `current_ledger`
/// once more than `max_ledger_age` ledgers have passed.
pub open spec fn trigger_expired(trigger_ledger: u32, current_ledger: u32, max_ledger_age: u32) -> bool {
    current_ledger > trigger_ledger + max_ledger_age
}

/// What `check_oracle_trigger` returns.  No oracle source is approved yet,
/// so a trigger that passes the other checks is refused by its source.
pub open spec fn oracle_trigger_check(
    oracle_enabled: bool,
    trigger: OracleTrigger,
    current_ledger: u32,
    max_ledger_age: u32,
) -> Result<(), OracleError> {
    if !oracle_enabled {
        Err(OracleError::OracleDisabled)
    } else if trigger_expired(trigger.trigger_ledger, current_ledger, max_ledger_age) {
        Err(OracleError::TriggerLedgerExpired)
    } else if trigger.signature@.len() != 0 {
        Err(OracleError::SignatureNotImplemented)
    } else {
        match trigger.source {
            OracleSource::Undefined => Err(OracleError::SourceNotWhitelisted),
        }
    }
}

/// Non-cryptographic checks of an oracle trigger: processing must be
/// enabled, the trigger fresh, its signature empty and its source approved.
pub fn check_oracle_trigger(
    st: &Storage,
    trigger: &OracleTrigger,
    current_ledger: u32,
    max_ledger_age: u32,
) -> (r: Result<(), OracleError>)
    ensures
        r == oracle_trigger_check(st.oracle_enabled, *trigger, current_ledger, max_ledger_age),
{
    if !crate::storage::is_oracle_enabled(st) {
        return Err(OracleError::OracleDisabled);
    }
    if current_ledger as u64 > trigger.trigger_ledger as u64 + max_ledger_age as u64 {
        return Err(OracleError::TriggerLedgerExpired);
    }
    if trigger.signature.len() != 0 {
        return Err(OracleError::SignatureNotImplemented);
    }
    match trigger.source {
        OracleSource::Undefined => Err(OracleError::SourceNotWhitelisted),
    }
}

/// The trigger lifecycle: a pending trigger may be validated, rejected or
/// expire; a validated one may be executed or rejected; executed, rejected
/// and expired triggers are final.  Staying in a non-final state is allowed.
pub open spec fn transition_allowed(from: TriggerStatus, to: TriggerStatus) -> bool {
    match from {
        TriggerStatus::Pending => match to {
            TriggerStatus::Executed => false,
            _ => true,
        },
        TriggerStatus::Validated => match to {
            TriggerStatus::Validated | TriggerStatus::Executed | TriggerStatus::Rejected => true,
            _ => false,
        },
        _ => false,
    }
}

/// A trigger status is final once the trigger is executed, rejected or expired.
pub open spec fn status_is_final(s: TriggerStatus) -> bool {
    s == TriggerStatus::Executed || s == TriggerStatus::Rejected || s == TriggerStatus::Expired
}

/// Checks a trigger status change against the trigger lifecycle.
pub fn check_trigger_status_transition(from: TriggerStatus, to: TriggerStatus) -> (r: Result<(), OracleError>)
    ensures
        r == (if transition_allowed(from, to) {
            Ok(())
        } else {
            Err(OracleError::TriggerAlreadyProcessed)
        }),
{
    let allowed = match from {
        TriggerStatus::Pending => !matches!(to, TriggerStatus::Executed),
        TriggerStatus::Validated => matches!(to, TriggerStatus::Validated | TriggerStatus::Executed | TriggerStatus::Rejected),
        _ => false,
    };
    if allowed {
        Ok(())
    } else {
        Err(OracleError::TriggerAlreadyProcessed)
    }
}

/// Final trigger statuses are absorbing: no transition leaves them, not even
/// to themselves.
pub proof fn law_final_trigger_status_absorbing(from: TriggerStatus, to: TriggerStatus)
    requires
        status_is_final(from),
    ensures
        !transition_allowed(from, to),
{
}

/// Image URLs are checked one by one: with amount, details and URL count
/// within limits, the claim fields are refused with `ImageUrlTooLong` as
/// soon as the URL at any index is longer than `IMAGE_URL_MAX_LEN` bytes,
/// and accepted when every URL fits.
pub proof fn law_long_image_url_refused(
    amount: i128,
    coverage: i128,
    details: Seq<u8>,
    image_urls: Seq<Vec<u8>>,
    i: int,
)
    requires
        0 < amount <= coverage,
        details.len() <= DETAILS_MAX_LEN,
        image_urls.len() <= IMAGE_URLS_MAX,
    ensures
        0 <= i < image_urls.len() && image_urls[i]@.len() > IMAGE_URL_MAX_LEN ==> claim_fields_check(
            amount,
            coverage,
            details,
            image_urls,
        ) == Err::<(), Error>(Error::ImageUrlTooLong),
        (forall|j: int| 0 <= j < image_urls.len() ==> (#[trigger] image_urls[j])@.len() <= IMAGE_URL_MAX_LEN)
            ==> claim_fields_check(amount, coverage, details, image_urls) == Ok::<(), Error>(()),
{
    if 0 <= i < image_urls.len() && image_urls[i]@.len() > IMAGE_URL_MAX_LEN {
        assert(has_long_url(image_urls));
    }
}

} // verus!
