//! Premium quotes: input checks, pricing and the quote's validity window.
use vstd::prelude::*;

use crate::premium::{
    build_line_items, compute_premium_checked, line_items_total, line_items_view,
    spec_line_items, spec_premium,
};
use crate::ledger::current_ledger_sequence;
use crate::types::{PolicyType, PremiumQuote, RegionTier};
use soroban_sdk::Env;

verus! {

/// How long a quote stays valid (in ledgers) from generation time.
pub const QUOTE_TTL_LEDGERS: u32 = 100;

/// The quote factors come from the built-in factor table, which carries
/// version 0; admin-configured multiplier tables start at version 1.
pub const BUILT_IN_TABLE_VERSION: u32 = 0;

/// Why a premium quote was refused.
#[derive(Clone, Copy, PartialEq, Eq, Structural, Debug, PartialOrd, Ord)]
pub enum QuoteError {
    InvalidAge,
    InvalidRiskScore,
    InvalidQuoteTtl,
    ArithmeticOverflow,
}

impl QuoteError {
    /// The numeric error code: 1 to 4 in declaration order.
    pub open spec fn spec_code(&self) -> u32 {
        match *self {
            QuoteError::InvalidAge => 1,
            QuoteError::InvalidRiskScore => 2,
            QuoteError::InvalidQuoteTtl => 3,
            QuoteError::ArithmeticOverflow => 4,
        }
    }

    /// The numeric error code.
    #[verifier::when_used_as_spec(spec_code)]
    pub fn code(&self) -> (c: u32)
        ensures
            c == self.spec_code(),
    {
        match self {
            QuoteError::InvalidAge => 1,
            QuoteError::InvalidRiskScore => 2,
            QuoteError::InvalidQuoteTtl => 3,
            QuoteError::ArithmeticOverflow => 4,
        }
    }
}

/// A refused quote, as shown to the user: error code and message.
#[derive(Clone, Debug)]
pub struct QuoteFailure {
    pub code: u32,
    pub message: String,
}

/// Which error, if any, a quote request meets: the age must be in `1..=120`,
/// the risk score in `1..=10`, and the validity window must fit in a `u32`.
pub open spec fn quote_error(age: u32, risk_score: u32, current_ledger: u32) -> Option<QuoteError> {
    if age == 0 || age > 120 {
        Some(QuoteError::InvalidAge)
    } else if risk_score == 0 || risk_score > 10 {
        Some(QuoteError::InvalidRiskScore)
    } else if current_ledger + QUOTE_TTL_LEDGERS > u32::MAX {
        Some(QuoteError::ArithmeticOverflow)
    } else {
        None
    }
}

/// `r` is the quote for the request at ledger `current_ledger`: refused with
/// the error `quote_error` names, if any; otherwise the total premium, the
/// breakdown when asked for, and the last ledger at which the quote is valid
/// (`current_ledger + QUOTE_TTL_LEDGERS`).
pub open spec fn is_quote_for(
    r: Result<PremiumQuote, QuoteError>,
    current_ledger: u32,
    policy_type: PolicyType,
    region: RegionTier,
    age: u32,
    risk_score: u32,
    include_breakdown: bool,
) -> bool {
    match quote_error(age, risk_score, current_ledger) {
        Some(e) => r == Err::<PremiumQuote, QuoteError>(e),
        None => r matches Ok(q) && {
            &&& q.total_premium == spec_premium(policy_type, region, age, risk_score)
            &&& q.valid_until_ledger == current_ledger + QUOTE_TTL_LEDGERS
            &&& q.config_version == BUILT_IN_TABLE_VERSION
            &&& if include_breakdown {
                q.line_items matches Some(items) && line_items_view(items@) == spec_line_items(
                    policy_type,
                    region,
                    age,
                    risk_score,
                )
            } else {
                q.line_items is None
            }
        },
    }
}

/// Generates a premium quote at the ledger the transaction runs in.
pub fn generate_premium(
    env: &Env,
    policy_type: PolicyType,
    region: RegionTier,
    age: u32,
    risk_score: u32,
    include_breakdown: bool,
) -> (r: Result<PremiumQuote, QuoteError>)
    ensures
        exists|ledger: u32| is_quote_for(r, ledger, policy_type, region, age, risk_score, include_breakdown),
{
    if age == 0 || age > 120 {
        assert(is_quote_for(Err(QuoteError::InvalidAge), 0, policy_type, region, age, risk_score, include_breakdown));
        return Err(QuoteError::InvalidAge);
    }
    if risk_score == 0 || risk_score > 10 {
        assert(is_quote_for(Err(QuoteError::InvalidRiskScore), 0, policy_type, region, age, risk_score, include_breakdown));
        return Err(QuoteError::InvalidRiskScore);
    }
    let current_ledger = current_ledger_sequence(env);
    quote_premium(current_ledger, policy_type, region, age, risk_score, include_breakdown)
}

/// The premium quote for a request at ledger `current_ledger`.
pub fn quote_premium(
    current_ledger: u32,
    policy_type: PolicyType,
    region: RegionTier,
    age: u32,
    risk_score: u32,
    include_breakdown: bool,
) -> (r: Result<PremiumQuote, QuoteError>)
    ensures
        is_quote_for(r, current_ledger, policy_type, region, age, risk_score, include_breakdown),
{
    if age == 0 || age > 120 {
        return Err(QuoteError::InvalidAge);
    }
    if risk_score == 0 || risk_score > 10 {
        return Err(QuoteError::InvalidRiskScore);
    }
    let total = match compute_premium_checked(&policy_type, &region, age, risk_score) {
        Some(t) => t,
        None => return Err(QuoteError::ArithmeticOverflow),
    };
    let line_items = if include_breakdown {
        match build_line_items(&policy_type, &region, age, risk_score) {
            Some(items) => Some(items),
            None => return Err(QuoteError::ArithmeticOverflow),
        }
    } else {
        None
    };
    let valid_until_ledger = match current_ledger.checked_add(QUOTE_TTL_LEDGERS) {
        Some(v) => v,
        None => return Err(QuoteError::ArithmeticOverflow),
    };
    Ok(PremiumQuote { total_premium: total, line_items, valid_until_ledger, config_version: BUILT_IN_TABLE_VERSION })
}

/// The message shown for each quote error.
pub open spec fn quote_error_message(err: QuoteError) -> Seq<char> {
    match err {
        QuoteError::InvalidAge => "invalid age: expected 1..=120"@,
        QuoteError::InvalidRiskScore => "invalid risk_score: expected 1..=10"@,
        QuoteError::InvalidQuoteTtl => "quote ttl misconfigured: contact support"@,
        QuoteError::ArithmeticOverflow => "pricing arithmetic overflow: contact support"@,
    }
}

/// Maps a quote error to its code and user-facing message.
pub fn map_quote_error(err: QuoteError) -> (f: QuoteFailure)
    ensures
        f.code == err.spec_code(),
        f.message@ == quote_error_message(err),
{
    let message = match err {
        QuoteError::InvalidAge => "invalid age: expected 1..=120",
        QuoteError::InvalidRiskScore => "invalid risk_score: expected 1..=10",
        QuoteError::InvalidQuoteTtl => "quote ttl misconfigured: contact support",
        QuoteError::ArithmeticOverflow => "pricing arithmetic overflow: contact support",
    };
    QuoteFailure { code: err.code(), message: message.to_owned() }
}

/// A quote's breakdown adds up: whenever a quote with breakdown is
/// granted, its line amounts sum to its total premium.
pub proof fn law_quote_breakdown_adds_up(
    r: Result<PremiumQuote, QuoteError>,
    current_ledger: u32,
    policy_type: PolicyType,
    region: RegionTier,
    age: u32,
    risk_score: u32,
)
    requires
        is_quote_for(r, current_ledger, policy_type, region, age, risk_score, true),
        r is Ok,
    ensures
        r->Ok_0.line_items is Some,
        line_items_total(line_items_view(r->Ok_0.line_items->0@)) == r->Ok_0.total_premium,
{
    crate::premium::law_breakdown_sums_to_premium(policy_type, region, age, risk_score);
}

/// A quote requested at ledger `current_ledger` stays valid for exactly
/// `QUOTE_TTL_LEDGERS` ledgers: a granted quote expires at
/// `current_ledger + QUOTE_TTL_LEDGERS`, and the request is refused as an
/// overflow only when that ledger does not fit in a `u32`.  Ages outside
/// `1..=120` and risk scores outside `1..=10` are refused first.
pub proof fn law_quote_valid_for_ttl(
    r: Result<PremiumQuote, QuoteError>,
    current_ledger: u32,
    policy_type: PolicyType,
    region: RegionTier,
    age: u32,
    risk_score: u32,
    include_breakdown: bool,
)
    requires
        is_quote_for(r, current_ledger, policy_type, region, age, risk_score, include_breakdown),
    ensures
        age == 0 || age > 120 ==> r == Err::<PremiumQuote, QuoteError>(QuoteError::InvalidAge),
        1 <= age <= 120 && (risk_score == 0 || risk_score > 10) ==> r == Err::<PremiumQuote, QuoteError>(
            QuoteError::InvalidRiskScore,
        ),
        1 <= age <= 120 && 1 <= risk_score <= 10 && current_ledger + 100 > u32::MAX ==> r == Err::<
            PremiumQuote,
            QuoteError,
        >(QuoteError::ArithmeticOverflow),
        1 <= age <= 120 && 1 <= risk_score <= 10 && current_ledger + 100 <= u32::MAX ==> r is Ok,
        r is Ok ==> r->Ok_0.valid_until_ledger == current_ledger + 100,
        r is Ok ==> r->Ok_0.total_premium == spec_premium(policy_type, region, age, risk_score),
{
}

} // verus!
