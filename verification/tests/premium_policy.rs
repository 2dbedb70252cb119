use niffyinsure::policy::{map_quote_error, quote_premium, QuoteError, BUILT_IN_TABLE_VERSION, QUOTE_TTL_LEDGERS};
use niffyinsure::premium::{age_factor, build_line_items, compute_premium_checked, region_factor, type_factor, BASE};
use niffyinsure::types::{PolicyType, RegionTier};

#[test]
fn factor_tables() {
    assert_eq!(type_factor(&PolicyType::Auto), 15);
    assert_eq!(type_factor(&PolicyType::Health), 20);
    assert_eq!(type_factor(&PolicyType::Property), 10);
    assert_eq!(region_factor(&RegionTier::Low), 8);
    assert_eq!(region_factor(&RegionTier::Medium), 10);
    assert_eq!(region_factor(&RegionTier::High), 14);
    assert_eq!(age_factor(24), 15);
    assert_eq!(age_factor(25), 10);
    assert_eq!(age_factor(60), 10);
    assert_eq!(age_factor(61), 13);
}

#[test]
fn premium_is_base_times_factor_sum_over_ten() {
    // 15 + 10 + 10 + 5 = 40; 10_000_000 * 40 / 10 = 40_000_000.
    assert_eq!(compute_premium_checked(&PolicyType::Auto, &RegionTier::Medium, 30, 5), Some(40_000_000));
    // 20 + 14 + 13 + 10 = 57.
    assert_eq!(compute_premium_checked(&PolicyType::Health, &RegionTier::High, 70, 10), Some(57_000_000));
    // 10 + 8 + 15 + 1 = 34.
    assert_eq!(compute_premium_checked(&PolicyType::Property, &RegionTier::Low, 18, 1), Some(34_000_000));
    assert_eq!(BASE, 10_000_000);
}

#[test]
fn breakdown_lines_sum_to_total() {
    let items = build_line_items(&PolicyType::Auto, &RegionTier::Medium, 30, 5).unwrap();
    let names: Vec<&str> = items.iter().map(|it| it.component.as_str()).collect();
    assert_eq!(names, vec!["type", "region", "age", "risk_score"]);
    let factors: Vec<i128> = items.iter().map(|it| it.factor).collect();
    assert_eq!(factors, vec![15, 10, 10, 5]);
    let amounts: Vec<i128> = items.iter().map(|it| it.amount).collect();
    assert_eq!(amounts, vec![15_000_000, 10_000_000, 10_000_000, 5_000_000]);
    let total: i128 = amounts.iter().sum();
    assert_eq!(Some(total), compute_premium_checked(&PolicyType::Auto, &RegionTier::Medium, 30, 5));
}

#[test]
fn quote_with_and_without_breakdown() {
    let q = quote_premium(1_000, PolicyType::Health, RegionTier::Low, 40, 3, false).unwrap();
    assert_eq!(q.total_premium, 41_000_000);
    assert_eq!(q.valid_until_ledger, 1_000 + QUOTE_TTL_LEDGERS);
    assert_eq!(q.config_version, BUILT_IN_TABLE_VERSION);
    assert!(q.line_items.is_none());

    let q = quote_premium(7, PolicyType::Health, RegionTier::Low, 40, 3, true).unwrap();
    assert_eq!(q.valid_until_ledger, 107);
    let items = q.line_items.unwrap();
    assert_eq!(items.len(), 4);
    let sum: i128 = items.iter().map(|it| it.amount).sum();
    assert_eq!(sum, q.total_premium);
}

#[test]
fn quote_input_errors() {
    assert_eq!(quote_premium(0, PolicyType::Auto, RegionTier::Low, 0, 5, false).unwrap_err(), QuoteError::InvalidAge);
    assert_eq!(quote_premium(0, PolicyType::Auto, RegionTier::Low, 121, 5, false).unwrap_err(), QuoteError::InvalidAge);
    assert!(quote_premium(0, PolicyType::Auto, RegionTier::Low, 120, 5, false).is_ok());
    assert!(quote_premium(0, PolicyType::Auto, RegionTier::Low, 1, 5, false).is_ok());
    assert_eq!(quote_premium(0, PolicyType::Auto, RegionTier::Low, 30, 0, false).unwrap_err(), QuoteError::InvalidRiskScore);
    assert_eq!(quote_premium(0, PolicyType::Auto, RegionTier::Low, 30, 11, false).unwrap_err(), QuoteError::InvalidRiskScore);
    // The age is checked before the risk score.
    assert_eq!(quote_premium(0, PolicyType::Auto, RegionTier::Low, 0, 0, false).unwrap_err(), QuoteError::InvalidAge);
}

#[test]
fn quote_window_overflow_is_reported() {
    assert_eq!(
        quote_premium(u32::MAX - 99, PolicyType::Auto, RegionTier::Low, 30, 5, false).unwrap_err(),
        QuoteError::ArithmeticOverflow
    );
    let q = quote_premium(u32::MAX - 100, PolicyType::Auto, RegionTier::Low, 30, 5, false).unwrap();
    assert_eq!(q.valid_until_ledger, u32::MAX);
}

#[test]
fn quote_errors_map_to_codes_and_messages() {
    let f = map_quote_error(QuoteError::InvalidAge);
    assert_eq!(f.code, 1);
    assert_eq!(f.message, "invalid age: expected 1..=120");
    let f = map_quote_error(QuoteError::InvalidRiskScore);
    assert_eq!(f.code, 2);
    assert_eq!(f.message, "invalid risk_score: expected 1..=10");
    let f = map_quote_error(QuoteError::InvalidQuoteTtl);
    assert_eq!(f.code, 3);
    assert_eq!(f.message, "quote ttl misconfigured: contact support");
    let f = map_quote_error(QuoteError::ArithmeticOverflow);
    assert_eq!(f.code, 4);
    assert_eq!(f.message, "pricing arithmetic overflow: contact support");
    assert_eq!(QuoteError::ArithmeticOverflow.code(), 4);
}
