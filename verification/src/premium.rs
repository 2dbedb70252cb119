use vstd::prelude::*;

use crate::types::{PolicyType, PremiumQuoteLineItem, RegionTier};

verus! {

/// Base annual premium in stroops (1 XLM = 10_000_000 stroops).
pub const BASE: i128 = 10_000_000;

/// The type risk factor of a policy type.
pub open spec fn spec_type_factor(policy_type: PolicyType) -> int {
    match policy_type {
        PolicyType::Auto => 15,
        PolicyType::Health => 20,
        PolicyType::Property => 10,
    }
}

/// The region risk factor of a region tier.
pub open spec fn spec_region_factor(region: RegionTier) -> int {
    match region {
        RegionTier::Low => 8,
        RegionTier::Medium => 10,
        RegionTier::High => 14,
    }
}

/// The age risk factor: 15 under 25, 13 over 60, 10 otherwise.
pub open spec fn spec_age_factor(age: u32) -> int {
    if age < 25 {
        15
    } else if age > 60 {
        13
    } else {
        10
    }
}

/// The premium share of one factor: `BASE * factor / 10`.
pub open spec fn factor_amount(factor: int) -> int {
    BASE * factor / 10
}

/// The sum of all risk factors of a quote.
pub open spec fn raw_factor(policy_type: PolicyType, region: RegionTier, age: u32, risk_score: u32) -> int {
    spec_type_factor(policy_type) + spec_region_factor(region) + spec_age_factor(age) + risk_score
}

/// The total premium of a quote: `BASE * (sum of factors) / 10`.
pub open spec fn spec_premium(policy_type: PolicyType, region: RegionTier, age: u32, risk_score: u32) -> int {
    factor_amount(raw_factor(policy_type, region, age, risk_score))
}

/// Returns the type risk factor.
pub fn type_factor(policy_type: &PolicyType) -> (f: i128)
    ensures
        f == spec_type_factor(*policy_type),
{
    match policy_type {
        PolicyType::Auto => 15,
        PolicyType::Health => 20,
        PolicyType::Property => 10,
    }
}

/// Returns the region risk factor.
pub fn region_factor(region: &RegionTier) -> (f: i128)
    ensures
        f == spec_region_factor(*region),
{
    match region {
        RegionTier::Low => 8,
        RegionTier::Medium => 10,
        RegionTier::High => 14,
    }
}

/// Returns the age risk factor.
pub fn age_factor(age: u32) -> (f: i128)
    ensures
        f == spec_age_factor(age),
{
    if age < 25 {
        15
    } else if age > 60 {
        13
    } else {
        10
    }
}

/// `BASE * factor / 10` for a factor in `0..=u32::MAX + 50`; with these bounds
/// the checked operations never fail.
fn checked_factor_amount(factor: i128) -> (r: Option<i128>)
    requires
        0 <= factor <= 0x1_0000_0000 + 50,
    ensures
        r == Some(factor_amount(factor as int) as i128),
        factor_amount(factor as int) == 1_000_000 * factor,
{
    assert(BASE * factor <= 10_000_000 * (0x1_0000_0000 + 50)) by (nonlinear_arith)
        requires
            0 <= factor <= 0x1_0000_0000 + 50,
    ;
    let product = BASE.checked_mul(factor);
    match product {
        Some(p) => p.checked_div(10),
        None => None,
    }
}

/// Computes the total premium with checked arithmetic: `BASE * raw / 10`
/// where `raw` is the sum of the type, region and age factors and the risk
/// score.  The factors are small, so the result is always `Some`.
pub fn compute_premium_checked(
    policy_type: &PolicyType,
    region: &RegionTier,
    age: u32,
    risk_score: u32,
) -> (r: Option<i128>)
    ensures
        r == Some(spec_premium(*policy_type, *region, age, risk_score) as i128),
        spec_premium(*policy_type, *region, age, risk_score) == 1_000_000 * raw_factor(
            *policy_type,
            *region,
            age,
            risk_score,
        ),
{
    let raw = type_factor(policy_type) + region_factor(region) + age_factor(age) + risk_score as i128;
    checked_factor_amount(raw)
}

/// The breakdown of a quote into one line per factor: type, region, age and
/// risk score, each with its factor and its share `BASE * factor / 10`.
pub open spec fn spec_line_items(policy_type: PolicyType, region: RegionTier, age: u32, risk_score: u32) -> Seq<(Seq<char>, int, int)> {
    seq![
        ("type"@, spec_type_factor(policy_type), factor_amount(spec_type_factor(policy_type))),
        ("region"@, spec_region_factor(region), factor_amount(spec_region_factor(region))),
        ("age"@, spec_age_factor(age), factor_amount(spec_age_factor(age))),
        ("risk_score"@, risk_score as int, factor_amount(risk_score as int)),
    ]
}

/// The plain view of a list of line items: component text, factor, amount.
pub open spec fn line_items_view(items: Seq<PremiumQuoteLineItem>) -> Seq<(Seq<char>, int, int)> {
    items.map_values(|it: PremiumQuoteLineItem| (it.component@, it.factor as int, it.amount as int))
}

/// The sum of the amounts of a breakdown.
pub open spec fn line_items_total(items: Seq<(Seq<char>, int, int)>) -> int
    decreases items.len(),
{
    if items.len() == 0 {
        0
    } else {
        line_items_total(items.drop_last()) + items.last().2
    }
}

/// Builds the premium breakdown line items.  Each factor is computed once
/// and used for both its `factor` and `amount` fields.
pub fn build_line_items(
    policy_type: &PolicyType,
    region: &RegionTier,
    age: u32,
    risk_score: u32,
) -> (r: Option<Vec<PremiumQuoteLineItem>>)
    ensures
        r is Some,
        line_items_view(r->0@) == spec_line_items(*policy_type, *region, age, risk_score),
{
    let tf = type_factor(policy_type);
    let rf = region_factor(region);
    let af = age_factor(age);
    let rsk = risk_score as i128;

    let amt_type = checked_factor_amount(tf);
    let amt_region = checked_factor_amount(rf);
    let amt_age = checked_factor_amount(af);
    let amt_risk = checked_factor_amount(rsk);
    match (amt_type, amt_region, amt_age, amt_risk) {
        (Some(amt_type), Some(amt_region), Some(amt_age), Some(amt_risk)) => {
            let mut items: Vec<PremiumQuoteLineItem> = Vec::new();
            items.push(PremiumQuoteLineItem { component: "type".to_owned(), factor: tf, amount: amt_type });
            items.push(PremiumQuoteLineItem { component: "region".to_owned(), factor: rf, amount: amt_region });
            items.push(PremiumQuoteLineItem { component: "age".to_owned(), factor: af, amount: amt_age });
            items.push(PremiumQuoteLineItem { component: "risk_score".to_owned(), factor: rsk, amount: amt_risk });
            assert(line_items_view(items@) =~= spec_line_items(*policy_type, *region, age, risk_score));
            Some(items)
        },
        _ => None,
    }
}

/// The breakdown of a quote adds up to its total premium: the four line
/// amounts sum to `compute_premium_checked` of the same inputs.
pub proof fn law_breakdown_sums_to_premium(
    policy_type: PolicyType,
    region: RegionTier,
    age: u32,
    risk_score: u32,
)
    ensures
        line_items_total(spec_line_items(policy_type, region, age, risk_score)) == spec_premium(
            policy_type,
            region,
            age,
            risk_score,
        ),
{
    let items = spec_line_items(policy_type, region, age, risk_score);
    assert(items.drop_last().drop_last().drop_last().drop_last() =~= Seq::<(Seq<char>, int, int)>::empty());
    reveal_with_fuel(line_items_total, 5);
    let t = spec_type_factor(policy_type);
    let g = spec_region_factor(region);
    let a = spec_age_factor(age);
    let k = risk_score as int;
    assert(factor_amount(t) == 1_000_000 * t);
    assert(factor_amount(g) == 1_000_000 * g);
    assert(factor_amount(a) == 1_000_000 * a);
    assert(factor_amount(k) == 1_000_000 * k) by (nonlinear_arith)
        requires
            k >= 0,
    ;
    assert(factor_amount(t + g + a + k) == 1_000_000 * (t + g + a + k)) by (nonlinear_arith)
        requires
            k >= 0,
            t >= 0,
            g >= 0,
            a >= 0,
    ;
}

/// The risk factor tables: policy type Auto 15, Health 20, Property 10;
/// region Low 8, Medium 10, High 14; age 15 under 25, 10 from 25 to 60 and
/// 13 for every age above 60.
pub proof fn law_factor_tables(age: u32)
    ensures
        spec_type_factor(PolicyType::Auto) == 15,
        spec_type_factor(PolicyType::Health) == 20,
        spec_type_factor(PolicyType::Property) == 10,
        spec_region_factor(RegionTier::Low) == 8,
        spec_region_factor(RegionTier::Medium) == 10,
        spec_region_factor(RegionTier::High) == 14,
        age < 25 ==> spec_age_factor(age) == 15,
        25 <= age <= 60 ==> spec_age_factor(age) == 10,
        age > 60 ==> spec_age_factor(age) == 13,
{
}

/// Every policyholder above 60 pays the same premium, whatever the age:
/// 1_000_000 stroops per unit of the type factor, the region factor, the
/// senior age factor 13 and the risk score.
pub proof fn law_senior_premium(policy_type: PolicyType, region: RegionTier, age: u32, other_age: u32, risk_score: u32)
    requires
        age > 60,
        other_age > 60,
    ensures
        spec_premium(policy_type, region, age, risk_score) == spec_premium(policy_type, region, other_age, risk_score),
        spec_premium(policy_type, region, age, risk_score) == 1_000_000 * (spec_type_factor(policy_type)
            + spec_region_factor(region) + 13 + risk_score),
{
    let k = risk_score as int;
    let t = spec_type_factor(policy_type) + spec_region_factor(region) + 13 + k;
    assert(BASE * t / 10 == 1_000_000 * t) by (nonlinear_arith)
        requires
            t >= 0,
    ;
}

} // verus!
