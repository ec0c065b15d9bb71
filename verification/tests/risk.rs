use alphascout_agent::market::TxnCounts;
use alphascout_agent::risk::{
    assess_risk, tier_for_points, LiquidityDepth, RiskFlag, RiskSignals, RiskTier,
};

fn signals(
    liquidity: LiquidityDepth,
    age_minutes: Option<i64>,
    abnormal_churn: bool,
    txns_24h: Option<TxnCounts>,
    extreme_volatility: bool,
) -> RiskSignals {
    RiskSignals { liquidity, age_minutes, abnormal_churn, txns_24h, extreme_volatility }
}

#[test]
fn labels_of_tiers() {
    assert_eq!(RiskTier::High.label(), "high");
    assert_eq!(RiskTier::Elevated.label(), "elevated");
    assert_eq!(RiskTier::Moderate.label(), "moderate");
    assert_eq!(RiskTier::Low.label(), "low");
}

#[test]
fn tier_boundaries() {
    assert_eq!(tier_for_points(0), RiskTier::Low);
    assert_eq!(tier_for_points(1), RiskTier::Low);
    assert_eq!(tier_for_points(2), RiskTier::Moderate);
    assert_eq!(tier_for_points(3), RiskTier::Moderate);
    assert_eq!(tier_for_points(4), RiskTier::Elevated);
    assert_eq!(tier_for_points(6), RiskTier::Elevated);
    assert_eq!(tier_for_points(7), RiskTier::High);
    assert_eq!(tier_for_points(11), RiskTier::High);
}

#[test]
fn clean_pair_reports_all_clear() {
    let (tier, flags) = assess_risk(&signals(LiquidityDepth::Deep, Some(1000), false, None, false));
    assert_eq!(tier, RiskTier::Low);
    assert_eq!(flags, vec![RiskFlag::NoRedFlags]);
    assert_eq!(
        flags[0].describe(""),
        "No major heuristic red flags from available market data"
    );
}

#[test]
fn thin_and_brand_new_is_elevated() {
    let (tier, flags) =
        assess_risk(&signals(LiquidityDepth::ExtremelyThin, Some(10), false, None, false));
    assert_eq!(tier, RiskTier::Elevated);
    assert_eq!(
        flags,
        vec![RiskFlag::ExtremelyThinLiquidity, RiskFlag::BrandNewPair { age_minutes: 10 }]
    );
}

#[test]
fn every_signal_gives_high() {
    let txns = TxnCounts { buys: Some(2), sells: Some(40) };
    let (tier, flags) =
        assess_risk(&signals(LiquidityDepth::ExtremelyThin, Some(5), true, Some(txns), true));
    assert_eq!(tier, RiskTier::High);
    assert_eq!(
        flags,
        vec![
            RiskFlag::ExtremelyThinLiquidity,
            RiskFlag::BrandNewPair { age_minutes: 5 },
            RiskFlag::AbnormalChurn,
            RiskFlag::SellHeavy { buys: 2, sells: 40 },
            RiskFlag::ExtremeVolatility,
        ]
    );
}

#[test]
fn unknown_age_counts_one_point() {
    let (tier, flags) = assess_risk(&signals(LiquidityDepth::Thin, None, false, None, false));
    assert_eq!(tier, RiskTier::Moderate);
    assert_eq!(flags, vec![RiskFlag::ThinLiquidity, RiskFlag::UnknownPairAge]);
}

#[test]
fn one_point_stays_low() {
    let (tier, flags) = assess_risk(&signals(LiquidityDepth::Moderate, Some(400), false, None, false));
    assert_eq!(tier, RiskTier::Low);
    assert_eq!(flags, vec![RiskFlag::ModerateLiquidity]);
}

#[test]
fn early_pair_in_whole_hours() {
    let (tier, flags) = assess_risk(&signals(LiquidityDepth::Deep, Some(125), false, None, false));
    assert_eq!(tier, RiskTier::Low);
    assert_eq!(flags, vec![RiskFlag::EarlyPair { age_hours: 2 }]);
    assert_eq!(
        flags[0].describe(""),
        "Pair is 2h old \u{2014} still in early price-discovery window"
    );
}

#[test]
fn sell_skew_edges() {
    let heavy = TxnCounts { buys: Some(2), sells: Some(9) };
    let (_, flags) = assess_risk(&signals(LiquidityDepth::Deep, Some(1000), false, Some(heavy), false));
    assert_eq!(flags, vec![RiskFlag::SellHeavy { buys: 2, sells: 9 }]);

    // Exactly three quarters sells is not sell-heavy.
    let even = TxnCounts { buys: Some(3), sells: Some(9) };
    let (_, flags) = assess_risk(&signals(LiquidityDepth::Deep, Some(1000), false, Some(even), false));
    assert_eq!(flags, vec![RiskFlag::NoRedFlags]);

    // Ten transactions are too few.
    let few = TxnCounts { buys: None, sells: Some(10) };
    let (_, flags) = assess_risk(&signals(LiquidityDepth::Deep, Some(1000), false, Some(few), false));
    assert_eq!(flags, vec![RiskFlag::NoRedFlags]);

    let missing_buys = TxnCounts { buys: None, sells: Some(11) };
    let (tier, flags) =
        assess_risk(&signals(LiquidityDepth::Deep, Some(1000), false, Some(missing_buys), false));
    assert_eq!(tier, RiskTier::Moderate);
    assert_eq!(flags, vec![RiskFlag::SellHeavy { buys: 0, sells: 11 }]);
}

#[test]
fn flag_texts() {
    assert_eq!(
        RiskFlag::ExtremelyThinLiquidity.describe("ignored"),
        "Liquidity under $5k \u{2014} extremely thin, large slippage risk"
    );
    assert_eq!(
        RiskFlag::ThinLiquidity.describe(""),
        "Liquidity under $25k \u{2014} thin, sized for small trades only"
    );
    assert_eq!(RiskFlag::ModerateLiquidity.describe(""), "Liquidity under $100k \u{2014} moderate depth");
    assert_eq!(
        RiskFlag::BrandNewPair { age_minutes: -5 }.describe(""),
        "Pair is -5 minutes old \u{2014} pre-discovery stage, unverified"
    );
    assert_eq!(
        RiskFlag::UnknownPairAge.describe(""),
        "Pair creation time unavailable \u{2014} cannot confirm launch recency"
    );
    assert_eq!(
        RiskFlag::AbnormalChurn.describe("23.4"),
        "24h volume is 23.4x liquidity \u{2014} abnormal churn, possible wash trading"
    );
    assert_eq!(
        RiskFlag::SellHeavy { buys: 1, sells: 9 }.describe("90"),
        "Sell-heavy: 90% of 24h txns are sells \u{2014} possible distribution/dump pattern"
    );
    assert_eq!(
        RiskFlag::ExtremeVolatility.describe("+63"),
        "1h price move of +63% \u{2014} extreme volatility"
    );
}

#[test]
fn thinner_liquidity_never_safer() {
    let depths = [
        LiquidityDepth::Deep,
        LiquidityDepth::Moderate,
        LiquidityDepth::Thin,
        LiquidityDepth::ExtremelyThin,
    ];
    let rank = |t: RiskTier| match t {
        RiskTier::Low => 0,
        RiskTier::Moderate => 1,
        RiskTier::Elevated => 2,
        RiskTier::High => 3,
    };
    let mut prev = -1;
    for d in depths {
        let (tier, _) = assess_risk(&signals(d, Some(100), false, None, false));
        assert!(rank(tier) >= prev);
        prev = rank(tier);
    }
}
