use alphascout_agent::tool::{
    high_conviction_empty_note, scout_empty_note, select_high_conviction, AlphaScoutApp,
    HighConvictionPicksArgs, ScoutNewTokensArgs,
};

#[test]
fn scout_defaults() {
    let p = ScoutNewTokensArgs { query: None, max_age_minutes: None, limit: None }.plan();
    assert_eq!(p.query, "base");
    assert_eq!(p.max_age_minutes, 60);
    assert_eq!(p.limit, 10);
}

#[test]
fn scout_bounds() {
    let p = ScoutNewTokensArgs {
        query: Some("ethereum".to_string()),
        max_age_minutes: Some(5000),
        limit: Some(100),
    }
    .plan();
    assert_eq!(p.query, "ethereum");
    assert_eq!(p.max_age_minutes, 1440);
    assert_eq!(p.limit, 25);
    let p = ScoutNewTokensArgs { query: None, max_age_minutes: Some(0), limit: Some(3) }.plan();
    assert_eq!(p.max_age_minutes, 1);
    assert_eq!(p.limit, 3);
    let p = ScoutNewTokensArgs { query: None, max_age_minutes: Some(-7), limit: Some(0) }.plan();
    assert_eq!(p.max_age_minutes, 1);
    assert_eq!(p.limit, 0);
}

#[test]
fn picks_defaults() {
    let p = HighConvictionPicksArgs { query: None, max_age_minutes: None }.plan();
    assert_eq!(p.query, "base");
    assert_eq!(p.max_age_minutes, 360);
    assert_eq!(p.limit, 25);
    let p = HighConvictionPicksArgs { query: Some("sol".to_string()), max_age_minutes: Some(90) }
        .plan();
    assert_eq!(p.query, "sol");
    assert_eq!(p.max_age_minutes, 90);
}

#[test]
fn picks_deepest_first() {
    let keys = vec![10, 60, 60, 5, 100, 70, 80, 90];
    assert_eq!(select_high_conviction(&keys, 50), vec![4, 7, 6, 5, 1]);
    assert_eq!(select_high_conviction(&keys, 100), Vec::<usize>::new());
    assert_eq!(select_high_conviction(&vec![51, 50], 50), vec![0]);
}

#[test]
fn notes() {
    assert_eq!(
        scout_empty_note(60, "base"),
        "No pairs found younger than 60 minutes for query 'base'. Try a wider max_age_minutes or a different query."
    );
    assert_eq!(
        high_conviction_empty_note(),
        "No recent launches cleared the $50k liquidity bar in this window. Try a longer max_age_minutes."
    );
}

#[test]
fn app_default() {
    let _app: AlphaScoutApp = Default::default();
}
