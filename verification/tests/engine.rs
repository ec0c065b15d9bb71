use alphascout_agent::engine::{
    format_for_text, help_reply, route_lowercase, no_pairs_reply, route_message, scan_failed_reply, token_report,
    Command, ListingFields, ReportFields,
};

fn scan_of(c: &Command) -> Option<(String, i64, usize)> {
    match c {
        Command::Scan(p) => Some((p.query.clone(), p.max_age_minutes, p.limit)),
        _ => None,
    }
}

fn picks_of(c: &Command) -> Option<(String, i64, usize)> {
    match c {
        Command::Picks(p) => Some((p.query.clone(), p.max_age_minutes, p.limit)),
        _ => None,
    }
}

#[test]
fn routes_scans() {
    let c = route_message("scout new tokens");
    assert_eq!(scan_of(&c), Some(("base".to_string(), 60, 10)));
    let c = route_message("SCAN please");
    assert_eq!(scan_of(&c), Some(("base".to_string(), 60, 10)));
    let c = route_message("anything newest?");
    assert_eq!(scan_of(&c), Some(("base".to_string(), 60, 10)));
}

#[test]
fn routes_picks() {
    let c = route_message("high conviction");
    assert_eq!(picks_of(&c), Some(("base".to_string(), 360, 25)));
    let c = route_message("what are the TOP picks");
    assert_eq!(picks_of(&c), Some(("base".to_string(), 360, 25)));
    let c = route_message("Best ones");
    assert_eq!(picks_of(&c), Some(("base".to_string(), 360, 25)));
    assert_eq!(picks_of(&route_lowercase("top")), Some(("base".to_string(), 360, 25)));
    // Already lower-case text only: upper case does not match.
    assert!(matches!(route_lowercase("TOP"), Command::Help));
    // A scan word wins over a picks word.
    let c = route_message("top new launches");
    assert_eq!(scan_of(&c), Some(("base".to_string(), 60, 10)));
}

#[test]
fn routes_help() {
    assert!(matches!(route_message("hello"), Command::Help));
    assert!(matches!(route_message(""), Command::Help));
    assert_eq!(
        help_reply(),
        "AlphaScout here. Try:\n\u{2022} \"scout new tokens\" \u{2014} recent Base launches\n\u{2022} \"high conviction\" \u{2014} top recent launches by liquidity\nFor a deep dive on one token, use the AlphaScout Aomi agent directly, which can take a specific pair address."
    );
}

#[test]
fn report_of_a_summary() {
    let f = ReportFields {
        name: Some("Pepe".to_string()),
        symbol: Some("PEPE".to_string()),
        risk_tier: Some("high".to_string()),
        risk_flags: Some(vec![Some("thin".to_string()), None, Some("new".to_string())]),
    };
    assert_eq!(token_report(&f), "Pepe (PEPE)\nRisk: high\n  - thin\n  - new");
}

#[test]
fn report_of_an_empty_summary() {
    let f = ReportFields { name: None, symbol: None, risk_tier: None, risk_flags: None };
    assert_eq!(token_report(&f), "? (?)\nRisk: ?\n");
    let g = ReportFields { name: None, symbol: None, risk_tier: None, risk_flags: Some(vec![None]) };
    assert_eq!(token_report(&g), "? (?)\nRisk: ?\n");
}

#[test]
fn scan_replies() {
    assert_eq!(
        no_pairs_reply(60, "base"),
        "No pairs found younger than 60 minutes for 'base'. Try again shortly \u{2014} new pairs surface continuously."
    );
    assert_eq!(scan_failed_reply("timeout"), "Scan failed: timeout");
}

#[test]
fn listing_text() {
    assert_eq!(format_for_text(&None), "No results.");
    assert_eq!(format_for_text(&Some(vec![])), "No results.");
    let a = ListingFields {
        name: Some("Pepe".to_string()),
        symbol: Some("PEPE".to_string()),
        liquidity: "12345".to_string(),
        pair_age_minutes: Some(42),
        risk_tier: Some("low".to_string()),
        pair_address: Some("0xabc".to_string()),
    };
    let b = ListingFields {
        name: None,
        symbol: None,
        liquidity: "0".to_string(),
        pair_age_minutes: None,
        risk_tier: None,
        pair_address: None,
    };
    assert_eq!(
        format_for_text(&Some(vec![a, b])),
        "\u{1FA99} Pepe (PEPE)\n   Liquidity: $12345 | Age: 42m | Risk: low\n   Pair: 0xabc\n\n\u{1FA99} ? (?)\n   Liquidity: $0 | Age: ? | Risk: ?\n   Pair: ?\n\n"
    );
}

#[test]
fn listing_of_two_lists_is_two_listings() {
    let entry = |n: &str| ListingFields {
        name: Some(n.to_string()),
        symbol: None,
        liquidity: "1".to_string(),
        pair_age_minutes: Some(-3),
        risk_tier: None,
        pair_address: None,
    };
    let a = vec![entry("A")];
    let b = vec![entry("B"), entry("C")];
    let mut ab = a.clone();
    ab.extend(b.clone());
    assert_eq!(
        format_for_text(&Some(ab)),
        format_for_text(&Some(a)) + &format_for_text(&Some(b))
    );
    assert!(format_for_text(&Some(vec![entry("A")])).contains("Age: -3m"));
}
