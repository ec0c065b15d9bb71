use alphascout_agent::thesis::{diligence_checklist, diligence_note};

#[test]
fn checklist_covers_what_is_not_checked() {
    assert_eq!(
        diligence_checklist(),
        vec![
            "Verify contract is renounced or has a reasonable timelock".to_string(),
            "Check token holder concentration (top 10 wallets)".to_string(),
            "Confirm LP tokens are locked or burned".to_string(),
            "Review team/socials for credibility signals".to_string(),
            "Check for prior rug history on the deployer address".to_string(),
        ]
    );
    assert!(diligence_note().contains("NOT yet automated"));
}
