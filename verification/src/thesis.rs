//! What a pitch always carries besides the market figures: the checks that
//! AlphaScout does not make, for the reader to make by hand.
use vstd::prelude::*;

verus! {

/// The manual due-diligence checklist of every pitch.
pub open spec fn diligence_items() -> Seq<Seq<char>> {
    seq![
        "Verify contract is renounced or has a reasonable timelock"@,
        "Check token holder concentration (top 10 wallets)"@,
        "Confirm LP tokens are locked or burned"@,
        "Review team/socials for credibility signals"@,
        "Check for prior rug history on the deployer address"@,
    ]
}

/// The note that goes with the checklist.
pub open spec fn diligence_note_text() -> Seq<char> {
    "AlphaScout's risk read is built from market data only (liquidity, age, volume, txn skew). Contract, holder, and LP-lock checks above are NOT yet automated \u{2014} verify manually before acting."@
}

/// The manual due-diligence checklist of every pitch.
pub fn diligence_checklist() -> (v: Vec<String>)
    ensures
        v@.len() == diligence_items().len(),
        forall|i: int| 0 <= i < v@.len() ==> #[trigger] v@[i]@ == diligence_items()[i],
{
    let mut v: Vec<String> = Vec::new();
    v.push(String::from_str("Verify contract is renounced or has a reasonable timelock"));
    v.push(String::from_str("Check token holder concentration (top 10 wallets)"));
    v.push(String::from_str("Confirm LP tokens are locked or burned"));
    v.push(String::from_str("Review team/socials for credibility signals"));
    v.push(String::from_str("Check for prior rug history on the deployer address"));
    v
}

/// The note that goes with the checklist.
pub fn diligence_note() -> (s: String)
    ensures
        s@ == diligence_note_text(),
{
    String::from_str(
        "AlphaScout's risk read is built from market data only (liquidity, age, volume, txn skew). Contract, holder, and LP-lock checks above are NOT yet automated \u{2014} verify manually before acting.",
    )
}

} // verus!
