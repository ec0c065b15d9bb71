//! The plain-text entry point: which scan a chat message asks for, and the
//! text report of one token summary.
use vstd::prelude::*;

use crate::text::{contains_text, decimal_text, has_text, lowercase_text, push_decimal, to_lowercase};
use crate::tool::{ScanPlan, HIGH_CONVICTION_SCAN};

verus! {

/// What a chat message asks for.
#[derive(Debug, Clone)]
pub enum Command {
    /// Run this new-launch scan and report it.
    Scan(ScanPlan),
    /// Run this new-launch scan and report its high-conviction picks: the
    /// launches above the liquidity bar, deepest first.
    Picks(ScanPlan),
    /// Answer with the usage help.
    Help,
}

/// The message asks for a scan of new launches.
pub open spec fn asks_for_scan(lower: Seq<char>) -> bool {
    contains_text(lower, "new"@) || contains_text(lower, "scout"@) || contains_text(lower, "scan"@)
}

/// The message asks for the strongest launches.
pub open spec fn asks_for_picks(lower: Seq<char>) -> bool {
    contains_text(lower, "conviction"@) || contains_text(lower, "top"@) || contains_text(
        lower,
        "best"@,
    )
}

pub open spec fn is_scan(c: Command, max_age_minutes: i64, limit: usize) -> bool {
    c matches Command::Scan(p) && p.query@ == "base"@ && p.max_age_minutes == max_age_minutes
        && p.limit == limit
}

pub open spec fn is_picks(c: Command) -> bool {
    c matches Command::Picks(p) && p.query@ == "base"@ && p.max_age_minutes == 360
        && p.limit == HIGH_CONVICTION_SCAN
}

/// Routes a message already in lower case: a scan of the last hour's Base
/// launches (ten at most) when it holds "new", "scout" or "scan"; otherwise
/// the high-conviction picks among the last six hours' launches when it holds
/// "conviction", "top" or "best"; otherwise the help.
pub fn route_lowercase(lower: &str) -> (c: Command)
    ensures
        asks_for_scan(lower@) ==> is_scan(c, 60, 10),
        !asks_for_scan(lower@) && asks_for_picks(lower@) ==> is_picks(c),
        !asks_for_scan(lower@) && !asks_for_picks(lower@) ==> c is Help,
{
    if has_text(lower, "new") || has_text(lower, "scout") || has_text(lower, "scan") {
        return Command::Scan(
            ScanPlan { query: String::from_str("base"), max_age_minutes: 60, limit: 10 },
        );
    }
    if has_text(lower, "conviction") || has_text(lower, "top") || has_text(lower, "best") {
        return Command::Picks(
            ScanPlan {
                query: String::from_str("base"),
                max_age_minutes: 360,
                limit: HIGH_CONVICTION_SCAN,
            },
        );
    }
    Command::Help
}

/// Routes a chat message, matched case-insensitively: see `route_lowercase`.
pub fn route_message(message: &str) -> (c: Command)
    ensures
        asks_for_scan(lowercase_text(message@)) ==> is_scan(c, 60, 10),
        !asks_for_scan(lowercase_text(message@)) && asks_for_picks(lowercase_text(message@))
            ==> is_picks(c),
        !asks_for_scan(lowercase_text(message@)) && !asks_for_picks(lowercase_text(message@))
            ==> c is Help,
{
    let lower = to_lowercase(message);
    route_lowercase(lower.as_str())
}

/// The reply to a message that asks for nothing the engine knows.
pub open spec fn help_text() -> Seq<char> {
    "AlphaScout here. Try:\n\u{2022} \"scout new tokens\" \u{2014} recent Base launches\n\u{2022} \"high conviction\" \u{2014} top recent launches by liquidity\nFor a deep dive on one token, use the AlphaScout Aomi agent directly, which can take a specific pair address."@
}

/// The usage help.
pub fn help_reply() -> (s: String)
    ensures
        s@ == help_text(),
{
    String::from_str(
        "AlphaScout here. Try:\n\u{2022} \"scout new tokens\" \u{2014} recent Base launches\n\u{2022} \"high conviction\" \u{2014} top recent launches by liquidity\nFor a deep dive on one token, use the AlphaScout Aomi agent directly, which can take a specific pair address.",
    )
}

/// The fields of a token summary that the text report reads: each is absent
/// when the summary lacks it or holds something other than text; a flag is
/// absent when that entry of the flag list is not text.
#[derive(Debug, Clone)]
pub struct ReportFields {
    pub name: Option<String>,
    pub symbol: Option<String>,
    pub risk_tier: Option<String>,
    pub risk_flags: Option<Vec<Option<String>>>,
}

/// A text field, or "?" when absent.
pub open spec fn text_or_unknown(t: Option<String>) -> Seq<char> {
    match t {
        Some(s) => s@,
        None => "?"@,
    }
}

/// The bullet lines of the flags that are present, in order.
pub open spec fn flag_lines(flags: Seq<Option<String>>) -> Seq<Seq<char>>
    decreases flags.len(),
{
    if flags.len() == 0 {
        seq![]
    } else {
        match flags.last() {
            Some(f) => flag_lines(flags.drop_last()).push("  - "@ + f@),
            None => flag_lines(flags.drop_last()),
        }
    }
}

/// Lines joined with a newline between each two.
pub open spec fn join_lines(lines: Seq<Seq<char>>) -> Seq<char>
    decreases lines.len(),
{
    if lines.len() == 0 {
        seq![]
    } else if lines.len() == 1 {
        lines[0]
    } else {
        join_lines(lines.drop_last()) + "\n"@ + lines.last()
    }
}

/// The flag block of the report: the present flags as bullet lines, or
/// nothing when the summary has no flag list.
pub open spec fn flags_block(flags: Option<Vec<Option<String>>>) -> Seq<char> {
    match flags {
        Some(v) => join_lines(flag_lines(v@)),
        None => seq![],
    }
}

/// The text report of one token: "name (symbol)", its risk tier, and its flags.
pub open spec fn report_text(f: ReportFields) -> Seq<char> {
    text_or_unknown(f.name) + " ("@ + text_or_unknown(f.symbol) + ")\nRisk: "@ + text_or_unknown(
        f.risk_tier,
    ) + "\n"@ + flags_block(f.risk_flags)
}

fn append_or_unknown(out: &mut String, t: &Option<String>)
    ensures
        final(out)@ == old(out)@ + text_or_unknown(*t),
{
    match t {
        Some(s) => out.append(s.as_str()),
        None => out.append("?"),
    }
}

fn flags_text(flags: &Vec<Option<String>>) -> (s: String)
    ensures
        s@ == join_lines(flag_lines(flags@)),
{
    let mut out = String::new();
    let mut any = false;
    let mut i: usize = 0;
    while i < flags.len()
        invariant
            i <= flags.len(),
            any == (flag_lines(flags@.take(i as int)).len() > 0),
            out@ == join_lines(flag_lines(flags@.take(i as int))),
        decreases flags.len() - i,
    {
        let ghost before = flags@.take(i as int);
        assert(flags@.take(i + 1).drop_last() =~= before);
        match &flags[i] {
            Some(f) => {
                if any {
                    out.append("\n");
                }
                out.append("  - ");
                out.append(f.as_str());
                proof {
                    let ls = flag_lines(before);
                    let line = "  - "@ + f@;
                    assert(flag_lines(flags@.take(i + 1)) == ls.push(line));
                    assert(ls.push(line).drop_last() =~= ls);
                    if !any {
                        assert(out@ =~= line);
                    } else {
                        assert(out@ =~= join_lines(ls) + "\n"@ + line);
                    }
                }
                any = true;
            },
            None => {},
        }
        i = i + 1;
    }
    assert(flags@.take(flags.len() as int) =~= flags@);
    out
}

/// The text report of a token summary.
pub fn token_report(fields: &ReportFields) -> (s: String)
    ensures
        s@ == report_text(*fields),
{
    let mut out = String::new();
    append_or_unknown(&mut out, &fields.name);
    out.append(" (");
    append_or_unknown(&mut out, &fields.symbol);
    out.append(")\nRisk: ");
    append_or_unknown(&mut out, &fields.risk_tier);
    out.append("\n");
    match &fields.risk_flags {
        Some(v) => {
            let b = flags_text(v);
            out.append(b.as_str());
        },
        None => {},
    }
    assert(out@ =~= report_text(*fields));
    out
}

/// The reply when a scan finds no pair in its age window.
pub open spec fn no_pairs_text(max_age_minutes: i64, query: Seq<char>) -> Seq<char> {
    "No pairs found younger than "@ + decimal_text(max_age_minutes as int) + " minutes for '"@
        + query + "'. Try again shortly \u{2014} new pairs surface continuously."@
}

/// The reply when a scan finds no pair in its age window.
pub fn no_pairs_reply(max_age_minutes: i64, query: &str) -> (s: String)
    ensures
        s@ == no_pairs_text(max_age_minutes, query@),
{
    let mut s = String::from_str("No pairs found younger than ");
    push_decimal(&mut s, max_age_minutes);
    s.append(" minutes for '");
    s.append(query);
    s.append("'. Try again shortly \u{2014} new pairs surface continuously.");
    s
}

/// The reply when a scan fails.
pub fn scan_failed_reply(error: &str) -> (s: String)
    ensures
        s@ == "Scan failed: "@ + error@,
{
    let mut s = String::from_str("Scan failed: ");
    s.append(error);
    s
}

/// The fields of one token summary that the text listing reads; `liquidity`
/// is the USD liquidity already written in whole dollars.
#[derive(Debug, Clone)]
pub struct ListingFields {
    pub name: Option<String>,
    pub symbol: Option<String>,
    pub liquidity: String,
    pub pair_age_minutes: Option<i64>,
    pub risk_tier: Option<String>,
    pub pair_address: Option<String>,
}

/// A pair age as the listing writes it: "<minutes>m", or "?" when unknown.
pub open spec fn age_text(age: Option<i64>) -> Seq<char> {
    match age {
        Some(a) => decimal_text(a as int) + "m"@,
        None => "?"@,
    }
}

/// The listing entry of one token.
pub open spec fn listing_entry(t: ListingFields) -> Seq<char> {
    "\u{1FA99} "@ + text_or_unknown(t.name) + " ("@ + text_or_unknown(t.symbol)
        + ")\n   Liquidity: $"@ + t.liquidity@ + " | Age: "@ + age_text(t.pair_age_minutes)
        + " | Risk: "@ + text_or_unknown(t.risk_tier) + "\n   Pair: "@ + text_or_unknown(
        t.pair_address,
    ) + "\n\n"@
}

/// The entries of a list of tokens, one after another.
pub open spec fn listing_entries(ts: Seq<ListingFields>) -> Seq<char>
    decreases ts.len(),
{
    if ts.len() == 0 {
        seq![]
    } else {
        listing_entries(ts.drop_last()) + listing_entry(ts.last())
    }
}

/// The text listing of a scan: the entries of its tokens, or "No results."
/// when there is no token list or it is empty.
pub open spec fn listing_text(tokens: Option<Vec<ListingFields>>) -> Seq<char> {
    match tokens {
        Some(v) => if v@.len() > 0 { listing_entries(v@) } else { "No results."@ },
        None => "No results."@,
    }
}

fn push_age(out: &mut String, age: Option<i64>)
    ensures
        final(out)@ == old(out)@ + age_text(age),
{
    match age {
        Some(a) => {
            push_decimal(out, a);
            out.append("m");
            assert(final(out)@ =~= old(out)@ + age_text(age));
        },
        None => out.append("?"),
    }
}

fn push_entry(out: &mut String, t: &ListingFields)
    ensures
        final(out)@ == old(out)@ + listing_entry(*t),
{
    out.append("\u{1FA99} ");
    append_or_unknown(out, &t.name);
    out.append(" (");
    append_or_unknown(out, &t.symbol);
    out.append(")\n   Liquidity: $");
    out.append(t.liquidity.as_str());
    out.append(" | Age: ");
    push_age(out, t.pair_age_minutes);
    out.append(" | Risk: ");
    append_or_unknown(out, &t.risk_tier);
    out.append("\n   Pair: ");
    append_or_unknown(out, &t.pair_address);
    out.append("\n\n");
    assert(final(out)@ =~= old(out)@ + listing_entry(*t));
}

/// The text listing of a scan's token summaries.
pub fn format_for_text(tokens: &Option<Vec<ListingFields>>) -> (s: String)
    ensures
        s@ == listing_text(*tokens),
{
    match tokens {
        Some(v) => {
            if v.len() == 0 {
                return String::from_str("No results.");
            }
            let mut out = String::new();
            let mut i: usize = 0;
            while i < v.len()
                invariant
                    i <= v.len(),
                    out@ == listing_entries(v@.take(i as int)),
                decreases v.len() - i,
            {
                push_entry(&mut out, &v[i]);
                assert(v@.take(i + 1).drop_last() =~= v@.take(i as int));
                i = i + 1;
            }
            assert(v@.take(v.len() as int) =~= v@);
            out
        },
        None => String::from_str("No results."),
    }
}

/// The listing of two token lists one after the other is the listing of the
/// first followed by the listing of the second: one entry per token, in order.
pub proof fn lemma_listing_concat(a: Seq<ListingFields>, b: Seq<ListingFields>)
    ensures
        listing_entries(a + b) == listing_entries(a) + listing_entries(b),
    decreases b.len(),
{
    if b.len() == 0 {
        assert(a + b =~= a);
        assert(listing_entries(a) + listing_entries(b) =~= listing_entries(a));
    } else {
        lemma_listing_concat(a, b.drop_last());
        assert((a + b).drop_last() =~= a + b.drop_last());
        assert((a + b).last() == b.last());
        assert(listing_entries(a + b) =~= listing_entries(a) + listing_entries(b));
    }
}

/// Each of "new", "scout" and "scan" in a lower-cased message asks for the
/// hour scan, whatever else it holds; each of "conviction", "top" and "best"
/// asks for the picks, unless a scan word is there too; a message holding
/// none of the six asks for the help.
pub proof fn lemma_route_words(lower: Seq<char>)
    ensures
        contains_text(lower, "new"@) ==> asks_for_scan(lower),
        contains_text(lower, "scout"@) ==> asks_for_scan(lower),
        contains_text(lower, "scan"@) ==> asks_for_scan(lower),
        contains_text(lower, "conviction"@) ==> asks_for_picks(lower),
        contains_text(lower, "top"@) ==> asks_for_picks(lower),
        contains_text(lower, "best"@) ==> asks_for_picks(lower),
        !contains_text(lower, "new"@) && !contains_text(lower, "scout"@) && !contains_text(
            lower,
            "scan"@,
        ) ==> !asks_for_scan(lower),
        !contains_text(lower, "conviction"@) && !contains_text(lower, "top"@) && !contains_text(
            lower,
            "best"@,
        ) ==> !asks_for_picks(lower),
{
}

/// What the routed command holds: the hour scan is Base, 60 minutes, ten
/// results; the picks scan is Base, 360 minutes, twenty-five pairs.
pub proof fn lemma_route_plans(c: Command)
    ensures
        is_scan(c, 60, 10) ==> (c matches Command::Scan(p) && p.query@ == "base"@
            && p.max_age_minutes == 60 && p.limit == 10),
        is_picks(c) ==> (c matches Command::Picks(p) && p.query@ == "base"@
            && p.max_age_minutes == 360 && p.limit == 25),
{
}

} // verus!
