//! The four AlphaScout tools: their argument types and how each turns its
//! arguments into the scan it runs.
use vstd::prelude::*;

use crate::ranking::{is_top_selection, select_top};
use crate::text::{decimal_text, push_decimal};

verus! {

/// The AlphaScout app that the tools belong to.
#[derive(Debug, Clone, Copy)]
pub struct AlphaScoutApp;

impl Default for AlphaScoutApp {
    fn default() -> (app: Self)
        ensures
            app == AlphaScoutApp,
    {
        AlphaScoutApp
    }
}

/// Scans for newly created pairs.
pub struct ScoutNewTokens;

/// Deep-dive report on one pair.
pub struct AnalyzeToken;

/// Investment-thesis-style pitch for one pair.
pub struct PitchToken;

/// The strongest recent launches by liquidity.
pub struct HighConvictionPicks;

/// Arguments of `scout_new_tokens`.
pub struct ScoutNewTokensArgs {
    /// Chain or free-text search term; defaults to "base".
    pub query: Option<String>,
    /// Only pairs created within this many minutes; default 60, from 1 to 1440.
    pub max_age_minutes: Option<i64>,
    /// How many results at most; default 10, at most 25.
    pub limit: Option<u32>,
}

/// Arguments of `analyze_token`.
pub struct AnalyzeTokenArgs {
    /// Dexscreener chain ID, e.g. "base".
    pub chain_id: String,
    /// The pair (liquidity pool) address.
    pub pair_address: String,
}

/// Arguments of `pitch_token`.
pub struct PitchTokenArgs {
    /// Dexscreener chain ID, e.g. "base".
    pub chain_id: String,
    /// The pair (liquidity pool) address.
    pub pair_address: String,
}

/// Arguments of `high_conviction_picks`.
pub struct HighConvictionPicksArgs {
    /// Chain or free-text search term; defaults to "base".
    pub query: Option<String>,
    /// Only pairs created within this many minutes; default 360, from 1 to 1440.
    pub max_age_minutes: Option<i64>,
}

/// A new-launch scan to run: query, age window and result cap.
#[derive(Debug, Clone)]
pub struct ScanPlan {
    pub query: String,
    pub max_age_minutes: i64,
    pub limit: usize,
}

/// How many pairs the high-conviction scan looks at.
pub const HIGH_CONVICTION_SCAN: usize = 25;

/// How many picks the high-conviction scan returns at most.
pub const HIGH_CONVICTION_TOP: usize = 5;

pub open spec fn clamp(x: int, lo: int, hi: int) -> int {
    if x < lo {
        lo
    } else if x > hi {
        hi
    } else {
        x
    }
}

/// The query to scan: the one given, or "base".
pub open spec fn query_or_base(q: Option<String>) -> Seq<char> {
    match q {
        Some(s) => s@,
        None => "base"@,
    }
}

pub open spec fn age_window(a: Option<i64>, default: int) -> int {
    match a {
        Some(x) => clamp(x as int, 1, 1440),
        None => clamp(default, 1, 1440),
    }
}

fn resolve_query(q: &Option<String>) -> (s: String)
    ensures
        s@ == query_or_base(*q),
{
    match q {
        Some(s) => s.clone(),
        None => String::from_str("base"),
    }
}

fn resolve_age(a: Option<i64>, default: i64) -> (m: i64)
    requires
        1 <= default <= 1440,
    ensures
        m as int == age_window(a, default as int),
{
    let x = match a {
        Some(x) => x,
        None => default,
    };
    if x < 1 {
        1
    } else if x > 1440 {
        1440
    } else {
        x
    }
}

impl ScoutNewTokensArgs {
    /// The scan these arguments ask for, with the defaults and bounds applied.
    pub fn plan(&self) -> (p: ScanPlan)
        ensures
            p.query@ == query_or_base(self.query),
            p.max_age_minutes as int == age_window(self.max_age_minutes, 60),
            p.limit as int == (match self.limit {
                Some(l) => if l <= 25 { l as int } else { 25 },
                None => 10,
            }),
    {
        let query = resolve_query(&self.query);
        let max_age_minutes = resolve_age(self.max_age_minutes, 60);
        let l: u32 = match self.limit {
            Some(l) => if l <= 25 { l } else { 25 },
            None => 10,
        };
        ScanPlan { query, max_age_minutes, limit: l as usize }
    }
}

impl HighConvictionPicksArgs {
    /// The scan these arguments ask for: the most recent launches in the
    /// age window, up to `HIGH_CONVICTION_SCAN` of them.
    pub fn plan(&self) -> (p: ScanPlan)
        ensures
            p.query@ == query_or_base(self.query),
            p.max_age_minutes as int == age_window(self.max_age_minutes, 360),
            p.limit == HIGH_CONVICTION_SCAN,
    {
        let query = resolve_query(&self.query);
        let max_age_minutes = resolve_age(self.max_age_minutes, 360);
        ScanPlan { query, max_age_minutes, limit: HIGH_CONVICTION_SCAN }
    }
}

/// Whether an item clears the liquidity bar, given both as order keys.
pub open spec fn clears_bar(keys: Seq<i64>, bar: i64) -> Seq<bool> {
    keys.map_values(|k: i64| k > bar)
}

/// The high-conviction picks among scanned pairs: positions of the pairs
/// whose liquidity key is above the bar's, deepest first with ties in scan
/// order, at most `HIGH_CONVICTION_TOP` of them. A liquidity key is any
/// integer that orders pairs as their USD liquidity does.
pub fn select_high_conviction(liquidity_keys: &Vec<i64>, bar: i64) -> (r: Vec<usize>)
    ensures
        is_top_selection(
            liquidity_keys@,
            clears_bar(liquidity_keys@, bar),
            HIGH_CONVICTION_TOP as nat,
            r@,
        ),
{
    let n = liquidity_keys.len();
    let mut eligible: Vec<bool> = Vec::new();
    let mut i: usize = 0;
    while i < n
        invariant
            n == liquidity_keys.len(),
            i <= n,
            eligible@ == clears_bar(liquidity_keys@.take(i as int), bar),
        decreases n - i,
    {
        eligible.push(liquidity_keys[i] > bar);
        assert(liquidity_keys@.take(i + 1) =~= liquidity_keys@.take(i as int).push(
            liquidity_keys@[i as int],
        ));
        assert(eligible@ =~= clears_bar(liquidity_keys@.take(i + 1), bar));
        i = i + 1;
    }
    assert(liquidity_keys@.take(n as int) =~= liquidity_keys@);
    select_top(liquidity_keys, &eligible, HIGH_CONVICTION_TOP)
}

/// The note `scout_new_tokens` returns when no pair is young enough.
pub open spec fn scout_empty_note_text(max_age_minutes: i64, query: Seq<char>) -> Seq<char> {
    "No pairs found younger than "@ + decimal_text(max_age_minutes as int) + " minutes for query '"@
        + query + "'. Try a wider max_age_minutes or a different query."@
}

/// The note `scout_new_tokens` returns when no pair is young enough.
pub fn scout_empty_note(max_age_minutes: i64, query: &str) -> (s: String)
    ensures
        s@ == scout_empty_note_text(max_age_minutes, query@),
{
    let mut s = String::from_str("No pairs found younger than ");
    push_decimal(&mut s, max_age_minutes);
    s.append(" minutes for query '");
    s.append(query);
    s.append("'. Try a wider max_age_minutes or a different query.");
    s
}

/// The note `high_conviction_picks` returns when no launch clears the bar.
pub fn high_conviction_empty_note() -> (s: String)
    ensures
        s@ == "No recent launches cleared the $50k liquidity bar in this window. Try a longer max_age_minutes."@,
{
    String::from_str(
        "No recent launches cleared the $50k liquidity bar in this window. Try a longer max_age_minutes.",
    )
}

/// Whatever the arguments, the age window stays between one minute and a day.
pub proof fn lemma_age_window_bounded(a: Option<i64>, default: int)
    ensures
        1 <= age_window(a, default) <= 1440,
{
}

/// A given window inside the bounds is kept as it is; one below a minute
/// becomes a minute, one above a day becomes a day; without one the default
/// applies, bounded the same way.
pub proof fn lemma_age_window_given(x: i64, default: int)
    ensures
        1 <= x <= 1440 ==> age_window(Some(x), default) == x,
        x < 1 ==> age_window(Some(x), default) == 1,
        x > 1440 ==> age_window(Some(x), default) == 1440,
        1 <= default <= 1440 ==> age_window(None, default) == default,
{
}

/// The picks are exactly the best of the pairs above the bar: every pick is
/// above it, picks run from the deepest down, and a pair above the bar is
/// left out only when five deeper-or-earlier pairs fill the picks.
pub proof fn lemma_picks_clear_the_bar(keys: Seq<i64>, bar: i64, r: Seq<usize>)
    requires
        is_top_selection(keys, clears_bar(keys, bar), HIGH_CONVICTION_TOP as nat, r),
        keys.len() <= usize::MAX,
    ensures
        forall|k: int| 0 <= k < r.len() ==> (r[k] as int) < keys.len() && keys[r[k] as int] > bar,
        forall|k1: int, k2: int| 0 <= k1 < k2 < r.len() ==> keys[r[k1] as int] >= keys[r[k2] as int],
        forall|i: int|
            0 <= i < keys.len() && keys[i] > bar && !r.contains(i as usize) ==> r.len() == 5,
{
    let el = clears_bar(keys, bar);
    assert forall|k: int| 0 <= k < r.len() implies (r[k] as int) < keys.len() && keys[r[k] as int]
        > bar by {
        assert(el[r[k] as int]);
    }
    assert forall|i: int|
        0 <= i < keys.len() && keys[i] > bar && !r.contains(i as usize) implies r.len() == 5 by {
        assert(el[i]);
    }
    assert forall|k1: int, k2: int| 0 <= k1 < k2 < r.len() implies keys[r[k1] as int]
        >= keys[r[k2] as int] by {
        assert(crate::ranking::ranks_before(keys, r[k1] as int, r[k2] as int));
    }
}

/// A scan without a query scans "base"; with one it scans that query as given.
pub proof fn lemma_query_default(q: Option<String>)
    ensures
        q is None ==> query_or_base(q) == "base"@,
        forall|t: String| #![auto] q == Some(t) ==> query_or_base(q) == t@,
{
}

/// The high-conviction scan looks at twenty-five launches and picks five.
pub proof fn lemma_picks_sizes()
    ensures
        HIGH_CONVICTION_SCAN == 25,
        HIGH_CONVICTION_TOP == 5,
{
}

} // verus!
