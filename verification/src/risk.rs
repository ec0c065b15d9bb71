//! The heuristic risk read: which red flags a pair raises, how many points
//! each one weighs, and the tier that the total points map to.
use vstd::prelude::*;

use crate::market::TxnCounts;
use crate::text::{decimal_text, push_decimal};

verus! {

/// Risk tiers, from the most to the least risky.
#[derive(Debug, Clone, Copy, PartialEq, Eq, Structural)]
pub enum RiskTier {
    High,
    Elevated,
    Moderate,
    Low,
}

/// The text label of a tier.
pub open spec fn tier_label(t: RiskTier) -> Seq<char> {
    match t {
        RiskTier::High => "high"@,
        RiskTier::Elevated => "elevated"@,
        RiskTier::Moderate => "moderate"@,
        RiskTier::Low => "low"@,
    }
}

/// Severity of a tier: larger is riskier.
pub open spec fn tier_rank(t: RiskTier) -> int {
    match t {
        RiskTier::Low => 0,
        RiskTier::Moderate => 1,
        RiskTier::Elevated => 2,
        RiskTier::High => 3,
    }
}

/// The tier that a total of risk points maps to.
pub open spec fn tier_of(points: nat) -> RiskTier {
    if points <= 1 {
        RiskTier::Low
    } else if points <= 3 {
        RiskTier::Moderate
    } else if points <= 6 {
        RiskTier::Elevated
    } else {
        RiskTier::High
    }
}

impl RiskTier {
    pub fn label(&self) -> (s: &'static str)
        ensures
            s@ == tier_label(*self),
    {
        match self {
            RiskTier::High => "high",
            RiskTier::Elevated => "elevated",
            RiskTier::Moderate => "moderate",
            RiskTier::Low => "low",
        }
    }
}

/// Maps a total of risk points to its tier.
pub fn tier_for_points(points: u8) -> (t: RiskTier)
    ensures
        t == tier_of(points as nat),
{
    if points <= 1 {
        RiskTier::Low
    } else if points <= 3 {
        RiskTier::Moderate
    } else if points <= 6 {
        RiskTier::Elevated
    } else {
        RiskTier::High
    }
}


/// How deep a pair's USD liquidity is, against the bars of the risk model:
/// under five thousand, under twenty-five thousand, under one hundred
/// thousand, or at least that.
#[derive(Debug, Clone, Copy, PartialEq, Eq, Structural)]
pub enum LiquidityDepth {
    ExtremelyThin,
    Thin,
    Moderate,
    Deep,
}

/// A red flag raised by the risk read, with the plain data it is about.
#[derive(Debug, Clone, Copy, PartialEq, Eq, Structural)]
pub enum RiskFlag {
    /// Liquidity under five thousand USD.
    ExtremelyThinLiquidity,
    /// Liquidity under twenty-five thousand USD.
    ThinLiquidity,
    /// Liquidity under one hundred thousand USD.
    ModerateLiquidity,
    /// The pair is less than half an hour old.
    BrandNewPair { age_minutes: i64 },
    /// The pair is less than six hours old; the age in whole hours.
    EarlyPair { age_hours: i64 },
    /// The pair's creation time is not known.
    UnknownPairAge,
    /// 24h volume above twenty times the liquidity.
    AbnormalChurn,
    /// More than three quarters of over ten 24h transactions are sells.
    SellHeavy { buys: u32, sells: u32 },
    /// The 1h price moved by more than half.
    ExtremeVolatility,
    /// None of the above.
    NoRedFlags,
}

/// What the risk read looks at. The liquidity depth, the churn check and the
/// volatility check are taken from floating-point market figures by the caller.
#[derive(Debug, Clone, Copy)]
pub struct RiskSignals {
    pub liquidity: LiquidityDepth,
    pub age_minutes: Option<i64>,
    pub abnormal_churn: bool,
    pub txns_24h: Option<TxnCounts>,
    pub extreme_volatility: bool,
}

/// The points a flag adds to the total.
pub open spec fn flag_weight(f: RiskFlag) -> nat {
    match f {
        RiskFlag::ExtremelyThinLiquidity => 3,
        RiskFlag::ThinLiquidity => 2,
        RiskFlag::ModerateLiquidity => 1,
        RiskFlag::BrandNewPair { .. } => 3,
        RiskFlag::EarlyPair { .. } => 1,
        RiskFlag::UnknownPairAge => 1,
        RiskFlag::AbnormalChurn => 2,
        RiskFlag::SellHeavy { .. } => 2,
        RiskFlag::ExtremeVolatility => 1,
        RiskFlag::NoRedFlags => 0,
    }
}

/// The sum of the weights of a sequence of flags.
pub open spec fn total_weight(fs: Seq<RiskFlag>) -> nat
    decreases fs.len(),
{
    if fs.len() == 0 {
        0
    } else {
        total_weight(fs.drop_last()) + flag_weight(fs.last())
    }
}

pub open spec fn count_or_zero(c: Option<u32>) -> int {
    match c {
        Some(n) => n as int,
        None => 0,
    }
}

/// More than ten transactions, of which more than three quarters are sells.
pub open spec fn is_sell_heavy(t: TxnCounts) -> bool {
    let b = count_or_zero(t.buys);
    let s = count_or_zero(t.sells);
    &&& b + s > 10
    &&& 4 * s > 3 * (b + s)
}

pub open spec fn liquidity_flags(d: LiquidityDepth) -> Seq<RiskFlag> {
    match d {
        LiquidityDepth::ExtremelyThin => seq![RiskFlag::ExtremelyThinLiquidity],
        LiquidityDepth::Thin => seq![RiskFlag::ThinLiquidity],
        LiquidityDepth::Moderate => seq![RiskFlag::ModerateLiquidity],
        LiquidityDepth::Deep => seq![],
    }
}

/// Whole hours in a number of minutes, rounded toward zero.
pub open spec fn whole_hours(minutes: i64) -> int {
    if minutes >= 0 {
        minutes as int / 60
    } else {
        -((-(minutes as int)) / 60)
    }
}

pub open spec fn age_flags(age: Option<i64>) -> Seq<RiskFlag> {
    match age {
        Some(a) => if a < 30 {
            seq![RiskFlag::BrandNewPair { age_minutes: a }]
        } else if a < 360 {
            seq![RiskFlag::EarlyPair { age_hours: whole_hours(a) as i64 }]
        } else {
            seq![]
        },
        None => seq![RiskFlag::UnknownPairAge],
    }
}

pub open spec fn churn_flags(churn: bool) -> Seq<RiskFlag> {
    if churn { seq![RiskFlag::AbnormalChurn] } else { seq![] }
}

pub open spec fn skew_flags(t: Option<TxnCounts>) -> Seq<RiskFlag> {
    match t {
        Some(c) => if is_sell_heavy(c) {
            seq![RiskFlag::SellHeavy {
                buys: count_or_zero(c.buys) as u32,
                sells: count_or_zero(c.sells) as u32,
            }]
        } else {
            seq![]
        },
        None => seq![],
    }
}

pub open spec fn volatility_flags(v: bool) -> Seq<RiskFlag> {
    if v { seq![RiskFlag::ExtremeVolatility] } else { seq![] }
}

/// The red flags that the signals raise, in the order the read checks them.
pub open spec fn raised_flags(s: RiskSignals) -> Seq<RiskFlag> {
    liquidity_flags(s.liquidity) + age_flags(s.age_minutes) + churn_flags(s.abnormal_churn)
        + skew_flags(s.txns_24h) + volatility_flags(s.extreme_volatility)
}

/// The flags the read reports: the raised ones, or the all-clear when none is.
pub open spec fn risk_flags(s: RiskSignals) -> Seq<RiskFlag> {
    if raised_flags(s).len() == 0 {
        seq![RiskFlag::NoRedFlags]
    } else {
        raised_flags(s)
    }
}

pub open spec fn liquidity_points(d: LiquidityDepth) -> nat {
    match d {
        LiquidityDepth::ExtremelyThin => 3,
        LiquidityDepth::Thin => 2,
        LiquidityDepth::Moderate => 1,
        LiquidityDepth::Deep => 0,
    }
}

pub open spec fn age_points(age: Option<i64>) -> nat {
    match age {
        Some(a) => if a < 30 { 3 } else if a < 360 { 1 } else { 0 },
        None => 1,
    }
}

pub open spec fn skew_points(t: Option<TxnCounts>) -> nat {
    match t {
        Some(c) => if is_sell_heavy(c) { 2 } else { 0 },
        None => 0,
    }
}

/// The risk points of the signals: liquidity depth (up to 3), pair age (up
/// to 3), churn (2), sell skew (2) and volatility (1).
pub open spec fn risk_points(s: RiskSignals) -> nat {
    liquidity_points(s.liquidity) + age_points(s.age_minutes)
        + (if s.abnormal_churn { 2nat } else { 0nat }) + skew_points(s.txns_24h)
        + (if s.extreme_volatility { 1nat } else { 0nat })
}

fn is_sell_heavy_exec(t: &TxnCounts) -> (r: bool)
    ensures
        r == is_sell_heavy(*t),
{
    let b: u64 = match t.buys { Some(n) => n as u64, None => 0 };
    let s: u64 = match t.sells { Some(n) => n as u64, None => 0 };
    b + s > 10 && 4 * s > 3 * (b + s)
}

fn push_liquidity_flags(flags: &mut Vec<RiskFlag>, d: LiquidityDepth) -> (p: u8)
    ensures
        final(flags)@ == old(flags)@ + liquidity_flags(d),
        p as nat == liquidity_points(d),
{
    match d {
        LiquidityDepth::ExtremelyThin => {
            flags.push(RiskFlag::ExtremelyThinLiquidity);
            3
        },
        LiquidityDepth::Thin => {
            flags.push(RiskFlag::ThinLiquidity);
            2
        },
        LiquidityDepth::Moderate => {
            flags.push(RiskFlag::ModerateLiquidity);
            1
        },
        LiquidityDepth::Deep => {
            assert(flags@ =~= flags@ + liquidity_flags(d));
            0
        },
    }
}

fn push_age_flags(flags: &mut Vec<RiskFlag>, age: Option<i64>) -> (p: u8)
    ensures
        final(flags)@ == old(flags)@ + age_flags(age),
        p as nat == age_points(age),
{
    match age {
        Some(a) => {
            if a < 30 {
                flags.push(RiskFlag::BrandNewPair { age_minutes: a });
                3
            } else if a < 360 {
                flags.push(RiskFlag::EarlyPair { age_hours: a / 60 });
                1
            } else {
                assert(flags@ =~= flags@ + age_flags(age));
                0
            }
        },
        None => {
            flags.push(RiskFlag::UnknownPairAge);
            1
        },
    }
}

fn push_churn_flags(flags: &mut Vec<RiskFlag>, churn: bool) -> (p: u8)
    ensures
        final(flags)@ == old(flags)@ + churn_flags(churn),
        p as nat == (if churn { 2nat } else { 0nat }),
{
    if churn {
        flags.push(RiskFlag::AbnormalChurn);
        2
    } else {
        assert(flags@ =~= flags@ + churn_flags(churn));
        0
    }
}

fn push_skew_flags(flags: &mut Vec<RiskFlag>, t: Option<TxnCounts>) -> (p: u8)
    ensures
        final(flags)@ == old(flags)@ + skew_flags(t),
        p as nat == skew_points(t),
{
    match t {
        Some(c) => {
            if is_sell_heavy_exec(&c) {
                let b: u32 = match c.buys { Some(n) => n, None => 0 };
                let s: u32 = match c.sells { Some(n) => n, None => 0 };
                flags.push(RiskFlag::SellHeavy { buys: b, sells: s });
                2
            } else {
                assert(flags@ =~= flags@ + skew_flags(t));
                0
            }
        },
        None => {
            assert(flags@ =~= flags@ + skew_flags(t));
            0
        },
    }
}

fn push_volatility_flags(flags: &mut Vec<RiskFlag>, v: bool) -> (p: u8)
    ensures
        final(flags)@ == old(flags)@ + volatility_flags(v),
        p as nat == (if v { 1nat } else { 0nat }),
{
    if v {
        flags.push(RiskFlag::ExtremeVolatility);
        1
    } else {
        assert(flags@ =~= flags@ + volatility_flags(v));
        0
    }
}

/// The heuristic risk read: the tier and the flags behind it.
pub fn assess_risk(signals: &RiskSignals) -> (r: (RiskTier, Vec<RiskFlag>))
    ensures
        r.0 == tier_of(risk_points(*signals)),
        r.1@ == risk_flags(*signals),
{
    let mut flags: Vec<RiskFlag> = Vec::new();
    let p1 = push_liquidity_flags(&mut flags, signals.liquidity);
    let p2 = push_age_flags(&mut flags, signals.age_minutes);
    let p3 = push_churn_flags(&mut flags, signals.abnormal_churn);
    let p4 = push_skew_flags(&mut flags, signals.txns_24h);
    let p5 = push_volatility_flags(&mut flags, signals.extreme_volatility);
    assert(flags@ =~= raised_flags(*signals));
    let points: u8 = p1 + p2 + p3 + p4 + p5;
    if flags.len() == 0 {
        flags.push(RiskFlag::NoRedFlags);
        assert(flags@ =~= seq![RiskFlag::NoRedFlags]);
    }
    (tier_for_points(points), flags)
}

/// The text of a flag. `figure` is the measured figure that the churn, sell
/// skew and volatility flags quote (the volume-to-liquidity ratio, the share
/// of sells in percent, the signed 1h move in percent), already written out;
/// the other flags do not use it.
pub open spec fn flag_text(f: RiskFlag, figure: Seq<char>) -> Seq<char> {
    match f {
        RiskFlag::ExtremelyThinLiquidity => "Liquidity under $5k \u{2014} extremely thin, large slippage risk"@,
        RiskFlag::ThinLiquidity => "Liquidity under $25k \u{2014} thin, sized for small trades only"@,
        RiskFlag::ModerateLiquidity => "Liquidity under $100k \u{2014} moderate depth"@,
        RiskFlag::BrandNewPair { age_minutes } => "Pair is "@ + decimal_text(age_minutes as int)
            + " minutes old \u{2014} pre-discovery stage, unverified"@,
        RiskFlag::EarlyPair { age_hours } => "Pair is "@ + decimal_text(age_hours as int)
            + "h old \u{2014} still in early price-discovery window"@,
        RiskFlag::UnknownPairAge => "Pair creation time unavailable \u{2014} cannot confirm launch recency"@,
        RiskFlag::AbnormalChurn => "24h volume is "@ + figure
            + "x liquidity \u{2014} abnormal churn, possible wash trading"@,
        RiskFlag::SellHeavy { .. } => "Sell-heavy: "@ + figure
            + "% of 24h txns are sells \u{2014} possible distribution/dump pattern"@,
        RiskFlag::ExtremeVolatility => "1h price move of "@ + figure + "% \u{2014} extreme volatility"@,
        RiskFlag::NoRedFlags => "No major heuristic red flags from available market data"@,
    }
}

impl RiskFlag {
    /// The flag written out for a reader; see `flag_text` for `figure`.
    pub fn describe(&self, figure: &str) -> (s: String)
        ensures
            s@ == flag_text(*self, figure@),
    {
        match self {
            RiskFlag::ExtremelyThinLiquidity => String::from_str(
                "Liquidity under $5k \u{2014} extremely thin, large slippage risk",
            ),
            RiskFlag::ThinLiquidity => String::from_str(
                "Liquidity under $25k \u{2014} thin, sized for small trades only",
            ),
            RiskFlag::ModerateLiquidity => String::from_str("Liquidity under $100k \u{2014} moderate depth"),
            RiskFlag::BrandNewPair { age_minutes } => {
                let mut s = String::from_str("Pair is ");
                push_decimal(&mut s, *age_minutes);
                s.append(" minutes old \u{2014} pre-discovery stage, unverified");
                s
            },
            RiskFlag::EarlyPair { age_hours } => {
                let mut s = String::from_str("Pair is ");
                push_decimal(&mut s, *age_hours);
                s.append("h old \u{2014} still in early price-discovery window");
                s
            },
            RiskFlag::UnknownPairAge => String::from_str(
                "Pair creation time unavailable \u{2014} cannot confirm launch recency",
            ),
            RiskFlag::AbnormalChurn => {
                let mut s = String::from_str("24h volume is ");
                s.append(figure);
                s.append("x liquidity \u{2014} abnormal churn, possible wash trading");
                s
            },
            RiskFlag::SellHeavy { .. } => {
                let mut s = String::from_str("Sell-heavy: ");
                s.append(figure);
                s.append("% of 24h txns are sells \u{2014} possible distribution/dump pattern");
                s
            },
            RiskFlag::ExtremeVolatility => {
                let mut s = String::from_str("1h price move of ");
                s.append(figure);
                s.append("% \u{2014} extreme volatility");
                s
            },
            RiskFlag::NoRedFlags => String::from_str(
                "No major heuristic red flags from available market data",
            ),
        }
    }
}

proof fn lemma_total_weight_concat(a: Seq<RiskFlag>, b: Seq<RiskFlag>)
    ensures
        total_weight(a + b) == total_weight(a) + total_weight(b),
    decreases b.len(),
{
    if b.len() == 0 {
        assert(a + b =~= a);
    } else {
        lemma_total_weight_concat(a, b.drop_last());
        assert((a + b).drop_last() =~= a + b.drop_last());
    }
}

proof fn lemma_total_weight_single(f: RiskFlag)
    ensures
        total_weight(seq![f]) == flag_weight(f),
{
    reveal_with_fuel(total_weight, 2);
    assert(seq![f].drop_last() =~= Seq::<RiskFlag>::empty());
    assert(seq![f].last() == f);
}

/// The read always reports at least one flag: when no red flag is raised,
/// it reports the all-clear.
pub proof fn lemma_flags_never_empty(s: RiskSignals)
    ensures
        risk_flags(s).len() > 0,
{
}

/// The reported flags account for the tier: their weights add up to the
/// risk points that the tier is taken from.
pub proof fn lemma_flags_explain_tier(s: RiskSignals)
    ensures
        total_weight(risk_flags(s)) == risk_points(s),
        tier_of(total_weight(risk_flags(s))) == tier_of(risk_points(s)),
{
    let l = liquidity_flags(s.liquidity);
    let a = age_flags(s.age_minutes);
    let c = churn_flags(s.abnormal_churn);
    let k = skew_flags(s.txns_24h);
    let v = volatility_flags(s.extreme_volatility);
    assert(total_weight(Seq::<RiskFlag>::empty()) == 0);
    match s.liquidity {
        LiquidityDepth::Deep => {},
        _ => lemma_total_weight_single(l[0]),
    }
    assert(total_weight(l) == liquidity_points(s.liquidity));
    match s.age_minutes {
        Some(x) => if x < 360 { lemma_total_weight_single(a[0]); },
        None => lemma_total_weight_single(a[0]),
    }
    assert(total_weight(a) == age_points(s.age_minutes));
    if s.abnormal_churn { lemma_total_weight_single(c[0]); }
    match s.txns_24h {
        Some(t) => if is_sell_heavy(t) { lemma_total_weight_single(k[0]); },
        None => {},
    }
    assert(total_weight(k) == skew_points(s.txns_24h));
    if s.extreme_volatility { lemma_total_weight_single(v[0]); }
    lemma_total_weight_concat(l, a);
    lemma_total_weight_concat(l + a, c);
    lemma_total_weight_concat(l + a + c, k);
    lemma_total_weight_concat(l + a + c + k, v);
    assert(total_weight(raised_flags(s)) == risk_points(s));
    if raised_flags(s).len() == 0 {
        lemma_total_weight_single(RiskFlag::NoRedFlags);
    }
}

/// The all-clear is reported exactly when the signals score no risk points.
pub proof fn lemma_all_clear_iff_no_points(s: RiskSignals)
    ensures
        (risk_flags(s) == seq![RiskFlag::NoRedFlags]) <==> (risk_points(s) == 0),
{
    let l = liquidity_flags(s.liquidity);
    let a = age_flags(s.age_minutes);
    let c = churn_flags(s.abnormal_churn);
    let k = skew_flags(s.txns_24h);
    let v = volatility_flags(s.extreme_volatility);
    let r = raised_flags(s);
    assert(l.len() == 0 <==> liquidity_points(s.liquidity) == 0);
    assert(a.len() == 0 <==> age_points(s.age_minutes) == 0);
    assert(c.len() == 0 <==> !s.abnormal_churn);
    assert(k.len() == 0 <==> skew_points(s.txns_24h) == 0);
    assert(v.len() == 0 <==> !s.extreme_volatility);
    assert(r.len() == l.len() + a.len() + c.len() + k.len() + v.len());
    assert((r.len() == 0) <==> (risk_points(s) == 0));
    if r.len() > 0 {
        let f = r[0];
        assert(f != RiskFlag::NoRedFlags) by {
            if l.len() > 0 {
                assert(f == l[0]);
            } else if a.len() > 0 {
                assert(f == a[0]);
            } else if c.len() > 0 {
                assert(f == c[0]);
            } else if k.len() > 0 {
                assert(f == k[0]);
            } else {
                assert(f == v[0]);
            }
        }
        if risk_flags(s) == seq![RiskFlag::NoRedFlags] {
            assert(risk_flags(s)[0] == RiskFlag::NoRedFlags);
        }
    }
}

/// More risk points never give a less risky tier.
pub proof fn lemma_tier_monotone(p: nat, q: nat)
    requires
        p <= q,
    ensures
        tier_rank(tier_of(p)) <= tier_rank(tier_of(q)),
{
}

/// Every signal set scores at most eleven points.
pub proof fn lemma_points_bounded(s: RiskSignals)
    ensures
        risk_points(s) <= 11,
{
}

/// How thin a liquidity depth is: larger is thinner.
pub open spec fn thinness(d: LiquidityDepth) -> int {
    match d {
        LiquidityDepth::Deep => 0,
        LiquidityDepth::Moderate => 1,
        LiquidityDepth::Thin => 2,
        LiquidityDepth::ExtremelyThin => 3,
    }
}

/// Thinner liquidity never lowers the tier: of two reads that differ only
/// in liquidity depth and churn, where the second is at least as thin and
/// flags churn whenever the first does, the second is at least as risky.
pub proof fn lemma_thinner_liquidity_never_safer(s1: RiskSignals, s2: RiskSignals)
    requires
        thinness(s2.liquidity) >= thinness(s1.liquidity),
        s1.abnormal_churn ==> s2.abnormal_churn,
        s1.age_minutes == s2.age_minutes,
        s1.txns_24h == s2.txns_24h,
        s1.extreme_volatility == s2.extreme_volatility,
    ensures
        tier_rank(tier_of(risk_points(s2))) >= tier_rank(tier_of(risk_points(s1))),
{
    assert(liquidity_points(s2.liquidity) >= liquidity_points(s1.liquidity));
    lemma_tier_monotone(risk_points(s1), risk_points(s2));
}

/// How the pair's age alone reads, with every other signal clear: under
/// half an hour old is brand new (3 points), under six hours is early with
/// its age in whole hours (1 point), older raises nothing, and an unknown
/// creation time counts one point.
pub proof fn lemma_age_read(s: RiskSignals)
    requires
        s.liquidity == LiquidityDepth::Deep,
        !s.abnormal_churn,
        s.txns_24h is None,
        !s.extreme_volatility,
    ensures
        forall|a: i64|
            s.age_minutes == Some(a) && a < 30 ==> risk_flags(s) == seq![
                RiskFlag::BrandNewPair { age_minutes: a },
            ] && risk_points(s) == 3,
        forall|a: i64|
            s.age_minutes == Some(a) && 30 <= a < 360 ==> risk_flags(s) == seq![
                RiskFlag::EarlyPair { age_hours: (a / 60) as i64 },
            ] && risk_points(s) == 1,
        forall|a: i64|
            s.age_minutes == Some(a) && a >= 360 ==> risk_flags(s) == seq![RiskFlag::NoRedFlags]
                && risk_points(s) == 0,
        s.age_minutes is None ==> risk_flags(s) == seq![RiskFlag::UnknownPairAge] && risk_points(s)
            == 1,
{
    assert(liquidity_flags(s.liquidity) =~= Seq::<RiskFlag>::empty());
    assert(churn_flags(s.abnormal_churn) =~= Seq::<RiskFlag>::empty());
    assert(skew_flags(s.txns_24h) =~= Seq::<RiskFlag>::empty());
    assert(volatility_flags(s.extreme_volatility) =~= Seq::<RiskFlag>::empty());
    assert(raised_flags(s) =~= age_flags(s.age_minutes));
}

/// Every pair aged from half an hour up to six hours raises the early-pair
/// flag with its age in whole hours, and its age adds exactly one point over
/// the same pair at six hours old.
pub proof fn lemma_early_pair_flagged(s: RiskSignals, a: i64)
    requires
        s.age_minutes == Some(a),
        30 <= a < 360,
    ensures
        risk_flags(s).contains(RiskFlag::EarlyPair { age_hours: (a / 60) as i64 }),
        risk_points(s) == risk_points(RiskSignals { age_minutes: Some(360), ..s }) + 1,
{
    let f = RiskFlag::EarlyPair { age_hours: (a / 60) as i64 };
    let l = liquidity_flags(s.liquidity);
    assert(age_flags(s.age_minutes) == seq![f]);
    assert(raised_flags(s)[l.len() as int] == f);
    assert(risk_flags(s) == raised_flags(s));
}

/// The tier bands: at most one point is low, two or three moderate, four to
/// six elevated, seven or more high.
pub proof fn lemma_tier_bands(p: nat)
    ensures
        p <= 1 ==> tier_of(p) == RiskTier::Low,
        2 <= p <= 3 ==> tier_of(p) == RiskTier::Moderate,
        4 <= p <= 6 ==> tier_of(p) == RiskTier::Elevated,
        p >= 7 ==> tier_of(p) == RiskTier::High,
{
}

/// What each signal other than age adds, over the same read without it:
/// liquidity under $5k adds 3 points, under $25k 2, under $100k 1; churn
/// adds 2; volatility adds 1; a sell-heavy 24h count adds 2, where
/// sell-heavy means more than ten transactions with more than three
/// quarters of them sells (a missing count read as zero).
pub proof fn lemma_signal_points(s: RiskSignals)
    ensures
        risk_points(s) == risk_points(RiskSignals { liquidity: LiquidityDepth::Deep, ..s }) + match s.liquidity {
            LiquidityDepth::ExtremelyThin => 3int,
            LiquidityDepth::Thin => 2int,
            LiquidityDepth::Moderate => 1int,
            LiquidityDepth::Deep => 0int,
        },
        risk_points(s) == risk_points(RiskSignals { abnormal_churn: false, ..s }) + (if s.abnormal_churn { 2int } else { 0int }),
        risk_points(s) == risk_points(RiskSignals { extreme_volatility: false, ..s }) + (if s.extreme_volatility { 1int } else { 0int }),
        forall|t: TxnCounts| #![auto] s.txns_24h == Some(t) ==> {
            let b: int = match t.buys { Some(n) => n as int, None => 0 };
            let k: int = match t.sells { Some(n) => n as int, None => 0 };
            risk_points(s) == risk_points(RiskSignals { txns_24h: None, ..s }) + (if b + k > 10 && 4 * k > 3 * (b + k) { 2int } else { 0int })
        },
{
}

/// Each signal raises its own flag: thin liquidity its band's flag, churn,
/// a sell-heavy count (with the counts read), and volatility theirs.
pub proof fn lemma_signal_flags(s: RiskSignals)
    ensures
        s.liquidity == LiquidityDepth::ExtremelyThin ==> risk_flags(s).contains(RiskFlag::ExtremelyThinLiquidity),
        s.liquidity == LiquidityDepth::Thin ==> risk_flags(s).contains(RiskFlag::ThinLiquidity),
        s.liquidity == LiquidityDepth::Moderate ==> risk_flags(s).contains(RiskFlag::ModerateLiquidity),
        s.abnormal_churn ==> risk_flags(s).contains(RiskFlag::AbnormalChurn),
        s.extreme_volatility ==> risk_flags(s).contains(RiskFlag::ExtremeVolatility),
        forall|b: u32, k: u32|
            #![auto]
            s.txns_24h == Some(TxnCounts { buys: Some(b), sells: Some(k) }) && b + k > 10 && 4 * k > 3 * (b + k)
                ==> risk_flags(s).contains(RiskFlag::SellHeavy { buys: b, sells: k }),
{
    let l = liquidity_flags(s.liquidity);
    let a = age_flags(s.age_minutes);
    let c = churn_flags(s.abnormal_churn);
    let k = skew_flags(s.txns_24h);
    let v = volatility_flags(s.extreme_volatility);
    let r = raised_flags(s);
    if l.len() > 0 {
        assert(r[0] == l[0]);
    }
    if s.abnormal_churn {
        assert(r[(l.len() + a.len()) as int] == c[0]);
    }
    if k.len() > 0 {
        assert(r[(l.len() + a.len() + c.len()) as int] == k[0]);
    }
    if s.extreme_volatility {
        assert(r[(l.len() + a.len() + c.len() + k.len()) as int] == v[0]);
    }
    if r.len() > 0 {
        assert(risk_flags(s) == r);
    }
}

} // verus!
