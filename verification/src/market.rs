//! Pair data as Dexscreener reports it, and the scouting logic over it.
use vstd::prelude::*;

use crate::clock::now_millis;
use crate::ranking::{is_top_selection, ranks_before, select_top};

verus! {

/// Buy and sell transaction counts over one window.
#[derive(Debug, Clone, Copy)]
pub struct TxnCounts {
    pub buys: Option<u32>,
    pub sells: Option<u32>,
}

/// Transaction counts per window.
#[derive(Debug, Clone, Copy)]
pub struct Txns {
    pub h24: Option<TxnCounts>,
    pub h1: Option<TxnCounts>,
}

/// The token a pair trades against its quote token.
#[derive(Debug, Clone)]
pub struct BaseToken {
    pub name: String,
    pub symbol: String,
    pub address: Option<String>,
}

/// Milliseconds in a minute.
pub const MILLIS_PER_MINUTE: i64 = 60_000;

/// Whole minutes from `created` to `now` (both Unix milliseconds), rounded
/// toward zero; the difference of the two wraps around as `i64` does.
pub open spec fn minutes_since(created: i64, now: i64) -> i64 {
    let d = now.wrapping_sub(created);
    (if d >= 0 {
        d as int / 60_000
    } else {
        -((-(d as int)) / 60_000)
    }) as i64
}

/// The age of a pair in minutes at the time `now`, if its creation time is known.
pub open spec fn age_at(pair_created_at: Option<i64>, now: i64) -> Option<i64> {
    match pair_created_at {
        Some(c) => Some(minutes_since(c, now)),
        None => None,
    }
}

/// Age of the pair in minutes at the time `now`, if its creation time is known.
pub fn age_minutes_at(pair_created_at: Option<i64>, now: i64) -> (r: Option<i64>)
    ensures
        r == age_at(pair_created_at, now),
{
    match pair_created_at {
        Some(created) => {
            let d = now.wrapping_sub(created);
            Some(d / MILLIS_PER_MINUTE)
        },
        None => None,
    }
}

/// Age of the pair in minutes, if known, as of the current time.
pub fn age_minutes(pair_created_at: Option<i64>) -> (r: Option<i64>)
    ensures
        r is Some <==> pair_created_at is Some,
        exists|now: i64| now >= 0 && r == age_at(pair_created_at, now),
{
    let now = now_millis();
    age_minutes_at(pair_created_at, now)
}

/// The key a pair is sorted by, newest first: its creation time, or zero when unknown.
pub open spec fn creation_key(pair_created_at: Option<i64>) -> i64 {
    match pair_created_at {
        Some(c) => c,
        None => 0,
    }
}

/// A pair counts as a new launch when its age is known, not negative, and
/// younger than `max_age_minutes`.
pub open spec fn is_new_launch(pair_created_at: Option<i64>, now: i64, max_age_minutes: i64) -> bool {
    match age_at(pair_created_at, now) {
        Some(a) => 0 <= a && a < max_age_minutes,
        None => false,
    }
}

pub open spec fn creation_keys(created: Seq<Option<i64>>) -> Seq<i64> {
    created.map_values(|c: Option<i64>| creation_key(c))
}

pub open spec fn new_launches(created: Seq<Option<i64>>, now: i64, max_age_minutes: i64) -> Seq<bool> {
    created.map_values(|c: Option<i64>| is_new_launch(c, now, max_age_minutes))
}

/// Which pairs a new-launch scan at time `now` keeps, and in which order:
/// positions into `created` (the pairs' creation times, in search order),
/// newest first with ties in search order, only pairs younger than `max_age_minutes`
/// (and not created in the future), at most `limit` of them.
pub fn select_new_pairs_at(
    created: &Vec<Option<i64>>,
    now: i64,
    max_age_minutes: i64,
    limit: usize,
) -> (r: Vec<usize>)
    ensures
        is_top_selection(
            creation_keys(created@),
            new_launches(created@, now, max_age_minutes),
            limit as nat,
            r@,
        ),
{
    let n = created.len();
    let mut keys: Vec<i64> = Vec::new();
    let mut eligible: Vec<bool> = Vec::new();
    let mut i: usize = 0;
    while i < n
        invariant
            n == created.len(),
            i <= n,
            keys@ == creation_keys(created@.take(i as int)),
            eligible@ == new_launches(created@.take(i as int), now, max_age_minutes),
        decreases n - i,
    {
        let c = created[i];
        let key: i64 = match c {
            Some(t) => t,
            None => 0,
        };
        let keep: bool = match age_minutes_at(c, now) {
            Some(a) => 0 <= a && a < max_age_minutes,
            None => false,
        };
        keys.push(key);
        eligible.push(keep);
        assert(created@.take(i + 1) =~= created@.take(i as int).push(c));
        assert(keys@ =~= creation_keys(created@.take(i + 1)));
        assert(eligible@ =~= new_launches(created@.take(i + 1), now, max_age_minutes));
        i = i + 1;
    }
    assert(created@.take(n as int) =~= created@);
    select_top(&keys, &eligible, limit)
}

/// The new-launch scan as of the current time: see `select_new_pairs_at`.
pub fn select_new_pairs(created: &Vec<Option<i64>>, max_age_minutes: i64, limit: usize) -> (r: Vec<
    usize,
>)
    ensures
        exists|now: i64|
            now >= 0 && is_top_selection(
                creation_keys(created@),
                new_launches(created@, now, max_age_minutes),
                limit as nat,
                r@,
            ),
{
    let now = now_millis();
    select_new_pairs_at(created, now, max_age_minutes, limit)
}

/// The pair a pair lookup answers with: the first one listed, if any.
pub open spec fn first_listed<T>(pairs: Option<Vec<T>>) -> Option<T> {
    match pairs {
        Some(v) => if v@.len() > 0 { Some(v@[0]) } else { None },
        None => None,
    }
}

/// Takes the first listed pair out of a lookup response.
pub fn first_pair<T>(pairs: Option<Vec<T>>) -> (r: Option<T>)
    ensures
        r == first_listed(pairs),
{
    match pairs {
        Some(mut v) => {
            if v.len() == 0 {
                None
            } else {
                Some(v.remove(0))
            }
        },
        None => None,
    }
}

/// How many pairs the latest-tokens feed keeps.
pub const LATEST_TOKENS_CAP: usize = 10;

/// The latest-tokens feed: the first `LATEST_TOKENS_CAP` pairs, in the
/// order the search listed them.
pub fn take_latest<T>(pairs: Vec<T>) -> (r: Vec<T>)
    ensures
        r@ == (if pairs@.len() <= LATEST_TOKENS_CAP { pairs@ } else { pairs@.take(
            LATEST_TOKENS_CAP as int,
        ) }),
{
    let mut v = pairs;
    v.truncate(LATEST_TOKENS_CAP);
    v
}

impl BaseToken {
    /// "name (symbol)".
    pub fn display_name(&self) -> (s: String)
        ensures
            s@ == self.name@ + " ("@ + self.symbol@ + ")"@,
    {
        let mut s = self.name.clone();
        s.append(" (");
        s.append(self.symbol.as_str());
        s.append(")");
        s
    }
}

/// A new-launch scan keeps only pairs whose age lies in the window, lists
/// them newest first, and never leaves out a new launch that is newer than
/// one it keeps.
pub proof fn lemma_scan_keeps_newest_launches(
    created: Seq<Option<i64>>,
    now: i64,
    max_age_minutes: i64,
    limit: nat,
    r: Seq<usize>,
)
    requires
        is_top_selection(
            creation_keys(created),
            new_launches(created, now, max_age_minutes),
            limit,
            r,
        ),
    ensures
        forall|k: int|
            0 <= k < r.len() ==> (r[k] as int) < created.len() && is_new_launch(
                #[trigger] created[r[k] as int],
                now,
                max_age_minutes,
            ),
        forall|k1: int, k2: int|
            0 <= k1 < k2 < r.len() ==> creation_key(created[r[k1] as int]) >= creation_key(
                created[r[k2] as int],
            ),
        forall|j: int, k: int|
            0 <= j < created.len() && is_new_launch(created[j], now, max_age_minutes)
                && !r.contains(j as usize) && 0 <= k < r.len() ==> creation_key(
                created[r[k] as int],
            ) >= creation_key(created[j]),
{
    let keys = creation_keys(created);
    let el = new_launches(created, now, max_age_minutes);
    assert forall|k: int| 0 <= k < r.len() implies (r[k] as int) < created.len() && is_new_launch(
        #[trigger] created[r[k] as int],
        now,
        max_age_minutes,
    ) by {
        assert(el[r[k] as int]);
    }
    assert forall|k1: int, k2: int| 0 <= k1 < k2 < r.len() implies creation_key(
        created[r[k1] as int],
    ) >= creation_key(created[r[k2] as int]) by {
        assert(ranks_before(keys, r[k1] as int, r[k2] as int));
    }
    assert forall|j: int, k: int|
        0 <= j < created.len() && is_new_launch(created[j], now, max_age_minutes) && !r.contains(
            j as usize,
        ) && 0 <= k < r.len() implies creation_key(created[r[k] as int]) >= creation_key(
        created[j],
    ) by {
        assert(el[j]);
        assert(ranks_before(keys, r[k] as int, j));
    }
}

/// The error of a pair lookup that lists no pair.
pub fn no_pair_error(chain_id: &str, pair_address: &str) -> (s: String)
    ensures
        s@ == "no pair found for "@ + chain_id@ + "/"@ + pair_address@,
{
    let mut s = String::from_str("no pair found for ");
    s.append(chain_id);
    s.append("/");
    s.append(pair_address);
    s
}

/// Whole minutes between two times in order, when their difference fits.
pub proof fn lemma_minutes_since_in_order(c: i64, now: i64)
    requires
        c <= now,
        now - c <= i64::MAX,
    ensures
        minutes_since(c, now) == (now - c) / 60_000,
{
}

/// A creation time ahead of the clock gives minus the whole minutes to it,
/// rounded toward zero, when the difference fits.
pub proof fn lemma_minutes_since_ahead(c: i64, now: i64)
    requires
        now < c,
        now - c >= i64::MIN,
    ensures
        minutes_since(c, now) == -((c - now) / 60_000),
        minutes_since(c, now) <= 0,
{
}

/// A pair is ordered by its creation time, and an unknown creation time
/// orders as time zero; an unknown creation time is never a new launch.
pub proof fn lemma_creation_order(created: Seq<Option<i64>>, now: i64, max_age_minutes: i64)
    ensures
        forall|j: int|
            0 <= j < created.len() && created[j] is Some ==> #[trigger] creation_keys(created)[j]
                == created[j]->0,
        forall|j: int|
            0 <= j < created.len() && created[j] is None ==> #[trigger] creation_keys(created)[j] == 0
                && !new_launches(created, now, max_age_minutes)[j],
        creation_keys(created).len() == created.len(),
        new_launches(created, now, max_age_minutes).len() == created.len(),
{
}

/// The window alone decides which pairs a scan may keep: a pair created at
/// `c`, no later than `now`, may be kept exactly when fewer than
/// `max_age_minutes` whole minutes have passed since; and such a pair is
/// kept unless the scan is already full.
pub proof fn lemma_window_decides(
    created: Seq<Option<i64>>,
    now: i64,
    max_age_minutes: i64,
    limit: nat,
    r: Seq<usize>,
    j: int,
    c: i64,
)
    requires
        is_top_selection(
            creation_keys(created),
            new_launches(created, now, max_age_minutes),
            limit,
            r,
        ),
        0 <= j < created.len(),
        j <= usize::MAX,
        created[j] == Some(c),
        c <= now,
        now - c <= i64::MAX,
    ensures
        is_new_launch(created[j], now, max_age_minutes) <==> (now - c) / 60_000 < max_age_minutes,
        (now - c) / 60_000 < max_age_minutes ==> r.contains(j as usize) || r.len() == limit,
        r.contains(j as usize) ==> (now - c) / 60_000 < max_age_minutes,
{
    lemma_minutes_since_in_order(c, now);
    assert(new_launches(created, now, max_age_minutes)[j] == is_new_launch(
        created[j],
        now,
        max_age_minutes,
    ));
    if r.contains(j as usize) {
        let k = choose|k: int| 0 <= k < r.len() && r[k] == j as usize;
        assert(new_launches(created, now, max_age_minutes)[r[k] as int]);
    }
}

/// A lookup answers with the first pair it lists, and the latest-tokens feed
/// keeps ten pairs.
pub proof fn lemma_lookup_and_feed<T>(pairs: Option<Vec<T>>)
    ensures
        LATEST_TOKENS_CAP == 10,
        forall|w: Vec<T>| #![auto] pairs == Some(w) && w@.len() > 0 ==> first_listed(pairs) == Some(w@[0]),
        forall|w: Vec<T>| #![auto] pairs == Some(w) && w@.len() == 0 ==> first_listed(pairs) is None,
        pairs is None ==> first_listed(pairs) is None,
{
}

} // verus!
