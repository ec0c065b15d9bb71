//! Newest-first (or deepest-first) selection of the best few items, by an
//! integer key per item: larger keys first, ties kept in their input
//! order, as a stable sort by descending key followed by a filter and a cap.
use vstd::prelude::*;

verus! {

/// Item `i` comes before item `j`: its key is larger, or the keys tie and
/// `i` stood first.
pub open spec fn ranks_before(keys: Seq<i64>, i: int, j: int) -> bool {
    keys[i] > keys[j] || (keys[i] == keys[j] && i < j)
}

/// `r` lists, in order, the first `limit` eligible items of the stable
/// descending-key order (all of them if there are fewer).
pub open spec fn is_top_selection(
    keys: Seq<i64>,
    eligible: Seq<bool>,
    limit: nat,
    r: Seq<usize>,
) -> bool {
    &&& r.len() <= limit
    &&& forall|k: int| 0 <= k < r.len() ==> (r[k] as int) < keys.len() && eligible[r[k] as int]
    &&& forall|k1: int, k2: int|
        0 <= k1 < k2 < r.len() ==> ranks_before(keys, r[k1] as int, r[k2] as int)
    &&& forall|j: int, k: int|
        0 <= j < keys.len() && eligible[j] && !r.contains(j as usize) && 0 <= k < r.len()
            ==> ranks_before(keys, r[k] as int, j)
    &&& r.len() < limit ==> forall|j: int|
        0 <= j < keys.len() && eligible[j] ==> r.contains(j as usize)
}

fn ranks_before_exec(keys: &Vec<i64>, i: usize, j: usize) -> (b: bool)
    requires
        i < keys.len(),
        j < keys.len(),
    ensures
        b == ranks_before(keys@, i as int, j as int),
{
    keys[i] > keys[j] || (keys[i] == keys[j] && i < j)
}

/// The first `limit` eligible items in the stable descending-key order.
pub fn select_top(keys: &Vec<i64>, eligible: &Vec<bool>, limit: usize) -> (r: Vec<usize>)
    requires
        keys.len() == eligible.len(),
    ensures
        is_top_selection(keys@, eligible@, limit as nat, r@),
{
    let n = keys.len();
    let mut r: Vec<usize> = Vec::new();
    while r.len() < limit
        invariant
            n == keys.len(),
            n == eligible.len(),
            r.len() <= limit,
            forall|k: int| 0 <= k < r.len() ==> (r[k] as int) < n && eligible@[r[k] as int],
            forall|k1: int, k2: int|
                0 <= k1 < k2 < r.len() ==> ranks_before(keys@, r[k1] as int, r[k2] as int),
            r.len() > 0 ==> forall|j: int|
                0 <= j < n && eligible@[j] && !r@.contains(j as usize) ==> ranks_before(
                    keys@,
                    r@.last() as int,
                    j,
                ),
        decreases limit - r.len(),
    {
        let ghost r0 = r@;
        // The best eligible item after the last one taken.
        let mut best: Option<usize> = None;
        let mut j: usize = 0;
        while j < n
            invariant
                n == keys.len(),
                n == eligible.len(),
                r@ == r0,
                j <= n,
                forall|k: int| 0 <= k < r.len() ==> (r[k] as int) < n,
                best matches Some(b) ==> {
                    &&& b < j
                    &&& eligible@[b as int]
                    &&& (r.len() > 0 ==> ranks_before(keys@, r@.last() as int, b as int))
                    &&& forall|jj: int|
                        0 <= jj < j && eligible@[jj] && (r.len() > 0 ==> ranks_before(
                            keys@,
                            r@.last() as int,
                            jj,
                        )) && jj != b ==> ranks_before(keys@, b as int, jj)
                },
                best is None ==> forall|jj: int|
                    0 <= jj < j && eligible@[jj] ==> (r.len() > 0 && !ranks_before(
                        keys@,
                        r@.last() as int,
                        jj,
                    )),
            decreases n - j,
        {
            let after_last = r.len() == 0 || ranks_before_exec(keys, r[r.len() - 1], j);
            if eligible[j] && after_last {
                match best {
                    None => {
                        best = Some(j);
                    },
                    Some(b) => {
                        if ranks_before_exec(keys, j, b) {
                            best = Some(j);
                        }
                    },
                }
            }
            j = j + 1;
        }
        match best {
            None => {
                assert forall|jj: int| 0 <= jj < n && eligible@[jj] implies r@.contains(
                    jj as usize,
                ) by {
                    if !r@.contains(jj as usize) {
                        assert(ranks_before(keys@, r@.last() as int, jj));
                    }
                }
                return r;
            },
            Some(b) => {
                assert(!r@.contains(b)) by {
                    if r@.contains(b) {
                        let k = choose|k: int| 0 <= k < r.len() && r@[k] == b;
                        if k < r.len() - 1 {
                            assert(ranks_before(keys@, b as int, r@.last() as int));
                        }
                    }
                }
                r.push(b);
                assert forall|k1: int, k2: int| 0 <= k1 < k2 < r.len() implies ranks_before(
                    keys@,
                    r@[k1] as int,
                    r@[k2] as int,
                ) by {
                    if k2 == r0.len() && k1 < r0.len() - 1 {
                        assert(ranks_before(keys@, r0[k1] as int, r0.last() as int));
                    }
                }
                assert forall|jj: int|
                    0 <= jj < n && eligible@[jj] && !r@.contains(jj as usize) implies ranks_before(
                    keys@,
                    b as int,
                    jj,
                ) by {
                    assert(!r0.contains(jj as usize)) by {
                        if r0.contains(jj as usize) {
                            let k = choose|k: int| 0 <= k < r0.len() && r0[k] == jj as usize;
                            assert(r@[k] == jj as usize);
                        }
                    }
                    assert(jj != b as int) by {
                        assert(r@[r0.len() as int] == b);
                    }
                }
            },
        }
    }
    assert forall|j: int, k: int|
        0 <= j < keys.len() && eligible@[j] && !r@.contains(j as usize) && 0 <= k < r.len()
            implies ranks_before(keys@, r@[k] as int, j) by {
        if k < r.len() - 1 {
            assert(ranks_before(keys@, r@[k] as int, r@.last() as int));
        }
    }
    r
}

/// The selection is determined by the keys, the eligible items and the cap:
/// there is only one sequence that meets the description.
pub proof fn lemma_top_selection_unique(
    keys: Seq<i64>,
    eligible: Seq<bool>,
    limit: nat,
    r1: Seq<usize>,
    r2: Seq<usize>,
)
    requires
        keys.len() == eligible.len(),
        is_top_selection(keys, eligible, limit, r1),
        is_top_selection(keys, eligible, limit, r2),
    ensures
        r1 == r2,
{
    let m = if r1.len() <= r2.len() { r1.len() } else { r2.len() };
    assert forall|k: int| 0 <= k < m implies r1[k] == r2[k] by {
        lemma_top_selection_agree(keys, eligible, limit, r1, r2, k);
    }
    if r1.len() < r2.len() {
        let x = r2[m as int];
        assert(r1.contains(x));
        let p = choose|p: int| 0 <= p < r1.len() && r1[p] == x;
        assert(r2[p] == x);
        assert(ranks_before(keys, r2[p] as int, r2[m as int] as int));
    } else if r2.len() < r1.len() {
        let x = r1[m as int];
        assert(r2.contains(x));
        let p = choose|p: int| 0 <= p < r2.len() && r2[p] == x;
        assert(r1[p] == x);
        assert(ranks_before(keys, r1[p] as int, r1[m as int] as int));
    }
    assert(r1 =~= r2);
}

proof fn lemma_top_selection_agree(
    keys: Seq<i64>,
    eligible: Seq<bool>,
    limit: nat,
    r1: Seq<usize>,
    r2: Seq<usize>,
    k: int,
)
    requires
        keys.len() == eligible.len(),
        is_top_selection(keys, eligible, limit, r1),
        is_top_selection(keys, eligible, limit, r2),
        0 <= k < r1.len(),
        k < r2.len(),
    ensures
        r1[k] == r2[k],
    decreases k,
{
    assert forall|i: int| 0 <= i < k implies r1[i] == r2[i] by {
        lemma_top_selection_agree(keys, eligible, limit, r1, r2, i);
    }
    let a = r1[k];
    let b = r2[k];
    if a != b {
        // a ranks before b
        if r2.contains(a) {
            let p = choose|p: int| 0 <= p < r2.len() && r2[p] == a;
            if p < k {
                assert(r1[p] == a);
                assert(ranks_before(keys, r1[p] as int, r1[k] as int));
            } else {
                assert(p != k);
                assert(ranks_before(keys, b as int, a as int));
            }
        } else {
            assert(ranks_before(keys, r2[k] as int, a as int));
        }
        assert(ranks_before(keys, b as int, a as int));
        if r1.contains(b) {
            let p = choose|p: int| 0 <= p < r1.len() && r1[p] == b;
            if p < k {
                assert(r2[p] == b);
                assert(ranks_before(keys, r2[p] as int, r2[k] as int));
            } else {
                assert(p != k);
                assert(ranks_before(keys, a as int, b as int));
            }
        } else {
            assert(ranks_before(keys, r1[k] as int, b as int));
        }
        assert(ranks_before(keys, a as int, b as int));
    }
}

/// A higher cap only appends: the selection under the smaller cap is the
/// start of the selection under the larger one.
pub proof fn lemma_larger_cap_extends(
    keys: Seq<i64>,
    eligible: Seq<bool>,
    n1: nat,
    n2: nat,
    r1: Seq<usize>,
    r2: Seq<usize>,
)
    requires
        keys.len() == eligible.len(),
        keys.len() <= usize::MAX,
        n1 <= n2,
        is_top_selection(keys, eligible, n1, r1),
        is_top_selection(keys, eligible, n2, r2),
    ensures
        r1 == r2.take(if n1 <= r2.len() { n1 as int } else { r2.len() as int }),
{
    let m: int = if n1 <= r2.len() { n1 as int } else { r2.len() as int };
    let p = r2.take(m);
    assert forall|j: int, k: int|
        0 <= j < keys.len() && eligible[j] && !p.contains(j as usize) && 0 <= k < p.len()
            implies ranks_before(keys, p[k] as int, j) by {
        assert(p[k] == r2[k]);
        if r2.contains(j as usize) {
            let q = choose|q: int| 0 <= q < r2.len() && r2[q] == j as usize;
            if q < m {
                assert(p[q] == j as usize);
                assert(p.contains(j as usize));
            }
            assert(k < q);
            assert(ranks_before(keys, r2[k] as int, r2[q] as int));
        } else {
            assert(ranks_before(keys, r2[k] as int, j));
        }
    }
    assert forall|j: int| p.len() < n1 && 0 <= j < keys.len() && eligible[j] implies p.contains(
        j as usize,
    ) by {
        assert(p =~= r2);
        assert(r2.contains(j as usize));
    }
    assert(is_top_selection(keys, eligible, n1, p));
    lemma_top_selection_unique(keys, eligible, n1, r1, p);
}

/// The selection runs from the largest key down, and items with equal keys
/// keep the order they came in; nothing is picked twice.
pub proof fn lemma_selection_order(keys: Seq<i64>, eligible: Seq<bool>, limit: nat, r: Seq<usize>)
    requires
        is_top_selection(keys, eligible, limit, r),
    ensures
        forall|k1: int, k2: int|
            0 <= k1 < k2 < r.len() ==> keys[r[k1] as int] > keys[r[k2] as int] || (keys[r[k1] as int]
                == keys[r[k2] as int] && r[k1] < r[k2]),
        forall|k1: int, k2: int| 0 <= k1 < k2 < r.len() ==> r[k1] != r[k2],
{
    assert forall|k1: int, k2: int| 0 <= k1 < k2 < r.len() implies keys[r[k1] as int] > keys[r[k2] as int]
        || (keys[r[k1] as int] == keys[r[k2] as int] && r[k1] < r[k2]) by {
        assert(ranks_before(keys, r[k1] as int, r[k2] as int));
    }
}

} // verus!
