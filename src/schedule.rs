use vstd::prelude::*;

verus! {

/// The `k`-th body, in ascending order, of those other than body `i`.
pub open spec fn other_body(i: int, k: int) -> int {
    if k < i {
        k
    } else {
        k + 1
    }
}

/// The pairs `(i, j)` with `i < j < n`, for one fixed `i`, by ascending `j`.
pub open spec fn pair_row(i: int, n: int) -> Seq<(usize, usize)> {
    Seq::new((n - i - 1) as nat, |k: int| (i as usize, (i + 1 + k) as usize))
}

/// The rows `0 .. m` of the pairs of `n` bodies, one after another.
pub open spec fn pairs_in_rows(m: nat, n: nat) -> Seq<(usize, usize)>
    decreases m,
{
    if m == 0 {
        Seq::empty()
    } else {
        pairs_in_rows((m - 1) as nat, n) + pair_row(m - 1, n as int)
    }
}

/// Every unordered pair of `n` bodies, as `(i, j)` with `i < j`, ordered
/// by `i` and then by `j`.
pub open spec fn contact_pairs(n: nat) -> Seq<(usize, usize)> {
    pairs_in_rows(n, n)
}

/// `p` comes strictly before `q` in the order of `i`, then `j`.
pub open spec fn pair_before(p: (usize, usize), q: (usize, usize)) -> bool {
    p.0 < q.0 || (p.0 == q.0 && p.1 < q.1)
}

/// The bodies whose attraction acts on body `i` among `n`: every index
/// below `n` but `i` itself, in ascending order.
pub fn gravity_sources(i: usize, n: usize) -> (r: Vec<usize>)
    requires
        i < n,
    ensures
        r@.len() == n - 1,
        forall|k: int| 0 <= k < r@.len() ==> #[trigger] r@[k] == other_body(i as int, k),
        forall|k: int| 0 <= k < r@.len() ==> #[trigger] r@[k] != i && r@[k] < n,
        forall|j: usize| j < n && j != i ==> #[trigger] r@.contains(j),
{
    let mut r: Vec<usize> = Vec::new();
    let mut j: usize = 0;
    while j < n
        invariant
            i < n,
            j <= n,
            r@.len() == if j <= i { j as int } else { j - 1 },
            forall|k: int| 0 <= k < r@.len() ==> r@[k] == other_body(i as int, k),
        decreases n - j,
    {
        if j != i {
            r.push(j);
        }
        j = j + 1;
    }
    assert(r@.len() == n - 1);
    assert forall|k: int| 0 <= k < r@.len() implies r@[k] != i && r@[k] < n by {
        assert(r@[k] == other_body(i as int, k));
    }
    assert forall|j: usize| j < n && j != i implies #[trigger] r@.contains(j) by {
        let k: int = if j < i { j as int } else { j - 1 };
        assert(r@[k] == other_body(i as int, k));
        assert(r@[k] == j);
    }
    r
}

/// The pairs that the contact pass visits for `n` bodies: each unordered pair
/// once, in ascending order of the first index and then of the second.
pub fn collision_pairs(n: usize) -> (r: Vec<(usize, usize)>)
    ensures
        r@ == contact_pairs(n as nat),
{
    let mut r: Vec<(usize, usize)> = Vec::new();
    let mut i: usize = 0;
    while i < n
        invariant
            i <= n,
            r@ == pairs_in_rows(i as nat, n as nat),
        decreases n - i,
    {
        let ghost before = r@;
        let mut j: usize = i + 1;
        while j < n
            invariant
                i < n,
                i + 1 <= j <= n,
                before == pairs_in_rows(i as nat, n as nat),
                r@ == before + pair_row(i as int, n as int).take(j - i - 1),
            decreases n - j,
        {
            r.push((i, j));
            proof {
                assert(pair_row(i as int, n as int).take(j - i) =~= pair_row(
                    i as int,
                    n as int,
                ).take(j - i - 1).push((i, j)));
            }
            j = j + 1;
        }
        assert(pair_row(i as int, n as int).take(n - i - 1) =~= pair_row(i as int, n as int));
        i = i + 1;
    }
    r
}

/// Every pair in the first `m` rows has its first index below `m`, and is a
/// pair `i < j < n`.
proof fn lemma_rows_bounds(m: nat, n: nat)
    requires
        m <= n <= usize::MAX,
    ensures
        forall|k: int|
            0 <= k < pairs_in_rows(m, n).len() ==> {
                let p = #[trigger] pairs_in_rows(m, n)[k];
                p.0 < m && p.0 < p.1 && p.1 < n
            },
    decreases m,
{
    if m > 0 {
        let m1 = (m - 1) as nat;
        lemma_rows_bounds(m1, n);
        let prev = pairs_in_rows(m1, n);
        let row = pair_row(m1 as int, n as int);
        assert forall|k: int| 0 <= k < pairs_in_rows(m, n).len() implies {
            let p = #[trigger] pairs_in_rows(m, n)[k];
            p.0 < m && p.0 < p.1 && p.1 < n
        } by {
            if k < prev.len() {
                assert(pairs_in_rows(m, n)[k] == prev[k]);
            } else {
                assert(pairs_in_rows(m, n)[k] == row[k - prev.len()]);
            }
        }
    }
}

/// The first `m` rows hold exactly the pairs `i < j < n` with `i < m`, each in
/// strictly ascending order.
proof fn lemma_rows(m: nat, n: nat)
    requires
        m <= n <= usize::MAX,
    ensures
        forall|a: usize, b: usize|
            pairs_in_rows(m, n).contains((a, b)) <==> (a < m && a < b && b < n),
        forall|p: int, q: int|
            0 <= p < q < pairs_in_rows(m, n).len() ==> pair_before(
                #[trigger] pairs_in_rows(m, n)[p],
                #[trigger] pairs_in_rows(m, n)[q],
            ),
    decreases m,
{
    if m > 0 {
        let m1 = (m - 1) as nat;
        lemma_rows(m1, n);
        lemma_rows_bounds(m1, n);
        let prev = pairs_in_rows(m1, n);
        let row = pair_row(m1 as int, n as int);
        let all = pairs_in_rows(m, n);
        assert(all == prev + row);
        assert forall|a: usize, b: usize| all.contains((a, b)) <==> (a < m && a < b && b < n) by {
            if all.contains((a, b)) {
                let k = choose|k: int| 0 <= k < all.len() && all[k] == (a, b);
                if k >= prev.len() {
                    assert(row[k - prev.len()] == (a, b));
                } else {
                    assert(all[k] == prev[k]);
                    assert(prev.contains((a, b)));
                }
            }
            if a < m && a < b && b < n {
                if a < m1 {
                    assert(prev.contains((a, b)));
                    let k = choose|k: int| 0 <= k < prev.len() && prev[k] == (a, b);
                    assert(all[k] == (a, b));
                } else {
                    let k = b - a - 1;
                    assert(row[k] == (a, b));
                    assert(all[prev.len() + k] == (a, b));
                }
            }
        }
        assert forall|p: int, q: int| 0 <= p < q < all.len() implies pair_before(
            #[trigger] all[p],
            #[trigger] all[q],
        ) by {
            if q < prev.len() {
                assert(all[p] == prev[p] && all[q] == prev[q]);
            } else if p < prev.len() {
                assert(all[p] == prev[p]);
                assert(all[q] == row[q - prev.len()]);
                assert(prev[p].0 < m1);
            } else {
                assert(all[p] == row[p - prev.len()]);
                assert(all[q] == row[q - prev.len()]);
            }
        }
    }
}

/// The contact pass visits every unordered pair of distinct bodies exactly
/// once: a pair is listed if and only if `i < j < n`, and the list ascends
/// strictly, so no pair comes twice.
pub proof fn lemma_each_pair_once(n: nat)
    requires
        n <= usize::MAX,
    ensures
        forall|a: usize, b: usize| contact_pairs(n).contains((a, b)) <==> (a < b && b < n),
        forall|p: int, q: int|
            0 <= p < q < contact_pairs(n).len() ==> pair_before(
                #[trigger] contact_pairs(n)[p],
                #[trigger] contact_pairs(n)[q],
            ),
        forall|p: int, q: int|
            0 <= p < q < contact_pairs(n).len() ==> #[trigger] contact_pairs(n)[p]
                != #[trigger] contact_pairs(n)[q],
{
    lemma_rows(n, n);
}

} // verus!
