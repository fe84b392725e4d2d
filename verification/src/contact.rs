use vstd::prelude::*;

verus! {

/// `p` comes strictly before `q` when pairs are ordered by their first
/// index, then by their second.
pub open spec fn pair_before(p: (usize, usize), q: (usize, usize)) -> bool {
    p.0 < q.0 || (p.0 == q.0 && p.1 < q.1)
}

/// `pairs` holds the pair `(i, j)` at some position.
pub open spec fn holds_pair(pairs: Seq<(usize, usize)>, i: int, j: int) -> bool {
    exists|k: int| 0 <= k < pairs.len() && #[trigger] pairs[k].0 == i && pairs[k].1 == j
}

/// Number of pairs `(p, q)` with `p < i` and `p < q < n`.
pub open spec fn pairs_below(n: int, i: int) -> int
    decreases i,
{
    if i <= 0 {
        0
    } else {
        pairs_below(n, i - 1) + (n - i)
    }
}

proof fn lemma_pairs_below_closed_form(n: int, i: int)
    requires
        0 <= i,
    ensures
        2 * pairs_below(n, i) == 2 * i * n - i * (i + 1),
    decreases i,
{
    if i > 0 {
        lemma_pairs_below_closed_form(n, i - 1);
        let prev = pairs_below(n, i - 1);
        let cur = pairs_below(n, i);
        assert(2 * cur == 2 * i * n - i * (i + 1)) by (nonlinear_arith)
            requires
                2 * prev == 2 * (i - 1) * n - (i - 1) * i,
                cur == prev + (n - i),
        ;
    } else {
        assert(2 * i * n - i * (i + 1) == 0) by (nonlinear_arith)
            requires
                i == 0,
        ;
    }
}

proof fn lemma_half_of_product(n: int, c: int)
    requires
        2 * c == 2 * n * n - n * (n + 1),
    ensures
        c == n * (n - 1) / 2,
{
    assert(n * (n - 1) == 2 * c) by (nonlinear_arith)
        requires
            2 * c == 2 * n * n - n * (n + 1),
    ;
}

/// The pairs of particles of a body of `n` particles that the contact
/// solver tests, in the order it tests them: every `(i, j)` with
/// `i < j < n`, each once, by increasing `i` and then increasing `j`.
///
/// Since `i < j`, the two particles of a pair can be borrowed mutably at the
/// same time by splitting the particle list at `j`.
pub fn collision_pairs(n: usize) -> (pairs: Vec<(usize, usize)>)
    ensures
        forall|k: int| 0 <= k < pairs.len() ==> #[trigger] pairs[k].0 < pairs[k].1 && pairs[k].1 < n,
        forall|k1: int, k2: int|
            0 <= k1 < k2 < pairs.len() ==> pair_before(#[trigger] pairs[k1], #[trigger] pairs[k2]),
        forall|i: int, j: int| 0 <= i < j < n ==> #[trigger] holds_pair(pairs@, i, j),
        pairs.len() == n * (n - 1) / 2,
{
    let mut pairs: Vec<(usize, usize)> = Vec::new();
    let mut i: usize = 0;
    while i < n
        invariant
            i <= n,
            forall|k: int| 0 <= k < pairs.len() ==> #[trigger] pairs[k].0 < pairs[k].1 && pairs[k].1 < n,
            forall|k: int| 0 <= k < pairs.len() ==> #[trigger] pairs[k].0 < i,
            forall|k1: int, k2: int|
                0 <= k1 < k2 < pairs.len() ==> pair_before(#[trigger] pairs[k1], #[trigger] pairs[k2]),
            forall|p: int, q: int| 0 <= p < q < n && p < i ==> #[trigger] holds_pair(pairs@, p, q),
            pairs.len() == pairs_below(n as int, i as int),
        decreases n - i,
    {
        let mut j: usize = i + 1;
        while j < n
            invariant
                i < n,
                i + 1 <= j <= n,
                forall|k: int| 0 <= k < pairs.len() ==> #[trigger] pairs[k].0 < pairs[k].1 && pairs[k].1 < n,
                forall|k: int|
                    0 <= k < pairs.len() ==> #[trigger] pairs[k].0 < i || (pairs[k].0 == i && pairs[k].1 < j),
                forall|k1: int, k2: int|
                    0 <= k1 < k2 < pairs.len() ==> pair_before(#[trigger] pairs[k1], #[trigger] pairs[k2]),
                forall|p: int, q: int|
                    0 <= p < q < n && (p < i || (p == i && q < j)) ==> #[trigger] holds_pair(pairs@, p, q),
                pairs.len() == pairs_below(n as int, i as int) + (j - i - 1),
            decreases n - j,
        {
            let ghost before = pairs@;
            pairs.push((i, j));
            assert forall|p: int, q: int|
                0 <= p < q < n && (p < i || (p == i && q < j + 1)) implies #[trigger] holds_pair(pairs@, p, q) by {
                if p == i && q == j {
                    assert(pairs@[before.len() as int].0 == p && pairs@[before.len() as int].1 == q);
                } else {
                    assert(holds_pair(before, p, q));
                    let k = choose|k: int| 0 <= k < before.len() && #[trigger] before[k].0 == p && before[k].1 == q;
                    assert(pairs@[k].0 == p && pairs@[k].1 == q);
                }
            }
            j = j + 1;
        }
        i = i + 1;
    }
    proof {
        lemma_pairs_below_closed_form(n as int, n as int);
        lemma_half_of_product(n as int, pairs.len() as int);
    }
    pairs
}

} // verus!
