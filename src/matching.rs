use crate::error::ShortcutError;
use crate::shortcut::Shortcut;
use vstd::prelude::*;

verus! {

/// The similarity of `keyword` to `query` that `rust_fuzzy_search::fuzzy_compare`
/// gives, as the bit pattern of its `f32` score.
///
/// The score always lies in `[0, 1]` and is never NaN or `-0.0`, so the bit
/// patterns order exactly as the scores do, and a pattern is `0` exactly when
/// the score is `0`.
pub uninterp spec fn fuzzy_score_of(query: Seq<char>, keyword: Seq<char>) -> u32;

/// Relies on `rust_fuzzy_search::fuzzy_compare`: the share of the query's
/// character trigrams found in the keyword, a function of the two strings
/// alone. `f32::to_bits` only changes its type.
#[verifier::external_body]
fn fuzzy_score(query: &str, keyword: &str) -> (r: u32)
    ensures
        r == fuzzy_score_of(query@, keyword@),
{
    rust_fuzzy_search::fuzzy_compare(query, keyword).to_bits()
}

/// The score of each candidate's keyword against `query`, in storage order.
pub open spec fn scores_for(query: Seq<char>, candidates: Seq<Shortcut>) -> Seq<u32> {
    candidates.map_values(|s: Shortcut| fuzzy_score_of(query, s.keyword@))
}

/// Candidate `i` comes before candidate `j`: a higher score, or an equal score
/// and an earlier place in storage.
pub open spec fn ranks_before(scores: Seq<u32>, i: int, j: int) -> bool {
    scores[i] > scores[j] || (scores[i] == scores[j] && i < j)
}

/// `order` lists the indices of the candidates with a positive score, each
/// once, by descending score and, among equal scores, by storage order.
pub open spec fn is_ranking(scores: Seq<u32>, order: Seq<usize>) -> bool {
    &&& forall|k: int|
        0 <= k < order.len() ==> #[trigger] order[k] < scores.len() && scores[order[k] as int] > 0
    &&& forall|k: int, l: int|
        0 <= k < l < order.len() ==> ranks_before(scores, #[trigger] order[k] as int, #[trigger] order[l] as int)
    &&& forall|i: int|
        0 <= i < scores.len() && #[trigger] scores[i] > 0 ==> exists|k: int| 0 <= k < order.len() && order[k] == i
}

/// What ranking the candidates by these scores gives: the ranked candidates
/// when at least one scores above zero, `NoMatches` when none does.
pub open spec fn ranked_result(
    scores: Seq<u32>,
    candidates: Seq<Shortcut>,
    r: Result<Vec<Shortcut>, ShortcutError>,
) -> bool {
    match r {
        Ok(v) => exists|order: Seq<usize>|
            {
                &&& is_ranking(scores, order)
                &&& order.len() > 0
                &&& v@ == order.map_values(|i: usize| candidates[i as int])
            },
        Err(e) => e == ShortcutError::NoMatches && forall|i: int| 0 <= i < scores.len() ==> scores[i] == 0,
    }
}

/// Two rankings of the same scores agree on their first `n` places.
proof fn lemma_rankings_agree_up_to(scores: Seq<u32>, a: Seq<usize>, b: Seq<usize>, n: int)
    requires
        is_ranking(scores, a),
        is_ranking(scores, b),
        0 <= n <= a.len(),
        n <= b.len(),
    ensures
        forall|j: int| 0 <= j < n ==> a[j] == b[j],
    decreases n,
{
    if n > 0 {
        let k = n - 1;
        lemma_rankings_agree_up_to(scores, a, b, k);
        let x = a[k];
        let y = b[k];
        assert(scores[x as int] > 0);
        assert(scores[y as int] > 0);
        let l = choose|l: int| 0 <= l < b.len() && b[l] == x;
        let m = choose|m: int| 0 <= m < a.len() && a[m] == y;
        if l < k {
            assert(ranks_before(scores, a[l] as int, a[k] as int));
        }
        if m < k {
            assert(ranks_before(scores, b[m] as int, b[k] as int));
        }
        if x != y {
            assert(ranks_before(scores, b[k] as int, b[l] as int));
            assert(ranks_before(scores, a[k] as int, a[m] as int));
        }
    }
}

/// The ranking is determined by the scores: two orders that both rank the
/// same scores are the same order.
pub proof fn lemma_ranking_unique(scores: Seq<u32>, a: Seq<usize>, b: Seq<usize>)
    requires
        is_ranking(scores, a),
        is_ranking(scores, b),
    ensures
        a == b,
{
    if a.len() <= b.len() {
        lemma_rankings_agree_up_to(scores, a, b, a.len() as int);
        if a.len() < b.len() {
            let n = a.len() as int;
            let x = b[n];
            assert(scores[x as int] > 0);
            let l = choose|l: int| 0 <= l < a.len() && a[l] == x;
            assert(ranks_before(scores, b[l] as int, b[n] as int));
        }
    } else {
        lemma_rankings_agree_up_to(scores, a, b, b.len() as int);
        let n = b.len() as int;
        let x = a[n];
        assert(scores[x as int] > 0);
        let l = choose|l: int| 0 <= l < b.len() && b[l] == x;
        assert(ranks_before(scores, a[l] as int, a[n] as int));
    }
    assert(a =~= b);
}

/// The indices of the candidates with a positive score, by descending score;
/// equal scores keep their storage order.
pub fn rank_order(scores: &Vec<u32>) -> (order: Vec<usize>)
    ensures
        is_ranking(scores@, order@),
{
    let mut order: Vec<usize> = Vec::new();
    let mut i: usize = 0;
    while i < scores.len()
        invariant
            i <= scores.len(),
            forall|k: int| 0 <= k < order.len() ==> #[trigger] order@[k] < i && scores@[order@[k] as int] > 0,
            forall|k: int, l: int|
                0 <= k < l < order.len() ==> ranks_before(scores@, #[trigger] order@[k] as int, #[trigger] order@[l] as int),
            forall|j: int|
                0 <= j < i && #[trigger] scores@[j] > 0 ==> exists|k: int| 0 <= k < order.len() && order@[k] == j,
        decreases scores.len() - i,
    {
        let s = scores[i];
        if s > 0 {
            let mut p: usize = 0;
            while p < order.len() && scores[order[p]] >= s
                invariant
                    p <= order.len(),
                    i < scores.len(),
                    s == scores@[i as int],
                    forall|k: int| 0 <= k < order.len() ==> #[trigger] order@[k] < i && scores@[order@[k] as int] > 0,
                    forall|q: int| 0 <= q < p ==> scores@[#[trigger] order@[q] as int] >= s,
                decreases order.len() - p,
            {
                p = p + 1;
            }
            let ghost old_order = order@;
            proof {
                assert forall|q: int| p <= q < old_order.len() implies scores@[#[trigger] old_order[q] as int] < s by {
                    if q > p {
                        assert(ranks_before(scores@, old_order[p as int] as int, old_order[q] as int));
                    }
                }
            }
            order.insert(p, i);
            proof {
                assert(order@ == old_order.insert(p as int, i));
                assert forall|k: int, l: int|
                    0 <= k < l < order.len() implies ranks_before(scores@, #[trigger] order@[k] as int, #[trigger] order@[l] as int) by {
                    if l < p {
                    } else if l == p {
                        assert(order@[k] == old_order[k]);
                    } else if k == p {
                        assert(order@[l] == old_order[l - 1]);
                    } else if k < p {
                        assert(order@[l] == old_order[l - 1]);
                        assert(order@[k] == old_order[k]);
                        assert(ranks_before(scores@, old_order[k] as int, old_order[l - 1] as int));
                    } else {
                        assert(order@[l] == old_order[l - 1]);
                        assert(order@[k] == old_order[k - 1]);
                        assert(ranks_before(scores@, old_order[k - 1] as int, old_order[l - 1] as int));
                    }
                }
                assert forall|j: int|
                    0 <= j < i + 1 && #[trigger] scores@[j] > 0 implies exists|k: int| 0 <= k < order.len() && order@[k] == j by {
                    if j == i {
                        assert(order@[p as int] == i);
                    } else {
                        let k0 = choose|k: int| 0 <= k < old_order.len() && old_order[k] == j;
                        if k0 < p {
                            assert(order@[k0] == j);
                        } else {
                            assert(order@[k0 + 1] == j);
                        }
                    }
                }
            }
        } else {
            proof {
                assert forall|j: int|
                    0 <= j < i + 1 && #[trigger] scores@[j] > 0 implies exists|k: int| 0 <= k < order.len() && order@[k] == j by {
                    assert(j != i);
                }
            }
        }
        i = i + 1;
    }
    order
}

/// Ranks the candidates by the given scores (one per candidate, in storage
/// order): those scoring `0` are left out, the rest come by descending score,
/// and equal scores keep their storage order. `NoMatches` when none scores
/// above `0`.
pub fn rank_by_scores(scores: &Vec<u32>, candidates: &Vec<Shortcut>) -> (r: Result<Vec<Shortcut>, ShortcutError>)
    requires
        scores.len() == candidates.len(),
    ensures
        ranked_result(scores@, candidates@, r),
{
    let order = rank_order(scores);
    if order.len() == 0 {
        proof {
            assert forall|i: int| 0 <= i < scores.len() implies scores@[i] == 0 by {
                if scores@[i] > 0 {
                    let k = choose|k: int| 0 <= k < order@.len() && order@[k] == i;
                }
            }
        }
        return Err(ShortcutError::NoMatches);
    }
    let mut ranked: Vec<Shortcut> = Vec::new();
    let mut k: usize = 0;
    while k < order.len()
        invariant
            k <= order.len(),
            scores.len() == candidates.len(),
            is_ranking(scores@, order@),
            ranked@ == order@.take(k as int).map_values(|i: usize| candidates@[i as int]),
        decreases order.len() - k,
    {
        let idx = order[k];
        assert(idx < scores.len());
        ranked.push(candidates[idx].duplicate());
        proof {
            assert(order@.take(k + 1) == order@.take(k as int).push(idx));
        }
        k = k + 1;
    }
    proof {
        assert(order@.take(order.len() as int) == order@);
    }
    Ok(ranked)
}

/// Ranks the candidates by how similar their keywords are to `query`:
/// non-matches (score `0`) are left out, the rest come by descending
/// similarity, equal scores in storage order. `NoMatches` when nothing matches.
pub fn rank(query: &str, candidates: &Vec<Shortcut>) -> (r: Result<Vec<Shortcut>, ShortcutError>)
    ensures
        ranked_result(scores_for(query@, candidates@), candidates@, r),
{
    let mut scores: Vec<u32> = Vec::new();
    let mut i: usize = 0;
    while i < candidates.len()
        invariant
            i <= candidates.len(),
            scores@ == scores_for(query@, candidates@.take(i as int)),
        decreases candidates.len() - i,
    {
        let score = fuzzy_score(query, candidates[i].keyword.as_str());
        proof {
            assert(candidates@.take(i + 1) == candidates@.take(i as int).push(candidates@[i as int]));
        }
        scores.push(score);
        i = i + 1;
    }
    proof {
        assert(candidates@.take(candidates.len() as int) == candidates@);
    }
    rank_by_scores(&scores, candidates)
}

} // verus!
