//! Picks the best of a list of candidate scores, first-seen on ties.

use vstd::prelude::*;

verus! {

/// `i` holds a greatest score of `s`, and no earlier entry reaches it.
pub open spec fn is_first_best(s: Seq<u64>, i: int) -> bool {
    &&& 0 <= i < s.len()
    &&& forall|j: int| 0 <= j < s.len() ==> s[j] <= s[i]
    &&& forall|j: int| 0 <= j < i ==> s[j] < s[i]
}

/// The index of the first greatest score (0 for an empty list).
pub open spec fn best_index(s: Seq<u64>) -> int
    decreases s.len(),
{
    if s.len() <= 1 {
        0
    } else {
        let k = best_index(s.drop_last());
        if s.last() > s[k] {
            s.len() - 1
        } else {
            k
        }
    }
}

/// The index of the first greatest score is the one `best_index` names.
pub proof fn lemma_best_index(s: Seq<u64>)
    requires
        s.len() > 0,
    ensures
        is_first_best(s, best_index(s)),
    decreases s.len(),
{
    if s.len() > 1 {
        let t = s.drop_last();
        lemma_best_index(t);
        assert forall|j: int| 0 <= j < t.len() implies s[j] == t[j] by {}
    }
}

/// At most one index holds the first greatest score.
pub proof fn lemma_first_best_unique(s: Seq<u64>, i: int, k: int)
    requires
        is_first_best(s, i),
        is_first_best(s, k),
    ensures
        i == k,
{
    if i < k {
        assert(s[i] < s[k]);
    } else if k < i {
        assert(s[k] < s[i]);
    }
}

/// The result of a selection over `s`.
pub open spec fn best_of(s: Seq<u64>) -> Option<usize> {
    if s.len() == 0 {
        None
    } else {
        Some(best_index(s) as usize)
    }
}

/// Selects the candidate with the greatest score; among equal greatest scores
/// the earliest wins. `None` for an empty list.
pub fn select_best(scores: &Vec<u64>) -> (r: Option<usize>)
    ensures
        r is None <==> scores@.len() == 0,
        r matches Some(i) ==> is_first_best(scores@, i as int) && i == best_index(scores@),
        r == best_of(scores@),
{
    if scores.len() == 0 {
        return None;
    }
    let mut best: usize = 0;
    let mut i: usize = 1;
    while i < scores.len()
        invariant
            1 <= i <= scores@.len(),
            best < i,
            forall|j: int| 0 <= j < i ==> scores@[j] <= scores@[best as int],
            forall|j: int| 0 <= j < best ==> scores@[j] < scores@[best as int],
        decreases scores@.len() - i,
    {
        if scores[i] > scores[best] {
            best = i;
        }
        i += 1;
    }
    proof {
        lemma_best_index(scores@);
        lemma_first_best_unique(scores@, best as int, best_index(scores@));
    }
    Some(best)
}

/// The complement of each key, so that the lowest key scores highest.
pub open spec fn inverted(keys: Seq<u64>) -> Seq<u64> {
    keys.map_values(|k: u64| (u64::MAX - k) as u64)
}

/// `i` holds a lowest key of `s`, and no earlier entry is as low.
pub open spec fn is_first_lowest(s: Seq<u64>, i: int) -> bool {
    &&& 0 <= i < s.len()
    &&& forall|j: int| 0 <= j < s.len() ==> s[i] <= s[j]
    &&& forall|j: int| 0 <= j < i ==> s[i] < s[j]
}

/// Selects the candidate with the lowest key; among equal lowest keys the
/// earliest wins. `None` for an empty list.
pub fn select_lowest(keys: &Vec<u64>) -> (r: Option<usize>)
    ensures
        r is None <==> keys@.len() == 0,
        r matches Some(i) ==> is_first_lowest(keys@, i as int) && i == best_index(inverted(keys@)),
        r == best_of(inverted(keys@)),
{
    let mut scores: Vec<u64> = Vec::new();
    let mut i: usize = 0;
    while i < keys.len()
        invariant
            i <= keys@.len(),
            scores@ == inverted(keys@.take(i as int)),
        decreases keys@.len() - i,
    {
        scores.push(u64::MAX - keys[i]);
        proof {
            assert(keys@.take(i + 1) == keys@.take(i as int).push(keys@[i as int]));
        }
        i += 1;
        assert(scores@ =~= inverted(keys@.take(i as int)));
    }
    assert(keys@.take(i as int) =~= keys@);
    let r = select_best(&scores);
    proof {
        if let Some(b) = r {
            lemma_inverted_best(keys@, b as int);
        }
    }
    r
}

/// The first greatest inverted key is the first lowest key.
pub proof fn lemma_inverted_best(keys: Seq<u64>, i: int)
    requires
        is_first_best(inverted(keys), i),
    ensures
        is_first_lowest(keys, i),
{
    let s = inverted(keys);
    assert forall|j: int| 0 <= j < keys.len() implies keys[i] <= keys[j] by {
        assert(s[j] <= s[i]);
    }
    assert forall|j: int| 0 <= j < i implies keys[i] < keys[j] by {
        assert(s[j] < s[i]);
    }
}

} // verus!
