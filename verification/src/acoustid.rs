//! What the acoustic lookup returns, and the choice of its best candidate.

use vstd::prelude::*;

verus! {

/// The answer of the acoustic lookup.
#[derive(Clone, Debug, PartialEq, Eq)]
pub struct AcoustIDApiLookupResponse {
    pub status: String,
    /// The candidates, in the order in which the service gave them: no
    /// particular order.
    pub results: Vec<LookupResult>,
}

/// One candidate.
#[derive(Clone, Debug, PartialEq, Eq)]
pub struct LookupResult {
    pub id: String,
    /// How well the candidate matches: a greater number is a better match.
    pub score: u64,
    /// The recordings that the candidate stands for.
    pub recordings: Vec<Recording>,
}

/// A reference to a recording.
#[derive(Clone, Debug, PartialEq, Eq)]
pub struct Recording {
    pub id: String,
}

/// The scores of the candidates, in their order.
pub open spec fn scores(results: Seq<LookupResult>) -> Seq<u64> {
    results.map_values(|r: LookupResult| r.score)
}

/// `i` is the place of the best candidate: none scores higher, and none
/// before it scores as high.
pub open spec fn is_best_match(scores: Seq<u64>, i: int) -> bool {
    &&& 0 <= i < scores.len()
    &&& forall|j: int| 0 <= j < scores.len() ==> scores[j] <= scores[i]
    &&& forall|j: int| 0 <= j < i ==> scores[j] < scores[i]
}

/// The place of the best candidate, where there is a candidate.
pub open spec fn best_match_of(scores: Seq<u64>) -> int {
    choose|i: int| is_best_match(scores, i)
}

/// The place of the best candidate among `results`: the first of those with
/// the highest score. There is none exactly when there is no candidate.
pub fn select_best_match(results: &Vec<LookupResult>) -> (best: Option<usize>)
    ensures
        results@.len() == 0 <==> best is None,
        best matches Some(i) ==> is_best_match(scores(results@), i as int) && i
            == best_match_of(scores(results@)),
{
    if results.len() == 0 {
        return None;
    }
    let mut best: usize = 0;
    let mut i: usize = 1;
    while i < results.len()
        invariant
            0 <= best < i <= results.len(),
            forall|j: int| 0 <= j < i ==> scores(results@)[j] <= scores(results@)[best as int],
            forall|j: int| 0 <= j < best ==> scores(results@)[j] < scores(results@)[best as int],
        decreases results.len() - i,
    {
        if results[i].score > results[best].score {
            best = i;
        }
        i = i + 1;
    }
    proof {
        assert(is_best_match(scores(results@), best as int));
        lemma_best_match_is_unique(
            scores(results@),
            best as int,
            best_match_of(scores(results@)),
        );
    }
    Some(best)
}

/// Where there is a candidate, there is a best one.
pub proof fn lemma_best_match_exists(scores: Seq<u64>)
    requires
        scores.len() > 0,
    ensures
        is_best_match(scores, best_match_of(scores)),
    decreases scores.len(),
{
    let earlier = scores.drop_last();
    let last = scores.len() - 1;
    let witness = if earlier.len() == 0 {
        0
    } else {
        lemma_best_match_exists(earlier);
        let i = best_match_of(earlier);
        assert forall|j: int| 0 <= j < earlier.len() implies scores[j] == earlier[j] by {}
        if scores[last] > earlier[i] {
            assert forall|j: int| 0 <= j < last implies scores[j] < scores[last] by {
                assert(earlier[j] <= earlier[i]);
            }
            last
        } else {
            assert forall|j: int| 0 <= j < scores.len() implies scores[j] <= scores[i] by {
                if j < last {
                    assert(earlier[j] <= earlier[i]);
                }
            }
            assert forall|j: int| 0 <= j < i implies scores[j] < scores[i] by {
                assert(earlier[j] < earlier[i]);
            }
            i
        }
    };
    assert(is_best_match(scores, witness));
}

/// The best candidate is unique: the choice is settled by the scores alone.
pub proof fn lemma_best_match_is_unique(scores: Seq<u64>, i: int, j: int)
    requires
        is_best_match(scores, i),
        is_best_match(scores, j),
    ensures
        i == j,
{
    if i < j {
        assert(scores[i] < scores[j]);
        assert(scores[j] <= scores[i]);
    } else if j < i {
        assert(scores[j] < scores[i]);
        assert(scores[i] <= scores[j]);
    }
}

/// The best candidate's score is the highest, and every candidate that
/// scores as high comes at or after it.
pub proof fn lemma_best_match_is_first_maximum(scores: Seq<u64>, i: int, j: int)
    requires
        is_best_match(scores, i),
        0 <= j < scores.len(),
    ensures
        scores[j] <= scores[i],
        scores[j] == scores[i] ==> i <= j,
{
    if j < i {
        assert(scores[j] < scores[i]);
    }
}

} // verus!
