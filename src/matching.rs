use vstd::prelude::*;

verus! {

/// Neighbours at a distance strictly below this count as the same image.
pub const SIMILARITY_THRESHOLD: u64 = 5;

/// How many nearest neighbours a search asks for.
pub const SEARCH_NEIGHBOURS: usize = 10;

/// How broadly a search explores the graph of the index.
pub const SEARCH_BREADTH: usize = 10;

/// One answer of a nearest-neighbour search: the identity stored with a
/// vector and its distance to the query.
#[derive(Clone, Copy, Debug, PartialEq, Eq, Structural)]
pub struct Neighbour {
    pub id: i64,
    pub distance: u64,
}

/// Whether a neighbour at this distance counts as a match: strictly below the
/// threshold.
pub open spec fn is_match(distance: u64) -> bool {
    distance < SIMILARITY_THRESHOLD
}

/// The identities of the neighbours that match, in the order of the search.
pub open spec fn matches_of(ns: Seq<Neighbour>) -> Seq<i64>
    decreases ns.len(),
{
    if ns.len() == 0 {
        seq![]
    } else if is_match(ns.last().distance) {
        matches_of(ns.drop_last()).push(ns.last().id)
    } else {
        matches_of(ns.drop_last())
    }
}

/// Whether a neighbour at this distance counts as a match.
pub fn is_similar(distance: u64) -> (r: bool)
    ensures
        r == is_match(distance),
{
    distance < SIMILARITY_THRESHOLD
}

/// The identities of the neighbours under the similarity threshold, in the
/// order in which the search returned them.
pub fn matching_identities(neighbours: &Vec<Neighbour>) -> (r: Vec<i64>)
    ensures
        r@ == matches_of(neighbours@),
{
    let mut r: Vec<i64> = Vec::new();
    let mut i: usize = 0;
    while i < neighbours.len()
        invariant
            i <= neighbours@.len(),
            r@ == matches_of(neighbours@.subrange(0, i as int)),
        decreases neighbours@.len() - i,
    {
        let n = neighbours[i];
        proof {
            assert(neighbours@.subrange(0, i + 1).drop_last() =~= neighbours@.subrange(0, i as int));
        }
        if is_similar(n.distance) {
            r.push(n.id);
        }
        i = i + 1;
    }
    proof {
        assert(neighbours@.subrange(0, i as int) =~= neighbours@);
    }
    r
}

/// A neighbour is reported exactly when its distance is below the threshold:
/// one at the threshold is left out, one just below it is kept.
pub proof fn lemma_threshold_boundary(id: i64)
    ensures
        matches_of(seq![Neighbour { id, distance: SIMILARITY_THRESHOLD }]) == Seq::<i64>::empty(),
        matches_of(seq![Neighbour { id, distance: (SIMILARITY_THRESHOLD - 1) as u64 }]) == seq![id],
{
    let at = seq![Neighbour { id, distance: SIMILARITY_THRESHOLD }];
    let below = seq![Neighbour { id, distance: (SIMILARITY_THRESHOLD - 1) as u64 }];
    assert(at.drop_last() =~= Seq::<Neighbour>::empty());
    assert(below.drop_last() =~= Seq::<Neighbour>::empty());
    assert(matches_of(below.drop_last()) =~= Seq::<i64>::empty());
    assert(is_match(below.last().distance));
    assert(matches_of(below) =~= seq![id]);
}

/// Nothing matches in the answer of a search over an empty index.
pub proof fn lemma_no_neighbours_no_matches()
    ensures
        matches_of(Seq::<Neighbour>::empty()) == Seq::<i64>::empty(),
{
}

} // verus!
