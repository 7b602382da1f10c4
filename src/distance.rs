use vstd::prelude::*;

use crate::encoding::encode;

verus! {

/// The absolute difference of two entries.
pub open spec fn entry_gap(x: u8, y: u8) -> nat {
    if x >= y {
        (x - y) as nat
    } else {
        (y - x) as nat
    }
}

/// Sum of the absolute differences of corresponding entries of two vectors
/// of equal length.
pub open spec fn l1(a: Seq<u8>, b: Seq<u8>) -> nat
    decreases a.len(),
{
    if a.len() == 0 || b.len() == 0 {
        0
    } else {
        l1(a.drop_last(), b.drop_last()) + entry_gap(a.last(), b.last())
    }
}

/// The distance of two vectors: their L1 distance where their lengths agree,
/// nothing where they do not (vectors of unequal length are not comparable).
pub open spec fn vector_distance(a: Seq<u8>, b: Seq<u8>) -> Option<nat> {
    if a.len() == b.len() {
        Some(l1(a, b))
    } else {
        None
    }
}

proof fn lemma_l1_bound(a: Seq<u8>, b: Seq<u8>)
    requires
        a.len() == b.len(),
    ensures
        l1(a, b) <= 255 * a.len(),
    decreases a.len(),
{
    if a.len() > 0 {
        lemma_l1_bound(a.drop_last(), b.drop_last());
    }
}

proof fn lemma_l1_symmetric(a: Seq<u8>, b: Seq<u8>)
    requires
        a.len() == b.len(),
    ensures
        l1(a, b) == l1(b, a),
    decreases a.len(),
{
    if a.len() > 0 {
        lemma_l1_symmetric(a.drop_last(), b.drop_last());
    }
}

/// Distance of two vectors: `None` where their lengths differ, else the sum
/// of the absolute differences of their entries (the Hamming distance for
/// bit vectors).
pub fn l1_distance(a: &[u8], b: &[u8]) -> (r: Option<u128>)
    ensures
        r matches Some(d) ==> vector_distance(a@, b@) == Some(d as nat),
        r is None ==> vector_distance(a@, b@) is None,
{
    if a.len() != b.len() {
        return None;
    }
    let mut sum: u128 = 0;
    let mut i: usize = 0;
    while i < a.len()
        invariant
            a@.len() == b@.len(),
            i <= a@.len(),
            sum == l1(a@.subrange(0, i as int), b@.subrange(0, i as int)),
        decreases a@.len() - i,
    {
        proof {
            lemma_l1_bound(a@.subrange(0, i as int), b@.subrange(0, i as int));
        }
        let x = a[i];
        let y = b[i];
        let gap: u8 = if x >= y {
            x - y
        } else {
            y - x
        };
        sum = sum + gap as u128;
        proof {
            let sa = a@.subrange(0, i + 1);
            let sb = b@.subrange(0, i + 1);
            assert(sa.drop_last() =~= a@.subrange(0, i as int));
            assert(sb.drop_last() =~= b@.subrange(0, i as int));
        }
        i = i + 1;
    }
    proof {
        assert(a@.subrange(0, i as int) =~= a@);
        assert(b@.subrange(0, i as int) =~= b@);
    }
    Some(sum)
}

/// The distance of the encodings of two hashes of equal length does not
/// depend on the order in which they are given.
pub proof fn lemma_distance_symmetric(a: Seq<char>, b: Seq<char>)
    requires
        a.len() == b.len(),
    ensures
        vector_distance(encode(a), encode(b)) == vector_distance(encode(b), encode(a)),
        vector_distance(encode(a), encode(b)) is Some,
{
    lemma_l1_symmetric(encode(a), encode(b));
}

} // verus!
