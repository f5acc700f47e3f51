//! Ordering of results by a key, best first.

use vstd::prelude::*;

verus! {

/// `order` lists each position below `n` exactly once.
pub open spec fn is_permutation(order: Seq<usize>, n: int) -> bool {
    &&& order.len() == n
    &&& forall|k: int| 0 <= k < order.len() ==> order[k] < n
    &&& forall|a: int, b: int| 0 <= a < b < order.len() ==> order[a] != order[b]
}

/// Keys never rise along `order`.
pub open spec fn descending(keys: Seq<u64>, order: Seq<usize>) -> bool {
    forall|a: int, b: int|
        0 <= a < b < order.len() ==> keys[order[a] as int] >= keys[order[b] as int]
}

/// Entries with equal keys keep their original order.
pub open spec fn stable(keys: Seq<u64>, order: Seq<usize>) -> bool {
    forall|a: int, b: int|
        0 <= a < b < order.len() && keys[order[a] as int] == keys[order[b] as int] ==> order[a]
            < order[b]
}

/// The positions of `keys`, largest key first; equal keys keep their order.
pub fn rank_descending(keys: &Vec<u64>) -> (r: Vec<usize>)
    ensures
        is_permutation(r@, keys@.len() as int),
        descending(keys@, r@),
        stable(keys@, r@),
{
    let mut out: Vec<usize> = Vec::new();
    let mut i: usize = 0;
    while i < keys.len()
        invariant
            i <= keys.len(),
            is_permutation(out@, i as int),
            descending(keys@, out@),
            stable(keys@, out@),
        decreases keys.len() - i,
    {
        let key = keys[i];
        let mut j: usize = 0;
        while j < out.len() && keys[out[j]] >= key
            invariant
                j <= out.len(),
                i < keys.len(),
                is_permutation(out@, i as int),
                forall|k: int| 0 <= k < j ==> keys@[out@[k] as int] >= key,
            decreases out.len() - j,
        {
            j = j + 1;
        }
        let ghost old_out = out@;
        assert forall|k: int| j <= k < old_out.len() implies keys@[old_out[k] as int] < key by {
            assert(keys@[old_out[j as int] as int] < key);
            if k > j {
                assert(keys@[old_out[j as int] as int] >= keys@[old_out[k] as int]);
            }
        }
        out.insert(j, i);
        assert(out@ == old_out.insert(j as int, i));
        assert forall|k: int| 0 <= k < out@.len() implies #[trigger] out@[k] == (if k < j {
            old_out[k]
        } else if k == j {
            i
        } else {
            old_out[k - 1]
        }) by {}
        i = i + 1;
    }
    out
}

/// Along a ranking, each entry's key is at least the next one's.
pub proof fn lemma_ranked_neighbours(keys: Seq<u64>, order: Seq<usize>)
    requires
        descending(keys, order),
    ensures
        forall|k: int|
            0 <= k < order.len() - 1 ==> keys[order[k] as int] >= keys[#[trigger] order[k + 1] as int],
{
}

} // verus!
