//! Folding the ids found in a listing into the distinct ids that the dependent
//! statements are keyed by.

use std::collections::HashSet;
use vstd::prelude::*;

verus! {

broadcast use vstd::std_specs::hash::group_hash_axioms;

/// The values of `ids` with every repetition after the first dropped, in the
/// order in which each first occurs.
pub open spec fn distinct(ids: Seq<u32>) -> Seq<u32>
    decreases ids.len(),
{
    if ids.len() == 0 {
        Seq::empty()
    } else {
        let before = distinct(ids.drop_last());
        if before.contains(ids.last()) {
            before
        } else {
            before.push(ids.last())
        }
    }
}

/// `distinct` keeps exactly the values of its argument, and keeps none twice.
pub proof fn lemma_distinct(ids: Seq<u32>)
    ensures
        distinct(ids).no_duplicates(),
        forall|x: u32| distinct(ids).contains(x) <==> ids.contains(x),
        distinct(ids).len() <= ids.len(),
    decreases ids.len(),
{
    if ids.len() > 0 {
        let front = ids.drop_last();
        let before = distinct(front);
        lemma_distinct(front);
        assert forall|x: u32| distinct(ids).contains(x) <==> ids.contains(x) by {
            if ids.contains(x) {
                let i = choose|i: int| 0 <= i < ids.len() && ids[i] == x;
                if i < ids.len() - 1 {
                    assert(front[i] == x);
                    assert(front.contains(x));
                    assert(before.contains(x));
                    let j = choose|j: int| 0 <= j < before.len() && before[j] == x;
                    assert(distinct(ids)[j] == x);
                } else {
                    if !before.contains(x) {
                        assert(distinct(ids)[before.len() as int] == x);
                    }
                }
            }
            if distinct(ids).contains(x) {
                let j = choose|j: int| 0 <= j < distinct(ids).len() && distinct(ids)[j] == x;
                if j < before.len() {
                    assert(before[j] == x);
                    assert(before.contains(x));
                    assert(distinct(front).contains(x));
                    assert(front.contains(x));
                    let i = choose|i: int| 0 <= i < front.len() && front[i] == x;
                    assert(ids[i] == x);
                } else {
                    assert(ids[ids.len() - 1] == x);
                }
            }
        }
    }
}

/// A list without repetitions is its own `distinct`.
pub proof fn lemma_distinct_fixed(ids: Seq<u32>)
    requires
        ids.no_duplicates(),
    ensures
        distinct(ids) == ids,
    decreases ids.len(),
{
    if ids.len() > 0 {
        let front = ids.drop_last();
        lemma_distinct_fixed(front);
        if front.contains(ids.last()) {
            let i = choose|i: int| 0 <= i < front.len() && front[i] == ids.last();
            assert(ids[i] == ids[ids.len() - 1]);
        }
        assert(front.push(ids.last()) =~= ids);
    } else {
        assert(ids =~= Seq::empty());
    }
}

/// The distinct values of `ids`, each where it first occurs.
pub fn distinct_ids(ids: &Vec<u32>) -> (out: Vec<u32>)
    ensures
        out@ == distinct(ids@),
{
    let mut out: Vec<u32> = Vec::new();
    let mut seen: HashSet<u32> = HashSet::new();
    let mut i: usize = 0;
    while i < ids.len()
        invariant
            i <= ids.len(),
            out@ == distinct(ids@.subrange(0, i as int)),
            forall|x: u32| seen@.contains(x) <==> out@.contains(x),
        decreases ids.len() - i,
    {
        let id = ids[i];
        let ghost prefix = ids@.subrange(0, i as int);
        let ghost next = ids@.subrange(0, i + 1);
        assert(next.drop_last() =~= prefix);
        assert(next.last() == id);
        let ghost old_out = out@;
        let fresh = seen.insert(id);
        if fresh {
            out.push(id);
            assert forall|x: u32| seen@.contains(x) <==> out@.contains(x) by {
                if out@.contains(x) {
                    let j = choose|j: int| 0 <= j < out@.len() && out@[j] == x;
                    if j < old_out.len() {
                        assert(old_out[j] == x);
                    }
                }
                if seen@.contains(x) {
                    if x == id {
                        assert(out@[old_out.len() as int] == x);
                    } else {
                        assert(old_out.contains(x));
                        let j = choose|j: int| 0 <= j < old_out.len() && old_out[j] == x;
                        assert(out@[j] == x);
                    }
                }
            }
        }
        i += 1;
    }
    assert(ids@.subrange(0, ids.len() as int) =~= ids@);
    out
}

} // verus!
