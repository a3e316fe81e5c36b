//! Removing a set of positions from a sequence, and keeping a selected
//! position valid across one removal.

use vstd::prelude::*;
use crate::indices::strictly_increasing;

verus! {

/// `s` without the elements at the positions in `w`, in their order.
pub open spec fn without_positions<T>(s: Seq<T>, w: Set<usize>) -> Seq<T>
    decreases s.len(),
{
    if s.len() == 0 {
        s
    } else {
        let rest = without_positions(s.drop_last(), w);
        if w.contains((s.len() - 1) as usize) {
            rest
        } else {
            rest.push(s.last())
        }
    }
}

/// Removing no position that exists leaves the sequence as it is.
pub proof fn lemma_without_none<T>(s: Seq<T>, w: Set<usize>)
    requires
        s.len() <= usize::MAX + 1,
        forall|x: usize| #[trigger] w.contains(x) ==> x >= s.len(),
    ensures
        without_positions(s, w) == s,
    decreases s.len(),
{
    if s.len() > 0 {
        lemma_without_none(s.drop_last(), w);
        assert(s.drop_last().push(s.last()) =~= s);
    }
}

/// Elements before the first removed position keep their place.
pub proof fn lemma_without_prefix<T>(s: Seq<T>, w: Set<usize>, v: int)
    requires
        s.len() <= usize::MAX + 1,
        0 <= v < s.len(),
        forall|x: usize| #[trigger] w.contains(x) ==> x > v,
    ensures
        without_positions(s, w).len() > v,
        forall|i: int| 0 <= i <= v ==> #[trigger] without_positions(s, w)[i] == s[i],
    decreases s.len(),
{
    if s.len() - 1 == v {
        lemma_without_none(s.drop_last(), w);
        assert(!w.contains((s.len() - 1) as usize));
        assert(without_positions(s, w) == s.drop_last().push(s.last()));
        assert(s.drop_last().push(s.last()) =~= s);
    } else {
        lemma_without_prefix(s.drop_last(), w, v);
    }
}

/// Removing one more position `v`, below every position already
/// removed, is a removal at `v` of the shorter result.
pub proof fn lemma_without_insert<T>(s: Seq<T>, w: Set<usize>, v: usize)
    requires
        s.len() <= usize::MAX + 1,
        v < s.len(),
        forall|x: usize| #[trigger] w.contains(x) ==> x > v,
    ensures
        without_positions(s, w).len() > v,
        without_positions(s, w.insert(v)) == without_positions(s, w).remove(v as int),
    decreases s.len(),
{
    lemma_without_prefix(s, w, v as int);
    let last = (s.len() - 1) as usize;
    if last == v {
        assert(forall|x: usize| #[trigger] w.contains(x) ==> x >= s.drop_last().len());
        lemma_without_none(s.drop_last(), w);
        lemma_without_none(s.drop_last(), w.insert(v));
        assert(without_positions(s, w) == s.drop_last().push(s.last()));
        assert(s.drop_last().push(s.last()) =~= s);
        assert(s.remove(v as int) =~= s.drop_last());
    } else {
        lemma_without_insert(s.drop_last(), w, v);
        let r = without_positions(s.drop_last(), w);
        if w.contains(last) {
            assert(w.insert(v).contains(last));
        } else {
            assert(!w.insert(v).contains(last));
            assert(r.remove(v as int).push(s.last()) =~= r.push(s.last()).remove(v as int));
        }
    }
}

/// A strictly increasing list of positions all below `bound` leaves
/// room below each entry for the entries after it.
pub proof fn lemma_increasing_headroom(s: Seq<usize>, bound: int, j: int)
    requires
        strictly_increasing(s),
        forall|k: int| 0 <= k < s.len() ==> s[k] < bound,
        0 <= j < s.len(),
    ensures
        s[j] + (s.len() - j) <= bound,
    decreases s.len() - j,
{
    if j + 1 < s.len() {
        lemma_increasing_headroom(s, bound, j + 1);
    }
}

/// A selected position after the element at `removed` is taken out:
/// the removed element's selection is dropped, later positions move
/// down by one, earlier ones stay.
pub open spec fn spec_adjust_selection_after_remove(
    sel: Option<usize>,
    removed: usize,
) -> Option<usize> {
    match sel {
        None => None,
        Some(s) => if s == removed {
            None
        } else if s > removed {
            Some((s - 1) as usize)
        } else {
            Some(s)
        },
    }
}

/// Keep a selected position valid after the element at `removed` was
/// taken out of its list.
pub fn adjust_selection_after_remove(sel: Option<usize>, removed: usize) -> (r: Option<usize>)
    ensures
        r == spec_adjust_selection_after_remove(sel, removed),
{
    match sel {
        None => None,
        Some(s) => if s == removed {
            None
        } else if s > removed {
            Some(s - 1)
        } else {
            Some(s)
        },
    }
}

} // verus!
