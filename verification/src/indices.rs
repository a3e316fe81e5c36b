//! Index lists: the ascending list of positions whose flag is set, and
//! sorted duplicate-free index sets.

use vstd::prelude::*;

verus! {

/// Ascending list of the positions `i < n` for which `pred(i)` holds.
pub open spec fn indices_where(n: nat, pred: spec_fn(int) -> bool) -> Seq<usize>
    decreases n,
{
    if n == 0 {
        Seq::empty()
    } else {
        let prev = indices_where((n - 1) as nat, pred);
        if pred(n - 1) {
            prev.push((n - 1) as usize)
        } else {
            prev
        }
    }
}

/// Ascending list of the positions whose flag is `true`.
pub open spec fn set_positions(flags: Seq<bool>) -> Seq<usize> {
    indices_where(flags.len(), |i: int| flags[i])
}

/// Strictly increasing: sorted and free of duplicates.
pub open spec fn strictly_increasing(s: Seq<usize>) -> bool {
    forall|i: int, j: int| 0 <= i < j < s.len() ==> s[i] < s[j]
}

/// Members of `indices_where` are exactly the positions below `n` that
/// satisfy the predicate, listed in strictly increasing order.
pub proof fn lemma_indices_where(n: nat, pred: spec_fn(int) -> bool)
    requires
        n <= usize::MAX,
    ensures
        strictly_increasing(indices_where(n, pred)),
        indices_where(n, pred).len() <= n,
        forall|k: int| 0 <= k < indices_where(n, pred).len() ==> {
            &&& 0 <= #[trigger] indices_where(n, pred)[k] < n
            &&& pred(indices_where(n, pred)[k] as int)
        },
        forall|i: usize| #[trigger] indices_where(n, pred).contains(i) <==> (i < n && pred(
            i as int,
        )),
    decreases n,
{
    if n > 0 {
        lemma_indices_where((n - 1) as nat, pred);
        let prev = indices_where((n - 1) as nat, pred);
        let cur = indices_where(n, pred);
        let last = (n - 1) as usize;
        if pred(n - 1) {
            assert(cur == prev.push(last));
            assert forall|i: usize| #[trigger] cur.contains(i) <==> (i < n && pred(i as int)) by {
                if cur.contains(i) {
                    let k = choose|k: int| 0 <= k < cur.len() && cur[k] == i;
                    if k < prev.len() {
                        assert(prev.contains(i));
                    }
                }
                if i < n && pred(i as int) {
                    if i < last {
                        assert(prev.contains(i));
                        let k = choose|k: int| 0 <= k < prev.len() && prev[k] == i;
                        assert(cur[k] == i);
                    } else {
                        assert(cur[prev.len() as int] == i);
                    }
                }
            }
        } else {
            assert(cur == prev);
        }
    }
}

/// Positions of the set flags: ascending, in range, and each exactly
/// once.
pub proof fn lemma_set_positions(flags: Seq<bool>)
    requires
        flags.len() <= usize::MAX,
    ensures
        strictly_increasing(set_positions(flags)),
        forall|k: int| 0 <= k < set_positions(flags).len() ==> {
            &&& 0 <= #[trigger] set_positions(flags)[k] < flags.len()
            &&& flags[set_positions(flags)[k] as int]
        },
        forall|i: usize| #[trigger] set_positions(flags).contains(i) <==> (i < flags.len()
            && flags[i as int]),
{
    lemma_indices_where(flags.len(), |i: int| flags[i]);
}

/// The positions whose flag is set, in ascending order.
pub fn collect_set_positions(flags: &Vec<bool>) -> (out: Vec<usize>)
    ensures
        out@ == set_positions(flags@),
{
    let mut out: Vec<usize> = Vec::new();
    let mut i: usize = 0;
    while i < flags.len()
        invariant
            i <= flags.len(),
            out@ == indices_where(i as nat, |k: int| flags@[k]),
        decreases flags.len() - i,
    {
        if flags[i] {
            out.push(i);
        }
        i = i + 1;
    }
    out
}

/// Whether `v` contains `x`.
pub fn contains_index(v: &Vec<usize>, x: usize) -> (r: bool)
    ensures
        r == v@.contains(x),
{
    let mut i: usize = 0;
    while i < v.len()
        invariant
            i <= v.len(),
            forall|k: int| 0 <= k < i ==> v@[k] != x,
        decreases v.len() - i,
    {
        if v[i] == x {
            return true;
        }
        i = i + 1;
    }
    false
}

/// Insert `x` into a strictly increasing list, keeping it strictly
/// increasing; a value already present leaves the list unchanged.
pub fn insert_sorted_unique(v: &mut Vec<usize>, x: usize)
    requires
        strictly_increasing(old(v)@),
    ensures
        strictly_increasing(final(v)@),
        final(v)@.to_set() == old(v)@.to_set().insert(x),
{
    let ghost s = v@;
    let mut i: usize = 0;
    while i < v.len() && v[i] < x
        invariant
            v@ == s,
            i <= v.len(),
            strictly_increasing(s),
            forall|k: int| 0 <= k < i ==> s[k] < x,
        decreases v.len() - i,
    {
        i = i + 1;
    }
    if i < v.len() && v[i] == x {
        assert(s.to_set().insert(x) =~= s.to_set()) by {
            assert(s.contains(x));
        }
        return;
    }
    v.insert(i, x);
    assert(v@ == s.insert(i as int, x));
    assert forall|a: int, b: int| 0 <= a < b < v@.len() implies v@[a] < v@[b] by {
        if a < i && b < i {
        } else if a < i && b == i {
        } else if a < i && b > i {
            assert(v@[b] == s[b - 1]);
        } else if a == i {
            assert(v@[b] == s[b - 1]);
            assert(s[i as int] > x);
            assert(s[i as int] <= s[b - 1]);
        } else {
            assert(v@[a] == s[a - 1]);
            assert(v@[b] == s[b - 1]);
        }
    }
    assert(v@.to_set() =~= s.to_set().insert(x)) by {
        assert forall|y: usize| v@.to_set().contains(y) implies s.to_set().insert(x).contains(
            y,
        ) by {
            let k = choose|k: int| 0 <= k < v@.len() && v@[k] == y;
            if k < i {
                assert(s[k] == y);
            } else if k > i {
                assert(s[k - 1] == y);
            }
        }
        assert forall|y: usize| s.to_set().insert(x).contains(y) implies v@.to_set().contains(
            y,
        ) by {
            if y == x {
                assert(v@[i as int] == x);
            } else {
                let k = choose|k: int| 0 <= k < s.len() && s[k] == y;
                if k < i {
                    assert(v@[k] == y);
                } else {
                    assert(v@[k + 1] == y);
                }
            }
        }
    }
}

/// Sort `v` ascending and drop repeated values.
pub fn sorted_unique(v: &Vec<usize>) -> (out: Vec<usize>)
    ensures
        strictly_increasing(out@),
        out@.to_set() == v@.to_set(),
{
    let mut out: Vec<usize> = Vec::new();
    let mut i: usize = 0;
    while i < v.len()
        invariant
            i <= v.len(),
            strictly_increasing(out@),
            out@.to_set() == v@.take(i as int).to_set(),
        decreases v.len() - i,
    {
        insert_sorted_unique(&mut out, v[i]);
        assert(v@.take(i + 1) == v@.take(i as int).push(v@[i as int]));
        assert(v@.take(i + 1).to_set() =~= v@.take(i as int).to_set().insert(v@[i as int])) by {
            v@.take(i as int).lemma_push_to_set_commute(v@[i as int]);
        }
        i = i + 1;
    }
    assert(v@.take(v.len() as int) == v@);
    out
}

} // verus!
