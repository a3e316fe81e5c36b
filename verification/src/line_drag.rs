//! Footprint sketch mode — what dragging a line edge takes along.
//!
//! The two end points of the dragged line move; corner arcs touching
//! them move rigidly (their centre and far end point), and each end
//! point slides along the one other line it joins, if exactly one.
//! Which points move, and along what, is decided here; the offsets are
//! the caller's.

use vstd::prelude::*;
use crate::draw_tools::LineRef;
use crate::types::SketchEntityId;

verus! {

/// A sketch arc by its points.
#[derive(Clone, Copy, Debug, PartialEq, Eq, Structural)]
pub struct ArcRef {
    pub id: SketchEntityId,
    pub center: SketchEntityId,
    pub start: SketchEntityId,
    pub end: SketchEntityId,
}

/// The arc ends at one of the line's end points `s`, `e`.
pub open spec fn arc_touches(a: ArcRef, s: SketchEntityId, e: SketchEntityId) -> bool {
    a.start == s || a.start == e || a.end == s || a.end == e
}

/// The points that move rigidly with a dragged line from `s` to `e`:
/// for every arc touching it, the centre and each arc end that is not
/// one of the line's end points.
pub open spec fn arc_victims(arcs: Seq<ArcRef>, s: SketchEntityId, e: SketchEntityId) -> Set<
    SketchEntityId,
> {
    Set::new(
        |v: SketchEntityId|
            exists|i: int|
                0 <= i < arcs.len() && arc_touches(#[trigger] arcs[i], s, e) && (v == arcs[i].center
                    || (v == arcs[i].start && v != s && v != e) || (v == arcs[i].end && v != s && v
                    != e)),
    )
}

fn push_new(v: &mut Vec<SketchEntityId>, x: SketchEntityId)
    requires
        forall|i: int, j: int| 0 <= i < j < old(v)@.len() ==> old(v)@[i] != old(v)@[j],
    ensures
        final(v)@.to_set() == old(v)@.to_set().insert(x),
        forall|i: int, j: int| 0 <= i < j < final(v)@.len() ==> final(v)@[i] != final(v)@[j],
{
    let mut k: usize = 0;
    while k < v.len()
        invariant
            k <= v@.len(),
            v@ == old(v)@,
            forall|i: int, j: int| 0 <= i < j < v@.len() ==> v@[i] != v@[j],
            forall|j: int| 0 <= j < k ==> v@[j] != x,
        decreases v@.len() - k,
    {
        if v[k] == x {
            assert(v@.to_set().insert(x) =~= v@.to_set());
            return;
        }
        k = k + 1;
    }
    let ghost before = v@;
    v.push(x);
    assert(v@.to_set() =~= before.to_set().insert(x)) by {
        assert forall|y: SketchEntityId| v@.to_set().contains(y) <==> before.to_set().insert(
            x,
        ).contains(y) by {
            if v@.contains(y) && y != x {
                let j = choose|j: int| 0 <= j < v@.len() && v@[j] == y;
                assert(before[j] == y);
            }
            if before.contains(y) {
                let j = choose|j: int| 0 <= j < before.len() && before[j] == y;
                assert(v@[j] == y);
            }
            if y == x {
                assert(v@[before.len() as int] == x);
            }
        }
    }
}

/// The points that move rigidly with the dragged line (see
/// `arc_victims`), each once.
pub fn arc_victim_points(arcs: &Vec<ArcRef>, s: SketchEntityId, e: SketchEntityId) -> (r: Vec<
    SketchEntityId,
>)
    ensures
        r@.to_set() == arc_victims(arcs@, s, e),
        forall|i: int, j: int| 0 <= i < j < r@.len() ==> r@[i] != r@[j],
{
    let mut out: Vec<SketchEntityId> = Vec::new();
    let mut i: usize = 0;
    assert(out@.to_set() =~= arc_victims(arcs@.take(0), s, e));
    while i < arcs.len()
        invariant
            i <= arcs@.len(),
            out@.to_set() == arc_victims(arcs@.take(i as int), s, e),
            forall|p: int, q: int| 0 <= p < q < out@.len() ==> out@[p] != out@[q],
        decreases arcs@.len() - i,
    {
        let a = arcs[i];
        let ghost before = out@.to_set();
        if a.start == s || a.start == e || a.end == s || a.end == e {
            push_new(&mut out, a.center);
            if a.start != s && a.start != e {
                push_new(&mut out, a.start);
            }
            if a.end != s && a.end != e {
                push_new(&mut out, a.end);
            }
        }
        proof {
            let pre = arcs@.take(i as int);
            let post = arcs@.take(i + 1);
            assert(post[i as int] == a);
            assert forall|v: SketchEntityId| out@.to_set().contains(v) <==> arc_victims(
                post,
                s,
                e,
            ).contains(v) by {
                if arc_victims(pre, s, e).contains(v) {
                    let k = choose|k: int|
                        0 <= k < pre.len() && arc_touches(#[trigger] pre[k], s, e) && (v
                            == pre[k].center || (v == pre[k].start && v != s && v != e) || (v
                            == pre[k].end && v != s && v != e));
                    assert(post[k] == pre[k]);
                }
                if arc_victims(post, s, e).contains(v) {
                    let k = choose|k: int|
                        0 <= k < post.len() && arc_touches(#[trigger] post[k], s, e) && (v
                            == post[k].center || (v == post[k].start && v != s && v != e) || (v
                            == post[k].end && v != s && v != e));
                    if k < i {
                        assert(pre[k] == post[k]);
                    }
                }
            }
            assert(out@.to_set() =~= arc_victims(post, s, e));
        }
        i = i + 1;
    }
    assert(arcs@.take(arcs@.len() as int) =~= arcs@);
    out
}

/// The far ends of the lines other than `dragged` that start or end
/// at `endpoint`, in order.
pub open spec fn far_ends(lines: Seq<LineRef>, dragged: SketchEntityId, endpoint: SketchEntityId) -> Seq<
    SketchEntityId,
>
    decreases lines.len(),
{
    if lines.len() == 0 {
        Seq::empty()
    } else {
        let l = lines.last();
        let rest = far_ends(lines.drop_last(), dragged, endpoint);
        if l.id == dragged {
            rest
        } else if l.start == endpoint {
            rest.push(l.end)
        } else if l.end == endpoint {
            rest.push(l.start)
        } else {
            rest
        }
    }
}

/// The point an end point of the dragged line slides towards: the far
/// end of the one other line meeting it, when exactly one does.
pub fn slide_pivot(lines: &Vec<LineRef>, dragged: SketchEntityId, endpoint: SketchEntityId) -> (r:
    Option<SketchEntityId>)
    ensures
        r == (if far_ends(lines@, dragged, endpoint).len() == 1 {
            Some(far_ends(lines@, dragged, endpoint)[0])
        } else {
            None
        }),
{
    let mut found: Option<SketchEntityId> = None;
    let mut i: usize = 0;
    assert(lines@.take(0) =~= Seq::<LineRef>::empty());
    while i < lines.len()
        invariant
            i <= lines@.len(),
            far_ends(lines@.take(i as int), dragged, endpoint).len() <= 1,
            found == (if far_ends(lines@.take(i as int), dragged, endpoint).len() == 1 {
                Some(far_ends(lines@.take(i as int), dragged, endpoint)[0])
            } else {
                None
            }),
        decreases lines@.len() - i,
    {
        let l = lines[i];
        assert(lines@.take(i + 1).drop_last() =~= lines@.take(i as int));
        assert(lines@.take(i + 1).last() == l);
        if l.id != dragged {
            let far = if l.start == endpoint {
                Some(l.end)
            } else if l.end == endpoint {
                Some(l.start)
            } else {
                None
            };
            if let Some(f) = far {
                if found.is_some() {
                    proof {
                        lemma_far_ends_grow(lines@, dragged, endpoint, i + 1);
                    }
                    return None;
                }
                found = Some(f);
            }
        }
        i = i + 1;
    }
    assert(lines@.take(lines@.len() as int) =~= lines@);
    found
}

proof fn lemma_far_ends_grow(
    lines: Seq<LineRef>,
    dragged: SketchEntityId,
    endpoint: SketchEntityId,
    k: int,
)
    requires
        0 <= k <= lines.len(),
    ensures
        far_ends(lines.take(k), dragged, endpoint).len() <= far_ends(lines, dragged, endpoint).len(),
    decreases lines.len() - k,
{
    if k < lines.len() {
        lemma_far_ends_grow(lines, dragged, endpoint, k + 1);
        assert(lines.take(k + 1).drop_last() =~= lines.take(k));
    } else {
        assert(lines.take(k) =~= lines);
    }
}

} // verus!
