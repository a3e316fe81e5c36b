//! Footprint editor — selection updates.
//!
//! Geometric hit tests (lasso, touching line, off-grid, pads under the
//! last click) are made by the caller on its coordinates and handed in
//! as one flag per pad, in pad order; the selection that follows is
//! computed here.

use vstd::prelude::*;
use crate::indices::{
    collect_set_positions, indices_where, lemma_indices_where, lemma_set_positions, set_positions, sorted_unique,
    strictly_increasing,
};
use crate::removal::{adjust_selection_after_remove, spec_adjust_selection_after_remove, without_positions};
use crate::types::{
    EditorMode, EditorPad, FootprintEditor, FootprintEditorState, FpLayer, FpSelectionMode,
    SelectionFilterKind, SketchEntityId,
};

verus! {

/// The pad selection names exactly `hits`: the first hit is primary,
/// the rest are extras; no hit means nothing selected.
pub open spec fn selects_exactly<P>(st: FootprintEditorState<P>, hits: Seq<usize>) -> bool {
    if hits.len() == 0 {
        &&& st.selected_pad is None
        &&& st.selected_pads_extra@ == Seq::<usize>::empty()
    } else {
        &&& st.selected_pad == Some(hits[0])
        &&& st.selected_pads_extra@ == hits.drop_first()
    }
}

/// `b` equals `a` except possibly for the two pad-selection slots.
pub open spec fn same_but_pad_selection<P>(
    a: FootprintEditorState<P>,
    b: FootprintEditorState<P>,
) -> bool {
    b == (FootprintEditorState {
        selected_pad: b.selected_pad,
        selected_pads_extra: b.selected_pads_extra,
        ..a
    })
}

/// Replace the pad selection by `hits` (first primary, rest extras).
fn select_hit_list<P>(state: &mut FootprintEditorState<P>, hits: Vec<usize>)
    ensures
        selects_exactly(*final(state), hits@),
        same_but_pad_selection(*old(state), *final(state)),
{
    let mut hits = hits;
    if hits.len() == 0 {
        state.selected_pad = None;
        state.selected_pads_extra.clear();
    } else {
        let first = hits.remove(0);
        state.selected_pad = Some(first);
        state.selected_pads_extra = hits;
    }
}

/// The canvas state right after switching footprints: `fresh` (the
/// state derived from the newly active footprint) with nothing
/// selected and a fit of the view requested.
pub open spec fn switched_state<P>(fresh: FootprintEditorState<P>, now: FootprintEditorState<P>) -> bool {
    &&& now.selected_pads_extra@.len() == 0
    &&& now.selected_sketch_extra@.len() == 0
    &&& now == (FootprintEditorState {
        selected_pad: None,
        selected_pads_extra: now.selected_pads_extra,
        selected_silk_f: None,
        selected_sketch: None,
        selected_sketch_secondary: None,
        selected_sketch_extra: now.selected_sketch_extra,
        fit_pending: true,
        ..fresh
    })
}

/// `idx` clamped to the last of `count` footprints (0 when there are none).
pub open spec fn clamped_index(count: usize, idx: usize) -> usize {
    if count == 0 {
        0
    } else if idx < count - 1 {
        idx
    } else {
        (count - 1) as usize
    }
}

/// Switch the active footprint of a multi-footprint file. The index is
/// clamped to the last footprint; selecting the active one does
/// nothing. Otherwise the canvas state is derived anew from the newly
/// active footprint (`derive(i)` gives the state of footprint `i`),
/// the selection is cleared and the view is refitted. Returns whether
/// the footprint changed.
pub fn select_active_idx<P, G, F: Fn(usize) -> FootprintEditorState<P>>(
    editor: &mut FootprintEditor<P, G>,
    idx: usize,
    derive: F,
) -> (reload: bool)
    requires
        forall|i: usize| call_requires(derive, (i,)),
    ensures
        ({
            let clamped = clamped_index(old(editor).footprint_count, idx);
            &&& reload == (clamped != old(editor).active_idx)
            &&& reload ==> {
                &&& exists|fresh: FootprintEditorState<P>|
                    #[trigger] call_ensures(derive, (clamped,), fresh) && switched_state(
                        fresh,
                        final(editor).state,
                    )
                &&& *final(editor) == (FootprintEditor {
                    state: final(editor).state,
                    active_idx: clamped,
                    canvas_stale: true,
                    ..*old(editor)
                })
            }
            &&& !reload ==> *final(editor) == *old(editor)
        }),
{
    let last = if editor.footprint_count == 0 {
        0
    } else {
        editor.footprint_count - 1
    };
    let clamped = if idx < last {
        idx
    } else {
        last
    };
    if clamped == editor.active_idx {
        return false;
    }
    let fresh = derive(clamped);
    let ghost derived = fresh;
    let mut state = fresh;
    state.selected_pad = None;
    state.selected_pads_extra = Vec::new();
    state.selected_silk_f = None;
    state.selected_sketch = None;
    state.selected_sketch_secondary = None;
    state.selected_sketch_extra = Vec::new();
    state.fit_pending = true;
    editor.state = state;
    editor.active_idx = clamped;
    editor.canvas_stale = true;
    assert(switched_state(derived, editor.state));
    assert(call_ensures(derive, (clamped,), derived));
    true
}


/// Sketch entities in order of first occurrence, repeats dropped.
pub open spec fn unique_in_order(s: Seq<SketchEntityId>) -> Seq<SketchEntityId>
    decreases s.len(),
{
    if s.len() == 0 {
        s
    } else {
        let r = unique_in_order(s.drop_last());
        if r.contains(s.last()) {
            r
        } else {
            r.push(s.last())
        }
    }
}

/// The whole sketch selection in slot order: primary, secondary, extras.
pub open spec fn sketch_selection<P>(st: FootprintEditorState<P>) -> Seq<SketchEntityId> {
    let head: Seq<SketchEntityId> = match st.selected_sketch {
        Some(id) => seq![id],
        None => Seq::empty(),
    };
    let second: Seq<SketchEntityId> = match st.selected_sketch_secondary {
        Some(id) => seq![id],
        None => Seq::empty(),
    };
    head + second + st.selected_sketch_extra@
}

/// Pad positions that are selected (primary or extra) and exist.
pub open spec fn selected_existing_pads<P>(st: FootprintEditorState<P>) -> Set<usize> {
    Set::new(
        |i: usize|
            i < st.pads@.len() && (st.selected_pad == Some(i) || st.selected_pads_extra@.contains(
                i,
            )),
    )
}

fn push_unique(v: &mut Vec<SketchEntityId>, x: SketchEntityId)
    ensures
        final(v)@ == (if old(v)@.contains(x) {
            old(v)@
        } else {
            old(v)@.push(x)
        }),
{
    let mut i: usize = 0;
    while i < v.len()
        invariant
            i <= v.len(),
            forall|k: int| 0 <= k < i ==> v@[k] != x,
        decreases v.len() - i,
    {
        if v[i] == x {
            return;
        }
        i = i + 1;
    }
    v.push(x);
}

impl<P> FootprintEditorState<P> {
    /// Remove the pad at `idx` (nothing happens when there is none)
    /// and keep the primary pad selection pointing at the same pad.
    pub fn delete_pad(&mut self, idx: usize)
        ensures
            idx < old(self).pads@.len() ==> *final(self) == (FootprintEditorState {
                pads: final(self).pads,
                selected_pad: spec_adjust_selection_after_remove(old(self).selected_pad, idx),
                ..*old(self)
            }) && final(self).pads@ == old(self).pads@.remove(idx as int),
            idx >= old(self).pads@.len() ==> *final(self) == *old(self),
    {
        if idx < self.pads.len() {
            self.pads.remove(idx);
            self.selected_pad = adjust_selection_after_remove(self.selected_pad, idx);
        }
    }
}

impl<P> FootprintEditorState<P> {
    /// The selected pad positions (primary and extras) that exist,
    /// ascending and each once.
    pub fn selected_pad_indices(&self) -> (r: Vec<usize>)
        ensures
            strictly_increasing(r@),
            r@.to_set() == selected_existing_pads(*self),
            forall|k: int| 0 <= k < r@.len() ==> r@[k] < self.pads@.len(),
    {
        existing_selected_pads(self)
    }
}

/// Collect the pad victims of a delete: the selected positions that
/// exist, ascending.
fn existing_selected_pads<P>(st: &FootprintEditorState<P>) -> (live: Vec<usize>)
    ensures
        strictly_increasing(live@),
        live@.to_set() == selected_existing_pads(*st),
        forall|k: int| 0 <= k < live@.len() ==> live@[k] < st.pads@.len(),
{
    let mut all: Vec<usize> = Vec::new();
    if let Some(p) = st.selected_pad {
        all.push(p);
    }
    let mut i: usize = 0;
    while i < st.selected_pads_extra.len()
        invariant
            i <= st.selected_pads_extra@.len(),
            all@ == (match st.selected_pad {
                Some(p) => seq![p],
                None => Seq::<usize>::empty(),
            }) + st.selected_pads_extra@.take(i as int),
        decreases st.selected_pads_extra@.len() - i,
    {
        all.push(st.selected_pads_extra[i]);
        assert(st.selected_pads_extra@.take(i + 1) == st.selected_pads_extra@.take(i as int).push(
            st.selected_pads_extra@[i as int],
        ));
        i = i + 1;
    }
    assert(st.selected_pads_extra@.take(st.selected_pads_extra@.len() as int)
        == st.selected_pads_extra@);
    let sorted = sorted_unique(&all);
    let n = st.pads.len();
    let mut live: Vec<usize> = Vec::new();
    let mut j: usize = 0;
    while j < sorted.len()
        invariant
            j <= sorted@.len(),
            n == st.pads@.len(),
            strictly_increasing(sorted@),
            strictly_increasing(live@),
            forall|k: int| 0 <= k < live@.len() ==> live@[k] < n,
            forall|k: int| 0 <= k < live@.len() ==> exists|m: int|
                0 <= m < j && sorted@[m] == #[trigger] live@[k],
            forall|m: int| 0 <= m < j && sorted@[m] < n ==> #[trigger] live@.contains(sorted@[m]),
        decreases sorted@.len() - j,
    {
        if sorted[j] < n {
            let ghost prev = live@;
            live.push(sorted[j]);
            assert forall|a: int, b: int| 0 <= a < b < live@.len() implies live@[a] < live@[b] by {
                if b == live@.len() - 1 {
                    let m = choose|m: int| 0 <= m < j && sorted@[m] == live@[a];
                }
            }
            assert forall|m: int| 0 <= m < j + 1 && sorted@[m] < n implies #[trigger] live@.contains(
                sorted@[m],
            ) by {
                if m == j {
                    assert(live@[live@.len() - 1] == sorted@[m]);
                } else {
                    assert(prev.contains(sorted@[m]));
                    let q = choose|q: int| 0 <= q < prev.len() && prev[q] == sorted@[m];
                    assert(live@[q] == sorted@[m]);
                }
            }
        }
        j = j + 1;
    }
    assert(live@.to_set() =~= selected_existing_pads(*st)) by {
        assert forall|x: usize| live@.to_set().contains(x) implies selected_existing_pads(
            *st,
        ).contains(x) by {
            let k = choose|k: int| 0 <= k < live@.len() && live@[k] == x;
            let m = choose|m: int| 0 <= m < j && sorted@[m] == live@[k];
            assert(sorted@.to_set().contains(x));
            assert(all@.to_set().contains(x));
            let q = choose|q: int| 0 <= q < all@.len() && all@[q] == x;
            if st.selected_pad is Some && q == 0 {
            } else {
                let off: int = if st.selected_pad is Some { 1 } else { 0 };
                assert(st.selected_pads_extra@[q - off] == x);
            }
        }
        assert forall|x: usize| selected_existing_pads(*st).contains(x) implies live@.to_set().contains(
            x,
        ) by {
            let off: int = if st.selected_pad is Some { 1 } else { 0 };
            if st.selected_pad == Some(x) {
                assert(all@[0] == x);
            } else {
                let q = choose|q: int| 0 <= q < st.selected_pads_extra@.len() && st.selected_pads_extra@[q] == x;
                assert(all@[q + off] == x);
            }
            assert(all@.to_set().contains(x));
            assert(sorted@.to_set().contains(x));
            let m = choose|m: int| 0 <= m < sorted@.len() && sorted@[m] == x;
        }
    }
    live
}


/// Where the primary pad selection stands once the victims at list
/// positions `k..` of `live` are gone.
spec fn primary_after(sel: Option<usize>, n: nat, live: Seq<usize>, k: int) -> Option<usize> {
    match sel {
        None => None,
        Some(p) => if p < n {
            if live.subrange(k, live.len() as int).contains(p) {
                None
            } else {
                Some(p)
            }
        } else {
            Some((p - (live.len() - k)) as usize)
        },
    }
}

/// Remove every selected pad that exists, highest position first.
fn delete_selected_pads<P>(state: &mut FootprintEditorState<P>)
    ensures
        final(state).pads@ == without_positions(old(state).pads@, selected_existing_pads(*old(state))),
        final(state).selected_pad == (match old(state).selected_pad {
            None => None,
            Some(p) => if p < old(state).pads@.len() {
                None
            } else {
                Some((p - (old(state).pads@.len() - final(state).pads@.len())) as usize)
            },
        }),
        *final(state) == (FootprintEditorState {
            pads: final(state).pads,
            selected_pad: final(state).selected_pad,
            ..*old(state)
        }),
{
    let ghost s0 = *state;
    let ghost orig = state.pads@;
    let n = state.pads.len();
    let live = existing_selected_pads(state);
    let ghost l = live@;
    let big_l = live.len();
    assert(live@.subrange(big_l as int, big_l as int).to_set() =~= Set::<usize>::empty());
    proof {
        crate::removal::lemma_without_none(orig, Set::<usize>::empty());
    }
    let mut k: usize = big_l;
    while k > 0
        invariant
            k <= big_l,
            big_l == l.len(),
            n == orig.len(),
            orig == s0.pads@,
            l == live@,
            strictly_increasing(l),
            forall|m: int| 0 <= m < l.len() ==> l[m] < n,
            l.to_set() == selected_existing_pads(s0),
            state.pads@ == without_positions(orig, l.subrange(k as int, big_l as int).to_set()),
            state.pads@.len() == n - (big_l - k),
            state.selected_pad == primary_after(s0.selected_pad, n as nat, l, k as int),
            *state == (FootprintEditorState {
                pads: state.pads,
                selected_pad: state.selected_pad,
                ..s0
            }),
        decreases k,
    {
        k = k - 1;
        let idx = live[k];
        proof {
            crate::removal::lemma_increasing_headroom(l, n as int, k as int);
            let sub1 = l.subrange(k + 1, big_l as int);
            let sub0 = l.subrange(k as int, big_l as int);
            let w = sub1.to_set();
            assert forall|x: usize| #[trigger] w.contains(x) implies x > idx by {
                let m = choose|m: int| 0 <= m < sub1.len() && sub1[m] == x;
                assert(l[k + 1 + m] == x);
            }
            crate::removal::lemma_without_insert(orig, w, idx);
            assert(sub0.to_set() =~= w.insert(idx)) by {
                assert forall|x: usize| sub0.to_set().contains(x) implies w.insert(idx).contains(x) by {
                    let m = choose|m: int| 0 <= m < sub0.len() && sub0[m] == x;
                    if m > 0 {
                        assert(sub1[m - 1] == x);
                    }
                }
                assert forall|x: usize| w.insert(idx).contains(x) implies sub0.to_set().contains(x) by {
                    if x == idx {
                        assert(sub0[0] == x);
                    } else {
                        let m = choose|m: int| 0 <= m < sub1.len() && sub1[m] == x;
                        assert(sub0[m + 1] == x);
                    }
                }
            }
            match s0.selected_pad {
                Some(p) => {
                    if p < n {
                        assert(selected_existing_pads(s0).contains(p));
                        assert(l.to_set().contains(p));
                        let mp = choose|mp: int| 0 <= mp < l.len() && l[mp] == p;
                        if mp > k {
                            assert(sub1[mp - k - 1] == p);
                            assert(sub0[mp - k] == p);
                        }
                        if mp == k {
                            assert(sub0[0] == p);
                            assert(!sub1.contains(p)) by {
                                if sub1.contains(p) {
                                    let q = choose|q: int| 0 <= q < sub1.len() && sub1[q] == p;
                                    assert(l[k + 1 + q] == p);
                                }
                            }
                        }
                        if mp < k {
                            assert(l[mp] < l[k as int]);
                            assert(!sub0.contains(p)) by {
                                if sub0.contains(p) {
                                    let q = choose|q: int| 0 <= q < sub0.len() && sub0[q] == p;
                                    assert(l[k + q] == p);
                                }
                            }
                            assert(!sub1.contains(p)) by {
                                if sub1.contains(p) {
                                    let q = choose|q: int| 0 <= q < sub1.len() && sub1[q] == p;
                                    assert(l[k + 1 + q] == p);
                                }
                            }
                        }
                    }
                },
                None => {},
            }
            assert(spec_adjust_selection_after_remove(
                primary_after(s0.selected_pad, n as nat, l, k + 1),
                idx,
            ) == primary_after(s0.selected_pad, n as nat, l, k as int));
        }
        state.delete_pad(idx);
    }
    proof {
        assert(l.subrange(0, big_l as int) == l);
        if let Some(p) = s0.selected_pad {
            if p < n {
                assert(selected_existing_pads(s0).contains(p));
                assert(l.to_set().contains(p));
            }
        }
    }
}


/// Flip one kind of the selection filter.
pub fn toggle_selection_filter<P, G>(editor: &mut FootprintEditor<P, G>, kind: SelectionFilterKind)
    requires
        old(editor).wf(),
    ensures
        final(editor).wf(),
        final(editor).state.selection_filter.enabled@ == old(
            editor,
        ).state.selection_filter.enabled@.update(
            kind.spec_slot() as int,
            !old(editor).state.selection_filter.admits(kind),
        ),
        *final(editor) == (FootprintEditor {
            state: FootprintEditorState {
                selection_filter: final(editor).state.selection_filter,
                ..old(editor).state
            },
            canvas_stale: true,
            ..*old(editor)
        }),
{
    editor.state.selection_filter.toggle(kind);
    editor.canvas_stale = true;
}

/// Toggling the same filter kind twice restores the filter.
pub proof fn lemma_toggle_filter_twice(enabled: Seq<bool>, slot: int)
    requires
        0 <= slot < enabled.len(),
    ensures
        ({
            let once = enabled.update(slot, !enabled[slot]);
            once.update(slot, !once[slot]) == enabled
        }),
{
    let once = enabled.update(slot, !enabled[slot]);
    assert(once.update(slot, !once[slot]) =~= enabled);
}

/// Select a front-silk graphic (or none). Selecting one drops the
/// primary pad selection: the Properties panel shows one thing.
pub fn select_silk_f<P, G>(editor: &mut FootprintEditor<P, G>, sel: Option<usize>)
    ensures
        *final(editor) == (FootprintEditor {
            state: FootprintEditorState {
                selected_silk_f: sel,
                selected_pad: if sel is Some {
                    None
                } else {
                    old(editor).state.selected_pad
                },
                ..old(editor).state
            },
            canvas_stale: true,
            ..*old(editor)
        }),
{
    editor.state.selected_silk_f = sel;
    if sel.is_some() {
        editor.state.selected_pad = None;
    }
    editor.canvas_stale = true;
}

/// Delete the selected front-silk graphic; the selection is kept
/// valid against the shorter list. Nothing is deleted when nothing is
/// selected or the selection points past the list.
pub fn delete_silk_f<P, G>(editor: &mut FootprintEditor<P, G>)
    ensures
        match old(editor).state.selected_silk_f {
            None => *final(editor) == (FootprintEditor { canvas_stale: true, ..*old(editor) }),
            Some(idx) => {
                &&& idx < old(editor).silk_f@.len() ==> final(editor).silk_f@ == old(
                    editor,
                ).silk_f@.remove(idx as int) && final(editor).dirty
                &&& idx >= old(editor).silk_f@.len() ==> final(editor).silk_f@ == old(
                    editor,
                ).silk_f@ && final(editor).dirty == old(editor).dirty
                &&& *final(editor) == (FootprintEditor {
                    state: FootprintEditorState {
                        selected_silk_f: spec_adjust_selection_after_remove(Some(idx), idx),
                        ..old(editor).state
                    },
                    silk_f: final(editor).silk_f,
                    dirty: final(editor).dirty,
                    canvas_stale: true,
                    ..*old(editor)
                })
            },
        },
{
    if let Some(idx) = editor.state.selected_silk_f {
        if idx < editor.silk_f.len() {
            editor.silk_f.remove(idx);
            editor.dirty = true;
        }
        editor.state.selected_silk_f = adjust_selection_after_remove(
            editor.state.selected_silk_f,
            idx,
        );
    }
    editor.canvas_stale = true;
}

/// Move the pad at `idx` to `pos` (nothing moves when there is no such
/// pad). The caller mirrors the move into the backing sketch.
pub fn move_pad<P: Copy, G>(editor: &mut FootprintEditor<P, G>, idx: usize, pos: P)
    ensures
        final(editor).state.pads@.len() == old(editor).state.pads@.len(),
        forall|i: int|
            0 <= i < old(editor).state.pads@.len() ==> #[trigger] final(editor).state.pads@[i]
                == (if i == idx {
            EditorPad { position: pos, ..old(editor).state.pads@[i] }
        } else {
            old(editor).state.pads@[i]
        }),
        *final(editor) == (FootprintEditor {
            state: FootprintEditorState { pads: final(editor).state.pads, ..old(editor).state },
            canvas_stale: true,
            dirty: true,
            ..*old(editor)
        }),
{
    if idx < editor.state.pads.len() {
        let mut pad = editor.state.pads.remove(idx);
        pad.position = pos;
        editor.state.pads.insert(idx, pad);
    }
    editor.canvas_stale = true;
    editor.dirty = true;
}

/// Record the cursor position reported by the canvas.
pub fn cursor_at<P, G>(editor: &mut FootprintEditor<P, G>, pos: P)
    ensures
        *final(editor) == (FootprintEditor {
            state: FootprintEditorState { cursor_mm: Some(pos), ..old(editor).state },
            ..*old(editor)
        }),
{
    editor.state.cursor_mm = Some(pos);
}

/// Single-pad selection (or none). Replaces the multi-select extras;
/// a pick records the click position (for "select overlapped") and
/// drops the silk selection; the numeric field buffers are discarded.
pub fn select_pad<P: Copy, G>(editor: &mut FootprintEditor<P, G>, sel: Option<usize>)
    ensures
        final(editor).state.selected_pads_extra@ == Seq::<usize>::empty(),
        final(editor).state.numeric_buffers@ == Seq::<(String, String)>::empty(),
        *final(editor) == (FootprintEditor {
            state: FootprintEditorState {
                selected_pad: sel,
                selected_pads_extra: final(editor).state.selected_pads_extra,
                last_click_world_mm: if sel is Some {
                    old(editor).state.cursor_mm
                } else {
                    old(editor).state.last_click_world_mm
                },
                selected_silk_f: if sel is Some {
                    None
                } else {
                    old(editor).state.selected_silk_f
                },
                numeric_buffers: final(editor).state.numeric_buffers,
                ..old(editor).state
            },
            canvas_stale: true,
            ..*old(editor)
        }),
{
    editor.state.selected_pad = sel;
    editor.state.selected_pads_extra.clear();
    if sel.is_some() {
        editor.state.last_click_world_mm = editor.state.cursor_mm;
        editor.state.selected_silk_f = None;
    }
    editor.state.numeric_buffers.clear();
    editor.canvas_stale = true;
}

/// Multi-pad selection: the positions are sorted and de-duplicated;
/// the lowest becomes primary and the rest extras. An empty list
/// clears the pad selection.
pub fn select_pads<P: Copy, G>(editor: &mut FootprintEditor<P, G>, pads: Vec<usize>)
    ensures
        ({
            let sel = final(editor).state.pad_selection();
            &&& strictly_increasing(sel)
            &&& sel.to_set() == pads@.to_set()
            &&& selects_exactly(final(editor).state, sel)
        }),
        final(editor).state.numeric_buffers@ == Seq::<(String, String)>::empty(),
        *final(editor) == (FootprintEditor {
            state: FootprintEditorState {
                selected_pad: final(editor).state.selected_pad,
                selected_pads_extra: final(editor).state.selected_pads_extra,
                selected_silk_f: if pads@.len() > 0 {
                    None
                } else {
                    old(editor).state.selected_silk_f
                },
                last_click_world_mm: if pads@.len() > 0 {
                    old(editor).state.cursor_mm
                } else {
                    old(editor).state.last_click_world_mm
                },
                numeric_buffers: final(editor).state.numeric_buffers,
                ..old(editor).state
            },
            canvas_stale: true,
            ..*old(editor)
        }),
{
    let sorted = sorted_unique(&pads);
    proof {
        if pads@.len() > 0 {
            assert(pads@.to_set().contains(pads@[0]));
        }
        if sorted@.len() == 0 {
            assert(pads@.len() == 0) by {
                if pads@.len() > 0 {
                    assert(pads@.to_set().contains(pads@[0]));
                    assert(sorted@.to_set().contains(pads@[0]));
                }
            }
        }
    }
    let nonempty = sorted.len() > 0;
    assert(nonempty == (pads@.len() > 0)) by {
        if pads@.len() > 0 {
            assert(pads@.to_set().contains(pads@[0]));
            assert(sorted@.to_set().contains(pads@[0]));
            assert(sorted@.contains(pads@[0]));
        }
        if sorted@.len() > 0 {
            assert(sorted@.to_set().contains(sorted@[0]));
            assert(pads@.to_set().contains(sorted@[0]));
            assert(pads@.contains(sorted@[0]));
        }
    }
    select_hit_list(&mut editor.state, sorted);
    if nonempty {
        editor.state.selected_silk_f = None;
        editor.state.last_click_world_mm = editor.state.cursor_mm;
    }
    editor.state.numeric_buffers.clear();
    editor.canvas_stale = true;
    proof {
        let st = editor.state;
        if nonempty {
            assert(st.pad_selection() =~= sorted@);
        } else {
            assert(st.pad_selection() =~= sorted@);
        }
    }
}

/// Delete everything selected. In sketch mode the selected sketch
/// entities are handed back (primary, secondary, extras; each once)
/// for the caller to delete through the sketch solver, and the sketch
/// selection is cleared. In every mode each selected pad that exists is
/// removed and the pad extras are cleared. The document is marked dirty
/// when there was anything to delete.
pub fn delete_selected<P, G>(editor: &mut FootprintEditor<P, G>) -> (sketch_victims: Vec<SketchEntityId>)
    ensures
        ({
            let o = old(editor).state;
            let f = final(editor).state;
            let in_sketch = o.mode == EditorMode::Sketch;
            let any = (in_sketch && sketch_selection(o).len() > 0) || o.pad_selection().len() > 0;
            &&& sketch_victims@ == (if in_sketch {
                unique_in_order(sketch_selection(o))
            } else {
                Seq::empty()
            })
            &&& f.pads@ == without_positions(o.pads@, selected_existing_pads(o))
            &&& f.selected_pad == (match o.selected_pad {
                None => None,
                Some(p) => if p < o.pads@.len() {
                    None
                } else {
                    Some((p - (o.pads@.len() - f.pads@.len())) as usize)
                },
            })
            &&& f.selected_pads_extra@ == Seq::<usize>::empty()
            &&& in_sketch ==> f.selected_sketch is None && f.selected_sketch_secondary is None
                && f.selected_sketch_extra@ == Seq::<SketchEntityId>::empty()
            &&& f == (FootprintEditorState {
                pads: f.pads,
                selected_pad: f.selected_pad,
                selected_pads_extra: f.selected_pads_extra,
                selected_sketch: if in_sketch { None } else { o.selected_sketch },
                selected_sketch_secondary: if in_sketch { None } else { o.selected_sketch_secondary },
                selected_sketch_extra: f.selected_sketch_extra,
                ..o
            })
            &&& !in_sketch ==> f.selected_sketch_extra == o.selected_sketch_extra
            &&& *final(editor) == (FootprintEditor {
                state: f,
                dirty: if any { true } else { old(editor).dirty },
                canvas_stale: if any { true } else { old(editor).canvas_stale },
                ..*old(editor)
            })
        }),
{
    let ghost o = editor.state;
    let mut victims: Vec<SketchEntityId> = Vec::new();
    if editor.state.mode == EditorMode::Sketch {
        victims = take_sketch_selection(&mut editor.state);
    }
    let any = victims.len() > 0;
    let had_pads = editor.state.selected_pad.is_some() || editor.state.selected_pads_extra.len() > 0;
    let ghost mid = editor.state;
    delete_selected_pads(&mut editor.state);
    editor.state.selected_pads_extra.clear();
    proof {
        assert(selected_existing_pads(mid) =~= selected_existing_pads(o));
        assert(mid.pad_selection().len() == o.pad_selection().len());
    }
    if any || had_pads {
        editor.canvas_stale = true;
        editor.dirty = true;
    }
    victims
}

/// Hand back the sketch selection (primary, secondary, extras; each
/// once) and clear it.
fn take_sketch_selection<P>(state: &mut FootprintEditorState<P>) -> (victims: Vec<SketchEntityId>)
    ensures
        victims@ == unique_in_order(sketch_selection(*old(state))),
        victims@.len() > 0 <==> sketch_selection(*old(state)).len() > 0,
        final(state).selected_sketch_extra@ == Seq::<SketchEntityId>::empty(),
        *final(state) == (FootprintEditorState {
            selected_sketch: None,
            selected_sketch_secondary: None,
            selected_sketch_extra: final(state).selected_sketch_extra,
            ..*old(state)
        }),
{
    let ghost o = *state;
    let mut victims: Vec<SketchEntityId> = Vec::new();
    let ghost head: Seq<SketchEntityId> = match o.selected_sketch {
        Some(id) => seq![id],
        None => Seq::empty(),
    };
    let ghost second: Seq<SketchEntityId> = match o.selected_sketch_secondary {
        Some(id) => seq![id],
        None => Seq::empty(),
    };
    if let Some(id) = state.selected_sketch {
        push_unique(&mut victims, id);
        assert(unique_in_order(head) =~= seq![id]) by {
            assert(head.drop_last() =~= Seq::<SketchEntityId>::empty());
            assert(unique_in_order(head.drop_last()) =~= Seq::<SketchEntityId>::empty());
        }
    } else {
        assert(unique_in_order(head) =~= Seq::<SketchEntityId>::empty());
    }
    if let Some(id) = state.selected_sketch_secondary {
        push_unique(&mut victims, id);
        assert((head + second).drop_last() =~= head);
    } else {
        assert(head + second =~= head);
    }
    let ghost hs = head + second;
    let mut i: usize = 0;
    while i < state.selected_sketch_extra.len()
        invariant
            i <= state.selected_sketch_extra@.len(),
            state.selected_sketch_extra == o.selected_sketch_extra,
            victims@ == unique_in_order(hs + o.selected_sketch_extra@.take(i as int)),
        decreases state.selected_sketch_extra@.len() - i,
    {
        push_unique(&mut victims, state.selected_sketch_extra[i]);
        assert((hs + o.selected_sketch_extra@.take(i + 1)).drop_last() =~= hs
            + o.selected_sketch_extra@.take(i as int));
        i = i + 1;
    }
    assert(hs + o.selected_sketch_extra@.take(o.selected_sketch_extra@.len() as int)
        =~= sketch_selection(o));
    state.selected_sketch = None;
    state.selected_sketch_secondary = None;
    state.selected_sketch_extra.clear();
    proof {
        if sketch_selection(o).len() > 0 {
            lemma_unique_in_order_nonempty(sketch_selection(o));
        } else {
            assert(sketch_selection(o) =~= Seq::<SketchEntityId>::empty());
        }
    }
    victims
}

/// A non-empty list keeps at least one entity once repeats are dropped.
proof fn lemma_unique_in_order_nonempty(s: Seq<SketchEntityId>)
    requires
        s.len() > 0,
    ensures
        unique_in_order(s).len() > 0,
    decreases s.len(),
{
    if s.len() > 1 {
        lemma_unique_in_order_nonempty(s.drop_last());
    } else {
        assert(s.drop_last() =~= Seq::<SketchEntityId>::empty());
    }
}


/// Choose the rubber-band semantics (inside / touching / outside);
/// closes the active-bar dropdown.
pub fn set_selection_mode_2d<P, G>(editor: &mut FootprintEditor<P, G>, mode: FpSelectionMode)
    ensures
        *final(editor) == (FootprintEditor {
            state: FootprintEditorState {
                selection_mode_2d: mode,
                active_bar_menu: None,
                ..old(editor).state
            },
            ..*old(editor)
        }),
{
    editor.state.selection_mode_2d = mode;
    editor.state.active_bar_menu = None;
}

/// The layer "select all on layer" works on: that of the primary
/// selected pad, or the front copper when no existing pad is selected.
pub open spec fn active_layer<P>(st: FootprintEditorState<P>) -> FpLayer {
    match st.selected_pad {
        Some(i) => if i < st.pads@.len() {
            st.pads@[i as int].layer
        } else {
            FpLayer::FCu
        },
        None => FpLayer::FCu,
    }
}

/// Positions of the pads on `layer`, ascending.
pub open spec fn pads_on_layer<P>(pads: Seq<EditorPad<P>>, layer: FpLayer) -> Seq<usize> {
    indices_where(pads.len(), |i: int| pads[i].layer == layer)
}

/// With an existing pad selected, "select all on layer" selects exactly
/// the pads on that pad's layer, and the pad stays selected; with none,
/// exactly the front-copper pads.
pub proof fn lemma_select_all_on_layer_follows_selected_pad<P>(
    before: FootprintEditorState<P>,
    after: FootprintEditorState<P>,
)
    requires
        before.pads@.len() <= usize::MAX,
        selects_exactly(after, pads_on_layer(before.pads@, active_layer(before))),
    ensures
        ({
            let layer = match before.selected_pad {
                Some(i) => if i < before.pads@.len() {
                    before.pads@[i as int].layer
                } else {
                    FpLayer::FCu
                },
                None => FpLayer::FCu,
            };
            &&& strictly_increasing(after.pad_selection())
            &&& forall|j: usize| #[trigger] after.pad_selection().contains(j) <==> (j
                < before.pads@.len() && before.pads@[j as int].layer == layer)
            &&& (before.selected_pad matches Some(i) && i < before.pads@.len())
                ==> after.pad_selection().contains(before.selected_pad.unwrap())
        }),
{
    let layer = active_layer(before);
    let hits = pads_on_layer(before.pads@, layer);
    lemma_indices_where(before.pads@.len(), |i: int| before.pads@[i].layer == layer);
    if hits.len() > 0 {
        assert(after.pad_selection() =~= hits);
    } else {
        assert(after.pad_selection() =~= hits);
    }
    if before.selected_pad matches Some(i) && i < before.pads@.len() {
        assert(hits.contains(before.selected_pad.unwrap()));
    }
}

/// Multi-select every pad on the active layer.
pub fn select_all_on_layer<P, G>(editor: &mut FootprintEditor<P, G>)
    ensures
        selects_exactly(
            final(editor).state,
            pads_on_layer(old(editor).state.pads@, active_layer(old(editor).state)),
        ),
        *final(editor) == (FootprintEditor {
            state: FootprintEditorState {
                selected_pad: final(editor).state.selected_pad,
                selected_pads_extra: final(editor).state.selected_pads_extra,
                active_bar_menu: None,
                ..old(editor).state
            },
            canvas_stale: true,
            ..*old(editor)
        }),
{
    let layer = match editor.state.selected_pad {
        Some(i) => if i < editor.state.pads.len() {
            editor.state.pads[i].layer
        } else {
            FpLayer::FCu
        },
        None => FpLayer::FCu,
    };
    let mut hits: Vec<usize> = Vec::new();
    let mut i: usize = 0;
    while i < editor.state.pads.len()
        invariant
            i <= editor.state.pads@.len(),
            editor.state == old(editor).state,
            layer == active_layer(old(editor).state),
            hits@ == indices_where(i as nat, |k: int| editor.state.pads@[k].layer == layer),
        decreases editor.state.pads@.len() - i,
    {
        if editor.state.pads[i].layer == layer {
            hits.push(i);
        }
        i = i + 1;
    }
    select_hit_list(&mut editor.state, hits);
    editor.state.active_bar_menu = None;
    editor.canvas_stale = true;
}

/// Arm the lasso: an empty polygon, collecting vertices from now on.
pub fn lasso_arm<P, G>(editor: &mut FootprintEditor<P, G>)
    ensures
        final(editor).state.lasso_vertices@ == Seq::<P>::empty(),
        *final(editor) == (FootprintEditor {
            state: FootprintEditorState {
                lasso_mode_active: true,
                lasso_vertices: final(editor).state.lasso_vertices,
                active_bar_menu: None,
                ..old(editor).state
            },
            canvas_stale: true,
            ..*old(editor)
        }),
{
    editor.state.lasso_mode_active = true;
    editor.state.lasso_vertices.clear();
    editor.state.active_bar_menu = None;
    editor.canvas_stale = true;
}

/// Add a lasso vertex; ignored unless the lasso is armed.
pub fn lasso_add_vertex<P, G>(editor: &mut FootprintEditor<P, G>, pos: P)
    ensures
        old(editor).state.lasso_mode_active ==> final(editor).state.lasso_vertices@ == old(
            editor,
        ).state.lasso_vertices@.push(pos) && *final(editor) == (FootprintEditor {
            state: FootprintEditorState {
                lasso_vertices: final(editor).state.lasso_vertices,
                ..old(editor).state
            },
            canvas_stale: true,
            ..*old(editor)
        }),
        !old(editor).state.lasso_mode_active ==> *final(editor) == *old(editor),
{
    if editor.state.lasso_mode_active {
        editor.state.lasso_vertices.push(pos);
        editor.canvas_stale = true;
    }
}

/// Leave lasso mode without selecting.
pub fn lasso_cancel<P, G>(editor: &mut FootprintEditor<P, G>)
    ensures
        final(editor).state.lasso_vertices@ == Seq::<P>::empty(),
        *final(editor) == (FootprintEditor {
            state: FootprintEditorState {
                lasso_mode_active: false,
                lasso_vertices: final(editor).state.lasso_vertices,
                ..old(editor).state
            },
            canvas_stale: true,
            ..*old(editor)
        }),
{
    editor.state.lasso_mode_active = false;
    editor.state.lasso_vertices.clear();
    editor.canvas_stale = true;
}

/// Close the lasso and select every pad whose centre lies inside it.
/// `inside[i]` says whether pad `i`'s centre lies inside the polygon of
/// the collected vertices (never, for fewer than three vertices); the
/// caller evaluates it before the vertices are dropped here.
pub fn lasso_commit<P, G>(editor: &mut FootprintEditor<P, G>, inside: &Vec<bool>)
    requires
        inside@.len() == old(editor).state.pads@.len(),
    ensures
        selects_exactly(final(editor).state, set_positions(inside@)),
        final(editor).state.lasso_vertices@ == Seq::<P>::empty(),
        *final(editor) == (FootprintEditor {
            state: FootprintEditorState {
                selected_pad: final(editor).state.selected_pad,
                selected_pads_extra: final(editor).state.selected_pads_extra,
                lasso_mode_active: false,
                lasso_vertices: final(editor).state.lasso_vertices,
                ..old(editor).state
            },
            canvas_stale: true,
            ..*old(editor)
        }),
{
    editor.state.lasso_vertices.clear();
    editor.state.lasso_mode_active = false;
    let hits = collect_set_positions(inside);
    select_hit_list(&mut editor.state, hits);
    editor.canvas_stale = true;
}

/// Arm the touching-line pick: the next click sets the first endpoint.
pub fn touching_line_arm<P, G>(editor: &mut FootprintEditor<P, G>)
    ensures
        *final(editor) == (FootprintEditor {
            state: FootprintEditorState {
                touching_line_active: true,
                touching_line_first: None,
                active_bar_menu: None,
                ..old(editor).state
            },
            canvas_stale: true,
            ..*old(editor)
        }),
{
    editor.state.touching_line_active = true;
    editor.state.touching_line_first = None;
    editor.state.active_bar_menu = None;
    editor.canvas_stale = true;
}

/// Record the first endpoint of the touching line; ignored unless armed.
pub fn touching_line_first<P, G>(editor: &mut FootprintEditor<P, G>, pos: P)
    ensures
        old(editor).state.touching_line_active ==> *final(editor) == (FootprintEditor {
            state: FootprintEditorState { touching_line_first: Some(pos), ..old(editor).state },
            canvas_stale: true,
            ..*old(editor)
        }),
        !old(editor).state.touching_line_active ==> *final(editor) == *old(editor),
{
    if editor.state.touching_line_active {
        editor.state.touching_line_first = Some(pos);
        editor.canvas_stale = true;
    }
}

/// Leave the touching-line pick without selecting.
pub fn touching_line_cancel<P, G>(editor: &mut FootprintEditor<P, G>)
    ensures
        *final(editor) == (FootprintEditor {
            state: FootprintEditorState {
                touching_line_active: false,
                touching_line_first: None,
                ..old(editor).state
            },
            canvas_stale: true,
            ..*old(editor)
        }),
{
    editor.state.touching_line_active = false;
    editor.state.touching_line_first = None;
    editor.canvas_stale = true;
}

/// Finish the touching line at the second endpoint and select every pad
/// whose rotated bounding box the segment meets. `touched[i]` is that
/// test for pad `i`, made by the caller from the recorded first
/// endpoint; without a first endpoint the gesture ends with the
/// selection untouched.
pub fn touching_line_commit<P, G>(editor: &mut FootprintEditor<P, G>, touched: &Vec<bool>)
    requires
        touched@.len() == old(editor).state.pads@.len(),
    ensures
        old(editor).state.touching_line_first is None ==> *final(editor) == (FootprintEditor {
            state: FootprintEditorState { touching_line_active: false, ..old(editor).state },
            canvas_stale: true,
            ..*old(editor)
        }),
        old(editor).state.touching_line_first is Some ==> {
            &&& selects_exactly(final(editor).state, set_positions(touched@))
            &&& *final(editor) == (FootprintEditor {
                state: FootprintEditorState {
                    selected_pad: final(editor).state.selected_pad,
                    selected_pads_extra: final(editor).state.selected_pads_extra,
                    touching_line_active: false,
                    touching_line_first: None,
                    ..old(editor).state
                },
                canvas_stale: true,
                ..*old(editor)
            })
        },
{
    if editor.state.touching_line_first.is_none() {
        editor.state.touching_line_active = false;
        editor.canvas_stale = true;
        return;
    }
    editor.state.touching_line_first = None;
    editor.state.touching_line_active = false;
    let hits = collect_set_positions(touched);
    select_hit_list(&mut editor.state, hits);
    editor.canvas_stale = true;
}

/// Position of `x` in `s`, if it occurs.
pub open spec fn first_position(s: Seq<usize>, x: usize) -> Option<int>
    decreases s.len(),
{
    if s.len() == 0 {
        None
    } else if s[0] == x {
        Some(0)
    } else {
        match first_position(s.drop_first(), x) {
            Some(p) => Some(p + 1),
            None => None,
        }
    }
}

/// The pad "select overlapped" moves to: the next (`forward`) or
/// previous pad of the stack under the last click, cyclically, relative
/// to the primary selection; the bottom of the stack when the primary
/// is not in it.
pub open spec fn cycle_target(stack: Seq<usize>, current: Option<usize>, forward: bool) -> usize
    recommends
        stack.len() > 0,
{
    let pos: Option<int> = match current {
        Some(c) => first_position(stack, c),
        None => None,
    };
    match pos {
        Some(p) => if forward {
            stack[(p + 1) % (stack.len() as int)]
        } else {
            stack[(p + stack.len() - 1) % (stack.len() as int)]
        },
        None => stack[0],
    }
}

/// In a list without repeats, an element's first position is its
/// position.
pub proof fn lemma_first_position_distinct(s: Seq<usize>, q: int)
    requires
        strictly_increasing(s),
        0 <= q < s.len(),
    ensures
        first_position(s, s[q]) == Some(q),
    decreases q,
{
    if q > 0 {
        assert(s[0] < s[q]);
        let t = s.drop_first();
        assert forall|i: int, j: int| 0 <= i < j < t.len() implies t[i] < t[j] by {
            assert(t[i] == s[i + 1] && t[j] == s[j + 1]);
        }
        assert(t[q - 1] == s[q]);
        lemma_first_position_distinct(t, q - 1);
    }
}

/// "Select next overlapped" then "select previous overlapped" returns
/// to the pad selected before, when it is in the stack under the click
/// (the stack lists each pad once, as the pads under a click do).
pub proof fn lemma_cycle_forward_back(stack: Seq<usize>, q: int)
    requires
        strictly_increasing(stack),
        0 <= q < stack.len(),
    ensures
        cycle_target(stack, Some(cycle_target(stack, Some(stack[q]), true)), false) == stack[q],
        cycle_target(stack, Some(cycle_target(stack, Some(stack[q]), false)), true) == stack[q],
{
    let n = stack.len() as int;
    lemma_first_position_distinct(stack, q);
    let f = (q + 1) % n;
    let b = (q + n - 1) % n;
    assert(0 <= f < n) by (nonlinear_arith) requires n > 0, 0 <= q < n, f == (q + 1) % n;
    assert(0 <= b < n) by (nonlinear_arith) requires n > 0, 0 <= q < n, b == (q + n - 1) % n;
    lemma_first_position_distinct(stack, f);
    lemma_first_position_distinct(stack, b);
    assert((f + n - 1) % n == q) by (nonlinear_arith)
        requires
            n > 0,
            0 <= q < n,
            f == (q + 1) % n,
    ;
    assert((b + 1) % n == q) by (nonlinear_arith)
        requires
            n > 0,
            0 <= q < n,
            b == (q + n - 1) % n,
    ;
}

/// A pad that is not in the list has no position in it.
pub proof fn lemma_first_position_absent(s: Seq<usize>, x: usize)
    requires
        !s.contains(x),
    ensures
        first_position(s, x) is None,
    decreases s.len(),
{
    if s.len() > 0 {
        assert(s[0] != x);
        assert forall|i: int| 0 <= i < s.drop_first().len() implies s.drop_first()[i] != x by {
            assert(s.drop_first()[i] == s[i + 1]);
        }
        lemma_first_position_absent(s.drop_first(), x);
    }
}

/// "Select (next) overlapped" with no primary among the pads under the
/// click selects the bottom of the stack, whichever way it cycles.
pub proof fn lemma_cycle_from_outside(stack: Seq<usize>, current: Option<usize>, forward: bool)
    requires
        stack.len() > 0,
        current matches Some(c) ==> !stack.contains(c),
    ensures
        cycle_target(stack, current, forward) == stack[0],
{
    if let Some(c) = current {
        lemma_first_position_absent(stack, c);
    }
}

/// One step through the overlapped pads: from the pad at position `q`
/// of the stack to the next one (forward) or the previous one
/// (backward), wrapping around; from anywhere outside the stack to its
/// first pad.
pub proof fn lemma_cycle_step(stack: Seq<usize>, current: Option<usize>, forward: bool)
    requires
        strictly_increasing(stack),
        stack.len() > 0,
    ensures
        forall|q: int|
            0 <= q < stack.len() && current == Some(#[trigger] stack[q]) ==> cycle_target(
                stack,
                current,
                forward,
            ) == (if forward {
                stack[(q + 1) % (stack.len() as int)]
            } else {
                stack[(q + stack.len() - 1) % (stack.len() as int)]
            }),
        (current matches Some(c) ==> !stack.contains(c)) ==> cycle_target(stack, current, forward)
            == stack[0],
{
    assert forall|q: int| 0 <= q < stack.len() && current == Some(#[trigger] stack[q]) implies cycle_target(
        stack,
        current,
        forward,
    ) == (if forward {
        stack[(q + 1) % (stack.len() as int)]
    } else {
        stack[(q + stack.len() - 1) % (stack.len() as int)]
    }) by {
        lemma_first_position_distinct(stack, q);
    }
    if current matches Some(c) ==> !stack.contains(c) {
        lemma_cycle_from_outside(stack, current, forward);
    }
}

fn position_of(s: &Vec<usize>, x: usize) -> (r: Option<usize>)
    ensures
        match first_position(s@, x) {
            Some(p) => r == Some(p as usize) && 0 <= p < s@.len() && s@[p] == x,
            None => r is None && !s@.contains(x),
        },
{
    let mut i: usize = 0;
    assert(s@.subrange(0, s@.len() as int) =~= s@);
    while i < s.len()
        invariant
            i <= s@.len(),
            forall|k: int| 0 <= k < i ==> s@[k] != x,
            first_position(s@, x) == (match first_position(s@.subrange(i as int, s@.len() as int), x) {
                Some(p) => Some(p + i),
                None => None,
            }),
        decreases s@.len() - i,
    {
        let ghost rest = s@.subrange(i as int, s@.len() as int);
        assert(rest.drop_first() =~= s@.subrange(i + 1, s@.len() as int));
        if s[i] == x {
            return Some(i);
        }
        i = i + 1;
    }
    assert(s@.subrange(i as int, s@.len() as int) =~= Seq::<usize>::empty());
    None
}

/// The pad "select overlapped" moves to (see `cycle_target`).
fn overlapped_target(stack: &Vec<usize>, current: Option<usize>, forward: bool) -> (r: usize)
    requires
        stack@.len() > 0,
    ensures
        r == cycle_target(stack@, current, forward),
{
    let cur_pos = match current {
        Some(c) => position_of(stack, c),
        None => None,
    };
    let n = stack.len();
    let next_idx = match cur_pos {
        Some(p) => if forward {
            if p + 1 == n { 0 } else { p + 1 }
        } else {
            if p == 0 { n - 1 } else { p - 1 }
        },
        None => 0,
    };
    proof {
        if let Some(p) = cur_pos {
            let ni = n as int;
            let pi = p as int;
            if forward {
                if pi + 1 == ni {
                    assert((pi + 1) % ni == 0) by (nonlinear_arith) requires pi + 1 == ni, ni > 0;
                } else {
                    assert((pi + 1) % ni == pi + 1) by (nonlinear_arith) requires 0 <= pi + 1 < ni;
                }
            } else {
                if pi == 0 {
                    assert((pi + ni - 1) % ni == ni - 1) by (nonlinear_arith) requires pi == 0, ni > 0;
                } else {
                    assert((pi + ni - 1) % ni == pi - 1) by (nonlinear_arith) requires 0 < pi < ni;
                }
            }
        }
    }
    stack[next_idx]
}

/// Cycle the primary selection through the pads stacked under the last
/// click. `under_click[i]` says whether pad `i` contains the recorded
/// click position (the caller tests it). Without a recorded click, or
/// with nothing under it, only the active-bar dropdown closes.
pub fn select_overlapped<P, G>(editor: &mut FootprintEditor<P, G>, forward: bool, under_click: &Vec<bool>)
    requires
        under_click@.len() == old(editor).state.pads@.len(),
    ensures
        ({
            let stack = set_positions(under_click@);
            if old(editor).state.last_click_world_mm is None || stack.len() == 0 {
                *final(editor) == (FootprintEditor {
                    state: FootprintEditorState { active_bar_menu: None, ..old(editor).state },
                    ..*old(editor)
                })
            } else {
                let k = stack.len() as int;
                &&& final(editor).state.selected_pads_extra@ == Seq::<usize>::empty()
                &&& forall|q: int|
                    0 <= q < k && old(editor).state.selected_pad == Some(#[trigger] stack[q])
                        ==> final(editor).state.selected_pad == Some(
                        if forward {
                            stack[(q + 1) % k]
                        } else {
                            stack[(q + k - 1) % k]
                        },
                    )
                &&& (old(editor).state.selected_pad matches Some(c) ==> !stack.contains(c))
                    ==> final(editor).state.selected_pad == Some(stack[0])
                &&& *final(editor) == (FootprintEditor {
                    state: FootprintEditorState {
                        selected_pad: Some(cycle_target(stack, old(editor).state.selected_pad, forward)),
                        selected_pads_extra: final(editor).state.selected_pads_extra,
                        active_bar_menu: None,
                        ..old(editor).state
                    },
                    canvas_stale: true,
                    ..*old(editor)
                })
            }
        }),
{
    if editor.state.last_click_world_mm.is_none() {
        editor.state.active_bar_menu = None;
        return;
    }
    let stack = collect_set_positions(under_click);
    if stack.len() == 0 {
        editor.state.active_bar_menu = None;
        return;
    }
    let target = overlapped_target(&stack, editor.state.selected_pad, forward);
    // The flag count fits a `usize`, as the stack lemma asks.
    let flag_count: usize = under_click.len();
    proof {
        lemma_set_positions(under_click@);
        lemma_cycle_step(stack@, editor.state.selected_pad, forward);
    }
    editor.state.selected_pad = Some(target);
    editor.state.selected_pads_extra.clear();
    editor.state.active_bar_menu = None;
    editor.canvas_stale = true;
}

/// Select every pad whose centre is off the grid. `off_grid[i]` is that
/// test for pad `i` (the caller checks both coordinates against the
/// active grid step).
pub fn select_off_grid_pads<P, G>(editor: &mut FootprintEditor<P, G>, off_grid: &Vec<bool>)
    requires
        off_grid@.len() == old(editor).state.pads@.len(),
    ensures
        selects_exactly(final(editor).state, set_positions(off_grid@)),
        *final(editor) == (FootprintEditor {
            state: FootprintEditorState {
                selected_pad: final(editor).state.selected_pad,
                selected_pads_extra: final(editor).state.selected_pads_extra,
                active_bar_menu: None,
                ..old(editor).state
            },
            canvas_stale: true,
            ..*old(editor)
        }),
{
    let hits = collect_set_positions(off_grid);
    select_hit_list(&mut editor.state, hits);
    editor.state.active_bar_menu = None;
    editor.canvas_stale = true;
}

} // verus!
