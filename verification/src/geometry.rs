//! Footprint editor — the placement gestures of the pads-mode tools
//! (track, arc, polygon / region), new sibling footprints, and silk
//! graphics.
//!
//! The gestures collect clicked positions; a completed gesture is
//! returned to the caller, which builds the silk graphic from it (line
//! width, arc angles) and appends it with `append_silk_f`.

use vstd::prelude::*;
use crate::decimal::{decimal_digits, u64_to_decimal};
use crate::text::append_str;
use crate::types::{FootprintEditor, FootprintEditorState, PadsTool, PlaceArcPending};

verus! {

/// Name of the `n`-th footprint of a file: `Footprint <n>`.
pub open spec fn sibling_name(n: nat) -> Seq<char> {
    "Footprint "@ + decimal_digits(n)
}

/// Append a fresh empty footprint to the file and switch onto it.
/// Returns its name, `Footprint <n>` with `n` the new number of
/// footprints; the caller creates it and loads its (empty) state.
pub fn add_new_sibling<P, G>(editor: &mut FootprintEditor<P, G>) -> (name: String)
    requires
        old(editor).footprint_count < u64::MAX,
        old(editor).footprint_count < usize::MAX,
    ensures
        final(editor).footprint_count == old(editor).footprint_count + 1,
        final(editor).active_idx == old(editor).footprint_count,
        name@ == sibling_name(final(editor).footprint_count as nat),
        *final(editor) == (FootprintEditor {
            footprint_count: final(editor).footprint_count,
            active_idx: final(editor).active_idx,
            dirty: true,
            canvas_stale: true,
            ..*old(editor)
        }),
{
    let n = editor.footprint_count + 1;
    let digits = u64_to_decimal(n as u64);
    let mut name = String::from_str("Footprint ");
    append_str(&mut name, digits.as_str());
    editor.footprint_count = n;
    editor.active_idx = n - 1;
    editor.dirty = true;
    editor.canvas_stale = true;
    name
}

/// Append a front-silk graphic to the active footprint.
pub fn append_silk_f<P, G>(editor: &mut FootprintEditor<P, G>, graphic: G)
    ensures
        final(editor).silk_f@ == old(editor).silk_f@.push(graphic),
        *final(editor) == (FootprintEditor {
            silk_f: final(editor).silk_f,
            dirty: true,
            canvas_stale: true,
            ..*old(editor)
        }),
{
    editor.silk_f.push(graphic);
    editor.dirty = true;
    editor.canvas_stale = true;
}

/// Place Track click at `pos`: the first click parks the start; each
/// further click completes a segment from the parked point (returned)
/// and parks `pos` as the start of the next one.
pub fn track_click<P: Copy, G>(editor: &mut FootprintEditor<P, G>, pos: P) -> (segment: Option<(P, P)>)
    ensures
        segment == (match old(editor).state.track_first {
            Some(start) => Some((start, pos)),
            None => None,
        }),
        *final(editor) == (FootprintEditor {
            state: FootprintEditorState { track_first: Some(pos), ..old(editor).state },
            canvas_stale: true,
            ..*old(editor)
        }),
{
    let segment = match editor.state.track_first {
        Some(start) => Some((start, pos)),
        None => None,
    };
    editor.state.track_first = Some(pos);
    editor.canvas_stale = true;
    segment
}

/// Drop the parked track start.
pub fn track_cancel<P, G>(editor: &mut FootprintEditor<P, G>)
    ensures
        *final(editor) == (FootprintEditor {
            state: FootprintEditorState { track_first: None, ..old(editor).state },
            canvas_stale: true,
            ..*old(editor)
        }),
{
    editor.state.track_first = None;
    editor.canvas_stale = true;
}

/// Place Arc click at `pos`: centre, then start, then end. The third
/// click returns (centre, start, end) and resets the gesture; arcs do
/// not chain.
pub fn arc_click<P: Copy, G>(editor: &mut FootprintEditor<P, G>, pos: P) -> (arc: Option<(P, P, P)>)
    ensures
        match old(editor).state.place_arc_pending {
            PlaceArcPending::Idle => arc is None && final(editor).state.place_arc_pending
                == PlaceArcPending::Center { center: pos },
            PlaceArcPending::Center { center } => arc is None
                && final(editor).state.place_arc_pending == PlaceArcPending::Start {
                center,
                start: pos,
            },
            PlaceArcPending::Start { center, start } => arc == Some((center, start, pos))
                && final(editor).state.place_arc_pending == PlaceArcPending::<P>::Idle,
        },
        *final(editor) == (FootprintEditor {
            state: FootprintEditorState {
                place_arc_pending: final(editor).state.place_arc_pending,
                ..old(editor).state
            },
            canvas_stale: true,
            ..*old(editor)
        }),
{
    let (next, arc) = match editor.state.place_arc_pending {
        PlaceArcPending::Idle => (PlaceArcPending::Center { center: pos }, None),
        PlaceArcPending::Center { center } => (PlaceArcPending::Start { center, start: pos }, None),
        PlaceArcPending::Start { center, start } => (PlaceArcPending::Idle, Some((center, start, pos))),
    };
    editor.state.place_arc_pending = next;
    editor.canvas_stale = true;
    arc
}

/// Abandon the Place Arc gesture.
pub fn arc_cancel<P, G>(editor: &mut FootprintEditor<P, G>)
    ensures
        *final(editor) == (FootprintEditor {
            state: FootprintEditorState {
                place_arc_pending: PlaceArcPending::Idle,
                ..old(editor).state
            },
            canvas_stale: true,
            ..*old(editor)
        }),
{
    editor.state.place_arc_pending = PlaceArcPending::Idle;
    editor.canvas_stale = true;
}

/// Place Polygon / Region click: one more vertex.
pub fn polygon_click<P, G>(editor: &mut FootprintEditor<P, G>, pos: P)
    ensures
        final(editor).state.place_polygon_vertices@
            == old(editor).state.place_polygon_vertices@.push(pos),
        *final(editor) == (FootprintEditor {
            state: FootprintEditorState {
                place_polygon_vertices: final(editor).state.place_polygon_vertices,
                ..old(editor).state
            },
            canvas_stale: true,
            ..*old(editor)
        }),
{
    editor.state.place_polygon_vertices.push(pos);
    editor.canvas_stale = true;
}

/// Commit the polygon: the vertices are taken; with at least three a
/// polygon is returned, filled when the Region tool is active, and the
/// document is dirty. Fewer vertices are dropped.
pub fn polygon_commit<P, G>(editor: &mut FootprintEditor<P, G>) -> (polygon: Option<(Vec<P>, bool)>)
    ensures
        final(editor).state.place_polygon_vertices@.len() == 0,
        ({
            let verts = old(editor).state.place_polygon_vertices@;
            let filled = old(editor).state.pads_tool == PadsTool::PlaceRegion;
            &&& verts.len() >= 3 ==> (polygon matches Some(p) && p.0@ == verts && p.1 == filled)
            &&& verts.len() < 3 ==> polygon is None
            &&& *final(editor) == (FootprintEditor {
                state: FootprintEditorState {
                    place_polygon_vertices: final(editor).state.place_polygon_vertices,
                    ..old(editor).state
                },
                canvas_stale: true,
                dirty: old(editor).dirty || verts.len() >= 3,
                ..*old(editor)
            })
        }),
{
    let mut verts: Vec<P> = Vec::new();
    std::mem::swap(&mut verts, &mut editor.state.place_polygon_vertices);
    let filled = match editor.state.pads_tool {
        PadsTool::PlaceRegion => true,
        _ => false,
    };
    editor.canvas_stale = true;
    if verts.len() >= 3 {
        editor.dirty = true;
        Some((verts, filled))
    } else {
        None
    }
}

/// Abandon the polygon.
pub fn polygon_cancel<P, G>(editor: &mut FootprintEditor<P, G>)
    ensures
        final(editor).state.place_polygon_vertices@.len() == 0,
        *final(editor) == (FootprintEditor {
            state: FootprintEditorState {
                place_polygon_vertices: final(editor).state.place_polygon_vertices,
                ..old(editor).state
            },
            canvas_stale: true,
            ..*old(editor)
        }),
{
    editor.state.place_polygon_vertices.clear();
    editor.canvas_stale = true;
}

/// Pads are mirrored into the backing sketch only once it holds
/// entities (the user has been in Sketch mode, or it was minted).
pub fn footprint_sketch_is_active(sketch_entities: Option<usize>) -> (r: bool)
    ensures
        r == (match sketch_entities {
            Some(n) => n > 0,
            None => false,
        }),
{
    match sketch_entities {
        Some(n) => n > 0,
        None => false,
    }
}

} // verus!
