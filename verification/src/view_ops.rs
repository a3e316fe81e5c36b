//! Footprint editor — view and tool updates: mode switch, pads tools,
//! global Escape, placement pause, fit request.

use vstd::prelude::*;
use crate::types::{
    EditorMode, FootprintEditor, FootprintEditorState, PadsTool, PlaceArcPending, SketchTool,
    ToolPending,
};

verus! {

/// Switch the Tab-pause of the active tool.
pub fn toggle_placement_pause<P, G>(editor: &mut FootprintEditor<P, G>)
    ensures
        *final(editor) == (FootprintEditor {
            state: FootprintEditorState {
                placement_paused: !old(editor).state.placement_paused,
                ..old(editor).state
            },
            canvas_stale: true,
            ..*old(editor)
        }),
{
    editor.state.placement_paused = !editor.state.placement_paused;
    editor.canvas_stale = true;
}

/// The canvas consumed the one-shot fit request.
pub fn fit_consumed<P, G>(editor: &mut FootprintEditor<P, G>)
    ensures
        *final(editor) == (FootprintEditor {
            state: FootprintEditorState { fit_pending: false, ..old(editor).state },
            ..*old(editor)
        }),
{
    editor.state.fit_pending = false;
}

/// Whether `tool` is one of the two polygon tools.
pub open spec fn is_polygon_tool(tool: PadsTool) -> bool {
    tool == PadsTool::PlacePolygon || tool == PadsTool::PlaceRegion
}

/// Pick a pads tool. Leaving Place Track drops its first click, leaving
/// Place Arc its pending arc. Leaving the polygon tools with vertices
/// stashed ends the polygon: the stash is cleared and, when it had at
/// least three vertices, handed back for the caller to add as an
/// unfilled front-silk polygon (the document is then dirty). The
/// dropdown closes.
#[verifier::rlimit(80)]
pub fn set_pads_tool<P, G>(editor: &mut FootprintEditor<P, G>, tool: PadsTool) -> (committed: Option<Vec<P>>)
    ensures
        ({
            let o = old(editor).state;
            let f = final(editor).state;
            let ends_polygon = o.place_polygon_vertices@.len() > 0 && !is_polygon_tool(tool);
            let commits = ends_polygon && o.place_polygon_vertices@.len() >= 3;
            &&& commits <==> committed is Some
            &&& committed matches Some(v) ==> v@ == o.place_polygon_vertices@
            &&& ends_polygon ==> f.place_polygon_vertices@.len() == 0
            &&& !ends_polygon ==> f.place_polygon_vertices == o.place_polygon_vertices
            &&& *final(editor) == (FootprintEditor {
                state: FootprintEditorState {
                    pads_tool: tool,
                    track_first: if tool == PadsTool::PlaceTrack {
                        o.track_first
                    } else {
                        None
                    },
                    place_arc_pending: if tool == PadsTool::PlaceArc {
                        o.place_arc_pending
                    } else {
                        PlaceArcPending::Idle
                    },
                    place_polygon_vertices: f.place_polygon_vertices,
                    active_bar_menu: None,
                    ..o
                },
                dirty: if commits { true } else { old(editor).dirty },
                canvas_stale: true,
                ..*old(editor)
            })
        }),
{
    editor.state.pads_tool = tool;
    if tool != PadsTool::PlaceTrack {
        editor.state.track_first = None;
    }
    if tool != PadsTool::PlaceArc {
        editor.state.place_arc_pending = PlaceArcPending::Idle;
    }
    let mut committed: Option<Vec<P>> = None;
    let stashed = editor.state.place_polygon_vertices.len() > 0;
    if stashed && !(tool == PadsTool::PlacePolygon || tool == PadsTool::PlaceRegion) {
        let mut verts: Vec<P> = Vec::new();
        std::mem::swap(&mut verts, &mut editor.state.place_polygon_vertices);
        if verts.len() >= 3 {
            committed = Some(verts);
            editor.dirty = true;
        }
    }
    editor.state.active_bar_menu = None;
    editor.canvas_stale = true;
    committed
}

/// Global Escape. With the context menu open it only closes the menu.
/// Otherwise every tool and gesture resets (pads and sketch tools back
/// to Select, pending track / arc / polygon dropped), the dropdown
/// closes, the pad and silk selections clear and the pause lifts.
pub fn tool_escape<P, G>(editor: &mut FootprintEditor<P, G>)
    ensures
        old(editor).state.context_menu is Some ==> *final(editor) == (FootprintEditor {
            state: FootprintEditorState { context_menu: None, ..old(editor).state },
            canvas_stale: true,
            ..*old(editor)
        }),
        old(editor).state.context_menu is None ==> {
            &&& final(editor).state.place_polygon_vertices@.len() == 0
            &&& *final(editor) == (FootprintEditor {
                state: FootprintEditorState {
                    pads_tool: PadsTool::Select,
                    active_tool: SketchTool::Select,
                    tool_pending: ToolPending::Idle,
                    track_first: None,
                    place_arc_pending: PlaceArcPending::Idle,
                    place_polygon_vertices: final(editor).state.place_polygon_vertices,
                    active_bar_menu: None,
                    selected_pad: None,
                    selected_silk_f: None,
                    placement_paused: false,
                    ..old(editor).state
                },
                canvas_stale: true,
                ..*old(editor)
            })
        },
{
    if editor.state.context_menu.is_some() {
        editor.state.context_menu = None;
        editor.canvas_stale = true;
        return ;
    }
    editor.state.pads_tool = PadsTool::Select;
    editor.state.active_tool = SketchTool::Select;
    editor.state.tool_pending = ToolPending::Idle;
    editor.state.track_first = None;
    editor.state.place_arc_pending = PlaceArcPending::Idle;
    editor.state.place_polygon_vertices.clear();
    editor.state.active_bar_menu = None;
    editor.state.selected_pad = None;
    editor.state.selected_silk_f = None;
    editor.state.placement_paused = false;
    editor.canvas_stale = true;
}

/// Switch the editing mode. Both tools reset to Select with no pending
/// gesture and the dropdown closes; the document is dirty. Returns
/// whether sketch mode is being entered from another mode (the caller
/// then mints sketch points for the literal pads and initialises the
/// sketch).
pub fn set_mode<P, G>(editor: &mut FootprintEditor<P, G>, mode: EditorMode) -> (entering_sketch: bool)
    ensures
        entering_sketch == (old(editor).state.mode != EditorMode::Sketch && mode
            == EditorMode::Sketch),
        *final(editor) == (FootprintEditor {
            state: FootprintEditorState {
                pads_tool: PadsTool::Select,
                active_tool: SketchTool::Select,
                tool_pending: ToolPending::Idle,
                active_bar_menu: None,
                mode,
                ..old(editor).state
            },
            canvas_stale: true,
            dirty: true,
            ..*old(editor)
        }),
{
    let entering_sketch = editor.state.mode != EditorMode::Sketch && mode == EditorMode::Sketch;
    editor.state.pads_tool = PadsTool::Select;
    editor.state.active_tool = SketchTool::Select;
    editor.state.tool_pending = ToolPending::Idle;
    editor.state.active_bar_menu = None;
    editor.state.mode = mode;
    editor.canvas_stale = true;
    editor.dirty = true;
    entering_sketch
}

} // verus!
