//! Footprint sketch mode — selection, tool and line-type updates.

use vstd::prelude::*;
use crate::types::{FootprintEditor, FootprintEditorState, SketchEntityId, SketchTool, ToolPending};

verus! {

/// Replace the sketch selection by `ids`: the first is primary, the
/// second secondary, the rest extras; an empty list clears it.
pub fn select_many<P, G>(editor: &mut FootprintEditor<P, G>, ids: Vec<SketchEntityId>)
    ensures
        ({
            let f = final(editor).state;
            &&& f.selected_sketch == (if ids@.len() > 0 { Some(ids@[0]) } else { None })
            &&& f.selected_sketch_secondary == (if ids@.len() > 1 {
                Some(ids@[1])
            } else {
                None
            })
            &&& f.selected_sketch_extra@ == (if ids@.len() > 2 {
                ids@.subrange(2, ids@.len() as int)
            } else {
                Seq::empty()
            })
            &&& *final(editor) == (FootprintEditor {
                state: FootprintEditorState {
                    selected_sketch: f.selected_sketch,
                    selected_sketch_secondary: f.selected_sketch_secondary,
                    selected_sketch_extra: f.selected_sketch_extra,
                    ..old(editor).state
                },
                canvas_stale: true,
                ..*old(editor)
            })
        }),
{
    if ids.len() == 0 {
        editor.state.selected_sketch = None;
        editor.state.selected_sketch_secondary = None;
        editor.state.selected_sketch_extra.clear();
    } else {
        editor.state.selected_sketch = Some(ids[0]);
        editor.state.selected_sketch_secondary = if ids.len() > 1 {
            Some(ids[1])
        } else {
            None
        };
        let mut extra: Vec<SketchEntityId> = Vec::new();
        let mut i: usize = 2;
        while i < ids.len()
            invariant
                2 <= i,
                i <= ids@.len() || ids@.len() < 2,
                ids@.len() >= 2 ==> extra@ == ids@.subrange(2, i as int),
                ids@.len() < 2 ==> extra@ == Seq::<SketchEntityId>::empty(),
            decreases ids@.len() - i,
        {
            extra.push(ids[i]);
            assert(ids@.subrange(2, i + 1) == ids@.subrange(2, i as int).push(ids@[i as int]));
            i = i + 1;
        }
        proof {
            if ids@.len() == 2 {
                assert(extra@ =~= Seq::<SketchEntityId>::empty());
            }
        }
        editor.state.selected_sketch_extra = extra;
    }
    editor.canvas_stale = true;
}

/// Arm a sketch tool; any in-flight gesture is dropped.
pub fn set_tool<P, G>(editor: &mut FootprintEditor<P, G>, tool: SketchTool)
    ensures
        *final(editor) == (FootprintEditor {
            state: FootprintEditorState {
                active_tool: tool,
                tool_pending: ToolPending::Idle,
                ..old(editor).state
            },
            canvas_stale: true,
            ..*old(editor)
        }),
{
    editor.state.active_tool = tool;
    editor.state.tool_pending = ToolPending::Idle;
    editor.canvas_stale = true;
}

/// Flip the construction line type. Construction and centerline are
/// exclusive: switching construction on switches centerline off.
pub fn toggle_construction<P, G>(editor: &mut FootprintEditor<P, G>)
    ensures
        final(editor).state.construction_mode == !old(editor).state.construction_mode,
        !(final(editor).state.construction_mode && final(editor).state.centerline_mode),
        *final(editor) == (FootprintEditor {
            state: FootprintEditorState {
                construction_mode: !old(editor).state.construction_mode,
                centerline_mode: if old(editor).state.construction_mode {
                    old(editor).state.centerline_mode
                } else {
                    false
                },
                ..old(editor).state
            },
            canvas_stale: true,
            ..*old(editor)
        }),
{
    editor.state.construction_mode = !editor.state.construction_mode;
    if editor.state.construction_mode {
        editor.state.centerline_mode = false;
    }
    editor.canvas_stale = true;
}

/// Flip the centerline line type; switching it on switches
/// construction off.
pub fn toggle_centerline<P, G>(editor: &mut FootprintEditor<P, G>)
    ensures
        final(editor).state.centerline_mode == !old(editor).state.centerline_mode,
        !(final(editor).state.construction_mode && final(editor).state.centerline_mode),
        *final(editor) == (FootprintEditor {
            state: FootprintEditorState {
                centerline_mode: !old(editor).state.centerline_mode,
                construction_mode: if old(editor).state.centerline_mode {
                    old(editor).state.construction_mode
                } else {
                    false
                },
                ..old(editor).state
            },
            canvas_stale: true,
            ..*old(editor)
        }),
{
    editor.state.centerline_mode = !editor.state.centerline_mode;
    if editor.state.centerline_mode {
        editor.state.construction_mode = false;
    }
    editor.canvas_stale = true;
}

/// Escape out of the sketch gesture: the pending gesture and every
/// typed placement dimension are dropped.
pub fn tool_escape<P, G>(editor: &mut FootprintEditor<P, G>)
    ensures
        final(editor).state.placement_input_others@.len() == 0,
        *final(editor) == (FootprintEditor {
            state: FootprintEditorState {
                tool_pending: ToolPending::Idle,
                placement_input: None,
                placement_input_others: final(editor).state.placement_input_others,
                ..old(editor).state
            },
            canvas_stale: true,
            ..*old(editor)
        }),
{
    editor.state.tool_pending = ToolPending::Idle;
    editor.state.placement_input = None;
    editor.state.placement_input_others.clear();
    editor.canvas_stale = true;
}

/// A single click in the sketch. The extras always clear. `None`
/// clears primary and secondary; a plain click makes `id` the only
/// selection; a shift-click fills the primary when empty, otherwise
/// makes `id` the secondary unless it already is the primary.
pub fn select<P, G>(editor: &mut FootprintEditor<P, G>, id: Option<SketchEntityId>, shift: bool)
    ensures
        ({
            let o = old(editor).state;
            let (primary, secondary) = match id {
                None => (None, None),
                Some(new_id) => if !shift {
                    (Some(new_id), None)
                } else if o.selected_sketch is None {
                    (Some(new_id), o.selected_sketch_secondary)
                } else if o.selected_sketch != Some(new_id) {
                    (o.selected_sketch, Some(new_id))
                } else {
                    (o.selected_sketch, o.selected_sketch_secondary)
                },
            };
            &&& final(editor).state.selected_sketch_extra@ == Seq::<SketchEntityId>::empty()
            &&& *final(editor) == (FootprintEditor {
                state: FootprintEditorState {
                    selected_sketch: primary,
                    selected_sketch_secondary: secondary,
                    selected_sketch_extra: final(editor).state.selected_sketch_extra,
                    ..o
                },
                canvas_stale: true,
                ..*old(editor)
            })
        }),
{
    editor.state.selected_sketch_extra.clear();
    match id {
        None => {
            editor.state.selected_sketch = None;
            editor.state.selected_sketch_secondary = None;
        },
        Some(new_id) => {
            if !shift {
                editor.state.selected_sketch = Some(new_id);
                editor.state.selected_sketch_secondary = None;
            } else if editor.state.selected_sketch.is_none() {
                editor.state.selected_sketch = Some(new_id);
            } else if editor.state.selected_sketch != Some(new_id) {
                editor.state.selected_sketch_secondary = Some(new_id);
            }
        },
    }
    editor.canvas_stale = true;
}

/// Replace the text of the constraint dimension field.
pub fn dimension_input<P, G>(editor: &mut FootprintEditor<P, G>, s: String)
    ensures
        *final(editor) == (FootprintEditor {
            state: FootprintEditorState { dimension_input: s, ..old(editor).state },
            ..*old(editor)
        }),
{
    editor.state.dimension_input = s;
}

} // verus!
