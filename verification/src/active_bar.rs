//! Footprint editor — active-bar updates: dropdowns, filter, snap
//! options, whole-selection actions, and the Move-By and Align dialogs.
//!
//! Moves of pad centres are done by the caller on its coordinates; the
//! functions here decide whether and on which pads they happen.

use vstd::prelude::*;
use crate::indices::strictly_increasing;
use crate::selection::selected_existing_pads;
use crate::text::{chars_of, string_from_chars};
use crate::types::{
    AlignModal, AlignOp, EditorMode, FootprintActiveBarMenu, FootprintEditor, FootprintEditorState,
    MoveByModal, SketchEntityId, SketchTool, SnapOptionFlag, ToolPending,
};

verus! {

/// The open dropdown after toggling `menu`: it opens, unless it is the
/// open one, which closes.
pub open spec fn toggled_menu(
    open: Option<FootprintActiveBarMenu>,
    menu: FootprintActiveBarMenu,
) -> Option<FootprintActiveBarMenu> {
    if open == Some(menu) {
        None
    } else {
        Some(menu)
    }
}

/// Toggling the same dropdown twice closes it, unless it was the open
/// one to begin with.
pub proof fn lemma_toggle_menu_twice(open: Option<FootprintActiveBarMenu>, menu: FootprintActiveBarMenu)
    ensures
        toggled_menu(toggled_menu(open, menu), menu) == (if open == Some(menu) {
            Some(menu)
        } else {
            None
        }),
{
}

/// Open `menu`, or close it when it is the open one.
pub fn toggle_active_bar_menu<P, G>(editor: &mut FootprintEditor<P, G>, menu: FootprintActiveBarMenu)
    ensures
        *final(editor) == (FootprintEditor {
            state: FootprintEditorState {
                active_bar_menu: toggled_menu(old(editor).state.active_bar_menu, menu),
                ..old(editor).state
            },
            ..*old(editor)
        }),
{
    editor.state.active_bar_menu = match editor.state.active_bar_menu {
        Some(m) => if m == menu {
            None
        } else {
            Some(menu)
        },
        None => Some(menu),
    };
}

/// Close any open dropdown (also what a not-yet-available entry does).
pub fn close_active_bar_menu<P, G>(editor: &mut FootprintEditor<P, G>)
    ensures
        *final(editor) == (FootprintEditor {
            state: FootprintEditorState { active_bar_menu: None, ..old(editor).state },
            ..*old(editor)
        }),
{
    editor.state.active_bar_menu = None;
}

/// "All - On / All - Off": every filter kind on, unless all already
/// are, in which case every kind off.
pub fn toggle_all_filters<P, G>(editor: &mut FootprintEditor<P, G>)
    requires
        old(editor).wf(),
    ensures
        final(editor).wf(),
        ({
            let all_on = forall|i: int|
                0 <= i < old(editor).state.selection_filter.enabled@.len()
                    ==> old(editor).state.selection_filter.enabled@[i];
            forall|i: int|
                0 <= i < final(editor).state.selection_filter.enabled@.len()
                    ==> final(editor).state.selection_filter.enabled@[i] == !all_on
        }),
        *final(editor) == (FootprintEditor {
            state: FootprintEditorState {
                selection_filter: final(editor).state.selection_filter,
                ..old(editor).state
            },
            canvas_stale: true,
            ..*old(editor)
        }),
{
    let all_on = editor.state.selection_filter.all_enabled();
    editor.state.selection_filter.set_all(!all_on);
    editor.canvas_stale = true;
}

/// Flip one snap target on or off.
pub fn toggle_snap<P, G>(editor: &mut FootprintEditor<P, G>, flag: SnapOptionFlag)
    requires
        old(editor).wf(),
    ensures
        final(editor).wf(),
        final(editor).state.snap_options.flags@ == old(editor).state.snap_options.flags@.update(
            flag.spec_slot() as int,
            !old(editor).state.snap_options.is_on(flag),
        ),
        *final(editor) == (FootprintEditor {
            state: FootprintEditorState {
                snap_options: final(editor).state.snap_options,
                ..old(editor).state
            },
            canvas_stale: true,
            ..*old(editor)
        }),
{
    let slot = flag.slot();
    let cur = editor.state.snap_options.flags[slot];
    editor.state.snap_options.flags.set(slot, !cur);
    editor.canvas_stale = true;
}

/// "Move Selection by X, Y" one-step nudge: the pads it moves (by one
/// grid step in +X and +Y, done by the caller). The dropdown closes.
/// No pads means no move, no history entry and no dirty flag.
pub fn nudge_selection_targets<P, G>(editor: &mut FootprintEditor<P, G>) -> (targets: Vec<usize>)
    ensures
        strictly_increasing(targets@),
        targets@.to_set() == selected_existing_pads(old(editor).state),
        *final(editor) == (FootprintEditor {
            state: FootprintEditorState { active_bar_menu: None, ..old(editor).state },
            ..*old(editor)
        }),
{
    let targets = editor.state.selected_pad_indices();
    editor.state.active_bar_menu = None;
    targets
}

/// Open the Move-By dialog with empty fields.
pub fn move_by_open<P, G>(editor: &mut FootprintEditor<P, G>)
    ensures
        final(editor).state.move_by_modal is Some,
        final(editor).state.move_by_modal.unwrap().dx_buf@.len() == 0,
        final(editor).state.move_by_modal.unwrap().dy_buf@.len() == 0,
        *final(editor) == (FootprintEditor {
            state: FootprintEditorState {
                move_by_modal: final(editor).state.move_by_modal,
                active_bar_menu: None,
                ..old(editor).state
            },
            ..*old(editor)
        }),
{
    editor.state.move_by_modal = Some(MoveByModal { dx_buf: String::new(), dy_buf: String::new() });
    editor.state.active_bar_menu = None;
}

/// Replace the typed X delta (only while the dialog is open).
pub fn move_by_set_x<P, G>(editor: &mut FootprintEditor<P, G>, v: String)
    ensures
        *final(editor) == (FootprintEditor {
            state: FootprintEditorState {
                move_by_modal: match old(editor).state.move_by_modal {
                    Some(m) => Some(MoveByModal { dx_buf: v, ..m }),
                    None => None,
                },
                ..old(editor).state
            },
            ..*old(editor)
        }),
{
    if let Some(m) = editor.state.move_by_modal.as_mut() {
        m.dx_buf = v;
    }
}

/// Replace the typed Y delta (only while the dialog is open).
pub fn move_by_set_y<P, G>(editor: &mut FootprintEditor<P, G>, v: String)
    ensures
        *final(editor) == (FootprintEditor {
            state: FootprintEditorState {
                move_by_modal: match old(editor).state.move_by_modal {
                    Some(m) => Some(MoveByModal { dy_buf: v, ..m }),
                    None => None,
                },
                ..old(editor).state
            },
            ..*old(editor)
        }),
{
    if let Some(m) = editor.state.move_by_modal.as_mut() {
        m.dy_buf = v;
    }
}

/// Confirm or cancel the Move-By dialog: it closes, and on confirm the
/// typed deltas are handed back (the caller parses them and, when both
/// are numbers, nudges `nudge_selection_targets`).
pub fn move_by_close<P, G>(editor: &mut FootprintEditor<P, G>) -> (typed: Option<MoveByModal>)
    ensures
        typed == old(editor).state.move_by_modal,
        *final(editor) == (FootprintEditor {
            state: FootprintEditorState { move_by_modal: None, ..old(editor).state },
            ..*old(editor)
        }),
{
    editor.state.move_by_modal.take()
}

/// Open the Align dialog with no operation chosen.
pub fn align_open<P, G>(editor: &mut FootprintEditor<P, G>)
    ensures
        *final(editor) == (FootprintEditor {
            state: FootprintEditorState {
                align_modal: Some(AlignModal { horizontal: None, vertical: None }),
                active_bar_menu: None,
                ..old(editor).state
            },
            ..*old(editor)
        }),
{
    editor.state.align_modal = Some(AlignModal { horizontal: None, vertical: None });
    editor.state.active_bar_menu = None;
}

/// Choose the horizontal and/or vertical operation of the open dialog.
pub fn align_set<P, G>(
    editor: &mut FootprintEditor<P, G>,
    horizontal: Option<Option<AlignOp>>,
    vertical: Option<Option<AlignOp>>,
)
    ensures
        *final(editor) == (FootprintEditor {
            state: FootprintEditorState {
                align_modal: match old(editor).state.align_modal {
                    Some(m) => Some(
                        AlignModal {
                            horizontal: match horizontal {
                                Some(h) => h,
                                None => m.horizontal,
                            },
                            vertical: match vertical {
                                Some(v) => v,
                                None => m.vertical,
                            },
                        },
                    ),
                    None => None,
                },
                ..old(editor).state
            },
            ..*old(editor)
        }),
{
    if let Some(m) = editor.state.align_modal.as_mut() {
        if let Some(h) = horizontal {
            m.horizontal = h;
        }
        if let Some(v) = vertical {
            m.vertical = v;
        }
    }
}

/// The chosen operations that the selection is large enough for, in
/// horizontal-then-vertical order.
pub open spec fn applicable_ops(
    horizontal: Option<AlignOp>,
    vertical: Option<AlignOp>,
    n: nat,
) -> Seq<AlignOp> {
    let h: Seq<AlignOp> = match horizontal {
        Some(op) => if n >= op.spec_min_pads() {
            seq![op]
        } else {
            Seq::empty()
        },
        None => Seq::empty(),
    };
    let v: Seq<AlignOp> = match vertical {
        Some(op) => if n >= op.spec_min_pads() {
            seq![op]
        } else {
            Seq::empty()
        },
        None => Seq::empty(),
    };
    h + v
}

/// A move of pad centres for the caller to perform: the operations, in
/// order, on the pads at `pads` (ascending), under one history entry.
pub struct AlignPlan {
    pub ops: Vec<AlignOp>,
    pub pads: Vec<usize>,
}

/// Confirm the Align dialog: it closes, and the chosen operations that
/// the selection is large enough for (aligning takes two pads,
/// distributing three) are handed back with the selected pads. `None`
/// when nothing applies: then nothing moves and nothing is recorded.
pub fn align_confirm<P, G>(editor: &mut FootprintEditor<P, G>) -> (plan: Option<AlignPlan>)
    ensures
        ({
            let o = old(editor).state;
            let (h, v) = match o.align_modal {
                Some(m) => (m.horizontal, m.vertical),
                None => (None, None),
            };
            let n = selected_existing_pads(o).len();
            let ops = applicable_ops(h, v, n);
            &&& ops.len() == 0 <==> plan is None
            &&& plan matches Some(p) ==> {
                &&& p.ops@ == ops
                &&& strictly_increasing(p.pads@)
                &&& p.pads@.to_set() == selected_existing_pads(o)
            }
        }),
        *final(editor) == (FootprintEditor {
            state: FootprintEditorState { align_modal: None, ..old(editor).state },
            ..*old(editor)
        }),
{
    let (h, v) = match &editor.state.align_modal {
        Some(m) => (m.horizontal, m.vertical),
        None => (None, None),
    };
    let pads = editor.state.selected_pad_indices();
    proof {
        vstd::seq_lib::seq_to_set_is_finite(pads@);
        lemma_increasing_len_is_set_len(pads@);
    }
    let n = pads.len();
    let mut ops: Vec<AlignOp> = Vec::new();
    if let Some(op) = h {
        if n >= op.min_pads() {
            ops.push(op);
        }
    }
    let ghost h_part = ops@;
    if let Some(op) = v {
        if n >= op.min_pads() {
            ops.push(op);
        }
    }
    assert(ops@ =~= applicable_ops(h, v, n as nat));
    editor.state.align_modal = None;
    if ops.len() == 0 {
        None
    } else {
        Some(AlignPlan { ops, pads })
    }
}

/// A list without repeats has as many members as entries.
pub proof fn lemma_increasing_len_is_set_len(s: Seq<usize>)
    requires
        strictly_increasing(s),
    ensures
        s.to_set().len() == s.len(),
{
    assert(s.no_duplicates());
    s.unique_seq_to_set();
}

/// The concrete Align / Distribute / Spacing rows: the pads `op`
/// moves, when the selection is large enough for it (two pads, three to
/// distribute). The dropdown closes either way.
pub fn align_pads_targets<P, G>(editor: &mut FootprintEditor<P, G>, op: AlignOp) -> (targets: Option<Vec<usize>>)
    ensures
        selected_existing_pads(old(editor).state).len() >= op.spec_min_pads() <==> targets is Some,
        targets matches Some(t) ==> strictly_increasing(t@) && t@.to_set() == selected_existing_pads(
            old(editor).state,
        ),
        *final(editor) == (FootprintEditor {
            state: FootprintEditorState { active_bar_menu: None, ..old(editor).state },
            ..*old(editor)
        }),
{
    let pads = editor.state.selected_pad_indices();
    proof {
        lemma_increasing_len_is_set_len(pads@);
    }
    editor.state.active_bar_menu = None;
    if pads.len() >= op.min_pads() {
        Some(pads)
    } else {
        None
    }
}

/// Select All from the active bar. In pads mode every pad is selected
/// (pad 0 primary, the rest extras); in sketch mode the first sketch
/// entity becomes primary when nothing is selected yet (`first_entity`
/// is the sketch's first entity, if it has one); in the 3D view nothing
/// is selected. The dropdown closes.
pub fn select_all<P, G>(editor: &mut FootprintEditor<P, G>, first_entity: Option<SketchEntityId>)
    ensures
        ({
            let o = old(editor).state;
            let f = final(editor).state;
            match o.mode {
                EditorMode::Normal => {
                    &&& o.pads@.len() > 0 ==> f.selected_pad == Some(0usize)
                        && f.selected_pads_extra@ == crate::indices::indices_where(
                        o.pads@.len(),
                        |i: int| i > 0,
                    )
                    &&& *final(editor) == (FootprintEditor {
                        state: FootprintEditorState {
                            selected_pad: if o.pads@.len() > 0 {
                                Some(0usize)
                            } else {
                                o.selected_pad
                            },
                            selected_pads_extra: if o.pads@.len() > 0 {
                                f.selected_pads_extra
                            } else {
                                o.selected_pads_extra
                            },
                            active_bar_menu: None,
                            ..o
                        },
                        canvas_stale: true,
                        ..*old(editor)
                    })
                },
                EditorMode::Sketch => *final(editor) == (FootprintEditor {
                    state: FootprintEditorState {
                        selected_sketch: if o.selected_sketch is None {
                            first_entity
                        } else {
                            o.selected_sketch
                        },
                        active_bar_menu: None,
                        ..o
                    },
                    canvas_stale: true,
                    ..*old(editor)
                }),
                EditorMode::View3d => *final(editor) == (FootprintEditor {
                    state: FootprintEditorState { active_bar_menu: None, ..o },
                    canvas_stale: true,
                    ..*old(editor)
                }),
            }
        }),
{
    match editor.state.mode {
        EditorMode::Sketch => {
            if editor.state.selected_sketch.is_none() {
                editor.state.selected_sketch = first_entity;
            }
        },
        EditorMode::Normal => {
            if editor.state.pads.len() > 0 {
                editor.state.selected_pad = Some(0);
                editor.state.selected_pads_extra = crate::context_menu::all_but_first(
                    editor.state.pads.len(),
                );
            }
        },
        EditorMode::View3d => {},
    }
    editor.canvas_stale = true;
    editor.state.active_bar_menu = None;
}

/// Clear every selection (pads, sketch, silk); the dropdown closes.
pub fn clear_selection<P, G>(editor: &mut FootprintEditor<P, G>)
    ensures
        final(editor).state.selected_pads_extra@ == Seq::<usize>::empty(),
        final(editor).state.selected_sketch_extra@ == Seq::<SketchEntityId>::empty(),
        *final(editor) == (FootprintEditor {
            state: FootprintEditorState {
                selected_pad: None,
                selected_pads_extra: final(editor).state.selected_pads_extra,
                selected_sketch: None,
                selected_sketch_secondary: None,
                selected_sketch_extra: final(editor).state.selected_sketch_extra,
                selected_silk_f: None,
                active_bar_menu: None,
                ..old(editor).state
            },
            canvas_stale: true,
            ..*old(editor)
        }),
{
    editor.state.selected_pad = None;
    editor.state.selected_pads_extra.clear();
    editor.state.selected_sketch = None;
    editor.state.selected_sketch_secondary = None;
    editor.state.selected_sketch_extra.clear();
    editor.state.selected_silk_f = None;
    editor.canvas_stale = true;
    editor.state.active_bar_menu = None;
}

/// Arm a sketch tool from the active bar, switching to sketch mode;
/// any in-flight gesture is dropped and the dropdown closes.
pub fn set_sketch_tool<P, G>(editor: &mut FootprintEditor<P, G>, tool: SketchTool)
    ensures
        *final(editor) == (FootprintEditor {
            state: FootprintEditorState {
                mode: EditorMode::Sketch,
                active_tool: tool,
                tool_pending: ToolPending::Idle,
                active_bar_menu: None,
                ..old(editor).state
            },
            canvas_stale: true,
            ..*old(editor)
        }),
{
    if editor.state.mode != EditorMode::Sketch {
        editor.state.mode = EditorMode::Sketch;
    }
    editor.state.active_tool = tool;
    editor.state.tool_pending = ToolPending::Idle;
    editor.state.active_bar_menu = None;
    editor.canvas_stale = true;
}

/// A layer name on the other board side: `F.` and `B.` prefixes swap;
/// names without either prefix are side-agnostic and stay.
pub open spec fn spec_flip_layer(s: Seq<char>) -> Seq<char> {
    if s.len() >= 2 && s[0] == 'F' && s[1] == '.' {
        seq!['B', '.'] + s.subrange(2, s.len() as int)
    } else if s.len() >= 2 && s[0] == 'B' && s[1] == '.' {
        seq!['F', '.'] + s.subrange(2, s.len() as int)
    } else {
        s
    }
}

/// Swap a layer between the front and back side.
pub fn flip_layer(layer: &str) -> (r: String)
    ensures
        r@ == spec_flip_layer(layer@),
{
    let cs = chars_of(layer);
    let n = cs.len();
    if n >= 2 && cs[1] == '.' && (cs[0] == 'F' || cs[0] == 'B') {
        let mut out: Vec<char> = Vec::new();
        out.push(if cs[0] == 'F' {
            'B'
        } else {
            'F'
        });
        out.push('.');
        let mut i: usize = 2;
        while i < n
            invariant
                2 <= i <= n,
                n == cs@.len(),
                out@ == seq![if cs@[0] == 'F' { 'B' } else { 'F' }, '.'] + cs@.subrange(2, i as int),
            decreases n - i,
        {
            out.push(cs[i]);
            assert(cs@.subrange(2, i + 1) == cs@.subrange(2, i as int).push(cs@[i as int]));
            i = i + 1;
        }
        string_from_chars(&out)
    } else {
        string_from_chars(&cs)
    }
}

/// Flipping twice gives the original layer back.
pub proof fn lemma_flip_layer_involution(s: Seq<char>)
    ensures
        spec_flip_layer(spec_flip_layer(s)) == s,
{
    let f = spec_flip_layer(s);
    if s.len() >= 2 && (s[0] == 'F' || s[0] == 'B') && s[1] == '.' {
        assert(f.subrange(2, f.len() as int) =~= s.subrange(2, s.len() as int));
        assert(spec_flip_layer(f) =~= s);
    }
}

} // verus!
