//! Footprint editor — right-click context menu.

use vstd::prelude::*;
use crate::indices::indices_where;
use crate::types::{
    FootprintContextAction, FootprintContextMenuState, FootprintContextSubmenu,
    FootprintContextTarget, FootprintEditor, FootprintEditorState,
};

verus! {

/// Open the context menu at `anchor` on `target`. Any active-bar
/// dropdown closes first. A right-click on a pad that is not already
/// the primary selection makes it the only selected pad (dropping the
/// extras and the silk selection); on a silk graphic likewise for the
/// silk selection; on empty canvas the selection stays.
#[verifier::rlimit(60)]
pub fn show<P, G>(editor: &mut FootprintEditor<P, G>, anchor: P, target: FootprintContextTarget)
    ensures
        ({
            let o = old(editor).state;
            let f = final(editor).state;
            let menu = Some(FootprintContextMenuState { anchor, target, submenu: None });
            match target {
                FootprintContextTarget::Pad(idx) => if o.selected_pad != Some(idx) {
                    &&& f.selected_pads_extra@ == Seq::<usize>::empty()
                    &&& *final(editor) == (FootprintEditor {
                        state: FootprintEditorState {
                            active_bar_menu: None,
                            selected_pad: Some(idx),
                            selected_pads_extra: f.selected_pads_extra,
                            selected_silk_f: None,
                            context_menu: menu,
                            ..o
                        },
                        canvas_stale: true,
                        ..*old(editor)
                    })
                } else {
                    *final(editor) == (FootprintEditor {
                        state: FootprintEditorState {
                            active_bar_menu: None,
                            context_menu: menu,
                            ..o
                        },
                        ..*old(editor)
                    })
                },
                FootprintContextTarget::SilkF(idx) => if o.selected_silk_f != Some(idx) {
                    &&& f.selected_pads_extra@ == Seq::<usize>::empty()
                    &&& *final(editor) == (FootprintEditor {
                        state: FootprintEditorState {
                            active_bar_menu: None,
                            selected_silk_f: Some(idx),
                            selected_pad: None,
                            selected_pads_extra: f.selected_pads_extra,
                            context_menu: menu,
                            ..o
                        },
                        canvas_stale: true,
                        ..*old(editor)
                    })
                } else {
                    *final(editor) == (FootprintEditor {
                        state: FootprintEditorState {
                            active_bar_menu: None,
                            context_menu: menu,
                            ..o
                        },
                        ..*old(editor)
                    })
                },
                FootprintContextTarget::Empty => *final(editor) == (FootprintEditor {
                    state: FootprintEditorState {
                        active_bar_menu: None,
                        context_menu: menu,
                        ..o
                    },
                    ..*old(editor)
                }),
            }
        }),
{
    editor.state.active_bar_menu = None;
    match target {
        FootprintContextTarget::Pad(idx) => {
            if editor.state.selected_pad != Some(idx) {
                editor.state.selected_pad = Some(idx);
                editor.state.selected_pads_extra.clear();
                editor.state.selected_silk_f = None;
                editor.canvas_stale = true;
            }
        },
        FootprintContextTarget::SilkF(idx) => {
            if editor.state.selected_silk_f != Some(idx) {
                editor.state.selected_silk_f = Some(idx);
                editor.state.selected_pad = None;
                editor.state.selected_pads_extra.clear();
                editor.canvas_stale = true;
            }
        },
        FootprintContextTarget::Empty => {},
    }
    editor.state.context_menu = Some(FootprintContextMenuState { anchor, target, submenu: None });
}

/// Close the context menu.
pub fn close<P, G>(editor: &mut FootprintEditor<P, G>)
    ensures
        *final(editor) == (FootprintEditor {
            state: FootprintEditorState { context_menu: None, ..old(editor).state },
            ..*old(editor)
        }),
{
    editor.state.context_menu = None;
}

/// Unfold a submenu (or fold it back); nothing happens without an open
/// menu.
pub fn open_submenu<P, G>(editor: &mut FootprintEditor<P, G>, sm: Option<FootprintContextSubmenu>)
    ensures
        *final(editor) == (FootprintEditor {
            state: FootprintEditorState {
                context_menu: match old(editor).state.context_menu {
                    Some(m) => Some(FootprintContextMenuState { submenu: sm, ..m }),
                    None => None,
                },
                ..old(editor).state
            },
            ..*old(editor)
        }),
{
    if let Some(ref mut menu) = editor.state.context_menu {
        menu.submenu = sm;
    }
}

/// Run a context-menu action; every action closes the menu.
/// - Select All Pads: pad 0 primary, every other pad an extra (nothing
///   changes on an empty footprint).
/// - Deselect All: clears the pad, silk and sketch selections.
/// - Fit to Window: arms the one-shot fit request.
#[verifier::rlimit(60)]
pub fn run_action<P, G>(editor: &mut FootprintEditor<P, G>, action: FootprintContextAction)
    ensures
        ({
            let o = old(editor).state;
            let f = final(editor).state;
            match action {
                FootprintContextAction::SelectAllPads => {
                    &&& o.pads@.len() > 0 ==> f.selected_pad == Some(0usize)
                        && f.selected_pads_extra@ == indices_where(o.pads@.len(), |i: int| i > 0)
                    &&& *final(editor) == (FootprintEditor {
                        state: FootprintEditorState {
                            selected_pad: if o.pads@.len() > 0 { Some(0usize) } else { o.selected_pad },
                            selected_pads_extra: if o.pads@.len() > 0 {
                                f.selected_pads_extra
                            } else {
                                o.selected_pads_extra
                            },
                            context_menu: None,
                            ..o
                        },
                        canvas_stale: true,
                        ..*old(editor)
                    })
                },
                FootprintContextAction::DeselectAll => {
                    &&& f.selected_pads_extra@ == Seq::<usize>::empty()
                    &&& f.selected_sketch_extra@ == Seq::<u64>::empty()
                    &&& *final(editor) == (FootprintEditor {
                        state: FootprintEditorState {
                            selected_pad: None,
                            selected_pads_extra: f.selected_pads_extra,
                            selected_silk_f: None,
                            selected_sketch: None,
                            selected_sketch_secondary: None,
                            selected_sketch_extra: f.selected_sketch_extra,
                            context_menu: None,
                            ..o
                        },
                        canvas_stale: true,
                        ..*old(editor)
                    })
                },
                FootprintContextAction::FitToWindow => *final(editor) == (FootprintEditor {
                    state: FootprintEditorState { fit_pending: true, context_menu: None, ..o },
                    canvas_stale: true,
                    ..*old(editor)
                }),
            }
        }),
{
    match action {
        FootprintContextAction::SelectAllPads => {
            if editor.state.pads.len() > 0 {
                editor.state.selected_pad = Some(0);
                editor.state.selected_pads_extra = all_but_first(editor.state.pads.len());
            }
            editor.state.context_menu = None;
            editor.canvas_stale = true;
        },
        FootprintContextAction::DeselectAll => {
            editor.state.selected_pad = None;
            editor.state.selected_pads_extra.clear();
            editor.state.selected_silk_f = None;
            editor.state.selected_sketch = None;
            editor.state.selected_sketch_secondary = None;
            editor.state.selected_sketch_extra.clear();
            editor.state.context_menu = None;
            editor.canvas_stale = true;
        },
        FootprintContextAction::FitToWindow => {
            editor.state.fit_pending = true;
            editor.state.context_menu = None;
            editor.canvas_stale = true;
        },
    }
}

/// The positions `1..n`.
pub fn all_but_first(n: usize) -> (out: Vec<usize>)
    ensures
        out@ == indices_where(n as nat, |i: int| i > 0),
{
    let mut out: Vec<usize> = Vec::new();
    let mut i: usize = 0;
    while i < n
        invariant
            i <= n,
            out@ == indices_where(i as nat, |k: int| k > 0),
        decreases n - i,
    {
        if i > 0 {
            out.push(i);
        }
        i = i + 1;
    }
    out
}

} // verus!
