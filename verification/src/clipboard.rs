//! Footprint editor — Cut / Copy / Paste of a pad through the
//! document-level pad clipboard.

use vstd::prelude::*;
use crate::decimal::{decimal_digits, parse_u64, parse_unsigned, u64_to_decimal};
use crate::removal::spec_adjust_selection_after_remove;
use crate::types::{EditorPad, FootprintEditor, FootprintEditorState};

verus! {

/// Largest designator among `pads` that reads as an unsigned 64-bit
/// number, if any does.
pub open spec fn max_numeric_designator<P>(pads: Seq<EditorPad<P>>) -> Option<nat>
    decreases pads.len(),
{
    if pads.len() == 0 {
        None
    } else {
        let rest = max_numeric_designator(pads.drop_last());
        match parse_unsigned(pads.last().number@, u64::MAX as nat) {
            Some(v) => match rest {
                Some(m) => Some(if v > m { v } else { m }),
                None => Some(v),
            },
            None => rest,
        }
    }
}

/// Designator of a pasted pad: one more than the largest numeric
/// designator, or the template's own when no designator is numeric.
pub open spec fn paste_designator<P>(pads: Seq<EditorPad<P>>, template_number: Seq<char>) -> Seq<
    char,
> {
    match max_numeric_designator(pads) {
        Some(m) => decimal_digits(m + 1),
        None => template_number,
    }
}

/// The largest numeric designator is at least every numeric designator
/// and is one of them.
pub proof fn lemma_max_numeric_designator<P>(pads: Seq<EditorPad<P>>)
    ensures
        forall|i: int|
            0 <= i < pads.len() ==> match parse_unsigned(#[trigger] pads[i].number@, u64::MAX as nat) {
                Some(v) => max_numeric_designator(pads) is Some && v <= max_numeric_designator(
                    pads,
                ).unwrap(),
                None => true,
            },
        max_numeric_designator(pads) is Some ==> max_numeric_designator(pads).unwrap()
            <= u64::MAX,
    decreases pads.len(),
{
    if pads.len() > 0 {
        lemma_max_numeric_designator(pads.drop_last());
        assert forall|i: int|
            0 <= i < pads.len() implies match parse_unsigned(
            #[trigger] pads[i].number@,
            u64::MAX as nat,
        ) {
            Some(v) => max_numeric_designator(pads) is Some && v <= max_numeric_designator(
                pads,
            ).unwrap(),
            None => true,
        } by {
            if i < pads.len() - 1 {
                assert(pads.drop_last()[i] == pads[i]);
            }
        }
    }
}

/// The designator a pasted pad gets (see `paste_designator`).
pub fn next_pad_designator<P>(pads: &Vec<EditorPad<P>>, template_number: &String) -> (r: String)
    requires
        max_numeric_designator(pads@) != Some(u64::MAX as nat),
    ensures
        r@ == paste_designator(pads@, template_number@),
{
    let mut best: Option<u64> = None;
    let mut i: usize = 0;
    while i < pads.len()
        invariant
            i <= pads@.len(),
            max_numeric_designator(pads@.take(i as int)) == (match best {
                Some(b) => Some(b as nat),
                None => None,
            }),
        decreases pads@.len() - i,
    {
        assert(pads@.take(i + 1).drop_last() == pads@.take(i as int));
        assert(pads@.take(i + 1).last() == pads@[i as int]);
        match parse_u64(pads[i].number.as_str()) {
            Some(v) => {
                best = match best {
                    Some(m) => Some(if v > m { v } else { m }),
                    None => Some(v),
                };
            },
            None => {},
        }
        i = i + 1;
    }
    assert(pads@.take(pads@.len() as int) == pads@);
    match best {
        Some(m) => u64_to_decimal(m + 1),
        None => template_number.clone(),
    }
}

/// What Copy leaves in the clipboard (`before` → `after`).
pub open spec fn copied<P, G>(
    editor: FootprintEditor<P, G>,
    before: Option<EditorPad<P>>,
    after: Option<EditorPad<P>>,
) -> bool {
    let st = editor.state;
    match st.selected_pad {
        Some(idx) => if idx < st.pads@.len() {
            after is Some && same_pad(after.unwrap(), st.pads@[idx as int])
        } else {
            after == before
        },
        None => after == before,
    }
}

/// Copy: the selected pad (if one is selected and exists) goes to the
/// clipboard; nothing else changes.
pub fn copy_pad<P: Copy, G>(editor: &FootprintEditor<P, G>, clipboard: &mut Option<EditorPad<P>>)
    ensures
        copied(*editor, *old(clipboard), *final(clipboard)),
{
    if let Some(idx) = editor.state.selected_pad {
        if idx < editor.state.pads.len() {
            *clipboard = Some(editor.state.pads[idx].duplicate());
        }
    }
}

/// Two pads agree field by field.
pub open spec fn same_pad<P>(a: EditorPad<P>, b: EditorPad<P>) -> bool {
    &&& a.number@ == b.number@
    &&& a.layer == b.layer
    &&& a.position == b.position
    &&& a.sketch_entity_id == b.sketch_entity_id
    &&& a.corner_entity_ids.is_some() == b.corner_entity_ids.is_some()
    &&& a.corner_entity_ids.is_some() ==> a.corner_entity_ids.unwrap()@
        == b.corner_entity_ids.unwrap()@
}

/// What Cut does to the editor (`before` → `after`) and the clipboard,
/// and whether it cut a pad.
pub open spec fn cut<P, G>(
    before: FootprintEditor<P, G>,
    after: FootprintEditor<P, G>,
    clip_before: Option<EditorPad<P>>,
    clip_after: Option<EditorPad<P>>,
    did_cut: bool,
) -> bool {
    let o = before.state;
    let cuts = o.selected_pad is Some && o.selected_pad.unwrap() < o.pads@.len();
    &&& did_cut == cuts
    &&& !cuts ==> after == before && clip_after == clip_before
    &&& cuts ==> {
        let idx = o.selected_pad.unwrap();
        &&& clip_after is Some
        &&& same_pad(clip_after.unwrap(), o.pads@[idx as int])
        &&& after.state.pads@ == o.pads@.remove(idx as int)
        &&& after == (FootprintEditor {
            state: FootprintEditorState {
                pads: after.state.pads,
                selected_pad: spec_adjust_selection_after_remove(o.selected_pad, idx),
                ..o
            },
            canvas_stale: true,
            dirty: true,
            ..before
        })
    }
}

/// Cut: with a selected, existing pad, it goes to the clipboard and is
/// deleted (the selection is kept valid), and the document is dirty.
/// Returns whether a pad was cut; the caller then removes its mirror
/// from the backing sketch.
pub fn cut_pad<P: Copy, G>(editor: &mut FootprintEditor<P, G>, clipboard: &mut Option<EditorPad<P>>) -> (did_cut: bool)
    ensures
        cut(*old(editor), *final(editor), *old(clipboard), *final(clipboard), did_cut),
{
    let idx = match editor.state.selected_pad {
        Some(i) => i,
        None => return false,
    };
    if idx >= editor.state.pads.len() {
        return false;
    }
    *clipboard = Some(editor.state.pads[idx].duplicate());
    editor.state.delete_pad(idx);
    editor.canvas_stale = true;
    editor.dirty = true;
    true
}

/// What Paste does to the editor (`before` → `after`), and whether it
/// pasted a pad.
pub open spec fn pasted_pad<P, G>(
    before: FootprintEditor<P, G>,
    after: FootprintEditor<P, G>,
    clipboard: Option<EditorPad<P>>,
    offset_position: P,
    pasted: bool,
) -> bool {
    &&& pasted == clipboard.is_some()
    &&& clipboard is None ==> after == before
    &&& clipboard matches Some(template) ==> {
        let o = before.state;
        let n = o.pads@.len();
        let new_pad = after.state.pads@[n as int];
        &&& after.state.pads@.len() == n + 1
        &&& after.state.pads@.take(n as int) == o.pads@
        &&& new_pad.number@ == paste_designator(o.pads@, template.number@)
        &&& new_pad.layer == template.layer
        &&& new_pad.position == (match o.cursor_mm {
            Some(c) => c,
            None => offset_position,
        })
        &&& new_pad.sketch_entity_id is None
        &&& new_pad.corner_entity_ids is None
        &&& after == (FootprintEditor {
            state: FootprintEditorState {
                pads: after.state.pads,
                selected_pad: Some(n as usize),
                ..o
            },
            canvas_stale: true,
            dirty: true,
            ..before
        })
    }
}

/// Paste: a copy of the clipboard pad is appended and becomes the
/// (only primary) selection. It is placed at the cursor, or at
/// `offset_position` (the template's position moved one millimetre
/// diagonally, computed by the caller) when the cursor is unknown; it
/// gets the designator `paste_designator` and no sketch links. Returns
/// whether a pad was pasted (not with an empty clipboard).
pub fn paste_pad<P: Copy, G>(
    editor: &mut FootprintEditor<P, G>,
    clipboard: &Option<EditorPad<P>>,
    offset_position: P,
) -> (pasted: bool)
    requires
        max_numeric_designator(old(editor).state.pads@) != Some(u64::MAX as nat),
    ensures
        pasted_pad(*old(editor), *final(editor), *clipboard, offset_position, pasted),
{
    let template = match clipboard {
        Some(t) => t,
        None => return false,
    };
    let pos = match editor.state.cursor_mm {
        Some(c) => c,
        None => offset_position,
    };
    let number = next_pad_designator(&editor.state.pads, &template.number);
    let new_pad = EditorPad {
        number,
        layer: template.layer,
        position: pos,
        sketch_entity_id: None,
        corner_entity_ids: None,
    };
    editor.state.pads.push(new_pad);
    let new_idx = editor.state.pads.len() - 1;
    editor.state.selected_pad = Some(new_idx);
    editor.canvas_stale = true;
    editor.dirty = true;
    assert(editor.state.pads@.take(new_idx as int) =~= old(editor).state.pads@);
    true
}

/// When some designator is numeric, the pasted pad's designator differs
/// from every existing one.
pub proof fn lemma_paste_designator_is_fresh<P>(pads: Seq<EditorPad<P>>, template_number: Seq<char>)
    requires
        max_numeric_designator(pads) is Some,
        max_numeric_designator(pads) != Some(u64::MAX as nat),
    ensures
        forall|i: int| 0 <= i < pads.len() ==> #[trigger] pads[i].number@ != paste_designator(
            pads,
            template_number,
        ),
{
    lemma_max_numeric_designator(pads);
    let m = max_numeric_designator(pads).unwrap();
    crate::decimal::lemma_decimal_digits_value(m + 1);
    let d = decimal_digits(m + 1);
    assert(crate::decimal::unsigned_digits(d) == d);
    assert(parse_unsigned(d, u64::MAX as nat) == Some(m + 1));
    assert forall|i: int| 0 <= i < pads.len() implies #[trigger] pads[i].number@ != paste_designator(
        pads,
        template_number,
    ) by {
        if pads[i].number@ == d {
            assert(parse_unsigned(pads[i].number@, u64::MAX as nat) == Some(m + 1));
        }
    }
}

/// The three clipboard operations on pads.
#[derive(Clone, Copy, Debug, PartialEq, Eq, Structural)]
pub enum ClipboardOp {
    Copy,
    Cut,
    Paste,
}

/// Apply a clipboard operation (see `copy_pad`, `cut_pad`,
/// `paste_pad`). Returns whether the footprint changed, so the caller
/// takes its undo snapshot and mirrors the change into the sketch.
pub fn apply_footprint_clipboard_op<P: Copy, G>(
    editor: &mut FootprintEditor<P, G>,
    clipboard: &mut Option<EditorPad<P>>,
    op: ClipboardOp,
    offset_position: P,
) -> (changed: bool)
    requires
        op == ClipboardOp::Paste ==> max_numeric_designator(old(editor).state.pads@) != Some(
            u64::MAX as nat,
        ),
    ensures
        match op {
            ClipboardOp::Copy => {
                &&& copied(*old(editor), *old(clipboard), *final(clipboard))
                &&& *final(editor) == *old(editor)
                &&& !changed
            },
            ClipboardOp::Cut => cut(
                *old(editor),
                *final(editor),
                *old(clipboard),
                *final(clipboard),
                changed,
            ),
            ClipboardOp::Paste => {
                &&& pasted_pad(*old(editor), *final(editor), *old(clipboard), offset_position, changed)
                &&& *final(clipboard) == *old(clipboard)
            },
        },
{
    match op {
        ClipboardOp::Copy => {
            copy_pad(editor, clipboard);
            false
        },
        ClipboardOp::Cut => cut_pad(editor, clipboard),
        ClipboardOp::Paste => paste_pad(editor, clipboard, offset_position),
    }
}

} // verus!
