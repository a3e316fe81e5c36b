//! Footprint sketch mode — the bridge between sketch entities and pads:
//! keeping the pad list in step with Pad roles, and choosing the line
//! that seeds "Make Pad from Profile".

use vstd::prelude::*;
use crate::constraints::{find_kind, kind_of, EntityKindTag, EntityRef};
use crate::draw_tools::LineRef;
use crate::removal::spec_adjust_selection_after_remove;
use crate::selection::sketch_selection;
use crate::types::{EditorPad, FootprintEditor, FootprintEditorState, SketchEntityId};

verus! {

/// Position of the first pad linked to sketch entity `id`, or -1.
pub open spec fn pad_of_entity<P>(pads: Seq<EditorPad<P>>, id: SketchEntityId) -> int
    decreases pads.len(),
{
    if pads.len() == 0 {
        -1
    } else if pads[0].sketch_entity_id == Some(id) {
        0
    } else {
        let rest = pad_of_entity(pads.drop_first(), id);
        if rest < 0 {
            -1
        } else {
            rest + 1
        }
    }
}

fn find_pad_of_entity<P>(pads: &Vec<EditorPad<P>>, id: SketchEntityId) -> (r: Option<usize>)
    ensures
        match r {
            Some(i) => i == pad_of_entity(pads@, id) && i < pads@.len(),
            None => pad_of_entity(pads@, id) < 0,
        },
{
    let mut i: usize = 0;
    assert(pads@.skip(0) =~= pads@);
    while i < pads.len()
        invariant
            i <= pads@.len(),
            pad_of_entity(pads@, id) == (if pad_of_entity(pads@.skip(i as int), id) < 0 {
                -1
            } else {
                pad_of_entity(pads@.skip(i as int), id) + i
            }),
        decreases pads@.len() - i,
    {
        assert(pads@.skip(i as int).drop_first() =~= pads@.skip(i + 1));
        assert(pads@.skip(i as int)[0] == pads@[i as int]);
        if pads[i].sketch_entity_id == Some(id) {
            return Some(i);
        }
        i = i + 1;
    }
    assert(pads@.skip(i as int).len() == 0);
    None
}

/// How the pad list followed a role change.
#[derive(Clone, Copy, Debug, PartialEq, Eq, Structural)]
pub enum RoleSync {
    /// The entity became a pad: `new_pad` was appended.
    Added,
    /// The entity stopped being a pad: its pad at this position went.
    Removed(usize),
    /// The pad list already agreed.
    Unchanged,
}

/// After the role of sketch entity `id` changed, bring the pad list in
/// step: `has_pad` tells whether the entity now carries a pad. A new
/// pad (`new_pad`, built by the caller from the entity) is appended
/// when none is linked yet; the linked pad is removed, keeping the
/// primary selection on the same pad, when the entity no longer
/// carries one. The footprint is marked changed either way.
pub fn sync_pad_role<P, G>(
    editor: &mut FootprintEditor<P, G>,
    id: SketchEntityId,
    has_pad: bool,
    new_pad: EditorPad<P>,
) -> (sync: RoleSync)
    ensures
        ({
            let o = old(editor).state;
            let at = pad_of_entity(o.pads@, id);
            &&& has_pad && at < 0 ==> sync == RoleSync::Added && final(editor).state.pads@
                == o.pads@.push(new_pad)
            &&& !has_pad && at >= 0 ==> sync == RoleSync::Removed(at as usize)
                && final(editor).state.pads@ == o.pads@.remove(at)
            &&& (has_pad == (at >= 0)) ==> sync == RoleSync::Unchanged && final(editor).state.pads
                == o.pads
            &&& *final(editor) == (FootprintEditor {
                state: FootprintEditorState {
                    pads: final(editor).state.pads,
                    selected_pad: if !has_pad && at >= 0 {
                        spec_adjust_selection_after_remove(o.selected_pad, at as usize)
                    } else {
                        o.selected_pad
                    },
                    ..o
                },
                dirty: true,
                canvas_stale: true,
                ..*old(editor)
            })
        }),
{
    let existing = find_pad_of_entity(&editor.state.pads, id);
    let sync = match (has_pad, existing) {
        (true, None) => {
            editor.state.pads.push(new_pad);
            RoleSync::Added
        },
        (false, Some(idx)) => {
            editor.state.delete_pad(idx);
            RoleSync::Removed(idx)
        },
        _ => RoleSync::Unchanged,
    };
    editor.dirty = true;
    editor.canvas_stale = true;
    sync
}

/// First element of `sel` that is a line.
pub open spec fn first_line_in(entities: Seq<EntityRef>, sel: Seq<SketchEntityId>) -> Option<
    SketchEntityId,
>
    decreases sel.len(),
{
    if sel.len() == 0 {
        None
    } else if kind_of(entities, sel[0]) == Some(EntityKindTag::Line) {
        Some(sel[0])
    } else {
        first_line_in(entities, sel.drop_first())
    }
}

/// First line of `lines` with `point` as an end.
pub open spec fn first_line_at(lines: Seq<LineRef>, point: SketchEntityId) -> Option<SketchEntityId>
    decreases lines.len(),
{
    if lines.len() == 0 {
        None
    } else if lines[0].start == point || lines[0].end == point {
        Some(lines[0].id)
    } else {
        first_line_at(lines.drop_first(), point)
    }
}

/// For the first element of `sel` that is a point with a line at it,
/// that line.
pub open spec fn first_incident_line(
    entities: Seq<EntityRef>,
    lines: Seq<LineRef>,
    sel: Seq<SketchEntityId>,
) -> Option<SketchEntityId>
    decreases sel.len(),
{
    if sel.len() == 0 {
        None
    } else if kind_of(entities, sel[0]) == Some(EntityKindTag::Point) && first_line_at(
        lines,
        sel[0],
    ) is Some {
        first_line_at(lines, sel[0])
    } else {
        first_incident_line(entities, lines, sel.drop_first())
    }
}

/// The first line entity of the sketch.
pub open spec fn first_line_entity(entities: Seq<EntityRef>) -> Option<SketchEntityId>
    decreases entities.len(),
{
    if entities.len() == 0 {
        None
    } else if entities[0].kind == EntityKindTag::Line {
        Some(entities[0].id)
    } else {
        first_line_entity(entities.drop_first())
    }
}

/// The seed line of "Make Pad from Profile": a selected line, else a
/// line at a selected point, else any line of the sketch.
pub open spec fn profile_seed(
    entities: Seq<EntityRef>,
    lines: Seq<LineRef>,
    sel: Seq<SketchEntityId>,
) -> Option<SketchEntityId> {
    match first_line_in(entities, sel) {
        Some(l) => Some(l),
        None => match first_incident_line(entities, lines, sel) {
            Some(l) => Some(l),
            None => first_line_entity(entities),
        },
    }
}

/// Warning when the sketch has no line to seed a profile pad.
pub open spec fn no_lines_text() -> Seq<char> {
    "Make Pad from Profile: no Lines in the sketch \u{2014} draw a closed shape first"@
}

fn scan_selected_line(entities: &Vec<EntityRef>, sel: &Vec<SketchEntityId>) -> (r: Option<
    SketchEntityId,
>)
    ensures
        r == first_line_in(entities@, sel@),
{
    let mut i: usize = 0;
    assert(sel@.skip(0) =~= sel@);
    while i < sel.len()
        invariant
            i <= sel@.len(),
            first_line_in(entities@, sel@) == first_line_in(entities@, sel@.skip(i as int)),
        decreases sel@.len() - i,
    {
        assert(sel@.skip(i as int).drop_first() =~= sel@.skip(i + 1));
        assert(sel@.skip(i as int)[0] == sel@[i as int]);
        if let Some(EntityKindTag::Line) = find_kind(entities, sel[i]) {
            return Some(sel[i]);
        }
        i = i + 1;
    }
    None
}

fn scan_line_at(lines: &Vec<LineRef>, point: SketchEntityId) -> (r: Option<SketchEntityId>)
    ensures
        r == first_line_at(lines@, point),
{
    let mut i: usize = 0;
    assert(lines@.skip(0) =~= lines@);
    while i < lines.len()
        invariant
            i <= lines@.len(),
            first_line_at(lines@, point) == first_line_at(lines@.skip(i as int), point),
        decreases lines@.len() - i,
    {
        assert(lines@.skip(i as int).drop_first() =~= lines@.skip(i + 1));
        assert(lines@.skip(i as int)[0] == lines@[i as int]);
        if lines[i].start == point || lines[i].end == point {
            return Some(lines[i].id);
        }
        i = i + 1;
    }
    None
}

fn scan_incident_line(
    entities: &Vec<EntityRef>,
    lines: &Vec<LineRef>,
    sel: &Vec<SketchEntityId>,
) -> (r: Option<SketchEntityId>)
    ensures
        r == first_incident_line(entities@, lines@, sel@),
{
    let mut i: usize = 0;
    assert(sel@.skip(0) =~= sel@);
    while i < sel.len()
        invariant
            i <= sel@.len(),
            first_incident_line(entities@, lines@, sel@) == first_incident_line(
                entities@,
                lines@,
                sel@.skip(i as int),
            ),
        decreases sel@.len() - i,
    {
        assert(sel@.skip(i as int).drop_first() =~= sel@.skip(i + 1));
        assert(sel@.skip(i as int)[0] == sel@[i as int]);
        if let Some(EntityKindTag::Point) = find_kind(entities, sel[i]) {
            if let Some(l) = scan_line_at(lines, sel[i]) {
                return Some(l);
            }
        }
        i = i + 1;
    }
    None
}

fn scan_any_line(entities: &Vec<EntityRef>) -> (r: Option<SketchEntityId>)
    ensures
        r == first_line_entity(entities@),
{
    let mut i: usize = 0;
    assert(entities@.skip(0) =~= entities@);
    while i < entities.len()
        invariant
            i <= entities@.len(),
            first_line_entity(entities@) == first_line_entity(entities@.skip(i as int)),
        decreases entities@.len() - i,
    {
        assert(entities@.skip(i as int).drop_first() =~= entities@.skip(i + 1));
        assert(entities@.skip(i as int)[0] == entities@[i as int]);
        if let EntityKindTag::Line = entities[i].kind {
            return Some(entities[i].id);
        }
        i = i + 1;
    }
    None
}

fn selection_list<P, G>(editor: &FootprintEditor<P, G>) -> (r: Vec<SketchEntityId>)
    ensures
        r@ == sketch_selection(editor.state),
{
    let mut r: Vec<SketchEntityId> = Vec::new();
    if let Some(id) = editor.state.selected_sketch {
        r.push(id);
    }
    if let Some(id) = editor.state.selected_sketch_secondary {
        r.push(id);
    }
    let ghost head = r@;
    let mut i: usize = 0;
    while i < editor.state.selected_sketch_extra.len()
        invariant
            i <= editor.state.selected_sketch_extra@.len(),
            r@ == head + editor.state.selected_sketch_extra@.take(i as int),
        decreases editor.state.selected_sketch_extra@.len() - i,
    {
        r.push(editor.state.selected_sketch_extra[i]);
        assert(editor.state.selected_sketch_extra@.take(i + 1)
            =~= editor.state.selected_sketch_extra@.take(i as int).push(
            editor.state.selected_sketch_extra@[i as int],
        ));
        i = i + 1;
    }
    assert(editor.state.selected_sketch_extra@.take(i as int)
        =~= editor.state.selected_sketch_extra@);
    assert(r@ =~= sketch_selection(editor.state));
    r
}

/// The line that seeds "Make Pad from Profile" (see `profile_seed`,
/// over the sketch selection: primary, secondary, extras). Without any
/// line a warning is added and the canvas redraws.
pub fn profile_seed_line<P, G>(
    editor: &mut FootprintEditor<P, G>,
    entities: &Vec<EntityRef>,
    lines: &Vec<LineRef>,
) -> (seed: Option<SketchEntityId>)
    ensures
        seed == profile_seed(entities@, lines@, sketch_selection(old(editor).state)),
        seed is Some ==> *final(editor) == *old(editor),
        seed is None ==> {
            &&& final(editor).state.solve_warnings@ == old(editor).state.solve_warnings@.push(
                final(editor).state.solve_warnings@.last(),
            )
            &&& final(editor).state.solve_warnings@.last()@ == no_lines_text()
            &&& *final(editor) == (FootprintEditor {
                state: FootprintEditorState {
                    solve_warnings: final(editor).state.solve_warnings,
                    ..old(editor).state
                },
                canvas_stale: true,
                ..*old(editor)
            })
        },
{
    let sel = selection_list(editor);
    let seed = match scan_selected_line(entities, &sel) {
        Some(l) => Some(l),
        None => match scan_incident_line(entities, lines, &sel) {
            Some(l) => Some(l),
            None => scan_any_line(entities),
        },
    };
    if seed.is_none() {
        editor.state.solve_warnings.push(
            String::from_str(
                "Make Pad from Profile: no Lines in the sketch \u{2014} draw a closed shape first",
            ),
        );
        editor.canvas_stale = true;
    }
    seed
}

/// Position of the first pad with `id` among its outline corners, or -1.
pub open spec fn pad_with_corner<P>(pads: Seq<EditorPad<P>>, id: SketchEntityId) -> int
    decreases pads.len(),
{
    if pads.len() == 0 {
        -1
    } else if pads[0].corner_entity_ids matches Some(c) && c@.contains(id) {
        0
    } else {
        let rest = pad_with_corner(pads.drop_first(), id);
        if rest < 0 {
            -1
        } else {
            rest + 1
        }
    }
}

/// What dragging sketch point `id` drags along.
pub struct DragPlan {
    /// The pad whose centre the point is; it moves with the point.
    pub centre_pad: Option<usize>,
    /// That pad's outline corners, moved by the same offset.
    pub also_move: Vec<SketchEntityId>,
    /// The pad with the point among its corners; it is re-fitted to
    /// its corners after the move.
    pub corner_pad: Option<usize>,
}

fn find_pad_with_corner<P>(pads: &Vec<EditorPad<P>>, id: SketchEntityId) -> (r: Option<usize>)
    ensures
        match r {
            Some(i) => i == pad_with_corner(pads@, id) && i < pads@.len(),
            None => pad_with_corner(pads@, id) < 0,
        },
{
    let mut i: usize = 0;
    assert(pads@.skip(0) =~= pads@);
    while i < pads.len()
        invariant
            i <= pads@.len(),
            pad_with_corner(pads@, id) == (if pad_with_corner(pads@.skip(i as int), id) < 0 {
                -1
            } else {
                pad_with_corner(pads@.skip(i as int), id) + i
            }),
        decreases pads@.len() - i,
    {
        assert(pads@.skip(i as int).drop_first() =~= pads@.skip(i + 1));
        assert(pads@.skip(i as int)[0] == pads@[i as int]);
        let hit = match &pads[i].corner_entity_ids {
            Some(c) => {
                let mut k: usize = 0;
                let mut found = false;
                while k < c.len()
                    invariant
                        k <= c@.len(),
                        found == (exists|j: int| 0 <= j < k && c@[j] == id),
                    decreases c@.len() - k,
                {
                    if c[k] == id {
                        found = true;
                    }
                    k = k + 1;
                }
                assert(found == c@.contains(id));
                found
            },
            None => false,
        };
        if hit {
            return Some(i);
        }
        i = i + 1;
    }
    assert(pads@.skip(i as int).len() == 0);
    None
}

/// What dragging sketch point `id` takes along (see `DragPlan`): the
/// first pad with that centre and its corners, and the first pad with
/// that point as a corner.
pub fn drag_plan<P>(pads: &Vec<EditorPad<P>>, id: SketchEntityId) -> (plan: DragPlan)
    ensures
        ({
            let c = pad_of_entity(pads@, id);
            &&& c < 0 ==> plan.centre_pad is None && plan.also_move@.len() == 0
            &&& c >= 0 ==> plan.centre_pad == Some(c as usize) && plan.also_move@ == (
            match pads@[c].corner_entity_ids {
                Some(v) => v@,
                None => Seq::empty(),
            })
            &&& match plan.corner_pad {
                Some(k) => k == pad_with_corner(pads@, id),
                None => pad_with_corner(pads@, id) < 0,
            }
        }),
{
    let centre = find_pad_of_entity(pads, id);
    let also_move = match centre {
        Some(i) => match &pads[i].corner_entity_ids {
            Some(v) => v.clone(),
            None => Vec::new(),
        },
        None => Vec::new(),
    };
    DragPlan { centre_pad: centre, also_move, corner_pad: find_pad_with_corner(pads, id) }
}

} // verus!
